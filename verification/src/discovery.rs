//! LAN discovery of agents over mDNS: the names an agent registers under.

use vstd::prelude::*;
use crate::text::{ends_with, str_chars, ends_with_chars};

verus! {

/// The mDNS service type of Berth agents.
pub const SERVICE_TYPE: &'static str = "_berth._tcp.local.";

/// An agent found on the LAN.
pub struct DiscoveredAgent {
    pub name: String,
    pub host: String,
    pub port: u16,
    pub addresses: Vec<String>,
}

/// The host name to register, which mDNS wants to end in `.local.`.
pub open spec fn mdns_hostname_of(raw: Seq<char>) -> Seq<char> {
    if ends_with(raw, ".local"@) {
        raw + "."@
    } else if ends_with(raw, ".local."@) {
        raw
    } else {
        raw + ".local."@
    }
}

/// The mDNS host name of a machine.
pub fn mdns_hostname(raw: &str) -> (s: String)
    ensures
        s@ == mdns_hostname_of(raw@),
{
    let r = str_chars(raw);
    let mut s = raw.to_owned();
    if ends_with_chars(&r, &str_chars(".local")) {
        s.append(".");
    } else if !ends_with_chars(&r, &str_chars(".local.")) {
        s.append(".local.");
    }
    s
}

/// `berth-agent-{hostname}`, the instance an agent registers.
pub fn instance_name(raw: &str) -> (s: String)
    ensures
        s@ == "berth-agent-"@ + raw@,
{
    let mut s = "berth-agent-".to_owned();
    s.append(raw);
    s
}

} // verus!
