//! Public tunnels to a project's local port: the providers, the URL a
//! provider prints, and the table of active tunnels by project.

use vstd::prelude::*;
use crate::text::{
    contains, find_str, take_until_ws, decimal, str_chars, find_str_chars, take_until_ws_chars,
    contains_chars, slice_chars, string_from_chars, u64_to_decimal, strings,
};

verus! {

/// Supported tunnel providers.
pub enum TunnelProvider {
    Cloudflared,
}

/// The name a provider is reported under.
pub fn provider_name(p: &TunnelProvider) -> (s: String)
    ensures
        s@ == "cloudflared"@,
{
    match p {
        TunnelProvider::Cloudflared => "cloudflared".to_owned(),
    }
}

/// The error for a provider name that is not supported.
pub open spec fn unknown_provider_error(name: Seq<char>) -> Seq<char> {
    "Unknown tunnel provider: "@ + name + ". Available: cloudflared"@
}

/// The provider a publish request names; an empty name means cloudflared.
pub fn parse_provider(name: &str) -> (r: Result<TunnelProvider, String>)
    ensures
        (name@ == "cloudflared"@ || name@.len() == 0) <==> r is Ok,
        r matches Err(e) ==> e@ == unknown_provider_error(name@),
{
    if crate::text::str_eq(name, "cloudflared") || name.unicode_len() == 0 {
        Ok(TunnelProvider::Cloudflared)
    } else {
        let mut e = "Unknown tunnel provider: ".to_owned();
        e.append(name);
        e.append(". Available: cloudflared");
        Err(e)
    }
}

/// The providers whose binary answered `--version` on this machine.
pub fn available_providers(cloudflared_available: bool) -> (v: Vec<String>)
    ensures
        strings(v@) == (if cloudflared_available { seq!["cloudflared"@] } else { Seq::<Seq<char>>::empty() }),
{
    let mut v: Vec<String> = Vec::new();
    if cloudflared_available {
        v.push("cloudflared".to_owned());
        assert(strings(v@) =~= seq!["cloudflared"@]);
    } else {
        assert(strings(v@) =~= Seq::<Seq<char>>::empty());
    }
    v
}

/// `http://127.0.0.1:{port}`, the local address a tunnel forwards to.
pub fn local_url(port: u16) -> (s: String)
    ensures
        s@ == "http://127.0.0.1:"@ + decimal(port as nat),
{
    let mut s = "http://127.0.0.1:".to_owned();
    let p = u64_to_decimal(port as u64);
    s.append(p.as_str());
    s
}

/// The URL on a log line: from the first `https://` to the next white
/// space, when it contains `domain`.
pub open spec fn url_in_line(line: Seq<char>, domain: Seq<char>) -> Option<Seq<char>> {
    match find_str(line, "https://"@) {
        Some(start) => {
            let url = take_until_ws(line.skip(start));
            if contains(url, domain) {
                Some(url)
            } else {
                None
            }
        },
        None => None,
    }
}

/// Extracts a URL containing `domain` from a log line.
pub fn extract_url(line: &str, domain: &str) -> (r: Option<String>)
    ensures
        match r {
            Some(u) => url_in_line(line@, domain@) == Some(u@),
            None => url_in_line(line@, domain@) is None,
        },
{
    let l = str_chars(line);
    match find_str_chars(&l, &str_chars("https://")) {
        Some(start) => {
            let rest = slice_chars(&l, start, l.len());
            assert(rest@ == l@.skip(start as int));
            let url = take_until_ws_chars(&rest);
            if contains_chars(&url, &str_chars(domain)) {
                Some(string_from_chars(&url))
            } else {
                None
            }
        },
        None => None,
    }
}

/// An active tunnel.
pub struct TunnelInfo {
    pub project_id: String,
    pub provider: String,
    pub public_url: String,
    pub local_port: u16,
    /// Unix seconds.
    pub started_at: i64,
}

/// No project has two entries.
pub open spec fn distinct_keys<H>(s: Seq<(TunnelInfo, H)>) -> bool {
    forall|i: int, j: int| 0 <= i < j < s.len() ==> s[i].0.project_id@ != s[j].0.project_id@
}

/// The tunnels of a table, by project id.
pub open spec fn entries_map<H>(s: Seq<(TunnelInfo, H)>) -> Map<Seq<char>, TunnelInfo>
    decreases s.len(),
{
    if s.len() == 0 {
        Map::empty()
    } else {
        entries_map(s.drop_last()).insert(s.last().0.project_id@, s.last().0)
    }
}

proof fn lemma_entries_map_dom<H>(s: Seq<(TunnelInfo, H)>, k: Seq<char>)
    ensures
        entries_map(s).dom().contains(k) <==> exists|i: int| 0 <= i < s.len() && s[i].0.project_id@ == k,
    decreases s.len(),
{
    if s.len() > 0 {
        let t = s.drop_last();
        lemma_entries_map_dom(t, k);
        if entries_map(s).dom().contains(k) && s.last().0.project_id@ != k {
            let i = choose|i: int| 0 <= i < t.len() && t[i].0.project_id@ == k;
            assert(s[i] == t[i]);
        }
        if exists|i: int| 0 <= i < s.len() && s[i].0.project_id@ == k {
            let i = choose|i: int| 0 <= i < s.len() && s[i].0.project_id@ == k;
            if i < s.len() - 1 {
                assert(t[i] == s[i]);
            }
        }
    }
}

proof fn lemma_entries_map_at<H>(s: Seq<(TunnelInfo, H)>, i: int)
    requires
        distinct_keys(s),
        0 <= i < s.len(),
    ensures
        entries_map(s).dom().contains(s[i].0.project_id@),
        entries_map(s)[s[i].0.project_id@] == s[i].0,
    decreases s.len(),
{
    let t = s.drop_last();
    if i < s.len() - 1 {
        assert(t[i] == s[i]);
        assert(distinct_keys(t)) by {
            assert forall|a: int, b: int| 0 <= a < b < t.len() implies t[a].0.project_id@ != t[b].0.project_id@ by {
                assert(t[a] == s[a] && t[b] == s[b]);
            }
        }
        lemma_entries_map_at(t, i);
        assert(s[i].0.project_id@ != s.last().0.project_id@);
    }
}

proof fn lemma_entries_map_remove<H>(s: Seq<(TunnelInfo, H)>, i: int)
    requires
        distinct_keys(s),
        0 <= i < s.len(),
    ensures
        entries_map(s.remove(i)) == entries_map(s).remove(s[i].0.project_id@),
        distinct_keys(s.remove(i)),
    decreases s.len(),
{
    let t = s.drop_last();
    let k = s[i].0.project_id@;
    assert(distinct_keys(t)) by {
        assert forall|a: int, b: int| 0 <= a < b < t.len() implies t[a].0.project_id@ != t[b].0.project_id@ by {
            assert(t[a] == s[a] && t[b] == s[b]);
        }
    }
    assert(distinct_keys(s.remove(i))) by {
        assert forall|a: int, b: int| 0 <= a < b < s.remove(i).len() implies s.remove(i)[a].0.project_id@ != s.remove(i)[b].0.project_id@ by {
            let a2 = if a < i { a } else { a + 1 };
            let b2 = if b < i { b } else { b + 1 };
            assert(s.remove(i)[a] == s[a2] && s.remove(i)[b] == s[b2]);
        }
    }
    if i == s.len() - 1 {
        assert(s.remove(i) == t);
        lemma_entries_map_dom(t, k);
        assert(!entries_map(t).dom().contains(k)) by {
            if entries_map(t).dom().contains(k) {
                let j = choose|j: int| 0 <= j < t.len() && t[j].0.project_id@ == k;
                assert(s[j] == t[j]);
            }
        }
        assert(entries_map(s).remove(k) =~= entries_map(t));
    } else {
        let r = s.remove(i);
        assert(r.drop_last() == t.remove(i));
        assert(r.last() == s.last());
        assert(t[i] == s[i]);
        lemma_entries_map_remove(t, i);
        assert(s.last().0.project_id@ != k);
        assert(entries_map(r) =~= entries_map(s).remove(k));
    }
}

/// The active tunnels of this agent, one per project, each with the handle
/// of the process that serves it.
pub struct TunnelManager<H> {
    entries: Vec<(TunnelInfo, H)>,
}

impl<H> TunnelManager<H> {
    #[verifier::type_invariant]
    spec fn wf(self) -> bool {
        distinct_keys(self.entries@)
    }

    /// The active tunnels, by project id.
    pub closed spec fn tunnels(&self) -> Map<Seq<char>, TunnelInfo> {
        entries_map(self.entries@)
    }

    /// A table without tunnels.
    pub fn new() -> (m: Self)
        ensures
            m.tunnels() == Map::<Seq<char>, TunnelInfo>::empty(),
    {
        TunnelManager { entries: Vec::new() }
    }

    fn index_of(&self, project_id: &str) -> (r: Option<usize>)
        ensures
            match r {
                Some(i) => i < self.entries@.len() && self.entries@[i as int].0.project_id@ == project_id@,
                None => forall|j: int| 0 <= j < self.entries@.len() ==> self.entries@[j].0.project_id@ != project_id@,
            },
    {
        let mut i: usize = 0;
        while i < self.entries.len()
            invariant
                i <= self.entries@.len(),
                forall|j: int| 0 <= j < i ==> self.entries@[j].0.project_id@ != project_id@,
            decreases self.entries@.len() - i,
        {
            if crate::text::str_eq(self.entries[i].0.project_id.as_str(), project_id) {
                return Some(i);
            }
            i = i + 1;
        }
        None
    }

    /// Records a started tunnel; the handle of the tunnel it replaces for
    /// the same project, if any, is handed back to be stopped.
    pub fn insert(&mut self, info: TunnelInfo, handle: H) -> (replaced: Option<H>)
        ensures
            final(self).tunnels() == old(self).tunnels().insert(info.project_id@, info),
            replaced is Some <==> old(self).tunnels().dom().contains(info.project_id@),
    {
        proof { use_type_invariant(&*self); }
        let replaced = match self.index_of(info.project_id.as_str()) {
            Some(i) => {
                let ghost before = self.entries@;
                proof { lemma_entries_map_remove(before, i as int); lemma_entries_map_at(before, i as int); }
                let mut entries = Vec::new();
                std::mem::swap(&mut entries, &mut self.entries);
                let (_, h) = entries.remove(i);
                assert(entries@ == before.remove(i as int));
                self.entries = entries;
                Some(h)
            },
            None => {
                proof { lemma_entries_map_dom(self.entries@, info.project_id@); }
                None
            },
        };
        let ghost mid = self.entries@;
        assert(!entries_map(mid).dom().contains(info.project_id@)) by {
            lemma_entries_map_dom(mid, info.project_id@);
        }
        assert(entries_map(mid) =~= old(self).tunnels().remove(info.project_id@));
        let ghost key = info.project_id@;
        let ghost inf = info;
        let mut entries = Vec::new();
        std::mem::swap(&mut entries, &mut self.entries);
        entries.push((info, handle));
        assert(entries@.drop_last() == mid);
        assert(distinct_keys(entries@)) by {
            lemma_entries_map_dom(mid, key);
            assert forall|a: int, b: int| 0 <= a < b < entries@.len() implies entries@[a].0.project_id@ != entries@[b].0.project_id@ by {
                if b == entries@.len() - 1 {
                    assert(entries@[a] == mid[a]);
                    assert(mid[a].0.project_id@ != key);
                } else {
                    assert(entries@[a] == mid[a] && entries@[b] == mid[b]);
                }
            }
        }
        self.entries = entries;
        assert(entries_map(self.entries@) =~= old(self).tunnels().insert(key, inf));
        replaced
    }

    /// Forgets the tunnel of a project; its info and handle are handed
    /// back so the process can be stopped.
    pub fn remove(&mut self, project_id: &str) -> (r: Option<(TunnelInfo, H)>)
        ensures
            final(self).tunnels() == old(self).tunnels().remove(project_id@),
            r is Some <==> old(self).tunnels().dom().contains(project_id@),
            r matches Some(e) ==> e.0 == old(self).tunnels()[project_id@],
    {
        proof { use_type_invariant(&*self); }
        match self.index_of(project_id) {
            Some(i) => {
                let ghost before = self.entries@;
                proof { lemma_entries_map_remove(before, i as int); lemma_entries_map_at(before, i as int); }
                let mut entries = Vec::new();
                std::mem::swap(&mut entries, &mut self.entries);
                let e = entries.remove(i);
                assert(entries@ == before.remove(i as int));
                self.entries = entries;
                Some(e)
            },
            None => {
                proof { lemma_entries_map_dom(self.entries@, project_id@); }
                assert(old(self).tunnels().remove(project_id@) =~= old(self).tunnels());
                None
            },
        }
    }

    /// The tunnel of a project.
    pub fn get(&self, project_id: &str) -> (r: Option<&TunnelInfo>)
        ensures
            r is Some <==> self.tunnels().dom().contains(project_id@),
            r matches Some(info) ==> *info == self.tunnels()[project_id@],
    {
        proof { use_type_invariant(self); }
        match self.index_of(project_id) {
            Some(i) => {
                proof { lemma_entries_map_at(self.entries@, i as int); }
                Some(&self.entries[i].0)
            },
            None => {
                proof { lemma_entries_map_dom(self.entries@, project_id@); }
                None
            },
        }
    }

    /// All active tunnels.
    pub fn list(&self) -> (v: Vec<&TunnelInfo>)
        ensures
            v@.len() == self.tunnels().dom().len(),
            forall|i: int| 0 <= i < v@.len() ==> self.tunnels().dom().contains((#[trigger] v@[i]).project_id@)
                && self.tunnels()[v@[i].project_id@] == *v@[i],
            forall|k: Seq<char>| #[trigger] self.tunnels().dom().contains(k) ==> exists|i: int| 0 <= i < v@.len() && v@[i].project_id@ == k,
    {
        proof { use_type_invariant(self); }
        let mut v: Vec<&TunnelInfo> = Vec::new();
        let mut i: usize = 0;
        while i < self.entries.len()
            invariant
                i <= self.entries@.len(),
                distinct_keys(self.entries@),
                v@.len() == i,
                forall|j: int| 0 <= j < i ==> *v@[j] == self.entries@[j].0,
            decreases self.entries@.len() - i,
        {
            v.push(&self.entries[i].0);
            i = i + 1;
        }
        proof {
            let s = self.entries@;
            assert forall|j: int| 0 <= j < v@.len() implies self.tunnels().dom().contains((#[trigger] v@[j]).project_id@)
                && self.tunnels()[v@[j].project_id@] == *v@[j] by {
                lemma_entries_map_at(s, j);
            }
            assert forall|k: Seq<char>| #[trigger] self.tunnels().dom().contains(k) implies exists|j: int| 0 <= j < v@.len() && v@[j].project_id@ == k by {
                lemma_entries_map_dom(s, k);
                let j = choose|j: int| 0 <= j < s.len() && s[j].0.project_id@ == k;
                assert(v@[j].project_id@ == k);
            }
            lemma_entries_map_len(s);
        }
        v
    }
}

proof fn lemma_entries_map_len<H>(s: Seq<(TunnelInfo, H)>)
    requires
        distinct_keys(s),
    ensures
        entries_map(s).dom().finite(),
        entries_map(s).dom().len() == s.len(),
    decreases s.len(),
{
    if s.len() > 0 {
        let t = s.drop_last();
        assert(distinct_keys(t)) by {
            assert forall|a: int, b: int| 0 <= a < b < t.len() implies t[a].0.project_id@ != t[b].0.project_id@ by {
                assert(t[a] == s[a] && t[b] == s[b]);
            }
        }
        lemma_entries_map_len(t);
        lemma_entries_map_dom(t, s.last().0.project_id@);
        assert(!entries_map(t).dom().contains(s.last().0.project_id@)) by {
            if entries_map(t).dom().contains(s.last().0.project_id@) {
                let j = choose|j: int| 0 <= j < t.len() && t[j].0.project_id@ == s.last().0.project_id@;
                assert(s[j] == t[j]);
            }
        }
    }
}

} // verus!
