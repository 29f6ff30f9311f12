//! The desktop's NATS subscriptions: which event subjects it filters on
//! and the names of its durable consumers.

use vstd::prelude::*;
use crate::text::strings;

verus! {

/// `berth.{install_id}.{agent}.event.>`.
pub open spec fn agent_event_filter(install_id: Seq<char>, agent: Seq<char>) -> Seq<char> {
    "berth."@ + install_id + "."@ + agent + ".event.>"@
}

/// The event subjects to consume: every agent's when none is named, else
/// each named agent's, in order.
pub open spec fn event_filters(install_id: Seq<char>, agent_ids: Seq<String>) -> Seq<Seq<char>> {
    if agent_ids.len() == 0 {
        seq!["berth."@ + install_id + ".*.event.>"@]
    } else {
        agent_ids.map_values(|a: String| agent_event_filter(install_id, a@))
    }
}

/// The filter subjects of the events consumer.
pub fn event_filter_subjects(install_id: &str, agent_ids: &Vec<String>) -> (v: Vec<String>)
    ensures
        strings(v@) == event_filters(install_id@, agent_ids@),
{
    let mut v: Vec<String> = Vec::new();
    if agent_ids.len() == 0 {
        let mut s = "berth.".to_owned();
        s.append(install_id);
        s.append(".*.event.>");
        v.push(s);
        assert(strings(v@) =~= event_filters(install_id@, agent_ids@));
        return v;
    }
    let mut i: usize = 0;
    while i < agent_ids.len()
        invariant
            i <= agent_ids.len(),
            agent_ids@.len() > 0,
            strings(v@) == event_filters(install_id@, agent_ids@).take(i as int),
        decreases agent_ids.len() - i,
    {
        let mut s = "berth.".to_owned();
        s.append(install_id);
        s.append(".");
        s.append(agent_ids[i].as_str());
        s.append(".event.>");
        let ghost before = v@;
        let ghost sv = s@;
        v.push(s);
        assert(strings(v@) =~= strings(before).push(sv));
        assert(event_filters(install_id@, agent_ids@).take(i + 1) =~= event_filters(install_id@, agent_ids@).take(i as int).push(sv));
        i = i + 1;
    }
    assert(event_filters(install_id@, agent_ids@).take(agent_ids.len() as int) == event_filters(install_id@, agent_ids@));
    v
}

/// `desktop-{install_id}`, the durable events consumer.
pub fn events_consumer_name(install_id: &str) -> (s: String)
    ensures
        s@ == "desktop-"@ + install_id@,
{
    let mut s = "desktop-".to_owned();
    s.append(install_id);
    s
}

/// `desktop-{install_id}-logs-{agent_id}-{project_id}`, the logs consumer
/// of one project.
pub fn logs_consumer_name(install_id: &str, agent_id: &str, project_id: &str) -> (s: String)
    ensures
        s@ == "desktop-"@ + install_id@ + "-logs-"@ + agent_id@ + "-"@ + project_id@,
{
    let mut s = "desktop-".to_owned();
    s.append(install_id);
    s.append("-logs-");
    s.append(agent_id);
    s.append("-");
    s.append(project_id);
    s
}

} // verus!
