//! Passing a request on to the fittest volunteer.
use crate::clock::{Timestamp, TimestampView};
use crate::http::{forward_method, forward_status};
use crate::http;
use crate::registrar::state;
use crate::registrar::state::{AppState, VolunteerState};
use vstd::prelude::*;

verus! {

/// Where a request goes.
pub struct Target {
    /// The volunteer that is to answer it.
    pub volunteer: VolunteerState,
    /// The address to ask.
    pub url: String,
    /// The method to ask with.
    pub method: String,
}

/// The address of a path at a volunteer; a request without a path asks for the root.
pub open spec fn url_of(service_addr: Seq<char>, path: Option<Seq<char>>) -> Seq<char> {
    "http://"@ + service_addr + (match path {
        Some(p) => p,
        None => "/"@,
    })
}

/// The text of a path, where there is one.
pub open spec fn maybe_path(path: Option<&str>) -> Option<Seq<char>> {
    match path {
        Some(p) => Some(p@),
        None => None,
    }
}

/// Whether a request goes to one of the fittest volunteers that are alive.
pub open spec fn goes_to_fittest(
    target: Target,
    state: state::AppStateView,
    path: Option<Seq<char>>,
    method: Seq<char>,
    now: TimestampView,
) -> bool {
    let v = target.volunteer@;
    &&& state.volunteers.contains_key(v.id)
    &&& v == state.volunteers[v.id]
    &&& v.alive_at(now)
    &&& forall|id: u128| #[trigger]
        state.volunteers.contains_key(id) && state.volunteers[id].alive_at(now)
            ==> state.volunteers[id].weight() <= v.weight()
    &&& target.url@ == url_of(v.info.service_addr, path)
    &&& target.method@ == if http::is_token(method) {
        method
    } else {
        "GET"@
    }
}

/// Whether no volunteer is alive.
pub open spec fn nobody_alive(state: state::AppStateView, now: TimestampView) -> bool {
    forall|id: u128| #[trigger]
        state.volunteers.contains_key(id) ==> !state.volunteers[id].alive_at(now)
}

/// Finds out where a request goes, as of an instant. Which of two volunteers that
/// are equally fit gets it is left open.
pub fn dispatch_at(state: &AppState, path: Option<&str>, method: &str, now: &Timestamp) -> (target:
    Option<Target>)
    ensures
        match target {
            Some(t) => goes_to_fittest(t, state@, maybe_path(path), method@, now@),
            None => nobody_alive(state@, now@),
        },
{
    let active = state.active_volunteers_at(now);
    let ghost ranked = state::volunteer_views(active@);
    if active.len() == 0 {
        assert forall|id: u128| #[trigger] state@.volunteers.contains_key(id) implies
            !state@.volunteers[id].alive_at(now@) by {
            if state@.volunteers[id].alive_at(now@) {
                assert(state::has_id(ranked, id));
            }
        }
        return None;
    }
    assert(ranked[0] == active@[0]@);
    let volunteer = active[0].clone();
    let mut url = "http://".to_owned();
    url.append(volunteer.info.service_addr.as_str());
    match path {
        Some(p) => url.append(p),
        None => url.append("/"),
    }
    assert forall|id: u128| #[trigger]
        state@.volunteers.contains_key(id) && state@.volunteers[id].alive_at(
            now@,
        ) implies state@.volunteers[id].weight() <= volunteer@.weight() by {
        assert(state::has_id(ranked, id));
        let k = choose|k: int| 0 <= k < ranked.len() && #[trigger] ranked[k].id == id;
        assert(ranked[k] == state@.volunteers[id]);
        if k > 0 {
            assert(ranked[0].weight() >= ranked[k].weight());
        }
    }
    Some(Target { volunteer, url, method: forward_method(method) })
}

/// Finds out where a request goes, as of the time that the clock shows.
pub fn dispatch(state: &AppState, path: Option<&str>, method: &str) -> (target: Option<Target>)
    ensures
        match target {
            Some(t) => exists|now: TimestampView|
                now.valid() && now.is_plain() && #[trigger] goes_to_fittest(
                    t,
                    state@,
                    maybe_path(path),
                    method@,
                    now,
                ),
            None => exists|now: TimestampView|
                now.valid() && now.is_plain() && #[trigger] nobody_alive(state@, now),
        },
{
    let now = Timestamp::now();
    dispatch_at(state, path, method, &now)
}

/// What came of a request that was passed on.
pub enum Forwarded {
    /// Nobody was there to take it.
    NoVolunteer,
    /// Its body could not be read.
    UnreadableBody,
    /// The volunteer could not be reached.
    Unreachable,
    /// The volunteer answered, with a status code.
    Answered(u16),
}

impl Forwarded {
    /// The status code to answer with.
    pub fn status(&self) -> (code: u16)
        ensures
            code == (match *self {
                Forwarded::NoVolunteer => 503u16,
                Forwarded::UnreadableBody => 500,
                Forwarded::Unreachable => 502,
                Forwarded::Answered(s) => if 100 <= s <= 999 {
                    s
                } else {
                    500
                },
            }),
    {
        match self {
            Forwarded::NoVolunteer => 503,
            Forwarded::UnreadableBody => 500,
            Forwarded::Unreachable => 502,
            Forwarded::Answered(s) => forward_status(*s),
        }
    }

    /// The text to answer with, where the answer is not the volunteer's.
    pub fn text(&self) -> (words: String)
        ensures
            words@ == (match *self {
                Forwarded::NoVolunteer => "No volunteers available"@,
                _ => ""@,
            }),
    {
        match self {
            Forwarded::NoVolunteer => "No volunteers available".to_owned(),
            _ => "".to_owned(),
        }
    }
}

} // verus!
