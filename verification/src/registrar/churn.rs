//! Volunteers that stop sending heartbeats.
use crate::clock::{Timestamp, TimestampView};
use crate::registrar::state;
use crate::registrar::state::{
    copy_assignment, AppState, AppStateView, PendingServiceView, ServiceAssignment,
    ServiceAssignmentView, VolunteerView,
};
use vstd::prelude::*;

verus! {

/// How often the volunteers are looked through.
pub const CHECK_INTERVAL_SECS: u64 = 15;

/// A volunteer that is taken for dead.
pub struct DeadVolunteer {
    /// Its identifier.
    pub id: u128,
    /// Its hostname.
    pub hostname: String,
    /// The service that it ran.
    pub assignment: Option<ServiceAssignment>,
}

/// The value of a [`DeadVolunteer`].
pub struct DeadView {
    /// See [`DeadVolunteer::id`].
    pub id: u128,
    /// See [`DeadVolunteer::hostname`].
    pub hostname: Seq<char>,
    /// See [`DeadVolunteer::assignment`].
    pub assignment: Option<ServiceAssignmentView>,
}

impl View for DeadVolunteer {
    type V = DeadView;

    open spec fn view(&self) -> DeadView {
        DeadView {
            id: self.id,
            hostname: self.hostname@,
            assignment: state::maybe_assignment(self.assignment),
        }
    }
}

/// The values of a list of dead volunteers.
pub open spec fn dead_views(list: Seq<DeadVolunteer>) -> Seq<DeadView> {
    Seq::new(list.len(), |i: int| list[i]@)
}

/// What is kept of a volunteer that is taken for dead.
pub open spec fn remains(v: VolunteerView) -> DeadView {
    DeadView { id: v.id, hostname: v.info.hostname, assignment: v.assigned_service }
}

/// Whether a list holds the volunteers that are dead as of an instant, each once.
pub open spec fn are_dead(list: Seq<DeadView>, state: AppStateView, now: TimestampView) -> bool {
    &&& forall|i: int, j: int| 0 <= i < j < list.len() ==> list[i].id != list[j].id
    &&& forall|i: int|
        0 <= i < list.len() ==> {
            let d = #[trigger] list[i];
            state.volunteers.contains_key(d.id) && !state.volunteers[d.id].alive_at(now) && d
                == remains(state.volunteers[d.id])
        }
    &&& forall|id: u128| #[trigger]
        state.volunteers.contains_key(id) && !state.volunteers[id].alive_at(now) ==> lists_id(
            list,
            id,
        )
}

/// Whether a list has a dead volunteer with an identifier.
pub open spec fn lists_id(list: Seq<DeadView>, id: u128) -> bool {
    exists|i: int| 0 <= i < list.len() && #[trigger] list[i].id == id
}

/// The volunteers that are dead as of an instant, in no particular order.
pub fn dead_volunteers_at(state: &AppState, now: &Timestamp) -> (dead: Vec<DeadVolunteer>)
    ensures
        are_dead(dead_views(dead@), state@, now@),
{
    let all = state.all_volunteers();
    let ghost everyone = state::volunteer_views(all@);
    let mut dead: Vec<DeadVolunteer> = Vec::new();
    let mut k: usize = 0;
    while k < all.len()
        invariant
            k <= all@.len(),
            everyone == state::volunteer_views(all@),
            forall|i: int, j: int|
                0 <= i < j < everyone.len() ==> everyone[i].id != everyone[j].id,
            forall|i: int|
                0 <= i < everyone.len() ==> state@.volunteers.contains_key(
                    (#[trigger] everyone[i]).id,
                ) && state@.volunteers[everyone[i].id] == everyone[i],
            forall|i: int, j: int|
                0 <= i < j < dead@.len() ==> dead_views(dead@)[i].id != dead_views(dead@)[j].id,
            forall|i: int|
                0 <= i < dead@.len() ==> {
                    let d = #[trigger] dead_views(dead@)[i];
                    state@.volunteers.contains_key(d.id) && !state@.volunteers[d.id].alive_at(now@)
                        && d == remains(state@.volunteers[d.id]) && state::has_id(
                        everyone.take(k as int),
                        d.id,
                    )
                },
            forall|j: int|
                0 <= j < k && !(#[trigger] everyone[j]).alive_at(now@) ==> lists_id(
                    dead_views(dead@),
                    everyone[j].id,
                ),
        decreases all@.len() - k,
    {
        let v = &all[k];
        assert(v@ == everyone[k as int]);
        let ghost before = dead_views(dead@);
        assert forall|id: u128| state::has_id(everyone.take(k as int), id) implies
            #[trigger] state::has_id(everyone.take(k + 1), id) && id != v.id by {
            let i = choose|i: int|
                0 <= i < everyone.take(k as int).len() && #[trigger] everyone.take(
                    k as int,
                )[i].id == id;
            assert(everyone.take(k + 1)[i].id == id);
            assert(everyone[i].id != everyone[k as int].id);
        }
        if !v.is_alive_at(now) {
            dead.push(
                DeadVolunteer {
                    id: v.id,
                    hostname: v.info.hostname.clone(),
                    assignment: copy_assignment(&v.assigned_service),
                },
            );
            let ghost after = dead_views(dead@);
            assert(after =~= before.push(remains(v@)));
            assert(everyone.take(k + 1)[k as int].id == v.id);
            assert forall|i: int| 0 <= i < after.len() implies {
                let d = #[trigger] after[i];
                state@.volunteers.contains_key(d.id) && !state@.volunteers[d.id].alive_at(now@)
                    && d == remains(state@.volunteers[d.id]) && state::has_id(
                    everyone.take(k + 1),
                    d.id,
                )
            } by {
                if i < before.len() {
                    assert(after[i] == before[i]);
                }
            }
            assert forall|i: int, j: int| 0 <= i < j < after.len() implies after[i].id
                != after[j].id by {
                assert(after[i] == before[i]);
                if j < before.len() {
                    assert(after[j] == before[j]);
                } else {
                    assert(state::has_id(everyone.take(k as int), before[i].id));
                    assert(state::has_id(everyone.take(k + 1), before[i].id));
                }
            }
            assert forall|j: int|
                0 <= j < k + 1 && !(#[trigger] everyone[j]).alive_at(now@) implies lists_id(
                after,
                everyone[j].id,
            ) by {
                if j < k {
                    assert(lists_id(before, everyone[j].id));
                    let i = choose|i: int|
                        0 <= i < before.len() && #[trigger] before[i].id == everyone[j].id;
                    assert(after[i] == before[i]);
                } else {
                    assert(after[before.len() as int].id == everyone[j].id);
                }
            }
        } else {
            assert forall|i: int| 0 <= i < before.len() implies state::has_id(
                everyone.take(k + 1),
                (#[trigger] before[i]).id,
            ) by {
                assert(state::has_id(everyone.take(k as int), before[i].id));
            }
        }
        k = k + 1;
    }
    assert forall|id: u128| #[trigger]
        state@.volunteers.contains_key(id) && !state@.volunteers[id].alive_at(
            now@,
        ) implies lists_id(dead_views(dead@), id) by {
        assert(state::has_id(everyone, id));
        let j = choose|j: int| 0 <= j < everyone.len() && #[trigger] everyone[j].id == id;
        assert(everyone[j] == state@.volunteers[id]);
    }
    dead
}

/// The volunteers that are dead as of the time that the clock shows.
pub fn dead_volunteers(state: &AppState) -> (dead: Vec<DeadVolunteer>)
    ensures
        exists|now: TimestampView|
            now.valid() && now.is_plain() && #[trigger] are_dead(dead_views(dead@), state@, now),
{
    let now = Timestamp::now();
    dead_volunteers_at(state, &now)
}

/// What is left once a dead volunteer is taken out: its service waits at the end of
/// the queue.
pub open spec fn evicted(state: AppStateView, dead: DeadView, now: TimestampView) -> AppStateView {
    AppStateView {
        volunteers: state.volunteers.remove(dead.id),
        pending: match dead.assignment {
            Some(a) => state.pending.push(
                PendingServiceView { service: a.service, registered_at: now },
            ),
            None => state.pending,
        },
    }
}

/// Takes out a dead volunteer. Its service, where it had one, goes to the end of the
/// queue, and the record of its assignment is then to be struck out.
pub fn evict(state: &mut AppState, dead: &DeadVolunteer, now: Timestamp) -> (strike_record: bool)
    ensures
        final(state)@ == evicted(old(state)@, dead@, now@),
        strike_record == dead@.assignment is Some,
{
    let _gone = state.remove_volunteer(dead.id);
    match &dead.assignment {
        Some(a) => {
            state.queue_service(a.requeued(now));
            true
        },
        None => false,
    }
}

} // verus!
