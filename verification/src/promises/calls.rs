//! What a call gives back, for the calls at the heart of the library.
use crate::clock::{Timestamp, TimestampView};
use crate::haproxy;
use crate::haproxy::assign::{AssignStageView, Assignment};
use crate::haproxy::run::RuntimeRun;
use crate::haproxy::runtime::RuntimeErrorView;
use crate::ids;
use crate::mesh::broker;
use crate::mesh::broker::{Broker, Dispatch, FrameEffect, Load};
use crate::mesh::messages::FrameKind;
use crate::mesh::nodes::NamedNode;
use crate::promises::mesh;
use crate::promises::proxy;
use crate::promises::registrar;
use crate::registrar::churn;
use crate::registrar::churn::DeadVolunteer;
use crate::registrar::dispatch;
use crate::registrar::dispatch::{Forwarded, Target};
use crate::registrar::enrollment;
use crate::registrar::enrollment::{
    Beat, Departure, EnrollRequest, Enrolled, Enrollment, ErrorResponse, HeartbeatRequest,
    HeartbeatResponse, KnownNode,
};
use crate::registrar::recovery;
use crate::registrar::recovery::RecoveryStep;
use crate::registrar::services;
use crate::registrar::services::{
    RegisterAnswer, RegisterServiceRequest, Registered, Registration,
};
use crate::registrar::state;
use crate::registrar::state::{
    AppState, Metrics, PendingService, ServiceAssignment, VolunteerState,
};
use crate::text;
use vstd::prelude::*;

verus! {

// ── fitness ─────────────────────────────────────────────────────────────────
/// The weight is the score wherever that lies between 1 and 100, and the nearer of the two
/// elsewhere. It never falls where the score rises.
pub proof fn weights_are_scores(a: Metrics, weight: u32, b: Metrics, other: u32)
    requires
        call_ensures(Metrics::weight, (&a,), weight),
        call_ensures(Metrics::weight, (&b,), other),
    ensures
        1 <= a.score <= 100 ==> weight == a.score,
        a.score < 1 ==> weight == 1,
        a.score > 100 ==> weight == 100,
        a.score <= b.score ==> weight <= other,
{
}

/// Requests that are being served press by their number, up to twenty of them.
pub proof fn requests_press_up_to_twenty(active: u32, pressure: u32)
    requires
        call_ensures(state::request_pressure, (active,), pressure),
    ensures
        active <= 20 ==> pressure == active,
        active > 20 ==> pressure == 20,
{
}

/// Metrics that have not been measured yet are those of an idle machine with the best
/// score.
pub proof fn the_unmeasured_are_idle(metrics: Metrics)
    requires
        call_ensures(Metrics::idle, (), metrics),
    ensures
        metrics.cpu_pct == 0,
        metrics.mem_pct == 0,
        metrics.load_avg == 0,
        metrics.active_requests == 0,
        metrics.score == 100,
{
}

/// A volunteer is alive until 45 seconds have passed since its last heartbeat.
pub proof fn the_living_were_heard_of(v: VolunteerState, now: Timestamp, alive: bool)
    requires
        call_ensures(VolunteerState::is_alive_at, (&v, &now), alive),
        v.last_heartbeat@.nanos < 1_000_000_000,
        now@.nanos < 1_000_000_000,
    ensures
        alive <==> (now@.secs - v.last_heartbeat@.secs) * 1_000_000_000 + (now@.nanos
            - v.last_heartbeat@.nanos) < 45_000_000_000,
{
    registrar::life_lasts_45_seconds(v@, now@);
}

// ── enrollment ──────────────────────────────────────────────────────────────
/// For every enrollment with a service on offer, the backend of that service is to be
/// pointed at this machine's end of the tunnel: at "127.0.0.1:" and the digits of the
/// public port of the request.
pub proof fn started_assignments_point_at_the_tunnel(
    state: &mut AppState,
    request: EnrollRequest,
    on_record: Option<KnownNode>,
    addr: String,
    fresh: u128,
    now: Timestamp,
    enrollment: Enrollment,
    started: Option<Assignment>,
)
    requires
        call_ensures(
            enrollment::enroll_with,
            (state, request, on_record, addr, fresh, now),
            enrollment,
        ),
        call_ensures(Enrollment::assignment, (&enrollment,), started),
    ensures
        started matches Some(a) ==> a@.addr == "127.0.0.1:"@ + text::decimal(
            request.tunnel_public_port as nat,
        ) && a@.stage is Configuring,
        started is None <==> enrollment@.offer is None,
        old(state)@.pending.len() > 0 ==> started is Some,
{
    registrar::addresses_end_with_their_port("127.0.0.1"@, request.tunnel_public_port);
}

/// Where a node enrolls that nobody knows, and a service waits, the one that has waited
/// longest is started for it, with its own name and domain.
pub proof fn strangers_start_what_waits_longest(
    state: &mut AppState,
    request: EnrollRequest,
    addr: String,
    fresh: u128,
    now: Timestamp,
    enrollment: Enrollment,
    started: Option<Assignment>,
)
    requires
        call_ensures(
            enrollment::enroll_with,
            (state, request, None::<KnownNode>, addr, fresh, now),
            enrollment,
        ),
        call_ensures(Enrollment::assignment, (&enrollment,), started),
        forall|id: u128| #[trigger]
            old(state)@.volunteers.contains_key(id) ==> old(state)@.volunteers[id].info.hostname
                != request.info.hostname@,
        old(state)@.pending.len() > 0,
    ensures
        enrollment@.volunteer.id == fresh,
        ({
            let service = old(state)@.pending[0].service;
            &&& started is Some
            &&& started->0@.service == service.name
            &&& started->0@.stage matches AssignStageView::Configuring(edit)
            &&& edit.service == "svc_"@ + service.name
            &&& edit.domain == Some(service.domain)
        }),
        final(state)@.pending == old(state)@.pending.skip(1),
        final(state)@.volunteers == old(state)@.volunteers,
{
    assert(!enrollment::has_hostname(old(state)@, request.info.hostname@));
    assert(old(state)@.pending.drop_first() =~= old(state)@.pending.skip(1));
}

/// A node that enrolls under the hostname of a volunteer keeps an identifier under that
/// hostname, and is started with the service that it ran.
pub proof fn volunteers_that_enroll_again_keep_their_service(
    state: &mut AppState,
    request: EnrollRequest,
    on_record: Option<KnownNode>,
    addr: String,
    fresh: u128,
    now: Timestamp,
    enrollment: Enrollment,
    started: Option<Assignment>,
    id: u128,
)
    requires
        call_ensures(
            enrollment::enroll_with,
            (state, request, on_record, addr, fresh, now),
            enrollment,
        ),
        call_ensures(Enrollment::assignment, (&enrollment,), started),
        old(state)@.volunteers.contains_key(id),
        old(state)@.volunteers[id].info.hostname == request.info.hostname@,
    ensures
        ({
            let kept = enrollment@.volunteer.id;
            let v = old(state)@.volunteers[kept];
            &&& old(state)@.volunteers.contains_key(kept)
            &&& v.info.hostname == request.info.hostname@
            &&& v.assigned_service is Some ==> started is Some && started->0@.service
                == v.assigned_service->0.service.name && final(state)@ == old(state)@
        }),
{
    assert(enrollment::has_hostname(old(state)@, request.info.hostname@));
}

/// An enrolled volunteer is in the state under its identifier, as it was answered, with
/// its service just where the proxy took it. All others are as they were.
pub proof fn the_enrolled_are_in_the_state(
    state: &mut AppState,
    enrollment: Enrollment,
    assigned: bool,
    done: Enrolled,
    other: u128,
)
    requires
        call_ensures(enrollment::finish_enrollment, (state, enrollment, assigned), done),
    ensures
        ({
            let id = enrollment@.volunteer.id;
            let v = final(state)@.volunteers[id];
            &&& final(state)@.volunteers.contains_key(id)
            &&& done.volunteer@ == v
            &&& done.volunteer.id == id
            &&& v.info == enrollment@.volunteer.info
            &&& v.metrics == enrollment@.volunteer.metrics
            &&& v.enrolled_at == enrollment@.volunteer.enrolled_at
            &&& v.last_heartbeat == enrollment@.volunteer.last_heartbeat
            &&& v.assigned_service is Some <==> assigned && enrollment@.offer is Some
            &&& v.assigned_service is Some ==> v.assigned_service->0.service
                == enrollment@.offer->0.service()
            &&& enrollment@.offer is Some && !assigned ==> final(state)@.pending.len() == old(
                state,
            )@.pending.len() + 1 && final(state)@.pending[0].service
                == enrollment@.offer->0.service()
            &&& enrollment@.offer is None || assigned ==> final(state)@.pending == old(
                state,
            )@.pending
            &&& other != id ==> final(state)@.volunteers.contains_key(other) == old(
                state,
            )@.volunteers.contains_key(other) && final(state)@.volunteers[other] == old(
                state,
            )@.volunteers[other]
            &&& done.response.heartbeat_interval_seconds == 15
            &&& done.response.assignment is Some <==> v.assigned_service is Some
            &&& v.assigned_service is Some ==> done.response.assignment->0.image@
                == v.assigned_service->0.service.image
                && done.response.assignment->0.service_port
                == v.assigned_service->0.service.port
            &&& done.record is Store <==> v.assigned_service is Some
            &&& done.record is Drop <==> !assigned && enrollment@.offer is Some
                && enrollment@.offer->0 is Prior
            &&& done.active_count == final(state)@.volunteers.len()
            &&& done.response.volunteer_id@ == ids::hyphenated_of(id)
        }),
{
    registrar::offers_are_about_one_service(enrollment@.offer->0, enrollment@.now);
}

/// The address of a volunteer is the resolved address, or else the tunnel's host, and the
/// digits of its port.
pub proof fn volunteers_are_reached_through_the_tunnel(
    resolved: Option<String>,
    host: &str,
    port: u16,
    addr: String,
)
    requires
        call_ensures(enrollment::tunnel_service_addr, (resolved, host, port), addr),
    ensures
        resolved is Some ==> addr@ == resolved->0@ + ":"@ + text::decimal(port as nat),
        resolved is None ==> addr@ == host@ + ":"@ + text::decimal(port as nat),
{
}

// ── heartbeats ──────────────────────────────────────────────────────────────
/// After a heartbeat the volunteer is known as the heartbeat says: with its metrics, heard
/// of at its time, and running or not running its service as it says. All else, and all
/// other volunteers, stay.
pub proof fn heartbeats_are_taken_at_their_word(
    state: &mut AppState,
    beat: HeartbeatRequest,
    now: Timestamp,
    known: Option<Beat>,
    b: bool,
    other: u128,
)
    requires
        call_ensures(enrollment::heartbeat_at, (state, beat, now), known),
        old(state)@.volunteers.contains_key(beat.volunteer_id),
    ensures
        ({
            let before = old(state)@.volunteers[beat.volunteer_id];
            let after = final(state)@.volunteers[beat.volunteer_id];
            &&& known is Some
            &&& final(state)@.volunteers.contains_key(beat.volunteer_id)
            &&& after == known->0.volunteer@
            &&& beat.service_running == Some(b) ==> after.service_running == Some(b)
            &&& beat.service_running is None ==> after.service_running == before.service_running
            &&& beat.service_image is Some ==> after.service_image == Some(
                beat.service_image->0@,
            )
            &&& beat.service_image is None ==> after.service_image == before.service_image
            &&& after.metrics == beat.metrics
            &&& after.last_heartbeat == now@
            &&& after.id == before.id
            &&& after.info == before.info
            &&& after.enrolled_at == before.enrolled_at
            &&& after.assigned_service == before.assigned_service
            &&& 1 <= beat.metrics.score <= 100 ==> known->0.weight == beat.metrics.score
            &&& final(state)@.pending == old(state)@.pending
            &&& other != beat.volunteer_id ==> final(state)@.volunteers.contains_key(other) == old(
                state,
            )@.volunteers.contains_key(other) && final(state)@.volunteers[other] == old(
                state,
            )@.volunteers[other]
        }),
{
    registrar::heartbeats_are_believed(
        old(state)@.volunteers[beat.volunteer_id],
        beat,
        now@,
    );
    if beat.service_running == Some(b) {
        if b {
            assert(beat.service_running == Some(true));
        } else {
            assert(beat.service_running == Some(false));
        }
    }
}

/// A heartbeat of nobody known changes nothing and is answered so.
pub proof fn heartbeats_of_strangers_change_nothing(
    state: &mut AppState,
    beat: HeartbeatRequest,
    now: Timestamp,
    known: Option<Beat>,
)
    requires
        call_ensures(enrollment::heartbeat_at, (state, beat, now), known),
        !old(state)@.volunteers.contains_key(beat.volunteer_id),
    ensures
        known is None,
        final(state)@ == old(state)@,
{
}

/// A heartbeat that is taken in at the time of the machine's clock is taken at its word
/// too.
pub proof fn heartbeats_now_are_taken_at_their_word(
    state: &mut AppState,
    beat: HeartbeatRequest,
    known: Option<Beat>,
    b: bool,
)
    requires
        call_ensures(enrollment::heartbeat, (state, beat), known),
        old(state)@.volunteers.contains_key(beat.volunteer_id),
    ensures
        ({
            let before = old(state)@.volunteers[beat.volunteer_id];
            let after = final(state)@.volunteers[beat.volunteer_id];
            &&& known is Some
            &&& after == known->0.volunteer@
            &&& beat.service_running == Some(b) ==> after.service_running == Some(b)
            &&& beat.service_running is None ==> after.service_running == before.service_running
            &&& after.metrics == beat.metrics
            &&& after.info == before.info
            &&& after.assigned_service == before.assigned_service
            &&& final(state)@.pending == old(state)@.pending
        }),
{
    let before = old(state)@.volunteers[beat.volunteer_id];
    let now = choose|now: TimestampView|
        now.valid() && now.is_plain() && known->0.volunteer@ == #[trigger] enrollment::beaten(
            before,
            beat,
            now,
        );
    registrar::heartbeats_are_believed(before, beat, now);
    if beat.service_running == Some(b) {
        if b {
            assert(beat.service_running == Some(true));
        } else {
            assert(beat.service_running == Some(false));
        }
    }
}

/// A volunteer that leaves is gone, and nobody else is.
pub proof fn the_departed_are_gone(
    state: &mut AppState,
    words: &str,
    departure: Departure,
    other: u128,
)
    requires
        call_ensures(enrollment::disconnect, (state, words), departure),
    ensures
        departure matches Departure::Left { volunteer, active_count } ==> {
            let id = ids::id_of(words@)->0;
            &&& ids::id_of(words@) is Some
            &&& old(state)@.volunteers.contains_key(id)
            &&& volunteer@ == old(state)@.volunteers[id]
            &&& active_count == final(state)@.volunteers.len()
            &&& !final(state)@.volunteers.contains_key(id)
            &&& other != id ==> final(state)@.volunteers.contains_key(other) == old(
                state,
            )@.volunteers.contains_key(other)
        },
        !(departure is Left) ==> final(state)@ == old(state)@,
        final(state)@.pending == old(state)@.pending,
{
}

// ── recovery ────────────────────────────────────────────────────────────────
/// After recovery every survivor is in the state as it was loaded, in every field but the
/// time of its last heartbeat, which is now: each service that a survivor ran is still run
/// by it. What waits is as it was.
pub proof fn survivors_are_back_as_they_were(
    state: &mut AppState,
    survivors: Vec<VolunteerState>,
    now: Timestamp,
    plan: Vec<RecoveryStep>,
    i: int,
    other: u128,
)
    requires
        call_ensures(recovery::recover, (state, &survivors, now), plan),
        0 <= i < survivors@.len(),
        forall|j: int, k: int|
            0 <= j < k < survivors@.len() ==> #[trigger] survivors@[j].id
                != #[trigger] survivors@[k].id,
        forall|j: int| 0 <= j < survivors@.len() ==> #[trigger] survivors@[j].id != other,
    ensures
        ({
            let loaded = survivors@[i]@;
            let v = final(state)@.volunteers[survivors@[i].id];
            &&& final(state)@.volunteers.contains_key(survivors@[i].id)
            &&& v.id == loaded.id
            &&& v.info == loaded.info
            &&& v.metrics == loaded.metrics
            &&& v.enrolled_at == loaded.enrolled_at
            &&& v.assigned_service == loaded.assigned_service
            &&& v.service_running == loaded.service_running
            &&& v.service_image == loaded.service_image
            &&& v.last_heartbeat == now@
            &&& final(state)@.pending == old(state)@.pending
            &&& final(state)@.volunteers.contains_key(other) == old(
                state,
            )@.volunteers.contains_key(other)
            &&& old(state)@.volunteers.contains_key(other) ==> final(state)@.volunteers[other]
                == old(state)@.volunteers[other]
        }),
{
    let list = state::volunteer_views(survivors@);
    assert forall|j: int| 0 <= j < list.len() implies #[trigger] list[j].id == survivors@[j].id by {
        assert(list[j] == survivors@[j]@);
    }
    assert forall|j: int, k: int| 0 <= j < k < list.len() implies #[trigger] list[j].id
        != #[trigger] list[k].id by {
        assert(survivors@[j].id != survivors@[k].id);
    }
    assert(list[i] == survivors@[i]@);
    registrar::the_recovered_are_as_they_were(
        old(state)@.volunteers,
        list,
        list.len(),
        now@,
        i,
        other,
    );
}

// ── churn ───────────────────────────────────────────────────────────────────
/// A volunteer that is taken out is gone; its service waits behind all others; nobody
/// else is touched.
pub proof fn the_evicted_are_gone(
    state: &mut AppState,
    dead: DeadVolunteer,
    now: Timestamp,
    strike: bool,
    other: u128,
)
    requires
        call_ensures(churn::evict, (state, &dead, now), strike),
    ensures
        !final(state)@.volunteers.contains_key(dead@.id),
        other != dead@.id ==> final(state)@.volunteers.contains_key(other) == old(
            state,
        )@.volunteers.contains_key(other),
        strike <==> dead@.assignment is Some,
        dead@.assignment is None ==> final(state)@.pending == old(state)@.pending,
        dead@.assignment matches Some(a) ==> final(state)@.pending.len() == old(
            state,
        )@.pending.len() + 1 && final(state)@.pending.last().service == a.service,
{
    registrar::the_evicted_leave_their_service(old(state)@, dead@, now@, other);
}

/// Who is found dead has been silent for 45 seconds or more, and whoever has been is
/// found.
pub proof fn the_silent_are_found_dead(
    state: AppState,
    now: Timestamp,
    dead: Vec<DeadVolunteer>,
    id: u128,
)
    requires
        call_ensures(churn::dead_volunteers_at, (&state, &now), dead),
        state@.volunteers.contains_key(id),
        state@.volunteers[id].last_heartbeat.nanos < 1_000_000_000,
        now@.nanos < 1_000_000_000,
    ensures
        ({
            let beat = state@.volunteers[id].last_heartbeat;
            (exists|i: int| 0 <= i < dead@.len() && (#[trigger] dead@[i])@.id == id) <==> (
            now@.secs - beat.secs) * 1_000_000_000 + (now@.nanos - beat.nanos) >= 45_000_000_000
        }),
{
    let views = churn::dead_views(dead@);
    registrar::the_dead_are_the_silent(views, state@, now@);
    registrar::life_lasts_45_seconds(state@.volunteers[id], now@);
    if exists|i: int| 0 <= i < dead@.len() && (#[trigger] dead@[i])@.id == id {
        let i = choose|i: int| 0 <= i < dead@.len() && (#[trigger] dead@[i])@.id == id;
        assert(views[i] == dead@[i]@);
        assert(views[i].id == id);
    }
    if !state@.volunteers[id].alive_at(now@) {
        let i = choose|i: int| 0 <= i < views.len() && #[trigger] views[i].id == id;
        assert(views[i] == dead@[i]@);
    }
}

// ── requests ────────────────────────────────────────────────────────────────
/// A request goes to somebody alive with the best score there is among the living, up to
/// what counts of a score, at the volunteer's own address; where nobody is alive it goes
/// to nobody.
pub proof fn requests_find_the_fittest(
    state: AppState,
    path: &str,
    method: &str,
    now: Timestamp,
    target: Option<Target>,
    other: u128,
)
    requires
        call_ensures(dispatch::dispatch_at, (&state, Some(path), method, &now), target),
        state@.volunteers.contains_key(other),
        state@.volunteers[other].alive_at(now@),
        1 < state@.volunteers[other].metrics.score <= 100,
    ensures
        target matches Some(t) && state@.volunteers.contains_key(t.volunteer.id) && t.volunteer@
            == state@.volunteers[t.volunteer.id] && t.volunteer@.alive_at(now@)
            && t.volunteer.metrics.score >= state@.volunteers[other].metrics.score && t.url@
            == "http://"@ + t.volunteer.info.service_addr@ + path@,
{
    if target is None {
        assert(!state@.volunteers[other].alive_at(now@));
    } else {
        let t = target->0;
        assert(t.volunteer@.id == t.volunteer.id);
        registrar::volunteers_weigh_by_their_score(state@.volunteers[other], t.volunteer@);
        registrar::volunteers_weigh_by_their_score(t.volunteer@, state@.volunteers[other]);
    }
}

/// No healthy agent has a processor load strictly below that of the chosen one, whatever
/// their other figures are, and one is chosen wherever one is healthy.
pub proof fn nobody_healthy_is_less_busy(
    broker: Broker,
    now: u64,
    chosen: Option<NamedNode>,
    other: Seq<char>,
)
    requires
        call_ensures(broker::choose_agent, (&broker, now), chosen),
        broker@.nodes.contains_key(other),
        now - broker@.nodes[other].last_heartbeat <= 30_000_000_000,
        broker@.nodes[other].cpu_usage <= 0x7f80_0000,
    ensures
        chosen matches Some(agent) && broker@.nodes.contains_key(agent.name@)
            && broker@.nodes[agent.name@] == agent.node && now - agent.node.last_heartbeat
            <= 30_000_000_000 && (agent.node.cpu_usage <= 0x7f80_0000 ==> agent.node.cpu_usage
            <= broker@.nodes[other].cpu_usage),
{
    assert(broker::is_healthy(broker@.nodes[other], now));
    assert(broker@.nodes.contains_key(other));
    if chosen is Some {
        let agent = chosen->0;
        mesh::requests_go_to_the_least_busy(agent.name@, agent.node, broker@.nodes, now, other);
    }
}

/// A request starts with the agent that is the least busy among the healthy ones, and is
/// refused just where none is healthy.
pub proof fn dispatches_start_with_the_least_busy(
    broker: Broker,
    now: u64,
    dispatch: Dispatch,
    other: Seq<char>,
)
    requires
        call_ensures(broker::dispatch_request, (&broker, now), dispatch),
        broker@.nodes.contains_key(other),
        now - broker@.nodes[other].last_heartbeat <= 30_000_000_000,
        broker@.nodes[other].cpu_usage <= 0x7f80_0000,
    ensures
        dispatch matches Dispatch::Reading(agent) && broker@.nodes.contains_key(agent.name@)
            && broker@.nodes[agent.name@] == agent.node && now - agent.node.last_heartbeat
            <= 30_000_000_000 && (agent.node.cpu_usage <= 0x7f80_0000 ==> agent.node.cpu_usage
            <= broker@.nodes[other].cpu_usage),
{
    assert(broker::is_healthy(broker@.nodes[other], now));
    assert(broker@.nodes.contains_key(other));
    if let Dispatch::Reading(agent) = dispatch {
        mesh::requests_go_to_the_least_busy(agent.name@, agent.node, broker@.nodes, now, other);
    }
}

/// Agents come, speak, fall silent and go: each call does that to the one agent that it is
/// about, and to no other.
pub proof fn agents_come_and_go(
    joined: &mut Broker,
    left: &mut Broker,
    swept: &mut Broker,
    name: &str,
    channel: u64,
    now: u64,
    other: Seq<char>,
)
    requires
        call_ensures(Broker::register, (joined, name, channel, now), ()),
        call_ensures(Broker::disconnect, (left, name), ()),
        call_ensures(Broker::sweep, (swept, now), ()),
    ensures
        final(joined)@.nodes.contains_key(name@),
        final(joined)@.nodes[name@].channel == channel,
        final(joined)@.nodes[name@].last_heartbeat == now,
        final(joined)@.nodes[name@].cpu_usage == 0,
        final(joined)@.nodes[name@].active_requests == 0,
        other != name@ ==> final(joined)@.nodes.contains_key(other) == old(
            joined,
        )@.nodes.contains_key(other),
        !final(left)@.nodes.contains_key(name@),
        other != name@ ==> final(left)@.nodes.contains_key(other) == old(left)@.nodes.contains_key(
            other,
        ),
        final(swept)@.nodes.contains_key(other) <==> old(swept)@.nodes.contains_key(other) && now
            <= old(swept)@.nodes[other].last_heartbeat + 60_000_000_000,
        final(joined)@.requests == old(joined)@.requests,
        final(left)@.requests == old(left)@.requests,
        final(swept)@.requests == old(swept)@.requests,
{
    mesh::agents_are_healthy_for_30_seconds(old(swept)@.nodes, other, now);
}

/// A heartbeat of an agent is taken at its word, and an answer goes to who waits for it.
pub proof fn frames_are_taken_in(
    broker: &mut Broker,
    agent: &str,
    id: &str,
    load: Load,
    now: u64,
    effect: FrameEffect,
    answered: &mut Broker,
    answer: FrameEffect,
)
    requires
        call_ensures(
            Broker::take_frame,
            (broker, FrameKind::Heartbeat, agent, id, Some(load), now),
            effect,
        ),
        old(broker)@.nodes.contains_key(agent@),
        call_ensures(
            Broker::take_frame,
            (answered, FrameKind::Response, agent, id, None::<Load>, now),
            answer,
        ),
        old(answered)@.requests.contains_key(id@),
    ensures
        effect is Refreshed,
        final(broker)@.nodes[agent@].cpu_usage == load.cpu_usage,
        final(broker)@.nodes[agent@].active_requests == load.active_requests,
        final(broker)@.nodes[agent@].memory_used == load.memory_used,
        final(broker)@.nodes[agent@].load_average == load.load_average,
        final(broker)@.nodes[agent@].last_heartbeat == now,
        answer == FrameEffect::Answered(old(answered)@.requests[id@]),
        !final(answered)@.requests.contains_key(id@),
        final(answered)@.nodes == old(answered)@.nodes,
{
}

// ── services ────────────────────────────────────────────────────────────────
/// A service that was taken by the proxy is run by the volunteer that it was meant for,
/// from then on; one that was not changes nothing, and the reason is answered.
pub proof fn registrations_settle_as_the_proxy_says(
    state: &mut AppState,
    request: RegisterServiceRequest,
    id: u128,
    outcome: Result<(), haproxy::Error>,
    now: Timestamp,
    settled: (Option<ServiceAssignment>, RegisterAnswer),
    other: u128,
)
    requires
        call_ensures(services::settle_registration, (state, &request, id, outcome, now), settled),
    ensures
        outcome is Ok && old(state)@.volunteers.contains_key(id) ==> {
            let v = final(state)@.volunteers[id];
            &&& v.assigned_service is Some
            &&& v.assigned_service->0.service.name == request.name@
            &&& v.assigned_service->0.service.domain == request.domain@
            &&& v.assigned_service->0.service.image == request.image@
            &&& v.assigned_service->0.service.port == request.port
            &&& v.assigned_service->0.assigned_at == now@
        },
        outcome is Ok ==> settled.1 is Created && settled.0 is Some,
        outcome matches Err(e) ==> final(state)@ == old(state)@ && settled.0 is None && (
        settled.1 matches RegisterAnswer::Failed(words) && words@ == e@.text()),
        other != id ==> final(state)@.volunteers.contains_key(other) == old(
            state,
        )@.volunteers.contains_key(other),
        other != id && old(state)@.volunteers.contains_key(other)
            ==> final(state)@.volunteers[other] == old(state)@.volunteers[other],
        final(state)@.pending == old(state)@.pending,
{
    if outcome is Ok {
        registrar::assigned_services_are_run(
            old(state)@.volunteers,
            id,
            settled.0->0@,
            other,
        );
        let more = final(state)@.volunteers;
        assert(more.dom() == old(state)@.volunteers.dom());
        assert(more.contains_key(other) == more.dom().contains(other));
        assert(old(state)@.volunteers.contains_key(other) == old(
            state,
        )@.volunteers.dom().contains(other));
    }
}

/// A service that is started goes to the address of the volunteer that gets it, which is
/// alive and runs nothing; one that waits is the last in the queue.
pub proof fn registrations_start_or_wait(
    state: &mut AppState,
    request: RegisterServiceRequest,
    now: Timestamp,
    registration: Registration,
)
    requires
        call_ensures(services::register_service_at, (state, &request, now), registration),
    ensures
        registration matches Registration::Assigning { volunteer_id, assignment } ==> {
            let v = old(state)@.volunteers[volunteer_id];
            &&& old(state)@.volunteers.contains_key(volunteer_id)
            &&& v.alive_at(now@)
            &&& v.assigned_service is None
            &&& assignment@.addr == v.info.service_addr
            &&& assignment@.service == request.name@
            &&& assignment@.stage matches AssignStageView::Configuring(edit)
            &&& edit.domain == Some(request.domain@)
            &&& final(state)@ == old(state)@
        },
        registration matches Registration::Queued(answer) ==> {
            &&& answer is Created
            &&& answer->Created_0.assigned_to is None
            &&& answer->Created_0.backend@ == "svc_"@ + request.name@
            &&& final(state)@.volunteers == old(state)@.volunteers
            &&& final(state)@.pending.len() == old(state)@.pending.len() + 1
            &&& final(state)@.pending.last().service.name == request.name@
            &&& final(state)@.pending.last().service.domain == request.domain@
            &&& final(state)@.pending.last().service.image == request.image@
            &&& final(state)@.pending.last().service.port == request.port
        },
{
}

/// Where somebody is alive and runs nothing, a service that is registered is started, for
/// somebody of whom no such one has a better score that counts.
pub proof fn registrations_go_to_the_fittest(
    state: &mut AppState,
    request: RegisterServiceRequest,
    now: Timestamp,
    registration: Registration,
    other: u128,
)
    requires
        call_ensures(services::register_service_at, (state, &request, now), registration),
        old(state)@.volunteers.contains_key(other),
        old(state)@.volunteers[other].alive_at(now@),
        old(state)@.volunteers[other].assigned_service is None,
        1 < old(state)@.volunteers[other].metrics.score <= 100,
    ensures
        registration is Assigning,
        registration matches Registration::Assigning { volunteer_id, assignment } ==> old(
            state,
        )@.volunteers[volunteer_id].metrics.score >= old(state)@.volunteers[other].metrics.score,
{
    let free = old(state)@.volunteers[other];
    assert(services::is_free(free, now@));
    assert(old(state)@.volunteers.contains_key(other));
    if let Registration::Assigning { volunteer_id, assignment } = registration {
        let v = old(state)@.volunteers[volunteer_id];
        registrar::volunteers_weigh_by_their_score(free, v);
        registrar::volunteers_weigh_by_their_score(v, free);
    }
}

/// Services wait in line: the next one is the first that was queued, one that is queued
/// is the last, and one that is put back is the first.
pub proof fn services_wait_in_line(
    taken: &mut AppState,
    next: Option<PendingService>,
    queued: &mut AppState,
    back: &mut AppState,
    service: PendingService,
)
    requires
        call_ensures(AppState::next_service, (taken,), next),
        call_ensures(AppState::queue_service, (queued, service), ()),
        call_ensures(AppState::requeue_service, (back, service), ()),
    ensures
        old(taken)@.pending.len() > 0 ==> next is Some && next->0@ == old(taken)@.pending[0]
            && final(taken)@.pending == old(taken)@.pending.skip(1),
        old(taken)@.pending.len() == 0 ==> next is None && final(taken)@ == old(taken)@,
        final(queued)@.pending == old(queued)@.pending.push(service@),
        final(back)@.pending.len() == old(back)@.pending.len() + 1,
        final(back)@.pending[0] == service@,
        final(back)@.pending.skip(1) == old(back)@.pending,
        final(taken)@.volunteers == old(taken)@.volunteers,
        final(queued)@.volunteers == old(queued)@.volunteers,
        final(back)@.volunteers == old(back)@.volunteers,
{
    if old(taken)@.pending.len() > 0 {
        assert(old(taken)@.pending.drop_first() =~= old(taken)@.pending.skip(1));
    }
    assert(final(back)@.pending.skip(1) =~= old(back)@.pending);
}

// ── records, answers and runs ───────────────────────────────────────────────
/// A node that nobody in memory has the hostname of is taken for what is on record: it
/// keeps the identifier on record, and is started with the service on record.
pub proof fn the_recorded_keep_their_service(
    state: &mut AppState,
    request: EnrollRequest,
    record: KnownNode,
    addr: String,
    fresh: u128,
    now: Timestamp,
    enrollment: Enrollment,
    started: Option<Assignment>,
)
    requires
        call_ensures(
            enrollment::enroll_with,
            (state, request, Some(record), addr, fresh, now),
            enrollment,
        ),
        call_ensures(Enrollment::assignment, (&enrollment,), started),
        forall|id: u128| #[trigger]
            old(state)@.volunteers.contains_key(id) ==> old(state)@.volunteers[id].info.hostname
                != request.info.hostname@,
    ensures
        enrollment@.volunteer.id == record.id,
        record.assignment matches Some(a) ==> {
            &&& started is Some
            &&& started->0@.service == a.service_name@
            &&& started->0@.stage matches AssignStageView::Configuring(edit)
            &&& edit.domain == Some(a.domain@)
            &&& final(state)@ == old(state)@
        },
{
    assert(!enrollment::has_hostname(old(state)@, request.info.hostname@));
}

/// A volunteer that enrolls has said of itself what is then known of it, is idle, and was
/// heard of just now. Its address is the one that was worked out for it.
pub proof fn the_enrolling_are_taken_at_their_word(
    state: &mut AppState,
    request: EnrollRequest,
    on_record: Option<KnownNode>,
    addr: String,
    fresh: u128,
    now: Timestamp,
    enrollment: Enrollment,
)
    requires
        call_ensures(
            enrollment::enroll_with,
            (state, request, on_record, addr, fresh, now),
            enrollment,
        ),
    ensures
        ({
            let v = enrollment@.volunteer;
            &&& v.info.hostname == request.info.hostname@
            &&& v.info.os == request.info.os@
            &&& v.info.arch == request.info.arch@
            &&& v.info.cpu_cores == request.info.cpu_cores
            &&& v.info.cpu_model == request.info.cpu_model@
            &&& v.info.memory_total_mb == request.info.memory_total_mb
            &&& v.info.disk_free_gb == request.info.disk_free_gb
            &&& v.info.docker_version == request.info.docker_version@
            &&& v.info.tunnel_version == request.info.tunnel_version@
            &&& v.info.service_addr == addr@
            &&& v.metrics.active_requests == 0
            &&& v.metrics.score == 100
            &&& v.enrolled_at == now@
            &&& v.last_heartbeat == now@
            &&& v.assigned_service is None
            &&& enrollment@.port == request.tunnel_public_port
            &&& enrollment@.now == now@
            &&& final(state)@.volunteers == old(state)@.volunteers
        }),
{
}

/// Dead volunteers, nodes that are known and lists of the dead are shown as they are.
pub proof fn the_dead_and_the_known_are_shown(
    dead: DeadVolunteer,
    known: KnownNode,
    list: Seq<DeadVolunteer>,
    i: int,
)
    ensures
        dead@.id == dead.id,
        dead@.hostname == dead.hostname@,
        dead@.assignment is Some <==> dead.assignment is Some,
        dead.assignment is Some ==> dead@.assignment->0 == dead.assignment->0@,
        known@.id == known.id,
        known@.assignment is Some <==> known.assignment is Some,
        known.assignment is Some ==> known@.assignment->0 == known.assignment->0@,
        churn::dead_views(list).len() == list.len(),
        0 <= i < list.len() ==> churn::dead_views(list)[i] == list[i]@,
{
}

/// A volunteer that has enrolled joins those that share the traffic, with the full weight,
/// at its address; one that leaves goes into maintenance there first.
pub proof fn volunteers_join_and_leave(
    done: Enrolled,
    joining: RuntimeRun,
    id: u128,
    leaving: RuntimeRun,
    ip: Seq<char>,
    port: Seq<char>,
    first: Seq<char>,
)
    requires
        call_ensures(Enrolled::join, (&done,), joining),
        call_ensures(enrollment::leave, (id,), leaving),
        done.volunteer.info.service_addr@ == ip + seq![':'] + port,
        !port.contains(':'),
    ensures
        joining@.command() == Some(
            "set server "@ + "volunteers"@ + "/"@ + ids::simple_of(done.volunteer.id) + " addr "@
                + ip + " port "@ + port,
        ),
        joining@.after(Ok(first)).command() == Some(
            "set weight "@ + "volunteers"@ + "/"@ + ids::simple_of(done.volunteer.id) + " "@
                + text::decimal(100),
        ),
        leaving@.command() == Some(
            "set server "@ + "volunteers"@ + "/"@ + ids::simple_of(id) + " state "@ + "maint"@,
        ),
        leaving@.after(Ok(first)).command() == Some(
            "del server "@ + "volunteers"@ + "/"@ + ids::simple_of(id),
        ),
{
    let e = RuntimeErrorView::Unsupported;
    let name = ids::simple_of(done.volunteer.id);
    proxy::upserting_moves_or_adds("volunteers"@, name, ip, port, 100, e, first, first, first);
    proxy::removing_takes_two_commands("volunteers"@, ids::simple_of(id), first, first);
}

/// A heartbeat brings the weight in the proxy up to date. Where the proxy does not know the
/// server it is added with that weight; where something else is wrong nothing is done.
pub proof fn heartbeats_bring_the_weight(
    beat: Beat,
    weighing: RuntimeRun,
    e: haproxy::Error,
    again: Option<RuntimeRun>,
)
    requires
        call_ensures(Beat::weigh, (&beat,), weighing),
        call_ensures(Beat::after_weighing_failed, (&beat, &e), again),
    ensures
        weighing@.command() == Some(
            "set weight "@ + "volunteers"@ + "/"@ + ids::simple_of(beat.volunteer.id) + " "@
                + text::decimal(beat.weight as nat),
        ),
        again is Some <==> text::has_part(e@.text(), "No such server"@),
        again matches Some(run) ==> run@.command() == Some(
            "add server "@ + "volunteers"@ + "/"@ + ids::simple_of(beat.volunteer.id) + " "@
                + beat.volunteer.info.service_addr@,
        ),
{
    let name = ids::simple_of(beat.volunteer.id);
    let addr = beat.volunteer.info.service_addr@;
    proxy::commands_are_written_out("volunteers"@, name, addr, addr, addr, beat.weight, addr);
    proxy::adding_takes_three_commands("volunteers"@, name, addr, beat.weight, addr, addr, addr);
}

/// What is answered to heartbeats, departures and enrollments.
pub proof fn answers_have_their_codes(
    known: Option<Beat>,
    answer: (u16, Result<HeartbeatResponse, ErrorResponse>),
    departure: Departure,
    code: u16,
    words: Option<String>,
    error: Option<ErrorResponse>,
    done: Enrolled,
    created: u16,
)
    requires
        call_ensures(enrollment::heartbeat_answer, (&known,), answer),
        call_ensures(Departure::status, (&departure,), code),
        call_ensures(Departure::words, (&departure,), words),
        call_ensures(Departure::error, (&departure,), error),
        call_ensures(Enrolled::status, (&done,), created),
    ensures
        known matches Some(beat) ==> {
            &&& answer.0 == 200
            &&& answer.1 is Ok
            &&& answer.1->Ok_0.status@ == "ok"@
            &&& answer.1->Ok_0.assignment is Some <==> beat.volunteer.assigned_service is Some
            &&& beat.volunteer.assigned_service matches Some(a)
                ==> answer.1->Ok_0.assignment->0.image@ == a.image@
                && answer.1->Ok_0.assignment->0.service_port == a.service_port
        },
        known is None ==> answer.0 == 404 && answer.1 is Err && answer.1->Err_0.error@
            == "Volunteer not found"@ && answer.1->Err_0.code@ == "VOLUNTEER_NOT_FOUND"@,
        departure is InvalidId ==> code == 400 && error is Some && error->0.error@
            == "Invalid UUID"@ && error->0.code@ == "INVALID_ID"@,
        departure is NotFound ==> code == 404 && error is Some && error->0.error@
            == "Volunteer not found"@ && error->0.code@ == "VOLUNTEER_NOT_FOUND"@,
        departure is Left ==> code == 200 && error is None && words is Some && words->0@
            == "disconnected"@,
        created == 201,
{
}

/// What is answered to registrations and to requests that are passed on.
pub proof fn outcomes_have_their_codes(
    answer: RegisterAnswer,
    code: u16,
    forwarded: Forwarded,
    status: u16,
    words: String,
)
    requires
        call_ensures(RegisterAnswer::status, (&answer,), code),
        call_ensures(Forwarded::status, (&forwarded,), status),
        call_ensures(Forwarded::text, (&forwarded,), words),
    ensures
        answer is Created ==> code == 201,
        answer is Failed ==> code == 500,
        forwarded is NoVolunteer ==> status == 503 && words@ == "No volunteers available"@,
        forwarded is UnreadableBody ==> status == 500,
        forwarded is Unreachable ==> status == 502,
        forwarded matches Forwarded::Answered(s) ==> 100 <= s <= 999 ==> status == s,
        forwarded matches Forwarded::Answered(s) ==> s < 100 || s > 999 ==> status == 500,
{
}

/// The list of active volunteers has whoever is alive, and nobody in it stands before one
/// with a better score that counts.
pub proof fn the_active_are_ranked(
    state: AppState,
    now: Timestamp,
    list: Vec<VolunteerState>,
    i: int,
    j: int,
    id: u128,
)
    requires
        call_ensures(AppState::active_volunteers_at, (&state, &now), list),
    ensures
        0 <= i < j < list@.len() && list@[j].metrics.score > list@[i].metrics.score
            ==> list@[j].metrics.score <= 1 || list@[i].metrics.score >= 100,
        0 <= i < list@.len() ==> state@.volunteers.contains_key(list@[i].id)
            && state@.volunteers[list@[i].id] == list@[i]@ && list@[i]@.alive_at(now@),
        state@.volunteers.contains_key(id) && state@.volunteers[id].alive_at(now@) ==> exists|
            k: int,
        |
            0 <= k < list@.len() && (#[trigger] list@[k])@ == state@.volunteers[id],
{
    let views = state::volunteer_views(list@);
    registrar::rankings_go_by_the_score(views, state@, now@);
    assert(views.len() == list@.len());
    if 0 <= i < list@.len() {
        assert(views[i] == list@[i]@);
        assert(views[i].id == list@[i].id);
    }
    if 0 <= j < list@.len() {
        assert(views[j] == list@[j]@);
    }
    if state@.volunteers.contains_key(id) && state@.volunteers[id].alive_at(now@) {
        let k = choose|k: int| 0 <= k < views.len() && #[trigger] views[k] == state@.volunteers[id];
        assert(list@[k]@ == views[k]);
    }
}

/// A service goes to somebody that is alive and runs nothing, and nobody such has a better
/// score that counts.
pub proof fn the_fittest_free_is_found(
    state: AppState,
    now: Timestamp,
    found: Option<VolunteerState>,
    other: u128,
)
    requires
        call_ensures(services::best_free, (&state, &now), found),
        state@.volunteers.contains_key(other),
        state@.volunteers[other].alive_at(now@),
        state@.volunteers[other].assigned_service is None,
        1 < state@.volunteers[other].metrics.score <= 100,
    ensures
        found matches Some(v) && state@.volunteers.contains_key(v.id) && v@
            == state@.volunteers[v.id] && v.assigned_service is None && v@.alive_at(now@)
            && v.metrics.score >= state@.volunteers[other].metrics.score,
{
    assert(services::is_free(state@.volunteers[other], now@));
    assert(state@.volunteers.contains_key(other));
    if let Some(v) = found {
        assert(v@.metrics == v.metrics);
        registrar::volunteers_weigh_by_their_score(state@.volunteers[other], v@);
        registrar::volunteers_weigh_by_their_score(v@, state@.volunteers[other]);
    }
}

/// Services that are assigned and queued again stay the same services.
pub proof fn services_stay_the_same(
    pending: PendingService,
    now: Timestamp,
    assignment: ServiceAssignment,
    a: ServiceAssignment,
    again: PendingService,
    copied: Option<ServiceAssignment>,
)
    requires
        call_ensures(PendingService::assigned, (&pending, now), assignment),
        call_ensures(ServiceAssignment::requeued, (&a, now), again),
        call_ensures(state::copy_assignment, (&Some(a),), copied),
    ensures
        assignment.service_name@ == pending.name@,
        assignment.domain@ == pending.domain@,
        assignment.image@ == pending.image@,
        assignment.service_port == pending.service_port,
        assignment.assigned_at@ == now@,
        again.name@ == a.service_name@,
        again.domain@ == a.domain@,
        again.image@ == a.image@,
        again.service_port == a.service_port,
        again.registered_at@ == now@,
        copied is Some,
        copied->0@ == a@,
{
    assert(assignment@.service == pending@.service);
    assert(again@.service == a@.service);
}

/// Volunteers are filed, found, counted and taken out under their identifiers.
pub proof fn volunteers_are_filed_by_identifier(
    filed: &mut AppState,
    v: VolunteerState,
    state: AppState,
    id: u128,
    found: Option<VolunteerState>,
    gone: &mut AppState,
    removed: Option<VolunteerState>,
    other: u128,
)
    requires
        call_ensures(AppState::insert_volunteer, (filed, v), ()),
        call_ensures(AppState::volunteer, (&state, id), found),
        call_ensures(AppState::remove_volunteer, (gone, id), removed),
    ensures
        final(filed)@.volunteers.contains_key(v.id),
        final(filed)@.volunteers[v.id] == v@,
        other != v.id ==> final(filed)@.volunteers.contains_key(other) == old(
            filed,
        )@.volunteers.contains_key(other) && final(filed)@.volunteers[other] == old(
            filed,
        )@.volunteers[other],
        final(filed)@.pending == old(filed)@.pending,
        state@.volunteers.contains_key(id) ==> found is Some && found->0@ == state@.volunteers[id],
        !state@.volunteers.contains_key(id) ==> found is None,
        !final(gone)@.volunteers.contains_key(id),
        old(gone)@.volunteers.contains_key(id) ==> removed is Some && removed->0@ == old(
            gone,
        )@.volunteers[id],
        !old(gone)@.volunteers.contains_key(id) ==> removed is None,
        other != id ==> final(gone)@.volunteers.contains_key(other) == old(
            gone,
        )@.volunteers.contains_key(other),
        final(gone)@.pending == old(gone)@.pending,
{
}

/// A registration that is finished has the volunteer run the service that was asked for,
/// and says so.
pub proof fn finished_registrations_are_run(
    state: &mut AppState,
    request: RegisterServiceRequest,
    id: u128,
    now: Timestamp,
    done: Registered,
    other: u128,
)
    requires
        call_ensures(services::finish_registration, (state, &request, id, now), done),
    ensures
        old(state)@.volunteers.contains_key(id) ==> final(state)@.volunteers[id].assigned_service
            == Some(done.assignment@),
        done.assignment.service_name@ == request.name@,
        done.assignment.domain@ == request.domain@,
        done.assignment.image@ == request.image@,
        done.assignment.service_port == request.port,
        done.assignment.assigned_at@ == now@,
        done.response.backend@ == "svc_"@ + request.name@,
        done.response.domain@ == request.domain@,
        done.response.assigned_to is Some,
        done.response.assigned_to->0@ == ids::hyphenated_of(id),
        other != id && old(state)@.volunteers.contains_key(other)
            ==> final(state)@.volunteers[other] == old(state)@.volunteers[other],
        final(state)@.pending == old(state)@.pending,
{
    registrar::assigned_services_are_run(old(state)@.volunteers, id, done.assignment@, other);
    assert(done.assignment@.service == request@);
}

/// Whatever the time, a service that is registered is started at the address of somebody
/// that runs nothing, or waits behind all others.
pub proof fn registrations_now_start_or_wait(
    state: &mut AppState,
    request: RegisterServiceRequest,
    registration: Registration,
)
    requires
        call_ensures(services::register_service, (state, &request), registration),
    ensures
        registration matches Registration::Assigning { volunteer_id, assignment } ==> {
            let v = old(state)@.volunteers[volunteer_id];
            &&& old(state)@.volunteers.contains_key(volunteer_id)
            &&& v.assigned_service is None
            &&& assignment@.addr == v.info.service_addr
            &&& assignment@.service == request.name@
            &&& final(state)@ == old(state)@
        },
        registration is Queued ==> {
            &&& final(state)@.volunteers == old(state)@.volunteers
            &&& final(state)@.pending.len() == old(state)@.pending.len() + 1
            &&& final(state)@.pending.last().service.name == request.name@
            &&& final(state)@.pending.last().service.domain == request.domain@
            &&& final(state)@.pending.last().service.image == request.image@
            &&& final(state)@.pending.last().service.port == request.port
        },
{
    if registration is Queued {
        let now = choose|now: TimestampView|
            now.valid() && #[trigger] services::queued_at(
                old(state)@,
                final(state)@,
                request@,
                now,
            );
        registrar::registered_services_wait_last(old(state)@, final(state)@, request@, now);
    }
}

/// A node is known by the hostname of a volunteer, and by nothing else.
pub proof fn nodes_are_found_by_hostname(
    state: AppState,
    hostname: &str,
    known: Option<KnownNode>,
    id: u128,
)
    requires
        call_ensures(enrollment::known_node, (&state, hostname), known),
    ensures
        known matches Some(k) ==> state@.volunteers.contains_key(k.id)
            && state@.volunteers[k.id].info.hostname == hostname@ && k@.assignment
            == state@.volunteers[k.id].assigned_service,
        state@.volunteers.contains_key(id) && state@.volunteers[id].info.hostname == hostname@
            ==> known is Some,
{
    if state@.volunteers.contains_key(id) && state@.volunteers[id].info.hostname == hostname@ {
        assert(enrollment::has_hostname(state@, hostname@));
    }
}

/// Who is listed now, and who is found dead now, is so at one instant.
pub proof fn lists_are_of_one_instant(
    state: AppState,
    list: Vec<VolunteerState>,
    shown: Vec<VolunteerState>,
    dead: Vec<DeadVolunteer>,
    alive: bool,
    v: VolunteerState,
)
    requires
        call_ensures(AppState::active_volunteers, (&state,), list),
        call_ensures(enrollment::list_volunteers, (&state,), shown),
        call_ensures(churn::dead_volunteers, (&state,), dead),
        call_ensures(VolunteerState::is_alive, (&v,), alive),
    ensures
        exists|now: TimestampView|
            now.nanos < 1_000_000_000 && #[trigger] state::is_ranking(
                state::volunteer_views(list@),
                state@,
                now,
            ),
        exists|now: TimestampView|
            now.nanos < 1_000_000_000 && #[trigger] state::is_ranking(
                state::volunteer_views(shown@),
                state@,
                now,
            ),
        exists|now: TimestampView|
            now.nanos < 1_000_000_000 && #[trigger] churn::are_dead(
                churn::dead_views(dead@),
                state@,
                now,
            ),
        exists|now: TimestampView|
            now.nanos < 1_000_000_000 && alive == #[trigger] v@.alive_at(now),
{
}

/// Whatever the time, a request goes to somebody known, at its address, or to nobody where
/// nobody is alive.
pub proof fn requests_now_go_to_somebody_known(
    state: AppState,
    path: &str,
    method: &str,
    target: Option<Target>,
)
    requires
        call_ensures(dispatch::dispatch, (&state, Some(path), method), target),
    ensures
        target matches Some(t) ==> state@.volunteers.contains_key(t.volunteer.id) && t.volunteer@
            == state@.volunteers[t.volunteer.id] && t.url@ == "http://"@
            + t.volunteer.info.service_addr@ + path@,
        target is None ==> exists|now: TimestampView|
            now.nanos < 1_000_000_000 && #[trigger] dispatch::nobody_alive(state@, now),
{
    if let Some(t) = target {
        assert(t.volunteer@.id == t.volunteer.id);
    }
}

/// An enrollment now is an enrollment at some instant: the volunteer is who it says, and
/// the backend of its service is to be pointed at its own port.
pub proof fn enrollments_now_point_at_the_tunnel(
    state: &mut AppState,
    request: EnrollRequest,
    on_record: Option<KnownNode>,
    addr: String,
    enrollment: Enrollment,
    started: Option<Assignment>,
)
    requires
        call_ensures(enrollment::enroll, (state, request, on_record, addr), enrollment),
        call_ensures(Enrollment::assignment, (&enrollment,), started),
    ensures
        started matches Some(a) ==> a@.addr == "127.0.0.1:"@ + text::decimal(
            request.tunnel_public_port as nat,
        ) && a@.stage is Configuring,
        old(state)@.pending.len() > 0 ==> started is Some,
        enrollment@.volunteer.info.hostname == request.info.hostname@,
        enrollment@.volunteer.info.service_addr == addr@,
        final(state)@.volunteers == old(state)@.volunteers,
{
    registrar::addresses_end_with_their_port("127.0.0.1"@, request.tunnel_public_port);
}

/// Counts count, and a new state is empty.
pub proof fn counts_count(state: AppState, many: usize, waiting: usize, fresh: AppState)
    requires
        call_ensures(AppState::volunteer_count, (&state,), many),
        call_ensures(AppState::pending_count, (&state,), waiting),
        call_ensures(AppState::new, (), fresh),
    ensures
        many == state@.volunteers.len(),
        waiting == state@.pending.len(),
        fresh@.volunteers == Map::<u128, state::VolunteerView>::empty(),
        fresh@.pending.len() == 0,
{
}

} // verus!
