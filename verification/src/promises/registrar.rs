//! The registrar: who is alive and how fit, who enrolls, who runs what.
use crate::clock::TimestampView;
use crate::haproxy;
use crate::ids;
use crate::promises::texts;
use crate::registrar::churn;
use crate::registrar::churn::DeadView;
use crate::registrar::dispatch;
use crate::registrar::dispatch::Target;
use crate::registrar::enrollment;
use crate::registrar::enrollment::{
    AssignmentPayload, EnrollRequest, EnrollmentView, HeartbeatRequest, KnownNodeView, OfferView,
};
use crate::registrar::recovery;
use crate::registrar::services;
use crate::registrar::services::{RegisterServiceRequest, RegisterServiceResponse};
use crate::registrar::state;
use crate::registrar::state::{
    AppStateView, HandshakeInfo, Metrics, PendingService, ServiceAssignment,
    ServiceAssignmentView, ServiceView, VolunteerState, VolunteerView,
};
use crate::text;
use vstd::prelude::*;

verus! {

// ── fitness ─────────────────────────────────────────────────────────────────
/// The weight of a volunteer is its score where that lies between 1 and 100, the nearer
/// of the two where it does not, and never falls where the score rises.
pub proof fn weights_follow_scores(a: Metrics, b: Metrics)
    ensures
        1 <= a.score <= 100 ==> a.weight_spec() == a.score,
        a.score < 1 ==> a.weight_spec() == 1,
        a.score > 100 ==> a.weight_spec() == 100,
        a.score <= b.score ==> a.weight_spec() <= b.weight_spec(),
        a.weight_spec() < b.weight_spec() ==> a.score < b.score,
{
}

/// A volunteer weighs what its last metrics weigh.
pub proof fn volunteers_weigh_by_their_score(v: VolunteerView, w: VolunteerView)
    ensures
        1 <= v.metrics.score <= 100 ==> v.weight() == v.metrics.score,
        v.metrics.score < 1 ==> v.weight() == 1,
        v.metrics.score > 100 ==> v.weight() == 100,
        v.weight() < w.weight() ==> v.metrics.score < w.metrics.score,
        v.metrics.score < w.metrics.score && w.metrics.score > 1 && v.metrics.score < 100
            ==> v.weight() < w.weight(),
{
}

/// A volunteer is alive while fewer than 45 seconds have passed since its last heartbeat,
/// and dead from then on.
pub proof fn life_lasts_45_seconds(v: VolunteerView, now: TimestampView)
    requires
        v.last_heartbeat.nanos < 1_000_000_000,
        now.nanos < 1_000_000_000,
    ensures
        v.alive_at(now) <==> (now.secs - v.last_heartbeat.secs) * 1_000_000_000 + (now.nanos
            - v.last_heartbeat.nanos) < 45_000_000_000,
{
}

/// Who has sent the later heartbeat lives no shorter, whatever else is known of the two.
pub proof fn life_is_by_the_heartbeat_alone(v: VolunteerView, w: VolunteerView, now: TimestampView)
    requires
        v.last_heartbeat == w.last_heartbeat,
    ensures
        v.alive_at(now) == w.alive_at(now),
        v.alive_at(now) <==> now.since(v.last_heartbeat) < 45,
{
}

/// The list of active volunteers has just those that are alive, each once and as they
/// are, and nobody stands before one with a better score that counts.
pub proof fn rankings_go_by_the_score(list: Seq<VolunteerView>, state: AppStateView, now: TimestampView)
    requires
        state::is_ranking(list, state, now),
    ensures
        forall|i: int, j: int|
            0 <= i < j < list.len() ==> #[trigger] list[i].id != #[trigger] list[j].id,
        forall|i: int, j: int|
            #![trigger list[i], list[j]]
            0 <= i < j < list.len() && list[j].metrics.score > list[i].metrics.score
                ==> list[j].metrics.score <= 1 || list[i].metrics.score >= 100,
        forall|i: int|
            0 <= i < list.len() ==> state.volunteers.contains_key((#[trigger] list[i]).id)
                && state.volunteers[list[i].id] == list[i] && now.since(list[i].last_heartbeat) < 45,
        forall|id: u128| #[trigger]
            state.volunteers.contains_key(id) && now.since(state.volunteers[id].last_heartbeat) < 45
                ==> exists|i: int| 0 <= i < list.len() && #[trigger] list[i] == state.volunteers[id],
{
    assert forall|i: int, j: int|
        #![trigger list[i], list[j]]
        0 <= i < j < list.len() && list[j].metrics.score > list[i].metrics.score implies
        list[j].metrics.score <= 1 || list[i].metrics.score >= 100 by {
        assert(list[i].weight() >= list[j].weight());
    }
    assert forall|id: u128| #[trigger]
        state.volunteers.contains_key(id) && now.since(state.volunteers[id].last_heartbeat)
            < 45 implies exists|i: int|
        0 <= i < list.len() && #[trigger] list[i] == state.volunteers[id] by {
        assert(state.volunteers[id].alive_at(now));
        assert(state::has_id(list, id));
        let i = choose|i: int| 0 <= i < list.len() && #[trigger] list[i].id == id;
        assert(list[i] == state.volunteers[id]);
    }
}

/// A request goes to a volunteer that is alive, to the address that it is reached at, and
/// nobody alive has a better score that counts.
pub proof fn requests_go_to_the_best_score(
    target: Target,
    state: AppStateView,
    path: Option<Seq<char>>,
    method: Seq<char>,
    now: TimestampView,
    other: u128,
)
    requires
        dispatch::goes_to_fittest(target, state, path, method, now),
    ensures
        ({
            let v = state.volunteers[target.volunteer.id];
            &&& state.volunteers.contains_key(target.volunteer.id)
            &&& target.volunteer.info.service_addr@ == v.info.service_addr
            &&& now.since(v.last_heartbeat) < 45
            &&& state.volunteers.contains_key(other) && now.since(
                state.volunteers[other].last_heartbeat,
            ) < 45 && state.volunteers[other].metrics.score > v.metrics.score
                ==> state.volunteers[other].metrics.score <= 1 || v.metrics.score >= 100
            &&& path is Some ==> target.url@ == "http://"@ + v.info.service_addr + path->0
            &&& path is None ==> target.url@ == "http://"@ + v.info.service_addr + "/"@
            &&& target.method@ == method || target.method@ == "GET"@
        }),
{
    assert(target.volunteer@.id == target.volunteer.id);
    if state.volunteers.contains_key(other) && now.since(state.volunteers[other].last_heartbeat)
        < 45 {
        assert(state.volunteers[other].alive_at(now));
        assert(state.volunteers[other].weight() <= target.volunteer@.weight());
    }
}

/// Nobody takes a request just where nobody has sent a heartbeat for 45 seconds.
pub proof fn requests_are_refused_where_all_are_silent(state: AppStateView, now: TimestampView, id: u128)
    requires
        dispatch::nobody_alive(state, now),
        state.volunteers.contains_key(id),
    ensures
        now.since(state.volunteers[id].last_heartbeat) >= 45,
{
}

/// The path of a request is asked for as it is.
pub proof fn paths_are_kept(path: &str)
    ensures
        dispatch::maybe_path(Some(path)) == Some(path@),
        dispatch::maybe_path(None) == None::<Seq<char>>,
{
}

// ── enrolling ───────────────────────────────────────────────────────────────
/// A volunteer that enrolls keeps the identifier that it is known by, or gets the fresh
/// one, and all that it said of itself but for where it is reached. It counts as idle and
/// as heard of just now.
pub proof fn the_enrolled_are_who_they_say(
    before: AppStateView,
    after: AppStateView,
    request: EnrollRequest,
    known: Option<KnownNodeView>,
    addr: Seq<char>,
    fresh: u128,
    now: TimestampView,
    enrollment: EnrollmentView,
    assigned: bool,
)
    requires
        enrollment::enrollment_starts(
            before,
            after,
            request,
            known,
            addr,
            fresh,
            now,
            enrollment,
        ),
    ensures
        ({
            let v = enrollment::enrolled(enrollment, assigned);
            &&& v.id == enrollment.volunteer.id
            &&& known is Some ==> v.id == known->0.id
            &&& known is None ==> v.id == fresh
            &&& v.info.hostname == request.info.hostname@
            &&& v.info.os == request.info.os@
            &&& v.info.arch == request.info.arch@
            &&& v.info.cpu_cores == request.info.cpu_cores
            &&& v.info.cpu_model == request.info.cpu_model@
            &&& v.info.memory_total_mb == request.info.memory_total_mb
            &&& v.info.disk_free_gb == request.info.disk_free_gb
            &&& v.info.docker_version == request.info.docker_version@
            &&& v.info.tunnel_version == request.info.tunnel_version@
            &&& v.info.service_addr == addr
            &&& v.metrics.cpu_pct == 0
            &&& v.metrics.mem_pct == 0
            &&& v.metrics.load_avg == 0
            &&& v.metrics.active_requests == 0
            &&& v.metrics.score == 100
            &&& v.enrolled_at == now
            &&& v.last_heartbeat == now
            &&& v.service_running is None
            &&& v.service_image is None
        }),
        enrollment.port == request.tunnel_public_port,
        enrollment.now == now,
        after.volunteers == before.volunteers,
{
}

/// A volunteer that enrolls gets the service that it ran before, or else the one that has
/// waited longest. One that the proxy does not take is the next one in the queue again.
pub proof fn the_enrolled_get_what_waits(
    before: AppStateView,
    after: AppStateView,
    request: EnrollRequest,
    known: Option<KnownNodeView>,
    addr: Seq<char>,
    fresh: u128,
    now: TimestampView,
    enrollment: EnrollmentView,
)
    requires
        enrollment::enrollment_starts(
            before,
            after,
            request,
            known,
            addr,
            fresh,
            now,
            enrollment,
        ),
    ensures
        ({
            let prior = if known is Some {
                known->0.assignment
            } else {
                None
            };
            let taken = enrollment::enrolled(enrollment, true).assigned_service;
            let refused = enrollment::enrolled(enrollment, false).assigned_service;
            let queue_taken = enrollment::queue_after(enrollment, true, after.pending);
            let queue_refused = enrollment::queue_after(enrollment, false, after.pending);
            &&& refused is None
            &&& prior is Some ==> {
                &&& taken == prior
                &&& queue_taken == before.pending
                &&& queue_refused.len() == before.pending.len() + 1
                &&& queue_refused.skip(1) == before.pending
                &&& queue_refused[0].service == prior->0.service
                &&& queue_refused[0].registered_at == now
            }
            &&& prior is None && before.pending.len() > 0 ==> {
                &&& taken is Some
                &&& taken->0.service == before.pending[0].service
                &&& taken->0.assigned_at == now
                &&& queue_taken == before.pending.skip(1)
                &&& queue_refused == before.pending
            }
            &&& prior is None && before.pending.len() == 0 ==> {
                &&& taken is None
                &&& queue_taken.len() == 0
                &&& queue_refused.len() == 0
                &&& enrollment.offer is None
            }
        }),
{
    let back = enrollment::queue_after(enrollment, false, after.pending);
    if enrollment.offer is Some {
        if enrollment.offer->0 is Queued {
            assert(back =~= before.pending);
            assert(before.pending.drop_first() =~= before.pending.skip(1));
        } else {
            assert(back.skip(1) =~= before.pending);
        }
    } else {
        assert(back =~= before.pending);
    }
}

/// The service that is on its way to a volunteer is the one that the volunteer gets, and
/// the one that waits again where it does not get it.
pub proof fn offers_are_about_one_service(offer: OfferView, now: TimestampView)
    ensures
        offer.taken(now).service == offer.service(),
        offer.declined(now).service == offer.service(),
        offer matches OfferView::Prior(a) ==> offer.service() == a.service && offer.taken(now) == a
            && offer.declined(now).registered_at == now,
        offer matches OfferView::Queued(p) ==> offer.service() == p.service && offer.declined(now)
            == p && offer.taken(now).assigned_at == now,
{
}

/// A node that enrolls is taken for a volunteer in memory with its hostname, where there
/// is one, and else for what is on record.
pub proof fn nodes_are_known_by_their_hostname(
    state: AppStateView,
    hostname: Seq<char>,
    on_record: Option<KnownNodeView>,
    known: Option<KnownNodeView>,
    id: u128,
)
    requires
        enrollment::is_known_as(state, hostname, on_record, known),
    ensures
        state.volunteers.contains_key(id) && state.volunteers[id].info.hostname == hostname ==> {
            &&& known is Some
            &&& state.volunteers.contains_key(known->0.id)
            &&& state.volunteers[known->0.id].info.hostname == hostname
            &&& known->0.assignment == state.volunteers[known->0.id].assigned_service
        },
        (forall|other: u128| #[trigger]
            state.volunteers.contains_key(other) ==> state.volunteers[other].info.hostname
                != hostname) ==> known == on_record,
{
    if state.volunteers.contains_key(id) && state.volunteers[id].info.hostname == hostname {
        assert(enrollment::has_hostname(state, hostname));
    }
}

/// An address is a host, a colon and the digits of a port.
pub proof fn addresses_end_with_their_port(host: Seq<char>, port: u16)
    ensures
        enrollment::addr_of(host, port) == host + ":"@ + text::decimal(port as nat),
        enrollment::local_tunnel_addr(port) == "127.0.0.1:"@ + text::decimal(port as nat),
        text::split_at_last(enrollment::addr_of(host, port), ':') == Some(
            (host, text::decimal(port as nat)),
        ),
        text::u32_of(text::decimal(port as nat)) == Some(port as u32),
{
    reveal_strlit(":");
    reveal_strlit("127.0.0.1");
    reveal_strlit("127.0.0.1:");
    assert(":"@ =~= seq![':']);
    assert("127.0.0.1"@ + ":"@ =~= "127.0.0.1:"@);
    texts::digits_are_digits(port as nat);
    texts::split_finds_the_place(host, ':', text::decimal(port as nat));
    text::decimal_reads_back(port as u32);
}

/// The backend of the service that a volunteer gets when it enrolls is pointed at this
/// machine's end of the volunteer's tunnel: at the very port that the tunnel server gave
/// it.
pub proof fn backends_point_at_the_tunnel(
    before: AppStateView,
    after: AppStateView,
    request: EnrollRequest,
    known: Option<KnownNodeView>,
    addr: Seq<char>,
    fresh: u128,
    now: TimestampView,
    enrollment: EnrollmentView,
)
    requires
        enrollment::enrollment_starts(
            before,
            after,
            request,
            known,
            addr,
            fresh,
            now,
            enrollment,
        ),
        enrollment.offer is Some,
    ensures
        ({
            let service = enrollment.offer->0.service();
            let port = text::decimal(request.tunnel_public_port as nat);
            let start = haproxy::assign::starting(
                service.name,
                service.domain,
                enrollment::local_tunnel_addr(enrollment.port),
            );
            let waiting = haproxy::assign::AssignmentView {
                stage: haproxy::assign::AssignStageView::Waiting,
                ..start
            };
            &&& start.addr == "127.0.0.1:"@ + port
            &&& start.service == service.name
            &&& waiting.after(haproxy::assign::AssignEventView::Slept).action()
                == haproxy::assign::AssignActionView::Send(
                "set server svc_"@ + service.name + "/primary addr 127.0.0.1 port "@ + port,
            )
            &&& known is Some && known->0.assignment is Some ==> service
                == known->0.assignment->0.service
            &&& known is None ==> service == before.pending[0].service
        }),
{
    let service = enrollment.offer->0.service();
    let port = text::decimal(request.tunnel_public_port as nat);
    addresses_end_with_their_port("127.0.0.1"@, request.tunnel_public_port);
    reveal_strlit("set server ");
    reveal_strlit("svc_");
    reveal_strlit("set server svc_");
    reveal_strlit("/");
    reveal_strlit("primary");
    reveal_strlit(" addr ");
    reveal_strlit("127.0.0.1");
    reveal_strlit(" port ");
    reveal_strlit("/primary addr 127.0.0.1 port ");
    let command = haproxy::runtime::addr_command(
        haproxy::service_backend(service.name),
        "primary"@,
        "127.0.0.1"@,
        port,
    );
    assert(command =~= "set server svc_"@ + service.name + "/primary addr 127.0.0.1 port "@ + port);
}

/// What a volunteer is told to run is the image and the port of its service, and nothing
/// where it has none.
pub proof fn volunteers_are_told_their_service(
    payload: Option<AssignmentPayload>,
    assignment: Option<ServiceAssignmentView>,
)
    requires
        enrollment::payload_is(payload, assignment),
    ensures
        payload is Some <==> assignment is Some,
        payload is Some ==> payload->0.image@ == assignment->0.service.image
            && payload->0.service_port == assignment->0.service.port,
{
}

// ── heartbeats ──────────────────────────────────────────────────────────────
/// A heartbeat brings the metrics and the time up to date. What it says of the service is
/// what is then known, whatever that is; what it leaves unsaid stays. All else stays.
pub proof fn heartbeats_are_believed(v: VolunteerView, beat: HeartbeatRequest, now: TimestampView)
    ensures
        ({
            let after = enrollment::beaten(v, beat, now);
            &&& after.metrics == beat.metrics
            &&& after.last_heartbeat == now
            &&& beat.service_running == Some(true) ==> after.service_running == Some(true)
            &&& beat.service_running == Some(false) ==> after.service_running == Some(false)
            &&& beat.service_running is None ==> after.service_running == v.service_running
            &&& beat.service_image is Some ==> after.service_image == Some(beat.service_image->0@)
            &&& beat.service_image is None ==> after.service_image == v.service_image
            &&& after.id == v.id
            &&& after.info == v.info
            &&& after.enrolled_at == v.enrolled_at
            &&& after.assigned_service == v.assigned_service
        }),
{
}

/// The later of two heartbeats counts, where it says all there is to say.
pub proof fn the_last_heartbeat_counts(
    v: VolunteerView,
    first: HeartbeatRequest,
    then: TimestampView,
    second: HeartbeatRequest,
    now: TimestampView,
)
    requires
        second.service_running is Some,
        second.service_image is Some,
    ensures
        enrollment::beaten(enrollment::beaten(v, first, then), second, now) == enrollment::beaten(
            v,
            second,
            now,
        ),
{
}

// ── services ────────────────────────────────────────────────────────────────
/// A volunteer can take a service just where it is alive and runs none.
pub proof fn the_free_run_nothing(v: VolunteerView, now: TimestampView)
    ensures
        services::is_free(v, now) <==> (now.since(v.last_heartbeat) < 45 && v.assigned_service
            is None),
{
}

/// The answer to a registration names the backend, the domain and the volunteer.
pub proof fn registrations_name_the_backend(
    response: RegisterServiceResponse,
    service: ServiceView,
    volunteer: Option<u128>,
)
    requires
        services::response_is(response, service, volunteer),
    ensures
        response.backend@ == "svc_"@ + service.name,
        response.domain@ == service.domain,
        volunteer is None ==> response.assigned_to is None,
        volunteer is Some ==> response.assigned_to is Some && response.assigned_to->0@
            == ids::hyphenated_of(volunteer->0),
{
}

/// A service that nobody was free for waits behind all others, as it was registered.
pub proof fn registered_services_wait_last(
    before: AppStateView,
    after: AppStateView,
    service: ServiceView,
    now: TimestampView,
)
    requires
        services::queued_at(before, after, service, now),
    ensures
        after.volunteers == before.volunteers,
        after.pending.len() == before.pending.len() + 1,
        forall|i: int|
            0 <= i < before.pending.len() ==> #[trigger] after.pending[i] == before.pending[i],
        after.pending.last().service == service,
        after.pending.last().registered_at == now,
        forall|id: u128| #[trigger]
            before.volunteers.contains_key(id) ==> now.since(before.volunteers[id].last_heartbeat)
                >= 45 || before.volunteers[id].assigned_service is Some,
{
    assert forall|id: u128| #[trigger] before.volunteers.contains_key(id) implies now.since(
        before.volunteers[id].last_heartbeat,
    ) >= 45 || before.volunteers[id].assigned_service is Some by {
        assert(!services::is_free(before.volunteers[id], now));
    }
}

/// A service that goes to a volunteer is then run by it, and nothing else changes. A
/// volunteer that is not there changes nothing.
pub proof fn assigned_services_are_run(
    volunteers: Map<u128, VolunteerView>,
    id: u128,
    assignment: ServiceAssignmentView,
    other: u128,
)
    ensures
        ({
            let after = services::with_assignment(volunteers, id, assignment);
            &&& after.dom() == volunteers.dom()
            &&& volunteers.contains_key(id) ==> {
                &&& after[id].assigned_service == Some(assignment)
                &&& after[id].id == volunteers[id].id
                &&& after[id].info == volunteers[id].info
                &&& after[id].metrics == volunteers[id].metrics
                &&& after[id].enrolled_at == volunteers[id].enrolled_at
                &&& after[id].last_heartbeat == volunteers[id].last_heartbeat
                &&& after[id].service_running == volunteers[id].service_running
                &&& after[id].service_image == volunteers[id].service_image
            }
            &&& other != id && volunteers.contains_key(other) ==> after[other]
                == volunteers[other]
        }),
{
    assert(services::with_assignment(volunteers, id, assignment).dom() =~= volunteers.dom());
}

/// What is registered is what was asked for.
pub proof fn requests_are_taken_as_they_are(request: RegisterServiceRequest)
    ensures
        request@.name == request.name@,
        request@.domain == request.domain@,
        request@.image == request.image@,
        request@.port == request.port,
{
}

/// What is known of volunteers and services is what their records hold.
pub proof fn records_show_what_they_hold(
    info: HandshakeInfo,
    a: ServiceAssignment,
    p: PendingService,
    v: VolunteerState,
)
    ensures
        info@.hostname == info.hostname@,
        info@.os == info.os@,
        info@.arch == info.arch@,
        info@.cpu_cores == info.cpu_cores,
        info@.cpu_model == info.cpu_model@,
        info@.memory_total_mb == info.memory_total_mb,
        info@.disk_free_gb == info.disk_free_gb,
        info@.docker_version == info.docker_version@,
        info@.tunnel_version == info.tunnel_version@,
        info@.service_addr == info.service_addr@,
        a@.service.name == a.service_name@,
        a@.service.domain == a.domain@,
        a@.service.image == a.image@,
        a@.service.port == a.service_port,
        a@.assigned_at == a.assigned_at@,
        p@.service.name == p.name@,
        p@.service.domain == p.domain@,
        p@.service.image == p.image@,
        p@.service.port == p.service_port,
        p@.registered_at == p.registered_at@,
        v@.id == v.id,
        v@.info == v.info@,
        v@.metrics == v.metrics,
        v@.enrolled_at == v.enrolled_at@,
        v@.last_heartbeat == v.last_heartbeat@,
        v@.assigned_service is Some <==> v.assigned_service is Some,
        v.assigned_service is Some ==> v@.assigned_service->0 == v.assigned_service->0@,
        v@.service_running == v.service_running,
        v@.service_image is Some <==> v.service_image is Some,
        v.service_image is Some ==> v@.service_image->0 == v.service_image->0@,
{
}

// ── churn ───────────────────────────────────────────────────────────────────
/// The dead are just those that have been silent for 45 seconds or more, each once, with
/// their hostname and their service.
pub proof fn the_dead_are_the_silent(dead: Seq<DeadView>, state: AppStateView, now: TimestampView)
    requires
        churn::are_dead(dead, state, now),
    ensures
        forall|i: int, j: int|
            0 <= i < j < dead.len() ==> #[trigger] dead[i].id != #[trigger] dead[j].id,
        forall|i: int|
            0 <= i < dead.len() ==> {
                let v = state.volunteers[(#[trigger] dead[i]).id];
                &&& state.volunteers.contains_key(dead[i].id)
                &&& now.since(v.last_heartbeat) >= 45
                &&& dead[i].hostname == v.info.hostname
                &&& dead[i].assignment == v.assigned_service
            },
        forall|id: u128| #[trigger]
            state.volunteers.contains_key(id) && now.since(state.volunteers[id].last_heartbeat)
                >= 45 ==> exists|i: int| 0 <= i < dead.len() && #[trigger] dead[i].id == id,
{
    assert forall|id: u128| #[trigger]
        state.volunteers.contains_key(id) && now.since(state.volunteers[id].last_heartbeat)
            >= 45 implies exists|i: int| 0 <= i < dead.len() && #[trigger] dead[i].id == id by {
        assert(!state.volunteers[id].alive_at(now));
        assert(churn::lists_id(dead, id));
    }
    assert forall|i: int| 0 <= i < dead.len() implies {
        let v = state.volunteers[(#[trigger] dead[i]).id];
        &&& state.volunteers.contains_key(dead[i].id)
        &&& now.since(v.last_heartbeat) >= 45
        &&& dead[i].hostname == v.info.hostname
        &&& dead[i].assignment == v.assigned_service
    } by {
        assert(dead[i] == churn::remains(state.volunteers[dead[i].id]));
    }
}

/// A volunteer that is taken out leaves all others as they are, and its service, as it
/// is, behind all that wait.
pub proof fn the_evicted_leave_their_service(
    state: AppStateView,
    dead: DeadView,
    now: TimestampView,
    other: u128,
)
    ensures
        ({
            let after = churn::evicted(state, dead, now);
            &&& !after.volunteers.contains_key(dead.id)
            &&& other != dead.id ==> (after.volunteers.contains_key(other)
                <==> state.volunteers.contains_key(other))
            &&& other != dead.id && state.volunteers.contains_key(other)
                ==> after.volunteers[other] == state.volunteers[other]
            &&& dead.assignment is None ==> after.pending == state.pending
            &&& dead.assignment is Some ==> {
                &&& after.pending.len() == state.pending.len() + 1
                &&& forall|i: int|
                    0 <= i < state.pending.len() ==> #[trigger] after.pending[i]
                        == state.pending[i]
                &&& after.pending.last().service == dead.assignment->0.service
                &&& after.pending.last().registered_at == now
            }
        }),
{
}

// ── recovery ────────────────────────────────────────────────────────────────
/// Every volunteer that was written down is back as it was, with its service, and counts
/// as heard of just now. Whoever was not written down stays as it was.
pub proof fn the_recovered_are_as_they_were(
    volunteers: Map<u128, VolunteerView>,
    list: Seq<VolunteerView>,
    n: nat,
    now: TimestampView,
    i: int,
    other: u128,
)
    requires
        n <= list.len(),
        0 <= i < n,
        forall|j: int, k: int| 0 <= j < k < n ==> #[trigger] list[j].id != #[trigger] list[k].id,
        forall|j: int| 0 <= j < n ==> #[trigger] list[j].id != other,
    ensures
        ({
            let after = recovery::brought_back(volunteers, list, n, now);
            let v = list[i];
            &&& after.contains_key(v.id)
            &&& after[v.id].id == v.id
            &&& after[v.id].info == v.info
            &&& after[v.id].metrics == v.metrics
            &&& after[v.id].enrolled_at == v.enrolled_at
            &&& after[v.id].last_heartbeat == now
            &&& after[v.id].assigned_service == v.assigned_service
            &&& after[v.id].service_running == v.service_running
            &&& after[v.id].service_image == v.service_image
            &&& after.contains_key(other) <==> volunteers.contains_key(other)
            &&& volunteers.contains_key(other) ==> after[other] == volunteers[other]
        }),
    decreases n,
{
    lemma_others_stay(volunteers, list, n, now, other);
    if i < n - 1 {
        the_recovered_are_as_they_were(volunteers, list, (n - 1) as nat, now, i, other);
        assert(list[i].id != list[n - 1].id);
    }
}

proof fn lemma_others_stay(
    volunteers: Map<u128, VolunteerView>,
    list: Seq<VolunteerView>,
    n: nat,
    now: TimestampView,
    other: u128,
)
    requires
        n <= list.len(),
        forall|j: int| 0 <= j < n ==> #[trigger] list[j].id != other,
    ensures
        ({
            let after = recovery::brought_back(volunteers, list, n, now);
            &&& after.contains_key(other) <==> volunteers.contains_key(other)
            &&& volunteers.contains_key(other) ==> after[other] == volunteers[other]
        }),
    decreases n,
{
    if n > 0 {
        assert(list[n - 1].id != other);
        lemma_others_stay(volunteers, list, (n - 1) as nat, now, other);
    }
}

} // verus!
