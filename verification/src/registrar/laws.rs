//! What holds of the registrar as a whole: volunteers keep their identity, and a
//! service is lost only with a volunteer that leaves by its own wish. One that falls
//! silent leaves its service to the next.
use crate::clock::{TimestampView, NANOS};
use crate::ids;
use crate::registrar::churn;
use crate::registrar::churn::DeadView;
use crate::registrar::db;
use crate::registrar::db::{AssignmentRowView, DbRowView};
use crate::registrar::enrollment;
use crate::registrar::enrollment::{EnrollRequest, EnrollResponse, EnrollmentView, HeartbeatRequest,
    KnownNodeView, OfferView};
use crate::registrar::recovery;
use crate::registrar::services;
use crate::registrar::state::{AppStateView, HandshakeView, PendingServiceView,
    ServiceAssignmentView, ServiceView, VolunteerView, HEARTBEAT_TIMEOUT_SECS};
use vstd::prelude::*;

verus! {

// ── liveness ────────────────────────────────────────────────────────────────
/// Outside leap seconds a volunteer is alive just while less than
/// [`HEARTBEAT_TIMEOUT_SECS`] have passed since its last heartbeat.
pub proof fn alive_for_three_heartbeats(v: VolunteerView, now: TimestampView)
    requires
        v.last_heartbeat.is_plain(),
        now.is_plain(),
    ensures
        v.alive_at(now) <==> (now.secs - v.last_heartbeat.secs) * NANOS + (now.nanos
            - v.last_heartbeat.nanos) < HEARTBEAT_TIMEOUT_SECS * NANOS,
{
}

/// A heartbeat keeps a volunteer alive, up to the timeout.
pub proof fn heartbeats_keep_alive(
    v: VolunteerView,
    beat: HeartbeatRequest,
    then: TimestampView,
    now: TimestampView,
)
    requires
        then.is_plain(),
        now.is_plain(),
        now.secs < then.secs + HEARTBEAT_TIMEOUT_SECS,
    ensures
        enrollment::beaten(v, beat, then).alive_at(now),
{
}

/// A volunteer that enrolls is alive.
pub proof fn the_enrolled_are_alive(
    info: HandshakeView,
    known: Option<KnownNodeView>,
    addr: Seq<char>,
    fresh: u128,
    now: TimestampView,
)
    requires
        now.is_plain(),
    ensures
        enrollment::enrolling(info, known, addr, fresh, now).alive_at(now),
{
}

/// Volunteers that are brought back after a restart are alive, so that none is taken
/// out before it can send a heartbeat.
pub proof fn the_recovered_are_alive(
    volunteers: Map<u128, VolunteerView>,
    list: Seq<VolunteerView>,
    n: nat,
    now: TimestampView,
    i: int,
)
    requires
        now.is_plain(),
        n <= list.len(),
        0 <= i < n,
    ensures
        recovery::brought_back(volunteers, list, n, now).contains_key(list[i].id),
        recovery::brought_back(volunteers, list, n, now)[list[i].id].alive_at(now),
    decreases n,
{
    if i < n - 1 {
        the_recovered_are_alive(volunteers, list, (n - 1) as nat, now, i);
    }
}

// ── identity ────────────────────────────────────────────────────────────────
/// Whether no two volunteers have the same hostname.
pub open spec fn distinct_hostnames(state: AppStateView) -> bool {
    forall|a: u128, b: u128| #[trigger]
        state.volunteers.contains_key(a) && #[trigger] state.volunteers.contains_key(b) && a != b
            ==> state.volunteers[a].info.hostname != state.volunteers[b].info.hostname
}

/// The state after an enrollment that found its state unchanged.
pub open spec fn after_enrollment(
    middle: AppStateView,
    enrollment: EnrollmentView,
    assigned: bool,
) -> AppStateView {
    AppStateView {
        volunteers: middle.volunteers.insert(
            enrollment.volunteer.id,
            enrollment::enrolled(enrollment, assigned),
        ),
        pending: enrollment::queue_after(enrollment, assigned, middle.pending),
    }
}

/// A volunteer that enrolls again keeps its identifier and, where the proxy takes it,
/// its service; the queue then stays as it was.
pub proof fn identity_survives(
    before: AppStateView,
    middle: AppStateView,
    request: EnrollRequest,
    on_record: Option<KnownNodeView>,
    known: Option<KnownNodeView>,
    addr: Seq<char>,
    fresh: u128,
    now: TimestampView,
    enrollment: EnrollmentView,
)
    requires
        enrollment::has_hostname(before, request.info@.hostname),
        enrollment::is_known_as(before, request.info@.hostname, on_record, known),
        enrollment::enrollment_starts(
            before,
            middle,
            request,
            known,
            addr,
            fresh,
            now,
            enrollment,
        ),
    ensures
        ({
            let id = enrollment.volunteer.id;
            let service = before.volunteers[id].assigned_service;
            &&& before.volunteers.contains_key(id)
            &&& before.volunteers[id].info.hostname == request.info@.hostname
            &&& service is Some ==> middle.pending == before.pending && after_enrollment(
                middle,
                enrollment,
                true,
            ).volunteers[id].assigned_service == service
        }),
{
}

/// A volunteer that is on record under its hostname, and not in memory, keeps its
/// identifier and, where the proxy takes it, its service.
pub proof fn recorded_identity_survives(
    before: AppStateView,
    middle: AppStateView,
    request: EnrollRequest,
    on_record: KnownNodeView,
    known: Option<KnownNodeView>,
    addr: Seq<char>,
    fresh: u128,
    now: TimestampView,
    enrollment: EnrollmentView,
)
    requires
        !enrollment::has_hostname(before, request.info@.hostname),
        enrollment::is_known_as(before, request.info@.hostname, Some(on_record), known),
        enrollment::enrollment_starts(
            before,
            middle,
            request,
            known,
            addr,
            fresh,
            now,
            enrollment,
        ),
    ensures
        enrollment.volunteer.id == on_record.id,
        on_record.assignment is Some ==> middle.pending == before.pending && after_enrollment(
            middle,
            enrollment,
            true,
        ).volunteers[on_record.id].assigned_service == on_record.assignment,
{
}

/// Whether an answer is the one to an enrollment.
pub open spec fn is_answer(
    response: EnrollResponse,
    enrollment: EnrollmentView,
    assigned: bool,
) -> bool {
    &&& response.volunteer_id@ == ids::hyphenated_of(enrollment.volunteer.id)
    &&& enrollment::payload_is(
        response.assignment,
        enrollment::enrolled(enrollment, assigned).assigned_service,
    )
}

/// A second enrollment under a hostname, while the volunteer of the first is known, is
/// answered with the identifier of the first and adds no volunteer. A service that the
/// volunteer runs by then goes back to it, where the proxy takes it: the answer names
/// it, and nothing is taken from the queue.
pub proof fn enrolling_again_changes_nobody(
    first: EnrollmentView,
    first_assigned: bool,
    first_response: EnrollResponse,
    before: AppStateView,
    middle: AppStateView,
    request: EnrollRequest,
    on_record: Option<KnownNodeView>,
    known: Option<KnownNodeView>,
    addr: Seq<char>,
    fresh: u128,
    now: TimestampView,
    second: EnrollmentView,
    assigned: bool,
    response: EnrollResponse,
)
    requires
        is_answer(first_response, first, first_assigned),
        first.volunteer.info.hostname == request.info@.hostname,
        before.volunteers.contains_key(first.volunteer.id),
        before.volunteers[first.volunteer.id].info.hostname == first.volunteer.info.hostname,
        distinct_hostnames(before),
        enrollment::is_known_as(before, request.info@.hostname, on_record, known),
        enrollment::enrollment_starts(
            before,
            middle,
            request,
            known,
            addr,
            fresh,
            now,
            second,
        ),
        is_answer(response, second, assigned),
    ensures
        response.volunteer_id@ == first_response.volunteer_id@,
        ({
            let id = first.volunteer.id;
            let service = before.volunteers[id].assigned_service;
            let after = after_enrollment(middle, second, assigned);
            &&& after.volunteers.dom() == before.volunteers.dom()
            &&& after.volunteers.len() == before.volunteers.len()
            &&& service is Some && assigned ==> {
                &&& after.volunteers[id].assigned_service == service
                &&& enrollment::payload_is(response.assignment, service)
                &&& after.pending == before.pending
            }
        }),
{
    assert(enrollment::has_hostname(before, request.info@.hostname));
    assert(known->0.id == first.volunteer.id);
    let after = after_enrollment(middle, second, assigned);
    assert(after.volunteers.dom() =~= before.volunteers.dom());
}

/// Two enrollments in a row under a hostname are answered with one identifier, and
/// leave one volunteer.
pub proof fn enrolling_twice_is_enrolling_once(
    start: AppStateView,
    first_middle: AppStateView,
    first_request: EnrollRequest,
    first_on_record: Option<KnownNodeView>,
    first_known: Option<KnownNodeView>,
    first_addr: Seq<char>,
    first_fresh: u128,
    first_now: TimestampView,
    first: EnrollmentView,
    first_assigned: bool,
    first_response: EnrollResponse,
    middle: AppStateView,
    request: EnrollRequest,
    on_record: Option<KnownNodeView>,
    known: Option<KnownNodeView>,
    addr: Seq<char>,
    fresh: u128,
    now: TimestampView,
    second: EnrollmentView,
    assigned: bool,
    response: EnrollResponse,
)
    requires
        distinct_hostnames(start),
        enrollment::is_known_as(
            start,
            first_request.info@.hostname,
            first_on_record,
            first_known,
        ),
        enrollment::enrollment_starts(
            start,
            first_middle,
            first_request,
            first_known,
            first_addr,
            first_fresh,
            first_now,
            first,
        ),
        is_answer(first_response, first, first_assigned),
        request.info@.hostname == first_request.info@.hostname,
        enrollment::is_known_as(
            after_enrollment(first_middle, first, first_assigned),
            request.info@.hostname,
            on_record,
            known,
        ),
        enrollment::enrollment_starts(
            after_enrollment(first_middle, first, first_assigned),
            middle,
            request,
            known,
            addr,
            fresh,
            now,
            second,
        ),
        is_answer(response, second, assigned),
    ensures
        response.volunteer_id@ == first_response.volunteer_id@,
        ({
            let between = after_enrollment(first_middle, first, first_assigned);
            let after = after_enrollment(middle, second, assigned);
            let service = between.volunteers[first.volunteer.id].assigned_service;
            &&& after.volunteers.dom() == between.volunteers.dom()
            &&& after.volunteers.len() == between.volunteers.len()
            &&& service is Some && assigned ==> {
                &&& after.volunteers[first.volunteer.id].assigned_service == service
                &&& enrollment::payload_is(response.assignment, service)
                &&& after.pending == between.pending
            }
        }),
{
    hostnames_stay_distinct(
        start,
        first_middle,
        first_request,
        first_on_record,
        first_known,
        first_addr,
        first_fresh,
        first_now,
        first,
        first_assigned,
    );
    enrolling_again_changes_nobody(
        first,
        first_assigned,
        first_response,
        after_enrollment(first_middle, first, first_assigned),
        middle,
        request,
        on_record,
        known,
        addr,
        fresh,
        now,
        second,
        assigned,
        response,
    );
}

/// Whether a row is the one of a volunteer, can be read, and is the only one with its
/// hostname but for others under the same identifier.
pub open spec fn is_recorded(rows: Seq<DbRowView>, i: int, v: VolunteerView) -> bool {
    &&& 0 <= i < rows.len()
    &&& rows[i] == db::row_of(v)
    &&& db::volunteer_of(rows[i]) is Ok
    &&& forall|j: int|
        0 <= j < rows.len() && (#[trigger] rows[j]).hostname == v.info.hostname ==> rows[j].id
            == rows[i].id
}

/// A volunteer that was written down is found by its hostname, with the identifier that
/// it had and the service that is on record for it.
pub proof fn the_recorded_are_found(
    rows: Seq<DbRowView>,
    assignments: Seq<AssignmentRowView>,
    i: int,
    v: VolunteerView,
)
    requires
        is_recorded(rows, i, v),
    ensures
        db::record_of(rows, assignments, v.info.hostname) == Some(
            (KnownNodeView { id: v.id, assignment: db::first_assignment(assignments, v.id) }),
        ),
{
    db::records_have_the_hostname(rows, assignments, v.info.hostname);
    ids::texts_read_back(v.id);
    let known = db::record_of(rows, assignments, v.info.hostname);
    assert(known is Some);
    assert(db::has_row(rows, v.info.hostname, known->0.id));
    let j = choose|j: int|
        0 <= j < rows.len() && db::volunteer_of(#[trigger] rows[j]) is Ok && rows[j].hostname
            == v.info.hostname && ids::id_of(rows[j].id) == Some(known->0.id);
    assert(rows[j].id == rows[i].id);
}

/// A second enrollment under a hostname, while the volunteer of the first is known from
/// its record only, is answered with the identifier of the first, and its record takes
/// the place of the old one. A service that is on record for the volunteer goes back to
/// it, where the proxy takes it: the answer names it, and nothing is taken from the
/// queue.
pub proof fn enrolling_again_replaces_the_record(
    first: EnrollmentView,
    first_assigned: bool,
    first_response: EnrollResponse,
    rows: Seq<DbRowView>,
    assignments: Seq<AssignmentRowView>,
    i: int,
    before: AppStateView,
    middle: AppStateView,
    request: EnrollRequest,
    known: Option<KnownNodeView>,
    addr: Seq<char>,
    fresh: u128,
    now: TimestampView,
    second: EnrollmentView,
    assigned: bool,
    response: EnrollResponse,
)
    requires
        is_answer(first_response, first, first_assigned),
        first.volunteer.info.hostname == request.info@.hostname,
        is_recorded(rows, i, enrollment::enrolled(first, first_assigned)),
        !enrollment::has_hostname(before, request.info@.hostname),
        enrollment::is_known_as(
            before,
            request.info@.hostname,
            db::record_of(rows, assignments, request.info@.hostname),
            known,
        ),
        enrollment::enrollment_starts(
            before,
            middle,
            request,
            known,
            addr,
            fresh,
            now,
            second,
        ),
        is_answer(response, second, assigned),
    ensures
        response.volunteer_id@ == first_response.volunteer_id@,
        db::row_of(enrollment::enrolled(second, assigned)).id == rows[i].id,
        ({
            let id = first.volunteer.id;
            let service = db::first_assignment(assignments, id);
            let after = after_enrollment(middle, second, assigned);
            &&& after.volunteers.dom() == before.volunteers.dom().insert(id)
            &&& service is Some && assigned ==> {
                &&& after.volunteers[id].assigned_service == service
                &&& enrollment::payload_is(response.assignment, service)
                &&& after.pending == before.pending
            }
        }),
{
    the_recorded_are_found(rows, assignments, i, enrollment::enrolled(first, first_assigned));
    let after = after_enrollment(middle, second, assigned);
    assert(second.volunteer.id == first.volunteer.id);
    assert(after.volunteers.dom() =~= before.volunteers.dom().insert(first.volunteer.id));
}

/// Hostnames stay distinct when a volunteer enrolls.
pub proof fn hostnames_stay_distinct(
    before: AppStateView,
    middle: AppStateView,
    request: EnrollRequest,
    on_record: Option<KnownNodeView>,
    known: Option<KnownNodeView>,
    addr: Seq<char>,
    fresh: u128,
    now: TimestampView,
    enrollment: EnrollmentView,
    assigned: bool,
)
    requires
        distinct_hostnames(before),
        enrollment::is_known_as(before, request.info@.hostname, on_record, known),
        enrollment::enrollment_starts(
            before,
            middle,
            request,
            known,
            addr,
            fresh,
            now,
            enrollment,
        ),
    ensures
        distinct_hostnames(after_enrollment(middle, enrollment, assigned)),
{
    let after = after_enrollment(middle, enrollment, assigned);
    let id = enrollment.volunteer.id;
    assert forall|other: u128| other != id && #[trigger] before.volunteers.contains_key(
        other,
    ) implies before.volunteers[other].info.hostname != request.info@.hostname by {
        if before.volunteers[other].info.hostname == request.info@.hostname {
            assert(enrollment::has_hostname(before, request.info@.hostname));
            assert(before.volunteers.contains_key(id));
        }
    }
    assert forall|a: u128, b: u128| #[trigger]
        after.volunteers.contains_key(a) && #[trigger] after.volunteers.contains_key(b) && a
            != b implies after.volunteers[a].info.hostname
        != after.volunteers[b].info.hostname by {
        if a == id {
            assert(before.volunteers.contains_key(b));
        } else if b == id {
            assert(before.volunteers.contains_key(a));
        } else {
            assert(before.volunteers.contains_key(a));
            assert(before.volunteers.contains_key(b));
        }
    }
}

/// The state after a heartbeat of a volunteer that is known.
pub open spec fn after_heartbeat(
    before: AppStateView,
    beat: HeartbeatRequest,
    now: TimestampView,
) -> AppStateView {
    AppStateView {
        volunteers: before.volunteers.insert(
            beat.volunteer_id,
            enrollment::beaten(before.volunteers[beat.volunteer_id], beat, now),
        ),
        pending: before.pending,
    }
}

/// Hostnames stay distinct when a heartbeat comes.
pub proof fn heartbeats_keep_hostnames_distinct(
    before: AppStateView,
    beat: HeartbeatRequest,
    now: TimestampView,
)
    requires
        before.volunteers.contains_key(beat.volunteer_id),
        distinct_hostnames(before),
    ensures
        distinct_hostnames(after_heartbeat(before, beat, now)),
{
    let after = after_heartbeat(before, beat, now);
    assert forall|a: u128, b: u128| #[trigger]
        after.volunteers.contains_key(a) && #[trigger] after.volunteers.contains_key(b) && a
            != b implies after.volunteers[a].info.hostname
        != after.volunteers[b].info.hostname by {
        assert(before.volunteers.contains_key(a));
        assert(before.volunteers.contains_key(b));
    }
}

/// Hostnames stay distinct when a dead volunteer is taken out.
pub proof fn eviction_keeps_hostnames_distinct(
    before: AppStateView,
    dead: DeadView,
    now: TimestampView,
)
    requires
        distinct_hostnames(before),
    ensures
        distinct_hostnames(churn::evicted(before, dead, now)),
{
    let after = churn::evicted(before, dead, now);
    assert forall|a: u128, b: u128| #[trigger]
        after.volunteers.contains_key(a) && #[trigger] after.volunteers.contains_key(b) && a
            != b implies after.volunteers[a].info.hostname
        != after.volunteers[b].info.hostname by {
        assert(before.volunteers.contains_key(a));
        assert(before.volunteers.contains_key(b));
    }
}

/// The state once a service has gone to a volunteer.
pub open spec fn after_assigning(
    before: AppStateView,
    id: u128,
    assignment: ServiceAssignmentView,
) -> AppStateView {
    AppStateView {
        volunteers: services::with_assignment(before.volunteers, id, assignment),
        pending: before.pending,
    }
}

/// The state once a volunteer has left by its own wish.
pub open spec fn after_leaving(before: AppStateView, id: u128) -> AppStateView {
    AppStateView { volunteers: before.volunteers.remove(id), pending: before.pending }
}

/// Hostnames stay distinct when a volunteer leaves.
pub proof fn leaving_keeps_hostnames_distinct(before: AppStateView, id: u128)
    requires
        distinct_hostnames(before),
    ensures
        distinct_hostnames(after_leaving(before, id)),
{
    let after = after_leaving(before, id);
    assert forall|a: u128, b: u128| #[trigger]
        after.volunteers.contains_key(a) && #[trigger] after.volunteers.contains_key(b) && a
            != b implies after.volunteers[a].info.hostname
        != after.volunteers[b].info.hostname by {
        assert(before.volunteers.contains_key(a));
        assert(before.volunteers.contains_key(b));
    }
}

/// Hostnames stay distinct when a service goes to a volunteer.
pub proof fn assigning_keeps_hostnames_distinct(
    before: AppStateView,
    id: u128,
    assignment: ServiceAssignmentView,
)
    requires
        distinct_hostnames(before),
    ensures
        distinct_hostnames(after_assigning(before, id, assignment)),
{
    let after = after_assigning(before, id, assignment);
    assert forall|a: u128, b: u128| #[trigger]
        after.volunteers.contains_key(a) && #[trigger] after.volunteers.contains_key(b) && a
            != b implies after.volunteers[a].info.hostname
        != after.volunteers[b].info.hostname by {
        assert(before.volunteers.contains_key(a));
        assert(before.volunteers.contains_key(b));
    }
}

/// Whether volunteers that were written down have hostnames of their own: no two of them
/// share one, and none shares it with another volunteer that is known already.
pub open spec fn own_hostnames(list: Seq<VolunteerView>, state: AppStateView) -> bool {
    &&& forall|i: int, j: int|
        0 <= i < list.len() && 0 <= j < list.len() && #[trigger] list[i].id
            != #[trigger] list[j].id ==> list[i].info.hostname != list[j].info.hostname
    &&& forall|i: int, id: u128|
        0 <= i < list.len() && #[trigger] state.volunteers.contains_key(id) && id
            != #[trigger] list[i].id ==> state.volunteers[id].info.hostname
            != list[i].info.hostname
}

/// The state once volunteers that were written down are back.
pub open spec fn after_recovery(
    before: AppStateView,
    list: Seq<VolunteerView>,
    now: TimestampView,
) -> AppStateView {
    AppStateView {
        volunteers: recovery::brought_back(before.volunteers, list, list.len(), now),
        pending: before.pending,
    }
}

proof fn lemma_brought_back(
    before: AppStateView,
    list: Seq<VolunteerView>,
    n: nat,
    now: TimestampView,
    id: u128,
)
    requires
        n <= list.len(),
        recovery::brought_back(before.volunteers, list, n, now).contains_key(id),
    ensures
        ({
            let v = recovery::brought_back(before.volunteers, list, n, now)[id];
            ||| before.volunteers.contains_key(id) && before.volunteers[id] == v
            ||| exists|i: int|
                0 <= i < n && #[trigger] list[i].id == id && list[i].info.hostname
                    == v.info.hostname
        }),
    decreases n,
{
    if n > 0 {
        if list[n - 1].id == id {
        } else {
            lemma_brought_back(before, list, (n - 1) as nat, now, id);
        }
    }
}

/// Hostnames are distinct once volunteers that were written down are back, where each of
/// them has a hostname of its own.
pub proof fn recovery_keeps_hostnames_distinct(
    before: AppStateView,
    list: Seq<VolunteerView>,
    now: TimestampView,
)
    requires
        distinct_hostnames(before),
        own_hostnames(list, before),
    ensures
        distinct_hostnames(after_recovery(before, list, now)),
{
    let after = after_recovery(before, list, now);
    assert forall|a: u128, b: u128| #[trigger]
        after.volunteers.contains_key(a) && #[trigger] after.volunteers.contains_key(b) && a
            != b implies after.volunteers[a].info.hostname
        != after.volunteers[b].info.hostname by {
        lemma_brought_back(before, list, list.len(), now, a);
        lemma_brought_back(before, list, list.len(), now, b);
        let from_before_a = before.volunteers.contains_key(a) && before.volunteers[a]
            == after.volunteers[a];
        let from_before_b = before.volunteers.contains_key(b) && before.volunteers[b]
            == after.volunteers[b];
        if !from_before_a && !from_before_b {
            let i = choose|i: int|
                0 <= i < list.len() && #[trigger] list[i].id == a && list[i].info.hostname
                    == after.volunteers[a].info.hostname;
            let j = choose|j: int|
                0 <= j < list.len() && #[trigger] list[j].id == b && list[j].info.hostname
                    == after.volunteers[b].info.hostname;
            assert(list[i].id != list[j].id);
        } else if !from_before_a {
            let i = choose|i: int|
                0 <= i < list.len() && #[trigger] list[i].id == a && list[i].info.hostname
                    == after.volunteers[a].info.hostname;
            assert(before.volunteers.contains_key(b) && b != list[i].id);
        } else if !from_before_b {
            let j = choose|j: int|
                0 <= j < list.len() && #[trigger] list[j].id == b && list[j].info.hostname
                    == after.volunteers[b].info.hostname;
            assert(before.volunteers.contains_key(a) && a != list[j].id);
        }
    }
}

/// Something that happens to the registrar. An enrollment is one step where nothing
/// comes between its start and its end.
pub enum Step {
    /// A volunteer enrolls.
    Enroll {
        /// What it sends.
        request: EnrollRequest,
        /// What is on record under its hostname.
        on_record: Option<KnownNodeView>,
        /// Who it is taken for.
        known: Option<KnownNodeView>,
        /// Where it is reached.
        addr: Seq<char>,
        /// The identifier that it gets where it is new.
        fresh: u128,
        /// When it enrolls.
        now: TimestampView,
        /// The state once the enrollment has started.
        middle: AppStateView,
        /// The enrollment.
        enrollment: EnrollmentView,
        /// Whether the service went to it.
        assigned: bool,
    },
    /// A volunteer sends a heartbeat.
    Beat(HeartbeatRequest, TimestampView),
    /// A dead volunteer is taken out.
    Evict(DeadView, TimestampView),
    /// A volunteer leaves.
    Leave(u128),
    /// A service is registered and waits.
    Queue(ServiceView, TimestampView),
    /// A service is registered and goes to a volunteer.
    Assign(u128, ServiceAssignmentView),
    /// Volunteers that were written down are brought back.
    Recover(Seq<VolunteerView>, TimestampView),
}

/// Whether something can happen to the registrar in a state.
pub open spec fn can_happen(state: AppStateView, step: Step) -> bool {
    match step {
        Step::Enroll {
            request,
            on_record,
            known,
            addr,
            fresh,
            now,
            middle,
            enrollment,
            assigned,
        } => {
            &&& enrollment::is_known_as(state, request.info@.hostname, on_record, known)
            &&& enrollment::enrollment_starts(
                state,
                middle,
                request,
                known,
                addr,
                fresh,
                now,
                enrollment,
            )
        },
        Step::Beat(beat, now) => state.volunteers.contains_key(beat.volunteer_id),
        Step::Recover(list, now) => own_hostnames(list, state),
        _ => true,
    }
}

/// The state after something has happened.
pub open spec fn after_step(state: AppStateView, step: Step) -> AppStateView {
    match step {
        Step::Enroll { middle, enrollment, assigned, .. } => after_enrollment(
            middle,
            enrollment,
            assigned,
        ),
        Step::Beat(beat, now) => after_heartbeat(state, beat, now),
        Step::Evict(dead, now) => churn::evicted(state, dead, now),
        Step::Leave(id) => after_leaving(state, id),
        Step::Queue(service, now) => AppStateView {
            volunteers: state.volunteers,
            pending: state.pending.push(PendingServiceView { service, registered_at: now }),
        },
        Step::Assign(id, assignment) => after_assigning(state, id, assignment),
        Step::Recover(list, now) => after_recovery(state, list, now),
    }
}

/// The state after a run of steps.
pub open spec fn after_steps(start: AppStateView, steps: Seq<Step>) -> AppStateView
    decreases steps.len(),
{
    if steps.len() == 0 {
        start
    } else {
        after_step(after_steps(start, steps.drop_last()), steps.last())
    }
}

/// Whether each step of a run can happen once those before it have.
pub open spec fn all_can_happen(start: AppStateView, steps: Seq<Step>) -> bool
    decreases steps.len(),
{
    steps.len() == 0 || (all_can_happen(start, steps.drop_last()) && can_happen(
        after_steps(start, steps.drop_last()),
        steps.last(),
    ))
}

/// Hostnames stay distinct whatever happens to the registrar.
pub proof fn hostnames_are_always_distinct(start: AppStateView, steps: Seq<Step>)
    requires
        distinct_hostnames(start),
        all_can_happen(start, steps),
    ensures
        distinct_hostnames(after_steps(start, steps)),
    decreases steps.len(),
{
    if steps.len() > 0 {
        hostnames_are_always_distinct(start, steps.drop_last());
        let before = after_steps(start, steps.drop_last());
        match steps.last() {
            Step::Enroll {
                request,
                on_record,
                known,
                addr,
                fresh,
                now,
                middle,
                enrollment,
                assigned,
            } => {
                hostnames_stay_distinct(
                    before,
                    middle,
                    request,
                    on_record,
                    known,
                    addr,
                    fresh,
                    now,
                    enrollment,
                    assigned,
                );
            },
            Step::Beat(beat, now) => {
                heartbeats_keep_hostnames_distinct(before, beat, now);
            },
            Step::Evict(dead, now) => {
                eviction_keeps_hostnames_distinct(before, dead, now);
            },
            Step::Leave(id) => {
                leaving_keeps_hostnames_distinct(before, id);
            },
            Step::Queue(service, now) => {},
            Step::Assign(id, assignment) => {
                assigning_keeps_hostnames_distinct(before, id, assignment);
            },
            Step::Recover(list, now) => {
                recovery_keeps_hostnames_distinct(before, list, now);
            },
        }
    }
}

/// Whether a step leaves a volunteer in memory under its hostname: it does not take the
/// volunteer out, and gives its identifier to nobody with another hostname.
pub open spec fn leaves_in_memory(step: Step, id: u128, hostname: Seq<char>) -> bool {
    match step {
        Step::Enroll { request, enrollment, .. } => enrollment.volunteer.id == id
            ==> request.info@.hostname == hostname,
        Step::Evict(dead, now) => dead.id != id,
        Step::Leave(left) => left != id,
        Step::Recover(list, now) => forall|i: int|
            0 <= i < list.len() && (#[trigger] list[i]).id == id ==> list[i].info.hostname
                == hostname,
        _ => true,
    }
}

/// A volunteer stays in memory under its hostname until it is taken out, where its
/// identifier goes to nobody else.
pub proof fn volunteers_keep_their_hostname(
    start: AppStateView,
    steps: Seq<Step>,
    id: u128,
    hostname: Seq<char>,
)
    requires
        start.volunteers.contains_key(id),
        start.volunteers[id].info.hostname == hostname,
        all_can_happen(start, steps),
        forall|k: int| 0 <= k < steps.len() ==> leaves_in_memory(#[trigger] steps[k], id, hostname),
    ensures
        after_steps(start, steps).volunteers.contains_key(id),
        after_steps(start, steps).volunteers[id].info.hostname == hostname,
    decreases steps.len(),
{
    if steps.len() > 0 {
        let fewer = steps.drop_last();
        let step = steps.last();
        assert(leaves_in_memory(steps[steps.len() - 1], id, hostname));
        assert forall|k: int| 0 <= k < fewer.len() implies leaves_in_memory(
            #[trigger] fewer[k],
            id,
            hostname,
        ) by {
            assert(fewer[k] == steps[k]);
        }
        volunteers_keep_their_hostname(start, fewer, id, hostname);
        if let Step::Recover(list, now) = step {
            lemma_stays_back(after_steps(start, fewer), list, list.len(), now, id, hostname);
        }
    }
}

proof fn lemma_stays_back(
    before: AppStateView,
    list: Seq<VolunteerView>,
    n: nat,
    now: TimestampView,
    id: u128,
    hostname: Seq<char>,
)
    requires
        n <= list.len(),
        before.volunteers.contains_key(id),
        before.volunteers[id].info.hostname == hostname,
        forall|i: int|
            0 <= i < list.len() && (#[trigger] list[i]).id == id ==> list[i].info.hostname
                == hostname,
    ensures
        recovery::brought_back(before.volunteers, list, n, now).contains_key(id),
        recovery::brought_back(before.volunteers, list, n, now)[id].info.hostname == hostname,
    decreases n,
{
    if n > 0 {
        lemma_stays_back(before, list, (n - 1) as nat, now, id, hostname);
    }
}

/// A second enrollment under a hostname is answered with the identifier of the first and
/// adds no volunteer, whatever has happened since the registrar started, as long as the
/// volunteer of the first is in memory under that hostname. A service that it runs by
/// then goes back to it, where the proxy takes it: the answer names it, and nothing is
/// taken from the queue.
pub proof fn enrolling_again_at_any_time(
    start: AppStateView,
    steps: Seq<Step>,
    first: EnrollmentView,
    first_assigned: bool,
    first_response: EnrollResponse,
    middle: AppStateView,
    request: EnrollRequest,
    on_record: Option<KnownNodeView>,
    known: Option<KnownNodeView>,
    addr: Seq<char>,
    fresh: u128,
    now: TimestampView,
    second: EnrollmentView,
    assigned: bool,
    response: EnrollResponse,
)
    requires
        distinct_hostnames(start),
        all_can_happen(start, steps),
        is_answer(first_response, first, first_assigned),
        first.volunteer.info.hostname == request.info@.hostname,
        after_steps(start, steps).volunteers.contains_key(first.volunteer.id),
        after_steps(start, steps).volunteers[first.volunteer.id].info.hostname
            == first.volunteer.info.hostname,
        enrollment::is_known_as(
            after_steps(start, steps),
            request.info@.hostname,
            on_record,
            known,
        ),
        enrollment::enrollment_starts(
            after_steps(start, steps),
            middle,
            request,
            known,
            addr,
            fresh,
            now,
            second,
        ),
        is_answer(response, second, assigned),
    ensures
        response.volunteer_id@ == first_response.volunteer_id@,
        ({
            let before = after_steps(start, steps);
            let id = first.volunteer.id;
            let service = before.volunteers[id].assigned_service;
            let after = after_enrollment(middle, second, assigned);
            &&& after.volunteers.dom() == before.volunteers.dom()
            &&& after.volunteers.len() == before.volunteers.len()
            &&& service is Some && assigned ==> {
                &&& after.volunteers[id].assigned_service == service
                &&& enrollment::payload_is(response.assignment, service)
                &&& after.pending == before.pending
            }
        }),
{
    hostnames_are_always_distinct(start, steps);
    enrolling_again_changes_nobody(
        first,
        first_assigned,
        first_response,
        after_steps(start, steps),
        middle,
        request,
        on_record,
        known,
        addr,
        fresh,
        now,
        second,
        assigned,
        response,
    );
}

// ── services ────────────────────────────────────────────────────────────────
/// Whether a volunteer runs a service.
pub open spec fn runs(v: VolunteerView, service: ServiceView) -> bool {
    v.assigned_service is Some && v.assigned_service->0.service == service
}

/// Whether some volunteer runs a service.
pub open spec fn is_run(state: AppStateView, service: ServiceView) -> bool {
    exists|id: u128| #[trigger]
        state.volunteers.contains_key(id) && runs(state.volunteers[id], service)
}

/// Whether a service waits for a volunteer.
pub open spec fn waits(pending: Seq<PendingServiceView>, service: ServiceView) -> bool {
    exists|i: int| 0 <= i < pending.len() && (#[trigger] pending[i]).service == service
}

/// Whether a service is run or waits.
pub open spec fn is_kept(state: AppStateView, service: ServiceView) -> bool {
    is_run(state, service) || waits(state.pending, service)
}

proof fn lemma_waits_behind(
    more: Seq<PendingServiceView>,
    pending: Seq<PendingServiceView>,
    service: ServiceView,
)
    ensures
        waits(pending, service) ==> waits(more + pending, service),
{
    if waits(pending, service) {
        let i = choose|i: int|
            0 <= i < pending.len() && (#[trigger] pending[i]).service == service;
        assert((more + pending)[more.len() + i].service == service);
    }
}

proof fn lemma_waits_before(
    pending: Seq<PendingServiceView>,
    next: PendingServiceView,
    service: ServiceView,
)
    ensures
        waits(pending, service) ==> waits(pending.push(next), service),
        waits(pending.push(next), next.service),
{
    let more = pending.push(next);
    assert(more[pending.len() as int].service == next.service);
    if waits(pending, service) {
        let i = choose|i: int|
            0 <= i < pending.len() && (#[trigger] pending[i]).service == service;
        assert(more[i].service == service);
    }
}

/// No service is lost when a volunteer enrolls, whether or not the proxy takes it:
/// where one that is not in memory gets an identifier that no other volunteer has.
pub proof fn enrolling_keeps_services(
    before: AppStateView,
    middle: AppStateView,
    request: EnrollRequest,
    on_record: Option<KnownNodeView>,
    known: Option<KnownNodeView>,
    addr: Seq<char>,
    fresh: u128,
    now: TimestampView,
    enrollment: EnrollmentView,
    assigned: bool,
    service: ServiceView,
)
    requires
        enrollment::is_known_as(before, request.info@.hostname, on_record, known),
        !enrollment::has_hostname(before, request.info@.hostname)
            ==> !before.volunteers.contains_key(enrollment.volunteer.id),
        enrollment::enrollment_starts(
            before,
            middle,
            request,
            known,
            addr,
            fresh,
            now,
            enrollment,
        ),
        is_kept(before, service),
    ensures
        is_kept(after_enrollment(middle, enrollment, assigned), service),
{
    let after = after_enrollment(middle, enrollment, assigned);
    let id = enrollment.volunteer.id;
    assert(after.volunteers.contains_key(id));
    if enrollment.offer is Some {
        let offer = enrollment.offer->0;
        if !assigned {
            let back = offer.declined(now);
            assert((seq![back] + middle.pending)[0].service == offer.service());
            lemma_waits_behind(seq![back], middle.pending, service);
        }
        if offer.service() == service {
            if assigned {
                assert(runs(after.volunteers[id], service));
            } else {
                assert(waits(after.pending, service));
            }
        }
    }
    if is_run(before, service) {
        let holder = choose|holder: u128| #[trigger]
            before.volunteers.contains_key(holder) && runs(before.volunteers[holder], service);
        if holder == id {
            assert(enrollment.offer == Some(
                OfferView::Prior(before.volunteers[id].assigned_service->0),
            ));
        } else {
            assert(after.volunteers.contains_key(holder));
            assert(runs(after.volunteers[holder], service));
        }
    } else {
        let i = choose|i: int|
            0 <= i < before.pending.len() && (#[trigger] before.pending[i]).service == service;
        if enrollment.offer is Some && enrollment.offer->0 is Queued {
            if i > 0 {
                assert(before.pending.drop_first()[i - 1].service == service);
                assert(waits(middle.pending, service));
            } else {
                assert(enrollment.offer->0.service() == service);
            }
        } else {
            assert(waits(middle.pending, service));
        }
    }
}

/// A volunteer that enrolls and ran no service before takes over the one that is next
/// in the queue, where the proxy takes it: so a service whose volunteer died is run
/// again once its turn comes.
pub proof fn the_next_volunteer_takes_over(
    before: AppStateView,
    middle: AppStateView,
    request: EnrollRequest,
    known: Option<KnownNodeView>,
    addr: Seq<char>,
    fresh: u128,
    now: TimestampView,
    enrollment: EnrollmentView,
)
    requires
        known is Some ==> known->0.assignment is None,
        before.pending.len() > 0,
        enrollment::enrollment_starts(
            before,
            middle,
            request,
            known,
            addr,
            fresh,
            now,
            enrollment,
        ),
    ensures
        runs(
            after_enrollment(middle, enrollment, true).volunteers[enrollment.volunteer.id],
            before.pending[0].service,
        ),
        after_enrollment(middle, enrollment, true).pending == before.pending.drop_first(),
        after_enrollment(middle, enrollment, false).pending == before.pending,
{
    let back = after_enrollment(middle, enrollment, false);
    assert(back.pending =~= before.pending);
}

/// No service is lost when a dead volunteer is taken out: its own waits for another
/// one.
pub proof fn eviction_keeps_services(
    before: AppStateView,
    dead: DeadView,
    now: TimestampView,
    service: ServiceView,
)
    requires
        before.volunteers.contains_key(dead.id),
        dead == churn::remains(before.volunteers[dead.id]),
        is_kept(before, service),
    ensures
        is_kept(churn::evicted(before, dead, now), service),
        dead.assignment is Some ==> waits(
            churn::evicted(before, dead, now).pending,
            dead.assignment->0.service,
        ),
{
    let after = churn::evicted(before, dead, now);
    if dead.assignment is Some {
        lemma_waits_before(
            before.pending,
            PendingServiceView { service: dead.assignment->0.service, registered_at: now },
            service,
        );
    }
    if is_run(before, service) {
        let holder = choose|holder: u128| #[trigger]
            before.volunteers.contains_key(holder) && runs(before.volunteers[holder], service);
        if holder != dead.id {
            assert(after.volunteers.contains_key(holder));
            assert(runs(after.volunteers[holder], service));
        }
    }
}

/// A volunteer that leaves takes no service with it but its own.
pub proof fn leaving_keeps_other_services(before: AppStateView, id: u128, service: ServiceView)
    requires
        before.volunteers.contains_key(id),
        !runs(before.volunteers[id], service),
        is_kept(before, service),
    ensures
        is_kept(after_leaving(before, id), service),
{
    let after = after_leaving(before, id);
    if is_run(before, service) {
        let holder = choose|holder: u128| #[trigger]
            before.volunteers.contains_key(holder) && runs(before.volunteers[holder], service);
        assert(after.volunteers.contains_key(holder));
        assert(runs(after.volunteers[holder], service));
    }
}

/// A volunteer that leaves by its own wish takes its service with it: where each service
/// is there once, its own is then neither run nor waiting.
pub proof fn leaving_takes_the_service(before: AppStateView, id: u128, service: ServiceView)
    requires
        each_once(before),
        before.volunteers.contains_key(id),
        runs(before.volunteers[id], service),
    ensures
        !is_kept(after_leaving(before, id), service),
{
    let after = after_leaving(before, id);
    assert(runs_name(before.volunteers[id], service.name));
    if is_run(after, service) {
        let holder = choose|holder: u128| #[trigger]
            after.volunteers.contains_key(holder) && runs(after.volunteers[holder], service);
        assert(before.volunteers.contains_key(holder));
        assert(runs_name(before.volunteers[holder], service.name));
    }
    if waits(after.pending, service) {
        let i = choose|i: int|
            0 <= i < after.pending.len() && (#[trigger] after.pending[i]).service == service;
        assert(!runs_name(before.volunteers[id], before.pending[i].service.name));
    }
}

/// No service is lost by a heartbeat.
pub proof fn heartbeats_keep_services(
    before: AppStateView,
    beat: HeartbeatRequest,
    now: TimestampView,
    service: ServiceView,
)
    requires
        before.volunteers.contains_key(beat.volunteer_id),
        is_kept(before, service),
    ensures
        is_kept(after_heartbeat(before, beat, now), service),
{
    let after = after_heartbeat(before, beat, now);
    if is_run(before, service) {
        let holder = choose|holder: u128| #[trigger]
            before.volunteers.contains_key(holder) && runs(before.volunteers[holder], service);
        assert(after.volunteers.contains_key(holder));
        assert(runs(after.volunteers[holder], service));
    }
}

/// A service that is registered when no volunteer is free waits, and none is lost.
pub proof fn queueing_keeps_services(
    before: AppStateView,
    after: AppStateView,
    registered: ServiceView,
    now: TimestampView,
    service: ServiceView,
)
    requires
        services::queued_at(before, after, registered, now),
    ensures
        waits(after.pending, registered),
        is_kept(before, service) ==> is_kept(after, service),
{
    lemma_waits_before(
        before.pending,
        PendingServiceView { service: registered, registered_at: now },
        service,
    );
    if is_run(before, service) {
        let holder = choose|holder: u128| #[trigger]
            before.volunteers.contains_key(holder) && runs(before.volunteers[holder], service);
        assert(after.volunteers.contains_key(holder));
    }
}

/// A service that goes to a volunteer that was free is run, and none is lost.
pub proof fn assigning_keeps_services(
    before: AppStateView,
    id: u128,
    assignment: ServiceAssignmentView,
    service: ServiceView,
)
    requires
        before.volunteers.contains_key(id),
        before.volunteers[id].assigned_service is None,
    ensures
        ({
            let after = after_assigning(before, id, assignment);
            &&& is_run(after, assignment.service)
            &&& is_kept(before, service) ==> is_kept(after, service)
        }),
{
    let after = after_assigning(before, id, assignment);
    assert(after.volunteers.contains_key(id));
    assert(runs(after.volunteers[id], assignment.service));
    if is_run(before, service) {
        let holder = choose|holder: u128| #[trigger]
            before.volunteers.contains_key(holder) && runs(before.volunteers[holder], service);
        assert(after.volunteers.contains_key(holder));
        assert(runs(after.volunteers[holder], service));
    }
}

// ── one volunteer for each service ──────────────────────────────────────────
/// Whether a volunteer runs a service of this name.
pub open spec fn runs_name(v: VolunteerView, name: Seq<char>) -> bool {
    v.assigned_service is Some && v.assigned_service->0.service.name == name
}

/// Whether some volunteer runs a service of this name.
pub open spec fn name_is_run(state: AppStateView, name: Seq<char>) -> bool {
    exists|id: u128| #[trigger]
        state.volunteers.contains_key(id) && runs_name(state.volunteers[id], name)
}

/// Whether a service of this name waits.
pub open spec fn name_waits(pending: Seq<PendingServiceView>, name: Seq<char>) -> bool {
    exists|i: int| 0 <= i < pending.len() && (#[trigger] pending[i]).service.name == name
}

/// Whether no two volunteers run services of the same name.
pub open spec fn run_once(volunteers: Map<u128, VolunteerView>) -> bool {
    forall|a: u128, b: u128, name: Seq<char>|
        volunteers.contains_key(a) && volunteers.contains_key(b) && #[trigger] runs_name(
            volunteers[a],
            name,
        ) && #[trigger] runs_name(volunteers[b], name) ==> a == b
}

/// Whether no two services that wait have the same name.
pub open spec fn wait_once(pending: Seq<PendingServiceView>) -> bool {
    forall|i: int, j: int|
        0 <= i < j < pending.len() ==> pending[i].service.name != pending[j].service.name
}

/// Whether no service that is run waits too.
pub open spec fn run_or_wait(state: AppStateView) -> bool {
    forall|id: u128, i: int|
        state.volunteers.contains_key(id) && 0 <= i < state.pending.len() ==> !#[trigger] runs_name(
            state.volunteers[id],
            #[trigger] state.pending[i].service.name,
        )
}

/// Whether each service is there once: run by one volunteer, or waiting.
pub open spec fn each_once(state: AppStateView) -> bool {
    run_once(state.volunteers) && wait_once(state.pending) && run_or_wait(state)
}

/// Each service stays there once when a volunteer enrolls: where one that is not in
/// memory gets an identifier that no other volunteer has, and where the service that
/// is on record for it has not gone elsewhere.
pub proof fn enrolling_keeps_each_once(
    before: AppStateView,
    middle: AppStateView,
    request: EnrollRequest,
    on_record: Option<KnownNodeView>,
    known: Option<KnownNodeView>,
    addr: Seq<char>,
    fresh: u128,
    now: TimestampView,
    enrollment: EnrollmentView,
    assigned: bool,
)
    requires
        each_once(before),
        enrollment::is_known_as(before, request.info@.hostname, on_record, known),
        !enrollment::has_hostname(before, request.info@.hostname)
            ==> !before.volunteers.contains_key(enrollment.volunteer.id),
        !enrollment::has_hostname(before, request.info@.hostname) && on_record is Some
            && on_record->0.assignment is Some ==> !name_is_run(
            before,
            on_record->0.assignment->0.service.name,
        ) && !name_waits(before.pending, on_record->0.assignment->0.service.name),
        enrollment::enrollment_starts(
            before,
            middle,
            request,
            known,
            addr,
            fresh,
            now,
            enrollment,
        ),
    ensures
        each_once(after_enrollment(middle, enrollment, assigned)),
{
    let after = after_enrollment(middle, enrollment, assigned);
    let id = enrollment.volunteer.id;
    if enrollment.offer is Some {
        let offer = enrollment.offer->0;
        let name = offer.service().name;
        assert forall|other: u128| other != id && #[trigger] before.volunteers.contains_key(
            other,
        ) implies !runs_name(before.volunteers[other], name) by {
            if runs_name(before.volunteers[other], name) {
                if offer is Queued {
                    assert(before.pending[0].service.name == name);
                } else if before.volunteers.contains_key(id) {
                    assert(runs_name(before.volunteers[id], name));
                } else {
                    assert(name_is_run(before, name));
                }
            }
        }
        assert forall|i: int| 0 <= i < middle.pending.len() implies (#[trigger] middle.pending[
            i
        ]).service.name != name by {
            if offer is Queued {
                assert(middle.pending[i] == before.pending[i + 1]);
            } else if before.volunteers.contains_key(id) {
                assert(runs_name(before.volunteers[id], name));
                assert(middle.pending[i] == before.pending[i]);
            } else {
                assert(middle.pending[i] == before.pending[i]);
                assert(middle.pending[i].service.name == name ==> name_waits(before.pending, name));
            }
        }
    }
    assert(wait_once(middle.pending)) by {
        assert forall|i: int, j: int| 0 <= i < j < middle.pending.len() implies
            middle.pending[i].service.name != middle.pending[j].service.name by {
            if enrollment.offer is Some && enrollment.offer->0 is Queued {
                assert(middle.pending[i] == before.pending[i + 1]);
                assert(middle.pending[j] == before.pending[j + 1]);
            }
        }
    }
    assert(wait_once(after.pending)) by {
        assert forall|i: int, j: int| 0 <= i < j < after.pending.len() implies
            after.pending[i].service.name != after.pending[j].service.name by {
            if enrollment.offer is Some && !assigned {
                assert(after.pending[j] == middle.pending[j - 1]);
                if i > 0 {
                    assert(after.pending[i] == middle.pending[i - 1]);
                }
            }
        }
    }
    assert(run_once(after.volunteers)) by {
        assert forall|a: u128, b: u128, n: Seq<char>|
            after.volunteers.contains_key(a) && after.volunteers.contains_key(b)
                && #[trigger] runs_name(after.volunteers[a], n) && #[trigger] runs_name(
                after.volunteers[b],
                n,
            ) implies a == b by {
            if a != id {
                assert(before.volunteers.contains_key(a));
                assert(runs_name(before.volunteers[a], n));
            }
            if b != id {
                assert(before.volunteers.contains_key(b));
                assert(runs_name(before.volunteers[b], n));
            }
        }
    }
    assert(run_or_wait(after)) by {
        assert forall|v: u128, i: int|
            after.volunteers.contains_key(v) && 0 <= i < after.pending.len() implies
            !#[trigger] runs_name(after.volunteers[v], #[trigger] after.pending[i].service.name) by {
            let declined = enrollment.offer is Some && !assigned;
            let n = after.pending[i].service.name;
            if v == id {
                if enrollment.offer is Some && assigned {
                    assert(after.pending[i] == middle.pending[i]);
                }
            } else {
                assert(before.volunteers.contains_key(v));
                if declined && i == 0 {
                    assert(n == enrollment.offer->0.service().name);
                } else {
                    let k = if declined {
                        i - 1
                    } else {
                        i
                    };
                    assert(after.pending[i] == middle.pending[k]);
                    if enrollment.offer is Some && enrollment.offer->0 is Queued {
                        assert(middle.pending[k] == before.pending[k + 1]);
                        assert(!runs_name(before.volunteers[v], before.pending[k + 1].service.name));
                    } else {
                        assert(middle.pending[k] == before.pending[k]);
                        assert(!runs_name(before.volunteers[v], before.pending[k].service.name));
                    }
                }
            }
        }
    }
}

/// Each service stays there once when a dead volunteer is taken out.
pub proof fn eviction_keeps_each_once(before: AppStateView, dead: DeadView, now: TimestampView)
    requires
        each_once(before),
        before.volunteers.contains_key(dead.id),
        dead == churn::remains(before.volunteers[dead.id]),
    ensures
        each_once(churn::evicted(before, dead, now)),
{
    let after = churn::evicted(before, dead, now);
    if dead.assignment is Some {
        let name = dead.assignment->0.service.name;
        assert(runs_name(before.volunteers[dead.id], name));
        assert forall|i: int| 0 <= i < before.pending.len() implies (#[trigger] before.pending[
            i
        ]).service.name != name by {}
        assert forall|v: u128, i: int|
            after.volunteers.contains_key(v) && 0 <= i < after.pending.len() implies
            !#[trigger] runs_name(after.volunteers[v], #[trigger] after.pending[i].service.name) by {
            assert(before.volunteers.contains_key(v));
            if i < before.pending.len() {
                assert(after.pending[i] == before.pending[i]);
                assert(!runs_name(before.volunteers[v], before.pending[i].service.name));
            } else {
                assert(after.pending[i].service.name == name);
                if runs_name(before.volunteers[v], name) {
                    assert(v == dead.id);
                }
            }
        }
        assert(wait_once(after.pending)) by {
            assert forall|i: int, j: int| 0 <= i < j < after.pending.len() implies
                after.pending[i].service.name != after.pending[j].service.name by {
                assert(after.pending[i] == before.pending[i]);
                if j < before.pending.len() {
                    assert(after.pending[j] == before.pending[j]);
                }
            }
        }
    } else {
        assert forall|v: u128, i: int|
            after.volunteers.contains_key(v) && 0 <= i < after.pending.len() implies
            !#[trigger] runs_name(after.volunteers[v], #[trigger] after.pending[i].service.name) by {
            assert(before.volunteers.contains_key(v));
            assert(!runs_name(before.volunteers[v], before.pending[i].service.name));
        }
    }
    assert(run_once(after.volunteers)) by {
        assert forall|a: u128, b: u128, n: Seq<char>|
            after.volunteers.contains_key(a) && after.volunteers.contains_key(b)
                && #[trigger] runs_name(after.volunteers[a], n) && #[trigger] runs_name(
                after.volunteers[b],
                n,
            ) implies a == b by {
            assert(before.volunteers.contains_key(a) && before.volunteers.contains_key(b));
            assert(runs_name(before.volunteers[a], n) && runs_name(before.volunteers[b], n));
        }
    }
}

/// No service is there twice when a volunteer leaves.
pub proof fn leaving_keeps_each_once(before: AppStateView, id: u128)
    requires
        each_once(before),
    ensures
        each_once(after_leaving(before, id)),
{
    let after = after_leaving(before, id);
    assert(run_once(after.volunteers)) by {
        assert forall|a: u128, b: u128, n: Seq<char>|
            after.volunteers.contains_key(a) && after.volunteers.contains_key(b)
                && #[trigger] runs_name(after.volunteers[a], n) && #[trigger] runs_name(
                after.volunteers[b],
                n,
            ) implies a == b by {
            assert(before.volunteers.contains_key(a) && before.volunteers.contains_key(b));
            assert(runs_name(before.volunteers[a], n) && runs_name(before.volunteers[b], n));
        }
    }
    assert(run_or_wait(after)) by {
        assert forall|v: u128, i: int|
            after.volunteers.contains_key(v) && 0 <= i < after.pending.len() implies
            !#[trigger] runs_name(after.volunteers[v], #[trigger] after.pending[i].service.name) by {
            assert(before.volunteers.contains_key(v));
            assert(!runs_name(before.volunteers[v], before.pending[i].service.name));
        }
    }
}

/// Each service stays there once when a heartbeat comes.
pub proof fn heartbeats_keep_each_once(
    before: AppStateView,
    beat: HeartbeatRequest,
    now: TimestampView,
)
    requires
        each_once(before),
        before.volunteers.contains_key(beat.volunteer_id),
    ensures
        each_once(after_heartbeat(before, beat, now)),
{
    let after = after_heartbeat(before, beat, now);
    assert forall|v: u128, name: Seq<char>| after.volunteers.contains_key(v) && #[trigger] runs_name(
        after.volunteers[v],
        name,
    ) implies before.volunteers.contains_key(v) && runs_name(before.volunteers[v], name) by {}
    assert(run_once(after.volunteers)) by {
        assert forall|a: u128, b: u128, n: Seq<char>|
            after.volunteers.contains_key(a) && after.volunteers.contains_key(b)
                && #[trigger] runs_name(after.volunteers[a], n) && #[trigger] runs_name(
                after.volunteers[b],
                n,
            ) implies a == b by {
            assert(runs_name(before.volunteers[a], n) && runs_name(before.volunteers[b], n));
        }
    }
    assert(run_or_wait(after)) by {
        assert forall|v: u128, i: int|
            after.volunteers.contains_key(v) && 0 <= i < after.pending.len() implies
            !#[trigger] runs_name(after.volunteers[v], #[trigger] after.pending[i].service.name) by {
            assert(before.volunteers.contains_key(v));
            assert(!runs_name(before.volunteers[v], before.pending[i].service.name));
        }
    }
}

/// Each service stays there once when a new one waits.
pub proof fn queueing_keeps_each_once(
    before: AppStateView,
    after: AppStateView,
    registered: ServiceView,
    now: TimestampView,
)
    requires
        each_once(before),
        services::queued_at(before, after, registered, now),
        !name_is_run(before, registered.name),
        !name_waits(before.pending, registered.name),
    ensures
        each_once(after),
{
    assert(wait_once(after.pending)) by {
        assert forall|i: int, j: int| 0 <= i < j < after.pending.len() implies
            after.pending[i].service.name != after.pending[j].service.name by {
            assert(after.pending[i] == before.pending[i]);
            if j < before.pending.len() {
                assert(after.pending[j] == before.pending[j]);
            }
        }
    }
    assert forall|v: u128, i: int|
        after.volunteers.contains_key(v) && 0 <= i < after.pending.len() implies
        !#[trigger] runs_name(after.volunteers[v], #[trigger] after.pending[i].service.name) by {
        if i < before.pending.len() {
            assert(after.pending[i] == before.pending[i]);
            assert(!runs_name(before.volunteers[v], before.pending[i].service.name));
        }
    }
}

/// Each service stays there once when a new one goes to a volunteer that was free.
pub proof fn assigning_keeps_each_once(
    before: AppStateView,
    id: u128,
    assignment: ServiceAssignmentView,
)
    requires
        each_once(before),
        before.volunteers.contains_key(id),
        before.volunteers[id].assigned_service is None,
        !name_is_run(before, assignment.service.name),
        !name_waits(before.pending, assignment.service.name),
    ensures
        each_once(after_assigning(before, id, assignment)),
{
    let after = after_assigning(before, id, assignment);
    assert(run_once(after.volunteers)) by {
        assert forall|a: u128, b: u128, n: Seq<char>|
            after.volunteers.contains_key(a) && after.volunteers.contains_key(b)
                && #[trigger] runs_name(after.volunteers[a], n) && #[trigger] runs_name(
                after.volunteers[b],
                n,
            ) implies a == b by {
            if a != id {
                assert(before.volunteers.contains_key(a));
                assert(runs_name(before.volunteers[a], n));
            }
            if b != id {
                assert(before.volunteers.contains_key(b));
                assert(runs_name(before.volunteers[b], n));
            }
        }
    }
    assert(run_or_wait(after)) by {
        assert forall|v: u128, i: int|
            after.volunteers.contains_key(v) && 0 <= i < after.pending.len() implies
            !#[trigger] runs_name(after.volunteers[v], #[trigger] after.pending[i].service.name) by {
            if v != id {
                assert(before.volunteers.contains_key(v));
                assert(!runs_name(before.volunteers[v], before.pending[i].service.name));
            }
        }
    }
}

// ── churn ───────────────────────────────────────────────────────────────────
/// The state once the first dead volunteers of a list are taken out, each at its own
/// time.
pub open spec fn all_evicted(
    state: AppStateView,
    dead: Seq<DeadView>,
    times: Seq<TimestampView>,
    n: nat,
) -> AppStateView
    decreases n,
{
    if n == 0 {
        state
    } else {
        churn::evicted(all_evicted(state, dead, times, (n - 1) as nat), dead[n - 1], times[n - 1])
    }
}

proof fn lemma_evicted(
    state: AppStateView,
    dead: Seq<DeadView>,
    times: Seq<TimestampView>,
    n: nat,
)
    requires
        n <= dead.len(),
    ensures
        forall|id: u128| #[trigger]
            all_evicted(state, dead, times, n).volunteers.contains_key(id) <==> (
            state.volunteers.contains_key(id) && forall|i: int|
                0 <= i < n ==> (#[trigger] dead[i]).id != id),
        forall|id: u128| #[trigger]
            all_evicted(state, dead, times, n).volunteers.contains_key(id)
                ==> all_evicted(state, dead, times, n).volunteers[id] == state.volunteers[id],
    decreases n,
{
    if n > 0 {
        lemma_evicted(state, dead, times, (n - 1) as nat);
        let last = dead[n - 1];
        let before = all_evicted(state, dead, times, (n - 1) as nat);
        let after = all_evicted(state, dead, times, n);
        assert forall|id: u128| #[trigger] after.volunteers.contains_key(id) <==> (
        state.volunteers.contains_key(id) && forall|i: int|
            0 <= i < n ==> (#[trigger] dead[i]).id != id) by {
            if after.volunteers.contains_key(id) {
                assert(before.volunteers.contains_key(id));
            }
            if state.volunteers.contains_key(id) && forall|i: int|
                0 <= i < n ==> (#[trigger] dead[i]).id != id {
                assert(dead[n - 1].id != id);
                assert(before.volunteers.contains_key(id));
            }
        }
        assert forall|id: u128| #[trigger] after.volunteers.contains_key(id) implies
            after.volunteers[id] == state.volunteers[id] by {
            assert(before.volunteers.contains_key(id));
        }
    }
}

/// Once the dead are taken out, exactly the living are left, as they were.
pub proof fn only_the_living_stay(
    state: AppStateView,
    dead: Seq<DeadView>,
    times: Seq<TimestampView>,
    now: TimestampView,
)
    requires
        churn::are_dead(dead, state, now),
    ensures
        ({
            let after = all_evicted(state, dead, times, dead.len());
            forall|id: u128| #[trigger]
                after.volunteers.contains_key(id) <==> state.volunteers.contains_key(id)
                    && state.volunteers[id].alive_at(now)
        }),
        forall|id: u128| #[trigger]
            all_evicted(state, dead, times, dead.len()).volunteers.contains_key(id)
                ==> all_evicted(state, dead, times, dead.len()).volunteers[id]
                == state.volunteers[id],
{
    lemma_evicted(state, dead, times, dead.len());
    let after = all_evicted(state, dead, times, dead.len());
    assert forall|id: u128| #[trigger] after.volunteers.contains_key(id) <==>
        state.volunteers.contains_key(id) && state.volunteers[id].alive_at(now) by {
        if state.volunteers.contains_key(id) && !state.volunteers[id].alive_at(now) {
            assert(churn::lists_id(dead, id));
            let i = choose|i: int| 0 <= i < dead.len() && #[trigger] dead[i].id == id;
            assert(dead[i].id == id);
        }
        if state.volunteers.contains_key(id) && state.volunteers[id].alive_at(now) {
            assert forall|i: int| 0 <= i < dead.len() implies (#[trigger] dead[i]).id != id by {}
        }
    }
}

proof fn lemma_all_evicted_keep(
    state: AppStateView,
    dead: Seq<DeadView>,
    times: Seq<TimestampView>,
    n: nat,
    now: TimestampView,
    service: ServiceView,
)
    requires
        n <= dead.len(),
        churn::are_dead(dead, state, now),
        is_kept(state, service),
    ensures
        is_kept(all_evicted(state, dead, times, n), service),
    decreases n,
{
    if n > 0 {
        let m = (n - 1) as nat;
        lemma_all_evicted_keep(state, dead, times, m, now, service);
        lemma_evicted(state, dead, times, m);
        let before = all_evicted(state, dead, times, m);
        let last = dead[n - 1];
        assert forall|i: int| 0 <= i < m implies (#[trigger] dead[i]).id != last.id by {
            assert(dead[i].id != dead[n - 1].id);
        }
        assert(before.volunteers.contains_key(last.id));
        eviction_keeps_services(before, last, times[n - 1], service);
    }
}

/// No service is lost when all the dead are taken out.
pub proof fn churn_keeps_services(
    state: AppStateView,
    dead: Seq<DeadView>,
    times: Seq<TimestampView>,
    now: TimestampView,
    service: ServiceView,
)
    requires
        churn::are_dead(dead, state, now),
        is_kept(state, service),
    ensures
        is_kept(all_evicted(state, dead, times, dead.len()), service),
{
    lemma_all_evicted_keep(state, dead, times, dead.len(), now, service);
}

/// The entries of the queue for the services that the first dead volunteers of a list
/// ran, in the order of the list.
pub open spec fn left_behind(dead: Seq<DeadView>, times: Seq<TimestampView>, n: nat) -> Seq<
    PendingServiceView,
>
    decreases n,
{
    if n == 0 {
        Seq::empty()
    } else {
        let before = left_behind(dead, times, (n - 1) as nat);
        match dead[n - 1].assignment {
            Some(a) => before.push(
                PendingServiceView { service: a.service, registered_at: times[n - 1] },
            ),
            None => before,
        }
    }
}

/// How many of the first dead volunteers of a list ran a service.
pub open spec fn left_count(dead: Seq<DeadView>, n: nat) -> nat
    decreases n,
{
    if n == 0 {
        0
    } else {
        left_count(dead, (n - 1) as nat) + if dead[n - 1].assignment is Some {
            1nat
        } else {
            0
        }
    }
}

/// Once the dead are taken out, the queue is the old one, followed by one entry for each
/// of them that ran a service.
pub proof fn services_of_the_dead_queue_up(
    state: AppStateView,
    dead: Seq<DeadView>,
    times: Seq<TimestampView>,
    n: nat,
)
    ensures
        all_evicted(state, dead, times, n).pending == state.pending + left_behind(dead, times, n),
        left_behind(dead, times, n).len() == left_count(dead, n),
    decreases n,
{
    if n > 0 {
        services_of_the_dead_queue_up(state, dead, times, (n - 1) as nat);
    }
    assert(all_evicted(state, dead, times, n).pending =~= state.pending + left_behind(
        dead,
        times,
        n,
    ));
}

} // verus!
