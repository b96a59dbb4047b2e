//! Volunteers that come, stay and go.
//!
//! A volunteer is known again by its hostname: it then keeps its identifier, and
//! the service that it ran before. The tunnel server gives each volunteer its
//! public port; the registrar records what it is told.
use crate::clock::{Timestamp, TimestampView};
use crate::haproxy;
use crate::haproxy::assign::{assign_service, Assignment};
use crate::haproxy::run::RuntimeRun;
use crate::ids;
use crate::ids::{hyphenated_text, parse_id, random_id};
use crate::registrar::state;
use crate::registrar::state::{
    AppState, AppStateView, HandshakeInfo, HandshakeView, Metrics, PendingService,
    PendingServiceView, ServiceAssignment, ServiceAssignmentView, ServiceView, VolunteerState,
    VolunteerView, HEARTBEAT_INTERVAL_SECS, MAX_WEIGHT,
};
use crate::text;
use crate::text::{contains, decimal_text};
use vstd::prelude::*;

verus! {

// ── messages ────────────────────────────────────────────────────────────────
/// What a volunteer sends to enroll.
#[derive(Debug)]
pub struct EnrollRequest {
    /// What it says of itself.
    pub info: HandshakeInfo,
    /// The public port that the tunnel server gave it.
    pub tunnel_public_port: u16,
}

/// What a volunteer is to run.
#[derive(Debug)]
pub struct AssignmentPayload {
    /// The image to run.
    pub image: String,
    /// The port that the service listens on.
    pub service_port: u16,
}

/// The answer to an enrollment.
#[derive(Debug)]
pub struct EnrollResponse {
    /// The volunteer's identifier.
    pub volunteer_id: String,
    /// How often it is to send a heartbeat.
    pub heartbeat_interval_seconds: u64,
    /// What it is to run.
    pub assignment: Option<AssignmentPayload>,
}

/// What a volunteer sends every few seconds.
#[derive(Debug)]
pub struct HeartbeatRequest {
    /// Its identifier.
    pub volunteer_id: u128,
    /// How busy it is.
    pub metrics: Metrics,
    /// Whether its service is up.
    pub service_running: Option<bool>,
    /// The image that it runs.
    pub service_image: Option<String>,
}

/// The answer to a heartbeat.
#[derive(Debug)]
pub struct HeartbeatResponse {
    /// That all is well.
    pub status: String,
    /// What the volunteer is to run.
    pub assignment: Option<AssignmentPayload>,
}

/// The answer to a request that failed.
#[derive(Debug)]
pub struct ErrorResponse {
    /// What went wrong, in words.
    pub error: String,
    /// What went wrong, as a code.
    pub code: String,
}

/// Builds the answer to a request that failed.
pub fn err(message: &str, code: &str) -> (response: ErrorResponse)
    ensures
        response.error@ == message@,
        response.code@ == code@,
{
    ErrorResponse { error: message.to_owned(), code: code.to_owned() }
}

/// What a volunteer with an assignment is to run.
pub open spec fn payload_is(
    payload: Option<AssignmentPayload>,
    assignment: Option<ServiceAssignmentView>,
) -> bool {
    match (payload, assignment) {
        (Some(p), Some(a)) => p.image@ == a.service.image && p.service_port == a.service.port,
        (None, None) => true,
        _ => false,
    }
}

/// Builds what a volunteer with an assignment is to run.
pub fn payload_for(assignment: &Option<ServiceAssignment>) -> (payload: Option<AssignmentPayload>)
    ensures
        payload_is(payload, state::maybe_assignment(*assignment)),
{
    match assignment {
        Some(a) => Some(AssignmentPayload { image: a.image.clone(), service_port: a.service_port }),
        None => None,
    }
}

// ── enrolling ───────────────────────────────────────────────────────────────
/// A volunteer that was enrolled before.
pub struct KnownNode {
    /// The identifier that it had.
    pub id: u128,
    /// The service that it ran.
    pub assignment: Option<ServiceAssignment>,
}

/// The value of a [`KnownNode`].
pub struct KnownNodeView {
    /// See [`KnownNode::id`].
    pub id: u128,
    /// See [`KnownNode::assignment`].
    pub assignment: Option<ServiceAssignmentView>,
}

impl View for KnownNode {
    type V = KnownNodeView;

    open spec fn view(&self) -> KnownNodeView {
        KnownNodeView { id: self.id, assignment: state::maybe_assignment(self.assignment) }
    }
}

/// The value of a volunteer that may have been enrolled before.
pub open spec fn maybe_known(known: Option<KnownNode>) -> Option<KnownNodeView> {
    match known {
        Some(k) => Some(k@),
        None => None,
    }
}

/// Whether some volunteer has a hostname.
pub open spec fn has_hostname(state: AppStateView, hostname: Seq<char>) -> bool {
    exists|id: u128| #[trigger]
        state.volunteers.contains_key(id) && state.volunteers[id].info.hostname == hostname
}

/// Whether a node that enrolls is taken for the right one: for a volunteer with its
/// hostname, with the service that it runs, or else for what is on record under that
/// hostname.
pub open spec fn is_known_as(
    state: AppStateView,
    hostname: Seq<char>,
    on_record: Option<KnownNodeView>,
    known: Option<KnownNodeView>,
) -> bool {
    if has_hostname(state, hostname) {
        &&& known is Some
        &&& state.volunteers.contains_key(known->0.id)
        &&& state.volunteers[known->0.id].info.hostname == hostname
        &&& known->0.assignment == state.volunteers[known->0.id].assigned_service
    } else {
        known == on_record
    }
}

/// Looks among the volunteers for one that enrolls again. Which of two with the same
/// hostname is found is left open.
pub fn known_node(state: &AppState, hostname: &str) -> (known: Option<KnownNode>)
    ensures
        match known {
            Some(k) => {
                &&& state@.volunteers.contains_key(k@.id)
                &&& state@.volunteers[k@.id].info.hostname == hostname@
                &&& k@.assignment == state@.volunteers[k@.id].assigned_service
            },
            None => !has_hostname(state@, hostname@),
        },
{
    match state.find_by_hostname(hostname) {
        Some(v) => Some(KnownNode { id: v.id, assignment: v.assigned_service }),
        None => None,
    }
}

/// An address and a port.
pub open spec fn addr_of(host: Seq<char>, port: u16) -> Seq<char> {
    host + ":"@ + text::decimal(port as nat)
}

/// Where a volunteer is reached through the tunnel: at the tunnel server's IP
/// address, or at its name where that was not resolved.
pub fn tunnel_service_addr(resolved: Option<String>, tunnel_host: &str, port: u16) -> (addr: String)
    ensures
        addr@ == addr_of(
            match resolved {
                Some(ip) => ip@,
                None => tunnel_host@,
            },
            port,
        ),
{
    let mut addr = match resolved {
        Some(ip) => ip,
        None => tunnel_host.to_owned(),
    };
    addr.append(":");
    addr.append(decimal_text(port as u64).as_str());
    addr
}

/// A service that is to go to a volunteer that enrolls.
pub enum Offer {
    /// It ran there before.
    Prior(ServiceAssignment),
    /// It was next in the queue.
    Queued(PendingService),
}

/// The value of an [`Offer`].
pub enum OfferView {
    /// See [`Offer::Prior`].
    Prior(ServiceAssignmentView),
    /// See [`Offer::Queued`].
    Queued(PendingServiceView),
}

impl View for Offer {
    type V = OfferView;

    open spec fn view(&self) -> OfferView {
        match *self {
            Offer::Prior(a) => OfferView::Prior(a@),
            Offer::Queued(p) => OfferView::Queued(p@),
        }
    }
}

impl OfferView {
    /// What is to be run.
    pub open spec fn service(self) -> ServiceView {
        match self {
            OfferView::Prior(a) => a.service,
            OfferView::Queued(p) => p.service,
        }
    }

    /// The assignment, where the volunteer gets the service.
    pub open spec fn taken(self, now: TimestampView) -> ServiceAssignmentView {
        match self {
            OfferView::Prior(a) => a,
            OfferView::Queued(p) => ServiceAssignmentView { service: p.service, assigned_at: now },
        }
    }

    /// What goes back to the queue, where the volunteer does not get the service.
    pub open spec fn declined(self, now: TimestampView) -> PendingServiceView {
        match self {
            OfferView::Prior(a) => PendingServiceView { service: a.service, registered_at: now },
            OfferView::Queued(p) => p,
        }
    }
}

/// A volunteer that is enrolling.
pub struct Enrollment {
    volunteer: VolunteerState,
    offer: Option<Offer>,
    port: u16,
    now: Timestamp,
}

/// The value of an [`Enrollment`].
pub struct EnrollmentView {
    /// The volunteer, still without a service.
    pub volunteer: VolunteerView,
    /// The service that is to go to it.
    pub offer: Option<OfferView>,
    /// The public port that the tunnel server gave it.
    pub port: u16,
    /// When it enrolled.
    pub now: TimestampView,
}

impl View for Enrollment {
    type V = EnrollmentView;

    closed spec fn view(&self) -> EnrollmentView {
        EnrollmentView {
            volunteer: self.volunteer@,
            offer: match self.offer {
                Some(o) => Some(o@),
                None => None,
            },
            port: self.port,
            now: self.now@,
        }
    }
}

/// The volunteer that a request makes: known again under its old identifier, or new
/// under a fresh one.
pub open spec fn enrolling(
    info: HandshakeView,
    known: Option<KnownNodeView>,
    service_addr: Seq<char>,
    fresh: u128,
    now: TimestampView,
) -> VolunteerView {
    VolunteerView {
        id: match known {
            Some(k) => k.id,
            None => fresh,
        },
        info: HandshakeView { service_addr, ..info },
        metrics: state::idle_metrics(),
        enrolled_at: now,
        last_heartbeat: now,
        assigned_service: None,
        service_running: None,
        service_image: None,
    }
}

/// The service that is to go to a volunteer: the one that it ran before, or the
/// next one in the queue.
pub open spec fn offer_for(
    known: Option<KnownNodeView>,
    pending: Seq<PendingServiceView>,
) -> Option<OfferView> {
    if known is Some && known->0.assignment is Some {
        Some(OfferView::Prior(known->0.assignment->0))
    } else if pending.len() > 0 {
        Some(OfferView::Queued(pending[0]))
    } else {
        None
    }
}

/// What an enrollment starts with, and what is then left in the queue.
pub open spec fn enrollment_starts(
    before: AppStateView,
    after: AppStateView,
    request: EnrollRequest,
    known: Option<KnownNodeView>,
    service_addr: Seq<char>,
    fresh: u128,
    now: TimestampView,
    enrollment: EnrollmentView,
) -> bool {
    let offer = offer_for(known, before.pending);
    &&& enrollment.volunteer == enrolling(request.info@, known, service_addr, fresh, now)
    &&& enrollment.offer == offer
    &&& enrollment.port == request.tunnel_public_port
    &&& enrollment.now == now
    &&& after.volunteers == before.volunteers
    &&& after.pending == if offer is Some && offer->0 is Queued {
        before.pending.drop_first()
    } else {
        before.pending
    }
}

/// Starts to enroll a volunteer, given what is on record under its hostname, the
/// identifier that it gets where it is not known, and the time.
pub fn enroll_with(
    state: &mut AppState,
    request: EnrollRequest,
    on_record: Option<KnownNode>,
    service_addr: String,
    fresh: u128,
    now: Timestamp,
) -> (enrollment: Enrollment)
    ensures
        exists|known: Option<KnownNodeView>|
            is_known_as(old(state)@, request.info@.hostname, maybe_known(on_record), known)
                && #[trigger] enrollment_starts(
                old(state)@,
                final(state)@,
                request,
                known,
                service_addr@,
                fresh,
                now@,
                enrollment@,
            ),
{
    let ghost before = state@;
    let ghost address = service_addr@;
    let known = match known_node(state, request.info.hostname.as_str()) {
        Some(k) => Some(k),
        None => on_record,
    };
    let ghost known_view = maybe_known(known);
    let (id, prior) = match known {
        Some(k) => (k.id, k.assignment),
        None => (fresh, None),
    };
    let offer = match prior {
        Some(a) => Some(Offer::Prior(a)),
        None => match state.next_service() {
            Some(p) => Some(Offer::Queued(p)),
            None => None,
        },
    };
    let info = HandshakeInfo {
        hostname: request.info.hostname,
        os: request.info.os,
        arch: request.info.arch,
        cpu_cores: request.info.cpu_cores,
        cpu_model: request.info.cpu_model,
        memory_total_mb: request.info.memory_total_mb,
        disk_free_gb: request.info.disk_free_gb,
        docker_version: request.info.docker_version,
        tunnel_version: request.info.tunnel_version,
        service_addr,
    };
    let volunteer = VolunteerState {
        id,
        info,
        metrics: Metrics::idle(),
        enrolled_at: now,
        last_heartbeat: now,
        assigned_service: None,
        service_running: None,
        service_image: None,
    };
    let enrollment = Enrollment { volunteer, offer, port: request.tunnel_public_port, now };
    assert(enrollment_starts(
        before,
        state@,
        request,
        known_view,
        address,
        fresh,
        now@,
        enrollment@,
    ));
    enrollment
}

/// Starts to enroll a volunteer, given what is on record under its hostname. One that
/// is not known gets a random identifier.
pub fn enroll(
    state: &mut AppState,
    request: EnrollRequest,
    on_record: Option<KnownNode>,
    service_addr: String,
) -> (enrollment: Enrollment)
    ensures
        exists|known: Option<KnownNodeView>, fresh: u128, now: TimestampView|
            is_known_as(old(state)@, request.info@.hostname, maybe_known(on_record), known)
                && now.valid() && now.is_plain() && (fresh >> 76u128) & 0xf == 4 && (fresh
                >> 62u128) & 0x3 == 2 && #[trigger] enrollment_starts(
                old(state)@,
                final(state)@,
                request,
                known,
                service_addr@,
                fresh,
                now,
                enrollment@,
            ),
{
    let fresh: u128 = random_id();
    let now = Timestamp::now();
    enroll_with(state, request, on_record, service_addr, fresh, now)
}

/// The address at which the proxy finds a volunteer's service: the controller's own
/// end of the tunnel.
pub open spec fn local_tunnel_addr(port: u16) -> Seq<char> {
    addr_of("127.0.0.1"@, port)
}

impl Enrollment {
    /// Starts to give the volunteer its service, where there is one for it.
    pub fn assignment(&self) -> (assignment: Option<Assignment>)
        ensures
            match (assignment, self@.offer) {
                (Some(a), Some(offer)) => a@ == haproxy::assign::starting(
                    offer.service().name,
                    offer.service().domain,
                    local_tunnel_addr(self@.port),
                ),
                (None, None) => true,
                _ => false,
            },
    {
        let addr = tunnel_service_addr(None, "127.0.0.1", self.port);
        match &self.offer {
            Some(Offer::Prior(a)) => Some(
                assign_service(
                    a.service_name.as_str(),
                    a.domain.as_str(),
                    self.volunteer.id,
                    addr.as_str(),
                ),
            ),
            Some(Offer::Queued(p)) => Some(
                assign_service(
                    p.name.as_str(),
                    p.domain.as_str(),
                    self.volunteer.id,
                    addr.as_str(),
                ),
            ),
            None => None,
        }
    }
}

/// What is to be done with the written record of a volunteer's assignment.
#[derive(Debug, PartialEq, Eq, Structural)]
pub enum RecordChange {
    /// It stays as it is.
    Keep,
    /// The volunteer's assignment is written down.
    Store,
    /// It is struck out.
    Drop,
}

/// A volunteer that has enrolled.
pub struct Enrolled {
    /// The volunteer.
    pub volunteer: VolunteerState,
    /// What is to be done with the record of its assignment.
    pub record: RecordChange,
    /// How many volunteers there are now.
    pub active_count: usize,
    /// The answer to the volunteer.
    pub response: EnrollResponse,
}

/// The volunteer once it is clear whether it got the service.
pub open spec fn enrolled(enrollment: EnrollmentView, assigned: bool) -> VolunteerView {
    VolunteerView {
        assigned_service: if enrollment.offer is Some && assigned {
            Some(enrollment.offer->0.taken(enrollment.now))
        } else {
            None
        },
        ..enrollment.volunteer
    }
}

/// The queue once it is clear whether the volunteer got the service.
pub open spec fn queue_after(
    enrollment: EnrollmentView,
    assigned: bool,
    pending: Seq<PendingServiceView>,
) -> Seq<PendingServiceView> {
    if enrollment.offer is Some && !assigned {
        seq![enrollment.offer->0.declined(enrollment.now)] + pending
    } else {
        pending
    }
}

/// Ends an enrollment, given whether the service went to the volunteer. Where it
/// did not, it is the next one in the queue again.
pub fn finish_enrollment(state: &mut AppState, enrollment: Enrollment, assigned: bool) -> (done:
    Enrolled)
    ensures
        done.volunteer@ == enrolled(enrollment@, assigned),
        final(state)@ == (AppStateView {
            volunteers: old(state)@.volunteers.insert(
                enrollment@.volunteer.id,
                enrolled(enrollment@, assigned),
            ),
            pending: queue_after(enrollment@, assigned, old(state)@.pending),
        }),
        done.record == (match enrollment@.offer {
            Some(OfferView::Prior(_)) => if assigned {
                RecordChange::Store
            } else {
                RecordChange::Drop
            },
            Some(OfferView::Queued(_)) => if assigned {
                RecordChange::Store
            } else {
                RecordChange::Keep
            },
            None => RecordChange::Keep,
        }),
        done.active_count == final(state)@.volunteers.len(),
        done.response.volunteer_id@ == ids::hyphenated_of(enrollment@.volunteer.id),
        done.response.heartbeat_interval_seconds == HEARTBEAT_INTERVAL_SECS,
        payload_is(
            done.response.assignment,
            enrolled(enrollment@, assigned).assigned_service,
        ),
{
    let now = enrollment.now;
    let mut volunteer = enrollment.volunteer;
    let mut record = RecordChange::Keep;
    if let Some(offer) = enrollment.offer {
        if assigned {
            record = RecordChange::Store;
            volunteer.assigned_service = Some(
                match offer {
                    Offer::Prior(a) => a,
                    Offer::Queued(p) => p.assigned(now),
                },
            );
        } else {
            volunteer.assigned_service = None;
            let back = match offer {
                Offer::Prior(a) => {
                    record = RecordChange::Drop;
                    a.requeued(now)
                },
                Offer::Queued(p) => p,
            };
            state.requeue_service(back);
        }
    } else {
        volunteer.assigned_service = None;
    }
    state.insert_volunteer(volunteer.clone());
    let response = EnrollResponse {
        volunteer_id: hyphenated_text(volunteer.id),
        heartbeat_interval_seconds: HEARTBEAT_INTERVAL_SECS,
        assignment: payload_for(&volunteer.assigned_service),
    };
    Enrolled { volunteer, record, active_count: state.volunteer_count(), response }
}

impl Enrolled {
    /// The status code of the answer.
    pub fn status(&self) -> (code: u16)
        ensures
            code == 201,
    {
        201
    }

    /// Starts to put the volunteer among those that share the traffic.
    pub fn join(&self) -> (run: RuntimeRun)
        ensures
            run@ == haproxy::run::starting(
                haproxy::upsert_steps(
                    "volunteers"@,
                    ids::simple_of(self.volunteer.id),
                    self.volunteer.info.service_addr@,
                    MAX_WEIGHT,
                ),
            ),
    {
        haproxy::upsert_volunteer(
            "volunteers",
            self.volunteer.id,
            self.volunteer.info.service_addr.as_str(),
            MAX_WEIGHT,
        )
    }
}

// ── heartbeats ──────────────────────────────────────────────────────────────
/// The volunteer after a heartbeat. What the heartbeat leaves unsaid of the service
/// stays as it was.
pub open spec fn beaten(v: VolunteerView, beat: HeartbeatRequest, now: TimestampView) -> VolunteerView {
    VolunteerView {
        metrics: beat.metrics,
        last_heartbeat: now,
        service_running: if beat.service_running is Some {
            beat.service_running
        } else {
            v.service_running
        },
        service_image: if beat.service_image is Some {
            text::maybe(beat.service_image)
        } else {
            v.service_image
        },
        ..v
    }
}

/// A volunteer that has sent a heartbeat.
pub struct Beat {
    /// The volunteer, as it is now.
    pub volunteer: VolunteerState,
    /// Its weight now.
    pub weight: u32,
}

/// Takes in a heartbeat that came at an instant. The answer is `None` where the
/// volunteer is not known.
pub fn heartbeat_at(state: &mut AppState, beat: HeartbeatRequest, now: Timestamp) -> (known: Option<
    Beat,
>)
    ensures
        match known {
            Some(b) => {
                &&& old(state)@.volunteers.contains_key(beat.volunteer_id)
                &&& b.volunteer@ == beaten(
                    old(state)@.volunteers[beat.volunteer_id],
                    beat,
                    now@,
                )
                &&& b.weight == beat.metrics.weight_spec()
                &&& final(state)@ == (AppStateView {
                    volunteers: old(state)@.volunteers.insert(beat.volunteer_id, b.volunteer@),
                    pending: old(state)@.pending,
                })
            },
            None => !old(state)@.volunteers.contains_key(beat.volunteer_id) && final(state)@
                == old(state)@,
        },
{
    let weight: u32 = beat.metrics.weight();
    match state.volunteer(beat.volunteer_id) {
        None => None,
        Some(mut volunteer) => {
            volunteer.metrics = beat.metrics;
            volunteer.last_heartbeat = now;
            if beat.service_running.is_some() {
                volunteer.service_running = beat.service_running;
            }
            if beat.service_image.is_some() {
                volunteer.service_image = beat.service_image;
            }
            state.insert_volunteer(volunteer.clone());
            Some(Beat { volunteer, weight })
        },
    }
}

/// Takes in a heartbeat. The answer is `None` where the volunteer is not known.
pub fn heartbeat(state: &mut AppState, beat: HeartbeatRequest) -> (known: Option<Beat>)
    ensures
        match known {
            Some(b) => {
                &&& old(state)@.volunteers.contains_key(beat.volunteer_id)
                &&& exists|now: TimestampView|
                    now.valid() && now.is_plain() && b.volunteer@ == #[trigger] beaten(
                        old(state)@.volunteers[beat.volunteer_id],
                        beat,
                        now,
                    )
                &&& b.weight == beat.metrics.weight_spec()
                &&& final(state)@ == (AppStateView {
                    volunteers: old(state)@.volunteers.insert(beat.volunteer_id, b.volunteer@),
                    pending: old(state)@.pending,
                })
            },
            None => !old(state)@.volunteers.contains_key(beat.volunteer_id) && final(state)@
                == old(state)@,
        },
{
    let now = Timestamp::now();
    heartbeat_at(state, beat, now)
}

/// Builds the answer to a heartbeat: its status code, and what it says.
pub fn heartbeat_answer(known: &Option<Beat>) -> (answer: (
    u16,
    Result<HeartbeatResponse, ErrorResponse>,
))
    ensures
        match (known, answer.1) {
            (Some(b), Ok(r)) => {
                &&& answer.0 == 200
                &&& r.status@ == "ok"@
                &&& payload_is(r.assignment, b.volunteer@.assigned_service)
            },
            (None, Err(e)) => {
                &&& answer.0 == 404
                &&& e.error@ == "Volunteer not found"@
                &&& e.code@ == "VOLUNTEER_NOT_FOUND"@
            },
            _ => false,
        },
{
    match known {
        Some(beat) => (
            200,
            Ok(HeartbeatResponse { status: "ok".to_owned(), assignment: beat.assignment() }),
        ),
        None => (404, Err(unknown_volunteer())),
    }
}

impl Beat {
    /// What the volunteer is to run. It is told with every heartbeat, so that one
    /// that got its service after it enrolled hears of it.
    pub fn assignment(&self) -> (payload: Option<AssignmentPayload>)
        ensures
            payload_is(payload, self.volunteer@.assigned_service),
    {
        payload_for(&self.volunteer.assigned_service)
    }

    /// Starts to give the volunteer's server its weight.
    pub fn weigh(&self) -> (run: RuntimeRun)
        ensures
            run@ == haproxy::run::starting(
                seq![
                    haproxy::run::plain(
                        haproxy::runtime::weight_command(
                            "volunteers"@,
                            ids::simple_of(self.volunteer.id),
                            self.weight,
                        ),
                    ),
                ],
            ),
    {
        haproxy::set_weight("volunteers", self.volunteer.id, self.weight)
    }

    /// What to do where the weight could not be set. A proxy that was restarted has
    /// lost the volunteer's server, so it is added again; nothing helps against
    /// other errors.
    pub fn after_weighing_failed(&self, e: &haproxy::Error) -> (run: Option<RuntimeRun>)
        ensures
            match run {
                Some(r) => {
                    &&& text::has_part(e@.text(), "No such server"@)
                    &&& r@ == haproxy::run::starting(
                        haproxy::add_steps(
                            "volunteers"@,
                            ids::simple_of(self.volunteer.id),
                            self.volunteer.info.service_addr@,
                            self.weight,
                        ),
                    )
                },
                None => !text::has_part(e@.text(), "No such server"@),
            },
    {
        if contains(e.message().as_str(), "No such server") {
            Some(
                haproxy::add_volunteer(
                    "volunteers",
                    self.volunteer.id,
                    self.volunteer.info.service_addr.as_str(),
                    self.weight,
                ),
            )
        } else {
            None
        }
    }
}

/// Starts to take a volunteer out from among those that share the traffic.
pub fn leave(volunteer_id: u128) -> (run: RuntimeRun)
    ensures
        run@ == haproxy::run::starting(
            haproxy::remove_steps("volunteers"@, ids::simple_of(volunteer_id)),
        ),
{
    haproxy::remove_volunteer("volunteers", volunteer_id)
}

// ── leaving ─────────────────────────────────────────────────────────────────
/// What came of a volunteer's wish to leave.
pub enum Departure {
    /// Its identifier is none.
    InvalidId,
    /// It is not known.
    NotFound,
    /// It has left.
    Left {
        /// The volunteer.
        volunteer: VolunteerState,
        /// How many volunteers there are now.
        active_count: usize,
    },
}

/// Takes out a volunteer that wishes to leave.
pub fn disconnect(state: &mut AppState, id_text: &str) -> (departure: Departure)
    ensures
        match departure {
            Departure::InvalidId => ids::id_of(id_text@) is None && final(state)@ == old(state)@,
            Departure::NotFound => {
                &&& ids::id_of(id_text@) is Some
                &&& !old(state)@.volunteers.contains_key(ids::id_of(id_text@)->0)
                &&& final(state)@ == old(state)@
            },
            Departure::Left { volunteer, active_count } => {
                let id = ids::id_of(id_text@)->0;
                &&& ids::id_of(id_text@) is Some
                &&& old(state)@.volunteers.contains_key(id)
                &&& volunteer@ == old(state)@.volunteers[id]
                &&& active_count == final(state)@.volunteers.len()
                &&& final(state)@ == (AppStateView {
                    volunteers: old(state)@.volunteers.remove(id),
                    pending: old(state)@.pending,
                })
            },
        },
{
    let id: u128 = match parse_id(id_text) {
        Some(id) => id,
        None => return Departure::InvalidId,
    };
    let ghost before = state@;
    match state.remove_volunteer(id) {
        None => {
            assert(before.volunteers.remove(id) =~= before.volunteers);
            Departure::NotFound
        },
        Some(volunteer) => Departure::Left { volunteer, active_count: state.volunteer_count() },
    }
}

impl Departure {
    /// The status code of the answer.
    pub fn status(&self) -> (code: u16)
        ensures
            code == (match self {
                Departure::InvalidId => 400u16,
                Departure::NotFound => 404,
                Departure::Left { .. } => 200,
            }),
    {
        match self {
            Departure::InvalidId => 400,
            Departure::NotFound => 404,
            Departure::Left { .. } => 200,
        }
    }

    /// What a volunteer that has left is told.
    pub fn words(&self) -> (words: Option<String>)
        ensures
            match (self, words) {
                (Departure::Left { .. }, Some(w)) => w@ == "disconnected"@,
                (Departure::Left { .. }, None) => false,
                (_, w) => w is None,
            },
    {
        match self {
            Departure::Left { .. } => Some("disconnected".to_owned()),
            _ => None,
        }
    }

    /// The answer to a volunteer that could not leave.
    pub fn error(&self) -> (response: Option<ErrorResponse>)
        ensures
            match (self, response) {
                (Departure::InvalidId, Some(r)) => r.error@ == "Invalid UUID"@ && r.code@
                    == "INVALID_ID"@,
                (Departure::NotFound, Some(r)) => r.error@ == "Volunteer not found"@ && r.code@
                    == "VOLUNTEER_NOT_FOUND"@,
                (Departure::Left { .. }, None) => true,
                _ => false,
            },
    {
        match self {
            Departure::InvalidId => Some(err("Invalid UUID", "INVALID_ID")),
            Departure::NotFound => Some(unknown_volunteer()),
            Departure::Left { .. } => None,
        }
    }
}

/// The answer to a volunteer that is not known.
pub fn unknown_volunteer() -> (response: ErrorResponse)
    ensures
        response.error@ == "Volunteer not found"@,
        response.code@ == "VOLUNTEER_NOT_FOUND"@,
{
    err("Volunteer not found", "VOLUNTEER_NOT_FOUND")
}

/// The volunteers that are alive, the fittest first.
pub fn list_volunteers(state: &AppState) -> (list: Vec<VolunteerState>)
    ensures
        exists|now: TimestampView|
            now.valid() && now.is_plain() && #[trigger] state::is_ranking(
                state::volunteer_views(list@),
                state@,
                now,
            ),
{
    state.active_volunteers()
}

} // verus!
