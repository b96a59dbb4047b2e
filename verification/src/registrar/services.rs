//! Services that are registered: each goes to the fittest volunteer that has none,
//! or waits for one.
use crate::clock::{Timestamp, TimestampView};
use crate::haproxy;
use crate::haproxy::assign::{assign_service, Assignment};
use crate::haproxy::service_backend_name;
use crate::ids;
use crate::ids::hyphenated_text;
use crate::registrar::state;
use crate::registrar::state::{
    AppState, AppStateView, PendingService, PendingServiceView, ServiceAssignment,
    ServiceAssignmentView, ServiceView, VolunteerState, VolunteerView,
};
use crate::text;
use vstd::prelude::*;

verus! {

/// A service that someone wants to have run.
#[derive(Debug)]
pub struct RegisterServiceRequest {
    /// The name of the service.
    pub name: String,
    /// The domain that it is to answer to.
    pub domain: String,
    /// The image to run.
    pub image: String,
    /// The port that it listens on.
    pub port: u16,
}

/// The answer to the registration of a service.
#[derive(Debug)]
pub struct RegisterServiceResponse {
    /// The backend of the service.
    pub backend: String,
    /// The domain that it answers to.
    pub domain: String,
    /// The volunteer that runs it, where there is one.
    pub assigned_to: Option<String>,
}

impl View for RegisterServiceRequest {
    type V = ServiceView;

    open spec fn view(&self) -> ServiceView {
        ServiceView {
            name: self.name@,
            domain: self.domain@,
            image: self.image@,
            port: self.port,
        }
    }
}

/// Whether an answer is the one for a service that went to a volunteer, or to none.
pub open spec fn response_is(
    response: RegisterServiceResponse,
    service: ServiceView,
    volunteer: Option<u128>,
) -> bool {
    &&& response.backend@ == haproxy::service_backend(service.name)
    &&& response.domain@ == service.domain
    &&& match (response.assigned_to, volunteer) {
        (Some(id_text), Some(id)) => id_text@ == ids::hyphenated_of(id),
        (None, None) => true,
        _ => false,
    }
}

/// Whether a volunteer can take a service.
pub open spec fn is_free(v: VolunteerView, now: TimestampView) -> bool {
    v.alive_at(now) && v.assigned_service is None
}

/// Whether a volunteer is free and nobody free is fitter.
pub open spec fn is_fittest_free(v: VolunteerView, state: AppStateView, now: TimestampView) -> bool {
    &&& is_free(v, now)
    &&& forall|id: u128| #[trigger]
        state.volunteers.contains_key(id) && is_free(state.volunteers[id], now)
            ==> state.volunteers[id].weight() <= v.weight()
}

/// Whether no volunteer is free.
pub open spec fn none_is_free(state: AppStateView, now: TimestampView) -> bool {
    forall|id: u128| #[trigger]
        state.volunteers.contains_key(id) ==> !is_free(state.volunteers[id], now)
}

/// Finds the fittest volunteer that can take a service. Which of two that are
/// equally fit is found is left open.
pub fn best_free(state: &AppState, now: &Timestamp) -> (found: Option<VolunteerState>)
    ensures
        match found {
            Some(v) => {
                &&& state@.volunteers.contains_key(v.id)
                &&& v@ == state@.volunteers[v.id]
                &&& is_free(v@, now@)
                &&& forall|id: u128| #[trigger]
                    state@.volunteers.contains_key(id) && is_free(state@.volunteers[id], now@)
                        ==> state@.volunteers[id].weight() <= v@.weight()
            },
            None => forall|id: u128| #[trigger]
                state@.volunteers.contains_key(id) ==> !is_free(state@.volunteers[id], now@),
        },
        found matches Some(v) ==> is_fittest_free(v@, state@, now@),
        found is None ==> none_is_free(state@, now@),
{
    let active = state.active_volunteers_at(now);
    let ghost ranked = state::volunteer_views(active@);
    let mut i: usize = 0;
    while i < active.len()
        invariant
            i <= active@.len(),
            ranked == state::volunteer_views(active@),
            state::is_ranking(ranked, state@, now@),
            forall|j: int| 0 <= j < i ==> (#[trigger] ranked[j]).assigned_service is Some,
        decreases active@.len() - i,
    {
        assert(ranked[i as int] == active@[i as int]@);
        if active[i].assigned_service.is_none() {
            assert forall|id: u128| #[trigger]
                state@.volunteers.contains_key(id) && is_free(
                    state@.volunteers[id],
                    now@,
                ) implies state@.volunteers[id].weight() <= ranked[i as int].weight() by {
                assert(state::has_id(ranked, id));
                let k = choose|k: int| 0 <= k < ranked.len() && #[trigger] ranked[k].id == id;
                assert(ranked[k] == state@.volunteers[id]);
                if k < i {
                    assert(ranked[k].assigned_service is Some);
                } else if k > i {
                    assert(ranked[i as int].weight() >= ranked[k].weight());
                }
            }
            return Some(active[i].clone());
        }
        i = i + 1;
    }
    assert forall|id: u128| #[trigger] state@.volunteers.contains_key(id) implies !is_free(
        state@.volunteers[id],
        now@,
    ) by {
        if is_free(state@.volunteers[id], now@) {
            assert(state::has_id(ranked, id));
            let k = choose|k: int| 0 <= k < ranked.len() && #[trigger] ranked[k].id == id;
            assert(ranked[k] == state@.volunteers[id]);
        }
    }
    None
}

/// Where the proxy finds a volunteer's service: at the address that is on record.
pub fn tunnel_addr_for(service_addr: &str) -> (addr: String)
    ensures
        addr@ == service_addr@,
{
    service_addr.to_owned()
}

/// The answer to whoever registered a service.
#[derive(Debug)]
pub enum RegisterAnswer {
    /// The service was registered.
    Created(RegisterServiceResponse),
    /// It could not be given to the volunteer, for the reason that is told.
    Failed(String),
}

impl RegisterAnswer {
    /// The status code of the answer.
    pub fn status(&self) -> (code: u16)
        ensures
            code == (match self {
                RegisterAnswer::Created(_) => 201u16,
                RegisterAnswer::Failed(_) => 500,
            }),
    {
        match self {
            RegisterAnswer::Created(_) => 201,
            RegisterAnswer::Failed(_) => 500,
        }
    }
}

/// What becomes of a service that is registered.
pub enum Registration {
    /// It is to go to a volunteer.
    Assigning {
        /// The volunteer.
        volunteer_id: u128,
        /// How it gets there.
        assignment: Assignment,
    },
    /// It waits for a volunteer, and this is the answer.
    Queued(RegisterAnswer),
}

/// Registers a service at an instant: it is to go to the fittest volunteer that has
/// none, or to the end of the queue where each has one.
pub fn register_service_at(
    state: &mut AppState,
    request: &RegisterServiceRequest,
    now: Timestamp,
) -> (registration: Registration)
    ensures
        match registration {
            Registration::Assigning { volunteer_id, assignment } => {
                let v = old(state)@.volunteers[volunteer_id];
                &&& old(state)@.volunteers.contains_key(volunteer_id)
                &&& is_free(v, now@)
                &&& forall|id: u128| #[trigger]
                    old(state)@.volunteers.contains_key(id) && is_free(
                        old(state)@.volunteers[id],
                        now@,
                    ) ==> old(state)@.volunteers[id].weight() <= v.weight()
                &&& assignment@ == haproxy::assign::starting(
                    request@.name,
                    request@.domain,
                    v.info.service_addr,
                )
                &&& final(state)@ == old(state)@
            },
            Registration::Queued(answer) => {
                &&& forall|id: u128| #[trigger]
                    old(state)@.volunteers.contains_key(id) ==> !is_free(
                        old(state)@.volunteers[id],
                        now@,
                    )
                &&& answer is Created
                &&& response_is(answer->Created_0, request@, None)
                &&& final(state)@ == (AppStateView {
                    volunteers: old(state)@.volunteers,
                    pending: old(state)@.pending.push(
                        PendingServiceView { service: request@, registered_at: now@ },
                    ),
                })
            },
        },
        registration matches Registration::Assigning { volunteer_id, assignment }
            ==> is_fittest_free(old(state)@.volunteers[volunteer_id], old(state)@, now@),
        registration is Queued ==> none_is_free(old(state)@, now@),
{
    match best_free(state, &now) {
        Some(volunteer) => {
            let addr = tunnel_addr_for(volunteer.info.service_addr.as_str());
            let assignment = assign_service(
                request.name.as_str(),
                request.domain.as_str(),
                volunteer.id,
                addr.as_str(),
            );
            Registration::Assigning { volunteer_id: volunteer.id, assignment }
        },
        None => {
            state.queue_service(
                PendingService {
                    name: request.name.clone(),
                    domain: request.domain.clone(),
                    image: request.image.clone(),
                    service_port: request.port,
                    registered_at: now,
                },
            );
            Registration::Queued(RegisterAnswer::Created(response_for(request, None)))
        },
    }
}

/// Registers a service, as of the time that the clock shows.
pub fn register_service(state: &mut AppState, request: &RegisterServiceRequest) -> (registration:
    Registration)
    ensures
        match registration {
            Registration::Assigning { volunteer_id, assignment } => {
                let v = old(state)@.volunteers[volunteer_id];
                &&& old(state)@.volunteers.contains_key(volunteer_id)
                &&& v.assigned_service is None
                &&& assignment@ == haproxy::assign::starting(
                    request@.name,
                    request@.domain,
                    v.info.service_addr,
                )
                &&& final(state)@ == old(state)@
                &&& exists|now: TimestampView|
                    now.valid() && #[trigger] is_free(v, now) && forall|id: u128| #[trigger]
                        old(state)@.volunteers.contains_key(id) && is_free(
                            old(state)@.volunteers[id],
                            now,
                        ) ==> old(state)@.volunteers[id].weight() <= v.weight()
            },
            Registration::Queued(answer) => {
                &&& answer is Created
                &&& response_is(answer->Created_0, request@, None)
                &&& exists|now: TimestampView|
                    now.valid() && #[trigger] queued_at(
                        old(state)@,
                        final(state)@,
                        request@,
                        now,
                    )
            },
        },
{
    let now = Timestamp::now();
    let registration = register_service_at(state, request, now);
    assert(registration is Queued ==> queued_at(old(state)@, state@, request@, now@));
    registration
}

/// Whether a service went to the end of the queue because no volunteer was free.
pub open spec fn queued_at(
    before: AppStateView,
    after: AppStateView,
    service: ServiceView,
    now: TimestampView,
) -> bool {
    &&& forall|id: u128| #[trigger]
        before.volunteers.contains_key(id) ==> !is_free(before.volunteers[id], now)
    &&& after == (AppStateView {
        volunteers: before.volunteers,
        pending: before.pending.push(PendingServiceView { service, registered_at: now }),
    })
}

/// Builds the answer to the registration of a service.
fn response_for(request: &RegisterServiceRequest, volunteer: Option<u128>) -> (response:
    RegisterServiceResponse)
    ensures
        response_is(response, request@, volunteer),
{
    RegisterServiceResponse {
        backend: service_backend_name(request.name.as_str()),
        domain: request.domain.clone(),
        assigned_to: match volunteer {
            Some(id) => Some(hyphenated_text(id)),
            None => None,
        },
    }
}

/// The volunteers once one of them has got a service. A volunteer that left in the
/// meantime gets none.
pub open spec fn with_assignment(
    volunteers: Map<u128, VolunteerView>,
    id: u128,
    assignment: ServiceAssignmentView,
) -> Map<u128, VolunteerView> {
    if volunteers.contains_key(id) {
        volunteers.insert(
            id,
            VolunteerView { assigned_service: Some(assignment), ..volunteers[id] },
        )
    } else {
        volunteers
    }
}

/// A service that has gone to a volunteer.
pub struct Registered {
    /// The assignment, to be written down.
    pub assignment: ServiceAssignment,
    /// The answer to whoever registered the service.
    pub response: RegisterServiceResponse,
}

/// Ends the registration of a service that went to a volunteer.
pub fn finish_registration(
    state: &mut AppState,
    request: &RegisterServiceRequest,
    volunteer_id: u128,
    now: Timestamp,
) -> (done: Registered)
    ensures
        done.assignment@ == (ServiceAssignmentView { service: request@, assigned_at: now@ }),
        response_is(done.response, request@, Some(volunteer_id)),
        final(state)@ == (AppStateView {
            volunteers: with_assignment(
                old(state)@.volunteers,
                volunteer_id,
                done.assignment@,
            ),
            pending: old(state)@.pending,
        }),
{
    let assignment = ServiceAssignment {
        service_name: request.name.clone(),
        domain: request.domain.clone(),
        image: request.image.clone(),
        service_port: request.port,
        assigned_at: now,
    };
    if let Some(mut volunteer) = state.volunteer(volunteer_id) {
        volunteer.assigned_service = Some(assignment.clone());
        state.insert_volunteer(volunteer);
    }
    Registered { assignment, response: response_for(request, Some(volunteer_id)) }
}

/// Ends the registration of a service, given whether it went to the volunteer. Where it
/// did, the assignment is to be written down. Where it did not, nothing changes, and the
/// answer says why.
pub fn settle_registration(
    state: &mut AppState,
    request: &RegisterServiceRequest,
    volunteer_id: u128,
    outcome: Result<(), haproxy::Error>,
    now: Timestamp,
) -> (settled: (Option<ServiceAssignment>, RegisterAnswer))
    ensures
        match outcome {
            Ok(_) => {
                let assignment = ServiceAssignmentView { service: request@, assigned_at: now@ };
                &&& settled.0 is Some
                &&& settled.0->0@ == assignment
                &&& settled.1 matches RegisterAnswer::Created(response)
                &&& response_is(response, request@, Some(volunteer_id))
                &&& final(state)@ == (AppStateView {
                    volunteers: with_assignment(old(state)@.volunteers, volunteer_id, assignment),
                    pending: old(state)@.pending,
                })
            },
            Err(e) => {
                &&& settled.0 is None
                &&& settled.1 matches RegisterAnswer::Failed(words)
                &&& words@ == e@.text()
                &&& final(state)@ == old(state)@
            },
        },
{
    match outcome {
        Ok(_) => {
            let done = finish_registration(state, request, volunteer_id, now);
            (Some(done.assignment), RegisterAnswer::Created(done.response))
        },
        Err(e) => (None, RegisterAnswer::Failed(e.message())),
    }
}

/// Answers who asks for the services: with the status code, and the names of their
/// backends in the configuration, or why it could not be read.
pub fn list_services(content: Result<String, haproxy::config::ConfigError>) -> (answer: (
    u16,
    Result<Vec<String>, String>,
))
    ensures
        match (content, answer.1) {
            (Ok(c), Ok(names)) => answer.0 == 200 && text::texts(names@)
                == haproxy::config::backends_of(c@),
            (Err(e), Err(words)) => answer.0 == 500 && words@ == haproxy::ErrorView::Config(
                e@,
            ).text(),
            _ => false,
        },
{
    match haproxy::list_services(content) {
        Ok(names) => (200, Ok(names)),
        Err(e) => (500, Err(e.message())),
    }
}

} // verus!
