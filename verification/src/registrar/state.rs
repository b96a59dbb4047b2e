//! What the registrar knows: its volunteers and the services that wait for one.
use crate::clock::{Timestamp, TimestampView};
use crate::text;
use std::collections::{HashMap, VecDeque};
use vstd::prelude::*;

verus! {

broadcast use vstd::std_specs::hash::group_hash_axioms;

/// A volunteer is taken for dead after three missed heartbeats.
pub const HEARTBEAT_TIMEOUT_SECS: i64 = 45;

/// How often a volunteer is to send a heartbeat.
pub const HEARTBEAT_INTERVAL_SECS: u64 = 15;

/// The weight of a volunteer with nothing to do.
pub const MAX_WEIGHT: u32 = 100;

/// The weight of a volunteer that is overloaded.
pub const MIN_WEIGHT: u32 = 1;

/// How many requests at most count against a volunteer.
pub const MAX_PRESSURE: u32 = 20;

// ── volunteers ──────────────────────────────────────────────────────────────
/// What a volunteer says of itself when it enrolls.
#[derive(Debug)]
pub struct HandshakeInfo {
    /// The name by which a volunteer is known again.
    pub hostname: String,
    /// Its operating system.
    pub os: String,
    /// Its processor architecture.
    pub arch: String,
    /// How many processor cores it has.
    pub cpu_cores: u32,
    /// Its processor model.
    pub cpu_model: String,
    /// Its memory in megabytes.
    pub memory_total_mb: u64,
    /// Its free disk space in gigabytes.
    pub disk_free_gb: u64,
    /// Its version of Docker.
    pub docker_version: String,
    /// Its version of the tunnel client.
    pub tunnel_version: String,
    /// Where its service is reached through the tunnel.
    pub service_addr: String,
}

/// The value of a [`HandshakeInfo`].
pub struct HandshakeView {
    /// See [`HandshakeInfo::hostname`].
    pub hostname: Seq<char>,
    /// See [`HandshakeInfo::os`].
    pub os: Seq<char>,
    /// See [`HandshakeInfo::arch`].
    pub arch: Seq<char>,
    /// See [`HandshakeInfo::cpu_cores`].
    pub cpu_cores: u32,
    /// See [`HandshakeInfo::cpu_model`].
    pub cpu_model: Seq<char>,
    /// See [`HandshakeInfo::memory_total_mb`].
    pub memory_total_mb: u64,
    /// See [`HandshakeInfo::disk_free_gb`].
    pub disk_free_gb: u64,
    /// See [`HandshakeInfo::docker_version`].
    pub docker_version: Seq<char>,
    /// See [`HandshakeInfo::tunnel_version`].
    pub tunnel_version: Seq<char>,
    /// See [`HandshakeInfo::service_addr`].
    pub service_addr: Seq<char>,
}

impl View for HandshakeInfo {
    type V = HandshakeView;

    open spec fn view(&self) -> HandshakeView {
        HandshakeView {
            hostname: self.hostname@,
            os: self.os@,
            arch: self.arch@,
            cpu_cores: self.cpu_cores,
            cpu_model: self.cpu_model@,
            memory_total_mb: self.memory_total_mb,
            disk_free_gb: self.disk_free_gb,
            docker_version: self.docker_version@,
            tunnel_version: self.tunnel_version@,
            service_addr: self.service_addr@,
        }
    }
}

impl Clone for HandshakeInfo {
    fn clone(&self) -> (copy: HandshakeInfo)
        ensures
            copy@ == self@,
    {
        HandshakeInfo {
            hostname: self.hostname.clone(),
            os: self.os.clone(),
            arch: self.arch.clone(),
            cpu_cores: self.cpu_cores,
            cpu_model: self.cpu_model.clone(),
            memory_total_mb: self.memory_total_mb,
            disk_free_gb: self.disk_free_gb,
            docker_version: self.docker_version.clone(),
            tunnel_version: self.tunnel_version.clone(),
            service_addr: self.service_addr.clone(),
        }
    }
}

/// How busy a volunteer is, as of its last heartbeat. The fractions are held as the
/// bits of 32-bit floating-point numbers.
#[derive(Clone, Copy, Debug, PartialEq, Eq, Structural)]
pub struct Metrics {
    /// The bits of the processor load in percent.
    pub cpu_pct: u32,
    /// The bits of the memory in use in percent.
    pub mem_pct: u32,
    /// The bits of the load average.
    pub load_avg: u32,
    /// How many requests it is serving.
    pub active_requests: u32,
    /// A hundred less half the processor load, three tenths of the memory in use
    /// and the request pressure, rounded toward zero.
    pub score: i64,
}

/// How much the requests that a volunteer is serving count against it.
pub fn request_pressure(active_requests: u32) -> (pressure: u32)
    ensures
        pressure == if active_requests < MAX_PRESSURE {
            active_requests
        } else {
            MAX_PRESSURE
        },
{
    if active_requests < MAX_PRESSURE {
        active_requests
    } else {
        MAX_PRESSURE
    }
}

impl Metrics {
    /// The weight of a volunteer: its score, but no less than [`MIN_WEIGHT`] and no
    /// more than [`MAX_WEIGHT`].
    pub open spec fn weight_spec(self) -> u32 {
        if self.score < MIN_WEIGHT {
            MIN_WEIGHT
        } else if self.score > MAX_WEIGHT {
            MAX_WEIGHT
        } else {
            self.score as u32
        }
    }

    /// The weight of a volunteer: the higher, the more it can take.
    pub fn weight(&self) -> (weight: u32)
        ensures
            weight == self.weight_spec(),
            MIN_WEIGHT <= weight <= MAX_WEIGHT,
    {
        if self.score < MIN_WEIGHT as i64 {
            MIN_WEIGHT
        } else if self.score > MAX_WEIGHT as i64 {
            MAX_WEIGHT
        } else {
            self.score as u32
        }
    }

    /// The metrics of a volunteer that has not sent any yet.
    pub fn idle() -> (metrics: Metrics)
        ensures
            metrics == idle_metrics(),
    {
        Metrics { cpu_pct: 0, mem_pct: 0, load_avg: 0, active_requests: 0, score: 100 }
    }
}

/// The metrics of a volunteer that has not sent any yet.
pub open spec fn idle_metrics() -> Metrics {
    Metrics { cpu_pct: 0, mem_pct: 0, load_avg: 0, active_requests: 0, score: 100 }
}

/// A service that runs on a volunteer.
#[derive(Debug)]
pub struct ServiceAssignment {
    /// The name of the service.
    pub service_name: String,
    /// The domain that it answers to.
    pub domain: String,
    /// The image that is run.
    pub image: String,
    /// The port that it listens on.
    pub service_port: u16,
    /// When it was assigned.
    pub assigned_at: Timestamp,
}

/// The value of a [`ServiceAssignment`].
pub struct ServiceAssignmentView {
    /// What is run.
    pub service: ServiceView,
    /// When it was assigned.
    pub assigned_at: TimestampView,
}

/// What is run for a service, apart from where and since when.
pub struct ServiceView {
    /// The name of the service.
    pub name: Seq<char>,
    /// The domain that it answers to.
    pub domain: Seq<char>,
    /// The image that is run.
    pub image: Seq<char>,
    /// The port that it listens on.
    pub port: u16,
}

impl View for ServiceAssignment {
    type V = ServiceAssignmentView;

    open spec fn view(&self) -> ServiceAssignmentView {
        ServiceAssignmentView {
            service: ServiceView {
                name: self.service_name@,
                domain: self.domain@,
                image: self.image@,
                port: self.service_port,
            },
            assigned_at: self.assigned_at@,
        }
    }
}

impl Clone for ServiceAssignment {
    fn clone(&self) -> (copy: ServiceAssignment)
        ensures
            copy@ == self@,
    {
        ServiceAssignment {
            service_name: self.service_name.clone(),
            domain: self.domain.clone(),
            image: self.image.clone(),
            service_port: self.service_port,
            assigned_at: self.assigned_at,
        }
    }
}

/// A service that waits for a volunteer.
#[derive(Debug)]
pub struct PendingService {
    /// The name of the service.
    pub name: String,
    /// The domain that it answers to.
    pub domain: String,
    /// The image that is run.
    pub image: String,
    /// The port that it listens on.
    pub service_port: u16,
    /// Since when it has waited.
    pub registered_at: Timestamp,
}

/// The value of a [`PendingService`].
pub struct PendingServiceView {
    /// What is to be run.
    pub service: ServiceView,
    /// Since when it has waited.
    pub registered_at: TimestampView,
}

impl View for PendingService {
    type V = PendingServiceView;

    open spec fn view(&self) -> PendingServiceView {
        PendingServiceView {
            service: ServiceView {
                name: self.name@,
                domain: self.domain@,
                image: self.image@,
                port: self.service_port,
            },
            registered_at: self.registered_at@,
        }
    }
}

impl Clone for PendingService {
    fn clone(&self) -> (copy: PendingService)
        ensures
            copy@ == self@,
    {
        PendingService {
            name: self.name.clone(),
            domain: self.domain.clone(),
            image: self.image.clone(),
            service_port: self.service_port,
            registered_at: self.registered_at,
        }
    }
}

impl PendingService {
    /// The service, once it runs on a volunteer.
    pub fn assigned(&self, now: Timestamp) -> (assignment: ServiceAssignment)
        ensures
            assignment@ == (ServiceAssignmentView { service: self@.service, assigned_at: now@ }),
    {
        ServiceAssignment {
            service_name: self.name.clone(),
            domain: self.domain.clone(),
            image: self.image.clone(),
            service_port: self.service_port,
            assigned_at: now,
        }
    }
}

impl ServiceAssignment {
    /// The service, once it has lost its volunteer.
    pub fn requeued(&self, now: Timestamp) -> (pending: PendingService)
        ensures
            pending@ == (PendingServiceView { service: self@.service, registered_at: now@ }),
    {
        PendingService {
            name: self.service_name.clone(),
            domain: self.domain.clone(),
            image: self.image.clone(),
            service_port: self.service_port,
            registered_at: now,
        }
    }
}

/// A volunteer.
#[derive(Debug)]
pub struct VolunteerState {
    /// Its identifier.
    pub id: u128,
    /// What it said of itself when it enrolled.
    pub info: HandshakeInfo,
    /// How busy it is.
    pub metrics: Metrics,
    /// When it enrolled.
    pub enrolled_at: Timestamp,
    /// When it sent its last heartbeat.
    pub last_heartbeat: Timestamp,
    /// The service that it runs.
    pub assigned_service: Option<ServiceAssignment>,
    /// Whether it says that its service is up.
    pub service_running: Option<bool>,
    /// The image that it says it runs.
    pub service_image: Option<String>,
}

/// The value of a [`VolunteerState`].
pub struct VolunteerView {
    /// See [`VolunteerState::id`].
    pub id: u128,
    /// See [`VolunteerState::info`].
    pub info: HandshakeView,
    /// See [`VolunteerState::metrics`].
    pub metrics: Metrics,
    /// See [`VolunteerState::enrolled_at`].
    pub enrolled_at: TimestampView,
    /// See [`VolunteerState::last_heartbeat`].
    pub last_heartbeat: TimestampView,
    /// See [`VolunteerState::assigned_service`].
    pub assigned_service: Option<ServiceAssignmentView>,
    /// See [`VolunteerState::service_running`].
    pub service_running: Option<bool>,
    /// See [`VolunteerState::service_image`].
    pub service_image: Option<Seq<char>>,
}

/// The value of an assignment, where there is one.
pub open spec fn maybe_assignment(a: Option<ServiceAssignment>) -> Option<ServiceAssignmentView> {
    match a {
        Some(x) => Some(x@),
        None => None,
    }
}

impl View for VolunteerState {
    type V = VolunteerView;

    open spec fn view(&self) -> VolunteerView {
        VolunteerView {
            id: self.id,
            info: self.info@,
            metrics: self.metrics,
            enrolled_at: self.enrolled_at@,
            last_heartbeat: self.last_heartbeat@,
            assigned_service: maybe_assignment(self.assigned_service),
            service_running: self.service_running,
            service_image: text::maybe(self.service_image),
        }
    }
}

/// Copies an assignment, where there is one.
pub fn copy_assignment(a: &Option<ServiceAssignment>) -> (copy: Option<ServiceAssignment>)
    ensures
        maybe_assignment(copy) == maybe_assignment(*a),
{
    match a {
        Some(x) => Some(x.clone()),
        None => None,
    }
}

impl Clone for VolunteerState {
    fn clone(&self) -> (copy: VolunteerState)
        ensures
            copy@ == self@,
    {
        VolunteerState {
            id: self.id,
            info: self.info.clone(),
            metrics: self.metrics,
            enrolled_at: self.enrolled_at,
            last_heartbeat: self.last_heartbeat,
            assigned_service: copy_assignment(&self.assigned_service),
            service_running: self.service_running,
            service_image: match &self.service_image {
                Some(image) => Some(image.clone()),
                None => None,
            },
        }
    }
}

impl VolunteerView {
    /// Whether the volunteer has sent a heartbeat lately enough.
    pub open spec fn alive_at(self, now: TimestampView) -> bool {
        now.since(self.last_heartbeat) < HEARTBEAT_TIMEOUT_SECS
    }

    /// The weight of the volunteer.
    pub open spec fn weight(self) -> u32 {
        self.metrics.weight_spec()
    }
}

impl VolunteerState {
    /// Whether the volunteer has sent a heartbeat lately enough, as of an instant.
    pub fn is_alive_at(&self, now: &Timestamp) -> (alive: bool)
        ensures
            alive == self@.alive_at(now@),
    {
        now.seconds_since(&self.last_heartbeat) < HEARTBEAT_TIMEOUT_SECS
    }

    /// Whether the volunteer has sent a heartbeat lately enough.
    pub fn is_alive(&self) -> (alive: bool)
        ensures
            exists|now: TimestampView|
                now.valid() && now.is_plain() && alive == #[trigger] self@.alive_at(now),
    {
        let now = Timestamp::now();
        self.is_alive_at(&now)
    }
}

// ── the whole ───────────────────────────────────────────────────────────────
/// The volunteers and the services that wait for one.
pub struct AppState {
    volunteers: HashMap<u128, VolunteerState>,
    pending_services: VecDeque<PendingService>,
}

/// The value of an [`AppState`].
#[verifier::ext_equal]
pub struct AppStateView {
    /// The volunteers, by their identifiers.
    pub volunteers: Map<u128, VolunteerView>,
    /// The services that wait for a volunteer, the next one first.
    pub pending: Seq<PendingServiceView>,
}

/// The values of a list of volunteers.
pub open spec fn volunteer_views(list: Seq<VolunteerState>) -> Seq<VolunteerView> {
    Seq::new(list.len(), |i: int| list[i]@)
}

impl View for AppState {
    type V = AppStateView;

    closed spec fn view(&self) -> AppStateView {
        AppStateView {
            volunteers: self.volunteers@.map_values(|v: VolunteerState| v@),
            pending: Seq::new(
                self.pending_services@.len(),
                |i: int| self.pending_services@[i]@,
            ),
        }
    }
}

/// Whether a list has a volunteer with an identifier.
pub open spec fn has_id(list: Seq<VolunteerView>, id: u128) -> bool {
    exists|i: int| 0 <= i < list.len() && #[trigger] list[i].id == id
}

/// Whether a list holds the volunteers that are alive, each once, the fittest first.
pub open spec fn is_ranking(
    list: Seq<VolunteerView>,
    state: AppStateView,
    now: TimestampView,
) -> bool {
    &&& forall|i: int, j: int| 0 <= i < j < list.len() ==> list[i].id != list[j].id
    &&& forall|i: int, j: int| 0 <= i < j < list.len() ==> list[i].weight() >= list[j].weight()
    &&& forall|i: int|
        0 <= i < list.len() ==> {
            let v = #[trigger] list[i];
            state.volunteers.contains_key(v.id) && state.volunteers[v.id] == v && v.alive_at(now)
        }
    &&& forall|id: u128| #[trigger]
        state.volunteers.contains_key(id) && state.volunteers[id].alive_at(now) ==> has_id(list, id)
}

impl AppStateView {
    /// Whether each volunteer is filed under its own identifier.
    pub open spec fn well_formed(self) -> bool {
        forall|id: u128| #[trigger]
            self.volunteers.contains_key(id) ==> self.volunteers[id].id == id
    }
}

impl AppState {
    #[verifier::type_invariant]
    spec fn well_formed(self) -> bool {
        self@.well_formed()
    }

    /// A registrar that knows nobody.
    pub fn new() -> (state: AppState)
        ensures
            state@ == (AppStateView { volunteers: Map::empty(), pending: Seq::empty() }),
    {
        let state = AppState { volunteers: HashMap::new(), pending_services: VecDeque::new() };
        assert(state@ =~= (AppStateView { volunteers: Map::empty(), pending: Seq::empty() }));
        state
    }

    /// How many volunteers there are.
    pub fn volunteer_count(&self) -> (count: usize)
        ensures
            count == self@.volunteers.len(),
    {
        proof {
            assert(self@.volunteers.dom() =~= self.volunteers@.dom());
        }
        self.volunteers.len()
    }

    /// How many services wait for a volunteer.
    pub fn pending_count(&self) -> (count: usize)
        ensures
            count == self@.pending.len(),
    {
        self.pending_services.len()
    }

    /// The identifiers of all volunteers, in no particular order.
    fn ids(&self) -> (ids: Vec<u128>)
        ensures
            ids@.no_duplicates(),
            ids@.to_set() == self.volunteers@.dom(),
    {
        let mut ids: Vec<u128> = Vec::new();
        let keys = self.volunteers.keys();
        let ghost all = vstd::std_specs::iter::IteratorSpec::remaining(&keys).unref();
        assert(all.to_set() == self.volunteers@.dom());
        for id in it: keys
            invariant
                it.seq().unref() == all,
                it.seq().no_duplicates(),
                ids@ == all.take(it.index() as int),
        {
            ids.push(*id);
        }
        assert(ids@ =~= all);
        ids
    }

    /// Finds a volunteer.
    pub fn volunteer(&self, id: u128) -> (found: Option<VolunteerState>)
        ensures
            match found {
                Some(v) => {
                    &&& self@.volunteers.contains_key(id)
                    &&& v@ == self@.volunteers[id]
                    &&& v.id == id
                },
                None => !self@.volunteers.contains_key(id),
            },
    {
        proof {
            use_type_invariant(self);
        }
        match self.volunteers.get(&id) {
            Some(v) => Some(v.clone()),
            None => None,
        }
    }

    /// All volunteers, in no particular order.
    pub fn all_volunteers(&self) -> (list: Vec<VolunteerState>)
        ensures
            forall|i: int, j: int|
                0 <= i < j < list@.len() ==> volunteer_views(list@)[i].id != volunteer_views(
                    list@,
                )[j].id,
            forall|i: int|
                0 <= i < list@.len() ==> self@.volunteers.contains_key(
                    (#[trigger] volunteer_views(list@)[i]).id,
                ) && self@.volunteers[volunteer_views(list@)[i].id] == volunteer_views(list@)[i],
            forall|id: u128| #[trigger]
                self@.volunteers.contains_key(id) ==> has_id(volunteer_views(list@), id),
    {
        proof {
            use_type_invariant(self);
        }
        let ids = self.ids();
        let mut list: Vec<VolunteerState> = Vec::new();
        let mut k: usize = 0;
        while k < ids.len()
            invariant
                self@.well_formed(),
                k <= ids@.len(),
                ids@.no_duplicates(),
                ids@.to_set() == self.volunteers@.dom(),
                list@.len() == k,
                forall|i: int|
                    0 <= i < k ==> (#[trigger] list@[i])@ == self@.volunteers[ids@[i]]
                        && self@.volunteers.contains_key(ids@[i]),
            decreases ids@.len() - k,
        {
            let id: u128 = ids[k];
            assert(ids@.to_set().contains(id));
            if let Some(v) = self.volunteer(id) {
                list.push(v);
            }
            k = k + 1;
        }
        let ghost views = volunteer_views(list@);
        assert forall|i: int| 0 <= i < list@.len() implies (#[trigger] views[i]).id == ids@[i]
            && views[i] == self@.volunteers[ids@[i]] && self@.volunteers.contains_key(ids@[i]) by {
            assert(views[i] == list@[i]@);
        }
        assert forall|id: u128| #[trigger] self@.volunteers.contains_key(id) implies has_id(
            views,
            id,
        ) by {
            assert(ids@.to_set().contains(id));
            let i = choose|i: int| 0 <= i < ids@.len() && ids@[i] == id;
            assert(views[i].id == id);
        }
        list
    }

    /// Finds a volunteer by its hostname. Which of two with the same hostname is
    /// found is left open.
    pub fn find_by_hostname(&self, hostname: &str) -> (found: Option<VolunteerState>)
        ensures
            match found {
                Some(v) => {
                    &&& self@.volunteers.contains_key(v.id)
                    &&& v@ == self@.volunteers[v.id]
                    &&& v@.info.hostname == hostname@
                },
                None => forall|id: u128| #[trigger]
                    self@.volunteers.contains_key(id) ==> self@.volunteers[id].info.hostname
                        != hostname@,
            },
    {
        proof {
            use_type_invariant(self);
        }
        let ids = self.ids();
        let mut k: usize = 0;
        while k < ids.len()
            invariant
                self@.well_formed(),
                k <= ids@.len(),
                ids@.to_set() == self.volunteers@.dom(),
                forall|j: int|
                    0 <= j < k ==> self@.volunteers[#[trigger] ids@[j]].info.hostname != hostname@,
            decreases ids@.len() - k,
        {
            let id: u128 = ids[k];
            assert(ids@.to_set().contains(id));
            if let Some(v) = self.volunteer(id) {
                if text::same_text(v.info.hostname.as_str(), hostname) {
                    return Some(v);
                }
            }
            k = k + 1;
        }
        assert forall|id: u128| #[trigger] self@.volunteers.contains_key(id) implies
            self@.volunteers[id].info.hostname != hostname@ by {
            assert(ids@.to_set().contains(id));
            assert(ids@.contains(id));
        }
        None
    }

    /// Files a volunteer under its identifier.
    pub fn insert_volunteer(&mut self, volunteer: VolunteerState)
        ensures
            final(self)@ == (AppStateView {
                volunteers: old(self)@.volunteers.insert(volunteer.id, volunteer@),
                pending: old(self)@.pending,
            }),
    {
        let ghost was = self@;
        let id: u128 = volunteer.id;
        let ghost value = volunteer@;
        proof {
            use_type_invariant(&*self);
        }
        let mut volunteers: HashMap<u128, VolunteerState> = HashMap::new();
        std::mem::swap(&mut volunteers, &mut self.volunteers);
        volunteers.insert(id, volunteer);
        assert(volunteers@.map_values(|v: VolunteerState| v@) =~= was.volunteers.insert(id, value));
        self.volunteers = volunteers;
        assert(self@.volunteers =~= was.volunteers.insert(id, value));
        assert(self@.pending =~= was.pending);
    }

    /// Takes a volunteer out.
    pub fn remove_volunteer(&mut self, id: u128) -> (removed: Option<VolunteerState>)
        ensures
            final(self)@ == (AppStateView {
                volunteers: old(self)@.volunteers.remove(id),
                pending: old(self)@.pending,
            }),
            match removed {
                Some(v) => old(self)@.volunteers.contains_key(id) && v@
                    == old(self)@.volunteers[id],
                None => !old(self)@.volunteers.contains_key(id),
            },
    {
        let ghost was = self@;
        proof {
            use_type_invariant(&*self);
        }
        let mut volunteers: HashMap<u128, VolunteerState> = HashMap::new();
        std::mem::swap(&mut volunteers, &mut self.volunteers);
        let removed = volunteers.remove(&id);
        assert(volunteers@.map_values(|v: VolunteerState| v@) =~= was.volunteers.remove(id));
        self.volunteers = volunteers;
        assert(self@.volunteers =~= was.volunteers.remove(id));
        assert(self@.pending =~= was.pending);
        removed
    }

    /// Puts a service at the end of the queue.
    pub fn queue_service(&mut self, service: PendingService)
        ensures
            final(self)@ == (AppStateView {
                volunteers: old(self)@.volunteers,
                pending: old(self)@.pending.push(service@),
            }),
    {
        let ghost was = self@;
        let ghost value = service@;
        proof {
            use_type_invariant(&*self);
        }
        let mut queue: VecDeque<PendingService> = VecDeque::new();
        std::mem::swap(&mut queue, &mut self.pending_services);
        queue.push_back(service);
        self.pending_services = queue;
        assert(self@.pending =~= was.pending.push(value));
        assert(self@.volunteers =~= was.volunteers);
    }

    /// Puts a service at the front of the queue.
    pub fn requeue_service(&mut self, service: PendingService)
        ensures
            final(self)@ == (AppStateView {
                volunteers: old(self)@.volunteers,
                pending: seq![service@] + old(self)@.pending,
            }),
    {
        let ghost was = self@;
        let ghost value = service@;
        proof {
            use_type_invariant(&*self);
        }
        let mut queue: VecDeque<PendingService> = VecDeque::new();
        std::mem::swap(&mut queue, &mut self.pending_services);
        queue.push_front(service);
        self.pending_services = queue;
        assert(self@.pending =~= seq![value] + was.pending);
        assert(self@.volunteers =~= was.volunteers);
    }

    /// Takes the next service out of the queue.
    pub fn next_service(&mut self) -> (service: Option<PendingService>)
        ensures
            match service {
                Some(s) => {
                    &&& old(self)@.pending.len() > 0
                    &&& s@ == old(self)@.pending[0]
                    &&& final(self)@ == (AppStateView {
                        volunteers: old(self)@.volunteers,
                        pending: old(self)@.pending.drop_first(),
                    })
                },
                None => old(self)@.pending.len() == 0 && final(self)@ == old(self)@,
            },
    {
        let ghost was = self@;
        proof {
            use_type_invariant(&*self);
        }
        let mut queue: VecDeque<PendingService> = VecDeque::new();
        std::mem::swap(&mut queue, &mut self.pending_services);
        let service = queue.pop_front();
        self.pending_services = queue;
        if service.is_some() {
            assert(self@.pending =~= was.pending.drop_first());
        } else {
            assert(self@.pending =~= was.pending);
        }
        assert(self@.volunteers =~= was.volunteers);
        service
    }

    /// Where a volunteer goes in a list that has the fittest first: behind all that
    /// are no less fit.
    fn rank(list: &Vec<VolunteerState>, weight: u32) -> (at: usize)
        ensures
            at <= list@.len(),
            forall|i: int| 0 <= i < at ==> (#[trigger] list@[i])@.weight() >= weight,
            at < list@.len() ==> list@[at as int]@.weight() < weight,
    {
        let mut at: usize = 0;
        while at < list.len()
            invariant
                at <= list@.len(),
                forall|i: int| 0 <= i < at ==> (#[trigger] list@[i])@.weight() >= weight,
            decreases list@.len() - at,
        {
            if list[at].metrics.weight() < weight {
                return at;
            }
            at = at + 1;
        }
        at
    }

    /// The volunteers that are alive as of an instant, the fittest first. Which of
    /// two that are equally fit comes first is left open.
    pub fn active_volunteers_at(&self, now: &Timestamp) -> (list: Vec<VolunteerState>)
        ensures
            is_ranking(volunteer_views(list@), self@, now@),
    {
        proof {
            use_type_invariant(self);
        }
        let ids = self.ids();
        let mut list: Vec<VolunteerState> = Vec::new();
        let mut k: usize = 0;
        while k < ids.len()
            invariant
                self@.well_formed(),
                k <= ids@.len(),
                ids@.no_duplicates(),
                ids@.to_set() == self.volunteers@.dom(),
                ranks(volunteer_views(list@), self@, now@, ids@.take(k as int)),
            decreases ids@.len() - k,
        {
            let id: u128 = ids[k];
            assert(ids@.to_set().contains(id));
            let ghost before = volunteer_views(list@);
            let ghost seen = ids@.take(k as int);
            assert(ids@.take(k + 1) =~= seen.push(id));
            assert(!seen.contains(id));
            if let Some(v) = self.volunteer(id) {
                if v.is_alive_at(now) {
                    let at: usize = Self::rank(&list, v.metrics.weight());
                    let ghost value = v@;
                    assert forall|i: int| 0 <= i < at implies (#[trigger] before[i]).weight()
                        >= value.weight() by {
                        assert(list@[i]@.weight() >= value.weight());
                    }
                    list.insert(at, v);
                    assert(volunteer_views(list@) =~= before.insert(at as int, value));
                    proof {
                        lemma_ranked(before, self@, now@, seen, id, at as int);
                    }
                } else {
                    proof {
                        lemma_not_ranked(before, self@, now@, seen, id);
                    }
                }
            }
            k = k + 1;
        }
        proof {
            assert(ids@.take(k as int) =~= ids@);
            let ranked = volunteer_views(list@);
            assert forall|id: u128| #[trigger]
                self@.volunteers.contains_key(id) && self@.volunteers[id].alive_at(
                    now@,
                ) implies has_id(ranked, id) by {
                assert(ids@.to_set().contains(id));
                assert(ids@.contains(id));
            }
        }
        list
    }

    /// The volunteers that are alive, the fittest first.
    pub fn active_volunteers(&self) -> (list: Vec<VolunteerState>)
        ensures
            exists|now: TimestampView|
                now.valid() && now.is_plain() && #[trigger] is_ranking(
                    volunteer_views(list@),
                    self@,
                    now,
                ),
    {
        let now = Timestamp::now();
        self.active_volunteers_at(&now)
    }
}

/// Whether a list holds those of some volunteers that are alive, each once, the
/// fittest first.
spec fn ranks(
    list: Seq<VolunteerView>,
    state: AppStateView,
    now: TimestampView,
    seen: Seq<u128>,
) -> bool {
    &&& forall|i: int, j: int| 0 <= i < j < list.len() ==> list[i].id != list[j].id
    &&& forall|i: int, j: int| 0 <= i < j < list.len() ==> list[i].weight() >= list[j].weight()
    &&& forall|i: int|
        0 <= i < list.len() ==> {
            let v = #[trigger] list[i];
            state.volunteers.contains_key(v.id) && state.volunteers[v.id] == v && v.alive_at(now)
                && seen.contains(v.id)
        }
    &&& forall|id: u128| #[trigger]
        seen.contains(id) && state.volunteers.contains_key(id) && state.volunteers[id].alive_at(now)
            ==> has_id(list, id)
}

proof fn lemma_not_ranked(
    list: Seq<VolunteerView>,
    state: AppStateView,
    now: TimestampView,
    seen: Seq<u128>,
    id: u128,
)
    requires
        ranks(list, state, now, seen),
        !state.volunteers[id].alive_at(now),
    ensures
        ranks(list, state, now, seen.push(id)),
{
    let all = seen.push(id);
    assert forall|x: u128| seen.contains(x) implies all.contains(x) by {
        let i = choose|i: int| 0 <= i < seen.len() && seen[i] == x;
        assert(all[i] == x);
    }
    assert forall|x: u128| #[trigger]
        all.contains(x) && state.volunteers.contains_key(x) && state.volunteers[x].alive_at(
            now,
        ) implies has_id(list, x) by {
        let i = choose|i: int| 0 <= i < all.len() && all[i] == x;
        assert(i < seen.len());
        assert(seen[i] == x);
        assert(seen.contains(x));
    }
}

proof fn lemma_ranked(
    list: Seq<VolunteerView>,
    state: AppStateView,
    now: TimestampView,
    seen: Seq<u128>,
    id: u128,
    at: int,
)
    requires
        ranks(list, state, now, seen),
        !seen.contains(id),
        state.volunteers.contains_key(id),
        state.volunteers[id].id == id,
        state.volunteers[id].alive_at(now),
        0 <= at <= list.len(),
        forall|i: int|
            0 <= i < at ==> (#[trigger] list[i]).weight() >= state.volunteers[id].weight(),
        at < list.len() ==> list[at].weight() < state.volunteers[id].weight(),
    ensures
        ranks(list.insert(at, state.volunteers[id]), state, now, seen.push(id)),
{
    let v = state.volunteers[id];
    let more = list.insert(at, v);
    let all = seen.push(id);
    assert forall|x: u128| seen.contains(x) implies all.contains(x) by {
        let i = choose|i: int| 0 <= i < seen.len() && seen[i] == x;
        assert(all[i] == x);
    }
    assert(all[seen.len() as int] == id);
    assert forall|i: int| 0 <= i < more.len() implies {
        let w = #[trigger] more[i];
        state.volunteers.contains_key(w.id) && state.volunteers[w.id] == w && w.alive_at(now)
            && all.contains(w.id)
    } by {
        if i < at {
            assert(more[i] == list[i]);
        } else if i > at {
            assert(more[i] == list[i - 1]);
        }
    }
    assert forall|i: int, j: int| 0 <= i < j < more.len() implies more[i].id != more[j].id
        && more[i].weight() >= more[j].weight() by {
        let a = if i < at {
            i
        } else {
            i - 1
        };
        let b = if j < at {
            j
        } else {
            j - 1
        };
        if i == at {
            assert(seen.contains(list[b].id));
            if at < b {
                assert(list[at].weight() >= list[b].weight());
            }
        } else if j == at {
            assert(seen.contains(list[a].id));
        } else {
            assert(list[a].id != list[b].id);
        }
    }
    assert forall|x: u128| #[trigger]
        all.contains(x) && state.volunteers.contains_key(x) && state.volunteers[x].alive_at(
            now,
        ) implies has_id(more, x) by {
        if x == id {
            assert(more[at].id == id);
        } else {
            assert(seen.contains(x)) by {
                let i = choose|i: int| 0 <= i < all.len() && all[i] == x;
                assert(seen[i] == x);
            }
            let i = choose|i: int| 0 <= i < list.len() && #[trigger] list[i].id == x;
            if i < at {
                assert(more[i] == list[i]);
            } else {
                assert(more[i + 1] == list[i]);
            }
        }
    }
}

} // verus!
