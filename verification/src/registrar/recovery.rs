//! Coming back after a restart.
//!
//! A reload of the proxy drops the servers that were added at run time. So all
//! changes of the configuration come first, and all servers after them.
use crate::clock::{Timestamp, TimestampView};
use crate::haproxy;
use crate::haproxy::edit::{ConfigEdit, ConfigEditView};
use crate::haproxy::run::{RunView, RuntimeRun};
use crate::ids;
use crate::registrar::state;
use crate::registrar::state::{AppState, AppStateView, VolunteerState, VolunteerView};
use vstd::prelude::*;

verus! {

/// How long the proxy's last worker is given before servers are added.
pub const RECOVERY_SETTLE_MS: u64 = 1000;

/// The weight of a volunteer until it sends its first heartbeat.
pub const RECOVERY_WEIGHT: u32 = 1;

/// How long to wait before the admin socket is looked for again.
pub const SOCKET_WAIT_MS: u64 = 500;

/// How often the admin socket is looked for.
pub const SOCKET_ATTEMPTS: u32 = 30;

/// What to do after the admin socket was looked for.
#[derive(Debug, PartialEq, Eq, Structural)]
pub enum SocketWait {
    /// It is there.
    Present,
    /// Look again after some milliseconds.
    Again(u64),
    /// Go on without it.
    GiveUp,
}

/// Decides what to do after the admin socket was looked for. `attempt` counts from
/// zero, and there is one more wait after the last attempt.
pub fn after_socket_check(present: bool, attempt: u32) -> (next: SocketWait)
    ensures
        next == if attempt >= SOCKET_ATTEMPTS {
            SocketWait::GiveUp
        } else if present {
            SocketWait::Present
        } else {
            SocketWait::Again(SOCKET_WAIT_MS)
        },
{
    if attempt >= SOCKET_ATTEMPTS {
        SocketWait::GiveUp
    } else if present {
        SocketWait::Present
    } else {
        SocketWait::Again(SOCKET_WAIT_MS)
    }
}

/// One thing to do.
pub enum RecoveryStep {
    /// See to it that the configuration has a service.
    EnsureConfig {
        /// The name of the service.
        service: String,
        /// The domain that it answers to.
        domain: String,
    },
    /// Wait for some milliseconds.
    Settle(u64),
    /// Put a volunteer among those that share the traffic.
    UpsertVolunteer {
        /// The volunteer.
        id: u128,
        /// Where it is reached.
        addr: String,
    },
    /// Put back the server of a service.
    RestoreServer {
        /// The name of the service.
        service: String,
        /// The volunteer that runs it.
        id: u128,
        /// Where it is reached.
        addr: String,
    },
}

/// The value of a [`RecoveryStep`].
pub enum RecoveryStepView {
    /// See [`RecoveryStep::EnsureConfig`].
    EnsureConfig {
        /// The name of the service.
        service: Seq<char>,
        /// The domain that it answers to.
        domain: Seq<char>,
    },
    /// See [`RecoveryStep::Settle`].
    Settle(u64),
    /// See [`RecoveryStep::UpsertVolunteer`].
    UpsertVolunteer {
        /// The volunteer.
        id: u128,
        /// Where it is reached.
        addr: Seq<char>,
    },
    /// See [`RecoveryStep::RestoreServer`].
    RestoreServer {
        /// The name of the service.
        service: Seq<char>,
        /// The volunteer that runs it.
        id: u128,
        /// Where it is reached.
        addr: Seq<char>,
    },
}

impl View for RecoveryStep {
    type V = RecoveryStepView;

    open spec fn view(&self) -> RecoveryStepView {
        match *self {
            RecoveryStep::EnsureConfig { service, domain } => RecoveryStepView::EnsureConfig {
                service: service@,
                domain: domain@,
            },
            RecoveryStep::Settle(ms) => RecoveryStepView::Settle(ms),
            RecoveryStep::UpsertVolunteer { id, addr } => RecoveryStepView::UpsertVolunteer {
                id,
                addr: addr@,
            },
            RecoveryStep::RestoreServer { service, id, addr } => RecoveryStepView::RestoreServer {
                service: service@,
                id,
                addr: addr@,
            },
        }
    }
}

/// What a thing to do takes.
pub enum RecoveryWork {
    /// An edit of the configuration.
    Edit(ConfigEdit),
    /// A wait of some milliseconds.
    Wait(u64),
    /// A run of commands.
    Run(RuntimeRun),
}

/// The value of a [`RecoveryWork`].
pub enum RecoveryWorkView {
    /// See [`RecoveryWork::Edit`].
    Edit(ConfigEditView),
    /// See [`RecoveryWork::Wait`].
    Wait(u64),
    /// See [`RecoveryWork::Run`].
    Run(RunView),
}

impl View for RecoveryWork {
    type V = RecoveryWorkView;

    open spec fn view(&self) -> RecoveryWorkView {
        match *self {
            RecoveryWork::Edit(edit) => RecoveryWorkView::Edit(edit@),
            RecoveryWork::Wait(ms) => RecoveryWorkView::Wait(ms),
            RecoveryWork::Run(run) => RecoveryWorkView::Run(run@),
        }
    }
}

impl RecoveryStepView {
    /// What the thing to do takes.
    pub open spec fn work(self) -> RecoveryWorkView {
        match self {
            RecoveryStepView::EnsureConfig { service, domain } => RecoveryWorkView::Edit(
                haproxy::adding(haproxy::service_backend(service), domain),
            ),
            RecoveryStepView::Settle(ms) => RecoveryWorkView::Wait(ms),
            RecoveryStepView::UpsertVolunteer { id, addr } => RecoveryWorkView::Run(
                haproxy::run::starting(
                    haproxy::upsert_steps(
                        "volunteers"@,
                        ids::simple_of(id),
                        addr,
                        RECOVERY_WEIGHT,
                    ),
                ),
            ),
            RecoveryStepView::RestoreServer { service, id, addr } => RecoveryWorkView::Run(
                haproxy::run::starting(
                    haproxy::upsert_steps(
                        haproxy::service_backend(service),
                        "primary"@,
                        addr,
                        haproxy::PRIMARY_WEIGHT,
                    ),
                ),
            ),
        }
    }
}

impl RecoveryStep {
    /// Starts the thing to do.
    pub fn start(&self) -> (work: RecoveryWork)
        ensures
            work@ == self@.work(),
    {
        match self {
            RecoveryStep::EnsureConfig { service, domain } => RecoveryWork::Edit(
                haproxy::ensure_service_config(service.as_str(), domain.as_str()),
            ),
            RecoveryStep::Settle(ms) => RecoveryWork::Wait(*ms),
            RecoveryStep::UpsertVolunteer { id, addr } => RecoveryWork::Run(
                haproxy::upsert_volunteer("volunteers", *id, addr.as_str(), RECOVERY_WEIGHT),
            ),
            RecoveryStep::RestoreServer { service, id, addr } => RecoveryWork::Run(
                haproxy::restore_service_server(service.as_str(), *id, addr.as_str()),
            ),
        }
    }
}

/// The values of a list of things to do.
pub open spec fn step_views(list: Seq<RecoveryStep>) -> Seq<RecoveryStepView> {
    Seq::new(list.len(), |i: int| list[i]@)
}

/// The configuration of the services that the first volunteers run.
pub open spec fn config_pass(list: Seq<VolunteerView>, n: nat) -> Seq<RecoveryStepView>
    decreases n,
{
    if n == 0 {
        Seq::empty()
    } else {
        let before = config_pass(list, (n - 1) as nat);
        match list[n - 1].assigned_service {
            Some(a) => before.push(
                RecoveryStepView::EnsureConfig { service: a.service.name, domain: a.service.domain },
            ),
            None => before,
        }
    }
}

/// The servers of the first volunteers.
pub open spec fn server_pass(list: Seq<VolunteerView>, n: nat) -> Seq<RecoveryStepView>
    decreases n,
{
    if n == 0 {
        Seq::empty()
    } else {
        let v = list[n - 1];
        let before = server_pass(list, (n - 1) as nat).push(
            RecoveryStepView::UpsertVolunteer { id: v.id, addr: v.info.service_addr },
        );
        match v.assigned_service {
            Some(a) => before.push(
                RecoveryStepView::RestoreServer {
                    service: a.service.name,
                    id: v.id,
                    addr: v.info.service_addr,
                },
            ),
            None => before,
        }
    }
}

/// All that is to be done for the volunteers that are back: first the configuration,
/// then, after a wait where there was any, the servers.
pub open spec fn recovery_plan(list: Seq<VolunteerView>) -> Seq<RecoveryStepView> {
    let first = config_pass(list, list.len());
    let wait = if first.len() > 0 {
        seq![RecoveryStepView::Settle(RECOVERY_SETTLE_MS)]
    } else {
        Seq::empty()
    };
    first + wait + server_pass(list, list.len())
}

/// The volunteers once the first ones of a list are back. Each counts as heard of
/// just now, so that none is taken for dead before its first heartbeat.
pub open spec fn brought_back(
    volunteers: Map<u128, VolunteerView>,
    list: Seq<VolunteerView>,
    n: nat,
    now: TimestampView,
) -> Map<u128, VolunteerView>
    decreases n,
{
    if n == 0 {
        volunteers
    } else {
        let v = list[n - 1];
        brought_back(volunteers, list, (n - 1) as nat, now).insert(
            v.id,
            VolunteerView { last_heartbeat: now, ..v },
        )
    }
}

/// Plans what is to be done for the volunteers that are back.
pub fn plan_recovery(list: &Vec<VolunteerState>) -> (plan: Vec<RecoveryStep>)
    ensures
        step_views(plan@) == recovery_plan(state::volunteer_views(list@)),
{
    let ghost views = state::volunteer_views(list@);
    let mut plan: Vec<RecoveryStep> = Vec::new();
    let mut k: usize = 0;
    assert(step_views(plan@) =~= config_pass(views, 0));
    while k < list.len()
        invariant
            k <= list@.len(),
            views == state::volunteer_views(list@),
            step_views(plan@) == config_pass(views, k as nat),
        decreases list@.len() - k,
    {
        let ghost before = step_views(plan@);
        assert(views[k as int] == list@[k as int]@);
        if let Some(a) = &list[k].assigned_service {
            plan.push(
                RecoveryStep::EnsureConfig {
                    service: a.service_name.clone(),
                    domain: a.domain.clone(),
                },
            );
            assert(step_views(plan@) =~= before.push(plan@[plan@.len() - 1]@));
        }
        k = k + 1;
    }
    let ghost first = step_views(plan@);
    let ghost wait = if first.len() > 0 {
        seq![RecoveryStepView::Settle(RECOVERY_SETTLE_MS)]
    } else {
        Seq::empty()
    };
    if plan.len() > 0 {
        plan.push(RecoveryStep::Settle(RECOVERY_SETTLE_MS));
    }
    k = 0;
    assert(step_views(plan@) =~= first + wait + server_pass(views, 0));
    while k < list.len()
        invariant
            k <= list@.len(),
            views == state::volunteer_views(list@),
            step_views(plan@) == first + wait + server_pass(views, k as nat),
        decreases list@.len() - k,
    {
        let ghost before = server_pass(views, k as nat);
        let ghost whole = step_views(plan@);
        let v = &list[k];
        assert(views[k as int] == v@);
        plan.push(
            RecoveryStep::UpsertVolunteer { id: v.id, addr: v.info.service_addr.clone() },
        );
        let ghost upsert = plan@[plan@.len() - 1]@;
        assert(step_views(plan@) =~= whole.push(upsert));
        assert(whole.push(upsert) =~= first + wait + before.push(upsert));
        if let Some(a) = &v.assigned_service {
            plan.push(
                RecoveryStep::RestoreServer {
                    service: a.service_name.clone(),
                    id: v.id,
                    addr: v.info.service_addr.clone(),
                },
            );
            let ghost restore = plan@[plan@.len() - 1]@;
            assert(step_views(plan@) =~= whole.push(upsert).push(restore));
            assert(whole.push(upsert).push(restore) =~= first + wait + before.push(upsert).push(
                restore,
            ));
        }
        k = k + 1;
    }
    plan
}

/// Brings back the volunteers that were written down, and plans what is to be done
/// for them.
pub fn recover(state: &mut AppState, survivors: &Vec<VolunteerState>, now: Timestamp) -> (plan: Vec<
    RecoveryStep,
>)
    ensures
        final(state)@ == (AppStateView {
            volunteers: brought_back(
                old(state)@.volunteers,
                state::volunteer_views(survivors@),
                survivors@.len(),
                now@,
            ),
            pending: old(state)@.pending,
        }),
        step_views(plan@) == recovery_plan(state::volunteer_views(survivors@)),
{
    let ghost before = state@;
    let ghost views = state::volunteer_views(survivors@);
    let mut k: usize = 0;
    while k < survivors.len()
        invariant
            k <= survivors@.len(),
            views == state::volunteer_views(survivors@),
            state@ == (AppStateView {
                volunteers: brought_back(before.volunteers, views, k as nat, now@),
                pending: before.pending,
            }),
        decreases survivors@.len() - k,
    {
        assert(views[k as int] == survivors@[k as int]@);
        let mut v = survivors[k].clone();
        v.last_heartbeat = now;
        state.insert_volunteer(v);
        k = k + 1;
    }
    plan_recovery(survivors)
}

// ── laws ────────────────────────────────────────────────────────────────────
/// Whether a thing to do changes the configuration, which may reload the proxy.
pub open spec fn may_reload(step: RecoveryStepView) -> bool {
    step is EnsureConfig
}

/// Whether a thing to do adds a server to the running proxy.
pub open spec fn adds_server(step: RecoveryStepView) -> bool {
    step is UpsertVolunteer || step is RestoreServer
}

proof fn lemma_config_pass(list: Seq<VolunteerView>, n: nat)
    ensures
        forall|i: int|
            0 <= i < config_pass(list, n).len() ==> #[trigger] config_pass(list, n)[i]
                is EnsureConfig,
    decreases n,
{
    if n > 0 {
        lemma_config_pass(list, (n - 1) as nat);
    }
}

proof fn lemma_server_pass(list: Seq<VolunteerView>, n: nat)
    ensures
        forall|i: int|
            0 <= i < server_pass(list, n).len() ==> adds_server(#[trigger] server_pass(list, n)[i]),
    decreases n,
{
    if n > 0 {
        let before = server_pass(list, (n - 1) as nat);
        let now = server_pass(list, n);
        lemma_server_pass(list, (n - 1) as nat);
        assert forall|i: int| 0 <= i < now.len() implies adds_server(#[trigger] now[i]) by {
            if i < before.len() {
                assert(now[i] == before[i]);
            }
        }
    }
}

/// No reload can drop a server that was put back: all that may reload the proxy
/// comes before all that adds a server.
pub proof fn reloads_come_first(list: Seq<VolunteerView>, i: int, j: int)
    requires
        0 <= i < recovery_plan(list).len(),
        0 <= j < recovery_plan(list).len(),
        adds_server(recovery_plan(list)[i]),
        may_reload(recovery_plan(list)[j]),
    ensures
        j < i,
{
    lemma_config_pass(list, list.len());
    lemma_server_pass(list, list.len());
    let first = config_pass(list, list.len());
    let plan = recovery_plan(list);
    if i < first.len() {
        assert(plan[i] == first[i]);
    }
    if j >= first.len() {
        let wait = plan.len() - server_pass(list, list.len()).len() - first.len();
        if j >= first.len() + wait {
            assert(plan[j] == server_pass(list, list.len())[j - first.len() - wait]);
        }
    }
}

} // verus!
