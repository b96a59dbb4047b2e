//! Giving a service to a volunteer: first the configuration, then the running
//! proxy.
use crate::haproxy::edit::{Action, ActionView, ConfigEdit, ConfigEditView, Event, EventView,
    StageView};
use crate::haproxy::run::{RunView, RuntimeRun};
use crate::haproxy::runtime::{RuntimeError, RuntimeErrorView};
use crate::haproxy::{ensure_service_config, upsert_svc_server, Error, ErrorView, PRIMARY_WEIGHT};
use crate::haproxy;
use vstd::prelude::*;

verus! {

/// How long a new HAProxy worker is given before runtime commands are sent to it.
pub const ASSIGN_WAIT_MS: u64 = 500;

/// How far an assignment has come.
pub enum AssignStage {
    /// The configuration is being edited.
    Configuring(ConfigEdit),
    /// The new worker is being given time.
    Waiting,
    /// The server of the service is being pointed at its address.
    Running(RuntimeRun),
    /// Nothing is left to do.
    Done(Result<(), Error>),
}

/// The value of an [`AssignStage`].
pub enum AssignStageView {
    /// See [`AssignStage::Configuring`].
    Configuring(ConfigEditView),
    /// See [`AssignStage::Waiting`].
    Waiting,
    /// See [`AssignStage::Running`].
    Running(RunView),
    /// See [`AssignStage::Done`].
    Done(Result<(), ErrorView>),
}

impl View for AssignStage {
    type V = AssignStageView;

    open spec fn view(&self) -> AssignStageView {
        match *self {
            AssignStage::Configuring(edit) => AssignStageView::Configuring(edit@),
            AssignStage::Waiting => AssignStageView::Waiting,
            AssignStage::Running(run) => AssignStageView::Running(run@),
            AssignStage::Done(Ok(_)) => AssignStageView::Done(Ok(())),
            AssignStage::Done(Err(e)) => AssignStageView::Done(Err(e@)),
        }
    }
}

/// What the caller of an assignment is to do next.
pub enum AssignAction {
    /// Go on with the edit of the configuration.
    Config(Action),
    /// Wait for some milliseconds.
    Sleep(u64),
    /// Send a command to the admin socket.
    Send(String),
    /// Nothing: the assignment is over.
    Finish,
}

/// The value of an [`AssignAction`].
pub enum AssignActionView {
    /// See [`AssignAction::Config`].
    Config(ActionView),
    /// See [`AssignAction::Sleep`].
    Sleep(u64),
    /// See [`AssignAction::Send`].
    Send(Seq<char>),
    /// See [`AssignAction::Finish`].
    Finish,
}

impl View for AssignAction {
    type V = AssignActionView;

    open spec fn view(&self) -> AssignActionView {
        match *self {
            AssignAction::Config(action) => AssignActionView::Config(action@),
            AssignAction::Sleep(ms) => AssignActionView::Sleep(ms),
            AssignAction::Send(command) => AssignActionView::Send(command@),
            AssignAction::Finish => AssignActionView::Finish,
        }
    }
}

/// What came of an [`AssignAction`].
pub enum AssignEvent {
    /// What came of a step of the edit.
    Config(Event),
    /// The wait is over.
    Slept,
    /// The answer to a command.
    Answered(Result<String, RuntimeError>),
}

/// The value of an [`AssignEvent`].
pub enum AssignEventView {
    /// See [`AssignEvent::Config`].
    Config(EventView),
    /// See [`AssignEvent::Slept`].
    Slept,
    /// See [`AssignEvent::Answered`].
    Answered(Result<Seq<char>, RuntimeErrorView>),
}

impl View for AssignEvent {
    type V = AssignEventView;

    open spec fn view(&self) -> AssignEventView {
        match *self {
            AssignEvent::Config(event) => AssignEventView::Config(event@),
            AssignEvent::Slept => AssignEventView::Slept,
            AssignEvent::Answered(answer) => AssignEventView::Answered(
                haproxy::runtime::attempt_view(answer),
            ),
        }
    }
}

/// A service on its way to a volunteer.
pub struct Assignment {
    service_name: String,
    tunnel_addr: String,
    stage: AssignStage,
}

/// The value of an [`Assignment`].
pub struct AssignmentView {
    /// The service.
    pub service: Seq<char>,
    /// Where the volunteer is reached.
    pub addr: Seq<char>,
    /// How far the assignment has come.
    pub stage: AssignStageView,
}

impl View for Assignment {
    type V = AssignmentView;

    closed spec fn view(&self) -> AssignmentView {
        AssignmentView {
            service: self.service_name@,
            addr: self.tunnel_addr@,
            stage: self.stage@,
        }
    }
}

/// The stage that an edit leads to.
pub open spec fn stage_of_edit(edit: ConfigEditView) -> AssignStageView {
    match edit.stage {
        StageView::Done(Ok(_)) => AssignStageView::Waiting,
        StageView::Done(Err(e)) => AssignStageView::Done(Err(ErrorView::Config(e))),
        _ => AssignStageView::Configuring(edit),
    }
}

/// The stage that a run leads to.
pub open spec fn stage_of_run(run: RunView) -> AssignStageView {
    match run.outcome() {
        Some(Ok(_)) => AssignStageView::Done(Ok(())),
        Some(Err(e)) => AssignStageView::Done(Err(ErrorView::Runtime(e))),
        None => AssignStageView::Running(run),
    }
}

impl AssignmentView {
    /// The run that points the service's server at its address.
    pub open spec fn pointing(self) -> RunView {
        haproxy::run::starting(
            haproxy::upsert_steps(
                haproxy::service_backend(self.service),
                "primary"@,
                self.addr,
                PRIMARY_WEIGHT,
            ),
        )
    }

    /// What is to be done at this stage.
    pub open spec fn action(self) -> AssignActionView {
        match self.stage {
            AssignStageView::Configuring(edit) => AssignActionView::Config(edit.action()),
            AssignStageView::Waiting => AssignActionView::Sleep(ASSIGN_WAIT_MS),
            AssignStageView::Running(run) => match run.command() {
                Some(command) => AssignActionView::Send(command),
                None => AssignActionView::Finish,
            },
            AssignStageView::Done(_) => AssignActionView::Finish,
        }
    }

    /// The assignment after an event. An event that does not answer the action of
    /// this stage changes nothing.
    pub open spec fn after(self, event: AssignEventView) -> AssignmentView {
        let stage = match (self.stage, event) {
            (AssignStageView::Configuring(edit), AssignEventView::Config(e)) => stage_of_edit(
                edit.after(e),
            ),
            (AssignStageView::Waiting, AssignEventView::Slept) => stage_of_run(self.pointing()),
            (AssignStageView::Running(run), AssignEventView::Answered(answer)) => stage_of_run(
                run.after(answer),
            ),
            (stage, _) => stage,
        };
        AssignmentView { stage, ..self }
    }
}

/// An assignment that is about to start.
pub open spec fn starting(service: Seq<char>, domain: Seq<char>, addr: Seq<char>) -> AssignmentView {
    AssignmentView {
        service,
        addr,
        stage: AssignStageView::Configuring(
            haproxy::adding(haproxy::service_backend(service), domain),
        ),
    }
}

/// Starts to assign a service to a volunteer: the configuration gets the backend
/// and the routing rule of the service, and the one server of that backend is then
/// pointed at the volunteer's end of the tunnel.
pub fn assign_service(
    service_name: &str,
    domain: &str,
    _volunteer_id: u128,
    tunnel_addr: &str,
) -> (assignment: Assignment)
    ensures
        assignment@ == starting(service_name@, domain@, tunnel_addr@),
{
    Assignment {
        service_name: service_name.to_owned(),
        tunnel_addr: tunnel_addr.to_owned(),
        stage: AssignStage::Configuring(ensure_service_config(service_name, domain)),
    }
}

/// Goes on after a step of the edit.
fn after_edit(edit: ConfigEdit) -> (stage: AssignStage)
    ensures
        stage@ == stage_of_edit(edit@),
{
    if edit.is_done() {
        match edit.outcome() {
            Some(Ok(_)) => AssignStage::Waiting,
            Some(Err(e)) => AssignStage::Done(Err(Error::from(e))),
            None => AssignStage::Waiting,
        }
    } else {
        AssignStage::Configuring(edit)
    }
}

/// Goes on after a step of the run.
fn after_run(run: RuntimeRun) -> (stage: AssignStage)
    ensures
        stage@ == stage_of_run(run@),
{
    match run.outcome() {
        Some(Ok(_)) => AssignStage::Done(Ok(())),
        Some(Err(e)) => AssignStage::Done(Err(Error::from(e))),
        None => AssignStage::Running(run),
    }
}

impl Assignment {
    /// What is to be done next.
    pub fn action(&self) -> (action: AssignAction)
        ensures
            action@ == self@.action(),
    {
        match &self.stage {
            AssignStage::Configuring(edit) => AssignAction::Config(edit.action()),
            AssignStage::Waiting => AssignAction::Sleep(ASSIGN_WAIT_MS),
            AssignStage::Running(run) => match run.command() {
                Some(command) => AssignAction::Send(command),
                None => AssignAction::Finish,
            },
            AssignStage::Done(_) => AssignAction::Finish,
        }
    }

    /// Takes in what came of the last action.
    pub fn resume(self, event: AssignEvent) -> (next: Assignment)
        ensures
            next@ == self@.after(event@),
    {
        let stage = match (self.stage, event) {
            (AssignStage::Configuring(edit), AssignEvent::Config(e)) => after_edit(edit.resume(e)),
            (AssignStage::Waiting, AssignEvent::Slept) => after_run(
                upsert_svc_server(self.service_name.as_str(), self.tunnel_addr.as_str()),
            ),
            (AssignStage::Running(run), AssignEvent::Answered(answer)) => after_run(
                run.resume(answer),
            ),
            (stage, _) => stage,
        };
        Assignment { service_name: self.service_name, tunnel_addr: self.tunnel_addr, stage }
    }

    /// How the assignment ended, or `None` where it is still under way.
    pub fn outcome(self) -> (outcome: Option<Result<(), Error>>)
        ensures
            match outcome {
                Some(Ok(_)) => self@.stage == AssignStageView::Done(Ok(())),
                Some(Err(e)) => self@.stage == AssignStageView::Done(Err(e@)),
                None => !(self@.stage is Done),
            },
    {
        match self.stage {
            AssignStage::Done(r) => Some(r),
            _ => None,
        }
    }
}

// ── laws ────────────────────────────────────────────────────────────────────
/// An assignment after a run of events.
pub open spec fn after_all(start: AssignmentView, events: Seq<AssignEventView>) -> AssignmentView
    decreases events.len(),
{
    if events.len() == 0 {
        start
    } else {
        after_all(start, events.drop_last()).after(events.last())
    }
}

/// What an edit is told in a run of events.
pub open spec fn edit_events(events: Seq<AssignEventView>) -> Seq<EventView>
    decreases events.len(),
{
    if events.len() == 0 {
        Seq::empty()
    } else {
        match events.last() {
            AssignEventView::Config(e) => edit_events(events.drop_last()).push(e),
            _ => edit_events(events.drop_last()),
        }
    }
}

/// Once an edit is over, no event changes it.
proof fn lemma_done_stays(edit: ConfigEditView, e: EventView)
    requires
        edit.stage is Done,
    ensures
        edit.after(e) == edit,
{
}

/// No command is sent to the running proxy before the edit of the configuration
/// has succeeded.
pub proof fn commands_follow_the_edit(
    start: AssignmentView,
    edit: ConfigEditView,
    events: Seq<AssignEventView>,
)
    requires
        start.stage == AssignStageView::Configuring(edit),
        !(edit.stage is Done),
        after_all(start, events).action() is Send,
    ensures
        haproxy::edit_laws::run(edit, edit_events(events)).stage == StageView::Done(Ok(())),
{
    lemma_edit_inside(start, edit, events);
}

proof fn lemma_edit_inside(
    start: AssignmentView,
    edit: ConfigEditView,
    events: Seq<AssignEventView>,
)
    requires
        start.stage == AssignStageView::Configuring(edit),
        !(edit.stage is Done),
    ensures
        ({
            let inner = haproxy::edit_laws::run(edit, edit_events(events));
            match after_all(start, events).stage {
                AssignStageView::Configuring(now) => now == inner && !(inner.stage is Done),
                AssignStageView::Waiting => inner.stage == StageView::Done(Ok(())),
                AssignStageView::Running(_) => inner.stage == StageView::Done(Ok(())),
                AssignStageView::Done(Ok(_)) => inner.stage == StageView::Done(Ok(())),
                AssignStageView::Done(Err(_)) => inner.stage is Done,
            }
        }),
    decreases events.len(),
{
    if events.len() > 0 {
        let before = events.drop_last();
        lemma_edit_inside(start, edit, before);
        let inner = haproxy::edit_laws::run(edit, edit_events(before));
        match events.last() {
            AssignEventView::Config(e) => {
                let now = edit_events(events);
                assert(now.drop_last() =~= edit_events(before));
                assert(now.last() == e);
                assert(haproxy::edit_laws::run(edit, now) == inner.after(e));
                if inner.stage is Done {
                    lemma_done_stays(inner, e);
                }
                match inner.after(e).stage {
                    StageView::Done(Ok(unit)) => {
                        assert(unit == ());
                    },
                    _ => {},
                }
            },
            _ => {},
        }
    }
}

} // verus!
