//! One edit of the configuration file, from reading it to the settled reload.
//!
//! An edit reads the file, writes the changed text, has HAProxy validate it, restores
//! the previous text where that fails, and reloads HAProxy. A [`ConfigEdit`] tells its
//! caller what to do next and takes in what came of it.
//! HAProxy can lose a reload that arrives while an earlier one is still starting
//! its worker, so the caller runs one edit at a time and counts the wait at the
//! end as part of the edit.
use crate::haproxy::config;
use crate::haproxy::config::{delete_service, insert_service, service_exists, ConfigError,
    ConfigErrorView, RELOAD_SETTLE_MS};
use crate::text;
use crate::text::{decimal_text, parse_u32, trim};
use vstd::prelude::*;

verus! {

/// How far an edit has come.
pub enum Stage {
    /// The file is to be read.
    Reading,
    /// The new text is to be written.
    Writing {
        /// The text that the file held.
        before: String,
        /// The text that it is to hold.
        after: String,
    },
    /// The new text is to be validated.
    Validating {
        /// The text that the file held.
        before: String,
    },
    /// The new text was rejected; the old one is to be written back.
    Restoring {
        /// The text that the file held.
        before: String,
        /// Why the new text was rejected.
        cause: ConfigError,
    },
    /// HAProxy is to be told to reload.
    Reloading,
    /// The new worker is to be given time to come up.
    Settling,
    /// Nothing is left to do.
    Done(Result<(), ConfigError>),
}

/// The value of a [`Stage`].
pub enum StageView {
    /// See [`Stage::Reading`].
    Reading,
    /// See [`Stage::Writing`].
    Writing {
        /// The text that the file held.
        before: Seq<char>,
        /// The text that it is to hold.
        after: Seq<char>,
    },
    /// See [`Stage::Validating`].
    Validating {
        /// The text that the file held.
        before: Seq<char>,
    },
    /// See [`Stage::Restoring`].
    Restoring {
        /// The text that the file held.
        before: Seq<char>,
        /// Why the new text was rejected.
        cause: ConfigErrorView,
    },
    /// See [`Stage::Reloading`].
    Reloading,
    /// See [`Stage::Settling`].
    Settling,
    /// See [`Stage::Done`].
    Done(Result<(), ConfigErrorView>),
}

/// The value of an outcome.
pub open spec fn outcome_view(outcome: Result<(), ConfigError>) -> Result<(), ConfigErrorView> {
    match outcome {
        Ok(_) => Ok(()),
        Err(e) => Err(e@),
    }
}

impl View for Stage {
    type V = StageView;

    open spec fn view(&self) -> StageView {
        match *self {
            Stage::Reading => StageView::Reading,
            Stage::Writing { before, after } => StageView::Writing {
                before: before@,
                after: after@,
            },
            Stage::Validating { before } => StageView::Validating { before: before@ },
            Stage::Restoring { before, cause } => StageView::Restoring {
                before: before@,
                cause: cause@,
            },
            Stage::Reloading => StageView::Reloading,
            Stage::Settling => StageView::Settling,
            Stage::Done(outcome) => StageView::Done(outcome_view(outcome)),
        }
    }
}

/// What the caller of an edit is to do next.
pub enum Action {
    /// Read the file.
    Read,
    /// Write a text to the file.
    Write(String),
    /// Have HAProxy validate the file.
    Validate,
    /// Tell HAProxy to reload.
    Reload,
    /// Wait for some milliseconds.
    Sleep(u64),
    /// Nothing: the edit is over.
    Finish,
}

/// The value of an [`Action`].
pub enum ActionView {
    /// See [`Action::Read`].
    Read,
    /// See [`Action::Write`].
    Write(Seq<char>),
    /// See [`Action::Validate`].
    Validate,
    /// See [`Action::Reload`].
    Reload,
    /// See [`Action::Sleep`].
    Sleep(u64),
    /// See [`Action::Finish`].
    Finish,
}

impl View for Action {
    type V = ActionView;

    open spec fn view(&self) -> ActionView {
        match *self {
            Action::Read => ActionView::Read,
            Action::Write(content) => ActionView::Write(content@),
            Action::Validate => ActionView::Validate,
            Action::Reload => ActionView::Reload,
            Action::Sleep(ms) => ActionView::Sleep(ms),
            Action::Finish => ActionView::Finish,
        }
    }
}

/// What came of an [`Action`]. An error is given in words.
pub enum Event {
    /// The file was read.
    Read(Result<String, String>),
    /// The file was written.
    Wrote(Result<(), String>),
    /// HAProxy looked at the file.
    Validated(Result<(), ConfigError>),
    /// HAProxy was told to reload.
    Reloaded(Result<(), ConfigError>),
    /// The wait is over.
    Slept,
}

/// The value of an [`Event`].
pub enum EventView {
    /// See [`Event::Read`].
    Read(Result<Seq<char>, Seq<char>>),
    /// See [`Event::Wrote`].
    Wrote(Result<(), Seq<char>>),
    /// See [`Event::Validated`].
    Validated(Result<(), ConfigErrorView>),
    /// See [`Event::Reloaded`].
    Reloaded(Result<(), ConfigErrorView>),
    /// See [`Event::Slept`].
    Slept,
}

impl View for Event {
    type V = EventView;

    open spec fn view(&self) -> EventView {
        match *self {
            Event::Read(Ok(content)) => EventView::Read(Ok(content@)),
            Event::Read(Err(e)) => EventView::Read(Err(e@)),
            Event::Wrote(Ok(_)) => EventView::Wrote(Ok(())),
            Event::Wrote(Err(e)) => EventView::Wrote(Err(e@)),
            Event::Validated(outcome) => EventView::Validated(outcome_view(outcome)),
            Event::Reloaded(outcome) => EventView::Reloaded(outcome_view(outcome)),
            Event::Slept => EventView::Slept,
        }
    }
}

/// An edit that adds a service to the configuration, or removes one from it.
pub struct ConfigEdit {
    service_name: String,
    domain: Option<String>,
    stage: Stage,
}

/// The value of a [`ConfigEdit`].
pub struct ConfigEditView {
    /// The service that is added or removed.
    pub service: Seq<char>,
    /// The domain of the service, where it is added.
    pub domain: Option<Seq<char>>,
    /// How far the edit has come.
    pub stage: StageView,
}

impl View for ConfigEdit {
    type V = ConfigEditView;

    closed spec fn view(&self) -> ConfigEditView {
        ConfigEditView {
            service: self.service_name@,
            domain: match self.domain {
                Some(domain) => Some(domain@),
                None => None,
            },
            stage: self.stage@,
        }
    }
}

impl ConfigEditView {
    /// The text that the file is to hold after the edit, given the one it holds:
    /// `None` where the file is already as it should be.
    pub open spec fn change(self, content: Seq<char>) -> Option<Result<Seq<char>, ConfigErrorView>> {
        match self.domain {
            Some(domain) => if config::lists(content, self.service) {
                None
            } else {
                match config::with_service(content, self.service, domain) {
                    Some(after) => Some(Ok(after)),
                    None => Some(Err(ConfigErrorView::FrontendNotFound)),
                }
            },
            None => if config::lists(content, self.service) {
                Some(Ok(config::without_service(content, self.service)))
            } else {
                None
            },
        }
    }

    /// What is to be done at this stage.
    pub open spec fn action(self) -> ActionView {
        match self.stage {
            StageView::Reading => ActionView::Read,
            StageView::Writing { before, after } => ActionView::Write(after),
            StageView::Validating { before } => ActionView::Validate,
            StageView::Restoring { before, cause } => ActionView::Write(before),
            StageView::Reloading => ActionView::Reload,
            StageView::Settling => ActionView::Sleep(RELOAD_SETTLE_MS),
            StageView::Done(outcome) => ActionView::Finish,
        }
    }

    /// The stage after an event. An event that does not answer the action of this
    /// stage changes nothing.
    pub open spec fn stage_after(self, event: EventView) -> StageView {
        match (self.stage, event) {
            (StageView::Reading, EventView::Read(Err(e))) => StageView::Done(
                Err(ConfigErrorView::Io(e)),
            ),
            (StageView::Reading, EventView::Read(Ok(content))) => match self.change(content) {
                None => StageView::Done(Ok(())),
                Some(Ok(after)) => StageView::Writing { before: content, after },
                Some(Err(e)) => StageView::Done(Err(e)),
            },
            (StageView::Writing { before, after }, EventView::Wrote(Err(e))) => StageView::Done(
                Err(ConfigErrorView::Io(e)),
            ),
            (StageView::Writing { before, after }, EventView::Wrote(Ok(_))) =>
                StageView::Validating { before },
            (StageView::Validating { before }, EventView::Validated(Ok(_))) => StageView::Reloading,
            (StageView::Validating { before }, EventView::Validated(Err(cause))) =>
                StageView::Restoring { before, cause },
            (StageView::Restoring { before, cause }, EventView::Wrote(Err(e))) => StageView::Done(
                Err(ConfigErrorView::Io(e)),
            ),
            (StageView::Restoring { before, cause }, EventView::Wrote(Ok(_))) => StageView::Done(
                Err(cause),
            ),
            (StageView::Reloading, EventView::Reloaded(Ok(_))) => StageView::Settling,
            (StageView::Reloading, EventView::Reloaded(Err(e))) => StageView::Done(Err(e)),
            (StageView::Settling, EventView::Slept) => StageView::Done(Ok(())),
            (stage, _) => stage,
        }
    }

    /// The edit after an event.
    pub open spec fn after(self, event: EventView) -> ConfigEditView {
        ConfigEditView { stage: self.stage_after(event), ..self }
    }
}

/// Starts to add a service: its routing lines go before the first routing rule and
/// its backend to the end. A service that is already there is left alone.
pub fn add_service(service_name: &str, domain: &str) -> (edit: ConfigEdit)
    ensures
        edit@ == (ConfigEditView {
            service: service_name@,
            domain: Some(domain@),
            stage: StageView::Reading,
        }),
{
    ConfigEdit {
        service_name: service_name.to_owned(),
        domain: Some(domain.to_owned()),
        stage: Stage::Reading,
    }
}

/// Starts to remove a service: its routing lines and its backend. A service that is
/// not there is no error.
pub fn remove_service(service_name: &str) -> (edit: ConfigEdit)
    ensures
        edit@ == (ConfigEditView {
            service: service_name@,
            domain: None,
            stage: StageView::Reading,
        }),
{
    ConfigEdit { service_name: service_name.to_owned(), domain: None, stage: Stage::Reading }
}

impl ConfigEdit {
    /// What is to be done next.
    pub fn action(&self) -> (action: Action)
        ensures
            action@ == self@.action(),
    {
        match &self.stage {
            Stage::Reading => Action::Read,
            Stage::Writing { before: _, after } => Action::Write(after.clone()),
            Stage::Validating { before: _ } => Action::Validate,
            Stage::Restoring { before, cause: _ } => Action::Write(before.clone()),
            Stage::Reloading => Action::Reload,
            Stage::Settling => Action::Sleep(RELOAD_SETTLE_MS),
            Stage::Done(_) => Action::Finish,
        }
    }

    /// The stage after the file was read.
    fn stage_for(&self, content: String) -> (stage: Stage)
        ensures
            stage@ == (match self@.change(content@) {
                None => StageView::Done(Ok(())),
                Some(Ok(after)) => StageView::Writing { before: content@, after },
                Some(Err(e)) => StageView::Done(Err(e)),
            }),
    {
        let present = service_exists(content.as_str(), self.service_name.as_str());
        match &self.domain {
            Some(domain) => {
                if present {
                    Stage::Done(Ok(()))
                } else {
                    match insert_service(
                        content.as_str(),
                        self.service_name.as_str(),
                        domain.as_str(),
                    ) {
                        Ok(after) => Stage::Writing { before: content, after },
                        Err(e) => Stage::Done(Err(e)),
                    }
                }
            },
            None => {
                if present {
                    let after = delete_service(content.as_str(), self.service_name.as_str());
                    Stage::Writing { before: content, after }
                } else {
                    Stage::Done(Ok(()))
                }
            },
        }
    }

    /// Takes in what came of the last action.
    pub fn resume(self, event: Event) -> (next: ConfigEdit)
        ensures
            next@ == self@.after(event@),
    {
        let stage = match (&self.stage, &event) {
            (Stage::Reading, Event::Read(Ok(content))) => self.stage_for(content.clone()),
            _ => return self.step(event),
        };
        ConfigEdit { service_name: self.service_name, domain: self.domain, stage }
    }

    /// Takes in what came of an action other than a successful read.
    fn step(self, event: Event) -> (next: ConfigEdit)
        requires
            !(self@.stage is Reading && event@ is Read && event@->Read_0 is Ok),
        ensures
            next@ == self@.after(event@),
    {
        let stage = match (self.stage, event) {
            (Stage::Reading, Event::Read(Err(e))) => Stage::Done(Err(ConfigError::Io(e))),
            (Stage::Writing { before: _, after: _ }, Event::Wrote(Err(e))) => Stage::Done(
                Err(ConfigError::Io(e)),
            ),
            (Stage::Writing { before, after: _ }, Event::Wrote(Ok(_))) => Stage::Validating {
                before,
            },
            (Stage::Validating { before: _ }, Event::Validated(Ok(_))) => Stage::Reloading,
            (Stage::Validating { before }, Event::Validated(Err(cause))) => Stage::Restoring {
                before,
                cause,
            },
            (Stage::Restoring { before: _, cause: _ }, Event::Wrote(Err(e))) => Stage::Done(
                Err(ConfigError::Io(e)),
            ),
            (Stage::Restoring { before: _, cause }, Event::Wrote(Ok(_))) => Stage::Done(Err(cause)),
            (Stage::Reloading, Event::Reloaded(Ok(_))) => Stage::Settling,
            (Stage::Reloading, Event::Reloaded(Err(e))) => Stage::Done(Err(e)),
            (Stage::Settling, Event::Slept) => Stage::Done(Ok(())),
            (stage, _) => stage,
        };
        ConfigEdit { service_name: self.service_name, domain: self.domain, stage }
    }

    /// Whether the edit is over.
    pub fn is_done(&self) -> (done: bool)
        ensures
            done == self@.stage is Done,
    {
        match &self.stage {
            Stage::Done(_) => true,
            _ => false,
        }
    }

    /// How the edit ended, or `None` where it is still under way.
    pub fn outcome(self) -> (outcome: Option<Result<(), ConfigError>>)
        ensures
            match outcome {
                Some(r) => self@.stage == StageView::Done(outcome_view(r)),
                None => !(self@.stage is Done),
            },
    {
        match self.stage {
            Stage::Done(r) => Some(r),
            _ => None,
        }
    }
}

// ── what the outside world answers ──────────────────────────────────────────
/// What `haproxy -c` says of the file, from its exit status and what it wrote to
/// standard error.
pub fn validation_outcome(success: bool, stderr: &str) -> (outcome: Result<(), ConfigError>)
    ensures
        outcome_view(outcome) == (if success {
            Ok(())
        } else {
            Err(ConfigErrorView::ValidationFailed(text::trimmed(stderr@)))
        }),
{
    if success {
        Ok(())
    } else {
        Err(ConfigError::ValidationFailed(trim(stderr)))
    }
}

/// The error for a PID file that cannot be read.
pub fn pid_unreadable(pid_path: &str, error: &str) -> (e: ConfigError)
    ensures
        e@ == ConfigErrorView::ReloadFailed(
            "cannot read PID file "@ + pid_path@ + ": "@ + error@,
        ),
{
    let mut words = "cannot read PID file ".to_owned();
    words.append(pid_path);
    words.append(": ");
    words.append(error);
    ConfigError::ReloadFailed(words)
}

/// The process to signal, from what the PID file holds.
pub fn reload_target(pid_path: &str, pid_text: &str) -> (target: Result<u32, ConfigError>)
    ensures
        match target {
            Ok(pid) => text::u32_of(text::trimmed(pid_text@)) == Some(pid),
            Err(e) => {
                &&& text::u32_of(text::trimmed(pid_text@)) is None
                &&& e@ == ConfigErrorView::ReloadFailed(
                    "invalid PID in "@ + pid_path@ + ": "@ + text::trimmed(pid_text@),
                )
            },
        },
{
    let bare = trim(pid_text);
    match parse_u32(bare.as_str()) {
        Some(pid) => Ok(pid),
        None => {
            let mut words = "invalid PID in ".to_owned();
            words.append(pid_path);
            words.append(": ");
            words.append(bare.as_str());
            Err(ConfigError::ReloadFailed(words))
        },
    }
}

/// The error for a signal that could not be sent.
pub fn signal_failed(pid: u32, error: &str) -> (e: ConfigError)
    ensures
        e@ == ConfigErrorView::ReloadFailed(
            "kill -USR2 "@ + text::decimal(pid as nat) + ": "@ + error@,
        ),
{
    let mut words = "kill -USR2 ".to_owned();
    words.append(decimal_text(pid as u64).as_str());
    words.append(": ");
    words.append(error);
    ConfigError::ReloadFailed(words)
}

} // verus!
