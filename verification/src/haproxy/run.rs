//! A list of runtime commands that are sent one after another until one fails.
//!
//! [`RuntimeRun`] decides what to send next; the caller owns the admin socket.
use crate::haproxy::runtime::{RuntimeError, RuntimeErrorView};
use crate::haproxy::runtime;
use vstd::prelude::*;

verus! {

/// One thing to do: a command, and another one to send in its place where HAProxy
/// says that the server is not there.
pub struct Attempt {
    /// The command, or why there is none.
    pub first: Result<String, RuntimeError>,
    /// The command for a server that is not there.
    pub fallback: Option<String>,
}

/// The value of an [`Attempt`].
pub struct AttemptView {
    /// The command, or why there is none.
    pub first: Result<Seq<char>, RuntimeErrorView>,
    /// The command for a server that is not there.
    pub fallback: Option<Seq<char>>,
}

impl View for Attempt {
    type V = AttemptView;

    open spec fn view(&self) -> AttemptView {
        AttemptView {
            first: runtime::attempt_view(self.first),
            fallback: match self.fallback {
                Some(c) => Some(c@),
                None => None,
            },
        }
    }
}

/// A command with nothing to send in its place.
pub open spec fn plain(command: Seq<char>) -> AttemptView {
    AttemptView { first: Ok(command), fallback: None }
}

/// Makes a command into a thing to do.
pub fn plainly(command: String) -> (attempt: Attempt)
    ensures
        attempt@ == plain(command@),
{
    Attempt { first: Ok(command), fallback: None }
}

/// The values of a list of things to do.
pub open spec fn attempts(list: Seq<Attempt>) -> Seq<AttemptView> {
    Seq::new(list.len(), |i: int| list[i]@)
}

/// A run through a list of commands. It stops at the first one that fails.
pub struct RuntimeRun {
    steps: Vec<Attempt>,
    at: usize,
    second: bool,
    failed: Option<RuntimeError>,
}

/// The value of a [`RuntimeRun`].
#[verifier::ext_equal]
pub struct RunView {
    /// What is left to do.
    pub todo: Seq<AttemptView>,
    /// Whether the first thing to do is tried with its second command.
    pub second: bool,
    /// Why the run stopped.
    pub failed: Option<RuntimeErrorView>,
}

impl RunView {
    /// The run after its first thing to do failed.
    pub open spec fn failing(self, e: RuntimeErrorView) -> RunView {
        if !self.second && self.todo[0].fallback is Some && e.says_no_such_server() {
            RunView { second: true, ..self }
        } else {
            RunView { failed: Some(e), ..self }
        }
    }

    /// The run once a thing to do that has no command has failed.
    pub open spec fn settled(self) -> RunView {
        if self.failed is None && self.todo.len() > 0 && !self.second && self.todo[0].first is Err {
            self.failing(self.todo[0].first->Err_0)
        } else {
            self
        }
    }

    /// The command to send, or `None` where the run is over.
    pub open spec fn command(self) -> Option<Seq<char>> {
        if self.failed is Some || self.todo.len() == 0 {
            None
        } else if self.second {
            self.todo[0].fallback
        } else {
            Some(self.todo[0].first->Ok_0)
        }
    }

    /// The run after an answer. An answer to a run that is over changes nothing.
    pub open spec fn after(self, answer: Result<Seq<char>, RuntimeErrorView>) -> RunView {
        if self.command() is None {
            self
        } else {
            match answer {
                Ok(_) => RunView {
                    todo: self.todo.drop_first(),
                    second: false,
                    failed: None,
                }.settled(),
                Err(e) => self.failing(e),
            }
        }
    }

    /// How the run ended, or `None` where it is still under way.
    pub open spec fn outcome(self) -> Option<Result<(), RuntimeErrorView>> {
        match self.failed {
            Some(e) => Some(Err(e)),
            None => if self.todo.len() == 0 {
                Some(Ok(()))
            } else {
                None
            },
        }
    }
}

/// A run that is about to start.
pub open spec fn starting(todo: Seq<AttemptView>) -> RunView {
    RunView { todo, second: false, failed: None }.settled()
}

impl View for RuntimeRun {
    type V = RunView;

    closed spec fn view(&self) -> RunView {
        RunView {
            todo: attempts(self.steps@).skip(self.at as int),
            second: self.second,
            failed: match self.failed {
                Some(e) => Some(e@),
                None => None,
            },
        }
    }
}

impl RuntimeRun {
    #[verifier::type_invariant]
    spec fn well_formed(self) -> bool {
        &&& self.at <= self.steps@.len()
        &&& self.second ==> self.at < self.steps@.len() && self.steps@[self.at as int].fallback
            is Some
        &&& self.failed is None && self.at < self.steps@.len() && !self.second
            ==> self.steps@[self.at as int].first is Ok
    }

    /// Starts a run.
    pub fn start(steps: Vec<Attempt>) -> (run: RuntimeRun)
        ensures
            run@ == starting(attempts(steps@)),
    {
        assert(attempts(steps@).skip(0) =~= attempts(steps@));
        Self::settle(steps, 0)
    }

    /// Goes on with the thing to do at a position.
    fn settle(steps: Vec<Attempt>, at: usize) -> (run: RuntimeRun)
        requires
            at <= steps@.len(),
        ensures
            run@ == starting(attempts(steps@).skip(at as int)),
    {
        if at < steps.len() {
            assert(attempts(steps@).skip(at as int)[0] == steps@[at as int]@);
            match &steps[at].first {
                Ok(_) => {},
                Err(e) => {
                    let e = e.clone();
                    return Self::fail(steps, at, false, e);
                },
            }
        }
        RuntimeRun { steps, at, second: false, failed: None }
    }

    /// Ends with an error, or goes on with the second command.
    fn fail(steps: Vec<Attempt>, at: usize, second: bool, e: RuntimeError) -> (run: RuntimeRun)
        requires
            at < steps@.len(),
            second ==> steps@[at as int].fallback is Some,
        ensures
            run@ == (RunView {
                todo: attempts(steps@).skip(at as int),
                second,
                failed: None,
            }).failing(e@),
    {
        assert(attempts(steps@).skip(at as int)[0] == steps@[at as int]@);
        if !second && steps[at].fallback.is_some() && e.says_no_such_server() {
            RuntimeRun { steps, at, second: true, failed: None }
        } else {
            RuntimeRun { steps, at, second, failed: Some(e) }
        }
    }

    /// The command to send, or `None` where the run is over.
    pub fn command(&self) -> (command: Option<String>)
        ensures
            match command {
                Some(c) => self@.command() == Some(c@),
                None => self@.command() is None,
            },
    {
        proof {
            use_type_invariant(self);
        }
        if self.failed.is_some() || self.at >= self.steps.len() {
            return None;
        }
        assert(attempts(self.steps@).skip(self.at as int)[0] == self.steps@[self.at as int]@);
        let step = &self.steps[self.at];
        if self.second {
            match &step.fallback {
                Some(c) => Some(c.clone()),
                None => None,
            }
        } else {
            match &step.first {
                Ok(c) => Some(c.clone()),
                Err(_) => None,
            }
        }
    }

    /// Takes in the answer to the last command.
    pub fn resume(self, answer: Result<String, RuntimeError>) -> (next: RuntimeRun)
        ensures
            next@ == self@.after(runtime::attempt_view(answer)),
    {
        proof {
            use_type_invariant(&self);
        }
        if self.failed.is_some() || self.at >= self.steps.len() {
            return self;
        }
        assert(attempts(self.steps@).skip(self.at as int)[0] == self.steps@[self.at as int]@);
        match answer {
            Ok(_) => {
                assert(attempts(self.steps@).skip(self.at as int).drop_first() =~= attempts(
                    self.steps@,
                ).skip(self.at + 1));
                Self::settle(self.steps, self.at + 1)
            },
            Err(e) => Self::fail(self.steps, self.at, self.second, e),
        }
    }

    /// How the run ended, or `None` where it is still under way.
    pub fn outcome(&self) -> (outcome: Option<Result<(), RuntimeError>>)
        ensures
            match outcome {
                Some(Ok(_)) => self@.outcome() == Some(Ok::<(), RuntimeErrorView>(())),
                Some(Err(e)) => self@.outcome() == Some(Err::<(), RuntimeErrorView>(e@)),
                None => self@.outcome() is None,
            },
    {
        proof {
            use_type_invariant(self);
        }
        match &self.failed {
            Some(e) => Some(Err(e.clone())),
            None => if self.at >= self.steps.len() {
                Some(Ok(()))
            } else {
                None
            },
        }
    }
}

} // verus!
