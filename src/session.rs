use vstd::prelude::*;

use crate::error::{Error, Result};

verus! {

/// The native callback context in which the terminate bridge is called: at
/// each node of a branch-and-cut search.
pub const CB_CONTEXT_MIPNODE: i32 = 4;

/// What the terminate bridge returns to the native layer to go on.
pub const CALLBACK_CONTINUE: i32 = 0;

/// What the terminate bridge returns to the native layer to stop at the next
/// safe point.
pub const CALLBACK_STOP: i32 = 10;

/// The terminate bridge's answer to one native call.
#[derive(Debug, Clone, Copy, PartialEq, Eq, Structural)]
pub struct TerminateReply {
    /// Whether to issue an interrupt request against the problem.
    pub interrupt: bool,
    /// The status to return to the native layer.
    pub status: i32,
}

/// Turns the caller's cancellation request into the bridge's answer: on
/// `true`, interrupt and return the stop code; on `false`, the neutral
/// continue code and no interrupt.
pub fn terminate_reply(stop: bool) -> (r: TerminateReply)
    ensures
        r.interrupt == stop,
        r.status == (if stop {
            CALLBACK_STOP
        } else {
            CALLBACK_CONTINUE
        }),
{
    if stop {
        TerminateReply { interrupt: true, status: CALLBACK_STOP }
    } else {
        TerminateReply { interrupt: false, status: CALLBACK_CONTINUE }
    }
}

/// The two callback bridges a solve can run with.
#[derive(Debug, Clone, Copy, PartialEq, Eq, Structural)]
pub enum Bridge {
    Log,
    Terminate,
}

/// Where a solve session stands.
#[derive(Debug, Clone, Copy, PartialEq, Eq, Structural)]
pub enum Stage {
    InstallLog,
    InstallTerminate,
    Solve,
    RemoveLog,
    RemoveTerminate,
    Done,
}

/// The next native step of a solve session.
#[derive(Debug, Clone, Copy, PartialEq, Eq)]
pub enum SolveAction {
    /// Install this bridge.
    Install(Bridge),
    /// Run the native solve.
    Solve,
    /// Set this bridge's native callback back to none.
    Remove(Bridge),
    /// The session is over, with this outcome.
    Finish(Result<()>),
}

/// The state of a solve session as a plain value.
#[derive(Debug, Clone, Copy, PartialEq, Eq, Structural)]
pub struct SessionState {
    pub want_log: bool,
    pub want_terminate: bool,
    pub log_installed: bool,
    pub terminate_installed: bool,
    pub stage: Stage,
    pub error: Option<Error>,
}

/// The first error of a session, given the error so far and a new code.
pub open spec fn keep_first(error: Option<Error>, code: i32) -> Option<Error> {
    if error is Some {
        error
    } else if code != 0 {
        Some(Error::NativeError(code))
    } else {
        None
    }
}

/// Moves past the stages that have nothing to do: a bridge that is not
/// wanted is not installed, and one that is not installed is not removed.
pub open spec fn settle(s: SessionState) -> SessionState {
    let s1 = if s.stage == Stage::InstallLog && !s.want_log {
        SessionState { stage: Stage::InstallTerminate, ..s }
    } else {
        s
    };
    let s2 = if s1.stage == Stage::InstallTerminate && !s1.want_terminate {
        SessionState { stage: Stage::Solve, ..s1 }
    } else {
        s1
    };
    let s3 = if s2.stage == Stage::RemoveLog && !s2.log_installed {
        SessionState { stage: Stage::RemoveTerminate, ..s2 }
    } else {
        s2
    };
    if s3.stage == Stage::RemoveTerminate && !s3.terminate_installed {
        SessionState { stage: Stage::Done, ..s3 }
    } else {
        s3
    }
}

/// The session for a solve with the given bridges, before any native call.
pub open spec fn initial_state(want_log: bool, want_terminate: bool) -> SessionState {
    settle(
        SessionState {
            want_log,
            want_terminate,
            log_installed: false,
            terminate_installed: false,
            stage: Stage::InstallLog,
            error: None,
        },
    )
}

/// The session after the native step of `s` returned `code`.
///
/// A failed install skips the solve and goes straight to removing what was
/// installed. The solve is followed by the removals whatever it returned.
/// The session's outcome is the first nonzero code.
pub open spec fn step(s: SessionState, code: i32) -> SessionState {
    let error = keep_first(s.error, code);
    settle(
        match s.stage {
            Stage::InstallLog => if code == 0 {
                SessionState { log_installed: true, stage: Stage::InstallTerminate, ..s }
            } else {
                SessionState { error, stage: Stage::RemoveLog, ..s }
            },
            Stage::InstallTerminate => if code == 0 {
                SessionState { terminate_installed: true, stage: Stage::Solve, ..s }
            } else {
                SessionState { error, stage: Stage::RemoveLog, ..s }
            },
            Stage::Solve => SessionState { error, stage: Stage::RemoveLog, ..s },
            Stage::RemoveLog => SessionState {
                log_installed: false,
                error,
                stage: Stage::RemoveTerminate,
                ..s
            },
            Stage::RemoveTerminate => SessionState {
                terminate_installed: false,
                error,
                stage: Stage::Done,
                ..s
            },
            Stage::Done => s,
        },
    )
}

/// The native step a session in state `s` asks for.
pub open spec fn action_of(s: SessionState) -> SolveAction {
    match s.stage {
        Stage::InstallLog => SolveAction::Install(Bridge::Log),
        Stage::InstallTerminate => SolveAction::Install(Bridge::Terminate),
        Stage::Solve => SolveAction::Solve,
        Stage::RemoveLog => SolveAction::Remove(Bridge::Log),
        Stage::RemoveTerminate => SolveAction::Remove(Bridge::Terminate),
        Stage::Done => SolveAction::Finish(
            match s.error {
                Some(e) => Err(e),
                None => Ok(()),
            },
        ),
    }
}

/// The states a session can be in.
pub open spec fn session_wf(s: SessionState) -> bool {
    &&& s.log_installed ==> s.want_log
    &&& s.terminate_installed ==> s.want_terminate
    &&& match s.stage {
        Stage::InstallLog => s.want_log && !s.log_installed && !s.terminate_installed && s.error
            is None,
        Stage::InstallTerminate => s.want_terminate && s.log_installed == s.want_log
            && !s.terminate_installed && s.error is None,
        Stage::Solve => s.log_installed == s.want_log && s.terminate_installed == s.want_terminate
            && s.error is None,
        Stage::RemoveLog => s.log_installed,
        Stage::RemoveTerminate => !s.log_installed && s.terminate_installed,
        Stage::Done => !s.log_installed && !s.terminate_installed,
    }
}

/// How far along a session is; every native step moves it further.
pub open spec fn stage_rank(stage: Stage) -> nat {
    match stage {
        Stage::InstallLog => 0,
        Stage::InstallTerminate => 1,
        Stage::Solve => 2,
        Stage::RemoveLog => 3,
        Stage::RemoveTerminate => 4,
        Stage::Done => 5,
    }
}

/// Every step of an unfinished session keeps it well formed, moves it to a
/// later stage, and keeps the first error.
pub proof fn lemma_step(s: SessionState, code: i32)
    requires
        session_wf(s),
        s.stage != Stage::Done,
    ensures
        session_wf(step(s, code)),
        stage_rank(step(s, code).stage) > stage_rank(s.stage),
        step(s, code).error == keep_first(s.error, code),
        step(s, code).want_log == s.want_log,
        step(s, code).want_terminate == s.want_terminate,
{
}

/// The solve runs only with every wanted bridge installed, and a finished
/// session has removed every bridge it installed.
pub proof fn lemma_bridges_in_place(s: SessionState)
    requires
        session_wf(s),
    ensures
        s.stage == Stage::Solve ==> s.log_installed == s.want_log && s.terminate_installed
            == s.want_terminate,
        s.stage == Stage::Done ==> !s.log_installed && !s.terminate_installed,
{
}

/// Once the solve has run, the session goes on to remove every installed
/// bridge, whatever the solve returned, and a failed solve is the outcome.
pub proof fn lemma_solve_then_remove(s: SessionState, code: i32)
    requires
        session_wf(s),
        s.stage == Stage::Solve,
    ensures
        step(s, code).stage == (if s.want_log {
            Stage::RemoveLog
        } else if s.want_terminate {
            Stage::RemoveTerminate
        } else {
            Stage::Done
        }),
        code != 0 ==> step(s, code).error == Some(Error::NativeError(code)),
{
}

/// The protocol of one solve with callback bridges: install the wanted
/// bridges, solve, then remove every installed bridge, whether or not the
/// solve succeeded, so that no native callback is left holding a context
/// that is gone.
///
/// The runner asks `next_action`, performs it natively, and hands the
/// return code to `record`, until the action is `Finish`.
pub struct SolveSession {
    state: SessionState,
}

impl View for SolveSession {
    type V = SessionState;

    closed spec fn view(&self) -> SessionState {
        self.state
    }
}

fn keep_first_exec(error: Option<Error>, code: i32) -> (r: Option<Error>)
    ensures
        r == keep_first(error, code),
{
    match error {
        Some(e) => Some(e),
        None => if code != 0 {
            Some(Error::NativeError(code))
        } else {
            None
        },
    }
}

fn settle_exec(s: SessionState) -> (r: SessionState)
    ensures
        r == settle(s),
{
    let mut r = s;
    if r.stage == Stage::InstallLog && !r.want_log {
        r.stage = Stage::InstallTerminate;
    }
    if r.stage == Stage::InstallTerminate && !r.want_terminate {
        r.stage = Stage::Solve;
    }
    if r.stage == Stage::RemoveLog && !r.log_installed {
        r.stage = Stage::RemoveTerminate;
    }
    if r.stage == Stage::RemoveTerminate && !r.terminate_installed {
        r.stage = Stage::Done;
    }
    r
}

fn step_exec(s: SessionState, code: i32) -> (r: SessionState)
    ensures
        r == step(s, code),
{
    let error = keep_first_exec(s.error, code);
    let mut t = s;
    match s.stage {
        Stage::InstallLog => {
            if code == 0 {
                t.log_installed = true;
                t.stage = Stage::InstallTerminate;
            } else {
                t.error = error;
                t.stage = Stage::RemoveLog;
            }
        },
        Stage::InstallTerminate => {
            if code == 0 {
                t.terminate_installed = true;
                t.stage = Stage::Solve;
            } else {
                t.error = error;
                t.stage = Stage::RemoveLog;
            }
        },
        Stage::Solve => {
            t.error = error;
            t.stage = Stage::RemoveLog;
        },
        Stage::RemoveLog => {
            t.log_installed = false;
            t.error = error;
            t.stage = Stage::RemoveTerminate;
        },
        Stage::RemoveTerminate => {
            t.terminate_installed = false;
            t.error = error;
            t.stage = Stage::Done;
        },
        Stage::Done => {},
    }
    settle_exec(t)
}

impl SolveSession {
    #[verifier::type_invariant]
    spec fn inv(&self) -> bool {
        session_wf(self@)
    }

    /// A session for a solve with the given bridges.
    pub fn new(want_log: bool, want_terminate: bool) -> (r: SolveSession)
        ensures
            r@ == initial_state(want_log, want_terminate),
    {
        let s = SessionState {
            want_log,
            want_terminate,
            log_installed: false,
            terminate_installed: false,
            stage: Stage::InstallLog,
            error: None,
        };
        SolveSession { state: settle_exec(s) }
    }

    /// The native step to perform next, or the outcome once the session is
    /// over.
    pub fn next_action(&self) -> (r: SolveAction)
        ensures
            r == action_of(self@),
    {
        match self.state.stage {
            Stage::InstallLog => SolveAction::Install(Bridge::Log),
            Stage::InstallTerminate => SolveAction::Install(Bridge::Terminate),
            Stage::Solve => SolveAction::Solve,
            Stage::RemoveLog => SolveAction::Remove(Bridge::Log),
            Stage::RemoveTerminate => SolveAction::Remove(Bridge::Terminate),
            Stage::Done => SolveAction::Finish(
                match self.state.error {
                    Some(e) => Err(e),
                    None => Ok(()),
                },
            ),
        }
    }

    /// Records the native return code of the step `next_action` asked for.
    pub fn record(&mut self, code: i32)
        requires
            !(action_of(old(self)@) is Finish),
        ensures
            final(self)@ == step(old(self)@, code),
    {
        proof {
            use_type_invariant(&*self);
            lemma_step(self@, code);
        }
        self.state = step_exec(self.state, code);
    }

    /// Whether the session is over.
    pub fn is_finished(&self) -> (r: bool)
        ensures
            r == (self@.stage == Stage::Done),
    {
        self.state.stage == Stage::Done
    }
}

} // verus!
