use vstd::prelude::*;
use crate::error::AstroPhiError;

verus! {

/// How long the analysis tool may run, in seconds of wall-clock time.
pub const SOLVE_DEADLINE_SECS: u64 = 180;

/// The working file that the captured image is written to.
pub const WORK_IMAGE: &'static str = "solve.jpg";

/// The result image that the analysis tool leaves behind.
pub const RESULT_IMAGE: &'static str = "solve-ngc.png";

/// The analysis tool.
pub const SOLVE_PROGRAM: &'static str = "solve-field";

/// How much the tool shrinks the image before it searches.
pub const DOWNSAMPLE_FACTOR: &'static str = "2";

/// The search path that the tool is launched with.
pub const SOLVE_PATH: &'static str = "/usr/local/bin:/usr/bin:/bin:/usr/local/sbin:/usr/sbin:/sbin:/usr/local/astrometry/bin";

/// Where a plate-solve run stands.
#[derive(Clone, Copy, Debug, PartialEq, Eq, Structural)]
pub enum SolvePhase {
    WriteImage,
    Launch,
    Wait,
    Kill,
    Reap,
    ReadResult,
    Done,
}

/// What the process side is asked to do next.
#[derive(Debug)]
pub enum SolveAction {
    /// Write these bytes to the working file, overwriting it.
    WriteImage(Vec<u8>),
    /// Start the tool on the working file.
    Launch,
    /// Wait for the tool to exit, for at most this many seconds.
    WaitFor(u64),
    /// Terminate the tool.
    Kill,
    /// Wait for the terminated tool, so that it is not left behind.
    Reap,
    /// Read the whole result file.
    ReadResult,
    /// The run is over, with this reply.
    Finish(Result<Vec<u8>, AstroPhiError>),
}

/// What the process side reports back.
#[derive(Debug)]
pub enum SolveEvent {
    /// The last action was carried out.
    Done,
    /// The last action failed.
    Failed(AstroPhiError),
    /// The tool exited in time, with this exit code, if it had one.
    Exited(Option<i32>),
    /// The deadline passed while the tool was running.
    TimedOut,
    /// The result file's contents.
    Contents(Vec<u8>),
}

/// Runs the analysis tool on an image under a hard deadline. A tool that
/// is still running when the deadline passes, or whose wait fails, is
/// terminated and reaped before the run fails.
#[derive(Debug)]
pub struct SolveRunner {
    pub phase: SolvePhase,
    /// Why the run fails once the tool is reaped.
    pub failure: Option<AstroPhiError>,
}

pub open spec fn finish(s: SolveRunner, r: Result<Vec<u8>, AstroPhiError>) -> (
    SolveRunner,
    SolveAction,
) {
    (SolveRunner { phase: SolvePhase::Done, failure: None }, SolveAction::Finish(r))
}

pub open spec fn stop_tool(e: AstroPhiError) -> (SolveRunner, SolveAction) {
    (SolveRunner { phase: SolvePhase::Kill, failure: Some(e) }, SolveAction::Kill)
}

pub open spec fn solve_failure(failure: Option<AstroPhiError>) -> AstroPhiError {
    match failure {
        Some(e) => e,
        None => AstroPhiError::Internal,
    }
}

/// One transition: the state after `ev`, and the next action.
pub open spec fn solve_next(s: SolveRunner, ev: SolveEvent) -> (SolveRunner, SolveAction) {
    match s.phase {
        SolvePhase::WriteImage => match ev {
            SolveEvent::Done => (SolveRunner { phase: SolvePhase::Launch, ..s }, SolveAction::Launch),
            SolveEvent::Failed(e) => finish(s, Err(e)),
            _ => finish(s, Err(AstroPhiError::Internal)),
        },
        SolvePhase::Launch => match ev {
            SolveEvent::Done => (
                SolveRunner { phase: SolvePhase::Wait, ..s },
                SolveAction::WaitFor(SOLVE_DEADLINE_SECS),
            ),
            SolveEvent::Failed(e) => finish(s, Err(e)),
            _ => finish(s, Err(AstroPhiError::Internal)),
        },
        SolvePhase::Wait => match ev {
            SolveEvent::Exited(code) => if code == Some(0i32) {
                (SolveRunner { phase: SolvePhase::ReadResult, ..s }, SolveAction::ReadResult)
            } else {
                finish(s, Err(AstroPhiError::Internal))
            },
            SolveEvent::TimedOut => stop_tool(AstroPhiError::Internal),
            SolveEvent::Failed(e) => stop_tool(e),
            _ => stop_tool(AstroPhiError::Internal),
        },
        SolvePhase::Kill => (SolveRunner { phase: SolvePhase::Reap, ..s }, SolveAction::Reap),
        SolvePhase::Reap => finish(s, Err(solve_failure(s.failure))),
        SolvePhase::ReadResult => match ev {
            SolveEvent::Contents(bytes) => finish(s, Ok(bytes)),
            SolveEvent::Failed(e) => finish(s, Err(e)),
            _ => finish(s, Err(AstroPhiError::Internal)),
        },
        SolvePhase::Done => finish(s, Err(AstroPhiError::Internal)),
    }
}

impl SolveRunner {
    /// A run on `image`, with its first action: writing the image to the
    /// working file.
    pub fn new(image: Vec<u8>) -> (r: (SolveRunner, SolveAction))
        ensures
            r.0.phase == SolvePhase::WriteImage,
            r.0.failure is None,
            r.1 == SolveAction::WriteImage(image),
    {
        (SolveRunner { phase: SolvePhase::WriteImage, failure: None }, SolveAction::WriteImage(image))
    }

    fn finish_with(&mut self, r: Result<Vec<u8>, AstroPhiError>) -> (a: SolveAction)
        ensures
            (*final(self), a) == finish(*old(self), r),
    {
        self.phase = SolvePhase::Done;
        self.failure = None;
        SolveAction::Finish(r)
    }

    fn stop_with(&mut self, e: AstroPhiError) -> (a: SolveAction)
        ensures
            (*final(self), a) == stop_tool(e),
    {
        self.phase = SolvePhase::Kill;
        self.failure = Some(e);
        SolveAction::Kill
    }

    /// Takes the process side's report on the last action and returns the
    /// next action.
    pub fn step(&mut self, ev: SolveEvent) -> (a: SolveAction)
        ensures
            (*final(self), a) == solve_next(*old(self), ev),
    {
        match self.phase {
            SolvePhase::WriteImage => match ev {
                SolveEvent::Done => {
                    self.phase = SolvePhase::Launch;
                    SolveAction::Launch
                },
                SolveEvent::Failed(e) => self.finish_with(Err(e)),
                _ => self.finish_with(Err(AstroPhiError::Internal)),
            },
            SolvePhase::Launch => match ev {
                SolveEvent::Done => {
                    self.phase = SolvePhase::Wait;
                    SolveAction::WaitFor(SOLVE_DEADLINE_SECS)
                },
                SolveEvent::Failed(e) => self.finish_with(Err(e)),
                _ => self.finish_with(Err(AstroPhiError::Internal)),
            },
            SolvePhase::Wait => match ev {
                SolveEvent::Exited(code) => {
                    let exited_cleanly = match code {
                        Some(c) => c == 0,
                        None => false,
                    };
                    if exited_cleanly {
                        self.phase = SolvePhase::ReadResult;
                        SolveAction::ReadResult
                    } else {
                        self.finish_with(Err(AstroPhiError::Internal))
                    }
                },
                SolveEvent::TimedOut => self.stop_with(AstroPhiError::Internal),
                SolveEvent::Failed(e) => self.stop_with(e),
                _ => self.stop_with(AstroPhiError::Internal),
            },
            SolvePhase::Kill => {
                self.phase = SolvePhase::Reap;
                SolveAction::Reap
            },
            SolvePhase::Reap => {
                let e = match self.failure.take() {
                    Some(e) => e,
                    None => AstroPhiError::Internal,
                };
                self.finish_with(Err(e))
            },
            SolvePhase::ReadResult => match ev {
                SolveEvent::Contents(bytes) => self.finish_with(Ok(bytes)),
                SolveEvent::Failed(e) => self.finish_with(Err(e)),
                _ => self.finish_with(Err(AstroPhiError::Internal)),
            },
            SolvePhase::Done => self.finish_with(Err(AstroPhiError::Internal)),
        }
    }
}

/// Once the deadline passes, the next two actions are to terminate the tool
/// and to reap it, whatever the process side reports in between, and the
/// run then fails with an internal fault.
pub proof fn lemma_deadline_kills_and_reaps(s: SolveRunner, killed: SolveEvent, reaped: SolveEvent)
    requires
        s.phase == SolvePhase::Wait,
    ensures
        solve_next(s, SolveEvent::TimedOut).1 == SolveAction::Kill,
        solve_next(solve_next(s, SolveEvent::TimedOut).0, killed).1 == SolveAction::Reap,
        solve_next(solve_next(solve_next(s, SolveEvent::TimedOut).0, killed).0, reaped).1
            == SolveAction::Finish(Err(AstroPhiError::Internal)),
{
}

/// A run whose tool exits in time with code 0 and whose result file reads
/// back replies with that file's contents; any other exit fails.
pub proof fn lemma_exit_code_decides(s: SolveRunner, code: Option<i32>, bytes: Vec<u8>)
    requires
        s.phase == SolvePhase::Wait,
    ensures
        code == Some(0i32) ==> solve_next(solve_next(s, SolveEvent::Exited(code)).0, SolveEvent::Contents(bytes)).1
            == SolveAction::Finish(Ok(bytes)),
        code != Some(0i32) ==> solve_next(s, SolveEvent::Exited(code)).1 == SolveAction::Finish(
            Err(AstroPhiError::Internal),
        ),
{
}

} // verus!
