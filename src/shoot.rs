use vstd::prelude::*;
use crate::error::AstroPhiError;

verus! {

/// The pause after each capture, in milliseconds.
pub const SHOT_PAUSE_MILLIS: u64 = 100;

#[derive(Clone, Copy, Debug, PartialEq, Eq, Structural)]
pub enum ShootPhase {
    Capturing,
    Pausing,
    Committing,
    Done,
}

/// What the camera side is asked to do next.
#[derive(Debug)]
pub enum ShootAction {
    /// Capture one frame.
    Capture,
    /// Wait this many milliseconds.
    Pause(u64),
    /// Add this many frames to the counter and persist it.
    Commit(u32),
    /// The run is over.
    Finish(Result<(), AstroPhiError>),
}

/// What the camera side reports back.
#[derive(Debug)]
pub enum ShootEvent {
    Done,
    Failed(AstroPhiError),
}

/// Shoots `count` frames, one after another with a pause after each, and
/// only then charges the counter with all of them. A fault stops the run
/// and the counter is not charged.
#[derive(Clone, Copy, Debug)]
pub struct ShootRun {
    pub count: u32,
    pub captured: u32,
    pub phase: ShootPhase,
}

impl ShootRun {
    pub open spec fn wf(self) -> bool {
        &&& self.captured <= self.count
        &&& self.phase == ShootPhase::Capturing ==> self.captured < self.count
    }
}

pub open spec fn shoot_finish(s: ShootRun, r: Result<(), AstroPhiError>) -> (ShootRun, ShootAction) {
    (ShootRun { phase: ShootPhase::Done, ..s }, ShootAction::Finish(r))
}

/// One transition: the state after `ev`, and the next action.
pub open spec fn shoot_next(s: ShootRun, ev: ShootEvent) -> (ShootRun, ShootAction) {
    match s.phase {
        ShootPhase::Capturing => match ev {
            ShootEvent::Done => (
                ShootRun { phase: ShootPhase::Pausing, captured: (s.captured + 1) as u32, ..s },
                ShootAction::Pause(SHOT_PAUSE_MILLIS),
            ),
            ShootEvent::Failed(e) => shoot_finish(s, Err(e)),
        },
        ShootPhase::Pausing => if s.captured < s.count {
            (ShootRun { phase: ShootPhase::Capturing, ..s }, ShootAction::Capture)
        } else {
            (ShootRun { phase: ShootPhase::Committing, ..s }, ShootAction::Commit(s.count))
        },
        ShootPhase::Committing => match ev {
            ShootEvent::Done => shoot_finish(s, Ok(())),
            ShootEvent::Failed(e) => shoot_finish(s, Err(e)),
        },
        ShootPhase::Done => shoot_finish(s, Err(AstroPhiError::Internal)),
    }
}

impl ShootRun {
    /// A run of `count` frames with its first action; shooting zero frames
    /// finishes at once and touches nothing.
    pub fn new(count: u32) -> (r: (ShootRun, ShootAction))
        ensures
            r.0.wf(),
            r.0.count == count,
            r.0.captured == 0,
            count == 0 ==> r.0.phase == ShootPhase::Done && r.1 == ShootAction::Finish(
                Ok::<(), AstroPhiError>(()),
            ),
            count > 0 ==> r.0.phase == ShootPhase::Capturing && r.1 == ShootAction::Capture,
    {
        if count == 0 {
            (
                ShootRun { count, captured: 0, phase: ShootPhase::Done },
                ShootAction::Finish(Ok(())),
            )
        } else {
            (ShootRun { count, captured: 0, phase: ShootPhase::Capturing }, ShootAction::Capture)
        }
    }

    /// Takes the camera side's report on the last action and returns the
    /// next action.
    pub fn step(&mut self, ev: ShootEvent) -> (a: ShootAction)
        requires
            old(self).wf(),
        ensures
            (*final(self), a) == shoot_next(*old(self), ev),
            final(self).wf(),
    {
        match self.phase {
            ShootPhase::Capturing => match ev {
                ShootEvent::Done => {
                    self.captured = self.captured + 1;
                    self.phase = ShootPhase::Pausing;
                    ShootAction::Pause(SHOT_PAUSE_MILLIS)
                },
                ShootEvent::Failed(e) => {
                    self.phase = ShootPhase::Done;
                    ShootAction::Finish(Err(e))
                },
            },
            ShootPhase::Pausing => if self.captured < self.count {
                self.phase = ShootPhase::Capturing;
                ShootAction::Capture
            } else {
                self.phase = ShootPhase::Committing;
                ShootAction::Commit(self.count)
            },
            ShootPhase::Committing => {
                self.phase = ShootPhase::Done;
                match ev {
                    ShootEvent::Done => ShootAction::Finish(Ok(())),
                    ShootEvent::Failed(e) => ShootAction::Finish(Err(e)),
                }
            },
            ShootPhase::Done => ShootAction::Finish(Err(AstroPhiError::Internal)),
        }
    }
}

/// The counter is charged only once every frame has been captured, and then
/// with exactly the number of frames asked for.
pub proof fn lemma_commit_after_all_frames(s: ShootRun, ev: ShootEvent)
    requires
        s.wf(),
        shoot_next(s, ev).1 is Commit,
    ensures
        s.captured == s.count,
        shoot_next(s, ev).1 == ShootAction::Commit(s.count),
{
}

} // verus!
