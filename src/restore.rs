use vstd::prelude::*;
use vstd::string::*;
use crate::config::{ConfigObject, ConfigPair};
use crate::error::AstroPhiError;

verus! {

/// Where a save/restore run stands.
#[derive(Clone, Copy, Debug, PartialEq, Eq, Structural)]
pub enum Phase {
    SaveTarget,
    SaveFormat,
    SetTarget,
    SetFormat,
    Operate,
    RestoreTarget,
    RestoreFormat,
    Done,
}

/// What the camera side is asked to do next.
#[derive(Debug)]
pub enum Action {
    /// Read a setting; answer with `Value` or `Failed`.
    Read(ConfigObject),
    /// Write a setting; answer with `Written` or `Failed`.
    Write(ConfigObject, String),
    /// Run the wrapped operation; answer with `Outcome`.
    Operate,
    /// The run is over, with this reply.
    Finish(Result<Vec<u8>, AstroPhiError>),
}

/// What the camera side reports back.
#[derive(Debug)]
pub enum Event {
    Value(String),
    Written,
    Failed(AstroPhiError),
    Outcome(Result<Vec<u8>, AstroPhiError>),
}

/// Runs an operation with the capture target and image format switched to
/// the known operational values, then puts back the values found before,
/// whether the operation succeeded or not. The reply is the operation's own
/// result; a fault while restoring is kept in `target_fault` or
/// `format_fault` for the caller to report, and never replaces that result.
#[derive(Debug)]
pub struct Restorer {
    pub phase: Phase,
    /// The values that the operation needs.
    pub known: ConfigPair,
    /// The values found before the switch.
    pub saved: ConfigPair,
    /// The operation's result, once there is one.
    pub outcome: Option<Result<Vec<u8>, AstroPhiError>>,
    pub target_fault: Option<AstroPhiError>,
    pub format_fault: Option<AstroPhiError>,
}

pub open spec fn known_target() -> Seq<char> {
    "Internal RAM"@
}

pub open spec fn known_format() -> Seq<char> {
    "Smaller JPEG"@
}

/// A run that has not begun.
pub open spec fn fresh(s: Restorer) -> bool {
    &&& s.phase == Phase::SaveTarget
    &&& s.known.capturetarget@ == known_target()
    &&& s.known.imageformat@ == known_format()
    &&& s.outcome is None
    &&& s.target_fault is None
    &&& s.format_fault is None
}

/// Stop before anything was changed on the camera.
pub open spec fn abort(s: Restorer, e: AstroPhiError) -> (Restorer, Action) {
    (Restorer { phase: Phase::Done, ..s }, Action::Finish(Err(e)))
}

/// Keep the result and start putting the saved values back.
pub open spec fn begin_restore(s: Restorer, r: Result<Vec<u8>, AstroPhiError>) -> (
    Restorer,
    Action,
) {
    (
        Restorer { phase: Phase::RestoreTarget, outcome: Some(r), ..s },
        Action::Write(ConfigObject::CaptureTarget, s.saved.capturetarget),
    )
}

pub open spec fn reply_of(outcome: Option<Result<Vec<u8>, AstroPhiError>>) -> Result<
    Vec<u8>,
    AstroPhiError,
> {
    match outcome {
        Some(r) => r,
        None => Err(AstroPhiError::Internal),
    }
}

/// One transition: the state after `ev`, and the next action.
pub open spec fn next(s: Restorer, ev: Event) -> (Restorer, Action) {
    match s.phase {
        Phase::SaveTarget => match ev {
            Event::Value(v) => (
                Restorer {
                    phase: Phase::SaveFormat,
                    saved: s.saved.with_value(ConfigObject::CaptureTarget, v),
                    ..s
                },
                Action::Read(ConfigObject::ImageFormat),
            ),
            Event::Failed(e) => abort(s, e),
            _ => abort(s, AstroPhiError::Internal),
        },
        Phase::SaveFormat => match ev {
            Event::Value(v) => (
                Restorer {
                    phase: Phase::SetTarget,
                    saved: s.saved.with_value(ConfigObject::ImageFormat, v),
                    ..s
                },
                Action::Write(ConfigObject::CaptureTarget, s.known.capturetarget),
            ),
            Event::Failed(e) => abort(s, e),
            _ => abort(s, AstroPhiError::Internal),
        },
        Phase::SetTarget => match ev {
            Event::Written => (
                Restorer { phase: Phase::SetFormat, ..s },
                Action::Write(ConfigObject::ImageFormat, s.known.imageformat),
            ),
            Event::Failed(e) => begin_restore(s, Err(e)),
            _ => begin_restore(s, Err(AstroPhiError::Internal)),
        },
        Phase::SetFormat => match ev {
            Event::Written => (Restorer { phase: Phase::Operate, ..s }, Action::Operate),
            Event::Failed(e) => begin_restore(s, Err(e)),
            _ => begin_restore(s, Err(AstroPhiError::Internal)),
        },
        Phase::Operate => match ev {
            Event::Outcome(r) => begin_restore(s, r),
            Event::Failed(e) => begin_restore(s, Err(e)),
            _ => begin_restore(s, Err(AstroPhiError::Internal)),
        },
        Phase::RestoreTarget => {
            let fault = match ev {
                Event::Written => None,
                Event::Failed(e) => Some(e),
                _ => Some(AstroPhiError::Internal),
            };
            (
                Restorer { phase: Phase::RestoreFormat, target_fault: fault, ..s },
                Action::Write(ConfigObject::ImageFormat, s.saved.imageformat),
            )
        },
        Phase::RestoreFormat => {
            let fault = match ev {
                Event::Written => None,
                Event::Failed(e) => Some(e),
                _ => Some(AstroPhiError::Internal),
            };
            (
                Restorer { phase: Phase::Done, outcome: None, format_fault: fault, ..s },
                Action::Finish(reply_of(s.outcome)),
            )
        },
        Phase::Done => (s, Action::Finish(Err(AstroPhiError::Internal))),
    }
}

impl Restorer {
    /// A run that has not begun, with its first action: reading the
    /// capture target.
    pub fn new() -> (r: (Restorer, Action))
        ensures
            fresh(r.0),
            r.1 == Action::Read(ConfigObject::CaptureTarget),
    {
        let known = ConfigPair {
            capturetarget: String::from_str("Internal RAM"),
            imageformat: String::from_str("Smaller JPEG"),
        };
        let saved = ConfigPair { capturetarget: String::new(), imageformat: String::new() };
        (
            Restorer {
                phase: Phase::SaveTarget,
                known,
                saved,
                outcome: None,
                target_fault: None,
                format_fault: None,
            },
            Action::Read(ConfigObject::CaptureTarget),
        )
    }

    fn abort_with(&mut self, e: AstroPhiError) -> (a: Action)
        ensures
            (*final(self), a) == abort(*old(self), e),
    {
        self.phase = Phase::Done;
        Action::Finish(Err(e))
    }

    fn restore_with(&mut self, r: Result<Vec<u8>, AstroPhiError>) -> (a: Action)
        ensures
            (*final(self), a) == begin_restore(*old(self), r),
    {
        self.phase = Phase::RestoreTarget;
        self.outcome = Some(r);
        Action::Write(ConfigObject::CaptureTarget, self.saved.capturetarget.clone())
    }

    /// Takes the camera side's report on the last action and returns the
    /// next action.
    pub fn step(&mut self, ev: Event) -> (a: Action)
        ensures
            (*final(self), a) == next(*old(self), ev),
    {
        match self.phase {
            Phase::SaveTarget => match ev {
                Event::Value(v) => {
                    self.saved.capturetarget = v;
                    self.phase = Phase::SaveFormat;
                    Action::Read(ConfigObject::ImageFormat)
                },
                Event::Failed(e) => self.abort_with(e),
                _ => self.abort_with(AstroPhiError::Internal),
            },
            Phase::SaveFormat => match ev {
                Event::Value(v) => {
                    self.saved.imageformat = v;
                    self.phase = Phase::SetTarget;
                    Action::Write(ConfigObject::CaptureTarget, self.known.capturetarget.clone())
                },
                Event::Failed(e) => self.abort_with(e),
                _ => self.abort_with(AstroPhiError::Internal),
            },
            Phase::SetTarget => match ev {
                Event::Written => {
                    self.phase = Phase::SetFormat;
                    Action::Write(ConfigObject::ImageFormat, self.known.imageformat.clone())
                },
                Event::Failed(e) => self.restore_with(Err(e)),
                _ => self.restore_with(Err(AstroPhiError::Internal)),
            },
            Phase::SetFormat => match ev {
                Event::Written => {
                    self.phase = Phase::Operate;
                    Action::Operate
                },
                Event::Failed(e) => self.restore_with(Err(e)),
                _ => self.restore_with(Err(AstroPhiError::Internal)),
            },
            Phase::Operate => match ev {
                Event::Outcome(r) => self.restore_with(r),
                Event::Failed(e) => self.restore_with(Err(e)),
                _ => self.restore_with(Err(AstroPhiError::Internal)),
            },
            Phase::RestoreTarget => {
                self.target_fault = match ev {
                    Event::Written => None,
                    Event::Failed(e) => Some(e),
                    _ => Some(AstroPhiError::Internal),
                };
                self.phase = Phase::RestoreFormat;
                Action::Write(ConfigObject::ImageFormat, self.saved.imageformat.clone())
            },
            Phase::RestoreFormat => {
                self.format_fault = match ev {
                    Event::Written => None,
                    Event::Failed(e) => Some(e),
                    _ => Some(AstroPhiError::Internal),
                };
                self.phase = Phase::Done;
                let reply = match self.outcome.take() {
                    Some(r) => r,
                    None => Err(AstroPhiError::Internal),
                };
                Action::Finish(reply)
            },
            Phase::Done => Action::Finish(Err(AstroPhiError::Internal)),
        }
    }
}

/// A camera that keeps every setting it is told and whose operation ends in
/// `outcome`: its state after `a`, and its report.
pub open spec fn answer(camera: ConfigPair, a: Action, outcome: Result<Vec<u8>, AstroPhiError>) -> (
    ConfigPair,
    Event,
) {
    match a {
        Action::Read(o) => (camera, Event::Value(camera.value_of(o))),
        Action::Write(o, v) => (camera.with_value(o, v), Event::Written),
        Action::Operate => (camera, Event::Outcome(outcome)),
        Action::Finish(_) => (camera, Event::Written),
    }
}

/// Drives a run against such a camera for at most `steps` actions, stopping
/// at `Finish`: the state, the last action and the camera's settings.
pub open spec fn drive(
    s: Restorer,
    a: Action,
    camera: ConfigPair,
    outcome: Result<Vec<u8>, AstroPhiError>,
    steps: nat,
) -> (Restorer, Action, ConfigPair)
    decreases steps,
{
    if steps == 0 || a is Finish {
        (s, a, camera)
    } else {
        let (camera2, ev) = answer(camera, a, outcome);
        let (s2, a2) = next(s, ev);
        drive(s2, a2, camera2, outcome, (steps - 1) as nat)
    }
}

/// Whatever the operation's outcome, a failure included, a run against a
/// camera that keeps what it is told replies with that outcome and leaves
/// both managed settings as they were before the run.
pub proof fn lemma_settings_restored(
    s: Restorer,
    camera: ConfigPair,
    outcome: Result<Vec<u8>, AstroPhiError>,
)
    requires
        fresh(s),
    ensures
        drive(s, Action::Read(ConfigObject::CaptureTarget), camera, outcome, 7).1 == Action::Finish(
            outcome,
        ),
        drive(s, Action::Read(ConfigObject::CaptureTarget), camera, outcome, 7).2 == camera,
{
    reveal_with_fuel(drive, 8);
}

} // verus!
