use astrophi::config::{ConfigObject, ConfigPair};
use astrophi::error::AstroPhiError;
use astrophi::restore::{Action, Event, Restorer};
use astrophi::shutter::{split_shutter, ShutterText};
use astrophi::solve::{SolveAction, SolveEvent, SolveRunner};

fn camera() -> ConfigPair {
    ConfigPair { capturetarget: "Memory card".to_string(), imageformat: "RAW".to_string() }
}

/// Drives a run against a camera that keeps what it is told; `fail_writes`
/// makes every write during the run fail.
fn drive(camera: &mut ConfigPair, op: Result<Vec<u8>, AstroPhiError>, fail_writes: bool) -> (Result<Vec<u8>, AstroPhiError>, Restorer, Vec<(ConfigObject, String)>) {
    let (mut r, mut action) = Restorer::new();
    let mut op = Some(op);
    let mut writes = Vec::new();
    loop {
        let ev = match action {
            Action::Read(o) => Event::Value(camera.get(o)),
            Action::Write(o, v) => {
                writes.push((o, v.clone()));
                if fail_writes {
                    Event::Failed(AstroPhiError::GPhoto2("IO".to_string()))
                } else {
                    camera.set(o, v);
                    Event::Written
                }
            }
            Action::Operate => Event::Outcome(op.take().unwrap()),
            Action::Finish(result) => return (result, r, writes),
        };
        action = r.step(ev);
    }
}

#[test]
fn failing_operation_restores_settings() {
    let mut cam = camera();
    let (result, r, writes) = drive(&mut cam, Err(AstroPhiError::StdIO("entity not found".to_string())), false);
    assert!(matches!(result, Err(AstroPhiError::StdIO(ref s)) if s == "entity not found"));
    assert_eq!(cam.capturetarget, "Memory card");
    assert_eq!(cam.imageformat, "RAW");
    assert!(r.target_fault.is_none() && r.format_fault.is_none());
    assert_eq!(writes.len(), 4);
    assert_eq!(writes[0], (ConfigObject::CaptureTarget, "Internal RAM".to_string()));
    assert_eq!(writes[1], (ConfigObject::ImageFormat, "Smaller JPEG".to_string()));
    assert_eq!(writes[2], (ConfigObject::CaptureTarget, "Memory card".to_string()));
    assert_eq!(writes[3], (ConfigObject::ImageFormat, "RAW".to_string()));
}

#[test]
fn successful_operation_returns_payload_and_restores() {
    let mut cam = camera();
    let (result, _, _) = drive(&mut cam, Ok(vec![1, 2, 3]), false);
    assert_eq!(result.ok().unwrap(), vec![1, 2, 3]);
    assert_eq!(cam.capturetarget, "Memory card");
    assert_eq!(cam.imageformat, "RAW");
}

#[test]
fn read_fault_stops_before_any_change() {
    let (mut r, _) = Restorer::new();
    let a = r.step(Event::Failed(AstroPhiError::GPhoto2("NotFound".to_string())));
    assert!(matches!(a, Action::Finish(Err(AstroPhiError::GPhoto2(_)))));
}

#[test]
fn restore_fault_does_not_mask_result() {
    let mut cam = camera();
    let (result, r, writes) = drive(&mut cam, Ok(vec![9]), true);
    // the first switch fails, so restoration starts at once
    assert!(matches!(result, Err(AstroPhiError::GPhoto2(_))));
    assert_eq!(writes.len(), 3);
    assert!(r.target_fault.is_some() && r.format_fault.is_some());
}

#[test]
fn deadline_kills_and_reaps() {
    let (mut s, a) = SolveRunner::new(vec![7, 7]);
    assert!(matches!(a, SolveAction::WriteImage(ref b) if *b == vec![7, 7]));
    assert!(matches!(s.step(SolveEvent::Done), SolveAction::Launch));
    assert!(matches!(s.step(SolveEvent::Done), SolveAction::WaitFor(180)));
    assert!(matches!(s.step(SolveEvent::TimedOut), SolveAction::Kill));
    assert!(matches!(s.step(SolveEvent::Failed(AstroPhiError::StdIO("other".to_string()))), SolveAction::Reap));
    assert!(matches!(s.step(SolveEvent::Done), SolveAction::Finish(Err(AstroPhiError::Internal))));
}

#[test]
fn solve_exit_codes() {
    let (mut s, _) = SolveRunner::new(vec![]);
    s.step(SolveEvent::Done);
    s.step(SolveEvent::Done);
    assert!(matches!(s.step(SolveEvent::Exited(Some(0))), SolveAction::ReadResult));
    assert!(matches!(s.step(SolveEvent::Contents(vec![4, 2])), SolveAction::Finish(Ok(ref b)) if *b == vec![4, 2]));
    for code in [Some(1), Some(-1), None] {
        let (mut s, _) = SolveRunner::new(vec![]);
        s.step(SolveEvent::Done);
        s.step(SolveEvent::Done);
        assert!(matches!(s.step(SolveEvent::Exited(code)), SolveAction::Finish(Err(AstroPhiError::Internal))));
    }
    let (mut s, _) = SolveRunner::new(vec![]);
    let a = s.step(SolveEvent::Failed(AstroPhiError::StdIO("permission denied".to_string())));
    assert!(matches!(a, SolveAction::Finish(Err(AstroPhiError::StdIO(_)))));
}

fn seconds(text: &str) -> Result<f32, String> {
    match split_shutter(text) {
        ShutterText::Plain(t) => t.parse::<f32>().map_err(|e| e.to_string()),
        ShutterText::Fraction(parts) => {
            let mut values = Vec::new();
            for p in parts {
                values.push(p.parse::<f32>().map_err(|e| e.to_string())?);
            }
            values.into_iter().reduce(|a, b| a / b).ok_or_else(|| "empty".to_string())
        }
    }
}

#[test]
fn shutter_pieces() {
    assert!(matches!(split_shutter("2.5"), ShutterText::Plain(ref t) if t == "2.5"));
    assert!(matches!(split_shutter(" 2.5"), ShutterText::Plain(ref t) if t == " 2.5"));
    match split_shutter(" 1 / 200\t") {
        ShutterText::Fraction(parts) => assert_eq!(parts, vec!["1".to_string(), "200".to_string()]),
        _ => panic!("expected a fraction"),
    }
    match split_shutter("1/4/2") {
        ShutterText::Fraction(parts) => assert_eq!(parts, vec!["1".to_string(), "4".to_string(), "2".to_string()]),
        _ => panic!("expected a fraction"),
    }
    match split_shutter("/") {
        ShutterText::Fraction(parts) => assert_eq!(parts, vec![String::new(), String::new()]),
        _ => panic!("expected a fraction"),
    }
}

#[test]
fn shutter_seconds() {
    assert!((seconds("1/200").unwrap() - 0.005).abs() < 1e-9);
    assert_eq!(seconds("2.5").unwrap(), 2.5);
    assert_eq!(seconds("1/4/2").unwrap(), 0.125);
    assert!(seconds("1/x").is_err());
    assert!(seconds("bulb").is_err());
}
