use astrophi::command::{route, Command, Route};
use astrophi::counter::FrameCounter;
use astrophi::decimal::{decimal_text, parse_u32};
use astrophi::error::{AstroPhiError, IntFault};
use astrophi::shoot::{ShootAction, ShootEvent, ShootRun};

#[test]
fn add_then_snapshot_is_previous_plus_count() {
    let mut c = FrameCounter::new(41);
    let r = c.add(9);
    assert!(matches!(r, Ok(50)));
    assert_eq!(c.snapshot(), 50);
}

#[test]
fn add_zero_keeps_contents() {
    let mut c = FrameCounter::new(1234);
    let before = c.contents();
    assert!(matches!(c.add(0), Ok(1234)));
    assert_eq!(c.contents(), before);
}

#[test]
fn add_past_the_limit_is_refused() {
    let mut c = FrameCounter::new(u32::MAX - 1);
    assert!(matches!(c.add(2), Err(AstroPhiError::Internal)));
    assert_eq!(c.snapshot(), u32::MAX - 1);
    assert!(matches!(c.add(1), Ok(v) if v == u32::MAX));
}

#[test]
fn reset_always_yields_zero() {
    let mut c = FrameCounter::new(987654);
    c.reset();
    assert_eq!(c.snapshot(), 0);
    assert_eq!(c.contents(), "0");
}

#[test]
fn counter_contents_are_decimal() {
    assert_eq!(FrameCounter::new(0).contents(), "0");
    assert_eq!(FrameCounter::new(7).contents(), "7");
    assert_eq!(FrameCounter::new(4294967295).contents(), "4294967295");
    assert_eq!(decimal_text(1000), "1000");
}

#[test]
fn counter_reads_its_file() {
    let c = FrameCounter::from_contents("315").ok().unwrap();
    assert_eq!(c.snapshot(), 315);
    assert!(matches!(
        FrameCounter::from_contents("3x"),
        Err(AstroPhiError::ParseInt(IntFault::InvalidDigit))
    ));
    assert!(matches!(
        FrameCounter::from_contents(""),
        Err(AstroPhiError::ParseInt(IntFault::Empty))
    ));
}

#[test]
fn decimal_parse_edges() {
    assert_eq!(parse_u32("+12"), Ok(12));
    assert_eq!(parse_u32("+"), Err(IntFault::InvalidDigit));
    assert_eq!(parse_u32("-1"), Err(IntFault::InvalidDigit));
    assert_eq!(parse_u32(" 1"), Err(IntFault::InvalidDigit));
    assert_eq!(parse_u32("0004294967295"), Ok(u32::MAX));
    assert_eq!(parse_u32("4294967296"), Err(IntFault::PosOverflow));
    assert_eq!(parse_u32("99999999999x"), Err(IntFault::PosOverflow));
    assert_eq!(parse_u32("12x99999999999"), Err(IntFault::InvalidDigit));
    for n in [0u32, 9, 10, 65535, 123456789, u32::MAX] {
        assert_eq!(parse_u32(&decimal_text(n)), Ok(n));
        assert_eq!(parse_u32(&decimal_text(n)), n.to_string().parse::<u32>().map_err(|_| IntFault::Empty));
    }
}

fn run_shoot(count: u32, counter: &mut FrameCounter, file: &mut String) -> (Result<(), AstroPhiError>, u32) {
    let (mut run, mut action) = ShootRun::new(count);
    let mut captures: u32 = 0;
    loop {
        let ev = match action {
            ShootAction::Capture => {
                captures += 1;
                ShootEvent::Done
            }
            ShootAction::Pause(ms) => {
                assert_eq!(ms, 100);
                ShootEvent::Done
            }
            ShootAction::Commit(n) => {
                let mut next = *counter;
                match next.add(n) {
                    Ok(_) => {
                        *file = next.contents();
                        *counter = next;
                        ShootEvent::Done
                    }
                    Err(e) => ShootEvent::Failed(e),
                }
            }
            ShootAction::Finish(r) => return (r, captures),
        };
        action = run.step(ev);
    }
}

#[test]
fn shoot_three_then_reset() {
    let mut counter = FrameCounter::new(5);
    let mut file = counter.contents();
    assert_eq!(route(&Command::Shoot { count: 3 }), Route::Frames(3));
    let (r, captures) = run_shoot(3, &mut counter, &mut file);
    assert!(r.is_ok());
    assert_eq!(captures, 3);
    assert_eq!(counter.snapshot(), 8);
    assert_eq!(file, "8");
    assert_eq!(route(&Command::Reset), Route::ResetTotal);
    counter.reset();
    file = counter.contents();
    assert_eq!(file, "0");
}

#[test]
fn shoot_zero_is_a_no_op() {
    assert_eq!(route(&Command::Shoot { count: 0 }), Route::Nothing);
    let mut counter = FrameCounter::new(11);
    let mut file = counter.contents();
    let (r, captures) = run_shoot(0, &mut counter, &mut file);
    assert!(r.is_ok());
    assert_eq!(captures, 0);
    assert_eq!(counter.snapshot(), 11);
    assert_eq!(file, "11");
}

#[test]
fn shoot_fault_leaves_counter() {
    let (mut run, a) = ShootRun::new(2);
    assert!(matches!(a, ShootAction::Capture));
    assert!(matches!(run.step(ShootEvent::Done), ShootAction::Pause(100)));
    assert!(matches!(run.step(ShootEvent::Done), ShootAction::Capture));
    let a = run.step(ShootEvent::Failed(AstroPhiError::GPhoto2("IO".to_string())));
    assert!(matches!(a, ShootAction::Finish(Err(AstroPhiError::GPhoto2(_)))));
}
