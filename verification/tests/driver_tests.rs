use tpg::ctrl::{Ctrl, Mode};
use tpg::driver::{Driver, DriverState, StepAction};
use tpg::errors::TpgError;
use tpg::reg::Reg;

#[test]
fn driver_starts_idle() {
    let ctrl = Ctrl::from_reg(Reg(0x3)).unwrap();
    let driver = Driver::new(&ctrl, None);
    assert_eq!(driver.state, DriverState::Idle);
    assert_eq!(driver.emitted, 0);
    assert_eq!(driver.mode, Mode::Continuous);
}

#[test]
fn run_refused_without_enable_and_start() {
    for v in [0x0u16, 0x1, 0x2] {
        let ctrl = Ctrl::from_reg(Reg(v)).unwrap();
        let mut driver = Driver::new(&ctrl, None);
        let r = driver.start_run(&ctrl);
        assert!(matches!(r, Err(TpgError::NotEnabledOrStarted { ctrl: c }) if c == v));
        assert_eq!(driver.state, DriverState::Idle);
    }
}

#[test]
fn single_mode_emits_exactly_one_frame() {
    let ctrl = Ctrl::from_reg(Reg(0x3 | (1 << 13))).unwrap();
    let mut driver = Driver::new(&ctrl, None);
    driver.start_run(&ctrl).unwrap();
    assert_eq!(driver.state, DriverState::Running);
    assert_eq!(
        driver.step(false, None),
        StepAction::Emit { pause_before: false }
    );
    assert_eq!(driver.emitted, 1);
    assert_eq!(driver.step(false, None), StepAction::Finish);
    assert_eq!(driver.state, DriverState::Idle);
    assert_eq!(driver.emitted, 1);
}

#[test]
fn continuous_mode_paces_after_the_first_frame() {
    let ctrl = Ctrl::from_reg(Reg(0x3)).unwrap();
    let mut driver = Driver::new(&ctrl, None);
    driver.start_run(&ctrl).unwrap();
    assert_eq!(
        driver.step(false, None),
        StepAction::Emit { pause_before: false }
    );
    assert_eq!(
        driver.step(false, None),
        StepAction::Emit { pause_before: true }
    );
    assert_eq!(
        driver.step(false, None),
        StepAction::Emit { pause_before: true }
    );
    assert_eq!(driver.emitted, 3);
    assert_eq!(driver.state, DriverState::Running);
}

#[test]
fn continuous_mode_stops_on_cancellation() {
    let ctrl = Ctrl::from_reg(Reg(0x3)).unwrap();
    let mut driver = Driver::new(&ctrl, None);
    driver.start_run(&ctrl).unwrap();
    assert!(matches!(driver.step(false, None), StepAction::Emit { .. }));
    assert_eq!(driver.step(true, None), StepAction::Finish);
    assert_eq!(driver.state, DriverState::Idle);
    assert_eq!(driver.emitted, 1);
}

#[test]
fn continuous_mode_stops_on_a_fresh_stop_ctrl() {
    let ctrl = Ctrl::from_reg(Reg(0x3)).unwrap();
    let mut driver = Driver::new(&ctrl, None);
    driver.start_run(&ctrl).unwrap();
    assert!(matches!(driver.step(false, None), StepAction::Emit { .. }));
    // A fresh CTRL that still runs does not stop the loop.
    let still_running = Ctrl::from_reg(Reg(0x3)).unwrap();
    assert!(matches!(
        driver.step(false, Some(still_running)),
        StepAction::Emit { .. }
    ));
    // One with enable cleared does.
    let stop = Ctrl::from_reg(Reg(0x2)).unwrap();
    assert_eq!(driver.step(false, Some(stop)), StepAction::Finish);
    assert_eq!(driver.state, DriverState::Idle);
}

#[test]
fn frame_limit_ends_the_run() {
    let ctrl = Ctrl::from_reg(Reg(0x3)).unwrap();
    let mut driver = Driver::new(&ctrl, Some(2));
    driver.start_run(&ctrl).unwrap();
    assert!(matches!(driver.step(false, None), StepAction::Emit { .. }));
    assert!(matches!(driver.step(false, None), StepAction::Emit { .. }));
    assert_eq!(driver.step(false, None), StepAction::Finish);
    assert_eq!(driver.emitted, 2);
    assert_eq!(driver.state, DriverState::Idle);
}

#[test]
fn restarting_after_a_run_resets_the_count() {
    let ctrl = Ctrl::from_reg(Reg(0x3 | (1 << 13))).unwrap();
    let mut driver = Driver::new(&ctrl, None);
    driver.start_run(&ctrl).unwrap();
    assert!(matches!(driver.step(false, None), StepAction::Emit { .. }));
    assert_eq!(driver.step(false, None), StepAction::Finish);
    driver.start_run(&ctrl).unwrap();
    assert_eq!(driver.emitted, 0);
    assert_eq!(driver.state, DriverState::Running);
}
