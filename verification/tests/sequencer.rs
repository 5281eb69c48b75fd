use inserter_control::controller::sequencer::{
    depths_in_range, Action, Event, CALIBRATION_POLL_MILLIS,
};
use inserter_control::controller::state::ControllerState;
use inserter_control::controller::{start, Controller};
use inserter_control::interface::{Move, OCTError, RobotError, RobotState};
use inserter_control::predictor::quadratic_regression::QuadraticRegression;
use inserter_control::predictor::taylor_approx::TaylorQuadraticApproximator;
use inserter_control::predictor::Quadratic;

const ORIGIN: RobotState = RobotState { inserter_z: 0, needle_z: 0 };

fn step<P: inserter_control::predictor::BrainPredictor>(
    c: &mut Controller<P>,
    event: Event,
    now: u64,
) -> Action {
    assert!(c.admissible(&event), "event {:?} is not admissible", event);
    c.step(event, now)
}

fn move_error() -> Result<(), RobotError> {
    Err(RobotError::MoveError { msg: String::from("stopped short") })
}

fn position_error() -> Result<(), RobotError> {
    Err(RobotError::PositionError { msg: String::from("out of range") })
}

/// Runs a calibration that sees a level surface at `gap`, from the readout at
/// the origin to the readout that the insertion begins with. Returns the time
/// at which it ends.
fn calibrate<P: inserter_control::predictor::BrainPredictor>(
    c: &mut Controller<P>,
    first: Action,
    mut now: u64,
    gap: u64,
) -> u64 {
    assert_eq!(first, Action::QueryState);
    assert_eq!(step(c, Event::Readout(Ok(ORIGIN)), now), Action::Pause(CALIBRATION_POLL_MILLIS));
    for _ in 0..1_000 {
        now += 5;
        c.process_distance(Ok(gap), now);
    }
    let standoff = gap - 200_000;
    assert_eq!(step(c, Event::Woke, now), Action::Command(Move::InserterZ(standoff)));
    assert_eq!(c.get_pre_move_location(), Some(standoff));
    assert_eq!(step(c, Event::Moved(Ok(())), now), Action::Command(Move::NeedleZ(0)));
    assert_eq!(c.get_state(), ControllerState::OutOfBrainUncalibrated);
    assert_eq!(step(c, Event::Moved(Ok(())), now), Action::QueryState);
    assert_eq!(c.get_state(), ControllerState::OutOfBrainCalibrated);
    now
}

/// Feeds five steady samples near the trigger and returns the time of the last.
fn approach<P: inserter_control::predictor::BrainPredictor>(
    c: &mut Controller<P>,
    mut now: u64,
) -> (u64, bool) {
    let mut released = false;
    for gap in [220_000u64, 215_000, 210_000, 205_000, 202_000] {
        now += 5;
        released = c.process_distance(Ok(gap), now) || released;
    }
    (now, released)
}

#[test]
fn depths_outside_the_limits_are_told_apart() {
    assert!(depths_in_range(&vec![]));
    assert!(depths_in_range(&vec![3_000_000, 7_000_000, 5_000_000]));
    assert!(!depths_in_range(&vec![3_000_000, 2_999_999]));
    assert!(!depths_in_range(&vec![7_000_001]));
}

#[test]
fn a_run_without_depths_ends_at_once() {
    let mut c = Controller::new(TaylorQuadraticApproximator);
    assert_eq!(c.get_state(), ControllerState::OutOfBrainUncalibrated);
    assert!(!c.finished());
    assert_eq!(start(&mut c, &vec![], 0), Action::Shutdown);
    assert!(c.finished());
    assert_eq!(c.get_state(), ControllerState::Dead);
    assert!(c.get_outcomes().is_empty());
    assert!(!c.admissible(&Event::Start));
    assert!(!c.admissible(&Event::Woke));
}

#[test]
fn calibration_sets_the_standoff_below_the_smallest_gap() {
    let mut c = Controller::new(TaylorQuadraticApproximator);
    let first = start(&mut c, &vec![3_100_000], 0);
    assert_eq!(first, Action::QueryState);
    assert_eq!(step(&mut c, Event::Readout(Ok(ORIGIN)), 10), Action::Pause(10));
    // Not enough samples yet: the calibration sleeps on.
    for n in 0..998u64 {
        c.process_distance(Ok(6_000_000 + n), 10 + 5 * (n + 1));
    }
    assert_eq!(step(&mut c, Event::Woke, 5_000), Action::Pause(10));
    c.process_distance(Err(OCTError::TimeoutError { msg: String::new() }), 5_005);
    assert_eq!(step(&mut c, Event::Woke, 5_005), Action::Pause(10));
    c.process_distance(Ok(5_700_000), 5_010);
    // The history is full: the smallest reading less the clearance.
    assert_eq!(step(&mut c, Event::Woke, 5_010), Action::Command(Move::InserterZ(5_500_000)));
    assert_eq!(c.get_pre_move_location(), Some(5_500_000));
}

#[test]
fn calibration_counts_errors_among_its_samples() {
    let mut c = Controller::new(TaylorQuadraticApproximator);
    assert_eq!(start(&mut c, &vec![3_100_000], 0), Action::QueryState);
    step(&mut c, Event::Readout(Ok(ORIGIN)), 0);
    c.process_distance(Err(OCTError::TimeoutError { msg: String::new() }), 1);
    for n in 2..=999u64 {
        c.process_distance(Ok(6_000_000), n);
    }
    assert_eq!(step(&mut c, Event::Woke, 999), Action::Pause(10));
    c.process_distance(Ok(6_100_000), 1_000);
    assert_eq!(step(&mut c, Event::Woke, 1_000), Action::Command(Move::InserterZ(5_800_000)));
}

#[test]
fn calibration_needs_a_reading() {
    let mut c = Controller::new(TaylorQuadraticApproximator);
    assert_eq!(start(&mut c, &vec![3_100_000], 0), Action::QueryState);
    step(&mut c, Event::Readout(Ok(ORIGIN)), 0);
    for n in 1..=1_000u64 {
        c.process_distance(Err(OCTError::AcquisitionError { msg: String::new() }), n);
    }
    assert!(!c.admissible(&Event::Woke));
}

#[test]
fn calibration_waits_for_samples_of_its_own() {
    let mut c = Controller::new(TaylorQuadraticApproximator);
    // Samples from before the run.
    for n in 0..1_000u64 {
        c.process_distance(Ok(6_000_000), n);
    }
    let first = start(&mut c, &vec![3_100_000], 2_000);
    assert_eq!(first, Action::QueryState);
    assert_eq!(step(&mut c, Event::Readout(Ok(ORIGIN)), 2_000), Action::Pause(10));
    assert_eq!(step(&mut c, Event::Woke, 2_010), Action::Pause(10));
    for n in 0..1_000u64 {
        c.process_distance(Ok(6_000_000), 2_010 + n);
    }
    assert_eq!(step(&mut c, Event::Woke, 3_010), Action::Command(Move::InserterZ(5_800_000)));
}

#[test]
fn calibration_needs_the_actuator_at_the_origin() {
    let mut c = Controller::new(TaylorQuadraticApproximator);
    assert_eq!(start(&mut c, &vec![3_100_000], 0), Action::QueryState);
    assert!(!c.admissible(&Event::Readout(Ok(RobotState { inserter_z: 1, needle_z: 0 }))));
    assert!(!c.admissible(&Event::Readout(Ok(RobotState { inserter_z: 0, needle_z: 1 }))));
    assert!(!c.admissible(&Event::Readout(Err(RobotError::ConnectionError {
        msg: String::new()
    }))));
    assert!(!c.admissible(&Event::Woke));
    assert!(c.admissible(&Event::Readout(Ok(ORIGIN))));
}

#[test]
fn calibration_needs_clearance_to_spare() {
    let mut c = Controller::new(TaylorQuadraticApproximator);
    assert_eq!(start(&mut c, &vec![3_100_000], 0), Action::QueryState);
    step(&mut c, Event::Readout(Ok(ORIGIN)), 0);
    for n in 1..=1_000u64 {
        c.process_distance(Ok(200_000), n);
    }
    assert!(!c.admissible(&Event::Woke));
}

#[test]
fn a_move_outside_the_tissue_is_repeated_until_it_succeeds() {
    let mut c = Controller::new(TaylorQuadraticApproximator);
    assert_eq!(start(&mut c, &vec![3_100_000], 0), Action::QueryState);
    step(&mut c, Event::Readout(Ok(ORIGIN)), 0);
    for n in 1..=1_000u64 {
        c.process_distance(Ok(6_000_000), n);
    }
    let go = Action::Command(Move::InserterZ(5_800_000));
    assert_eq!(step(&mut c, Event::Woke, 1_000), go);
    assert_eq!(step(&mut c, Event::Moved(move_error()), 1_001), go);
    assert_eq!(
        step(&mut c, Event::Moved(Err(RobotError::ConnectionError { msg: String::new() })), 1_002),
        go
    );
    assert_eq!(c.get_state(), ControllerState::OutOfBrainUncalibrated);
    assert_eq!(step(&mut c, Event::Moved(Ok(())), 1_003), Action::Command(Move::NeedleZ(0)));
    assert_eq!(step(&mut c, Event::Moved(move_error()), 1_004), Action::Command(Move::NeedleZ(0)));
    assert_eq!(step(&mut c, Event::Moved(Ok(())), 1_005), Action::QueryState);
    assert_eq!(c.get_state(), ControllerState::OutOfBrainCalibrated);
}

#[test]
fn a_position_error_on_a_move_ends_the_run() {
    let mut c = Controller::new(TaylorQuadraticApproximator);
    assert_eq!(start(&mut c, &vec![3_100_000, 3_200_000], 0), Action::QueryState);
    step(&mut c, Event::Readout(Ok(ORIGIN)), 0);
    for n in 1..=1_000u64 {
        c.process_distance(Ok(6_000_000), n);
    }
    step(&mut c, Event::Woke, 1_000);
    assert_eq!(step(&mut c, Event::Moved(position_error()), 1_001), Action::Shutdown);
    assert_eq!(c.get_state(), ControllerState::Dead);
    assert!(c.finished());
    assert!(c.get_outcomes().is_empty());
}

#[test]
fn insertion_needs_the_needle_home_and_the_inserter_at_its_standoff() {
    let mut c = Controller::new(TaylorQuadraticApproximator);
    let first = start(&mut c, &vec![3_100_000], 0);
    calibrate(&mut c, first, 0, 6_000_000);
    assert!(!c.admissible(&Event::Readout(Ok(RobotState {
        inserter_z: 5_800_000,
        needle_z: 3
    }))));
    assert!(!c.admissible(&Event::Readout(Ok(RobotState {
        inserter_z: 5_800_001,
        needle_z: 0
    }))));
    assert!(c.admissible(&Event::Readout(Ok(RobotState { inserter_z: 5_800_000, needle_z: 0 }))));
}

#[test]
fn a_thrust_goes_to_the_predicted_gap_plus_the_depth() {
    let mut c = Controller::new(QuadraticRegression);
    let first = start(&mut c, &vec![3_100_000, 3_200_000], 0);
    let now = calibrate(&mut c, first, 0, 6_000_000);
    let home = RobotState { inserter_z: 5_800_000, needle_z: 0 };
    assert_eq!(step(&mut c, Event::Readout(Ok(home)), now), Action::AwaitPermit);
    let (now, released) = approach(&mut c, now);
    assert!(released);
    let action = step(&mut c, Event::Permit, now);
    let Action::Solve { curve, depth } = action else {
        panic!("expected the thrust equation, got {:?}", action);
    };
    assert_eq!(depth, 3_100_000);
    // The published samples fall by 1000 nm/ms and end at 202_000, but for
    // the first step, which is as large again.
    assert!(curve.den > 0);
    let at_latest = curve.num0 / curve.den;
    assert!(201_000 < at_latest && at_latest < 203_000, "c0 = {}", at_latest);
    assert!(!c.admissible(&Event::Root(Some(u64::MAX - 6_999_999))));
    assert_eq!(
        step(&mut c, Event::Root(Some(150_000)), now),
        Action::Command(Move::NeedleZ(3_250_000))
    );
    assert_eq!(step(&mut c, Event::Moved(Ok(())), now + 200), Action::Command(Move::NeedleZ(0)));
    assert!(c.get_outcomes().is_empty(), "no outcome before the needle is back");
    assert_eq!(step(&mut c, Event::Moved(move_error()), now + 300), Action::Command(Move::NeedleZ(0)));
    assert!(c.get_outcomes().is_empty());
    // The needle is back: the outcome is recorded and the next depth begins.
    assert_eq!(step(&mut c, Event::Moved(Ok(())), now + 400), Action::QueryState);
    assert_eq!(c.get_outcomes(), vec![true]);
    assert_eq!(c.get_state(), ControllerState::OutOfBrainCalibrated);
}

#[test]
fn a_failed_thrust_is_a_failure_and_the_run_goes_on() {
    let mut c = Controller::new(QuadraticRegression);
    let first = start(&mut c, &vec![3_100_000, 7_000_000], 0);
    let mut now = calibrate(&mut c, first, 0, 6_000_000);
    let home = RobotState { inserter_z: 5_800_000, needle_z: 0 };
    let mut thrusts = vec![];
    for reply in [move_error(), Ok(())] {
        assert_eq!(step(&mut c, Event::Readout(Ok(home)), now), Action::AwaitPermit);
        let (then, released) = approach(&mut c, now);
        now = then;
        assert!(released);
        assert!(matches!(step(&mut c, Event::Permit, now), Action::Solve { .. }));
        thrusts.push(step(&mut c, Event::Root(Some(200_000)), now));
        assert_eq!(step(&mut c, Event::Moved(reply), now), Action::Command(Move::NeedleZ(0)));
        step(&mut c, Event::Moved(Ok(())), now);
    }
    assert_eq!(
        thrusts,
        vec![
            Action::Command(Move::NeedleZ(3_300_000)),
            Action::Command(Move::NeedleZ(7_200_000))
        ]
    );
    assert_eq!(c.get_outcomes(), vec![false, true]);
    assert!(c.finished());
    assert_eq!(c.get_state(), ControllerState::Dead);
}

#[test]
fn a_position_error_on_a_thrust_ends_the_run_without_an_outcome() {
    let mut c = Controller::new(QuadraticRegression);
    let first = start(&mut c, &vec![3_100_000, 7_000_000], 0);
    let now = calibrate(&mut c, first, 0, 6_000_000);
    let home = RobotState { inserter_z: 5_800_000, needle_z: 0 };
    step(&mut c, Event::Readout(Ok(home)), now);
    let (now, _) = approach(&mut c, now);
    step(&mut c, Event::Permit, now);
    step(&mut c, Event::Root(Some(200_000)), now);
    // The needle is called back, and the run ends with the next step.
    assert_eq!(step(&mut c, Event::Moved(position_error()), now), Action::Command(Move::NeedleZ(0)));
    assert_eq!(c.get_state(), ControllerState::Dead);
    assert!(!c.finished());
    assert_eq!(step(&mut c, Event::Moved(Ok(())), now + 50), Action::Shutdown);
    assert!(c.finished());
    assert!(c.get_outcomes().is_empty());
}

#[test]
fn no_solution_and_no_plan_keep_the_insertion_waiting() {
    let mut c = Controller::new(QuadraticRegression);
    let first = start(&mut c, &vec![3_100_000], 0);
    let now = calibrate(&mut c, first, 0, 6_000_000);
    let home = RobotState { inserter_z: 5_800_000, needle_z: 0 };
    assert_eq!(step(&mut c, Event::Readout(Ok(home)), now), Action::AwaitPermit);
    // One close sample only: the regression has too few readings.
    assert!(c.process_distance(Ok(202_000), now + 5));
    assert_eq!(step(&mut c, Event::Permit, now + 5), Action::AwaitPermit);
    let (now, released) = approach(&mut c, now + 5);
    assert!(released);
    assert!(matches!(step(&mut c, Event::Permit, now), Action::Solve { .. }));
    assert_eq!(step(&mut c, Event::Root(None), now), Action::AwaitPermit);
    assert!(c.get_outcomes().is_empty());
}

#[test]
fn a_starved_predictor_fails_the_depth_after_the_time_limit() {
    let mut c = Controller::new(QuadraticRegression);
    let first = start(&mut c, &vec![3_100_000], 0);
    let begun = calibrate(&mut c, first, 0, 6_000_000);
    let home = RobotState { inserter_z: 5_800_000, needle_z: 0 };
    assert_eq!(step(&mut c, Event::Readout(Ok(home)), begun), Action::AwaitPermit);
    // The samples come steadily, but each permit reaches the sequencer when
    // the published history is already stale: no thrust can be planned.
    let mut now = begun;
    let mut waits = 0;
    while now + 400 < begun + 30_000 {
        let mut released = false;
        for _ in 0..40 {
            now += 5;
            released = c.process_distance(Ok(202_000), now) || released;
        }
        assert!(released);
        now += 200;
        assert_eq!(step(&mut c, Event::Permit, now), Action::AwaitPermit);
        waits += 1;
    }
    assert!(waits > 70);
    assert_eq!(c.get_state(), ControllerState::OutOfBrainCalibrated);
    assert!(c.process_distance(Ok(202_000), begun + 30_000));
    assert_eq!(step(&mut c, Event::Permit, begun + 30_000), Action::Command(Move::NeedleZ(0)));
    assert_eq!(step(&mut c, Event::Moved(Ok(())), begun + 30_001), Action::Shutdown);
    assert_eq!(c.get_outcomes(), vec![false]);
}

#[test]
fn a_sensor_that_stays_too_slow_raises_a_panic() {
    let mut c = Controller::new(QuadraticRegression);
    let first = start(&mut c, &vec![3_100_000], 0);
    let begun = calibrate(&mut c, first, 0, 6_000_000);
    let home = RobotState { inserter_z: 5_800_000, needle_z: 0 };
    assert_eq!(step(&mut c, Event::Readout(Ok(home)), begun), Action::AwaitPermit);
    // Samples 20 ms apart: the predictor declines each, and the twenty-first
    // prediction error in a row is one too many.
    let mut now = begun;
    for n in 1..=21 {
        now += 20;
        if c.process_distance(Ok(202_000), now) {
            let expected = if n < 21 {
                Action::AwaitPermit
            } else {
                Action::Command(Move::NeedleZ(0))
            };
            assert_eq!(step(&mut c, Event::Permit, now), expected);
        }
    }
    assert_eq!(c.get_state(), ControllerState::Panic);
    assert!(c.get_outcomes().is_empty());
}

#[test]
fn the_time_limit_is_thirty_seconds() {
    let mut c = Controller::new(QuadraticRegression);
    let first = start(&mut c, &vec![3_100_000, 3_200_000], 0);
    let begun = calibrate(&mut c, first, 0, 6_000_000);
    let home = RobotState { inserter_z: 5_800_000, needle_z: 0 };
    assert_eq!(step(&mut c, Event::Readout(Ok(home)), begun), Action::AwaitPermit);
    assert!(c.process_distance(Ok(202_000), begun + 29_999));
    assert_eq!(step(&mut c, Event::Permit, begun + 29_999), Action::AwaitPermit);
    assert!(c.process_distance(Ok(202_000), begun + 30_000));
    assert_eq!(step(&mut c, Event::Permit, begun + 30_000), Action::Command(Move::NeedleZ(0)));
    // The needle retracts, the phase is calibrated again, the next depth begins.
    assert_eq!(step(&mut c, Event::Moved(Ok(())), begun + 30_010), Action::QueryState);
    assert_eq!(c.get_state(), ControllerState::OutOfBrainCalibrated);
    assert_eq!(c.get_outcomes(), vec![false]);
}

#[test]
fn a_clearance_breach_is_recovered_from_and_the_depth_tried_again() {
    let mut c = Controller::new(TaylorQuadraticApproximator);
    let first = start(&mut c, &vec![3_100_000], 0);
    let now = calibrate(&mut c, first, 0, 6_000_000);
    let home = RobotState { inserter_z: 5_800_000, needle_z: 0 };
    assert_eq!(step(&mut c, Event::Readout(Ok(home)), now), Action::AwaitPermit);
    // A single sample far too close: panic within the same ingest step.
    let released = c.process_distance(Ok(50_000), now + 5);
    assert_eq!(c.get_state(), ControllerState::Panic);
    assert!(released);
    // The recovery drives the needle, then the inserter, to the origin.
    assert_eq!(step(&mut c, Event::Permit, now + 5), Action::Command(Move::NeedleZ(0)));
    assert_eq!(step(&mut c, Event::Moved(move_error()), now + 6), Action::Command(Move::NeedleZ(0)));
    assert_eq!(step(&mut c, Event::Moved(Ok(())), now + 7), Action::Command(Move::InserterZ(0)));
    assert_eq!(c.get_state(), ControllerState::Panic);
    // Back at the origin the controller is uncalibrated and calibrates again.
    let again = step(&mut c, Event::Moved(Ok(())), now + 8);
    assert_eq!(c.get_state(), ControllerState::OutOfBrainUncalibrated);
    assert!(c.get_outcomes().is_empty());
    let now = calibrate(&mut c, again, now + 8, 5_900_000);
    assert_eq!(c.get_pre_move_location(), Some(5_700_000));
    // The same depth is tried again.
    let home = RobotState { inserter_z: 5_700_000, needle_z: 0 };
    assert_eq!(step(&mut c, Event::Readout(Ok(home)), now), Action::AwaitPermit);
    c.process_distance(Ok(204_000), now + 5);
    c.process_distance(Ok(203_000), now + 10);
    assert!(c.process_distance(Ok(202_000), now + 15));
    let action = step(&mut c, Event::Permit, now + 15);
    assert_eq!(
        action,
        Action::Solve {
            curve: Quadratic { num0: 20_200_000, num1: -20_000, num2: 0, den: 100 },
            depth: 3_100_000
        }
    );
}

#[test]
fn a_panic_raised_before_the_insertion_begins_is_recovered_from_first() {
    let mut c = Controller::new(TaylorQuadraticApproximator);
    let first = start(&mut c, &vec![3_100_000], 0);
    let now = calibrate(&mut c, first, 0, 6_000_000);
    c.process_distance(Ok(60_000), now + 1);
    assert_eq!(c.get_state(), ControllerState::Panic);
    let home = RobotState { inserter_z: 5_800_000, needle_z: 0 };
    assert_eq!(step(&mut c, Event::Readout(Ok(home)), now + 2), Action::Command(Move::NeedleZ(0)));
}

#[test]
fn a_position_error_on_a_readout_ends_the_run_at_the_next_step() {
    let mut c = Controller::new(QuadraticRegression);
    let first = start(&mut c, &vec![3_100_000, 3_200_000, 3_300_000], 0);
    let now = calibrate(&mut c, first, 0, 6_000_000);
    let home = RobotState { inserter_z: 5_800_000, needle_z: 0 };
    step(&mut c, Event::Readout(Ok(home)), now);
    let (now, _) = approach(&mut c, now);
    step(&mut c, Event::Permit, now);
    step(&mut c, Event::Root(Some(200_000)), now);
    step(&mut c, Event::Moved(Ok(())), now);
    step(&mut c, Event::Moved(Ok(())), now);
    assert_eq!(c.get_outcomes(), vec![true]);
    // The second depth is under way when the actuator reports a position error.
    assert_eq!(step(&mut c, Event::Readout(Ok(home)), now), Action::AwaitPermit);
    c.process_robot_state(Err(RobotError::PositionError { msg: String::new() }), now + 1);
    assert_eq!(c.get_state(), ControllerState::Dead);
    assert_eq!(step(&mut c, Event::Permit, now + 2), Action::Shutdown);
    assert!(c.finished());
    assert_eq!(c.get_outcomes(), vec![true]);
}
