use inserter_control::controller::info::ControllerInfo;
use inserter_control::controller::ingest::{
    is_abnormal_distance, process_distance, process_robot_state,
};
use inserter_control::controller::state::ControllerState;
use inserter_control::interface::{OCTError, RobotError, RobotState};
use inserter_control::predictor::quadratic_regression::QuadraticRegression;
use inserter_control::predictor::taylor_approx::TaylorQuadraticApproximator;

fn calibrated() -> ControllerInfo {
    let mut info = ControllerInfo::new();
    info.transition_state(ControllerState::OutOfBrainCalibrated, false);
    info
}

fn gaps(info: &ControllerInfo) -> Vec<Option<u64>> {
    info.distances().iter().map(|s| s.as_ref().ok().copied()).collect()
}

fn published(info: &ControllerInfo) -> Vec<Option<u64>> {
    info.notified_distances().iter().map(|s| s.as_ref().ok().copied()).collect()
}

#[test]
fn a_new_record_is_uncalibrated_and_empty() {
    let info = ControllerInfo::new();
    assert_eq!(info.get_state(), ControllerState::OutOfBrainUncalibrated);
    assert!(info.out_of_brain_uncalibrated());
    assert!(!info.out_of_brain_calibrated() && !info.in_panic() && !info.in_brain() && !info.dead());
    assert!(info.distances().is_empty());
    assert!(info.get_outcomes().is_empty());
    assert_eq!(info.get_pre_move_location(), None);
    assert_eq!(info.get_consecutive_errors(), 0);
    assert!(!info.awaits_move_permit());
}

#[test]
fn history_holds_the_youngest_entries_up_to_its_capacity() {
    let mut info = ControllerInfo::new();
    for n in 0..7u64 {
        info.add_distance(Ok(n), 10 * n);
    }
    // Fewer appends than the capacity: the youngest has index n - 1.
    assert_eq!(info.distances().len(), 7);
    assert_eq!(gaps(&info)[6], Some(6));
    for n in 7..1_005u64 {
        info.add_distance(Ok(n), 10 * n);
    }
    // More appends than the capacity of 1000: the youngest has index 999.
    assert_eq!(info.distances().len(), 1_000);
    assert_eq!(info.distance_times().len(), 1_000);
    assert_eq!(gaps(&info)[999], Some(1_004));
    assert_eq!(gaps(&info)[0], Some(5));
    assert_eq!(info.distance_times()[999], 10_040);
    assert_eq!(info.distance_times()[0], 50);
}

#[test]
fn history_shrinks_to_the_capacity_of_the_new_phase() {
    let mut info = ControllerInfo::new();
    for n in 0..300u64 {
        info.add_distance(Ok(n), n);
    }
    info.transition_state(ControllerState::OutOfBrainCalibrated, false);
    info.add_distance(Ok(300), 300);
    assert_eq!(info.distances().len(), 100);
    assert_eq!(gaps(&info)[99], Some(300));
    assert_eq!(gaps(&info)[0], Some(201));
    assert_eq!(info.distance_times()[0], 201);
}

#[test]
fn clearance_breach_raises_a_panic_in_the_same_step() {
    let mut info = calibrated();
    process_distance(&mut info, &TaylorQuadraticApproximator, Ok(50_000), 7);
    assert_eq!(info.get_state(), ControllerState::Panic);
    assert_eq!(gaps(&info), vec![Some(50_000)]);

    let mut info = ControllerInfo::new();
    info.transition_state(ControllerState::InBrain, false);
    process_distance(&mut info, &TaylorQuadraticApproximator, Ok(99_999), 7);
    assert_eq!(info.get_state(), ControllerState::Panic);
}

#[test]
fn clearance_is_half_the_minimum_distance() {
    // Three steady samples first, so that the drift check has its prediction.
    let mut info = calibrated();
    for (n, gap) in [150_000u64, 120_000, 100_000].iter().enumerate() {
        process_distance(&mut info, &TaylorQuadraticApproximator, Ok(*gap), 5 * n as u64);
    }
    assert_eq!(info.get_state(), ControllerState::OutOfBrainCalibrated);
    process_distance(&mut info, &TaylorQuadraticApproximator, Ok(99_999), 15);
    assert_eq!(info.get_state(), ControllerState::Panic);
}

#[test]
fn no_panic_is_raised_while_uncalibrated() {
    let mut info = ControllerInfo::new();
    for n in 0..30u64 {
        process_distance(&mut info, &TaylorQuadraticApproximator, Ok(10), 1_000 * n);
    }
    assert_eq!(info.get_state(), ControllerState::OutOfBrainUncalibrated);
    assert_eq!(info.get_consecutive_errors(), 0);
}

#[test]
fn an_error_sample_is_only_stored() {
    let mut info = calibrated();
    info.await_move_permit();
    let released = process_distance(
        &mut info,
        &TaylorQuadraticApproximator,
        Err(OCTError::CommunicationError { msg: String::from("lost") }),
        3,
    );
    assert!(!released);
    assert_eq!(gaps(&info), vec![None]);
    assert_eq!(info.distance_times(), vec![3]);
    assert_eq!(info.get_consecutive_errors(), 0);
    assert_eq!(info.get_state(), ControllerState::OutOfBrainCalibrated);
    assert!(info.awaits_move_permit());
    assert!(info.notified_distances().is_empty());
}

#[test]
fn a_declining_predictor_counts_as_a_prediction_error() {
    let mut info = calibrated();
    process_distance(&mut info, &TaylorQuadraticApproximator, Ok(1_000_000), 0);
    assert_eq!(info.get_consecutive_errors(), 1);
    process_distance(&mut info, &TaylorQuadraticApproximator, Ok(1_000_100), 5);
    assert_eq!(info.get_consecutive_errors(), 2);
    // With three fresh readings the approximator answers, and what it gives
    // for the instant of the latest sample is that sample.
    process_distance(&mut info, &TaylorQuadraticApproximator, Ok(1_000_300), 10);
    assert_eq!(info.get_consecutive_errors(), 0);
    assert_eq!(info.get_state(), ControllerState::OutOfBrainCalibrated);
}

#[test]
fn too_many_prediction_errors_in_a_row_raise_a_panic() {
    let mut info = calibrated();
    // Samples 100 ms apart: the approximator declines every one of them.
    for n in 0..20u64 {
        process_distance(&mut info, &TaylorQuadraticApproximator, Ok(1_000_000), 100 * n);
    }
    assert_eq!(info.get_consecutive_errors(), 20);
    assert_eq!(info.get_state(), ControllerState::OutOfBrainCalibrated);
    process_distance(&mut info, &TaylorQuadraticApproximator, Ok(1_000_000), 2_000);
    assert_eq!(info.get_consecutive_errors(), 21);
    assert_eq!(info.get_state(), ControllerState::Panic);
    // In panic the count stands still.
    process_distance(&mut info, &TaylorQuadraticApproximator, Ok(1_000_000), 2_100);
    assert_eq!(info.get_consecutive_errors(), 21);
    assert_eq!(info.get_state(), ControllerState::Panic);
}

#[test]
fn drift_is_measured_against_the_regression() {
    // Four level readings and a jump: the fit gives 31/35 of the jump at the
    // latest sample, so the sample misses it by 4/35 of the jump.
    let level = [1_000_000u64, 1_000_000, 1_000_000, 1_000_000];
    let mut info = calibrated();
    for (n, gap) in level.iter().enumerate() {
        process_distance(&mut info, &QuadraticRegression, Ok(*gap), 5 * n as u64);
    }
    assert_eq!(info.get_consecutive_errors(), 4);
    // 4/35 of 437_500 is 50_000: not more than the limit.
    process_distance(&mut info, &QuadraticRegression, Ok(1_437_500), 20);
    assert_eq!(info.get_consecutive_errors(), 0);

    let mut info = calibrated();
    for (n, gap) in level.iter().enumerate() {
        process_distance(&mut info, &QuadraticRegression, Ok(*gap), 5 * n as u64);
    }
    process_distance(&mut info, &QuadraticRegression, Ok(1_437_501), 20);
    assert_eq!(info.get_consecutive_errors(), 5);
}

#[test]
fn is_abnormal_distance_reads_the_history() {
    let mut info = calibrated();
    for (n, gap) in [1_000_000u64, 1_000_000, 1_000_000, 1_000_000, 2_000_000].iter().enumerate() {
        info.add_distance(Ok(*gap), 5 * n as u64);
    }
    assert!(is_abnormal_distance(&info, &QuadraticRegression, 2_000_000, 20));
    // The fit gives 1_000_000 + 31/35 * 1_000_000 for the latest instant.
    assert!(!is_abnormal_distance(&info, &QuadraticRegression, 1_885_714, 20));
    assert!(!is_abnormal_distance(&info, &QuadraticRegression, 1_935_714, 20));
    assert!(is_abnormal_distance(&info, &QuadraticRegression, 1_935_715, 20));
    // Consulted too late, the predictor declines.
    assert!(is_abnormal_distance(&info, &QuadraticRegression, 1_885_714, 200));
}

#[test]
fn a_close_surface_publishes_the_history_and_raises_the_permit() {
    let mut info = calibrated();
    let released = process_distance(&mut info, &TaylorQuadraticApproximator, Ok(203_000), 0);
    assert!(!released);
    assert!(info.notified_distances().is_empty());
    let released = process_distance(&mut info, &TaylorQuadraticApproximator, Ok(202_999), 5);
    assert!(!released, "nobody waits yet: the permit is dropped");
    assert_eq!(published(&info), vec![Some(203_000), Some(202_999)]);
    assert_eq!(info.notified_distance_times(), &vec![0, 5]);
}

#[test]
fn a_permit_releases_one_wait_only() {
    let mut info = calibrated();
    info.await_move_permit();
    assert!(!process_distance(&mut info, &TaylorQuadraticApproximator, Ok(250_000), 0));
    assert!(info.awaits_move_permit());
    assert!(process_distance(&mut info, &TaylorQuadraticApproximator, Ok(202_000), 5));
    assert!(!info.awaits_move_permit());
    assert!(!process_distance(&mut info, &TaylorQuadraticApproximator, Ok(201_000), 10));
    assert!(!process_distance(&mut info, &TaylorQuadraticApproximator, Ok(200_500), 15));
    // The history is published again each time.
    assert_eq!(published(&info).len(), 4);
    info.await_move_permit();
    assert!(process_distance(&mut info, &TaylorQuadraticApproximator, Ok(200_400), 20));
}

#[test]
fn a_position_error_on_a_readout_ends_the_run() {
    let mut info = calibrated();
    info.add_outcome(true);
    process_robot_state(&mut info, Ok(RobotState { inserter_z: 4, needle_z: 0 }), 1);
    assert_eq!(info.get_state(), ControllerState::OutOfBrainCalibrated);
    process_robot_state(&mut info, Err(RobotError::MoveError { msg: String::new() }), 2);
    process_robot_state(&mut info, Err(RobotError::ConnectionError { msg: String::new() }), 3);
    assert_eq!(info.get_state(), ControllerState::OutOfBrainCalibrated);
    process_robot_state(&mut info, Err(RobotError::PositionError { msg: String::new() }), 4);
    assert_eq!(info.get_state(), ControllerState::Dead);
    assert!(info.dead());
    assert_eq!(info.get_outcomes(), vec![true]);
    // Nothing leaves the dead phase.
    info.transition_state(ControllerState::OutOfBrainUncalibrated, true);
    assert_eq!(info.get_state(), ControllerState::Dead);
    process_distance(&mut info, &TaylorQuadraticApproximator, Ok(10), 5);
    assert_eq!(info.get_state(), ControllerState::Dead);
}

#[test]
fn smallest_reading_skips_errors() {
    let mut info = ControllerInfo::new();
    assert_eq!(info.min_distance(), None);
    info.add_distance(Err(OCTError::AcquisitionError { msg: String::new() }), 0);
    assert_eq!(info.min_distance(), None);
    info.add_distance(Ok(700), 1);
    info.add_distance(Ok(300), 2);
    info.add_distance(Err(OCTError::PredictionError { msg: String::new() }), 3);
    info.add_distance(Ok(500), 4);
    assert_eq!(info.min_distance(), Some(300));
    info.clear_distance_queue();
    assert_eq!(info.min_distance(), None);
    assert!(info.distance_times().is_empty());
}

#[test]
fn errors_and_standoff_are_kept_and_cleared() {
    let mut info = ControllerInfo::new();
    info.add_error();
    info.add_error();
    assert_eq!(info.get_consecutive_errors(), 2);
    info.clear_error();
    assert_eq!(info.get_consecutive_errors(), 0);
    info.set_pre_move_location(5_300_000);
    assert_eq!(info.get_pre_move_location(), Some(5_300_000));
    info.clear_pre_move_location();
    assert_eq!(info.get_pre_move_location(), None);
    info.die();
    assert!(info.dead());
}
