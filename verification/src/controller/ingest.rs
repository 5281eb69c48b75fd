//! What the controller does with every sample that arrives: it stores the
//! sample, checks the clearance and the drift of the surface, and raises the
//! move permit when the surface is close enough.

use crate::controller::info::{ControllerInfo, InfoModel};
use crate::controller::state::{
    phase_edge, ControllerState, MAX_CONSECUTIVE_PREDICTION_ERRORS, MAX_DIST_FROM_PREMOVE_TO_MOVE,
    MAX_PREDICTION_ERROR_NM, MIN_DISTANCE_BRAIN_TO_ARM_NM,
};
use crate::interface::{OCTError, RobotError, RobotState};
use crate::predictor::{BrainPredictor, Quadratic};
use vstd::prelude::*;

verus! {

/// Whether a gap counts as a prediction error: the predictor declined, or the
/// gap lies more than `MAX_PREDICTION_ERROR_NM` away from what the predictor
/// gives for the instant of the latest sample.
pub open spec fn anomalous(prediction: Option<Quadratic>, distance: u64) -> bool {
    match prediction {
        None => true,
        Some(q) => q.misses(0, distance as int, MAX_PREDICTION_ERROR_NM as int),
    }
}

impl InfoModel {
    /// The record after the clearance check on a gap: a gap below half the
    /// minimum clearance raises a panic where a panic may be raised.
    pub open spec fn with_clearance_check(self, distance: u64) -> InfoModel {
        if self.phase.can_panic() && distance < MIN_DISTANCE_BRAIN_TO_ARM_NM / 2 {
            self.with_transition(ControllerState::Panic, false)
        } else {
            self
        }
    }

    /// The record after the drift check, where a panic may be raised: a
    /// prediction error is counted, and one more than is tolerated raises a
    /// panic; a gap that meets its prediction resets the count.
    pub open spec fn with_drift_check(self, abnormal: bool) -> InfoModel {
        if !self.phase.can_panic() {
            self
        } else if abnormal {
            let errors = (self.consecutive_errors + 1) as u64;
            let counted = InfoModel { consecutive_errors: errors, ..self };
            if errors > MAX_CONSECUTIVE_PREDICTION_ERRORS {
                counted.with_transition(ControllerState::Panic, false)
            } else {
                counted
            }
        } else {
            InfoModel { consecutive_errors: 0, ..self }
        }
    }

    /// The record after the move-permit check on a gap.
    pub open spec fn with_permit_check(self, distance: u64) -> InfoModel {
        if distance < MAX_DIST_FROM_PREMOVE_TO_MOVE {
            self.with_move_notification()
        } else {
            self
        }
    }

    /// The record after a distance sample was ingested at `now`.
    pub open spec fn with_sample<P: BrainPredictor>(
        self,
        predictor: P,
        sample: Result<u64, OCTError>,
        now: u64,
    ) -> InfoModel {
        let stored = self.with_distance(sample, now);
        match sample {
            Err(_) => stored,
            Ok(distance) => {
                let cleared = stored.with_clearance_check(distance);
                let prediction = predictor.prediction(
                    cleared.distances,
                    cleared.distance_times,
                    now,
                );
                cleared.with_drift_check(anomalous(prediction, distance)).with_permit_check(
                    distance,
                )
            },
        }
    }

    /// Whether a distance sample releases the waiting sequencer.
    pub open spec fn releases(self, sample: Result<u64, OCTError>) -> bool {
        &&& self.permit_awaited
        &&& sample matches Ok(distance)
        &&& distance < MAX_DIST_FROM_PREMOVE_TO_MOVE
    }

    /// The record after an actuator readout was ingested at `now`: a position
    /// error ends the run.
    pub open spec fn with_readout(self, readout: Result<RobotState, RobotError>, now: u64) -> InfoModel {
        let judged = if (readout matches Err(error) && error.fatal()) {
            InfoModel { phase: ControllerState::Dead, ..self }
        } else {
            self
        };
        judged.with_robot_state(readout, now)
    }
}

/// Whether the surface moves abnormally: whether `distance` is a prediction
/// error against the distance history consulted at `now`.
pub fn is_abnormal_distance<P: BrainPredictor>(
    info: &ControllerInfo,
    predictor: &P,
    distance: u64,
    now: u64,
) -> (abnormal: bool)
    requires
        info@.wf(),
    ensures
        abnormal == anomalous(
            predictor.prediction(info@.distances, info@.distance_times, now),
            distance,
        ),
{
    let distances = info.distances();
    let times = info.distance_times();
    match predictor.predict(&distances, &times, now) {
        None => true,
        Some(brain_position) => brain_position.misses_latest(distance, MAX_PREDICTION_ERROR_NM),
    }
}

/// Ingests one distance sample at `now`.
///
/// The sample and its timestamp join the distance history. An error is only
/// stored. A gap is checked twice where a panic may be raised: a gap below
/// half the minimum clearance raises a panic at once; otherwise the gap is
/// held against the prediction, and one prediction error more than is
/// tolerated raises a panic. Last, a gap below the trigger publishes the
/// history and raises the move permit. Returns whether the permit released
/// the sequencer.
pub fn process_distance<P: BrainPredictor>(
    info: &mut ControllerInfo,
    predictor: &P,
    distance_result: Result<u64, OCTError>,
    now: u64,
) -> (released: bool)
    requires
        old(info)@.wf(),
        old(info)@.consecutive_errors < u64::MAX,
    ensures
        final(info)@ == old(info)@.with_sample(*predictor, distance_result, now),
        released == old(info)@.releases(distance_result),
        final(info)@.wf(),
        final(info)@.distances.len() <= old(info)@.phase.capacity(),
        phase_edge(old(info)@.phase, final(info)@.phase),
        final(info)@.outcomes == old(info)@.outcomes,
        final(info)@.pre_move_location == old(info)@.pre_move_location,
        distance_result matches Ok(distance) ==> (old(info)@.phase.can_panic() && distance
            < MIN_DISTANCE_BRAIN_TO_ARM_NM / 2 ==> final(info)@.phase is Panic),
        released ==> !final(info)@.permit_awaited,
        !old(info)@.permit_awaited ==> !released && !final(info)@.permit_awaited,
{
    let reading: Option<u64> = match &distance_result {
        Ok(distance) => Some(*distance),
        Err(_) => None,
    };
    info.add_distance(distance_result, now);
    match reading {
        None => false,
        Some(distance) => {
            if info.get_state().may_panic() && distance < MIN_DISTANCE_BRAIN_TO_ARM_NM / 2 {
                info.transition_state(ControllerState::Panic, false);
            }
            if info.get_state().may_panic() {
                if is_abnormal_distance(info, predictor, distance, now) {
                    info.add_error();
                    if info.get_consecutive_errors() > MAX_CONSECUTIVE_PREDICTION_ERRORS {
                        info.transition_state(ControllerState::Panic, false);
                    }
                } else {
                    info.clear_error();
                }
            }
            if distance < MAX_DIST_FROM_PREMOVE_TO_MOVE {
                info.set_move_notification()
            } else {
                false
            }
        },
    }
}

/// Ingests one actuator readout at `now`: a position error ends the run, and
/// the readout and its timestamp join the state history.
pub fn process_robot_state(
    info: &mut ControllerInfo,
    robot_state: Result<RobotState, RobotError>,
    now: u64,
)
    requires
        old(info)@.wf(),
    ensures
        final(info)@ == old(info)@.with_readout(robot_state, now),
        final(info)@.wf(),
        phase_edge(old(info)@.phase, final(info)@.phase),
        robot_state matches Err(error) ==> (error.fatal() ==> final(info)@.phase is Dead),
        final(info)@.outcomes == old(info)@.outcomes,
{
    let fatal = match &robot_state {
        Ok(_) => false,
        Err(error) => error.is_fatal(),
    };
    if fatal {
        info.die();
    }
    info.add_robot_state(robot_state, now);
}

/// A permit is delivered at most once for each wait: of two samples ingested
/// one after the other, with no wait begun between them, at most one releases
/// the sequencer, however many of them raise the permit.
pub proof fn lemma_permit_is_single_shot<P: BrainPredictor>(
    m: InfoModel,
    predictor: P,
    first: Result<u64, OCTError>,
    first_time: u64,
    second: Result<u64, OCTError>,
    second_time: u64,
)
    ensures
        !(m.releases(first) && m.with_sample(predictor, first, first_time).releases(second)),
        !m.permit_awaited ==> !m.with_sample(predictor, first, first_time).permit_awaited,
{
}

} // verus!
