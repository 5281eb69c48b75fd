//! The record that the controller's activities share: the histories, the
//! phase, the count of prediction errors, the standoff, the outcomes, and
//! the histories as they stood when the last move permit was raised.

use crate::controller::history::{appended, push_bounded};
use crate::controller::state::{ControllerState, CALIBRATION_SAMPLES};
use crate::interface::{OCTError, RobotError, RobotState};
use std::collections::VecDeque;
use vstd::prelude::*;

verus! {

/// What a `ControllerInfo` holds, as plain mathematical values.
pub struct InfoModel {
    /// The current phase.
    pub phase: ControllerState,
    /// The distance samples, oldest first.
    pub distances: Seq<Result<u64, OCTError>>,
    /// When each distance sample was ingested, in milliseconds.
    pub distance_times: Seq<u64>,
    /// The actuator readouts, oldest first.
    pub robot_states: Seq<Result<RobotState, RobotError>>,
    /// When each actuator readout was ingested, in milliseconds.
    pub robot_times: Seq<u64>,
    /// How many distance samples in a row missed their prediction.
    pub consecutive_errors: u64,
    /// The inserter's standoff position, once calibrated.
    pub pre_move_location: Option<u64>,
    /// One entry for each commanded depth that is done: whether it succeeded.
    pub outcomes: Seq<bool>,
    /// The distance samples at the time of the last move permit.
    pub notified_distances: Seq<Result<u64, OCTError>>,
    /// Their timestamps.
    pub notified_distance_times: Seq<u64>,
    /// Whether the sequencer is waiting for a move permit.
    pub permit_awaited: bool,
}

impl InfoModel {
    /// Every sample has its timestamp.
    pub open spec fn wf(self) -> bool {
        &&& self.distances.len() == self.distance_times.len()
        &&& self.robot_states.len() == self.robot_times.len()
        &&& self.notified_distances.len() == self.notified_distance_times.len()
    }

    /// The record of a controller that has not done anything yet.
    pub open spec fn initial() -> InfoModel {
        InfoModel {
            phase: ControllerState::OutOfBrainUncalibrated,
            distances: Seq::empty(),
            distance_times: Seq::empty(),
            robot_states: Seq::empty(),
            robot_times: Seq::empty(),
            consecutive_errors: 0,
            pre_move_location: None,
            outcomes: Seq::empty(),
            notified_distances: Seq::empty(),
            notified_distance_times: Seq::empty(),
            permit_awaited: false,
        }
    }

    /// The record after a request to change the phase.
    pub open spec fn with_transition(self, next: ControllerState, from_panic: bool) -> InfoModel {
        InfoModel { phase: self.phase.after(next, from_panic), ..self }
    }

    /// The record after a distance sample was appended.
    pub open spec fn with_distance(self, distance: Result<u64, OCTError>, time: u64) -> InfoModel {
        InfoModel {
            distances: appended(self.distances, distance, self.phase.capacity()),
            distance_times: appended(self.distance_times, time, self.phase.capacity()),
            ..self
        }
    }

    /// The record after an actuator readout was appended.
    pub open spec fn with_robot_state(
        self,
        state: Result<RobotState, RobotError>,
        time: u64,
    ) -> InfoModel {
        InfoModel {
            robot_states: appended(self.robot_states, state, self.phase.capacity()),
            robot_times: appended(self.robot_times, time, self.phase.capacity()),
            ..self
        }
    }

    /// The record after the distance history was emptied.
    pub open spec fn with_cleared_distances(self) -> InfoModel {
        InfoModel { distances: Seq::empty(), distance_times: Seq::empty(), ..self }
    }

    /// Whether a calibration begun at `since` has seen enough: the history
    /// holds `CALIBRATION_SAMPLES` samples and its oldest is no older than
    /// the calibration.
    pub open spec fn calibration_ready(self, since: u64) -> bool {
        &&& self.distances.len() >= CALIBRATION_SAMPLES
        &&& self.distance_times.len() > 0
        &&& self.distance_times[0] >= since
    }

    /// The record after a move permit was raised: the distance history is
    /// published, and whoever waited for the permit waits no longer.
    pub open spec fn with_move_notification(self) -> InfoModel {
        InfoModel {
            notified_distances: self.distances,
            notified_distance_times: self.distance_times,
            permit_awaited: false,
            ..self
        }
    }
}

/// The smallest gap among the samples that are readings; none if every
/// sample is an error.
pub open spec fn smallest_reading(distances: Seq<Result<u64, OCTError>>) -> Option<u64>
    decreases distances.len(),
{
    if distances.len() == 0 {
        None
    } else {
        let earlier = smallest_reading(distances.drop_last());
        match distances.last() {
            Err(_) => earlier,
            Ok(gap) => match earlier {
                Some(least) if least <= gap => earlier,
                _ => Some(gap),
            },
        }
    }
}

/// The smallest reading is one of the samples and no reading lies below it.
pub proof fn lemma_smallest_reading(distances: Seq<Result<u64, OCTError>>)
    ensures
        smallest_reading(distances) is None <==> forall|i: int|
            0 <= i < distances.len() ==> (#[trigger] distances[i]) is Err,
        smallest_reading(distances) matches Some(least) ==> {
            &&& exists|i: int|
                0 <= i < distances.len() && #[trigger] distances[i] == Ok::<u64, OCTError>(least)
            &&& forall|i: int|
                0 <= i < distances.len() && (#[trigger] distances[i]) is Ok ==> least
                    <= distances[i]->Ok_0
        },
    decreases distances.len(),
{
    if distances.len() > 0 {
        let earlier = distances.drop_last();
        lemma_smallest_reading(earlier);
        let last = distances.len() - 1;
        assert forall|i: int| 0 <= i < last implies distances[i] == earlier[i] by {}
        match smallest_reading(distances) {
            Some(least) => {
                if distances.last() == Ok::<u64, OCTError>(least) {
                    assert(distances[last] == Ok::<u64, OCTError>(least));
                } else {
                    let i = choose|i: int|
                        0 <= i < earlier.len() && #[trigger] earlier[i] == Ok::<u64, OCTError>(
                            least,
                        );
                    assert(distances[i] == Ok::<u64, OCTError>(least));
                }
            },
            None => {},
        }
    }
}

/// The shared record of the controller.
pub struct ControllerInfo {
    current_state: ControllerState,
    distance_queue: VecDeque<Result<u64, OCTError>>,
    distance_time_queue: VecDeque<u64>,
    robot_queue: VecDeque<Result<RobotState, RobotError>>,
    robot_time_queue: VecDeque<u64>,
    consecutive_errors: u64,
    pre_move_location: Option<u64>,
    outcomes: Vec<bool>,
    notified_distances: Vec<Result<u64, OCTError>>,
    notified_distance_times: Vec<u64>,
    permit_awaited: bool,
}

impl View for ControllerInfo {
    type V = InfoModel;

    closed spec fn view(&self) -> InfoModel {
        InfoModel {
            phase: self.current_state,
            distances: self.distance_queue@,
            distance_times: self.distance_time_queue@,
            robot_states: self.robot_queue@,
            robot_times: self.robot_time_queue@,
            consecutive_errors: self.consecutive_errors,
            pre_move_location: self.pre_move_location,
            outcomes: self.outcomes@,
            notified_distances: self.notified_distances@,
            notified_distance_times: self.notified_distance_times@,
            permit_awaited: self.permit_awaited,
        }
    }
}

/// A copy of a distance sample.
pub fn copy_sample(sample: &Result<u64, OCTError>) -> (copy: Result<u64, OCTError>)
    ensures
        copy == *sample,
{
    match sample {
        Ok(gap) => Ok(*gap),
        Err(error) => Err(error.clone()),
    }
}

/// The distance samples of a queue, oldest first.
fn samples_of(queue: &VecDeque<Result<u64, OCTError>>) -> (samples: Vec<Result<u64, OCTError>>)
    ensures
        samples@ == queue@,
{
    let mut samples: Vec<Result<u64, OCTError>> = Vec::new();
    let mut i: usize = 0;
    while i < queue.len()
        invariant
            i <= queue@.len(),
            samples@ == queue@.take(i as int),
        decreases queue@.len() - i,
    {
        samples.push(copy_sample(&queue[i]));
        assert(samples@ == queue@.take(i as int + 1));
        i = i + 1;
    }
    assert(queue@.take(queue@.len() as int) == queue@);
    samples
}

/// The timestamps of a queue, oldest first.
fn times_of(queue: &VecDeque<u64>) -> (times: Vec<u64>)
    ensures
        times@ == queue@,
{
    let mut times: Vec<u64> = Vec::new();
    let mut i: usize = 0;
    while i < queue.len()
        invariant
            i <= queue@.len(),
            times@ == queue@.take(i as int),
        decreases queue@.len() - i,
    {
        times.push(queue[i]);
        assert(times@ == queue@.take(i as int + 1));
        i = i + 1;
    }
    assert(queue@.take(queue@.len() as int) == queue@);
    times
}

impl ControllerInfo {
    /// The record of a controller that has not done anything yet: it is
    /// uncalibrated and every history is empty.
    pub fn new() -> (info: ControllerInfo)
        ensures
            info@ == InfoModel::initial(),
            info@.wf(),
    {
        ControllerInfo {
            current_state: ControllerState::OutOfBrainUncalibrated,
            distance_queue: VecDeque::new(),
            distance_time_queue: VecDeque::new(),
            robot_queue: VecDeque::new(),
            robot_time_queue: VecDeque::new(),
            consecutive_errors: 0,
            pre_move_location: None,
            outcomes: Vec::new(),
            notified_distances: Vec::new(),
            notified_distance_times: Vec::new(),
            permit_awaited: false,
        }
    }

    /// Requests a change of phase. A dead controller stays dead, and a
    /// panicking one changes only when the request comes from its recovery.
    pub fn transition_state(&mut self, next_state: ControllerState, from_panic: bool)
        ensures
            final(self)@ == old(self)@.with_transition(next_state, from_panic),
    {
        self.current_state = self.current_state.transition_to(next_state, from_panic);
    }

    /// Ends the run: the phase becomes `Dead`, whatever it was.
    pub fn die(&mut self)
        ensures
            final(self)@ == (InfoModel { phase: ControllerState::Dead, ..old(self)@ }),
    {
        self.current_state = ControllerState::Dead;
    }

    /// Appends a distance sample and its timestamp to the distance history.
    pub fn add_distance(&mut self, distance: Result<u64, OCTError>, time: u64)
        ensures
            final(self)@ == old(self)@.with_distance(distance, time),
            final(self)@.distances.len() <= old(self)@.phase.capacity(),
            old(self)@.wf() ==> final(self)@.wf(),
    {
        let capacity = self.current_state.history_capacity();
        push_bounded(&mut self.distance_queue, distance, capacity);
        push_bounded(&mut self.distance_time_queue, time, capacity);
    }

    /// Appends an actuator readout and its timestamp to the state history.
    pub fn add_robot_state(&mut self, state: Result<RobotState, RobotError>, time: u64)
        ensures
            final(self)@ == old(self)@.with_robot_state(state, time),
            final(self)@.robot_states.len() <= old(self)@.phase.capacity(),
            old(self)@.wf() ==> final(self)@.wf(),
    {
        let capacity = self.current_state.history_capacity();
        push_bounded(&mut self.robot_queue, state, capacity);
        push_bounded(&mut self.robot_time_queue, time, capacity);
    }

    /// Empties the distance history.
    pub fn clear_distance_queue(&mut self)
        ensures
            final(self)@ == old(self)@.with_cleared_distances(),
    {
        self.distance_queue.clear();
        self.distance_time_queue.clear();
    }

    /// Raises the move permit: publishes the distance history as it stands
    /// and releases the sequencer if it is waiting. Returns whether it was;
    /// a permit that nobody waits for is dropped.
    pub fn set_move_notification(&mut self) -> (delivered: bool)
        ensures
            final(self)@ == old(self)@.with_move_notification(),
            delivered == old(self)@.permit_awaited,
    {
        self.notified_distance_times = times_of(&self.distance_time_queue);
        self.notified_distances = samples_of(&self.distance_queue);
        let delivered = self.permit_awaited;
        self.permit_awaited = false;
        delivered
    }

    /// The current phase.
    pub fn get_state(&self) -> (phase: ControllerState)
        ensures
            phase == self@.phase,
    {
        self.current_state
    }

    /// Whether both axes are outside the tissue and the standoff is unknown.
    pub fn out_of_brain_uncalibrated(&self) -> (b: bool)
        ensures
            b == (self@.phase is OutOfBrainUncalibrated),
    {
        self.current_state == ControllerState::OutOfBrainUncalibrated
    }

    /// Whether both axes are outside the tissue and the inserter holds its
    /// standoff.
    pub fn out_of_brain_calibrated(&self) -> (b: bool)
        ensures
            b == (self@.phase is OutOfBrainCalibrated),
    {
        self.current_state == ControllerState::OutOfBrainCalibrated
    }

    /// Whether a safety check has failed and recovery is due.
    pub fn in_panic(&self) -> (b: bool)
        ensures
            b == (self@.phase is Panic),
    {
        self.current_state == ControllerState::Panic
    }

    /// Whether the needle is inside the tissue.
    pub fn in_brain(&self) -> (b: bool)
        ensures
            b == (self@.phase is InBrain),
    {
        self.current_state == ControllerState::InBrain
    }

    /// Whether the run is over.
    pub fn dead(&self) -> (b: bool)
        ensures
            b == (self@.phase is Dead),
    {
        self.current_state == ControllerState::Dead
    }

    /// The distance history, oldest sample first.
    pub fn distances(&self) -> (samples: Vec<Result<u64, OCTError>>)
        ensures
            samples@ == self@.distances,
    {
        samples_of(&self.distance_queue)
    }

    /// The timestamps of the distance history.
    pub fn distance_times(&self) -> (times: Vec<u64>)
        ensures
            times@ == self@.distance_times,
    {
        times_of(&self.distance_time_queue)
    }

    /// The distance samples published with the last move permit.
    pub fn notified_distances(&self) -> (samples: &Vec<Result<u64, OCTError>>)
        ensures
            samples@ == self@.notified_distances,
    {
        &self.notified_distances
    }

    /// The timestamps published with the last move permit.
    pub fn notified_distance_times(&self) -> (times: &Vec<u64>)
        ensures
            times@ == self@.notified_distance_times,
    {
        &self.notified_distance_times
    }

    /// Counts one more prediction error.
    pub fn add_error(&mut self)
        requires
            old(self)@.consecutive_errors < u64::MAX,
        ensures
            final(self)@ == (InfoModel {
                consecutive_errors: (old(self)@.consecutive_errors + 1) as u64,
                ..old(self)@
            }),
    {
        self.consecutive_errors = self.consecutive_errors + 1;
    }

    /// Forgets the prediction errors counted so far.
    pub fn clear_error(&mut self)
        ensures
            final(self)@ == (InfoModel { consecutive_errors: 0, ..old(self)@ }),
    {
        self.consecutive_errors = 0;
    }

    /// How many distance samples in a row missed their prediction.
    pub fn get_consecutive_errors(&self) -> (errors: u64)
        ensures
            errors == self@.consecutive_errors,
    {
        self.consecutive_errors
    }

    /// The inserter's standoff position, once calibrated.
    pub fn get_pre_move_location(&self) -> (location: Option<u64>)
        ensures
            location == self@.pre_move_location,
    {
        self.pre_move_location
    }

    /// Sets the inserter's standoff position.
    pub fn set_pre_move_location(&mut self, location: u64)
        ensures
            final(self)@ == (InfoModel { pre_move_location: Some(location), ..old(self)@ }),
    {
        self.pre_move_location = Some(location);
    }

    /// Forgets the inserter's standoff position.
    pub fn clear_pre_move_location(&mut self)
        ensures
            final(self)@ == (InfoModel { pre_move_location: None, ..old(self)@ }),
    {
        self.pre_move_location = None;
    }

    /// Records the outcome of the depth that was just completed.
    pub fn add_outcome(&mut self, outcome: bool)
        ensures
            final(self)@ == (InfoModel { outcomes: old(self)@.outcomes.push(outcome), ..old(self)@ }),
    {
        self.outcomes.push(outcome);
    }

    /// The outcomes so far, one for each completed depth, in the order of
    /// the depths.
    pub fn get_outcomes(&self) -> (outcomes: Vec<bool>)
        ensures
            outcomes@ == self@.outcomes,
    {
        self.outcomes.clone()
    }

    /// Whether a calibration begun at `since` has seen enough samples.
    pub fn calibration_ready(&self, since: u64) -> (ready: bool)
        ensures
            ready == self@.calibration_ready(since),
    {
        if self.distance_queue.len() < CALIBRATION_SAMPLES as usize
            || self.distance_time_queue.len() == 0 {
            return false;
        }
        self.distance_time_queue[0] >= since
    }

    /// The smallest gap among the readings of the distance history.
    pub fn min_distance(&self) -> (least: Option<u64>)
        ensures
            least == smallest_reading(self@.distances),
    {
        let mut least: Option<u64> = None;
        let mut i: usize = 0;
        while i < self.distance_queue.len()
            invariant
                i <= self.distance_queue@.len(),
                least == smallest_reading(self.distance_queue@.take(i as int)),
            decreases self.distance_queue@.len() - i,
        {
            proof {
                assert(self.distance_queue@.take(i as int + 1).drop_last()
                    == self.distance_queue@.take(i as int));
            }
            match &self.distance_queue[i] {
                Err(_) => {},
                Ok(gap) => {
                    least = match least {
                        Some(current) if current <= *gap => least,
                        _ => Some(*gap),
                    };
                },
            }
            i = i + 1;
        }
        proof {
            assert(self.distance_queue@.take(self.distance_queue@.len() as int)
                == self.distance_queue@);
        }
        least
    }

    /// Records that the sequencer starts to wait for a move permit.
    pub fn await_move_permit(&mut self)
        ensures
            final(self)@ == (InfoModel { permit_awaited: true, ..old(self)@ }),
    {
        self.permit_awaited = true;
    }

    /// Records that the sequencer waits for a move permit no longer.
    pub fn stop_awaiting_move_permit(&mut self)
        ensures
            final(self)@ == (InfoModel { permit_awaited: false, ..old(self)@ }),
    {
        self.permit_awaited = false;
    }

    /// Whether the sequencer is waiting for a move permit.
    pub fn awaits_move_permit(&self) -> (awaited: bool)
        ensures
            awaited == self@.permit_awaited,
    {
        self.permit_awaited
    }
}

} // verus!
