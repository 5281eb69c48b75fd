//! The sequencer: the state machine that deposits one implant for each
//! commanded depth.
//!
//! The sequencer never talks to a device and never waits. Each call of
//! `Sequencer::step` takes what just happened, decides, and returns the one
//! action to perform next; the caller performs it and comes back with its
//! result. For each depth the sequencer recovers from a panic if there is
//! one, calibrates if it has to, checks that the needle is home, and then
//! waits for the moment to thrust.

use crate::controller::info::{smallest_reading, ControllerInfo, InfoModel};
use crate::controller::state::{
    phase_edge, ControllerState, COMMANDED_DEPTH_MAX_NM, COMMANDED_DEPTH_MIN_NM,
    MAX_CONSECUTIVE_PREDICTION_ERRORS, MAX_DIST_FROM_PREMOVE_TO_MOVE, MAX_IB_TIME,
    MIN_DISTANCE_BRAIN_TO_ARM_NM,
};
use crate::interface::{Move, OCTError, RobotError, RobotState};
use crate::predictor::{elapsed, millis_between, BrainPredictor, Quadratic};
use vstd::pervasive::unreached;
use vstd::prelude::*;

verus! {

/// How long, in milliseconds, a calibration sleeps between two looks at the
/// distance history.
pub const CALIBRATION_POLL_MILLIS: u64 = 10;

/// What follows a move outside the tissue once it has succeeded.
#[derive(Debug, Clone, Copy, PartialEq, Eq, Structural)]
pub enum Continuation {
    /// The second move of a panic recovery: the inserter returns to the origin.
    PanicInserter,
    /// The end of a panic recovery.
    PanicExit,
    /// The second move of a calibration: the needle returns to the origin.
    CalibrationNeedle,
    /// The end of a calibration.
    CalibrationDone,
    /// The end of an insertion, with its outcome.
    Retracted(bool),
}

/// Where the sequencer stands: what it has asked for and waits to hear of.
#[derive(Debug, Clone, Copy, PartialEq, Eq, Structural)]
pub enum Stage {
    /// Nothing was asked for yet.
    Idle,
    /// A move outside the tissue is under way. It is repeated until it
    /// succeeds; then the phase is asked to change and `then` follows.
    Moving { command: Move, next_state: ControllerState, from_panic: bool, then: Continuation },
    /// A calibration waits for a readout that shows the actuator at the origin.
    CalibrationProbe,
    /// A calibration sleeps while the distance history fills.
    CalibrationWatch,
    /// An insertion waits for a readout that shows the needle home and the
    /// inserter at its standoff.
    InsertionProbe,
    /// An insertion waits for the move permit.
    Permit,
    /// An insertion waits for the instant at which the needle meets its depth.
    Root,
    /// The thrust is under way.
    Thrust,
    /// The run is over.
    Finished,
}

impl Stage {
    /// A move outside the tissue goes with what follows it: each step of a
    /// recovery or a calibration has its own command and its own request for
    /// the phase.
    pub open spec fn wf(self) -> bool {
        match self {
            Stage::Moving { command, next_state, from_panic, then } => match then {
                Continuation::PanicInserter => command == Move::NeedleZ(0) && next_state
                    is Panic && from_panic,
                Continuation::PanicExit => command == Move::InserterZ(0) && next_state is Panic
                    && from_panic,
                Continuation::CalibrationNeedle => command is InserterZ && next_state
                    is OutOfBrainUncalibrated && !from_panic,
                Continuation::CalibrationDone => command == Move::NeedleZ(0) && next_state
                    is OutOfBrainCalibrated && !from_panic,
                Continuation::Retracted(_) => command == Move::NeedleZ(0) && next_state
                    is OutOfBrainCalibrated && !from_panic,
            },
            _ => true,
        }
    }
}

/// What happened since the last step.
#[derive(Debug)]
pub enum Event {
    /// The run begins.
    Start,
    /// The actuator answered the move that was commanded.
    Moved(Result<(), RobotError>),
    /// The actuator answered the query for its state.
    Readout(Result<RobotState, RobotError>),
    /// The move permit was raised while the sequencer waited for it.
    Permit,
    /// The thrust equation was solved: the predicted gap, rounded down, at
    /// the first instant at which the needle meets the commanded depth, or
    /// `None` if there is no such instant.
    Root(Option<u64>),
    /// The pause is over.
    Woke,
}

/// What the caller is to do next.
#[derive(Debug, Clone, Copy, PartialEq, Eq, Structural)]
pub enum Action {
    /// Command the move and come back with `Event::Moved`.
    Command(Move),
    /// Query the actuator's state and come back with `Event::Readout`.
    QueryState,
    /// Wait for the move permit and come back with `Event::Permit`.
    AwaitPermit,
    /// Find the first instant `t >= 0`, in milliseconds, at which the predicted
    /// gap `curve` plus `depth` equals the needle's advance, a quarter of
    /// `NEEDLE_ACCELERATION_NM_MS` times `t * t`, and come back with
    /// `Event::Root` and the predicted gap at that instant.
    Solve { curve: Quadratic, depth: u64 },
    /// Sleep for so many milliseconds and come back with `Event::Woke`.
    Pause(u64),
    /// Signal the actuator that the run is over. Nothing follows.
    Shutdown,
}

/// What a `Sequencer` holds, as plain mathematical values.
pub struct SequencerModel {
    /// The commanded depths, in nanometres.
    pub depths: Seq<u64>,
    /// How many of the depths are done.
    pub index: nat,
    /// Where the sequencer stands.
    pub stage: Stage,
    /// When the current insertion began to wait for its thrust.
    pub insertion_start: u64,
    /// When the current calibration began.
    pub calibration_start: u64,
    /// Whether the needle is known to be at the origin: the actuator has
    /// confirmed it, and no needle move has been in doubt since.
    pub needle_home: bool,
}

/// The result of one step: the sequencer and the shared record after it, and
/// the action that it asks for.
pub struct Turn {
    pub sequencer: SequencerModel,
    pub info: InfoModel,
    pub action: Action,
}

/// The quadratic to plan a thrust from: what the predictor makes of the
/// history published with the last move permit, unless the last gap of that
/// history is missing or lies above `MAX_DIST_FROM_PREMOVE_TO_MOVE`.
pub open spec fn thrust_plan<P: BrainPredictor>(m: InfoModel, predictor: P, now: u64) -> Option<
    Quadratic,
> {
    let last = m.notified_distances.len() - 1;
    match predictor.prediction(m.notified_distances, m.notified_distance_times, now) {
        None => None,
        Some(curve) => if last >= 0 && m.notified_distances[last] is Ok
            && m.notified_distances[last]->Ok_0 <= MAX_DIST_FROM_PREMOVE_TO_MOVE {
            Some(curve)
        } else {
            None
        },
    }
}

impl SequencerModel {
    /// The depths are within the limits, the depth at work exists while an
    /// insertion is under way, and the needle is home while an insertion
    /// waits for its thrust.
    pub open spec fn wf(self) -> bool {
        &&& self.index <= self.depths.len()
        &&& forall|i: int|
            0 <= i < self.depths.len() ==> COMMANDED_DEPTH_MIN_NM <= #[trigger] self.depths[i]
                <= COMMANDED_DEPTH_MAX_NM
        &&& self.inserting() ==> self.index < self.depths.len()
        &&& (self.stage is Permit || self.stage is Root) ==> self.needle_home
        &&& self.stage is Idle ==> self.index == 0
        &&& self.stage.wf()
    }

    /// Whether a calibration is past its first readout.
    pub open spec fn calibrating(self) -> bool {
        match self.stage {
            Stage::CalibrationWatch => true,
            Stage::Moving { then: Continuation::CalibrationNeedle, .. } => true,
            Stage::Moving { then: Continuation::CalibrationDone, .. } => true,
            _ => false,
        }
    }

    /// Whether the shared record fits the sequencer as it stands. The phase
    /// is one that the sequencer can stand in: a run begins uncalibrated, a
    /// panic recovery runs in panic, a calibration in the uncalibrated phase,
    /// an insertion in any phase but that; a dead controller fits everywhere.
    /// Nobody waits for the move permit but an insertion that has asked for
    /// it. There is one outcome for each depth that is done. And the count of
    /// prediction errors is within what is tolerated wherever it can grow.
    pub open spec fn coherent(self, m: InfoModel) -> bool {
        &&& m.outcomes.len() == self.index
        &&& m.consecutive_errors <= MAX_CONSECUTIVE_PREDICTION_ERRORS + 1
        &&& (m.phase.can_panic() || self.calibrating()) ==> m.consecutive_errors
            <= MAX_CONSECUTIVE_PREDICTION_ERRORS
        &&& match self.stage {
            Stage::Idle => m.phase is OutOfBrainUncalibrated || m.phase is Dead,
            Stage::Moving { then, .. } => match then {
                Continuation::PanicInserter | Continuation::PanicExit => m.phase is Panic
                    || m.phase is Dead,
                Continuation::CalibrationNeedle | Continuation::CalibrationDone => m.phase
                    is OutOfBrainUncalibrated || m.phase is Dead,
                Continuation::Retracted(_) => m.phase !is OutOfBrainUncalibrated,
            },
            Stage::CalibrationProbe | Stage::CalibrationWatch => m.phase is OutOfBrainUncalibrated
                || m.phase is Dead,
            Stage::InsertionProbe | Stage::Permit | Stage::Root | Stage::Thrust => m.phase
                !is OutOfBrainUncalibrated,
            Stage::Finished => true,
        }
        &&& m.permit_awaited ==> self.stage is Permit
    }

    /// Whether an insertion is under way.
    pub open spec fn inserting(self) -> bool {
        match self.stage {
            Stage::InsertionProbe | Stage::Permit | Stage::Root | Stage::Thrust => true,
            Stage::Moving { then: Continuation::Retracted(_), .. } => true,
            _ => false,
        }
    }

    /// The sequencer before its first step.
    pub open spec fn initial(depths: Seq<u64>) -> SequencerModel {
        SequencerModel {
            depths,
            index: 0,
            stage: Stage::Idle,
            insertion_start: 0,
            calibration_start: 0,
            needle_home: false,
        }
    }

    /// Whether `event` may be handed to the sequencer as it stands: it is the
    /// answer to what the sequencer asked for, and, unless the controller is
    /// dead, the actuator is where the sequencer needs it to be.
    pub open spec fn admits(self, m: InfoModel, event: Event) -> bool {
        match self.stage {
            Stage::Idle => event is Start && m.phase !is InBrain,
            Stage::Moving { .. } => event is Moved,
            Stage::Thrust => event is Moved,
            Stage::CalibrationProbe => event is Readout && (m.phase is Dead || (m.phase
                is OutOfBrainUncalibrated && event->Readout_0 == Ok::<RobotState, RobotError>(
                RobotState { inserter_z: 0, needle_z: 0 },
            ))),
            Stage::CalibrationWatch => event is Woke && (m.phase is Dead || !m.calibration_ready(
                self.calibration_start,
            ) || (smallest_reading(m.distances) is Some && smallest_reading(m.distances)->0
                > MIN_DISTANCE_BRAIN_TO_ARM_NM)),
            Stage::InsertionProbe => event is Readout && (m.phase is Dead || (event->Readout_0
                is Ok && event->Readout_0->Ok_0.needle_z == 0 && m.pre_move_location == Some(
                event->Readout_0->Ok_0.inserter_z,
            ))),
            Stage::Permit => event is Permit,
            Stage::Root => event is Root && (m.phase is Dead || event->Root_0 is None
                || event->Root_0->0 + COMMANDED_DEPTH_MAX_NM <= u64::MAX),
            Stage::Finished => false,
        }
    }

    /// The run ends: nobody waits for a permit any more, the actuator is
    /// told, and nothing follows.
    pub open spec fn finish(self, m: InfoModel) -> Turn {
        Turn {
            sequencer: SequencerModel { stage: Stage::Finished, ..self },
            info: InfoModel { permit_awaited: false, ..m },
            action: Action::Shutdown,
        }
    }

    /// A move outside the tissue begins.
    pub open spec fn move_bot(
        self,
        m: InfoModel,
        command: Move,
        next_state: ControllerState,
        from_panic: bool,
        then: Continuation,
    ) -> Turn {
        Turn {
            sequencer: SequencerModel {
                stage: Stage::Moving { command, next_state, from_panic, then },
                ..self
            },
            info: m,
            action: Action::Command(command),
        }
    }

    /// A panic recovery begins: the needle returns to the origin first.
    pub open spec fn panic(self, m: InfoModel) -> Turn {
        self.move_bot(m, Move::NeedleZ(0), ControllerState::Panic, true, Continuation::PanicInserter)
    }

    /// An insertion ends with `outcome`: the needle returns to the origin.
    pub open spec fn retract_ib(self, m: InfoModel, outcome: bool) -> Turn {
        self.move_bot(
            m,
            Move::NeedleZ(0),
            ControllerState::OutOfBrainCalibrated,
            false,
            Continuation::Retracted(outcome),
        )
    }

    /// The next depth is taken up, or the same depth once more. When no depth
    /// is left the controller is asked to die and the run ends. Otherwise a
    /// panic is recovered from, an uncalibrated controller calibrates, and a
    /// calibrated one asks for the readout that an insertion begins with.
    pub open spec fn start(self, m: InfoModel) -> Turn {
        if self.index >= self.depths.len() {
            self.finish(m.with_transition(ControllerState::Dead, false))
        } else {
            match m.phase {
                ControllerState::Dead => self.finish(m),
                ControllerState::Panic => self.panic(m),
                ControllerState::OutOfBrainUncalibrated => Turn {
                    sequencer: SequencerModel { stage: Stage::CalibrationProbe, ..self },
                    info: m,
                    action: Action::QueryState,
                },
                _ => Turn {
                    sequencer: SequencerModel { stage: Stage::InsertionProbe, ..self },
                    info: m,
                    action: Action::QueryState,
                },
            }
        }
    }

    /// The head of the loop in which an insertion waits for its thrust. A
    /// panic ends the wait and is recovered from; the depth will be tried
    /// again. After `MAX_IB_TIME` the insertion has failed and the needle
    /// retracts. Otherwise the sequencer waits for the move permit.
    pub open spec fn insert_ib_open_loop(self, m: InfoModel, now: u64) -> Turn {
        if m.phase is Panic {
            self.panic(m)
        } else if elapsed(self.insertion_start, now) >= MAX_IB_TIME {
            self.retract_ib(m, false)
        } else {
            Turn {
                sequencer: SequencerModel { stage: Stage::Permit, ..self },
                info: InfoModel { permit_awaited: true, ..m },
                action: Action::AwaitPermit,
            }
        }
    }

    /// What follows a move outside the tissue that has succeeded.
    pub open spec fn resume(self, m: InfoModel, then: Continuation) -> Turn {
        match then {
            Continuation::PanicInserter => self.move_bot(
                m,
                Move::InserterZ(0),
                ControllerState::Panic,
                true,
                Continuation::PanicExit,
            ),
            Continuation::PanicExit => self.start(
                m.with_transition(ControllerState::OutOfBrainUncalibrated, true),
            ),
            Continuation::CalibrationNeedle => self.move_bot(
                m,
                Move::NeedleZ(0),
                ControllerState::OutOfBrainCalibrated,
                false,
                Continuation::CalibrationDone,
            ),
            Continuation::CalibrationDone => self.start(m.with_cleared_distances()),
            Continuation::Retracted(outcome) => (SequencerModel {
                index: self.index + 1,
                ..self
            }).start(InfoModel { outcomes: m.outcomes.push(outcome), ..m }),
        }
    }

    /// The answer to a move outside the tissue. Success changes the phase as
    /// the move was told to and goes on; a position error ends the run; any
    /// other error repeats the move.
    pub open spec fn moved(
        self,
        m: InfoModel,
        reply: Result<(), RobotError>,
        command: Move,
        next_state: ControllerState,
        from_panic: bool,
        then: Continuation,
    ) -> Turn {
        match reply {
            Ok(_) => (SequencerModel {
                needle_home: if command is NeedleZ {
                    command.target() == 0
                } else {
                    self.needle_home
                },
                ..self
            }).resume(m.with_transition(next_state, from_panic), then),
            Err(error) => if error.fatal() {
                self.finish(InfoModel { phase: ControllerState::Dead, ..m })
            } else {
                Turn {
                    sequencer: SequencerModel {
                        needle_home: self.needle_home && !(command is NeedleZ),
                        ..self
                    },
                    info: m,
                    action: Action::Command(command),
                }
            },
        }
    }

    /// The answer to a thrust. Whatever it is, the needle retracts. Success
    /// and failure end the insertion with their outcome; a position error
    /// kills the controller, so that the run ends with the next step and the
    /// depth gets no outcome.
    pub open spec fn thrusted(self, m: InfoModel, reply: Result<(), RobotError>) -> Turn {
        match reply {
            Ok(_) => self.retract_ib(m, true),
            Err(error) => if error.fatal() {
                self.retract_ib(InfoModel { phase: ControllerState::Dead, ..m }, false)
            } else {
                self.retract_ib(m, false)
            },
        }
    }

    /// A calibration begins at `now`, the actuator being at the origin: what
    /// was learnt before is forgotten and the distance history starts afresh.
    pub open spec fn calibrate(self, m: InfoModel, now: u64) -> Turn {
        Turn {
            sequencer: SequencerModel {
                stage: Stage::CalibrationWatch,
                calibration_start: now,
                needle_home: true,
                ..self
            },
            info: InfoModel {
                consecutive_errors: 0,
                pre_move_location: None,
                ..m.with_cleared_distances()
            },
            action: Action::Pause(CALIBRATION_POLL_MILLIS),
        }
    }

    /// A calibration looks at the distance history. Once it has seen enough,
    /// the standoff is the smallest gap less the minimum clearance, and the
    /// inserter moves there; until then the calibration sleeps again.
    pub open spec fn watch(self, m: InfoModel) -> Turn {
        if m.calibration_ready(self.calibration_start) {
            let standoff = (smallest_reading(m.distances)->0 - MIN_DISTANCE_BRAIN_TO_ARM_NM) as u64;
            self.move_bot(
                InfoModel { pre_move_location: Some(standoff), ..m },
                Move::InserterZ(standoff),
                ControllerState::OutOfBrainUncalibrated,
                false,
                Continuation::CalibrationNeedle,
            )
        } else {
            Turn { sequencer: self, info: m, action: Action::Pause(CALIBRATION_POLL_MILLIS) }
        }
    }

    /// The move permit was raised. If a thrust can be planned from the
    /// published history, the thrust equation is handed out to be solved;
    /// otherwise the insertion goes on waiting.
    pub open spec fn permitted<P: BrainPredictor>(self, m: InfoModel, predictor: P, now: u64) -> Turn {
        let heard = InfoModel { permit_awaited: false, ..m };
        match thrust_plan(heard, predictor, now) {
            Some(curve) => Turn {
                sequencer: SequencerModel { stage: Stage::Root, ..self },
                info: heard,
                action: Action::Solve { curve, depth: self.depths[self.index as int] },
            },
            None => self.insert_ib_open_loop(heard, now),
        }
    }

    /// The thrust equation was solved. The needle is sent to the predicted
    /// gap plus the commanded depth; with no solution the insertion goes on
    /// waiting.
    pub open spec fn solved(self, m: InfoModel, root: Option<u64>, now: u64) -> Turn {
        match root {
            Some(gap) => Turn {
                sequencer: SequencerModel { stage: Stage::Thrust, needle_home: false, ..self },
                info: m,
                action: Action::Command(
                    Move::NeedleZ((gap + self.depths[self.index as int]) as u64),
                ),
            },
            None => self.insert_ib_open_loop(m, now),
        }
    }

    /// One step of the sequencer: what it makes of `event` at `now`. A dead
    /// controller ends the run whatever the event.
    pub open spec fn next<P: BrainPredictor>(
        self,
        m: InfoModel,
        predictor: P,
        event: Event,
        now: u64,
    ) -> Turn {
        if m.phase is Dead {
            self.finish(m)
        } else {
            match self.stage {
                Stage::Idle => self.start(m),
                Stage::Moving { command, next_state, from_panic, then } => self.moved(
                    m,
                    event->Moved_0,
                    command,
                    next_state,
                    from_panic,
                    then,
                ),
                Stage::CalibrationProbe => self.calibrate(m, now),
                Stage::CalibrationWatch => self.watch(m),
                Stage::InsertionProbe => (SequencerModel {
                    insertion_start: now,
                    needle_home: true,
                    ..self
                }).insert_ib_open_loop(m, now),
                Stage::Permit => self.permitted(m, predictor, now),
                Stage::Root => self.solved(m, event->Root_0, now),
                Stage::Thrust => self.thrusted(m, event->Moved_0),
                Stage::Finished => self.finish(m),
            }
        }
    }
}

/// Whether every depth lies within the limits for a commanded depth.
pub open spec fn depths_within_limits(depths: Seq<u64>) -> bool {
    forall|i: int|
        0 <= i < depths.len() ==> COMMANDED_DEPTH_MIN_NM <= #[trigger] depths[i]
            <= COMMANDED_DEPTH_MAX_NM
}

/// Whether every depth lies within the limits for a commanded depth.
pub fn depths_in_range(depths: &Vec<u64>) -> (fine: bool)
    ensures
        fine == depths_within_limits(depths@),
{
    let mut i: usize = 0;
    while i < depths.len()
        invariant
            i <= depths@.len(),
            forall|k: int|
                0 <= k < i ==> COMMANDED_DEPTH_MIN_NM <= #[trigger] depths@[k]
                    <= COMMANDED_DEPTH_MAX_NM,
        decreases depths@.len() - i,
    {
        if depths[i] < COMMANDED_DEPTH_MIN_NM || depths[i] > COMMANDED_DEPTH_MAX_NM {
            return false;
        }
        i = i + 1;
    }
    true
}

/// Plans a thrust from the history published with the last move permit.
pub fn plan_thrust<P: BrainPredictor>(info: &ControllerInfo, predictor: &P, now: u64) -> (plan:
    Option<Quadratic>)
    requires
        info@.wf(),
    ensures
        plan == thrust_plan(info@, *predictor, now),
        plan is Some ==> plan->0.wf(),
{
    let distances = info.notified_distances();
    let times = info.notified_distance_times();
    match predictor.predict(distances, times, now) {
        None => None,
        Some(curve) => {
            if distances.len() == 0 {
                return None;
            }
            match &distances[distances.len() - 1] {
                Ok(gap) => if *gap <= MAX_DIST_FROM_PREMOVE_TO_MOVE {
                    Some(curve)
                } else {
                    None
                },
                Err(_) => None,
            }
        },
    }
}

/// The state machine that deposits one implant for each commanded depth.
pub struct Sequencer {
    depths: Vec<u64>,
    index: usize,
    stage: Stage,
    insertion_start: u64,
    calibration_start: u64,
    needle_home: bool,
}

impl View for Sequencer {
    type V = SequencerModel;

    closed spec fn view(&self) -> SequencerModel {
        SequencerModel {
            depths: self.depths@,
            index: self.index as nat,
            stage: self.stage,
            insertion_start: self.insertion_start,
            calibration_start: self.calibration_start,
            needle_home: self.needle_home,
        }
    }
}

impl Sequencer {
    /// A sequencer for the given depths, before its first step.
    pub fn new(commanded_depth: Vec<u64>) -> (sequencer: Sequencer)
        requires
            depths_within_limits(commanded_depth@),
        ensures
            sequencer@ == SequencerModel::initial(commanded_depth@),
            sequencer@.wf(),
    {
        Sequencer {
            depths: commanded_depth,
            index: 0,
            stage: Stage::Idle,
            insertion_start: 0,
            calibration_start: 0,
            needle_home: false,
        }
    }

    /// Where the sequencer stands.
    pub fn stage(&self) -> (stage: Stage)
        ensures
            stage == self@.stage,
    {
        self.stage
    }

    /// How many of the depths are done.
    pub fn completed(&self) -> (done: usize)
        ensures
            done == self@.index,
    {
        self.index
    }

    /// Whether the run has not begun.
    pub fn idle(&self) -> (waiting: bool)
        ensures
            waiting == (self@.stage is Idle),
    {
        match self.stage {
            Stage::Idle => true,
            _ => false,
        }
    }

    /// Whether the run is over.
    pub fn finished(&self) -> (over: bool)
        ensures
            over == (self@.stage is Finished),
    {
        match self.stage {
            Stage::Finished => true,
            _ => false,
        }
    }

    /// Whether `event` may be handed to `step` as things stand.
    pub fn admissible(&self, info: &ControllerInfo, event: &Event) -> (fine: bool)
        ensures
            fine == self@.admits(info@, *event),
    {
        let dead = match info.get_state() {
            ControllerState::Dead => true,
            _ => false,
        };
        match self.stage {
            Stage::Idle => match (event, info.get_state()) {
                (Event::Start, ControllerState::InBrain) => false,
                (Event::Start, _) => true,
                _ => false,
            },
            Stage::Moving { .. } => match event {
                Event::Moved(_) => true,
                _ => false,
            },
            Stage::Thrust => match event {
                Event::Moved(_) => true,
                _ => false,
            },
            Stage::CalibrationProbe => match event {
                Event::Readout(readout) => dead || match (info.get_state(), readout) {
                    (ControllerState::OutOfBrainUncalibrated, Ok(state)) => state.inserter_z == 0
                        && state.needle_z == 0,
                    _ => false,
                },
                _ => false,
            },
            Stage::CalibrationWatch => match event {
                Event::Woke => dead || !info.calibration_ready(self.calibration_start)
                    || match info.min_distance() {
                    Some(least) => least > MIN_DISTANCE_BRAIN_TO_ARM_NM,
                    None => false,
                },
                _ => false,
            },
            Stage::InsertionProbe => match event {
                Event::Readout(readout) => dead || match (readout, info.get_pre_move_location()) {
                    (Ok(state), Some(standoff)) => state.needle_z == 0 && state.inserter_z
                        == standoff,
                    _ => false,
                },
                _ => false,
            },
            Stage::Permit => match event {
                Event::Permit => true,
                _ => false,
            },
            Stage::Root => match event {
                Event::Root(root) => dead || match root {
                    Some(gap) => *gap <= u64::MAX - COMMANDED_DEPTH_MAX_NM,
                    None => true,
                },
                _ => false,
            },
            Stage::Finished => false,
        }
    }

    /// Ends the run.
    fn finish(&mut self, info: &mut ControllerInfo) -> (action: Action)
        ensures
            (Turn { sequencer: final(self)@, info: final(info)@, action }) == old(self)@.finish(
                old(info)@,
            ),
    {
        info.stop_awaiting_move_permit();
        self.stage = Stage::Finished;
        Action::Shutdown
    }

    /// Begins a move outside the tissue.
    fn move_bot(
        &mut self,
        command: Move,
        next_state: ControllerState,
        from_panic: bool,
        then: Continuation,
    ) -> (action: Action)
        ensures
            final(self)@ == (SequencerModel {
                stage: Stage::Moving { command, next_state, from_panic, then },
                ..old(self)@
            }),
            action == Action::Command(command),
    {
        self.stage = Stage::Moving { command, next_state, from_panic, then };
        Action::Command(command)
    }

    /// Begins a panic recovery.
    fn panic(&mut self) -> (action: Action)
        ensures
            forall|m: InfoModel|
                (Turn { sequencer: final(self)@, info: m, action }) == #[trigger] old(self)@.panic(m),
    {
        self.move_bot(Move::NeedleZ(0), ControllerState::Panic, true, Continuation::PanicInserter)
    }

    /// Ends an insertion with `outcome` by retracting the needle.
    fn retract_ib(&mut self, outcome: bool) -> (action: Action)
        ensures
            forall|m: InfoModel|
                (Turn { sequencer: final(self)@, info: m, action }) == #[trigger] old(
                    self,
                )@.retract_ib(m, outcome),
    {
        self.move_bot(
            Move::NeedleZ(0),
            ControllerState::OutOfBrainCalibrated,
            false,
            Continuation::Retracted(outcome),
        )
    }

    /// Takes up the next depth, or the same depth once more.
    fn start(&mut self, info: &mut ControllerInfo) -> (action: Action)
        ensures
            (Turn { sequencer: final(self)@, info: final(info)@, action }) == old(self)@.start(
                old(info)@,
            ),
    {
        if self.index >= self.depths.len() {
            info.transition_state(ControllerState::Dead, false);
            return self.finish(info);
        }
        match info.get_state() {
            ControllerState::Dead => self.finish(info),
            ControllerState::Panic => self.panic(),
            ControllerState::OutOfBrainUncalibrated => {
                self.stage = Stage::CalibrationProbe;
                Action::QueryState
            },
            _ => {
                self.stage = Stage::InsertionProbe;
                Action::QueryState
            },
        }
    }

    /// Decides at the head of the waiting loop of an insertion.
    fn insert_ib_open_loop(&mut self, info: &mut ControllerInfo, now: u64) -> (action: Action)
        ensures
            (Turn { sequencer: final(self)@, info: final(info)@, action }) == old(
                self,
            )@.insert_ib_open_loop(old(info)@, now),
    {
        let panicking = match info.get_state() {
            ControllerState::Panic => true,
            _ => false,
        };
        if panicking {
            self.panic()
        } else if millis_between(self.insertion_start, now) >= MAX_IB_TIME {
            self.retract_ib(false)
        } else {
            info.await_move_permit();
            self.stage = Stage::Permit;
            Action::AwaitPermit
        }
    }

    /// Goes on after a move outside the tissue that has succeeded.
    fn resume(&mut self, info: &mut ControllerInfo, then: Continuation) -> (action: Action)
        requires
            then is Retracted ==> old(self)@.index < old(self)@.depths.len(),
        ensures
            (Turn { sequencer: final(self)@, info: final(info)@, action }) == old(self)@.resume(
                old(info)@,
                then,
            ),
    {
        match then {
            Continuation::PanicInserter => self.move_bot(
                Move::InserterZ(0),
                ControllerState::Panic,
                true,
                Continuation::PanicExit,
            ),
            Continuation::PanicExit => {
                info.transition_state(ControllerState::OutOfBrainUncalibrated, true);
                self.start(info)
            },
            Continuation::CalibrationNeedle => self.move_bot(
                Move::NeedleZ(0),
                ControllerState::OutOfBrainCalibrated,
                false,
                Continuation::CalibrationDone,
            ),
            Continuation::CalibrationDone => {
                info.clear_distance_queue();
                self.start(info)
            },
            Continuation::Retracted(outcome) => {
                info.add_outcome(outcome);
                let depths = self.depths.len();
                assert(self.index < depths);
                self.index = self.index + 1;
                self.start(info)
            },
        }
    }

    /// Takes the answer to a move outside the tissue.
    fn moved(
        &mut self,
        info: &mut ControllerInfo,
        reply: Result<(), RobotError>,
        command: Move,
        next_state: ControllerState,
        from_panic: bool,
        then: Continuation,
    ) -> (action: Action)
        requires
            then is Retracted ==> old(self)@.index < old(self)@.depths.len(),
        ensures
            (Turn { sequencer: final(self)@, info: final(info)@, action }) == old(self)@.moved(
                old(info)@,
                reply,
                command,
                next_state,
                from_panic,
                then,
            ),
    {
        match reply {
            Ok(_) => {
                if command.is_needle() {
                    self.needle_home = command.position() == 0;
                }
                info.transition_state(next_state, from_panic);
                self.resume(info, then)
            },
            Err(error) => {
                if error.is_fatal() {
                    info.die();
                    self.finish(info)
                } else {
                    if command.is_needle() {
                        self.needle_home = false;
                    }
                    Action::Command(command)
                }
            },
        }
    }

    /// Takes the answer to a thrust.
    fn thrusted(&mut self, info: &mut ControllerInfo, reply: Result<(), RobotError>) -> (action:
        Action)
        ensures
            (Turn { sequencer: final(self)@, info: final(info)@, action }) == old(self)@.thrusted(
                old(info)@,
                reply,
            ),
    {
        match reply {
            Ok(_) => self.retract_ib(true),
            Err(error) => {
                if error.is_fatal() {
                    info.die();
                }
                self.retract_ib(false)
            },
        }
    }

    /// Begins a calibration at `now`.
    fn calibrate(&mut self, info: &mut ControllerInfo, now: u64) -> (action: Action)
        ensures
            (Turn { sequencer: final(self)@, info: final(info)@, action }) == old(self)@.calibrate(
                old(info)@,
                now,
            ),
    {
        self.calibration_start = now;
        self.needle_home = true;
        info.clear_error();
        info.clear_distance_queue();
        info.clear_pre_move_location();
        self.stage = Stage::CalibrationWatch;
        Action::Pause(CALIBRATION_POLL_MILLIS)
    }

    /// Looks at the distance history on behalf of a calibration.
    fn watch(&mut self, info: &mut ControllerInfo) -> (action: Action)
        requires
            old(info)@.calibration_ready(old(self)@.calibration_start) ==> smallest_reading(
                old(info)@.distances,
            ) is Some && smallest_reading(old(info)@.distances)->0 > MIN_DISTANCE_BRAIN_TO_ARM_NM,
        ensures
            (Turn { sequencer: final(self)@, info: final(info)@, action }) == old(self)@.watch(
                old(info)@,
            ),
    {
        if info.calibration_ready(self.calibration_start) {
            match info.min_distance() {
                Some(min_distance) => {
                    let standoff: u64 = min_distance - MIN_DISTANCE_BRAIN_TO_ARM_NM;
                    info.set_pre_move_location(standoff);
                    self.move_bot(
                        Move::InserterZ(standoff),
                        ControllerState::OutOfBrainUncalibrated,
                        false,
                        Continuation::CalibrationNeedle,
                    )
                },
                None => unreached(),
            }
        } else {
            Action::Pause(CALIBRATION_POLL_MILLIS)
        }
    }

    /// Takes the move permit.
    fn permitted<P: BrainPredictor>(&mut self, info: &mut ControllerInfo, predictor: &P, now: u64) -> (action:
        Action)
        requires
            old(info)@.wf(),
            old(self)@.index < old(self)@.depths.len(),
        ensures
            (Turn { sequencer: final(self)@, info: final(info)@, action }) == old(self)@.permitted(
                old(info)@,
                *predictor,
                now,
            ),
    {
        info.stop_awaiting_move_permit();
        match plan_thrust(info, predictor, now) {
            Some(curve) => {
                self.stage = Stage::Root;
                Action::Solve { curve, depth: self.depths[self.index] }
            },
            None => self.insert_ib_open_loop(info, now),
        }
    }

    /// Takes the solution of the thrust equation.
    fn solved(&mut self, info: &mut ControllerInfo, root: Option<u64>, now: u64) -> (action: Action)
        requires
            old(self)@.wf(),
            old(self)@.index < old(self)@.depths.len(),
            root is Some ==> root->0 + COMMANDED_DEPTH_MAX_NM <= u64::MAX,
        ensures
            (Turn { sequencer: final(self)@, info: final(info)@, action }) == old(self)@.solved(
                old(info)@,
                root,
                now,
            ),
    {
        match root {
            Some(gap) => {
                let target: u64 = gap + self.depths[self.index];
                self.stage = Stage::Thrust;
                self.needle_home = false;
                Action::Command(Move::NeedleZ(target))
            },
            None => self.insert_ib_open_loop(info, now),
        }
    }

    /// Takes what happened since the last step and returns what to do next.
    ///
    /// The first event is `Event::Start`. Every later event answers the
    /// action that the step before it returned. The step that returns
    /// `Action::Shutdown` is the last.
    pub fn step<P: BrainPredictor>(
        &mut self,
        info: &mut ControllerInfo,
        predictor: &P,
        event: Event,
        now: u64,
    ) -> (action: Action)
        requires
            old(self)@.wf(),
            old(info)@.wf(),
            old(self)@.admits(old(info)@, event),
        ensures
            (Turn { sequencer: final(self)@, info: final(info)@, action }) == old(self)@.next(
                old(info)@,
                *predictor,
                event,
                now,
            ),
            final(self)@.wf(),
            final(info)@.wf(),
    {
        let dead = match info.get_state() {
            ControllerState::Dead => true,
            _ => false,
        };
        if dead {
            return self.finish(info);
        }
        match self.stage {
            Stage::Idle => self.start(info),
            Stage::Moving { command, next_state, from_panic, then } => match event {
                Event::Moved(reply) => self.moved(info, reply, command, next_state, from_panic, then),
                _ => unreached(),
            },
            Stage::CalibrationProbe => self.calibrate(info, now),
            Stage::CalibrationWatch => self.watch(info),
            Stage::InsertionProbe => {
                self.insertion_start = now;
                self.needle_home = true;
                self.insert_ib_open_loop(info, now)
            },
            Stage::Permit => self.permitted(info, predictor, now),
            Stage::Root => match event {
                Event::Root(root) => self.solved(info, root, now),
                _ => unreached(),
            },
            Stage::Thrust => match event {
                Event::Moved(reply) => self.thrusted(info, reply),
                _ => unreached(),
            },
            Stage::Finished => unreached(),
        }
    }
}

/// The phase graph is respected. Whatever a step does to the phase is an edge
/// of the graph, and the sequencer still fits the phase afterwards.
pub proof fn lemma_step_follows_phase_graph<P: BrainPredictor>(
    s: SequencerModel,
    m: InfoModel,
    predictor: P,
    event: Event,
    now: u64,
)
    requires
        s.wf(),
        s.coherent(m),
        s.admits(m, event),
    ensures
        phase_edge(m.phase, s.next(m, predictor, event, now).info.phase),
        s.next(m, predictor, event, now).sequencer.coherent(s.next(m, predictor, event, now).info),
        s.next(m, predictor, event, now).sequencer.wf(),
        m.phase is Dead ==> s.next(m, predictor, event, now).info.phase is Dead,
{
}

/// Ingesting a sample or a readout never puts the shared record at odds with
/// the sequencer, and a run begins with the two in accord.
pub proof fn lemma_ingest_keeps_coherence<P: BrainPredictor>(
    s: SequencerModel,
    m: InfoModel,
    predictor: P,
    sample: Result<u64, OCTError>,
    readout: Result<RobotState, RobotError>,
    now: u64,
)
    requires
        s.coherent(m),
    ensures
        s.coherent(m.with_sample(predictor, sample, now)),
        s.coherent(m.with_readout(readout, now)),
        SequencerModel::initial(s.depths).coherent(InfoModel::initial()),
{
}

/// Every commanded depth gets exactly one outcome, in the order of the
/// depths. A step either leaves the outcomes alone or appends the outcome of
/// the depth at work and moves on to the next depth; so the outcomes are as
/// many as the depths that are done. A run that ends with the controller
/// alive until its last step, and not on a position error, has done every
/// depth.
pub proof fn lemma_one_outcome_per_depth<P: BrainPredictor>(
    s: SequencerModel,
    m: InfoModel,
    predictor: P,
    event: Event,
    now: u64,
)
    requires
        s.wf(),
        s.admits(m, event),
    ensures
        ({
            let t = s.next(m, predictor, event, now);
            &&& t.sequencer.depths == s.depths
            &&& t.sequencer.index <= s.depths.len()
            &&& (t.sequencer.index == s.index && t.info.outcomes == m.outcomes) || (s.index
                < s.depths.len() && t.sequencer.index == s.index + 1 && t.info.outcomes.len()
                == m.outcomes.len() + 1 && t.info.outcomes.drop_last() == m.outcomes)
            &&& m.outcomes.len() == s.index ==> t.info.outcomes.len() == t.sequencer.index
            &&& (t.sequencer.stage is Finished && m.phase !is Dead && !(event is Moved
                && event->Moved_0 is Err && event->Moved_0->Err_0.fatal())) ==> t.sequencer.index
                == s.depths.len()
        }),
{
    let t = s.next(m, predictor, event, now);
    if t.info.outcomes != m.outcomes {
        assert(t.info.outcomes.drop_last() == m.outcomes);
    }
}

/// The needle is at the origin before the thrust of an insertion and after
/// the insertion, whatever its outcome. A needle command that leaves the
/// origin is the thrust of an insertion that has seen the needle home, and it
/// goes to the predicted gap plus the commanded depth; an outcome is recorded
/// only when the actuator has confirmed that the needle is back.
pub proof fn lemma_needle_home_around_insertion<P: BrainPredictor>(
    s: SequencerModel,
    m: InfoModel,
    predictor: P,
    event: Event,
    now: u64,
)
    requires
        s.wf(),
        s.admits(m, event),
    ensures
        ({
            let t = s.next(m, predictor, event, now);
            &&& (t.action matches Action::Command(Move::NeedleZ(z)) && z != 0) ==> {
                &&& s.stage is Root
                &&& s.needle_home
                &&& event->Root_0 is Some
                &&& t.action->Command_0.target() == event->Root_0->0 + s.depths[s.index as int]
                &&& t.action->Command_0.target() <= event->Root_0->0 + COMMANDED_DEPTH_MAX_NM
                &&& (m.pre_move_location is Some && event->Root_0->0 <= m.pre_move_location->0)
                    ==> t.action->Command_0.target() <= COMMANDED_DEPTH_MAX_NM
                    + m.pre_move_location->0
            }
            &&& t.info.outcomes != m.outcomes ==> {
                &&& t.sequencer.needle_home
                &&& s.stage is Moving
                &&& s.stage->command == Move::NeedleZ(0)
                &&& event->Moved_0 is Ok
            }
        }),
{
}

/// The permit is asked for before it is waited for, and the run is shut down
/// once. Only a step that returns `AwaitPermit` makes the sequencer wait for
/// a permit; and `Shutdown` is returned by the step that ends the run, after
/// which no event is admitted.
pub proof fn lemma_waits_and_shutdown<P: BrainPredictor>(
    s: SequencerModel,
    m: InfoModel,
    predictor: P,
    event: Event,
    now: u64,
)
    requires
        s.wf(),
        s.admits(m, event),
    ensures
        ({
            let t = s.next(m, predictor, event, now);
            &&& (t.info.permit_awaited && !m.permit_awaited) ==> t.action is AwaitPermit
            &&& t.action is AwaitPermit ==> t.info.permit_awaited && t.sequencer.stage is Permit
            &&& t.action is Shutdown <==> t.sequencer.stage is Finished
            &&& forall|later: Event| t.sequencer.stage is Finished ==> !t.sequencer.admits(t.info, later)
        }),
{
}

} // verus!
