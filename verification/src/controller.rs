//! The controller: its phase, its shared record, the checks made on every
//! sample, and the sequencer that deposits the implants.
//!
//! A `Controller` holds the three together with its predictor. Its methods
//! are the only doors to them, so that the record and the sequencer are in
//! accord whenever a method is entered.

pub mod history;
pub mod info;
pub mod ingest;
pub mod run;
pub mod sequencer;
pub mod state;

use crate::controller::info::{ControllerInfo, InfoModel};
use crate::controller::sequencer::{
    depths_within_limits, Action, Event, Sequencer, SequencerModel, Turn,
};
use crate::controller::state::{phase_edge, ControllerState, MIN_DISTANCE_BRAIN_TO_ARM_NM};
use crate::interface::{OCTError, RobotError, RobotState};
use crate::predictor::BrainPredictor;
use vstd::prelude::*;

verus! {

/// The controller of the insertion device, with the predictor it consults.
pub struct Controller<P: BrainPredictor> {
    info: ControllerInfo,
    sequencer: Sequencer,
    predictor: P,
}

impl<P: BrainPredictor> Controller<P> {
    /// The shared record.
    pub closed spec fn info(&self) -> InfoModel {
        self.info@
    }

    /// The sequencer.
    pub closed spec fn sequencer(&self) -> SequencerModel {
        self.sequencer@
    }

    /// The predictor.
    pub closed spec fn predictor(&self) -> P {
        self.predictor
    }

    /// The record and the sequencer are well-formed and in accord.
    pub open spec fn wf(&self) -> bool {
        &&& self.info().wf()
        &&& self.sequencer().wf()
        &&& self.sequencer().coherent(self.info())
    }

    /// A controller that has not begun: uncalibrated, with empty histories,
    /// no outcome and no depth to work on.
    pub fn new(predictor: P) -> (controller: Controller<P>)
        ensures
            controller.wf(),
            controller.info() == InfoModel::initial(),
            controller.sequencer() == SequencerModel::initial(Seq::empty()),
            controller.predictor() == predictor,
    {
        Controller { info: ControllerInfo::new(), sequencer: Sequencer::new(Vec::new()), predictor }
    }

    /// The outcomes so far, one for each completed depth, in the order of
    /// the depths.
    pub fn get_outcomes(&self) -> (outcomes: Vec<bool>)
        ensures
            outcomes@ == self.info().outcomes,
    {
        self.info.get_outcomes()
    }

    /// The current phase.
    pub fn get_state(&self) -> (phase: ControllerState)
        ensures
            phase == self.info().phase,
    {
        self.info.get_state()
    }

    /// The inserter's standoff position, once calibrated.
    pub fn get_pre_move_location(&self) -> (location: Option<u64>)
        ensures
            location == self.info().pre_move_location,
    {
        self.info.get_pre_move_location()
    }

    /// Whether the run has not begun.
    pub fn idle(&self) -> (waiting: bool)
        ensures
            waiting == (self.sequencer().stage is Idle),
    {
        self.sequencer.idle()
    }

    /// Whether the run is over.
    pub fn finished(&self) -> (over: bool)
        ensures
            over == (self.sequencer().stage is Finished),
    {
        self.sequencer.finished()
    }

    /// Ingests one distance sample at `now` and returns whether it released
    /// the sequencer from its wait for the move permit.
    ///
    /// Where a panic may be raised, a gap below half the minimum clearance
    /// has raised it when this returns.
    pub fn process_distance(&mut self, distance_result: Result<u64, OCTError>, now: u64) -> (released:
        bool)
        requires
            old(self).wf(),
        ensures
            final(self).wf(),
            final(self).info() == old(self).info().with_sample(
                old(self).predictor(),
                distance_result,
                now,
            ),
            final(self).sequencer() == old(self).sequencer(),
            final(self).predictor() == old(self).predictor(),
            released == old(self).info().releases(distance_result),
            released ==> old(self).sequencer().stage is Permit,
            phase_edge(old(self).info().phase, final(self).info().phase),
            final(self).info().distances.len() <= old(self).info().phase.capacity(),
            distance_result matches Ok(distance) ==> (old(self).info().phase.can_panic()
                && distance < MIN_DISTANCE_BRAIN_TO_ARM_NM / 2 ==> final(self).info().phase
                is Panic),
    {
        crate::controller::ingest::process_distance(
            &mut self.info,
            &self.predictor,
            distance_result,
            now,
        )
    }

    /// Ingests one actuator readout at `now`. A position error ends the run.
    pub fn process_robot_state(&mut self, robot_state: Result<RobotState, RobotError>, now: u64)
        requires
            old(self).wf(),
        ensures
            final(self).wf(),
            final(self).info() == old(self).info().with_readout(robot_state, now),
            final(self).sequencer() == old(self).sequencer(),
            final(self).predictor() == old(self).predictor(),
            phase_edge(old(self).info().phase, final(self).info().phase),
            robot_state matches Err(error) ==> (error.fatal() ==> final(self).info().phase
                is Dead),
    {
        crate::controller::ingest::process_robot_state(&mut self.info, robot_state, now)
    }

    /// Whether `event` may be handed to `step` as things stand.
    pub fn admissible(&self, event: &Event) -> (fine: bool)
        ensures
            fine == self.sequencer().admits(self.info(), *event),
    {
        self.sequencer.admissible(&self.info, event)
    }

    /// Takes what happened since the last step and returns what to do next.
    ///
    /// Every event answers the action that the step before it returned. The
    /// step that returns `Action::Shutdown` is the last.
    pub fn step(&mut self, event: Event, now: u64) -> (action: Action)
        requires
            old(self).wf(),
            old(self).sequencer().admits(old(self).info(), event),
        ensures
            final(self).wf(),
            (Turn { sequencer: final(self).sequencer(), info: final(self).info(), action }) == old(
                self,
            ).sequencer().next(old(self).info(), old(self).predictor(), event, now),
            final(self).predictor() == old(self).predictor(),
            phase_edge(old(self).info().phase, final(self).info().phase),
            final(self).info().outcomes.len() == final(self).sequencer().index,
            final(self).sequencer().index <= final(self).sequencer().depths.len(),
            action is Shutdown <==> final(self).sequencer().stage is Finished,
    {
        proof {
            crate::controller::sequencer::lemma_step_follows_phase_graph(
                self.sequencer@,
                self.info@,
                self.predictor,
                event,
                now,
            );
            crate::controller::sequencer::lemma_waits_and_shutdown(
                self.sequencer@,
                self.info@,
                self.predictor,
                event,
                now,
            );
        }
        self.sequencer.step(&mut self.info, &self.predictor, event, now)
    }
}

/// Begins a run over the commanded depths and returns the first action.
pub fn start<P: BrainPredictor>(
    control_state: &mut Controller<P>,
    commanded_depth: &Vec<u64>,
    now: u64,
) -> (action: Action)
    requires
        old(control_state).wf(),
        old(control_state).sequencer().stage is Idle,
        depths_within_limits(commanded_depth@),
    ensures
        final(control_state).wf(),
        (Turn {
            sequencer: final(control_state).sequencer(),
            info: final(control_state).info(),
            action,
        }) == SequencerModel::initial(commanded_depth@).next(
            old(control_state).info(),
            old(control_state).predictor(),
            Event::Start,
            now,
        ),
        final(control_state).predictor() == old(control_state).predictor(),
        final(control_state).sequencer().depths == commanded_depth@,
        commanded_depth@.len() == 0 ==> action is Shutdown,
{
    control_state.sequencer = Sequencer::new(commanded_depth.clone());
    control_state.step(Event::Start, now)
}

} // verus!
