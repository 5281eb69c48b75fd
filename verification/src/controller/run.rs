//! Whole runs of the controller: what holds after any number of samples,
//! readouts and steps, in any order.

use crate::controller::info::InfoModel;
use crate::controller::sequencer::{
    depths_within_limits, lemma_ingest_keeps_coherence, lemma_one_outcome_per_depth,
    lemma_step_follows_phase_graph, Event, SequencerModel,
};
use crate::controller::state::phase_edge;
use crate::interface::{OCTError, RobotError, RobotState};
use crate::predictor::BrainPredictor;
use vstd::prelude::*;

verus! {

/// One thing that happens to the controller, with the time at which it does.
pub enum Input {
    /// A distance sample is ingested.
    Sample(Result<u64, OCTError>, u64),
    /// An actuator readout is ingested.
    Readout(Result<RobotState, RobotError>, u64),
    /// The sequencer takes a step.
    Step(Event, u64),
}

/// The sequencer and the shared record at one instant of a run.
pub struct World {
    pub sequencer: SequencerModel,
    pub info: InfoModel,
}

impl World {
    /// The world before anything has happened.
    pub open spec fn initial(depths: Seq<u64>) -> World {
        World { sequencer: SequencerModel::initial(depths), info: InfoModel::initial() }
    }

    /// Whether `input` may happen in this world: a step needs an event that
    /// the sequencer admits.
    pub open spec fn accepts(self, input: Input) -> bool {
        input matches Input::Step(event, _) ==> self.sequencer.admits(self.info, event)
    }

    /// The world after `input` has happened.
    pub open spec fn after<P: BrainPredictor>(self, predictor: P, input: Input) -> World {
        match input {
            Input::Sample(sample, now) => World {
                info: self.info.with_sample(predictor, sample, now),
                ..self
            },
            Input::Readout(readout, now) => World {
                info: self.info.with_readout(readout, now),
                ..self
            },
            Input::Step(event, now) => {
                let turn = self.sequencer.next(self.info, predictor, event, now);
                World { sequencer: turn.sequencer, info: turn.info }
            },
        }
    }

    /// The world after all of `inputs` have happened, one after the other.
    pub open spec fn run<P: BrainPredictor>(self, predictor: P, inputs: Seq<Input>) -> World
        decreases inputs.len(),
    {
        if inputs.len() == 0 {
            self
        } else {
            self.run(predictor, inputs.drop_last()).after(predictor, inputs.last())
        }
    }

    /// Whether each of `inputs` may happen when its turn comes.
    pub open spec fn admits_all<P: BrainPredictor>(self, predictor: P, inputs: Seq<Input>) -> bool
        decreases inputs.len(),
    {
        inputs.len() == 0 || (self.admits_all(predictor, inputs.drop_last()) && self.run(
            predictor,
            inputs.drop_last(),
        ).accepts(inputs.last()))
    }

    /// Whether the sequencer is well-formed and the record fits it.
    pub open spec fn orderly(self) -> bool {
        self.sequencer.wf() && self.sequencer.coherent(self.info)
    }
}

/// Every run is orderly. Whatever happens, in whatever order, the sequencer
/// stays well-formed and the shared record in accord with it; there is one
/// outcome for each depth that is done, and never more outcomes than depths;
/// and the last thing that happened moved the phase along an edge of the
/// phase graph. Since every beginning of a run is a run, this holds at all
/// times of all runs.
pub proof fn lemma_every_run_is_orderly<P: BrainPredictor>(
    depths: Seq<u64>,
    predictor: P,
    inputs: Seq<Input>,
)
    requires
        depths_within_limits(depths),
        World::initial(depths).admits_all(predictor, inputs),
    ensures
        ({
            let end = World::initial(depths).run(predictor, inputs);
            &&& end.orderly()
            &&& end.sequencer.depths == depths
            &&& end.info.outcomes.len() == end.sequencer.index
            &&& end.info.outcomes.len() <= depths.len()
            &&& inputs.len() > 0 ==> phase_edge(
                World::initial(depths).run(predictor, inputs.drop_last()).info.phase,
                end.info.phase,
            )
        }),
    decreases inputs.len(),
{
    if inputs.len() > 0 {
        lemma_every_run_is_orderly(depths, predictor, inputs.drop_last());
        let before = World::initial(depths).run(predictor, inputs.drop_last());
        lemma_input_keeps_order(before, predictor, inputs.last());
    }
}

/// One more input leaves an orderly world orderly, keeps the depths, and
/// moves the phase along an edge of the phase graph.
pub proof fn lemma_input_keeps_order<P: BrainPredictor>(w: World, predictor: P, input: Input)
    requires
        w.orderly(),
        w.accepts(input),
    ensures
        w.after(predictor, input).orderly(),
        w.after(predictor, input).sequencer.depths == w.sequencer.depths,
        phase_edge(w.info.phase, w.after(predictor, input).info.phase),
        w.info.phase is Dead ==> w.after(predictor, input).info.phase is Dead,
{
    match input {
        Input::Sample(sample, now) => {
            lemma_ingest_keeps_coherence(
                w.sequencer,
                w.info,
                predictor,
                sample,
                Ok(RobotState { inserter_z: 0, needle_z: 0 }),
                now,
            );
        },
        Input::Readout(readout, now) => {
            lemma_ingest_keeps_coherence(w.sequencer, w.info, predictor, Ok(0), readout, now);
        },
        Input::Step(event, now) => {
            lemma_step_follows_phase_graph(w.sequencer, w.info, predictor, event, now);
            lemma_one_outcome_per_depth(w.sequencer, w.info, predictor, event, now);
        },
    }
}

/// Nothing leaves the dead phase: a run that is dead at some time is dead
/// ever after.
pub proof fn lemma_dead_runs_stay_dead<P: BrainPredictor>(
    w: World,
    predictor: P,
    inputs: Seq<Input>,
)
    requires
        w.orderly(),
        w.admits_all(predictor, inputs),
        w.info.phase is Dead,
    ensures
        w.run(predictor, inputs).orderly(),
        w.run(predictor, inputs).info.phase is Dead,
        w.run(predictor, inputs).info.outcomes == w.info.outcomes,
    decreases inputs.len(),
{
    if inputs.len() > 0 {
        lemma_dead_runs_stay_dead(w, predictor, inputs.drop_last());
        let before = w.run(predictor, inputs.drop_last());
        lemma_input_keeps_order(before, predictor, inputs.last());
    }
}

} // verus!
