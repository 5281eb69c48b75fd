//! The controller's phase, the rules that guard every change of it, and the
//! limits that the controller works within.

use vstd::prelude::*;

verus! {

/// How close, in nanometres, the inserter may come to the surface.
pub const MIN_DISTANCE_BRAIN_TO_ARM_NM: u64 = 200_000;

/// Number of distance samples that a calibration looks at. It is also the
/// capacity of the histories while the controller is uncalibrated.
pub const CALIBRATION_SAMPLES: u64 = 1000;

/// Capacity of the histories once the controller is calibrated.
pub const MAX_DISTANCES: u64 = 100;


/// Longest time, in milliseconds, that one insertion may wait for its thrust.
pub const MAX_IB_TIME: u64 = 30_000;

/// Number of consecutive prediction errors that is still tolerated.
pub const MAX_CONSECUTIVE_PREDICTION_ERRORS: u64 = 20;

/// Largest difference, in nanometres, between a sample and its prediction
/// that does not count as a prediction error.
pub const MAX_PREDICTION_ERROR_NM: u64 = 50_000;

/// The gap, in nanometres, below which the surface is close enough for a
/// thrust: a sample below it raises the move permit, and no thrust is planned
/// from a last observed gap above it.
pub const MAX_DIST_FROM_PREMOVE_TO_MOVE: u64 = MIN_DISTANCE_BRAIN_TO_ARM_NM + 3000;

/// The needle's acceleration, in nanometres per millisecond squared. A needle
/// that sets out from rest at the origin and is to come to rest again has
/// advanced by a quarter of this times the square of the time.
pub const NEEDLE_ACCELERATION_NM_MS: i64 = 250;

/// The time, in milliseconds, from one request to the distance sensor to the
/// next.
pub const OCT_POLL_MILLIS: u64 = 5;

/// The time, in milliseconds, from one ingested actuator readout to the next.
pub const ROBOT_STATE_POLL_MILLIS: u64 = 5;

/// Smallest depth, in nanometres, that may be commanded.
pub const COMMANDED_DEPTH_MIN_NM: u64 = 3_000_000;

/// Largest depth, in nanometres, that may be commanded.
pub const COMMANDED_DEPTH_MAX_NM: u64 = 7_000_000;

/// The discrete phase of the controller.
#[derive(Debug, Clone, Copy, PartialEq, Eq, Structural)]
pub enum ControllerState {
    /// The run is over. Nothing leaves this phase.
    Dead,
    /// Both axes are outside the tissue and the standoff is not known yet.
    OutOfBrainUncalibrated,
    /// Both axes are outside the tissue and the inserter holds its standoff.
    OutOfBrainCalibrated,
    /// The needle is inside the tissue.
    InBrain,
    /// A safety check failed; both axes must return to the origin.
    Panic,
}

impl ControllerState {
    /// Whether a safety check may raise a panic from this phase.
    pub open spec fn can_panic(self) -> bool {
        self is OutOfBrainCalibrated || self is InBrain
    }

    /// The phase that a request for `next` leads to. A dead controller stays
    /// dead, and a panicking one listens only to its own recovery.
    pub open spec fn after(self, next: ControllerState, from_panic: bool) -> ControllerState {
        if self is Dead {
            self
        } else if self is Panic && !from_panic {
            self
        } else {
            next
        }
    }

    /// How many entries a history may hold in this phase.
    pub open spec fn capacity(self) -> nat {
        if self is OutOfBrainUncalibrated {
            CALIBRATION_SAMPLES as nat
        } else {
            MAX_DISTANCES as nat
        }
    }

    /// The name of the phase.
    pub fn name(&self) -> (name: &'static str)
        ensures
            name@ == match self {
                ControllerState::Dead => "Dead"@,
                ControllerState::OutOfBrainUncalibrated => "OutOfBrainUncalibrated"@,
                ControllerState::OutOfBrainCalibrated => "OutOfBrainCalibrated"@,
                ControllerState::InBrain => "InBrain"@,
                ControllerState::Panic => "Panic"@,
            },
    {
        match self {
            ControllerState::Dead => "Dead",
            ControllerState::OutOfBrainUncalibrated => "OutOfBrainUncalibrated",
            ControllerState::OutOfBrainCalibrated => "OutOfBrainCalibrated",
            ControllerState::InBrain => "InBrain",
            ControllerState::Panic => "Panic",
        }
    }

    /// Whether a safety check may raise a panic from this phase.
    pub fn may_panic(&self) -> (b: bool)
        ensures
            b == self.can_panic(),
    {
        match self {
            ControllerState::OutOfBrainCalibrated => true,
            ControllerState::InBrain => true,
            _ => false,
        }
    }

    /// Requests a change of phase and returns the phase that results.
    pub fn transition_to(self, next: ControllerState, from_panic: bool) -> (r: ControllerState)
        ensures
            r == self.after(next, from_panic),
    {
        match self {
            ControllerState::Dead => self,
            ControllerState::Panic => if from_panic {
                next
            } else {
                self
            },
            _ => next,
        }
    }

    /// How many entries a history may hold in this phase.
    pub fn history_capacity(&self) -> (c: usize)
        ensures
            c == self.capacity(),
    {
        match self {
            ControllerState::OutOfBrainUncalibrated => CALIBRATION_SAMPLES as usize,
            _ => MAX_DISTANCES as usize,
        }
    }
}

/// The edges of the phase graph. A phase may stay as it is; any live phase may
/// die; calibration leads from uncalibrated to calibrated; a thrust enters the
/// tissue and a retraction leaves it; a safety check raises a panic from the
/// calibrated and the in-tissue phase; recovery leads from panic back to
/// uncalibrated.
pub open spec fn phase_edge(from: ControllerState, to: ControllerState) -> bool {
    ||| from == to
    ||| (from !is Dead && to is Dead)
    ||| (from is OutOfBrainUncalibrated && to is OutOfBrainCalibrated)
    ||| (from is OutOfBrainCalibrated && to is InBrain)
    ||| (from is InBrain && to is OutOfBrainCalibrated)
    ||| (from.can_panic() && to is Panic)
    ||| (from is Panic && to is OutOfBrainUncalibrated)
}

/// Nothing leaves the dead phase, whatever is requested.
pub proof fn lemma_dead_is_terminal(next: ControllerState, from_panic: bool)
    ensures
        ControllerState::Dead.after(next, from_panic) is Dead,
        forall|to: ControllerState| phase_edge(ControllerState::Dead, to) ==> to is Dead,
{
}

/// A panic ends only through its own recovery: a request that does not come
/// from the recovery leaves a panicking controller as it is.
pub proof fn lemma_panic_holds(next: ControllerState)
    ensures
        ControllerState::Panic.after(next, false) is Panic,
{
}

} // verus!
