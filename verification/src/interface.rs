//! Values exchanged with the distance sensor and the actuator.
//!
//! All positions and distances are unsigned nanometres. A larger position is
//! closer to the tissue surface.

use vstd::prelude::*;
use vstd::string::StringExecFns;

verus! {

/// The decimal digit for a number below ten.
pub open spec fn digit(d: nat) -> char {
    if d == 0 {
        '0'
    } else if d == 1 {
        '1'
    } else if d == 2 {
        '2'
    } else if d == 3 {
        '3'
    } else if d == 4 {
        '4'
    } else if d == 5 {
        '5'
    } else if d == 6 {
        '6'
    } else if d == 7 {
        '7'
    } else if d == 8 {
        '8'
    } else {
        '9'
    }
}

/// A number in decimal, most significant digit first.
pub open spec fn decimal(n: nat) -> Seq<char>
    decreases n,
{
    if n < 10 {
        seq![digit(n)]
    } else {
        decimal(n / 10).push(digit(n % 10))
    }
}

/// The decimal digit for a number below ten, as a string.
fn digit_text(d: u64) -> (text: &'static str)
    requires
        d < 10,
    ensures
        text@ == seq![digit(d as nat)],
{
    proof {
        reveal_strlit("0");
        reveal_strlit("1");
        reveal_strlit("2");
        reveal_strlit("3");
        reveal_strlit("4");
        reveal_strlit("5");
        reveal_strlit("6");
        reveal_strlit("7");
        reveal_strlit("8");
        reveal_strlit("9");
    }
    let text = if d == 0 {
        "0"
    } else if d == 1 {
        "1"
    } else if d == 2 {
        "2"
    } else if d == 3 {
        "3"
    } else if d == 4 {
        "4"
    } else if d == 5 {
        "5"
    } else if d == 6 {
        "6"
    } else if d == 7 {
        "7"
    } else if d == 8 {
        "8"
    } else {
        "9"
    };
    assert(text@ =~= seq![digit(d as nat)]);
    text
}

/// A number in decimal.
pub fn decimal_text(n: u64) -> (text: String)
    ensures
        text@ == decimal(n as nat),
    decreases n,
{
    if n < 10 {
        String::from_str(digit_text(n))
    } else {
        let mut text = decimal_text(n / 10);
        text.append(digit_text(n % 10));
        assert(text@ =~= decimal(n as nat));
        text
    }
}

/// Why the distance sensor could not deliver a reading.
#[derive(Debug)]
pub enum OCTError {
    /// The sensor failed to acquire data.
    AcquisitionError { msg: String },
    /// The sensor driver could not be reached.
    CommunicationError { msg: String },
    /// The sensor driver did not answer in time.
    TimeoutError { msg: String },
    /// The surface could not be predicted.
    PredictionError { msg: String },
}

impl Clone for OCTError {
    fn clone(&self) -> (r: Self)
        ensures
            r == *self,
    {
        match self {
            OCTError::AcquisitionError { msg } => OCTError::AcquisitionError { msg: msg.clone() },
            OCTError::CommunicationError { msg } => OCTError::CommunicationError {
                msg: msg.clone(),
            },
            OCTError::TimeoutError { msg } => OCTError::TimeoutError { msg: msg.clone() },
            OCTError::PredictionError { msg } => OCTError::PredictionError { msg: msg.clone() },
        }
    }
}

/// A motion command: the axis and its desired absolute position.
#[derive(Debug, Clone, Copy, PartialEq, Eq, Structural)]
pub enum Move {
    /// Move the inserter, the outer device that carries the needle.
    InserterZ(u64),
    /// Move the needle, which extends from the inserter.
    NeedleZ(u64),
}

impl Move {
    /// The commanded absolute position.
    pub open spec fn target(self) -> u64 {
        match self {
            Move::InserterZ(z) => z,
            Move::NeedleZ(z) => z,
        }
    }

    /// The commanded absolute position.
    pub fn position(&self) -> (z: u64)
        ensures
            z == self.target(),
    {
        match self {
            Move::InserterZ(z) => *z,
            Move::NeedleZ(z) => *z,
        }
    }

    /// The command in words: the axis, and the position in brackets.
    pub open spec fn description(self) -> Seq<char> {
        match self {
            Move::InserterZ(z) => "InserterZ("@ + decimal(z as nat) + ")"@,
            Move::NeedleZ(z) => "NeedleZ("@ + decimal(z as nat) + ")"@,
        }
    }

    /// The command in words, such as `NeedleZ(3250000)`.
    pub fn describe(&self) -> (text: String)
        ensures
            text@ == self.description(),
    {
        let axis = match self {
            Move::InserterZ(_) => "InserterZ(",
            Move::NeedleZ(_) => "NeedleZ(",
        };
        let mut text = String::from_str(axis);
        let digits = decimal_text(self.position());
        text.append(digits.as_str());
        text.append(")");
        text
    }

    /// Whether the command drives the needle.
    pub fn is_needle(&self) -> (b: bool)
        ensures
            b == (*self is NeedleZ),
    {
        match self {
            Move::InserterZ(_) => false,
            Move::NeedleZ(_) => true,
        }
    }
}

/// The actuator's readout: one absolute encoder position per axis.
#[derive(Debug, Clone, Copy, PartialEq, Eq, Structural)]
pub struct RobotState {
    /// Position of the inserter tip.
    pub inserter_z: u64,
    /// Position of the needle tip.
    pub needle_z: u64,
}

/// Why the actuator refused or failed a request.
#[derive(Debug)]
pub enum RobotError {
    /// The move failed; the axis may have stopped short of its target.
    MoveError { msg: String },
    /// The connection to the actuator was lost.
    ConnectionError { msg: String },
    /// The position exceeds the actuator's limits. This one is fatal.
    PositionError { msg: String },
}

impl Clone for RobotError {
    fn clone(&self) -> (r: Self)
        ensures
            r == *self,
    {
        match self {
            RobotError::MoveError { msg } => RobotError::MoveError { msg: msg.clone() },
            RobotError::ConnectionError { msg } => RobotError::ConnectionError { msg: msg.clone() },
            RobotError::PositionError { msg } => RobotError::PositionError { msg: msg.clone() },
        }
    }
}

impl RobotError {
    /// Whether the error ends the run. Every other error may be retried.
    pub open spec fn fatal(self) -> bool {
        self is PositionError
    }

    /// Whether the error ends the run. Every other error may be retried.
    pub fn is_fatal(&self) -> (b: bool)
        ensures
            b == self.fatal(),
    {
        match self {
            RobotError::PositionError { .. } => true,
            RobotError::MoveError { .. } => false,
            RobotError::ConnectionError { .. } => false,
        }
    }
}

} // verus!
