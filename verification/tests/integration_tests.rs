use inserter_control::controller::sequencer::{Action, Event};
use inserter_control::controller::{start, Controller};
use inserter_control::interface::{Move, OCTError, RobotError, RobotState};
use inserter_control::predictor::quadratic_regression::QuadraticRegression;
use inserter_control::predictor::taylor_approx::TaylorQuadraticApproximator;
use inserter_control::predictor::{BrainPredictor, Quadratic};
use roots::{find_root_brent, SimpleConvergency};
use std::collections::VecDeque;

const PRECISION: u64 = 300_000;
const NEEDLE_ACCELERATION_NM_MS: f64 = 250.0;
const INSERTER_VELOCITY_NM_MS: f64 = 9_500.0;
const COMMANDED_DEPTH_MAX_NM: f64 = 7_000_000.0;
const OCT_POLL_MILLIS: u64 = 5;
const OCT_LATENCY_MILLIS: u64 = 15;

/// Where the tissue surface is, in nanometres, `t` milliseconds into the run.
fn brain_location(t: u64) -> u64 {
    let x = t as f64;
    (7_000_000.0 + 500_000.0 * (6.0 * x / 1000.0).sin() + 1_000_000.0 * (x / 1000.0).sin()) as u64
}

/// A move of one axis that is under way.
struct Motion {
    command: Move,
    start_z: u64,
    target_z: u64,
    began: u64,
    duration: u64,
    fails: bool,
}

/// What the sequencer waits for.
enum Pending {
    At(u64, Event),
    Permit,
    Nothing,
}

/// The simulated device on a clock of its own: time passes only as the
/// simulation steps it, so that a run is the same every time.
struct Device {
    now: u64,
    state: RobotState,
    motion: Option<Motion>,
    distance_errors: bool,
    move_errors: bool,
    seed: u64,
    in_flight: VecDeque<(u64, Result<u64, OCTError>)>,
    brain_distances: Vec<u64>,
}

impl Device {
    fn new(distance_errors: bool, move_errors: bool) -> Device {
        Device {
            now: 0,
            state: RobotState { inserter_z: 0, needle_z: 0 },
            motion: None,
            distance_errors,
            move_errors,
            seed: 0x2545_f491_4f6c_dd1d,
            in_flight: VecDeque::new(),
            brain_distances: Vec::new(),
        }
    }

    /// A number in [0, 1).
    fn random(&mut self) -> f64 {
        self.seed ^= self.seed << 13;
        self.seed ^= self.seed >> 7;
        self.seed ^= self.seed << 17;
        (self.seed >> 11) as f64 / (1u64 << 53) as f64
    }

    fn inserter_position(&self) -> u64 {
        match &self.motion {
            Some(m) if matches!(m.command, Move::InserterZ(_)) && m.duration > 0 => {
                let fraction = ((self.now - m.began) as f64 / m.duration as f64).min(1.0);
                (m.start_z as f64 + (m.target_z as f64 - m.start_z as f64) * fraction) as u64
            }
            _ => self.state.inserter_z,
        }
    }

    /// Takes a distance sample; it will arrive after the sensor's latency.
    fn sample_distance(&mut self) {
        let will_error = self.random() < 0.1;
        let robot_position = self.inserter_position();
        let brain_position = brain_location(self.now);
        assert!(brain_position > robot_position, "the inserter touched the surface");
        let sample = if will_error && self.distance_errors {
            Err(OCTError::CommunicationError { msg: String::from("Connection error") })
        } else {
            Ok(brain_position - robot_position)
        };
        self.in_flight.push_back((self.now + OCT_LATENCY_MILLIS, sample));
    }

    /// Begins a move and returns when it will end.
    fn command(&mut self, command: Move) -> u64 {
        assert!(self.motion.is_none());
        let fails = self.move_errors && self.random() < 0.1;
        let (start_z, z) = match command {
            Move::InserterZ(z) => (self.state.inserter_z, z),
            Move::NeedleZ(z) => {
                if z != 0 {
                    assert_eq!(self.state.needle_z, 0, "thrust from an extended needle");
                }
                (self.state.needle_z, z)
            }
        };
        let target_z = if fails {
            let partial = self.random();
            (start_z as i64 + ((z as i64 - start_z as i64) as f64 * partial) as i64) as u64
        } else {
            z
        };
        let distance = (target_z as i64 - start_z as i64).abs() as f64;
        let duration = match command {
            Move::InserterZ(_) => (distance / INSERTER_VELOCITY_NM_MS) as u64,
            Move::NeedleZ(_) => (2.0 * (distance / NEEDLE_ACCELERATION_NM_MS).sqrt()) as u64,
        };
        self.motion = Some(Motion { command, start_z, target_z, began: self.now, duration, fails });
        self.now + duration
    }

    /// Ends the move that is under way and returns the actuator's answer.
    fn arrive(&mut self) -> Result<(), RobotError> {
        let m = self.motion.take().unwrap();
        match m.command {
            Move::InserterZ(_) => self.state.inserter_z = m.target_z,
            Move::NeedleZ(_) => {
                let brain_position = brain_location(self.now) - self.state.inserter_z;
                if !m.fails && m.target_z != 0 {
                    assert!(
                        self.move_errors || brain_position < m.target_z,
                        "brain position: {}, target position: {}",
                        brain_position,
                        m.target_z
                    );
                    self.brain_distances.push(m.target_z.saturating_sub(brain_position));
                }
                self.state.needle_z = m.target_z;
            }
        }
        if m.fails {
            Err(RobotError::MoveError { msg: String::from("Random error occurred after move") })
        } else {
            Ok(())
        }
    }
}

/// The predicted gap at the first instant at which the needle, advancing by
/// a quarter of its acceleration times the square of the time, meets the
/// predicted surface plus the commanded depth.
fn solve(curve: Quadratic, depth: u64) -> Option<u64> {
    let c0 = curve.num0 as f64 / curve.den as f64;
    let c1 = curve.num1 as f64 / curve.den as f64;
    let c2 = curve.num2 as f64 / curve.den as f64;
    let brain_position = |x: f64| c0 + c1 * x + c2 * x * x;
    let needle_position = |x: f64| NEEDLE_ACCELERATION_NM_MS / 4.0 * x * x;
    let intersection = |x: f64| brain_position(x) + depth as f64 - needle_position(x);
    let furthest = (4.0 * COMMANDED_DEPTH_MAX_NM / NEEDLE_ACCELERATION_NM_MS).sqrt() + 100.0;
    let mut convergency = SimpleConvergency { eps: 1e-15f64, max_iter: 30 };
    match find_root_brent(0.0, furthest, &intersection, &mut convergency) {
        Ok(root) => Some(brain_position(root) as u64),
        Err(_) => None,
    }
}

/// Runs the controller against the simulated device until the run is shut
/// down. Returns the outcomes, how deep below the surface each delivered
/// implant came to lie, and how long the run took in milliseconds.
fn make_state<P: BrainPredictor>(
    predictor: P,
    commands: Vec<u64>,
    distance_errors: bool,
    move_errors: bool,
) -> (Vec<bool>, Vec<u64>, u64) {
    let mut device = Device::new(distance_errors, move_errors);
    let mut controller = Controller::new(predictor);
    let mut action = Some(start(&mut controller, &commands, 0));
    let mut pending = Pending::Nothing;
    loop {
        // The sequencer: perform what it asked for, hand back what is due.
        loop {
            if let Some(a) = action.take() {
                pending = match a {
                    Action::Command(command) => {
                        let due = device.command(command);
                        Pending::At(due, Event::Moved(Ok(())))
                    }
                    Action::QueryState => {
                        let mut state = device.state;
                        state.inserter_z = device.inserter_position();
                        Pending::At(device.now, Event::Readout(Ok(state)))
                    }
                    Action::AwaitPermit => Pending::Permit,
                    Action::Solve { curve, depth } => {
                        Pending::At(device.now, Event::Root(solve(curve, depth)))
                    }
                    Action::Pause(millis) => Pending::At(device.now + millis, Event::Woke),
                    Action::Shutdown => {
                        return (controller.get_outcomes(), device.brain_distances, device.now);
                    }
                };
            }
            let event = match std::mem::replace(&mut pending, Pending::Nothing) {
                Pending::At(due, event) if due <= device.now => match event {
                    Event::Moved(_) => Event::Moved(device.arrive()),
                    other => other,
                },
                waiting => {
                    pending = waiting;
                    break;
                }
            };
            assert!(controller.admissible(&event), "not admissible: {:?}", event);
            action = Some(controller.step(event, device.now));
        }
        // The clock and the samplers.
        device.now += 1;
        assert!(device.now < 3_600_000, "the run does not end");
        if device.now % OCT_POLL_MILLIS == 0 {
            device.sample_distance();
            let mut state = device.state;
            state.inserter_z = device.inserter_position();
            controller.process_robot_state(Ok(state), device.now);
        }
        while device.in_flight.front().map_or(false, |(due, _)| *due <= device.now) {
            let (_, sample) = device.in_flight.pop_front().unwrap();
            let released = controller.process_distance(sample, device.now);
            if released {
                assert!(matches!(pending, Pending::Permit));
                let event = Event::Permit;
                assert!(controller.admissible(&event));
                action = Some(controller.step(event, device.now));
                pending = Pending::Nothing;
            }
        }
    }
}

fn commanded_depths() -> Vec<u64> {
    vec![
        3_100_000, 3_200_000, 3_300_000, 3_400_000, 3_500_000, 3_600_000, 3_700_000, 3_800_000,
        3_900_000, 4_000_000, 4_100_000, 4_200_000, 4_300_000, 4_400_000, 4_500_000, 4_600_000,
        4_700_000, 4_800_000, 4_900_000, 5_000_000, 5_100_000, 5_200_000, 5_300_000, 5_400_000,
        5_500_000, 5_600_000, 5_700_000, 5_800_000, 5_900_000, 6_000_000,
    ]
}

fn check_all_delivered(distances: &Vec<u64>, outcomes: &Vec<bool>, robot_distances: &Vec<u64>) {
    assert_eq!(outcomes.len(), distances.len());
    assert_eq!(robot_distances.len(), distances.len());
    for (i, distance) in robot_distances.iter().enumerate() {
        assert!(
            outcomes[i],
            "Move failed in no error environment for move {} with outcome {}",
            i,
            outcomes[i]
        );
        assert!(
            distance.abs_diff(distances[i]) < PRECISION,
            "Expected {} but got {}",
            distances[i],
            distance
        );
    }
}

fn check_successes_delivered(distances: &Vec<u64>, outcomes: &Vec<bool>, robot_distances: &Vec<u64>) {
    assert_eq!(outcomes.len(), distances.len());
    let outcome_indices =
        outcomes.iter().enumerate().filter(|(_, &x)| x).map(|(i, _)| i).collect::<Vec<usize>>();
    assert!(outcome_indices.len() == robot_distances.len());
    for (j, i) in outcome_indices.iter().enumerate() {
        let actual_distance = robot_distances[j];
        let commanded_distance = distances[*i];
        println!("{}, {}, {} ", commanded_distance, actual_distance, *i);
        assert!(
            actual_distance.abs_diff(commanded_distance) < PRECISION,
            "Expected {} but got {}",
            commanded_distance,
            actual_distance
        );
    }
}

#[test]
fn test_controller_no_errors() {
    let distances = commanded_depths();
    let (outcomes, robot_distances, millis) =
        make_state(QuadraticRegression, distances.clone(), false, false);
    assert!(millis / 1000 < distances.len() as u64 * 10, "Test took longer than expected");
    check_all_delivered(&distances, &outcomes, &robot_distances);
}

#[test]
fn test_controller_distance_errors() {
    let distances = commanded_depths();
    let (outcomes, robot_distances, millis) =
        make_state(QuadraticRegression, distances.clone(), true, false);
    assert!(millis / 1000 < distances.len() as u64 * 10, "Test took longer than expected");
    check_all_delivered(&distances, &outcomes, &robot_distances);
}

#[test]
fn test_controller_move_errors() {
    let distances = commanded_depths();
    let (outcomes, robot_distances, millis) =
        make_state(QuadraticRegression, distances.clone(), false, true);
    assert!(millis / 1000 < distances.len() as u64 * 10, "Test took longer than expected");
    check_successes_delivered(&distances, &outcomes, &robot_distances);
}

#[test]
fn test_controller_no_errors_taylor() {
    let distances = commanded_depths();
    let (outcomes, robot_distances, millis) =
        make_state(TaylorQuadraticApproximator, distances.clone(), false, false);
    assert!(millis / 1000 < distances.len() as u64 * 20, "Test took longer than expected");
    check_all_delivered(&distances, &outcomes, &robot_distances);
}

#[test]
fn test_controller_distance_errors_taylor() {
    let distances = commanded_depths();
    let (outcomes, robot_distances, millis) =
        make_state(TaylorQuadraticApproximator, distances.clone(), true, false);
    assert!(millis / 1000 < distances.len() as u64 * 20, "Test took longer than expected");
    check_all_delivered(&distances, &outcomes, &robot_distances);
}

#[test]
fn test_controller_move_errors_taylor() {
    let distances = commanded_depths();
    let (outcomes, robot_distances, millis) =
        make_state(TaylorQuadraticApproximator, distances.clone(), false, true);
    assert!(millis / 1000 < distances.len() as u64 * 20, "Test took longer than expected");
    check_successes_delivered(&distances, &outcomes, &robot_distances);
}
