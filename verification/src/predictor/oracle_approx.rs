//! The oracle: a predictor for a surface whose law of motion is known.
//!
//! The law itself is not a quadratic and is evaluated by the caller. What is
//! decided here is whether a history is fit to speak from: it must hold four
//! samples, the latest of them fresh, and the last four must all be readings.

use crate::interface::OCTError;
use crate::predictor::{elapsed, millis_between};
use vstd::prelude::*;

verus! {

/// The order of the oracle. It reads one sample more than its order.
pub const MIN_SIZE: usize = 3;

/// Oldest age, in milliseconds, at which the latest sample is still fresh.
pub const MAX_ORACLE_LATENCY_MS: u64 = 18;

/// The predictor that knows the law of the surface's motion.
#[derive(Debug, Clone, Copy)]
pub struct OraclePredictor {
    init_time: u64,
}

/// Whether the oracle accepts a history: it holds `MIN_SIZE + 1` samples or
/// more, the latest is fresh, and the last `MIN_SIZE + 1` are all readings.
pub open spec fn oracle_accepts(
    distances: Seq<Result<u64, OCTError>>,
    times: Seq<u64>,
    now: u64,
) -> bool {
    let n = distances.len() as int;
    &&& n >= MIN_SIZE + 1
    &&& times.len() == n
    &&& elapsed(times[n - 1], now) <= MAX_ORACLE_LATENCY_MS
    &&& forall|i: int| n - (MIN_SIZE + 1) <= i < n ==> (#[trigger] distances[i]) is Ok
}

/// The gaps of the last `MIN_SIZE + 1` samples of a history, oldest first.
pub open spec fn oracle_window(distances: Seq<Result<u64, OCTError>>) -> Seq<u64> {
    Seq::new(
        (MIN_SIZE + 1) as nat,
        |k: int| distances[distances.len() - (MIN_SIZE + 1) + k]->Ok_0,
    )
}

impl OraclePredictor {
    /// The instant, in milliseconds, from which the oracle counts time.
    pub closed spec fn origin(&self) -> u64 {
        self.init_time
    }

    /// An oracle that counts time from `now`.
    pub fn new(now: u64) -> (oracle: OraclePredictor)
        ensures
            oracle.origin() == now,
    {
        OraclePredictor { init_time: now }
    }

    /// The instant, in milliseconds, from which the oracle counts time.
    pub fn init_time(&self) -> (t: u64)
        ensures
            t == self.origin(),
    {
        self.init_time
    }

    /// Checks that a history is fit for the oracle to speak from and returns
    /// the gaps of its last `MIN_SIZE + 1` samples.
    pub fn passes_predict_assumptions(
        distance_queue: &Vec<Result<u64, OCTError>>,
        time_queue: &Vec<u64>,
        now: u64,
    ) -> (r: Result<Vec<u64>, ()>)
        requires
            distance_queue@.len() == time_queue@.len(),
        ensures
            r is Ok <==> oracle_accepts(distance_queue@, time_queue@, now),
            r matches Ok(gaps) ==> gaps@ == oracle_window(distance_queue@),
    {
        let n = distance_queue.len();
        if n < MIN_SIZE + 1 {
            return Err(());
        }
        if millis_between(time_queue[n - 1], now) > MAX_ORACLE_LATENCY_MS {
            return Err(());
        }
        let mut gaps: Vec<u64> = Vec::new();
        let mut k: usize = 0;
        while k < MIN_SIZE + 1
            invariant
                k <= MIN_SIZE + 1,
                n == distance_queue@.len(),
                n >= MIN_SIZE + 1,
                gaps@.len() == k,
                forall|j: int|
                    0 <= j < k ==> (#[trigger] distance_queue@[n - (MIN_SIZE + 1) + j]) == Ok::<
                        u64,
                        OCTError,
                    >(gaps@[j]),
            decreases MIN_SIZE + 1 - k,
        {
            match &distance_queue[n - (MIN_SIZE + 1) + k] {
                Ok(gap) => {
                    gaps.push(*gap);
                },
                Err(_) => {
                    return Err(());
                },
            }
            k = k + 1;
        }
        proof {
            assert forall|i: int| n - (MIN_SIZE + 1) <= i < n implies (
            #[trigger] distance_queue@[i]) is Ok by {
                let j = i - (n - (MIN_SIZE + 1));
                assert(distance_queue@[n - (MIN_SIZE + 1) + j] is Ok);
            }
            assert(gaps@ =~= oracle_window(distance_queue@));
        }
        Ok(gaps)
    }
}

} // verus!
