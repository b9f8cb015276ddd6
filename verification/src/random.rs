use std::time::{SystemTime, UNIX_EPOCH};
use vstd::prelude::*;

verus! {

/// Seed used when the system clock reads before the Unix epoch.
pub const FALLBACK_SEED: u64 = 0x1337CAFE1057BABE;

/// The splitmix64 step: the next state of the generator, which is also the
/// number it hands out.
pub open spec fn splitmix_next(state: u64) -> u64 {
    let z0 = state.wrapping_add(0x9e3779b97f4a7c15u64);
    let z1 = (z0 ^ (z0 >> 30u64)).wrapping_mul(0xbf58476d1ce4e5b9u64);
    let z2 = (z1 ^ (z1 >> 27u64)).wrapping_mul(0x94d049bb133111ebu64);
    z2 ^ (z2 >> 31u64)
}

/// The state after `n` steps of the generator from `state`.
pub open spec fn splitmix_iter(state: u64, n: nat) -> u64
    decreases n,
{
    if n == 0 {
        state
    } else {
        splitmix_next(splitmix_iter(state, (n - 1) as nat))
    }
}

/// The seed taken from a clock reading: the milliseconds since the epoch, or
/// the fallback seed when the clock could not be read.
pub open spec fn clock_seed(clock_millis: Option<u64>) -> u64 {
    match clock_millis {
        Some(ms) => ms,
        None => FALLBACK_SEED,
    }
}

/// Pseudo random number generator (splitmix64).
pub struct RandomGenerator {
    state: u64,
}

/// Reads the system clock: `SystemTime::now().duration_since(UNIX_EPOCH)`,
/// as milliseconds truncated to 64 bits, or `None` when the clock reads
/// before the epoch. Nothing is stated of the value: it is the time.
#[verifier::external_body]
fn clock_millis() -> (r: Option<u64>) {
    match SystemTime::now().duration_since(UNIX_EPOCH) {
        Ok(duration) => Some(duration.as_millis() as u64),
        Err(_) => None,
    }
}

impl RandomGenerator {
    /// The generator's state.
    pub closed spec fn state(&self) -> u64 {
        self.state
    }

    /// A generator seeded from a clock reading xored with `seed_xor`.
    pub fn from_clock(clock_millis: Option<u64>, seed_xor: u64) -> (r: RandomGenerator)
        ensures
            r.state() == clock_seed(clock_millis) ^ seed_xor,
    {
        let seed: u64 = match clock_millis {
            Some(ms) => ms,
            None => FALLBACK_SEED,
        };
        RandomGenerator { state: seed ^ seed_xor }
    }

    /// A generator seeded from the system time xored with `seed_xor`.
    pub fn new(seed_xor: u64) -> (r: RandomGenerator)
        ensures
            exists|clock: Option<u64>| r.state() == clock_seed(clock) ^ seed_xor,
    {
        let clock = clock_millis();
        RandomGenerator::from_clock(clock, seed_xor)
    }

    /// Advances the generator one step and returns its new state.
    pub fn next_number(&mut self) -> (r: u64)
        ensures
            r == splitmix_next(old(self).state()),
            final(self).state() == r,
    {
        let mut z: u64 = self.state.wrapping_add(0x9e3779b97f4a7c15u64);
        z = (z ^ (z >> 30u64)).wrapping_mul(0xbf58476d1ce4e5b9u64);
        z = (z ^ (z >> 27u64)).wrapping_mul(0x94d049bb133111ebu64);
        self.state = z ^ (z >> 31u64);
        self.state
    }
}

} // verus!
