//! The rules by which a demonstration run is laid out: how many threads it
//! starts, how much each producer makes, and how long a thread pauses between
//! two operations.

use rand::rngs::ThreadRng;
use rand::Rng;
use vstd::prelude::*;

verus! {

/// The largest number of producer threads, and of consumer threads, that a
/// run starts.
pub const MAX_THREADS: usize = 8;

/// Every pause is shorter than this many nanoseconds.
pub const MAX_SLEEP_NS: u64 = 1_000_000;

/// How many threads a run starts and how much each producer makes.
#[derive(Clone, Copy, Debug, PartialEq, Eq)]
pub struct Plan {
    pub producers: usize,
    pub consumers: usize,
    pub items_per_producer: usize,
}

impl Plan {
    /// The number of items that the producers of this plan make together.
    pub open spec fn total(self) -> nat {
        (self.producers * self.items_per_producer) as nat
    }
}

/// The smaller of `wanted` and [`MAX_THREADS`].
pub open spec fn capped(wanted: usize) -> usize {
    if wanted <= MAX_THREADS {
        wanted
    } else {
        MAX_THREADS
    }
}

/// Lays out a run: both thread counts are capped at [`MAX_THREADS`], and the
/// items are shared out evenly between the producers that are left, rounded
/// down. So the run makes at most `items` items, and fewer than one per
/// producer go missing.
pub fn plan(producers: usize, consumers: usize, items: usize) -> (plan: Plan)
    requires
        producers > 0,
    ensures
        plan.producers == capped(producers),
        plan.consumers == capped(consumers),
        plan.items_per_producer == items / capped(producers),
        items - plan.producers < plan.total() <= items,
{
    let producers = if producers <= MAX_THREADS {
        producers
    } else {
        MAX_THREADS
    };
    let consumers = if consumers <= MAX_THREADS {
        consumers
    } else {
        MAX_THREADS
    };
    let items_per_producer = items / producers;
    proof {
        let p = producers as int;
        let n = items as int;
        assert(0 <= n - p * (n / p) < p && 0 <= p * (n / p)) by (nonlinear_arith)
            requires
                p > 0,
                n >= 0,
        ;
    }
    Plan { producers, consumers, items_per_producer }
}

/// `rand::rngs::ThreadRng`, opaque: the random number generator of a thread.
#[verifier::external_type_specification]
#[verifier::external_body]
pub struct ExThreadRng(ThreadRng);

/// `Rng::random_range` on the range from zero up to and without `bound`: some
/// number of that range, a new one at every call.
#[verifier::external_body]
fn random_below(rng: &mut ThreadRng, bound: u64) -> (n: u64)
    requires
        bound > 0,
    ensures
        n < bound,
{
    rng.random_range(0..bound)
}

/// How long a thread pauses before its next operation, in nanoseconds: not at
/// all in a run without delay, and else for a random time below
/// [`MAX_SLEEP_NS`].
pub fn pause(rng: &mut ThreadRng, delay: bool) -> (nanos: Option<u64>)
    ensures
        nanos is Some <==> delay,
        nanos matches Some(n) ==> n < MAX_SLEEP_NS,
{
    if delay {
        Some(random_below(rng, MAX_SLEEP_NS))
    } else {
        None
    }
}

} // verus!
