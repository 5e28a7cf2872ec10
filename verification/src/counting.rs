//! The mathematical model of the bounded counting sequence: what one step
//! does to a counter, what it returns, and where a fresh counter stands
//! after any number of steps.

use vstd::prelude::*;

verus! {

/// Number of successful steps a fresh counter yields before it is exhausted.
pub const STEP_BOUND: usize = 5;

/// The outcome of one step of the counting sequence: either the counter's
/// new value, or the signal that the sequence is exhausted.
///
/// Exhaustion is a control-flow signal, not a fault: a host-side consumer
/// loop recognizes it as the canonical end of the sequence.
#[derive(Clone, Copy, Debug, PartialEq, Eq, Structural)]
pub enum StepResult {
    Value(usize),
    Exhausted,
}

impl StepResult {
    /// The same outcome as a synchronous iterator reports it: a value, or
    /// `None` at exhaustion.
    pub open spec fn as_option(self) -> Option<usize> {
        match self {
            StepResult::Value(n) => Some(n),
            StepResult::Exhausted => None,
        }
    }
}

/// The counter value after one step taken at value `c`: it advances by one
/// until it reaches the bound, then stays put forever.
pub open spec fn next_count(c: int) -> int {
    if c < STEP_BOUND { c + 1 } else { c }
}

/// The outcome of one step taken at counter value `c`.
pub open spec fn step_outcome(c: int) -> StepResult {
    if c < STEP_BOUND {
        StepResult::Value((c + 1) as usize)
    } else {
        StepResult::Exhausted
    }
}

/// The counter value after `n` steps of a fresh counter, which starts at 0.
pub open spec fn count_after(n: nat) -> int
    decreases n,
{
    if n == 0 {
        0
    } else {
        next_count(count_after((n - 1) as nat))
    }
}

/// A fresh counter advances by exactly one per step until it reaches the
/// bound, and never moves past it: after `n` steps it stands at `n`, capped
/// at the bound.
pub proof fn lemma_count_after(n: nat)
    ensures
        count_after(n) == if n <= STEP_BOUND { n as int } else { STEP_BOUND as int },
    decreases n,
{
    if n > 0 {
        lemma_count_after((n - 1) as nat);
    }
}

/// The first five steps of a fresh counter yield the values 1 through 5 in
/// order: the i-th step returns exactly `i`.
pub proof fn lemma_values_in_order(i: nat)
    requires
        1 <= i <= STEP_BOUND,
    ensures
        step_outcome(count_after((i - 1) as nat)) == StepResult::Value(i as usize),
{
    lemma_count_after((i - 1) as nat);
}

/// Exhaustion is permanent and idempotent: from the bound-th step on, every
/// further step signals exhaustion, and the count stays at the bound no
/// matter how many more steps are taken.
pub proof fn lemma_exhaustion_idempotent(n: nat)
    requires
        n >= STEP_BOUND,
    ensures
        count_after(n) == STEP_BOUND as int,
        step_outcome(count_after(n)) == StepResult::Exhausted,
{
    lemma_count_after(n);
}

} // verus!
