//! The executable counting state, in the two shapes the host protocols
//! need: the asynchronous bridge state and the synchronous iterator.
//!
//! Both hold one counter and take the same bounded steps. The asynchronous
//! glue outside the library shares an `AsyncCounterBridge` between the
//! handle object and each in-flight background task (behind its own lock),
//! and calls `step` inside the critical section; everything the task
//! decides is decided here.

use vstd::prelude::*;
use crate::counting::{StepResult, next_count, step_outcome, STEP_BOUND};

verus! {

/// The state behind an asynchronous counting handle: a counter that starts
/// at 0, yields the values 1 through `STEP_BOUND` one step at a time, and
/// signals exhaustion on every step after that.
pub struct AsyncCounterBridge {
    count: usize,
}

impl View for AsyncCounterBridge {
    type V = int;

    closed spec fn view(&self) -> int {
        self.count as int
    }
}

impl AsyncCounterBridge {
    /// A fresh bridge, its counter at 0.
    pub fn new() -> (bridge: AsyncCounterBridge)
        ensures
            bridge@ == 0,
    {
        AsyncCounterBridge { count: 0 }
    }

    /// The handle is its own asynchronous iterator: the protocol's
    /// "return self as async-iterator" operation is the identity.
    pub fn as_async_iterator(&self) -> (r: &AsyncCounterBridge)
        ensures
            r == self,
    {
        self
    }

    /// One step of the sequence: below the bound, advance the counter and
    /// return its new value; at the bound, leave it untouched and signal
    /// exhaustion. Total: no input is rejected and no step can fail in any
    /// other way.
    pub fn step(&mut self) -> (r: StepResult)
        ensures
            final(self)@ == next_count(old(self)@),
            r == step_outcome(old(self)@),
    {
        if self.count < STEP_BOUND {
            self.count = self.count + 1;
            StepResult::Value(self.count)
        } else {
            StepResult::Exhausted
        }
    }

    /// The counter's current value.
    pub fn current(&self) -> (n: usize)
        ensures
            n == self@,
    {
        self.count
    }
}

/// The synchronous counting iterator: the same bounded sequence, reported
/// as `Some(value)` per step and `None` from exhaustion on.
pub struct CounterIter {
    count: usize,
}

impl View for CounterIter {
    type V = int;

    closed spec fn view(&self) -> int {
        self.count as int
    }
}

impl CounterIter {
    /// A fresh iterator, its counter at 0.
    pub fn new() -> (it: CounterIter)
        ensures
            it@ == 0,
    {
        CounterIter { count: 0 }
    }

    /// The iterator is its own iterator: the protocol's "return self as
    /// iterator" operation is the identity.
    pub fn as_iterator(&self) -> (r: &CounterIter)
        ensures
            r == self,
    {
        self
    }

    /// One step of the sequence, as the synchronous protocol reports it.
    pub fn next(&mut self) -> (r: Option<usize>)
        ensures
            final(self)@ == next_count(old(self)@),
            r == step_outcome(old(self)@).as_option(),
    {
        if self.count < STEP_BOUND {
            self.count = self.count + 1;
            Some(self.count)
        } else {
            None
        }
    }
}

} // verus!
