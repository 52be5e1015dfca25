//! The counter program: one account that holds an 8-bit count.

use vstd::prelude::*;

verus! {

/// Why a step of the counter was not taken.
#[derive(Clone, Copy, Debug, PartialEq, Eq, Structural)]
pub enum CounterError {
    /// The count is at its upper bound already.
    Overflow,
    /// The count is zero already.
    Underflow,
}

/// What the counter account holds.
#[derive(Clone, Copy, Debug, PartialEq, Eq, Structural)]
pub struct Counter {
    pub count: u8,
}

impl Counter {
    /// A new counter, which stands at zero.
    pub fn initialize() -> (counter: Counter)
        ensures
            counter.count == 0,
    {
        Counter { count: 0 }
    }

    /// Adds one to the count.  At the upper bound the count stays where it
    /// is and the step is reported as an overflow.
    pub fn increment(&mut self) -> (outcome: Result<(), CounterError>)
        ensures
            old(self).count < u8::MAX ==> outcome is Ok && final(self).count == old(self).count + 1,
            old(self).count == u8::MAX ==> outcome == Err::<(), CounterError>(
                CounterError::Overflow,
            ) && final(self).count == u8::MAX,
    {
        if self.count == u8::MAX {
            Err(CounterError::Overflow)
        } else {
            self.count = self.count + 1;
            Ok(())
        }
    }

    /// Takes one from the count.  At zero the count stays where it is and
    /// the step is reported as an underflow.
    pub fn decrement(&mut self) -> (outcome: Result<(), CounterError>)
        ensures
            old(self).count > 0 ==> outcome is Ok && final(self).count == old(self).count - 1,
            old(self).count == 0 ==> outcome == Err::<(), CounterError>(CounterError::Underflow)
                && final(self).count == 0,
    {
        if self.count == 0 {
            Err(CounterError::Underflow)
        } else {
            self.count = self.count - 1;
            Ok(())
        }
    }

    /// Puts the count at `value`.
    pub fn set(&mut self, value: u8)
        ensures
            final(self).count == value,
    {
        self.count = value;
    }
}

} // verus!
