//! The single-assignment, single-consumption result slot.
//!
//! A slot carries one operation's outcome from the worker thread to the
//! host-thread callback.  Its lifecycle is empty, then filled at most once,
//! then consumed at most once.  Writing twice is a contract violation and
//! is excluded by precondition: the verified protocol writes exactly once.
//! Reading from a slot that holds nothing is reported as the data-not-set
//! bridge error rather than silently ignored.

use vstd::prelude::*;
use crate::error::BridgeError;

verus! {

/// The lifecycle of a result slot.
#[derive(Debug)]
pub enum SlotState<T> {
    /// No outcome has been written yet.
    Empty,
    /// The single outcome has been written and not yet taken.
    Filled(T),
    /// The single outcome has been taken.
    Consumed,
}

/// A container holding at most one outcome; see the module description.
pub struct ResultSlot<T> {
    state: SlotState<T>,
}

impl<T> View for ResultSlot<T> {
    type V = SlotState<T>;

    closed spec fn view(&self) -> SlotState<T> {
        match &self.state {
            SlotState::Empty => SlotState::Empty,
            SlotState::Filled(v) => SlotState::Filled(*v),
            SlotState::Consumed => SlotState::Consumed,
        }
    }
}

impl<T> ResultSlot<T> {
    /// A fresh, empty slot.
    pub fn new() -> (s: Self)
        ensures
            s@ is Empty,
    {
        ResultSlot { state: SlotState::Empty }
    }

    /// Whether the slot holds nothing yet.
    pub fn is_empty(&self) -> (r: bool)
        ensures
            r == (self@ is Empty),
    {
        matches!(self.state, SlotState::Empty)
    }

    /// Write the single outcome.  Only an empty slot may be written:
    /// the slot's writer performs exactly one write.
    pub fn fill(&mut self, value: T)
        requires
            old(self)@ is Empty,
        ensures
            final(self)@ == SlotState::Filled(value),
    {
        self.state = SlotState::Filled(value);
    }

    /// Take the outcome, leaving the slot consumed.  A slot that holds
    /// nothing — never filled, or already consumed — yields the
    /// data-not-set violation and is left as it was.
    pub fn take(&mut self) -> (r: Result<T, BridgeError>)
        ensures
            old(self)@ matches SlotState::Filled(v) ==> r matches Ok(w) && w == v
                && final(self)@ is Consumed,
            !(old(self)@ is Filled) ==> r == Err::<T, BridgeError>(BridgeError::DataNotSet)
                && final(self)@ == old(self)@,
    {
        let mut taken = SlotState::Consumed;
        core::mem::swap(&mut self.state, &mut taken);
        match taken {
            SlotState::Filled(v) => Ok(v),
            SlotState::Empty => {
                self.state = SlotState::Empty;
                Err(BridgeError::DataNotSet)
            },
            SlotState::Consumed => Err(BridgeError::DataNotSet),
        }
    }
}

} // verus!
