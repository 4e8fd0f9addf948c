//! The async call bridge: one pending operation per asynchronous call.
//!
//! A pending operation owns a result slot and the signaled/woken state of
//! its wake handle.  The worker thread settles the operation: it writes the
//! single outcome into the slot and only then signals the wake handle.  The
//! host loop, woken by the signal, runs the bound callback once: it takes
//! the slot's contents and hands them to the completion callback.  Under
//! this protocol the callback fires exactly once with the settled outcome;
//! the data-not-set branch exists to surface a broken protocol, and is
//! proven unreachable.
//!
//! The bridge also accounts for the workers it detaches: a registering call
//! whose wake handle cannot be created, or whose parameters do not convert,
//! fails synchronously before any worker is spawned.

use vstd::prelude::*;
use crate::error::{BridgeError, ConversionError};
use crate::ser::{convert_params, convert_params_view, dyn_views, typed_views};
use crate::slot::{ResultSlot, SlotState};
use crate::value::{DynamicValue, TypedValue, TypedValueView};

verus! {

/// What the host-side wake callback delivers to the completion callback.
#[derive(Debug, PartialEq, Eq)]
pub enum Delivery<T> {
    /// The settled outcome, handed over exactly once.
    Outcome(T),
    /// The slot held nothing when the bound callback ran: an internal
    /// contract violation, surfaced rather than silently dropped.
    DataNotSet,
}

/// One in-flight asynchronous call: a result slot plus the state of the
/// wake handle bound to the host loop.
pub struct PendingOperation<T> {
    slot: ResultSlot<T>,
    signaled: bool,
    woken: bool,
    deliveries: u64,
}

/// The mathematical view of a [`PendingOperation`].
pub struct PendingOperationView<T> {
    /// The result slot's lifecycle state.
    pub slot: SlotState<T>,
    /// Whether the worker has signaled the wake handle.
    pub signaled: bool,
    /// Whether the host loop has run the bound callback.
    pub woken: bool,
    /// How many times the completion callback has been invoked.
    pub deliveries: nat,
}

impl<T> View for PendingOperation<T> {
    type V = PendingOperationView<T>;

    closed spec fn view(&self) -> PendingOperationView<T> {
        PendingOperationView {
            slot: self.slot@,
            signaled: self.signaled,
            woken: self.woken,
            deliveries: self.deliveries as nat,
        }
    }
}

impl<T> PendingOperationView<T> {
    /// The protocol invariant: the slot write is sequenced before the
    /// signal, the callback runs only after the signal, and it has run
    /// exactly as often as the operation has been woken.
    pub open spec fn inv(self) -> bool {
        &&& self.signaled ==> !(self.slot is Empty)
        &&& self.woken ==> self.signaled
        &&& !self.woken ==> !(self.slot is Consumed) && self.deliveries == 0
        &&& self.woken ==> self.deliveries == 1
    }
}

/// The view of a freshly created pending operation.
pub open spec fn fresh_op<T>() -> PendingOperationView<T> {
    PendingOperationView { slot: SlotState::Empty, signaled: false, woken: false, deliveries: 0 }
}

/// The worker may settle an operation that is not yet settled.
pub open spec fn can_settle<T>(v: PendingOperationView<T>) -> bool {
    v.inv() && !v.signaled && v.slot is Empty
}

/// The host loop may wake an operation that is signaled and not yet woken.
pub open spec fn can_wake<T>(v: PendingOperationView<T>) -> bool {
    v.inv() && v.signaled && !v.woken
}

/// Settling fills the slot with the outcome and signals the handle.
pub open spec fn settle_view<T>(v: PendingOperationView<T>, outcome: T) -> PendingOperationView<
    T,
> {
    PendingOperationView {
        slot: SlotState::Filled(outcome),
        signaled: true,
        woken: v.woken,
        deliveries: v.deliveries,
    }
}

/// Waking consumes the slot and invokes the completion callback once,
/// with the slot's outcome if it held one and the data-not-set violation
/// if it did not.
pub open spec fn wake_view<T>(v: PendingOperationView<T>) -> (PendingOperationView<T>, Delivery<
    T,
>) {
    match v.slot {
        SlotState::Filled(out) => (
            PendingOperationView {
                slot: SlotState::Consumed,
                signaled: v.signaled,
                woken: true,
                deliveries: v.deliveries + 1,
            },
            Delivery::Outcome(out),
        ),
        _ => (
            PendingOperationView {
                slot: v.slot,
                signaled: v.signaled,
                woken: true,
                deliveries: v.deliveries + 1,
            },
            Delivery::DataNotSet,
        ),
    }
}

impl<T> PendingOperation<T> {
    /// Allocate a pending operation: an empty slot, handle not yet
    /// signaled, callback not yet run.
    pub fn new() -> (op: Self)
        ensures
            op@ == fresh_op::<T>(),
            can_settle(op@),
    {
        PendingOperation { slot: ResultSlot::new(), signaled: false, woken: false, deliveries: 0 }
    }

    /// Worker side: write the single outcome into the slot, then — and
    /// only then — signal the wake handle.  The write is sequenced before
    /// the signal under the same exclusive access.
    pub fn settle(&mut self, outcome: T)
        requires
            can_settle(old(self)@),
        ensures
            final(self)@ == settle_view(old(self)@, outcome),
            can_wake(final(self)@),
    {
        self.slot.fill(outcome);
        self.signaled = true;
    }

    /// Host side: the bound callback, run once per signal on the host's
    /// own thread.  It takes the slot's contents and invokes the
    /// completion callback with them exactly once; a slot that held
    /// nothing would be surfaced as the data-not-set violation, but the
    /// protocol invariant proves that branch unreachable.
    pub fn wake(&mut self) -> (d: Delivery<T>)
        requires
            can_wake(old(self)@),
        ensures
            (final(self)@, d) == wake_view(old(self)@),
            final(self)@.inv(),
            final(self)@.deliveries == old(self)@.deliveries + 1,
            d matches Delivery::Outcome(out) && old(self)@.slot == SlotState::Filled(out),
    {
        self.woken = true;
        self.deliveries = self.deliveries + 1;
        match self.slot.take() {
            Ok(v) => Delivery::Outcome(v),
            Err(_) => Delivery::DataNotSet,
        }
    }
}

/// Law: every pending operation's completion callback fires exactly once.
/// A fresh operation, settled by its worker and woken by the host loop,
/// has invoked the callback exactly once — with the settled outcome — and
/// neither settling nor waking applies to it again.
pub proof fn lemma_callback_fires_exactly_once<T>(outcome: T)
    ensures
        ({
            let settled = settle_view(fresh_op::<T>(), outcome);
            let (done, d) = wake_view(settled);
            &&& can_wake(settled)
            &&& d == Delivery::Outcome(outcome)
            &&& done.deliveries == 1
            &&& !can_settle(done)
            &&& !can_wake(done)
        }),
{
}

/// Law: the slot write is sequenced before the signal, so the bound
/// callback never observes an empty slot: waking any operation the
/// protocol allows to be woken delivers a settled outcome, never the
/// data-not-set violation.
pub proof fn lemma_wake_never_data_not_set<T>(v: PendingOperationView<T>)
    requires
        can_wake(v),
    ensures
        wake_view(v).1 matches Delivery::Outcome(out) && v.slot == SlotState::Filled(out),
{
}

/// A synchronous failure of a registering call: either the parameters do
/// not convert or the bridge could not be set up.  Either way the call
/// fails before any worker is spawned.
#[derive(Debug, Clone, Copy, PartialEq, Eq, Structural)]
pub enum RegisterError {
    /// A parameter had no typed counterpart.
    Conversion(ConversionError),
    /// The delivery machinery failed, synchronously.
    Bridge(BridgeError),
}

/// Counts the worker threads the bridge has detached.  Each successful
/// registration detaches exactly one; failed registrations detach none.
pub struct WorkerLedger {
    /// How many workers have been detached so far.
    pub spawned: u64,
}

impl WorkerLedger {
    /// A ledger with no workers yet.
    pub fn new() -> (l: Self)
        ensures
            l.spawned == 0,
    {
        WorkerLedger { spawned: 0 }
    }

    /// One async registration, up to the point of detaching its worker:
    /// the wake handle is created first, the parameters are converted in
    /// order, and only when both succeed is a worker spawned.  A failed
    /// handle or an unconvertible parameter fails the call synchronously,
    /// with no worker spawned and no thread leaked.
    pub fn register_call(&mut self, handle_created: bool, params: Vec<DynamicValue>) -> (r: Result<
        Vec<TypedValue>,
        RegisterError,
    >)
        requires
            old(self).spawned < u64::MAX,
        ensures
            !handle_created ==> r == Err::<Vec<TypedValue>, RegisterError>(
                RegisterError::Bridge(BridgeError::HandleCreationFailed),
            ) && final(self).spawned == old(self).spawned,
            handle_created ==> match convert_params_view(dyn_views(params@)) {
                Ok(converted) => r matches Ok(out) && typed_views(out@) == converted
                    && final(self).spawned == old(self).spawned + 1,
                Err(e) => r == Err::<Vec<TypedValue>, RegisterError>(RegisterError::Conversion(e))
                    && final(self).spawned == old(self).spawned,
            },
    {
        if !handle_created {
            return Err(RegisterError::Bridge(BridgeError::HandleCreationFailed));
        }
        match convert_params(params) {
            Ok(out) => {
                self.spawned = self.spawned + 1;
                Ok(out)
            },
            Err(e) => Err(RegisterError::Conversion(e)),
        }
    }
}

} // verus!
