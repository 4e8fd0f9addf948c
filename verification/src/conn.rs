//! Connection-level logic: statement pre-flight and write serialization.
//!
//! Before any worker is detached for an execute or query call, the call's
//! parameters are converted — in order and fail-fast — and the wake handle
//! must exist; [`prepare_statement`] is that verified pre-flight.
//!
//! The shared connection is guarded by a read/write lock whose exclusive
//! side serializes writers.  [`ConnState`] models that protocol: a writer
//! begins a statement only while no other writer is active and commits it
//! before the next one begins.  The serialization law proves that any
//! admissible interleaving applies exactly the begun statements, in their
//! serialization order — the same final history as the equivalent
//! sequential execution.

use vstd::prelude::*;
use crate::bridge::{RegisterError, WorkerLedger};
use crate::error::UnderlyingStorageError;
use crate::ser::{convert_params_view, dyn_views, typed_views};
use crate::value::{DynamicValue, TypedValue};

verus! {

/// The outcome of one execute call, as the worker settles it: the
/// affected-row count, or the client's failure passed through.
pub type ExecuteOutcome = Result<u64, UnderlyingStorageError>;

/// A statement ready to hand to the worker: the SQL text and its
/// parameters, already converted.
pub struct ExecuteRequest {
    pub sql: String,
    pub params: Vec<TypedValue>,
}

/// The verified pre-flight of an execute or query call: the wake handle
/// is created first, then the parameters are converted in order, and only
/// when both succeed is a worker detached.  A bad parameter never incurs
/// a thread spawn.
pub fn prepare_statement(
    sql: String,
    params: Vec<DynamicValue>,
    handle_created: bool,
    ledger: &mut WorkerLedger,
) -> (r: Result<ExecuteRequest, RegisterError>)
    requires
        old(ledger).spawned < u64::MAX,
    ensures
        !handle_created ==> (r matches Err(err) && err == RegisterError::Bridge(
            crate::error::BridgeError::HandleCreationFailed,
        ) && final(ledger).spawned == old(ledger).spawned),
        handle_created ==> match convert_params_view(dyn_views(params@)) {
            Ok(converted) => r matches Ok(req) && req.sql@ == sql@ && typed_views(req.params@)
                == converted && final(ledger).spawned == old(ledger).spawned + 1,
            Err(e) => r == Err::<ExecuteRequest, RegisterError>(RegisterError::Conversion(e))
                && final(ledger).spawned == old(ledger).spawned,
        },
        r matches Err(err) ==> final(ledger).spawned == old(ledger).spawned && (match err {
            RegisterError::Bridge(_) => !handle_created,
            RegisterError::Conversion(e) => convert_params_view(dyn_views(params@))
                == Err::<Seq<crate::value::TypedValueView>, crate::error::ConversionError>(e),
        }),
{
    match ledger.register_call(handle_created, params) {
        Ok(converted) => Ok(ExecuteRequest { sql, params: converted }),
        Err(e) => Err(e),
    }
}

/// An event at the write lock of one shared connection.
pub enum WriteEvent {
    /// A writer acquired the exclusive side and began this statement.
    Begin(u64),
    /// The active writer committed its statement and released the lock.
    Commit,
}

/// The serialization state of one shared connection: the statement whose
/// writer currently holds the exclusive lock, and the statements applied
/// so far, in order.
pub struct ConnState {
    active: Option<u64>,
    applied: Vec<u64>,
}

/// The mathematical view of a [`ConnState`].
pub struct ConnStateView {
    pub active: Option<u64>,
    pub applied: Seq<u64>,
}

impl View for ConnState {
    type V = ConnStateView;

    closed spec fn view(&self) -> ConnStateView {
        ConnStateView { active: self.active, applied: self.applied@ }
    }
}

/// One step of the lock protocol: a writer may begin only while no writer
/// is active, and only the active writer may commit.  Steps the lock
/// refuses do not happen.
pub open spec fn step_view(s: ConnStateView, e: WriteEvent) -> Option<ConnStateView> {
    match e {
        WriteEvent::Begin(op) => if s.active is None {
            Some(ConnStateView { active: Some(op), applied: s.applied })
        } else {
            None
        },
        WriteEvent::Commit => match s.active {
            Some(op) => Some(ConnStateView { active: None, applied: s.applied.push(op) }),
            None => None,
        },
    }
}

/// A run of the lock protocol: all steps taken in order, or nothing if
/// any step is refused.
pub open spec fn run_view(s: ConnStateView, evs: Seq<WriteEvent>) -> Option<ConnStateView>
    decreases evs.len(),
{
    if evs.len() == 0 {
        Some(s)
    } else {
        match step_view(s, evs[0]) {
            Some(s2) => run_view(s2, evs.skip(1)),
            None => None,
        }
    }
}

/// The statements begun in an event sequence, in the order the lock
/// granted them.
pub open spec fn begun_ops(evs: Seq<WriteEvent>) -> Seq<u64>
    decreases evs.len(),
{
    if evs.len() == 0 {
        Seq::empty()
    } else {
        match evs[0] {
            WriteEvent::Begin(op) => seq![op] + begun_ops(evs.skip(1)),
            WriteEvent::Commit => begun_ops(evs.skip(1)),
        }
    }
}

/// Sequential execution: the history left by applying `ops` one after
/// another, in order, after `applied`.
pub open spec fn apply_sequential(applied: Seq<u64>, ops: Seq<u64>) -> Seq<u64> {
    applied + ops
}

/// The statement the active writer has begun and not yet committed.
pub open spec fn pending_ops(s: ConnStateView) -> Seq<u64> {
    match s.active {
        Some(op) => seq![op],
        None => Seq::empty(),
    }
}

proof fn lemma_serialization_general(s: ConnStateView, evs: Seq<WriteEvent>)
    requires
        run_view(s, evs) is Some,
        run_view(s, evs)->Some_0.active is None,
    ensures
        run_view(s, evs)->Some_0.applied == s.applied + pending_ops(s) + begun_ops(evs),
    decreases evs.len(),
{
    if evs.len() == 0 {
        assert(s.applied + pending_ops(s) + begun_ops(evs) =~= s.applied);
    } else {
        let s2 = step_view(s, evs[0])->Some_0;
        lemma_serialization_general(s2, evs.skip(1));
        match evs[0] {
            WriteEvent::Begin(op) => {
                assert(s2.applied + pending_ops(s2) + begun_ops(evs.skip(1)) =~= s.applied
                    + pending_ops(s) + begun_ops(evs));
            },
            WriteEvent::Commit => {
                assert(s2.applied + pending_ops(s2) + begun_ops(evs.skip(1)) =~= s.applied
                    + pending_ops(s) + begun_ops(evs));
            },
        }
    }
}

/// Law: writers serialize.  Any admissible interleaving of write
/// statements at the lock — starting and ending with no writer active —
/// leaves exactly the history of the equivalent sequential execution:
/// the begun statements, applied one after another in the order the lock
/// granted them.
pub proof fn lemma_write_serialization(s: ConnStateView, evs: Seq<WriteEvent>)
    requires
        s.active is None,
        run_view(s, evs) is Some,
        run_view(s, evs)->Some_0.active is None,
    ensures
        run_view(s, evs)->Some_0.applied == apply_sequential(s.applied, begun_ops(evs)),
{
    lemma_serialization_general(s, evs);
    assert(s.applied + pending_ops(s) + begun_ops(evs) =~= apply_sequential(
        s.applied,
        begun_ops(evs),
    ));
}

impl ConnState {
    /// A fresh connection: idle lock, empty history.
    pub fn new() -> (s: ConnState)
        ensures
            s@.active is None,
            s@.applied == Seq::<u64>::empty(),
    {
        let s = ConnState { active: None, applied: Vec::new() };
        proof {
            assert(s@.applied =~= Seq::<u64>::empty());
        }
        s
    }

    /// A writer acquired the exclusive side of the lock and began this
    /// statement.  The lock grants it only while no writer is active.
    pub fn begin_write(&mut self, op: u64)
        requires
            old(self)@.active is None,
        ensures
            step_view(old(self)@, WriteEvent::Begin(op)) == Some(final(self)@),
    {
        self.active = Some(op);
    }

    /// The active writer committed its statement and released the lock.
    pub fn commit_write(&mut self)
        requires
            old(self)@.active is Some,
        ensures
            step_view(old(self)@, WriteEvent::Commit) == Some(final(self)@),
    {
        match self.active {
            Some(op) => {
                self.applied.push(op);
                self.active = None;
            },
            None => {},
        }
    }

    /// The statements applied so far, in the order the lock granted them.
    pub fn applied_ops(&self) -> (r: &Vec<u64>)
        ensures
            r@ == self@.applied,
    {
        &self.applied
    }

    /// Whether a writer currently holds the exclusive lock.
    pub fn writer_active(&self) -> (r: bool)
        ensures
            r == (self@.active is Some),
    {
        match self.active {
            Some(_) => true,
            None => false,
        }
    }
}

} // verus!
