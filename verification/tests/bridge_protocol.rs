//! The pending-operation protocol: exactly-once delivery, slot-before-signal
//! ordering, and the synchronous failure paths of a registering call.

use libsql_nvim::bridge::{Delivery, PendingOperation, RegisterError, WorkerLedger};
use libsql_nvim::error::{BridgeError, UnderlyingStorageError};
use libsql_nvim::slot::ResultSlot;
use libsql_nvim::value::DynamicValue;

type Outcome = Result<u64, UnderlyingStorageError>;

#[test]
fn callback_fires_exactly_once_across_repeated_calls() {
    for i in 0..1000u64 {
        let mut op: PendingOperation<Outcome> = PendingOperation::new();
        op.settle(Ok(i));
        let mut invocations = 0u32;
        match op.wake() {
            Delivery::Outcome(v) => {
                invocations += 1;
                assert_eq!(v, Ok(i));
            }
            Delivery::DataNotSet => panic!("callback saw an unset slot"),
        }
        assert_eq!(invocations, 1);
    }
}

#[test]
fn successful_completion_never_hits_data_not_set() {
    for i in 0..1000u64 {
        let mut op: PendingOperation<Outcome> = PendingOperation::new();
        op.settle(Err(UnderlyingStorageError {
            message: format!("storage failure {i}"),
        }));
        // even a failed operation settles and delivers its outcome:
        // the slot is filled before the signal, so the callback always
        // finds it non-empty
        match op.wake() {
            Delivery::Outcome(Err(e)) => {
                assert_eq!(e.message, format!("storage failure {i}"));
            }
            Delivery::Outcome(Ok(_)) => panic!("outcome changed in flight"),
            Delivery::DataNotSet => panic!("callback saw an unset slot"),
        }
    }
}

#[test]
fn slot_lifecycle_single_assignment_single_consumption() {
    let mut slot: ResultSlot<u64> = ResultSlot::new();
    slot.fill(7);
    assert_eq!(slot.take(), Ok(7));
    // a second read finds nothing: the violation is surfaced, not ignored
    assert_eq!(slot.take(), Err(BridgeError::DataNotSet));
}

#[test]
fn empty_slot_read_is_data_not_set() {
    let mut slot: ResultSlot<u64> = ResultSlot::new();
    assert_eq!(slot.take(), Err(BridgeError::DataNotSet));
    // the slot is left as it was and can still be filled and consumed
    slot.fill(3);
    assert_eq!(slot.take(), Ok(3));
}

#[test]
fn failed_handle_creation_fails_before_any_spawn() {
    let mut ledger = WorkerLedger::new();
    let r = ledger.register_call(false, vec![DynamicValue::Integer(1)]);
    assert_eq!(
        r,
        Err(RegisterError::Bridge(BridgeError::HandleCreationFailed))
    );
    assert_eq!(ledger.spawned, 0);
}

#[test]
fn bridge_error_messages() {
    assert_eq!(BridgeError::DataNotSet.message(), "data not set");
    assert_eq!(BridgeError::LockPoisoned.message(), "mutex lock failed");
    assert_eq!(
        BridgeError::HandleCreationFailed.message(),
        "wake handle creation failed"
    );
}
