//! The calling-convention adapter.
//!
//! The host binding registry accepts callables of one fixed shape: host
//! context, receiver, argument tuple.  Domain methods come in several
//! natural shapes — with or without the context parameter, mutable or
//! immutable receiver, synchronous or asynchronous body.  One adapter
//! serves each shape; selection happens once, at registration time, and
//! exactly one adapter applies to a given shape.  Adaptation is a pure
//! signature transform: it drops or forwards the context slot and passes
//! every argument value through unchanged — no reordering, no buffering,
//! no retries.

use vstd::prelude::*;
use crate::value::DynamicValue;

verus! {

/// The shape of a domain method, as seen at registration time.
#[derive(Debug, Clone, Copy, PartialEq, Eq, Structural)]
pub struct MethodShape {
    /// Whether the method takes the host-context parameter.
    pub needs_context: bool,
    /// Whether the method takes its receiver mutably.
    pub mutable_receiver: bool,
    /// Whether the method's body is asynchronous.
    pub is_async: bool,
}

/// The adapters, one per method shape.
#[derive(Debug, Clone, Copy, PartialEq, Eq, Structural)]
pub enum AdapterKind {
    MethodNoLua,
    MethodWithLua,
    MethodMutNoLua,
    MethodMutWithLua,
    AsyncMethodNoLua,
    AsyncMethodWithLua,
    AsyncMethodMutNoLua,
    AsyncMethodMutWithLua,
}

/// The shape each adapter serves.
pub open spec fn shape_of(k: AdapterKind) -> MethodShape {
    match k {
        AdapterKind::MethodNoLua => MethodShape {
            needs_context: false,
            mutable_receiver: false,
            is_async: false,
        },
        AdapterKind::MethodWithLua => MethodShape {
            needs_context: true,
            mutable_receiver: false,
            is_async: false,
        },
        AdapterKind::MethodMutNoLua => MethodShape {
            needs_context: false,
            mutable_receiver: true,
            is_async: false,
        },
        AdapterKind::MethodMutWithLua => MethodShape {
            needs_context: true,
            mutable_receiver: true,
            is_async: false,
        },
        AdapterKind::AsyncMethodNoLua => MethodShape {
            needs_context: false,
            mutable_receiver: false,
            is_async: true,
        },
        AdapterKind::AsyncMethodWithLua => MethodShape {
            needs_context: true,
            mutable_receiver: false,
            is_async: true,
        },
        AdapterKind::AsyncMethodMutNoLua => MethodShape {
            needs_context: false,
            mutable_receiver: true,
            is_async: true,
        },
        AdapterKind::AsyncMethodMutWithLua => MethodShape {
            needs_context: true,
            mutable_receiver: true,
            is_async: true,
        },
    }
}

/// Select the adapter that serves a shape; registration-time choice,
/// not a runtime dispatch.
pub fn adapter_for(shape: MethodShape) -> (k: AdapterKind)
    ensures
        shape_of(k) == shape,
{
    if shape.is_async {
        if shape.mutable_receiver {
            if shape.needs_context {
                AdapterKind::AsyncMethodMutWithLua
            } else {
                AdapterKind::AsyncMethodMutNoLua
            }
        } else {
            if shape.needs_context {
                AdapterKind::AsyncMethodWithLua
            } else {
                AdapterKind::AsyncMethodNoLua
            }
        }
    } else {
        if shape.mutable_receiver {
            if shape.needs_context {
                AdapterKind::MethodMutWithLua
            } else {
                AdapterKind::MethodMutNoLua
            }
        } else {
            if shape.needs_context {
                AdapterKind::MethodWithLua
            } else {
                AdapterKind::MethodNoLua
            }
        }
    }
}

/// Law: exactly one adapter applies to a given method shape.
pub proof fn lemma_adapter_unique(shape: MethodShape, k1: AdapterKind, k2: AdapterKind)
    requires
        shape_of(k1) == shape,
        shape_of(k2) == shape,
    ensures
        k1 == k2,
{
}

/// A call brought into the host binding's fixed shape.
pub struct AdaptedCall {
    /// Whether the context argument reaches the method or is dropped.
    pub context_forwarded: bool,
    /// The argument tuple, exactly as the host passed it.
    pub args: Vec<DynamicValue>,
}

/// Adapt one call: the context slot is forwarded exactly when the shape
/// wants it, and every argument value passes through unchanged.
pub fn adapt_call(shape: MethodShape, args: Vec<DynamicValue>) -> (r: AdaptedCall)
    ensures
        r.args == args,
        r.context_forwarded == shape.needs_context,
{
    AdaptedCall { context_forwarded: shape.needs_context, args }
}

} // verus!
