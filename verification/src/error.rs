//! Error taxonomy of the bridge.
//!
//! Every failure a host caller can observe falls into one of four families:
//! conversion failures (a dynamic value has no typed counterpart), bounds
//! failures (a column index outside the cursor's range), bridge failures
//! (the delivery machinery itself broke its contract), and opaque storage
//! failures passed through from the database client.

use vstd::prelude::*;
use vstd::string::StringExecFns;
use crate::value::{kind_name_view, ValueKind};

verus! {

/// A dynamic value could not be converted to a typed storage value.
#[derive(Debug, Clone, Copy, PartialEq, Eq, Structural)]
pub enum ConversionError {
    /// The dynamic kind has no typed counterpart; carries the offending kind.
    UnsupportedType { kind: ValueKind },
    /// A host string that is not valid UTF-8 cannot become a text value.
    InvalidEncoding,
    /// A non-finite float (NaN or an infinity) cannot become a real value.
    NotFinite,
}

impl ConversionError {
    /// The diagnostic text of this error.
    pub open spec fn message_view(self) -> Seq<char> {
        match self {
            ConversionError::UnsupportedType { kind } => kind_name_view(kind)
                + " is not supported as a parameter"@,
            ConversionError::InvalidEncoding => "string is not valid utf-8"@,
            ConversionError::NotFinite => "number is not finite"@,
        }
    }

    /// The diagnostic text of this error.
    pub fn message(&self) -> (r: String)
        ensures
            r@ == self.message_view(),
    {
        match self {
            ConversionError::UnsupportedType { kind } => {
                let mut s = kind.name();
                s.append(" is not supported as a parameter");
                s
            },
            ConversionError::InvalidEncoding => String::from_str("string is not valid utf-8"),
            ConversionError::NotFinite => String::from_str("number is not finite"),
        }
    }
}

/// A column index fell outside the cursor's column range.
#[derive(Debug, Clone, Copy, PartialEq, Eq, Structural)]
pub enum BoundsError {
    /// The index was negative.
    NegativeIndex,
    /// The index was at or past the column count.
    IndexOutOfRange,
}

impl BoundsError {
    /// The diagnostic text of this error.
    pub open spec fn message_view(self) -> Seq<char> {
        match self {
            BoundsError::NegativeIndex => "index must be greater than 0"@,
            BoundsError::IndexOutOfRange => "column index out of range"@,
        }
    }

    /// The diagnostic text of this error.
    pub fn message(&self) -> (r: String)
        ensures
            r@ == self.message_view(),
    {
        match self {
            BoundsError::NegativeIndex => String::from_str("index must be greater than 0"),
            BoundsError::IndexOutOfRange => String::from_str("column index out of range"),
        }
    }
}

/// The async delivery machinery failed.
#[derive(Debug, Clone, Copy, PartialEq, Eq, Structural)]
pub enum BridgeError {
    /// The wake handle bound to the host loop could not be created.
    HandleCreationFailed,
    /// A guarded region around the result slot was poisoned.
    LockPoisoned,
    /// The host-side callback ran while the result slot held nothing:
    /// an internal contract violation made observable instead of a hang.
    DataNotSet,
}

impl BridgeError {
    /// The diagnostic text of this error.
    pub open spec fn message_view(self) -> Seq<char> {
        match self {
            BridgeError::HandleCreationFailed => "wake handle creation failed"@,
            BridgeError::LockPoisoned => "mutex lock failed"@,
            BridgeError::DataNotSet => "data not set"@,
        }
    }

    /// The diagnostic text of this error.
    pub fn message(&self) -> (r: String)
        ensures
            r@ == self.message_view(),
    {
        match self {
            BridgeError::HandleCreationFailed => String::from_str("wake handle creation failed"),
            BridgeError::LockPoisoned => String::from_str("mutex lock failed"),
            BridgeError::DataNotSet => String::from_str("data not set"),
        }
    }
}

/// An opaque failure reported by the database client, passed through
/// to the host caller unchanged.
#[derive(Debug, Clone, PartialEq, Eq)]
pub struct UnderlyingStorageError {
    pub message: String,
}

/// A failure of a row field access: the index was out of bounds, or the
/// stored value has no host representation.
#[derive(Debug, Clone, Copy, PartialEq, Eq, Structural)]
pub enum RowAccessError {
    Bounds(BoundsError),
    Conversion(ConversionError),
}

impl RowAccessError {
    /// The diagnostic text of this error.
    pub open spec fn message_view(self) -> Seq<char> {
        match self {
            RowAccessError::Bounds(e) => e.message_view(),
            RowAccessError::Conversion(e) => e.message_view(),
        }
    }

    /// The diagnostic text of this error.
    pub fn message(&self) -> (r: String)
        ensures
            r@ == self.message_view(),
    {
        match self {
            RowAccessError::Bounds(e) => e.message(),
            RowAccessError::Conversion(e) => e.message(),
        }
    }
}

} // verus!
