//! The two value universes and the strict conversion between them.
//!
//! A [`DynamicValue`] is a value of the host's dynamically typed universe;
//! payloads the conversion never reads (tables, functions, opaque handles)
//! are carried as bare kinds.  Host floats are carried as their IEEE-754
//! bit pattern, and host strings as byte strings, which is what they are.
//!
//! A [`TypedValue`] is a value of the database client's fixed storage union.
//!
//! Each type has a mathematical view ([`DynamicValueView`],
//! [`TypedValueView`]) over which all contracts are stated.  The forward
//! conversion [`to_typed`] is a pure classification: defined exactly on nil,
//! booleans, integers, finite floats, and UTF-8 strings, and failing with
//! the precise [`ConversionError`] otherwise.  The backward conversion
//! [`to_dynamic`] is defined on everything but blobs, which have no host
//! representation yet.

use vstd::prelude::*;
use vstd::string::StringExecFns;
use crate::encoding::check_utf8;
use crate::error::ConversionError;
use vstd::utf8::valid_utf8;

verus! {

/// The kind of a value, used in diagnostics for unsupported conversions.
#[derive(Debug, Clone, Copy, PartialEq, Eq, Structural)]
pub enum ValueKind {
    Nil,
    Boolean,
    Integer,
    Number,
    Str,
    Table,
    Function,
    LightUserData,
    Thread,
    UserData,
    ErrorObject,
    Blob,
}

/// The display name of a value kind, as it appears in diagnostics.
pub open spec fn kind_name_view(k: ValueKind) -> Seq<char> {
    match k {
        ValueKind::Nil => "nil"@,
        ValueKind::Boolean => "boolean"@,
        ValueKind::Integer => "integer"@,
        ValueKind::Number => "number"@,
        ValueKind::Str => "string"@,
        ValueKind::Table => "table"@,
        ValueKind::Function => "function"@,
        ValueKind::LightUserData => "light userdata"@,
        ValueKind::Thread => "thread"@,
        ValueKind::UserData => "userdata"@,
        ValueKind::ErrorObject => "error"@,
        ValueKind::Blob => "blob"@,
    }
}

impl ValueKind {
    /// The kind's display name.
    pub fn name(&self) -> (r: String)
        ensures
            r@ == kind_name_view(*self),
    {
        match self {
            ValueKind::Nil => String::from_str("nil"),
            ValueKind::Boolean => String::from_str("boolean"),
            ValueKind::Integer => String::from_str("integer"),
            ValueKind::Number => String::from_str("number"),
            ValueKind::Str => String::from_str("string"),
            ValueKind::Table => String::from_str("table"),
            ValueKind::Function => String::from_str("function"),
            ValueKind::LightUserData => String::from_str("light userdata"),
            ValueKind::Thread => String::from_str("thread"),
            ValueKind::UserData => String::from_str("userdata"),
            ValueKind::ErrorObject => String::from_str("error"),
            ValueKind::Blob => String::from_str("blob"),
        }
    }
}

/// A value of the host's dynamically typed universe.
#[derive(Debug, Clone, PartialEq, Eq)]
pub enum DynamicValue {
    Nil,
    Boolean(bool),
    /// A host integer.
    Integer(i64),
    /// A host float, carried as its IEEE-754 double bit pattern.
    Number(u64),
    /// A host string: an arbitrary byte string.
    Str(Vec<u8>),
    Table,
    Function,
    LightUserData,
    Thread,
    UserData,
    ErrorObject,
}

/// The mathematical view of a [`DynamicValue`].
pub enum DynamicValueView {
    Nil,
    Boolean(bool),
    Integer(i64),
    Number(u64),
    Str(Seq<u8>),
    Table,
    Function,
    LightUserData,
    Thread,
    UserData,
    ErrorObject,
}

impl View for DynamicValue {
    type V = DynamicValueView;

    open spec fn view(&self) -> DynamicValueView {
        match self {
            DynamicValue::Nil => DynamicValueView::Nil,
            DynamicValue::Boolean(b) => DynamicValueView::Boolean(*b),
            DynamicValue::Integer(i) => DynamicValueView::Integer(*i),
            DynamicValue::Number(bits) => DynamicValueView::Number(*bits),
            DynamicValue::Str(bytes) => DynamicValueView::Str(bytes@),
            DynamicValue::Table => DynamicValueView::Table,
            DynamicValue::Function => DynamicValueView::Function,
            DynamicValue::LightUserData => DynamicValueView::LightUserData,
            DynamicValue::Thread => DynamicValueView::Thread,
            DynamicValue::UserData => DynamicValueView::UserData,
            DynamicValue::ErrorObject => DynamicValueView::ErrorObject,
        }
    }
}

/// A value of the database client's typed storage union.
#[derive(Debug, Clone, PartialEq, Eq)]
pub enum TypedValue {
    Null,
    Integer(i64),
    /// A real, carried as its IEEE-754 double bit pattern.
    Real(u64),
    /// A text value; the converter only produces valid UTF-8 here.
    Text(Vec<u8>),
    /// A binary blob.  Producible by the storage layer, not by the converter.
    Blob(Vec<u8>),
}

/// The mathematical view of a [`TypedValue`].
pub enum TypedValueView {
    Null,
    Integer(i64),
    Real(u64),
    Text(Seq<u8>),
    Blob(Seq<u8>),
}

impl View for TypedValue {
    type V = TypedValueView;

    open spec fn view(&self) -> TypedValueView {
        match self {
            TypedValue::Null => TypedValueView::Null,
            TypedValue::Integer(i) => TypedValueView::Integer(*i),
            TypedValue::Real(bits) => TypedValueView::Real(*bits),
            TypedValue::Text(bytes) => TypedValueView::Text(bytes@),
            TypedValue::Blob(bytes) => TypedValueView::Blob(bytes@),
        }
    }
}

/// True when the IEEE-754 double with these bits is finite
/// (its exponent field is not all ones, so it is neither NaN nor infinite).
pub open spec fn f64_bits_finite(bits: u64) -> bool {
    bits & 0x7ff0_0000_0000_0000 != 0x7ff0_0000_0000_0000
}

/// The kind of a dynamic value.
pub open spec fn kind_of(v: DynamicValueView) -> ValueKind {
    match v {
        DynamicValueView::Nil => ValueKind::Nil,
        DynamicValueView::Boolean(_) => ValueKind::Boolean,
        DynamicValueView::Integer(_) => ValueKind::Integer,
        DynamicValueView::Number(_) => ValueKind::Number,
        DynamicValueView::Str(_) => ValueKind::Str,
        DynamicValueView::Table => ValueKind::Table,
        DynamicValueView::Function => ValueKind::Function,
        DynamicValueView::LightUserData => ValueKind::LightUserData,
        DynamicValueView::Thread => ValueKind::Thread,
        DynamicValueView::UserData => ValueKind::UserData,
        DynamicValueView::ErrorObject => ValueKind::ErrorObject,
    }
}

/// The dynamic-to-typed mapping: nil to null, booleans to 0/1 integers,
/// integers to integers, finite floats to reals, UTF-8 strings to text;
/// everything else is rejected with its kind.
pub open spec fn to_typed_view(v: DynamicValueView) -> Result<TypedValueView, ConversionError> {
    match v {
        DynamicValueView::Nil => Ok(TypedValueView::Null),
        DynamicValueView::Boolean(b) => Ok(
            TypedValueView::Integer(if b { 1 as i64 } else { 0 as i64 }),
        ),
        DynamicValueView::Integer(i) => Ok(TypedValueView::Integer(i)),
        DynamicValueView::Number(bits) => if f64_bits_finite(bits) {
            Ok(TypedValueView::Real(bits))
        } else {
            Err(ConversionError::NotFinite)
        },
        DynamicValueView::Str(bytes) => if valid_utf8(bytes) {
            Ok(TypedValueView::Text(bytes))
        } else {
            Err(ConversionError::InvalidEncoding)
        },
        _ => Err(ConversionError::UnsupportedType { kind: kind_of(v) }),
    }
}

/// The typed-to-dynamic mapping used on the read path: null to nil,
/// integers and reals to their host counterparts, text to a host string;
/// blobs have no host representation and are rejected.
pub open spec fn to_dynamic_view(t: TypedValueView) -> Result<DynamicValueView, ConversionError> {
    match t {
        TypedValueView::Null => Ok(DynamicValueView::Nil),
        TypedValueView::Integer(i) => Ok(DynamicValueView::Integer(i)),
        TypedValueView::Real(bits) => Ok(DynamicValueView::Number(bits)),
        TypedValueView::Text(bytes) => Ok(DynamicValueView::Str(bytes)),
        TypedValueView::Blob(_) => Err(ConversionError::UnsupportedType { kind: ValueKind::Blob }),
    }
}

/// True when the float with these bits is finite.
pub fn is_finite_bits(bits: u64) -> (r: bool)
    ensures
        r == f64_bits_finite(bits),
{
    bits & 0x7ff0_0000_0000_0000 != 0x7ff0_0000_0000_0000
}

/// Convert one dynamic value to its typed storage counterpart, or report
/// exactly why it has none.
pub fn to_typed(v: DynamicValue) -> (r: Result<TypedValue, ConversionError>)
    ensures
        r matches Ok(t) ==> to_typed_view(v@) == Ok::<TypedValueView, ConversionError>(t@),
        r matches Err(e) ==> to_typed_view(v@) == Err::<TypedValueView, ConversionError>(e),
{
    match v {
        DynamicValue::Nil => Ok(TypedValue::Null),
        DynamicValue::Boolean(b) => Ok(TypedValue::Integer(if b { 1 } else { 0 })),
        DynamicValue::Integer(i) => Ok(TypedValue::Integer(i)),
        DynamicValue::Number(bits) => if is_finite_bits(bits) {
            Ok(TypedValue::Real(bits))
        } else {
            Err(ConversionError::NotFinite)
        },
        DynamicValue::Str(bytes) => if check_utf8(&bytes) {
            Ok(TypedValue::Text(bytes))
        } else {
            Err(ConversionError::InvalidEncoding)
        },
        DynamicValue::Table => Err(ConversionError::UnsupportedType { kind: ValueKind::Table }),
        DynamicValue::Function => Err(
            ConversionError::UnsupportedType { kind: ValueKind::Function },
        ),
        DynamicValue::LightUserData => Err(
            ConversionError::UnsupportedType { kind: ValueKind::LightUserData },
        ),
        DynamicValue::Thread => Err(ConversionError::UnsupportedType { kind: ValueKind::Thread }),
        DynamicValue::UserData => Err(
            ConversionError::UnsupportedType { kind: ValueKind::UserData },
        ),
        DynamicValue::ErrorObject => Err(
            ConversionError::UnsupportedType { kind: ValueKind::ErrorObject },
        ),
    }
}

/// Convert a borrowed typed storage value back to a dynamic value,
/// copying its payload; used on the read path, where the row keeps
/// ownership of its stored values.
pub fn to_dynamic_ref(t: &TypedValue) -> (r: Result<DynamicValue, ConversionError>)
    ensures
        r matches Ok(d) ==> to_dynamic_view(t@) == Ok::<DynamicValueView, ConversionError>(d@),
        r matches Err(e) ==> to_dynamic_view(t@) == Err::<DynamicValueView, ConversionError>(e),
{
    match t {
        TypedValue::Null => Ok(DynamicValue::Nil),
        TypedValue::Integer(i) => Ok(DynamicValue::Integer(*i)),
        TypedValue::Real(bits) => Ok(DynamicValue::Number(*bits)),
        TypedValue::Text(bytes) => {
            let copy = bytes.clone();
            proof {
                assert(copy@ =~= bytes@);
            }
            Ok(DynamicValue::Str(copy))
        },
        TypedValue::Blob(_) => Err(ConversionError::UnsupportedType { kind: ValueKind::Blob }),
    }
}

/// Convert one typed storage value back to a dynamic value, or report
/// that it has no host representation.
pub fn to_dynamic(t: TypedValue) -> (r: Result<DynamicValue, ConversionError>)
    ensures
        r matches Ok(d) ==> to_dynamic_view(t@) == Ok::<DynamicValueView, ConversionError>(d@),
        r matches Err(e) ==> to_dynamic_view(t@) == Err::<DynamicValueView, ConversionError>(e),
{
    match t {
        TypedValue::Null => Ok(DynamicValue::Nil),
        TypedValue::Integer(i) => Ok(DynamicValue::Integer(i)),
        TypedValue::Real(bits) => Ok(DynamicValue::Number(bits)),
        TypedValue::Text(bytes) => Ok(DynamicValue::Str(bytes)),
        TypedValue::Blob(_) => Err(ConversionError::UnsupportedType { kind: ValueKind::Blob }),
    }
}

} // verus!
