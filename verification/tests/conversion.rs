//! Value conversion: literal mappings, encoding checks, and the ordered,
//! fail-fast parameter conversion.

use libsql_nvim::bridge::{RegisterError, WorkerLedger};
use libsql_nvim::encoding::check_utf8;
use libsql_nvim::error::ConversionError;
use libsql_nvim::ser::{convert_params, LuaSerializer};
use libsql_nvim::value::{is_finite_bits, to_dynamic, to_typed, DynamicValue, TypedValue,
    ValueKind};

#[test]
fn nil_maps_to_null() {
    assert_eq!(to_typed(DynamicValue::Nil), Ok(TypedValue::Null));
}

#[test]
fn integer_maps_to_integer() {
    assert_eq!(
        to_typed(DynamicValue::Integer(42)),
        Ok(TypedValue::Integer(42))
    );
}

#[test]
fn float_maps_to_real() {
    let bits = 3.14f64.to_bits();
    assert_eq!(to_typed(DynamicValue::Number(bits)), Ok(TypedValue::Real(bits)));
}

#[test]
fn string_maps_to_text() {
    assert_eq!(
        to_typed(DynamicValue::Str(b"hi".to_vec())),
        Ok(TypedValue::Text(b"hi".to_vec()))
    );
}

#[test]
fn booleans_map_to_zero_and_one() {
    assert_eq!(
        to_typed(DynamicValue::Boolean(true)),
        Ok(TypedValue::Integer(1))
    );
    assert_eq!(
        to_typed(DynamicValue::Boolean(false)),
        Ok(TypedValue::Integer(0))
    );
}

#[test]
fn nan_fails_not_finite() {
    let bits = f64::NAN.to_bits();
    assert!(!is_finite_bits(bits));
    assert_eq!(
        to_typed(DynamicValue::Number(bits)),
        Err(ConversionError::NotFinite)
    );
}

#[test]
fn positive_infinity_fails_not_finite() {
    let bits = f64::INFINITY.to_bits();
    assert_eq!(
        to_typed(DynamicValue::Number(bits)),
        Err(ConversionError::NotFinite)
    );
}

#[test]
fn negative_infinity_fails_not_finite() {
    let bits = f64::NEG_INFINITY.to_bits();
    assert_eq!(
        to_typed(DynamicValue::Number(bits)),
        Err(ConversionError::NotFinite)
    );
}

#[test]
fn finite_extremes_convert() {
    for f in [0.0f64, -0.0, f64::MAX, f64::MIN, f64::MIN_POSITIVE] {
        let bits = f.to_bits();
        assert_eq!(to_typed(DynamicValue::Number(bits)), Ok(TypedValue::Real(bits)));
    }
}

#[test]
fn unsupported_kinds_carry_their_kind() {
    assert_eq!(
        to_typed(DynamicValue::Table),
        Err(ConversionError::UnsupportedType { kind: ValueKind::Table })
    );
    assert_eq!(
        to_typed(DynamicValue::Function),
        Err(ConversionError::UnsupportedType { kind: ValueKind::Function })
    );
    assert_eq!(
        to_typed(DynamicValue::LightUserData),
        Err(ConversionError::UnsupportedType { kind: ValueKind::LightUserData })
    );
    assert_eq!(
        to_typed(DynamicValue::Thread),
        Err(ConversionError::UnsupportedType { kind: ValueKind::Thread })
    );
    assert_eq!(
        to_typed(DynamicValue::UserData),
        Err(ConversionError::UnsupportedType { kind: ValueKind::UserData })
    );
    assert_eq!(
        to_typed(DynamicValue::ErrorObject),
        Err(ConversionError::UnsupportedType { kind: ValueKind::ErrorObject })
    );
}

#[test]
fn invalid_utf8_string_fails_encoding() {
    assert_eq!(
        to_typed(DynamicValue::Str(vec![0xff, 0x61])),
        Err(ConversionError::InvalidEncoding)
    );
}

#[test]
fn utf8_accepts_multibyte() {
    assert!(check_utf8(&"héllo".as_bytes().to_vec()));
    assert!(check_utf8(&"日本語".as_bytes().to_vec()));
    assert!(check_utf8(&"🦀".as_bytes().to_vec()));
    assert!(check_utf8(&Vec::new()));
    // boundary scalars: U+0080, U+D7FF, U+E000, U+10FFFF
    assert!(check_utf8(&vec![0xc2, 0x80]));
    assert!(check_utf8(&vec![0xed, 0x9f, 0xbf]));
    assert!(check_utf8(&vec![0xee, 0x80, 0x80]));
    assert!(check_utf8(&vec![0xf4, 0x8f, 0xbf, 0xbf]));
}

#[test]
fn utf8_rejects_malformed() {
    // lone continuation byte
    assert!(!check_utf8(&vec![0x80]));
    // overlong encoding of '/'
    assert!(!check_utf8(&vec![0xc0, 0xaf]));
    // encoded surrogate
    assert!(!check_utf8(&vec![0xed, 0xa0, 0x80]));
    // truncated multibyte sequence
    assert!(!check_utf8(&vec![0xe2, 0x82]));
    // above U+10FFFF
    assert!(!check_utf8(&vec![0xf4, 0x90, 0x80, 0x80]));
    // invalid leading byte
    assert!(!check_utf8(&vec![0xf8, 0x80, 0x80, 0x80, 0x80]));
}

#[test]
fn blob_has_no_host_representation() {
    assert_eq!(
        to_dynamic(TypedValue::Blob(vec![1, 2, 3])),
        Err(ConversionError::UnsupportedType { kind: ValueKind::Blob })
    );
}

#[test]
fn read_path_maps_back() {
    assert_eq!(to_dynamic(TypedValue::Null), Ok(DynamicValue::Nil));
    assert_eq!(to_dynamic(TypedValue::Integer(5)), Ok(DynamicValue::Integer(5)));
    let bits = 2.5f64.to_bits();
    assert_eq!(to_dynamic(TypedValue::Real(bits)), Ok(DynamicValue::Number(bits)));
    assert_eq!(
        to_dynamic(TypedValue::Text(b"ok".to_vec())),
        Ok(DynamicValue::Str(b"ok".to_vec()))
    );
}

#[test]
fn serializer_wraps_one_value() {
    let s = LuaSerializer::new(DynamicValue::Integer(9));
    assert_eq!(s.into_sql(), Ok(TypedValue::Integer(9)));
    let bad = LuaSerializer::new(DynamicValue::Table);
    assert_eq!(
        bad.into_sql(),
        Err(ConversionError::UnsupportedType { kind: ValueKind::Table })
    );
}

#[test]
fn param_conversion_preserves_order_and_length() {
    let params = vec![
        DynamicValue::Integer(1),
        DynamicValue::Str(b"a".to_vec()),
        DynamicValue::Boolean(true),
        DynamicValue::Nil,
    ];
    let out = convert_params(params).unwrap();
    assert_eq!(
        out,
        vec![
            TypedValue::Integer(1),
            TypedValue::Text(b"a".to_vec()),
            TypedValue::Integer(1),
            TypedValue::Null,
        ]
    );
}

#[test]
fn param_conversion_fails_fast_at_first_bad_entry() {
    let params = vec![
        DynamicValue::Integer(1),
        DynamicValue::Str(b"a".to_vec()),
        DynamicValue::Boolean(true),
        DynamicValue::Table,
        DynamicValue::Thread,
    ];
    assert_eq!(
        convert_params(params),
        Err(ConversionError::UnsupportedType { kind: ValueKind::Table })
    );
}

#[test]
fn bad_parameter_spawns_no_worker() {
    let mut ledger = WorkerLedger::new();
    let params = vec![
        DynamicValue::Integer(1),
        DynamicValue::Str(b"a".to_vec()),
        DynamicValue::Boolean(true),
        DynamicValue::Table,
    ];
    let r = ledger.register_call(true, params);
    assert_eq!(
        r,
        Err(RegisterError::Conversion(ConversionError::UnsupportedType {
            kind: ValueKind::Table,
        }))
    );
    assert_eq!(ledger.spawned, 0);

    let ok = ledger.register_call(true, vec![DynamicValue::Integer(1)]);
    assert_eq!(ok, Ok(vec![TypedValue::Integer(1)]));
    assert_eq!(ledger.spawned, 1);
}

#[test]
fn conversion_error_messages() {
    let e = ConversionError::UnsupportedType { kind: ValueKind::Table };
    assert_eq!(e.message(), "table is not supported as a parameter");
    assert_eq!(
        ConversionError::InvalidEncoding.message(),
        "string is not valid utf-8"
    );
    assert_eq!(ConversionError::NotFinite.message(), "number is not finite");
    assert_eq!(ValueKind::LightUserData.name(), "light userdata");
}
