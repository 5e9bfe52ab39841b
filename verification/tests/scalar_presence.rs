use openrtb::error::DecodeError;
use openrtb::presence::bool_field_from_wire;
use openrtb::presence::bool_field_to_wire;
use openrtb::presence::default_false;
use openrtb::presence::is_false;
use openrtb::presence::is_none_or_empty;
use openrtb::presence::seq_field_from_wire;
use openrtb::presence::seq_field_to_wire;
use openrtb::scalar::bool_wire_code;
use openrtb::scalar::coerce_to_string;
use openrtb::scalar::decode_bool_strict;
use openrtb::scalar::decode_bool_tristate;
use openrtb::scalar::signed_to_text;
use openrtb::scalar::unsigned_to_text;
use openrtb::scalar::WireScalar;

#[test]
fn strict_bool_codes() {
    assert_eq!(decode_bool_strict(&WireScalar::Unsigned(0)), Ok(false));
    assert_eq!(decode_bool_strict(&WireScalar::Unsigned(1)), Ok(true));
    assert_eq!(
        decode_bool_strict(&WireScalar::Unsigned(2)),
        Err(DecodeError::InvalidBooleanCode { code: 2 })
    );
    assert_eq!(
        decode_bool_strict(&WireScalar::Unsigned(u64::MAX)),
        Err(DecodeError::InvalidBooleanCode { code: u64::MAX })
    );
}

#[test]
fn strict_bool_accepts_literal_booleans() {
    assert_eq!(decode_bool_strict(&WireScalar::Boolean(true)), Ok(true));
    assert_eq!(decode_bool_strict(&WireScalar::Boolean(false)), Ok(false));
}

#[test]
fn strict_bool_rejects_other_shapes() {
    assert_eq!(
        decode_bool_strict(&WireScalar::Text("true".to_string())),
        Err(DecodeError::InvalidScalarShape)
    );
    assert_eq!(
        decode_bool_strict(&WireScalar::Signed(-1)),
        Err(DecodeError::InvalidScalarShape)
    );
    assert_eq!(
        decode_bool_strict(&WireScalar::Character('1')),
        Err(DecodeError::InvalidScalarShape)
    );
}

#[test]
fn tristate_bool_codes() {
    assert_eq!(decode_bool_tristate(&WireScalar::Unsigned(0)), Some(false));
    assert_eq!(decode_bool_tristate(&WireScalar::Unsigned(1)), Some(true));
    assert_eq!(decode_bool_tristate(&WireScalar::Unsigned(2)), None);
    assert_eq!(decode_bool_tristate(&WireScalar::Boolean(true)), Some(true));
    assert_eq!(decode_bool_tristate(&WireScalar::Signed(-3)), None);
}

#[test]
fn bool_encodes_as_zero_or_one() {
    assert_eq!(bool_wire_code(false), 0);
    assert_eq!(bool_wire_code(true), 1);
    for b in [false, true] {
        let code = bool_wire_code(b);
        assert_eq!(decode_bool_strict(&WireScalar::Unsigned(code as u64)), Ok(b));
        assert_eq!(decode_bool_tristate(&WireScalar::Unsigned(code as u64)), Some(b));
    }
}

#[test]
fn decimal_text_exact() {
    assert_eq!(unsigned_to_text(0), "0");
    assert_eq!(unsigned_to_text(7), "7");
    assert_eq!(unsigned_to_text(10), "10");
    assert_eq!(unsigned_to_text(409), "409");
    assert_eq!(unsigned_to_text(u64::MAX), "18446744073709551615");

    assert_eq!(signed_to_text(0), "0");
    assert_eq!(signed_to_text(42), "42");
    assert_eq!(signed_to_text(-1), "-1");
    assert_eq!(signed_to_text(-409), "-409");
    assert_eq!(signed_to_text(i64::MIN), "-9223372036854775808");
    assert_eq!(signed_to_text(i64::MAX), "9223372036854775807");
}

#[test]
fn string_coercion_shapes() {
    assert_eq!(coerce_to_string(&WireScalar::Boolean(true)), "true");
    assert_eq!(coerce_to_string(&WireScalar::Boolean(false)), "false");
    assert_eq!(coerce_to_string(&WireScalar::Unsigned(12345)), "12345");
    assert_eq!(coerce_to_string(&WireScalar::Signed(-42)), "-42");
    assert_eq!(coerce_to_string(&WireScalar::Character('x')), "x");
    assert_eq!(coerce_to_string(&WireScalar::Text("already".to_string())), "already");
    assert_eq!(coerce_to_string(&WireScalar::Text(String::new())), "");
}

#[test]
fn presence_defaults() {
    assert_eq!(default_false(), false);
    assert_eq!(is_false(&false), true);
    assert_eq!(is_false(&true), false);

    let none: Option<Vec<u32>> = None;
    assert!(is_none_or_empty(&none));
    assert!(is_none_or_empty(&Some(Vec::<u32>::new())));
    assert!(!is_none_or_empty(&Some(vec![1u32])));
}

#[test]
fn empty_sequence_field_is_wire_absent() {
    let empty: Vec<String> = Vec::new();
    assert_eq!(seq_field_to_wire(empty), None);

    let full = vec!["USD".to_string()];
    assert_eq!(seq_field_to_wire(full.clone()), Some(full));
}

#[test]
fn absent_sequence_field_decodes_empty() {
    let absent: Option<Vec<String>> = None;
    assert_eq!(seq_field_from_wire(absent), Vec::<String>::new());

    let present = Some(vec![1u32, 2, 3]);
    assert_eq!(seq_field_from_wire(present), vec![1u32, 2, 3]);
}

#[test]
fn sequence_presence_round_trip() {
    let values: Vec<Vec<u32>> = vec![vec![], vec![5], vec![1, 2, 3]];
    for v in values {
        assert_eq!(seq_field_from_wire(seq_field_to_wire(v.clone())), v);
    }
}

#[test]
fn bool_flag_presence() {
    assert_eq!(bool_field_to_wire(false), None);
    assert_eq!(bool_field_to_wire(true), Some(1));

    assert_eq!(bool_field_from_wire(None), Ok(false));
    assert_eq!(bool_field_from_wire(Some(0)), Ok(false));
    assert_eq!(bool_field_from_wire(Some(1)), Ok(true));
    assert_eq!(bool_field_from_wire(Some(7)), Err(DecodeError::InvalidBooleanCode { code: 7 }));

    for b in [false, true] {
        let wire = bool_field_to_wire(b).map(|c| c as u64);
        assert_eq!(bool_field_from_wire(wire), Ok(b));
    }
}
