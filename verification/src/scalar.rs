//! Scalar coercion: wire scalars that may arrive in more than one shape
//! (booleans as the integers 0/1 or as literal booleans; identifier fields
//! as numbers where a string is expected) are normalized to one canonical
//! in-memory type.
//!
//! Out-of-range boolean codes are handled by two deliberately distinct
//! paths: the strict path, for required flags, rejects them as typed decode
//! errors, and the tri-state path, for optional flags, coerces them to
//! "absent". Nothing else is ever silently defaulted.

use vstd::prelude::*;
use vstd::string::*;

use crate::error::DecodeError;

verus! {

/// The shapes a scalar may take on the wire.
#[derive(Debug, Clone, PartialEq)]
pub enum WireScalar {
    Boolean(bool),
    Unsigned(u64),
    Signed(i64),
    Character(char),
    Text(String),
}

// ---------------------------------------------------------------------------
// Decimal text
// ---------------------------------------------------------------------------

/// The decimal digit for a value below ten.
pub open spec fn digit_char(d: nat) -> char
    recommends
        d < 10,
{
    if d == 0 {
        '0'
    } else if d == 1 {
        '1'
    } else if d == 2 {
        '2'
    } else if d == 3 {
        '3'
    } else if d == 4 {
        '4'
    } else if d == 5 {
        '5'
    } else if d == 6 {
        '6'
    } else if d == 7 {
        '7'
    } else if d == 8 {
        '8'
    } else {
        '9'
    }
}

/// The value of a decimal digit; ten for any character that is not one.
pub open spec fn digit_val(c: char) -> nat {
    if c == '0' {
        0
    } else if c == '1' {
        1
    } else if c == '2' {
        2
    } else if c == '3' {
        3
    } else if c == '4' {
        4
    } else if c == '5' {
        5
    } else if c == '6' {
        6
    } else if c == '7' {
        7
    } else if c == '8' {
        8
    } else if c == '9' {
        9
    } else {
        10
    }
}

pub open spec fn is_digit(c: char) -> bool {
    digit_val(c) < 10
}

/// The canonical decimal numeral of a natural number: no sign, no leading
/// zeros (a single zero digit for zero itself).
pub open spec fn spec_decimal(v: nat) -> Seq<char>
    decreases v,
{
    if v < 10 {
        seq![digit_char(v)]
    } else {
        spec_decimal(v / 10).push(digit_char(v % 10))
    }
}

/// The canonical decimal numeral of an integer: a leading minus sign for
/// negative values.
pub open spec fn spec_decimal_signed(v: int) -> Seq<char> {
    if v < 0 {
        seq!['-'] + spec_decimal((-v) as nat)
    } else {
        spec_decimal(v as nat)
    }
}

/// Digit characters and digit values are inverse to each other.
pub proof fn lemma_digit_char_val(d: nat)
    requires
        d < 10,
    ensures
        digit_val(digit_char(d)) == d,
        is_digit(digit_char(d)),
{
}

/// A digit character is recovered from its value.
pub proof fn lemma_digit_val_char(c: char)
    requires
        is_digit(c),
    ensures
        digit_char(digit_val(c)) == c,
{
}

/// The numeral of a two-digit value spelled out.
pub proof fn lemma_decimal_two_digits(v: nat)
    requires
        10 <= v < 100,
    ensures
        spec_decimal(v) =~= seq![digit_char(v / 10), digit_char(v % 10)],
{
    assert(spec_decimal(v / 10) =~= seq![digit_char(v / 10)]);
}

/// A numeral's length reflects its magnitude: one digit below ten, two
/// digits below one hundred, three or more digits from one hundred on.
pub proof fn lemma_decimal_len(v: nat)
    ensures
        v < 10 ==> spec_decimal(v).len() == 1,
        10 <= v < 100 ==> spec_decimal(v).len() == 2,
        v >= 100 ==> spec_decimal(v).len() >= 3,
{
    if 10 <= v < 100 {
        assert(spec_decimal(v / 10).len() == 1);
    }
    if v >= 100 {
        assert(spec_decimal(v / 10).len() == spec_decimal(v / 100).len() + 1);
    }
}

/// The digit string of a value below ten.
fn digit_str(d: u64) -> (r: &'static str)
    requires
        d < 10,
    ensures
        r@ =~= seq![digit_char(d as nat)],
{
    proof {
        reveal_strlit("0");
        reveal_strlit("1");
        reveal_strlit("2");
        reveal_strlit("3");
        reveal_strlit("4");
        reveal_strlit("5");
        reveal_strlit("6");
        reveal_strlit("7");
        reveal_strlit("8");
        reveal_strlit("9");
    }
    if d == 0 {
        "0"
    } else if d == 1 {
        "1"
    } else if d == 2 {
        "2"
    } else if d == 3 {
        "3"
    } else if d == 4 {
        "4"
    } else if d == 5 {
        "5"
    } else if d == 6 {
        "6"
    } else if d == 7 {
        "7"
    } else if d == 8 {
        "8"
    } else {
        "9"
    }
}

/// Appends the canonical decimal numeral of `v` to `out`.
pub fn push_decimal(out: &mut String, v: u64)
    ensures
        final(out)@ == old(out)@ + spec_decimal(v as nat),
    decreases v,
{
    if v >= 10 {
        push_decimal(out, v / 10);
    }
    out.append(digit_str(v % 10));
    proof {
        assert(final(out)@ =~= old(out)@ + spec_decimal(v as nat));
    }
}

/// The canonical decimal text of an unsigned integer.
pub fn unsigned_to_text(v: u64) -> (r: String)
    ensures
        r@ == spec_decimal(v as nat),
{
    let mut out = String::new();
    push_decimal(&mut out, v);
    proof {
        assert(out@ =~= spec_decimal(v as nat));
    }
    out
}

/// The canonical decimal text of a signed integer.
pub fn signed_to_text(v: i64) -> (r: String)
    ensures
        r@ == spec_decimal_signed(v as int),
{
    if v >= 0 {
        unsigned_to_text(v as u64)
    } else {
        let mut out = String::from_str("-");
        proof {
            reveal_strlit("-");
            assert(out@ =~= seq!['-']);
        }
        let magnitude: u64 = (-(v as i128)) as u64;
        push_decimal(&mut out, magnitude);
        out
    }
}

// ---------------------------------------------------------------------------
// String coercion
// ---------------------------------------------------------------------------

/// Relies on String::push: appends the given character to the end of the
/// string.
#[verifier::external_body]
fn string_push(s: &mut String, c: char)
    ensures
        final(s)@ == old(s)@.push(c),
{
    s.push(c);
}

/// The canonical textual form of each wire shape: integers as decimal
/// numerals, booleans spelled out, characters and strings verbatim.
pub open spec fn spec_canonical_text(w: WireScalar) -> Seq<char> {
    match w {
        WireScalar::Boolean(b) => if b {
            "true"@
        } else {
            "false"@
        },
        WireScalar::Unsigned(v) => spec_decimal(v as nat),
        WireScalar::Signed(v) => spec_decimal_signed(v as int),
        WireScalar::Character(c) => seq![c],
        WireScalar::Text(s) => s@,
    }
}

/// Normalizes any wire shape to its canonical textual form. Total: string
/// coercion never fails. This exists because some wire producers send
/// identifier fields as raw numbers where a string is expected.
pub fn coerce_to_string(w: &WireScalar) -> (r: String)
    ensures
        r@ == spec_canonical_text(*w),
{
    match w {
        WireScalar::Boolean(b) => {
            if *b {
                String::from_str("true")
            } else {
                String::from_str("false")
            }
        },
        WireScalar::Unsigned(v) => unsigned_to_text(*v),
        WireScalar::Signed(v) => signed_to_text(*v),
        WireScalar::Character(c) => {
            let mut out = String::new();
            string_push(&mut out, *c);
            proof {
                assert(out@ =~= seq![*c]);
            }
            out
        },
        WireScalar::Text(s) => s.clone(),
    }
}

// ---------------------------------------------------------------------------
// Boolean coercion
// ---------------------------------------------------------------------------

/// The wire code of a boolean: 0 for false, 1 for true. Booleans are never
/// serialized as literal JSON booleans.
pub open spec fn spec_bool_code(x: bool) -> u8 {
    if x {
        1
    } else {
        0
    }
}

/// Encodes a boolean as its numeric wire code.
pub fn bool_wire_code(x: bool) -> (r: u8)
    ensures
        r == spec_bool_code(x),
{
    if x {
        1
    } else {
        0
    }
}

/// Strict boolean decoding: literal booleans pass through, the integers 0
/// and 1 map to false and true, any other integer is an invalid boolean
/// code, and any other shape cannot be interpreted.
pub open spec fn spec_decode_bool_strict(w: WireScalar) -> Result<bool, DecodeError> {
    match w {
        WireScalar::Boolean(b) => Ok(b),
        WireScalar::Unsigned(c) => if c == 0 {
            Ok(false)
        } else if c == 1 {
            Ok(true)
        } else {
            Err(DecodeError::InvalidBooleanCode { code: c })
        },
        _ => Err(DecodeError::InvalidScalarShape),
    }
}

/// Decodes a boolean in the strict path: failures propagate as typed decode
/// errors and are never silently defaulted.
pub fn decode_bool_strict(w: &WireScalar) -> (r: Result<bool, DecodeError>)
    ensures
        r == spec_decode_bool_strict(*w),
{
    match w {
        WireScalar::Boolean(b) => Ok(*b),
        WireScalar::Unsigned(c) => {
            if *c == 0 {
                Ok(false)
            } else if *c == 1 {
                Ok(true)
            } else {
                Err(DecodeError::InvalidBooleanCode { code: *c })
            }
        },
        _ => Err(DecodeError::InvalidScalarShape),
    }
}

/// Tri-state boolean decoding, used for optional booleans: whatever the
/// strict path rejects becomes "absent" instead of an error.
pub open spec fn spec_decode_bool_tristate(w: WireScalar) -> Option<bool> {
    match spec_decode_bool_strict(w) {
        Ok(b) => Some(b),
        Err(_) => None,
    }
}

/// Decodes a boolean in the tri-state path. Total: never fails.
pub fn decode_bool_tristate(w: &WireScalar) -> (r: Option<bool>)
    ensures
        r == spec_decode_bool_tristate(*w),
{
    match decode_bool_strict(w) {
        Ok(b) => Some(b),
        Err(_) => None,
    }
}

/// A boolean's wire code always decodes back to the same boolean, in both
/// the strict and the tri-state path.
pub proof fn lemma_bool_code_round_trip(x: bool)
    ensures
        spec_decode_bool_strict(WireScalar::Unsigned(spec_bool_code(x) as u64)) == Ok::<
            bool,
            DecodeError,
        >(x),
        spec_decode_bool_tristate(WireScalar::Unsigned(spec_bool_code(x) as u64)) == Some(x),
{
}

} // verus!
