//! Field presence policy: every optional field has a default value, is
//! omitted from the wire form when it equals that default, and is filled
//! with the default when it is absent from the wire form. Implemented once
//! here and consumed by every message struct.

use vstd::prelude::*;

verus! {

/// Default value for optional boolean flags: absent means `false`.
pub fn default_false() -> (r: bool)
    ensures
        r == false,
{
    false
}

/// Encode-side omission test for boolean flags: a flag equal to its default
/// (`false`) is left off the wire.
pub fn is_false(x: &bool) -> (r: bool)
    ensures
        r == !*x,
{
    !*x
}

/// Encode-side omission test for optional sequences: an absent sequence and
/// an empty one are wire-equivalent, so both are left off the wire.
pub fn is_none_or_empty<T>(vec: &Option<Vec<T>>) -> (r: bool)
    ensures
        r == spec_none_or_empty(*vec),
{
    if let Some(v) = vec {
        v.len() == 0
    } else {
        true
    }
}

/// An optional sequence counts as default when it is absent or empty.
pub open spec fn spec_none_or_empty<T>(vec: Option<Vec<T>>) -> bool {
    match vec {
        Some(v) => v@.len() == 0,
        None => true,
    }
}

// ---------------------------------------------------------------------------
// The policy itself: one encode/decode pair per field kind
// ---------------------------------------------------------------------------
/// Encode side for sequence fields: a sequence equal to its default (empty)
/// is omitted from the wire form.
pub open spec fn spec_seq_field_to_wire<T>(v: Seq<T>) -> Option<Seq<T>> {
    if v.len() == 0 {
        None
    } else {
        Some(v)
    }
}

/// Decode side for sequence fields: a wire-absent sequence is filled with
/// its default (empty).
pub open spec fn spec_seq_field_from_wire<T>(w: Option<Seq<T>>) -> Seq<T> {
    match w {
        Some(v) => v,
        None => Seq::empty(),
    }
}

/// Omits a sequence field from the wire form when it equals its default.
pub fn seq_field_to_wire<T>(v: Vec<T>) -> (r: Option<Vec<T>>)
    ensures
        match r {
            Some(out) => out@ == spec_seq_field_to_wire(v@)->0 && v@.len() > 0,
            None => spec_seq_field_to_wire(v@) is None,
        },
{
    if v.len() == 0 {
        None
    } else {
        Some(v)
    }
}

/// Fills a sequence field with its default when it is wire-absent.
pub fn seq_field_from_wire<T>(w: Option<Vec<T>>) -> (r: Vec<T>)
    ensures
        r@ == spec_seq_field_from_wire(match w {
            Some(v) => Some(v@),
            None => None,
        }),
{
    match w {
        Some(v) => v,
        None => Vec::new(),
    }
}

/// Encode side for boolean flags: a flag equal to its default (`false`) is
/// omitted; a set flag goes out as its numeric wire code.
pub open spec fn spec_bool_field_to_wire(b: bool) -> Option<u8> {
    if b {
        Some(1)
    } else {
        None
    }
}

/// Decode side for boolean flags in the strict path: a wire-absent flag is
/// its default (`false`); 0 and 1 decode to false and true; any other code
/// is an invalid boolean code, never silently defaulted.
pub open spec fn spec_bool_field_from_wire(w: Option<u64>) -> Result<
    bool,
    crate::error::DecodeError,
> {
    match w {
        None => Ok(false),
        Some(c) => crate::scalar::spec_decode_bool_strict(crate::scalar::WireScalar::Unsigned(c)),
    }
}

/// Omits a boolean flag from the wire form when it equals its default.
pub fn bool_field_to_wire(b: bool) -> (r: Option<u8>)
    ensures
        r == spec_bool_field_to_wire(b),
{
    if b {
        Some(1)
    } else {
        None
    }
}

/// Fills a boolean flag with its default when it is wire-absent, and
/// decodes it strictly when present.
pub fn bool_field_from_wire(w: Option<u64>) -> (r: Result<bool, crate::error::DecodeError>)
    ensures
        r == spec_bool_field_from_wire(w),
{
    match w {
        None => Ok(false),
        Some(c) => crate::scalar::decode_bool_strict(&crate::scalar::WireScalar::Unsigned(c)),
    }
}

// ---------------------------------------------------------------------------
// Laws
// ---------------------------------------------------------------------------
/// Round trip for sequence fields: omitting an empty sequence and filling
/// an absent one are inverse, so encoding then decoding any sequence field
/// preserves its value. Each field's policy is its own: the statement holds
/// of a field regardless of any sibling field.
pub proof fn lemma_seq_presence_round_trip<T>(v: Seq<T>)
    ensures
        spec_seq_field_from_wire(spec_seq_field_to_wire(v)) =~= v,
{
}

/// Round trip for boolean flags: a flag comes back from its wire form
/// unchanged, whether it was omitted as default or sent as a code.
pub proof fn lemma_bool_presence_round_trip(b: bool)
    ensures
        spec_bool_field_from_wire(match spec_bool_field_to_wire(b) {
            Some(c) => Some(c as u64),
            None => None,
        }) == Ok::<bool, crate::error::DecodeError>(b),
{
}

} // verus!
