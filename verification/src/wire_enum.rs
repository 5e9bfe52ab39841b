//! Enumeration codec: a generic bidirectional mapping between a finite
//! enumeration and its fixed numeric wire code. Each concrete enumeration
//! supplies only its (variant, code) table by implementing [`WireEnum`]; the
//! encode and decode mechanics, and their laws, are stated once here.

use vstd::prelude::*;

use crate::error::DecodeError;

verus! {

/// A closed set of variants, each paired 1:1 with a fixed numeric wire
/// code. The mapping is a bijection over the declared variant set: every
/// variant has exactly one code and every declared code maps back to
/// exactly one variant; codes outside the declared set are illegal for the
/// type. The table is fixed at build time and never mutated.
pub trait WireEnum: Sized {
    /// The wire code declared for this variant.
    spec fn spec_code(&self) -> u64;

    /// The declared decode table: the variant a code maps to, or `None`
    /// for a code outside the declared set.
    spec fn spec_from_code(code: u64) -> Option<Self>;

    /// The enumeration's name, used to tag decode failures.
    spec fn spec_name() -> Seq<char>;

    /// Every variant's code maps back to that variant: the table misses no
    /// variant and assigns no code twice.
    proof fn lemma_code_in_table(&self)
        ensures
            Self::spec_from_code(self.spec_code()) == Some(*self),
    ;

    /// Every declared code maps to a variant carrying exactly that code.
    proof fn lemma_table_consistent(code: u64)
        ensures
            match Self::spec_from_code(code) {
                Some(v) => v.spec_code() == code,
                None => true,
            },
    ;

    /// Encodes the variant as its wire code. Total: every variant has a
    /// code by construction.
    fn wire_code(&self) -> (c: u64)
        ensures
            c == self.spec_code(),
    ;

    /// Looks the code up in the declared table.
    fn from_wire_code(code: u64) -> (r: Option<Self>)
        ensures
            r == Self::spec_from_code(code),
    ;

    /// The enumeration's name.
    fn name() -> (s: String)
        ensures
            s@ == Self::spec_name(),
    ;
}

/// Encodes a variant of any declared enumeration as its numeric wire code.
/// Total, always succeeds.
pub fn encode_enum<E: WireEnum>(v: &E) -> (c: u64)
    ensures
        c == v.spec_code(),
        E::spec_from_code(c) == Some(*v),
{
    proof {
        v.lemma_code_in_table();
    }
    v.wire_code()
}

/// Decodes a numeric wire code against a declared enumeration's table.
/// Fails deterministically for any code not in the table; the error carries
/// the offending code and the type's name, to localize failures in nested
/// messages.
pub fn decode_enum<E: WireEnum>(code: u64) -> (r: Result<E, DecodeError>)
    ensures
        match r {
            Ok(v) => E::spec_from_code(code) == Some(v) && v.spec_code() == code,
            Err(e) => E::spec_from_code(code) is None && (e matches DecodeError::UnknownEnumerationCode {
                enum_name,
                code: offending,
            } && enum_name@ == E::spec_name() && offending == code),
        },
{
    proof {
        E::lemma_table_consistent(code);
    }
    match E::from_wire_code(code) {
        Some(v) => Ok(v),
        None => Err(DecodeError::UnknownEnumerationCode { enum_name: E::name(), code }),
    }
}

/// Decoding a variant's own wire code gives the variant back, for every
/// variant of every declared enumeration.
pub proof fn lemma_enum_round_trip<E: WireEnum>(v: E)
    ensures
        E::spec_from_code(v.spec_code()) == Some(v),
{
    v.lemma_code_in_table();
}

/// Encoding whatever a declared code decodes to gives the code back, for
/// every declared code of every declared enumeration.
pub proof fn lemma_enum_code_round_trip<E: WireEnum>(code: u64)
    requires
        E::spec_from_code(code) is Some,
    ensures
        E::spec_from_code(code)->0.spec_code() == code,
{
    E::lemma_table_consistent(code);
}

} // verus!
