//! Typed decode failures. Strict coercion failures are never silently
//! defaulted: they propagate to the caller, so a message containing one
//! invalid enumeration code fails to decode as a whole.

use vstd::prelude::*;
use vstd::string::*;

verus! {

/// A value-level decode failure.
#[derive(Debug, Clone, PartialEq)]
pub enum DecodeError {
    /// A strict enumeration decode saw a code outside the declared table.
    /// Carries the offending code and the enumeration's name, to localize
    /// failures in nested messages.
    UnknownEnumerationCode { enum_name: String, code: u64 },
    /// A strict boolean coercion saw an integer other than 0 or 1.
    InvalidBooleanCode { code: u64 },
    /// A scalar coercion received a wire shape it cannot interpret.
    InvalidScalarShape,
}

impl DecodeError {
    /// The descriptive text of each failure, naming the offending value.
    pub open spec fn spec_message(self) -> Seq<char> {
        match self {
            DecodeError::UnknownEnumerationCode { enum_name, code } => enum_name@
                + " has no variant with value "@ + crate::scalar::spec_decimal(code as nat),
            DecodeError::InvalidBooleanCode { code } => "a bool value must be 0 or 1: "@
                + crate::scalar::spec_decimal(code as nat),
            DecodeError::InvalidScalarShape => "a scalar arrived in an uninterpretable wire shape"@,
        }
    }

    /// A descriptive, user-visible text for the failure.
    pub fn message(&self) -> (r: String)
        ensures
            r@ == self.spec_message(),
    {
        match self {
            DecodeError::UnknownEnumerationCode { enum_name, code } => {
                let mut out = enum_name.clone();
                out.append(" has no variant with value ");
                crate::scalar::push_decimal(&mut out, *code);
                out
            },
            DecodeError::InvalidBooleanCode { code } => {
                let mut out = String::from_str("a bool value must be 0 or 1: ");
                crate::scalar::push_decimal(&mut out, *code);
                out
            },
            DecodeError::InvalidScalarShape => {
                String::from_str("a scalar arrived in an uninterpretable wire shape")
            },
        }
    }
}

} // verus!
