//! 3.2.9 Object: Native
//!
//! A native type impression, whose ad markup must be structured to match
//! the surrounding content.

use vstd::prelude::*;

use crate::ext::Ext;

verus! {

/// A native impression offer. The request payload complies with the Native
/// Ad Specification and is carried as an opaque string.
#[derive(Debug, Clone, PartialEq)]
pub struct Native {
    /// Request payload complying with the Native Ad Specification.
    pub request: String,

    /// Version of the Native Ad Specification to which request complies.
    pub ver: Option<String>,

    /// List of supported API frameworks for this impression.
    pub api: Vec<u64>,

    /// Blocked creative attributes.
    pub battr: Vec<u64>,

    /// Placeholder for exchange-specific extensions to OpenRTB.
    pub ext: Option<Ext>,
}

} // verus!
