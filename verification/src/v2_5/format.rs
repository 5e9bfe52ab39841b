//! 3.2.10 Object: Format
//!
//! An allowed size (height and width combination) or Flex Ad parameters for a
//! banner impression, typically used in an array where multiple sizes are
//! permitted.

use vstd::prelude::*;

use crate::ext::Ext;

verus! {

/// An allowed banner size, either exact (`w`/`h`) or as a ratio
/// (`w_ratio`/`h_ratio`/`w_min`). Every field is optional and is omitted
/// from the wire form when absent.
#[derive(Debug, Clone, PartialEq)]
pub struct Format {
    /// Width in device independent pixels (DIPS).
    pub w: Option<u32>,

    /// Height in device independent pixels (DIPS).
    pub h: Option<u32>,

    /// Relative width when expressing size as a ratio.
    pub w_ratio: Option<u32>,

    /// Relative height when expressing size as a ratio.
    pub h_ratio: Option<u32>,

    /// The minimum width in device independent pixels (DIPS) at which the
    /// ad will be displayed when the size is expressed as a ratio.
    pub w_min: Option<u32>,

    /// Placeholder for exchange-specific extensions to OpenRTB.
    pub ext: Option<Ext>,
}

} // verus!
