//! 3.2.2 Object: Source
//!
//! Data about the inventory source and which entity makes the final
//! decision.

use vstd::prelude::*;

use crate::ext::Ext;

verus! {

/// The inventory source of a bid request. Every field is optional and is
/// omitted from the wire form when absent.
#[derive(Debug)]
pub struct Source {
    /// Entity responsible for the final impression sale decision, where
    /// 0 = exchange, 1 = upstream source.
    fd: Option<u8>,

    /// Transaction ID common across all participants in this bid request.
    tid: Option<String>,

    /// Payment ID chain string containing embedded syntax described in the
    /// TAG Payment ID Protocol.
    pchain: Option<String>,

    /// Placeholder for exchange-specific extensions to OpenRTB.
    ext: Option<Ext>,
}

} // verus!
