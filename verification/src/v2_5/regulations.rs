//! 3.2.3 Object: Regs
//!
//! Any legal, governmental, or industry regulations that apply to the
//! request.

use vstd::prelude::*;

use crate::ext::Ext;

verus! {

/// Regulations in force for a bid request.
#[derive(Debug, Clone, PartialEq)]
pub struct Regulations {
    /// Flag indicating if this request is subject to the COPPA regulations
    /// established by the USA FTC, where 0 = no, 1 = yes. Omitted from the
    /// wire form when false.
    pub coppa: bool,

    /// Placeholder for exchange-specific extensions to OpenRTB.
    pub ext: Option<Ext>,
}

} // verus!
