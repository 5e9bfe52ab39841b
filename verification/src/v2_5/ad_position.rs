//! 5.4 Ad Position: where on the page or screen an impression is rendered.

use vstd::prelude::*;
use vstd::string::*;

use crate::wire_enum::WireEnum;

verus! {

/// Ad position on the page or screen, with its declared numeric wire codes.
#[derive(Clone, Debug, PartialEq, Eq, Structural)]
pub enum AdPosition {
    Unknown,
    AboveTheFold,
    Deprecated,
    BelowTheFold,
    Header,
    Footer,
    Sidebar,
    FullScreen,
}

impl WireEnum for AdPosition {
    open spec fn spec_code(&self) -> u64 {
        match self {
            AdPosition::Unknown => 0,
            AdPosition::AboveTheFold => 1,
            AdPosition::Deprecated => 2,
            AdPosition::BelowTheFold => 3,
            AdPosition::Header => 4,
            AdPosition::Footer => 5,
            AdPosition::Sidebar => 6,
            AdPosition::FullScreen => 7,
        }
    }

    open spec fn spec_from_code(code: u64) -> Option<AdPosition> {
        if code == 0 {
            Some(AdPosition::Unknown)
        } else if code == 1 {
            Some(AdPosition::AboveTheFold)
        } else if code == 2 {
            Some(AdPosition::Deprecated)
        } else if code == 3 {
            Some(AdPosition::BelowTheFold)
        } else if code == 4 {
            Some(AdPosition::Header)
        } else if code == 5 {
            Some(AdPosition::Footer)
        } else if code == 6 {
            Some(AdPosition::Sidebar)
        } else if code == 7 {
            Some(AdPosition::FullScreen)
        } else {
            None
        }
    }

    open spec fn spec_name() -> Seq<char> {
        "AdPosition"@
    }

    proof fn lemma_code_in_table(&self) {
    }

    proof fn lemma_table_consistent(code: u64) {
    }

    fn wire_code(&self) -> u64 {
        match self {
            AdPosition::Unknown => 0,
            AdPosition::AboveTheFold => 1,
            AdPosition::Deprecated => 2,
            AdPosition::BelowTheFold => 3,
            AdPosition::Header => 4,
            AdPosition::Footer => 5,
            AdPosition::Sidebar => 6,
            AdPosition::FullScreen => 7,
        }
    }

    fn from_wire_code(code: u64) -> Option<AdPosition> {
        if code == 0 {
            Some(AdPosition::Unknown)
        } else if code == 1 {
            Some(AdPosition::AboveTheFold)
        } else if code == 2 {
            Some(AdPosition::Deprecated)
        } else if code == 3 {
            Some(AdPosition::BelowTheFold)
        } else if code == 4 {
            Some(AdPosition::Header)
        } else if code == 5 {
            Some(AdPosition::Footer)
        } else if code == 6 {
            Some(AdPosition::Sidebar)
        } else if code == 7 {
            Some(AdPosition::FullScreen)
        } else {
            None
        }
    }

    fn name() -> String {
        String::from_str("AdPosition")
    }
}

} // verus!
