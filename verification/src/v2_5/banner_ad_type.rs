//! 5.2 Banner Ad Types: the types of ads that can be accepted by the
//! exchange (used to block them).

use vstd::prelude::*;
use vstd::string::*;

use crate::wire_enum::WireEnum;

verus! {

/// A banner ad type, with its declared numeric wire codes.
#[derive(Clone, Debug, PartialEq, Eq, Structural)]
pub enum BannerAdType {
    XHTMLText,
    XHTMLBanner,
    JavaScript,
    IFrame,
}

impl WireEnum for BannerAdType {
    open spec fn spec_code(&self) -> u64 {
        match self {
            BannerAdType::XHTMLText => 1,
            BannerAdType::XHTMLBanner => 2,
            BannerAdType::JavaScript => 3,
            BannerAdType::IFrame => 4,
        }
    }

    open spec fn spec_from_code(code: u64) -> Option<BannerAdType> {
        if code == 1 {
            Some(BannerAdType::XHTMLText)
        } else if code == 2 {
            Some(BannerAdType::XHTMLBanner)
        } else if code == 3 {
            Some(BannerAdType::JavaScript)
        } else if code == 4 {
            Some(BannerAdType::IFrame)
        } else {
            None
        }
    }

    open spec fn spec_name() -> Seq<char> {
        "BannerAdType"@
    }

    proof fn lemma_code_in_table(&self) {
    }

    proof fn lemma_table_consistent(code: u64) {
    }

    fn wire_code(&self) -> u64 {
        match self {
            BannerAdType::XHTMLText => 1,
            BannerAdType::XHTMLBanner => 2,
            BannerAdType::JavaScript => 3,
            BannerAdType::IFrame => 4,
        }
    }

    fn from_wire_code(code: u64) -> Option<BannerAdType> {
        if code == 1 {
            Some(BannerAdType::XHTMLText)
        } else if code == 2 {
            Some(BannerAdType::XHTMLBanner)
        } else if code == 3 {
            Some(BannerAdType::JavaScript)
        } else if code == 4 {
            Some(BannerAdType::IFrame)
        } else {
            None
        }
    }

    fn name() -> String {
        String::from_str("BannerAdType")
    }
}

} // verus!
