//! 3.2.6 Object: Banner
//!
//! The most general type of impression: a static image, an expandable ad
//! unit, or in-banner video. An array of Banner objects can also appear
//! within the Video to describe optional companion ads. The presence of a
//! Banner as a subordinate of the Imp object indicates that this impression
//! is offered as a banner type impression.

use vstd::prelude::*;

use crate::ext::Ext;
use crate::v2_5::banner_ad_type::BannerAdType;
use crate::v2_5::format::Format;

verus! {

/// A banner impression offer.
#[derive(Debug, Clone, PartialEq)]
pub struct Banner {
    /// Array of format objects representing the banner sizes permitted. If
    /// none are specified, use of the `w` and `h` attributes is highly
    /// recommended.
    pub format: Vec<Format>,

    /// Exact width in device independent pixels (DIPS); recommended if no
    /// format objects are specified.
    pub w: Option<u32>,

    /// Exact height in device independent pixels (DIPS); recommended if no
    /// format objects are specified.
    pub h: Option<u32>,

    /// Blocked banner ad types.
    pub btype: Vec<BannerAdType>,

    /// Placeholder for exchange-specific extensions to OpenRTB.
    pub ext: Option<Ext>,
}

} // verus!
