//! 3.2.7 Object: Video
//!
//! An in-stream video impression.

use vstd::prelude::*;

use crate::ext::Ext;

verus! {

/// An in-stream video impression offer.
#[derive(Debug, Clone, PartialEq)]
pub struct Video {
    /// Content MIME types supported (e.g., "video/x-ms-wmv", "video/mp4").
    pub mimes: Vec<String>,

    /// Minimum video ad duration in seconds.
    pub minduration: Option<u32>,

    /// Maximum video ad duration in seconds.
    pub maxduration: Option<u32>,

    /// Array of supported video protocols.
    pub protocols: Vec<u32>,

    /// Width of the video player in device independent pixels (DIPS).
    pub w: Option<u32>,

    /// Height of the video player in device independent pixels (DIPS).
    pub h: Option<u32>,

    /// Placement type for the impression: 1 = in-stream, 2 = in-banner,
    /// 3 = in-article, 4 = in-feed, 5 = interstitial/slider/floating.
    pub placement: Option<u32>,

    /// Indicates if the impression must be linear, nonlinear, etc.
    pub linearity: Option<u32>,

    /// Blocked creative attributes.
    pub battr: Vec<u64>,

    /// Minimum bit rate in Kbps.
    pub minbitrate: Option<u32>,

    /// Maximum bit rate in Kbps.
    pub maxbitrate: Option<u32>,

    /// Indicates if letter-boxing of 4:3 content into a 16:9 window is
    /// allowed, where 0 = no, 1 = yes.
    pub boxingallowed: Option<u32>,

    /// Playback methods that may be in use. If none are specified, any
    /// method may be used.
    pub playbackmethod: Vec<u32>,

    /// Placeholder for exchange-specific extensions to OpenRTB.
    pub ext: Option<Ext>,
}

} // verus!
