//! Native Ad Specification 1.2 message objects: the native ad request and
//! its response, as carried inside an OpenRTB impression.

use vstd::prelude::*;

use crate::ext::Ext;

verus! {

/// The native ad request: what assets the ad slot wants.
#[derive(Debug, Clone, PartialEq)]
pub struct Request {
    /// Version of the Native Markup in use.
    pub ver: Option<String>,

    /// The context in which the ad appears.
    pub context: Option<u64>,

    /// A more detailed context in which the ad appears.
    pub context_subtype: Option<u64>,

    /// The design/format/layout of the ad unit being offered.
    pub placement_type: Option<u64>,

    /// The number of identical placements in this layout.
    pub placement_count: Option<u64>,

    /// 0 for the first ad, 1 for the second ad, and so on.
    pub seq: Option<u64>,

    /// The assets the ad slot asks for.
    pub assets: Vec<Asset>,

    /// Whether the supply source / impression supports returning an
    /// assetsurl instead of an asset object.
    pub aurl_support: Option<u64>,

    /// Whether the supply source / impression supports returning a dco url
    /// instead of an asset object.
    pub durl_support: Option<u64>,

    /// Specifies what type of event tracking is supported.
    pub event_trackers: Vec<EventTracker>,

    /// Whether the supply source is required to comply with privacy.
    pub privacy: Option<u64>,

    /// Placeholder for exchange-specific extensions.
    pub ext: Option<Ext>,
}

/// One asset the ad slot asks for: exactly one of title, image, video or
/// data should be present.
#[derive(Debug, Clone, PartialEq)]
pub struct Asset {
    /// Unique asset id, assigned by the exchange.
    pub id: u64,

    /// Whether the asset is required, where 0 = no, 1 = yes.
    pub required: Option<u64>,

    /// A title asset.
    pub title: Option<Title>,

    /// An image asset.
    pub img: Option<Image>,

    /// A video asset.
    pub video: Option<Video>,

    /// A data asset.
    pub data: Option<Data>,

    /// Placeholder for exchange-specific extensions.
    pub ext: Option<Ext>,
}

/// A title asset request.
#[derive(Debug, Clone, PartialEq)]
pub struct Title {
    /// Maximum length of the text in the title element.
    pub len: u64,

    /// Placeholder for exchange-specific extensions.
    pub ext: Option<Ext>,
}

/// An image asset request.
#[derive(Debug, Clone, PartialEq)]
pub struct Image {
    /// Type ID of the image element supported by the publisher.
    pub type_: Option<u64>,

    /// Width of the image in pixels.
    pub w: Option<u64>,

    /// The minimum requested width of the image in pixels.
    pub wmin: Option<u64>,

    /// Height of the image in pixels.
    pub h: Option<u64>,

    /// The minimum requested height of the image in pixels.
    pub hmin: Option<u64>,

    /// Whitelist of content MIME types supported.
    pub mimes: Vec<String>,

    /// Placeholder for exchange-specific extensions.
    pub ext: Option<Ext>,
}

/// A video asset request.
#[derive(Debug, Clone, PartialEq)]
pub struct Video {}

/// A data asset request.
#[derive(Debug, Clone, PartialEq)]
pub struct Data {}

/// An event tracker the ad slot supports.
#[derive(Debug, Clone, PartialEq)]
pub struct EventTracker {
    /// Type of event available for tracking.
    pub event: u64,

    /// Type of tracking available for the given event.
    pub method: u64,

    /// Placeholder for exchange-specific extensions.
    pub ext: Option<Ext>,
}

/// The native ad response: the assets the bidder returns.
#[derive(Debug, Clone, PartialEq)]
pub struct Response {
    /// Version of the Native Markup in use.
    pub ver: Option<String>,

    /// List of native ad's assets.
    pub assets: Vec<AssetResponse>,

    /// URL of an alternate source for the assets object.
    pub assets_url: Option<String>,

    /// URL where a dynamic creative specification may be found.
    pub dcourl: Option<String>,

    /// Destination link: the default link object for the ad.
    pub link: DestinationLink,

    /// Array of impression tracking URLs, expected to return a 1x1 image or
    /// 204 response.
    pub imp_trackers: Vec<String>,

    /// Optional JavaScript impression tracker.
    pub js_tracker: Option<String>,

    /// Array of tracking objects to run with the ad, in response to the
    /// declared supported methods in the request.
    pub event_trackers: Vec<EventTrackerResponse>,

    /// If support was indicated in the request, a URL of the privacy notice.
    pub privacy: Option<u64>,

    /// Placeholder for exchange-specific extensions.
    pub ext: Option<Ext>,
}

/// The default destination link of the native ad.
#[derive(Debug, Clone, PartialEq)]
pub struct DestinationLink {}

/// One returned asset.
#[derive(Debug, Clone, PartialEq)]
pub struct AssetResponse {
    /// Optional if asseturl/dcourl is being used; required if embedded asset
    /// is being used.
    pub id: Option<u64>,

    /// Whether the asset is required, as stated in the request.
    pub required: Option<u64>,

    /// A returned title asset.
    pub title: Option<TitleResponse>,

    /// A returned image asset.
    pub img: Option<ImageResponse>,

    /// A returned video asset.
    pub video: Option<VideoResponse>,

    /// A returned data asset.
    pub data: Option<DataResponse>,

    /// A link object for this asset.
    pub link: Option<LinkResponse>,

    /// Placeholder for exchange-specific extensions.
    pub ext: Option<Ext>,
}

/// A returned title asset.
#[derive(Debug, Clone, PartialEq)]
pub struct TitleResponse {}

/// A returned image asset.
#[derive(Debug, Clone, PartialEq)]
pub struct ImageResponse {
    /// The type of image element being submitted.
    pub type_: Option<u64>,

    /// URL of the image asset.
    pub url: String,

    /// Width of the image in pixels.
    pub w: Option<u64>,

    /// Height of the image in pixels.
    pub h: Option<u64>,

    /// Placeholder for exchange-specific extensions.
    pub ext: Option<Ext>,
}

/// A returned video asset.
#[derive(Debug, Clone, PartialEq)]
pub struct VideoResponse {}

/// A returned data asset.
#[derive(Debug, Clone, PartialEq)]
pub struct DataResponse {}

/// A returned link asset.
#[derive(Debug, Clone, PartialEq)]
pub struct LinkResponse {}

/// One returned event tracker.
#[derive(Debug, Clone, PartialEq)]
pub struct EventTrackerResponse {
    /// Type of event to track.
    pub event: u64,

    /// Type of tracking requested.
    pub method: u64,

    /// The URL of the image or js, required for image or js trackers.
    pub url: Option<String>,

    /// A vendor-specific key-value object to be included in the tracking
    /// pixel or js.
    pub custom_data: Option<Ext>,

    /// Placeholder for exchange-specific extensions.
    pub ext: Option<Ext>,
}

} // verus!
