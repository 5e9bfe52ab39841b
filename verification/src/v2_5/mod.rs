//! OpenRTB 2.5 message objects and their wire codecs.

pub mod ad_position;
pub mod auction_type;
pub mod banner;
pub mod banner_ad_type;
pub mod category;
pub mod format;
pub mod native;
pub mod regulations;
pub mod source;
pub mod supply_chain;
pub mod video;

pub use self::ad_position::AdPosition;
pub use self::auction_type::AuctionType;
pub use self::banner::Banner;
pub use self::banner_ad_type::BannerAdType;
pub use self::category::Category;
pub use self::format::Format;
pub use self::native::Native;
pub use self::regulations::Regulations;
pub use self::source::Source;
pub use self::supply_chain::SupplyChain;
pub use self::supply_chain::SupplyChainNode;
pub use self::video::Video;
