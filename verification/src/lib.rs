//! Codec layer for the OpenRTB wire format: typed in-memory values on one
//! side, compact wire scalars (small integers and short taxonomy strings) on
//! the other.

pub mod error;
pub mod ext;
pub mod native;
pub mod presence;
pub mod scalar;
pub mod wire_enum;
pub mod v2_5;

pub use v2_5 as current;
