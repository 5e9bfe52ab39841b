//! Native Ad Specification message objects.

pub mod v1_2;
