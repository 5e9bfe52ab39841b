//! SupplyChain object: the links in the supply chain and an indicator of
//! whether the chain is complete.

use vstd::prelude::*;

use crate::ext::Ext;

verus! {

/// The supply chain of a bid request.
#[derive(Debug, Clone, PartialEq)]
pub struct SupplyChain {
    /// Flag indicating whether the chain contains all nodes involved in the
    /// transaction leading back to the owner of the site, app or other
    /// medium of the inventory, where 0 = no, 1 = yes. Omitted from the
    /// wire form when false.
    pub complete: bool,

    /// Array of SupplyChainNode objects in the order of the chain. In a
    /// complete supply chain, the first node represents the initial
    /// advertising system and seller ID involved in the transaction, i.e.
    /// the owner of the site, app, or other medium. In an incomplete supply
    /// chain, it represents the first known node. The last node represents
    /// the entity sending this bid request.
    pub nodes: Vec<SupplyChainNode>,

    /// Version of the supply chain specification in use, in the format of
    /// "major.minor". For example, for version 1.0 of the spec, use the
    /// string "1.0".
    pub ver: String,

    /// Placeholder for advertising-system specific extensions to this
    /// object.
    pub ext: Option<Ext>,
}

/// One entity participating in the supply chain of a bid request.
#[derive(Debug, Clone, PartialEq)]
pub struct SupplyChainNode {
    /// The canonical domain name of the SSP, exchange, header wrapper, etc.
    /// system that bidders connect to. This should be the same value as
    /// used to identify sellers in an ads.txt file if one exists.
    pub asi: String,

    /// The identifier associated with the seller or reseller account within
    /// the advertising system. Should be limited to 64 characters in
    /// length.
    pub sid: String,

    /// The OpenRTB RequestId of the request as issued by this seller.
    pub rid: Option<String>,

    /// The name of the company (the legal entity) that is paid for
    /// inventory transacted under the given seller ID. Optional, and should
    /// not be included if it exists in the advertising system's
    /// sellers.json file.
    pub name: Option<String>,

    /// The business domain name of the entity represented by this node.
    /// Optional, and should not be included if it exists in the advertising
    /// system's sellers.json file.
    pub domain: Option<String>,

    /// Indicates whether this node will be involved in the flow of payment
    /// for the inventory, where 0 = no, 1 = yes. For version 1.0 of
    /// SupplyChain, this should always be 1. Omitted from the wire form
    /// when false.
    pub hp: bool,

    /// Placeholder for advertising-system specific extensions to this
    /// object.
    pub ext: Option<Ext>,
}

} // verus!
