//! Auction type, from the top-level bid request: 1 = First Price, 2 =
//! Second Price Plus; exchange-specific auction types can be defined using
//! values greater than 500.

use vstd::prelude::*;

verus! {

/// The auction type of a bid request. Unlike the closed enumerations, its
/// decode path is total: any code other than 1 or 2 is kept verbatim as an
/// exchange-specific auction type.
#[derive(Debug, PartialEq, Eq, Structural, Clone)]
pub enum AuctionType {
    FirstPrice,
    SecondPricePlus,
    ExchangeSpecific(u32),
}

impl AuctionType {
    /// The numeric wire code of each auction type.
    pub open spec fn spec_code(self) -> u32 {
        match self {
            AuctionType::FirstPrice => 1,
            AuctionType::SecondPricePlus => 2,
            AuctionType::ExchangeSpecific(t) => t,
        }
    }

    /// The auction type a wire code decodes to. Total over all codes.
    pub open spec fn spec_from_code(code: u32) -> AuctionType {
        if code == 1 {
            AuctionType::FirstPrice
        } else if code == 2 {
            AuctionType::SecondPricePlus
        } else {
            AuctionType::ExchangeSpecific(code)
        }
    }

    /// Encodes the auction type as its numeric wire code. Total.
    pub fn wire_code(&self) -> (c: u32)
        ensures
            c == self.spec_code(),
    {
        match self {
            AuctionType::FirstPrice => 1,
            AuctionType::SecondPricePlus => 2,
            AuctionType::ExchangeSpecific(t) => *t,
        }
    }

    /// Decodes a numeric wire code. Total: never fails.
    pub fn from_wire_code(code: u32) -> (r: AuctionType)
        ensures
            r == AuctionType::spec_from_code(code),
    {
        if code == 1 {
            AuctionType::FirstPrice
        } else if code == 2 {
            AuctionType::SecondPricePlus
        } else {
            AuctionType::ExchangeSpecific(code)
        }
    }
}

/// Encoding whatever a wire code decodes to gives the code back, for every
/// code: the total decode loses nothing.
pub proof fn lemma_auction_type_code_round_trip(code: u32)
    ensures
        AuctionType::spec_from_code(code).spec_code() == code,
{
}

/// Decoding an auction type's own wire code gives the auction type back,
/// for every value except an exchange-specific one that reuses the code 1
/// or 2 (those normalize to the named auction type carrying that code).
pub proof fn lemma_auction_type_round_trip(v: AuctionType)
    requires
        !(v == AuctionType::ExchangeSpecific(1u32)),
        !(v == AuctionType::ExchangeSpecific(2u32)),
    ensures
        AuctionType::spec_from_code(v.spec_code()) == v,
{
}

} // verus!
