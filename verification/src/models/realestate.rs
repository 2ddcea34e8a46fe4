//! A search hit and the vocabularies that describe it.

use vstd::prelude::*;
use vstd::string::*;
use crate::models::listing::Listing;

verus! {

#[derive(Debug, Clone)]
pub struct RealEstate {
    pub id: Option<String>,
    pub listing: Listing,
}

#[derive(Debug, Clone, PartialEq)]
pub struct ListingTypeWrapper {
    pub t: ListingType,
}

/// Whether a property is let or sold.
#[derive(Debug, Clone, Copy, PartialEq, Eq, Structural)]
pub enum OfferType {
    RENT,
    BUY,
}

impl OfferType {
    /// The tag by which the service knows this offer type.
    pub open spec fn tag_text(self) -> Seq<char> {
        match self {
            OfferType::RENT => "RENT"@,
            OfferType::BUY => "BUY"@,
        }
    }

    /// The tag of this offer type.
    pub fn tag(&self) -> (r: &'static str)
        ensures
            r@ == self.tag_text(),
    {
        match self {
            OfferType::RENT => "RENT",
            OfferType::BUY => "BUY",
        }
    }
}

impl Default for OfferType {
    /// Listings are for rent unless said otherwise.
    fn default() -> (r: OfferType)
        ensures
            r == OfferType::RENT,
    {
        OfferType::RENT
    }
}

#[derive(Debug, Clone, PartialEq)]
pub enum PriceUnit {
    MONTHLY,
    M2YEARLY,
    WEEKLY,
}

#[derive(Debug, Clone, PartialEq)]
pub enum ListingType {
    PREMIUM,
    TOP,
    STANDARD,
}

} // verus!
