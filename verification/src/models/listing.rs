//! Listings and the records they are made of.

use vstd::prelude::*;
use vstd::string::*;
use crate::models::address::Address;
use crate::models::realestate::OfferType;

verus! {

/// The kind of property a listing offers.
#[derive(Debug, Clone, Copy, PartialEq, Eq, Structural)]
pub enum Category {
    Flat,
    Apartment,
    Maisonette,
    Duplex,
    AtticFlat,
    RoofFlat,
    Studio,
    SingleRoom,
    TerraceFlat,
    BachelorFlat,
    Loft,
    Attic,
    RowHouse,
    BifamiliarHouse,
    TerraceHouse,
    Villa,
    FarmHouse,
    CaveHouse,
    Castle,
    GrannyFlat,
    Chalet,
    Rustico,
    SingleHouse,
    HobbyRoom,
    CellarCompartment,
    AtticCompartment,
    FurnishedFlat,
    Plot,
    BuildingLand,
    ResidentialCommercialBuilding,
}

impl Category {
    /// The tag by which the service knows this category: its name in upper
    /// case, words parted by underscores.
    pub open spec fn tag_text(self) -> Seq<char> {
        match self {
            Category::Flat => "FLAT"@,
            Category::Apartment => "APARTMENT"@,
            Category::Maisonette => "MAISONETTE"@,
            Category::Duplex => "DUPLEX"@,
            Category::AtticFlat => "ATTIC_FLAT"@,
            Category::RoofFlat => "ROOF_FLAT"@,
            Category::Studio => "STUDIO"@,
            Category::SingleRoom => "SINGLE_ROOM"@,
            Category::TerraceFlat => "TERRACE_FLAT"@,
            Category::BachelorFlat => "BACHELOR_FLAT"@,
            Category::Loft => "LOFT"@,
            Category::Attic => "ATTIC"@,
            Category::RowHouse => "ROW_HOUSE"@,
            Category::BifamiliarHouse => "BIFAMILIAR_HOUSE"@,
            Category::TerraceHouse => "TERRACE_HOUSE"@,
            Category::Villa => "VILLA"@,
            Category::FarmHouse => "FARM_HOUSE"@,
            Category::CaveHouse => "CAVE_HOUSE"@,
            Category::Castle => "CASTLE"@,
            Category::GrannyFlat => "GRANNY_FLAT"@,
            Category::Chalet => "CHALET"@,
            Category::Rustico => "RUSTICO"@,
            Category::SingleHouse => "SINGLE_HOUSE"@,
            Category::HobbyRoom => "HOBBY_ROOM"@,
            Category::CellarCompartment => "CELLAR_COMPARTMENT"@,
            Category::AtticCompartment => "ATTIC_COMPARTMENT"@,
            Category::FurnishedFlat => "FURNISHED_FLAT"@,
            Category::Plot => "PLOT"@,
            Category::BuildingLand => "BUILDING_LAND"@,
            Category::ResidentialCommercialBuilding => "RESIDENTIAL_COMMERCIAL_BUILDING"@,
        }
    }

    /// The tag of this category.
    pub fn tag(&self) -> (r: &'static str)
        ensures
            r@ == self.tag_text(),
    {
        match self {
            Category::Flat => "FLAT",
            Category::Apartment => "APARTMENT",
            Category::Maisonette => "MAISONETTE",
            Category::Duplex => "DUPLEX",
            Category::AtticFlat => "ATTIC_FLAT",
            Category::RoofFlat => "ROOF_FLAT",
            Category::Studio => "STUDIO",
            Category::SingleRoom => "SINGLE_ROOM",
            Category::TerraceFlat => "TERRACE_FLAT",
            Category::BachelorFlat => "BACHELOR_FLAT",
            Category::Loft => "LOFT",
            Category::Attic => "ATTIC",
            Category::RowHouse => "ROW_HOUSE",
            Category::BifamiliarHouse => "BIFAMILIAR_HOUSE",
            Category::TerraceHouse => "TERRACE_HOUSE",
            Category::Villa => "VILLA",
            Category::FarmHouse => "FARM_HOUSE",
            Category::CaveHouse => "CAVE_HOUSE",
            Category::Castle => "CASTLE",
            Category::GrannyFlat => "GRANNY_FLAT",
            Category::Chalet => "CHALET",
            Category::Rustico => "RUSTICO",
            Category::SingleHouse => "SINGLE_HOUSE",
            Category::HobbyRoom => "HOBBY_ROOM",
            Category::CellarCompartment => "CELLAR_COMPARTMENT",
            Category::AtticCompartment => "ATTIC_COMPARTMENT",
            Category::FurnishedFlat => "FURNISHED_FLAT",
            Category::Plot => "PLOT",
            Category::BuildingLand => "BUILDING_LAND",
            Category::ResidentialCommercialBuilding => "RESIDENTIAL_COMMERCIAL_BUILDING",
        }
    }

    /// The tag of this category, as an owned string.
    pub fn to_string(&self) -> (r: String)
        ensures
            r@ == self.tag_text(),
    {
        String::from_str(self.tag())
    }
}

/// Every category, in the order of declaration.
pub open spec fn vocabulary() -> Seq<Category> {
    seq![
        Category::Flat,
        Category::Apartment,
        Category::Maisonette,
        Category::Duplex,
        Category::AtticFlat,
        Category::RoofFlat,
        Category::Studio,
        Category::SingleRoom,
        Category::TerraceFlat,
        Category::BachelorFlat,
        Category::Loft,
        Category::Attic,
        Category::RowHouse,
        Category::BifamiliarHouse,
        Category::TerraceHouse,
        Category::Villa,
        Category::FarmHouse,
        Category::CaveHouse,
        Category::Castle,
        Category::GrannyFlat,
        Category::Chalet,
        Category::Rustico,
        Category::SingleHouse,
        Category::HobbyRoom,
        Category::CellarCompartment,
        Category::AtticCompartment,
        Category::FurnishedFlat,
        Category::Plot,
        Category::BuildingLand,
        Category::ResidentialCommercialBuilding,
    ]
}

/// No category is missing from the vocabulary.
pub proof fn lemma_vocabulary_is_complete(c: Category)
    ensures
        exists|i: int| 0 <= i < vocabulary().len() && #[trigger] vocabulary()[i] == c,
{
    let i: int = match c {
        Category::Flat => 0,
        Category::Apartment => 1,
        Category::Maisonette => 2,
        Category::Duplex => 3,
        Category::AtticFlat => 4,
        Category::RoofFlat => 5,
        Category::Studio => 6,
        Category::SingleRoom => 7,
        Category::TerraceFlat => 8,
        Category::BachelorFlat => 9,
        Category::Loft => 10,
        Category::Attic => 11,
        Category::RowHouse => 12,
        Category::BifamiliarHouse => 13,
        Category::TerraceHouse => 14,
        Category::Villa => 15,
        Category::FarmHouse => 16,
        Category::CaveHouse => 17,
        Category::Castle => 18,
        Category::GrannyFlat => 19,
        Category::Chalet => 20,
        Category::Rustico => 21,
        Category::SingleHouse => 22,
        Category::HobbyRoom => 23,
        Category::CellarCompartment => 24,
        Category::AtticCompartment => 25,
        Category::FurnishedFlat => 26,
        Category::Plot => 27,
        Category::BuildingLand => 28,
        Category::ResidentialCommercialBuilding => 29,
    };
    assert(vocabulary()[i] == c);
}

/// The length and the third character of a category's tag: together they
/// tell every tag from every other.
pub open spec fn tag_mark(c: Category) -> (int, char) {
    match c {
        Category::Flat => (4, 'A'),
        Category::Apartment => (9, 'A'),
        Category::Maisonette => (10, 'I'),
        Category::Duplex => (6, 'P'),
        Category::AtticFlat => (10, 'T'),
        Category::RoofFlat => (9, 'O'),
        Category::Studio => (6, 'U'),
        Category::SingleRoom => (11, 'N'),
        Category::TerraceFlat => (12, 'R'),
        Category::BachelorFlat => (13, 'C'),
        Category::Loft => (4, 'F'),
        Category::Attic => (5, 'T'),
        Category::RowHouse => (9, 'W'),
        Category::BifamiliarHouse => (16, 'F'),
        Category::TerraceHouse => (13, 'R'),
        Category::Villa => (5, 'L'),
        Category::FarmHouse => (10, 'R'),
        Category::CaveHouse => (10, 'V'),
        Category::Castle => (6, 'S'),
        Category::GrannyFlat => (11, 'A'),
        Category::Chalet => (6, 'A'),
        Category::Rustico => (7, 'S'),
        Category::SingleHouse => (12, 'N'),
        Category::HobbyRoom => (10, 'B'),
        Category::CellarCompartment => (18, 'L'),
        Category::AtticCompartment => (17, 'T'),
        Category::FurnishedFlat => (14, 'R'),
        Category::Plot => (4, 'O'),
        Category::BuildingLand => (13, 'I'),
        Category::ResidentialCommercialBuilding => (31, 'S'),
    }
}

/// Every tag has the length and the third character of its mark.
pub proof fn lemma_tag_mark(c: Category)
    ensures
        c.tag_text().len() == tag_mark(c).0,
        c.tag_text()[2] == tag_mark(c).1,
{
    match c {
        Category::Flat => {
            reveal_strlit("FLAT");
        },
        Category::Apartment => {
            reveal_strlit("APARTMENT");
        },
        Category::Maisonette => {
            reveal_strlit("MAISONETTE");
        },
        Category::Duplex => {
            reveal_strlit("DUPLEX");
        },
        Category::AtticFlat => {
            reveal_strlit("ATTIC_FLAT");
        },
        Category::RoofFlat => {
            reveal_strlit("ROOF_FLAT");
        },
        Category::Studio => {
            reveal_strlit("STUDIO");
        },
        Category::SingleRoom => {
            reveal_strlit("SINGLE_ROOM");
        },
        Category::TerraceFlat => {
            reveal_strlit("TERRACE_FLAT");
        },
        Category::BachelorFlat => {
            reveal_strlit("BACHELOR_FLAT");
        },
        Category::Loft => {
            reveal_strlit("LOFT");
        },
        Category::Attic => {
            reveal_strlit("ATTIC");
        },
        Category::RowHouse => {
            reveal_strlit("ROW_HOUSE");
        },
        Category::BifamiliarHouse => {
            reveal_strlit("BIFAMILIAR_HOUSE");
        },
        Category::TerraceHouse => {
            reveal_strlit("TERRACE_HOUSE");
        },
        Category::Villa => {
            reveal_strlit("VILLA");
        },
        Category::FarmHouse => {
            reveal_strlit("FARM_HOUSE");
        },
        Category::CaveHouse => {
            reveal_strlit("CAVE_HOUSE");
        },
        Category::Castle => {
            reveal_strlit("CASTLE");
        },
        Category::GrannyFlat => {
            reveal_strlit("GRANNY_FLAT");
        },
        Category::Chalet => {
            reveal_strlit("CHALET");
        },
        Category::Rustico => {
            reveal_strlit("RUSTICO");
        },
        Category::SingleHouse => {
            reveal_strlit("SINGLE_HOUSE");
        },
        Category::HobbyRoom => {
            reveal_strlit("HOBBY_ROOM");
        },
        Category::CellarCompartment => {
            reveal_strlit("CELLAR_COMPARTMENT");
        },
        Category::AtticCompartment => {
            reveal_strlit("ATTIC_COMPARTMENT");
        },
        Category::FurnishedFlat => {
            reveal_strlit("FURNISHED_FLAT");
        },
        Category::Plot => {
            reveal_strlit("PLOT");
        },
        Category::BuildingLand => {
            reveal_strlit("BUILDING_LAND");
        },
        Category::ResidentialCommercialBuilding => {
            reveal_strlit("RESIDENTIAL_COMMERCIAL_BUILDING");
        },
    }
}

/// No two categories share a tag.
pub proof fn lemma_tags_are_distinct(a: Category, b: Category)
    requires
        a.tag_text() == b.tag_text(),
    ensures
        a == b,
{
    lemma_tag_mark(a);
    lemma_tag_mark(b);
}

/// The category that the service knows by `tag`; none for a text that is
/// no tag.
pub open spec fn category_of(tag: Seq<char>) -> Option<Category> {
    if exists|c: Category| c.tag_text() == tag {
        Some(choose|c: Category| c.tag_text() == tag)
    } else {
        None
    }
}

impl Category {
    /// The category that the service knows by `tag`; none for a text that
    /// is no tag.
    pub fn from_tag(tag: &str) -> (r: Option<Category>)
        ensures
            r == category_of(tag@),
    {
        let all: Vec<Category> = vec![
            Category::Flat,
            Category::Apartment,
            Category::Maisonette,
            Category::Duplex,
            Category::AtticFlat,
            Category::RoofFlat,
            Category::Studio,
            Category::SingleRoom,
            Category::TerraceFlat,
            Category::BachelorFlat,
            Category::Loft,
            Category::Attic,
            Category::RowHouse,
            Category::BifamiliarHouse,
            Category::TerraceHouse,
            Category::Villa,
            Category::FarmHouse,
            Category::CaveHouse,
            Category::Castle,
            Category::GrannyFlat,
            Category::Chalet,
            Category::Rustico,
            Category::SingleHouse,
            Category::HobbyRoom,
            Category::CellarCompartment,
            Category::AtticCompartment,
            Category::FurnishedFlat,
            Category::Plot,
            Category::BuildingLand,
            Category::ResidentialCommercialBuilding,
        ];
        assert(all@ =~= vocabulary());
        let wanted = String::from_str(tag);
        let mut i: usize = 0;
        while i < all.len()
            invariant
                i <= all.len(),
                all@ == vocabulary(),
                wanted@ == tag@,
                forall|j: int| 0 <= j < i ==> (#[trigger] all@[j]).tag_text() != tag@,
            decreases all.len() - i,
        {
            let c = all[i];
            if c.to_string() == wanted {
                proof {
                    lemma_tags_are_distinct(category_of(tag@)->0, c);
                }
                return Some(c);
            }
            i = i + 1;
        }
        assert forall|c: Category| c.tag_text() != tag@ by {
            lemma_vocabulary_is_complete(c);
        }
        None
    }
}

/// A category is found again by its tag.
pub proof fn lemma_tag_round_trip(c: Category)
    ensures
        category_of(c.tag_text()) == Some(c),
{
    assert(c.tag_text() == c.tag_text());
    lemma_tags_are_distinct(category_of(c.tag_text())->0, c);
}

/// Size of a property. Rooms are counted in tenths, so that half rooms are
/// exact.
#[derive(Debug, Clone, PartialEq)]
pub struct Characteristics {
    pub living_space: Option<u32>,
    pub number_of_rooms: Option<u32>,
}

#[derive(Debug, Clone, PartialEq)]
pub struct Lister {
    pub phone: Option<String>,
}

#[derive(Debug, Clone, PartialEq)]
pub struct Attachment {
    pub t: String,
    pub url: String,
    pub file: String,
}

#[derive(Debug, Clone, PartialEq)]
pub struct LocalizationEntryText {
    pub title: String,
}

#[derive(Debug, Clone, PartialEq)]
pub struct LocalizationEntry {
    pub attachments: Vec<Attachment>,
    pub text: LocalizationEntryText,
}

#[derive(Debug, Clone, PartialEq)]
pub struct Localization {
    pub de: Option<LocalizationEntry>,
    pub primary: Option<String>,
}

#[derive(Debug, Clone)]
pub enum PriceInterval {
    MONTH,
}

#[derive(Debug, Clone)]
pub struct RentPrice {
    pub interval: Option<PriceInterval>,
    pub net: Option<u32>,
    pub gross: Option<u32>,
    pub extra: Option<u32>,
}

#[derive(Debug, Clone)]
pub struct BuyPrice {
    pub price: Option<u32>,
}

#[derive(Debug, Clone)]
pub enum Currency {
    CHF,
}

#[derive(Debug, Clone)]
pub struct Prices {
    pub rent: Option<RentPrice>,
    pub currency: Currency,
    pub buy: Option<BuyPrice>,
}

#[derive(Debug, Clone)]
pub struct Listing {
    pub address: Address,
    pub categories: Vec<Category>,
    pub characteristics: Characteristics,
    pub id: String,
    pub lister: Lister,
    pub localization: Localization,
    pub offer_type: OfferType,
    pub prices: Prices,
}

#[derive(Debug, Clone)]
pub struct ListingEntry {
    pub listing: Listing,
}

#[derive(Debug, Clone)]
pub struct ListingResponse {
    pub listings: Vec<ListingEntry>,
}

} // verus!
