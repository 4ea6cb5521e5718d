//! The enumerations shared by both request builders: item categories and
//! the named boolean collection filters, each with its lowercase wire token.

use vstd::prelude::*;

verus! {

/// The categories of items the remote database distinguishes.
#[derive(Clone, Copy, Debug, PartialEq, Eq, Structural)]
pub enum ThingType {
    Boardgame,
    BoardgameAccessory,
    BoardgameExpansion,
    Videogame,
    RPGItem,
    RPGIssue,
}

/// The named boolean filters a collection request can carry.
#[derive(Clone, Copy, Debug, PartialEq, Eq, Structural)]
pub enum CollectionArgument {
    Ownership,
    Rated,
    Played,
    Commented,
    MarkedForTrade,
    WantedForTrade,
    Wishlisted,
    Preordered,
    WantToPlay,
    WantToBuy,
    PreviouslyOwned,
    HasParts,
    WantParts,
}

impl ThingType {
    /// Position in declaration order: the canonical total order on item
    /// categories, used to keep type sets sorted deterministically.
    pub open spec fn index_spec(self) -> int {
        match self {
            ThingType::Boardgame => 0,
            ThingType::BoardgameAccessory => 1,
            ThingType::BoardgameExpansion => 2,
            ThingType::Videogame => 3,
            ThingType::RPGItem => 4,
            ThingType::RPGIssue => 5,
        }
    }

    /// The lowercase token this category serializes to.
    pub open spec fn wire_name(self) -> Seq<char> {
        match self {
            ThingType::Boardgame => "boardgame"@,
            ThingType::BoardgameAccessory => "boardgameaccessory"@,
            ThingType::BoardgameExpansion => "boardgameexpansion"@,
            ThingType::Videogame => "videogame"@,
            ThingType::RPGItem => "rpgitem"@,
            ThingType::RPGIssue => "rpgissue"@,
        }
    }

    /// Declaration-order rank, for comparing categories at run time.
    pub fn index(&self) -> (r: u8)
        ensures
            r as int == self.index_spec(),
    {
        match self {
            ThingType::Boardgame => 0,
            ThingType::BoardgameAccessory => 1,
            ThingType::BoardgameExpansion => 2,
            ThingType::Videogame => 3,
            ThingType::RPGItem => 4,
            ThingType::RPGIssue => 5,
        }
    }

    /// The lowercase API token for this category.
    pub fn as_str(&self) -> (r: &'static str)
        ensures
            r@ == self.wire_name(),
    {
        match self {
            ThingType::Boardgame => "boardgame",
            ThingType::BoardgameAccessory => "boardgameaccessory",
            ThingType::BoardgameExpansion => "boardgameexpansion",
            ThingType::Videogame => "videogame",
            ThingType::RPGItem => "rpgitem",
            ThingType::RPGIssue => "rpgissue",
        }
    }
}

/// Two categories with the same declaration-order rank are the same category.
pub proof fn lemma_index_injective(a: ThingType, b: ThingType)
    requires
        a.index_spec() == b.index_spec(),
    ensures
        a == b,
{
}

} // verus!
