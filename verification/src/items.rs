use vstd::prelude::*;

verus! {

/// A game item with its name in each client language.
#[derive(Clone, Debug, PartialEq, Eq)]
pub struct Item {
    pub id: u16,
    pub en: String,
    pub de: String,
    pub ja: String,
    pub fr: String,
}

/// One entry of a user's wish list: an item and the price the user would pay per unit.
#[derive(Clone, Debug, PartialEq, Eq)]
pub struct WishList {
    pub item_id: u32,
    pub user_id: i64,
    pub price_per_unit: u32,
}

} // verus!
