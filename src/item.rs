use vstd::prelude::*;

verus! {

/// Lowest quality the aging rules ever produce.
pub const MIN_QUALITY: i32 = 0;

/// Highest quality the aging rules ever produce.
pub const MAX_QUALITY: i32 = 50;

/// The category of an item, decided by the start of its name.
#[derive(PartialEq, Eq, Structural, Debug, Clone, Copy)]
pub enum ItemType {
    Normal,
    AgedBrie,
    Sulfuras,
    BackstagePasses,
    Conjured,
}

/// One piece of stock: its name, the days left to sell it, and its quality.
pub struct Item {
    pub name: String,
    pub sell_in: i32,
    pub quality: i32,
}

impl Item {
    /// An item with the given name, days left and quality, taken as they are.
    pub fn new(name: &str, sell_in: i32, quality: i32) -> (r: Item)
        ensures
            r.name@ == name@,
            r.sell_in == sell_in,
            r.quality == quality,
    {
        Item { name: name.to_owned(), sell_in, quality }
    }
}

} // verus!
