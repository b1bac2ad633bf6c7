use vstd::prelude::*;
use crate::item::{ItemType, MAX_QUALITY, MIN_QUALITY};

verus! {

/// The category of a name: the first of the known prefixes that it starts
/// with, in a fixed order, and `Normal` when it starts with none of them.
pub open spec fn category_of(name: Seq<char>) -> ItemType {
    if "Aged Brie"@.is_prefix_of(name) {
        ItemType::AgedBrie
    } else if "Sulfuras"@.is_prefix_of(name) {
        ItemType::Sulfuras
    } else if "Backstage passes"@.is_prefix_of(name) {
        ItemType::BackstagePasses
    } else if "Conjured"@.is_prefix_of(name) {
        ItemType::Conjured
    } else {
        ItemType::Normal
    }
}

/// How much one day changes the quality, judged on the days left before
/// they are counted down. The sell-by day itself (`sell_in == 0`) already
/// counts as past it: aging speeds up on that day, not the day after.
pub open spec fn quality_delta(sell_in: int, quality: int, t: ItemType) -> int {
    match t {
        ItemType::Sulfuras => 0,
        ItemType::AgedBrie => if sell_in <= 0 { 2 } else { 1 },
        ItemType::Conjured => if sell_in <= 0 { -4 } else { -2 },
        ItemType::BackstagePasses => {
            if sell_in <= 0 {
                -quality
            } else if sell_in <= 5 {
                3
            } else if sell_in <= 10 {
                2
            } else {
                1
            }
        },
        ItemType::Normal => if sell_in <= 0 { -2 } else { -1 },
    }
}

/// `q` brought into the range of qualities.
pub open spec fn clamp_quality(q: int) -> int {
    if q < MIN_QUALITY {
        MIN_QUALITY as int
    } else if q > MAX_QUALITY {
        MAX_QUALITY as int
    } else {
        q
    }
}

/// The quality after a change of `delta`: a zero change leaves it as it
/// is, even out of range; any other is clamped.
pub open spec fn quality_after(quality: int, delta: int) -> int {
    if delta == 0 {
        quality
    } else {
        clamp_quality(quality + delta)
    }
}

/// The days left after one day: every category counts down but `Sulfuras`.
pub open spec fn sell_in_after(sell_in: int, t: ItemType) -> int {
    if t == ItemType::Sulfuras {
        sell_in
    } else {
        sell_in - 1
    }
}

/// The quality of an item named `name` after one day.
pub open spec fn next_quality(name: Seq<char>, sell_in: int, quality: int) -> int {
    quality_after(quality, quality_delta(sell_in, quality, category_of(name)))
}

/// The days left of an item named `name` after one day.
pub open spec fn next_sell_in(name: Seq<char>, sell_in: int) -> int {
    sell_in_after(sell_in, category_of(name))
}

/// Days left and quality of an item named `name` after `n` days.
pub open spec fn age_days(name: Seq<char>, sell_in: int, quality: int, n: nat) -> (int, int)
    decreases n,
{
    if n == 0 {
        (sell_in, quality)
    } else {
        age_days(
            name,
            next_sell_in(name, sell_in),
            next_quality(name, sell_in, quality),
            (n - 1) as nat,
        )
    }
}

} // verus!
