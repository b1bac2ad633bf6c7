use vstd::prelude::*;
use crate::item::{Item, ItemType, MAX_QUALITY, MIN_QUALITY};
use crate::rules::{
    category_of, next_quality, next_sell_in, quality_after, quality_delta, sell_in_after,
};

verus! {

/// Whether `name` starts with `prefix`, compared character by character.
fn has_prefix(name: &str, prefix: &str) -> (r: bool)
    ensures
        r == prefix@.is_prefix_of(name@),
{
    let n = name.unicode_len();
    let p = prefix.unicode_len();
    if p > n {
        return false;
    }
    let mut i: usize = 0;
    while i < p
        invariant
            p == prefix@.len(),
            n == name@.len(),
            p <= n,
            i <= p,
            forall|k: int| 0 <= k < i ==> prefix@[k] == name@[k],
        decreases p - i,
    {
        if name.get_char(i) != prefix.get_char(i) {
            return false;
        }
        i += 1;
    }
    assert(prefix@ =~= name@.subrange(0, p as int));
    true
}

/// The stock of the shop.
pub struct GildedRose {
    pub items: Vec<Item>,
}

/// `after` is `before` aged by one day: same name, days left and quality
/// moved on by the rules of its category.
pub open spec fn aged_one_day(before: Item, after: Item) -> bool {
    &&& after.name@ == before.name@
    &&& after.sell_in == next_sell_in(before.name@, before.sell_in as int)
    &&& after.quality == next_quality(before.name@, before.sell_in as int, before.quality as int)
}

/// An item that can be aged by one day: the days left can still be counted
/// down in an `i32`, unless the category never counts them down.
pub open spec fn can_age(item: Item) -> bool {
    category_of(item.name@) != ItemType::Sulfuras ==> item.sell_in > i32::MIN
}

impl GildedRose {
    /// A shop holding `items`, in that order.
    pub fn new(items: Vec<Item>) -> (r: GildedRose)
        ensures
            r.items == items,
    {
        GildedRose { items }
    }

    /// Ages every item by one day.
    pub fn update_quality(&mut self)
        requires
            forall|i: int| 0 <= i < old(self).items@.len() ==> can_age(#[trigger] old(self).items@[i]),
        ensures
            final(self).items@.len() == old(self).items@.len(),
            forall|i: int|
                0 <= i < old(self).items@.len() ==> aged_one_day(
                    #[trigger] old(self).items@[i],
                    final(self).items@[i],
                ),
    {
        let n = self.items.len();
        let mut i: usize = 0;
        while i < n
            invariant
                n == self.items@.len(),
                n == old(self).items@.len(),
                i <= n,
                forall|k: int| 0 <= k < i ==> aged_one_day(#[trigger] old(self).items@[k], self.items@[k]),
                forall|k: int| i <= k < n ==> #[trigger] self.items@[k] == old(self).items@[k],
                forall|k: int| 0 <= k < n ==> can_age(#[trigger] old(self).items@[k]),
            decreases n - i,
        {
            let item_type = Self::define_type(self.items[i].name.as_str());
            let quality_change = Self::define_quality_change(
                self.items[i].sell_in,
                self.items[i].quality,
                &item_type,
            );
            Self::alter_quality(&mut self.items[i], quality_change);
            Self::alter_sell_in(&mut self.items[i], &item_type);
            i += 1;
        }
    }

    /// The category of an item named `name`.
    pub fn define_type(name: &str) -> (r: ItemType)
        ensures
            r == category_of(name@),
    {
        if has_prefix(name, "Aged Brie") {
            ItemType::AgedBrie
        } else if has_prefix(name, "Sulfuras") {
            ItemType::Sulfuras
        } else if has_prefix(name, "Backstage passes") {
            ItemType::BackstagePasses
        } else if has_prefix(name, "Conjured") {
            ItemType::Conjured
        } else {
            ItemType::Normal
        }
    }

    /// The change of quality that one day brings, judged on the days left
    /// before they are counted down. It is an `i64` so that dropping any
    /// `i32` quality to 0 can be expressed.
    pub fn define_quality_change(sell_in: i32, quality: i32, item_type: &ItemType) -> (r: i64)
        ensures
            r == quality_delta(sell_in as int, quality as int, *item_type),
    {
        match item_type {
            ItemType::Sulfuras => 0,
            ItemType::AgedBrie => if sell_in <= 0 { 2 } else { 1 },
            ItemType::Conjured => if sell_in <= 0 { -4 } else { -2 },
            ItemType::BackstagePasses => {
                if sell_in <= 0 {
                    -(quality as i64)
                } else if sell_in <= 5 {
                    3
                } else if sell_in <= 10 {
                    2
                } else {
                    1
                }
            },
            ItemType::Normal => if sell_in <= 0 { -2 } else { -1 },
        }
    }

    /// Applies a change of quality, clamped to the range of qualities; a
    /// zero change leaves the quality alone.
    pub fn alter_quality(item: &mut Item, quality_change: i64)
        ensures
            final(item).name == old(item).name,
            final(item).sell_in == old(item).sell_in,
            final(item).quality == quality_after(old(item).quality as int, quality_change as int),
    {
        if quality_change == 0 {
            return;
        }
        let q = item.quality as i128 + quality_change as i128;
        item.quality = if q < MIN_QUALITY as i128 {
            MIN_QUALITY
        } else if q > MAX_QUALITY as i128 {
            MAX_QUALITY
        } else {
            q as i32
        };
    }

    /// Counts down the days left, unless the category never does.
    pub fn alter_sell_in(item: &mut Item, item_type: &ItemType)
        requires
            *item_type != ItemType::Sulfuras ==> old(item).sell_in > i32::MIN,
        ensures
            final(item).name == old(item).name,
            final(item).quality == old(item).quality,
            final(item).sell_in == sell_in_after(old(item).sell_in as int, *item_type),
    {
        if *item_type == ItemType::Sulfuras {
            return;
        }
        item.sell_in -= 1;
    }
}

} // verus!
