use vstd::prelude::*;
use crate::item::ItemType;
use crate::rules::{age_days, category_of, next_quality, next_sell_in, quality_delta};

verus! {

/// The smaller of two integers.
pub open spec fn min_int(a: int, b: int) -> int {
    if a <= b { a } else { b }
}

/// The larger of two integers.
pub open spec fn max_int(a: int, b: int) -> int {
    if a >= b { a } else { b }
}

/// One day never takes the quality of an item that is not `Sulfuras` out of
/// `[0, 50]`, and brings one that started outside back into it.
pub proof fn lemma_one_day_in_range(name: Seq<char>, sell_in: int, quality: int)
    requires
        category_of(name) != ItemType::Sulfuras,
    ensures
        0 <= next_quality(name, sell_in, quality) <= 50,
{
}

/// Aging any number of days keeps the quality of an item that is not
/// `Sulfuras` within `[0, 50]`: from any start once a day has passed, and
/// from the first day when it starts in range.
pub proof fn lemma_quality_stays_in_range(name: Seq<char>, sell_in: int, quality: int, n: nat)
    requires
        category_of(name) != ItemType::Sulfuras,
        n >= 1 || 0 <= quality <= 50,
    ensures
        0 <= age_days(name, sell_in, quality, n).1 <= 50,
    decreases n,
{
    if n > 0 {
        lemma_one_day_in_range(name, sell_in, quality);
        lemma_quality_stays_in_range(
            name,
            next_sell_in(name, sell_in),
            next_quality(name, sell_in, quality),
            (n - 1) as nat,
        );
    }
}

/// A `Sulfuras` item keeps its days left and its quality, whatever they
/// are, through any number of days.
pub proof fn lemma_sulfuras_unchanged(name: Seq<char>, sell_in: int, quality: int, n: nat)
    requires
        category_of(name) == ItemType::Sulfuras,
    ensures
        age_days(name, sell_in, quality, n) == (sell_in, quality),
    decreases n,
{
    if n > 0 {
        lemma_sulfuras_unchanged(name, sell_in, quality, (n - 1) as nat);
    }
}

/// Aged Brie in range gains 1 a day while days are left and 2 a day from
/// the sell-by day on, up to 50; so it never loses quality.
pub proof fn lemma_aged_brie_day(name: Seq<char>, sell_in: int, quality: int)
    requires
        category_of(name) == ItemType::AgedBrie,
        0 <= quality <= 50,
    ensures
        sell_in > 0 ==> next_quality(name, sell_in, quality) == min_int(quality + 1, 50),
        sell_in <= 0 ==> next_quality(name, sell_in, quality) == min_int(quality + 2, 50),
        next_quality(name, sell_in, quality) >= quality,
{
}

/// Over any number of days, the quality of Aged Brie that starts in range
/// never goes down from one day to the next.
pub proof fn lemma_aged_brie_never_loses(name: Seq<char>, sell_in: int, quality: int, n: nat)
    requires
        category_of(name) == ItemType::AgedBrie,
        0 <= quality <= 50,
    ensures
        age_days(name, sell_in, quality, n).1 <= age_days(name, sell_in, quality, n + 1).1,
    decreases n,
{
    lemma_aged_brie_day(name, sell_in, quality);
    let s1 = next_sell_in(name, sell_in);
    let q1 = next_quality(name, sell_in, quality);
    assert(age_days(name, sell_in, quality, n + 1) == age_days(name, s1, q1, n));
    if n == 0 {
        assert(age_days(name, s1, q1, 0) == (s1, q1));
    } else {
        assert(age_days(name, sell_in, quality, n) == age_days(name, s1, q1, (n - 1) as nat));
        lemma_aged_brie_never_loses(name, s1, q1, (n - 1) as nat);
    }
}

/// Backstage passes in range gain 1 a day with more than 10 days left, 2
/// with 6 to 10, 3 with 1 to 5, up to 50; from the day of the concert on
/// their quality is exactly 0, whatever it was.
pub proof fn lemma_backstage_day(name: Seq<char>, sell_in: int, quality: int)
    requires
        category_of(name) == ItemType::BackstagePasses,
    ensures
        sell_in <= 0 ==> next_quality(name, sell_in, quality) == 0,
        0 <= quality <= 50 && sell_in > 10 ==> next_quality(name, sell_in, quality) == min_int(
            quality + 1,
            50,
        ),
        0 <= quality <= 50 && 5 < sell_in <= 10 ==> next_quality(name, sell_in, quality)
            == min_int(quality + 2, 50),
        0 <= quality <= 50 && 0 < sell_in <= 5 ==> next_quality(name, sell_in, quality) == min_int(
            quality + 3,
            50,
        ),
{
}

/// Conjured items lose quality twice as fast as normal ones at every
/// number of days left, down to 0.
pub proof fn lemma_conjured_twice_normal(name: Seq<char>, sell_in: int, quality: int)
    requires
        category_of(name) == ItemType::Conjured,
        0 <= quality <= 50,
    ensures
        quality_delta(sell_in, quality, ItemType::Conjured) == 2 * quality_delta(
            sell_in,
            quality,
            ItemType::Normal,
        ),
        next_quality(name, sell_in, quality) == max_int(
            quality + 2 * quality_delta(sell_in, quality, ItemType::Normal),
            0,
        ),
{
}

/// The category depends on the characters of the name alone: equal names
/// always get the same category.
pub proof fn lemma_category_by_name(a: Seq<char>, b: Seq<char>)
    requires
        a == b,
    ensures
        category_of(a) == category_of(b),
{
}

} // verus!
