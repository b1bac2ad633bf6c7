use gilded_rose::{GildedRose, Item, ItemType};

#[test]
pub fn test_define_type() {
    let items = vec![
        Item::new("+5 Dexterity Vest", 10, 20),
        Item::new("Aged Brie item", 2, 0),
        Item::new("Sulfuras, Hand of Ragnaros", 0, 80),
        Item::new("Backstage passes to a TAFKAL80ETC concert", 15, 20),
        Item::new("Conjured Mana Cake", 3, 6),
    ];
    assert_eq!(GildedRose::define_type(&items[0].name), ItemType::Normal);
    assert_eq!(GildedRose::define_type(&items[1].name), ItemType::AgedBrie);
    assert_eq!(GildedRose::define_type(&items[2].name), ItemType::Sulfuras);
    assert_eq!(GildedRose::define_type(&items[3].name), ItemType::BackstagePasses);
    assert_eq!(GildedRose::define_type(&items[4].name), ItemType::Conjured);
}

#[test]
pub fn test_define_quality_change() {
    let items = vec![
        (0, 0, ItemType::Sulfuras),
        (-1, 0, ItemType::AgedBrie),
        (1, 0, ItemType::AgedBrie),
        (-2, 0, ItemType::Conjured),
        (2, 0, ItemType::Conjured),
        (-1, 40, ItemType::BackstagePasses),
        (5, 0, ItemType::BackstagePasses),
        (10, 0, ItemType::BackstagePasses),
        (11, 00, ItemType::BackstagePasses),
        (-1, 0, ItemType::Normal),
        (1, 0, ItemType::Normal),
    ];
    assert_eq!(GildedRose::define_quality_change(items[0].0, items[0].1, &items[0].2), 0);
    assert_eq!(GildedRose::define_quality_change(items[1].0, items[1].1, &items[1].2), 2);
    assert_eq!(GildedRose::define_quality_change(items[2].0, items[2].1, &items[2].2), 1);
    assert_eq!(GildedRose::define_quality_change(items[3].0, items[3].1, &items[3].2), -4);
    assert_eq!(GildedRose::define_quality_change(items[4].0, items[4].1, &items[4].2), -2);
    assert_eq!(GildedRose::define_quality_change(items[5].0, items[5].1, &items[5].2), -40);
    assert_eq!(GildedRose::define_quality_change(items[6].0, items[6].1, &items[6].2), 3);
    assert_eq!(GildedRose::define_quality_change(items[7].0, items[7].1, &items[7].2), 2);
    assert_eq!(GildedRose::define_quality_change(items[8].0, items[8].1, &items[8].2), 1);
    assert_eq!(GildedRose::define_quality_change(items[9].0, items[9].1, &items[9].2), -2);
    assert_eq!(GildedRose::define_quality_change(items[10].0, items[10].1, &items[10].2), -1);
}

#[test]
pub fn test_alter_quality() {
    let mut items = vec![
        Item::new("my item", 10, 40),
        Item::new("my item", 10, 49),
        Item::new("my item", 2, 10),
        Item::new("my item", 2, 1),
        Item::new("my item", 0, 80),
        Item::new("my item", 0, 80),
    ];
    GildedRose::alter_quality(&mut items[0], 2);
    GildedRose::alter_quality(&mut items[1], 2);
    GildedRose::alter_quality(&mut items[2], -2);
    GildedRose::alter_quality(&mut items[3], -2);
    GildedRose::alter_quality(&mut items[4], 0);
    GildedRose::alter_quality(&mut items[5], 1);

    assert_eq!(items[0].quality, 42);
    assert_eq!(items[1].quality, 50);
    assert_eq!(items[2].quality, 8);
    assert_eq!(items[3].quality, 0);
    assert_eq!(items[4].quality, 80);
    assert_eq!(items[5].quality, 50);
}

#[test]
pub fn test_alter_sell_in() {
    let mut items = vec![
        Item::new("my item", 5, 0),
        Item::new("my item", 5, 0),
        Item::new("my item", 5, 0),
        Item::new("my item", 5, 0),
        Item::new("my item", 5, 0),
    ];
    GildedRose::alter_sell_in(&mut items[0], &ItemType::Normal);
    GildedRose::alter_sell_in(&mut items[1], &ItemType::AgedBrie);
    GildedRose::alter_sell_in(&mut items[2], &ItemType::Sulfuras);
    GildedRose::alter_sell_in(&mut items[3], &ItemType::BackstagePasses);
    GildedRose::alter_sell_in(&mut items[4], &ItemType::Conjured);
    assert_eq!(items[0].sell_in, 4);
    assert_eq!(items[1].sell_in, 4);
    assert_eq!(items[2].sell_in, 5);
    assert_eq!(items[3].sell_in, 4);
    assert_eq!(items[4].sell_in, 4);
}
