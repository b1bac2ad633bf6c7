//! Inventory items that age one day at a time, with quality rules that
//! depend on the item's category.
pub mod gilded_rose;
pub mod item;
pub mod laws;
pub mod rules;

pub use gilded_rose::GildedRose;
pub use item::{Item, ItemType};
