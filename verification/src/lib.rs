//! Loot, crafting, inventory and equipment rules of a wave-survival game,
//! with their contracts proved by Verus.

pub mod animation;
pub mod crafting;
pub mod equipment;
pub mod inventory;
pub mod menus;
pub mod messages;
mod random;
pub mod rarity;
pub mod screens;
pub mod text;
pub mod wave;

pub use rarity::ItemRarity;
