//! Item ids and item categories.

use vstd::prelude::*;

verus! {

/// The starter pickaxe of older inventories.
pub const TOOL: u16 = 2;

pub const BRONZE_PICKAXE: u16 = 100;
pub const IRON_PICKAXE: u16 = 101;
pub const BRONZE_SWORD: u16 = 102;
pub const IRON_SWORD: u16 = 103;
pub const DIAMOND_SWORD: u16 = 104;
pub const NOKIA_3310: u16 = 105;
pub const WOODEN_PIPE: u16 = 106;
pub const IRON_SCIMITAR: u16 = 107;
pub const WOODEN_TANKARD: u16 = 108;

pub const SILVER_COIN: u16 = 200;
pub const GOLD_COIN: u16 = 201;
pub const GOLD_BAR: u16 = 202;
pub const DIAMOND: u16 = 203;
pub const RUBY: u16 = 204;
pub const SAPPHIRE: u16 = 205;
pub const EMERALD: u16 = 206;
pub const ANCIENT_CROWN: u16 = 207;
pub const GOBLIN_TOOTH: u16 = 208;
pub const DRAGON_SCALE: u16 = 209;
pub const CURSED_AMULET: u16 = 210;
pub const DUSTY_TOME: u16 = 211;
pub const ENCHANTED_SCROLL: u16 = 212;
pub const GOLDEN_CHALICE: u16 = 213;
pub const SKELETON_KEY: u16 = 214;
pub const MYSTIC_ORB: u16 = 215;
pub const RUSTED_COMPASS: u16 = 216;
pub const DWARF_BEARD_RING: u16 = 217;
pub const PHOENIX_FEATHER: u16 = 218;
pub const VOID_SHARD: u16 = 219;

pub const MINOR_BUFF: u16 = 300;
pub const MAJOR_BUFF: u16 = 301;

/// Item categories of loot stacks.
pub const ITEM_TYPE_ORE: u8 = 1;
pub const ITEM_TYPE_TOOL: u8 = 2;
pub const ITEM_TYPE_BUFF: u8 = 3;

} // verus!
