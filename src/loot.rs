//! Seed-driven loot: weighted draws from chest and boss tables, with or without
//! replacement.

use vstd::prelude::*;
use crate::address::Address;
use crate::items::{
    ANCIENT_CROWN, BRONZE_PICKAXE, BRONZE_SWORD, CURSED_AMULET, DIAMOND, DIAMOND_SWORD,
    DRAGON_SCALE, DUSTY_TOME, DWARF_BEARD_RING, EMERALD, ENCHANTED_SCROLL, GOBLIN_TOOTH,
    GOLDEN_CHALICE, GOLD_BAR, GOLD_COIN, IRON_PICKAXE, IRON_SCIMITAR, IRON_SWORD, ITEM_TYPE_BUFF,
    ITEM_TYPE_ORE, ITEM_TYPE_TOOL, MAJOR_BUFF, MINOR_BUFF, MYSTIC_ORB, NOKIA_3310, PHOENIX_FEATHER,
    RUBY, RUSTED_COMPASS, SAPPHIRE, SILVER_COIN, SKELETON_KEY, VOID_SHARD, WOODEN_PIPE,
    WOODEN_TANKARD,
};
use crate::boss::{apply_boss_damage, boss_caught_up, boss_damage_overflows};
use crate::errors::ChainDepthError;
use crate::inventory::{add_error, add_stack, added, copy_items, InventoryAccount, InventoryItem, MAX_INVENTORY_SLOTS};
use crate::player::PlayerAccount;
use crate::presence::{RoomPresence, ACTIVITY_IDLE, NO_DIRECTION};
use crate::rng::{draw, step, wrap_add, wrap_mul, SplitMix64, GOLDEN_GAMMA};
use crate::room::{RoomAccount, CENTER_BOSS, CENTER_CHEST};

verus! {

/// One entry of a loot table.
#[derive(Clone, Copy, Debug, PartialEq, Eq, Structural)]
pub struct LootSpec {
    pub item_id: u16,
    pub weight: u16,
    pub min_amount: u8,
    pub max_amount: u8,
}

/// One dropped stack.
#[derive(Clone, Copy, Debug, PartialEq, Eq, Structural)]
pub struct LootStack {
    pub item_id: u16,
    pub amount: u32,
    pub durability: u16,
    pub item_type: u8,
}

/// The draw `range_u32` makes: `(value, next_state)`.
pub open spec fn range_draw(state: u64, upper: u32) -> (u32, u64) {
    if upper <= 1 {
        (0, state)
    } else {
        ((draw(state) % (upper as u64)) as u32, step(state))
    }
}

/// Sum of the weights of the entries among the first `n` not yet picked.
pub open spec fn weight_upto(pool: Seq<LootSpec>, picked: Seq<bool>, n: int) -> int
    decreases n,
{
    if n <= 0 {
        0
    } else {
        weight_upto(pool, picked, n - 1) + if picked[n - 1] {
            0int
        } else {
            pool[n - 1].weight as int
        }
    }
}

/// Total weight on offer, saturated at `u32::MAX`.
pub open spec fn total_weight(pool: Seq<LootSpec>, picked: Seq<bool>) -> u32 {
    let w = weight_upto(pool, picked, pool.len() as int);
    if w > u32::MAX { u32::MAX } else { w as u32 }
}

/// The entry a roll lands on, walking the cumulative weights from entry `i`.
pub open spec fn landing(pool: Seq<LootSpec>, picked: Seq<bool>, roll: int, i: int) -> int
    decreases pool.len() - i,
{
    if i < 0 || i >= pool.len() {
        0
    } else if !picked[i] && roll < pool[i].weight {
        i
    } else {
        landing(pool, picked, if picked[i] { roll } else { roll - pool[i].weight }, i + 1)
    }
}

/// A weighted draw: `(index, next_state)`. With nothing on offer the draw is
/// index 0 and the stream does not move.
pub open spec fn weighted_draw(pool: Seq<LootSpec>, picked: Seq<bool>, state: u64) -> (int, u64) {
    let total = total_weight(pool, picked);
    if total == 0 {
        (0, state)
    } else {
        let (roll, next) = range_draw(state, total);
        (landing(pool, picked, roll as int, 0), next)
    }
}

proof fn lemma_landing_in_range(pool: Seq<LootSpec>, picked: Seq<bool>, roll: int, i: int)
    requires
        pool.len() > 0,
    ensures
        0 <= landing(pool, picked, roll, i) < pool.len(),
    decreases pool.len() - i,
{
    if 0 <= i < pool.len() && !(!picked[i] && roll < pool[i].weight) {
        lemma_landing_in_range(
            pool,
            picked,
            if picked[i] { roll } else { roll - pool[i].weight },
            i + 1,
        );
    }
}

/// Picks an index by cumulative weight against a uniform roll over the weights of
/// the entries not yet picked.
pub fn draw_weighted_index(pool: &Vec<LootSpec>, rng: &mut SplitMix64, picked: &Vec<bool>) -> (r: usize)
    requires
        picked@.len() == pool@.len(),
    ensures
        (r as int, final(rng).state) == weighted_draw(pool@, picked@, old(rng).state),
        pool@.len() > 0 ==> r < pool@.len(),
{
    let mut total: u32 = 0;
    let mut i: usize = 0;
    while i < pool.len()
        invariant
            i <= pool@.len(),
            picked@.len() == pool@.len(),
            total as int == if weight_upto(pool@, picked@, i as int) > u32::MAX {
                u32::MAX as int
            } else {
                weight_upto(pool@, picked@, i as int)
            },
        decreases pool@.len() - i,
    {
        proof {
            lemma_weight_nonneg(pool@, picked@, i as int);
        }
        if !picked[i] {
            let w = pool[i].weight as u32;
            total = if total > u32::MAX - w { u32::MAX } else { total + w };
        }
        i = i + 1;
    }
    if pool.len() > 0 {
        proof {
            lemma_landing_in_range(pool@, picked@, 0, 0);
        }
    }
    assert(total == total_weight(pool@, picked@));
    if total == 0 {
        return 0;
    }
    let roll0 = rng.range_u32(total);
    let mut roll: u32 = roll0;
    let mut j: usize = 0;
    while j < pool.len()
        invariant
            j <= pool@.len(),
            picked@.len() == pool@.len(),
            landing(pool@, picked@, roll as int, j as int) == landing(pool@, picked@, roll0 as int, 0),
            total == total_weight(pool@, picked@),
            total != 0,
            (roll0, rng.state) == range_draw(old(rng).state, total),
        decreases pool@.len() - j,
    {
        let weight = pool[j].weight as u32;
        if !picked[j] {
            if roll < weight {
                return j;
            }
            roll = roll - weight;
        }
        j = j + 1;
    }
    0
}

proof fn lemma_weight_nonneg(pool: Seq<LootSpec>, picked: Seq<bool>, n: int)
    ensures
        0 <= weight_upto(pool, picked, n),
    decreases n,
{
    if n > 0 {
        lemma_weight_nonneg(pool, picked, n - 1);
    }
}

/// The amount drawn for `spec`: between its bounds inclusive (an upper bound below
/// the lower one counts as the lower one); equal bounds draw nothing.
pub open spec fn amount_draw(spec: LootSpec, state: u64) -> (u32, u64) {
    let lo = spec.min_amount as u32;
    let hi = if spec.max_amount >= spec.min_amount { spec.max_amount as u32 } else { lo };
    if hi == lo {
        (lo, state)
    } else {
        let (v, next) = range_draw(state, (hi - lo + 1) as u32);
        ((lo + v) as u32, next)
    }
}

pub fn roll_amount(spec: LootSpec, rng: &mut SplitMix64) -> (r: u32)
    ensures
        (r, final(rng).state) == amount_draw(spec, old(rng).state),
        spec.min_amount <= r,
        r <= if spec.max_amount >= spec.min_amount { spec.max_amount } else { spec.min_amount },
{
    let min = spec.min_amount as u32;
    let max: u32 = if spec.max_amount >= spec.min_amount {
        spec.max_amount as u32
    } else {
        min
    };
    if max == min {
        return min;
    }
    min + rng.range_u32(max - min + 1)
}

/// Durability of a dropped tool by tier; other drops carry none.
pub open spec fn durability_of(item_type: u8, item_id: u16) -> u16 {
    if item_type != ITEM_TYPE_TOOL {
        0
    } else if item_id == BRONZE_PICKAXE || item_id == BRONZE_SWORD {
        80
    } else if item_id == IRON_PICKAXE || item_id == IRON_SWORD || item_id == IRON_SCIMITAR {
        120
    } else if item_id == DIAMOND_SWORD {
        200
    } else if item_id == NOKIA_3310 {
        9999
    } else if item_id == WOODEN_PIPE || item_id == WOODEN_TANKARD {
        60
    } else {
        100
    }
}

pub fn item_durability(item_type: u8, item_id: u16) -> (r: u16)
    ensures
        r == durability_of(item_type, item_id),
{
    if item_type != ITEM_TYPE_TOOL {
        return 0;
    }
    if item_id == BRONZE_PICKAXE || item_id == BRONZE_SWORD {
        80
    } else if item_id == IRON_PICKAXE || item_id == IRON_SWORD || item_id == IRON_SCIMITAR {
        120
    } else if item_id == DIAMOND_SWORD {
        200
    } else if item_id == NOKIA_3310 {
        9999
    } else if item_id == WOODEN_PIPE || item_id == WOODEN_TANKARD {
        60
    } else {
        100
    }
}

/// Chest valuables: mostly coins, now and then a gem, a trinket or a key.
pub open spec fn chest_valuables_table() -> Seq<LootSpec> {
    seq![
        LootSpec { item_id: SILVER_COIN, weight: 22, min_amount: 4, max_amount: 12 },
        LootSpec { item_id: GOLD_COIN, weight: 18, min_amount: 3, max_amount: 10 },
        LootSpec { item_id: GOLD_BAR, weight: 8, min_amount: 1, max_amount: 2 },
        LootSpec { item_id: GOBLIN_TOOTH, weight: 12, min_amount: 1, max_amount: 4 },
        LootSpec { item_id: DUSTY_TOME, weight: 10, min_amount: 1, max_amount: 3 },
        LootSpec { item_id: RUBY, weight: 6, min_amount: 1, max_amount: 2 },
        LootSpec { item_id: SAPPHIRE, weight: 6, min_amount: 1, max_amount: 2 },
        LootSpec { item_id: EMERALD, weight: 6, min_amount: 1, max_amount: 2 },
        LootSpec { item_id: RUSTED_COMPASS, weight: 5, min_amount: 1, max_amount: 1 },
        LootSpec { item_id: DWARF_BEARD_RING, weight: 4, min_amount: 1, max_amount: 1 },
        LootSpec { item_id: ENCHANTED_SCROLL, weight: 3, min_amount: 1, max_amount: 1 },
        LootSpec { item_id: SKELETON_KEY, weight: 2, min_amount: 1, max_amount: 1 },
    ]
}

pub fn chest_valuables() -> (r: Vec<LootSpec>)
    ensures
        r@ == chest_valuables_table(),
{
    let r = vec![
        LootSpec { item_id: SILVER_COIN, weight: 22, min_amount: 4, max_amount: 12 },
        LootSpec { item_id: GOLD_COIN, weight: 18, min_amount: 3, max_amount: 10 },
        LootSpec { item_id: GOLD_BAR, weight: 8, min_amount: 1, max_amount: 2 },
        LootSpec { item_id: GOBLIN_TOOTH, weight: 12, min_amount: 1, max_amount: 4 },
        LootSpec { item_id: DUSTY_TOME, weight: 10, min_amount: 1, max_amount: 3 },
        LootSpec { item_id: RUBY, weight: 6, min_amount: 1, max_amount: 2 },
        LootSpec { item_id: SAPPHIRE, weight: 6, min_amount: 1, max_amount: 2 },
        LootSpec { item_id: EMERALD, weight: 6, min_amount: 1, max_amount: 2 },
        LootSpec { item_id: RUSTED_COMPASS, weight: 5, min_amount: 1, max_amount: 1 },
        LootSpec { item_id: DWARF_BEARD_RING, weight: 4, min_amount: 1, max_amount: 1 },
        LootSpec { item_id: ENCHANTED_SCROLL, weight: 3, min_amount: 1, max_amount: 1 },
        LootSpec { item_id: SKELETON_KEY, weight: 2, min_amount: 1, max_amount: 1 },
    ];
    assert(r@ =~= chest_valuables_table());
    r
}

/// Weapons a chest may hold.
pub open spec fn chest_weapons_table() -> Seq<LootSpec> {
    seq![
        LootSpec { item_id: BRONZE_PICKAXE, weight: 17, min_amount: 1, max_amount: 1 },
        LootSpec { item_id: IRON_PICKAXE, weight: 14, min_amount: 1, max_amount: 1 },
        LootSpec { item_id: BRONZE_SWORD, weight: 16, min_amount: 1, max_amount: 1 },
        LootSpec { item_id: IRON_SWORD, weight: 12, min_amount: 1, max_amount: 1 },
        LootSpec { item_id: WOODEN_PIPE, weight: 13, min_amount: 1, max_amount: 1 },
        LootSpec { item_id: IRON_SCIMITAR, weight: 10, min_amount: 1, max_amount: 1 },
        LootSpec { item_id: WOODEN_TANKARD, weight: 18, min_amount: 1, max_amount: 1 },
    ]
}

pub fn chest_weapons() -> (r: Vec<LootSpec>)
    ensures
        r@ == chest_weapons_table(),
{
    let r = vec![
        LootSpec { item_id: BRONZE_PICKAXE, weight: 17, min_amount: 1, max_amount: 1 },
        LootSpec { item_id: IRON_PICKAXE, weight: 14, min_amount: 1, max_amount: 1 },
        LootSpec { item_id: BRONZE_SWORD, weight: 16, min_amount: 1, max_amount: 1 },
        LootSpec { item_id: IRON_SWORD, weight: 12, min_amount: 1, max_amount: 1 },
        LootSpec { item_id: WOODEN_PIPE, weight: 13, min_amount: 1, max_amount: 1 },
        LootSpec { item_id: IRON_SCIMITAR, weight: 10, min_amount: 1, max_amount: 1 },
        LootSpec { item_id: WOODEN_TANKARD, weight: 18, min_amount: 1, max_amount: 1 },
    ];
    assert(r@ =~= chest_weapons_table());
    r
}

/// Buffs a chest may hold.
pub open spec fn chest_buffs_table() -> Seq<LootSpec> {
    seq![
        LootSpec { item_id: MINOR_BUFF, weight: 13, min_amount: 1, max_amount: 2 },
        LootSpec { item_id: MAJOR_BUFF, weight: 5, min_amount: 1, max_amount: 1 },
    ]
}

pub fn chest_buffs() -> (r: Vec<LootSpec>)
    ensures
        r@ == chest_buffs_table(),
{
    let r = vec![
        LootSpec { item_id: MINOR_BUFF, weight: 13, min_amount: 1, max_amount: 2 },
        LootSpec { item_id: MAJOR_BUFF, weight: 5, min_amount: 1, max_amount: 1 },
    ];
    assert(r@ =~= chest_buffs_table());
    r
}

/// Weapons a boss always drops one of; rarer tiers than chests.
pub open spec fn boss_weapons_table() -> Seq<LootSpec> {
    seq![
        LootSpec { item_id: IRON_PICKAXE, weight: 12, min_amount: 1, max_amount: 1 },
        LootSpec { item_id: IRON_SWORD, weight: 13, min_amount: 1, max_amount: 1 },
        LootSpec { item_id: DIAMOND_SWORD, weight: 7, min_amount: 1, max_amount: 1 },
        LootSpec { item_id: NOKIA_3310, weight: 4, min_amount: 1, max_amount: 1 },
        LootSpec { item_id: IRON_SCIMITAR, weight: 10, min_amount: 1, max_amount: 1 },
        LootSpec { item_id: BRONZE_SWORD, weight: 11, min_amount: 1, max_amount: 1 },
        LootSpec { item_id: BRONZE_PICKAXE, weight: 10, min_amount: 1, max_amount: 1 },
        LootSpec { item_id: WOODEN_PIPE, weight: 8, min_amount: 1, max_amount: 1 },
        LootSpec { item_id: WOODEN_TANKARD, weight: 9, min_amount: 1, max_amount: 1 },
    ]
}

pub fn boss_weapons() -> (r: Vec<LootSpec>)
    ensures
        r@ == boss_weapons_table(),
{
    let r = vec![
        LootSpec { item_id: IRON_PICKAXE, weight: 12, min_amount: 1, max_amount: 1 },
        LootSpec { item_id: IRON_SWORD, weight: 13, min_amount: 1, max_amount: 1 },
        LootSpec { item_id: DIAMOND_SWORD, weight: 7, min_amount: 1, max_amount: 1 },
        LootSpec { item_id: NOKIA_3310, weight: 4, min_amount: 1, max_amount: 1 },
        LootSpec { item_id: IRON_SCIMITAR, weight: 10, min_amount: 1, max_amount: 1 },
        LootSpec { item_id: BRONZE_SWORD, weight: 11, min_amount: 1, max_amount: 1 },
        LootSpec { item_id: BRONZE_PICKAXE, weight: 10, min_amount: 1, max_amount: 1 },
        LootSpec { item_id: WOODEN_PIPE, weight: 8, min_amount: 1, max_amount: 1 },
        LootSpec { item_id: WOODEN_TANKARD, weight: 9, min_amount: 1, max_amount: 1 },
    ];
    assert(r@ =~= boss_weapons_table());
    r
}

/// Boss valuables: richer than a chest's.
pub open spec fn boss_valuables_table() -> Seq<LootSpec> {
    seq![
        LootSpec { item_id: GOLD_COIN, weight: 19, min_amount: 6, max_amount: 18 },
        LootSpec { item_id: GOLD_BAR, weight: 14, min_amount: 1, max_amount: 3 },
        LootSpec { item_id: DIAMOND, weight: 7, min_amount: 1, max_amount: 2 },
        LootSpec { item_id: RUBY, weight: 8, min_amount: 1, max_amount: 2 },
        LootSpec { item_id: SAPPHIRE, weight: 8, min_amount: 1, max_amount: 2 },
        LootSpec { item_id: EMERALD, weight: 8, min_amount: 1, max_amount: 2 },
        LootSpec { item_id: ANCIENT_CROWN, weight: 4, min_amount: 1, max_amount: 1 },
        LootSpec { item_id: DRAGON_SCALE, weight: 5, min_amount: 1, max_amount: 2 },
        LootSpec { item_id: CURSED_AMULET, weight: 4, min_amount: 1, max_amount: 1 },
        LootSpec { item_id: GOLDEN_CHALICE, weight: 5, min_amount: 1, max_amount: 1 },
        LootSpec { item_id: MYSTIC_ORB, weight: 3, min_amount: 1, max_amount: 1 },
        LootSpec { item_id: PHOENIX_FEATHER, weight: 3, min_amount: 1, max_amount: 1 },
        LootSpec { item_id: VOID_SHARD, weight: 3, min_amount: 1, max_amount: 1 },
        LootSpec { item_id: ENCHANTED_SCROLL, weight: 4, min_amount: 1, max_amount: 2 },
        LootSpec { item_id: SKELETON_KEY, weight: 3, min_amount: 1, max_amount: 1 },
    ]
}

pub fn boss_valuables() -> (r: Vec<LootSpec>)
    ensures
        r@ == boss_valuables_table(),
{
    let r = vec![
        LootSpec { item_id: GOLD_COIN, weight: 19, min_amount: 6, max_amount: 18 },
        LootSpec { item_id: GOLD_BAR, weight: 14, min_amount: 1, max_amount: 3 },
        LootSpec { item_id: DIAMOND, weight: 7, min_amount: 1, max_amount: 2 },
        LootSpec { item_id: RUBY, weight: 8, min_amount: 1, max_amount: 2 },
        LootSpec { item_id: SAPPHIRE, weight: 8, min_amount: 1, max_amount: 2 },
        LootSpec { item_id: EMERALD, weight: 8, min_amount: 1, max_amount: 2 },
        LootSpec { item_id: ANCIENT_CROWN, weight: 4, min_amount: 1, max_amount: 1 },
        LootSpec { item_id: DRAGON_SCALE, weight: 5, min_amount: 1, max_amount: 2 },
        LootSpec { item_id: CURSED_AMULET, weight: 4, min_amount: 1, max_amount: 1 },
        LootSpec { item_id: GOLDEN_CHALICE, weight: 5, min_amount: 1, max_amount: 1 },
        LootSpec { item_id: MYSTIC_ORB, weight: 3, min_amount: 1, max_amount: 1 },
        LootSpec { item_id: PHOENIX_FEATHER, weight: 3, min_amount: 1, max_amount: 1 },
        LootSpec { item_id: VOID_SHARD, weight: 3, min_amount: 1, max_amount: 1 },
        LootSpec { item_id: ENCHANTED_SCROLL, weight: 4, min_amount: 1, max_amount: 2 },
        LootSpec { item_id: SKELETON_KEY, weight: 3, min_amount: 1, max_amount: 1 },
    ];
    assert(r@ =~= boss_valuables_table());
    r
}

/// Buffs a boss may drop.
pub open spec fn boss_buffs_table() -> Seq<LootSpec> {
    seq![
        LootSpec { item_id: MINOR_BUFF, weight: 8, min_amount: 1, max_amount: 3 },
        LootSpec { item_id: MAJOR_BUFF, weight: 14, min_amount: 1, max_amount: 3 },
    ]
}

pub fn boss_buffs() -> (r: Vec<LootSpec>)
    ensures
        r@ == boss_buffs_table(),
{
    let r = vec![
        LootSpec { item_id: MINOR_BUFF, weight: 8, min_amount: 1, max_amount: 3 },
        LootSpec { item_id: MAJOR_BUFF, weight: 14, min_amount: 1, max_amount: 3 },
    ];
    assert(r@ =~= boss_buffs_table());
    r
}

/// Nothing picked yet.
pub open spec fn none_picked(n: int) -> Seq<bool> {
    Seq::new(n as nat, |i: int| false)
}

fn falses(n: usize) -> (r: Vec<bool>)
    ensures
        r@ == none_picked(n as int),
{
    let mut v: Vec<bool> = Vec::new();
    let mut i: usize = 0;
    while i < n
        invariant
            i <= n,
            v@ == none_picked(i as int),
        decreases n - i,
    {
        v.push(false);
        i = i + 1;
        assert(v@ =~= none_picked(i as int));
    }
    v
}

/// The stack made from entry `e` of a table with amount `amount`.
pub open spec fn stack_for(e: LootSpec, amount: u32, item_type: u8) -> LootStack {
    LootStack {
        item_id: e.item_id,
        amount,
        durability: durability_of(item_type, e.item_id),
        item_type,
    }
}

/// One draw with replacement: `(stack, next_state)`.
pub open spec fn single_roll(pool: Seq<LootSpec>, item_type: u8, state: u64) -> (LootStack, u64) {
    let (idx, s1) = weighted_draw(pool, none_picked(pool.len() as int), state);
    let (amount, s2) = amount_draw(pool[idx], s1);
    (stack_for(pool[idx], amount, item_type), s2)
}

/// `k` draws without replacement appended to `acc`: `(drops, next_state)`.
pub open spec fn unique_rolls(
    pool: Seq<LootSpec>,
    picked: Seq<bool>,
    k: nat,
    item_type: u8,
    state: u64,
    acc: Seq<LootStack>,
) -> (Seq<LootStack>, u64)
    decreases k,
{
    if k == 0 {
        (acc, state)
    } else {
        let (idx, s1) = weighted_draw(pool, picked, state);
        let (amount, s2) = amount_draw(pool[idx], s1);
        unique_rolls(
            pool,
            picked.update(idx, true),
            (k - 1) as nat,
            item_type,
            s2,
            acc.push(stack_for(pool[idx], amount, item_type)),
        )
    }
}

/// Appends one draw from `pool` (nothing for an empty table).
pub fn append_single_roll(
    drops: &mut Vec<LootStack>,
    pool: &Vec<LootSpec>,
    item_type: u8,
    rng: &mut SplitMix64,
)
    ensures
        pool@.len() == 0 ==> final(drops)@ == old(drops)@ && final(rng).state == old(rng).state,
        pool@.len() > 0 ==> (final(drops)@, final(rng).state) == ({
            let (st, next) = single_roll(pool@, item_type, old(rng).state);
            (old(drops)@.push(st), next)
        }),
{
    if pool.len() == 0 {
        return;
    }
    let none = falses(pool.len());
    let index = draw_weighted_index(pool, rng, &none);
    let e = pool[index];
    let amount = roll_amount(e, rng);
    drops.push(
        LootStack {
            item_id: e.item_id,
            amount,
            durability: item_durability(item_type, e.item_id),
            item_type,
        },
    );
}

/// Appends `count` distinct draws from `pool` (at most one per entry).
pub fn append_unique_rolls(
    drops: &mut Vec<LootStack>,
    pool: &Vec<LootSpec>,
    count: usize,
    item_type: u8,
    rng: &mut SplitMix64,
)
    ensures
        pool@.len() == 0 || count == 0 ==> final(drops)@ == old(drops)@ && final(rng).state == old(
            rng,
        ).state,
        pool@.len() > 0 && count > 0 ==> (final(drops)@, final(rng).state) == unique_rolls(
            pool@,
            none_picked(pool@.len() as int),
            if count < pool@.len() { count as nat } else { pool@.len() },
            item_type,
            old(rng).state,
            old(drops)@,
        ),
{
    if pool.len() == 0 || count == 0 {
        return;
    }
    let draw_count: usize = if count < pool.len() {
        count
    } else {
        pool.len()
    };
    let mut picked = falses(pool.len());
    let ghost target = unique_rolls(
        pool@,
        none_picked(pool@.len() as int),
        draw_count as nat,
        item_type,
        rng.state,
        drops@,
    );
    let mut done: usize = 0;
    while done < draw_count
        invariant
            done <= draw_count,
            picked@.len() == pool@.len(),
            pool@.len() > 0,
            unique_rolls(pool@, picked@, (draw_count - done) as nat, item_type, rng.state, drops@)
                == target,
        decreases draw_count - done,
    {
        let index = draw_weighted_index(pool, rng, &picked);
        picked.set(index, true);
        let e = pool[index];
        let amount = roll_amount(e, rng);
        drops.push(
            LootStack {
                item_id: e.item_id,
                amount,
                durability: item_durability(item_type, e.item_id),
                item_type,
            },
        );
        done = done + 1;
    }
}

/// Drops of a chest opened with loot seed `seed`: one or two distinct valuables
/// (two 35 times in 100), a weapon 25 times in 100, a buff 18 times in 100.
pub open spec fn chest_bundle(seed: u64) -> Seq<LootStack> {
    let s0 = seed ^ GOLDEN_GAMMA;
    let (r1, s1) = range_draw(s0, 100);
    let k: nat = if r1 < 35 { 2 } else { 1 };
    let (d1, s2) = unique_rolls(chest_valuables_table(), none_picked(12), k, ITEM_TYPE_ORE, s1, Seq::empty());
    let (r2, s3) = range_draw(s2, 100);
    let (d2, s4) = if r2 < 25 {
        let (st, n) = single_roll(chest_weapons_table(), ITEM_TYPE_TOOL, s3);
        (d1.push(st), n)
    } else {
        (d1, s3)
    };
    let (r3, s5) = range_draw(s4, 100);
    if r3 < 18 {
        d2.push(single_roll(chest_buffs_table(), ITEM_TYPE_BUFF, s5).0)
    } else {
        d2
    }
}

pub fn build_chest_loot_bundle(seed: u64) -> (r: Vec<LootStack>)
    ensures
        r@ == chest_bundle(seed),
{
    let mut rng = SplitMix64::new(seed);
    let mut drops: Vec<LootStack> = Vec::new();
    let valuable_stacks: usize = if rng.range_u32(100) < 35 {
        2
    } else {
        1
    };
    let valuables = chest_valuables();
    append_unique_rolls(&mut drops, &valuables, valuable_stacks, ITEM_TYPE_ORE, &mut rng);
    if rng.range_u32(100) < 25 {
        let weapons = chest_weapons();
        append_single_roll(&mut drops, &weapons, ITEM_TYPE_TOOL, &mut rng);
    }
    if rng.range_u32(100) < 18 {
        let buffs = chest_buffs();
        append_single_roll(&mut drops, &buffs, ITEM_TYPE_BUFF, &mut rng);
    }
    drops
}

/// Drops of a boss looted with loot seed `seed`: always a weapon, two to four
/// distinct valuables (2: 50 in 100, 3: 35, 4: 15), a buff 60 times in 100.
pub open spec fn boss_bundle(seed: u64) -> Seq<LootStack> {
    let s0 = seed ^ GOLDEN_GAMMA;
    let (w, s1) = single_roll(boss_weapons_table(), ITEM_TYPE_TOOL, s0);
    let (r1, s2) = range_draw(s1, 100);
    let k: nat = if r1 < 50 { 2 } else if r1 < 85 { 3 } else { 4 };
    let (d1, s3) = unique_rolls(boss_valuables_table(), none_picked(15), k, ITEM_TYPE_ORE, s2, seq![w]);
    let (r2, s4) = range_draw(s3, 100);
    if r2 < 60 {
        d1.push(single_roll(boss_buffs_table(), ITEM_TYPE_BUFF, s4).0)
    } else {
        d1
    }
}

pub fn build_boss_loot_bundle(seed: u64) -> (r: Vec<LootStack>)
    ensures
        r@ == boss_bundle(seed),
{
    let mut rng = SplitMix64::new(seed);
    let mut drops: Vec<LootStack> = Vec::new();
    let weapons = boss_weapons();
    append_single_roll(&mut drops, &weapons, ITEM_TYPE_TOOL, &mut rng);
    let valuable_roll = rng.range_u32(100);
    let valuable_stacks: usize = if valuable_roll < 50 {
        2
    } else if valuable_roll < 85 {
        3
    } else {
        4
    };
    let valuables = boss_valuables();
    append_unique_rolls(&mut drops, &valuables, valuable_stacks, ITEM_TYPE_ORE, &mut rng);
    if rng.range_u32(100) < 60 {
        let buffs = boss_buffs();
        append_single_roll(&mut drops, &buffs, ITEM_TYPE_BUFF, &mut rng);
    }
    drops
}

/// `h * 31 + v`, wrapping.
pub open spec fn fold31(h: u64, v: u64) -> u64 {
    wrap_add(wrap_mul(h, 31), v)
}

/// Mixes the four words of `player` into `h`.
pub open spec fn mix_player(h: u64, player: Address) -> u64 {
    fold31(fold31(fold31(fold31(h, player.w0), player.w1), player.w2), player.w3)
}

/// Loot seed of a chest: the slot mixed with the looter's address, so outcomes
/// are reproducible yet differ between players.
pub open spec fn chest_loot_seed(slot: u64, player: Address) -> u64 {
    mix_player(slot, player)
}

/// Loot seed of a boss: the slot and boss id mixed with the looter's address.
pub open spec fn boss_loot_seed(slot: u64, player: Address, boss_id: u16) -> u64 {
    mix_player(fold31(slot, boss_id as u64), player)
}

fn mix_words(h: u64, player: &Address) -> (r: u64)
    ensures
        r == mix_player(h, *player),
{
    let mut hash = h;
    hash = hash.wrapping_mul(31).wrapping_add(player.w0);
    hash = hash.wrapping_mul(31).wrapping_add(player.w1);
    hash = hash.wrapping_mul(31).wrapping_add(player.w2);
    hash = hash.wrapping_mul(31).wrapping_add(player.w3);
    hash
}

pub fn generate_loot_hash(slot: u64, player: &Address) -> (r: u64)
    ensures
        r == chest_loot_seed(slot, *player),
{
    mix_words(slot, player)
}

pub fn generate_boss_loot_hash(slot: u64, player: &Address, boss_id: u16) -> (r: u64)
    ensures
        r == boss_loot_seed(slot, *player, boss_id),
{
    mix_words(slot.wrapping_mul(31).wrapping_add(boss_id as u64), player)
}

/// Proof that a player took their share of a room's chest or boss.
#[derive(Clone, Copy, Debug)]
pub struct LootReceipt {
    pub player: Address,
    pub season_seed: u64,
    pub room_x: i8,
    pub room_y: i8,
    pub bump: u8,
}

/// Inventory stacks after adding the first `n` drops.
pub open spec fn with_drops(items: Seq<InventoryItem>, drops: Seq<LootStack>, n: int) -> Seq<InventoryItem>
    decreases n,
{
    if n <= 0 {
        items
    } else {
        let d = drops[n - 1];
        added(with_drops(items, drops, n - 1), d.item_id, d.amount, d.durability)
    }
}

/// The first failure met while adding the first `n` drops, if any.
pub open spec fn drops_error(items: Seq<InventoryItem>, drops: Seq<LootStack>, n: int) -> Option<ChainDepthError>
    decreases n,
{
    if n <= 0 {
        None
    } else {
        match drops_error(items, drops, n - 1) {
            Some(e) => Some(e),
            None => {
                let d = drops[n - 1];
                add_error(with_drops(items, drops, n - 1), MAX_INVENTORY_SLOTS as int, d.item_id, d.amount, d.durability)
            },
        }
    }
}

proof fn lemma_drops_error_sticks(items: Seq<InventoryItem>, drops: Seq<LootStack>, i: int, n: int)
    requires
        0 <= i <= n,
        drops_error(items, drops, i) is Some,
    ensures
        drops_error(items, drops, n) == drops_error(items, drops, i),
    decreases n - i,
{
    if i < n {
        lemma_drops_error_sticks(items, drops, i, n - 1);
    }
}

/// Adds every drop to `items`, or nothing if one cannot be added.
fn add_drops(items: &mut Vec<InventoryItem>, drops: &Vec<LootStack>) -> (r: Result<(), ChainDepthError>)
    ensures
        r is Err <==> drops_error(old(items)@, drops@, drops@.len() as int) is Some,
        r is Err ==> r == Err::<(), ChainDepthError>(drops_error(old(items)@, drops@, drops@.len() as int)->0)
            && final(items)@ == old(items)@,
        r is Ok ==> final(items)@ == with_drops(old(items)@, drops@, drops@.len() as int),
{
    let ghost src = items@;
    let mut work: Vec<InventoryItem> = Vec::new();
    let mut k: usize = 0;
    while k < items.len()
        invariant
            k <= src.len(),
            items@ == src,
            work@ == src.take(k as int),
        decreases src.len() - k,
    {
        work.push(items[k]);
        k = k + 1;
        assert(work@ =~= src.take(k as int));
    }
    assert(src.take(k as int) =~= src);
    let mut i: usize = 0;
    while i < drops.len()
        invariant
            i <= drops@.len(),
            items@ == src,
            drops_error(src, drops@, i as int) is None,
            work@ == with_drops(src, drops@, i as int),
        decreases drops@.len() - i,
    {
        let d = drops[i];
        match add_stack(&mut work, MAX_INVENTORY_SLOTS, d.item_id, d.amount, d.durability) {
            Ok(()) => {},
            Err(e) => {
                proof {
                    lemma_drops_error_sticks(src, drops@, i as int + 1, drops@.len() as int);
                }
                return Err(e);
            },
        }
        i = i + 1;
    }
    *items = work;
    Ok(())
}

/// The skeleton key a forced key chest adds.
pub open spec fn key_stack() -> LootStack {
    LootStack { item_id: SKELETON_KEY, amount: 1, durability: 0, item_type: ITEM_TYPE_ORE }
}

/// Everything a chest hands out: its bundle, and the key if it holds one.
pub open spec fn chest_drops(room: RoomAccount, slot: u64, player: Address) -> Seq<LootStack> {
    let b = chest_bundle(chest_loot_seed(slot, player));
    if room.forced_key_drop { b.push(key_stack()) } else { b }
}

/// Stacks a fresh or existing inventory starts from.
pub open spec fn base_items(inventory: InventoryAccount) -> Seq<InventoryItem> {
    if inventory.owner.is_zero_spec() { Seq::empty() } else { inventory.items@ }
}

/// Why looting the chest is refused, if it is.
pub open spec fn loot_chest_error(
    room: RoomAccount,
    player: PlayerAccount,
    inventory: InventoryAccount,
    receipt: LootReceipt,
    actor: Address,
    now: u64,
) -> Option<ChainDepthError> {
    let drops = chest_drops(room, now, actor);
    if room.center_type != CENTER_CHEST {
        Some(ChainDepthError::NoChest)
    } else if !(player.current_room_x == room.x && player.current_room_y == room.y) {
        Some(ChainDepthError::NotInRoom)
    } else if !receipt.player.is_zero_spec() {
        Some(ChainDepthError::AlreadyLooted)
    } else if room.looted_count == u32::MAX || player.chests_looted == u64::MAX {
        Some(ChainDepthError::Overflow)
    } else {
        drops_error(base_items(inventory), drops, drops.len() as int)
    }
}

/// `actor` loots the chest of the room they stand in, once: the seeded bundle
/// (plus the key of a forced key chest) goes into their inventory and is returned.
pub fn loot_chest(
    room: &mut RoomAccount,
    player: &mut PlayerAccount,
    inventory: &mut InventoryAccount,
    receipt: &mut LootReceipt,
    actor: Address,
    season_seed: u64,
    now_slot: u64,
    receipt_bump: u8,
) -> (r: Result<Vec<LootStack>, ChainDepthError>)
    ensures
        r is Err <==> loot_chest_error(*old(room), *old(player), *old(inventory), *old(receipt), actor, now_slot) is Some,
        r is Err ==> r == Err::<Vec<LootStack>, ChainDepthError>(
            loot_chest_error(*old(room), *old(player), *old(inventory), *old(receipt), actor, now_slot)->0,
        ) && *final(room) == *old(room) && *final(player) == *old(player) && *final(inventory)
            == *old(inventory) && *final(receipt) == *old(receipt),
        r is Ok ==> {
            let drops = chest_drops(*old(room), now_slot, actor);
            &&& r->Ok_0@ == drops
            &&& final(inventory).items@ == with_drops(base_items(*old(inventory)), drops, drops.len() as int)
            &&& !old(inventory).owner.is_zero_spec() ==> final(inventory).owner == old(inventory).owner
            &&& old(inventory).owner.is_zero_spec() ==> final(inventory).owner == actor
            &&& *final(receipt) == (LootReceipt {
                player: actor,
                season_seed,
                room_x: old(room).x,
                room_y: old(room).y,
                bump: receipt_bump,
            })
            &&& *final(room) == (RoomAccount { looted_count: (old(room).looted_count + 1) as u32, ..*old(room) })
            &&& *final(player) == (PlayerAccount {
                chests_looted: (old(player).chests_looted + 1) as u64,
                ..*old(player)
            })
        },
{
    if room.center_type != CENTER_CHEST {
        return Err(ChainDepthError::NoChest);
    }
    if !player.is_at_room(room.x, room.y) {
        return Err(ChainDepthError::NotInRoom);
    }
    if !receipt.player.is_zero() {
        return Err(ChainDepthError::AlreadyLooted);
    }
    if room.looted_count == u32::MAX || player.chests_looted == u64::MAX {
        return Err(ChainDepthError::Overflow);
    }
    let seed = generate_loot_hash(now_slot, &actor);
    let mut drops = build_chest_loot_bundle(seed);
    if room.forced_key_drop {
        drops.push(LootStack { item_id: SKELETON_KEY, amount: 1, durability: 0, item_type: ITEM_TYPE_ORE });
    }
    let fresh = inventory.owner.is_zero();
    let mut items: Vec<InventoryItem> = if fresh {
        Vec::new()
    } else {
        copy_items(&inventory.items)
    };
    match add_drops(&mut items, &drops) {
        Ok(()) => {},
        Err(e) => {
            return Err(e);
        },
    }
    if fresh {
        inventory.owner = actor;
    }
    inventory.items = items;
    *receipt = LootReceipt { player: actor, season_seed, room_x: room.x, room_y: room.y, bump: receipt_bump };
    room.looted_count = room.looted_count + 1;
    player.chests_looted = player.chests_looted + 1;
    Ok(drops)
}

/// Why looting the boss is refused, if it is.
pub open spec fn loot_boss_error(
    room: RoomAccount,
    player: PlayerAccount,
    inventory: InventoryAccount,
    receipt: LootReceipt,
    actor: Address,
    now: u64,
) -> Option<ChainDepthError> {
    let caught = boss_caught_up(room, now);
    let drops = boss_bundle(boss_loot_seed(now, actor, room.center_id));
    if room.center_type != CENTER_BOSS {
        Some(ChainDepthError::NoBoss)
    } else if boss_damage_overflows(room, now) {
        Some(ChainDepthError::Overflow)
    } else if !caught.boss_defeated {
        Some(ChainDepthError::BossNotDefeated)
    } else if !(player.current_room_x == room.x && player.current_room_y == room.y) {
        Some(ChainDepthError::NotInRoom)
    } else if !receipt.player.is_zero_spec() {
        Some(ChainDepthError::AlreadyLooted)
    } else if room.looted_count == u32::MAX || player.chests_looted == u64::MAX {
        Some(ChainDepthError::Overflow)
    } else {
        drops_error(base_items(inventory), drops, drops.len() as int)
    }
}

/// `actor` loots a defeated boss in the room they stand in, once: the seeded
/// bundle goes into their inventory and is returned.
pub fn loot_boss(
    room: &mut RoomAccount,
    player: &mut PlayerAccount,
    inventory: &mut InventoryAccount,
    receipt: &mut LootReceipt,
    presence: &mut RoomPresence,
    actor: Address,
    season_seed: u64,
    now_slot: u64,
    receipt_bump: u8,
) -> (r: Result<Vec<LootStack>, ChainDepthError>)
    ensures
        r is Err <==> loot_boss_error(*old(room), *old(player), *old(inventory), *old(receipt), actor, now_slot) is Some,
        r is Err ==> r == Err::<Vec<LootStack>, ChainDepthError>(
            loot_boss_error(*old(room), *old(player), *old(inventory), *old(receipt), actor, now_slot)->0,
        ) && *final(room) == *old(room) && *final(player) == *old(player) && *final(inventory)
            == *old(inventory) && *final(receipt) == *old(receipt) && *final(presence) == *old(presence),
        r is Ok ==> {
            let drops = boss_bundle(boss_loot_seed(now_slot, actor, old(room).center_id));
            let caught = boss_caught_up(*old(room), now_slot);
            &&& r->Ok_0@ == drops
            &&& final(inventory).items@ == with_drops(base_items(*old(inventory)), drops, drops.len() as int)
            &&& *final(receipt) == (LootReceipt {
                player: actor,
                season_seed,
                room_x: old(room).x,
                room_y: old(room).y,
                bump: receipt_bump,
            })
            &&& *final(room) == (RoomAccount { looted_count: (old(room).looted_count + 1) as u32, ..caught })
            &&& *final(player) == (PlayerAccount {
                chests_looted: (old(player).chests_looted + 1) as u64,
                ..*old(player)
            })
            &&& *final(presence) == (RoomPresence {
                activity: ACTIVITY_IDLE,
                activity_direction: NO_DIRECTION,
                ..*old(presence)
            })
        },
{
    if room.center_type != CENTER_BOSS {
        return Err(ChainDepthError::NoBoss);
    }
    let mut caught = *room;
    match apply_boss_damage(&mut caught, now_slot) {
        Ok(()) => {},
        Err(e) => {
            return Err(e);
        },
    }
    if !caught.boss_defeated {
        return Err(ChainDepthError::BossNotDefeated);
    }
    if !player.is_at_room(room.x, room.y) {
        return Err(ChainDepthError::NotInRoom);
    }
    if !receipt.player.is_zero() {
        return Err(ChainDepthError::AlreadyLooted);
    }
    if room.looted_count == u32::MAX || player.chests_looted == u64::MAX {
        return Err(ChainDepthError::Overflow);
    }
    let seed = generate_boss_loot_hash(now_slot, &actor, room.center_id);
    let drops = build_boss_loot_bundle(seed);
    let fresh = inventory.owner.is_zero();
    let mut items: Vec<InventoryItem> = if fresh {
        Vec::new()
    } else {
        copy_items(&inventory.items)
    };
    match add_drops(&mut items, &drops) {
        Ok(()) => {},
        Err(e) => {
            return Err(e);
        },
    }
    if fresh {
        inventory.owner = actor;
    }
    inventory.items = items;
    *receipt = LootReceipt { player: actor, season_seed, room_x: room.x, room_y: room.y, bump: receipt_bump };
    caught.looted_count = caught.looted_count + 1;
    *room = caught;
    player.chests_looted = player.chests_looted + 1;
    presence.set_idle();
    Ok(drops)
}

} // verus!
