//! The end of a run: extraction at the entrance stairs banks and scores the
//! carried valuables; death drops them and scores nothing.

use vstd::prelude::*;
use crate::errors::ChainDepthError;
use crate::inventory::{add_error, added, copy_items, InventoryAccount, InventoryItem, StorageAccount, MAX_STORAGE_SLOTS};
use crate::player::{PlayerAccount, DEFAULT_PLAYER_MAX_HP};
use crate::presence::{RoomPresence, ACTIVITY_IDLE, NO_DIRECTION};
use crate::room::{RoomAccount, DIRECTION_SOUTH, START_X, START_Y, WALL_ENTRANCE_STAIRS};
use crate::scoring::{compute_time_bonus, is_scored_loot_item, score_value_for_item, scored_item, time_bonus, unit_value};

verus! {

pub open spec fn is_loot(it: InventoryItem) -> bool {
    scored_item(it.item_id)
}

pub open spec fn not_loot(it: InventoryItem) -> bool {
    !scored_item(it.item_id)
}

/// Stacks and units of scored loot among the first `n` stacks.
pub open spec fn loot_stacks(items: Seq<InventoryItem>, n: int) -> int
    decreases n,
{
    if n <= 0 {
        0
    } else {
        loot_stacks(items, n - 1) + if is_loot(items[n - 1]) { 1int } else { 0int }
    }
}

pub open spec fn loot_units(items: Seq<InventoryItem>, n: int) -> int
    decreases n,
{
    if n <= 0 {
        0
    } else {
        loot_units(items, n - 1) + if is_loot(items[n - 1]) {
            items[n - 1].amount as int
        } else {
            0int
        }
    }
}

/// Score of the scored loot among the first `n` stacks.
pub open spec fn loot_score(items: Seq<InventoryItem>, n: int) -> int
    decreases n,
{
    if n <= 0 {
        0
    } else {
        loot_score(items, n - 1) + if is_loot(items[n - 1]) {
            unit_value(items[n - 1].item_id) * items[n - 1].amount
        } else {
            0int
        }
    }
}

/// What a death cost.
#[derive(Clone, Copy, Debug, PartialEq, Eq, Structural)]
pub struct DeathOutcome {
    pub lost_item_stacks: u32,
    pub lost_item_units: u32,
    pub run_duration_slots: u64,
    /// Always zero: a death scores nothing.
    pub run_score: u64,
}

/// Slots the run lasted; an unset start counts as starting now.
pub open spec fn run_duration(start: u64, now: u64) -> u64 {
    if start == 0 || now < start { 0 } else { (now - start) as u64 }
}

/// The run ends in death: carried loot is dropped, the player leaves the dungeon
/// healed to full, and no score is awarded.
pub fn apply_death_outcome(
    player: &mut PlayerAccount,
    inventory: &mut InventoryAccount,
    presence: &mut RoomPresence,
    now_slot: u64,
) -> (r: Result<DeathOutcome, ChainDepthError>)
    ensures
        loot_stacks(old(inventory).items@, old(inventory).items@.len() as int) > u32::MAX
            || loot_units(old(inventory).items@, old(inventory).items@.len() as int) > u32::MAX
            <==> r is Err,
        r is Err ==> r == Err::<DeathOutcome, ChainDepthError>(ChainDepthError::Overflow)
            && *final(player) == *old(player) && *final(inventory) == *old(inventory)
            && *final(presence) == *old(presence),
        r is Ok ==> {
            let items = old(inventory).items@;
            let hp = if old(player).max_hp == 0 { DEFAULT_PLAYER_MAX_HP } else { old(player).max_hp };
            &&& r->Ok_0 == (DeathOutcome {
                lost_item_stacks: loot_stacks(items, items.len() as int) as u32,
                lost_item_units: loot_units(items, items.len() as int) as u32,
                run_duration_slots: run_duration(old(player).current_run_start_slot, now_slot),
                run_score: 0,
            })
            &&& final(inventory).items@ == items.filter(|it: InventoryItem| not_loot(it))
            &&& final(inventory).owner == old(inventory).owner
            &&& final(inventory).bump == old(inventory).bump
            &&& *final(player) == (PlayerAccount {
                last_extraction_slot: now_slot,
                current_run_start_slot: now_slot,
                in_dungeon: false,
                max_hp: hp,
                current_hp: hp,
                ..*old(player)
            })
            &&& *final(presence) == (RoomPresence {
                is_current: true,
                activity: ACTIVITY_IDLE,
                activity_direction: NO_DIRECTION,
                ..*old(presence)
            })
        },
{
    let mut lost_stacks: u32 = 0;
    let mut lost_units: u32 = 0;
    let mut kept: Vec<InventoryItem> = Vec::new();
    let mut i: usize = 0;
    let ghost src = inventory.items@;
    while i < inventory.items.len()
        invariant
            i <= src.len(),
            inventory.items@ == src,
            lost_stacks as int == loot_stacks(src, i as int),
            lost_units as int == loot_units(src, i as int),
            kept@ == src.take(i as int).filter(|it: InventoryItem| not_loot(it)),
        decreases src.len() - i,
    {
        let item = inventory.items[i];
        proof {
            let t = src.take(i as int + 1);
            assert(t.drop_last() =~= src.take(i as int));
            reveal(Seq::filter);
            lemma_loot_counts_grow(src, i as int + 1);
        }
        if is_scored_loot_item(item.item_id) {
            if lost_stacks == u32::MAX {
                proof { lemma_loot_counts_grow_to(src, i as int + 1, src.len() as int); }
                return Err(ChainDepthError::Overflow);
            }
            lost_stacks = lost_stacks + 1;
            match lost_units.checked_add(item.amount) {
                Some(v) => {
                    lost_units = v;
                },
                None => {
                    proof { lemma_loot_counts_grow_to(src, i as int + 1, src.len() as int); }
                    return Err(ChainDepthError::Overflow);
                },
            }
        } else {
            kept.push(item);
        }
        i = i + 1;
    }
    assert(src.take(i as int) =~= src);
    inventory.items = kept;
    let run_start_slot = if player.current_run_start_slot == 0 {
        now_slot
    } else {
        player.current_run_start_slot
    };
    let run_duration_slots = if now_slot >= run_start_slot {
        now_slot - run_start_slot
    } else {
        0
    };
    player.last_extraction_slot = now_slot;
    player.current_run_start_slot = now_slot;
    player.in_dungeon = false;
    if player.max_hp == 0 {
        player.max_hp = DEFAULT_PLAYER_MAX_HP;
    }
    player.current_hp = player.max_hp;
    presence.is_current = true;
    presence.set_idle();
    Ok(
        DeathOutcome {
            lost_item_stacks: lost_stacks,
            lost_item_units: lost_units,
            run_duration_slots,
            run_score: 0,
        },
    )
}

proof fn lemma_loot_counts_grow(items: Seq<InventoryItem>, n: int)
    requires
        0 <= n <= items.len(),
    ensures
        0 <= loot_stacks(items, n),
        0 <= loot_units(items, n),
        0 <= loot_score(items, n),
    decreases n,
{
    if n > 0 {
        lemma_loot_counts_grow(items, n - 1);
        assert(unit_value(items[n - 1].item_id) * items[n - 1].amount >= 0) by (nonlinear_arith);
    }
}

proof fn lemma_loot_counts_grow_to(items: Seq<InventoryItem>, i: int, n: int)
    requires
        0 <= i <= n <= items.len(),
    ensures
        loot_stacks(items, i) <= loot_stacks(items, n),
        loot_units(items, i) <= loot_units(items, n),
        loot_score(items, i) <= loot_score(items, n),
    decreases n - i,
{
    if i < n {
        lemma_loot_counts_grow_to(items, i, n - 1);
        assert(unit_value(items[n - 1].item_id) * items[n - 1].amount >= 0) by (nonlinear_arith);
    }
}

/// Storage stacks after banking the scored loot among the first `n` carried stacks.
pub open spec fn banked(storage: Seq<InventoryItem>, items: Seq<InventoryItem>, n: int) -> Seq<
    InventoryItem,
>
    decreases n,
{
    if n <= 0 {
        storage
    } else {
        let prev = banked(storage, items, n - 1);
        if is_loot(items[n - 1]) {
            added(prev, items[n - 1].item_id, items[n - 1].amount, items[n - 1].durability)
        } else {
            prev
        }
    }
}

/// The first failure met while banking the first `n` carried stacks, if any.
pub open spec fn banking_error(storage: Seq<InventoryItem>, items: Seq<InventoryItem>, n: int) -> Option<
    ChainDepthError,
>
    decreases n,
{
    if n <= 0 {
        None
    } else {
        match banking_error(storage, items, n - 1) {
            Some(e) => Some(e),
            None => {
                let it = items[n - 1];
                let prev = banked(storage, items, n - 1);
                if !is_loot(it) {
                    None
                } else if add_error(prev, MAX_STORAGE_SLOTS as int, it.item_id, it.amount, it.durability) is Some {
                    add_error(prev, MAX_STORAGE_SLOTS as int, it.item_id, it.amount, it.durability)
                } else if loot_score(items, n) > u64::MAX || loot_stacks(items, n) > u32::MAX
                    || loot_units(items, n) > u32::MAX {
                    Some(ChainDepthError::Overflow)
                } else {
                    None
                }
            },
        }
    }
}

/// Why extracting is refused, if it is.
pub open spec fn exit_error(
    room: RoomAccount,
    player: PlayerAccount,
    inventory: InventoryAccount,
    storage: StorageAccount,
    now: u64,
) -> Option<ChainDepthError> {
    let items = inventory.items@;
    let n = items.len() as int;
    let score = loot_score(items, n);
    let bonus = time_bonus(run_duration(player.current_run_start_slot, now) as int, score);
    if !(player.current_room_x == room.x && player.current_room_y == room.y) {
        Some(ChainDepthError::NotInRoom)
    } else if !(room.x == START_X && room.y == START_Y) {
        Some(ChainDepthError::NotAtEntranceRoom)
    } else if room.walls[DIRECTION_SOUTH as int] != WALL_ENTRANCE_STAIRS {
        Some(ChainDepthError::EntranceStairsRequired)
    } else if player.active_jobs@.len() != 0 {
        Some(ChainDepthError::CannotExitWithActiveJobs)
    } else if banking_error(storage.items@, items, n) is Some {
        banking_error(storage.items@, items, n)
    } else if score + bonus > u64::MAX || player.total_score + score + bonus > u64::MAX
        || player.runs_extracted == u64::MAX {
        Some(ChainDepthError::Overflow)
    } else {
        None
    }
}

/// Totals of an extraction.
#[derive(Clone, Copy, Debug, PartialEq, Eq, Structural)]
pub struct DungeonExited {
    pub run_score: u64,
    pub time_score: u64,
    pub loot_score: u64,
    pub extracted_item_stacks: u32,
    pub extracted_item_units: u32,
    pub total_score: u64,
    pub run_duration_slots: u64,
}

proof fn lemma_banking_error_sticks(storage: Seq<InventoryItem>, items: Seq<InventoryItem>, i: int, n: int)
    requires
        0 <= i <= n <= items.len(),
        banking_error(storage, items, i) is Some,
    ensures
        banking_error(storage, items, n) == banking_error(storage, items, i),
    decreases n - i,
{
    if i < n {
        lemma_banking_error_sticks(storage, items, i, n - 1);
    }
}

/// Extracts at the entrance stairs of the start room: every scored stack moves
/// into storage and counts towards the loot score, the time bonus is added, and
/// the run's score joins the player's total.
pub fn exit_dungeon(
    room: &RoomAccount,
    player: &mut PlayerAccount,
    inventory: &mut InventoryAccount,
    storage: &mut StorageAccount,
    presence: &mut RoomPresence,
    now_slot: u64,
) -> (r: Result<DungeonExited, ChainDepthError>)
    ensures
        r is Err <==> exit_error(*room, *old(player), *old(inventory), *old(storage), now_slot) is Some,
        r is Err ==> r == Err::<DungeonExited, ChainDepthError>(
            exit_error(*room, *old(player), *old(inventory), *old(storage), now_slot)->0,
        ) && *final(player) == *old(player) && *final(inventory) == *old(inventory)
            && *final(storage) == *old(storage) && *final(presence) == *old(presence),
        r is Ok ==> {
            let items = old(inventory).items@;
            let n = items.len() as int;
            let score = loot_score(items, n);
            let duration = run_duration(old(player).current_run_start_slot, now_slot);
            let bonus = time_bonus(duration as int, score);
            &&& r->Ok_0 == (DungeonExited {
                run_score: (score + bonus) as u64,
                time_score: bonus as u64,
                loot_score: score as u64,
                extracted_item_stacks: loot_stacks(items, n) as u32,
                extracted_item_units: loot_units(items, n) as u32,
                total_score: (old(player).total_score + score + bonus) as u64,
                run_duration_slots: duration,
            })
            &&& final(storage).items@ == banked(old(storage).items@, items, n)
            &&& final(storage).owner == old(storage).owner && final(storage).bump == old(storage).bump
            &&& final(inventory).items@ == items.filter(|it: InventoryItem| not_loot(it))
            &&& final(inventory).owner == old(inventory).owner
            &&& final(inventory).bump == old(inventory).bump
            &&& *final(player) == (PlayerAccount {
                total_score: (old(player).total_score + score + bonus) as u64,
                runs_extracted: (old(player).runs_extracted + 1) as u64,
                last_extraction_slot: now_slot,
                current_run_start_slot: now_slot,
                in_dungeon: false,
                ..*old(player)
            })
            &&& *final(presence) == (RoomPresence {
                is_current: true,
                activity: ACTIVITY_IDLE,
                activity_direction: NO_DIRECTION,
                ..*old(presence)
            })
        },
{
    if !player.is_at_room(room.x, room.y) {
        return Err(ChainDepthError::NotInRoom);
    }
    if !(room.x == START_X && room.y == START_Y) {
        return Err(ChainDepthError::NotAtEntranceRoom);
    }
    if room.walls[DIRECTION_SOUTH as usize] != WALL_ENTRANCE_STAIRS {
        return Err(ChainDepthError::EntranceStairsRequired);
    }
    if player.active_jobs.len() != 0 {
        return Err(ChainDepthError::CannotExitWithActiveJobs);
    }
    let ghost src = inventory.items@;
    let ghost st0 = storage.items@;
    let mut bank = copy_items(&storage.items);
    let mut kept: Vec<InventoryItem> = Vec::new();
    let mut score: u64 = 0;
    let mut stacks: u32 = 0;
    let mut units: u32 = 0;
    let mut i: usize = 0;
    while i < inventory.items.len()
        invariant
            i <= src.len(),
            inventory.items@ == src,
            storage.items@ == st0,
            *inventory == *old(inventory),
            *storage == *old(storage),
            *player == *old(player),
            *presence == *old(presence),
            player.current_room_x == room.x && player.current_room_y == room.y,
            room.x == START_X && room.y == START_Y,
            room.walls[DIRECTION_SOUTH as int] == WALL_ENTRANCE_STAIRS,
            player.active_jobs@.len() == 0,
            banking_error(st0, src, i as int) is None,
            bank@ == banked(st0, src, i as int),
            score as int == loot_score(src, i as int),
            stacks as int == loot_stacks(src, i as int),
            units as int == loot_units(src, i as int),
            kept@ == src.take(i as int).filter(|it: InventoryItem| not_loot(it)),
        decreases src.len() - i,
    {
        let item = inventory.items[i];
        proof {
            let t = src.take(i as int + 1);
            assert(t.drop_last() =~= src.take(i as int));
            reveal(Seq::filter);
            lemma_loot_counts_grow(src, i as int + 1);
        }
        if is_scored_loot_item(item.item_id) {
            match crate::inventory::add_stack(
                &mut bank,
                MAX_STORAGE_SLOTS,
                item.item_id,
                item.amount,
                item.durability,
            ) {
                Ok(()) => {},
                Err(e) => {
                    proof {
                        lemma_banking_error_sticks(st0, src, i as int + 1, src.len() as int);
                    }
                    return Err(e);
                },
            }
            let unit_score = score_value_for_item(item.item_id);
            let stack_score: u128 = unit_score as u128 * item.amount as u128;
            assert(stack_score == unit_value(item.item_id) * item.amount) by (nonlinear_arith)
                requires
                    stack_score == unit_score as u128 * item.amount as u128,
                    unit_score == unit_value(item.item_id),
            ;
            if score as u128 + stack_score > u64::MAX as u128 || stacks == u32::MAX
                || units as u64 + item.amount as u64 > u32::MAX as u64 {
                proof {
                    lemma_banking_error_sticks(st0, src, i as int + 1, src.len() as int);
                }
                return Err(ChainDepthError::Overflow);
            }
            score = score + stack_score as u64;
            stacks = stacks + 1;
            units = units + item.amount;
        } else {
            kept.push(item);
        }
        i = i + 1;
    }
    assert(src.take(i as int) =~= src);
    let run_start_slot = if player.current_run_start_slot == 0 {
        now_slot
    } else {
        player.current_run_start_slot
    };
    let run_duration_slots = if now_slot >= run_start_slot {
        now_slot - run_start_slot
    } else {
        0
    };
    let time_score = compute_time_bonus(run_duration_slots, score);
    if score as u128 + time_score as u128 > u64::MAX as u128 {
        return Err(ChainDepthError::Overflow);
    }
    let run_score = score + time_score;
    if player.total_score as u128 + run_score as u128 > u64::MAX as u128 {
        return Err(ChainDepthError::Overflow);
    }
    if player.runs_extracted == u64::MAX {
        return Err(ChainDepthError::Overflow);
    }
    storage.items = bank;
    inventory.items = kept;
    player.total_score = player.total_score + run_score;
    player.runs_extracted = player.runs_extracted + 1;
    player.last_extraction_slot = now_slot;
    player.current_run_start_slot = now_slot;
    player.in_dungeon = false;
    presence.is_current = true;
    presence.set_idle();
    Ok(
        DungeonExited {
            run_score,
            time_score,
            loot_score: score,
            extracted_item_stacks: stacks,
            extracted_item_units: units,
            total_score: player.total_score,
            run_duration_slots,
        },
    )
}

/// Why a forced exit on death is refused, if it is.
pub open spec fn death_exit_error(room: RoomAccount, player: PlayerAccount, inventory: InventoryAccount) -> Option<ChainDepthError> {
    let items = inventory.items@;
    if !(player.current_room_x == room.x && player.current_room_y == room.y) {
        Some(ChainDepthError::NotInRoom)
    } else if loot_stacks(items, items.len() as int) > u32::MAX || loot_units(items, items.len() as int) > u32::MAX {
        Some(ChainDepthError::Overflow)
    } else {
        None
    }
}

/// Ends the run of a player in `room` on death (see `apply_death_outcome`).
pub fn force_exit_on_death(
    room: &RoomAccount,
    player: &mut PlayerAccount,
    inventory: &mut InventoryAccount,
    presence: &mut RoomPresence,
    now_slot: u64,
) -> (r: Result<DeathOutcome, ChainDepthError>)
    ensures
        r is Err <==> death_exit_error(*room, *old(player), *old(inventory)) is Some,
        r is Err ==> r == Err::<DeathOutcome, ChainDepthError>(
            death_exit_error(*room, *old(player), *old(inventory))->0,
        ) && *final(player) == *old(player) && *final(inventory) == *old(inventory)
            && *final(presence) == *old(presence),
        r is Ok ==> r->Ok_0.run_score == 0 && final(inventory).items@ == old(inventory).items@.filter(
            |it: InventoryItem| not_loot(it),
        ) && final(player).total_score == old(player).total_score && !final(player).in_dungeon,
{
    if !player.is_at_room(room.x, room.y) {
        return Err(ChainDepthError::NotInRoom);
    }
    apply_death_outcome(player, inventory, presence, now_slot)
}

} // verus!
