//! Boss encounters: the shared boss pool loses hit points lazily from the fighters'
//! damage per slot, and the boss hurts each active fighter every fixed step.

use vstd::prelude::*;
use crate::address::Address;
use crate::errors::ChainDepthError;
use crate::inventory::{InventoryAccount, InventoryItem};
use crate::items::{
    BRONZE_PICKAXE, BRONZE_SWORD, DIAMOND_SWORD, IRON_PICKAXE, IRON_SCIMITAR, IRON_SWORD,
    NOKIA_3310, TOOL, WOODEN_PIPE, WOODEN_TANKARD,
};
use crate::player::PlayerAccount;
use crate::presence::{RoomPresence, ACTIVITY_BOSS_FIGHT, ACTIVITY_IDLE, NO_DIRECTION};
use crate::room::{RoomAccount, CENTER_BOSS};
use crate::room_generation::{calculate_depth, depth_of};
use crate::run::{apply_death_outcome, loot_stacks, loot_units, not_loot, DeathOutcome};

verus! {

/// The boss strikes each fighter once per this many slots.
pub const PLAYER_BOSS_DAMAGE_SLOT_STEP: u64 = 150;
/// Damage of one strike at depth 0 by boss id 0.
pub const PLAYER_BOSS_BASE_DAMAGE_PER_TICK: u16 = 5;

/// One player's fight against one room's boss. An inactive record stays as an
/// idle marker.
#[derive(Clone, Copy, Debug)]
pub struct BossFightAccount {
    pub player: Address,
    pub room: Address,
    pub dps: u64,
    pub joined_slot: u64,
    pub last_damage_slot: u64,
    pub is_active: bool,
    pub bump: u8,
}

/// Damage per slot dealt by a fighter holding `item_id`; bare hands deal 1.
pub open spec fn dps_of(item_id: u16) -> u64 {
    if item_id == TOOL { 5 }
    else if item_id == BRONZE_PICKAXE { 4 }
    else if item_id == IRON_PICKAXE { 6 }
    else if item_id == BRONZE_SWORD { 7 }
    else if item_id == IRON_SWORD { 10 }
    else if item_id == DIAMOND_SWORD { 16 }
    else if item_id == NOKIA_3310 { 22 }
    else if item_id == WOODEN_PIPE { 5 }
    else if item_id == IRON_SCIMITAR { 12 }
    else if item_id == WOODEN_TANKARD { 3 }
    else { 1 }
}

pub fn weapon_dps(item_id: u16) -> (r: u64)
    ensures
        r == dps_of(item_id),
{
    match item_id {
        TOOL => 5,
        BRONZE_PICKAXE => 4,
        IRON_PICKAXE => 6,
        BRONZE_SWORD => 7,
        IRON_SWORD => 10,
        DIAMOND_SWORD => 16,
        NOKIA_3310 => 22,
        WOODEN_PIPE => 5,
        IRON_SCIMITAR => 12,
        WOODEN_TANKARD => 3,
        _ => 1,
    }
}

/// `5 * (1 + depth / 4) * (1 + boss_id % 5)`, capped at `u16::MAX`.
pub open spec fn strike_damage(depth: u32, boss_id: u16) -> u16 {
    let v = PLAYER_BOSS_BASE_DAMAGE_PER_TICK as int * (1 + depth as int / 4) * (1 + boss_id as int
        % 5);
    if v > u16::MAX { u16::MAX } else { v as u16 }
}

pub fn boss_damage_per_tick(depth: u32, boss_id: u16) -> (r: u16)
    ensures
        r == strike_damage(depth, boss_id),
{
    let depth_multiplier: u64 = 1 + (depth / 4) as u64;
    let id_multiplier: u64 = 1 + (boss_id % 5) as u64;
    assert(5 * depth_multiplier <= 5 * 0x4000_0001);
    let a: u64 = PLAYER_BOSS_BASE_DAMAGE_PER_TICK as u64 * depth_multiplier;
    assert(a * id_multiplier <= 5 * 0x4000_0001 * 5) by (nonlinear_arith)
        requires
            a <= 5 * 0x4000_0001,
            id_multiplier <= 5,
    ;
    let scaled: u64 = a * id_multiplier;
    if scaled > u16::MAX as u64 {
        u16::MAX
    } else {
        scaled as u16
    }
}

/// Whether the boss of `room` is currently losing hit points.
pub open spec fn boss_under_attack(room: RoomAccount) -> bool {
    room.center_type == CENTER_BOSS && !room.boss_defeated && room.boss_fighter_count > 0
}

pub open spec fn boss_elapsed(room: RoomAccount, now: u64) -> int {
    if now >= room.boss_last_update_slot { now - room.boss_last_update_slot } else { 0 }
}

/// Damage the boss has taken since its last update.
pub open spec fn pending_boss_damage(room: RoomAccount, now: u64) -> int {
    if boss_under_attack(room) { boss_elapsed(room, now) * room.boss_total_dps } else { 0 }
}

/// The boss update overflows.
pub open spec fn boss_damage_overflows(room: RoomAccount, now: u64) -> bool {
    pending_boss_damage(room, now) > u64::MAX
}

/// The room after catching the boss up to `now`: hit points fall by the pending
/// damage, floored at zero, and the boss is defeated once they reach zero.
pub open spec fn boss_caught_up(room: RoomAccount, now: u64) -> RoomAccount {
    let dmg = pending_boss_damage(room, now);
    if dmg == 0 {
        RoomAccount { boss_last_update_slot: now, ..room }
    } else {
        let hp = if room.boss_current_hp as int > dmg { (room.boss_current_hp - dmg) as u64 } else { 0u64 };
        RoomAccount {
            boss_current_hp: hp,
            boss_last_update_slot: now,
            boss_defeated: room.boss_defeated || hp == 0,
            ..room
        }
    }
}

/// Catches the boss of `room` up to `current_slot`.
pub fn apply_boss_damage(room: &mut RoomAccount, current_slot: u64) -> (r: Result<
    (),
    ChainDepthError,
>)
    ensures
        r is Err <==> boss_damage_overflows(*old(room), current_slot),
        r is Err ==> r == Err::<(), ChainDepthError>(ChainDepthError::Overflow) && *final(room)
            == *old(room),
        r is Ok ==> *final(room) == boss_caught_up(*old(room), current_slot),
{
    if room.center_type != CENTER_BOSS || room.boss_defeated || room.boss_fighter_count == 0 {
        room.boss_last_update_slot = current_slot;
        return Ok(());
    }
    let elapsed: u64 = if current_slot >= room.boss_last_update_slot {
        current_slot - room.boss_last_update_slot
    } else {
        0
    };
    if elapsed == 0 || room.boss_total_dps == 0 {
        assert(elapsed as int * room.boss_total_dps == 0) by (nonlinear_arith)
            requires
                elapsed == 0 || room.boss_total_dps == 0,
        ;
        room.boss_last_update_slot = current_slot;
        return Ok(());
    }
    let damage: u64 = match elapsed.checked_mul(room.boss_total_dps) {
        Some(v) => v,
        None => {
            return Err(ChainDepthError::Overflow);
        },
    };
    assert(damage > 0) by (nonlinear_arith)
        requires
            damage == elapsed * room.boss_total_dps,
            elapsed > 0,
            room.boss_total_dps > 0,
    ;
    room.boss_current_hp = if room.boss_current_hp > damage {
        room.boss_current_hp - damage
    } else {
        0
    };
    room.boss_last_update_slot = current_slot;
    if room.boss_current_hp == 0 {
        room.boss_defeated = true;
    }
    Ok(())
}

/// A boss whose fighters deal no damage never loses hit points, however long
/// they fight.
pub proof fn lemma_idle_fighters_leave_boss_whole(room: RoomAccount, now: u64)
    requires
        room.boss_total_dps == 0,
    ensures
        !boss_damage_overflows(room, now),
        boss_caught_up(room, now).boss_current_hp == room.boss_current_hp,
        boss_caught_up(room, now).boss_defeated == room.boss_defeated,
{
    assert(boss_elapsed(room, now) * 0 == 0);
}

/// Why joining the boss fight is refused, if it is.
pub open spec fn join_fight_error(
    room: RoomAccount,
    player: PlayerAccount,
    fight: BossFightAccount,
    now: u64,
) -> Option<ChainDepthError> {
    let caught = boss_caught_up(room, now);
    if room.center_type != CENTER_BOSS {
        Some(ChainDepthError::NoBoss)
    } else if !(player.current_room_x == room.x && player.current_room_y == room.y) {
        Some(ChainDepthError::NotInRoom)
    } else if boss_damage_overflows(room, now) {
        Some(ChainDepthError::Overflow)
    } else if caught.boss_defeated {
        Some(ChainDepthError::BossAlreadyDefeated)
    } else if player.current_hp == 0 {
        Some(ChainDepthError::PlayerDead)
    } else if fight.is_active {
        Some(ChainDepthError::AlreadyFightingBoss)
    } else if caught.boss_fighter_count == u32::MAX || caught.boss_total_dps + dps_of(
        player.equipped_item_id,
    ) > u64::MAX {
        Some(ChainDepthError::Overflow)
    } else {
        None
    }
}

/// `actor` joins the fight against the boss of the room they stand in, adding
/// the damage of their equipped item; the boss is first caught up to `now_slot`.
pub fn join_boss_fight(
    room: &mut RoomAccount,
    player: &PlayerAccount,
    presence: &mut RoomPresence,
    fight: &mut BossFightAccount,
    skin_id: u16,
    actor: Address,
    room_key: Address,
    now_slot: u64,
    fight_bump: u8,
) -> (r: Result<u64, ChainDepthError>)
    ensures
        r is Err <==> join_fight_error(*old(room), *player, *old(fight), now_slot) is Some,
        r is Err ==> r == Err::<u64, ChainDepthError>(
            join_fight_error(*old(room), *player, *old(fight), now_slot)->0,
        ) && *final(room) == *old(room) && *final(presence) == *old(presence) && *final(fight)
            == *old(fight),
        r is Ok ==> {
            let caught = boss_caught_up(*old(room), now_slot);
            let dps = dps_of(player.equipped_item_id);
            &&& r == Ok::<u64, ChainDepthError>(dps)
            &&& *final(room) == (RoomAccount {
                boss_fighter_count: (caught.boss_fighter_count + 1) as u32,
                boss_total_dps: (caught.boss_total_dps + dps) as u64,
                ..caught
            })
            &&& *final(fight) == (BossFightAccount {
                player: actor,
                room: room_key,
                dps,
                joined_slot: now_slot,
                last_damage_slot: now_slot,
                is_active: true,
                bump: fight_bump,
            })
            &&& *final(presence) == (RoomPresence {
                skin_id,
                equipped_item_id: player.equipped_item_id,
                activity: ACTIVITY_BOSS_FIGHT,
                activity_direction: NO_DIRECTION,
                is_current: true,
                ..*old(presence)
            })
        },
{
    if room.center_type != CENTER_BOSS {
        return Err(ChainDepthError::NoBoss);
    }
    if !player.is_at_room(room.x, room.y) {
        return Err(ChainDepthError::NotInRoom);
    }
    let mut caught = *room;
    match apply_boss_damage(&mut caught, now_slot) {
        Ok(()) => {},
        Err(e) => {
            return Err(e);
        },
    }
    if caught.boss_defeated {
        return Err(ChainDepthError::BossAlreadyDefeated);
    }
    if player.current_hp == 0 {
        return Err(ChainDepthError::PlayerDead);
    }
    if fight.is_active {
        return Err(ChainDepthError::AlreadyFightingBoss);
    }
    let fighter_dps = weapon_dps(player.equipped_item_id);
    if caught.boss_fighter_count == u32::MAX {
        return Err(ChainDepthError::Overflow);
    }
    let total_dps = match caught.boss_total_dps.checked_add(fighter_dps) {
        Some(v) => v,
        None => {
            return Err(ChainDepthError::Overflow);
        },
    };
    caught.boss_fighter_count = caught.boss_fighter_count + 1;
    caught.boss_total_dps = total_dps;
    *room = caught;
    *fight = BossFightAccount {
        player: actor,
        room: room_key,
        dps: fighter_dps,
        joined_slot: now_slot,
        last_damage_slot: now_slot,
        is_active: true,
        bump: fight_bump,
    };
    presence.skin_id = skin_id;
    presence.equipped_item_id = player.equipped_item_id;
    presence.set_boss_fight();
    presence.is_current = true;
    Ok(fighter_dps)
}

/// Why ticking the boss is refused, if it is.
pub open spec fn tick_fight_error(room: RoomAccount, now: u64) -> Option<ChainDepthError> {
    if room.center_type != CENTER_BOSS {
        Some(ChainDepthError::NoBoss)
    } else if room.boss_defeated {
        Some(ChainDepthError::BossAlreadyDefeated)
    } else if room.boss_fighter_count == 0 {
        Some(ChainDepthError::NoActiveJob)
    } else if boss_damage_overflows(room, now) {
        Some(ChainDepthError::Overflow)
    } else {
        None
    }
}

/// Anyone may catch a fought boss up to `now_slot`.
pub fn tick_boss_fight(room: &mut RoomAccount, now_slot: u64) -> (r: Result<(), ChainDepthError>)
    ensures
        r is Err <==> tick_fight_error(*old(room), now_slot) is Some,
        r is Err ==> r == Err::<(), ChainDepthError>(tick_fight_error(*old(room), now_slot)->0)
            && *final(room) == *old(room),
        r is Ok ==> *final(room) == boss_caught_up(*old(room), now_slot),
{
    if room.center_type != CENTER_BOSS {
        return Err(ChainDepthError::NoBoss);
    }
    if room.boss_defeated {
        return Err(ChainDepthError::BossAlreadyDefeated);
    }
    if room.boss_fighter_count == 0 {
        return Err(ChainDepthError::NoActiveJob);
    }
    apply_boss_damage(room, now_slot)
}

/// Whole strike steps elapsed since the fighter was last hit.
pub open spec fn strike_steps(fight: BossFightAccount, now: u64) -> int {
    if now >= fight.last_damage_slot {
        (now - fight.last_damage_slot) / PLAYER_BOSS_DAMAGE_SLOT_STEP as int
    } else {
        0
    }
}

/// Damage of the pending strikes, capped at `u16::MAX`.
pub open spec fn pending_strikes(room: RoomAccount, fight: BossFightAccount, now: u64) -> u16 {
    let per = strike_damage(depth_of(room.x as int, room.y as int) as u32, room.center_id);
    let v = per * strike_steps(fight, now);
    if v > u16::MAX { u16::MAX } else { v as u16 }
}

/// The strikes of the boss land on `actor`'s fight.
pub open spec fn strikes_land(fight: BossFightAccount, actor: Address, now: u64) -> bool {
    fight.is_active && fight.player == actor && strike_steps(fight, now) > 0
}

/// The fight after the pending strikes: its clock moves by whole steps.
pub open spec fn struck_fight(fight: BossFightAccount, now: u64) -> BossFightAccount {
    BossFightAccount {
        last_damage_slot: (fight.last_damage_slot + strike_steps(fight, now)
            * PLAYER_BOSS_DAMAGE_SLOT_STEP) as u64,
        ..fight
    }
}

pub open spec fn hp_after_strikes(player: PlayerAccount, room: RoomAccount, fight: BossFightAccount, now: u64) -> u16 {
    let d = pending_strikes(room, fight, now);
    if player.current_hp > d { (player.current_hp - d) as u16 } else { 0 }
}

/// The strikes kill the fighter and dropping their loot overflows a counter.
pub open spec fn death_overflows(inventory: InventoryAccount) -> bool {
    let items = inventory.items@;
    !inventory.owner.is_zero_spec() && (loot_stacks(items, items.len() as int) > u32::MAX
        || loot_units(items, items.len() as int) > u32::MAX)
}

/// Applies the boss's pending strikes to `actor`, a fighter in `room`; returns
/// whether they died. A death ends the run (see `apply_death_outcome`) and takes
/// the fighter out of the fight.
pub fn resolve_player_boss_damage(
    room: &mut RoomAccount,
    player: &mut PlayerAccount,
    presence: &mut RoomPresence,
    fight: &mut BossFightAccount,
    inventory: &mut InventoryAccount,
    actor: Address,
    now_slot: u64,
) -> (r: Result<bool, ChainDepthError>)
    ensures
        !strikes_land(*old(fight), actor, now_slot) ==> r == Ok::<bool, ChainDepthError>(false)
            && *final(room) == *old(room) && *final(player) == *old(player) && *final(presence)
            == *old(presence) && *final(fight) == *old(fight) && *final(inventory)
            == *old(inventory),
        strikes_land(*old(fight), actor, now_slot) && hp_after_strikes(*old(player), *old(room), *old(fight), now_slot) > 0
            ==> r == Ok::<bool, ChainDepthError>(false) && *final(room) == *old(room)
            && *final(player) == (PlayerAccount {
            current_hp: hp_after_strikes(*old(player), *old(room), *old(fight), now_slot),
            ..*old(player)
        }) && *final(presence) == *old(presence) && *final(fight) == struck_fight(
            *old(fight),
            now_slot,
        ) && *final(inventory) == *old(inventory),
        strikes_land(*old(fight), actor, now_slot) && hp_after_strikes(*old(player), *old(room), *old(fight), now_slot) == 0
            ==> {
            &&& r is Err <==> death_overflows(*old(inventory))
            &&& r is Err ==> r == Err::<bool, ChainDepthError>(ChainDepthError::Overflow)
                && *final(room) == *old(room) && *final(player) == *old(player) && *final(presence)
                == *old(presence) && *final(fight) == *old(fight) && *final(inventory)
                == *old(inventory)
            &&& r is Ok ==> {
                &&& r == Ok::<bool, ChainDepthError>(true)
                &&& *final(room) == (RoomAccount {
                    boss_fighter_count: if old(room).boss_fighter_count > 0 {
                        (old(room).boss_fighter_count - 1) as u32
                    } else {
                        0
                    },
                    boss_total_dps: if old(room).boss_total_dps > old(fight).dps {
                        (old(room).boss_total_dps - old(fight).dps) as u64
                    } else {
                        0
                    },
                    ..*old(room)
                })
                &&& *final(fight) == (BossFightAccount {
                    is_active: false,
                    dps: 0,
                    ..struck_fight(*old(fight), now_slot)
                })
                &&& !final(player).in_dungeon
                &&& final(player).current_hp == final(player).max_hp
                &&& final(player).total_score == old(player).total_score
                &&& old(inventory).owner.is_zero_spec() ==> final(inventory).items@.len() == 0
                    && final(inventory).owner == actor
                &&& !old(inventory).owner.is_zero_spec() ==> final(inventory).items@
                    == old(inventory).items@.filter(|it: InventoryItem| not_loot(it))
                &&& final(presence).activity == ACTIVITY_IDLE
            }
        },
{
    if !fight.is_active || fight.player != actor {
        return Ok(false);
    }
    let elapsed: u64 = if now_slot >= fight.last_damage_slot {
        now_slot - fight.last_damage_slot
    } else {
        0
    };
    if elapsed < PLAYER_BOSS_DAMAGE_SLOT_STEP {
        return Ok(false);
    }
    let ticks: u64 = elapsed / PLAYER_BOSS_DAMAGE_SLOT_STEP;
    let depth = calculate_depth(room.x, room.y);
    let per_tick = boss_damage_per_tick(depth, room.center_id);
    assert(per_tick as u128 * ticks as u128 <= 0xffff_u128 * 0xffff_ffff_ffff_ffff_u128) by (nonlinear_arith)
        requires
            per_tick <= 0xffff,
            ticks <= 0xffff_ffff_ffff_ffff,
    ;
    let raw: u128 = per_tick as u128 * ticks as u128;
    let total_damage: u16 = if raw > u16::MAX as u128 {
        u16::MAX
    } else {
        raw as u16
    };
    assert(ticks * PLAYER_BOSS_DAMAGE_SLOT_STEP <= elapsed) by (nonlinear_arith)
        requires
            ticks == elapsed / PLAYER_BOSS_DAMAGE_SLOT_STEP,
    ;
    let next_damage_slot: u64 = fight.last_damage_slot + ticks * PLAYER_BOSS_DAMAGE_SLOT_STEP;
    let new_hp: u16 = if player.current_hp > total_damage {
        player.current_hp - total_damage
    } else {
        0
    };
    if new_hp > 0 {
        fight.last_damage_slot = next_damage_slot;
        player.current_hp = new_hp;
        return Ok(false);
    }
    if inventory.owner.is_zero() {
        inventory.owner = actor;
        inventory.items = Vec::new();
    }
    let outcome: DeathOutcome = match apply_death_outcome(player, inventory, presence, now_slot) {
        Ok(o) => o,
        Err(e) => {
            return Err(e);
        },
    };
    if room.boss_fighter_count > 0 {
        room.boss_fighter_count = room.boss_fighter_count - 1;
    }
    room.boss_total_dps = if room.boss_total_dps > fight.dps {
        room.boss_total_dps - fight.dps
    } else {
        0
    };
    fight.last_damage_slot = next_damage_slot;
    fight.is_active = false;
    fight.dps = 0;
    presence.set_idle();
    Ok(true)
}

/// Why leaving the boss fight is refused, if it is.
pub open spec fn leave_fight_error(
    room: RoomAccount,
    player: PlayerAccount,
    fight: BossFightAccount,
    inventory: InventoryAccount,
    actor: Address,
    now: u64,
) -> Option<ChainDepthError> {
    let caught = boss_caught_up(room, now);
    if room.center_type != CENTER_BOSS {
        Some(ChainDepthError::NoBoss)
    } else if !(player.current_room_x == room.x && player.current_room_y == room.y) {
        Some(ChainDepthError::NotInRoom)
    } else if !fight.is_active {
        Some(ChainDepthError::NotBossFighter)
    } else if boss_damage_overflows(room, now) {
        Some(ChainDepthError::Overflow)
    } else if strikes_land(fight, actor, now) && hp_after_strikes(player, caught, fight, now) == 0
        && death_overflows(inventory) {
        Some(ChainDepthError::Overflow)
    } else {
        None
    }
}

/// `actor` leaves the fight: the boss is caught up, the boss's pending strikes
/// land (possibly killing them), and their damage leaves the boss's pool.
pub fn leave_boss_fight(
    room: &mut RoomAccount,
    player: &mut PlayerAccount,
    presence: &mut RoomPresence,
    fight: &mut BossFightAccount,
    inventory: &mut InventoryAccount,
    actor: Address,
    now_slot: u64,
) -> (r: Result<(), ChainDepthError>)
    ensures
        r is Err <==> leave_fight_error(*old(room), *old(player), *old(fight), *old(inventory), actor, now_slot) is Some,
        r is Err ==> r == Err::<(), ChainDepthError>(
            leave_fight_error(*old(room), *old(player), *old(fight), *old(inventory), actor, now_slot)->0,
        ) && *final(room) == *old(room) && *final(player) == *old(player) && *final(presence)
            == *old(presence) && *final(fight) == *old(fight) && *final(inventory)
            == *old(inventory),
        r is Ok ==> {
            let caught = boss_caught_up(*old(room), now_slot);
            let lands = strikes_land(*old(fight), actor, now_slot);
            let died = lands && hp_after_strikes(*old(player), caught, *old(fight), now_slot) == 0;
            &&& *final(room) == (RoomAccount {
                boss_fighter_count: if caught.boss_fighter_count > 0 {
                    (caught.boss_fighter_count - 1) as u32
                } else {
                    0
                },
                boss_total_dps: if caught.boss_total_dps > old(fight).dps {
                    (caught.boss_total_dps - old(fight).dps) as u64
                } else {
                    0
                },
                ..caught
            })
            &&& *final(fight) == (BossFightAccount {
                is_active: false,
                dps: 0,
                ..if lands { struck_fight(*old(fight), now_slot) } else { *old(fight) }
            })
            &&& final(presence).activity == ACTIVITY_IDLE
            &&& !died ==> *final(player) == (PlayerAccount {
                current_hp: if lands {
                    hp_after_strikes(*old(player), caught, *old(fight), now_slot)
                } else {
                    old(player).current_hp
                },
                ..*old(player)
            }) && *final(inventory) == *old(inventory)
            &&& died ==> !final(player).in_dungeon && final(player).current_hp == final(player).max_hp
        },
{
    if room.center_type != CENTER_BOSS {
        return Err(ChainDepthError::NoBoss);
    }
    if !player.is_at_room(room.x, room.y) {
        return Err(ChainDepthError::NotInRoom);
    }
    if !fight.is_active {
        return Err(ChainDepthError::NotBossFighter);
    }
    let mut caught = *room;
    match apply_boss_damage(&mut caught, now_slot) {
        Ok(()) => {},
        Err(e) => {
            return Err(e);
        },
    }
    let died = match resolve_player_boss_damage(
        &mut caught,
        player,
        presence,
        fight,
        inventory,
        actor,
        now_slot,
    ) {
        Ok(d) => d,
        Err(e) => {
            return Err(e);
        },
    };
    if !died && fight.is_active {
        if caught.boss_fighter_count > 0 {
            caught.boss_fighter_count = caught.boss_fighter_count - 1;
        }
        caught.boss_total_dps = if caught.boss_total_dps > fight.dps {
            caught.boss_total_dps - fight.dps
        } else {
            0
        };
        fight.is_active = false;
        fight.dps = 0;
        presence.set_idle();
    }
    *room = caught;
    Ok(())
}

} // verus!
