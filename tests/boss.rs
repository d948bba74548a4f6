use chaindepth::address::Address;
use chaindepth::boss::{
    apply_boss_damage, boss_damage_per_tick, join_boss_fight, leave_boss_fight, tick_boss_fight,
    weapon_dps, BossFightAccount,
};
use chaindepth::errors::ChainDepthError;
use chaindepth::inventory::{InventoryAccount, InventoryItem};
use chaindepth::player::PlayerAccount;
use chaindepth::presence::{RoomPresence, ACTIVITY_BOSS_FIGHT, ACTIVITY_IDLE};
use chaindepth::room::{JobSlot, RoomAccount, CENTER_BOSS, LOCK_KIND_NONE, WALL_SOLID};

fn addr(n: u64) -> Address {
    Address { w0: n, w1: 0, w2: 0, w3: 0 }
}

fn boss_room(hp: u64, fighters: u32, dps: u64) -> RoomAccount {
    let idle = JobSlot {
        helper_count: 0,
        progress: 0,
        start_slot: 0,
        last_update_slot: 0,
        base_slots: 300,
        total_staked: 0,
        completed: false,
        bonus_per_helper: 0,
    };
    RoomAccount {
        x: 8,
        y: 7,
        season_seed: 4242,
        walls: [WALL_SOLID; 4],
        door_lock_kinds: [LOCK_KIND_NONE; 4],
        jobs: [idle; 4],
        has_chest: false,
        forced_key_drop: false,
        center_type: CENTER_BOSS,
        center_id: 1,
        boss_max_hp: hp,
        boss_current_hp: hp,
        boss_last_update_slot: 100,
        boss_total_dps: dps,
        boss_fighter_count: fighters,
        boss_defeated: false,
        looted_count: 0,
        created_by: Address::zero(),
        created_slot: 0,
        bump: 0,
    }
}

fn fighter(hp: u16) -> PlayerAccount {
    PlayerAccount {
        owner: addr(10),
        current_room_x: 8,
        current_room_y: 7,
        active_jobs: Vec::new(),
        jobs_completed: 0,
        chests_looted: 0,
        equipped_item_id: 103,
        total_score: 40,
        current_run_start_slot: 50,
        runs_extracted: 0,
        last_extraction_slot: 0,
        in_dungeon: true,
        current_hp: hp,
        max_hp: 100,
        data_version: 1,
        season_seed: 4242,
        bump: 0,
    }
}

fn presence() -> RoomPresence {
    RoomPresence {
        player: addr(10),
        season_seed: 4242,
        room_x: 8,
        room_y: 7,
        skin_id: 0,
        equipped_item_id: 0,
        activity: ACTIVITY_IDLE,
        activity_direction: 255,
        is_current: true,
        bump: 0,
    }
}

fn idle_fight() -> BossFightAccount {
    BossFightAccount {
        player: Address::zero(),
        room: Address::zero(),
        dps: 0,
        joined_slot: 0,
        last_damage_slot: 0,
        is_active: false,
        bump: 0,
    }
}

#[test]
fn boss_without_damage_keeps_its_hit_points() {
    let mut room = boss_room(1200, 3, 0);
    apply_boss_damage(&mut room, u64::MAX).unwrap();
    assert_eq!(room.boss_current_hp, 1200);
    assert!(!room.boss_defeated);
    assert_eq!(room.boss_last_update_slot, u64::MAX);
}

#[test]
fn boss_hit_points_fall_with_fighter_damage() {
    let mut room = boss_room(1200, 2, 10);
    apply_boss_damage(&mut room, 150).unwrap();
    assert_eq!(room.boss_current_hp, 700);
    apply_boss_damage(&mut room, 10_000).unwrap();
    assert_eq!(room.boss_current_hp, 0);
    assert!(room.boss_defeated);
    assert_eq!(tick_boss_fight(&mut room, 10_001).unwrap_err(), ChainDepthError::BossAlreadyDefeated);
    let mut huge = boss_room(1200, 1, u64::MAX);
    assert_eq!(apply_boss_damage(&mut huge, 102).unwrap_err(), ChainDepthError::Overflow);
    assert_eq!(huge.boss_current_hp, 1200);
}

#[test]
fn boss_strikes_scale_with_depth_and_id() {
    assert_eq!(boss_damage_per_tick(0, 0), 5);
    assert_eq!(boss_damage_per_tick(3, 1), 10);
    assert_eq!(boss_damage_per_tick(8, 4), 75);
    assert_eq!(weapon_dps(0), 1);
    assert_eq!(weapon_dps(103), 10);
    assert_eq!(weapon_dps(105), 22);
}

#[test]
fn fighters_join_take_strikes_and_leave() {
    let mut room = boss_room(5000, 0, 0);
    let player = fighter(100);
    let mut pres = presence();
    let mut fight = idle_fight();
    let dps = join_boss_fight(&mut room, &player, &mut pres, &mut fight, 7, addr(10), addr(99), 200, 1).unwrap();
    assert_eq!(dps, 10);
    assert_eq!(room.boss_fighter_count, 1);
    assert_eq!(room.boss_total_dps, 10);
    assert_eq!(pres.activity, ACTIVITY_BOSS_FIGHT);
    let again = join_boss_fight(&mut room, &player, &mut pres, &mut fight, 7, addr(10), addr(99), 201, 1);
    assert_eq!(again.unwrap_err(), ChainDepthError::AlreadyFightingBoss);

    let mut player = player;
    let mut inventory = InventoryAccount { owner: addr(10), items: Vec::new(), bump: 0 };
    leave_boss_fight(&mut room, &mut player, &mut pres, &mut fight, &mut inventory, addr(10), 500).unwrap();
    assert_eq!(room.boss_current_hp, 5000 - 300 * 10);
    assert_eq!(room.boss_fighter_count, 0);
    assert_eq!(room.boss_total_dps, 0);
    assert!(!fight.is_active);
    assert_eq!(player.current_hp, 100 - 2 * 10);
    assert_eq!(fight.last_damage_slot, 500);
}

#[test]
fn a_fighter_killed_by_the_boss_drops_loot() {
    let mut room = boss_room(50_000, 0, 0);
    let mut player = fighter(15);
    let mut pres = presence();
    let mut fight = idle_fight();
    join_boss_fight(&mut room, &player, &mut pres, &mut fight, 0, addr(10), addr(99), 200, 1).unwrap();
    let mut inventory = InventoryAccount {
        owner: addr(10),
        items: vec![
            InventoryItem { item_id: 201, amount: 5, durability: 0 },
            InventoryItem { item_id: 103, amount: 1, durability: 120 },
        ],
        bump: 0,
    };
    leave_boss_fight(&mut room, &mut player, &mut pres, &mut fight, &mut inventory, addr(10), 500).unwrap();
    assert_eq!(inventory.items, vec![InventoryItem { item_id: 103, amount: 1, durability: 120 }]);
    assert!(!player.in_dungeon);
    assert_eq!(player.current_hp, 100);
    assert_eq!(player.total_score, 40);
    assert_eq!(room.boss_fighter_count, 0);
    assert!(!fight.is_active);
}
