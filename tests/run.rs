use chaindepth::address::Address;
use chaindepth::errors::ChainDepthError;
use chaindepth::inventory::{InventoryAccount, InventoryItem, StorageAccount};
use chaindepth::movement::ensure_start_room;
use chaindepth::player::{ActiveJob, PlayerAccount};
use chaindepth::presence::{RoomPresence, ACTIVITY_IDLE};
use chaindepth::room::{JobSlot, RoomAccount, CENTER_EMPTY, LOCK_KIND_NONE, WALL_SOLID};
use chaindepth::run::{exit_dungeon, force_exit_on_death};

fn addr(n: u64) -> Address {
    Address { w0: n, w1: 0, w2: 0, w3: 0 }
}

fn blank_room() -> RoomAccount {
    let idle = JobSlot {
        helper_count: 0,
        progress: 0,
        start_slot: 0,
        last_update_slot: 0,
        base_slots: 0,
        total_staked: 0,
        completed: false,
        bonus_per_helper: 0,
    };
    RoomAccount {
        x: 0,
        y: 0,
        season_seed: 0,
        walls: [WALL_SOLID; 4],
        door_lock_kinds: [LOCK_KIND_NONE; 4],
        jobs: [idle; 4],
        has_chest: false,
        forced_key_drop: false,
        center_type: CENTER_EMPTY,
        center_id: 0,
        boss_max_hp: 0,
        boss_current_hp: 0,
        boss_last_update_slot: 0,
        boss_total_dps: 0,
        boss_fighter_count: 0,
        boss_defeated: false,
        looted_count: 0,
        created_by: Address::zero(),
        created_slot: 0,
        bump: 0,
    }
}

fn runner(x: i8, y: i8) -> PlayerAccount {
    PlayerAccount {
        owner: addr(10),
        current_room_x: x,
        current_room_y: y,
        active_jobs: Vec::new(),
        jobs_completed: 0,
        chests_looted: 0,
        equipped_item_id: 0,
        total_score: 7,
        current_run_start_slot: 1000,
        runs_extracted: 2,
        last_extraction_slot: 0,
        in_dungeon: true,
        current_hp: 60,
        max_hp: 100,
        data_version: 1,
        season_seed: 4242,
        bump: 0,
    }
}

fn presence() -> RoomPresence {
    RoomPresence {
        player: addr(10),
        season_seed: 4242,
        room_x: 5,
        room_y: 5,
        skin_id: 0,
        equipped_item_id: 0,
        activity: 1,
        activity_direction: 0,
        is_current: false,
        bump: 0,
    }
}

fn carried() -> InventoryAccount {
    InventoryAccount {
        owner: addr(10),
        items: vec![
            InventoryItem { item_id: 201, amount: 10, durability: 0 },
            InventoryItem { item_id: 103, amount: 1, durability: 120 },
            InventoryItem { item_id: 207, amount: 2, durability: 0 },
        ],
        bump: 0,
    }
}

#[test]
fn extraction_banks_and_scores_loot() {
    let mut room = blank_room();
    ensure_start_room(&mut room, 4242, addr(1), 0, 0);
    let mut player = runner(5, 5);
    let mut inventory = carried();
    let mut storage = StorageAccount { owner: addr(10), items: Vec::new(), bump: 0 };
    let mut pres = presence();
    let exited = exit_dungeon(&room, &mut player, &mut inventory, &mut storage, &mut pres, 1000 + 1200).unwrap();
    assert_eq!(exited.loot_score, 10 * 3 + 2 * 20);
    assert_eq!(exited.time_score, 2);
    assert_eq!(exited.run_score, 72);
    assert_eq!(exited.extracted_item_stacks, 2);
    assert_eq!(exited.extracted_item_units, 12);
    assert_eq!(player.total_score, 79);
    assert_eq!(player.runs_extracted, 3);
    assert!(!player.in_dungeon);
    assert_eq!(inventory.items, vec![InventoryItem { item_id: 103, amount: 1, durability: 120 }]);
    assert_eq!(
        storage.items,
        vec![
            InventoryItem { item_id: 201, amount: 10, durability: 0 },
            InventoryItem { item_id: 207, amount: 2, durability: 0 },
        ]
    );
    assert_eq!(pres.activity, ACTIVITY_IDLE);
}

#[test]
fn extraction_needs_the_entrance_and_no_jobs() {
    let mut room = blank_room();
    ensure_start_room(&mut room, 4242, addr(1), 0, 0);
    let mut storage = StorageAccount { owner: addr(10), items: Vec::new(), bump: 0 };
    let mut pres = presence();
    let mut inventory = carried();
    let mut away = runner(5, 6);
    assert_eq!(
        exit_dungeon(&room, &mut away, &mut inventory, &mut storage, &mut pres, 5).unwrap_err(),
        ChainDepthError::NotInRoom
    );
    let mut busy = runner(5, 5);
    busy.active_jobs.push(ActiveJob { room_x: 5, room_y: 5, direction: 0 });
    assert_eq!(
        exit_dungeon(&room, &mut busy, &mut inventory, &mut storage, &mut pres, 5).unwrap_err(),
        ChainDepthError::CannotExitWithActiveJobs
    );
    assert_eq!(inventory.items.len(), 3);
}

#[test]
fn death_forfeits_the_run() {
    let room = blank_room();
    let mut player = runner(0, 0);
    let mut inventory = carried();
    let mut pres = presence();
    let outcome = force_exit_on_death(&room, &mut player, &mut inventory, &mut pres, 1500).unwrap();
    assert_eq!(outcome.run_score, 0);
    assert_eq!(outcome.lost_item_stacks, 2);
    assert_eq!(outcome.lost_item_units, 12);
    assert_eq!(outcome.run_duration_slots, 500);
    assert_eq!(player.total_score, 7);
    assert_eq!(player.current_hp, 100);
    assert!(!player.in_dungeon);
    assert_eq!(inventory.items, vec![InventoryItem { item_id: 103, amount: 1, durability: 120 }]);
}
