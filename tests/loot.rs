use chaindepth::address::Address;
use chaindepth::errors::ChainDepthError;
use chaindepth::inventory::{InventoryAccount, InventoryItem};
use chaindepth::loot::{
    build_boss_loot_bundle, build_chest_loot_bundle, draw_weighted_index, generate_boss_loot_hash,
    generate_loot_hash, loot_chest, roll_amount, LootReceipt, LootSpec, LootStack,
};
use chaindepth::player::PlayerAccount;
use chaindepth::rng::SplitMix64;
use chaindepth::room::{JobSlot, RoomAccount, CENTER_CHEST, LOCK_KIND_NONE, WALL_SOLID};

fn addr(n: u64) -> Address {
    Address { w0: n, w1: 0, w2: 0, w3: 0 }
}

fn stack(item_id: u16, amount: u32, durability: u16, item_type: u8) -> LootStack {
    LootStack { item_id, amount, durability, item_type }
}

#[test]
fn chest_bundles_are_exact_and_reproducible() {
    assert_eq!(build_chest_loot_bundle(1), vec![stack(211, 1, 0, 1), stack(107, 1, 120, 2)]);
    assert_eq!(build_chest_loot_bundle(2), vec![stack(200, 7, 0, 1), stack(201, 6, 0, 1)]);
    assert_eq!(build_chest_loot_bundle(12345), vec![stack(211, 3, 0, 1)]);
    assert_eq!(build_chest_loot_bundle(99), build_chest_loot_bundle(99));
}

#[test]
fn boss_bundles_are_exact_and_richer() {
    assert_eq!(
        build_boss_loot_bundle(2),
        vec![stack(103, 1, 120, 2), stack(207, 1, 0, 1), stack(203, 2, 0, 1), stack(210, 1, 0, 1), stack(301, 3, 0, 3)]
    );
    for seed in 0u64..500 {
        let drops = build_boss_loot_bundle(seed);
        assert_eq!(drops[0].item_type, 2);
        let valuables: Vec<u16> = drops.iter().filter(|d| d.item_type == 1).map(|d| d.item_id).collect();
        assert!(valuables.len() >= 2 && valuables.len() <= 4);
        for (i, a) in valuables.iter().enumerate() {
            for b in valuables.iter().skip(i + 1) {
                assert_ne!(a, b);
            }
        }
    }
}

#[test]
fn loot_seeds_mix_slot_and_player() {
    assert_eq!(generate_loot_hash(1000, &addr(10)), 923818910);
    assert_eq!(generate_boss_loot_hash(1000, &addr(10), 2), 28631295952);
    assert_ne!(generate_loot_hash(1000, &addr(10)), generate_loot_hash(1000, &addr(11)));
}

#[test]
fn weighted_draw_respects_exclusions() {
    let pool = vec![
        LootSpec { item_id: 1, weight: 5, min_amount: 1, max_amount: 1 },
        LootSpec { item_id: 2, weight: 0, min_amount: 1, max_amount: 1 },
        LootSpec { item_id: 3, weight: 5, min_amount: 1, max_amount: 1 },
    ];
    let mut rng = SplitMix64::new(7);
    for _ in 0..200 {
        let i = draw_weighted_index(&pool, &mut rng, &vec![true, false, false]);
        assert_eq!(i, 2);
    }
    let before = rng;
    assert_eq!(draw_weighted_index(&pool, &mut rng, &vec![true, true, true]), 0);
    assert_eq!(rng, before);
    let fixed = LootSpec { item_id: 9, weight: 1, min_amount: 4, max_amount: 4 };
    assert_eq!(roll_amount(fixed, &mut rng), 4);
    assert_eq!(rng, before);
    let inverted = LootSpec { item_id: 9, weight: 1, min_amount: 6, max_amount: 2 };
    assert_eq!(roll_amount(inverted, &mut rng), 6);
}

fn chest_room(forced_key: bool) -> RoomAccount {
    let idle = JobSlot {
        helper_count: 0,
        progress: 0,
        start_slot: 0,
        last_update_slot: 0,
        base_slots: 300,
        total_staked: 0,
        completed: false,
        bonus_per_helper: 0,
    };
    RoomAccount {
        x: 5,
        y: 6,
        season_seed: 4242,
        walls: [WALL_SOLID; 4],
        door_lock_kinds: [LOCK_KIND_NONE; 4],
        jobs: [idle; 4],
        has_chest: true,
        forced_key_drop: forced_key,
        center_type: CENTER_CHEST,
        center_id: 1,
        boss_max_hp: 0,
        boss_current_hp: 0,
        boss_last_update_slot: 0,
        boss_total_dps: 0,
        boss_fighter_count: 0,
        boss_defeated: false,
        looted_count: 0,
        created_by: Address::zero(),
        created_slot: 0,
        bump: 0,
    }
}

fn looter() -> PlayerAccount {
    PlayerAccount {
        owner: addr(10),
        current_room_x: 5,
        current_room_y: 6,
        active_jobs: Vec::new(),
        jobs_completed: 0,
        chests_looted: 0,
        equipped_item_id: 0,
        total_score: 0,
        current_run_start_slot: 0,
        runs_extracted: 0,
        last_extraction_slot: 0,
        in_dungeon: true,
        current_hp: 100,
        max_hp: 100,
        data_version: 1,
        season_seed: 4242,
        bump: 0,
    }
}

#[test]
fn chest_is_looted_once_per_player() {
    let mut room = chest_room(true);
    let mut player = looter();
    let mut inventory = InventoryAccount { owner: Address::zero(), items: Vec::new(), bump: 0 };
    let mut receipt = LootReceipt { player: Address::zero(), season_seed: 0, room_x: 0, room_y: 0, bump: 0 };
    let drops = loot_chest(&mut room, &mut player, &mut inventory, &mut receipt, addr(10), 4242, 1000, 3).unwrap();
    assert_eq!(drops, vec![stack(201, 9, 0, 1), stack(206, 2, 0, 1), stack(214, 1, 0, 1)]);
    assert_eq!(
        inventory.items,
        vec![
            InventoryItem { item_id: 201, amount: 9, durability: 0 },
            InventoryItem { item_id: 206, amount: 2, durability: 0 },
            InventoryItem { item_id: 214, amount: 1, durability: 0 },
        ]
    );
    assert_eq!(inventory.owner, addr(10));
    assert_eq!(room.looted_count, 1);
    assert_eq!(player.chests_looted, 1);
    let again = loot_chest(&mut room, &mut player, &mut inventory, &mut receipt, addr(10), 4242, 1001, 3);
    assert_eq!(again.unwrap_err(), ChainDepthError::AlreadyLooted);
    assert_eq!(room.looted_count, 1);
}
