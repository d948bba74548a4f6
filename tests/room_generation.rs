use chaindepth::address::Address;
use chaindepth::room::{
    JobSlot, RoomAccount, CENTER_BOSS, CENTER_EMPTY, DIRECTION_NORTH, DIRECTION_SOUTH,
    LOCK_KIND_NONE, LOCK_KIND_SKELETON, MAX_COORD, MIN_COORD, START_X, START_Y, WALL_ENTRANCE_STAIRS,
    WALL_LOCKED, WALL_OPEN, WALL_RUBBLE, WALL_SOLID,
};
use chaindepth::room_generation::{
    apply_locked_doors, calculate_depth, enforce_special_room_topology, generate_room_center,
    generate_room_hash, generate_walls, initialize_discovered_room, is_bone_room,
    is_forced_key_chest, select_forced_key_chest_coords,
};
use chaindepth::movement::ensure_start_room;
use chaindepth::room::is_within_dungeon_bounds;

fn idle_slot() -> JobSlot {
    JobSlot {
        helper_count: 0,
        progress: 0,
        start_slot: 0,
        last_update_slot: 0,
        base_slots: 0,
        total_staked: 0,
        completed: false,
        bonus_per_helper: 0,
    }
}

fn blank_room() -> RoomAccount {
    RoomAccount {
        x: 0,
        y: 0,
        season_seed: 0,
        walls: [WALL_SOLID; 4],
        door_lock_kinds: [LOCK_KIND_NONE; 4],
        jobs: [idle_slot(); 4],
        has_chest: false,
        forced_key_drop: false,
        center_type: CENTER_EMPTY,
        center_id: 0,
        boss_max_hp: 0,
        boss_current_hp: 0,
        boss_last_update_slot: 0,
        boss_total_dps: 0,
        boss_fighter_count: 0,
        boss_defeated: false,
        looted_count: 0,
        created_by: Address::zero(),
        created_slot: 0,
        bump: 0,
    }
}

#[test]
fn room_generation_is_deterministic() {
    let seed = 12345u64;
    let x = 7i8;
    let y = 6i8;
    let entrance = 3u8;

    let first_hash = generate_room_hash(seed, x, y);
    let second_hash = generate_room_hash(seed, x, y);
    assert_eq!(first_hash, second_hash);

    let first_walls = generate_walls(first_hash, entrance);
    let second_walls = generate_walls(second_hash, entrance);
    assert_eq!(first_walls, second_walls);

    let depth = calculate_depth(x, y);
    let first_center = generate_room_center(seed, x, y, depth);
    let second_center = generate_room_center(seed, x, y, depth);
    assert_eq!(first_center, second_center);
}

#[test]
fn room_generation_exact_values() {
    assert_eq!(generate_room_hash(12345, 7, 6), 11863768);
    assert_eq!(generate_walls(11863768, 3), [WALL_SOLID, WALL_RUBBLE, WALL_RUBBLE, WALL_OPEN]);
    assert_eq!(calculate_depth(7, 6), 2);
    assert_eq!(calculate_depth(0, 9), 5);
    assert_eq!(generate_room_center(12345, 7, 6, 2), (CENTER_EMPTY, 0, false));
    assert_eq!(generate_room_center(12345, 8, 7, 3), (CENTER_BOSS, 1, false));
    assert_eq!(select_forced_key_chest_coords(12345, 2), Some((7, 7)));
    assert_eq!(select_forced_key_chest_coords(12345, 6), None);
}

#[test]
fn no_locked_doors_before_depth_two() {
    let seed = 12345u64;
    let x = START_X;
    let y = START_Y + 1;
    let depth = calculate_depth(x, y);
    assert_eq!(depth, 1);

    let mut walls = generate_walls(generate_room_hash(seed, x, y), 1);
    let mut lock_kinds = [LOCK_KIND_NONE; 4];
    apply_locked_doors(&mut walls, &mut lock_kinds, seed, x, y, depth, 1);

    assert!(walls.iter().all(|wall| *wall != WALL_LOCKED));
    assert!(lock_kinds.iter().all(|lock_kind| *lock_kind == LOCK_KIND_NONE));
}

#[test]
fn forced_key_chest_exists_for_depth_ring() {
    let seed = 424242u64;
    let depth = 3u32;
    let forced_coords = select_forced_key_chest_coords(seed, depth);
    assert!(forced_coords.is_some());

    let (forced_x, forced_y) = forced_coords.unwrap();
    assert_eq!(calculate_depth(forced_x, forced_y), depth);
    assert!(is_forced_key_chest(seed, forced_x, forced_y, depth));
    assert_eq!(forced_coords, Some((8, 6)));
}

#[test]
fn room_below_start_never_opens_north() {
    let mut room = blank_room();
    room.x = START_X;
    room.y = START_Y - 1;
    room.season_seed = 999;
    room.walls = [WALL_OPEN; 4];
    room.door_lock_kinds = [LOCK_KIND_SKELETON; 4];

    enforce_special_room_topology(&mut room);
    assert_eq!(room.walls[DIRECTION_NORTH as usize], WALL_SOLID);
    assert_eq!(room.door_lock_kinds[DIRECTION_NORTH as usize], LOCK_KIND_NONE);
}

#[test]
fn bone_rooms_never_touch_orthogonally() {
    let seed = 123456u64;
    for x in MIN_COORD..=MAX_COORD {
        for y in MIN_COORD..=MAX_COORD {
            let depth = calculate_depth(x, y);
            if !is_bone_room(seed, x, y, depth) {
                continue;
            }

            let neighbors = [(x + 1, y), (x - 1, y), (x, y + 1), (x, y - 1)];
            for (nx, ny) in neighbors {
                if !is_within_dungeon_bounds(nx, ny) {
                    continue;
                }

                let neighbor_depth = calculate_depth(nx, ny);
                assert!(
                    !is_bone_room(seed, nx, ny, neighbor_depth),
                    "Adjacent bone rooms found at ({x},{y}) and ({nx},{ny})"
                );
            }
        }
    }
}

#[test]
fn lock_placement_leaves_a_way_through() {
    for seed in 0u64..200 {
        for x in MIN_COORD..=MAX_COORD {
            for y in MIN_COORD..=MAX_COORD {
                let depth = calculate_depth(x, y);
                for entrance in 0u8..4 {
                    let mut walls = generate_walls(generate_room_hash(seed, x, y), entrance);
                    let mut kinds = [LOCK_KIND_NONE; 4];
                    apply_locked_doors(&mut walls, &mut kinds, seed, x, y, depth, entrance);
                    assert!(walls.iter().any(|w| *w == WALL_OPEN || *w == WALL_RUBBLE));
                    assert_eq!(walls[entrance as usize], WALL_OPEN);
                }
            }
        }
    }
}

#[test]
fn discovered_room_is_reproducible() {
    let mut a = blank_room();
    let mut b = blank_room();
    initialize_discovered_room(&mut a, 12345, 8, 7, DIRECTION_SOUTH, Address::zero(), 10, 1);
    initialize_discovered_room(&mut b, 12345, 8, 7, DIRECTION_SOUTH, Address::zero(), 99, 1);
    assert_eq!(a.walls, b.walls);
    assert_eq!(a.door_lock_kinds, b.door_lock_kinds);
    assert_eq!(a.center_type, CENTER_BOSS);
    assert_eq!(a.center_id, 1);
    assert_eq!(a.boss_max_hp, 600 * 1 * 2);
    assert_eq!(a.boss_current_hp, a.boss_max_hp);
    assert_eq!(a.jobs[0].base_slots, 300);
}

#[test]
fn start_room_has_entrance_stairs() {
    let mut room = blank_room();
    assert!(ensure_start_room(&mut room, 777, Address::zero(), 5, 0));
    assert_eq!(room.walls[DIRECTION_SOUTH as usize], WALL_ENTRANCE_STAIRS);
    assert_eq!((room.x, room.y), (START_X, START_Y));
    assert!(!ensure_start_room(&mut room, 777, Address::zero(), 6, 0));
}
