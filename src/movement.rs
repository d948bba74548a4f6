//! Moving between rooms, entering the dungeon, opening locked doors, and the
//! start room.

use vstd::prelude::*;
use crate::address::Address;
use crate::errors::ChainDepthError;
use crate::inventory::{remove_error, removed, InventoryAccount};
use crate::items::SKELETON_KEY;
use crate::player::{PlayerAccount, PlayerProfile, CURRENT_DATA_VERSION, DEFAULT_PLAYER_MAX_HP, DEFAULT_SKIN_ID};
use crate::presence::{RoomPresence, ACTIVITY_IDLE};
use crate::room::{
    in_bounds, opposite, opposite_direction, step_x, step_y, RoomAccount, DIRECTION_EAST,
    DIRECTION_NORTH, DIRECTION_SOUTH, DIRECTION_WEST, LOCK_KIND_NONE, LOCK_KIND_SKELETON,
    MAX_COORD, MIN_COORD, START_X, START_Y, WALL_ENTRANCE_STAIRS, WALL_LOCKED, WALL_OPEN,
};
use crate::room_generation::{
    calculate_depth, depth_of, discovered_fields, discovered_layout, initialize_discovered_room,
    reveal_adjacent_room,
};
use crate::season::GlobalAccount;

verus! {

/// Direction of the step from `(fx, fy)` to an orthogonal neighbour `(tx, ty)`.
pub open spec fn step_direction(fx: int, fy: int, tx: int, ty: int) -> u8 {
    if ty > fy {
        DIRECTION_NORTH
    } else if ty < fy {
        DIRECTION_SOUTH
    } else if tx > fx {
        DIRECTION_EAST
    } else {
        DIRECTION_WEST
    }
}

pub open spec fn orthogonal_neighbours(fx: int, fy: int, tx: int, ty: int) -> bool {
    (tx - fx == 1 || fx - tx == 1) && ty == fy || (ty - fy == 1 || fy - ty == 1) && tx == fx
}

/// Why a move to `(new_x, new_y)` is refused, if it is (for a fresh player the
/// move starts from the start room).
pub open spec fn move_error(player: PlayerAccount, current_room: RoomAccount, new_x: i8, new_y: i8) -> Option<ChainDepthError> {
    let fx = if player.owner.is_zero_spec() { START_X } else { player.current_room_x };
    let fy = if player.owner.is_zero_spec() { START_Y } else { player.current_room_y };
    if !(MIN_COORD <= new_x <= MAX_COORD) || !(MIN_COORD <= new_y <= MAX_COORD) {
        Some(ChainDepthError::OutOfBounds)
    } else if !(current_room.x == fx && current_room.y == fy) {
        Some(ChainDepthError::NotInRoom)
    } else if !orthogonal_neighbours(fx as int, fy as int, new_x as int, new_y as int) {
        Some(ChainDepthError::NotAdjacent)
    } else if current_room.walls[step_direction(fx as int, fy as int, new_x as int, new_y as int) as int]
        != WALL_OPEN {
        Some(ChainDepthError::WallNotOpen)
    } else {
        None
    }
}

/// The presence record after an upsert: claimed if blank, appearance refreshed.
pub open spec fn upserted(
    presence: RoomPresence,
    player: Address,
    season_seed: u64,
    room_x: i8,
    room_y: i8,
    skin_id: u16,
    equipped_item_id: u16,
    bump: u8,
) -> RoomPresence {
    let claimed = if presence.player.is_zero_spec() {
        RoomPresence { player, season_seed, room_x, room_y, bump, ..presence }
    } else {
        presence
    };
    RoomPresence { skin_id, equipped_item_id, ..claimed }
}

pub fn upsert_presence(
    presence: &mut RoomPresence,
    player: Address,
    season_seed: u64,
    room_x: i8,
    room_y: i8,
    skin_id: u16,
    equipped_item_id: u16,
    bump: u8,
)
    ensures
        *final(presence) == upserted(
            *old(presence),
            player,
            season_seed,
            room_x,
            room_y,
            skin_id,
            equipped_item_id,
            bump,
        ),
{
    if presence.player.is_zero() {
        presence.player = player;
        presence.season_seed = season_seed;
        presence.room_x = room_x;
        presence.room_y = room_y;
        presence.bump = bump;
    }
    presence.skin_id = skin_id;
    presence.equipped_item_id = equipped_item_id;
}

/// Moves a player one step through an open wall of the room they stand in.
/// A blank player record is first set up at the start room.
pub fn move_player(
    player: &mut PlayerAccount,
    profile: &mut PlayerProfile,
    current_room: &RoomAccount,
    current_presence: &mut RoomPresence,
    target_presence: &mut RoomPresence,
    global: &GlobalAccount,
    actor: Address,
    new_x: i8,
    new_y: i8,
    player_bump: u8,
    profile_bump: u8,
    current_presence_bump: u8,
    target_presence_bump: u8,
) -> (r: Result<(), ChainDepthError>)
    ensures
        r is Err <==> move_error(*old(player), *current_room, new_x, new_y) is Some,
        r is Err ==> r == Err::<(), ChainDepthError>(
            move_error(*old(player), *current_room, new_x, new_y)->0,
        ) && *final(player) == *old(player) && *final(profile) == *old(profile)
            && *final(current_presence) == *old(current_presence) && *final(target_presence)
            == *old(target_presence),
        r is Ok ==> {
            &&& final(player).current_room_x == new_x
            &&& final(player).current_room_y == new_y
            &&& !old(player).owner.is_zero_spec() ==> *final(player) == (PlayerAccount {
                current_room_x: new_x,
                current_room_y: new_y,
                ..*old(player)
            })
            &&& old(player).owner.is_zero_spec() ==> final(player).owner == actor
                && final(player).active_jobs@.len() == 0 && final(player).season_seed == global.season_seed
            &&& final(current_presence).is_current == false
            &&& final(target_presence).is_current
            &&& final(target_presence).activity == ACTIVITY_IDLE
        },
{
    let fresh = player.owner.is_zero();
    let from_x = if fresh { START_X } else { player.current_room_x };
    let from_y = if fresh { START_Y } else { player.current_room_y };
    if !(new_x >= MIN_COORD && new_x <= MAX_COORD) || !(new_y >= MIN_COORD && new_y <= MAX_COORD) {
        return Err(ChainDepthError::OutOfBounds);
    }
    if !(current_room.x == from_x && current_room.y == from_y) {
        return Err(ChainDepthError::NotInRoom);
    }
    let dx: i16 = new_x as i16 - from_x as i16;
    let dy: i16 = new_y as i16 - from_y as i16;
    if !((dx == 1 || dx == -1) && dy == 0 || (dy == 1 || dy == -1) && dx == 0) {
        return Err(ChainDepthError::NotAdjacent);
    }
    let direction: u8 = if new_y > from_y {
        DIRECTION_NORTH
    } else if new_y < from_y {
        DIRECTION_SOUTH
    } else if new_x > from_x {
        DIRECTION_EAST
    } else {
        DIRECTION_WEST
    };
    if current_room.walls[direction as usize] != WALL_OPEN {
        return Err(ChainDepthError::WallNotOpen);
    }
    if profile.owner.is_zero() {
        profile.owner = actor;
        profile.skin_id = DEFAULT_SKIN_ID;
        profile.display_name = String::new();
        profile.starter_pickaxe_granted = false;
        profile.bump = profile_bump;
    }
    if fresh {
        player.owner = actor;
        player.active_jobs = Vec::new();
        player.jobs_completed = 0;
        player.chests_looted = 0;
        player.equipped_item_id = 0;
        player.season_seed = global.season_seed;
        player.bump = player_bump;
    }
    upsert_presence(
        current_presence,
        actor,
        global.season_seed,
        from_x,
        from_y,
        profile.skin_id,
        player.equipped_item_id,
        current_presence_bump,
    );
    current_presence.is_current = false;
    player.current_room_x = new_x;
    player.current_room_y = new_y;
    upsert_presence(
        target_presence,
        actor,
        global.season_seed,
        new_x,
        new_y,
        profile.skin_id,
        player.equipped_item_id,
        target_presence_bump,
    );
    target_presence.is_current = true;
    target_presence.set_idle();
    Ok(())
}

/// The key item that opens a lock of kind `lock_kind`.
pub fn key_item_id_for_lock_kind(lock_kind: u8) -> (r: Result<u16, ChainDepthError>)
    ensures
        lock_kind == LOCK_KIND_SKELETON ==> r == Ok::<u16, ChainDepthError>(SKELETON_KEY),
        lock_kind == LOCK_KIND_NONE ==> r == Err::<u16, ChainDepthError>(ChainDepthError::WallNotLocked),
        lock_kind != LOCK_KIND_SKELETON && lock_kind != LOCK_KIND_NONE ==> r == Err::<u16, ChainDepthError>(
            ChainDepthError::InvalidLockKind,
        ),
{
    if lock_kind == LOCK_KIND_SKELETON {
        Ok(SKELETON_KEY)
    } else if lock_kind == LOCK_KIND_NONE {
        Err(ChainDepthError::WallNotLocked)
    } else {
        Err(ChainDepthError::InvalidLockKind)
    }
}

/// Why unlocking the door on `direction` is refused, if it is.
pub open spec fn unlock_error(
    room: RoomAccount,
    adjacent: RoomAccount,
    player: PlayerAccount,
    inventory: InventoryAccount,
    direction: u8,
) -> Option<ChainDepthError> {
    let nx = step_x(room.x as int, direction);
    let ny = step_y(room.y as int, direction);
    let kind = room.door_lock_kinds[direction as int];
    if direction >= 4 {
        Some(ChainDepthError::InvalidDirection)
    } else if !(player.current_room_x == room.x && player.current_room_y == room.y) {
        Some(ChainDepthError::NotInRoom)
    } else if room.walls[direction as int] != WALL_LOCKED {
        Some(ChainDepthError::WallNotLocked)
    } else if kind == LOCK_KIND_NONE {
        Some(ChainDepthError::WallNotLocked)
    } else if kind != LOCK_KIND_SKELETON {
        Some(ChainDepthError::InvalidLockKind)
    } else if !in_bounds(nx, ny) {
        Some(ChainDepthError::OutOfBounds)
    } else if adjacent.season_seed != 0 && (adjacent.x != nx || adjacent.y != ny) {
        Some(ChainDepthError::NotAdjacent)
    } else {
        remove_error(inventory.items@, SKELETON_KEY, 1)
    }
}

/// Opens the locked door on `direction` with one key from the player's inventory;
/// the room beyond is generated on first discovery and opened back, and the
/// season's depth advances to it. Returns the key item used.
pub fn unlock_door(
    global: &mut GlobalAccount,
    room: &mut RoomAccount,
    adjacent: &mut RoomAccount,
    player: &PlayerAccount,
    inventory: &mut InventoryAccount,
    actor: Address,
    direction: u8,
    now_slot: u64,
    adjacent_bump: u8,
) -> (r: Result<u16, ChainDepthError>)
    requires
        old(adjacent).season_seed != 0 ==> old(adjacent).wf(),
    ensures
        r is Err <==> unlock_error(*old(room), *old(adjacent), *player, *old(inventory), direction) is Some,
        r is Err ==> r == Err::<u16, ChainDepthError>(
            unlock_error(*old(room), *old(adjacent), *player, *old(inventory), direction)->0,
        ) && *final(global) == *old(global) && *final(room) == *old(room) && *final(adjacent)
            == *old(adjacent) && *final(inventory) == *old(inventory),
        r is Ok ==> {
            let d = direction as int;
            let nx = step_x(old(room).x as int, direction);
            let ny = step_y(old(room).y as int, direction);
            let back = opposite(direction);
            &&& r == Ok::<u16, ChainDepthError>(SKELETON_KEY)
            &&& final(inventory).items@ == removed(old(inventory).items@, SKELETON_KEY, 1)
            &&& *final(room) == (RoomAccount {
                walls: final(room).walls,
                door_lock_kinds: final(room).door_lock_kinds,
                ..*old(room)
            })
            &&& final(room).walls@ == old(room).walls@.update(d, WALL_OPEN)
            &&& final(room).door_lock_kinds@ == old(room).door_lock_kinds@.update(d, LOCK_KIND_NONE)
            &&& final(adjacent).walls[back as int] == WALL_OPEN
            &&& old(adjacent).season_seed == 0 ==> discovered_fields(
                *final(adjacent),
                old(global).season_seed,
                nx as i8,
                ny as i8,
                actor,
                now_slot,
                adjacent_bump,
            )
            &&& *final(global) == (GlobalAccount {
                depth: if depth_of(nx, ny) > old(global).depth as int {
                    depth_of(nx, ny) as u32
                } else {
                    old(global).depth
                },
                ..*old(global)
            })
        },
{
    if direction >= 4 {
        return Err(ChainDepthError::InvalidDirection);
    }
    let d = direction as usize;
    if !player.is_at_room(room.x, room.y) {
        return Err(ChainDepthError::NotInRoom);
    }
    if room.walls[d] != WALL_LOCKED {
        return Err(ChainDepthError::WallNotLocked);
    }
    let key_item_id = match key_item_id_for_lock_kind(room.door_lock_kinds[d]) {
        Ok(k) => k,
        Err(e) => {
            return Err(e);
        },
    };
    let nx: i16 = if direction == DIRECTION_EAST {
        room.x as i16 + 1
    } else if direction == DIRECTION_WEST {
        room.x as i16 - 1
    } else {
        room.x as i16
    };
    let ny: i16 = if direction == DIRECTION_NORTH {
        room.y as i16 + 1
    } else if direction == DIRECTION_SOUTH {
        room.y as i16 - 1
    } else {
        room.y as i16
    };
    if nx < MIN_COORD as i16 || nx > MAX_COORD as i16 || ny < MIN_COORD as i16 || ny
        > MAX_COORD as i16 {
        return Err(ChainDepthError::OutOfBounds);
    }
    let ax = nx as i8;
    let ay = ny as i8;
    if adjacent.season_seed != 0 && (adjacent.x != ax || adjacent.y != ay) {
        return Err(ChainDepthError::NotAdjacent);
    }
    match inventory.remove_item(key_item_id, 1) {
        Ok(()) => {},
        Err(e) => {
            return Err(e);
        },
    }
    room.walls[d] = WALL_OPEN;
    room.door_lock_kinds[d] = LOCK_KIND_NONE;
    assert(room.walls@ =~= old(room).walls@.update(d as int, WALL_OPEN));
    assert(room.door_lock_kinds@ =~= old(room).door_lock_kinds@.update(d as int, LOCK_KIND_NONE));
    let back = opposite_direction(direction);
    reveal_adjacent_room(adjacent, global.season_seed, ax, ay, back, actor, now_slot, adjacent_bump);
    let new_depth = calculate_depth(ax, ay);
    if new_depth > global.depth {
        global.depth = new_depth;
    }
    Ok(key_item_id)
}

/// Generates the start room of the season if `room` is blank: a depth-0 room
/// whose south wall is the entrance stairs. Returns whether it was generated.
pub fn ensure_start_room(
    room: &mut RoomAccount,
    season_seed: u64,
    created_by: Address,
    now_slot: u64,
    bump: u8,
) -> (r: bool)
    ensures
        r == (old(room).season_seed == 0),
        !r ==> *final(room) == *old(room),
        r ==> discovered_fields(*final(room), season_seed, START_X, START_Y, created_by, now_slot, bump)
            && final(room).walls@ == discovered_layout(season_seed, START_X, START_Y, DIRECTION_SOUTH).0.update(
            DIRECTION_SOUTH as int,
            WALL_ENTRANCE_STAIRS,
        ),
{
    if room.season_seed != 0 {
        return false;
    }
    initialize_discovered_room(room, season_seed, START_X, START_Y, DIRECTION_SOUTH, created_by, now_slot, bump);
    let ghost before = *room;
    room.walls[DIRECTION_SOUTH as usize] = WALL_ENTRANCE_STAIRS;
    proof {
        reveal(discovered_fields);
        assert(room.jobs == before.jobs);
    }
    assert(room.walls@ =~= before.walls@.update(DIRECTION_SOUTH as int, WALL_ENTRANCE_STAIRS));
    true
}

/// Starts (or restarts) a run at the start room, healed to full; a blank player
/// record is created first.
pub fn enter_dungeon(
    global: &GlobalAccount,
    player: &mut PlayerAccount,
    profile: &mut PlayerProfile,
    presence: &mut RoomPresence,
    actor: Address,
    now_slot: u64,
    player_bump: u8,
    profile_bump: u8,
    presence_bump: u8,
)
    ensures
        final(player).current_room_x == START_X && final(player).current_room_y == START_Y,
        final(player).in_dungeon,
        final(player).current_run_start_slot == now_slot,
        final(player).active_jobs@.len() == 0,
        final(player).season_seed == global.season_seed,
        final(player).max_hp >= DEFAULT_PLAYER_MAX_HP || final(player).max_hp == old(player).max_hp,
        final(player).current_hp == if old(player).owner.is_zero_spec() || old(player).max_hp
            < DEFAULT_PLAYER_MAX_HP {
            DEFAULT_PLAYER_MAX_HP
        } else {
            old(player).max_hp
        },
        !old(player).owner.is_zero_spec() ==> final(player).total_score == old(player).total_score,
        final(presence).player == actor && final(presence).room_x == START_X
            && final(presence).room_y == START_Y && final(presence).is_current
            && final(presence).activity == ACTIVITY_IDLE,
{
    if player.owner.is_zero() {
        player.owner = actor;
        player.jobs_completed = 0;
        player.chests_looted = 0;
        player.equipped_item_id = 0;
        player.total_score = 0;
        player.runs_extracted = 0;
        player.last_extraction_slot = 0;
        player.current_hp = DEFAULT_PLAYER_MAX_HP;
        player.max_hp = DEFAULT_PLAYER_MAX_HP;
        player.bump = player_bump;
    } else {
        player.current_hp = if player.max_hp > DEFAULT_PLAYER_MAX_HP {
            player.max_hp
        } else {
            DEFAULT_PLAYER_MAX_HP
        };
        if player.max_hp == 0 {
            player.max_hp = DEFAULT_PLAYER_MAX_HP;
        }
    }
    player.current_room_x = START_X;
    player.current_room_y = START_Y;
    player.in_dungeon = true;
    player.current_run_start_slot = now_slot;
    player.active_jobs = Vec::new();
    player.season_seed = global.season_seed;
    player.data_version = CURRENT_DATA_VERSION;
    if profile.owner.is_zero() {
        profile.owner = actor;
        profile.skin_id = DEFAULT_SKIN_ID;
        profile.display_name = String::new();
        profile.starter_pickaxe_granted = false;
        profile.bump = profile_bump;
    }
    presence.player = actor;
    presence.season_seed = global.season_seed;
    presence.room_x = START_X;
    presence.room_y = START_Y;
    presence.skin_id = profile.skin_id;
    presence.equipped_item_id = player.equipped_item_id;
    presence.set_idle();
    presence.is_current = true;
    presence.bump = presence_bump;
}

} // verus!
