//! Procedural topology: a room's walls, locks and centre feature follow from the
//! season seed and its coordinates alone.

use vstd::prelude::*;
use crate::address::Address;
use crate::rng::{wrap_add, wrap_mul};
use crate::room::{
    adjacent_coords, base_slots_for, boss_hp, boss_hp_for_depth, clamp_boundary_walls,
    clamped_walls, in_bounds, is_within_dungeon_bounds, step_x, step_y, JobSlot, RoomAccount,
    CENTER_BOSS, CENTER_CHEST, CENTER_EMPTY, DIRECTION_NORTH, LOCK_KIND_NONE, LOCK_KIND_SKELETON,
    START_X, START_Y, WALL_LOCKED, WALL_OPEN, WALL_RUBBLE, WALL_SOLID,
};

verus! {

/// Locked doors appear from this depth on.
pub const LOCK_MIN_DEPTH: u32 = 2;
/// Forced key chests are placed from this depth on.
pub const FORCED_KEY_CHEST_MIN_DEPTH: u32 = 2;
/// Bone rooms appear from this depth on.
pub const BONE_ROOM_MIN_DEPTH: u32 = 2;
/// Chance, in percent, that a room of the right parity is a bone room.
pub const BONE_ROOM_CHANCE_PERCENT: u64 = 18;
/// Salt mixed into the seed when deciding bone rooms.
pub const BONE_ROOM_SALT: u64 = 0xB0DE_B0DE_B0DE_B0DE;

pub open spec fn abs_int(v: int) -> int {
    if v < 0 { -v } else { v }
}

/// Chebyshev distance from the start room.
pub open spec fn depth_of(x: int, y: int) -> int {
    let dx = abs_int(x - START_X as int);
    let dy = abs_int(y - START_Y as int);
    if dx >= dy { dx } else { dy }
}

pub fn calculate_depth(x: i8, y: i8) -> (r: u32)
    ensures
        r as int == depth_of(x as int, y as int),
{
    let dx: i16 = x as i16 - START_X as i16;
    let dy: i16 = y as i16 - START_Y as i16;
    let ax: u32 = if dx < 0 { (-dx) as u32 } else { dx as u32 };
    let ay: u32 = if dy < 0 { (-dy) as u32 } else { dy as u32 };
    if ax >= ay { ax } else { ay }
}

/// `((seed * 31 + x) * 31 + y)` in wrapping 64-bit arithmetic.
pub open spec fn room_hash(seed: u64, x: i8, y: i8) -> u64 {
    wrap_add(wrap_mul(wrap_add(wrap_mul(seed, 31), x as u64), 31), y as u64)
}

pub fn generate_room_hash(seed: u64, x: i8, y: i8) -> (r: u64)
    ensures
        r == room_hash(seed, x, y),
{
    let mut hash: u64 = seed;
    hash = hash.wrapping_mul(31).wrapping_add(x as u64);
    hash = hash.wrapping_mul(31).wrapping_add(y as u64);
    hash
}

/// The wall drawn for `direction`: open towards the entrance, else rubble, solid or
/// open by the direction's byte of the hash, modulo 10 (6, 3 and 1 in 10).
pub open spec fn drawn_wall(hash: u64, direction: int, entrance: u8) -> u8 {
    if direction == entrance as int {
        WALL_OPEN
    } else {
        let sub = (hash >> (direction * 8) as u64) % 10;
        if sub < 6 {
            WALL_RUBBLE
        } else if sub < 9 {
            WALL_SOLID
        } else {
            WALL_OPEN
        }
    }
}

fn wall_for(hash: u64, direction: u8, entrance: u8) -> (r: u8)
    requires
        direction < 4,
    ensures
        r == drawn_wall(hash, direction as int, entrance),
{
    if direction == entrance {
        return WALL_OPEN;
    }
    let sub = (hash >> ((direction as u64) * 8)) % 10;
    if sub < 6 {
        WALL_RUBBLE
    } else if sub < 9 {
        WALL_SOLID
    } else {
        WALL_OPEN
    }
}

pub fn generate_walls(hash: u64, entrance_direction: u8) -> (r: [u8; 4])
    ensures
        forall|d: int| 0 <= d < 4 ==> r[d] == drawn_wall(hash, d, entrance_direction),
{
    [
        wall_for(hash, 0, entrance_direction),
        wall_for(hash, 1, entrance_direction),
        wall_for(hash, 2, entrance_direction),
        wall_for(hash, 3, entrance_direction),
    ]
}

/// The one depth-1 room that always holds a chest: the neighbour of the start
/// room picked by `seed % 4`.
pub open spec fn forced_depth_one_chest(seed: u64, x: i8, y: i8) -> bool {
    let f = seed % 4;
    if f == 0 {
        x == START_X && y == START_Y + 1
    } else if f == 1 {
        x == START_X && y == START_Y - 1
    } else if f == 2 {
        x == START_X + 1 && y == START_Y
    } else {
        x == START_X - 1 && y == START_Y
    }
}

pub fn is_forced_depth_one_chest(season_seed: u64, room_x: i8, room_y: i8) -> (r: bool)
    ensures
        r == forced_depth_one_chest(season_seed, room_x, room_y),
{
    let forced_direction = season_seed % 4;
    let (ex, ey): (i8, i8) = if forced_direction == 0 {
        (START_X, START_Y + 1)
    } else if forced_direction == 1 {
        (START_X, START_Y - 1)
    } else if forced_direction == 2 {
        (START_X + 1, START_Y)
    } else {
        (START_X - 1, START_Y)
    };
    room_x == ex && room_y == ey
}

/// Grid cell number `n` (0 to 99) in x-major order.
pub open spec fn cell(n: int) -> (i8, i8) {
    ((n / 10) as i8, (n % 10) as i8)
}

/// The cells among the first `n` whose depth is `depth`, in scan order.
pub open spec fn ring_upto(depth: u32, n: nat) -> Seq<(i8, i8)>
    decreases n,
{
    if n == 0 {
        Seq::empty()
    } else {
        let prev = ring_upto(depth, (n - 1) as nat);
        let c = cell(n - 1);
        if depth_of(c.0 as int, c.1 as int) == depth as int {
            prev.push(c)
        } else {
            prev
        }
    }
}

/// All cells of the grid at Chebyshev depth `depth`.
pub open spec fn ring(depth: u32) -> Seq<(i8, i8)> {
    ring_upto(depth, 100)
}

pub open spec fn ring_hash(seed: u64, depth: u32) -> u64 {
    wrap_mul(wrap_add(wrap_mul(seed, 53), depth as u64), 97)
}

/// The key-chest cell of a depth ring, picked by a hash of the seed and depth.
pub open spec fn forced_key_chest_cell(seed: u64, depth: u32) -> Option<(i8, i8)> {
    let r = ring(depth);
    if r.len() == 0 {
        None
    } else {
        Some(r[(ring_hash(seed, depth) as int) % (r.len() as int)])
    }
}

pub fn select_forced_key_chest_coords(season_seed: u64, depth: u32) -> (r: Option<(i8, i8)>)
    ensures
        r == forced_key_chest_cell(season_seed, depth),
{
    let mut ring_coords: Vec<(i8, i8)> = Vec::new();
    let mut n: u8 = 0;
    while n < 100
        invariant
            n <= 100,
            ring_coords@ == ring_upto(depth, n as nat),
            ring_coords@.len() <= n,
        decreases 100 - n,
    {
        let x = (n / 10) as i8;
        let y = (n % 10) as i8;
        if calculate_depth(x, y) == depth {
            ring_coords.push((x, y));
        }
        n = n + 1;
    }
    if ring_coords.len() == 0 {
        return None;
    }
    let ring_hash = season_seed.wrapping_mul(53).wrapping_add(depth as u64).wrapping_mul(97);
    let selected_index = (ring_hash % (ring_coords.len() as u64)) as usize;
    Some(ring_coords[selected_index])
}

pub open spec fn forced_key_chest(seed: u64, x: i8, y: i8, depth: u32) -> bool {
    depth >= FORCED_KEY_CHEST_MIN_DEPTH && match forced_key_chest_cell(seed, depth) {
        Some(c) => x == c.0 && y == c.1,
        None => false,
    }
}

pub fn is_forced_key_chest(season_seed: u64, room_x: i8, room_y: i8, depth: u32) -> (r: bool)
    ensures
        r == forced_key_chest(season_seed, room_x, room_y, depth),
{
    if depth < FORCED_KEY_CHEST_MIN_DEPTH {
        return false;
    }
    match select_forced_key_chest_coords(season_seed, depth) {
        Some((fx, fy)) => room_x == fx && room_y == fy,
        None => false,
    }
}

/// The centre of a room: `(kind, id, holds_forced_key)`.
pub open spec fn room_center(seed: u64, x: i8, y: i8, depth: u32) -> (u8, u16, bool) {
    let h = room_hash(seed, x, y);
    if depth == 1 {
        if forced_depth_one_chest(seed, x, y) || h % 100 < 50 {
            (CENTER_CHEST, 1, false)
        } else {
            (CENTER_EMPTY, 0, false)
        }
    } else if forced_key_chest(seed, x, y, depth) {
        (CENTER_CHEST, 1, true)
    } else if depth >= 2 && h % 100 < 50 {
        (CENTER_BOSS, (h % 4 + 1) as u16, false)
    } else {
        (CENTER_EMPTY, 0, false)
    }
}

pub fn generate_room_center(season_seed: u64, room_x: i8, room_y: i8, depth: u32) -> (r: (
    u8,
    u16,
    bool,
))
    ensures
        r == room_center(season_seed, room_x, room_y, depth),
{
    let room_hash = generate_room_hash(season_seed, room_x, room_y);
    let forced_key_drop = is_forced_key_chest(season_seed, room_x, room_y, depth);
    if depth == 1 {
        if is_forced_depth_one_chest(season_seed, room_x, room_y) || (room_hash % 100) < 50 {
            return (CENTER_CHEST, 1, false);
        }
        return (CENTER_EMPTY, 0, false);
    }
    if forced_key_drop {
        return (CENTER_CHEST, 1, true);
    }
    if depth >= 2 && (room_hash % 100) < 50 {
        let boss_id = ((room_hash % 4) + 1) as u16;
        return (CENTER_BOSS, boss_id, false);
    }
    (CENTER_EMPTY, 0, false)
}

/// Open and rubble walls can be passed or cleared.
pub open spec fn interactable(w: u8) -> bool {
    w == WALL_OPEN || w == WALL_RUBBLE
}

/// Non-entrance rubble directions among the first `n`, in order.
pub open spec fn eligible_upto(walls: Seq<u8>, entrance: u8, n: nat) -> Seq<u8>
    decreases n,
{
    if n == 0 {
        Seq::empty()
    } else {
        let prev = eligible_upto(walls, entrance, (n - 1) as nat);
        let d = (n - 1) as u8;
        if d != entrance && walls[n - 1] == WALL_RUBBLE {
            prev.push(d)
        } else {
            prev
        }
    }
}

/// Number of interactable walls other than the one in direction `d`.
pub open spec fn others_interactable(walls: Seq<u8>, d: u8) -> int {
    others_upto(walls, d, 4)
}

/// The door that lock placement locks, if any: from depth 2 on, one non-entrance
/// rubble wall picked by the hash, unless it is the room's only way on.
pub open spec fn lock_choice(
    walls: Seq<u8>,
    seed: u64,
    x: i8,
    y: i8,
    depth: u32,
    entrance: u8,
) -> Option<u8> {
    let el = eligible_upto(walls, entrance, 4);
    if depth < LOCK_MIN_DEPTH || el.len() == 0 {
        None
    } else {
        let d = el[((room_hash(seed, x, y) >> 28u64) as int) % (el.len() as int)];
        if others_interactable(walls, d) == 0 {
            None
        } else {
            Some(d)
        }
    }
}

/// Walls and lock kinds after lock placement.
pub open spec fn after_locked_doors(
    walls: Seq<u8>,
    kinds: Seq<u8>,
    seed: u64,
    x: i8,
    y: i8,
    depth: u32,
    entrance: u8,
) -> (Seq<u8>, Seq<u8>) {
    match lock_choice(walls, seed, x, y, depth, entrance) {
        Some(d) => (walls.update(d as int, WALL_LOCKED), kinds.update(d as int, LOCK_KIND_SKELETON)),
        None => (walls, kinds),
    }
}

proof fn lemma_eligible_facts(walls: Seq<u8>, entrance: u8, n: nat)
    requires
        n <= 4,
        walls.len() == 4,
    ensures
        eligible_upto(walls, entrance, n).len() <= n,
        forall|i: int|
            0 <= i < eligible_upto(walls, entrance, n).len() ==> {
                let d = #[trigger] eligible_upto(walls, entrance, n)[i];
                d < n && d != entrance && walls[d as int] == WALL_RUBBLE
            },
    decreases n,
{
    if n > 0 {
        lemma_eligible_facts(walls, entrance, (n - 1) as nat);
    }
}

/// Locks at most one rubble door (see `lock_choice`).
pub fn apply_locked_doors(
    walls: &mut [u8; 4],
    door_lock_kinds: &mut [u8; 4],
    season_seed: u64,
    room_x: i8,
    room_y: i8,
    room_depth: u32,
    entrance_direction: u8,
)
    ensures
        (final(walls)@, final(door_lock_kinds)@) == after_locked_doors(
            old(walls)@,
            old(door_lock_kinds)@,
            season_seed,
            room_x,
            room_y,
            room_depth,
            entrance_direction,
        ),
{
    proof {
        lemma_eligible_facts(walls@, entrance_direction, 4);
    }
    if room_depth < LOCK_MIN_DEPTH {
        return;
    }
    let mut eligible: Vec<u8> = Vec::new();
    let mut d: u8 = 0;
    while d < 4
        invariant
            d <= 4,
            eligible@ == eligible_upto(walls@, entrance_direction, d as nat),
        decreases 4 - d,
    {
        if d != entrance_direction && walls[d as usize] == WALL_RUBBLE {
            eligible.push(d);
        }
        d = d + 1;
    }
    if eligible.len() == 0 {
        return;
    }
    let room_hash = generate_room_hash(season_seed, room_x, room_y);
    let lock_index = ((room_hash >> 28u64) % (eligible.len() as u64)) as usize;
    let lock_direction = eligible[lock_index];
    let mut remaining: u8 = 0;
    let mut e: u8 = 0;
    while e < 4
        invariant
            e <= 4,
            lock_direction < 4,
            remaining as int == others_upto(walls@, lock_direction, e as int),
            remaining <= e,
        decreases 4 - e,
    {
        let w = walls[e as usize];
        if (w == WALL_OPEN || w == WALL_RUBBLE) && e != lock_direction {
            remaining = remaining + 1;
        }
        e = e + 1;
    }
    if remaining == 0 {
        return;
    }
    walls[lock_direction as usize] = WALL_LOCKED;
    door_lock_kinds[lock_direction as usize] = LOCK_KIND_SKELETON;
    assert(walls@ =~= old(walls)@.update(lock_direction as int, WALL_LOCKED));
    assert(door_lock_kinds@ =~= old(door_lock_kinds)@.update(
        lock_direction as int,
        LOCK_KIND_SKELETON,
    ));
}

/// Interactable walls other than `d` among the first `n`.
pub open spec fn others_upto(walls: Seq<u8>, d: u8, n: int) -> int
    decreases n,
{
    if n <= 0 {
        0
    } else {
        others_upto(walls, d, n - 1) + if (n - 1) != d as int && interactable(walls[n - 1]) {
            1int
        } else {
            0int
        }
    }
}

/// Lock placement never seals a room: a room that had an open or rubble wall
/// still has one, and the entrance wall is left as it was.
pub proof fn lemma_lock_placement_keeps_a_way(
    walls: Seq<u8>,
    kinds: Seq<u8>,
    seed: u64,
    x: i8,
    y: i8,
    depth: u32,
    entrance: u8,
)
    requires
        walls.len() == 4,
        exists|e: int| 0 <= e < 4 && interactable(#[trigger] walls[e]),
    ensures
        ({
            let w = after_locked_doors(walls, kinds, seed, x, y, depth, entrance).0;
            &&& exists|e: int| 0 <= e < 4 && interactable(#[trigger] w[e])
            &&& entrance < 4 ==> w[entrance as int] == walls[entrance as int]
        }),
{
    lemma_eligible_facts(walls, entrance, 4);
    reveal_with_fuel(others_upto, 5);
    let el = eligible_upto(walls, entrance, 4);
    let w = after_locked_doors(walls, kinds, seed, x, y, depth, entrance).0;
    let e0 = choose|e: int| 0 <= e < 4 && interactable(#[trigger] walls[e]);
    match lock_choice(walls, seed, x, y, depth, entrance) {
        Some(d) => {
            assert(w == walls.update(d as int, WALL_LOCKED));
            let i = ((room_hash(seed, x, y) >> 28u64) as int) % (el.len() as int);
            assert(0 <= i < el.len());
            assert(el[i] == d);
            assert(d != entrance && d < 4);
            assert(others_upto(walls, d, 4) > 0);
            let e1: int = if d != 0 && interactable(walls[0]) {
                0
            } else if d != 1 && interactable(walls[1]) {
                1
            } else if d != 2 && interactable(walls[2]) {
                2
            } else {
                3
            };
            assert(e1 != d as int && interactable(walls[e1]));
            assert(w[e1] == walls[e1]);
            assert(interactable(w[e1]));
        },
        None => {
            assert(w == walls);
            assert(interactable(w[e0]));
        },
    }
}

/// Bone rooms sit on cells of the seed's parity only, from depth 2 on, with an
/// 18 in 100 chance decided by a salted hash.
pub open spec fn bone_room(seed: u64, x: i8, y: i8, depth: u32) -> bool {
    &&& depth >= BONE_ROOM_MIN_DEPTH
    &&& (x as int + y as int) % 2 == (seed % 2) as int
    &&& room_hash(seed ^ BONE_ROOM_SALT, x, y) % 100 < BONE_ROOM_CHANCE_PERCENT
}

pub fn is_bone_room(season_seed: u64, room_x: i8, room_y: i8, depth: u32) -> (r: bool)
    ensures
        r == bone_room(season_seed, room_x, room_y, depth),
{
    if depth < BONE_ROOM_MIN_DEPTH {
        return false;
    }
    let shifted: u16 = (room_x as i16 + room_y as i16 + 256) as u16;
    let parity: u64 = (shifted % 2) as u64;
    if parity != season_seed % 2 {
        return false;
    }
    let room_hash = generate_room_hash(season_seed ^ BONE_ROOM_SALT, room_x, room_y);
    room_hash % 100 < BONE_ROOM_CHANCE_PERCENT
}

/// Two orthogonal neighbours never are both bone rooms.
pub proof fn lemma_bone_rooms_never_touch(
    seed: u64,
    x: i8,
    y: i8,
    nx: i8,
    ny: i8,
    depth: u32,
    neighbour_depth: u32,
)
    requires
        abs_int(x as int - nx as int) + abs_int(y as int - ny as int) == 1,
    ensures
        !(bone_room(seed, x, y, depth) && bone_room(seed, nx, ny, neighbour_depth)),
{
}

pub open spec fn lockable(w: u8) -> bool {
    w == WALL_RUBBLE || w == WALL_OPEN
}

/// Whether bone-room locking locks the wall in direction `d`: every open or
/// rubble wall of a bone room, and every such wall but the entrance that leads
/// into a bone room.
pub open spec fn bone_lock_applies(
    walls: Seq<u8>,
    seed: u64,
    x: i8,
    y: i8,
    depth: u32,
    entrance: u8,
    d: int,
) -> bool {
    let nx = step_x(x as int, d as u8);
    let ny = step_y(y as int, d as u8);
    &&& depth >= BONE_ROOM_MIN_DEPTH
    &&& lockable(walls[d])
    &&& (bone_room(seed, x, y, depth) || (d != entrance as int && in_bounds(nx, ny) && bone_room(
        seed,
        nx as i8,
        ny as i8,
        depth_of(nx, ny) as u32,
    )))
}

pub open spec fn after_bone_locks(
    walls: Seq<u8>,
    kinds: Seq<u8>,
    seed: u64,
    x: i8,
    y: i8,
    depth: u32,
    entrance: u8,
) -> (Seq<u8>, Seq<u8>) {
    (
        Seq::new(
            4,
            |d: int|
                if bone_lock_applies(walls, seed, x, y, depth, entrance, d) {
                    WALL_LOCKED
                } else {
                    walls[d]
                },
        ),
        Seq::new(
            4,
            |d: int|
                if bone_lock_applies(walls, seed, x, y, depth, entrance, d) {
                    LOCK_KIND_SKELETON
                } else {
                    kinds[d]
                },
        ),
    )
}

fn bone_lock_direction(
    walls: &[u8; 4],
    season_seed: u64,
    room_x: i8,
    room_y: i8,
    room_depth: u32,
    entrance_direction: u8,
    current_is_bone_room: bool,
    direction: u8,
) -> (r: bool)
    requires
        direction < 4,
        in_bounds(room_x as int, room_y as int),
        current_is_bone_room == bone_room(season_seed, room_x, room_y, room_depth),
    ensures
        r == bone_lock_applies(
            walls@,
            season_seed,
            room_x,
            room_y,
            room_depth,
            entrance_direction,
            direction as int,
        ),
{
    if room_depth < BONE_ROOM_MIN_DEPTH {
        return false;
    }
    let w = walls[direction as usize];
    if !(w == WALL_RUBBLE || w == WALL_OPEN) {
        return false;
    }
    if current_is_bone_room {
        return true;
    }
    if direction == entrance_direction {
        return false;
    }
    let (ax, ay) = adjacent_coords(room_x, room_y, direction);
    if !is_within_dungeon_bounds(ax, ay) {
        return false;
    }
    let adjacent_depth = calculate_depth(ax, ay);
    is_bone_room(season_seed, ax, ay, adjacent_depth)
}

/// Locks the doors of bone rooms and the doors that lead into them.
pub fn apply_bone_room_locks(
    walls: &mut [u8; 4],
    door_lock_kinds: &mut [u8; 4],
    season_seed: u64,
    room_x: i8,
    room_y: i8,
    room_depth: u32,
    entrance_direction: u8,
)
    requires
        in_bounds(room_x as int, room_y as int),
    ensures
        (final(walls)@, final(door_lock_kinds)@) == after_bone_locks(
            old(walls)@,
            old(door_lock_kinds)@,
            season_seed,
            room_x,
            room_y,
            room_depth,
            entrance_direction,
        ),
{
    let current = is_bone_room(season_seed, room_x, room_y, room_depth);
    let before: [u8; 4] = *walls;
    let mut d: u8 = 0;
    while d < 4
        invariant
            d <= 4,
            in_bounds(room_x as int, room_y as int),
            current == bone_room(season_seed, room_x, room_y, room_depth),
            before@ == old(walls)@,
            forall|i: int|
                0 <= i < 4 ==> walls@[i] == if i < d && bone_lock_applies(
                    before@,
                    season_seed,
                    room_x,
                    room_y,
                    room_depth,
                    entrance_direction,
                    i,
                ) {
                    WALL_LOCKED
                } else {
                    before@[i]
                },
            forall|i: int|
                0 <= i < 4 ==> door_lock_kinds@[i] == if i < d && bone_lock_applies(
                    before@,
                    season_seed,
                    room_x,
                    room_y,
                    room_depth,
                    entrance_direction,
                    i,
                ) {
                    LOCK_KIND_SKELETON
                } else {
                    old(door_lock_kinds)@[i]
                },
        decreases 4 - d,
    {
        if bone_lock_direction(
            &before,
            season_seed,
            room_x,
            room_y,
            room_depth,
            entrance_direction,
            current,
            d,
        ) {
            walls[d as usize] = WALL_LOCKED;
            door_lock_kinds[d as usize] = LOCK_KIND_SKELETON;
        }
        d = d + 1;
    }
    let ghost target = after_bone_locks(
        old(walls)@,
        old(door_lock_kinds)@,
        season_seed,
        room_x,
        room_y,
        room_depth,
        entrance_direction,
    );
    assert(walls@ =~= target.0);
    assert(door_lock_kinds@ =~= target.1);
}

/// The room south of the start keeps a solid, unlocked north wall: that edge of
/// the start room is reserved for the entrance stairs.
pub open spec fn after_special_topology(walls: Seq<u8>, kinds: Seq<u8>, x: i8, y: i8) -> (
    Seq<u8>,
    Seq<u8>,
) {
    if x == START_X && y == START_Y - 1 {
        (
            walls.update(DIRECTION_NORTH as int, WALL_SOLID),
            kinds.update(DIRECTION_NORTH as int, LOCK_KIND_NONE),
        )
    } else {
        (walls, kinds)
    }
}

pub fn enforce_special_room_topology(room: &mut RoomAccount)
    ensures
        (final(room).walls@, final(room).door_lock_kinds@) == after_special_topology(
            old(room).walls@,
            old(room).door_lock_kinds@,
            old(room).x,
            old(room).y,
        ),
        *final(room) == (RoomAccount {
            walls: final(room).walls,
            door_lock_kinds: final(room).door_lock_kinds,
            ..*old(room)
        }),
{
    if room.x == START_X && room.y == START_Y - 1 {
        room.walls[DIRECTION_NORTH as usize] = WALL_SOLID;
        room.door_lock_kinds[DIRECTION_NORTH as usize] = LOCK_KIND_NONE;
        assert(room.walls@ =~= old(room).walls@.update(DIRECTION_NORTH as int, WALL_SOLID));
        assert(room.door_lock_kinds@ =~= old(room).door_lock_kinds@.update(
            DIRECTION_NORTH as int,
            LOCK_KIND_NONE,
        ));
    }
}

/// Walls and lock kinds of a room first reached through `entrance`.
#[verifier::opaque]
pub open spec fn discovered_layout(seed: u64, x: i8, y: i8, entrance: u8) -> (Seq<u8>, Seq<u8>) {
    let depth = depth_of(x as int, y as int) as u32;
    let hash = room_hash(seed, x, y);
    let w0 = clamped_walls(Seq::new(4, |d: int| drawn_wall(hash, d, entrance)), x as int, y as int);
    let k0 = Seq::new(4, |d: int| LOCK_KIND_NONE);
    let l1 = after_locked_doors(w0, k0, seed, x, y, depth, entrance);
    let l2 = after_bone_locks(l1.0, l1.1, seed, x, y, depth, entrance);
    after_special_topology(l2.0, l2.1, x, y)
}

/// Boss hit points of a freshly generated room.
pub open spec fn discovered_boss_hp(seed: u64, x: i8, y: i8) -> int {
    let depth = depth_of(x as int, y as int) as u32;
    let c = room_center(seed, x, y, depth);
    if c.0 == CENTER_BOSS {
        boss_hp(depth, c.1)
    } else {
        0
    }
}

/// Everything of a freshly generated room but its walls and locks.
#[verifier::opaque]
pub open spec fn discovered_fields(
    room: RoomAccount,
    seed: u64,
    x: i8,
    y: i8,
    created_by: Address,
    created_slot: u64,
    bump: u8,
) -> bool {
    let depth = depth_of(x as int, y as int) as u32;
    &&& room.x == x
    &&& room.y == y
    &&& room.season_seed == seed
    &&& forall|d: int|
        0 <= d < 4 ==> (#[trigger] room.jobs[d]).is_idle() && room.jobs[d].base_slots
            == base_slots_for(depth)
    &&& (room.center_type, room.center_id, room.forced_key_drop) == room_center(seed, x, y, depth)
    &&& room.has_chest == (room.center_type == CENTER_CHEST)
    &&& room.boss_max_hp as int == discovered_boss_hp(seed, x, y)
    &&& room.boss_current_hp == room.boss_max_hp
    &&& room.boss_last_update_slot == created_slot
    &&& room.boss_total_dps == 0
    &&& room.boss_fighter_count == 0
    &&& !room.boss_defeated
    &&& room.looted_count == 0
    &&& room.created_by == created_by
    &&& room.created_slot == created_slot
    &&& room.bump == bump
    &&& room.wf()
}

/// Fills `room` with the generated content of cell `(room_x, room_y)`, reached
/// through `entrance_direction`: walls, locks, centre, idle jobs and a fresh boss.
pub fn initialize_discovered_room(
    room: &mut RoomAccount,
    season_seed: u64,
    room_x: i8,
    room_y: i8,
    entrance_direction: u8,
    created_by: Address,
    created_slot: u64,
    bump: u8,
)
    requires
        in_bounds(room_x as int, room_y as int),
    ensures
        discovered_fields(
            *final(room),
            season_seed,
            room_x,
            room_y,
            created_by,
            created_slot,
            bump,
        ),
        (final(room).walls@, final(room).door_lock_kinds@) == discovered_layout(
            season_seed,
            room_x,
            room_y,
            entrance_direction,
        ),
{
    let room_depth = calculate_depth(room_x, room_y);
    let hash_value = generate_room_hash(season_seed, room_x, room_y);
    let mut walls = generate_walls(hash_value, entrance_direction);
    let ghost hash_walls = walls@;
    clamp_boundary_walls(&mut walls, room_x, room_y);
    let mut kinds: [u8; 4] = [LOCK_KIND_NONE; 4];
    let ghost k0 = kinds@;
    apply_locked_doors(
        &mut walls,
        &mut kinds,
        season_seed,
        room_x,
        room_y,
        room_depth,
        entrance_direction,
    );
    apply_bone_room_locks(
        &mut walls,
        &mut kinds,
        season_seed,
        room_x,
        room_y,
        room_depth,
        entrance_direction,
    );
    let idle = JobSlot::idle(room_depth);
    let (center_type, center_id, forced_key_drop) = generate_room_center(
        season_seed,
        room_x,
        room_y,
        room_depth,
    );
    let boss_max_hp: u64 = if center_type == CENTER_BOSS {
        boss_hp_for_depth(room_depth, center_id)
    } else {
        0
    };
    *room = RoomAccount {
        x: room_x,
        y: room_y,
        season_seed,
        walls,
        door_lock_kinds: kinds,
        jobs: [idle, idle, idle, idle],
        has_chest: center_type == CENTER_CHEST,
        forced_key_drop,
        center_type,
        center_id,
        boss_max_hp,
        boss_current_hp: boss_max_hp,
        boss_last_update_slot: created_slot,
        boss_total_dps: 0,
        boss_fighter_count: 0,
        boss_defeated: false,
        looted_count: 0,
        created_by,
        created_slot,
        bump,
    };
    enforce_special_room_topology(room);
    proof {
        reveal(discovered_layout);
        reveal(discovered_fields);
        let hash = room_hash(season_seed, room_x, room_y);
        assert(hash_walls =~= Seq::new(4, |d: int| drawn_wall(hash, d, entrance_direction)));
        assert(k0 =~= Seq::new(4, |d: int| LOCK_KIND_NONE));
    }
}

/// Opens the way back from the room beyond a cleared or unlocked wall: a blank
/// `adjacent` record (season seed 0) is first generated as cell `(x, y)` entered
/// from `entrance`, then its wall towards `entrance` is opened and unlocked.
/// Returns whether the room was new.
pub fn reveal_adjacent_room(
    adjacent: &mut RoomAccount,
    season_seed: u64,
    x: i8,
    y: i8,
    entrance: u8,
    discovered_by: Address,
    now_slot: u64,
    bump: u8,
) -> (r: bool)
    requires
        in_bounds(x as int, y as int),
        entrance < 4,
        old(adjacent).season_seed != 0 ==> old(adjacent).wf(),
    ensures
        r == (old(adjacent).season_seed == 0),
        final(adjacent).walls[entrance as int] == WALL_OPEN,
        final(adjacent).door_lock_kinds[entrance as int] == LOCK_KIND_NONE,
        r ==> discovered_fields(*final(adjacent), season_seed, x, y, discovered_by, now_slot, bump)
            && final(adjacent).walls@ == discovered_layout(season_seed, x, y, entrance).0.update(
            entrance as int,
            WALL_OPEN,
        ) && final(adjacent).door_lock_kinds@ == discovered_layout(
            season_seed,
            x,
            y,
            entrance,
        ).1.update(entrance as int, LOCK_KIND_NONE),
        !r ==> *final(adjacent) == (RoomAccount {
            walls: final(adjacent).walls,
            door_lock_kinds: final(adjacent).door_lock_kinds,
            ..*old(adjacent)
        }) && final(adjacent).walls@ == old(adjacent).walls@.update(entrance as int, WALL_OPEN)
            && final(adjacent).door_lock_kinds@ == old(adjacent).door_lock_kinds@.update(
            entrance as int,
            LOCK_KIND_NONE,
        ),
        final(adjacent).wf(),
{
    let is_new = adjacent.season_seed == 0;
    if is_new {
        initialize_discovered_room(
            adjacent,
            season_seed,
            x,
            y,
            entrance,
            discovered_by,
            now_slot,
            bump,
        );
    }
    let ghost before = *adjacent;
    proof {
        reveal(discovered_fields);
    }
    adjacent.walls[entrance as usize] = WALL_OPEN;
    adjacent.door_lock_kinds[entrance as usize] = LOCK_KIND_NONE;
    assert(adjacent.walls@ =~= before.walls@.update(entrance as int, WALL_OPEN));
    assert(adjacent.door_lock_kinds@ =~= before.door_lock_kinds@.update(
        entrance as int,
        LOCK_KIND_NONE,
    ));
    assert(adjacent.jobs == before.jobs);
    is_new
}

/// Discovery is deterministic: two rooms generated for the same cell and entrance
/// have the same walls, locks, centre and boss, whatever they held before and
/// whoever found them when.
pub proof fn lemma_discovery_is_deterministic(
    r1: RoomAccount,
    r2: RoomAccount,
    seed: u64,
    x: i8,
    y: i8,
    entrance: u8,
    by1: Address,
    slot1: u64,
    bump1: u8,
    by2: Address,
    slot2: u64,
    bump2: u8,
)
    requires
        discovered_fields(r1, seed, x, y, by1, slot1, bump1),
        discovered_fields(r2, seed, x, y, by2, slot2, bump2),
        (r1.walls@, r1.door_lock_kinds@) == discovered_layout(seed, x, y, entrance),
        (r2.walls@, r2.door_lock_kinds@) == discovered_layout(seed, x, y, entrance),
    ensures
        r1.walls == r2.walls,
        r1.door_lock_kinds == r2.door_lock_kinds,
        r1.center_type == r2.center_type,
        r1.center_id == r2.center_id,
        r1.forced_key_drop == r2.forced_key_drop,
        r1.boss_max_hp == r2.boss_max_hp,
        r1.boss_current_hp == r2.boss_current_hp,
        r1.jobs == r2.jobs,
{
    reveal(discovered_fields);
    assert(r1.walls =~= r2.walls);
    assert(r1.door_lock_kinds =~= r2.door_lock_kinds);
    assert(r1.jobs =~= r2.jobs);
}

/// Generation never seals a room behind its finder: unless the room is a bone
/// room (all of whose doors are locked by design) or the reserved room south of
/// the start entered from the north, the wall it was entered through comes out
/// open, so at least one wall can be passed.
pub proof fn lemma_entrance_stays_open(seed: u64, x: i8, y: i8, entrance: u8)
    requires
        in_bounds(x as int, y as int),
        entrance < 4,
        in_bounds(step_x(x as int, entrance), step_y(y as int, entrance)),
        !bone_room(seed, x, y, depth_of(x as int, y as int) as u32),
        !(x == START_X && y == START_Y - 1 && entrance == DIRECTION_NORTH),
    ensures
        discovered_layout(seed, x, y, entrance).0[entrance as int] == WALL_OPEN,
        exists|d: int|
            0 <= d < 4 && interactable(#[trigger] discovered_layout(seed, x, y, entrance).0[d]),
{
    reveal(discovered_layout);
    let e = entrance as int;
    let depth = depth_of(x as int, y as int) as u32;
    let hash = room_hash(seed, x, y);
    let w0 = clamped_walls(Seq::new(4, |d: int| drawn_wall(hash, d, entrance)), x as int, y as int);
    let k0 = Seq::new(4, |d: int| LOCK_KIND_NONE);
    assert(w0[e] == WALL_OPEN);
    let l1 = after_locked_doors(w0, k0, seed, x, y, depth, entrance);
    lemma_eligible_facts(w0, entrance, 4);
    match lock_choice(w0, seed, x, y, depth, entrance) {
        Some(d) => {
            let el = eligible_upto(w0, entrance, 4);
            let i = ((room_hash(seed, x, y) >> 28u64) as int) % (el.len() as int);
            assert(el[i] == d);
            assert(d != entrance);
            assert(l1.0[e] == WALL_OPEN);
        },
        None => {
            assert(l1.0[e] == WALL_OPEN);
        },
    }
    let l2 = after_bone_locks(l1.0, l1.1, seed, x, y, depth, entrance);
    assert(!bone_lock_applies(l1.0, seed, x, y, depth, entrance, e));
    assert(l2.0[e] == WALL_OPEN);
    let l3 = after_special_topology(l2.0, l2.1, x, y);
    assert(l3.0[e] == WALL_OPEN);
    assert(interactable(discovered_layout(seed, x, y, entrance).0[e]));
}

} // verus!
