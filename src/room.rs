//! Rooms: walls, door locks, the per-direction job slots, the centre feature and
//! the shared boss state.

use vstd::prelude::*;
use crate::address::Address;

verus! {

/// At most this many helpers work one wall at a time.
pub const MAX_HELPERS_PER_DIRECTION: u8 = 4;

pub const DIRECTION_NORTH: u8 = 0;
pub const DIRECTION_SOUTH: u8 = 1;
pub const DIRECTION_EAST: u8 = 2;
pub const DIRECTION_WEST: u8 = 3;

/// Impassable.
pub const WALL_SOLID: u8 = 0;
/// Clearable through a job.
pub const WALL_RUBBLE: u8 = 1;
/// Passable.
pub const WALL_OPEN: u8 = 2;
/// Opened with a key item.
pub const WALL_LOCKED: u8 = 3;
/// The stairs out of the dungeon, south of the start room.
pub const WALL_ENTRANCE_STAIRS: u8 = 4;

pub const LOCK_KIND_NONE: u8 = 0;
pub const LOCK_KIND_SKELETON: u8 = 1;

pub const CENTER_EMPTY: u8 = 0;
pub const CENTER_CHEST: u8 = 1;
pub const CENTER_BOSS: u8 = 2;

/// Starting room and grid bounds.
pub const START_X: i8 = 5;
pub const START_Y: i8 = 5;
pub const MIN_COORD: i8 = 0;
pub const MAX_COORD: i8 = 9;

/// Stake locked by each helper that joins a job.
pub const STAKE_AMOUNT: u64 = 10_000_000;
/// Smallest tip that boosts a job; also the base of the completion bonus.
pub const MIN_BOOST_TIP: u64 = 1_000_000;
/// Slots of work a wall takes at depths 0 to 9.
pub const BASE_SLOTS_DEPTH_0: u64 = 300;
/// Progress bought by each `MIN_BOOST_TIP` of a tip.
pub const BOOST_PROGRESS: u64 = 30;
/// Share of the stake returned on abandoning a job, in percent.
pub const ABANDON_REFUND_PERCENT: u64 = 80;
/// Boss hit points at depth 0 for boss id 0.
pub const BOSS_BASE_HP: u64 = 600;

/// The job state of one wall of one room.
#[derive(Clone, Copy, Debug, PartialEq, Eq, Structural)]
pub struct JobSlot {
    pub helper_count: u8,
    pub progress: u64,
    pub start_slot: u64,
    /// Slot up to which the helpers' work is counted in `progress`.
    pub last_update_slot: u64,
    pub base_slots: u64,
    pub total_staked: u64,
    pub completed: bool,
    pub bonus_per_helper: u64,
}

impl JobSlot {
    /// An idle slot sized for `depth`.
    pub fn idle(depth: u32) -> (r: JobSlot)
        ensures
            r.is_idle(),
            r.base_slots == base_slots_for(depth),
            r.wf(),
    {
        JobSlot {
            helper_count: 0,
            progress: 0,
            start_slot: 0,
            last_update_slot: 0,
            base_slots: calculate_base_slots(depth),
            total_staked: 0,
            completed: false,
            bonus_per_helper: 0,
        }
    }

    /// Nobody works the wall and nothing is pending.
    pub open spec fn is_idle(&self) -> bool {
        self.helper_count == 0 && self.progress == 0 && self.start_slot == 0
            && self.last_update_slot == 0 && !self.completed
            && self.total_staked == 0 && self.bonus_per_helper == 0
    }

    /// The slot's invariant: the helper cap, progress within the duration, and one
    /// stake held for each helper.
    pub open spec fn wf(&self) -> bool {
        &&& self.helper_count <= MAX_HELPERS_PER_DIRECTION
        &&& self.progress <= self.base_slots
        &&& self.total_staked as int == self.helper_count as int * STAKE_AMOUNT as int
    }
}

/// One room of the dungeon; `jobs[d]` belongs to the wall in direction `d`.
#[derive(Clone, Copy, Debug)]
pub struct RoomAccount {
    pub x: i8,
    pub y: i8,
    pub season_seed: u64,
    pub walls: [u8; 4],
    pub door_lock_kinds: [u8; 4],
    pub jobs: [JobSlot; 4],
    pub has_chest: bool,
    pub forced_key_drop: bool,
    pub center_type: u8,
    pub center_id: u16,
    pub boss_max_hp: u64,
    pub boss_current_hp: u64,
    pub boss_last_update_slot: u64,
    pub boss_total_dps: u64,
    pub boss_fighter_count: u32,
    pub boss_defeated: bool,
    pub looted_count: u32,
    pub created_by: Address,
    pub created_slot: u64,
    pub bump: u8,
}

impl RoomAccount {
    /// Every job slot keeps its invariant.
    pub open spec fn wf(&self) -> bool {
        forall|d: int| 0 <= d < 4 ==> (#[trigger] self.jobs[d]).wf()
    }

    /// Checks the invariant of every job slot.
    pub fn is_well_formed(&self) -> (r: bool)
        ensures
            r == self.wf(),
    {
        let mut d: usize = 0;
        while d < 4
            invariant
                d <= 4,
                forall|e: int| 0 <= e < d ==> (#[trigger] self.jobs[e]).wf(),
            decreases 4 - d,
        {
            let s = self.jobs[d];
            if !(s.helper_count <= MAX_HELPERS_PER_DIRECTION && s.progress <= s.base_slots
                && s.total_staked as u128 == s.helper_count as u128 * STAKE_AMOUNT as u128) {
                assert(!self.jobs[d as int].wf());
                return false;
            }
            d = d + 1;
        }
        true
    }

    /// Whether the wall in `direction` is rubble.
    pub fn is_rubble(&self, direction: u8) -> (r: bool)
        requires
            direction < 4,
        ensures
            r == (self.walls[direction as int] == WALL_RUBBLE),
    {
        self.walls[direction as usize] == WALL_RUBBLE
    }

    /// Whether the wall in `direction` is open.
    pub fn is_open(&self, direction: u8) -> (r: bool)
        requires
            direction < 4,
        ensures
            r == (self.walls[direction as int] == WALL_OPEN),
    {
        self.walls[direction as usize] == WALL_OPEN
    }
}

pub open spec fn opposite(direction: u8) -> u8 {
    if direction == DIRECTION_NORTH {
        DIRECTION_SOUTH
    } else if direction == DIRECTION_SOUTH {
        DIRECTION_NORTH
    } else if direction == DIRECTION_EAST {
        DIRECTION_WEST
    } else if direction == DIRECTION_WEST {
        DIRECTION_EAST
    } else {
        direction
    }
}

/// The direction that faces `direction` from the neighbouring room.
pub fn opposite_direction(direction: u8) -> (r: u8)
    ensures
        r == opposite(direction),
{
    match direction {
        DIRECTION_NORTH => DIRECTION_SOUTH,
        DIRECTION_SOUTH => DIRECTION_NORTH,
        DIRECTION_EAST => DIRECTION_WEST,
        DIRECTION_WEST => DIRECTION_EAST,
        _ => direction,
    }
}

/// x of the neighbour in `direction` (north is +y, east is +x).
pub open spec fn step_x(x: int, direction: u8) -> int {
    if direction == DIRECTION_EAST {
        x + 1
    } else if direction == DIRECTION_WEST {
        x - 1
    } else {
        x
    }
}

/// y of the neighbour in `direction`.
pub open spec fn step_y(y: int, direction: u8) -> int {
    if direction == DIRECTION_NORTH {
        y + 1
    } else if direction == DIRECTION_SOUTH {
        y - 1
    } else {
        y
    }
}

/// Coordinates of the neighbour in `direction`.
pub fn adjacent_coords(x: i8, y: i8, direction: u8) -> (r: (i8, i8))
    requires
        -128 < x < 127,
        -128 < y < 127,
    ensures
        r.0 as int == step_x(x as int, direction),
        r.1 as int == step_y(y as int, direction),
{
    match direction {
        DIRECTION_NORTH => (x, y + 1),
        DIRECTION_SOUTH => (x, y - 1),
        DIRECTION_EAST => (x + 1, y),
        DIRECTION_WEST => (x - 1, y),
        _ => (x, y),
    }
}

/// Work a wall takes at season depth `depth`: 300 slots more per ten levels.
pub open spec fn base_slots_for(depth: u32) -> u64 {
    (BASE_SLOTS_DEPTH_0 * (depth / 10 + 1) as u64) as u64
}

pub fn calculate_base_slots(depth: u32) -> (r: u64)
    ensures
        r == base_slots_for(depth),
        r as int == 300 * (depth as int / 10 + 1),
{
    BASE_SLOTS_DEPTH_0 * ((depth / 10) as u64 + 1)
}

/// Directions are 0 to 3.
pub fn is_valid_direction(direction: u8) -> (r: bool)
    ensures
        r == (direction < 4),
{
    direction <= DIRECTION_WEST
}

/// Whether `(x, y)` lies on the 10 by 10 grid.
pub open spec fn in_bounds(x: int, y: int) -> bool {
    MIN_COORD <= x <= MAX_COORD && MIN_COORD <= y <= MAX_COORD
}

pub fn is_within_dungeon_bounds(x: i8, y: i8) -> (r: bool)
    ensures
        r == in_bounds(x as int, y as int),
{
    x >= MIN_COORD && x <= MAX_COORD && y >= MIN_COORD && y <= MAX_COORD
}

/// Hit points of boss `boss_id` at `depth`.
pub open spec fn boss_hp(depth: u32, boss_id: u16) -> int {
    BOSS_BASE_HP as int * (depth as int / 4 + 1) * (boss_id as int % 5 + 1)
}

pub fn boss_hp_for_depth(depth: u32, boss_id: u16) -> (r: u64)
    ensures
        r as int == boss_hp(depth, boss_id),
{
    let d: u64 = (depth / 4) as u64 + 1;
    let k: u64 = (boss_id % 5) as u64 + 1;
    assert(d <= 0x4000_0000 && k <= 5);
    assert(BOSS_BASE_HP * d <= 600 * 0x4000_0000) by (nonlinear_arith)
        requires
            d <= 0x4000_0000,
    ;
    assert((BOSS_BASE_HP * d) as int * k <= 600 * 0x4000_0000 * 5) by (nonlinear_arith)
        requires
            BOSS_BASE_HP * d <= 600 * 0x4000_0000,
            k <= 5,
    ;
    BOSS_BASE_HP * d * k
}

/// `walls` with every wall that leads off the grid made solid.
pub open spec fn clamped_walls(walls: Seq<u8>, x: int, y: int) -> Seq<u8> {
    Seq::new(
        4,
        |d: int|
            if in_bounds(step_x(x, d as u8), step_y(y, d as u8)) {
                walls[d]
            } else {
                WALL_SOLID
            },
    )
}

/// Walls that lead off the grid are solid.
pub fn clamp_boundary_walls(walls: &mut [u8; 4], x: i8, y: i8)
    requires
        in_bounds(x as int, y as int),
    ensures
        final(walls)@ == clamped_walls(old(walls)@, x as int, y as int),
{
    if y >= MAX_COORD {
        walls[DIRECTION_NORTH as usize] = WALL_SOLID;
    }
    if y <= MIN_COORD {
        walls[DIRECTION_SOUTH as usize] = WALL_SOLID;
    }
    if x >= MAX_COORD {
        walls[DIRECTION_EAST as usize] = WALL_SOLID;
    }
    if x <= MIN_COORD {
        walls[DIRECTION_WEST as usize] = WALL_SOLID;
    }
    assert(walls@ =~= clamped_walls(old(walls)@, x as int, y as int));
}

} // verus!
