//! Where a player shows up to others in a room, and what they are doing there.

use vstd::prelude::*;
use crate::address::Address;

verus! {

pub const ACTIVITY_IDLE: u8 = 0;
pub const ACTIVITY_DOOR_JOB: u8 = 1;
pub const ACTIVITY_BOSS_FIGHT: u8 = 2;

/// Direction recorded when the activity has none.
pub const NO_DIRECTION: u8 = 255;

/// A player's presence record in one room.
#[derive(Clone, Copy, Debug)]
pub struct RoomPresence {
    pub player: Address,
    pub season_seed: u64,
    pub room_x: i8,
    pub room_y: i8,
    pub skin_id: u16,
    pub equipped_item_id: u16,
    pub activity: u8,
    pub activity_direction: u8,
    pub is_current: bool,
    pub bump: u8,
}

impl RoomPresence {
    pub fn set_idle(&mut self)
        ensures
            *final(self) == (RoomPresence {
                activity: ACTIVITY_IDLE,
                activity_direction: NO_DIRECTION,
                ..*old(self)
            }),
    {
        self.activity = ACTIVITY_IDLE;
        self.activity_direction = NO_DIRECTION;
    }

    pub fn set_door_job(&mut self, direction: u8)
        ensures
            *final(self) == (RoomPresence {
                activity: ACTIVITY_DOOR_JOB,
                activity_direction: direction,
                ..*old(self)
            }),
    {
        self.activity = ACTIVITY_DOOR_JOB;
        self.activity_direction = direction;
    }

    pub fn set_boss_fight(&mut self)
        ensures
            *final(self) == (RoomPresence {
                activity: ACTIVITY_BOSS_FIGHT,
                activity_direction: NO_DIRECTION,
                ..*old(self)
            }),
    {
        self.activity = ACTIVITY_BOSS_FIGHT;
        self.activity_direction = NO_DIRECTION;
    }
}

} // verus!
