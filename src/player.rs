//! Players: position, hit points, active jobs and lifetime counters.

use vstd::prelude::*;
use crate::address::Address;
use crate::errors::ChainDepthError;

verus! {

/// At most this many jobs are held by one player at once.
pub const MAX_ACTIVE_JOBS: usize = 4;

/// Hit points of a fresh player.
pub const DEFAULT_PLAYER_MAX_HP: u16 = 100;

/// Layout version written by the current rules.
pub const CURRENT_DATA_VERSION: u8 = 1;

/// A job a player works on: the wall in `direction` of room `(room_x, room_y)`.
#[derive(Clone, Copy, Debug, PartialEq, Eq, Structural)]
pub struct ActiveJob {
    pub room_x: i8,
    pub room_y: i8,
    pub direction: u8,
}

/// One player's run state.
#[derive(Clone, Debug)]
pub struct PlayerAccount {
    pub owner: Address,
    pub current_room_x: i8,
    pub current_room_y: i8,
    pub active_jobs: Vec<ActiveJob>,
    pub jobs_completed: u64,
    pub chests_looted: u64,
    pub equipped_item_id: u16,
    pub total_score: u64,
    pub current_run_start_slot: u64,
    pub runs_extracted: u64,
    pub last_extraction_slot: u64,
    pub in_dungeon: bool,
    pub current_hp: u16,
    pub max_hp: u16,
    pub data_version: u8,
    pub season_seed: u64,
    pub bump: u8,
}

pub open spec fn job_of(room_x: i8, room_y: i8, direction: u8) -> ActiveJob {
    ActiveJob { room_x, room_y, direction }
}

/// `jobs` without any entry equal to `job`.
pub open spec fn without_job(jobs: Seq<ActiveJob>, job: ActiveJob) -> Seq<ActiveJob> {
    jobs.filter(|j: ActiveJob| j != job)
}

impl PlayerAccount {
    /// The player stands in room `(x, y)`.
    pub fn is_at_room(&self, x: i8, y: i8) -> (r: bool)
        ensures
            r == (self.current_room_x == x && self.current_room_y == y),
    {
        self.current_room_x == x && self.current_room_y == y
    }

    /// The player holds the job on that wall.
    pub fn has_active_job(&self, room_x: i8, room_y: i8, direction: u8) -> (r: bool)
        ensures
            r == self.active_jobs@.contains(job_of(room_x, room_y, direction)),
    {
        let mut i: usize = 0;
        while i < self.active_jobs.len()
            invariant
                i <= self.active_jobs@.len(),
                forall|k: int| 0 <= k < i ==> self.active_jobs@[k] != job_of(room_x, room_y, direction),
            decreases self.active_jobs@.len() - i,
        {
            let job = self.active_jobs[i];
            if job.room_x == room_x && job.room_y == room_y && job.direction == direction {
                assert(self.active_jobs@[i as int] == job_of(room_x, room_y, direction));
                assert(self.active_jobs@.contains(job_of(room_x, room_y, direction)));
                return true;
            }
            i = i + 1;
        }
        false
    }

    /// Records a new active job, unless the player already holds the maximum.
    pub fn add_job(&mut self, room_x: i8, room_y: i8, direction: u8) -> (r: Result<
        (),
        ChainDepthError,
    >)
        ensures
            old(self).active_jobs@.len() >= MAX_ACTIVE_JOBS ==> r == Err::<(), ChainDepthError>(
                ChainDepthError::TooManyActiveJobs,
            ) && *final(self) == *old(self),
            old(self).active_jobs@.len() < MAX_ACTIVE_JOBS ==> r is Ok && final(self).active_jobs@
                == old(self).active_jobs@.push(job_of(room_x, room_y, direction)),
            *final(self) == (PlayerAccount {
                active_jobs: final(self).active_jobs,
                ..*old(self)
            }),
    {
        if self.active_jobs.len() >= MAX_ACTIVE_JOBS {
            return Err(ChainDepthError::TooManyActiveJobs);
        }
        self.active_jobs.push(ActiveJob { room_x, room_y, direction });
        Ok(())
    }

    /// Drops every record of the job on that wall.
    pub fn remove_job(&mut self, room_x: i8, room_y: i8, direction: u8)
        ensures
            final(self).active_jobs@ == without_job(
                old(self).active_jobs@,
                job_of(room_x, room_y, direction),
            ),
            *final(self) == (PlayerAccount {
                active_jobs: final(self).active_jobs,
                ..*old(self)
            }),
    {
        let ghost target = job_of(room_x, room_y, direction);
        let mut kept: Vec<ActiveJob> = Vec::new();
        let mut i: usize = 0;
        while i < self.active_jobs.len()
            invariant
                i <= self.active_jobs@.len(),
                self.active_jobs@ == old(self).active_jobs@,
                target == job_of(room_x, room_y, direction),
                kept@ == without_job(self.active_jobs@.take(i as int), target),
            decreases self.active_jobs@.len() - i,
        {
            let job = self.active_jobs[i];
            assert(job == self.active_jobs@[i as int]);
            let ghost s = self.active_jobs@.take(i as int + 1);
            proof {
                assert(s.drop_last() =~= self.active_jobs@.take(i as int));
                assert(s.last() == job);
                reveal(Seq::filter);
                assert(without_job(s, target) == if job != target {
                    without_job(s.drop_last(), target).push(job)
                } else {
                    without_job(s.drop_last(), target)
                });
            }
            if !(job.room_x == room_x && job.room_y == room_y && job.direction == direction) {
                kept.push(job);
            }
            i = i + 1;
        }
        assert(self.active_jobs@.take(i as int) =~= self.active_jobs@);
        self.active_jobs = kept;
    }
}

/// Cosmetic profile of a wallet.
#[derive(Clone, Debug)]
pub struct PlayerProfile {
    pub owner: Address,
    pub skin_id: u16,
    pub display_name: String,
    pub starter_pickaxe_granted: bool,
    pub bump: u8,
}

/// Skin of a fresh profile.
pub const DEFAULT_SKIN_ID: u16 = 0;

/// Longest display name, in bytes.
pub const MAX_DISPLAY_NAME_LEN: usize = 24;

} // verus!
