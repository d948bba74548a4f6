//! The cooperative wall-clearing jobs: join, tick, boost, complete, abandon, claim.
//!
//! Each action is checked in full before anything changes, so a refused action
//! leaves every record as it was.

use vstd::prelude::*;
use crate::address::Address;
use crate::errors::ChainDepthError;
use crate::player::{job_of, without_job, PlayerAccount};
use crate::presence::{RoomPresence, ACTIVITY_BOSS_FIGHT, ACTIVITY_DOOR_JOB, ACTIVITY_IDLE, NO_DIRECTION};
use crate::room::{
    in_bounds, opposite, opposite_direction, step_x, step_y, DIRECTION_EAST, DIRECTION_NORTH,
    DIRECTION_SOUTH, DIRECTION_WEST, LOCK_KIND_NONE, MAX_COORD, MIN_COORD, WALL_OPEN,
    base_slots_for, calculate_base_slots, JobSlot, RoomAccount, ABANDON_REFUND_PERCENT,
    BOOST_PROGRESS, MAX_HELPERS_PER_DIRECTION, MIN_BOOST_TIP, STAKE_AMOUNT, WALL_RUBBLE,
};
use crate::room_generation::{
    calculate_depth, depth_of, discovered_fields, discovered_layout, reveal_adjacent_room,
};
use crate::scoring::min_int;
use crate::season::GlobalAccount;
use crate::session::{authorization_error, authorize_player_action, SessionAuthority, JOIN_JOB};

verus! {

/// One helper's stake in one job; it exists while the helper contributes.
#[derive(Clone, Copy, Debug, PartialEq, Eq, Structural)]
pub struct HelperStake {
    pub player: Address,
    pub room: Address,
    pub direction: u8,
    pub amount: u64,
    pub joined_slot: u64,
    pub bump: u8,
}

/// Slots since the work was last counted (zero if the clock reads earlier).
pub open spec fn elapsed(slot: JobSlot, now: u64) -> int {
    if now >= slot.last_update_slot { now - slot.last_update_slot } else { 0 }
}

/// Progress the job has at `now`: the stored progress plus the slots since the
/// last update times the helpers, capped at the duration.
pub open spec fn tick_progress(slot: JobSlot, now: u64) -> int {
    min_int(slot.progress + elapsed(slot, now) * slot.helper_count as int, slot.base_slots as int)
}

/// The slot with its helpers' work counted up to `now`.
pub open spec fn ticked(slot: JobSlot, now: u64) -> JobSlot {
    JobSlot {
        progress: tick_progress(slot, now) as u64,
        last_update_slot: if now >= slot.last_update_slot { now } else { slot.last_update_slot },
        ..slot
    }
}

/// The slot after one more helper joins at `now` (season depth `depth`): the first
/// helper starts the clock; a later one joins after the work so far is counted.
pub open spec fn slot_after_join(slot: JobSlot, now: u64, depth: u32) -> JobSlot {
    let started = if slot.helper_count == 0 {
        JobSlot {
            start_slot: now,
            last_update_slot: now,
            base_slots: base_slots_for(depth),
            progress: 0,
            bonus_per_helper: 0,
            completed: false,
            ..slot
        }
    } else {
        ticked(slot, now)
    };
    JobSlot {
        helper_count: (started.helper_count + 1) as u8,
        total_staked: (started.total_staked + STAKE_AMOUNT) as u64,
        ..started
    }
}

/// Progress bought by a tip.
pub open spec fn boost_amount(tip: u64) -> int {
    (tip / MIN_BOOST_TIP) as int * BOOST_PROGRESS as int
}

/// The slot after one helper leaves with a stake of `amount`; the last one leaving
/// returns it to idle, except for its duration (`reset_base`, if given, replaces that).
pub open spec fn slot_after_leave(slot: JobSlot, amount: u64, reset_base: Option<u64>) -> JobSlot {
    let left = JobSlot {
        helper_count: (slot.helper_count - 1) as u8,
        total_staked: (slot.total_staked - amount) as u64,
        ..slot
    };
    if left.helper_count == 0 {
        JobSlot {
            progress: 0,
            start_slot: 0,
            last_update_slot: 0,
            bonus_per_helper: 0,
            completed: false,
            base_slots: match reset_base {
                Some(b) => b,
                None => left.base_slots,
            },
            ..left
        }
    } else {
        left
    }
}

/// Room `room` with job slot `d` replaced by `slot`.
pub open spec fn room_with_slot(room: RoomAccount, d: int, slot: JobSlot, after: RoomAccount) -> bool {
    &&& after == (RoomAccount { jobs: after.jobs, ..room })
    &&& after.jobs@ == room.jobs@.update(d, slot)
}

/// Why joining the job on `direction` is refused, if it is.
pub open spec fn join_error(
    global: GlobalAccount,
    room: RoomAccount,
    player: PlayerAccount,
    presence: RoomPresence,
    direction: u8,
) -> Option<ChainDepthError> {
    if direction >= 4 {
        Some(ChainDepthError::InvalidDirection)
    } else if room.walls[direction as int] != WALL_RUBBLE {
        Some(ChainDepthError::NotRubble)
    } else if player.active_jobs@.contains(job_of(room.x, room.y, direction)) {
        Some(ChainDepthError::AlreadyJoined)
    } else if player.active_jobs@.len() != 0 {
        Some(ChainDepthError::TooManyActiveJobs)
    } else if room.jobs[direction as int].completed {
        Some(ChainDepthError::JobAlreadyCompleted)
    } else if presence.activity == ACTIVITY_BOSS_FIGHT {
        Some(ChainDepthError::AlreadyFightingBoss)
    } else if room.jobs[direction as int].helper_count >= MAX_HELPERS_PER_DIRECTION {
        Some(ChainDepthError::JobFull)
    } else {
        None
    }
}

/// The presence record after joining: claimed for the player if it was blank, and
/// marked as working the door.
pub open spec fn presence_after_join(
    presence: RoomPresence,
    actor: Address,
    season_seed: u64,
    room: RoomAccount,
    equipped_item_id: u16,
    presence_bump: u8,
    direction: u8,
) -> RoomPresence {
    let claimed = if presence.player.is_zero_spec() {
        RoomPresence {
            player: actor,
            season_seed,
            room_x: room.x,
            room_y: room.y,
            skin_id: 0,
            equipped_item_id,
            is_current: true,
            bump: presence_bump,
            ..presence
        }
    } else {
        presence
    };
    RoomPresence { activity: ACTIVITY_DOOR_JOB, activity_direction: direction, ..claimed }
}

/// `actor` joins the job on the wall in `direction` of `room` at `now_slot` and
/// stakes `STAKE_AMOUNT`; the stake record is returned.
pub fn join_job(
    global: &GlobalAccount,
    room: &mut RoomAccount,
    player: &mut PlayerAccount,
    presence: &mut RoomPresence,
    actor: Address,
    room_key: Address,
    direction: u8,
    now_slot: u64,
    presence_bump: u8,
    stake_bump: u8,
) -> (r: Result<HelperStake, ChainDepthError>)
    requires
        old(room).wf(),
    ensures
        r is Err <==> join_error(*global, *old(room), *old(player), *old(presence), direction) is Some,
        r is Err ==> r == Err::<HelperStake, ChainDepthError>(
            join_error(*global, *old(room), *old(player), *old(presence), direction)->0,
        ) && *final(room) == *old(room) && *final(player) == *old(player) && *final(presence)
            == *old(presence),
        r is Ok ==> {
            &&& room_with_slot(
                *old(room),
                direction as int,
                slot_after_join(old(room).jobs[direction as int], now_slot, global.depth),
                *final(room),
            )
            &&& final(player).active_jobs@ == old(player).active_jobs@.push(
                job_of(old(room).x, old(room).y, direction),
            )
            &&& *final(player) == (PlayerAccount {
                active_jobs: final(player).active_jobs,
                ..*old(player)
            })
            &&& *final(presence) == presence_after_join(
                *old(presence),
                actor,
                global.season_seed,
                *old(room),
                old(player).equipped_item_id,
                presence_bump,
                direction,
            )
            &&& r->Ok_0 == (HelperStake {
                player: actor,
                room: room_key,
                direction,
                amount: STAKE_AMOUNT,
                joined_slot: now_slot,
                bump: stake_bump,
            })
        },
        final(room).wf(),
{
    if direction >= 4 {
        return Err(ChainDepthError::InvalidDirection);
    }
    let d = direction as usize;
    if !room.is_rubble(direction) {
        return Err(ChainDepthError::NotRubble);
    }
    if player.has_active_job(room.x, room.y, direction) {
        return Err(ChainDepthError::AlreadyJoined);
    }
    if player.active_jobs.len() != 0 {
        return Err(ChainDepthError::TooManyActiveJobs);
    }
    if room.jobs[d].completed {
        return Err(ChainDepthError::JobAlreadyCompleted);
    }
    if presence.activity == ACTIVITY_BOSS_FIGHT {
        return Err(ChainDepthError::AlreadyFightingBoss);
    }
    if room.jobs[d].helper_count >= MAX_HELPERS_PER_DIRECTION {
        return Err(ChainDepthError::JobFull);
    }
    let mut slot = room.jobs[d];
    assert(slot.wf());
    if slot.helper_count == 0 {
        slot.start_slot = now_slot;
        slot.last_update_slot = now_slot;
        slot.base_slots = calculate_base_slots(global.depth);
        slot.progress = 0;
        slot.bonus_per_helper = 0;
        slot.completed = false;
    } else {
        slot = ticked_slot(slot, now_slot);
    }
    slot.helper_count = slot.helper_count + 1;
    slot.total_staked = slot.total_staked + STAKE_AMOUNT;
    room.jobs[d] = slot;
    assert(room.jobs@ =~= old(room).jobs@.update(d as int, slot));
    let added = player.add_job(room.x, room.y, direction);
    assert(added is Ok);
    if presence.player.is_zero() {
        presence.player = actor;
        presence.season_seed = global.season_seed;
        presence.room_x = room.x;
        presence.room_y = room.y;
        presence.skin_id = 0;
        presence.equipped_item_id = player.equipped_item_id;
        presence.is_current = true;
        presence.bump = presence_bump;
    }
    presence.set_door_job(direction);
    Ok(
        HelperStake {
            player: actor,
            room: room_key,
            direction,
            amount: STAKE_AMOUNT,
            joined_slot: now_slot,
            bump: stake_bump,
        },
    )
}

/// `join_job` on behalf of `player` by `authority`, through a session that must
/// allow joining and cover the stake within its spending cap.
pub fn join_job_with_session(
    global: &GlobalAccount,
    room: &mut RoomAccount,
    player_account: &mut PlayerAccount,
    presence: &mut RoomPresence,
    session: &mut Option<SessionAuthority>,
    authority: Address,
    player: Address,
    room_key: Address,
    direction: u8,
    now_slot: u64,
    now_unix: i64,
    presence_bump: u8,
    stake_bump: u8,
) -> (r: Result<HelperStake, ChainDepthError>)
    requires
        old(room).wf(),
    ensures
        ({
            let auth = authorization_error(
                authority,
                player,
                *old(session),
                JOIN_JOB,
                STAKE_AMOUNT,
                now_slot,
                now_unix,
            );
            let join = join_error(*global, *old(room), *old(player_account), *old(presence), direction);
            &&& r is Err <==> auth is Some || join is Some
            &&& auth is Some ==> r == Err::<HelperStake, ChainDepthError>(auth->0)
            &&& auth is None && join is Some ==> r == Err::<HelperStake, ChainDepthError>(join->0)
            &&& r is Err ==> *final(room) == *old(room) && *final(player_account) == *old(
                player_account,
            ) && *final(presence) == *old(presence) && *final(session) == *old(session)
            &&& r is Ok ==> room_with_slot(
                *old(room),
                direction as int,
                slot_after_join(old(room).jobs[direction as int], now_slot, global.depth),
                *final(room),
            ) && final(player_account).active_jobs@ == old(player_account).active_jobs@.push(
                job_of(old(room).x, old(room).y, direction),
            ) && r->Ok_0.player == player && r->Ok_0.amount == STAKE_AMOUNT
        }),
        final(room).wf(),
{
    let mut granted = *session;
    match authorize_player_action(
        authority,
        player,
        &mut granted,
        JOIN_JOB,
        STAKE_AMOUNT,
        now_slot,
        now_unix,
    ) {
        Ok(()) => {},
        Err(e) => {
            return Err(e);
        },
    }
    match join_job(
        global,
        room,
        player_account,
        presence,
        player,
        room_key,
        direction,
        now_slot,
        presence_bump,
        stake_bump,
    ) {
        Ok(stake) => {
            *session = granted;
            Ok(stake)
        },
        Err(e) => Err(e),
    }
}

/// Why ticking the job on `direction` at `now` is refused, if it is.
pub open spec fn tick_error(room: RoomAccount, direction: u8, now: u64) -> Option<ChainDepthError> {
    if direction >= 4 {
        Some(ChainDepthError::InvalidDirection)
    } else if room.jobs[direction as int].helper_count == 0 {
        Some(ChainDepthError::NoActiveJob)
    } else if room.walls[direction as int] != WALL_RUBBLE {
        Some(ChainDepthError::NotRubble)
    } else {
        None
    }
}

/// `slot` with its helpers' work counted up to `now_slot` (see `ticked`).
fn ticked_slot(slot: JobSlot, now_slot: u64) -> (r: JobSlot)
    requires
        slot.progress <= slot.base_slots,
    ensures
        r == ticked(slot, now_slot),
{
    let elapsed_slots: u64 = if now_slot >= slot.last_update_slot {
        now_slot - slot.last_update_slot
    } else {
        0
    };
    assert(elapsed_slots as u128 * slot.helper_count as u128 <= 0xffff_ffff_ffff_ffff_u128 * 0xff_u128)
        by (nonlinear_arith)
        requires
            elapsed_slots <= 0xffff_ffff_ffff_ffff_u64,
            slot.helper_count <= 0xff_u8,
    ;
    let work: u128 = elapsed_slots as u128 * slot.helper_count as u128;
    let total: u128 = slot.progress as u128 + work;
    let progress: u64 = if total < slot.base_slots as u128 {
        total as u64
    } else {
        slot.base_slots
    };
    let last: u64 = if now_slot >= slot.last_update_slot {
        now_slot
    } else {
        slot.last_update_slot
    };
    JobSlot { progress, last_update_slot: last, ..slot }
}

/// Counts the work on `direction` up to `now_slot`: the slots since the last
/// update times the helpers are added to the progress, capped at the duration.
/// Progress never goes down.
pub fn tick_job(room: &mut RoomAccount, direction: u8, now_slot: u64) -> (r: Result<
    (),
    ChainDepthError,
>)
    requires
        old(room).wf(),
    ensures
        r is Err <==> tick_error(*old(room), direction, now_slot) is Some,
        r is Err ==> r == Err::<(), ChainDepthError>(tick_error(*old(room), direction, now_slot)->0)
            && *final(room) == *old(room),
        r is Ok ==> room_with_slot(
            *old(room),
            direction as int,
            ticked(old(room).jobs[direction as int], now_slot),
            *final(room),
        ),
        r is Ok ==> final(room).jobs[direction as int].progress >= old(
            room,
        ).jobs[direction as int].progress,
        final(room).wf(),
{
    if direction >= 4 {
        return Err(ChainDepthError::InvalidDirection);
    }
    let d = direction as usize;
    if room.jobs[d].helper_count == 0 {
        return Err(ChainDepthError::NoActiveJob);
    }
    if !room.is_rubble(direction) {
        return Err(ChainDepthError::NotRubble);
    }
    assert(room.jobs[d as int].wf());
    let slot = ticked_slot(room.jobs[d], now_slot);
    room.jobs[d] = slot;
    assert(room.jobs@ =~= old(room).jobs@.update(d as int, slot));
    Ok(())
}

/// Why a boost of `tip` on `direction` is refused, if it is.
pub open spec fn boost_error(room: RoomAccount, direction: u8, tip: u64) -> Option<ChainDepthError> {
    if direction >= 4 {
        Some(ChainDepthError::InvalidDirection)
    } else if tip < MIN_BOOST_TIP {
        Some(ChainDepthError::InsufficientBalance)
    } else if room.jobs[direction as int].helper_count == 0 {
        Some(ChainDepthError::NoActiveJob)
    } else if room.walls[direction as int] != WALL_RUBBLE {
        Some(ChainDepthError::NotRubble)
    } else {
        None
    }
}

/// A tip buys `tip / MIN_BOOST_TIP * BOOST_PROGRESS` slots of progress, capped at
/// the job's duration; the new progress is returned.
pub fn boost_job(room: &mut RoomAccount, direction: u8, boost_tip: u64) -> (r: Result<
    u64,
    ChainDepthError,
>)
    requires
        old(room).wf(),
    ensures
        r is Err <==> boost_error(*old(room), direction, boost_tip) is Some,
        r is Err ==> r == Err::<u64, ChainDepthError>(boost_error(*old(room), direction, boost_tip)->0)
            && *final(room) == *old(room),
        r is Ok ==> {
            let slot = old(room).jobs[direction as int];
            let p = min_int(slot.progress + boost_amount(boost_tip), slot.base_slots as int);
            &&& r == Ok::<u64, ChainDepthError>(p as u64)
            &&& room_with_slot(
                *old(room),
                direction as int,
                JobSlot { progress: p as u64, ..slot },
                *final(room),
            )
        },
        final(room).wf(),
{
    if direction >= 4 {
        return Err(ChainDepthError::InvalidDirection);
    }
    if boost_tip < MIN_BOOST_TIP {
        return Err(ChainDepthError::InsufficientBalance);
    }
    let d = direction as usize;
    if room.jobs[d].helper_count == 0 {
        return Err(ChainDepthError::NoActiveJob);
    }
    if !room.is_rubble(direction) {
        return Err(ChainDepthError::NotRubble);
    }
    let mut slot = room.jobs[d];
    assert(slot.wf());
    let boost_progress: u64 = (boost_tip / MIN_BOOST_TIP) * BOOST_PROGRESS;
    let sum: u128 = slot.progress as u128 + boost_progress as u128;
    let new_progress: u64 = if sum < slot.base_slots as u128 {
        sum as u64
    } else {
        slot.base_slots
    };
    slot.progress = new_progress;
    room.jobs[d] = slot;
    assert(room.jobs@ =~= old(room).jobs@.update(d as int, slot));
    Ok(new_progress)
}

/// Amounts moved when a helper abandons a job.
#[derive(Clone, Copy, Debug, PartialEq, Eq, Structural)]
pub struct JobAbandoned {
    /// Back to the helper: 80% of the stake, rounded down.
    pub refund_amount: u64,
    /// To the shared pool: the rest of the stake.
    pub slash_amount: u64,
}

/// Why abandoning the job on `direction` with `stake` is refused, if it is.
pub open spec fn abandon_error(room: RoomAccount, stake: HelperStake, direction: u8) -> Option<
    ChainDepthError,
> {
    if direction >= 4 {
        Some(ChainDepthError::InvalidDirection)
    } else if room.walls[direction as int] != WALL_RUBBLE {
        Some(ChainDepthError::NotRubble)
    } else if room.jobs[direction as int].completed {
        Some(ChainDepthError::JobAlreadyCompleted)
    } else if stake.direction != direction {
        Some(ChainDepthError::NotHelper)
    } else if stake.amount * ABANDON_REFUND_PERCENT > u64::MAX || room.jobs[direction as int].total_staked
        < stake.amount || room.jobs[direction as int].helper_count == 0 {
        Some(ChainDepthError::Overflow)
    } else {
        None
    }
}

/// The helper holding `stake` leaves the job on `direction` before it is done:
/// 80% of the stake is refunded, the rest goes to the pool, and the last helper
/// to leave returns the slot to idle.
pub fn abandon_job(
    room: &mut RoomAccount,
    player: &mut PlayerAccount,
    presence: &mut RoomPresence,
    stake: &HelperStake,
    direction: u8,
) -> (r: Result<JobAbandoned, ChainDepthError>)
    requires
        old(room).wf(),
    ensures
        r is Err <==> abandon_error(*old(room), *stake, direction) is Some,
        r is Err ==> r == Err::<JobAbandoned, ChainDepthError>(
            abandon_error(*old(room), *stake, direction)->0,
        ) && *final(room) == *old(room) && *final(player) == *old(player) && *final(presence)
            == *old(presence),
        r is Ok ==> {
            &&& r->Ok_0.refund_amount == stake.amount * ABANDON_REFUND_PERCENT / 100
            &&& r->Ok_0.slash_amount == stake.amount - r->Ok_0.refund_amount
            &&& room_with_slot(
                *old(room),
                direction as int,
                slot_after_leave(old(room).jobs[direction as int], stake.amount, None),
                *final(room),
            )
            &&& final(player).active_jobs@ == without_job(
                old(player).active_jobs@,
                job_of(old(room).x, old(room).y, direction),
            )
            &&& *final(player) == (PlayerAccount {
                active_jobs: final(player).active_jobs,
                ..*old(player)
            })
            &&& *final(presence) == (RoomPresence {
                activity: ACTIVITY_IDLE,
                activity_direction: NO_DIRECTION,
                ..*old(presence)
            })
        },
        stake.amount == STAKE_AMOUNT ==> final(room).wf(),
{
    if direction >= 4 {
        return Err(ChainDepthError::InvalidDirection);
    }
    let d = direction as usize;
    if !room.is_rubble(direction) {
        return Err(ChainDepthError::NotRubble);
    }
    if room.jobs[d].completed {
        return Err(ChainDepthError::JobAlreadyCompleted);
    }
    if stake.direction != direction {
        return Err(ChainDepthError::NotHelper);
    }
    let amount = stake.amount;
    let refund_amount: u64 = match amount.checked_mul(ABANDON_REFUND_PERCENT) {
        Some(v) => v / 100,
        None => {
            return Err(ChainDepthError::Overflow);
        },
    };
    let slash_amount = amount - refund_amount;
    let mut slot = room.jobs[d];
    if slot.total_staked < amount || slot.helper_count == 0 {
        return Err(ChainDepthError::Overflow);
    }
    slot.total_staked = slot.total_staked - amount;
    slot.helper_count = slot.helper_count - 1;
    if slot.helper_count == 0 {
        slot.progress = 0;
        slot.start_slot = 0;
        slot.last_update_slot = 0;
        slot.bonus_per_helper = 0;
        slot.completed = false;
    }
    room.jobs[d] = slot;
    assert(room.jobs@ =~= old(room).jobs@.update(d as int, slot));
    assert(room.jobs@[d as int].wf() || amount != STAKE_AMOUNT) by {
        if amount == STAKE_AMOUNT {
            assert(old(room).jobs[d as int].wf());
        }
    }
    player.remove_job(room.x, room.y, direction);
    presence.set_idle();
    Ok(JobAbandoned { refund_amount, slash_amount })
}

/// Why claiming the reward of the job on `direction` with `stake` is refused.
pub open spec fn claim_error(room: RoomAccount, stake: HelperStake, direction: u8) -> Option<
    ChainDepthError,
> {
    if direction >= 4 {
        Some(ChainDepthError::InvalidDirection)
    } else if !room.jobs[direction as int].completed {
        Some(ChainDepthError::JobNotCompleted)
    } else if stake.direction != direction {
        Some(ChainDepthError::NotHelper)
    } else if stake.amount + room.jobs[direction as int].bonus_per_helper > u64::MAX
        || room.jobs[direction as int].total_staked < stake.amount
        || room.jobs[direction as int].helper_count == 0 {
        Some(ChainDepthError::Overflow)
    } else {
        None
    }
}

/// After completion, the helper holding `stake` takes back the stake plus the
/// job's per-helper bonus; the last claim returns the slot to idle, sized for
/// the season's current depth. The payout is returned.
pub fn claim_job_reward(
    global: &GlobalAccount,
    room: &mut RoomAccount,
    player: &mut PlayerAccount,
    presence: &mut RoomPresence,
    stake: &HelperStake,
    direction: u8,
) -> (r: Result<u64, ChainDepthError>)
    requires
        old(room).wf(),
    ensures
        r is Err <==> claim_error(*old(room), *stake, direction) is Some,
        r is Err ==> r == Err::<u64, ChainDepthError>(claim_error(*old(room), *stake, direction)->0)
            && *final(room) == *old(room) && *final(player) == *old(player) && *final(presence)
            == *old(presence),
        r is Ok ==> {
            &&& r->Ok_0 == stake.amount + old(room).jobs[direction as int].bonus_per_helper
            &&& room_with_slot(
                *old(room),
                direction as int,
                slot_after_leave(
                    old(room).jobs[direction as int],
                    stake.amount,
                    Some(base_slots_for(global.depth)),
                ),
                *final(room),
            )
            &&& final(player).active_jobs@ == without_job(
                old(player).active_jobs@,
                job_of(old(room).x, old(room).y, direction),
            )
            &&& *final(player) == (PlayerAccount {
                active_jobs: final(player).active_jobs,
                ..*old(player)
            })
            &&& *final(presence) == (RoomPresence {
                activity: ACTIVITY_IDLE,
                activity_direction: NO_DIRECTION,
                ..*old(presence)
            })
        },
        stake.amount == STAKE_AMOUNT ==> final(room).wf(),
{
    if direction >= 4 {
        return Err(ChainDepthError::InvalidDirection);
    }
    let d = direction as usize;
    if !room.jobs[d].completed {
        return Err(ChainDepthError::JobNotCompleted);
    }
    if stake.direction != direction {
        return Err(ChainDepthError::NotHelper);
    }
    let amount = stake.amount;
    let mut slot = room.jobs[d];
    let payout: u64 = match amount.checked_add(slot.bonus_per_helper) {
        Some(v) => v,
        None => {
            return Err(ChainDepthError::Overflow);
        },
    };
    if slot.total_staked < amount || slot.helper_count == 0 {
        return Err(ChainDepthError::Overflow);
    }
    slot.total_staked = slot.total_staked - amount;
    slot.helper_count = slot.helper_count - 1;
    if slot.helper_count == 0 {
        slot.progress = 0;
        slot.start_slot = 0;
        slot.last_update_slot = 0;
        slot.base_slots = calculate_base_slots(global.depth);
        slot.completed = false;
        slot.bonus_per_helper = 0;
    }
    room.jobs[d] = slot;
    assert(room.jobs@ =~= old(room).jobs@.update(d as int, slot));
    assert(room.jobs@[d as int].wf() || amount != STAKE_AMOUNT) by {
        if amount == STAKE_AMOUNT {
            assert(old(room).jobs[d as int].wf());
        }
    }
    player.remove_job(room.x, room.y, direction);
    presence.set_idle();
    Ok(payout)
}

/// Outcome of a completed job.
#[derive(Clone, Copy, Debug, PartialEq, Eq, Structural)]
pub struct JobCompleted {
    /// Season depth after the completion.
    pub new_depth: u32,
    pub helpers_count: u8,
    /// Moved from the shared pool into the job's escrow.
    pub bonus_total: u64,
    /// What each helper's claim will pay.
    pub reward_per_helper: u64,
    /// The room beyond the wall was generated by this completion.
    pub discovered_room: bool,
}

/// Bonus each helper is meant to get: `MIN_BOOST_TIP / (1 + jobs / 100) / helpers`,
/// decaying as the season's job count grows.
pub open spec fn desired_bonus_per_helper(jobs_completed: int, helper_count: int) -> int {
    MIN_BOOST_TIP as int / (1 + jobs_completed / 100) / helper_count
}

pub fn calculate_bonus(jobs_completed: u64, helper_count: u64) -> (r: u64)
    requires
        helper_count > 0,
    ensures
        r as int == desired_bonus_per_helper(jobs_completed as int, helper_count as int),
        r <= MIN_BOOST_TIP,
{
    let divisor: u64 = 1 + jobs_completed / 100;
    let per_job: u64 = MIN_BOOST_TIP / divisor;
    assert(per_job <= MIN_BOOST_TIP) by (nonlinear_arith)
        requires
            divisor >= 1,
            per_job == MIN_BOOST_TIP / divisor,
    ;
    let r = per_job / helper_count;
    assert(r <= per_job) by (nonlinear_arith)
        requires
            helper_count >= 1,
            r == per_job / helper_count,
    ;
    r
}

/// The bonus moved into the escrow: the desired total, limited by the pool.
pub open spec fn completion_bonus(jobs_completed: int, helper_count: int, pool: int) -> int {
    min_int(desired_bonus_per_helper(jobs_completed, helper_count) * helper_count, pool)
}

/// Progress the completion check sees: the work counted up to `now`.
pub open spec fn completion_progress(slot: JobSlot, now: u64) -> int {
    tick_progress(slot, now)
}

/// Why completing the job on `direction` is refused, if it is.
pub open spec fn complete_error(
    global: GlobalAccount,
    room: RoomAccount,
    adjacent: RoomAccount,
    player: PlayerAccount,
    direction: u8,
    now: u64,
) -> Option<ChainDepthError> {
    let slot = room.jobs[direction as int];
    let nx = step_x(room.x as int, direction);
    let ny = step_y(room.y as int, direction);
    if direction >= 4 {
        Some(ChainDepthError::InvalidDirection)
    } else if room.walls[direction as int] != WALL_RUBBLE {
        Some(ChainDepthError::NotRubble)
    } else if slot.helper_count == 0 {
        Some(ChainDepthError::NoActiveJob)
    } else if slot.completed {
        Some(ChainDepthError::JobAlreadyCompleted)
    } else if completion_progress(slot, now) < slot.base_slots {
        Some(ChainDepthError::JobNotReady)
    } else if !player.active_jobs@.contains(job_of(room.x, room.y, direction)) {
        Some(ChainDepthError::NotHelper)
    } else if !in_bounds(nx, ny) {
        Some(ChainDepthError::OutOfBounds)
    } else if adjacent.season_seed != 0 && (adjacent.x != nx || adjacent.y != ny) {
        Some(ChainDepthError::NotAdjacent)
    } else if global.jobs_completed == u64::MAX {
        Some(ChainDepthError::Overflow)
    } else {
        None
    }
}

/// Runs every check of `complete_job`; on success returns the progress counted up to `now_slot`
/// and the coordinates of the room beyond the wall.
fn check_completion(
    global: &GlobalAccount,
    room: &RoomAccount,
    adjacent: &RoomAccount,
    player: &PlayerAccount,
    direction: u8,
    now_slot: u64,
) -> (r: Result<(u64, i8, i8), ChainDepthError>)
    requires
        room.wf(),
    ensures
        r is Err <==> complete_error(*global, *room, *adjacent, *player, direction, now_slot) is Some,
        r is Err ==> r == Err::<(u64, i8, i8), ChainDepthError>(
            complete_error(*global, *room, *adjacent, *player, direction, now_slot)->0,
        ),
        r is Ok ==> {
            let v = r->Ok_0;
            &&& direction < 4
            &&& v.0 as int == completion_progress(room.jobs[direction as int], now_slot)
            &&& v.0 <= room.jobs[direction as int].base_slots
            &&& v.1 as int == step_x(room.x as int, direction)
            &&& v.2 as int == step_y(room.y as int, direction)
            &&& in_bounds(v.1 as int, v.2 as int)
        },
{
    if direction >= 4 {
        return Err(ChainDepthError::InvalidDirection);
    }
    let d = direction as usize;
    let slot = room.jobs[d];
    assert(slot.wf());
    let progress = ticked_slot(slot, now_slot).progress;
    if !room.is_rubble(direction) {
        return Err(ChainDepthError::NotRubble);
    }
    if slot.helper_count == 0 {
        return Err(ChainDepthError::NoActiveJob);
    }
    if slot.completed {
        return Err(ChainDepthError::JobAlreadyCompleted);
    }
    if progress < slot.base_slots {
        return Err(ChainDepthError::JobNotReady);
    }
    if !player.has_active_job(room.x, room.y, direction) {
        return Err(ChainDepthError::NotHelper);
    }
    let nx: i16 = if direction == DIRECTION_EAST {
        room.x as i16 + 1
    } else if direction == DIRECTION_WEST {
        room.x as i16 - 1
    } else {
        room.x as i16
    };
    let ny: i16 = if direction == DIRECTION_NORTH {
        room.y as i16 + 1
    } else if direction == DIRECTION_SOUTH {
        room.y as i16 - 1
    } else {
        room.y as i16
    };
    if nx < MIN_COORD as i16 || nx > MAX_COORD as i16 || ny < MIN_COORD as i16 || ny
        > MAX_COORD as i16 {
        return Err(ChainDepthError::OutOfBounds);
    }
    let ax = nx as i8;
    let ay = ny as i8;
    if adjacent.season_seed != 0 && (adjacent.x != ax || adjacent.y != ay) {
        return Err(ChainDepthError::NotAdjacent);
    }
    if global.jobs_completed == u64::MAX {
        return Err(ChainDepthError::Overflow);
    }
    Ok((progress, ax, ay))
}

/// Completes the job on `direction` once its progress reaches its duration: the
/// wall opens, the room beyond is generated on first discovery and opened back
/// towards this one, the season's depth and job count advance, and a bonus
/// from the pool (`prize_pool_balance` is what it holds) is set aside for the
/// helpers' claims.
#[verifier::rlimit(40)]
pub fn complete_job(
    global: &mut GlobalAccount,
    room: &mut RoomAccount,
    adjacent: &mut RoomAccount,
    player: &mut PlayerAccount,
    actor: Address,
    direction: u8,
    prize_pool_balance: u64,
    now_slot: u64,
    adjacent_bump: u8,
) -> (r: Result<JobCompleted, ChainDepthError>)
    requires
        old(room).wf(),
        old(adjacent).season_seed != 0 ==> old(adjacent).wf(),
    ensures
        r is Err <==> complete_error(
            *old(global),
            *old(room),
            *old(adjacent),
            *old(player),
            direction,
            now_slot,
        ) is Some,
        r is Err ==> r == Err::<JobCompleted, ChainDepthError>(
            complete_error(
                *old(global),
                *old(room),
                *old(adjacent),
                *old(player),
                direction,
                now_slot,
            )->0,
        ) && *final(global) == *old(global) && *final(room) == *old(room) && *final(adjacent)
            == *old(adjacent) && *final(player) == *old(player),
        r is Ok ==> {
            let d = direction as int;
            let slot = old(room).jobs[d];
            let count = slot.helper_count as int;
            let nx = step_x(old(room).x as int, direction);
            let ny = step_y(old(room).y as int, direction);
            let back = opposite(direction);
            let jobs = old(global).jobs_completed + 1;
            let bonus = completion_bonus(jobs, count, prize_pool_balance as int);
            let new_depth = if depth_of(nx, ny) > old(global).depth as int {
                depth_of(nx, ny) as u32
            } else {
                old(global).depth
            };
            &&& *final(room) == (RoomAccount {
                walls: final(room).walls,
                door_lock_kinds: final(room).door_lock_kinds,
                jobs: final(room).jobs,
                ..*old(room)
            })
            &&& final(room).walls@ == old(room).walls@.update(d, WALL_OPEN)
            &&& final(room).door_lock_kinds@ == old(room).door_lock_kinds@.update(d, LOCK_KIND_NONE)
            &&& final(room).jobs@ == old(room).jobs@.update(
                d,
                JobSlot {
                    completed: true,
                    bonus_per_helper: (bonus / count) as u64,
                    ..ticked(slot, now_slot)
                },
            )
            &&& final(adjacent).walls[back as int] == WALL_OPEN
            &&& final(adjacent).door_lock_kinds[back as int] == LOCK_KIND_NONE
            &&& old(adjacent).season_seed == 0 ==> discovered_fields(
                *final(adjacent),
                old(global).season_seed,
                nx as i8,
                ny as i8,
                actor,
                now_slot,
                adjacent_bump,
            ) && final(adjacent).walls@ == discovered_layout(
                old(global).season_seed,
                nx as i8,
                ny as i8,
                back,
            ).0.update(back as int, WALL_OPEN)
            &&& old(adjacent).season_seed != 0 ==> *final(adjacent) == (RoomAccount {
                walls: final(adjacent).walls,
                door_lock_kinds: final(adjacent).door_lock_kinds,
                ..*old(adjacent)
            }) && final(adjacent).walls@ == old(adjacent).walls@.update(back as int, WALL_OPEN)
            &&& *final(global) == (GlobalAccount {
                depth: new_depth,
                jobs_completed: jobs as u64,
                ..*old(global)
            })
            &&& final(player).active_jobs@ == without_job(
                old(player).active_jobs@,
                job_of(old(room).x, old(room).y, direction),
            )
            &&& *final(player) == (PlayerAccount {
                active_jobs: final(player).active_jobs,
                ..*old(player)
            })
            &&& r->Ok_0 == (JobCompleted {
                new_depth,
                helpers_count: slot.helper_count,
                bonus_total: bonus as u64,
                reward_per_helper: (STAKE_AMOUNT + bonus / count) as u64,
                discovered_room: old(adjacent).season_seed == 0,
            })
        },
        final(room).wf(),
        final(adjacent).season_seed != 0 ==> final(adjacent).wf(),
{
    let (progress, ax, ay) = match check_completion(global, room, adjacent, player, direction, now_slot) {
        Ok(v) => v,
        Err(e) => {
            return Err(e);
        },
    };
    let d = direction as usize;
    let mut slot = room.jobs[d];
    assert(slot.wf());
    let helper_count = slot.helper_count as u64;
    let back = opposite_direction(direction);
    let discovered = reveal_adjacent_room(
        adjacent,
        global.season_seed,
        ax,
        ay,
        back,
        actor,
        now_slot,
        adjacent_bump,
    );
    let new_depth = calculate_depth(ax, ay);
    if new_depth > global.depth {
        global.depth = new_depth;
    }
    global.jobs_completed = global.jobs_completed + 1;
    let base_bonus = calculate_bonus(global.jobs_completed, helper_count);
    assert(base_bonus * helper_count <= MIN_BOOST_TIP * 4) by (nonlinear_arith)
        requires
            base_bonus <= MIN_BOOST_TIP,
            helper_count <= 4,
    ;
    let desired_total: u64 = base_bonus * helper_count;
    let bonus_total: u64 = if desired_total < prize_pool_balance {
        desired_total
    } else {
        prize_pool_balance
    };
    let bonus_per_helper = bonus_total / helper_count;
    slot = ticked_slot(slot, now_slot);
    assert(slot.progress == progress);
    slot.completed = true;
    slot.bonus_per_helper = bonus_per_helper;
    room.jobs[d] = slot;
    room.walls[d] = WALL_OPEN;
    room.door_lock_kinds[d] = LOCK_KIND_NONE;
    assert(room.jobs@ =~= old(room).jobs@.update(d as int, slot));
    assert(room.walls@ =~= old(room).walls@.update(d as int, WALL_OPEN));
    assert(room.door_lock_kinds@ =~= old(room).door_lock_kinds@.update(d as int, LOCK_KIND_NONE));
    player.remove_job(room.x, room.y, direction);
    Ok(
        JobCompleted {
            new_depth: global.depth,
            helpers_count: slot.helper_count,
            bonus_total,
            reward_per_helper: STAKE_AMOUNT + bonus_per_helper,
            discovered_room: discovered,
        },
    )
}

/// Progress never runs backwards while helpers work: counting the work up to a
/// slot, and again up to a later one, a joining helper, a boost, and a helper
/// leaving while others stay never lower it, and it never exceeds the duration.
pub proof fn lemma_progress_monotone(
    slot: JobSlot,
    now1: u64,
    now2: u64,
    depth: u32,
    tip: u64,
    amount: u64,
    reset_base: Option<u64>,
)
    requires
        slot.wf(),
        slot.helper_count > 0,
        now1 <= now2,
    ensures
        slot.progress <= ticked(slot, now1).progress <= slot.base_slots,
        ticked(slot, now1).progress <= ticked(ticked(slot, now1), now2).progress,
        slot.helper_count < MAX_HELPERS_PER_DIRECTION ==> slot.progress <= slot_after_join(
            slot,
            now1,
            depth,
        ).progress,
        slot.progress <= min_int(slot.progress + boost_amount(tip), slot.base_slots as int)
            <= slot.base_slots,
        slot.helper_count > 1 ==> slot_after_leave(slot, amount, reset_base).progress
            == slot.progress,
{
    let k = slot.helper_count as int;
    let e1 = elapsed(slot, now1);
    assert(0 <= e1 * k) by (nonlinear_arith)
        requires
            0 <= e1,
            k > 0,
    ;
    let t = ticked(slot, now1);
    let e2 = elapsed(t, now2);
    assert(0 <= e2 * k) by (nonlinear_arith)
        requires
            0 <= e2,
            k > 0,
    ;
    assert((tip / MIN_BOOST_TIP) as int * BOOST_PROGRESS as int >= 0);
}

/// Helpers share the work: a job with `k` helpers is done exactly when its stored
/// progress plus `k` times the slots since the last update reaches its duration,
/// so two helpers need half the time of one.
pub proof fn lemma_helpers_share_the_work(slot: JobSlot, now: u64)
    requires
        slot.progress <= slot.base_slots,
    ensures
        (tick_progress(slot, now) == slot.base_slots) <==> (slot.progress + elapsed(slot, now)
            * slot.helper_count >= slot.base_slots),
{
}

/// Stakes are conserved: joining adds exactly one stake and one helper, abandoning
/// or claiming (with a stake made by joining) releases exactly one, every slot keeps
/// `total_staked == helpers * STAKE_AMOUNT`, and a slot returns to idle exactly
/// when its helper count reaches zero.
pub proof fn lemma_job_conservation(slot: JobSlot, now: u64, depth: u32, reset_base: Option<u64>)
    requires
        slot.wf(),
        slot.helper_count == 0 ==> slot.is_idle(),
    ensures
        slot.helper_count < MAX_HELPERS_PER_DIRECTION ==> {
            let j = slot_after_join(slot, now, depth);
            &&& j.wf()
            &&& j.helper_count == slot.helper_count + 1
            &&& j.total_staked == slot.total_staked + STAKE_AMOUNT
            &&& !j.is_idle()
        },
        slot.helper_count > 0 ==> {
            let l = slot_after_leave(slot, STAKE_AMOUNT, reset_base);
            &&& l.wf()
            &&& l.helper_count == slot.helper_count - 1
            &&& l.total_staked == slot.total_staked - STAKE_AMOUNT
            &&& l.is_idle() <==> l.helper_count == 0
        },
{
}

} // verus!
