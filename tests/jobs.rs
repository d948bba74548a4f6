use chaindepth::address::Address;
use chaindepth::errors::ChainDepthError;
use chaindepth::jobs::{
    abandon_job, boost_job, claim_job_reward, complete_job, join_job, tick_job, HelperStake,
};
use chaindepth::player::PlayerAccount;
use chaindepth::presence::{RoomPresence, ACTIVITY_IDLE};
use chaindepth::room::{
    JobSlot, RoomAccount, CENTER_EMPTY, DIRECTION_NORTH, DIRECTION_SOUTH, LOCK_KIND_NONE,
    STAKE_AMOUNT, WALL_OPEN, WALL_RUBBLE, WALL_SOLID,
};
use chaindepth::season::GlobalAccount;

fn addr(n: u64) -> Address {
    Address { w0: n, w1: 0, w2: 0, w3: 0 }
}

fn slot(base: u64) -> JobSlot {
    JobSlot {
        helper_count: 0,
        progress: 0,
        start_slot: 0,
        last_update_slot: 0,
        base_slots: base,
        total_staked: 0,
        completed: false,
        bonus_per_helper: 0,
    }
}

fn room_at(x: i8, y: i8, seed: u64) -> RoomAccount {
    RoomAccount {
        x,
        y,
        season_seed: seed,
        walls: [WALL_RUBBLE, WALL_SOLID, WALL_SOLID, WALL_SOLID],
        door_lock_kinds: [LOCK_KIND_NONE; 4],
        jobs: [slot(300); 4],
        has_chest: false,
        forced_key_drop: false,
        center_type: CENTER_EMPTY,
        center_id: 0,
        boss_max_hp: 0,
        boss_current_hp: 0,
        boss_last_update_slot: 0,
        boss_total_dps: 0,
        boss_fighter_count: 0,
        boss_defeated: false,
        looted_count: 0,
        created_by: Address::zero(),
        created_slot: 0,
        bump: 0,
    }
}

fn blank_room() -> RoomAccount {
    let mut r = room_at(0, 0, 0);
    r.walls = [WALL_SOLID; 4];
    r
}

fn global(depth: u32) -> GlobalAccount {
    GlobalAccount {
        season_seed: 4242,
        depth,
        skr_mint: addr(1),
        prize_pool: addr(2),
        admin: addr(3),
        end_slot: 1_000_000,
        jobs_completed: 0,
        bump: 0,
    }
}

fn player_at(owner: Address, x: i8, y: i8) -> PlayerAccount {
    PlayerAccount {
        owner,
        current_room_x: x,
        current_room_y: y,
        active_jobs: Vec::new(),
        jobs_completed: 0,
        chests_looted: 0,
        equipped_item_id: 0,
        total_score: 0,
        current_run_start_slot: 0,
        runs_extracted: 0,
        last_extraction_slot: 0,
        in_dungeon: true,
        current_hp: 100,
        max_hp: 100,
        data_version: 1,
        season_seed: 4242,
        bump: 0,
    }
}

fn presence() -> RoomPresence {
    RoomPresence {
        player: Address::zero(),
        season_seed: 0,
        room_x: 0,
        room_y: 0,
        skin_id: 0,
        equipped_item_id: 0,
        activity: ACTIVITY_IDLE,
        activity_direction: 255,
        is_current: false,
        bump: 0,
    }
}

fn join(
    g: &GlobalAccount,
    room: &mut RoomAccount,
    who: u64,
    now: u64,
) -> (PlayerAccount, HelperStake) {
    let mut p = player_at(addr(who), room.x, room.y);
    let mut pres = presence();
    let stake = join_job(g, room, &mut p, &mut pres, addr(who), addr(77), DIRECTION_NORTH, now, 0, 0)
        .unwrap();
    (p, stake)
}

#[test]
fn sole_helper_at_depth_zero_completes_after_base_duration() {
    let mut g = global(0);
    let mut room = room_at(5, 5, 4242);
    room.jobs[0] = slot(0);
    let (mut p, stake) = join(&g, &mut room, 10, 1000);
    assert_eq!(room.jobs[0].base_slots, 300);
    assert_eq!(room.jobs[0].helper_count, 1);
    assert_eq!(stake.amount, STAKE_AMOUNT);

    let mut adjacent = blank_room();
    let early = complete_job(&mut g, &mut room, &mut adjacent, &mut p, addr(10), DIRECTION_NORTH, 0, 1299, 0);
    assert_eq!(early.unwrap_err(), ChainDepthError::JobNotReady);

    let done = complete_job(&mut g, &mut room, &mut adjacent, &mut p, addr(10), DIRECTION_NORTH, 0, 1300, 0)
        .unwrap();
    assert!(done.discovered_room);
    assert_eq!(room.walls[DIRECTION_NORTH as usize], WALL_OPEN);
    assert_eq!(adjacent.walls[DIRECTION_SOUTH as usize], WALL_OPEN);
    assert_eq!((adjacent.x, adjacent.y), (5, 6));
    assert_eq!(g.depth, 1);
    assert_eq!(g.jobs_completed, 1);
    assert!(room.jobs[0].completed);
    assert!(p.active_jobs.is_empty());
}

#[test]
fn two_helpers_halve_the_time() {
    let g = global(0);
    let mut room = room_at(5, 5, 4242);
    join(&g, &mut room, 10, 1000);
    join(&g, &mut room, 11, 1000);
    assert_eq!(room.jobs[0].helper_count, 2);
    tick_job(&mut room, DIRECTION_NORTH, 1149).unwrap();
    assert_eq!(room.jobs[0].progress, 298);
    tick_job(&mut room, DIRECTION_NORTH, 1150).unwrap();
    assert_eq!(room.jobs[0].progress, 300);

    let mut solo = room_at(5, 5, 4242);
    join(&g, &mut solo, 10, 1000);
    tick_job(&mut solo, DIRECTION_NORTH, 1150).unwrap();
    assert_eq!(solo.jobs[0].progress, 150);
}

#[test]
fn abandoning_a_solo_job_refunds_eighty_percent() {
    let g = global(0);
    let mut room = room_at(5, 5, 4242);
    let (mut p, stake) = join(&g, &mut room, 10, 1000);
    tick_job(&mut room, DIRECTION_NORTH, 1100).unwrap();
    let mut pres = presence();
    let out = abandon_job(&mut room, &mut p, &mut pres, &stake, DIRECTION_NORTH).unwrap();
    assert_eq!(out.refund_amount, 8_000_000);
    assert_eq!(out.slash_amount, 2_000_000);
    assert_eq!(out.refund_amount + out.slash_amount, STAKE_AMOUNT);
    let s = room.jobs[0];
    assert_eq!(s.helper_count, 0);
    assert_eq!(s.progress, 0);
    assert_eq!(s.start_slot, 0);
    assert_eq!(s.total_staked, 0);
    assert!(!s.completed);
    assert!(p.active_jobs.is_empty());
}

#[test]
fn progress_never_decreases_and_is_capped() {
    let g = global(0);
    let mut room = room_at(5, 5, 4242);
    join(&g, &mut room, 10, 1000);
    let mut last = 0;
    for now in (1000..1600).step_by(37) {
        tick_job(&mut room, DIRECTION_NORTH, now).unwrap();
        assert!(room.jobs[0].progress >= last);
        assert!(room.jobs[0].progress <= room.jobs[0].base_slots);
        last = room.jobs[0].progress;
    }
    assert_eq!(last, 300);
}

#[test]
fn stakes_are_conserved_through_joins_abandons_and_claims() {
    let mut g = global(0);
    let mut room = room_at(5, 5, 4242);
    let (mut p1, s1) = join(&g, &mut room, 10, 1000);
    let (mut p2, s2) = join(&g, &mut room, 11, 1000);
    let (mut p3, s3) = join(&g, &mut room, 12, 1000);
    assert_eq!(room.jobs[0].total_staked, 3 * STAKE_AMOUNT);
    let mut pres = presence();
    abandon_job(&mut room, &mut p3, &mut pres, &s3, DIRECTION_NORTH).unwrap();
    assert_eq!(room.jobs[0].total_staked, 2 * STAKE_AMOUNT);
    assert_eq!(room.jobs[0].helper_count, 2);

    let mut adjacent = blank_room();
    let done = complete_job(&mut g, &mut room, &mut adjacent, &mut p1, addr(10), DIRECTION_NORTH, 5_000_000, 1150, 0)
        .unwrap();
    assert_eq!(done.bonus_total, 1_000_000);
    assert_eq!(room.jobs[0].bonus_per_helper, 500_000);

    let pay1 = claim_job_reward(&g, &mut room, &mut p1, &mut pres, &s1, DIRECTION_NORTH).unwrap();
    assert_eq!(pay1, STAKE_AMOUNT + 500_000);
    assert_eq!(room.jobs[0].helper_count, 1);
    assert!(room.jobs[0].completed);
    let pay2 = claim_job_reward(&g, &mut room, &mut p2, &mut pres, &s2, DIRECTION_NORTH).unwrap();
    assert_eq!(pay2, STAKE_AMOUNT + 500_000);
    let s = room.jobs[0];
    assert_eq!(s.helper_count, 0);
    assert_eq!(s.total_staked, 0);
    assert!(!s.completed);
    assert_eq!(s.base_slots, 300);
}

#[test]
fn joining_is_refused_without_change() {
    let g = global(0);
    let mut room = room_at(5, 5, 4242);
    let (mut p, _) = join(&g, &mut room, 10, 1000);
    let mut pres = presence();
    let again = join_job(&g, &mut room, &mut p, &mut pres, addr(10), addr(77), DIRECTION_NORTH, 1001, 0, 0);
    assert_eq!(again.unwrap_err(), ChainDepthError::AlreadyJoined);
    for who in 11..14 {
        join(&g, &mut room, who, 1000);
    }
    assert_eq!(room.jobs[0].helper_count, 4);
    let mut p5 = player_at(addr(20), 5, 5);
    let full = join_job(&g, &mut room, &mut p5, &mut pres, addr(20), addr(77), DIRECTION_NORTH, 1002, 0, 0);
    assert_eq!(full.unwrap_err(), ChainDepthError::JobFull);
    assert_eq!(room.jobs[0].helper_count, 4);
    let bad = join_job(&g, &mut room, &mut p5, &mut pres, addr(20), addr(77), 4, 1002, 0, 0);
    assert_eq!(bad.unwrap_err(), ChainDepthError::InvalidDirection);
    let solid = join_job(&g, &mut room, &mut p5, &mut pres, addr(20), addr(77), DIRECTION_SOUTH, 1002, 0, 0);
    assert_eq!(solid.unwrap_err(), ChainDepthError::NotRubble);
}

#[test]
fn boosting_adds_progress_per_tip_unit() {
    let g = global(0);
    let mut room = room_at(5, 5, 4242);
    join(&g, &mut room, 10, 1000);
    assert_eq!(boost_job(&mut room, DIRECTION_NORTH, 999_999).unwrap_err(), ChainDepthError::InsufficientBalance);
    assert_eq!(boost_job(&mut room, DIRECTION_NORTH, 2_500_000).unwrap(), 60);
    assert_eq!(boost_job(&mut room, DIRECTION_NORTH, 100_000_000).unwrap(), 300);
    let mut empty = room_at(5, 5, 4242);
    assert_eq!(boost_job(&mut empty, DIRECTION_NORTH, 1_000_000).unwrap_err(), ChainDepthError::NoActiveJob);
}

#[test]
fn boosted_progress_survives_ticks() {
    let g = global(0);
    let mut room = room_at(5, 5, 4242);
    join(&g, &mut room, 10, 1000);
    assert_eq!(boost_job(&mut room, DIRECTION_NORTH, 3_000_000).unwrap(), 90);
    tick_job(&mut room, DIRECTION_NORTH, 1000).unwrap();
    assert_eq!(room.jobs[0].progress, 90);
    tick_job(&mut room, DIRECTION_NORTH, 1010).unwrap();
    assert_eq!(room.jobs[0].progress, 100);
    tick_job(&mut room, DIRECTION_NORTH, 1005).unwrap();
    assert_eq!(room.jobs[0].progress, 100);
}

#[test]
fn a_helper_leaving_does_not_undo_work() {
    let g = global(0);
    let mut room = room_at(5, 5, 4242);
    join(&g, &mut room, 10, 1000);
    let (mut p2, s2) = join(&g, &mut room, 11, 1000);
    tick_job(&mut room, DIRECTION_NORTH, 1100).unwrap();
    assert_eq!(room.jobs[0].progress, 200);
    let mut pres = presence();
    abandon_job(&mut room, &mut p2, &mut pres, &s2, DIRECTION_NORTH).unwrap();
    assert_eq!(room.jobs[0].progress, 200);
    tick_job(&mut room, DIRECTION_NORTH, 1110).unwrap();
    assert_eq!(room.jobs[0].progress, 210);
}

#[test]
fn a_job_started_at_slot_zero_completes_by_time() {
    let mut g = global(0);
    let mut room = room_at(5, 5, 4242);
    let (mut p, _) = join(&g, &mut room, 10, 0);
    let mut adjacent = blank_room();
    complete_job(&mut g, &mut room, &mut adjacent, &mut p, addr(10), DIRECTION_NORTH, 0, 300, 0).unwrap();
    assert_eq!(room.jobs[0].progress, 300);
    assert!(room.jobs[0].completed);
}

#[test]
fn a_boost_that_fills_the_job_allows_completion() {
    let mut g = global(0);
    let mut room = room_at(5, 5, 4242);
    let (mut p, _) = join(&g, &mut room, 10, 1000);
    assert_eq!(boost_job(&mut room, DIRECTION_NORTH, 10_000_000).unwrap(), 300);
    let mut adjacent = blank_room();
    complete_job(&mut g, &mut room, &mut adjacent, &mut p, addr(10), DIRECTION_NORTH, 0, 1000, 0).unwrap();
    assert!(room.jobs[0].completed);
}
