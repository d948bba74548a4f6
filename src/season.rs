//! The live season: its seed, the deepest depth reached and its end.

use vstd::prelude::*;
use crate::address::Address;
use crate::errors::ChainDepthError;
use crate::rng::{wrap_add, wrap_mul};

verus! {

/// A season lasts one week of 400 ms slots.
pub const SEASON_DURATION_SLOTS: u64 = 1_512_000;

pub const SEED_MIX_MUL_1: u64 = 6364136223846793005;
pub const SEED_MIX_MUL_2: u64 = 1442695040888963407;

/// The one live season.
#[derive(Clone, Copy, Debug)]
pub struct GlobalAccount {
    pub season_seed: u64,
    pub depth: u32,
    pub skr_mint: Address,
    pub prize_pool: Address,
    pub admin: Address,
    pub end_slot: u64,
    pub jobs_completed: u64,
    pub bump: u8,
}

/// `(old_seed * 6364136223846793005 + slot) * 1442695040888963407`, wrapping.
pub open spec fn next_seed(old_seed: u64, slot: u64) -> u64 {
    wrap_mul(wrap_add(wrap_mul(old_seed, SEED_MIX_MUL_1), slot), SEED_MIX_MUL_2)
}

pub fn generate_new_seed(old_seed: u64, slot: u64) -> (r: u64)
    ensures
        r == next_seed(old_seed, slot),
{
    old_seed.wrapping_mul(SEED_MIX_MUL_1).wrapping_add(slot).wrapping_mul(SEED_MIX_MUL_2)
}

/// What a season reset replaced.
#[derive(Clone, Copy, Debug, PartialEq, Eq, Structural)]
pub struct SeasonReset {
    pub old_seed: u64,
    pub new_seed: u64,
    pub old_depth: u32,
    pub end_slot: u64,
}

/// Starts a new season at `current_slot`: a fresh seed, depth and job counter
/// back to zero, and an end one season duration later.
pub fn apply_season_reset(global: &mut GlobalAccount, current_slot: u64) -> (r: SeasonReset)
    requires
        current_slot <= u64::MAX - SEASON_DURATION_SLOTS,
    ensures
        *final(global) == (GlobalAccount {
            season_seed: next_seed(old(global).season_seed, current_slot),
            depth: 0,
            jobs_completed: 0,
            end_slot: (current_slot + SEASON_DURATION_SLOTS) as u64,
            ..*old(global)
        }),
        r == (SeasonReset {
            old_seed: old(global).season_seed,
            new_seed: final(global).season_seed,
            old_depth: old(global).depth,
            end_slot: final(global).end_slot,
        }),
{
    let old_seed = global.season_seed;
    let old_depth = global.depth;
    let new_seed = generate_new_seed(old_seed, current_slot);
    let end_slot = current_slot + SEASON_DURATION_SLOTS;
    global.season_seed = new_seed;
    global.depth = 0;
    global.jobs_completed = 0;
    global.end_slot = end_slot;
    SeasonReset { old_seed, new_seed, old_depth, end_slot }
}

/// Resets the season once it has ended.
pub fn reset_season(global: &mut GlobalAccount, now_slot: u64) -> (r: Result<
    SeasonReset,
    ChainDepthError,
>)
    ensures
        now_slot < old(global).end_slot ==> r == Err::<SeasonReset, ChainDepthError>(
            ChainDepthError::SeasonNotEnded,
        ),
        now_slot >= old(global).end_slot && now_slot > u64::MAX - SEASON_DURATION_SLOTS ==> r
            == Err::<SeasonReset, ChainDepthError>(ChainDepthError::Overflow),
        r is Err ==> *final(global) == *old(global),
        r is Ok ==> final(global).season_seed == next_seed(old(global).season_seed, now_slot)
            && final(global).depth == 0 && final(global).jobs_completed == 0
            && final(global).end_slot == now_slot + SEASON_DURATION_SLOTS,
        now_slot >= old(global).end_slot && now_slot <= u64::MAX - SEASON_DURATION_SLOTS ==> r is Ok,
{
    if now_slot < global.end_slot {
        return Err(ChainDepthError::SeasonNotEnded);
    }
    force_reset_season(global, now_slot)
}

/// Resets the season at once, whatever its end.
pub fn force_reset_season(global: &mut GlobalAccount, now_slot: u64) -> (r: Result<
    SeasonReset,
    ChainDepthError,
>)
    ensures
        now_slot > u64::MAX - SEASON_DURATION_SLOTS ==> r == Err::<SeasonReset, ChainDepthError>(
            ChainDepthError::Overflow,
        ) && *final(global) == *old(global),
        now_slot <= u64::MAX - SEASON_DURATION_SLOTS ==> r is Ok && *final(global) == (
        GlobalAccount {
            season_seed: next_seed(old(global).season_seed, now_slot),
            depth: 0,
            jobs_completed: 0,
            end_slot: (now_slot + SEASON_DURATION_SLOTS) as u64,
            ..*old(global)
        }),
{
    if now_slot > u64::MAX - SEASON_DURATION_SLOTS {
        return Err(ChainDepthError::Overflow);
    }
    Ok(apply_season_reset(global, now_slot))
}

/// The first season, starting at `now_slot`.
pub fn init_global(
    season_seed: u64,
    skr_mint: Address,
    prize_pool: Address,
    admin: Address,
    now_slot: u64,
    bump: u8,
) -> (r: Result<GlobalAccount, ChainDepthError>)
    ensures
        now_slot > u64::MAX - SEASON_DURATION_SLOTS ==> r == Err::<GlobalAccount, ChainDepthError>(
            ChainDepthError::Overflow,
        ),
        now_slot <= u64::MAX - SEASON_DURATION_SLOTS ==> r == Ok::<GlobalAccount, ChainDepthError>(
            GlobalAccount {
                season_seed,
                depth: 0,
                skr_mint,
                prize_pool,
                admin,
                end_slot: (now_slot + SEASON_DURATION_SLOTS) as u64,
                jobs_completed: 0,
                bump,
            },
        ),
{
    if now_slot > u64::MAX - SEASON_DURATION_SLOTS {
        return Err(ChainDepthError::Overflow);
    }
    Ok(
        GlobalAccount {
            season_seed,
            depth: 0,
            skr_mint,
            prize_pool,
            admin,
            end_slot: now_slot + SEASON_DURATION_SLOTS,
            jobs_completed: 0,
            bump,
        },
    )
}

} // verus!
