//! A two-phase random roll: a request marks the roll pending, and the delivered
//! random bytes resolve it. A second request while one is pending is refused.

use vstd::prelude::*;
use crate::address::Address;
use crate::errors::ChainDepthError;

verus! {

/// Smallest and largest value of a roll.
pub const ROLL_MIN: u8 = 1;
pub const ROLL_MAX: u8 = 100;

/// State of one authority's rolls.
#[derive(Clone, Copy, Debug, PartialEq, Eq, Structural)]
pub struct RollState {
    pub authority: Address,
    pub last_random_value: u8,
    pub roll_count: u64,
    pub pending: bool,
    pub last_updated_slot: u64,
    pub bump: u8,
}

/// The value the randomness SDK derives in `[lo, hi]` from 32 random bytes.
pub uninterp spec fn vrf_range_roll(bytes: Seq<u8>, lo: u8, hi: u8) -> u8;

/// Relies on `ephemeral_vrf_sdk::rnd::random_u8_with_range`: a value in
/// `[min_value, max_value]` that depends on the bytes and the bounds alone; it
/// panics when `min_value > max_value`.
#[verifier::external_body]
fn random_u8_in_range(bytes: &[u8; 32], min_value: u8, max_value: u8) -> (r: u8)
    requires
        min_value <= max_value,
    ensures
        r == vrf_range_roll(bytes@, min_value, max_value),
        min_value <= r <= max_value,
{
    ephemeral_vrf_sdk::rnd::random_u8_with_range(bytes, min_value, max_value)
}

/// A fresh roll state for `authority`.
pub fn initialize(authority: Address, now_slot: u64, bump: u8) -> (r: RollState)
    ensures
        r == (RollState {
            authority,
            last_random_value: 0,
            roll_count: 0,
            pending: false,
            last_updated_slot: now_slot,
            bump,
        }),
{
    RollState {
        authority,
        last_random_value: 0,
        roll_count: 0,
        pending: false,
        last_updated_slot: now_slot,
        bump,
    }
}

/// `payer` asks for a roll: only the authority may, and only when none is
/// pending. Returns the 32-byte seed for the randomness request.
pub fn request_random_roll(state: &mut RollState, payer: Address, client_seed: u8) -> (r: Result<
    [u8; 32],
    ChainDepthError,
>)
    ensures
        old(state).authority != payer ==> r == Err::<[u8; 32], ChainDepthError>(
            ChainDepthError::Unauthorized,
        ),
        old(state).authority == payer && old(state).pending ==> r == Err::<[u8; 32], ChainDepthError>(
            ChainDepthError::RequestAlreadyPending,
        ),
        r is Err ==> *final(state) == *old(state),
        old(state).authority == payer && !old(state).pending ==> r is Ok && *final(state) == (
        RollState { pending: true, ..*old(state) }) && forall|i: int|
            0 <= i < 32 ==> r->Ok_0@[i] == client_seed,
{
    if state.authority != payer {
        return Err(ChainDepthError::Unauthorized);
    }
    if state.pending {
        return Err(ChainDepthError::RequestAlreadyPending);
    }
    state.pending = true;
    Ok([client_seed; 32])
}

/// Records a delivered roll of `value` at `now_slot` and clears the pending mark.
pub fn record_roll(state: &mut RollState, value: u8, now_slot: u64) -> (r: Result<
    (),
    ChainDepthError,
>)
    ensures
        !old(state).pending ==> r == Err::<(), ChainDepthError>(ChainDepthError::NoPendingRequest)
            && *final(state) == *old(state),
        old(state).pending ==> r is Ok && *final(state) == (RollState {
            last_random_value: value,
            roll_count: if old(state).roll_count == u64::MAX {
                u64::MAX
            } else {
                (old(state).roll_count + 1) as u64
            },
            pending: false,
            last_updated_slot: now_slot,
            ..*old(state)
        }),
{
    if !state.pending {
        return Err(ChainDepthError::NoPendingRequest);
    }
    state.last_random_value = value;
    state.roll_count = if state.roll_count == u64::MAX {
        u64::MAX
    } else {
        state.roll_count + 1
    };
    state.pending = false;
    state.last_updated_slot = now_slot;
    Ok(())
}

/// Resolves the pending roll with the delivered random bytes: the roll is the
/// SDK's value in `[1, 100]` for those bytes. Returns the value.
pub fn consume_random_roll(state: &mut RollState, randomness: &[u8; 32], now_slot: u64) -> (r: Result<
    u8,
    ChainDepthError,
>)
    ensures
        !old(state).pending ==> r == Err::<u8, ChainDepthError>(ChainDepthError::NoPendingRequest)
            && *final(state) == *old(state),
        old(state).pending ==> {
            let v = vrf_range_roll(randomness@, ROLL_MIN, ROLL_MAX);
            &&& r == Ok::<u8, ChainDepthError>(v)
            &&& ROLL_MIN <= v <= ROLL_MAX
            &&& final(state).last_random_value == v
            &&& !final(state).pending
            &&& final(state).last_updated_slot == now_slot
        },
{
    if !state.pending {
        return Err(ChainDepthError::NoPendingRequest);
    }
    let value = random_u8_in_range(randomness, ROLL_MIN, ROLL_MAX);
    match record_roll(state, value, now_slot) {
        Ok(()) => Ok(value),
        Err(e) => Err(e),
    }
}

} // verus!
