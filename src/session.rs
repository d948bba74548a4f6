//! Delegated sessions: a wallet may let a session key act for it, within an
//! expiry, an allow-list of actions and a spending cap.

use vstd::prelude::*;
use crate::address::Address;
use crate::errors::ChainDepthError;

verus! {

pub const BOOST_JOB: u64 = 1;
pub const ABANDON_JOB: u64 = 2;
pub const CLAIM_JOB_REWARD: u64 = 4;
pub const EQUIP_ITEM: u64 = 8;
pub const SET_PLAYER_SKIN: u64 = 16;
pub const REMOVE_INVENTORY_ITEM: u64 = 32;
pub const MOVE_PLAYER: u64 = 64;
pub const JOIN_JOB: u64 = 128;
pub const COMPLETE_JOB: u64 = 256;
pub const CREATE_PLAYER_PROFILE: u64 = 512;
pub const JOIN_BOSS_FIGHT: u64 = 1024;
pub const LOOT_CHEST: u64 = 2048;
pub const LOOT_BOSS: u64 = 4096;
pub const UNLOCK_DOOR: u64 = 8192;
pub const LEAVE_BOSS_FIGHT: u64 = 16384;
pub const FORCE_EXIT_ON_DEATH: u64 = 32768;
pub const EXIT_DUNGEON: u64 = 65536;
pub const ENTER_DUNGEON: u64 = 131072;

pub const MAX_SESSION_DURATION_SLOTS: u64 = 216_000;
pub const MAX_SESSION_DURATION_SECONDS: i64 = 86_400;
pub const MIN_SESSION_DURATION_SLOTS: u64 = 1;
pub const MIN_SESSION_DURATION_SECONDS: i64 = 1;

/// A grant from `player` to `session_key`.
#[derive(Clone, Copy, Debug, PartialEq, Eq, Structural)]
pub struct SessionAuthority {
    pub player: Address,
    pub session_key: Address,
    pub expires_at_slot: u64,
    pub expires_at_unix_timestamp: i64,
    pub instruction_allowlist: u64,
    pub max_token_spend: u64,
    pub spent_token_amount: u64,
    pub is_active: bool,
    pub bump: u8,
}

/// Why `authority` may not act for `player` on `instruction_bit`, spending
/// `spend`, if it may not.
pub open spec fn authorization_error(
    authority: Address,
    player: Address,
    session: Option<SessionAuthority>,
    instruction_bit: u64,
    spend: u64,
    now_slot: u64,
    now_unix: i64,
) -> Option<ChainDepthError> {
    if authority == player {
        None
    } else {
        match session {
            None => Some(ChainDepthError::Unauthorized),
            Some(s) => if s.player != player || s.session_key != authority {
                Some(ChainDepthError::Unauthorized)
            } else if !s.is_active {
                Some(ChainDepthError::SessionInactive)
            } else if now_slot > s.expires_at_slot || now_unix > s.expires_at_unix_timestamp {
                Some(ChainDepthError::SessionExpired)
            } else if s.instruction_allowlist & instruction_bit == 0 {
                Some(ChainDepthError::SessionInstructionNotAllowed)
            } else if spend > 0 && s.spent_token_amount + spend > u64::MAX {
                Some(ChainDepthError::Overflow)
            } else if spend > 0 && s.spent_token_amount + spend > s.max_token_spend {
                Some(ChainDepthError::SessionSpendCapExceeded)
            } else {
                None
            },
        }
    }
}

/// Lets the wallet itself through, or a live session key allowed this action
/// whose spending stays within its cap; the session records the spend.
pub fn authorize_player_action(
    authority: Address,
    player: Address,
    session: &mut Option<SessionAuthority>,
    instruction_bit: u64,
    spend_amount: u64,
    now_slot: u64,
    now_unix: i64,
) -> (r: Result<(), ChainDepthError>)
    ensures
        r is Err <==> authorization_error(
            authority,
            player,
            *old(session),
            instruction_bit,
            spend_amount,
            now_slot,
            now_unix,
        ) is Some,
        r is Err ==> r == Err::<(), ChainDepthError>(
            authorization_error(
                authority,
                player,
                *old(session),
                instruction_bit,
                spend_amount,
                now_slot,
                now_unix,
            )->0,
        ),
        authority == player || spend_amount == 0 || r is Err ==> *final(session) == *old(session),
        r is Ok && authority != player && spend_amount > 0 ==> *final(session) == Some(
            SessionAuthority {
                spent_token_amount: (old(session)->0.spent_token_amount + spend_amount) as u64,
                ..old(session)->0
            },
        ),
{
    if authority == player {
        return Ok(());
    }
    let mut s = match *session {
        Some(s) => s,
        None => {
            return Err(ChainDepthError::Unauthorized);
        },
    };
    if s.player != player || s.session_key != authority {
        return Err(ChainDepthError::Unauthorized);
    }
    if !s.is_active {
        return Err(ChainDepthError::SessionInactive);
    }
    if now_slot > s.expires_at_slot || now_unix > s.expires_at_unix_timestamp {
        return Err(ChainDepthError::SessionExpired);
    }
    if s.instruction_allowlist & instruction_bit == 0 {
        return Err(ChainDepthError::SessionInstructionNotAllowed);
    }
    if spend_amount > 0 {
        let total = match s.spent_token_amount.checked_add(spend_amount) {
            Some(v) => v,
            None => {
                return Err(ChainDepthError::Overflow);
            },
        };
        if total > s.max_token_spend {
            return Err(ChainDepthError::SessionSpendCapExceeded);
        }
        s.spent_token_amount = total;
        *session = Some(s);
    }
    Ok(())
}

/// Why a session cannot begin, if it cannot: it must last from one slot to 216,000
/// slots and from one second to a day, and allow at least one action.
pub open spec fn begin_error(
    expires_at_slot: u64,
    expires_at_unix: i64,
    allowlist: u64,
    now_slot: u64,
    now_unix: i64,
) -> Option<ChainDepthError> {
    if !(expires_at_slot >= now_slot + MIN_SESSION_DURATION_SLOTS && expires_at_slot <= now_slot
        + MAX_SESSION_DURATION_SLOTS) {
        Some(ChainDepthError::InvalidSessionExpiry)
    } else if !(expires_at_unix >= now_unix + MIN_SESSION_DURATION_SECONDS && expires_at_unix
        <= now_unix + MAX_SESSION_DURATION_SECONDS) {
        Some(ChainDepthError::InvalidSessionExpiry)
    } else if allowlist == 0 {
        Some(ChainDepthError::InvalidSessionAllowlist)
    } else {
        None
    }
}

/// Grants `session_key` a session for `player`.
pub fn begin_session(
    player: Address,
    session_key: Address,
    expires_at_slot: u64,
    expires_at_unix_timestamp: i64,
    instruction_allowlist: u64,
    max_token_spend: u64,
    now_slot: u64,
    now_unix: i64,
    bump: u8,
) -> (r: Result<SessionAuthority, ChainDepthError>)
    ensures
        r is Err <==> begin_error(
            expires_at_slot,
            expires_at_unix_timestamp,
            instruction_allowlist,
            now_slot,
            now_unix,
        ) is Some,
        r is Err ==> r == Err::<SessionAuthority, ChainDepthError>(
            begin_error(
                expires_at_slot,
                expires_at_unix_timestamp,
                instruction_allowlist,
                now_slot,
                now_unix,
            )->0,
        ),
        r is Ok ==> r->Ok_0 == (SessionAuthority {
            player,
            session_key,
            expires_at_slot,
            expires_at_unix_timestamp,
            instruction_allowlist,
            max_token_spend,
            spent_token_amount: 0,
            is_active: true,
            bump,
        }),
{
    let slot_lo = now_slot as u128 + MIN_SESSION_DURATION_SLOTS as u128;
    let slot_hi = now_slot as u128 + MAX_SESSION_DURATION_SLOTS as u128;
    if !(expires_at_slot as u128 >= slot_lo && expires_at_slot as u128 <= slot_hi) {
        return Err(ChainDepthError::InvalidSessionExpiry);
    }
    let unix_lo = now_unix as i128 + MIN_SESSION_DURATION_SECONDS as i128;
    let unix_hi = now_unix as i128 + MAX_SESSION_DURATION_SECONDS as i128;
    if !(expires_at_unix_timestamp as i128 >= unix_lo && expires_at_unix_timestamp as i128
        <= unix_hi) {
        return Err(ChainDepthError::InvalidSessionExpiry);
    }
    if instruction_allowlist == 0 {
        return Err(ChainDepthError::InvalidSessionAllowlist);
    }
    Ok(
        SessionAuthority {
            player,
            session_key,
            expires_at_slot,
            expires_at_unix_timestamp,
            instruction_allowlist,
            max_token_spend,
            spent_token_amount: 0,
            is_active: true,
            bump,
        },
    )
}

/// Revokes a session; returns whether a token delegation must be revoked too.
pub fn end_session(session: &mut SessionAuthority) -> (r: bool)
    ensures
        r == (old(session).max_token_spend > 0),
        *final(session) == (SessionAuthority {
            is_active: false,
            expires_at_slot: 0,
            expires_at_unix_timestamp: 0,
            instruction_allowlist: 0,
            max_token_spend: 0,
            spent_token_amount: 0,
            ..*old(session)
        }),
{
    let had_delegation = session.max_token_spend > 0;
    session.is_active = false;
    session.expires_at_slot = 0;
    session.expires_at_unix_timestamp = 0;
    session.instruction_allowlist = 0;
    session.max_token_spend = 0;
    session.spent_token_amount = 0;
    had_delegation
}

} // verus!
