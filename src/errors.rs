//! Every way in which an action can be refused.

use vstd::prelude::*;

verus! {

/// Why an action was refused. A refused action changes nothing.
#[derive(Clone, Copy, Debug, PartialEq, Eq, Structural)]
pub enum ChainDepthError {
    InvalidDirection,
    OutOfBounds,
    NotAdjacent,
    WallNotOpen,
    NotRubble,
    WallNotLocked,
    InvalidLockKind,
    NotInRoom,
    AlreadyJoined,
    JobFull,
    TooManyActiveJobs,
    JobAlreadyCompleted,
    JobNotCompleted,
    JobNotReady,
    NoActiveJob,
    NotHelper,
    InsufficientBalance,
    NoChest,
    NoBoss,
    BossAlreadyDefeated,
    BossNotDefeated,
    NotBossFighter,
    AlreadyFightingBoss,
    AlreadyLooted,
    PlayerDead,
    InvalidItemId,
    InvalidItemAmount,
    InsufficientItemAmount,
    InventoryFull,
    InvalidDuelOpponent,
    InvalidDuelStake,
    InvalidDuelExpiry,
    InvalidDuelState,
    InvalidDuelEscrow,
    DuelChallengeExpired,
    DuelChallengeNotExpired,
    PlayersNotInSameRoom,
    InvalidSeason,
    SeasonNotEnded,
    NotAtEntranceRoom,
    EntranceStairsRequired,
    CannotExitWithActiveJobs,
    Unauthorized,
    SessionInactive,
    SessionExpired,
    SessionInstructionNotAllowed,
    SessionSpendCapExceeded,
    InvalidSessionExpiry,
    InvalidSessionAllowlist,
    DisplayNameTooLong,
    RequestAlreadyPending,
    NoPendingRequest,
    Overflow,
}

} // verus!
