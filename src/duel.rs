//! Seeded duels between two players in one room: the challenge lifecycle and the
//! round-by-round simulation from one externally supplied random value.

use vstd::prelude::*;
use crate::address::{byte_of, put_le_word, Address};
use crate::errors::ChainDepthError;
use crate::player::PlayerAccount;
use crate::rng::{draw, le_u64, step, SplitMix64, GOLDEN_GAMMA};
use crate::season::GlobalAccount;

verus! {

pub const STATUS_OPEN: u8 = 0;
pub const STATUS_PENDING_RANDOMNESS: u8 = 1;
pub const STATUS_SETTLED: u8 = 2;
pub const STATUS_DECLINED: u8 = 3;
pub const STATUS_EXPIRED: u8 = 4;

pub const STARTER_CHALLENGER: u8 = 0;
pub const STARTER_OPPONENT: u8 = 1;
pub const STARTER_UNSET: u8 = 255;

/// Longest time a challenge may stay open.
pub const MAX_EXPIRY_SLOTS: u64 = 21_600;
pub const STARTING_HP: u16 = 100;
/// Rounds fought at most; also the length of each hit log.
pub const MAX_DUEL_ROUNDS: u64 = 100;
pub const MISS_CHANCE_PERCENT: u64 = 30;
pub const MIN_HIT_DAMAGE: u8 = 1;
pub const MAX_HIT_DAMAGE: u8 = 15;
pub const CRIT_CHANCE_PERCENT: u64 = 10;
pub const CRIT_MIN_HIT_DAMAGE: u8 = 16;
pub const CRIT_MAX_HIT_DAMAGE: u8 = 25;

/// The random stream of a duel.
#[derive(Clone, Copy, Debug)]
pub struct DuelRng {
    pub rng: SplitMix64,
}

/// A value in `[lo, hi]` drawn from `state`.
pub open spec fn inclusive_draw(state: u64, lo: u8, hi: u8) -> u8 {
    (lo + draw(state) % ((hi - lo + 1) as u64)) as u8
}

/// One attack drawn from `state`: its damage and the state after it. 30 in 100
/// miss; of the rest, 10 in 100 are critical (16 to 25) and the others normal (1 to 15).
pub open spec fn attack(state: u64) -> (u8, u64) {
    let s1 = step(state);
    if draw(state) % 100 < MISS_CHANCE_PERCENT {
        (0, s1)
    } else {
        let s2 = step(s1);
        if draw(s1) % 100 < CRIT_CHANCE_PERCENT {
            (inclusive_draw(s2, CRIT_MIN_HIT_DAMAGE, CRIT_MAX_HIT_DAMAGE), step(s2))
        } else {
            (inclusive_draw(s2, MIN_HIT_DAMAGE, MAX_HIT_DAMAGE), step(s2))
        }
    }
}

impl DuelRng {
    /// Seeded from the first eight bytes of the random value, little-endian,
    /// whitened with the gamma.
    pub fn new(randomness: &[u8; 32]) -> (r: DuelRng)
        ensures
            r.rng.state == (le_u64(randomness@) as u64) ^ GOLDEN_GAMMA,
    {
        DuelRng { rng: SplitMix64::from_bytes(randomness) }
    }

    pub fn next_u64(&mut self) -> (r: u64)
        ensures
            final(self).rng.state == step(old(self).rng.state),
            r == draw(old(self).rng.state),
    {
        self.rng.next_u64()
    }

    /// True 30 times in 100.
    pub fn roll_miss(&mut self) -> (r: bool)
        ensures
            final(self).rng.state == step(old(self).rng.state),
            r == (draw(old(self).rng.state) % 100 < MISS_CHANCE_PERCENT),
    {
        self.next_u64() % 100 < MISS_CHANCE_PERCENT
    }

    /// True 10 times in 100.
    pub fn roll_crit(&mut self) -> (r: bool)
        ensures
            final(self).rng.state == step(old(self).rng.state),
            r == (draw(old(self).rng.state) % 100 < CRIT_CHANCE_PERCENT),
    {
        self.next_u64() % 100 < CRIT_CHANCE_PERCENT
    }

    /// A value in `[min, max]` by modulo.
    pub fn random_inclusive(&mut self, min: u8, max: u8) -> (r: u8)
        requires
            min <= max,
        ensures
            final(self).rng.state == step(old(self).rng.state),
            r == inclusive_draw(old(self).rng.state, min, max),
            min <= r <= max,
    {
        let range: u64 = (max - min) as u64 + 1;
        let v = self.next_u64() % range;
        (min as u64 + v) as u8
    }

    /// The damage of one attack (see `attack`).
    pub fn next_attack_damage(&mut self) -> (r: u8)
        ensures
            (r, final(self).rng.state) == attack(old(self).rng.state),
            r <= CRIT_MAX_HIT_DAMAGE,
    {
        if self.roll_miss() {
            return 0;
        }
        if self.roll_crit() {
            return self.random_inclusive(CRIT_MIN_HIT_DAMAGE, CRIT_MAX_HIT_DAMAGE);
        }
        self.random_inclusive(MIN_HIT_DAMAGE, MAX_HIT_DAMAGE)
    }

    /// A fair coin.
    pub fn next_bool(&mut self) -> (r: bool)
        ensures
            final(self).rng.state == step(old(self).rng.state),
            r == (draw(old(self).rng.state) % 2 == 0),
    {
        self.next_u64() % 2 == 0
    }
}

pub open spec fn sat_sub(a: u16, b: u8) -> u16 {
    if a >= b { (a - b) as u16 } else { 0 }
}

/// The rest of a duel from round `round`, with hit points `c_hp` and `o_hp` and the
/// logs so far: final hit points and the full logs. Each round both sides attack
/// (challenger first in the stream) and take damage together; the duel ends when
/// a side is at 0 or after the last round.
pub open spec fn play(
    state: u64,
    c_hp: u16,
    o_hp: u16,
    round: nat,
    c_hits: Seq<u8>,
    o_hits: Seq<u8>,
) -> (u16, u16, Seq<u8>, Seq<u8>)
    decreases MAX_DUEL_ROUNDS - round,
{
    if round >= MAX_DUEL_ROUNDS {
        (c_hp, o_hp, c_hits, o_hits)
    } else {
        let a = attack(state);
        let b = attack(a.1);
        let o2 = sat_sub(o_hp, a.0);
        let c2 = sat_sub(c_hp, b.0);
        if c2 == 0 || o2 == 0 {
            (c2, o2, c_hits.push(a.0), o_hits.push(b.0))
        } else {
            play(b.1, c2, o2, round + 1, c_hits.push(a.0), o_hits.push(b.0))
        }
    }
}

/// How a duel ends for the challenger.
#[derive(Clone, Copy, Debug, PartialEq, Eq, Structural)]
pub enum DuelResult {
    ChallengerWins,
    OpponentWins,
    Draw,
}

/// Result by final hit points: a draw when they are equal (both at 0 included),
/// else the side with more wins.
pub open spec fn result_of(c_hp: u16, o_hp: u16) -> DuelResult {
    if c_hp == o_hp {
        DuelResult::Draw
    } else if c_hp > o_hp {
        DuelResult::ChallengerWins
    } else {
        DuelResult::OpponentWins
    }
}

/// The transcript of a simulated duel.
#[derive(Clone, Debug)]
pub struct DuelOutcome {
    pub result: DuelResult,
    pub starter: u8,
    pub challenger_final_hp: u16,
    pub opponent_final_hp: u16,
    pub turns_played: u8,
    pub challenger_hits: Vec<u8>,
    pub opponent_hits: Vec<u8>,
}

/// The whole duel decided by `randomness`: a coin for the starter, then the rounds.
pub open spec fn duel_of(randomness: Seq<u8>) -> (u8, (u16, u16, Seq<u8>, Seq<u8>)) {
    let s0 = (le_u64(randomness) as u64) ^ GOLDEN_GAMMA;
    let starter = if draw(s0) % 2 == 0 { STARTER_CHALLENGER } else { STARTER_OPPONENT };
    (starter, play(step(s0), STARTING_HP, STARTING_HP, 0, Seq::empty(), Seq::empty()))
}

proof fn lemma_play_shape(state: u64, c_hp: u16, o_hp: u16, round: nat, ch: Seq<u8>, oh: Seq<u8>)
    requires
        round <= MAX_DUEL_ROUNDS,
        ch.len() == round,
        oh.len() == round,
        c_hp > 0,
        o_hp > 0,
    ensures
        ({
            let p = play(state, c_hp, o_hp, round, ch, oh);
            &&& p.2.len() == p.3.len()
            &&& round <= p.2.len() <= MAX_DUEL_ROUNDS
            &&& (p.0 == 0 || p.1 == 0) ==> p.2.len() >= 1
        }),
    decreases MAX_DUEL_ROUNDS - round,
{
    if round < MAX_DUEL_ROUNDS {
        let a = attack(state);
        let b = attack(a.1);
        let o2 = sat_sub(o_hp, a.0);
        let c2 = sat_sub(c_hp, b.0);
        if !(c2 == 0 || o2 == 0) {
            lemma_play_shape(b.1, c2, o2, round + 1, ch.push(a.0), oh.push(b.0));
        }
    }
}

/// Simulates the duel decided by `randomness`.
pub fn simulate_duel(randomness: &[u8; 32]) -> (r: DuelOutcome)
    ensures
        ({
            let (starter, p) = duel_of(randomness@);
            &&& r.starter == starter
            &&& r.challenger_final_hp == p.0
            &&& r.opponent_final_hp == p.1
            &&& r.challenger_hits@ == p.2
            &&& r.opponent_hits@ == p.3
            &&& r.turns_played as int == 2 * p.2.len()
        }),
        r.result == result_of(r.challenger_final_hp, r.opponent_final_hp),
        r.result == DuelResult::Draw <==> r.challenger_final_hp == r.opponent_final_hp,
        1 <= r.challenger_hits@.len() <= MAX_DUEL_ROUNDS,
        r.opponent_hits@.len() == r.challenger_hits@.len(),
{
    let mut rng = DuelRng::new(randomness);
    let ghost s0 = rng.rng.state;
    let starter = if rng.next_bool() {
        STARTER_CHALLENGER
    } else {
        STARTER_OPPONENT
    };
    let ghost target = play(step(s0), STARTING_HP, STARTING_HP, 0, Seq::empty(), Seq::empty());
    let mut challenger_hits: Vec<u8> = Vec::new();
    let mut opponent_hits: Vec<u8> = Vec::new();
    let mut c_hp: u16 = STARTING_HP;
    let mut o_hp: u16 = STARTING_HP;
    let mut round: u64 = 0;
    let mut done = false;
    proof {
        assert(challenger_hits@ =~= Seq::<u8>::empty());
        assert(opponent_hits@ =~= Seq::<u8>::empty());
    }
    while round < MAX_DUEL_ROUNDS && !done
        invariant
            round <= MAX_DUEL_ROUNDS,
            challenger_hits@.len() == round,
            opponent_hits@.len() == round,
            !done ==> c_hp > 0 && o_hp > 0 && play(
                rng.rng.state,
                c_hp,
                o_hp,
                round as nat,
                challenger_hits@,
                opponent_hits@,
            ) == target,
            done ==> (c_hp, o_hp, challenger_hits@, opponent_hits@) == target && round >= 1,
        decreases MAX_DUEL_ROUNDS - round,
    {
        let challenger_damage = rng.next_attack_damage();
        let opponent_damage = rng.next_attack_damage();
        challenger_hits.push(challenger_damage);
        opponent_hits.push(opponent_damage);
        o_hp = if o_hp >= challenger_damage as u16 {
            o_hp - challenger_damage as u16
        } else {
            0
        };
        c_hp = if c_hp >= opponent_damage as u16 {
            c_hp - opponent_damage as u16
        } else {
            0
        };
        round = round + 1;
        if c_hp == 0 || o_hp == 0 {
            done = true;
        }
    }
    proof {
        lemma_play_shape(step(s0), STARTING_HP, STARTING_HP, 0, Seq::empty(), Seq::empty());
    }
    let result = if c_hp == o_hp {
        DuelResult::Draw
    } else if c_hp > o_hp {
        DuelResult::ChallengerWins
    } else {
        DuelResult::OpponentWins
    };
    let turns_played = (2 * challenger_hits.len()) as u8;
    DuelOutcome {
        result,
        starter,
        challenger_final_hp: c_hp,
        opponent_final_hp: o_hp,
        turns_played,
        challenger_hits,
        opponent_hits,
    }
}

/// A challenge between two players; it moves forward only, and is terminal once
/// settled, declined or expired.
#[derive(Clone, Debug)]
pub struct DuelChallenge {
    pub challenger: Address,
    pub opponent: Address,
    pub challenger_display_name_snapshot: String,
    pub opponent_display_name_snapshot: String,
    pub season_seed: u64,
    pub room_x: i8,
    pub room_y: i8,
    pub stake_amount: u64,
    pub challenge_seed: u64,
    pub expires_at_slot: u64,
    pub requested_slot: u64,
    pub settled_slot: u64,
    pub duel_escrow: Address,
    pub winner: Address,
    pub is_draw: bool,
    pub challenger_final_hp: u16,
    pub opponent_final_hp: u16,
    pub turns_played: u8,
    pub status: u8,
    pub starter: u8,
    pub challenger_hits: Vec<u8>,
    pub opponent_hits: Vec<u8>,
    pub bump: u8,
}

/// Why a challenge cannot be created, if it cannot.
pub open spec fn create_error(
    global: GlobalAccount,
    challenger_account: PlayerAccount,
    opponent_account: PlayerAccount,
    challenger: Address,
    opponent: Address,
    stake_amount: u64,
    expires_at_slot: u64,
    now: u64,
) -> Option<ChainDepthError> {
    if challenger == opponent {
        Some(ChainDepthError::InvalidDuelOpponent)
    } else if stake_amount == 0 {
        Some(ChainDepthError::InvalidDuelStake)
    } else if !(expires_at_slot > now && expires_at_slot - now <= MAX_EXPIRY_SLOTS) {
        Some(ChainDepthError::InvalidDuelExpiry)
    } else if challenger_account.season_seed != global.season_seed || opponent_account.season_seed
        != global.season_seed {
        Some(ChainDepthError::InvalidSeason)
    } else if challenger_account.current_room_x != opponent_account.current_room_x
        || challenger_account.current_room_y != opponent_account.current_room_y {
        Some(ChainDepthError::PlayersNotInSameRoom)
    } else if challenger_account.current_hp == 0 || opponent_account.current_hp == 0 {
        Some(ChainDepthError::PlayerDead)
    } else {
        None
    }
}

/// Opens a challenge from `challenger` to `opponent` standing in the same room;
/// the challenger's stake goes into `duel_escrow`.
pub fn create_duel_challenge(
    global: &GlobalAccount,
    challenger_account: &PlayerAccount,
    opponent_account: &PlayerAccount,
    challenger: Address,
    opponent: Address,
    challenger_name: String,
    opponent_name: String,
    challenge_seed: u64,
    stake_amount: u64,
    expires_at_slot: u64,
    now_slot: u64,
    duel_escrow: Address,
    bump: u8,
) -> (r: Result<DuelChallenge, ChainDepthError>)
    ensures
        r is Err <==> create_error(
            *global,
            *challenger_account,
            *opponent_account,
            challenger,
            opponent,
            stake_amount,
            expires_at_slot,
            now_slot,
        ) is Some,
        r is Err ==> r == Err::<DuelChallenge, ChainDepthError>(
            create_error(
                *global,
                *challenger_account,
                *opponent_account,
                challenger,
                opponent,
                stake_amount,
                expires_at_slot,
                now_slot,
            )->0,
        ),
        r is Ok ==> {
            let c = r->Ok_0;
            &&& c.challenger == challenger && c.opponent == opponent
            &&& c.challenger_display_name_snapshot@ == challenger_name@
            &&& c.opponent_display_name_snapshot@ == opponent_name@
            &&& c.season_seed == global.season_seed
            &&& c.room_x == challenger_account.current_room_x
            &&& c.room_y == challenger_account.current_room_y
            &&& c.stake_amount == stake_amount && c.challenge_seed == challenge_seed
            &&& c.expires_at_slot == expires_at_slot
            &&& c.requested_slot == 0 && c.settled_slot == 0
            &&& c.duel_escrow == duel_escrow && c.winner.is_zero_spec() && !c.is_draw
            &&& c.challenger_final_hp == STARTING_HP && c.opponent_final_hp == STARTING_HP
            &&& c.turns_played == 0 && c.status == STATUS_OPEN && c.starter == STARTER_UNSET
            &&& c.challenger_hits@.len() == 0 && c.opponent_hits@.len() == 0
            &&& c.bump == bump
        },
{
    if challenger == opponent {
        return Err(ChainDepthError::InvalidDuelOpponent);
    }
    if stake_amount == 0 {
        return Err(ChainDepthError::InvalidDuelStake);
    }
    if !(expires_at_slot > now_slot && expires_at_slot - now_slot <= MAX_EXPIRY_SLOTS) {
        return Err(ChainDepthError::InvalidDuelExpiry);
    }
    if challenger_account.season_seed != global.season_seed || opponent_account.season_seed
        != global.season_seed {
        return Err(ChainDepthError::InvalidSeason);
    }
    if challenger_account.current_room_x != opponent_account.current_room_x
        || challenger_account.current_room_y != opponent_account.current_room_y {
        return Err(ChainDepthError::PlayersNotInSameRoom);
    }
    if challenger_account.current_hp == 0 || opponent_account.current_hp == 0 {
        return Err(ChainDepthError::PlayerDead);
    }
    Ok(
        DuelChallenge {
            challenger,
            opponent,
            challenger_display_name_snapshot: challenger_name,
            opponent_display_name_snapshot: opponent_name,
            season_seed: global.season_seed,
            room_x: challenger_account.current_room_x,
            room_y: challenger_account.current_room_y,
            stake_amount,
            challenge_seed,
            expires_at_slot,
            requested_slot: 0,
            settled_slot: 0,
            duel_escrow,
            winner: Address::zero(),
            is_draw: false,
            challenger_final_hp: STARTING_HP,
            opponent_final_hp: STARTING_HP,
            turns_played: 0,
            status: STATUS_OPEN,
            starter: STARTER_UNSET,
            challenger_hits: Vec::new(),
            opponent_hits: Vec::new(),
            bump,
        },
    )
}

/// Why accepting the challenge is refused, if it is.
pub open spec fn accept_error(
    duel: DuelChallenge,
    global: GlobalAccount,
    challenger_account: PlayerAccount,
    opponent_account: PlayerAccount,
    challenger: Address,
    opponent: Address,
    duel_escrow: Address,
    now: u64,
) -> Option<ChainDepthError> {
    if duel.status != STATUS_OPEN {
        Some(ChainDepthError::InvalidDuelState)
    } else if duel.challenger != challenger || duel.opponent != opponent {
        Some(ChainDepthError::Unauthorized)
    } else if duel.season_seed != global.season_seed {
        Some(ChainDepthError::InvalidSeason)
    } else if duel.duel_escrow != duel_escrow {
        Some(ChainDepthError::InvalidDuelEscrow)
    } else if now > duel.expires_at_slot {
        Some(ChainDepthError::DuelChallengeExpired)
    } else if !(challenger_account.current_room_x == opponent_account.current_room_x
        && challenger_account.current_room_y == opponent_account.current_room_y
        && challenger_account.current_room_x == duel.room_x && challenger_account.current_room_y
        == duel.room_y) {
        Some(ChainDepthError::PlayersNotInSameRoom)
    } else if challenger_account.current_hp == 0 || opponent_account.current_hp == 0 {
        Some(ChainDepthError::PlayerDead)
    } else {
        None
    }
}

/// The 32-byte seed handed to the randomness oracle: the challenge seed and the
/// slot, little-endian, then the first eight bytes of each party's address.
pub open spec fn caller_seed_bytes(
    challenge_seed: u64,
    slot: u64,
    challenger: Address,
    opponent: Address,
    i: int,
) -> u8 {
    if i < 8 {
        byte_of(challenge_seed, i)
    } else if i < 16 {
        byte_of(slot, i - 8)
    } else if i < 24 {
        byte_of(challenger.w0, i - 16)
    } else {
        byte_of(opponent.w0, i - 24)
    }
}

pub fn build_caller_seed(challenge_seed: u64, slot: u64, challenger: Address, opponent: Address) -> (r: [u8; 32])
    ensures
        forall|i: int|
            0 <= i < 32 ==> r@[i] == caller_seed_bytes(challenge_seed, slot, challenger, opponent, i),
{
    let mut seed = [0u8; 32];
    put_le_word(&mut seed, 0, challenge_seed);
    put_le_word(&mut seed, 8, slot);
    put_le_word(&mut seed, 16, challenger.w0);
    put_le_word(&mut seed, 24, opponent.w0);
    assert forall|i: int| 0 <= i < 32 implies seed@[i] == caller_seed_bytes(
        challenge_seed,
        slot,
        challenger,
        opponent,
        i,
    ) by {
        if i < 8 {
            assert(seed@[0 + i] == byte_of(challenge_seed, i));
        } else if i < 16 {
            assert(seed@[8 + (i - 8)] == byte_of(slot, i - 8));
        } else if i < 24 {
            assert(seed@[16 + (i - 16)] == byte_of(challenger.w0, i - 16));
        } else {
            assert(seed@[24 + (i - 24)] == byte_of(opponent.w0, i - 24));
        }
    }
    seed
}

/// The opponent accepts: the challenge waits for randomness from now on. The
/// opponent's matching stake goes into the escrow; the seed for the randomness
/// request is returned.
pub fn accept_duel_challenge(
    duel: &mut DuelChallenge,
    global: &GlobalAccount,
    challenger_account: &PlayerAccount,
    opponent_account: &PlayerAccount,
    challenger: Address,
    opponent: Address,
    duel_escrow: Address,
    now_slot: u64,
) -> (r: Result<[u8; 32], ChainDepthError>)
    ensures
        r is Err <==> accept_error(
            *old(duel),
            *global,
            *challenger_account,
            *opponent_account,
            challenger,
            opponent,
            duel_escrow,
            now_slot,
        ) is Some,
        r is Err ==> r == Err::<[u8; 32], ChainDepthError>(
            accept_error(
                *old(duel),
                *global,
                *challenger_account,
                *opponent_account,
                challenger,
                opponent,
                duel_escrow,
                now_slot,
            )->0,
        ) && *final(duel) == *old(duel),
        r is Ok ==> *final(duel) == (DuelChallenge {
            status: STATUS_PENDING_RANDOMNESS,
            requested_slot: now_slot,
            ..*old(duel)
        }) && forall|i: int|
            0 <= i < 32 ==> r->Ok_0@[i] == caller_seed_bytes(
                old(duel).challenge_seed,
                now_slot,
                old(duel).challenger,
                old(duel).opponent,
                i,
            ),
{
    if duel.status != STATUS_OPEN {
        return Err(ChainDepthError::InvalidDuelState);
    }
    if duel.challenger != challenger || duel.opponent != opponent {
        return Err(ChainDepthError::Unauthorized);
    }
    if duel.season_seed != global.season_seed {
        return Err(ChainDepthError::InvalidSeason);
    }
    if duel.duel_escrow != duel_escrow {
        return Err(ChainDepthError::InvalidDuelEscrow);
    }
    if now_slot > duel.expires_at_slot {
        return Err(ChainDepthError::DuelChallengeExpired);
    }
    if !(challenger_account.current_room_x == opponent_account.current_room_x
        && challenger_account.current_room_y == opponent_account.current_room_y
        && challenger_account.current_room_x == duel.room_x && challenger_account.current_room_y
        == duel.room_y) {
        return Err(ChainDepthError::PlayersNotInSameRoom);
    }
    if challenger_account.current_hp == 0 || opponent_account.current_hp == 0 {
        return Err(ChainDepthError::PlayerDead);
    }
    let seed = build_caller_seed(duel.challenge_seed, now_slot, duel.challenger, duel.opponent);
    duel.status = STATUS_PENDING_RANDOMNESS;
    duel.requested_slot = now_slot;
    Ok(seed)
}

/// Where the escrowed stakes go when a duel settles.
#[derive(Clone, Copy, Debug, PartialEq, Eq, Structural)]
pub struct DuelPayout {
    pub to_challenger: u64,
    pub to_opponent: u64,
}

/// Why settling with the delivered randomness is refused, if it is.
pub open spec fn settle_error(
    duel: DuelChallenge,
    global: GlobalAccount,
    duel_escrow: Address,
    challenger_token_owner: Address,
    opponent_token_owner: Address,
) -> Option<ChainDepthError> {
    if duel.status != STATUS_PENDING_RANDOMNESS {
        Some(ChainDepthError::InvalidDuelState)
    } else if duel.season_seed != global.season_seed {
        Some(ChainDepthError::InvalidSeason)
    } else if duel.duel_escrow != duel_escrow {
        Some(ChainDepthError::InvalidDuelEscrow)
    } else if challenger_token_owner != duel.challenger || opponent_token_owner != duel.opponent {
        Some(ChainDepthError::Unauthorized)
    } else if duel.stake_amount * 2 > u64::MAX {
        Some(ChainDepthError::Overflow)
    } else {
        None
    }
}

/// Resolves a pending duel with the delivered random value: the simulated
/// transcript is stored, the challenge is settled, and the pot is paid out: the
/// whole of it (twice the stake) to the winner, or each stake back on a draw.
pub fn consume_duel_randomness(
    duel: &mut DuelChallenge,
    global: &GlobalAccount,
    duel_escrow: Address,
    challenger_token_owner: Address,
    opponent_token_owner: Address,
    randomness: &[u8; 32],
    now_slot: u64,
) -> (r: Result<DuelPayout, ChainDepthError>)
    ensures
        r is Err <==> settle_error(
            *old(duel),
            *global,
            duel_escrow,
            challenger_token_owner,
            opponent_token_owner,
        ) is Some,
        r is Err ==> r == Err::<DuelPayout, ChainDepthError>(
            settle_error(
                *old(duel),
                *global,
                duel_escrow,
                challenger_token_owner,
                opponent_token_owner,
            )->0,
        ) && *final(duel) == *old(duel),
        r is Ok ==> {
            let (starter, p) = duel_of(randomness@);
            let res = result_of(p.0, p.1);
            let stake = old(duel).stake_amount;
            &&& *final(duel) == (DuelChallenge {
                winner: final(duel).winner,
                is_draw: res == DuelResult::Draw,
                starter,
                challenger_final_hp: p.0,
                opponent_final_hp: p.1,
                turns_played: (2 * p.2.len()) as u8,
                challenger_hits: final(duel).challenger_hits,
                opponent_hits: final(duel).opponent_hits,
                status: STATUS_SETTLED,
                settled_slot: now_slot,
                ..*old(duel)
            })
            &&& final(duel).challenger_hits@ == p.2
            &&& final(duel).opponent_hits@ == p.3
            &&& res == DuelResult::Draw ==> final(duel).winner.is_zero_spec() && r->Ok_0
                == (DuelPayout { to_challenger: stake, to_opponent: stake })
            &&& res == DuelResult::ChallengerWins ==> final(duel).winner == old(duel).challenger
                && r->Ok_0 == (DuelPayout { to_challenger: (2 * stake) as u64, to_opponent: 0 })
            &&& res == DuelResult::OpponentWins ==> final(duel).winner == old(duel).opponent
                && r->Ok_0 == (DuelPayout { to_challenger: 0, to_opponent: (2 * stake) as u64 })
        },
{
    if duel.status != STATUS_PENDING_RANDOMNESS {
        return Err(ChainDepthError::InvalidDuelState);
    }
    if duel.season_seed != global.season_seed {
        return Err(ChainDepthError::InvalidSeason);
    }
    if duel.duel_escrow != duel_escrow {
        return Err(ChainDepthError::InvalidDuelEscrow);
    }
    if challenger_token_owner != duel.challenger || opponent_token_owner != duel.opponent {
        return Err(ChainDepthError::Unauthorized);
    }
    let total_pot: u64 = match duel.stake_amount.checked_mul(2) {
        Some(v) => v,
        None => {
            return Err(ChainDepthError::Overflow);
        },
    };
    let outcome = simulate_duel(randomness);
    let payout = match outcome.result {
        DuelResult::Draw => {
            duel.winner = Address::zero();
            DuelPayout { to_challenger: duel.stake_amount, to_opponent: duel.stake_amount }
        },
        DuelResult::ChallengerWins => {
            duel.winner = duel.challenger;
            DuelPayout { to_challenger: total_pot, to_opponent: 0 }
        },
        DuelResult::OpponentWins => {
            duel.winner = duel.opponent;
            DuelPayout { to_challenger: 0, to_opponent: total_pot }
        },
    };
    duel.is_draw = match outcome.result {
        DuelResult::Draw => true,
        _ => false,
    };
    duel.starter = outcome.starter;
    duel.challenger_final_hp = outcome.challenger_final_hp;
    duel.opponent_final_hp = outcome.opponent_final_hp;
    duel.turns_played = outcome.turns_played;
    duel.challenger_hits = outcome.challenger_hits;
    duel.opponent_hits = outcome.opponent_hits;
    duel.status = STATUS_SETTLED;
    duel.settled_slot = now_slot;
    Ok(payout)
}

/// The opponent turns an open challenge down; the challenger's stake (returned)
/// goes back.
pub fn decline_duel_challenge(
    duel: &mut DuelChallenge,
    challenger: Address,
    opponent: Address,
    now_slot: u64,
) -> (r: Result<u64, ChainDepthError>)
    ensures
        old(duel).status != STATUS_OPEN ==> r == Err::<u64, ChainDepthError>(
            ChainDepthError::InvalidDuelState,
        ),
        old(duel).status == STATUS_OPEN && (old(duel).challenger != challenger
            || old(duel).opponent != opponent) ==> r == Err::<u64, ChainDepthError>(
            ChainDepthError::Unauthorized,
        ),
        r is Err ==> *final(duel) == *old(duel),
        old(duel).status == STATUS_OPEN && old(duel).challenger == challenger && old(duel).opponent
            == opponent ==> r == Ok::<u64, ChainDepthError>(old(duel).stake_amount)
            && *final(duel) == (DuelChallenge {
            status: STATUS_DECLINED,
            settled_slot: now_slot,
            ..*old(duel)
        }),
{
    if duel.status != STATUS_OPEN {
        return Err(ChainDepthError::InvalidDuelState);
    }
    if duel.challenger != challenger || duel.opponent != opponent {
        return Err(ChainDepthError::Unauthorized);
    }
    duel.status = STATUS_DECLINED;
    duel.settled_slot = now_slot;
    Ok(duel.stake_amount)
}

/// Anyone may expire an open challenge once its deadline has passed; the
/// challenger's stake (returned) goes back.
pub fn expire_duel_challenge(duel: &mut DuelChallenge, now_slot: u64) -> (r: Result<
    u64,
    ChainDepthError,
>)
    ensures
        old(duel).status != STATUS_OPEN ==> r == Err::<u64, ChainDepthError>(
            ChainDepthError::InvalidDuelState,
        ),
        old(duel).status == STATUS_OPEN && now_slot <= old(duel).expires_at_slot ==> r == Err::<
            u64,
            ChainDepthError,
        >(ChainDepthError::DuelChallengeNotExpired),
        r is Err ==> *final(duel) == *old(duel),
        old(duel).status == STATUS_OPEN && now_slot > old(duel).expires_at_slot ==> r == Ok::<
            u64,
            ChainDepthError,
        >(old(duel).stake_amount) && *final(duel) == (DuelChallenge {
            status: STATUS_EXPIRED,
            settled_slot: now_slot,
            ..*old(duel)
        }),
{
    if duel.status != STATUS_OPEN {
        return Err(ChainDepthError::InvalidDuelState);
    }
    if now_slot <= duel.expires_at_slot {
        return Err(ChainDepthError::DuelChallengeNotExpired);
    }
    duel.status = STATUS_EXPIRED;
    duel.settled_slot = now_slot;
    Ok(duel.stake_amount)
}

/// Draws happen only on equal final hit points (both at zero included); otherwise
/// the side with more hit points left wins.
pub proof fn lemma_draws_only_on_equal_hp(randomness: Seq<u8>)
    ensures
        ({
            let p = duel_of(randomness).1;
            &&& result_of(p.0, p.1) == DuelResult::Draw <==> p.0 == p.1
            &&& result_of(p.0, p.1) == DuelResult::ChallengerWins <==> p.0 > p.1
            &&& result_of(p.0, p.1) == DuelResult::OpponentWins <==> p.0 < p.1
        }),
{
}

} // verus!
