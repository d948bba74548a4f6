use chaindepth::address::Address;
use chaindepth::duel::{
    accept_duel_challenge, build_caller_seed, consume_duel_randomness, create_duel_challenge,
    decline_duel_challenge, expire_duel_challenge, simulate_duel, DuelResult, DuelRng,
    STATUS_DECLINED, STATUS_EXPIRED, STATUS_OPEN, STATUS_PENDING_RANDOMNESS, STATUS_SETTLED,
};
use chaindepth::errors::ChainDepthError;
use chaindepth::player::PlayerAccount;
use chaindepth::season::GlobalAccount;

fn addr(n: u64) -> Address {
    Address { w0: n, w1: 0, w2: 0, w3: 0 }
}

fn global() -> GlobalAccount {
    GlobalAccount {
        season_seed: 4242,
        depth: 0,
        skr_mint: addr(1),
        prize_pool: addr(2),
        admin: addr(3),
        end_slot: 1_000_000,
        jobs_completed: 0,
        bump: 0,
    }
}

fn player(x: i8, y: i8, hp: u16) -> PlayerAccount {
    PlayerAccount {
        owner: addr(9),
        current_room_x: x,
        current_room_y: y,
        active_jobs: Vec::new(),
        jobs_completed: 0,
        chests_looted: 0,
        equipped_item_id: 0,
        total_score: 0,
        current_run_start_slot: 0,
        runs_extracted: 0,
        last_extraction_slot: 0,
        in_dungeon: true,
        current_hp: hp,
        max_hp: 100,
        data_version: 1,
        season_seed: 4242,
        bump: 0,
    }
}

#[test]
fn duel_transcript_is_reproducible() {
    let outcome = simulate_duel(&[7u8; 32]);
    assert_eq!(outcome.starter, 1);
    assert_eq!(outcome.challenger_hits, vec![0, 15, 7, 15, 0, 0, 0, 0, 4, 0, 2, 0]);
    assert_eq!(outcome.opponent_hits, vec![8, 1, 0, 14, 0, 14, 7, 8, 15, 13, 11, 22]);
    assert_eq!(outcome.challenger_final_hp, 0);
    assert_eq!(outcome.opponent_final_hp, 57);
    assert_eq!(outcome.turns_played, 24);
    assert_eq!(outcome.result, DuelResult::OpponentWins);
    let again = simulate_duel(&[7u8; 32]);
    assert_eq!(again.challenger_hits, outcome.challenger_hits);
    assert_eq!(again.opponent_hits, outcome.opponent_hits);
}

#[test]
fn simultaneous_knockout_is_a_draw() {
    let mut seed = [0u8; 32];
    for (i, b) in seed.iter_mut().enumerate() {
        *b = i as u8;
    }
    let outcome = simulate_duel(&seed);
    assert_eq!(outcome.challenger_final_hp, 0);
    assert_eq!(outcome.opponent_final_hp, 0);
    assert_eq!(outcome.result, DuelResult::Draw);
    assert_eq!(outcome.challenger_hits.len(), 19);
}

#[test]
fn duel_rates_match_the_tables() {
    let mut hits = 0u64;
    let mut misses = 0u64;
    let mut crits = 0u64;
    for i in 0u64..10_000 {
        let mut seed = [0u8; 32];
        seed[..8].copy_from_slice(&i.wrapping_mul(0x9E37_79B9).to_le_bytes());
        let outcome = simulate_duel(&seed);
        for d in outcome.challenger_hits.iter().chain(outcome.opponent_hits.iter()) {
            hits += 1;
            if *d == 0 {
                misses += 1;
            } else if *d >= 16 {
                crits += 1;
                assert!(*d <= 25);
            } else {
                assert!(*d >= 1 && *d <= 15);
            }
        }
        let draw = outcome.result == DuelResult::Draw;
        assert_eq!(draw, outcome.challenger_final_hp == outcome.opponent_final_hp);
        if !draw {
            let challenger_won = outcome.result == DuelResult::ChallengerWins;
            assert_eq!(challenger_won, outcome.challenger_final_hp > outcome.opponent_final_hp);
        }
    }
    let miss_rate = misses as f64 / hits as f64;
    let crit_rate = crits as f64 / (hits - misses) as f64;
    assert!((miss_rate - 0.30).abs() < 0.01, "miss rate {miss_rate}");
    assert!((crit_rate - 0.10).abs() < 0.01, "crit rate {crit_rate}");
}

#[test]
fn attack_draws_follow_the_stream() {
    let mut rng = DuelRng::new(&[7u8; 32]);
    let first = rng.next_bool();
    assert!(!first);
    assert_eq!(rng.next_attack_damage(), 0);
    assert_eq!(rng.next_attack_damage(), 8);
}

#[test]
fn challenge_lifecycle_settles_and_pays_the_winner() {
    let g = global();
    let a = player(3, 3, 100);
    let b = player(3, 3, 100);
    let mut duel = create_duel_challenge(
        &g, &a, &b, addr(10), addr(11), String::from("alice"), String::from("bob"), 5, 1000,
        200, 100, addr(50), 1,
    )
    .unwrap();
    assert_eq!(duel.status, STATUS_OPEN);
    let seed = accept_duel_challenge(&mut duel, &g, &a, &b, addr(10), addr(11), addr(50), 150).unwrap();
    assert_eq!(duel.status, STATUS_PENDING_RANDOMNESS);
    assert_eq!(seed, build_caller_seed(5, 150, addr(10), addr(11)));
    assert_eq!(seed[0], 5);
    assert_eq!(seed[8], 150);
    assert_eq!(seed[16], 10);
    assert_eq!(seed[24], 11);
    let again = accept_duel_challenge(&mut duel, &g, &a, &b, addr(10), addr(11), addr(50), 151);
    assert_eq!(again.unwrap_err(), ChainDepthError::InvalidDuelState);
    let payout = consume_duel_randomness(&mut duel, &g, addr(50), addr(10), addr(11), &[7u8; 32], 160)
        .unwrap();
    assert_eq!(duel.status, STATUS_SETTLED);
    assert_eq!(duel.winner, addr(11));
    assert!(!duel.is_draw);
    assert_eq!(payout.to_challenger, 0);
    assert_eq!(payout.to_opponent, 2000);
    assert_eq!(duel.opponent_final_hp, 57);
}

#[test]
fn challenge_rules_refuse_bad_inputs() {
    let g = global();
    let a = player(3, 3, 100);
    let b = player(3, 4, 100);
    let same = create_duel_challenge(&g, &a, &a, addr(10), addr(10), String::new(), String::new(), 1, 1, 10, 0, addr(50), 0);
    assert_eq!(same.unwrap_err(), ChainDepthError::InvalidDuelOpponent);
    let zero = create_duel_challenge(&g, &a, &b, addr(10), addr(11), String::new(), String::new(), 1, 0, 10, 0, addr(50), 0);
    assert_eq!(zero.unwrap_err(), ChainDepthError::InvalidDuelStake);
    let far = create_duel_challenge(&g, &a, &b, addr(10), addr(11), String::new(), String::new(), 1, 1, 30_000, 0, addr(50), 0);
    assert_eq!(far.unwrap_err(), ChainDepthError::InvalidDuelExpiry);
    let apart = create_duel_challenge(&g, &a, &b, addr(10), addr(11), String::new(), String::new(), 1, 1, 10, 0, addr(50), 0);
    assert_eq!(apart.unwrap_err(), ChainDepthError::PlayersNotInSameRoom);
    let dead = player(3, 3, 0);
    let ko = create_duel_challenge(&g, &a, &dead, addr(10), addr(11), String::new(), String::new(), 1, 1, 10, 0, addr(50), 0);
    assert_eq!(ko.unwrap_err(), ChainDepthError::PlayerDead);
}

#[test]
fn declined_and_expired_challenges_refund() {
    let g = global();
    let a = player(3, 3, 100);
    let b = player(3, 3, 100);
    let mut d1 = create_duel_challenge(&g, &a, &b, addr(10), addr(11), String::new(), String::new(), 1, 700, 50, 10, addr(50), 0).unwrap();
    assert_eq!(decline_duel_challenge(&mut d1, addr(10), addr(12), 20).unwrap_err(), ChainDepthError::Unauthorized);
    assert_eq!(decline_duel_challenge(&mut d1, addr(10), addr(11), 20).unwrap(), 700);
    assert_eq!(d1.status, STATUS_DECLINED);
    let mut d2 = create_duel_challenge(&g, &a, &b, addr(10), addr(11), String::new(), String::new(), 1, 700, 50, 10, addr(50), 0).unwrap();
    assert_eq!(expire_duel_challenge(&mut d2, 50).unwrap_err(), ChainDepthError::DuelChallengeNotExpired);
    assert_eq!(expire_duel_challenge(&mut d2, 51).unwrap(), 700);
    assert_eq!(d2.status, STATUS_EXPIRED);
    assert_eq!(expire_duel_challenge(&mut d2, 52).unwrap_err(), ChainDepthError::InvalidDuelState);
}
