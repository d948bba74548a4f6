use chaindepth::address::Address;
use chaindepth::errors::ChainDepthError;
use chaindepth::season::{force_reset_season, generate_new_seed, init_global, reset_season, SEASON_DURATION_SLOTS};

#[test]
fn seasons_reset_only_after_their_end() {
    let mut g = init_global(77, Address::zero(), Address::zero(), Address::zero(), 1000, 0).unwrap();
    assert_eq!(g.end_slot, 1000 + SEASON_DURATION_SLOTS);
    g.depth = 4;
    g.jobs_completed = 12;
    assert_eq!(reset_season(&mut g, 2000).unwrap_err(), ChainDepthError::SeasonNotEnded);
    assert_eq!(g.depth, 4);
    let now = 1000 + SEASON_DURATION_SLOTS;
    let reset = reset_season(&mut g, now).unwrap();
    assert_eq!(reset.old_seed, 77);
    assert_eq!(reset.old_depth, 4);
    assert_eq!(g.season_seed, generate_new_seed(77, now));
    assert_eq!(g.depth, 0);
    assert_eq!(g.jobs_completed, 0);
    assert_eq!(g.end_slot, now + SEASON_DURATION_SLOTS);
    assert_eq!(force_reset_season(&mut g, u64::MAX).unwrap_err(), ChainDepthError::Overflow);
}

#[test]
fn new_seed_mixes_old_seed_and_slot() {
    assert_eq!(generate_new_seed(77, 5), 3685316201828219346);
    assert_eq!(generate_new_seed(0, 0), 0);
}
