use chaindepth::address::Address;
use chaindepth::errors::ChainDepthError;
use chaindepth::vrf_roll::{consume_random_roll, initialize, request_random_roll};

fn addr(n: u64) -> Address {
    Address { w0: n, w1: 0, w2: 0, w3: 0 }
}

#[test]
fn roll_goes_through_request_and_delivery() {
    let mut state = initialize(addr(1), 10, 0);
    assert_eq!(consume_random_roll(&mut state, &[42u8; 32], 11).unwrap_err(), ChainDepthError::NoPendingRequest);
    assert_eq!(request_random_roll(&mut state, addr(2), 3).unwrap_err(), ChainDepthError::Unauthorized);
    let seed = request_random_roll(&mut state, addr(1), 3).unwrap();
    assert_eq!(seed, [3u8; 32]);
    assert_eq!(request_random_roll(&mut state, addr(1), 3).unwrap_err(), ChainDepthError::RequestAlreadyPending);
    let value = consume_random_roll(&mut state, &[42u8; 32], 12).unwrap();
    assert_eq!(value, 43);
    assert_eq!(state.last_random_value, 43);
    assert_eq!(state.roll_count, 1);
    assert!(!state.pending);
    assert_eq!(state.last_updated_slot, 12);
}

#[test]
fn delivered_rolls_stay_in_range() {
    for b in 0u8..=255 {
        let mut state = initialize(addr(1), 0, 0);
        request_random_roll(&mut state, addr(1), 0).unwrap();
        let v = consume_random_roll(&mut state, &[b; 32], 1).unwrap();
        assert!((1..=100).contains(&v));
    }
}
