use chaindepth::address::Address;
use chaindepth::errors::ChainDepthError;
use chaindepth::session::{authorize_player_action, begin_session, end_session, BOOST_JOB, JOIN_JOB};

fn addr(n: u64) -> Address {
    Address { w0: n, w1: 0, w2: 0, w3: 0 }
}

#[test]
fn owner_acts_without_a_session() {
    let mut none = None;
    assert!(authorize_player_action(addr(1), addr(1), &mut none, JOIN_JOB, 5, 0, 0).is_ok());
    assert_eq!(
        authorize_player_action(addr(2), addr(1), &mut none, JOIN_JOB, 5, 0, 0).unwrap_err(),
        ChainDepthError::Unauthorized
    );
}

#[test]
fn session_keys_are_limited() {
    assert_eq!(
        begin_session(addr(1), addr(2), 100, 1000, JOIN_JOB, 10, 100, 900, 0).unwrap_err(),
        ChainDepthError::InvalidSessionExpiry
    );
    assert_eq!(
        begin_session(addr(1), addr(2), 200, 1000, 0, 10, 100, 900, 0).unwrap_err(),
        ChainDepthError::InvalidSessionAllowlist
    );
    let grant = begin_session(addr(1), addr(2), 200, 1000, JOIN_JOB, 10, 100, 900, 0).unwrap();
    let mut session = Some(grant);
    authorize_player_action(addr(2), addr(1), &mut session, JOIN_JOB, 6, 150, 950).unwrap();
    assert_eq!(session.unwrap().spent_token_amount, 6);
    assert_eq!(
        authorize_player_action(addr(2), addr(1), &mut session, JOIN_JOB, 5, 150, 950).unwrap_err(),
        ChainDepthError::SessionSpendCapExceeded
    );
    assert_eq!(
        authorize_player_action(addr(2), addr(1), &mut session, BOOST_JOB, 0, 150, 950).unwrap_err(),
        ChainDepthError::SessionInstructionNotAllowed
    );
    assert_eq!(
        authorize_player_action(addr(2), addr(1), &mut session, JOIN_JOB, 0, 201, 950).unwrap_err(),
        ChainDepthError::SessionExpired
    );
    let mut s = session.unwrap();
    assert!(end_session(&mut s));
    assert!(!s.is_active);
    let mut ended = Some(s);
    assert_eq!(
        authorize_player_action(addr(2), addr(1), &mut ended, JOIN_JOB, 0, 150, 950).unwrap_err(),
        ChainDepthError::SessionInactive
    );
}
