use pih_pah::identity::{
    login_outcome, profile_outcome, register_outcome, AuthError, AuthPhase, IdentityClient,
    Profile,
};

#[test]
fn fresh_client_has_no_token_and_no_profile() {
    let c = IdentityClient::new(b"http://127.0.0.1:8080/".to_vec());
    assert_eq!(c.session.auth_token, None);
    assert_eq!(c.session.profile, None);
    assert_eq!(c.phase, AuthPhase::Idle);
}

#[test]
fn login_stores_token_then_profile_is_fetched() {
    // The service accepts alice/pw1 with token tok-123, then reports
    // the profile Alice/alice.  The lobby role is not touched by any
    // of it.
    let lobby = pih_pah::lobby::Lobby::new();
    let role_before = lobby.role;
    let mut c = IdentityClient::new(b"http://127.0.0.1:8080/".to_vec());
    let call = c.begin_login(b"alice".to_vec(), b"pw1".to_vec()).unwrap();
    assert_eq!(call.account_name, b"alice".to_vec());
    assert_eq!(call.password, b"pw1".to_vec());
    assert_eq!(call.base_url, b"http://127.0.0.1:8080/".to_vec());

    c.complete_login(login_outcome(200, b"tok-123".to_vec()));
    assert_eq!(c.session.auth_token, Some(b"tok-123".to_vec()));

    let pcall = c.begin_fetch_profile().unwrap();
    assert_eq!(pcall.token, b"tok-123".to_vec());
    c.complete_fetch_profile(profile_outcome(200, b"Alice".to_vec(), b"alice".to_vec()));
    assert_eq!(
        c.session.profile,
        Some(Profile { display_name: b"Alice".to_vec(), account_name: b"alice".to_vec() })
    );
    assert_eq!(c.session.auth_token, Some(b"tok-123".to_vec()));
    assert_eq!(c.phase, AuthPhase::Idle);
    assert_eq!(lobby.role, role_before);
}

#[test]
fn failed_login_keeps_the_session() {
    let mut c = IdentityClient::new(b"http://127.0.0.1:8080/".to_vec());
    c.begin_login(b"alice".to_vec(), b"wrong".to_vec()).unwrap();
    c.complete_login(login_outcome(401, Vec::new()));
    assert_eq!(c.session.auth_token, None);
    assert_eq!(c.phase, AuthPhase::Idle);
}

#[test]
fn second_login_while_pending_is_busy() {
    let mut c = IdentityClient::new(b"http://127.0.0.1:8080/".to_vec());
    c.begin_login(b"alice".to_vec(), b"pw1".to_vec()).unwrap();
    let r = c.begin_login(b"alice".to_vec(), b"pw1".to_vec());
    assert_eq!(r.unwrap_err(), AuthError::Busy);
    assert_eq!(c.phase, AuthPhase::LoginPending);
}

#[test]
fn register_with_mismatched_passwords_issues_no_call() {
    let mut c = IdentityClient::new(b"http://127.0.0.1:8080/".to_vec());
    let r = c.begin_register(b"bob".to_vec(), b"pw1".to_vec(), b"pw2".to_vec());
    // No RegisterCall exists, so the worker has nothing to send: the
    // rejection happens before any network round trip.
    assert_eq!(r.unwrap_err(), AuthError::PasswordMismatch);
    assert_eq!(c.phase, AuthPhase::Idle);
    assert_eq!(c.session.auth_token, None);
}

#[test]
fn register_with_matching_passwords_hands_out_the_call() {
    let mut c = IdentityClient::new(b"http://127.0.0.1:8080/".to_vec());
    let call = c
        .begin_register(b"bob".to_vec(), b"pw1".to_vec(), b"pw1".to_vec())
        .unwrap();
    assert_eq!(call.account_name, b"bob".to_vec());
    assert_eq!(c.phase, AuthPhase::RegisterPending);
    c.complete_register();
    assert_eq!(c.phase, AuthPhase::Idle);
    assert_eq!(c.session.auth_token, None);
}

#[test]
fn wire_outcomes_map_to_the_error_taxonomy() {
    assert_eq!(login_outcome(200, b"t".to_vec()), Ok(b"t".to_vec()));
    assert_eq!(login_outcome(401, Vec::new()), Err(AuthError::InvalidCredentials));
    assert_eq!(login_outcome(403, Vec::new()), Err(AuthError::InvalidCredentials));
    assert_eq!(login_outcome(500, Vec::new()), Err(AuthError::Unreachable));

    assert!(profile_outcome(200, b"A".to_vec(), b"a".to_vec()).is_ok());
    assert_eq!(
        profile_outcome(401, Vec::new(), Vec::new()),
        Err(AuthError::Expired)
    );
    assert_eq!(
        profile_outcome(502, Vec::new(), Vec::new()),
        Err(AuthError::Unreachable)
    );

    assert_eq!(register_outcome(201), Ok(()));
    assert_eq!(register_outcome(409), Err(AuthError::AccountExists));
    assert_eq!(register_outcome(500), Err(AuthError::Unreachable));
}
