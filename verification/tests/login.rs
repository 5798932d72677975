use addon_publish::login::{
    advance, advance_at, expires_at, next_action, AuthRequest, DeviceFlowResponse, ErrorResult,
    FirebaseAuthUser, LoginAction, LoginError, LoginEvent, LoginState, OAuthTokenResponse,
    ReplyBody, TokenRequestForDevice, TokenRequestForRefreshToken, UserSession,
};

fn cached_session(refresh_token: Option<&str>) -> UserSession {
    UserSession {
        refresh_token: refresh_token.map(|t| t.to_string()),
        access_token: "old-access".to_string(),
        access_token_expires: 100,
        user_id: "uid-1".to_string(),
        user_email: "user@example.org".to_string(),
        user_display_name: "User One".to_string(),
    }
}

fn token(access: &str, expires_in: i64, refresh: Option<&str>) -> OAuthTokenResponse {
    OAuthTokenResponse {
        access_token: access.to_string(),
        token_type: "bearer".to_string(),
        expires_in,
        refresh_token: refresh.map(|t| t.to_string()),
        scope: "offline_access addons profile".to_string(),
    }
}

fn grant(expires_in: i64) -> DeviceFlowResponse {
    DeviceFlowResponse {
        device_code: "device-123".to_string(),
        user_code: "ABCD".to_string(),
        verification_uri: "https://oauth.openhabx.com/device?code=ABCD".to_string(),
        interval: 5,
        expires_in,
    }
}

fn reply_token(status: u16, t: OAuthTokenResponse) -> LoginEvent {
    LoginEvent::Reply { status, body: ReplyBody::Token { token: t } }
}

fn reply_error(status: u16, code: &str) -> LoginEvent {
    LoginEvent::Reply {
        status,
        body: ReplyBody::Error { error: ErrorResult { error: code.to_string() } },
    }
}

fn reply_text(status: u16, text: &str) -> LoginEvent {
    LoginEvent::Reply { status, body: ReplyBody::Text { text: text.to_string() } }
}

fn polling(deadline: i64) -> LoginState {
    LoginState::Polling { device_code: "device-123".to_string(), deadline }
}

fn failed(error: LoginError) -> LoginState {
    LoginState::Failed { error }
}

#[test]
fn expiry_is_ten_seconds_early() {
    assert_eq!(expires_at(1_000, 3_600), Some(4_590));
    assert_eq!(expires_at(0, 0), Some(-10));
    assert_eq!(expires_at(i64::MAX, 10), Some(i64::MAX));
    assert_eq!(expires_at(i64::MAX, 11), None);
    assert_eq!(expires_at(i64::MIN, 9), None);
}

#[test]
fn session_without_file_starts_the_device_flow() {
    let next = advance_at(LoginState::NoSession, LoginEvent::SessionLoaded { cached: None }, 7);
    assert_eq!(next, LoginState::DeviceFlow);
    assert_eq!(
        next_action(&next),
        LoginAction::RequestDeviceCode {
            authorize: AuthRequest {
                client_id: "addoncli".to_string(),
                client_name: "OHX Addon Registry CLI".to_string(),
                response_type: "device".to_string(),
                scope: "offline_access addons profile".to_string(),
            }
        }
    );
}

#[test]
fn session_without_refresh_token_starts_the_device_flow() {
    let next = advance_at(
        LoginState::NoSession,
        LoginEvent::SessionLoaded { cached: Some(cached_session(None)) },
        7,
    );
    assert_eq!(next, LoginState::DeviceFlow);
}

#[test]
fn cached_refresh_token_is_exchanged() {
    assert_eq!(next_action(&LoginState::NoSession), LoginAction::LoadSession);
    let next = advance_at(
        LoginState::NoSession,
        LoginEvent::SessionLoaded { cached: Some(cached_session(Some("refresh-1"))) },
        7,
    );
    assert_eq!(
        next,
        LoginState::SilentRefresh {
            cached: cached_session(Some("refresh-1")),
            refresh_token: "refresh-1".to_string()
        }
    );
    assert_eq!(
        next_action(&next),
        LoginAction::RequestRefresh {
            refresh: TokenRequestForRefreshToken {
                refresh_token: "refresh-1".to_string(),
                client_id: "addoncli".to_string(),
                grant_type: "refresh_token".to_string(),
            }
        }
    );
}

fn refreshing() -> LoginState {
    LoginState::SilentRefresh {
        cached: cached_session(Some("refresh-1")),
        refresh_token: "refresh-1".to_string(),
    }
}

#[test]
fn refresh_keeps_identity_and_is_stored() {
    let next =
        advance_at(refreshing(), reply_token(200, token("new-access", 3_600, Some("other"))), 1_000);
    let session = UserSession {
        refresh_token: Some("refresh-1".to_string()),
        access_token: "new-access".to_string(),
        access_token_expires: 4_590,
        user_id: "uid-1".to_string(),
        user_email: "user@example.org".to_string(),
        user_display_name: "User One".to_string(),
    };
    assert_eq!(next, LoginState::Storing { session: session.clone() });
    assert_eq!(next_action(&next), LoginAction::StoreSession { session: session.clone() });
    let done = advance_at(next, LoginEvent::Stored { written: true }, 1_001);
    assert_eq!(done, LoginState::Authenticated { session: session.clone() });
    assert_eq!(next_action(&done), LoginAction::Finish { session });
}

#[test]
fn rejected_refresh_falls_back_to_the_device_flow() {
    assert_eq!(advance_at(refreshing(), reply_error(400, "invalid_grant"), 5), LoginState::DeviceFlow);
}

#[test]
fn refresh_fails_on_other_answers() {
    assert_eq!(
        advance_at(refreshing(), reply_text(500, "oops"), 5),
        failed(LoginError::UnexpectedReply { status: 500 })
    );
    assert_eq!(
        advance_at(refreshing(), reply_text(200, "no token"), 5),
        failed(LoginError::UnexpectedReply { status: 200 })
    );
    assert_eq!(advance_at(refreshing(), LoginEvent::Unreachable, 5), failed(LoginError::Unreachable));
    assert_eq!(
        advance_at(refreshing(), reply_token(200, token("a", i64::MAX, None)), 1_000),
        failed(LoginError::ClockOutOfRange)
    );
}

#[test]
fn store_failure_ends_the_login() {
    let storing = LoginState::Storing { session: cached_session(None) };
    assert_eq!(
        advance_at(storing, LoginEvent::Stored { written: false }, 5),
        failed(LoginError::StoreFailed)
    );
}

#[test]
fn device_code_is_announced_then_polled() {
    let announcing = advance_at(
        LoginState::DeviceFlow,
        LoginEvent::Reply { status: 200, body: ReplyBody::DeviceCode { grant: grant(600) } },
        50,
    );
    assert_eq!(announcing, LoginState::Announcing { grant: grant(600) });
    assert_eq!(
        next_action(&announcing),
        LoginAction::Announce {
            verification_uri: "https://oauth.openhabx.com/device?code=ABCD".to_string()
        }
    );
    let polling_state = advance_at(announcing, LoginEvent::Announced, 1_000);
    assert_eq!(polling_state, polling(1_600));
    assert_eq!(
        next_action(&polling_state),
        LoginAction::Poll {
            wait_seconds: 2,
            exchange: TokenRequestForDevice {
                device_code: "device-123".to_string(),
                client_id: "addoncli".to_string(),
                grant_type: "urn:ietf:params:oauth:grant-type:device_code".to_string(),
            }
        }
    );
}

#[test]
fn authorize_failures_end_the_login() {
    assert_eq!(
        advance_at(LoginState::DeviceFlow, reply_error(400, "unauthorized_client"), 5),
        failed(LoginError::Denied { error: "unauthorized_client".to_string() })
    );
    assert_eq!(
        advance_at(LoginState::DeviceFlow, reply_text(503, "down"), 5),
        failed(LoginError::UnexpectedReply { status: 503 })
    );
    assert_eq!(
        advance_at(LoginState::DeviceFlow, LoginEvent::Unreachable, 5),
        failed(LoginError::Unreachable)
    );
}

#[test]
fn polling_succeeds_at_once_on_200() {
    let next = advance_at(polling(1_600), reply_token(200, token("acc", 3_600, Some("ref"))), 1_002);
    assert_eq!(next, LoginState::Identifying { token: token("acc", 3_600, Some("ref")) });
    assert_eq!(next_action(&next), LoginAction::FetchIdentity { access_token: "acc".to_string() });
    let late = advance_at(polling(1_600), reply_token(200, token("acc", 3_600, None)), 9_999);
    assert_eq!(late, LoginState::Identifying { token: token("acc", 3_600, None) });
}

#[test]
fn polling_fails_at_once_on_another_error_code() {
    assert_eq!(
        advance_at(polling(1_600), reply_error(400, "access_denied"), 1_002),
        failed(LoginError::Denied { error: "access_denied".to_string() })
    );
    assert_eq!(
        advance_at(polling(1_600), reply_text(500, "oops"), 1_002),
        failed(LoginError::UnexpectedReply { status: 500 })
    );
    assert_eq!(
        advance_at(polling(1_600), LoginEvent::Unreachable, 1_002),
        failed(LoginError::Unreachable)
    );
}

#[test]
fn polling_goes_on_while_pending() {
    let next = advance_at(polling(1_600), reply_error(400, "authorization_pending"), 1_002);
    assert_eq!(next, polling(1_600));
    let at_deadline = advance_at(next, reply_error(400, "authorization_pending"), 1_600);
    assert_eq!(at_deadline, polling(1_600));
}

#[test]
fn polling_times_out_after_the_deadline() {
    let expired = advance_at(polling(1_600), reply_error(400, "authorization_pending"), 1_601);
    assert_eq!(expired, failed(LoginError::Expired));
    assert_eq!(next_action(&expired), LoginAction::Abort { error: LoginError::Expired });
}

#[test]
fn a_device_code_without_lifetime_times_out_on_the_first_pending_answer() {
    let state = advance_at(LoginState::Announcing { grant: grant(0) }, LoginEvent::Announced, 1_000);
    assert_eq!(state, polling(1_000));
    let expired = advance_at(state, reply_error(400, "authorization_pending"), 1_002);
    assert_eq!(expired, failed(LoginError::Expired));
}

#[test]
fn pending_polls_run_until_the_deadline_has_passed() {
    let mut state = advance_at(LoginState::Announcing { grant: grant(6) }, LoginEvent::Announced, 1_000);
    let mut polls = 0;
    let mut now = 1_000;
    loop {
        match next_action(&state) {
            LoginAction::Poll { wait_seconds, .. } => {
                polls += 1;
                now += wait_seconds as i64;
                state = advance_at(state, reply_error(400, "authorization_pending"), now);
            }
            LoginAction::Abort { error } => {
                assert_eq!(error, LoginError::Expired);
                break;
            }
            other => panic!("unexpected action {:?}", other),
        }
    }
    assert_eq!(polls, 4);
    assert_eq!(now, 1_008);
}

#[test]
fn a_granted_poll_leads_to_one_identity_request_and_the_session() {
    let mut state = polling(1_600);
    state = advance_at(state, reply_error(400, "authorization_pending"), 1_002);
    state = advance_at(state, reply_error(400, "authorization_pending"), 1_004);
    state = advance_at(state, reply_token(200, token("acc", 3_600, Some("ref"))), 1_006);
    assert_eq!(next_action(&state), LoginAction::FetchIdentity { access_token: "acc".to_string() });
    let user = FirebaseAuthUser {
        localId: Some("uid-9".to_string()),
        email: Some("nine@example.org".to_string()),
        displayName: None,
    };
    state = advance_at(state, LoginEvent::Identity { user: Some(user) }, 1_007);
    let session = UserSession {
        refresh_token: Some("ref".to_string()),
        access_token: "acc".to_string(),
        access_token_expires: 4_597,
        user_id: "uid-9".to_string(),
        user_email: "nine@example.org".to_string(),
        user_display_name: String::new(),
    };
    assert_eq!(next_action(&state), LoginAction::StoreSession { session: session.clone() });
    state = advance_at(state, LoginEvent::Stored { written: true }, 1_008);
    assert_eq!(next_action(&state), LoginAction::Finish { session });
}

#[test]
fn a_granted_token_whose_expiry_does_not_fit_ends_the_login() {
    let identifying = LoginState::Identifying { token: token("acc", 11, None) };
    assert_eq!(
        advance_at(
            identifying,
            LoginEvent::Identity { user: Some(FirebaseAuthUser::default()) },
            i64::MAX
        ),
        failed(LoginError::ClockOutOfRange)
    );
}

#[test]
fn identity_completes_the_session() {
    let identifying = LoginState::Identifying { token: token("acc", 3_600, Some("ref")) };
    let user = FirebaseAuthUser {
        localId: Some("uid-9".to_string()),
        email: None,
        displayName: Some("Nine".to_string()),
    };
    let next = advance_at(identifying, LoginEvent::Identity { user: Some(user) }, 2_000);
    assert_eq!(
        next,
        LoginState::Storing {
            session: UserSession {
                refresh_token: Some("ref".to_string()),
                access_token: "acc".to_string(),
                access_token_expires: 5_590,
                user_id: "uid-9".to_string(),
                user_email: String::new(),
                user_display_name: "Nine".to_string(),
            }
        }
    );
}

#[test]
fn unreadable_identity_ends_the_login() {
    let identifying = LoginState::Identifying { token: token("acc", 3_600, None) };
    assert_eq!(
        advance_at(identifying, LoginEvent::Identity { user: None }, 2_000),
        failed(LoginError::IdentityUnreadable)
    );
}

#[test]
fn events_out_of_turn_end_the_login() {
    assert_eq!(
        advance_at(LoginState::NoSession, LoginEvent::Announced, 1),
        failed(LoginError::OutOfTurn)
    );
    assert_eq!(
        advance_at(polling(10), LoginEvent::Stored { written: true }, 1),
        failed(LoginError::OutOfTurn)
    );
}

#[test]
fn final_states_stay() {
    let done = LoginState::Authenticated { session: cached_session(None) };
    assert_eq!(
        advance_at(done, LoginEvent::Unreachable, 1),
        LoginState::Authenticated { session: cached_session(None) }
    );
    assert_eq!(
        advance_at(failed(LoginError::Expired), LoginEvent::Announced, 1),
        failed(LoginError::Expired)
    );
    assert_eq!(
        next_action(&failed(LoginError::Expired)),
        LoginAction::Abort { error: LoginError::Expired }
    );
}

#[test]
fn advance_reads_the_clock() {
    let next = advance(LoginState::Announcing { grant: grant(600) }, LoginEvent::Announced);
    match next {
        LoginState::Polling { device_code, deadline } => {
            assert_eq!(device_code, "device-123");
            assert!(deadline > 1_600_000_000 + 600);
        }
        other => panic!("unexpected state {:?}", other),
    }
}
