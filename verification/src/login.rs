//! Logging in: a cached session is refreshed silently where it can be, and
//! otherwise the device-authorisation grant is run. The decisions are a state
//! machine; the requests, the waiting and the session file are its caller's.

use crate::clock::unix_now;
use crate::text::text_eq;
use vstd::prelude::*;
use vstd::string::*;

verus! {

/// The name under which this client is known to the authorisation server.
pub const OAUTH_CLIENT_ID: &'static str = "addoncli";

/// The name that the authorisation server shows to the user.
pub const CLIENT_NAME: &'static str = "OHX Addon Registry CLI";

/// The kind of answer asked of the authorize endpoint.
pub const RESPONSE_TYPE: &'static str = "device";

/// What the client asks to be allowed.
pub const SCOPE: &'static str = "offline_access addons profile";

/// The grant that exchanges a refresh token.
pub const REFRESH_GRANT: &'static str = "refresh_token";

/// The grant that exchanges a device code.
pub const DEVICE_GRANT: &'static str = "urn:ietf:params:oauth:grant-type:device_code";

/// The error code that says the user has not decided yet.
pub const AUTHORIZATION_PENDING: &'static str = "authorization_pending";

/// Where tokens are asked for.
pub const TOKEN_ENDPOINT: &'static str = "https://oauth.openhabx.com/token";

/// Where a device code is asked for.
pub const AUTHORIZE_ENDPOINT: &'static str = "https://oauth.openhabx.com/authorize";

/// Where the user's identity is asked for.
pub const USERINFO_ENDPOINT: &'static str = "https://oauth.openhabx.com/userinfo";

/// The seconds by which a session is taken to expire early.
pub const EXPIRY_MARGIN: i64 = 10;

/// The seconds to wait before each request of the polling loop. The
/// interval that the server names with the device code is not used.
pub const POLL_INTERVAL: u64 = 2;

/// A logged-in user: the tokens, the second at which the access token is
/// taken to expire, and who the user is.
#[derive(Debug, PartialEq, Default)]
pub struct UserSession {
    pub refresh_token: Option<String>,
    pub access_token: String,
    /// Seconds since the start of 1970.
    pub access_token_expires: i64,
    pub user_id: String,
    pub user_email: String,
    pub user_display_name: String,
}

/// What an [`UserSession`] holds, as mathematical values.
pub struct UserSessionView {
    pub refresh_token: Option<Seq<char>>,
    pub access_token: Seq<char>,
    pub access_token_expires: int,
    pub user_id: Seq<char>,
    pub user_email: Seq<char>,
    pub user_display_name: Seq<char>,
}

impl DeepView for UserSession {
    type V = UserSessionView;

    open spec fn deep_view(&self) -> UserSessionView {
        UserSessionView {
            refresh_token: self.refresh_token.deep_view(),
            access_token: self.access_token@,
            access_token_expires: self.access_token_expires as int,
            user_id: self.user_id@,
            user_email: self.user_email@,
            user_display_name: self.user_display_name@,
        }
    }
}

impl Clone for UserSession {
    fn clone(&self) -> (copy: Self)
        ensures
            copy.deep_view() == self.deep_view(),
    {
        UserSession {
            refresh_token: match &self.refresh_token {
                Some(token) => Some(token.clone()),
                None => None,
            },
            access_token: self.access_token.clone(),
            access_token_expires: self.access_token_expires,
            user_id: self.user_id.clone(),
            user_email: self.user_email.clone(),
            user_display_name: self.user_display_name.clone(),
        }
    }
}

/// What is sent to the token endpoint to exchange a refresh token.
#[derive(Debug, PartialEq, Default)]
pub struct TokenRequestForRefreshToken {
    pub refresh_token: String,
    pub client_id: String,
    pub grant_type: String,
}

/// What a [`TokenRequestForRefreshToken`] holds, as mathematical values.
pub struct TokenRequestForRefreshTokenView {
    pub refresh_token: Seq<char>,
    pub client_id: Seq<char>,
    pub grant_type: Seq<char>,
}

impl DeepView for TokenRequestForRefreshToken {
    type V = TokenRequestForRefreshTokenView;

    open spec fn deep_view(&self) -> TokenRequestForRefreshTokenView {
        TokenRequestForRefreshTokenView {
            refresh_token: self.refresh_token@,
            client_id: self.client_id@,
            grant_type: self.grant_type@,
        }
    }
}

/// What is sent to the token endpoint to exchange a device code.
#[derive(Debug, PartialEq, Default)]
pub struct TokenRequestForDevice {
    pub device_code: String,
    pub client_id: String,
    pub grant_type: String,
}

/// What a [`TokenRequestForDevice`] holds, as mathematical values.
pub struct TokenRequestForDeviceView {
    pub device_code: Seq<char>,
    pub client_id: Seq<char>,
    pub grant_type: Seq<char>,
}

impl DeepView for TokenRequestForDevice {
    type V = TokenRequestForDeviceView;

    open spec fn deep_view(&self) -> TokenRequestForDeviceView {
        TokenRequestForDeviceView {
            device_code: self.device_code@,
            client_id: self.client_id@,
            grant_type: self.grant_type@,
        }
    }
}

/// What is sent to the authorize endpoint to start the device flow.
#[derive(Debug, PartialEq, Default)]
pub struct AuthRequest {
    pub client_id: String,
    pub client_name: String,
    pub response_type: String,
    pub scope: String,
}

/// What an [`AuthRequest`] holds, as mathematical values.
pub struct AuthRequestView {
    pub client_id: Seq<char>,
    pub client_name: Seq<char>,
    pub response_type: Seq<char>,
    pub scope: Seq<char>,
}

impl DeepView for AuthRequest {
    type V = AuthRequestView;

    open spec fn deep_view(&self) -> AuthRequestView {
        AuthRequestView {
            client_id: self.client_id@,
            client_name: self.client_name@,
            response_type: self.response_type@,
            scope: self.scope@,
        }
    }
}

/// What the authorize endpoint answers: the code to poll with, and where
/// and for how long the user can give consent.
#[derive(Debug, PartialEq, Default)]
pub struct DeviceFlowResponse {
    pub device_code: String,
    pub user_code: String,
    pub verification_uri: String,
    pub interval: u32,
    /// Seconds for which the device code is good.
    pub expires_in: i64,
}

/// What a [`DeviceFlowResponse`] holds, as mathematical values.
pub struct DeviceFlowResponseView {
    pub device_code: Seq<char>,
    pub user_code: Seq<char>,
    pub verification_uri: Seq<char>,
    pub interval: int,
    pub expires_in: int,
}

impl DeepView for DeviceFlowResponse {
    type V = DeviceFlowResponseView;

    open spec fn deep_view(&self) -> DeviceFlowResponseView {
        DeviceFlowResponseView {
            device_code: self.device_code@,
            user_code: self.user_code@,
            verification_uri: self.verification_uri@,
            interval: self.interval as int,
            expires_in: self.expires_in as int,
        }
    }
}

/// What the token endpoint answers when it grants a token.
#[derive(Debug, PartialEq, Default)]
pub struct OAuthTokenResponse {
    pub access_token: String,
    pub token_type: String,
    /// Seconds for which the access token is good.
    pub expires_in: i64,
    pub refresh_token: Option<String>,
    /// The scopes granted, separated by spaces.
    pub scope: String,
}

/// What an [`OAuthTokenResponse`] holds, as mathematical values.
pub struct OAuthTokenResponseView {
    pub access_token: Seq<char>,
    pub token_type: Seq<char>,
    pub expires_in: int,
    pub refresh_token: Option<Seq<char>>,
    pub scope: Seq<char>,
}

impl DeepView for OAuthTokenResponse {
    type V = OAuthTokenResponseView;

    open spec fn deep_view(&self) -> OAuthTokenResponseView {
        OAuthTokenResponseView {
            access_token: self.access_token@,
            token_type: self.token_type@,
            expires_in: self.expires_in as int,
            refresh_token: self.refresh_token.deep_view(),
            scope: self.scope@,
        }
    }
}

/// What an endpoint answers when it turns a request down.
#[derive(Debug, PartialEq, Default)]
pub struct ErrorResult {
    pub error: String,
}

/// What an [`ErrorResult`] holds, as mathematical values.
pub struct ErrorResultView {
    pub error: Seq<char>,
}

impl DeepView for ErrorResult {
    type V = ErrorResultView;

    open spec fn deep_view(&self) -> ErrorResultView {
        ErrorResultView { error: self.error@ }
    }
}

/// The user's id, email address and display name, as far as they are known.
#[allow(non_snake_case)]
#[derive(Debug, PartialEq, Default)]
pub struct FirebaseAuthUser {
    pub localId: Option<String>,
    pub email: Option<String>,
    pub displayName: Option<String>,
}

/// What a [`FirebaseAuthUser`] holds, as mathematical values.
#[allow(non_snake_case)]
pub struct FirebaseAuthUserView {
    pub localId: Option<Seq<char>>,
    pub email: Option<Seq<char>>,
    pub displayName: Option<Seq<char>>,
}

impl DeepView for FirebaseAuthUser {
    type V = FirebaseAuthUserView;

    open spec fn deep_view(&self) -> FirebaseAuthUserView {
        FirebaseAuthUserView {
            localId: self.localId.deep_view(),
            email: self.email.deep_view(),
            displayName: self.displayName.deep_view(),
        }
    }
}

/// Why a login was given up.
#[derive(Debug, PartialEq)]
pub enum LoginError {
    /// An endpoint could not be reached.
    Unreachable,
    /// The server turned the request down, with this error code.
    Denied { error: String },
    /// The server answered with a status, or with a body for a status,
    /// that has no place in the flow.
    UnexpectedReply { status: u16 },
    /// The device code expired before the user gave consent.
    Expired,
    /// The user's identity could not be read.
    IdentityUnreadable,
    /// The session could not be stored.
    StoreFailed,
    /// A time of expiry does not fit the clock.
    ClockOutOfRange,
    /// An event came that the state was not waiting for.
    OutOfTurn,
}

/// What a [`LoginError`] holds, as mathematical values.
pub enum LoginErrorView {
    Unreachable,
    Denied { error: Seq<char> },
    UnexpectedReply { status: u16 },
    Expired,
    IdentityUnreadable,
    StoreFailed,
    ClockOutOfRange,
    OutOfTurn,
}

impl DeepView for LoginError {
    type V = LoginErrorView;

    open spec fn deep_view(&self) -> LoginErrorView {
        match self {
            LoginError::Unreachable => LoginErrorView::Unreachable,
            LoginError::Denied { error } => LoginErrorView::Denied { error: error@ },
            LoginError::UnexpectedReply { status } => LoginErrorView::UnexpectedReply {
                status: *status,
            },
            LoginError::Expired => LoginErrorView::Expired,
            LoginError::IdentityUnreadable => LoginErrorView::IdentityUnreadable,
            LoginError::StoreFailed => LoginErrorView::StoreFailed,
            LoginError::ClockOutOfRange => LoginErrorView::ClockOutOfRange,
            LoginError::OutOfTurn => LoginErrorView::OutOfTurn,
        }
    }
}

impl Clone for LoginError {
    fn clone(&self) -> (copy: Self)
        ensures
            copy.deep_view() == self.deep_view(),
    {
        match self {
            LoginError::Unreachable => LoginError::Unreachable,
            LoginError::Denied { error } => LoginError::Denied { error: error.clone() },
            LoginError::UnexpectedReply { status } => LoginError::UnexpectedReply {
                status: *status,
            },
            LoginError::Expired => LoginError::Expired,
            LoginError::IdentityUnreadable => LoginError::IdentityUnreadable,
            LoginError::StoreFailed => LoginError::StoreFailed,
            LoginError::ClockOutOfRange => LoginError::ClockOutOfRange,
            LoginError::OutOfTurn => LoginError::OutOfTurn,
        }
    }
}

/// The body of an answer, read as what its status calls for.
#[derive(Debug, PartialEq)]
pub enum ReplyBody {
    /// A granted token.
    Token { token: OAuthTokenResponse },
    /// A device code.
    DeviceCode { grant: DeviceFlowResponse },
    /// An error code.
    Error { error: ErrorResult },
    /// Anything else, as text.
    Text { text: String },
}

/// What a [`ReplyBody`] holds, as mathematical values.
pub enum ReplyBodyView {
    Token { token: OAuthTokenResponseView },
    DeviceCode { grant: DeviceFlowResponseView },
    Error { error: ErrorResultView },
    Text { text: Seq<char> },
}

impl DeepView for ReplyBody {
    type V = ReplyBodyView;

    open spec fn deep_view(&self) -> ReplyBodyView {
        match self {
            ReplyBody::Token { token } => ReplyBodyView::Token { token: token.deep_view() },
            ReplyBody::DeviceCode { grant } => ReplyBodyView::DeviceCode {
                grant: grant.deep_view(),
            },
            ReplyBody::Error { error } => ReplyBodyView::Error { error: error.deep_view() },
            ReplyBody::Text { text } => ReplyBodyView::Text { text: text@ },
        }
    }
}

/// What the caller reports back after doing what the state asked for.
#[derive(Debug, PartialEq)]
pub enum LoginEvent {
    /// The session file was read: the session in it, if there is a file
    /// and it holds one.
    SessionLoaded { cached: Option<UserSession> },
    /// The endpoint could not be reached.
    Unreachable,
    /// The endpoint answered.
    Reply { status: u16, body: ReplyBody },
    /// The user was shown where to give consent.
    Announced,
    /// The userinfo endpoint answered: the identity, if it could be read.
    Identity { user: Option<FirebaseAuthUser> },
    /// The session file was written, or could not be.
    Stored { written: bool },
}

/// What a [`LoginEvent`] holds, as mathematical values.
pub enum LoginEventView {
    SessionLoaded { cached: Option<UserSessionView> },
    Unreachable,
    Reply { status: u16, body: ReplyBodyView },
    Announced,
    Identity { user: Option<FirebaseAuthUserView> },
    Stored { written: bool },
}

impl DeepView for LoginEvent {
    type V = LoginEventView;

    open spec fn deep_view(&self) -> LoginEventView {
        match self {
            LoginEvent::SessionLoaded { cached } => LoginEventView::SessionLoaded {
                cached: cached.deep_view(),
            },
            LoginEvent::Unreachable => LoginEventView::Unreachable,
            LoginEvent::Reply { status, body } => LoginEventView::Reply {
                status: *status,
                body: body.deep_view(),
            },
            LoginEvent::Announced => LoginEventView::Announced,
            LoginEvent::Identity { user } => LoginEventView::Identity { user: user.deep_view() },
            LoginEvent::Stored { written } => LoginEventView::Stored { written: *written },
        }
    }
}

/// Where a login stands. Each state but the last two waits for the
/// caller to do one thing and report back.
#[derive(Debug, PartialEq)]
pub enum LoginState {
    /// Nothing is known yet: the session file is to be read.
    NoSession,
    /// A cached session with a refresh token is being refreshed.
    SilentRefresh { cached: UserSession, refresh_token: String },
    /// The device flow starts: a device code is being asked for.
    DeviceFlow,
    /// The user is being shown where to give consent.
    Announcing { grant: DeviceFlowResponse },
    /// The token endpoint is being polled. `deadline` is the second at
    /// which the device code expires.
    Polling { device_code: String, deadline: i64 },
    /// A token was granted: the user's identity is being asked for.
    Identifying { token: OAuthTokenResponse },
    /// The session is being written to the session file.
    Storing { session: UserSession },
    /// The user is logged in.
    Authenticated { session: UserSession },
    /// The login was given up.
    Failed { error: LoginError },
}

/// What a [`LoginState`] holds, as mathematical values.
pub enum LoginStateView {
    NoSession,
    SilentRefresh { cached: UserSessionView, refresh_token: Seq<char> },
    DeviceFlow,
    Announcing { grant: DeviceFlowResponseView },
    Polling { device_code: Seq<char>, deadline: int },
    Identifying { token: OAuthTokenResponseView },
    Storing { session: UserSessionView },
    Authenticated { session: UserSessionView },
    Failed { error: LoginErrorView },
}

impl DeepView for LoginState {
    type V = LoginStateView;

    open spec fn deep_view(&self) -> LoginStateView {
        match self {
            LoginState::NoSession => LoginStateView::NoSession,
            LoginState::SilentRefresh { cached, refresh_token } => LoginStateView::SilentRefresh {
                cached: cached.deep_view(),
                refresh_token: refresh_token@,
            },
            LoginState::DeviceFlow => LoginStateView::DeviceFlow,
            LoginState::Announcing { grant } => LoginStateView::Announcing {
                grant: grant.deep_view(),
            },
            LoginState::Polling { device_code, deadline } => LoginStateView::Polling {
                device_code: device_code@,
                deadline: *deadline as int,
            },
            LoginState::Identifying { token } => LoginStateView::Identifying {
                token: token.deep_view(),
            },
            LoginState::Storing { session } => LoginStateView::Storing {
                session: session.deep_view(),
            },
            LoginState::Authenticated { session } => LoginStateView::Authenticated {
                session: session.deep_view(),
            },
            LoginState::Failed { error } => LoginStateView::Failed { error: error.deep_view() },
        }
    }
}

/// What the caller is to do next.
#[derive(Debug, PartialEq)]
pub enum LoginAction {
    /// Read the session file and report `SessionLoaded`.
    LoadSession,
    /// Post the form to the token endpoint and report the answer.
    RequestRefresh { refresh: TokenRequestForRefreshToken },
    /// Post the form to the authorize endpoint and report the answer.
    RequestDeviceCode { authorize: AuthRequest },
    /// Show the address to the user, try to open it in a browser, and
    /// report `Announced` whether or not that worked.
    Announce { verification_uri: String },
    /// Wait for the interval, post the form to the token endpoint and
    /// report the answer.
    Poll { wait_seconds: u64, exchange: TokenRequestForDevice },
    /// Ask the userinfo endpoint with this token and report `Identity`.
    FetchIdentity { access_token: String },
    /// Write the session to the session file and report `Stored`.
    StoreSession { session: UserSession },
    /// Hand the session to the rest of the run.
    Finish { session: UserSession },
    /// Give up.
    Abort { error: LoginError },
}

/// What a [`LoginAction`] holds, as mathematical values.
pub enum LoginActionView {
    LoadSession,
    RequestRefresh { refresh: TokenRequestForRefreshTokenView },
    RequestDeviceCode { authorize: AuthRequestView },
    Announce { verification_uri: Seq<char> },
    Poll { wait_seconds: u64, exchange: TokenRequestForDeviceView },
    FetchIdentity { access_token: Seq<char> },
    StoreSession { session: UserSessionView },
    Finish { session: UserSessionView },
    Abort { error: LoginErrorView },
}

impl DeepView for LoginAction {
    type V = LoginActionView;

    open spec fn deep_view(&self) -> LoginActionView {
        match self {
            LoginAction::LoadSession => LoginActionView::LoadSession,
            LoginAction::RequestRefresh { refresh } => LoginActionView::RequestRefresh {
                refresh: refresh.deep_view(),
            },
            LoginAction::RequestDeviceCode { authorize } => LoginActionView::RequestDeviceCode {
                authorize: authorize.deep_view(),
            },
            LoginAction::Announce { verification_uri } => LoginActionView::Announce {
                verification_uri: verification_uri@,
            },
            LoginAction::Poll { wait_seconds, exchange } => LoginActionView::Poll {
                wait_seconds: *wait_seconds,
                exchange: exchange.deep_view(),
            },
            LoginAction::FetchIdentity { access_token } => LoginActionView::FetchIdentity {
                access_token: access_token@,
            },
            LoginAction::StoreSession { session } => LoginActionView::StoreSession {
                session: session.deep_view(),
            },
            LoginAction::Finish { session } => LoginActionView::Finish {
                session: session.deep_view(),
            },
            LoginAction::Abort { error } => LoginActionView::Abort { error: error.deep_view() },
        }
    }
}

/// Whether a number of seconds can be kept as a time.
pub open spec fn fits_clock(seconds: int) -> bool {
    i64::MIN <= seconds <= i64::MAX
}

/// The second at which a token that is granted at `now` for `lifetime`
/// seconds is taken to expire: ten seconds before it does.
pub open spec fn expiry(now: int, lifetime: int) -> int {
    now + lifetime - EXPIRY_MARGIN
}

/// A text that may be missing, taken as empty where it is.
pub open spec fn text_or_empty(text: Option<Seq<char>>) -> Seq<char> {
    match text {
        Some(t) => t,
        None => Seq::empty(),
    }
}

/// The session after a refresh: the cached one with the new access token
/// and its expiry.
pub open spec fn refreshed_session(
    cached: UserSessionView,
    refresh_token: Seq<char>,
    token: OAuthTokenResponseView,
    now: int,
) -> UserSessionView {
    UserSessionView {
        refresh_token: Some(refresh_token),
        access_token: token.access_token,
        access_token_expires: expiry(now, token.expires_in),
        user_id: cached.user_id,
        user_email: cached.user_email,
        user_display_name: cached.user_display_name,
    }
}

/// The session after the device flow: the granted tokens with the user's
/// identity, as far as it is known.
pub open spec fn granted_session(
    token: OAuthTokenResponseView,
    user: FirebaseAuthUserView,
    now: int,
) -> UserSessionView {
    UserSessionView {
        refresh_token: token.refresh_token,
        access_token: token.access_token,
        access_token_expires: expiry(now, token.expires_in),
        user_id: text_or_empty(user.localId),
        user_email: text_or_empty(user.email),
        user_display_name: text_or_empty(user.displayName),
    }
}

/// The state of a login that was given up for `error`.
pub open spec fn failed(error: LoginErrorView) -> LoginStateView {
    LoginStateView::Failed { error }
}

/// After the session file was read: a cached session with a refresh
/// token is refreshed; without one, the device flow starts.
pub open spec fn on_session_loaded(cached: Option<UserSessionView>) -> LoginStateView {
    match cached {
        Some(session) => match session.refresh_token {
            Some(refresh_token) => LoginStateView::SilentRefresh { cached: session, refresh_token },
            None => LoginStateView::DeviceFlow,
        },
        None => LoginStateView::DeviceFlow,
    }
}

/// After the token endpoint answered a refresh: on 400 the device flow
/// starts, on 200 the refreshed session is stored, anything else ends the login.
pub open spec fn on_refresh_reply(
    cached: UserSessionView,
    refresh_token: Seq<char>,
    status: u16,
    body: ReplyBodyView,
    now: int,
) -> LoginStateView {
    if status == 400 {
        LoginStateView::DeviceFlow
    } else if status == 200 {
        match body {
            ReplyBodyView::Token { token } => if fits_clock(expiry(now, token.expires_in)) {
                LoginStateView::Storing {
                    session: refreshed_session(cached, refresh_token, token, now),
                }
            } else {
                failed(LoginErrorView::ClockOutOfRange)
            },
            _ => failed(LoginErrorView::UnexpectedReply { status }),
        }
    } else {
        failed(LoginErrorView::UnexpectedReply { status })
    }
}

/// After the authorize endpoint answered: on 200 the user is shown where
/// to give consent, anything else ends the login.
pub open spec fn on_authorize_reply(status: u16, body: ReplyBodyView) -> LoginStateView {
    if status == 200 {
        match body {
            ReplyBodyView::DeviceCode { grant } => LoginStateView::Announcing { grant },
            _ => failed(LoginErrorView::UnexpectedReply { status }),
        }
    } else if status == 400 {
        match body {
            ReplyBodyView::Error { error } => failed(LoginErrorView::Denied { error: error.error }),
            _ => failed(LoginErrorView::UnexpectedReply { status }),
        }
    } else {
        failed(LoginErrorView::UnexpectedReply { status })
    }
}

/// After the user was shown where to give consent: polling starts, with
/// the deadline that the device code's lifetime sets.
pub open spec fn on_announced(grant: DeviceFlowResponseView, now: int) -> LoginStateView {
    if fits_clock(now + grant.expires_in) {
        LoginStateView::Polling { device_code: grant.device_code, deadline: now + grant.expires_in }
    } else {
        failed(LoginErrorView::ClockOutOfRange)
    }
}

/// After the token endpoint answered a poll: on 200 polling ends with
/// the token; on 400 with an error code other than `authorization_pending`
/// it ends with that error; while the authorisation is pending it ends
/// as expired once the deadline has passed, and goes on until then;
/// anything else ends the login.
pub open spec fn on_poll_reply(
    device_code: Seq<char>,
    deadline: int,
    status: u16,
    body: ReplyBodyView,
    now: int,
) -> LoginStateView {
    if status == 200 {
        match body {
            ReplyBodyView::Token { token } => LoginStateView::Identifying { token },
            _ => failed(LoginErrorView::UnexpectedReply { status }),
        }
    } else if status == 400 {
        match body {
            ReplyBodyView::Error { error } => if error.error != AUTHORIZATION_PENDING@ {
                failed(LoginErrorView::Denied { error: error.error })
            } else if now > deadline {
                failed(LoginErrorView::Expired)
            } else {
                LoginStateView::Polling { device_code, deadline }
            },
            _ => failed(LoginErrorView::UnexpectedReply { status }),
        }
    } else {
        failed(LoginErrorView::UnexpectedReply { status })
    }
}

/// After the userinfo endpoint answered: the session is put together and
/// stored, unless the identity could not be read.
pub open spec fn on_identity(
    token: OAuthTokenResponseView,
    user: Option<FirebaseAuthUserView>,
    now: int,
) -> LoginStateView {
    match user {
        Some(user) => if fits_clock(expiry(now, token.expires_in)) {
            LoginStateView::Storing { session: granted_session(token, user, now) }
        } else {
            failed(LoginErrorView::ClockOutOfRange)
        },
        None => failed(LoginErrorView::IdentityUnreadable),
    }
}

/// The state that follows `state` when `event` is reported at the second
/// `now`. An event that the state was not waiting for ends the login; the
/// two final states stay as they are.
pub open spec fn step(state: LoginStateView, event: LoginEventView, now: int) -> LoginStateView {
    match state {
        LoginStateView::NoSession => match event {
            LoginEventView::SessionLoaded { cached } => on_session_loaded(cached),
            _ => failed(LoginErrorView::OutOfTurn),
        },
        LoginStateView::SilentRefresh { cached, refresh_token } => match event {
            LoginEventView::Unreachable => failed(LoginErrorView::Unreachable),
            LoginEventView::Reply { status, body } => on_refresh_reply(
                cached,
                refresh_token,
                status,
                body,
                now,
            ),
            _ => failed(LoginErrorView::OutOfTurn),
        },
        LoginStateView::DeviceFlow => match event {
            LoginEventView::Unreachable => failed(LoginErrorView::Unreachable),
            LoginEventView::Reply { status, body } => on_authorize_reply(status, body),
            _ => failed(LoginErrorView::OutOfTurn),
        },
        LoginStateView::Announcing { grant } => match event {
            LoginEventView::Announced => on_announced(grant, now),
            _ => failed(LoginErrorView::OutOfTurn),
        },
        LoginStateView::Polling { device_code, deadline } => match event {
            LoginEventView::Unreachable => failed(LoginErrorView::Unreachable),
            LoginEventView::Reply { status, body } => on_poll_reply(
                device_code,
                deadline,
                status,
                body,
                now,
            ),
            _ => failed(LoginErrorView::OutOfTurn),
        },
        LoginStateView::Identifying { token } => match event {
            LoginEventView::Unreachable => failed(LoginErrorView::Unreachable),
            LoginEventView::Identity { user } => on_identity(token, user, now),
            _ => failed(LoginErrorView::OutOfTurn),
        },
        LoginStateView::Storing { session } => match event {
            LoginEventView::Stored { written } => if written {
                LoginStateView::Authenticated { session }
            } else {
                failed(LoginErrorView::StoreFailed)
            },
            _ => failed(LoginErrorView::OutOfTurn),
        },
        LoginStateView::Authenticated { session } => state,
        LoginStateView::Failed { error } => state,
    }
}

/// What the caller is to do in a state.
pub open spec fn action_of(state: LoginStateView) -> LoginActionView {
    match state {
        LoginStateView::NoSession => LoginActionView::LoadSession,
        LoginStateView::SilentRefresh { cached, refresh_token } => LoginActionView::RequestRefresh {
            refresh: TokenRequestForRefreshTokenView {
                refresh_token,
                client_id: OAUTH_CLIENT_ID@,
                grant_type: REFRESH_GRANT@,
            },
        },
        LoginStateView::DeviceFlow => LoginActionView::RequestDeviceCode {
            authorize: AuthRequestView {
                client_id: OAUTH_CLIENT_ID@,
                client_name: CLIENT_NAME@,
                response_type: RESPONSE_TYPE@,
                scope: SCOPE@,
            },
        },
        LoginStateView::Announcing { grant } => LoginActionView::Announce {
            verification_uri: grant.verification_uri,
        },
        LoginStateView::Polling { device_code, deadline } => LoginActionView::Poll {
            wait_seconds: POLL_INTERVAL,
            exchange: TokenRequestForDeviceView {
                device_code,
                client_id: OAUTH_CLIENT_ID@,
                grant_type: DEVICE_GRANT@,
            },
        },
        LoginStateView::Identifying { token } => LoginActionView::FetchIdentity {
            access_token: token.access_token,
        },
        LoginStateView::Storing { session } => LoginActionView::StoreSession { session },
        LoginStateView::Authenticated { session } => LoginActionView::Finish { session },
        LoginStateView::Failed { error } => LoginActionView::Abort { error },
    }
}

/// The state of a login that was given up for `error`.
fn fail(error: LoginError) -> (state: LoginState)
    ensures
        state.deep_view() == failed(error.deep_view()),
{
    LoginState::Failed { error }
}

/// The second at which a token granted at `now` for `lifetime` seconds is
/// taken to expire, where that fits the clock.
pub fn expires_at(now: i64, lifetime: i64) -> (at: Option<i64>)
    ensures
        at is Some <==> fits_clock(expiry(now as int, lifetime as int)),
        at matches Some(second) ==> second == expiry(now as int, lifetime as int),
{
    let second: i128 = now as i128 + lifetime as i128 - EXPIRY_MARGIN as i128;
    if second < i64::MIN as i128 || second > i64::MAX as i128 {
        None
    } else {
        Some(second as i64)
    }
}

/// A text that may be missing, taken as empty where it is.
fn or_empty(text: Option<String>) -> (t: String)
    ensures
        t@ == text_or_empty(text.deep_view()),
{
    match text {
        Some(t) => t,
        None => String::new(),
    }
}

fn session_loaded(cached: Option<UserSession>) -> (next: LoginState)
    ensures
        next.deep_view() == on_session_loaded(cached.deep_view()),
{
    match cached {
        Some(session) => {
            let refresh_token = match &session.refresh_token {
                Some(token) => Some(token.clone()),
                None => None,
            };
            match refresh_token {
                Some(refresh_token) => LoginState::SilentRefresh { cached: session, refresh_token },
                None => LoginState::DeviceFlow,
            }
        },
        None => LoginState::DeviceFlow,
    }
}

fn refresh_reply(
    cached: UserSession,
    refresh_token: String,
    status: u16,
    body: ReplyBody,
    now: i64,
) -> (next: LoginState)
    ensures
        next.deep_view() == on_refresh_reply(
            cached.deep_view(),
            refresh_token@,
            status,
            body.deep_view(),
            now as int,
        ),
{
    if status == 400 {
        LoginState::DeviceFlow
    } else if status == 200 {
        match body {
            ReplyBody::Token { token } => match expires_at(now, token.expires_in) {
                Some(second) => LoginState::Storing {
                    session: UserSession {
                        refresh_token: Some(refresh_token),
                        access_token: token.access_token,
                        access_token_expires: second,
                        user_id: cached.user_id,
                        user_email: cached.user_email,
                        user_display_name: cached.user_display_name,
                    },
                },
                None => fail(LoginError::ClockOutOfRange),
            },
            _ => fail(LoginError::UnexpectedReply { status }),
        }
    } else {
        fail(LoginError::UnexpectedReply { status })
    }
}

fn authorize_reply(status: u16, body: ReplyBody) -> (next: LoginState)
    ensures
        next.deep_view() == on_authorize_reply(status, body.deep_view()),
{
    if status == 200 {
        match body {
            ReplyBody::DeviceCode { grant } => LoginState::Announcing { grant },
            _ => fail(LoginError::UnexpectedReply { status }),
        }
    } else if status == 400 {
        match body {
            ReplyBody::Error { error } => fail(LoginError::Denied { error: error.error }),
            _ => fail(LoginError::UnexpectedReply { status }),
        }
    } else {
        fail(LoginError::UnexpectedReply { status })
    }
}

fn announced(grant: DeviceFlowResponse, now: i64) -> (next: LoginState)
    ensures
        next.deep_view() == on_announced(grant.deep_view(), now as int),
{
    let deadline: i128 = now as i128 + grant.expires_in as i128;
    if deadline < i64::MIN as i128 || deadline > i64::MAX as i128 {
        fail(LoginError::ClockOutOfRange)
    } else {
        LoginState::Polling { device_code: grant.device_code, deadline: deadline as i64 }
    }
}

fn poll_reply(
    device_code: String,
    deadline: i64,
    status: u16,
    body: ReplyBody,
    now: i64,
) -> (next: LoginState)
    ensures
        next.deep_view() == on_poll_reply(
            device_code@,
            deadline as int,
            status,
            body.deep_view(),
            now as int,
        ),
{
    if status == 200 {
        match body {
            ReplyBody::Token { token } => LoginState::Identifying { token },
            _ => fail(LoginError::UnexpectedReply { status }),
        }
    } else if status == 400 {
        match body {
            ReplyBody::Error { error } => {
                if !text_eq(error.error.as_str(), AUTHORIZATION_PENDING) {
                    fail(LoginError::Denied { error: error.error })
                } else if now > deadline {
                    fail(LoginError::Expired)
                } else {
                    LoginState::Polling { device_code, deadline }
                }
            },
            _ => fail(LoginError::UnexpectedReply { status }),
        }
    } else {
        fail(LoginError::UnexpectedReply { status })
    }
}

fn identity(token: OAuthTokenResponse, user: Option<FirebaseAuthUser>, now: i64) -> (next:
    LoginState)
    ensures
        next.deep_view() == on_identity(token.deep_view(), user.deep_view(), now as int),
{
    match user {
        Some(user) => match expires_at(now, token.expires_in) {
            Some(second) => LoginState::Storing {
                session: UserSession {
                    refresh_token: token.refresh_token,
                    access_token: token.access_token,
                    access_token_expires: second,
                    user_id: or_empty(user.localId),
                    user_email: or_empty(user.email),
                    user_display_name: or_empty(user.displayName),
                },
            },
            None => fail(LoginError::ClockOutOfRange),
        },
        None => fail(LoginError::IdentityUnreadable),
    }
}

/// The state that follows when `event` is reported at the second `now`.
pub fn advance_at(state: LoginState, event: LoginEvent, now: i64) -> (next: LoginState)
    ensures
        next.deep_view() == step(state.deep_view(), event.deep_view(), now as int),
{
    match state {
        LoginState::NoSession => match event {
            LoginEvent::SessionLoaded { cached } => session_loaded(cached),
            _ => fail(LoginError::OutOfTurn),
        },
        LoginState::SilentRefresh { cached, refresh_token } => match event {
            LoginEvent::Unreachable => fail(LoginError::Unreachable),
            LoginEvent::Reply { status, body } => refresh_reply(
                cached,
                refresh_token,
                status,
                body,
                now,
            ),
            _ => fail(LoginError::OutOfTurn),
        },
        LoginState::DeviceFlow => match event {
            LoginEvent::Unreachable => fail(LoginError::Unreachable),
            LoginEvent::Reply { status, body } => authorize_reply(status, body),
            _ => fail(LoginError::OutOfTurn),
        },
        LoginState::Announcing { grant } => match event {
            LoginEvent::Announced => announced(grant, now),
            _ => fail(LoginError::OutOfTurn),
        },
        LoginState::Polling { device_code, deadline } => match event {
            LoginEvent::Unreachable => fail(LoginError::Unreachable),
            LoginEvent::Reply { status, body } => poll_reply(
                device_code,
                deadline,
                status,
                body,
                now,
            ),
            _ => fail(LoginError::OutOfTurn),
        },
        LoginState::Identifying { token } => match event {
            LoginEvent::Unreachable => fail(LoginError::Unreachable),
            LoginEvent::Identity { user } => identity(token, user, now),
            _ => fail(LoginError::OutOfTurn),
        },
        LoginState::Storing { session } => match event {
            LoginEvent::Stored { written } => {
                if written {
                    LoginState::Authenticated { session }
                } else {
                    fail(LoginError::StoreFailed)
                }
            },
            _ => fail(LoginError::OutOfTurn),
        },
        LoginState::Authenticated { session } => LoginState::Authenticated { session },
        LoginState::Failed { error } => LoginState::Failed { error },
    }
}

/// The state that follows when `event` is reported now. The clock is
/// read once; whatever it says, the state is the one that follows at
/// that second.
pub fn advance(state: LoginState, event: LoginEvent) -> (next: LoginState)
    ensures
        exists|now: i64| next.deep_view() == step(state.deep_view(), event.deep_view(), now as int),
{
    let now = unix_now();
    advance_at(state, event, now)
}

/// What the caller is to do in this state.
pub fn next_action(state: &LoginState) -> (action: LoginAction)
    ensures
        action.deep_view() == action_of(state.deep_view()),
{
    match state {
        LoginState::NoSession => LoginAction::LoadSession,
        LoginState::SilentRefresh { cached, refresh_token } => LoginAction::RequestRefresh {
            refresh: TokenRequestForRefreshToken {
                refresh_token: refresh_token.clone(),
                client_id: String::from_str(OAUTH_CLIENT_ID),
                grant_type: String::from_str(REFRESH_GRANT),
            },
        },
        LoginState::DeviceFlow => LoginAction::RequestDeviceCode {
            authorize: AuthRequest {
                client_id: String::from_str(OAUTH_CLIENT_ID),
                client_name: String::from_str(CLIENT_NAME),
                response_type: String::from_str(RESPONSE_TYPE),
                scope: String::from_str(SCOPE),
            },
        },
        LoginState::Announcing { grant } => LoginAction::Announce {
            verification_uri: grant.verification_uri.clone(),
        },
        LoginState::Polling { device_code, deadline } => LoginAction::Poll {
            wait_seconds: POLL_INTERVAL,
            exchange: TokenRequestForDevice {
                device_code: device_code.clone(),
                client_id: String::from_str(OAUTH_CLIENT_ID),
                grant_type: String::from_str(DEVICE_GRANT),
            },
        },
        LoginState::Identifying { token } => LoginAction::FetchIdentity {
            access_token: token.access_token.clone(),
        },
        LoginState::Storing { session } => LoginAction::StoreSession { session: session.clone() },
        LoginState::Authenticated { session } => LoginAction::Finish { session: session.clone() },
        LoginState::Failed { error } => LoginAction::Abort { error: error.clone() },
    }
}

/// What the body of an answer is to be read as.
#[derive(Debug, Clone, Copy, PartialEq, Eq, Structural)]
pub enum BodyKind {
    /// A granted token.
    Token,
    /// A device code.
    DeviceCode,
    /// An error code.
    Error,
    /// Text that is not read any further.
    Text,
}

/// What the body of an answer with this status is to be read as in a
/// state: on 200 what the state asked for, on 400 an error code, on any
/// other status, and in a state that asked nothing of an endpoint, text.
pub open spec fn body_kind(state: LoginStateView, status: u16) -> BodyKind {
    if state is SilentRefresh || state is Polling {
        if status == 200 {
            BodyKind::Token
        } else if status == 400 {
            BodyKind::Error
        } else {
            BodyKind::Text
        }
    } else if state is DeviceFlow {
        if status == 200 {
            BodyKind::DeviceCode
        } else if status == 400 {
            BodyKind::Error
        } else {
            BodyKind::Text
        }
    } else {
        BodyKind::Text
    }
}

/// Whether a body is of a kind.
pub open spec fn is_of_kind(body: ReplyBodyView, kind: BodyKind) -> bool {
    match kind {
        BodyKind::Token => body is Token,
        BodyKind::DeviceCode => body is DeviceCode,
        BodyKind::Error => body is Error,
        BodyKind::Text => body is Text,
    }
}

/// Says what the body of an answer with this status is to be read as.
pub fn expected_body(state: &LoginState, status: u16) -> (kind: BodyKind)
    ensures
        kind == body_kind(state.deep_view(), status),
{
    match state {
        LoginState::SilentRefresh { cached, refresh_token } => {
            if status == 200 {
                BodyKind::Token
            } else if status == 400 {
                BodyKind::Error
            } else {
                BodyKind::Text
            }
        },
        LoginState::Polling { device_code, deadline } => {
            if status == 200 {
                BodyKind::Token
            } else if status == 400 {
                BodyKind::Error
            } else {
                BodyKind::Text
            }
        },
        LoginState::DeviceFlow => {
            if status == 200 {
                BodyKind::DeviceCode
            } else if status == 400 {
                BodyKind::Error
            } else {
                BodyKind::Text
            }
        },
        _ => BodyKind::Text,
    }
}

/// An answer whose body is read as the state and the status call for is
/// never taken for an unexpected answer on 200 or 400: the flow goes by
/// the status alone.
pub proof fn lemma_expected_body_is_taken(
    state: LoginStateView,
    status: u16,
    body: ReplyBodyView,
    now: int,
)
    requires
        state is SilentRefresh || state is DeviceFlow || state is Polling,
        status == 200 || status == 400,
        is_of_kind(body, body_kind(state, status)),
    ensures
        step(state, LoginEventView::Reply { status, body }, now) != failed(
            LoginErrorView::UnexpectedReply { status },
        ),
{
}

/// Whether a state is final: the user is logged in, or the login was given up.
pub open spec fn is_final(state: LoginStateView) -> bool {
    state is Authenticated || state is Failed
}

/// The answer of the token endpoint that says the user has not decided yet.
pub open spec fn pending_reply() -> LoginEventView {
    LoginEventView::Reply {
        status: 400,
        body: ReplyBodyView::Error { error: ErrorResultView { error: AUTHORIZATION_PENDING@ } },
    }
}

/// Polling ends at once, and well, on a 200 answer with a token: no
/// further poll is asked for, and the next thing asked for is the user's
/// identity, with the access token that was granted.
pub proof fn lemma_poll_granted(
    device_code: Seq<char>,
    deadline: int,
    token: OAuthTokenResponseView,
    now: int,
)
    ensures
        step(
            LoginStateView::Polling { device_code, deadline },
            LoginEventView::Reply { status: 200, body: ReplyBodyView::Token { token } },
            now,
        ) == (LoginStateView::Identifying { token }),
        action_of(LoginStateView::Identifying { token }) == (LoginActionView::FetchIdentity {
            access_token: token.access_token,
        }),
{
}

/// Polling ends at once, in failure, on a 400 answer whose error code is
/// not `authorization_pending`: the login is given up with that code.
pub proof fn lemma_poll_denied(device_code: Seq<char>, deadline: int, error: Seq<char>, now: int)
    requires
        error != AUTHORIZATION_PENDING@,
    ensures
        step(
            LoginStateView::Polling { device_code, deadline },
            LoginEventView::Reply {
                status: 400,
                body: ReplyBodyView::Error { error: ErrorResultView { error } },
            },
            now,
        ) == failed(LoginErrorView::Denied { error }),
{
}

/// Polling times out: a pending answer that comes after the deadline
/// ends the login as expired. No further poll is asked for, and no
/// session is stored.
pub proof fn lemma_poll_times_out(device_code: Seq<char>, deadline: int, now: int)
    requires
        now > deadline,
    ensures
        step(LoginStateView::Polling { device_code, deadline }, pending_reply(), now) == failed(
            LoginErrorView::Expired,
        ),
        action_of(failed(LoginErrorView::Expired)) == (LoginActionView::Abort {
            error: LoginErrorView::Expired,
        }),
{
}

/// Polling goes on only while the authorisation is pending and the
/// deadline has not passed: any other answer ends it.
pub proof fn lemma_poll_goes_on(
    device_code: Seq<char>,
    deadline: int,
    event: LoginEventView,
    now: int,
)
    requires
        step(LoginStateView::Polling { device_code, deadline }, event, now) is Polling,
    ensures
        event == pending_reply(),
        now <= deadline,
        step(LoginStateView::Polling { device_code, deadline }, event, now) == (
        LoginStateView::Polling { device_code, deadline }),
{
    match event {
        LoginEventView::Reply { status, body } => {
            match body {
                ReplyBodyView::Error { error } => {
                    assert(error.error == AUTHORIZATION_PENDING@);
                    assert(error == ErrorResultView { error: AUTHORIZATION_PENDING@ });
                },
                _ => {},
            }
        },
        _ => {},
    }
}

/// The state after pending answers came at the seconds `times`, one
/// after the other.
pub open spec fn after_pending(state: LoginStateView, times: Seq<int>) -> LoginStateView
    decreases times.len(),
{
    if times.len() == 0 {
        state
    } else {
        after_pending(step(state, pending_reply(), times[0]), times.skip(1))
    }
}

/// While pending answers come up to the deadline, polling goes on as it
/// was; the first pending answer after the deadline ends the login as
/// expired, and it stays so whatever pending answers follow.
pub proof fn lemma_pending_polls(device_code: Seq<char>, deadline: int, times: Seq<int>)
    ensures
        (forall|i: int| 0 <= i < times.len() ==> times[i] <= deadline) ==> after_pending(
            LoginStateView::Polling { device_code, deadline },
            times,
        ) == (LoginStateView::Polling { device_code, deadline }),
        (exists|i: int| 0 <= i < times.len() && times[i] > deadline) ==> after_pending(
            LoginStateView::Polling { device_code, deadline },
            times,
        ) == failed(LoginErrorView::Expired),
    decreases times.len(),
{
    let polling = LoginStateView::Polling { device_code, deadline };
    if times.len() > 0 {
        let rest = times.skip(1);
        if times[0] <= deadline {
            lemma_pending_polls(device_code, deadline, rest);
            if exists|i: int| 0 <= i < times.len() && times[i] > deadline {
                let i = choose|i: int| 0 <= i < times.len() && times[i] > deadline;
                assert(rest[i - 1] == times[i]);
            }
            if forall|i: int| 0 <= i < times.len() ==> times[i] <= deadline {
                assert forall|i: int| 0 <= i < rest.len() implies rest[i] <= deadline by {
                    assert(rest[i] == times[i + 1]);
                }
            }
        } else {
            lemma_expired_stays(rest);
        }
    }
}

/// An expired login stays expired, whatever pending answers follow.
pub proof fn lemma_expired_stays(times: Seq<int>)
    ensures
        after_pending(failed(LoginErrorView::Expired), times) == failed(LoginErrorView::Expired),
    decreases times.len(),
{
    if times.len() > 0 {
        lemma_expired_stays(times.skip(1));
    }
}

/// A login by the device flow, from the poll that is granted to the end:
/// after any number of pending answers within the deadline, a 200 answer
/// with a token ends polling; the identity is asked for once, with the
/// access token that was granted; the session that is stored and handed
/// out carries the granted tokens and that identity. This holds where
/// the token's expiry fits the clock.
pub proof fn lemma_granted_login(
    device_code: Seq<char>,
    deadline: int,
    times: Seq<int>,
    token: OAuthTokenResponseView,
    user: FirebaseAuthUserView,
    granted_at: int,
    identified_at: int,
    stored_at: int,
)
    requires
        forall|i: int| 0 <= i < times.len() ==> times[i] <= deadline,
        fits_clock(expiry(identified_at, token.expires_in)),
    ensures
        ({
            let polling = after_pending(LoginStateView::Polling { device_code, deadline }, times);
            let identifying = step(
                polling,
                LoginEventView::Reply { status: 200, body: ReplyBodyView::Token { token } },
                granted_at,
            );
            let storing = step(
                identifying,
                LoginEventView::Identity { user: Some(user) },
                identified_at,
            );
            let done = step(storing, LoginEventView::Stored { written: true }, stored_at);
            let session = granted_session(token, user, identified_at);
            &&& identifying == (LoginStateView::Identifying { token })
            &&& action_of(identifying) == (LoginActionView::FetchIdentity {
                access_token: token.access_token,
            })
            &&& storing == (LoginStateView::Storing { session })
            &&& action_of(storing) == (LoginActionView::StoreSession { session })
            &&& done == (LoginStateView::Authenticated { session })
            &&& action_of(done) == (LoginActionView::Finish { session })
            &&& session.access_token == token.access_token
            &&& session.refresh_token == token.refresh_token
        }),
{
    lemma_pending_polls(device_code, deadline, times);
}

/// Where the expiry of a granted token does not fit the clock, the login
/// is given up when the identity comes, and no session is stored.
pub proof fn lemma_granted_out_of_range(
    token: OAuthTokenResponseView,
    user: FirebaseAuthUserView,
    now: int,
)
    requires
        !fits_clock(expiry(now, token.expires_in)),
    ensures
        step(
            LoginStateView::Identifying { token },
            LoginEventView::Identity { user: Some(user) },
            now,
        ) == failed(LoginErrorView::ClockOutOfRange),
{
}

/// A poll is asked for in the polling state only.
pub proof fn lemma_poll_only_while_polling(state: LoginStateView)
    ensures
        action_of(state) is Poll <==> state is Polling,
{
}

/// A login ends logged in only by way of the session file: the state
/// before was storing that session, and the file was written.
pub proof fn lemma_session_is_stored(state: LoginStateView, event: LoginEventView, now: int)
    requires
        !is_final(state),
        step(state, event, now) is Authenticated,
    ensures
        state is Storing,
        event == (LoginEventView::Stored { written: true }),
        step(state, event, now) == (LoginStateView::Authenticated { session: state->Storing_session }),
{
}

/// The two final states stay as they are, whatever is reported.
pub proof fn lemma_final_states_stay(state: LoginStateView, event: LoginEventView, now: int)
    requires
        is_final(state),
    ensures
        step(state, event, now) == state,
{
}

} // verus!
