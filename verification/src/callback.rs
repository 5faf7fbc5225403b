//! Finishing the OAuth handshake: exchange the code, check the allowlist, mint a
//! session. Each step says what to do next and takes what came of it.

use vstd::prelude::*;

use crate::config::{resolve, resolved_text, OAuthConfig, OAuthModel};
use crate::lark::{
    addresses, exchange_code, fetch_user, read_token, read_user, token_in, token_request, user_in,
    user_request, TokenRequest, TokenRequestModel, UserData, UserModel, UserRequest,
    UserRequestModel,
};
use crate::login::over_tls;
use crate::reply::{
    handshake_removed, session_cookie, text_reply, Body, BodyModel, CookieChange, Handshake,
    HandshakeModel, Reply, ReplyModel, Session, SessionModel,
};
use crate::session::SESSION_TTL_SECS;
use crate::text::{copy_text, holds, maybe_text, same, starts_with, texts};
use crate::tree::{or_empty, text_or_empty};

verus! {

/// The query of a callback request.
pub struct CallbackQuery {
    /// Authorization code from Lark (present on success).
    pub code: Option<String>,
    /// Opaque state echoed back; must match the login handshake.
    pub state: Option<String>,
    /// Error code from Lark (present when the user denied access).
    pub error: Option<String>,
}

/// The handshake cookie of a callback request.
pub enum LoginCookie {
    /// None came, or one that this server did not sign.
    Missing,
    /// One came that holds no handshake.
    Malformed,
    Valid(Handshake),
}

/// A callback whose code is being traded for a token.
pub struct PendingExchange {
    pub cfg: OAuthConfig,
    /// The address that login presented.
    pub redirect_uri: String,
    pub request: TokenRequest,
}

/// A callback whose account is being looked up.
pub struct PendingUser {
    pub cfg: OAuthConfig,
    /// The address that login presented.
    pub redirect_uri: String,
    pub request: UserRequest,
}

/// What a callback does next.
pub enum CallbackStep {
    /// Answer.
    Finish(Reply),
    /// Send the token request and go on with [`after_exchange`].
    Exchange(PendingExchange),
    /// Send the user request and go on with [`after_user`].
    FetchUser(PendingUser),
}

/// The mathematical form of a [`CallbackQuery`].
#[verifier::ext_equal]
pub struct QueryModel {
    pub code: Option<Seq<char>>,
    pub state: Option<Seq<char>>,
    pub error: Option<Seq<char>>,
}

/// The mathematical form of a [`LoginCookie`].
#[verifier::ext_equal]
pub enum LoginCookieModel {
    Missing,
    Malformed,
    Valid(HandshakeModel),
}

/// The mathematical form of a [`PendingExchange`].
#[verifier::ext_equal]
pub struct ExchangeModel {
    pub cfg: OAuthModel,
    pub redirect_uri: Seq<char>,
    pub request: TokenRequestModel,
}

/// The mathematical form of a [`PendingUser`].
#[verifier::ext_equal]
pub struct PendingUserModel {
    pub cfg: OAuthModel,
    pub redirect_uri: Seq<char>,
    pub request: UserRequestModel,
}

/// The mathematical form of a [`CallbackStep`].
#[verifier::ext_equal]
pub enum StepModel {
    Finish(ReplyModel),
    Exchange(ExchangeModel),
    FetchUser(PendingUserModel),
}

impl View for CallbackQuery {
    type V = QueryModel;

    open spec fn view(&self) -> QueryModel {
        QueryModel {
            code: maybe_text(self.code),
            state: maybe_text(self.state),
            error: maybe_text(self.error),
        }
    }
}

impl View for LoginCookie {
    type V = LoginCookieModel;

    open spec fn view(&self) -> LoginCookieModel {
        match self {
            LoginCookie::Missing => LoginCookieModel::Missing,
            LoginCookie::Malformed => LoginCookieModel::Malformed,
            LoginCookie::Valid(h) => LoginCookieModel::Valid(h@),
        }
    }
}

impl View for PendingExchange {
    type V = ExchangeModel;

    open spec fn view(&self) -> ExchangeModel {
        ExchangeModel {
            cfg: self.cfg@,
            redirect_uri: self.redirect_uri@,
            request: self.request@,
        }
    }
}

impl View for PendingUser {
    type V = PendingUserModel;

    open spec fn view(&self) -> PendingUserModel {
        PendingUserModel {
            cfg: self.cfg@,
            redirect_uri: self.redirect_uri@,
            request: self.request@,
        }
    }
}

impl View for CallbackStep {
    type V = StepModel;

    open spec fn view(&self) -> StepModel {
        match self {
            CallbackStep::Finish(r) => StepModel::Finish(r@),
            CallbackStep::Exchange(p) => StepModel::Exchange(p@),
            CallbackStep::FetchUser(p) => StepModel::FetchUser(p@),
        }
    }
}

/// A status with a text that ends the handshake.
pub open spec fn handshake_over(status: u16, text: Seq<char>) -> ReplyModel {
    ReplyModel { cookies: seq![handshake_removed()], body: BodyModel::Text(status, text) }
}

fn refuse(status: u16, text: &str) -> (r: Reply)
    ensures
        r@ == handshake_over(status, text@),
{
    Reply::with_change(CookieChange::end_handshake(), Body::Text(status, text.to_owned()))
}

// ---- the request arrives ----------------------------------------------------

/// What a callback request leads to, with the settings that hold when it arrives.
pub open spec fn callback_step(
    cookie: LoginCookieModel,
    q: QueryModel,
    config: Option<OAuthModel>,
) -> StepModel {
    match cookie {
        LoginCookieModel::Missing => StepModel::Finish(
            text_reply(400, "login state missing or expired"@),
        ),
        LoginCookieModel::Malformed => StepModel::Finish(handshake_over(400, "bad login state"@)),
        LoginCookieModel::Valid(hs) => if q.error is Some {
            StepModel::Finish(handshake_over(400, "Lark error: "@ + q.error->0))
        } else if q.code is None || q.state is None {
            StepModel::Finish(handshake_over(400, "missing code or state"@))
        } else if q.state->0 != hs.state {
            StepModel::Finish(handshake_over(400, "state mismatch"@))
        } else {
            match config {
                None => StepModel::Finish(handshake_over(400, "Lark OAuth is not configured"@)),
                Some(cfg) => StepModel::Exchange(
                    ExchangeModel {
                        cfg,
                        redirect_uri: hs.redirect_uri,
                        request: token_request(cfg, q.code->0, hs.verifier, hs.redirect_uri),
                    },
                ),
            }
        },
    }
}

/// What settings that may be absent say.
pub open spec fn maybe_config(cfg: Option<OAuthConfig>) -> Option<OAuthModel> {
    match cfg {
        Some(cfg) => Some(cfg@),
        None => None,
    }
}

/// What a callback request leads to, given the settings.
pub fn callback_with(cookie: LoginCookie, q: CallbackQuery, cfg: Option<OAuthConfig>) -> (r:
    CallbackStep)
    ensures
        r@ == callback_step(cookie@, q@, maybe_config(cfg)),
{
    let hs = match cookie {
        LoginCookie::Missing => {
            return CallbackStep::Finish(Reply::text(400, "login state missing or expired"));
        },
        LoginCookie::Malformed => {
            return CallbackStep::Finish(refuse(400, "bad login state"));
        },
        LoginCookie::Valid(hs) => hs,
    };
    if let Some(err) = q.error {
        let mut text = "Lark error: ".to_owned();
        text.append(err.as_str());
        return CallbackStep::Finish(refuse(400, text.as_str()));
    }
    let (code, state) = match (q.code, q.state) {
        (Some(code), Some(state)) => (code, state),
        _ => {
            return CallbackStep::Finish(refuse(400, "missing code or state"));
        },
    };
    if !same(state.as_str(), hs.state.as_str()) {
        return CallbackStep::Finish(refuse(400, "state mismatch"));
    }
    match cfg {
        None => CallbackStep::Finish(refuse(400, "Lark OAuth is not configured")),
        Some(cfg) => {
            let request = exchange_code(
                &cfg,
                code.as_str(),
                hs.verifier.as_str(),
                hs.redirect_uri.as_str(),
            );
            CallbackStep::Exchange(PendingExchange { cfg, redirect_uri: hs.redirect_uri, request })
        },
    }
}

/// `GET /auth/callback`: exchange the code, check the allowlist, mint a session.
/// This is its first step, on the request's handshake cookie and query and the
/// live configuration.
pub fn callback(cookie: LoginCookie, q: CallbackQuery, config_toml: &str) -> (r: CallbackStep)
    ensures
        r@ == callback_step(cookie@, q@, resolved_text(config_toml@)),
{
    let cfg = resolve(config_toml);
    callback_with(cookie, q, cfg)
}

// ---- the token comes back ---------------------------------------------------

/// What a token, or none, leads to.
pub open spec fn token_step(p: ExchangeModel, token: Option<Seq<char>>) -> StepModel {
    match token {
        None => StepModel::Finish(handshake_over(502, "token exchange failed"@)),
        Some(token) => StepModel::FetchUser(
            PendingUserModel {
                cfg: p.cfg,
                redirect_uri: p.redirect_uri,
                request: user_request(p.cfg, token),
            },
        ),
    }
}

/// The token that came back: `None` where no reply did, or one without a token.
pub open spec fn token_received(body: Option<Seq<u8>>) -> Option<Seq<char>> {
    match body {
        None => None,
        Some(b) => match token_in(b) {
            Ok(token) => Some(token),
            Err(_) => None,
        },
    }
}

/// The bytes of a reply that may not have come.
pub open spec fn maybe_bytes(body: Option<&[u8]>) -> Option<Seq<u8>> {
    match body {
        Some(b) => Some(b@),
        None => None,
    }
}

/// Goes on with a token, or ends where there is none.
pub fn after_token(p: PendingExchange, token: Option<String>) -> (r: CallbackStep)
    ensures
        r@ == token_step(p@, maybe_text(token)),
{
    match token {
        None => CallbackStep::Finish(refuse(502, "token exchange failed")),
        Some(token) => {
            let request = fetch_user(&p.cfg, token.as_str());
            CallbackStep::FetchUser(
                PendingUser { cfg: p.cfg, redirect_uri: p.redirect_uri, request },
            )
        },
    }
}

/// Goes on with the reply to the token request; `None` where none came.
pub fn after_exchange(p: PendingExchange, body: Option<&[u8]>) -> (r: CallbackStep)
    ensures
        r@ == token_step(p@, token_received(maybe_bytes(body))),
{
    let token = match body {
        None => None,
        Some(b) => match read_token(b) {
            Ok(token) => Some(token),
            Err(_) => None,
        },
    };
    after_token(p, token)
}

// ---- the account comes back -------------------------------------------------

/// Whether an account may sign in: an empty allowlist lets everyone in, otherwise
/// one of its addresses, or its open id as it stands, must be listed.
pub open spec fn may_sign_in(admins: Seq<Seq<char>>, user: UserModel) -> bool {
    ||| admins.len() == 0
    ||| user.open_id matches Some(id) && admins.contains(id)
    ||| exists|i: int| 0 <= i < addresses(user).len() && admins.contains(#[trigger] addresses(user)[i])
}

/// How a session names an account: by its first address, else by its open id.
pub open spec fn identity(user: UserModel) -> Seq<char> {
    if addresses(user).len() > 0 {
        addresses(user)[0]
    } else {
        text_or_empty(user.open_id)
    }
}

/// The session of an account that signs in now.
pub open spec fn minted(user: UserModel, now: u64) -> SessionModel {
    SessionModel {
        email: identity(user),
        name: text_or_empty(user.name),
        exp: (now + SESSION_TTL_SECS) as u64,
    }
}

/// The answer to an account, or to none.
pub open spec fn sign_in_reply(p: PendingUserModel, user: Option<UserModel>, now: u64) -> ReplyModel {
    match user {
        None => handshake_over(502, "could not fetch Lark user info"@),
        Some(user) => if may_sign_in(p.cfg.admins, user) {
            ReplyModel {
                cookies: seq![
                    handshake_removed(),
                    session_cookie(minted(user, now), over_tls(p.redirect_uri)),
                ],
                body: BodyModel::Redirect("/"@),
            }
        } else {
            handshake_over(403, "This Lark account is not allowed to access the console."@)
        },
    }
}

/// The account that came back: `None` where no reply did, or one without one.
pub open spec fn user_received(body: Option<Seq<u8>>) -> Option<UserModel> {
    match body {
        None => None,
        Some(b) => match user_in(b) {
            Ok(user) => Some(user),
            Err(_) => None,
        },
    }
}

/// What an account that may be absent says.
pub open spec fn maybe_user(user: Option<UserData>) -> Option<UserModel> {
    match user {
        Some(u) => Some(u@),
        None => None,
    }
}

/// Whether an account may sign in.
pub fn is_allowed(admins: &Vec<String>, user: &UserData) -> (r: bool)
    ensures
        r == may_sign_in(texts(admins@), user@),
{
    if admins.is_empty() {
        return true;
    }
    if let Some(id) = &user.open_id {
        if holds(admins, id.as_str()) {
            return true;
        }
    }
    let emails = user.emails();
    let mut i: usize = 0;
    while i < emails.len()
        invariant
            i <= emails.len(),
            texts(emails@) == addresses(user@),
            forall|k: int|
                0 <= k < i ==> !texts(admins@).contains(#[trigger] addresses(user@)[k]),
        decreases emails.len() - i,
    {
        assert(addresses(user@)[i as int] == emails@[i as int]@);
        if holds(admins, emails[i].as_str()) {
            return true;
        }
        i = i + 1;
    }
    assert(addresses(user@).len() == emails@.len());
    false
}

/// How a session names an account.
fn identity_of(user: &UserData) -> (r: String)
    ensures
        r@ == identity(user@),
{
    let emails = user.emails();
    assert(addresses(user@).len() == emails@.len());
    if !emails.is_empty() {
        assert(addresses(user@)[0] == emails@[0]@);
        return emails[0].clone();
    }
    match &user.open_id {
        Some(id) => id.clone(),
        None => String::new(),
    }
}

/// What an operator should hear about an account that came back.
pub enum SignInNotice {
    /// Nothing.
    Quiet,
    /// There is no allowlist: this account signs in, as any would.
    AnyoneMaySignIn { identity: String },
    /// The account is refused, and has no address that could be listed.
    NoAddress { open_id: Option<String> },
    /// The account is refused: none of its addresses is listed.
    NotListed { addresses: Vec<String>, open_id: Option<String> },
}

/// The mathematical form of a [`SignInNotice`].
#[verifier::ext_equal]
pub enum NoticeModel {
    Quiet,
    AnyoneMaySignIn { identity: Seq<char> },
    NoAddress { open_id: Option<Seq<char>> },
    NotListed { addresses: Seq<Seq<char>>, open_id: Option<Seq<char>> },
}

impl View for SignInNotice {
    type V = NoticeModel;

    open spec fn view(&self) -> NoticeModel {
        match self {
            SignInNotice::Quiet => NoticeModel::Quiet,
            SignInNotice::AnyoneMaySignIn { identity } => NoticeModel::AnyoneMaySignIn {
                identity: identity@,
            },
            SignInNotice::NoAddress { open_id } => NoticeModel::NoAddress {
                open_id: maybe_text(*open_id),
            },
            SignInNotice::NotListed { addresses, open_id } => NoticeModel::NotListed {
                addresses: texts(addresses@),
                open_id: maybe_text(*open_id),
            },
        }
    }
}

/// What an operator should hear about an account that came back: that there is no
/// allowlist, or why the account is refused.
pub open spec fn notice(admins: Seq<Seq<char>>, user: UserModel) -> NoticeModel {
    if admins.len() == 0 {
        NoticeModel::AnyoneMaySignIn { identity: identity(user) }
    } else if may_sign_in(admins, user) {
        NoticeModel::Quiet
    } else if addresses(user).len() == 0 {
        NoticeModel::NoAddress { open_id: user.open_id }
    } else {
        NoticeModel::NotListed { addresses: addresses(user), open_id: user.open_id }
    }
}

/// What an operator should hear about an account that came back.
pub fn sign_in_notice(admins: &Vec<String>, user: &UserData) -> (r: SignInNotice)
    ensures
        r@ == notice(texts(admins@), user@),
{
    if admins.is_empty() {
        return SignInNotice::AnyoneMaySignIn { identity: identity_of(user) };
    }
    if is_allowed(admins, user) {
        return SignInNotice::Quiet;
    }
    let open_id = copy_text(&user.open_id);
    let emails = user.emails();
    assert(addresses(user@).len() == emails@.len());
    if emails.is_empty() {
        SignInNotice::NoAddress { open_id }
    } else {
        SignInNotice::NotListed { addresses: emails, open_id }
    }
}

/// Answers an account, or none: a session for one that may sign in.
pub fn sign_in(p: PendingUser, user: Option<UserData>, now: u64) -> (r: Reply)
    requires
        now + SESSION_TTL_SECS <= u64::MAX,
    ensures
        r@ == sign_in_reply(p@, maybe_user(user), now),
{
    let user = match user {
        Some(user) => user,
        None => {
            return refuse(502, "could not fetch Lark user info");
        },
    };
    if !is_allowed(&p.cfg.admins, &user) {
        return refuse(403, "This Lark account is not allowed to access the console.");
    }
    let email = identity_of(&user);
    let session = Session { email, name: or_empty(user.name), exp: now + SESSION_TTL_SECS };
    let secure = starts_with(p.redirect_uri.as_str(), "https://");
    let ghost minted_session = session@;
    let mut cookies: Vec<CookieChange> = Vec::new();
    cookies.push(CookieChange::end_handshake());
    cookies.push(CookieChange::start_session(session, secure));
    let r = Reply { cookies, body: Body::Redirect("/".to_owned()) };
    assert(r@.cookies =~= seq![handshake_removed(), session_cookie(minted_session, secure)]);
    r
}

/// Ends with the reply to the user request; `None` where none came. `now` is the
/// Unix time.
pub fn after_user(p: PendingUser, body: Option<&[u8]>, now: u64) -> (r: Reply)
    requires
        now + SESSION_TTL_SECS <= u64::MAX,
    ensures
        r@ == sign_in_reply(p@, user_received(maybe_bytes(body)), now),
{
    let user = match body {
        None => None,
        Some(b) => match read_user(b) {
            Ok(user) => Some(user),
            Err(_) => None,
        },
    };
    sign_in(p, user, now)
}

} // verus!
