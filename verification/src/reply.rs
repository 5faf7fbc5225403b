//! What a handler answers: cookie changes and a response, as plain values.

use vstd::prelude::*;

verus! {

/// The cookie that carries the session.
pub const SESSION_COOKIE: &'static str = "lk_session";

/// The cookie that carries the login handshake.
pub const OAUTH_COOKIE: &'static str = "lk_oauth";

/// Where the session cookie is sent.
pub const SESSION_PATH: &'static str = "/";

/// Where the handshake cookie is sent.
pub const OAUTH_PATH: &'static str = "/auth";

/// A signed-in console user.
pub struct Session {
    pub email: String,
    pub name: String,
    /// The last second, in Unix time, at which the session counts.
    pub exp: u64,
}

/// What login leaves for the callback.
pub struct Handshake {
    pub state: String,
    pub verifier: String,
    /// Pinned so login and callback present Lark the identical redirect_uri.
    pub redirect_uri: String,
}

/// The payload of a cookie.
pub enum Claims {
    Login(Handshake),
    SignedIn(Session),
}

/// On which cross-site requests a browser sends a cookie.
#[derive(Debug, PartialEq, Eq, Structural, Clone, Copy)]
pub enum SameSite {
    Strict,
    Lax,
}

/// A cookie to set, signed.
pub struct SetCookie {
    pub name: &'static str,
    pub claims: Claims,
    pub path: &'static str,
    pub http_only: bool,
    pub same_site: SameSite,
    pub secure: bool,
}

/// A change to the browser's cookies.
pub enum CookieChange {
    Store(SetCookie),
    Remove { name: &'static str, path: &'static str },
}

/// The response proper.
pub enum Body {
    /// See other: go to this address.
    Redirect(String),
    /// A status with a text.
    Text(u16, String),
    /// A bare status.
    Empty(u16),
}

/// What a handler answers.
pub struct Reply {
    pub cookies: Vec<CookieChange>,
    pub body: Body,
}

/// The mathematical form of a [`Session`].
#[verifier::ext_equal]
pub struct SessionModel {
    pub email: Seq<char>,
    pub name: Seq<char>,
    pub exp: u64,
}

/// The mathematical form of a [`Handshake`].
#[verifier::ext_equal]
pub struct HandshakeModel {
    pub state: Seq<char>,
    pub verifier: Seq<char>,
    pub redirect_uri: Seq<char>,
}

/// The mathematical form of [`Claims`].
#[verifier::ext_equal]
pub enum ClaimsModel {
    Login(HandshakeModel),
    SignedIn(SessionModel),
}

/// The mathematical form of a [`CookieChange`].
#[verifier::ext_equal]
pub enum CookieModel {
    Store {
        name: Seq<char>,
        claims: ClaimsModel,
        path: Seq<char>,
        http_only: bool,
        same_site: SameSite,
        secure: bool,
    },
    Remove { name: Seq<char>, path: Seq<char> },
}

/// The mathematical form of a [`Body`].
#[verifier::ext_equal]
pub enum BodyModel {
    Redirect(Seq<char>),
    Text(u16, Seq<char>),
    Empty(u16),
}

/// The mathematical form of a [`Reply`].
#[verifier::ext_equal]
pub struct ReplyModel {
    pub cookies: Seq<CookieModel>,
    pub body: BodyModel,
}

impl View for Session {
    type V = SessionModel;

    open spec fn view(&self) -> SessionModel {
        SessionModel { email: self.email@, name: self.name@, exp: self.exp }
    }
}

impl View for Handshake {
    type V = HandshakeModel;

    open spec fn view(&self) -> HandshakeModel {
        HandshakeModel {
            state: self.state@,
            verifier: self.verifier@,
            redirect_uri: self.redirect_uri@,
        }
    }
}

impl View for Claims {
    type V = ClaimsModel;

    open spec fn view(&self) -> ClaimsModel {
        match self {
            Claims::Login(h) => ClaimsModel::Login(h@),
            Claims::SignedIn(s) => ClaimsModel::SignedIn(s@),
        }
    }
}

impl View for CookieChange {
    type V = CookieModel;

    open spec fn view(&self) -> CookieModel {
        match self {
            CookieChange::Store(c) => CookieModel::Store {
                name: c.name@,
                claims: c.claims@,
                path: c.path@,
                http_only: c.http_only,
                same_site: c.same_site,
                secure: c.secure,
            },
            CookieChange::Remove { name, path } => CookieModel::Remove { name: name@, path: path@ },
        }
    }
}

impl View for Body {
    type V = BodyModel;

    open spec fn view(&self) -> BodyModel {
        match self {
            Body::Redirect(to) => BodyModel::Redirect(to@),
            Body::Text(status, text) => BodyModel::Text(*status, text@),
            Body::Empty(status) => BodyModel::Empty(*status),
        }
    }
}

impl View for Reply {
    type V = ReplyModel;

    open spec fn view(&self) -> ReplyModel {
        ReplyModel {
            cookies: self.cookies@.map_values(|c: CookieChange| c@),
            body: self.body@,
        }
    }
}

/// A status with a text that changes no cookie.
pub open spec fn text_reply(status: u16, text: Seq<char>) -> ReplyModel {
    ReplyModel { cookies: Seq::empty(), body: BodyModel::Text(status, text) }
}

/// The cookie that carries a handshake: for the callback alone, out of reach of
/// scripts, and over TLS only where the callback is.
pub open spec fn handshake_cookie(h: HandshakeModel, secure: bool) -> CookieModel {
    CookieModel::Store {
        name: OAUTH_COOKIE@,
        claims: ClaimsModel::Login(h),
        path: OAUTH_PATH@,
        http_only: true,
        same_site: SameSite::Lax,
        secure,
    }
}

/// The cookie that carries a session: for the whole site, out of reach of
/// scripts, and over TLS only where the callback was.
pub open spec fn session_cookie(s: SessionModel, secure: bool) -> CookieModel {
    CookieModel::Store {
        name: SESSION_COOKIE@,
        claims: ClaimsModel::SignedIn(s),
        path: SESSION_PATH@,
        http_only: true,
        same_site: SameSite::Lax,
        secure,
    }
}

/// The end of a handshake.
pub open spec fn handshake_removed() -> CookieModel {
    CookieModel::Remove { name: OAUTH_COOKIE@, path: OAUTH_PATH@ }
}

/// The end of a session.
pub open spec fn session_removed() -> CookieModel {
    CookieModel::Remove { name: SESSION_COOKIE@, path: SESSION_PATH@ }
}

impl Reply {
    /// A status with a text that changes no cookie.
    pub fn text(status: u16, text: &str) -> (r: Reply)
        ensures
            r@ == text_reply(status, text@),
    {
        let r = Reply { cookies: Vec::new(), body: Body::Text(status, text.to_owned()) };
        assert(r@.cookies =~= Seq::empty());
        r
    }

    /// A reply with one cookie change.
    pub fn with_change(change: CookieChange, body: Body) -> (r: Reply)
        ensures
            r@ == (ReplyModel { cookies: seq![change@], body: body@ }),
    {
        let mut cookies: Vec<CookieChange> = Vec::new();
        cookies.push(change);
        let r = Reply { cookies, body };
        assert(r@.cookies =~= seq![change@]);
        r
    }
}

impl CookieChange {
    /// Carries a handshake to the callback.
    pub fn start_handshake(h: Handshake, secure: bool) -> (r: CookieChange)
        ensures
            r@ == handshake_cookie(h@, secure),
    {
        CookieChange::Store(
            SetCookie {
                name: OAUTH_COOKIE,
                claims: Claims::Login(h),
                path: OAUTH_PATH,
                http_only: true,
                same_site: SameSite::Lax,
                secure,
            },
        )
    }

    /// Ends a handshake.
    pub fn end_handshake() -> (r: CookieChange)
        ensures
            r@ == handshake_removed(),
    {
        CookieChange::Remove { name: OAUTH_COOKIE, path: OAUTH_PATH }
    }

    /// Carries a session.
    pub fn start_session(s: Session, secure: bool) -> (r: CookieChange)
        ensures
            r@ == session_cookie(s@, secure),
    {
        CookieChange::Store(
            SetCookie {
                name: SESSION_COOKIE,
                claims: Claims::SignedIn(s),
                path: SESSION_PATH,
                http_only: true,
                same_site: SameSite::Lax,
                secure,
            },
        )
    }

    /// Ends a session.
    pub fn end_session() -> (r: CookieChange)
        ensures
            r@ == session_removed(),
    {
        CookieChange::Remove { name: SESSION_COOKIE, path: SESSION_PATH }
    }
}

/// The answer to a logout.
pub open spec fn logout_reply() -> ReplyModel {
    ReplyModel { cookies: seq![session_removed()], body: BodyModel::Empty(204) }
}

/// `POST /auth/logout`: drop the session cookie.
pub fn logout() -> (r: Reply)
    ensures
        r@ == (ReplyModel { cookies: seq![session_removed()], body: BodyModel::Empty(204) }),
        r@ == logout_reply(),
{
    Reply::with_change(CookieChange::end_session(), Body::Empty(204))
}

} // verus!
