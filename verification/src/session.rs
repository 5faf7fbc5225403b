//! The session: how long it lasts, who counts as signed in, and the key that
//! signs its cookie.

use std::time::{Duration, SystemTime, SystemTimeError};

use axum_extra::extract::cookie::Key;
use vstd::prelude::*;
use vstd::utf8::encode_utf8;

use crate::config::{maybe_str, resolve, resolved_text};
use crate::login::maybe_reply;
use crate::reply::{Body, BodyModel, Reply, ReplyModel, Session, SessionModel};
use crate::token::{digest_sha512, random_bytes, sha512};

verus! {

/// Server-enforced session lifetime; the cookie itself is browser-session
/// scoped, so this is the upper bound.
pub const SESSION_TTL_SECS: u64 = 604_800;

/// The fewest bytes that a configured secret may have.
pub const MIN_SECRET_BYTES: usize = 32;

/// How many bytes the cookie signing key takes.
pub const KEY_BYTES: usize = 64;

// ---- the clock --------------------------------------------------------------

/// A reading of the system clock.
#[verifier::external_type_specification]
#[verifier::external_body]
pub struct ExSystemTime(SystemTime);

/// A reading of the system clock that lies before another.
#[verifier::external_type_specification]
#[verifier::external_body]
pub struct ExSystemTimeError(SystemTimeError);

/// The whole seconds in a time span.
pub uninterp spec fn whole_seconds(span: Duration) -> u64;

/// The time span from the Unix epoch to a clock reading; `None` where the reading
/// lies before the epoch.
pub uninterp spec fn span_since_epoch(reading: SystemTime) -> Option<Duration>;

/// `SystemTime::now`: whatever the clock shows, so nothing is stated of it.
pub assume_specification[ SystemTime::now ]() -> SystemTime
;

/// `Duration::as_secs`: the whole seconds in a time span, which depend on the span
/// alone.
pub assume_specification[ Duration::as_secs ](d: &Duration) -> (r: u64)
    ensures
        r == whole_seconds(*d),
;

/// `SystemTime::duration_since` of the Unix epoch: the span from there, or an
/// error where the reading lies before it. Either depends on the reading alone.
#[verifier::external_body]
fn since_epoch(t: &SystemTime) -> (r: Result<Duration, SystemTimeError>)
    ensures
        match r {
            Ok(d) => span_since_epoch(*t) == Some(d),
            Err(_) => span_since_epoch(*t) is None,
        },
{
    t.duration_since(SystemTime::UNIX_EPOCH)
}

/// Unix time, from the whole seconds since the epoch; zero before it.
pub open spec fn elapsed_seconds(elapsed: Option<u64>) -> u64 {
    match elapsed {
        Some(secs) => secs,
        None => 0,
    }
}

/// Unix time, from the whole seconds since the epoch; zero before it.
pub fn epoch_seconds(elapsed: Option<u64>) -> (r: u64)
    ensures
        r == (match elapsed {
            Some(secs) => secs,
            None => 0,
        }),
        r == elapsed_seconds(elapsed),
{
    match elapsed {
        Some(secs) => secs,
        None => 0,
    }
}

/// The Unix time in seconds at a clock reading; zero before the epoch.
pub open spec fn unix_time(reading: SystemTime) -> u64 {
    match span_since_epoch(reading) {
        Some(span) => whole_seconds(span),
        None => 0,
    }
}

/// The current Unix time in seconds; zero where the clock lies before the epoch.
pub fn now() -> (r: u64)
    ensures
        exists|reading: SystemTime| r == #[trigger] unix_time(reading),
{
    let reading = SystemTime::now();
    let elapsed = match since_epoch(&reading) {
        Ok(d) => Some(d.as_secs()),
        Err(_) => None,
    };
    let r: u64 = epoch_seconds(elapsed);
    assert(r == unix_time(reading));
    r
}

// ---- who is signed in -------------------------------------------------------

/// Whether a session still counts.
pub open spec fn live(session: Option<SessionModel>, now: u64) -> bool {
    session matches Some(s) && s.exp >= now
}

/// What a session that may be absent says.
pub open spec fn maybe_session(s: Option<Session>) -> Option<SessionModel> {
    match s {
        Some(s) => Some(s@),
        None => None,
    }
}

/// The session that claims come to now.
pub open spec fn session_now(claims: Option<SessionModel>, now: u64) -> Option<SessionModel> {
    if live(claims, now) {
        claims
    } else {
        None
    }
}

/// The session of a request, from the claims of its session cookie where that
/// came, was signed by this server and is readable: they count until they expire.
pub fn read_session(claims: Option<Session>, now: u64) -> (r: Option<Session>)
    ensures
        maybe_session(r) == (if live(maybe_session(claims), now) {
            maybe_session(claims)
        } else {
            None
        }),
        maybe_session(r) == session_now(maybe_session(claims), now),
{
    match claims {
        Some(session) => if session.exp >= now {
            Some(session)
        } else {
            None
        },
        None => None,
    }
}

/// A signed-in user, as the UI sees one.
pub struct MeUser {
    pub email: String,
    pub name: String,
}

/// Whether to show the login screen.
pub struct Me {
    /// Whether OAuth is configured at all. When false the console is open.
    pub auth_required: bool,
    pub authenticated: bool,
    pub user: Option<MeUser>,
}

/// The mathematical form of a [`MeUser`].
#[verifier::ext_equal]
pub struct MeUserModel {
    pub email: Seq<char>,
    pub name: Seq<char>,
}

/// The mathematical form of a [`Me`].
#[verifier::ext_equal]
pub struct MeModel {
    pub auth_required: bool,
    pub authenticated: bool,
    pub user: Option<MeUserModel>,
}

impl View for MeUser {
    type V = MeUserModel;

    open spec fn view(&self) -> MeUserModel {
        MeUserModel { email: self.email@, name: self.name@ }
    }
}

impl View for Me {
    type V = MeModel;

    open spec fn view(&self) -> MeModel {
        MeModel {
            auth_required: self.auth_required,
            authenticated: self.authenticated,
            user: match self.user {
                Some(u) => Some(u@),
                None => None,
            },
        }
    }
}

/// What the UI is told.
pub open spec fn me_model(configured: bool, session: Option<SessionModel>, now: u64) -> MeModel {
    if configured && live(session, now) {
        MeModel {
            auth_required: true,
            authenticated: true,
            user: Some(MeUserModel { email: session->0.email, name: session->0.name }),
        }
    } else {
        MeModel { auth_required: configured, authenticated: false, user: None }
    }
}

/// What the UI is told, given whether OAuth is configured.
pub fn me_with(configured: bool, claims: Option<Session>, now: u64) -> (r: Me)
    ensures
        r@ == me_model(configured, maybe_session(claims), now),
{
    if !configured {
        return Me { auth_required: false, authenticated: false, user: None };
    }
    match read_session(claims, now) {
        Some(session) => Me {
            auth_required: true,
            authenticated: true,
            user: Some(MeUser { email: session.email, name: session.name }),
        },
        None => Me { auth_required: true, authenticated: false, user: None },
    }
}

/// `GET /auth/me`: ungated; tells the UI whether to show the login screen.
pub fn me(config_toml: &str, claims: Option<Session>, now: u64) -> (r: Me)
    ensures
        r@ == me_model(resolved_text(config_toml@) is Some, maybe_session(claims), now),
{
    me_with(resolve(config_toml).is_some(), claims, now)
}

/// Whether a request may go on.
pub open spec fn admitted(configured: bool, session: Option<SessionModel>, now: u64) -> bool {
    !configured || live(session, now)
}

/// What stops a request: an answer, or nothing where the request may go on.
pub open spec fn refusal(
    configured: bool,
    session: Option<SessionModel>,
    now: u64,
) -> Option<ReplyModel> {
    if admitted(configured, session, now) {
        None
    } else {
        Some(ReplyModel { cookies: Seq::empty(), body: BodyModel::Empty(401) })
    }
}

/// What stops a request, given whether OAuth is configured.
pub fn require_session_with(configured: bool, claims: Option<Session>, now: u64) -> (r: Option<
    Reply,
>)
    ensures
        r is None <==> admitted(configured, maybe_session(claims), now),
        r matches Some(reply) ==> reply@ == (ReplyModel {
            cookies: Seq::empty(),
            body: BodyModel::Empty(401),
        }),
        maybe_reply(r) == refusal(configured, maybe_session(claims), now),
{
    if !configured || read_session(claims, now).is_some() {
        None
    } else {
        let reply = Reply { cookies: Vec::new(), body: Body::Empty(401) };
        assert(reply@.cookies =~= Seq::empty());
        Some(reply)
    }
}

/// Gate `/api/*`: open when OAuth is unconfigured, else require a live session.
/// `None` lets the request through; otherwise this is its answer.
pub fn require_session(config_toml: &str, claims: Option<Session>, now: u64) -> (r: Option<Reply>)
    ensures
        r is None <==> admitted(
            resolved_text(config_toml@) is Some,
            maybe_session(claims),
            now,
        ),
        r matches Some(reply) ==> reply@ == (ReplyModel {
            cookies: Seq::empty(),
            body: BodyModel::Empty(401),
        }),
        maybe_reply(r) == refusal(
            resolved_text(config_toml@) is Some,
            maybe_session(claims),
            now,
        ),
{
    require_session_with(resolve(config_toml).is_some(), claims, now)
}

// ---- the signing key --------------------------------------------------------

/// The key that signs cookies, as the `cookie` crate holds it.
#[verifier::external_type_specification]
#[verifier::external_body]
pub struct ExKey(Key);

/// The bytes that a signing key is made of.
pub uninterp spec fn key_bytes(key: Key) -> Seq<u8>;

/// `Key::from`: the key made of the first [`KEY_BYTES`] of these bytes. It takes no
/// fewer.
#[verifier::external_body]
fn signing_key(bytes: &[u8]) -> (r: Key)
    requires
        bytes@.len() >= KEY_BYTES,
    ensures
        key_bytes(r) == bytes@.take(KEY_BYTES as int),
{
    Key::from(bytes)
}

/// Where the signing key comes from.
pub enum KeyPlan {
    /// Sign with this.
    Use(Key),
    /// See whether a key was kept; a secret was set that is too short to use,
    /// or none was.
    ReadStored { secret_too_short: bool },
}

/// The signing key, and whether it has yet to be kept.
pub enum StoredKey {
    /// This was kept.
    Kept(Key),
    /// Nothing usable was kept: keep these bytes, so that sessions survive restarts.
    Fresh { key: Key, keep: Vec<u8> },
}

/// Whether a secret is long enough to derive the key from.
pub open spec fn usable_secret(secret: Seq<char>) -> bool {
    encode_utf8(secret).len() >= MIN_SECRET_BYTES
}

/// The bytes of the key that a secret gives, where it gives one.
pub open spec fn secret_key(secret: Option<Seq<char>>) -> Option<Seq<u8>> {
    match secret {
        Some(s) => if usable_secret(s) {
            Some(sha512(encode_utf8(s)))
        } else {
            None
        },
        None => None,
    }
}

/// Load the cookie signing key: from the secret in the environment if one is set
/// that is long enough, expanded to the length that a key takes; otherwise the
/// key is the one kept in the data directory.
pub fn load_session_key(secret: Option<&str>) -> (r: KeyPlan)
    ensures
        match secret {
            Some(s) => if usable_secret(s@) {
                r matches KeyPlan::Use(key) && key_bytes(key) == sha512(encode_utf8(s@))
            } else {
                r == (KeyPlan::ReadStored { secret_too_short: true })
            },
            None => r == (KeyPlan::ReadStored { secret_too_short: false }),
        },
        match secret_key(maybe_str(secret)) {
            Some(bytes) => r matches KeyPlan::Use(key) && key_bytes(key) == bytes,
            None => r == (KeyPlan::ReadStored { secret_too_short: secret is Some }),
        },
{
    match secret {
        Some(s) => {
            let bytes = s.as_bytes();
            if bytes.len() >= MIN_SECRET_BYTES {
                let digest = digest_sha512(bytes);
                assert(digest@.take(KEY_BYTES as int) =~= digest@);
                KeyPlan::Use(signing_key(digest.as_slice()))
            } else {
                KeyPlan::ReadStored { secret_too_short: true }
            }
        },
        None => KeyPlan::ReadStored { secret_too_short: false },
    }
}

/// The key that was kept, where what was kept is long enough for one.
pub open spec fn kept_key(stored: Option<Seq<u8>>) -> Option<Seq<u8>> {
    match stored {
        Some(bytes) => if bytes.len() >= KEY_BYTES {
            Some(bytes.take(KEY_BYTES as int))
        } else {
            None
        },
        None => None,
    }
}

/// The bytes of a file that may not be readable.
pub open spec fn maybe_stored(stored: Option<Vec<u8>>) -> Option<Seq<u8>> {
    match stored {
        Some(bytes) => Some(bytes@),
        None => None,
    }
}

/// The key made of freshly drawn bytes, with the bytes to keep.
pub fn fresh_session_key(drawn: Vec<u8>) -> (r: StoredKey)
    requires
        drawn@.len() == KEY_BYTES,
    ensures
        r matches StoredKey::Fresh { key, keep } && keep@ == drawn@ && key_bytes(key) == drawn@,
{
    let key = signing_key(drawn.as_slice());
    assert(drawn@.take(KEY_BYTES as int) =~= drawn@);
    StoredKey::Fresh { key, keep: drawn }
}

/// The key kept in the data directory where that is long enough for one, else a
/// random key to keep there. `stored` is what the file holds, where it could be
/// read.
pub fn stored_session_key(stored: Option<Vec<u8>>) -> (r: StoredKey)
    ensures
        match kept_key(maybe_stored(stored)) {
            Some(bytes) => r matches StoredKey::Kept(key) && key_bytes(key) == bytes,
            None => r matches StoredKey::Fresh { key, keep } && keep@.len() == KEY_BYTES
                && key_bytes(key) == keep@,
        },
{
    if let Some(bytes) = stored {
        if bytes.len() >= KEY_BYTES {
            return StoredKey::Kept(signing_key(bytes.as_slice()));
        }
    }
    fresh_session_key(random_bytes(KEY_BYTES))
}

} // verus!
