//! The cookies of a request and what a response does to them.

use axum_extra::extract::cookie::{Cookie, SameSite as SiteRule, SignedCookieJar};
use vstd::prelude::*;

use crate::reply::{
    CookieChange, CookieModel, SameSite, SetCookie, OAUTH_COOKIE, SESSION_COOKIE,
};
use crate::text::{maybe_text, texts};

verus! {

/// The signed cookies of a request, and the changes that the response makes.
#[verifier::external_type_specification]
#[verifier::external_body]
#[verifier::reject_recursive_types(K)]
pub struct ExSignedCookieJar<K>(SignedCookieJar<K>);

/// What a response does about a cookie.
#[verifier::ext_equal]
pub enum Sent {
    Stored {
        value: Seq<char>,
        path: Seq<char>,
        http_only: bool,
        same_site: SameSite,
        secure: bool,
    },
    Removed { path: Seq<char> },
}

/// The cookies that came with a request and that this server had signed, by name.
pub uninterp spec fn jar_received(jar: SignedCookieJar) -> Map<Seq<char>, Seq<char>>;

/// What the response does about cookies, by name.
pub uninterp spec fn jar_sent(jar: SignedCookieJar) -> Map<Seq<char>, Sent>;

/// The mathematical form of a cookie jar.
#[verifier::ext_equal]
pub struct JarModel {
    pub received: Map<Seq<char>, Seq<char>>,
    pub sent: Map<Seq<char>, Sent>,
}

/// What a cookie jar holds.
pub open spec fn jar_model(jar: SignedCookieJar) -> JarModel {
    JarModel { received: jar_received(jar), sent: jar_sent(jar) }
}

impl JarModel {
    /// The value of a cookie: the one that the response gives it, else the one that
    /// came.
    pub open spec fn value(self, name: Seq<char>) -> Option<Seq<char>> {
        if self.sent.dom().contains(name) {
            match self.sent[name] {
                Sent::Stored { value, .. } => Some(value),
                Sent::Removed { .. } => None,
            }
        } else if self.received.dom().contains(name) {
            Some(self.received[name])
        } else {
            None
        }
    }

    /// The jar with a cookie stored.
    pub open spec fn stored(self, name: Seq<char>, cookie: Sent) -> JarModel {
        JarModel { received: self.received, sent: self.sent.insert(name, cookie) }
    }

    /// The jar with a cookie removed. The browser is told so only where the cookie
    /// came from it.
    pub open spec fn removed(self, name: Seq<char>, path: Seq<char>) -> JarModel {
        JarModel {
            received: self.received,
            sent: if self.received.dom().contains(name) {
                self.sent.insert(name, Sent::Removed { path })
            } else {
                self.sent.remove(name)
            },
        }
    }

    /// The jar after a change whose claims are spelled by `text`.
    pub open spec fn changed(self, change: CookieModel, text: Seq<char>) -> JarModel {
        match change {
            CookieModel::Store { name, path, http_only, same_site, secure, .. } => self.stored(
                name,
                Sent::Stored { value: text, path, http_only, same_site, secure },
            ),
            CookieModel::Remove { name, path } => self.removed(name, path),
        }
    }

    /// The jar after the first `n` of some changes, each with the text of its claims.
    pub open spec fn after(
        self,
        changes: Seq<CookieModel>,
        spelled: Seq<Seq<char>>,
        n: int,
    ) -> JarModel
        decreases n,
    {
        if n <= 0 {
            self
        } else {
            self.after(changes, spelled, n - 1).changed(changes[n - 1], spelled[n - 1])
        }
    }
}

/// `SignedCookieJar::get`, and the value of the cookie: a cookie that the response
/// stores has the value that it was given, and one that it removes has none;
/// otherwise it is the cookie that came, where its signature held.
#[verifier::external_body]
fn cookie_value(jar: &SignedCookieJar, name: &str) -> (r: Option<String>)
    ensures
        maybe_text(r) == (JarModel { received: jar_received(*jar), sent: jar_sent(*jar) }).value(
            name@,
        ),
{
    jar.get(name).map(|cookie| cookie.value().to_owned())
}

/// `SignedCookieJar::add` of a cookie made with `Cookie::build`: the response
/// stores it in place of whatever it did about a cookie of that name, and leaves
/// the others as they were.
#[verifier::external_body]
fn add_cookie(jar: SignedCookieJar, cookie: &SetCookie, value: &str) -> (r: SignedCookieJar)
    ensures
        jar_received(r) == jar_received(jar),
        jar_sent(r) == jar_sent(jar).insert(
            cookie.name@,
            Sent::Stored {
                value: value@,
                path: cookie.path@,
                http_only: cookie.http_only,
                same_site: cookie.same_site,
                secure: cookie.secure,
            },
        ),
{
    let same_site = match cookie.same_site {
        SameSite::Strict => SiteRule::Strict,
        SameSite::Lax => SiteRule::Lax,
    };
    jar.add(
        Cookie::build((cookie.name, value.to_owned())).path(cookie.path).http_only(
            cookie.http_only,
        ).same_site(same_site).secure(cookie.secure).build(),
    )
}

/// `SignedCookieJar::remove` of a cookie made with `Cookie::build`: where a cookie
/// of that name came, the response removes it; where none came, the response does
/// nothing about that name. The others stay as they were.
#[verifier::external_body]
fn remove_cookie(jar: SignedCookieJar, name: &'static str, path: &'static str) -> (r:
    SignedCookieJar)
    ensures
        jar_received(r) == jar_received(jar),
        jar_sent(r) == (if jar_received(jar).dom().contains(name@) {
            jar_sent(jar).insert(name@, Sent::Removed { path: path@ })
        } else {
            jar_sent(jar).remove(name@)
        }),
{
    jar.remove(Cookie::build((name, "")).path(path).build())
}

/// The text of the session cookie of a request, where one came that this server
/// had signed.
pub fn session_text(jar: &SignedCookieJar) -> (r: Option<String>)
    ensures
        maybe_text(r) == jar_model(*jar).value(SESSION_COOKIE@),
{
    cookie_value(jar, SESSION_COOKIE)
}

/// The text of the handshake cookie of a request, where one came that this server
/// had signed.
pub fn handshake_text(jar: &SignedCookieJar) -> (r: Option<String>)
    ensures
        maybe_text(r) == jar_model(*jar).value(OAUTH_COOKIE@),
{
    cookie_value(jar, OAUTH_COOKIE)
}

/// Makes a change to the browser's cookies; `text` spells the claims of a cookie
/// that is stored.
pub fn apply(jar: SignedCookieJar, change: &CookieChange, text: &str) -> (r: SignedCookieJar)
    ensures
        jar_model(r) == jar_model(jar).changed(change@, text@),
{
    match change {
        CookieChange::Store(cookie) => add_cookie(jar, cookie, text),
        CookieChange::Remove { name, path } => remove_cookie(jar, name, path),
    }
}

/// Makes changes to the browser's cookies in order, each with the text that spells
/// its claims.
pub fn apply_all(jar: SignedCookieJar, changes: &Vec<CookieChange>, spelled: &Vec<String>) -> (r:
    SignedCookieJar)
    requires
        changes@.len() == spelled@.len(),
    ensures
        jar_model(r) == jar_model(jar).after(
            changes@.map_values(|c: CookieChange| c@),
            texts(spelled@),
            changes@.len() as int,
        ),
{
    let ghost start = jar_model(jar);
    let ghost models = changes@.map_values(|c: CookieChange| c@);
    let mut out = jar;
    let mut i: usize = 0;
    while i < changes.len()
        invariant
            i <= changes.len(),
            changes@.len() == spelled@.len(),
            models == changes@.map_values(|c: CookieChange| c@),
            jar_model(out) == start.after(models, texts(spelled@), i as int),
        decreases changes.len() - i,
    {
        out = apply(out, &changes[i], spelled[i].as_str());
        i = i + 1;
    }
    out
}

} // verus!
