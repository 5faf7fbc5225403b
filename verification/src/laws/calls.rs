//! What a caller of the handlers gets, told from their contracts alone.

use axum_extra::extract::cookie::SignedCookieJar;
use vstd::prelude::*;
use vstd::utf8::encode_utf8;

use crate::callback::{
    after_exchange, after_user, callback, may_sign_in, sign_in_notice, CallbackQuery, CallbackStep,
    LoginCookie, PendingExchange, PendingUser, SignInNotice, StepModel,
};
use crate::config::{
    config_view, effective_scope, redirect_uri, registered, resolve, resolve_view, resolved_text,
    ConfigView, OAuthConfig,
};
use crate::document::{json_document, toml_document};
use crate::jar::{apply_all, handshake_text, jar_model, jar_received, jar_sent, session_text};
use crate::lark::{
    exchange_code, exchange_result, fetch_result, fetch_user, user_info, TokenRequest, UserData,
    UserError, UserModel, UserRequest,
};
use crate::laws::answers::{
    ended_with, good_callback_trades_its_code, login_keeps_the_callback_of_its_request,
    sign_in_in_full, token_endpoint_is_told,
};
use crate::laws::reading::text_under;
use crate::laws::settings::{forwarded_scheme_is_used, settings_are_taken_as_they_stand};
use crate::laws::words::tight;
use crate::laws::{logout_ends_the_session, value_of};
use crate::login::{login, login_params};
use crate::reply::{logout, BodyModel, ClaimsModel, CookieModel, Handshake, Reply, Session};
use crate::session::{
    key_bytes, load_session_key, me, read_session, require_session, stored_session_key, KeyPlan,
    Me, StoredKey,
};
use crate::text::{maybe_text, text_pairs, texts, trimmed};
use crate::token::{base64_url, pkce_challenge, sha256, sha512};

verus! {

/// A text without a document leaves the console open, and one with settings gives the
/// secret of the bound app.
#[allow(dead_code)]
fn resolving(config_toml: &str) -> (r: Option<OAuthConfig>)
    ensures
        toml_document(config_toml@) is None ==> r is None,
        r matches Some(o) ==> {
            let c = config_view(toml_document(config_toml@)->0)->0;
            let app = registered(c.lark_apps, c.console.lark_app->0)->0;
            &&& o.app_id@ == app.app_id
            &&& o.app_secret@ == app.app_secret
            &&& maybe_text(o.redirect_uri) == c.console.redirect_uri
            &&& maybe_text(o.scope) == c.console.scope
        },
{
    let r = resolve(config_toml);
    proof {
        if r is Some {
            settings_are_taken_as_they_stand(config_view(toml_document(config_toml@)->0)->0);
        }
    }
    r
}

/// Settings that are at hand resolve to the secret of the bound app.
#[allow(dead_code)]
fn resolving_what_is_read(view: &ConfigView) -> (r: Option<OAuthConfig>)
    ensures
        r matches Some(o) ==> {
            let app = registered(view@.lark_apps, view@.console.lark_app->0)->0;
            o.app_id@ == app.app_id && o.app_secret@ == app.app_secret
        },
{
    let r = resolve_view(view);
    proof {
        settings_are_taken_as_they_stand(view@);
    }
    r
}

/// A login behind a proxy is for the forwarded scheme on the requested host.
#[allow(dead_code)]
fn starting(config_toml: &str, host: &str, scheme: &str) -> (r: Option<Reply>)
    requires
        resolved_text(config_toml@) matches Some(cfg) && cfg.redirect_uri is None,
        !scheme@.contains(','),
        tight(scheme@),
    ensures
        r matches Some(reply) ==> reply@.body is Redirect ==> (reply@.cookies[0] matches
            CookieModel::Store { claims: ClaimsModel::Login(h), .. } && h.redirect_uri == scheme@
            + "://"@ + host@ + "/auth/callback"@),
{
    let r = login(config_toml, Some(host), Some(scheme));
    proof {
        if r is Some && r->0@.body is Redirect {
            login_keeps_the_callback_of_its_request(
                config_toml@,
                resolved_text(config_toml@)->0,
                host@,
                scheme@,
                r->0@,
            );
        }
    }
    r
}

/// The callback address behind a proxy.
#[allow(dead_code)]
fn returning(cfg: &OAuthConfig, host: &str, scheme: &str) -> (r: String)
    requires
        cfg.redirect_uri is None,
        !scheme@.contains(','),
        tight(scheme@),
    ensures
        r@ == scheme@ + "://"@ + host@ + "/auth/callback"@,
{
    proof {
        forwarded_scheme_is_used(host@, scheme@);
    }
    redirect_uri(cfg, Some(host), Some(scheme))
}

/// A configured scope is asked for whole, but for the white space around it.
#[allow(dead_code)]
fn asking(cfg: &OAuthConfig, state: &str, challenge: &str) -> (r: (Option<String>, Vec<(String, String)>))
    requires
        cfg.scope is Some,
        trimmed(cfg.scope->0@).len() > 0,
    ensures
        maybe_text(r.0) == Some(trimmed(cfg.scope->0@)),
        value_of(text_pairs(r.1@), "scope"@) == Some(trimmed(cfg.scope->0@)),
        value_of(text_pairs(r.1@), "state"@) == Some(state@),
        value_of(text_pairs(r.1@), "code_challenge"@) == Some(challenge@),
{
    proof {
        crate::laws::answers::authorize_page_is_told(cfg@, state@, state@, challenge@);
    }
    (effective_scope(cfg), login_params(cfg, state, state, challenge))
}

/// A callback with the handshake's own state trades its code at the host of the settings
/// that hold.
#[allow(dead_code)]
fn coming_back(h: Handshake, code: String, state: String, config_toml: &str) -> (r: CallbackStep)
    requires
        resolved_text(config_toml@) is Some,
        state@ == h.state@,
    ensures
        ({
            let cfg = resolved_text(config_toml@)->0;
            &&& r@ matches StepModel::Exchange(p)
            &&& p.cfg == cfg
            &&& p.redirect_uri == h.redirect_uri@
            &&& p.request.url == cfg.open_base + "/open-apis/authen/v2/oauth/token"@
            &&& value_of(p.request.fields, "code"@) == Some(code@)
            &&& value_of(p.request.fields, "code_verifier"@) == Some(h.verifier@)
        }),
{
    proof {
        good_callback_trades_its_code(resolved_text(config_toml@)->0, h@, code@);
    }
    let q = CallbackQuery { code: Some(code), state: Some(state), error: None };
    callback(LoginCookie::Valid(h), q, config_toml)
}

/// A callback with another state is refused.
#[allow(dead_code)]
fn coming_back_wrongly(h: Handshake, code: String, state: String, config_toml: &str) -> (r:
    CallbackStep)
    requires
        state@ != h.state@,
    ensures
        ended_with(r@, 400, "state mismatch"@),
{
    let q = CallbackQuery { code: Some(code), state: Some(state), error: None };
    callback(LoginCookie::Valid(h), q, config_toml)
}

/// The two requests to Lark.
#[allow(dead_code)]
fn requesting(cfg: &OAuthConfig, code: &str, verifier: &str, redirect: &str, token: &str) -> (r: (
    TokenRequest,
    UserRequest,
))
    ensures
        r.0.url@ == cfg.open_base@ + "/open-apis/authen/v2/oauth/token"@,
        value_of(text_pairs(r.0.fields@), "client_secret"@) == Some(cfg.app_secret@),
        value_of(text_pairs(r.0.fields@), "code"@) == Some(code@),
        value_of(text_pairs(r.0.fields@), "code_verifier"@) == Some(verifier@),
        value_of(text_pairs(r.0.fields@), "redirect_uri"@) == Some(redirect@),
        r.1.url@ == cfg.open_base@ + "/open-apis/authen/v1/user_info"@,
        r.1.bearer@ == token@,
{
    proof {
        token_endpoint_is_told(cfg@, code@, verifier@, redirect@);
    }
    (exchange_code(cfg, code, verifier, redirect), fetch_user(cfg, token))
}

/// A reply with a token leads to the account behind that token, on the same settings.
#[allow(dead_code)]
fn trading(p: PendingExchange, body: &[u8]) -> (r: CallbackStep)
    requires
        json_document(body@) matches Some(t) && text_under(t, "access_token"@) is Some,
    ensures
        r@ matches StepModel::FetchUser(next) && next.cfg == p.cfg@ && next.redirect_uri
            == p.redirect_uri@ && Some(next.request.bearer) == text_under(
            json_document(body@)->0,
            "access_token"@,
        ),
{
    after_exchange(p, Some(body))
}

/// A reply with an account that may sign in leads to a session of a week.
#[allow(dead_code)]
fn signing_in(p: PendingUser, body: &[u8], now: u64) -> (r: Reply)
    requires
        now + 604_800 <= u64::MAX,
        json_document(body@) matches Some(t) && user_info(t) matches Ok(user) && may_sign_in(
            texts(p.cfg.admins@),
            user,
        ),
    ensures
        r@.body == BodyModel::Redirect("/"@),
        r@.cookies.len() == 2,
        r@.cookies[1] matches CookieModel::Store { claims: ClaimsModel::SignedIn(s), .. } && s.exp
            == now + 604_800,
{
    proof {
        sign_in_in_full(p@, user_info(json_document(body@)->0)->Ok_0, now);
    }
    after_user(p, Some(body), now)
}

/// What is reported of replies.
#[allow(dead_code)]
fn reporting(status: &str, body: &[u8], not_json: &str, unreadable: &str) -> (r: (
    Result<String, String>,
    Result<UserData, String>,
))
    ensures
        r.0 matches Ok(token) ==> json_document(body@) is Some && text_under(
            json_document(body@)->0,
            "access_token"@,
        ) == Some(token@),
        r.1 matches Ok(user) ==> json_document(body@) is Some && user_info(json_document(body@)->0)
            == Ok::<UserModel, UserError>(user@),
        json_document(body@) is None ==> r.0 is Err && r.1 is Err,
{
    (exchange_result(status, body, not_json), fetch_result(status, body, not_json, unreadable))
}

/// What the operator hears of an account that is refused.
#[allow(dead_code)]
fn noticing(admins: &Vec<String>, user: &UserData) -> (r: SignInNotice)
    requires
        !may_sign_in(texts(admins@), user@),
    ensures
        r matches SignInNotice::NoAddress { open_id } ==> maybe_text(open_id) == maybe_text(
            user.open_id,
        ),
        r matches SignInNotice::NotListed { addresses, open_id } ==> addresses@.len() > 0
            && maybe_text(open_id) == maybe_text(user.open_id),
        !(r is Quiet) && !(r is AnyoneMaySignIn),
{
    let r = sign_in_notice(admins, user);
    assert(r is NotListed ==> texts(r->addresses@).len() == r->addresses@.len());
    r
}

/// Who is let through and what the UI shows, on a console with settings and on one
/// without.
#[allow(dead_code)]
fn admitting(config_toml: &str, a: Option<Session>, b: Option<Session>, c: Option<Session>, now: u64) -> (r:
    (Option<Reply>, Me, Option<Session>))
    ensures
        r.0 is None <==> resolved_text(config_toml@) is None || (a matches Some(s) && now <= s.exp),
        r.0 matches Some(reply) ==> reply@.body == BodyModel::Empty(401),
        r.1.auth_required <==> resolved_text(config_toml@) is Some,
        r.1.authenticated <==> resolved_text(config_toml@) is Some && (b matches Some(s) && now
            <= s.exp),
        r.1.user matches Some(u) ==> u.email@ == b->0.email@ && u.name@ == b->0.name@,
        r.2 is Some <==> (c matches Some(s) && now <= s.exp),
        r.2 matches Some(s) ==> s@ == c->0@,
{
    let let_through = require_session(config_toml, a, now);
    let shown = me(config_toml, b, now);
    let kept = read_session(c, now);
    assert(shown@.user is Some <==> shown.user is Some);
    (let_through, shown, kept)
}

/// A logout takes the session out of the jar.
#[allow(dead_code)]
fn leaving(jar: SignedCookieJar) -> (r: SignedCookieJar)
    requires
        jar_sent(jar) == Map::<Seq<char>, crate::jar::Sent>::empty(),
    ensures
        jar_model(r).value("lk_session"@) is None,
        jar_model(r).value("lk_oauth"@) == jar_model(jar).value("lk_oauth"@),
        jar_received(r) == jar_received(jar),
{
    let reply = logout();
    let mut spelled: Vec<String> = Vec::new();
    spelled.push(String::new());
    proof {
        assert(reply.cookies@.map_values(|c: crate::reply::CookieChange| c@) == reply@.cookies);
        logout_ends_the_session(jar_model(jar), texts(spelled@));
        reveal_with_fuel(crate::jar::JarModel::after, 2);
    }
    apply_all(jar, &reply.cookies, &spelled)
}

/// The two cookies are read by their own names.
#[allow(dead_code)]
fn looking(jar: &SignedCookieJar) -> (r: (Option<String>, Option<String>))
    ensures
        maybe_text(r.0) == jar_model(*jar).value("lk_session"@),
        maybe_text(r.1) == jar_model(*jar).value("lk_oauth"@),
{
    (session_text(jar), handshake_text(jar))
}

/// A long secret is the key; otherwise what was kept is, where it is long enough.
#[allow(dead_code)]
fn loading(secret: &str, stored: Vec<u8>) -> (r: (KeyPlan, StoredKey))
    ensures
        encode_utf8(secret@).len() >= 32 ==> (r.0 matches KeyPlan::Use(key) && key_bytes(key)
            == sha512(encode_utf8(secret@))),
        encode_utf8(secret@).len() < 32 ==> (r.0 matches KeyPlan::ReadStored { secret_too_short }
            && secret_too_short),
        stored@.len() >= 64 ==> (r.1 matches StoredKey::Kept(key) && key_bytes(key) == stored@.take(
            64,
        )),
        stored@.len() < 64 ==> (r.1 matches StoredKey::Fresh { key, keep } && key_bytes(key)
            == keep@ && keep@.len() == 64),
{
    (load_session_key(Some(secret)), stored_session_key(Some(stored)))
}

/// A challenge is made of the verifier's digest.
#[allow(dead_code)]
fn challenging(verifier: &str) -> (r: String)
    ensures
        r@ == base64_url(sha256(encode_utf8(verifier@))),
{
    pkce_challenge(verifier)
}

} // verus!
