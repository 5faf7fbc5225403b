//! What is asked and answered at each step, said in full.

use vstd::prelude::*;
use vstd::utf8::encode_utf8;

use crate::callback::{
    callback_step, identity, may_sign_in, minted, notice, sign_in_reply, token_received,
    token_step, user_received, ExchangeModel, LoginCookieModel, NoticeModel, PendingUserModel,
    QueryModel, StepModel,
};
use crate::config::{callback_url, resolved_text, scope_to_request, OAuthModel};
use crate::document::{json_compact, json_document};
use crate::jar::{JarModel, Sent};
use crate::lark::{
    addresses, exchange_outcome, fetch_outcome, has_address, token_in, token_request, user_in,
    user_info, user_request, TokenError, UserError, UserModel,
};
use crate::laws::reading::{one_value_is_read, one_value_reply, text_under};
use crate::laws::settings::forwarded_scheme_is_used;
use crate::laws::words::{blank, tight, trimming_drops_what_is_around};
use crate::laws::{
    addresses_are_the_email_fields, authorize_values, fresh_handshake_meets_pkce, token_values,
    tokens_tell_bytes_apart, value_of, value_stands_at,
};
use crate::login::{
    authorize_page, authorize_params, fresh_handshake, login_allows, login_outcome, login_reply,
    over_tls, parsed_base, with_params,
};
use crate::reply::{
    handshake_cookie, handshake_removed, logout_reply, session_cookie, session_removed, BodyModel,
    ClaimsModel, CookieModel, HandshakeModel, ReplyModel, SameSite, SessionModel,
};
use crate::session::{
    admitted, elapsed_seconds, kept_key, live, me_model, refusal, secret_key, session_now,
    span_since_epoch, unix_time, usable_secret, whole_seconds, MeUserModel,
};
use crate::text::{folded, lowercase, trimmed};
use crate::token::{base64_url, challenge_of, sha256, sha512};

verus! {

// ---- cookies ----------------------------------------------------------------

/// The two cookies, whole: the name, the path and what guards each.
pub proof fn cookies_in_full(h: HandshakeModel, s: SessionModel, secure: bool)
    ensures
        handshake_cookie(h, secure) == (CookieModel::Store {
            name: "lk_oauth"@,
            claims: ClaimsModel::Login(h),
            path: "/auth"@,
            http_only: true,
            same_site: SameSite::Lax,
            secure,
        }),
        session_cookie(s, secure) == (CookieModel::Store {
            name: "lk_session"@,
            claims: ClaimsModel::SignedIn(s),
            path: "/"@,
            http_only: true,
            same_site: SameSite::Lax,
            secure,
        }),
        handshake_removed() == (CookieModel::Remove { name: "lk_oauth"@, path: "/auth"@ }),
        session_removed() == (CookieModel::Remove { name: "lk_session"@, path: "/"@ }),
{
}

/// A logout answers that there is nothing to show, and drops the session and no other
/// cookie.
pub proof fn logout_in_full()
    ensures
        logout_reply().body == BodyModel::Empty(204),
        logout_reply().cookies == seq![
            CookieModel::Remove { name: "lk_session"@, path: "/"@ },
        ],
{
}

/// A stored cookie is sent as it was made, with its text; a removed one is taken off its
/// path where the browser had it, and forgotten otherwise. No other cookie changes.
pub proof fn changes_in_full(
    jar: JarModel,
    name: Seq<char>,
    path: Seq<char>,
    claims: ClaimsModel,
    http_only: bool,
    same_site: SameSite,
    secure: bool,
    text: Seq<char>,
    other: Seq<char>,
)
    requires
        other != name,
    ensures
        ({
            let after = jar.changed(
                CookieModel::Store { name, claims, path, http_only, same_site, secure },
                text,
            );
            &&& after.sent.dom().contains(name)
            &&& after.sent[name] == (Sent::Stored {
                value: text,
                path,
                http_only,
                same_site,
                secure,
            })
            &&& after.value(name) == Some(text)
            &&& after.value(other) == jar.value(other)
            &&& after.sent.dom().contains(other) == jar.sent.dom().contains(other)
            &&& jar.sent.dom().contains(other) ==> after.sent[other] == jar.sent[other]
            &&& after.received == jar.received
        }),
        ({
            let after = jar.changed(CookieModel::Remove { name, path }, text);
            &&& after.value(name) is None
            &&& after.sent.dom().contains(name) <==> jar.received.dom().contains(name)
            &&& jar.received.dom().contains(name) ==> after.sent[name] == (Sent::Removed { path })
            &&& after.value(other) == jar.value(other)
            &&& after.sent.dom().contains(other) == jar.sent.dom().contains(other)
            &&& jar.sent.dom().contains(other) ==> after.sent[other] == jar.sent[other]
            &&& after.received == jar.received
        }),
{
}

/// What a jar holds of a cookie that it does not change is what came.
pub proof fn untouched_cookies_are_what_came(jar: JarModel, name: Seq<char>)
    requires
        !jar.sent.dom().contains(name),
    ensures
        jar.received.dom().contains(name) ==> jar.value(name) == Some(jar.received[name]),
        !jar.received.dom().contains(name) ==> jar.value(name) is None,
{
}

/// Changes are made in order: those of a first list, then those of a second.
pub proof fn changes_are_made_in_order(
    jar: JarModel,
    changes: Seq<CookieModel>,
    texts: Seq<Seq<char>>,
    n: int,
)
    requires
        0 <= n < changes.len(),
    ensures
        jar.after(changes, texts, 0) == jar,
        jar.after(changes, texts, n + 1) == jar.after(changes, texts, n).changed(
            changes[n],
            texts[n],
        ),
{
}

// ---- starting a sign-in -----------------------------------------------------

proof fn value_is_missing(list: Seq<(Seq<char>, Seq<char>)>, key: Seq<char>)
    requires
        forall|k: int| 0 <= k < list.len() ==> (#[trigger] list[k]).0 != key,
    ensures
        value_of(list, key) is None,
    decreases list.len(),
{
    if list.len() > 0 {
        assert(list[0].0 != key);
        let rest = list.drop_first();
        assert forall|k: int| 0 <= k < rest.len() implies (#[trigger] rest[k]).0 != key by {
            assert(rest[k] == list[k + 1]);
        }
        value_is_missing(rest, key);
    }
}

/// What the authorize page is told, in full: the client, the callback, that a code is
/// wanted, the state, the challenge and how it was made, and the scope exactly where one
/// is to be asked for. It is told nothing else.
pub proof fn authorize_page_is_told(
    cfg: OAuthModel,
    redirect: Seq<char>,
    state: Seq<char>,
    challenge: Seq<char>,
)
    ensures
        ({
            let told = authorize_params(cfg, redirect, state, challenge);
            let scope = scope_to_request(cfg.scope, cfg.admins);
            &&& value_of(told, "client_id"@) == Some(cfg.app_id)
            &&& value_of(told, "redirect_uri"@) == Some(redirect)
            &&& value_of(told, "response_type"@) == Some("code"@)
            &&& value_of(told, "state"@) == Some(state)
            &&& value_of(told, "code_challenge"@) == Some(challenge)
            &&& value_of(told, "code_challenge_method"@) == Some("S256"@)
            &&& value_of(told, "scope"@) == scope
            &&& told.len() == (if scope is Some {
                7int
            } else {
                6int
            })
        }),
{
    reveal_strlit("client_id");
    reveal_strlit("redirect_uri");
    reveal_strlit("response_type");
    reveal_strlit("state");
    reveal_strlit("code_challenge");
    reveal_strlit("code_challenge_method");
    reveal_strlit("scope");
    authorize_values(cfg, redirect, state, challenge);
    let told = authorize_params(cfg, redirect, state, challenge);
    assert(told[0].0.len() == 9 && told[1].0.len() == 12 && told[2].0.len() == 13);
    assert(told[3].0.len() == 5 && told[4].0.len() == 14 && told[5].0.len() == 21);
    assert("state"@[1] == 't' && "scope"@[1] == 'c');
    value_stands_at(told, "response_type"@, 2);
    value_stands_at(told, "code_challenge_method"@, 5);
    if scope_to_request(cfg.scope, cfg.admins) is Some {
        value_stands_at(told, "scope"@, 6);
    } else {
        value_is_missing(told, "scope"@);
    }
}

/// A login whose page is an address sends the browser to the address made of it and
/// keeps exactly its handshake, for the callback alone, over TLS where the callback is;
/// one whose page is none says so and keeps nothing.
pub proof fn login_in_full(h: HandshakeModel, url: Seq<char>)
    ensures
        login_reply(h, Some(url)).body == BodyModel::Redirect(url),
        login_reply(h, Some(url)).cookies == seq![
            CookieModel::Store {
                name: "lk_oauth"@,
                claims: ClaimsModel::Login(h),
                path: "/auth"@,
                http_only: true,
                same_site: SameSite::Lax,
                secure: over_tls(h.redirect_uri),
            },
        ],
        login_reply(h, None) == (ReplyModel {
            cookies: Seq::empty(),
            body: BodyModel::Text(500, "bad authorize URL"@),
        }),
{
}

/// A login that is answered keeps its handshake exactly where its page is an address,
/// and its page is on the host of the settings.
pub proof fn login_follows_the_settings(cfg: OAuthModel, h: HandshakeModel)
    ensures
        authorize_page(cfg) == cfg.accounts_base + "/open-apis/authen/v1/authorize"@,
        login_outcome(cfg, h) matches Some(reply) ==> match parsed_base(authorize_page(cfg)) {
            Some(url) => reply.body == BodyModel::Redirect(
                with_params(
                    url,
                    authorize_params(cfg, h.redirect_uri, h.state, challenge_of(h.verifier)),
                ),
            ) && reply.cookies == seq![
                CookieModel::Store {
                    name: "lk_oauth"@,
                    claims: ClaimsModel::Login(h),
                    path: "/auth"@,
                    http_only: true,
                    same_site: SameSite::Lax,
                    secure: over_tls(h.redirect_uri),
                },
            ],
            None => reply.body == BodyModel::Text(500, "bad authorize URL"@)
                && reply.cookies.len() == 0,
        },
        login_outcome(cfg, h) is None ==> parsed_base(authorize_page(cfg)) is Some,
{
}

/// The handshake of a login is for the callback of its own request. Behind a proxy that
/// forwards a scheme, and with no callback configured, that is the forwarded scheme on
/// the requested host.
pub proof fn login_keeps_the_callback_of_its_request(
    config_toml: Seq<char>,
    cfg: OAuthModel,
    host: Seq<char>,
    scheme: Seq<char>,
    reply: ReplyModel,
)
    requires
        resolved_text(config_toml) == Some(cfg),
        cfg.redirect_uri is None,
        !scheme.contains(','),
        tight(scheme),
        login_allows(config_toml, Some(host), Some(scheme), Some(reply)),
        reply.body is Redirect,
    ensures
        reply.cookies.len() == 1,
        reply.cookies[0] matches CookieModel::Store { claims: ClaimsModel::Login(h), .. }
            && h.redirect_uri == scheme + "://"@ + host + "/auth/callback"@ && h.state.len() == 32
            && h.verifier.len() == 64,
{
    let redirect = callback_url(cfg.redirect_uri, Some(host), Some(scheme));
    let h = choose|h: HandshakeModel|
        #![trigger login_outcome(cfg, h)]
        fresh_handshake(h, redirect) && Some(reply) == login_outcome(cfg, h);
    forwarded_scheme_is_used(host, scheme);
    fresh_handshake_meets_pkce(h, redirect);
}

/// Whatever the settings and the request, the handshake of a login that sends the
/// browser away is for the callback that the two come to.
pub proof fn login_keeps_the_callback(
    config_toml: Seq<char>,
    cfg: OAuthModel,
    host: Option<Seq<char>>,
    proto: Option<Seq<char>>,
    reply: ReplyModel,
)
    requires
        resolved_text(config_toml) == Some(cfg),
        login_allows(config_toml, host, proto, Some(reply)),
        reply.body is Redirect,
    ensures
        reply.cookies.len() == 1,
        reply.cookies[0] matches CookieModel::Store { claims: ClaimsModel::Login(h), .. }
            && h.redirect_uri == callback_url(cfg.redirect_uri, host, proto) && login_outcome(
            cfg,
            h,
        ) == Some(reply),
{
    let redirect = callback_url(cfg.redirect_uri, host, proto);
    let h = choose|h: HandshakeModel|
        #![trigger login_outcome(cfg, h)]
        fresh_handshake(h, redirect) && Some(reply) == login_outcome(cfg, h);
    assert(login_outcome(cfg, h) == Some(reply));
}

/// A login where nothing is configured says so, and nothing else may be answered.
pub proof fn login_without_settings(
    config_toml: Seq<char>,
    host: Option<Seq<char>>,
    proto: Option<Seq<char>>,
    answer: Option<ReplyModel>,
)
    requires
        resolved_text(config_toml) is None,
    ensures
        login_allows(config_toml, host, proto, answer) <==> answer == Some(
            ReplyModel {
                cookies: Seq::empty(),
                body: BodyModel::Text(400, "Lark OAuth is not configured"@),
            },
        ),
{
}

/// A challenge is the text of the digest of the verifier: verifiers have the same
/// challenge exactly where their digests are the same, and the challenge is never the
/// text of anything else.
pub proof fn challenge_stands_for_the_digest(a: Seq<char>, b: Seq<char>, bytes: Seq<u8>)
    ensures
        challenge_of(a) == challenge_of(b) <==> sha256(encode_utf8(a)) == sha256(encode_utf8(b)),
        challenge_of(a) == base64_url(bytes) <==> bytes == sha256(encode_utf8(a)),
{
    if challenge_of(a) == challenge_of(b) {
        tokens_tell_bytes_apart(sha256(encode_utf8(a)), sha256(encode_utf8(b)));
    }
    if challenge_of(a) == base64_url(bytes) {
        tokens_tell_bytes_apart(sha256(encode_utf8(a)), bytes);
    }
}

// ---- finishing a sign-in ----------------------------------------------------

/// What the token endpoint is told, in full: on the API host of the settings, who asks,
/// the code, the callback and the verifier. It is told nothing else.
pub proof fn token_endpoint_is_told(
    cfg: OAuthModel,
    code: Seq<char>,
    verifier: Seq<char>,
    redirect: Seq<char>,
)
    ensures
        ({
            let request = token_request(cfg, code, verifier, redirect);
            &&& request.url == cfg.open_base + "/open-apis/authen/v2/oauth/token"@
            &&& value_of(request.fields, "grant_type"@) == Some("authorization_code"@)
            &&& value_of(request.fields, "client_id"@) == Some(cfg.app_id)
            &&& value_of(request.fields, "client_secret"@) == Some(cfg.app_secret)
            &&& value_of(request.fields, "code"@) == Some(code)
            &&& value_of(request.fields, "redirect_uri"@) == Some(redirect)
            &&& value_of(request.fields, "code_verifier"@) == Some(verifier)
            &&& request.fields.len() == 6
        }),
{
    token_values(cfg, code, verifier, redirect);
    let fields = token_request(cfg, code, verifier, redirect).fields;
    assert(fields[0].0 == "grant_type"@);
    value_stands_at(fields, "grant_type"@, 0);
}

/// Settings with different API hosts have their code traded, and their account looked
/// up, at different addresses; the rest of the address is the same for all.
pub proof fn each_platform_is_asked_itself(
    a: OAuthModel,
    b: OAuthModel,
    code: Seq<char>,
    verifier: Seq<char>,
    redirect: Seq<char>,
    token: Seq<char>,
)
    ensures
        a.open_base == b.open_base <==> token_request(a, code, verifier, redirect).url
            == token_request(b, code, verifier, redirect).url,
        a.open_base == b.open_base <==> user_request(a, token).url == user_request(b, token).url,
        user_request(a, token).url == a.open_base + "/open-apis/authen/v1/user_info"@,
        user_request(a, token).bearer == token,
{
    same_with_the_same_end(a.open_base, b.open_base, "/open-apis/authen/v2/oauth/token"@);
    same_with_the_same_end(a.open_base, b.open_base, "/open-apis/authen/v1/user_info"@);
}

proof fn same_with_the_same_end(a: Seq<char>, b: Seq<char>, end: Seq<char>)
    ensures
        a + end == b + end <==> a == b,
{
    if a + end == b + end {
        assert((a + end).len() == (b + end).len());
        assert((a + end).take(a.len() as int) =~= a);
        assert((b + end).take(b.len() as int) =~= b);
    }
}

/// A callback that brings the handshake's own state and a code goes on to trade the code
/// with the settings that hold, the verifier and the callback of the handshake.
pub proof fn good_callback_trades_its_code(
    cfg: OAuthModel,
    h: HandshakeModel,
    code: Seq<char>,
)
    ensures
        callback_step(
            LoginCookieModel::Valid(h),
            QueryModel { code: Some(code), state: Some(h.state), error: None },
            Some(cfg),
        ) matches StepModel::Exchange(p) && p.cfg == cfg && p.redirect_uri == h.redirect_uri
            && p.request.url == cfg.open_base + "/open-apis/authen/v2/oauth/token"@ && value_of(
            p.request.fields,
            "code"@,
        ) == Some(code) && value_of(p.request.fields, "code_verifier"@) == Some(h.verifier)
            && value_of(p.request.fields, "redirect_uri"@) == Some(h.redirect_uri) && value_of(
            p.request.fields,
            "client_id"@,
        ) == Some(cfg.app_id) && value_of(p.request.fields, "client_secret"@) == Some(
            cfg.app_secret,
        ),
{
    token_endpoint_is_told(cfg, code, h.verifier, h.redirect_uri);
}

/// An answer that ends a handshake with a text.
pub open spec fn ended_with(step: StepModel, status: u16, text: Seq<char>) -> bool {
    step == StepModel::Finish(
        ReplyModel {
            cookies: seq![CookieModel::Remove { name: "lk_oauth"@, path: "/auth"@ }],
            body: BodyModel::Text(status, text),
        },
    )
}

/// Every callback that does not go on, with the answer that it gets. Of several reasons
/// the first in this order is given.
pub proof fn bad_callbacks_in_full(
    h: HandshakeModel,
    q: QueryModel,
    config: Option<OAuthModel>,
)
    ensures
        callback_step(LoginCookieModel::Missing, q, config) == StepModel::Finish(
            ReplyModel {
                cookies: Seq::empty(),
                body: BodyModel::Text(400, "login state missing or expired"@),
            },
        ),
        ended_with(
            callback_step(LoginCookieModel::Malformed, q, config),
            400,
            "bad login state"@,
        ),
        q.error matches Some(e) ==> ended_with(
            callback_step(LoginCookieModel::Valid(h), q, config),
            400,
            "Lark error: "@ + e,
        ),
        q.error is None && (q.code is None || q.state is None) ==> ended_with(
            callback_step(LoginCookieModel::Valid(h), q, config),
            400,
            "missing code or state"@,
        ),
        q.error is None && q.code is Some && q.state is Some && q.state != Some(h.state)
            ==> ended_with(
            callback_step(LoginCookieModel::Valid(h), q, config),
            400,
            "state mismatch"@,
        ),
        q.error is None && q.code is Some && q.state == Some(h.state) && config is None
            ==> ended_with(
            callback_step(LoginCookieModel::Valid(h), q, config),
            400,
            "Lark OAuth is not configured"@,
        ),
{
}

/// A token leads to the account behind it, with the settings and the callback that the
/// exchange had; no token ends the handshake.
pub proof fn token_leads_to_its_account(p: ExchangeModel, token: Seq<char>)
    ensures
        token_step(p, Some(token)) matches StepModel::FetchUser(next) && next.cfg == p.cfg
            && next.redirect_uri == p.redirect_uri && next.request.url == p.cfg.open_base
            + "/open-apis/authen/v1/user_info"@ && next.request.bearer == token,
        ended_with(token_step(p, None), 502, "token exchange failed"@),
{
}

/// A token comes back exactly where a reply came that is JSON with a text under
/// `access_token`, and it is that text. What is reported of any other reply says which
/// it was.
pub proof fn token_replies_in_full(
    body: Seq<u8>,
    status: Seq<char>,
    not_json: Seq<char>,
    token: Seq<char>,
)
    ensures
        token_received(Some(body)) == Some(token) <==> (json_document(body) matches Some(t)
            && text_under(t, "access_token"@) == Some(token)),
        token_received(None) is None,
        exchange_outcome(status, body, not_json) == Ok::<Seq<char>, Seq<char>>(token) <==> (
        json_document(body) matches Some(t) && text_under(t, "access_token"@) == Some(token)),
        json_document(body) is None ==> exchange_outcome(status, body, not_json) == Err::<
            Seq<char>,
            Seq<char>,
        >(not_json) && token_in(body) == Err::<Seq<char>, TokenError>(TokenError::NotJson),
        json_document(body) matches Some(t) ==> text_under(t, "access_token"@) is None ==> token_in(
            body,
        ) == Err::<Seq<char>, TokenError>(TokenError::NoAccessToken) && exchange_outcome(
            status,
            body,
            not_json,
        ) == Err::<Seq<char>, Seq<char>>(
            "status="@ + status + " body="@ + json_compact(body)->0,
        ),
{
}

/// An account comes back exactly where a reply came that is JSON and has one. What is
/// reported of any other reply says which it was.
pub proof fn account_replies_in_full(
    body: Seq<u8>,
    status: Seq<char>,
    not_json: Seq<char>,
    unreadable: Seq<char>,
    user: UserModel,
)
    ensures
        user_received(Some(body)) == Some(user) <==> (json_document(body) matches Some(t)
            && user_info(t) == Ok::<UserModel, UserError>(user)),
        user_received(None) is None,
        fetch_outcome(status, body, not_json, unreadable) == Ok::<UserModel, Seq<char>>(user) <==> (
        json_document(body) matches Some(t) && user_info(t) == Ok::<UserModel, UserError>(user)),
        json_document(body) is None ==> fetch_outcome(status, body, not_json, unreadable) == Err::<
            UserModel,
            Seq<char>,
        >(not_json) && user_in(body) == Err::<UserModel, UserError>(UserError::NotJson),
        json_document(body) matches Some(t) ==> user_info(t) == Err::<UserModel, UserError>(
            UserError::NoUserData,
        ) ==> fetch_outcome(status, body, not_json, unreadable) == Err::<UserModel, Seq<char>>(
            "no user data (status="@ + status + ")"@,
        ),
        json_document(body) matches Some(t) ==> user_info(t) == Err::<UserModel, UserError>(
            UserError::Unreadable,
        ) ==> fetch_outcome(status, body, not_json, unreadable) == Err::<UserModel, Seq<char>>(
            unreadable,
        ),
{
}

/// The answer to an account that may sign in, in full: to the console, without the
/// handshake and with a session that names the account, shows its name and lasts a week.
pub proof fn sign_in_in_full(p: PendingUserModel, user: UserModel, now: u64)
    requires
        may_sign_in(p.cfg.admins, user),
        now + 604_800 <= u64::MAX,
    ensures
        sign_in_reply(p, Some(user), now) == (ReplyModel {
            cookies: seq![
                CookieModel::Remove { name: "lk_oauth"@, path: "/auth"@ },
                CookieModel::Store {
                    name: "lk_session"@,
                    claims: ClaimsModel::SignedIn(
                        SessionModel {
                            email: identity(user),
                            name: if user.name is Some {
                                user.name->0
                            } else {
                                Seq::empty()
                            },
                            exp: (now + 604_800) as u64,
                        },
                    ),
                    path: "/"@,
                    http_only: true,
                    same_site: SameSite::Lax,
                    secure: over_tls(p.redirect_uri),
                },
            ],
            body: BodyModel::Redirect("/"@),
        }),
        minted(user, now).exp == now + 604_800,
{
}

/// The answers to no account and to one that may not sign in, in full.
pub proof fn no_sign_in_in_full(p: PendingUserModel, user: UserModel, now: u64)
    ensures
        ended_with(
            StepModel::Finish(sign_in_reply(p, None, now)),
            502,
            "could not fetch Lark user info"@,
        ),
        !may_sign_in(p.cfg.admins, user) ==> ended_with(
            StepModel::Finish(sign_in_reply(p, Some(user), now)),
            403,
            "This Lark account is not allowed to access the console."@,
        ),
{
}

/// The reply that names one address of an account leads, where the address is listed, to
/// a session under that address; where the list is of others, to a refusal. It does not
/// matter under which of the two names the address came.
pub proof fn listed_address_signs_in(p: PendingUserModel, address: Seq<char>, now: u64)
    requires
        trimmed(address).len() > 0,
        p.cfg.admins.len() > 0,
        now + 604_800 <= u64::MAX,
    ensures
        user_info(one_value_reply("enterprise_email"@, address)) matches Ok(user) && address_decides(
            p,
            user,
            address,
            now,
        ),
        user_info(one_value_reply("email"@, address)) matches Ok(user) && address_decides(
            p,
            user,
            address,
            now,
        ),
{
    one_value_is_read(address);
    let work = user_info(one_value_reply("enterprise_email"@, address))->Ok_0;
    let own = user_info(one_value_reply("email"@, address))->Ok_0;
    addresses_are_the_email_fields(work);
    addresses_are_the_email_fields(own);
    crate::laws::enterprise_address_comes_first(work);
    crate::laws::enterprise_address_comes_first(own);
    assert(addresses(work) =~= seq![folded(address)]);
    assert(addresses(own) =~= seq![folded(address)]);
    one_address_decides(p, work, address, now);
    one_address_decides(p, own, address, now);
}

/// Whether an account with one address is signed in under it exactly where it is listed.
pub open spec fn address_decides(
    p: PendingUserModel,
    user: UserModel,
    address: Seq<char>,
    now: u64,
) -> bool {
    let reply = sign_in_reply(p, Some(user), now);
    if p.cfg.admins.contains(lowercase(trimmed(address))) {
        &&& reply.body == BodyModel::Redirect("/"@)
        &&& reply.cookies.len() == 2
        &&& reply.cookies[1] matches CookieModel::Store {
            claims: ClaimsModel::SignedIn(session),
            ..
        }
        &&& session.email == lowercase(trimmed(address))
    } else {
        reply.body == BodyModel::Text(
            403,
            "This Lark account is not allowed to access the console."@,
        )
    }
}

proof fn one_address_decides(
    p: PendingUserModel,
    user: UserModel,
    address: Seq<char>,
    now: u64,
)
    requires
        p.cfg.admins.len() > 0,
        user.open_id is None,
        addresses(user) == seq![folded(address)],
        identity(user) == folded(address),
    ensures
        address_decides(p, user, address, now),
{
    assert(addresses(user)[0] == folded(address));
    assert(may_sign_in(p.cfg.admins, user) <==> p.cfg.admins.contains(folded(address))) by {
        if p.cfg.admins.contains(folded(address)) {
            assert(p.cfg.admins.contains(addresses(user)[0]));
        }
    }
}

/// An account with nothing but an open id signs in where the open id is listed as it
/// stands, under the open id.
pub proof fn listed_open_id_signs_in(p: PendingUserModel, id: Seq<char>, now: u64)
    requires
        p.cfg.admins.len() > 0,
        now + 604_800 <= u64::MAX,
    ensures
        user_info(one_value_reply("open_id"@, id)) matches Ok(user) && (may_sign_in(
            p.cfg.admins,
            user,
        ) <==> p.cfg.admins.contains(id)) && identity(user) == id,
{
    one_value_is_read(id);
    let user = user_info(one_value_reply("open_id"@, id))->Ok_0;
    addresses_are_the_email_fields(user);
    crate::laws::enterprise_address_comes_first(user);
    assert(addresses(user) =~= Seq::empty());
}

/// An account has an address exactly where the field is there and not blank, whatever
/// else stands in it.
pub proof fn any_text_is_an_address(
    before: Seq<char>,
    address: Seq<char>,
    after: Seq<char>,
)
    requires
        blank(before),
        tight(address),
        blank(after),
    ensures
        has_address(Some(before + address + after)) <==> address.len() > 0,
        !has_address(None),
{
    trimming_drops_what_is_around(before, address, after);
}

/// What the operator hears, in full.
pub proof fn notices_in_full(admins: Seq<Seq<char>>, user: UserModel)
    ensures
        admins.len() == 0 ==> notice(admins, user) == (NoticeModel::AnyoneMaySignIn {
            identity: identity(user),
        }),
        admins.len() > 0 && may_sign_in(admins, user) ==> notice(admins, user)
            == NoticeModel::Quiet,
        !may_sign_in(admins, user) && addresses(user).len() == 0 ==> notice(admins, user) == (
        NoticeModel::NoAddress { open_id: user.open_id }),
        !may_sign_in(admins, user) && addresses(user).len() > 0 ==> notice(admins, user) == (
        NoticeModel::NotListed { addresses: addresses(user), open_id: user.open_id }),
{
}

// ---- sessions ---------------------------------------------------------------

/// A request without a live session is refused, with a bare status and no cookie,
/// exactly where an app is bound.
pub proof fn refusals_in_full(configured: bool, session: Option<SessionModel>, now: u64)
    ensures
        refusal(configured, session, now) is Some <==> configured && !(session matches Some(s)
            && now <= s.exp),
        refusal(configured, session, now) matches Some(reply) ==> reply == (ReplyModel {
            cookies: Seq::empty(),
            body: BodyModel::Empty(401),
        }),
        refusal(configured, session, now) is None <==> admitted(configured, session, now),
{
}

/// The session of a request is the one that its cookie claims, as it stands, up to and
/// with its last second, and none after that.
pub proof fn session_counts_as_claimed(session: SessionModel, now: u64)
    ensures
        now <= session.exp ==> session_now(Some(session), now) == Some(session),
        now > session.exp ==> session_now(Some(session), now) is None,
        session_now(None, now) is None,
        live(Some(session), now) <==> now <= session.exp,
{
}

/// What the UI is told, in full: of a user, the address and the name of the session.
pub proof fn me_in_full(configured: bool, session: Option<SessionModel>, now: u64)
    ensures
        me_model(configured, session, now).auth_required == configured,
        me_model(configured, session, now).authenticated <==> configured && (session matches Some(
            s,
        ) && now <= s.exp),
        me_model(configured, session, now).user == (if configured && session is Some && now
            <= session->0.exp {
            Some(MeUserModel { email: session->0.email, name: session->0.name })
        } else {
            None
        }),
{
}

/// A secret gives a key exactly where it has thirty-two bytes or more, and the key is its
/// digest.
pub proof fn secret_gives_its_digest(secret: Seq<char>)
    ensures
        encode_utf8(secret).len() >= 32 ==> secret_key(Some(secret)) == Some(
            sha512(encode_utf8(secret)),
        ),
        encode_utf8(secret).len() < 32 ==> secret_key(Some(secret)) is None,
        secret_key(None) is None,
        usable_secret(secret) <==> encode_utf8(secret).len() >= 32,
{
}

/// A kept key is the first sixty-four bytes of what was kept; what has fewer is no key.
pub proof fn kept_key_is_what_was_kept(key: Seq<u8>, more: Seq<u8>)
    ensures
        key.len() == 64 ==> kept_key(Some(key + more)) == Some(key),
        key.len() < 64 ==> kept_key(Some(key)) is None,
        kept_key(None) is None,
{
    if key.len() == 64 {
        assert((key + more).take(64) =~= key);
    }
}

/// Unix time is the whole seconds since the epoch, and zero before it.
pub proof fn time_counts_from_the_epoch(reading: std::time::SystemTime, secs: u64)
    ensures
        span_since_epoch(reading) matches Some(span) ==> unix_time(reading) == whole_seconds(span),
        span_since_epoch(reading) is None ==> unix_time(reading) == 0,
        elapsed_seconds(Some(secs)) == secs,
        elapsed_seconds(None) == 0,
{
}

} // verus!
