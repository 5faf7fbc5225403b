//! What holds of the console's sign-in as a whole.

pub mod address;
pub mod answers;
mod calls;
pub mod reading;
pub mod settings;
pub mod views;
pub mod words;

use vstd::prelude::*;
use vstd::utf8::{encode_utf8, is_ascii_chars};

use crate::callback::{
    callback_step, handshake_over, identity, may_sign_in, minted, notice, sign_in_reply,
    token_step, ExchangeModel, LoginCookieModel, PendingUserModel, QueryModel, StepModel,
};
use crate::config::{
    accounts_base, callback_url, config_keys, config_view, local_host, registered, resolved,
    resolved_text, scope_to_request, AppModel, ConfigModel, OAuthModel,
};
use crate::jar::{JarModel, Sent};
use crate::lark::{addresses, has_address, token_request, user_request, UserModel};
use crate::login::{
    authorize_page, authorize_params, form_byte, form_pair, form_pairs, form_text, fragment_of,
    fresh_handshake, hex_digit, kept_in_forms, login_outcome, open_query, over_tls, parsed_base,
    query_is_bare, with_params, STATE_BYTES, VERIFIER_BYTES,
};
use crate::reply::{
    handshake_cookie, handshake_removed, session_cookie, session_removed, BodyModel, ClaimsModel,
    CookieModel, HandshakeModel, ReplyModel, SameSite, SessionModel, OAUTH_COOKIE, OAUTH_PATH,
    SESSION_COOKIE, SESSION_PATH,
};
use crate::session::{admitted, kept_key, live, me_model, KEY_BYTES, SESSION_TTL_SECS};
use crate::text::{
    after_first, all_blank, ascii_lowercase, before_first, before_first_step, first_occurrence,
    folded, folded_list, lowercase, occurs_at, present, trimmed, white_space,
    without_leading_space, without_trailing, without_trailing_space,
};
use crate::token::{
    base64_url, base64_url_len, byte_at, challenge_of, sextet, token_of, url_safe_char,
};
use crate::tree::{field, others_skippable, text_or_empty, TreeView};

verus! {

// ---- admission --------------------------------------------------------------

/// Until a usable app is bound the console is open: every request goes through,
/// whatever cookie it has, and the UI is told that no login is needed.
pub proof fn console_is_open_until_bound(
    config_toml: Seq<char>,
    session: Option<SessionModel>,
    now: u64,
)
    requires
        resolved_text(config_toml) is None,
    ensures
        admitted(resolved_text(config_toml) is Some, session, now),
        !me_model(resolved_text(config_toml) is Some, session, now).auth_required,
{
}

/// Once an app is bound, a request goes through exactly with a session that has
/// not expired.
pub proof fn bound_console_needs_live_session(
    config_toml: Seq<char>,
    session: Option<SessionModel>,
    now: u64,
)
    requires
        resolved_text(config_toml) is Some,
    ensures
        admitted(resolved_text(config_toml) is Some, session, now) <==> (session is Some
            && session->0.exp >= now),
{
}

/// The UI and admission agree: a request goes through exactly where the UI is told
/// that no login is needed or that the user is signed in.
pub proof fn me_agrees_with_admission(configured: bool, session: Option<SessionModel>, now: u64)
    ensures
        admitted(configured, session, now) <==> (!me_model(configured, session, now).auth_required
            || me_model(configured, session, now).authenticated),
        me_model(configured, session, now).authenticated <==> me_model(
            configured,
            session,
            now,
        ).user is Some,
{
}

/// A session counts from the moment it is minted for exactly its lifetime, and
/// never again after that.
pub proof fn session_lasts_its_lifetime(user: UserModel, now: u64, later: u64)
    requires
        now + SESSION_TTL_SECS <= u64::MAX,
    ensures
        live(Some(minted(user, now)), later) <==> later <= now + SESSION_TTL_SECS,
        live(Some(minted(user, now)), now),
{
}

/// A session that has expired does not count again.
pub proof fn expired_session_stays_expired(session: SessionModel, now: u64, later: u64)
    requires
        now <= later,
        !live(Some(session), now),
    ensures
        !live(Some(session), later),
{
}

// ---- the handshake ----------------------------------------------------------

/// The value under `key` in a list of parameters.
pub open spec fn value_of(list: Seq<(Seq<char>, Seq<char>)>, key: Seq<char>) -> Option<Seq<char>>
    decreases list.len(),
{
    if list.len() == 0 {
        None
    } else if list[0].0 == key {
        Some(list[0].1)
    } else {
        value_of(list.drop_first(), key)
    }
}

proof fn value_stands_at(list: Seq<(Seq<char>, Seq<char>)>, key: Seq<char>, i: int)
    requires
        0 <= i < list.len(),
        list[i].0 == key,
        forall|k: int| 0 <= k < i ==> (#[trigger] list[k]).0 != key,
    ensures
        value_of(list, key) == Some(list[i].1),
    decreases i,
{
    if i > 0 {
        assert(list[0].0 != key);
        assert forall|k: int| 0 <= k < i - 1 implies (#[trigger] list.drop_first()[k]).0 != key by {
            assert(list[k + 1].0 != key);
        }
        value_stands_at(list.drop_first(), key, i - 1);
    }
}

/// What the authorize page is told: the app, the callback, the state and the
/// challenge of the verifier.
proof fn authorize_values(
    cfg: OAuthModel,
    redirect: Seq<char>,
    state: Seq<char>,
    challenge: Seq<char>,
)
    ensures
        value_of(authorize_params(cfg, redirect, state, challenge), "client_id"@) == Some(
            cfg.app_id,
        ),
        value_of(authorize_params(cfg, redirect, state, challenge), "redirect_uri"@) == Some(
            redirect,
        ),
        value_of(authorize_params(cfg, redirect, state, challenge), "state"@) == Some(state),
        value_of(authorize_params(cfg, redirect, state, challenge), "code_challenge"@) == Some(
            challenge,
        ),
{
    reveal_strlit("client_id");
    reveal_strlit("redirect_uri");
    reveal_strlit("response_type");
    reveal_strlit("state");
    reveal_strlit("code_challenge");
    let list = authorize_params(cfg, redirect, state, challenge);
    assert(list[0].0.len() == 9 && list[1].0.len() == 12 && list[2].0.len() == 13);
    assert(list[3].0.len() == 5 && list[4].0.len() == 14);
    value_stands_at(list, "client_id"@, 0);
    value_stands_at(list, "redirect_uri"@, 1);
    value_stands_at(list, "state"@, 3);
    value_stands_at(list, "code_challenge"@, 4);
}

/// What the token endpoint is told.
proof fn token_values(
    cfg: OAuthModel,
    code: Seq<char>,
    verifier: Seq<char>,
    redirect_uri: Seq<char>,
)
    ensures
        value_of(token_request(cfg, code, verifier, redirect_uri).fields, "client_id"@) == Some(
            cfg.app_id,
        ),
        value_of(token_request(cfg, code, verifier, redirect_uri).fields, "client_secret"@)
            == Some(cfg.app_secret),
        value_of(token_request(cfg, code, verifier, redirect_uri).fields, "code"@) == Some(code),
        value_of(token_request(cfg, code, verifier, redirect_uri).fields, "redirect_uri"@) == Some(
            redirect_uri,
        ),
        value_of(token_request(cfg, code, verifier, redirect_uri).fields, "code_verifier"@)
            == Some(verifier),
{
    reveal_strlit("grant_type");
    reveal_strlit("client_id");
    reveal_strlit("client_secret");
    reveal_strlit("code");
    reveal_strlit("redirect_uri");
    reveal_strlit("code_verifier");
    let list = token_request(cfg, code, verifier, redirect_uri).fields;
    assert(list[0].0.len() == 10 && list[1].0.len() == 9 && list[2].0.len() == 13);
    assert(list[3].0.len() == 4 && list[4].0.len() == 12 && list[5].0.len() == 13);
    value_stands_at(list, "client_id"@, 1);
    value_stands_at(list, "client_secret"@, 2);
    value_stands_at(list, "code"@, 3);
    value_stands_at(list, "redirect_uri"@, 4);
    assert("client_secret"@[1] != "code_verifier"@[1]);
    value_stands_at(list, "code_verifier"@, 5);
}

/// A login that sends the browser away leaves exactly its handshake with it. When
/// Lark sends the browser back with a code and the state that it was told, the
/// callback goes on to trade the code: with the callback address that login
/// presented, and with the verifier whose challenge login sent ahead, whatever
/// the configuration has become meanwhile.
pub proof fn callback_completes_login(
    cfg: OAuthModel,
    h: HandshakeModel,
    reply: ReplyModel,
    later: OAuthModel,
    code: Seq<char>,
)
    requires
        login_outcome(cfg, h) == Some(reply),
        reply.body is Redirect,
    ensures
        ({
            let told = authorize_params(cfg, h.redirect_uri, h.state, challenge_of(h.verifier));
            let q = QueryModel { code: Some(code), state: value_of(told, "state"@), error: None };
            &&& reply.cookies.len() == 1
            &&& reply.cookies[0] matches CookieModel::Store { claims: ClaimsModel::Login(kept), .. }
            &&& callback_step(LoginCookieModel::Valid(kept), q, Some(later)) matches StepModel::Exchange(p)
            &&& value_of(p.request.fields, "code"@) == Some(code)
            &&& value_of(p.request.fields, "redirect_uri"@) is Some
            &&& value_of(p.request.fields, "redirect_uri"@) == value_of(told, "redirect_uri"@)
            &&& value_of(p.request.fields, "code_verifier"@) matches Some(verifier)
            &&& value_of(told, "code_challenge"@) == Some(challenge_of(verifier))
        }),
{
    authorize_values(cfg, h.redirect_uri, h.state, challenge_of(h.verifier));
    token_values(later, code, h.verifier, h.redirect_uri);
}

/// While the bound app stays the same, the token endpoint is told the client that
/// the authorize page was told.
pub proof fn one_client_throughout(
    cfg: OAuthModel,
    h: HandshakeModel,
    code: Seq<char>,
)
    ensures
        value_of(
            authorize_params(cfg, h.redirect_uri, h.state, challenge_of(h.verifier)),
            "client_id"@,
        ) == Some(cfg.app_id),
        value_of(
            token_request(cfg, code, h.verifier, h.redirect_uri).fields,
            "client_id"@,
        ) == Some(cfg.app_id),
{
    authorize_values(cfg, h.redirect_uri, h.state, challenge_of(h.verifier));
    token_values(cfg, code, h.verifier, h.redirect_uri);
}

/// A callback whose state is not the handshake's never reaches Lark: it is
/// answered with a client error.
pub proof fn foreign_state_is_refused(
    h: HandshakeModel,
    q: QueryModel,
    config: Option<OAuthModel>,
)
    requires
        q.state != Some(h.state),
    ensures
        callback_step(LoginCookieModel::Valid(h), q, config) matches StepModel::Finish(reply)
            && reply.body matches BodyModel::Text(status, _) && status == 400,
{
}

/// A callback without a handshake never reaches Lark, whatever else it brings.
pub proof fn no_handshake_is_refused(
    cookie: LoginCookieModel,
    q: QueryModel,
    config: Option<OAuthModel>,
)
    requires
        !(cookie is Valid),
    ensures
        callback_step(cookie, q, config) matches StepModel::Finish(reply) && reply.body
            matches BodyModel::Text(status, _) && status == 400,
{
}

/// What Lark reports is passed on, and ends the login: the code, if one came along,
/// is not traded.
pub proof fn lark_errors_are_passed_on(
    h: HandshakeModel,
    q: QueryModel,
    error: Seq<char>,
    config: Option<OAuthModel>,
)
    requires
        q.error == Some(error),
    ensures
        callback_step(LoginCookieModel::Valid(h), q, config) matches StepModel::Finish(reply)
            && reply.body == BodyModel::Text(400, "Lark error: "@ + error),
{
}

/// A login is answered however long its parameters are, as long as the authorize
/// page is no longer than a stored offset can tell and has no fragment.
pub proof fn plain_page_is_always_answered(cfg: OAuthModel, h: HandshakeModel)
    requires
        parsed_base(authorize_page(cfg)) matches Some(url) ==> !url.contains('#') && encode_utf8(
            url,
        ).len() <= u32::MAX,
    ensures
        login_outcome(cfg, h) is Some,
{
    if parsed_base(authorize_page(cfg)) is Some {
        let url = parsed_base(authorize_page(cfg))->0;
        nothing_before(url, '#');
    }
}

proof fn nothing_before(s: Seq<char>, c: char)
    requires
        !s.contains(c),
    ensures
        before_first(s, c) == s,
    decreases s.len(),
{
    if s.len() > 0 {
        assert(s.contains(s[0]));
        assert(!s.drop_first().contains(c)) by {
            if s.drop_first().contains(c) {
                let k = choose|k: int| 0 <= k < s.drop_first().len() && s.drop_first()[k] == c;
                assert(s[k + 1] == c);
            }
        }
        nothing_before(s.drop_first(), c);
        assert(seq![s[0]] + s.drop_first() =~= s);
    }
}

/// A login that does not send the browser away leaves nothing with it.
pub proof fn failed_login_leaves_nothing(cfg: OAuthModel, h: HandshakeModel, reply: ReplyModel)
    requires
        login_outcome(cfg, h) == Some(reply),
        !(reply.body is Redirect),
    ensures
        reply.cookies.len() == 0,
{
}

/// The handshake is consumed regardless of the outcome: wherever a callback that
/// brought a handshake cookie ends, its answer drops that cookie.
pub proof fn handshake_is_consumed(
    cookie: LoginCookieModel,
    q: QueryModel,
    config: Option<OAuthModel>,
    exchange: ExchangeModel,
    token: Option<Seq<char>>,
    pending: PendingUserModel,
    user: Option<UserModel>,
    now: u64,
)
    requires
        !(cookie is Missing),
    ensures
        callback_step(cookie, q, config) matches StepModel::Finish(reply)
            ==> reply.cookies.contains(handshake_removed()),
        token_step(exchange, token) matches StepModel::Finish(reply) ==> reply.cookies.contains(
            handshake_removed(),
        ),
        sign_in_reply(pending, user, now).cookies.contains(handshake_removed()),
{
    assert(seq![handshake_removed()][0] == handshake_removed());
    let r = sign_in_reply(pending, user, now);
    assert(r.cookies[0] == handshake_removed());
}

// ---- the authorize URL ------------------------------------------------------

/// The value of an upper-case hexadecimal digit.
pub open spec fn hex_value(c: char) -> int {
    if '0' <= c <= '9' {
        c as int - '0' as int
    } else {
        c as int - 'A' as int + 10
    }
}

/// The bytes that a text in form encoding stands for.
pub open spec fn form_decoded(s: Seq<char>) -> Seq<u8>
    decreases s.len(),
{
    if s.len() == 0 {
        Seq::empty()
    } else if s[0] == '+' {
        seq![0x20u8] + form_decoded(s.skip(1))
    } else if s[0] == '%' && s.len() >= 3 {
        seq![(hex_value(s[1]) * 16 + hex_value(s[2])) as u8] + form_decoded(s.skip(3))
    } else {
        seq![s[0] as u8] + form_decoded(s.skip(1))
    }
}

/// The keys and values that a query stands for, in bytes: it is cut at each separator,
/// and each part at its first equals sign.
pub open spec fn decoded_pairs(query: Seq<char>) -> Seq<(Seq<u8>, Seq<u8>)>
    decreases query.len(),
{
    if query.len() == 0 {
        Seq::empty()
    } else {
        let part = before_first(query, '&');
        seq![
            (form_decoded(before_first(part, '=')), form_decoded(after_first(part, '='))),
        ] + decoded_pairs(after_first(query, '&'))
    }
}

/// Some parameters in UTF-8.
pub open spec fn in_utf8(params: Seq<(Seq<char>, Seq<char>)>) -> Seq<(Seq<u8>, Seq<u8>)> {
    params.map_values(|p: (Seq<char>, Seq<char>)| (encode_utf8(p.0), encode_utf8(p.1)))
}

/// Whether a character can stand in a form-encoded text.
pub open spec fn in_forms(c: char) -> bool {
    url_safe(c) || c == '*' || c == '.' || c == '+' || c == '%'
}

proof fn form_byte_is_plain(b: u8)
    ensures
        0 < form_byte(b).len() <= 3,
        forall|i: int| 0 <= i < form_byte(b).len() ==> in_forms(#[trigger] form_byte(b)[i]),
{
}

proof fn form_text_is_plain(bytes: Seq<u8>)
    ensures
        forall|i: int| 0 <= i < form_text(bytes).len() ==> in_forms(#[trigger] form_text(bytes)[i]),
    decreases bytes.len(),
{
    if bytes.len() > 0 {
        let head = form_byte(bytes[0]);
        let tail = form_text(bytes.drop_first());
        form_byte_is_plain(bytes[0]);
        form_text_is_plain(bytes.drop_first());
        assert forall|i: int| 0 <= i < form_text(bytes).len() implies in_forms(
            #[trigger] form_text(bytes)[i],
        ) by {
            if i < head.len() {
                assert(form_text(bytes)[i] == head[i]);
            } else {
                assert(form_text(bytes)[i] == tail[i - head.len()]);
            }
        }
    }
}

/// Form encoding loses nothing: what it makes of some bytes stands for these bytes.
pub proof fn form_encoding_is_undone(bytes: Seq<u8>)
    ensures
        form_decoded(form_text(bytes)) == bytes,
    decreases bytes.len(),
{
    if bytes.len() > 0 {
        let b = bytes[0];
        let head = form_byte(b);
        let tail = form_text(bytes.drop_first());
        let s = form_text(bytes);
        form_byte_is_plain(b);
        form_encoding_is_undone(bytes.drop_first());
        assert(s == head + tail);
        assert(s.skip(head.len() as int) =~= tail);
        assert(s[0] == head[0]);
        if !kept_in_forms(b) && b != 0x20 {
            assert(s[1] == head[1] && s[2] == head[2]);
            let (high, low) = (b as int / 16, b as int % 16);
            assert(hex_value(hex_digit(high)) == high);
            assert(hex_value(hex_digit(low)) == low);
            assert((high * 16 + low) as u8 == b);
        }
        assert(form_decoded(s) =~= seq![b] + form_decoded(tail));
        assert(seq![b] + bytes.drop_first() =~= bytes);
    }
}

proof fn pair_is_undone(param: (Seq<char>, Seq<char>))
    ensures
        form_decoded(before_first(form_pair(param), '=')) == encode_utf8(param.0),
        form_decoded(after_first(form_pair(param), '=')) == encode_utf8(param.1),
        forall|i: int| 0 <= i < form_pair(param).len() ==> #[trigger] form_pair(param)[i] != '&',
        form_pair(param).len() > 0,
{
    let key = form_text(encode_utf8(param.0));
    let value = form_text(encode_utf8(param.1));
    let s = form_pair(param);
    form_text_is_plain(encode_utf8(param.0));
    form_text_is_plain(encode_utf8(param.1));
    assert forall|i: int| 0 <= i < key.len() implies #[trigger] s[i] != '=' by {
        assert(s[i] == key[i]);
    }
    assert(s[key.len() as int] == '=');
    before_first_step(s, '=', key.len() as int);
    assert(s.subrange(0, key.len() as int) =~= key);
    assert(s.skip(key.len() as int + 1) =~= value);
    form_encoding_is_undone(encode_utf8(param.0));
    form_encoding_is_undone(encode_utf8(param.1));
    assert forall|i: int| 0 <= i < s.len() implies #[trigger] s[i] != '&' by {
        if i < key.len() {
            assert(s[i] == key[i]);
        } else if i > key.len() {
            assert(s[i] == value[i - key.len() - 1]);
        }
    }
}

/// A query made of parameters stands for exactly these parameters, in order.
pub proof fn query_tells_the_parameters(params: Seq<(Seq<char>, Seq<char>)>)
    ensures
        decoded_pairs(form_pairs(params)) == in_utf8(params),
    decreases params.len(),
{
    if params.len() > 0 {
        let first = form_pair(params[0]);
        let q = form_pairs(params);
        let rest = params.drop_first();
        pair_is_undone(params[0]);
        query_tells_the_parameters(rest);
        assert forall|i: int| 0 <= i < first.len() implies #[trigger] q[i] != '&' by {
            assert(q[i] == first[i]);
        }
        before_first_step(q, '&', first.len() as int);
        assert(q.subrange(0, first.len() as int) =~= first);
        if params.len() == 1 {
            assert(after_first(q, '&') =~= Seq::empty());
            assert(rest =~= Seq::empty());
        } else {
            assert(q.skip(first.len() as int + 1) =~= form_pairs(rest));
        }
        assert(after_first(q, '&') == form_pairs(rest));
        assert(decoded_pairs(q) =~= seq![
            (encode_utf8(params[0].0), encode_utf8(params[0].1)),
        ] + in_utf8(rest));
        assert(decoded_pairs(q) =~= in_utf8(params));
    } else {
        assert(in_utf8(params) =~= Seq::empty());
    }
}

/// A login whose authorize page is a plain address sends the browser to that address
/// with a query that stands for exactly what the page is to be told.
pub proof fn login_goes_to_the_authorize_page(
    cfg: OAuthModel,
    h: HandshakeModel,
    reply: ReplyModel,
    url: Seq<char>,
)
    requires
        login_outcome(cfg, h) == Some(reply),
        parsed_base(authorize_page(cfg)) == Some(url),
        !url.contains('?'),
        !url.contains('#'),
    ensures
        reply.body matches BodyModel::Redirect(to) && before_first(to, '?') == url && decoded_pairs(
            after_first(to, '?'),
        ) == in_utf8(
            authorize_params(cfg, h.redirect_uri, h.state, challenge_of(h.verifier)),
        ),
{
    let params = authorize_params(cfg, h.redirect_uri, h.state, challenge_of(h.verifier));
    let query = form_pairs(params);
    let to = with_params(url, params);
    nothing_before(url, '#');
    reveal_strlit("?");
    let opened = url + "?"@;
    assert(open_query(url) == opened);
    assert forall|i: int| 0 <= i < url.len() implies #[trigger] opened[i] != '?' by {
        assert(url.contains(url[i]));
    }
    before_first_step(opened, '?', url.len() as int);
    assert(opened.subrange(0, url.len() as int) =~= url);
    assert(query_is_bare(url));
    assert(fragment_of(url) =~= Seq::empty());
    assert(to =~= opened + query);
    assert forall|i: int| 0 <= i < url.len() implies #[trigger] to[i] != '?' by {
        assert(to[i] == opened[i]);
    }
    assert(to[url.len() as int] == '?');
    before_first_step(to, '?', url.len() as int);
    assert(to.subrange(0, url.len() as int) =~= url);
    assert(to.skip(url.len() as int + 1) =~= query);
    query_tells_the_parameters(params);
}

// ---- who gets a session -----------------------------------------------------

/// Whether an answer stores a session.
pub open spec fn grants_session(r: ReplyModel) -> bool {
    exists|i: int|
        0 <= i < r.cookies.len() && (#[trigger] r.cookies[i]) matches CookieModel::Store {
            claims: ClaimsModel::SignedIn(_),
            ..
        }
}

/// Only the last step of a callback ever grants a session, and only to an account
/// that came back and may sign in.
pub proof fn only_allowed_accounts_get_sessions(
    cfg: OAuthModel,
    h: HandshakeModel,
    cookie: LoginCookieModel,
    q: QueryModel,
    config: Option<OAuthModel>,
    exchange: ExchangeModel,
    token: Option<Seq<char>>,
    pending: PendingUserModel,
    user: Option<UserModel>,
    now: u64,
)
    ensures
        login_outcome(cfg, h) matches Some(reply) ==> !grants_session(reply),
        callback_step(cookie, q, config) matches StepModel::Finish(reply) ==> !grants_session(
            reply,
        ),
        token_step(exchange, token) matches StepModel::Finish(reply) ==> !grants_session(reply),
        grants_session(sign_in_reply(pending, user, now)) <==> (user is Some && may_sign_in(
            pending.cfg.admins,
            user->0,
        )),
{
    let r = sign_in_reply(pending, user, now);
    if user is Some && may_sign_in(pending.cfg.admins, user->0) {
        assert(r.cookies[1] matches CookieModel::Store { claims: ClaimsModel::SignedIn(_), .. });
    }
}

/// A refused account is told so, and gets nothing but the end of its handshake.
pub proof fn refused_account_is_forbidden(pending: PendingUserModel, user: UserModel, now: u64)
    requires
        !may_sign_in(pending.cfg.admins, user),
    ensures
        sign_in_reply(pending, Some(user), now).body matches BodyModel::Text(status, _) && status
            == 403,
        sign_in_reply(pending, Some(user), now).cookies == seq![handshake_removed()],
{
}

/// An allowed account is signed in: the session that it gets admits its requests until
/// it expires, and the UI shows it by its identity.
pub proof fn allowed_account_is_signed_in(
    pending: PendingUserModel,
    user: UserModel,
    now: u64,
    later: u64,
)
    requires
        may_sign_in(pending.cfg.admins, user),
        now + SESSION_TTL_SECS <= u64::MAX,
    ensures
        ({
            let reply = sign_in_reply(pending, Some(user), now);
            &&& reply.body == BodyModel::Redirect("/"@)
            &&& reply.cookies.len() == 2
            &&& reply.cookies[1] matches CookieModel::Store {
                claims: ClaimsModel::SignedIn(session),
                ..
            }
            &&& admitted(true, Some(session), later) <==> later <= now + SESSION_TTL_SECS
            &&& later <= now + SESSION_TTL_SECS ==> (me_model(
                true,
                Some(session),
                later,
            ).user matches Some(shown) && shown.email == identity(user))
        }),
{
}

// ---- the allowlist ----------------------------------------------------------

/// Whether a configured entry names an account: by one of its addresses, however
/// the two are spelled, or by its open id.
pub open spec fn entry_names(entry: Seq<char>, user: UserModel) -> bool {
    &&& folded(entry).len() > 0
    &&& {
        ||| user.enterprise_email matches Some(e) && folded(e) == folded(entry)
        ||| user.email matches Some(e) && folded(e) == folded(entry)
        ||| user.open_id == Some(folded(entry))
    }
}

/// The allowlist, as it is configured, lets in exactly the accounts that one of its
/// entries names; one with nothing but blank entries lets everyone in.
pub proof fn allowlist_names_who_may_sign_in(configured: Seq<Seq<char>>, user: UserModel)
    ensures
        may_sign_in(folded_list(configured), user) <==> ((forall|i: int|
            0 <= i < configured.len() ==> folded(#[trigger] configured[i]).len() == 0) || (exists|
            i: int,
        |
            0 <= i < configured.len() && entry_names(#[trigger] configured[i], user))),
{
    let admins = folded_list(configured);
    let given = present(user.enterprise_email) + present(user.email);
    if admins.len() > 0 {
        folded_list_holds(configured, admins[0]);
        assert(admins.contains(admins[0]));
    }
    assert forall|i: int| 0 <= i < configured.len() implies (folded(#[trigger] configured[i]).len()
        > 0 <==> admins.contains(folded(configured[i]))) by {
        folded_list_holds(configured, folded(configured[i]));
    }
    if exists|i: int| 0 <= i < configured.len() && folded(#[trigger] configured[i]).len() > 0 {
        let i = choose|i: int| 0 <= i < configured.len() && folded(#[trigger] configured[i]).len() > 0;
        assert(admins.contains(folded(configured[i])));
        assert(admins.len() > 0);
    }
    if may_sign_in(admins, user) && admins.len() > 0 {
        if user.open_id matches Some(id) && admins.contains(id) {
            let id = user.open_id->0;
            folded_list_holds(configured, id);
            let i = choose|i: int| 0 <= i < configured.len() && folded(#[trigger] configured[i]) == id;
            assert(entry_names(configured[i], user));
        } else {
            let k = choose|k: int|
                0 <= k < addresses(user).len() && admins.contains(#[trigger] addresses(user)[k]);
            let a = addresses(user)[k];
            assert(addresses(user).contains(a));
            folded_list_holds(given, a);
            folded_list_holds(configured, a);
            let g = choose|g: int| 0 <= g < given.len() && folded(#[trigger] given[g]) == a;
            let i = choose|i: int| 0 <= i < configured.len() && folded(#[trigger] configured[i]) == a;
            assert(given[g] == user.enterprise_email->0 || given[g] == user.email->0);
            assert(entry_names(configured[i], user));
        }
    }
    if exists|i: int| 0 <= i < configured.len() && entry_names(#[trigger] configured[i], user) {
        let i = choose|i: int| 0 <= i < configured.len() && entry_names(#[trigger] configured[i], user);
        let a = folded(configured[i]);
        assert(admins.contains(a));
        if user.open_id != Some(a) {
            if user.enterprise_email matches Some(e) && folded(e) == a {
                assert(given[0] == user.enterprise_email->0);
            } else {
                assert(given.last() == user.email->0);
                assert(given[given.len() - 1] == user.email->0);
            }
            folded_list_holds(given, a);
            assert(addresses(user).contains(a));
            let k = choose|k: int| 0 <= k < addresses(user).len() && addresses(user)[k] == a;
            assert(admins.contains(addresses(user)[k]));
        }
    }
}

/// An empty allowlist lets any account in.
pub proof fn empty_allowlist_lets_everyone_in(user: UserModel)
    ensures
        may_sign_in(folded_list(Seq::empty()), user),
{
    allowlist_names_who_may_sign_in(Seq::empty(), user);
}

/// Two spellings of an address that differ in the case of ASCII letters fold to
/// the same.
pub proof fn case_does_not_matter(a: Seq<char>, b: Seq<char>)
    requires
        is_ascii_chars(trimmed(a)),
        is_ascii_chars(trimmed(b)),
        trimmed(a).len() == trimmed(b).len(),
        forall|i: int|
            0 <= i < trimmed(a).len() ==> ascii_lowercase(#[trigger] trimmed(a)[i])
                == ascii_lowercase(trimmed(b)[i]),
    ensures
        folded(a) == folded(b),
{
    assert(folded(a) =~= folded(b));
}

proof fn trimmed_at_head(s: Seq<char>)
    ensures
        without_leading_space(s).len() > 0 ==> !white_space(without_leading_space(s)[0]),
    decreases s.len(),
{
    if s.len() > 0 && white_space(s[0]) {
        trimmed_at_head(s.drop_first());
    }
}

proof fn trimmed_at_tail(s: Seq<char>)
    ensures
        without_trailing_space(s).len() <= s.len(),
        without_trailing_space(s) == s.take(without_trailing_space(s).len() as int),
        without_trailing_space(s).len() > 0 ==> !white_space(without_trailing_space(s).last()),
    decreases s.len(),
{
    if s.len() > 0 && white_space(s.last()) {
        trimmed_at_tail(s.drop_last());
        let n = without_trailing_space(s).len() as int;
        assert(s.drop_last().take(n) =~= s.take(n));
    } else {
        assert(s.take(s.len() as int) =~= s);
    }
}

/// White space around a text does not matter: a trimmed text has none left, so it
/// folds as the text itself does.
pub proof fn outer_space_does_not_matter(s: Seq<char>)
    ensures
        trimmed(s).len() > 0 ==> !white_space(trimmed(s)[0]) && !white_space(trimmed(s).last()),
        trimmed(trimmed(s)) == trimmed(s),
        folded(trimmed(s)) == folded(s),
{
    trimmed_at_head(s);
    trimmed_at_tail(without_leading_space(s));
    assert(without_leading_space(trimmed(s)) == trimmed(s));
    assert(without_trailing_space(trimmed(s)) == trimmed(s));
}

/// Whether a text is in the form in which addresses are compared: no `A` to `Z`, and
/// no white space at either end.
pub open spec fn in_normal_form(s: Seq<char>) -> bool {
    &&& forall|i: int| 0 <= i < s.len() ==> !('A' <= #[trigger] s[i] <= 'Z')
    &&& s.len() > 0 ==> !white_space(s[0]) && !white_space(s.last())
}

/// A folded text is in lower case and has no white space around it, folding it again
/// changes nothing, and it is empty exactly where the text is blank. This is said
/// of texts that are ASCII between the white space around them.
pub proof fn folded_texts_are_normal(s: Seq<char>)
    requires
        is_ascii_chars(trimmed(s)),
    ensures
        in_normal_form(folded(s)),
        is_ascii_chars(folded(s)),
        folded(s).len() == trimmed(s).len(),
        folded(folded(s)) == folded(s),
{
    outer_space_does_not_matter(s);
    let t = trimmed(s);
    let f = folded(s);
    assert forall|i: int| 0 <= i < f.len() implies !('A' <= #[trigger] f[i] <= 'Z') && (f[i] as u32)
        < 128 && white_space(f[i]) == white_space(t[i]) by {
        assert(f[i] == ascii_lowercase(t[i]));
        assert((t[i] as u32) < 128);
    }
    assert(is_ascii_chars(f));
    if f.len() > 0 {
        assert(f[f.len() - 1] == f.last() && t[t.len() - 1] == t.last());
    }
    assert(without_leading_space(f) == f);
    assert(without_trailing_space(f) == f);
    assert(folded(f) =~= f);
}

/// A folded list holds the folded form of each entry that is not blank, and nothing
/// else.
pub proof fn folded_list_holds(list: Seq<Seq<char>>, x: Seq<char>)
    ensures
        folded_list(list).contains(x) <==> x.len() > 0 && exists|i: int|
            0 <= i < list.len() && folded(#[trigger] list[i]) == x,
{
    let all = list.map_values(|s: Seq<char>| folded(s));
    let keep = |s: Seq<char>| s.len() > 0;
    assert(folded_list(list) == all.filter(keep));
    if folded_list(list).contains(x) {
        let i = choose|i: int| 0 <= i < folded_list(list).len() && folded_list(list)[i] == x;
        all.lemma_filter_pred(keep, i);
        all.lemma_filter_contains_rev(keep, x);
        let k = choose|k: int| 0 <= k < all.len() && all[k] == x;
        assert(folded(list[k]) == x);
    }
    if x.len() > 0 && exists|i: int| 0 <= i < list.len() && folded(#[trigger] list[i]) == x {
        let i = choose|i: int| 0 <= i < list.len() && folded(#[trigger] list[i]) == x;
        assert(all[i] == x);
        all.lemma_filter_contains(keep, i);
    }
}

/// Folding a text leaves nothing of it exactly where it is blank.
pub proof fn only_blank_texts_fold_to_nothing(s: Seq<char>)
    ensures
        folded(s).len() == 0 <==> trimmed(s).len() == 0,
{
}

/// A folded list holds something exactly where an entry is not blank, and it holds
/// the folded form of each such entry.
pub proof fn folded_list_holds_what_is_not_blank(list: Seq<Seq<char>>)
    ensures
        folded_list(list).len() == 0 <==> all_blank(list),
        forall|i: int|
            0 <= i < list.len() && trimmed(#[trigger] list[i]).len() > 0 ==> folded_list(
                list,
            ).contains(folded(list[i])),
{
    assert forall|i: int| 0 <= i < list.len() && trimmed(#[trigger] list[i]).len() > 0 implies
        folded_list(list).contains(folded(list[i])) by {
        only_blank_texts_fold_to_nothing(list[i]);
        folded_list_holds(list, folded(list[i]));
    }
    if folded_list(list).len() > 0 {
        let x = folded_list(list)[0];
        assert(folded_list(list).contains(x));
        folded_list_holds(list, x);
        let i = choose|i: int| 0 <= i < list.len() && folded(#[trigger] list[i]) == x;
        only_blank_texts_fold_to_nothing(list[i]);
        assert(trimmed(list[i]).len() > 0);
    }
}

/// The allowlist is what is configured, in normal form: each entry is the lower-case
/// form of a configured entry without the white space around it, and is not empty;
/// there is none exactly where all that is configured is blank. Where a configured
/// entry is ASCII between the white space around it, its form has no `A` to `Z` and
/// no white space at either end.
pub proof fn allowlist_is_normal(configured: Seq<Seq<char>>)
    ensures
        forall|k: int|
            #![trigger folded_list(configured)[k]]
            0 <= k < folded_list(configured).len() ==> folded_list(configured)[k].len() > 0
                && exists|i: int|
                0 <= i < configured.len() && folded_list(configured)[k] == lowercase(
                    trimmed(#[trigger] configured[i]),
                ),
        folded_list(configured).len() == 0 <==> all_blank(configured),
        forall|i: int|
            0 <= i < configured.len() && is_ascii_chars(trimmed(#[trigger] configured[i]))
                ==> in_normal_form(folded(configured[i])),
{
    let admins = folded_list(configured);
    assert forall|k: int| #![trigger admins[k]] 0 <= k < admins.len() implies admins[k].len() > 0
        && exists|i: int|
        0 <= i < configured.len() && admins[k] == lowercase(trimmed(#[trigger] configured[i])) by {
        assert(admins.contains(admins[k]));
        folded_list_holds(configured, admins[k]);
        let i = choose|i: int|
            0 <= i < configured.len() && folded(#[trigger] configured[i]) == admins[k];
        assert(admins[k] == lowercase(trimmed(configured[i])));
    }
    folded_list_holds_what_is_not_blank(configured);
    assert forall|i: int|
        0 <= i < configured.len() && is_ascii_chars(trimmed(#[trigger] configured[i])) implies
        in_normal_form(folded(configured[i])) by {
        folded_texts_are_normal(configured[i]);
    }
}

proof fn one_address(address: Option<Seq<char>>)
    ensures
        folded_list(present(address)) == (if has_address(address) {
            seq![folded(address->0)]
        } else {
            Seq::empty()
        }),
{
    let all = present(address).map_values(|s: Seq<char>| folded(s));
    let keep = |s: Seq<char>| s.len() > 0;
    reveal(Seq::filter);
    if address is Some {
        only_blank_texts_fold_to_nothing(address->0);
        assert(all.drop_last() =~= Seq::empty());
        assert(all.drop_last().filter(keep) =~= Seq::empty());
        assert(all.last() == folded(address->0));
    }
    assert(folded_list(present(address)) =~= (if has_address(address) {
        seq![folded(address->0)]
    } else {
        Seq::empty()
    }));
}

/// The addresses of an account are its two email fields, folded, the enterprise
/// address first, each where it is there and not blank. Nothing else of the account
/// matters.
pub proof fn addresses_are_the_email_fields(user: UserModel)
    ensures
        addresses(user) == (if has_address(user.enterprise_email) {
            seq![folded(user.enterprise_email->0)]
        } else {
            Seq::empty()
        }) + (if has_address(user.email) {
            seq![folded(user.email->0)]
        } else {
            Seq::empty()
        }),
        addresses(user).len() <= 2,
{
    let keep = |s: Seq<char>| s.len() > 0;
    let first = present(user.enterprise_email).map_values(|s: Seq<char>| folded(s));
    let second = present(user.email).map_values(|s: Seq<char>| folded(s));
    let given = present(user.enterprise_email) + present(user.email);
    assert(given.map_values(|s: Seq<char>| folded(s)) =~= first + second);
    Seq::filter_distributes_over_add(first, second, keep);
    one_address(user.enterprise_email);
    one_address(user.email);
    assert(addresses(user) == first.filter(keep) + second.filter(keep));
}

/// The addresses of an account are in normal form: each is the lower-case form of an
/// email field without the white space around it, and is not empty; a field is
/// represented exactly where it is not blank. Where a field is ASCII between the
/// white space around it, its form has no `A` to `Z` and no white space at either
/// end.
pub proof fn addresses_are_normal(user: UserModel)
    ensures
        forall|k: int|
            #![trigger addresses(user)[k]]
            0 <= k < addresses(user).len() ==> addresses(user)[k].len() > 0 && (
            (user.enterprise_email matches Some(e) && addresses(user)[k] == lowercase(trimmed(e)))
                || (user.email matches Some(e) && addresses(user)[k] == lowercase(trimmed(e)))),
        has_address(user.enterprise_email) ==> addresses(user).contains(
            folded(user.enterprise_email->0),
        ),
        has_address(user.email) ==> addresses(user).contains(folded(user.email->0)),
        addresses(user).len() == 0 <==> !has_address(user.enterprise_email) && !has_address(
            user.email,
        ),
        user.enterprise_email matches Some(e) ==> is_ascii_chars(trimmed(e)) ==> in_normal_form(
            folded(e),
        ),
        user.email matches Some(e) ==> is_ascii_chars(trimmed(e)) ==> in_normal_form(folded(e)),
{
    addresses_are_the_email_fields(user);
    let both = addresses(user);
    if user.enterprise_email is Some {
        only_blank_texts_fold_to_nothing(user.enterprise_email->0);
        if is_ascii_chars(trimmed(user.enterprise_email->0)) {
            folded_texts_are_normal(user.enterprise_email->0);
        }
        if has_address(user.enterprise_email) {
            assert(both[0] == folded(user.enterprise_email->0));
        }
    }
    if user.email is Some {
        only_blank_texts_fold_to_nothing(user.email->0);
        if is_ascii_chars(trimmed(user.email->0)) {
            folded_texts_are_normal(user.email->0);
        }
        if has_address(user.email) {
            assert(both[both.len() - 1] == folded(user.email->0));
        }
    }
}

/// A session names its account by the enterprise address where there is one, else
/// by the other address, else by the open id.
pub proof fn enterprise_address_comes_first(user: UserModel)
    ensures
        identity(user) == (if has_address(user.enterprise_email) {
            folded(user.enterprise_email->0)
        } else if has_address(user.email) {
            folded(user.email->0)
        } else {
            text_or_empty(user.open_id)
        }),
{
    addresses_are_the_email_fields(user);
}

/// An operator hears of every account that signs in without an allowlist and of
/// every one that is refused, and of no other.
pub proof fn operator_hears_of_open_and_refused_sign_ins(
    admins: Seq<Seq<char>>,
    user: UserModel,
)
    ensures
        notice(admins, user) is AnyoneMaySignIn <==> admins.len() == 0,
        notice(admins, user) is Quiet <==> admins.len() > 0 && may_sign_in(admins, user),
        (notice(admins, user) is NoAddress || notice(admins, user) is NotListed)
            <==> !may_sign_in(admins, user),
{
}

// ---- resolution -------------------------------------------------------------

/// Other sections do not matter, as long as they hold no number that is too large to
/// be read: two documents with the same `[console]` and `[lark-apps]` say the same
/// about signing in.
pub proof fn other_sections_do_not_matter(a: TreeView, b: TreeView)
    requires
        a is Table,
        b is Table,
        others_skippable(a, config_keys()),
        others_skippable(b, config_keys()),
        field(a, "console"@) == field(b, "console"@),
        field(a, "lark-apps"@) == field(b, "lark-apps"@),
    ensures
        config_view(a) == config_view(b),
{
}

/// The settings resolve exactly where `[console]` binds a registered app that has
/// both its id and its secret.
pub proof fn binding_decides(c: ConfigModel)
    ensures
        resolved(c) is Some <==> (c.console.lark_app matches Some(name) && registered(
            c.lark_apps,
            name,
        ) matches Some(app) && app.app_id.len() > 0 && app.app_secret.len() > 0),
{
}

/// An app is registered exactly where an entry has its name.
pub proof fn registered_where_named(apps: Seq<(Seq<char>, AppModel)>, name: Seq<char>)
    ensures
        registered(apps, name) is Some <==> exists|i: int|
            0 <= i < apps.len() && (#[trigger] apps[i]).0 == name,
        registered(apps, name) matches Some(app) ==> apps.contains((name, app)),
    decreases apps.len(),
{
    if apps.len() > 0 {
        registered_where_named(apps.drop_first(), name);
        if apps[0].0 != name {
            if exists|i: int| 0 <= i < apps.len() && (#[trigger] apps[i]).0 == name {
                let i = choose|i: int| 0 <= i < apps.len() && (#[trigger] apps[i]).0 == name;
                assert(apps.drop_first()[i - 1].0 == name);
            }
            if registered(apps, name) is Some {
                let e = (name, registered(apps, name)->0);
                let k = choose|k: int|
                    0 <= k < apps.drop_first().len() && apps.drop_first()[k] == e;
                assert(apps[k + 1] == e);
            }
        } else {
            assert(apps[0] == (name, apps[0].1));
        }
    }
}

proof fn no_trailing(s: Seq<char>, c: char)
    ensures
        without_trailing(s, c).len() > 0 ==> without_trailing(s, c).last() != c,
    decreases s.len(),
{
    if s.len() > 0 && s.last() == c {
        no_trailing(s.drop_last(), c);
    }
}

/// Resolved settings are complete and in normal form: the app has its id and
/// secret, the API host ends in no slash, the authorize page belongs to that
/// host, and the allowlist is the configured one, folded, without blank entries.
pub proof fn resolved_settings_are_normal(c: ConfigModel)
    ensures
        resolved(c) matches Some(o) ==> {
            &&& o.app_id.len() > 0
            &&& o.app_secret.len() > 0
            &&& o.open_base.len() > 0 ==> o.open_base.last() != '/'
            &&& o.accounts_base == accounts_base(o.open_base)
            &&& o.admins == folded_list(c.console.admins)
            &&& forall|i: int| 0 <= i < o.admins.len() ==> (#[trigger] o.admins[i]).len() > 0
        },
{
    if resolved(c) is Some {
        let o = resolved(c)->0;
        let app = registered(c.lark_apps, c.console.lark_app->0)->0;
        if app.base_url.len() == 0 {
            reveal_strlit("https://open.larksuite.com");
        } else {
            no_trailing(app.base_url, '/');
        }
        assert forall|i: int| 0 <= i < o.admins.len() implies (#[trigger] o.admins[i]).len() > 0 by {
            folded_list_holds(c.console.admins, o.admins[i]);
            assert(o.admins.contains(o.admins[i]));
        }
    }
}

/// Every `https://open.` host has its authorize page on the `https://accounts.`
/// host of the same domain.
pub proof fn authorize_page_is_on_the_accounts_host(domain: Seq<char>)
    ensures
        accounts_base("https://open."@ + domain) == "https://accounts."@ + domain,
{
    reveal_strlit("https://open.");
    reveal_strlit("https://accounts.");
    reveal_strlit("://open.");
    reveal_strlit("://accounts.");
    let s = "https://open."@ + domain;
    let from = "://open."@;
    assert(s.subrange(5, 5 + from.len() as int) =~= from);
    assert(occurs_at(s, from, 5));
    assert forall|j: int| 0 <= j < 5 implies !occurs_at(s, from, j) by {
        if occurs_at(s, from, j) {
            assert(s.subrange(j, j + from.len())[0] == from[0]);
            assert(s[j] == ':');
        }
    }
    assert(first_occurrence(s, from, 5));
    let i = choose|i: int| first_occurrence(s, from, i);
    assert(first_occurrence(s, from, i));
    assert(i == 5) by {
        if i < 5 {
            assert(!occurs_at(s, from, i));
        }
        if i > 5 {
            assert(!occurs_at(s, from, 5));
        }
    }
    assert(accounts_base(s) =~= "https://accounts."@ + domain);
}

/// A host with no `open` part keeps the authorize page to itself.
pub proof fn other_hosts_keep_their_page(open_base: Seq<char>)
    requires
        forall|i: int| !occurs_at(open_base, "://open."@, i),
    ensures
        accounts_base(open_base) == open_base,
{
}

// ---- derived settings -------------------------------------------------------

/// An explicit scope wins, trimmed, whatever the allowlist is, and a blank one asks
/// for nothing. Without one, something is asked for exactly where there is an
/// allowlist.
pub proof fn explicit_scope_wins(
    scope: Option<Seq<char>>,
    admins: Seq<Seq<char>>,
    others: Seq<Seq<char>>,
)
    ensures
        scope is Some ==> scope_to_request(scope, admins) == scope_to_request(scope, others),
        scope matches Some(s) ==> trimmed(s).len() > 0 ==> scope_to_request(scope, admins) == Some(
            trimmed(s),
        ),
        scope matches Some(s) && trimmed(s).len() == 0 ==> scope_to_request(scope, admins) is None,
        scope is None ==> (scope_to_request(scope, admins) is Some <==> admins.len() > 0),
{
}

/// An explicit callback address wins verbatim, whatever the request says.
pub proof fn explicit_callback_wins(
    uri: Seq<char>,
    host: Option<Seq<char>>,
    forwarded_proto: Option<Seq<char>>,
)
    requires
        uri.len() > 0,
    ensures
        callback_url(Some(uri), host, forwarded_proto) == uri,
{
}

/// A callback address derived without a proxy is over TLS for exactly the hosts
/// that are not this machine.
pub proof fn derived_callback_is_over_tls_unless_local(host: Seq<char>)
    ensures
        over_tls(callback_url(None, Some(host), None)) <==> !local_host(host),
{
    reveal_strlit("http");
    reveal_strlit("https");
    reveal_strlit("://");
    reveal_strlit("https://");
    let url = callback_url(None, Some(host), None);
    if local_host(host) {
        assert(url[4] == ':');
        assert("https://"@[4] == 's');
    } else {
        assert(url.take(8) =~= "https://"@);
    }
}

// ---- cookies ----------------------------------------------------------------

proof fn names_differ()
    ensures
        SESSION_COOKIE@ != OAUTH_COOKIE@,
{
    reveal_strlit("lk_session");
    reveal_strlit("lk_oauth");
    assert(SESSION_COOKIE@.len() != OAUTH_COOKIE@.len());
}

/// What a response stores is what the jar gives back from then on, and no other
/// cookie changes.
pub proof fn stored_cookies_are_read_back(
    jar: JarModel,
    change: CookieModel,
    text: Seq<char>,
    other: Seq<char>,
)
    requires
        change is Store,
        other != change->Store_name,
    ensures
        jar.changed(change, text).value(change->Store_name) == Some(text),
        jar.changed(change, text).value(other) == jar.value(other),
{
}

/// A request with a handshake is answered without one, whatever the outcome: the
/// jar has none left, and the browser is told to drop the one that it sent.
pub proof fn handshake_leaves_the_jar(
    jar: JarModel,
    pending: PendingUserModel,
    user: Option<UserModel>,
    now: u64,
    status: u16,
    text: Seq<char>,
    spelled: Seq<Seq<char>>,
)
    requires
        jar.sent == Map::<Seq<char>, Sent>::empty(),
        jar.value(OAUTH_COOKIE@) is Some,
    ensures
        ({
            let refused = jar.after(handshake_over(status, text).cookies, spelled, 1);
            &&& refused.value(OAUTH_COOKIE@) is None
            &&& refused.value(SESSION_COOKIE@) == jar.value(SESSION_COOKIE@)
            &&& refused.sent == map![OAUTH_COOKIE@ => Sent::Removed { path: OAUTH_PATH@ }]
        }),
        ({
            let changes = sign_in_reply(pending, user, now).cookies;
            let answered = jar.after(changes, spelled, changes.len() as int);
            &&& answered.value(OAUTH_COOKIE@) is None
            &&& answered.sent.dom().contains(OAUTH_COOKIE@)
            &&& answered.sent[OAUTH_COOKIE@] == (Sent::Removed { path: OAUTH_PATH@ })
            &&& user is Some && may_sign_in(pending.cfg.admins, user->0) ==> answered.value(
                SESSION_COOKIE@,
            ) == Some(spelled[1])
        }),
{
    names_differ();
    reveal_with_fuel(JarModel::after, 3);
    let refused = jar.after(handshake_over(status, text).cookies, spelled, 1);
    assert(refused.sent =~= map![OAUTH_COOKIE@ => Sent::Removed { path: OAUTH_PATH@ }]);
}

/// After a logout the jar has no session, and the browser is told to drop the one
/// that it sent, if it sent one.
pub proof fn logout_ends_the_session(jar: JarModel, spelled: Seq<Seq<char>>)
    requires
        jar.sent == Map::<Seq<char>, Sent>::empty(),
    ensures
        ({
            let after = jar.after(seq![session_removed()], spelled, 1);
            &&& after.value(SESSION_COOKIE@) is None
            &&& after.value(OAUTH_COOKIE@) == jar.value(OAUTH_COOKIE@)
            &&& jar.value(SESSION_COOKIE@) is Some ==> after.sent
                == map![SESSION_COOKIE@ => Sent::Removed { path: SESSION_PATH@ }]
        }),
{
    names_differ();
    reveal_with_fuel(JarModel::after, 2);
    let after = jar.after(seq![session_removed()], spelled, 1);
    if jar.value(SESSION_COOKIE@) is Some {
        assert(after.sent =~= map![SESSION_COOKIE@ => Sent::Removed { path: SESSION_PATH@ }]);
    }
}

/// Logging out drops the very cookie that signing in stored, and the callback the
/// very cookie that login stored: the same name on the same path.
pub proof fn removals_match_what_was_stored(s: SessionModel, h: HandshakeModel, secure: bool)
    ensures
        session_cookie(s, secure) matches CookieModel::Store { name, path, .. }
            && session_removed() == (CookieModel::Remove { name, path }),
        handshake_cookie(h, secure) matches CookieModel::Store { name, path, .. }
            && handshake_removed() == (CookieModel::Remove { name, path }),
{
}

/// The two cookies do not touch each other.
pub proof fn cookies_have_names_of_their_own()
    ensures
        session_removed() != handshake_removed(),
{
    names_differ();
}

/// Whether a stored cookie is out of reach of scripts, held back on cross-site
/// requests, and sent over TLS only where `secure`.
pub open spec fn guarded(c: CookieModel, secure: bool) -> bool {
    c matches CookieModel::Store { http_only, same_site, secure: s, .. } ==> http_only && same_site
        == SameSite::Lax && s == secure
}

/// Every cookie that is stored is guarded, and is held to TLS exactly where the
/// callback address is over TLS.
pub proof fn stored_cookies_are_guarded(
    cfg: OAuthModel,
    h: HandshakeModel,
    pending: PendingUserModel,
    user: Option<UserModel>,
    now: u64,
)
    ensures
        login_outcome(cfg, h) matches Some(reply) ==> forall|i: int|
            0 <= i < reply.cookies.len() ==> guarded(
                #[trigger] reply.cookies[i],
                over_tls(h.redirect_uri),
            ),
        forall|i: int|
            0 <= i < sign_in_reply(pending, user, now).cookies.len() ==> guarded(
                #[trigger] sign_in_reply(pending, user, now).cookies[i],
                over_tls(pending.redirect_uri),
            ),
{
}

// ---- the flow as a whole ----------------------------------------------------

/// From the callback to the console: with the handshake's own state, a code, the
/// token that it buys and an account that may sign in, the flow goes through its
/// steps in order and ends in a session that admits requests for its lifetime.
pub proof fn whole_flow_signs_in(
    cfg: OAuthModel,
    h: HandshakeModel,
    code: Seq<char>,
    token: Seq<char>,
    user: UserModel,
    now: u64,
    later: u64,
)
    requires
        may_sign_in(cfg.admins, user),
        now + SESSION_TTL_SECS <= u64::MAX,
    ensures
        ({
            let q = QueryModel { code: Some(code), state: Some(h.state), error: None };
            &&& callback_step(LoginCookieModel::Valid(h), q, Some(cfg)) matches StepModel::Exchange(
                exchange,
            )
            &&& token_step(exchange, Some(token)) matches StepModel::FetchUser(pending)
            &&& pending.request.bearer == token
            &&& grants_session(sign_in_reply(pending, Some(user), now))
            &&& sign_in_reply(pending, Some(user), now).cookies[1] matches CookieModel::Store {
                claims: ClaimsModel::SignedIn(session),
                secure,
                ..
            }
            &&& secure == over_tls(h.redirect_uri)
            &&& admitted(true, Some(session), later) <==> later <= now + SESSION_TTL_SECS
        }),
{
    let pending = PendingUserModel {
        cfg,
        redirect_uri: h.redirect_uri,
        request: user_request(cfg, token),
    };
    let r = sign_in_reply(pending, Some(user), now);
    assert(r.cookies[1] matches CookieModel::Store { claims: ClaimsModel::SignedIn(_), .. });
    assert(grants_session(r));
}

// ---- keys and tokens --------------------------------------------------------

/// Sessions survive a restart: a fresh key, once it is kept, is the key that the
/// next start finds.
pub proof fn key_survives_restart(fresh: Seq<u8>)
    requires
        fresh.len() == KEY_BYTES,
    ensures
        kept_key(Some(fresh)) == Some(fresh),
{
    assert(fresh.take(KEY_BYTES as int) =~= fresh);
}

/// The characters that need no escaping in a URL, as far as tokens use them.
pub open spec fn url_safe(c: char) -> bool {
    ||| 'A' <= c <= 'Z'
    ||| 'a' <= c <= 'z'
    ||| '0' <= c <= '9'
    ||| c == '-'
    ||| c == '_'
}

proof fn sextet_range(bytes: Seq<u8>, i: int)
    ensures
        0 <= sextet(bytes, i) < 64,
{
    let j = i / 4 * 3;
    assert(0 <= byte_at(bytes, j) < 256);
    assert(0 <= byte_at(bytes, j + 1) < 256);
    assert(0 <= byte_at(bytes, j + 2) < 256);
}

/// The token of `n` bytes has the length that Base64 gives it, and nothing in it
/// needs escaping in a URL.
pub proof fn tokens_are_url_safe(s: Seq<char>, n: int)
    requires
        token_of(s, n),
    ensures
        s.len() == base64_url_len(n),
        forall|i: int| 0 <= i < s.len() ==> url_safe(#[trigger] s[i]),
{
    let bytes = choose|bytes: Seq<u8>|
        #![trigger base64_url(bytes)]
        bytes.len() == n && s == base64_url(bytes);
    assert forall|i: int| 0 <= i < s.len() implies url_safe(#[trigger] s[i]) by {
        sextet_range(bytes, i);
    }
}

/// A fresh handshake meets PKCE: its verifier has between 43 and 128 characters,
/// all of them unreserved. Its state needs no escaping in a URL either.
pub proof fn fresh_handshake_meets_pkce(h: HandshakeModel, redirect: Seq<char>)
    requires
        fresh_handshake(h, redirect),
    ensures
        h.state.len() == 32,
        43 <= h.verifier.len() <= 128,
        h.verifier.len() == 64,
        h.redirect_uri == redirect,
        forall|i: int| 0 <= i < h.state.len() ==> url_safe(#[trigger] h.state[i]),
        forall|i: int| 0 <= i < h.verifier.len() ==> url_safe(#[trigger] h.verifier[i]),
{
    tokens_are_url_safe(h.state, STATE_BYTES as int);
    tokens_are_url_safe(h.verifier, VERIFIER_BYTES as int);
}

proof fn url_safe_chars_differ(v: int, w: int)
    requires
        0 <= v < 64,
        0 <= w < 64,
        url_safe_char(v) == url_safe_char(w),
    ensures
        v == w,
{
}

/// Tokens tell their bytes apart: no two byte strings have the same token.
pub proof fn tokens_tell_bytes_apart(a: Seq<u8>, b: Seq<u8>)
    requires
        base64_url(a) == base64_url(b),
    ensures
        a == b,
{
    let n = a.len() as int;
    assert(base64_url(a).len() == base64_url_len(n));
    assert(base64_url(b).len() == base64_url_len(b.len() as int));
    assert(a.len() == b.len());
    assert forall|i: int| 0 <= i < base64_url_len(n) implies sextet(a, i) == sextet(b, i) by {
        sextet_range(a, i);
        sextet_range(b, i);
        assert(base64_url(a)[i] == url_safe_char(sextet(a, i)));
        assert(base64_url(b)[i] == url_safe_char(sextet(b, i)));
        url_safe_chars_differ(sextet(a, i), sextet(b, i));
    }
    assert forall|p: int| 0 <= p < n implies a[p] == b[p] by {
        let q = p / 3;
        let i = 4 * q + p % 3;
        assert(i + 1 < base64_url_len(n));
        assert(sextet(a, i) == sextet(b, i));
        assert(sextet(a, i + 1) == sextet(b, i + 1));
        assert(i / 4 == q && i % 4 == p % 3);
        assert((i + 1) / 4 == q && (i + 1) % 4 == p % 3 + 1);
        assert(byte_at(a, p) == a[p] && byte_at(b, p) == b[p]);
        assert(p == q * 3 + p % 3);
    }
    assert(a =~= b);
}

} // verus!
