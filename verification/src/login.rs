//! Starting the OAuth handshake.

use vstd::prelude::*;
use vstd::utf8::encode_utf8;

use crate::config::{
    callback_url, effective_scope, maybe_str, redirect_uri, resolve, resolved_text,
    scope_to_request, OAuthConfig, OAuthModel,
};
use crate::reply::{
    handshake_cookie, text_reply, Body, BodyModel, CookieChange, Handshake, HandshakeModel, Reply,
    ReplyModel,
};
use crate::text::{
    before_first, begins_with, has_char, maybe_text, push_pair, same, split_first, starts_with,
    text_pairs,
};
use crate::token::{challenge_of, pkce_challenge, rand_token, token_of};

verus! {

/// How many random bytes the `state` of a handshake is made from.
pub const STATE_BYTES: usize = 24;

/// How many random bytes the verifier of a handshake is made from.
pub const VERIFIER_BYTES: usize = 48;

// ---- making the URL ---------------------------------------------------------

/// The address that a text spells, in normal form, where it is an absolute URL.
pub uninterp spec fn parsed_base(base: Seq<char>) -> Option<Seq<char>>;

/// Whether form encoding keeps a byte as it is.
pub open spec fn kept_in_forms(b: u8) -> bool {
    ||| 0x30 <= b <= 0x39
    ||| 0x41 <= b <= 0x5a
    ||| 0x61 <= b <= 0x7a
    ||| b == 0x2a
    ||| b == 0x2d
    ||| b == 0x2e
    ||| b == 0x5f
}

/// The upper-case hexadecimal digit of a value below sixteen.
pub open spec fn hex_digit(v: int) -> char {
    if v < 10 {
        ('0' as int + v) as char
    } else {
        ('A' as int + (v - 10)) as char
    }
}

/// A byte in form encoding: a space becomes a plus sign, and what is not kept becomes
/// a percent sign with two digits.
pub open spec fn form_byte(b: u8) -> Seq<char> {
    if kept_in_forms(b) {
        seq![b as char]
    } else if b == 0x20 {
        seq!['+']
    } else {
        seq!['%', hex_digit(b as int / 16), hex_digit(b as int % 16)]
    }
}

/// Some bytes in form encoding.
pub open spec fn form_text(bytes: Seq<u8>) -> Seq<char>
    decreases bytes.len(),
{
    if bytes.len() == 0 {
        Seq::empty()
    } else {
        form_byte(bytes[0]) + form_text(bytes.drop_first())
    }
}

/// A parameter in form encoding.
pub open spec fn form_pair(param: (Seq<char>, Seq<char>)) -> Seq<char> {
    form_text(encode_utf8(param.0)) + seq!['='] + form_text(encode_utf8(param.1))
}

/// Some parameters in form encoding, with a separator between two.
pub open spec fn form_pairs(params: Seq<(Seq<char>, Seq<char>)>) -> Seq<char>
    decreases params.len(),
{
    if params.len() == 0 {
        Seq::empty()
    } else if params.len() == 1 {
        form_pair(params[0])
    } else {
        form_pair(params[0]) + seq!['&'] + form_pairs(params.drop_first())
    }
}

/// An address without its fragment.
pub open spec fn without_fragment(url: Seq<char>) -> Seq<char> {
    before_first(url, '#')
}

/// The fragment of an address with its sign, empty where it has none.
pub open spec fn fragment_of(url: Seq<char>) -> Seq<char> {
    url.skip(without_fragment(url).len() as int)
}

/// The address, without its fragment, to which parameters are added: with the
/// question mark that opens the query, where it has none yet.
pub open spec fn open_query(url: Seq<char>) -> Seq<char> {
    if without_fragment(url).contains('?') {
        without_fragment(url)
    } else {
        without_fragment(url) + "?"@
    }
}

/// Whether the query of an address holds nothing yet.
pub open spec fn query_is_bare(url: Seq<char>) -> bool {
    open_query(url) == before_first(open_query(url), '?') + "?"@
}

/// What stands between an address with an open query and the parameters: a
/// separator, where the query already holds something.
pub open spec fn joint(url: Seq<char>, params: Seq<(Seq<char>, Seq<char>)>) -> Seq<char> {
    if query_is_bare(url) || params.len() == 0 {
        Seq::empty()
    } else {
        seq!['&']
    }
}

/// An address with parameters added to its query.
pub open spec fn with_params(url: Seq<char>, params: Seq<(Seq<char>, Seq<char>)>) -> Seq<char> {
    open_query(url) + joint(url, params) + form_pairs(params) + fragment_of(url)
}

/// The address that a base and query parameters make, where the base is an
/// absolute URL.
pub open spec fn url_with_params(
    base: Seq<char>,
    params: Seq<(Seq<char>, Seq<char>)>,
) -> Option<Seq<char>> {
    match parsed_base(base) {
        Some(url) => Some(with_params(url, params)),
        None => None,
    }
}

/// Where the query of an address ends, in bytes, once parameters are added. What is
/// added takes a byte for each character.
pub open spec fn query_end(url: Seq<char>, params: Seq<(Seq<char>, Seq<char>)>) -> nat {
    encode_utf8(open_query(url)).len() + joint(url, params).len() + form_pairs(params).len()
}

/// Whether parameters can be added to an address. Where a query starts and where a
/// fragment starts is kept in 32 bits; nothing else is limited.
pub open spec fn takes_params(url: Seq<char>, params: Seq<(Seq<char>, Seq<char>)>) -> bool {
    &&& !without_fragment(url).contains('?') ==> encode_utf8(without_fragment(url)).len()
        <= u32::MAX
    &&& url.contains('#') ==> query_end(url, params) <= u32::MAX
}

/// Whether an address can be made of a base and parameters, or it is clear that
/// there is none.
pub open spec fn url_can_be_made(base: Seq<char>, params: Seq<(Seq<char>, Seq<char>)>) -> bool {
    parsed_base(base) matches Some(url) ==> takes_params(url, params)
}

/// `reqwest::Url::parse`, and the text of the URL: whether a text is an absolute
/// URL, and its normal form, depend on the text alone.
#[verifier::external_body]
fn parse_base(base: &str) -> (r: Option<String>)
    ensures
        maybe_text(r) == parsed_base(base@),
{
    reqwest::Url::parse(base).ok().map(|url| url.as_str().to_owned())
}

/// `reqwest::Url::parse_with_params`, and the text of the URL: where the base is an
/// absolute URL, the parameters are added to its query in form encoding, before its
/// fragment. The function panics where an offset that it stores does not fit in 32
/// bits.
#[verifier::external_body]
fn parse_url(base: &str, params: &Vec<(String, String)>) -> (r: Option<String>)
    requires
        parsed_base(base@) matches Some(url) ==> takes_params(url, text_pairs(params@)),
    ensures
        maybe_text(r) == url_with_params(base@, text_pairs(params@)),
{
    reqwest::Url::parse_with_params(base, params).ok().map(|url| url.as_str().to_owned())
}

/// The sum of `start` and the length of some bytes in form encoding; `None` where it
/// does not fit in 32 bits.
fn add_form_len(start: u32, bytes: &[u8]) -> (r: Option<u32>)
    ensures
        match r {
            Some(n) => n == start + form_text(bytes@).len(),
            None => start + form_text(bytes@).len() > u32::MAX,
        },
{
    let mut sum: u32 = start;
    let mut i: usize = 0;
    assert(bytes@.skip(0) =~= bytes@);
    while i < bytes.len()
        invariant
            i <= bytes.len(),
            start + form_text(bytes@).len() == sum + form_text(bytes@.skip(i as int)).len(),
        decreases bytes.len() - i,
    {
        let b: u8 = bytes[i];
        let kept = (0x30 <= b && b <= 0x39) || (0x41 <= b && b <= 0x5a) || (0x61 <= b && b <= 0x7a)
            || b == 0x2a || b == 0x2d || b == 0x2e || b == 0x5f;
        let step: u32 = if kept || b == 0x20 {
            1
        } else {
            3
        };
        assert(bytes@.skip(i as int).drop_first() =~= bytes@.skip(i + 1));
        assert(form_byte(b).len() == step);
        if sum > u32::MAX - step {
            return None;
        }
        sum = sum + step;
        i = i + 1;
    }
    Some(sum)
}

/// The sum of `start` and the length of some parameters in form encoding; `None`
/// where it does not fit in 32 bits.
fn add_params_len(start: u32, params: &Vec<(String, String)>) -> (r: Option<u32>)
    ensures
        match r {
            Some(n) => n == start + form_pairs(text_pairs(params@)).len(),
            None => start + form_pairs(text_pairs(params@)).len() > u32::MAX,
        },
{
    let ghost all = text_pairs(params@);
    let mut sum: u32 = start;
    let mut i: usize = 0;
    assert(all.skip(0) =~= all);
    while i < params.len()
        invariant
            i <= params.len(),
            all == text_pairs(params@),
            start + form_pairs(all).len() == sum + form_pairs(all.skip(i as int)).len(),
        decreases params.len() - i,
    {
        let ghost rest = all.skip(i as int);
        proof {
            assert(rest[0] == (params@[i as int].0@, params@[i as int].1@));
            assert(rest.drop_first() =~= all.skip(i + 1));
        }
        let with_key: u32 = add_form_len(sum, params[i].0.as_str().as_bytes())?;
        let with_value: u32 = add_form_len(with_key, params[i].1.as_str().as_bytes())?;
        let signs: u32 = if i + 1 < params.len() {
            2
        } else {
            1
        };
        if with_value > u32::MAX - signs {
            return None;
        }
        sum = with_value + signs;
        i = i + 1;
    }
    Some(sum)
}

/// Where the query of `url` ends once parameters are added; `None` beyond 32 bits.
pub fn find_query_end(url: &str, params: &Vec<(String, String)>) -> (r: Option<u32>)
    ensures
        match r {
            Some(n) => n == query_end(url@, text_pairs(params@)),
            None => query_end(url@, text_pairs(params@)) > u32::MAX,
        },
{
    let head = split_first(url, '#');
    let mut opened = head.to_owned();
    if !has_char(head, '?') {
        opened.append("?");
    }
    let mut path = split_first(opened.as_str(), '?').to_owned();
    path.append("?");
    let bare = same(path.as_str(), opened.as_str());
    let size: usize = opened.as_str().as_bytes().len();
    let separator: usize = if bare || params.is_empty() {
        0
    } else {
        1
    };
    if size > u32::MAX as usize - separator {
        return None;
    }
    add_params_len((size + separator) as u32, params)
}

/// Whether an address can be made of a base and parameters, or it is clear that
/// there is none.
fn can_be_made(base: &str, params: &Vec<(String, String)>) -> (r: bool)
    ensures
        r == url_can_be_made(base@, text_pairs(params@)),
{
    match parse_base(base) {
        None => true,
        Some(url) => {
            let head = split_first(url.as_str(), '#');
            if !has_char(head, '?') && head.as_bytes().len() > u32::MAX as usize {
                return false;
            }
            !has_char(url.as_str(), '#') || find_query_end(url.as_str(), params).is_some()
        },
    }
}

// ---- the answer -------------------------------------------------------------

/// The authorize page of a platform.
pub open spec fn authorize_page(cfg: OAuthModel) -> Seq<char> {
    cfg.accounts_base + "/open-apis/authen/v1/authorize"@
}

/// What the authorize page is told.
pub open spec fn authorize_params(
    cfg: OAuthModel,
    redirect: Seq<char>,
    state: Seq<char>,
    challenge: Seq<char>,
) -> Seq<(Seq<char>, Seq<char>)> {
    let base = seq![
        ("client_id"@, cfg.app_id),
        ("redirect_uri"@, redirect),
        ("response_type"@, "code"@),
        ("state"@, state),
        ("code_challenge"@, challenge),
        ("code_challenge_method"@, "S256"@),
    ];
    match scope_to_request(cfg.scope, cfg.admins) {
        Some(scope) => base.push(("scope"@, scope)),
        None => base,
    }
}

/// Whether a callback is reached over TLS.
pub open spec fn over_tls(redirect: Seq<char>) -> bool {
    begins_with(redirect, "https://"@)
}

/// The answer to a login once the authorize URL is made, or cannot be.
pub open spec fn login_reply(h: HandshakeModel, url: Option<Seq<char>>) -> ReplyModel {
    match url {
        Some(u) => ReplyModel {
            cookies: seq![handshake_cookie(h, over_tls(h.redirect_uri))],
            body: BodyModel::Redirect(u),
        },
        None => text_reply(500, "bad authorize URL"@),
    }
}

/// What the authorize page is told.
pub fn login_params(cfg: &OAuthConfig, redirect: &str, state: &str, challenge: &str) -> (r: Vec<
    (String, String),
>)
    ensures
        text_pairs(r@) == authorize_params(cfg@, redirect@, state@, challenge@),
{
    let mut params: Vec<(String, String)> = Vec::new();
    assert(text_pairs(params@) =~= Seq::empty());
    push_pair(&mut params, "client_id", cfg.app_id.as_str());
    push_pair(&mut params, "redirect_uri", redirect);
    push_pair(&mut params, "response_type", "code");
    push_pair(&mut params, "state", state);
    push_pair(&mut params, "code_challenge", challenge);
    push_pair(&mut params, "code_challenge_method", "S256");
    if let Some(scope) = effective_scope(cfg) {
        push_pair(&mut params, "scope", scope.as_str());
    }
    params
}

/// The answer to a login once the authorize URL is made, or cannot be.
pub fn login_answer(handshake: Handshake, url: Option<String>) -> (r: Reply)
    ensures
        r@ == login_reply(handshake@, maybe_text(url)),
{
    let secure = starts_with(handshake.redirect_uri.as_str(), "https://");
    match url {
        Some(u) => Reply::with_change(
            CookieChange::start_handshake(handshake, secure),
            Body::Redirect(u),
        ),
        None => Reply::text(500, "bad authorize URL"),
    }
}

/// The answer to a login with this handshake: `None` where the authorize URL
/// cannot be made.
pub open spec fn login_outcome(cfg: OAuthModel, h: HandshakeModel) -> Option<ReplyModel> {
    let params = authorize_params(cfg, h.redirect_uri, h.state, challenge_of(h.verifier));
    if url_can_be_made(authorize_page(cfg), params) {
        Some(login_reply(h, url_with_params(authorize_page(cfg), params)))
    } else {
        None
    }
}

/// What an answer that may be missing says.
pub open spec fn maybe_reply(r: Option<Reply>) -> Option<ReplyModel> {
    match r {
        Some(reply) => Some(reply@),
        None => None,
    }
}

/// Starts a handshake: a redirect to Lark's authorize page that carries the state
/// and the verifier's challenge, and the cookie that keeps the handshake itself.
pub fn login_with(cfg: &OAuthConfig, handshake: Handshake) -> (r: Option<Reply>)
    ensures
        maybe_reply(r) == login_outcome(cfg@, handshake@),
        r matches Some(reply) ==> (reply@.body is Redirect <==> parsed_base(
            authorize_page(cfg@),
        ) is Some),
{
    let challenge = pkce_challenge(handshake.verifier.as_str());
    let params = login_params(
        cfg,
        handshake.redirect_uri.as_str(),
        handshake.state.as_str(),
        challenge.as_str(),
    );
    let mut page = cfg.accounts_base.clone();
    page.append("/open-apis/authen/v1/authorize");
    if !can_be_made(page.as_str(), &params) {
        return None;
    }
    let url = parse_url(page.as_str(), &params);
    Some(login_answer(handshake, url))
}

/// Whether a handshake is fresh from the random generator, for this callback.
pub open spec fn fresh_handshake(h: HandshakeModel, redirect: Seq<char>) -> bool {
    &&& token_of(h.state, STATE_BYTES as int)
    &&& token_of(h.verifier, VERIFIER_BYTES as int)
    &&& h.redirect_uri == redirect
}

/// Whether a login may be answered so: where nothing is configured, that it is not;
/// otherwise with a handshake that is fresh, for the callback of this request.
pub open spec fn login_allows(
    config_toml: Seq<char>,
    host: Option<Seq<char>>,
    forwarded_proto: Option<Seq<char>>,
    answer: Option<ReplyModel>,
) -> bool {
    match resolved_text(config_toml) {
        None => answer == Some(text_reply(400, "Lark OAuth is not configured"@)),
        Some(cfg) => exists|h: HandshakeModel|
            #![trigger login_outcome(cfg, h)]
            fresh_handshake(h, callback_url(cfg.redirect_uri, host, forwarded_proto)) && answer
                == login_outcome(cfg, h),
    }
}

/// `GET /auth/login`: start the OAuth handshake and redirect to Lark. `host` and
/// `forwarded_proto` are the request's `Host` and `X-Forwarded-Proto` headers.
/// The state and the verifier are chance; the rest follows from them. `None`
/// where the authorize URL cannot be made.
pub fn login(config_toml: &str, host: Option<&str>, forwarded_proto: Option<&str>) -> (r: Option<
    Reply,
>)
    ensures
        match resolved_text(config_toml@) {
            None => maybe_reply(r) == Some(text_reply(400, "Lark OAuth is not configured"@)),
            Some(cfg) => exists|h: HandshakeModel|
                #![trigger login_outcome(cfg, h)]
                fresh_handshake(
                    h,
                    callback_url(cfg.redirect_uri, maybe_str(host), maybe_str(forwarded_proto)),
                ) && maybe_reply(r) == login_outcome(cfg, h),
        },
        login_allows(config_toml@, maybe_str(host), maybe_str(forwarded_proto), maybe_reply(r)),
        resolved_text(config_toml@) matches Some(cfg) ==> (r matches Some(reply) ==> (
        reply@.body is Redirect <==> parsed_base(authorize_page(cfg)) is Some)),
{
    let cfg = match resolve(config_toml) {
        Some(cfg) => cfg,
        None => {
            return Some(Reply::text(400, "Lark OAuth is not configured"));
        },
    };
    let redirect = redirect_uri(&cfg, host, forwarded_proto);
    let state = rand_token(STATE_BYTES);
    let verifier = rand_token(VERIFIER_BYTES);
    let handshake = Handshake { state, verifier, redirect_uri: redirect };
    let ghost h = handshake@;
    let r = login_with(&cfg, handshake);
    assert(maybe_reply(r) == login_outcome(cfg@, h));
    r
}

} // verus!
