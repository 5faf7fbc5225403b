use larkstack::callback::{
    after_exchange, after_token, after_user, callback, callback_with, is_allowed, sign_in,
    sign_in_notice, CallbackQuery, CallbackStep, LoginCookie, PendingExchange, PendingUser,
    SignInNotice,
};
use larkstack::config::OAuthConfig;
use larkstack::document::read_json;
use larkstack::lark::{
    exchange_code, exchange_result, fetch_result, fetch_user, read_token, read_user,
    token_failure, token_of_reply, user_failure, user_of_reply, TokenError, UserData, UserError,
};
use larkstack::login::{find_query_end, login, login_answer, login_params, login_with};
use larkstack::reply::{
    Body, Claims, CookieChange, Handshake, Reply, SameSite, Session, SetCookie,
};
use larkstack::token::pkce_challenge;
use larkstack::tree::Tree;

const BOUND: &str = "[lark-apps.m]\napp_id = \"i\"\napp_secret = \"t\"\n\
                     [console]\nlark_app = \"m\"\nadmins = [\"Ann@X.io\", \"ou_1\"]\n";

fn cfg(admins: &[&str]) -> OAuthConfig {
    OAuthConfig {
        app_id: "cli_x".into(),
        app_secret: "s3".into(),
        open_base: "https://open.larksuite.com".into(),
        accounts_base: "https://accounts.larksuite.com".into(),
        admins: admins.iter().map(|a| a.to_string()).collect(),
        redirect_uri: None,
        scope: None,
    }
}

fn handshake() -> Handshake {
    Handshake {
        state: "st".into(),
        verifier: "dBjftJeZ4CVP-mB92K27uhbUJU1p1r_wW1gFWFOEjXk".into(),
        redirect_uri: "https://c.x/auth/callback".into(),
    }
}

fn query(code: Option<&str>, state: Option<&str>, error: Option<&str>) -> CallbackQuery {
    CallbackQuery {
        code: code.map(str::to_string),
        state: state.map(str::to_string),
        error: error.map(str::to_string),
    }
}

fn stored(r: &Reply, at: usize) -> &SetCookie {
    match &r.cookies[at] {
        CookieChange::Store(c) => c,
        _ => panic!("a stored cookie"),
    }
}

fn removes_handshake(r: &Reply) -> bool {
    matches!(
        r.cookies.first(),
        Some(CookieChange::Remove {
            name: "lk_oauth",
            path: "/auth"
        })
    )
}

fn text(r: &Reply) -> (u16, &str) {
    match &r.body {
        Body::Text(status, text) => (*status, text.as_str()),
        _ => panic!("a text"),
    }
}

fn finished(step: CallbackStep) -> Reply {
    match step {
        CallbackStep::Finish(r) => r,
        _ => panic!("the end"),
    }
}

fn exchanging(step: CallbackStep) -> PendingExchange {
    match step {
        CallbackStep::Exchange(p) => p,
        _ => panic!("an exchange"),
    }
}

fn fetching(step: CallbackStep) -> PendingUser {
    match step {
        CallbackStep::FetchUser(p) => p,
        _ => panic!("a user request"),
    }
}

fn value<'a>(list: &'a [(String, String)], key: &str) -> Option<&'a str> {
    list.iter().find(|(k, _)| k == key).map(|(_, v)| v.as_str())
}

// ---- login ------------------------------------------------------------------

#[test]
fn login_needs_a_configured_app() {
    let r = login("", None, None).expect("an answer");
    assert_eq!(text(&r), (400, "Lark OAuth is not configured"));
    assert!(r.cookies.is_empty());
}

#[test]
fn login_redirects_with_the_challenge_and_keeps_the_verifier() {
    let r = login_with(&cfg(&[]), handshake()).expect("an answer");
    match &r.body {
        Body::Redirect(url) => assert_eq!(
            url,
            "https://accounts.larksuite.com/open-apis/authen/v1/authorize?client_id=cli_x\
             &redirect_uri=https%3A%2F%2Fc.x%2Fauth%2Fcallback&response_type=code&state=st\
             &code_challenge=E9Melhoa2OwvFrEMTJguCHaoeK1t8URWbuGJSstw-cM\
             &code_challenge_method=S256"
        ),
        _ => panic!("a redirect"),
    }
    assert_eq!(r.cookies.len(), 1);
    let c = stored(&r, 0);
    assert_eq!((c.name, c.path), ("lk_oauth", "/auth"));
    assert!(c.http_only && c.secure && c.same_site == SameSite::Lax);
    match &c.claims {
        Claims::Login(h) => {
            assert_eq!(h.state, "st");
            assert_eq!(h.verifier, handshake().verifier);
            assert_eq!(h.redirect_uri, "https://c.x/auth/callback");
        }
        _ => panic!("a handshake"),
    }
}

#[test]
fn login_draws_fresh_tokens() {
    let mut states = Vec::new();
    for _ in 0..2 {
        let r = login(BOUND, Some("localhost:3000"), None).expect("an answer");
        let c = stored(&r, 0);
        assert!(!c.secure);
        match &c.claims {
            Claims::Login(h) => {
                assert_eq!(h.redirect_uri, "http://localhost:3000/auth/callback");
                assert_eq!((h.state.len(), h.verifier.len()), (32, 64));
                match &r.body {
                    Body::Redirect(url) => {
                        assert!(url.contains(&format!("state={}&", h.state)));
                        assert!(url.contains(&format!(
                            "code_challenge={}&",
                            pkce_challenge(&h.verifier)
                        )));
                        assert!(url.contains("&scope=contact%3Auser.email%3Areadonly+"));
                    }
                    _ => panic!("a redirect"),
                }
                states.push(h.state.clone());
            }
            _ => panic!("a handshake"),
        }
    }
    assert_ne!(states[0], states[1]);
}

#[test]
fn login_reports_a_bad_authorize_url() {
    let mut c = cfg(&[]);
    c.accounts_base = "no scheme".into();
    let r = login_with(&c, handshake()).expect("an answer");
    assert_eq!(text(&r), (500, "bad authorize URL"));
    assert!(r.cookies.is_empty());
    assert_eq!(text(&login_answer(handshake(), None)), (500, "bad authorize URL"));
}

#[test]
fn login_redirects_with_parameters_of_any_length() {
    let mut c = cfg(&[]);
    c.app_id = "x".repeat(0x0400_0001);
    let r = login_with(&c, handshake()).expect("an answer");
    match &r.body {
        Body::Redirect(url) => {
            let start = "https://accounts.larksuite.com/open-apis/authen/v1/authorize?client_id=";
            assert!(url.starts_with(start));
            let rest = &url[start.len()..];
            assert_eq!(rest.find('&'), Some(0x0400_0001));
        }
        _ => panic!("a redirect"),
    }
}

fn authorize_url(accounts_base: &str) -> String {
    let mut c = cfg(&[]);
    c.accounts_base = accounts_base.into();
    match login_with(&c, handshake()).expect("an answer").body {
        Body::Redirect(url) => url,
        _ => panic!("a redirect"),
    }
}

#[test]
fn login_adds_to_the_query_and_keeps_the_fragment() {
    let url = authorize_url("https://a.x/?q=1");
    assert!(url.starts_with("https://a.x/?q=1/open-apis/authen/v1/authorize&client_id=cli_x&"));
    let url = authorize_url("https://a.x/#f");
    assert!(url.starts_with("https://a.x/?client_id=cli_x&"));
    assert!(url.ends_with("&code_challenge_method=S256#f/open-apis/authen/v1/authorize"));
}

#[test]
fn query_end_is_where_the_query_ends() {
    let pair = |k: &str, v: &str| (k.to_string(), v.to_string());
    let lists = [
        vec![],
        vec![pair("", "")],
        vec![pair("a b", "*-._0Zz"), pair("é", "+&=~%")],
        vec![pair("k", "v"), pair("k", "v"), pair("", "x y")],
    ];
    for base in [
        "https://a.x/#f",
        "https://a.x/?#f",
        "https://a.x/??#f",
        "https://a.x/p?q=1#f?",
        "https://a.x/é",
    ] {
        for list in &lists {
            let parsed = reqwest::Url::parse(base).expect("a URL");
            let made = reqwest::Url::parse_with_params(base, list).expect("a URL");
            let end = made.as_str().find('#').unwrap_or(made.as_str().len());
            assert_eq!(find_query_end(parsed.as_str(), list), Some(end as u32), "{base}");
        }
    }
}

#[test]
fn login_asks_for_a_scope_only_where_there_is_one() {
    let mut c = cfg(&[]);
    let p = login_params(&c, "r", "s", "ch");
    let keys: Vec<&str> = p.iter().map(|(k, _)| k.as_str()).collect();
    assert_eq!(
        keys,
        vec![
            "client_id",
            "redirect_uri",
            "response_type",
            "state",
            "code_challenge",
            "code_challenge_method"
        ]
    );
    c.scope = Some(" a:b ".into());
    let p = login_params(&c, "r", "s", "ch");
    assert_eq!(value(&p, "scope"), Some("a:b"));
    assert_eq!(p.len(), 7);
}

// ---- callback: the request --------------------------------------------------

#[test]
fn callback_refuses_bad_requests_in_order() {
    let q = || query(Some("c"), Some("st"), None);
    let r = finished(callback(LoginCookie::Missing, q(), BOUND));
    assert_eq!(text(&r), (400, "login state missing or expired"));
    assert!(r.cookies.is_empty());

    let valid = || LoginCookie::Valid(handshake());
    let cases = [
        (callback(LoginCookie::Malformed, q(), BOUND), "bad login state"),
        (
            callback(valid(), query(Some("c"), Some("st"), Some("access_denied")), BOUND),
            "Lark error: access_denied",
        ),
        (callback(valid(), query(None, Some("st"), None), BOUND), "missing code or state"),
        (callback(valid(), query(Some("c"), None, None), BOUND), "missing code or state"),
        (callback(valid(), query(Some("c"), Some("St"), None), BOUND), "state mismatch"),
        (callback(valid(), q(), ""), "Lark OAuth is not configured"),
    ];
    for (step, message) in cases {
        let r = finished(step);
        assert_eq!(text(&r), (400, message));
        assert!(removes_handshake(&r) && r.cookies.len() == 1);
    }
}

#[test]
fn callback_trades_the_code_with_the_pinned_address() {
    let p = exchanging(callback(
        LoginCookie::Valid(handshake()),
        query(Some("code7"), Some("st"), None),
        BOUND,
    ));
    assert_eq!(
        p.request.url,
        "https://open.larksuite.com/open-apis/authen/v2/oauth/token"
    );
    let f = &p.request.fields;
    assert_eq!(f.len(), 6);
    assert_eq!(value(f, "grant_type"), Some("authorization_code"));
    assert_eq!(value(f, "client_id"), Some("i"));
    assert_eq!(value(f, "client_secret"), Some("t"));
    assert_eq!(value(f, "code"), Some("code7"));
    assert_eq!(value(f, "redirect_uri"), Some("https://c.x/auth/callback"));
    assert_eq!(value(f, "code_verifier"), Some(handshake().verifier.as_str()));
    assert_eq!(p.redirect_uri, "https://c.x/auth/callback");
    assert_eq!(p.cfg.admins, vec!["ann@x.io", "ou_1"]);
}

#[test]
fn callback_completes_a_login() {
    let r = login(BOUND, Some("c.x"), None).expect("an answer");
    let h = match r.cookies.into_iter().next() {
        Some(CookieChange::Store(SetCookie {
            claims: Claims::Login(h),
            ..
        })) => h,
        _ => panic!("a handshake"),
    };
    let (state, verifier) = (h.state.clone(), h.verifier.clone());
    let p = exchanging(callback(
        LoginCookie::Valid(h),
        query(Some("c"), Some(&state), None),
        BOUND,
    ));
    assert_eq!(value(&p.request.fields, "code_verifier"), Some(verifier.as_str()));
    assert_eq!(
        value(&p.request.fields, "redirect_uri"),
        Some("https://c.x/auth/callback")
    );
    assert_eq!(
        exchange_code(&cfg(&[]), "c", "v", "r").fields.len(),
        p.request.fields.len()
    );
}

// ---- callback: the token ----------------------------------------------------

fn pending_exchange() -> PendingExchange {
    exchanging(callback_with(
        LoginCookie::Valid(handshake()),
        query(Some("c"), Some("st"), None),
        Some(cfg(&["ann@x.io", "ou_1"])),
    ))
}

#[test]
fn token_is_the_text_under_access_token() {
    assert_eq!(
        read_token(br#"{"code":0,"access_token":"tok","scope":"a b"}"#),
        Ok("tok".to_string())
    );
    assert_eq!(read_token(b"<html>"), Err(TokenError::NotJson));
    for body in [
        r#"{"code":20003}"#,
        r#"{"access_token":null}"#,
        r#"{"access_token":7}"#,
        r#"["tok"]"#,
        r#""tok""#,
    ] {
        assert_eq!(
            read_token(body.as_bytes()),
            Err(TokenError::NoAccessToken),
            "{body}"
        );
    }
    let t = Tree::Table(vec![("access_token".to_string(), Tree::Text("z".to_string()))]);
    assert_eq!(token_of_reply(&t), Some("z".to_string()));
    assert_eq!(token_of_reply(&Tree::Other), None);
}

#[test]
fn exchange_goes_on_to_the_user_or_ends() {
    let p = fetching(after_exchange(
        pending_exchange(),
        Some(br#"{"access_token":"tok"}"#),
    ));
    assert_eq!(
        p.request.url,
        "https://open.larksuite.com/open-apis/authen/v1/user_info"
    );
    assert_eq!(p.request.bearer, "tok");
    assert_eq!(p.redirect_uri, "https://c.x/auth/callback");
    for body in [None, Some(&b"{}"[..]), Some(&b""[..])] {
        let r = finished(after_exchange(pending_exchange(), body));
        assert_eq!(text(&r), (502, "token exchange failed"));
        assert!(removes_handshake(&r) && r.cookies.len() == 1);
    }
    assert_eq!(
        fetching(after_token(pending_exchange(), Some("u".to_string())))
            .request
            .bearer,
        fetch_user(&cfg(&[]), "u").bearer
    );
}

// ---- callback: the account --------------------------------------------------

fn pending_user(admins: &[&str]) -> PendingUser {
    PendingUser {
        cfg: cfg(admins),
        redirect_uri: "https://c.x/auth/callback".into(),
        request: fetch_user(&cfg(admins), "tok"),
    }
}

fn user(enterprise: Option<&str>, email: Option<&str>, open_id: Option<&str>) -> UserData {
    UserData {
        name: Some("Ann".into()),
        email: email.map(str::to_string),
        enterprise_email: enterprise.map(str::to_string),
        open_id: open_id.map(str::to_string),
    }
}

fn granted(r: &Reply) -> Option<&Session> {
    r.cookies.iter().find_map(|c| match c {
        CookieChange::Store(SetCookie {
            claims: Claims::SignedIn(s),
            ..
        }) => Some(s),
        _ => None,
    })
}

#[test]
fn user_stands_under_data() {
    let u = read_user(
        br#"{"code":0,"data":{"name":"Ann","email":null,"open_id":"ou_1","mobile":1}}"#,
    )
    .ok()
    .expect("a user");
    assert_eq!(u.name.as_deref(), Some("Ann"));
    assert_eq!(u.email, None);
    assert_eq!(u.enterprise_email, None);
    assert_eq!(u.open_id.as_deref(), Some("ou_1"));

    let errors = [
        ("{", UserError::NotJson),
        ("{}", UserError::NoUserData),
        (r#"{"data":null}"#, UserError::NoUserData),
        ("[]", UserError::NoUserData),
        ("7", UserError::Unreadable),
        ("null", UserError::Unreadable),
        (r#"{"data":7}"#, UserError::Unreadable),
        (r#"{"data":{"name":7}}"#, UserError::Unreadable),
        (r#"[null,1]"#, UserError::Unreadable),
        (r#"{"data":["a","b","c","d","e"]}"#, UserError::Unreadable),
    ];
    for (body, error) in errors {
        assert_eq!(read_user(body.as_bytes()).err(), Some(error), "{body}");
    }
    // records may be spelled by position
    let u = read_user(br#"[["Ann","a@x.io"]]"#).ok().expect("a user");
    assert_eq!(u.name.as_deref(), Some("Ann"));
    assert_eq!(u.email.as_deref(), Some("a@x.io"));
    assert_eq!(user_of_reply(&Tree::Null).err(), Some(UserError::Unreadable));
}

#[test]
fn read_json_spells_out_the_value() {
    assert!(matches!(read_json(b"null"), Some(Tree::Null)));
    assert!(matches!(read_json(b"1.5"), Some(Tree::Other)));
    assert!(matches!(read_json(b"true"), Some(Tree::Other)));
    assert!(matches!(read_json(b"\"a\""), Some(Tree::Text(s)) if s == "a"));
    assert!(read_json(b"\xff").is_none());
    let t = read_json(br#"{"b":[{"c":"d"}]}"#).expect("JSON");
    let inner = match t.field("b") {
        Some(Tree::List(items)) => &items[0],
        _ => panic!("a list"),
    };
    assert!(matches!(inner.field("c"), Some(Tree::Text(s)) if s == "d"));
}

#[test]
fn allowlist_matches_addresses_in_any_case_and_open_ids_as_they_stand() {
    let admins = vec!["ann@x.io".to_string(), "ou_1".to_string()];
    assert!(is_allowed(&admins, &user(Some(" ANN@X.io "), None, None)));
    assert!(is_allowed(&admins, &user(Some("b@x.io"), Some("ann@X.IO"), None)));
    assert!(is_allowed(&admins, &user(None, None, Some("ou_1"))));
    assert!(!is_allowed(&admins, &user(None, None, Some("OU_1"))));
    assert!(!is_allowed(&admins, &user(Some("b@x.io"), None, Some("ou_2"))));
    assert!(!is_allowed(&admins, &user(None, None, None)));
    assert!(is_allowed(&vec![], &user(None, None, None)));
}

#[test]
fn allowed_account_gets_a_session_for_its_lifetime() {
    let body = br#"{"data":{"name":"Ann","email":"Ann@x.io","enterprise_email":""}}"#;
    let r = after_user(pending_user(&["ann@x.io"]), Some(body), 1000);
    assert!(matches!(&r.body, Body::Redirect(to) if to == "/"));
    assert!(removes_handshake(&r) && r.cookies.len() == 2);
    let s = granted(&r).expect("a session");
    assert_eq!(
        (s.email.as_str(), s.name.as_str(), s.exp),
        ("ann@x.io", "Ann", 1000 + 7 * 24 * 3600)
    );
    let c = stored(&r, 1);
    assert_eq!((c.name, c.path), ("lk_session", "/"));
    assert!(c.http_only && c.secure && c.same_site == SameSite::Lax);
}

#[test]
fn refused_account_gets_nothing() {
    let r = sign_in(pending_user(&["ann@x.io"]), Some(user(None, Some("b@x.io"), None)), 1000);
    assert_eq!(
        text(&r),
        (403, "This Lark account is not allowed to access the console.")
    );
    assert!(removes_handshake(&r) && r.cookies.len() == 1 && granted(&r).is_none());
}

#[test]
fn missing_account_is_a_gateway_error() {
    for body in [None, Some(&b"{}"[..]), Some(&b"x"[..])] {
        let r = after_user(pending_user(&[]), body, 1000);
        assert_eq!(text(&r), (502, "could not fetch Lark user info"));
        assert!(removes_handshake(&r) && r.cookies.len() == 1);
    }
}

#[test]
fn session_is_named_by_the_best_identity() {
    let name = |u: UserData| {
        granted(&sign_in(pending_user(&[]), Some(u), 0))
            .expect("a session")
            .email
            .clone()
    };
    assert_eq!(name(user(Some("W@c.io"), Some("p@x.io"), Some("ou_1"))), "w@c.io");
    assert_eq!(name(user(Some(" "), Some("P@x.io"), Some("ou_1"))), "p@x.io");
    assert_eq!(name(user(None, None, Some("ou_1"))), "ou_1");
    assert_eq!(name(UserData::default()), "");
}

#[test]
fn session_over_plain_http_is_not_held_to_tls() {
    let mut p = pending_user(&[]);
    p.redirect_uri = "http://localhost:8080/auth/callback".into();
    let r = sign_in(p, Some(UserData::default()), 0);
    assert!(!stored(&r, 1).secure);
    assert_eq!(granted(&r).map(|s| s.name.as_str()), Some(""));
}

#[test]
fn failed_exchange_is_reported_with_status_and_body() {
    assert_eq!(
        exchange_result("400 Bad Request", b"{ \"error\" : \"x\" }", "no JSON"),
        Err("status=400 Bad Request body={\"error\":\"x\"}".to_string())
    );
    assert_eq!(
        exchange_result("400 Bad Request", br#"{"access_token":"t"}"#, "no JSON"),
        Ok("t".to_string())
    );
    assert_eq!(
        exchange_result("200 OK", b"<html>", "no JSON"),
        Err("no JSON".to_string())
    );
    assert_eq!(token_failure("s", "b"), "status=s body=b");
}

#[test]
fn failed_lookup_is_reported_with_the_status() {
    let report = |body: &[u8]| {
        fetch_result("400 Bad Request", body, "no JSON", "odd shape")
            .map(|u| u.name)
    };
    assert_eq!(
        report(br#"{"code":20005,"msg":"invalid token"}"#),
        Err("no user data (status=400 Bad Request)".to_string())
    );
    assert_eq!(report(b"{"), Err("no JSON".to_string()));
    assert_eq!(report(br#"{"data":7}"#), Err("odd shape".to_string()));
    assert_eq!(report(br#"{"data":{"name":"Ann"}}"#), Ok(Some("Ann".to_string())));
    assert_eq!(user_failure("s"), "no user data (status=s)");
}

#[test]
fn operator_hears_of_open_consoles_and_refusals() {
    let admins = vec!["ann@x.io".to_string()];
    assert!(matches!(
        sign_in_notice(&vec![], &user(None, Some("B@x.io"), None)),
        SignInNotice::AnyoneMaySignIn { identity } if identity == "b@x.io"
    ));
    assert!(matches!(
        sign_in_notice(&admins, &user(None, Some("ANN@x.io"), None)),
        SignInNotice::Quiet
    ));
    assert!(matches!(
        sign_in_notice(&admins, &user(None, Some(" "), Some("ou_1"))),
        SignInNotice::NoAddress { open_id: Some(id) } if id == "ou_1"
    ));
    assert!(matches!(
        sign_in_notice(&admins, &user(Some("W@x.io"), Some("B@x.io"), None)),
        SignInNotice::NotListed { addresses, open_id: None }
            if addresses == vec!["w@x.io", "b@x.io"]
    ));
}

#[test]
fn raw_json_is_read_as_the_text_that_it_holds() {
    let body = br#"{"$serde_json::private::RawValue":"{\"access_token\":\"t\"}"}"#;
    assert_eq!(read_token(body), Ok("t".to_string()));
}

#[test]
fn login_encodes_every_parameter() {
    let mut c = cfg(&[]);
    c.app_id = "a b*-._~+&=%/\u{e9}".into();
    match login_with(&c, handshake()).expect("an answer").body {
        Body::Redirect(url) => {
            assert!(url.contains("?client_id=a+b*-._%7E%2B%26%3D%25%2F%C3%A9&redirect_uri="));
            let parsed = reqwest::Url::parse(&url).expect("a URL");
            let told: Vec<(String, String)> = parsed
                .query_pairs()
                .map(|(k, v)| (k.into_owned(), v.into_owned()))
                .collect();
            let h = handshake();
            assert_eq!(
                told,
                login_params(&c, &h.redirect_uri, &h.state, &pkce_challenge(&h.verifier))
            );
        }
        _ => panic!("a redirect"),
    }
}
