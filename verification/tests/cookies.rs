use axum::http::{header, HeaderMap, HeaderValue};
use axum::response::IntoResponse;
use axum_extra::extract::cookie::{Key, SignedCookieJar};
use larkstack::jar::{apply, apply_all, handshake_text, session_text};
use larkstack::logout;
use larkstack::reply::{CookieChange, Handshake, Session};

fn key() -> Key {
    Key::from(&[7u8; 64])
}

fn store_session(secure: bool) -> CookieChange {
    CookieChange::start_session(
        Session {
            email: "ann@x.io".into(),
            name: "Ann".into(),
            exp: 9,
        },
        secure,
    )
}

fn store_handshake(secure: bool) -> CookieChange {
    CookieChange::start_handshake(
        Handshake {
            state: "st".into(),
            verifier: "v".into(),
            redirect_uri: "r".into(),
        },
        secure,
    )
}

/// The `Set-Cookie` lines that a jar sends.
fn lines(jar: SignedCookieJar) -> Vec<String> {
    let mut out: Vec<String> = jar
        .into_response()
        .headers()
        .get_all(header::SET_COOKIE)
        .iter()
        .map(|v| v.to_str().expect("text").to_string())
        .collect();
    out.sort();
    out
}

/// The jar of a request that brings back what a jar sent.
fn brought_back(sent: &[String], key: Key) -> SignedCookieJar {
    let mut headers = HeaderMap::new();
    for line in sent {
        let pair = line.split(';').next().expect("a pair");
        headers.append(header::COOKIE, HeaderValue::from_str(pair).expect("text"));
    }
    SignedCookieJar::from_headers(&headers, key)
}

#[test]
fn stored_session_is_read_back() {
    let jar = SignedCookieJar::new(key());
    assert_eq!(session_text(&jar), None);
    let jar = apply(jar, &store_session(true), "{\"a\": \"é;\"}");
    assert_eq!(session_text(&jar).as_deref(), Some("{\"a\": \"é;\"}"));
    assert_eq!(handshake_text(&jar), None);
    let sent = lines(jar);
    assert_eq!(sent.len(), 1);
    assert!(sent[0].starts_with("lk_session="));
    assert!(sent[0].ends_with("; HttpOnly; SameSite=Lax; Secure; Path=/"));
    // and on the next request
    let jar = brought_back(&sent, key());
    assert_eq!(session_text(&jar).as_deref(), Some("{\"a\": \"é;\"}"));
    assert!(lines(jar).is_empty());
}

#[test]
fn handshake_cookie_is_for_the_auth_path() {
    let jar = apply(SignedCookieJar::new(key()), &store_handshake(false), "t");
    assert_eq!(handshake_text(&jar).as_deref(), Some("t"));
    assert_eq!(session_text(&jar), None);
    let sent = lines(jar);
    assert!(sent[0].starts_with("lk_oauth="));
    assert!(sent[0].ends_with("; HttpOnly; SameSite=Lax; Path=/auth"));
}

#[test]
fn foreign_cookies_are_not_read() {
    let sent = lines(apply(
        SignedCookieJar::new(Key::from(&[8u8; 64])),
        &store_session(true),
        "t",
    ));
    assert_eq!(session_text(&brought_back(&sent, key())), None);
    let forged = vec!["lk_session=t".to_string()];
    assert_eq!(session_text(&brought_back(&forged, key())), None);
}

#[test]
fn logout_removes_the_session_that_came() {
    let reply = logout();
    let texts = vec![String::new()];
    // none came: nothing is sent
    let jar = apply_all(SignedCookieJar::new(key()), &reply.cookies, &texts);
    assert!(lines(jar).is_empty());
    // one came: it goes
    let sent = lines(apply(SignedCookieJar::new(key()), &store_session(true), "t"));
    let jar = apply_all(brought_back(&sent, key()), &reply.cookies, &texts);
    assert_eq!(session_text(&jar), None);
    let removed = lines(jar);
    assert_eq!(removed.len(), 1);
    assert!(removed[0].starts_with("lk_session=; Path=/; Max-Age=0; Expires="));
}

#[test]
fn signing_in_swaps_the_handshake_for_a_session() {
    let sent = lines(apply(SignedCookieJar::new(key()), &store_handshake(true), "h"));
    let jar = brought_back(&sent, key());
    assert_eq!(handshake_text(&jar).as_deref(), Some("h"));
    let changes = vec![CookieChange::end_handshake(), store_session(true)];
    let jar = apply_all(jar, &changes, &vec![String::new(), "s".to_string()]);
    assert_eq!(handshake_text(&jar), None);
    assert_eq!(session_text(&jar).as_deref(), Some("s"));
    let sent = lines(jar);
    assert_eq!(sent.len(), 2);
    assert!(sent[0].starts_with("lk_oauth=; Path=/auth; Max-Age=0; Expires="));
    assert!(sent[1].starts_with("lk_session="));
}

#[test]
fn a_later_change_replaces_an_earlier_one() {
    let jar = apply(SignedCookieJar::new(key()), &store_session(true), "one");
    let jar = apply(jar, &store_session(true), "two");
    assert_eq!(session_text(&jar).as_deref(), Some("two"));
    let jar = apply(jar, &CookieChange::end_session(), "");
    assert_eq!(session_text(&jar), None);
    assert!(lines(jar).is_empty());
}
