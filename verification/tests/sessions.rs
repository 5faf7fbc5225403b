use larkstack::reply::{logout, Body, CookieChange, Session};
use larkstack::session::{
    epoch_seconds, fresh_session_key, load_session_key, me, me_with, now, read_session, require_session,
    require_session_with, stored_session_key, KeyPlan, StoredKey,
};

const BOUND: &str =
    "[lark-apps.m]\napp_id = \"i\"\napp_secret = \"t\"\n[console]\nlark_app = \"m\"\n";

fn session(exp: u64) -> Option<Session> {
    Some(Session {
        email: "ann@x.io".into(),
        name: "Ann".into(),
        exp,
    })
}

#[test]
fn session_counts_up_to_its_last_second() {
    assert!(read_session(session(100), 99).is_some());
    assert!(read_session(session(100), 100).is_some());
    assert!(read_session(session(100), 101).is_none());
    assert!(read_session(None, 0).is_none());
    let s = read_session(session(100), 1).expect("live");
    assert_eq!((s.email.as_str(), s.name.as_str(), s.exp), ("ann@x.io", "Ann", 100));
}

#[test]
fn console_is_open_until_an_app_is_bound() {
    assert!(require_session("", None, 5).is_none());
    assert!(require_session("[console]\nlark_app = \"ghost\"\n", None, 5).is_none());
    let m = me("", session(100), 5);
    assert!(!m.auth_required && !m.authenticated && m.user.is_none());
}

#[test]
fn bound_console_needs_a_live_session() {
    assert!(require_session(BOUND, session(100), 100).is_none());
    for refused in [
        require_session(BOUND, None, 100),
        require_session(BOUND, session(100), 101),
    ] {
        let reply = refused.expect("refused");
        assert!(matches!(reply.body, Body::Empty(401)));
        assert!(reply.cookies.is_empty());
    }
}

#[test]
fn me_shows_the_signed_in_user() {
    let m = me(BOUND, session(100), 100);
    assert!(m.auth_required && m.authenticated);
    let u = m.user.expect("a user");
    assert_eq!((u.email.as_str(), u.name.as_str()), ("ann@x.io", "Ann"));
    let m = me(BOUND, session(100), 101);
    assert!(m.auth_required && !m.authenticated && m.user.is_none());
}

#[test]
fn me_and_admission_agree() {
    for configured in [false, true] {
        for exp in [None, Some(1), Some(9)] {
            let m = me_with(configured, exp.and_then(session), 5);
            let through = require_session_with(configured, exp.and_then(session), 5).is_none();
            assert_eq!(through, !m.auth_required || m.authenticated);
            assert_eq!(m.authenticated, m.user.is_some());
        }
    }
}

#[test]
fn logout_drops_the_session_cookie() {
    let r = logout();
    assert!(matches!(r.body, Body::Empty(204)));
    assert_eq!(r.cookies.len(), 1);
    match &r.cookies[0] {
        CookieChange::Remove { name, path } => {
            assert_eq!((*name, *path), ("lk_session", "/"));
        }
        _ => panic!("a removal"),
    }
}

#[test]
fn clock_counts_from_the_epoch() {
    assert_eq!(epoch_seconds(Some(7)), 7);
    assert_eq!(epoch_seconds(None), 0);
    // some time in 2020 or later
    assert!(now() > 1_577_836_800);
}

#[test]
fn long_secret_makes_the_key() {
    let secret = "0123456789abcdef0123456789abcdef";
    let first = match load_session_key(Some(secret)) {
        KeyPlan::Use(key) => key,
        _ => panic!("32 bytes are enough"),
    };
    assert_eq!(first.master().len(), 64);
    assert_ne!(first.signing(), secret.as_bytes());
    match load_session_key(Some(secret)) {
        KeyPlan::Use(again) => assert_eq!(first.master(), again.master()),
        _ => panic!("the same secret"),
    }
    // bytes count, not characters
    assert!(matches!(
        load_session_key(Some("éééééééééééééééé")),
        KeyPlan::Use(_)
    ));
}

#[test]
fn secret_key_is_the_sha512_digest() {
    match load_session_key(Some("abcdefghbcdefghicdefghijdefghijkefghijklfghijklmghijklmnhijklmnoijklmnopjklmnopqklmnopqrlmnopqrsmnopqrstnopqrstu")) {
        KeyPlan::Use(key) => {
            let key = key.master();
            assert_eq!(
                &key[..8],
                &[0x8e, 0x95, 0x9b, 0x75, 0xda, 0xe3, 0x13, 0xda]
            );
            assert_eq!(
                &key[56..],
                &[0x5e, 0x96, 0xe5, 0x5b, 0x87, 0x4b, 0xe9, 0x09]
            );
        }
        _ => panic!("long enough"),
    }
}

#[test]
fn short_or_missing_secret_falls_back_to_the_file() {
    assert!(matches!(
        load_session_key(Some("0123456789abcdef0123456789abcde")),
        KeyPlan::ReadStored {
            secret_too_short: true
        }
    ));
    assert!(matches!(
        load_session_key(None),
        KeyPlan::ReadStored {
            secret_too_short: false
        }
    ));
}

#[test]
fn fresh_key_survives_a_restart() {
    for unusable in [None, Some(vec![]), Some(vec![7u8; 63])] {
        let (key, keep) = match stored_session_key(unusable) {
            StoredKey::Fresh { key, keep } => (key, keep),
            StoredKey::Kept(_) => panic!("nothing usable was kept"),
        };
        assert_eq!(key.master(), keep.as_slice());
        match stored_session_key(Some(keep)) {
            StoredKey::Kept(again) => assert_eq!(again.master(), key.master()),
            StoredKey::Fresh { .. } => panic!("it was kept"),
        }
    }
}

#[test]
fn longer_files_give_their_first_bytes() {
    let bytes: Vec<u8> = (0u8..70).collect();
    match stored_session_key(Some(bytes.clone())) {
        StoredKey::Kept(key) => assert_eq!(key.master(), &bytes[..64]),
        StoredKey::Fresh { .. } => panic!("it was kept"),
    }
}

#[test]
fn fresh_key_is_made_of_the_drawn_bytes() {
    let drawn: Vec<u8> = (0u8..64).rev().collect();
    match fresh_session_key(drawn.clone()) {
        StoredKey::Fresh { key, keep } => {
            assert_eq!(keep, drawn);
            assert_eq!(key.master(), drawn.as_slice());
        }
        StoredKey::Kept(_) => panic!("a fresh key"),
    }
}
