use larkstack::config::{effective_scope, resolve, OAuthConfig, DEFAULT_USER_INFO_SCOPES};
use larkstack::lark::UserData;
use larkstack::token::pkce_challenge;

#[test]
fn pkce_challenge_matches_rfc7636() {
    // RFC 7636, Appendix B.
    let verifier = "dBjftJeZ4CVP-mB92K27uhbUJU1p1r_wW1gFWFOEjXk";
    assert_eq!(
        pkce_challenge(verifier),
        "E9Melhoa2OwvFrEMTJguCHaoeK1t8URWbuGJSstw-cM"
    );
}

#[test]
fn resolve_none_without_console_binding() {
    // a registry but no [console] lark_app => open console
    let cfg = "[lark-apps.main]\napp_id = \"cli_x\"\napp_secret = \"s\"\n";
    assert!(resolve(cfg).is_none());
}

#[test]
fn resolve_none_when_bound_app_missing_or_empty() {
    assert!(resolve("[console]\nlark_app = \"ghost\"\n").is_none());
    let cfg = "[lark-apps.main]\napp_id = \"\"\napp_secret = \"\"\n\
               [console]\nlark_app = \"main\"\n";
    assert!(resolve(cfg).is_none());
}

#[test]
fn resolve_derives_hosts_and_lowercases_admins() {
    let cfg = "[lark-apps.main]\napp_id = \"cli_x\"\napp_secret = \"s\"\n\
               [console]\nlark_app = \"main\"\n\
               admins = [\"Alice@Example.com\", \"  \", \"BOB@x.io\"]\n";
    let o = resolve(cfg).expect("configured");
    assert_eq!(o.open_base, "https://open.larksuite.com");
    assert_eq!(o.accounts_base, "https://accounts.larksuite.com");
    assert_eq!(o.admins, vec!["alice@example.com", "bob@x.io"]);
}

#[test]
fn resolve_maps_feishu_accounts_host() {
    let cfg = "[lark-apps.cn]\napp_id = \"cli_x\"\napp_secret = \"s\"\n\
               base_url = \"https://open.feishu.cn\"\n\
               [console]\nlark_app = \"cn\"\n";
    let o = resolve(cfg).expect("configured");
    assert_eq!(o.open_base, "https://open.feishu.cn");
    assert_eq!(o.accounts_base, "https://accounts.feishu.cn");
}

fn cfg_with(scope: Option<&str>, admins: &[&str]) -> OAuthConfig {
    OAuthConfig {
        app_id: "cli_x".into(),
        app_secret: "s".into(),
        open_base: "https://open.larksuite.com".into(),
        accounts_base: "https://accounts.larksuite.com".into(),
        admins: admins.iter().map(|a| a.to_string()).collect(),
        redirect_uri: None,
        scope: scope.map(str::to_string),
    }
}

#[test]
fn effective_scope_defaults_to_full_set_only_with_an_allowlist() {
    // unset + allowlist => request the full identity set so emails come back
    assert_eq!(
        effective_scope(&cfg_with(None, &["a@x.io"])).as_deref(),
        Some(DEFAULT_USER_INFO_SCOPES)
    );
    // unset + open console => request nothing (bootstrap stays frictionless)
    assert_eq!(effective_scope(&cfg_with(None, &[])), None);
}

#[test]
fn effective_scope_honors_explicit_override() {
    // explicit value wins verbatim (trimmed), even with an allowlist set
    assert_eq!(
        effective_scope(&cfg_with(Some("  custom:scope  "), &["a@x.io"])).as_deref(),
        Some("custom:scope")
    );
    // explicit empty opts out of any scope
    assert_eq!(effective_scope(&cfg_with(Some("   "), &["a@x.io"])), None);
}

#[test]
fn user_emails_lowercased_and_filtered() {
    let u = UserData {
        name: Some("X".into()),
        email: Some("Personal@X.com".into()),
        enterprise_email: Some("  Work@Corp.com ".into()),
        open_id: None,
    };
    // enterprise email is preferred (listed first), both normalized
    assert_eq!(u.emails(), vec!["work@corp.com", "personal@x.com"]);
    assert!(UserData::default().emails().is_empty());
}
