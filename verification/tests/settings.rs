use larkstack::config::{
    default_base_url, effective_scope, redirect_uri, resolve, resolve_view, ConfigView,
    ConsoleSection, LarkApp, LarkRegistry, OAuthConfig, DEFAULT_USER_INFO_SCOPES,
};
use larkstack::document::read_toml;
use larkstack::tree::Tree;

fn app(base_url: &str) -> LarkApp {
    LarkApp {
        app_id: "cli_x".into(),
        app_secret: "s".into(),
        base_url: base_url.into(),
    }
}

fn view(bound: Option<&str>, apps: Vec<(&str, LarkApp)>) -> ConfigView {
    ConfigView {
        console: ConsoleSection {
            lark_app: bound.map(str::to_string),
            admins: vec![" ANN@x.io".into(), " ".into()],
            redirect_uri: Some("https://c.x/auth/callback".into()),
            scope: Some("s:1".into()),
        },
        lark_apps: LarkRegistry {
            apps: apps.into_iter().map(|(n, a)| (n.to_string(), a)).collect(),
        },
    }
}

fn hosts(base_url: &str) -> (String, String) {
    let o = resolve_view(&view(Some("main"), vec![("main", app(base_url))])).expect("configured");
    (o.open_base, o.accounts_base)
}

#[test]
fn resolve_view_takes_every_setting() {
    let o = resolve_view(&view(
        Some("main"),
        vec![("other", app("https://other")), ("main", app(""))],
    ))
    .expect("configured");
    assert_eq!(o.app_id, "cli_x");
    assert_eq!(o.app_secret, "s");
    assert_eq!(o.open_base, default_base_url());
    assert_eq!(o.admins, vec!["ann@x.io"]);
    assert_eq!(o.redirect_uri.as_deref(), Some("https://c.x/auth/callback"));
    assert_eq!(o.scope.as_deref(), Some("s:1"));
}

#[test]
fn binding_decides_resolution() {
    assert!(resolve_view(&view(None, vec![("main", app(""))])).is_none());
    assert!(resolve_view(&view(Some("ghost"), vec![("main", app(""))])).is_none());
    let mut no_id = app("");
    no_id.app_id = String::new();
    assert!(resolve_view(&view(Some("main"), vec![("main", no_id)])).is_none());
    let mut no_secret = app("");
    no_secret.app_secret = String::new();
    assert!(resolve_view(&view(Some("main"), vec![("main", no_secret)])).is_none());
    assert!(resolve_view(&view(Some("main"), vec![("main", app(""))])).is_some());
}

#[test]
fn hosts_lose_slashes_and_map_to_accounts() {
    assert_eq!(
        hosts("https://open.feishu.cn//"),
        (
            "https://open.feishu.cn".to_string(),
            "https://accounts.feishu.cn".to_string()
        )
    );
    assert_eq!(
        hosts("https://lark.example"),
        (
            "https://lark.example".to_string(),
            "https://lark.example".to_string()
        )
    );
    assert_eq!(hosts("///"), (String::new(), String::new()));
}

#[test]
fn registry_finds_apps_by_name() {
    let r = LarkRegistry {
        apps: vec![
            ("a".to_string(), app("https://a")),
            ("b".to_string(), app("https://b")),
        ],
    };
    assert_eq!(r.get("b").map(|a| a.base_url.as_str()), Some("https://b"));
    assert!(r.get("c").is_none());
}

#[test]
fn resolve_reads_optional_settings_from_toml() {
    let o = resolve(
        "[console]\nlark_app = \"m\"\nredirect_uri = \"https://c/cb\"\nscope = \"\"\n\
         [lark-apps.m]\napp_id = \"i\"\napp_secret = \"t\"\nbase_url = \"https://open.x/\"\n\
         [other]\nnumber = 3\nwhen = 1979-05-27\nlist = [1, \"a\", { b = true }]\n",
    )
    .expect("configured");
    assert_eq!(o.app_id, "i");
    assert_eq!(o.app_secret, "t");
    assert_eq!(o.open_base, "https://open.x");
    assert_eq!(o.redirect_uri.as_deref(), Some("https://c/cb"));
    assert_eq!(o.scope.as_deref(), Some(""));
    assert!(o.admins.is_empty());
}

#[test]
fn resolve_none_on_broken_or_mistyped_toml() {
    assert!(resolve("").is_none());
    assert!(resolve("not toml").is_none());
    let good = "[lark-apps.m]\napp_id = \"i\"\napp_secret = \"t\"\n[console]\nlark_app = \"m\"\n";
    assert!(resolve(good).is_some());
    for extra in [
        "admins = \"a@x.io\"\n",
        "admins = [1]\n",
        "scope = 1\n",
        "redirect_uri = []\n",
        "[lark-apps.bad]\napp_id = 1\n",
        "[lark-apps]\nbad = \"x\"\n",
    ] {
        assert!(resolve(&format!("{good}{extra}")).is_none(), "{extra}");
    }
    assert!(resolve("console = 1\n").is_none());
    assert!(resolve("lark-apps = []\n[console]\nlark_app = \"m\"\n").is_none());
}

#[test]
fn sections_may_be_spelled_by_position() {
    let cfg = "console = [\"m\", [\"A@x.io\"], \"https://c/cb\", \"s:1\"]\n\
               [lark-apps]\nm = [\"i\", \"t\", \"https://open.x\"]\n";
    let o = resolve(cfg).expect("configured");
    assert_eq!(o.app_id, "i");
    assert_eq!(o.app_secret, "t");
    assert_eq!(o.open_base, "https://open.x");
    assert_eq!(o.admins, vec!["a@x.io"]);
    assert_eq!(o.redirect_uri.as_deref(), Some("https://c/cb"));
    assert_eq!(o.scope.as_deref(), Some("s:1"));
}

#[test]
fn read_toml_spells_out_the_document() {
    let t = read_toml("a = \"x\"\nb = [1, \"y\"]\n").expect("a document");
    assert!(matches!(t.field("a"), Some(Tree::Text(s)) if s == "x"));
    match t.field("b") {
        Some(Tree::List(items)) => {
            assert_eq!(items.len(), 2);
            assert!(matches!(items[0], Tree::Other));
            assert!(matches!(&items[1], Tree::Text(s) if s == "y"));
        }
        _ => panic!("b is a list"),
    }
    assert!(t.field("c").is_none());
    assert!(read_toml("a = ").is_none());
}

fn cfg(redirect: Option<&str>) -> OAuthConfig {
    OAuthConfig {
        app_id: "cli_x".into(),
        app_secret: "s".into(),
        open_base: "https://open.larksuite.com".into(),
        accounts_base: "https://accounts.larksuite.com".into(),
        admins: vec!["a@x.io".into()],
        redirect_uri: redirect.map(str::to_string),
        scope: None,
    }
}

#[test]
fn redirect_uri_prefers_the_configured_address() {
    assert_eq!(
        redirect_uri(&cfg(Some("https://c/cb")), Some("h"), Some("http")),
        "https://c/cb"
    );
    // an empty setting counts as none
    assert_eq!(
        redirect_uri(&cfg(Some("")), Some("h"), None),
        "https://h/auth/callback"
    );
}

#[test]
fn redirect_uri_derives_from_the_request() {
    let c = cfg(None);
    assert_eq!(
        redirect_uri(&c, None, None),
        "http://localhost:8080/auth/callback"
    );
    assert_eq!(
        redirect_uri(&c, Some("127.0.0.1:3000"), None),
        "http://127.0.0.1:3000/auth/callback"
    );
    assert_eq!(
        redirect_uri(&c, Some("console.x.io"), None),
        "https://console.x.io/auth/callback"
    );
    assert_eq!(
        redirect_uri(&c, Some("console.x.io"), Some(" http , https")),
        "http://console.x.io/auth/callback"
    );
    assert_eq!(
        redirect_uri(&c, Some("console.x.io"), Some("")),
        "://console.x.io/auth/callback"
    );
}

#[test]
fn default_scopes_cover_the_identity_set() {
    assert_eq!(
        effective_scope(&cfg(None)).as_deref(),
        Some(
            "contact:user.email:readonly contact:user.employee:readonly \
             contact:user.employee_id:readonly contact:user.phone:readonly"
        )
    );
    assert_eq!(DEFAULT_USER_INFO_SCOPES.split(' ').count(), 4);
}

#[test]
fn no_key_of_another_section_matters() {
    let good = "[lark-apps.m]\napp_id = \"i\"\napp_secret = \"t\"\n[console]\nlark_app = \"m\"\n";
    for extra in [
        "[other]\n\"$__toml_private_datetime\" = 1\n",
        "[[other]]\n\"$__toml_private_datetime\" = \"1979-05-27\"\n",
        "[other.deep]\n\"$serde_json::private::RawValue\" = 1\n",
        "[other]\n\"$serde_json::private::Number\" = \"x\"\nwhen = 1979-05-27T07:32:00Z\n",
        "[other]\nx = nan\ny = inf\n",
    ] {
        assert!(resolve(&format!("{good}{extra}")).is_some(), "{extra}");
    }
    let odd = "[lark-apps.m]\n\"$__toml_private_datetime\" = 1\napp_id = \"i\"\napp_secret = \"t\"\n\
               [console]\n\"$__toml_private_datetime\" = \"1979-05-27\"\nlark_app = \"m\"\n";
    assert!(resolve(odd).is_some());
}

#[test]
fn numbers_and_dates_are_no_texts() {
    let good = "[lark-apps.m]\napp_id = \"i\"\napp_secret = \"t\"\n[console]\nlark_app = \"m\"\n";
    for extra in ["scope = nan\n", "scope = 1979-05-27\n", "admins = [nan]\n", "admins = 1979-05-27\n"] {
        assert!(resolve(&format!("{good}{extra}")).is_none(), "{extra}");
    }
}

#[test]
fn numbers_must_be_readable_where_they_are_passed_over() {
    let good = "[lark-apps.m]\napp_id = \"i\"\napp_secret = \"t\"\n[console]\nlark_app = \"m\"\n";
    let huge = "9".repeat(60);
    for extra in [
        format!("[other]\nx = {huge}\n"),
        "[other]\nx = [[1e999]]\n".to_string(),
        format!("x = {huge}\n"),
        format!("[lark-apps.m.y]\nx = {huge}\n"),
    ] {
        assert!(resolve(&format!("{good}{extra}")).is_none(), "{extra}");
    }
    let largest = "[other]\nx = 340282366920938463463374607431768211455\ny = -inf\n";
    assert!(resolve(&format!("{good}{largest}")).is_some());
    // what a list holds beyond the members of its record is not looked at
    let by_position = "console = [\"m\", [], \"u\", \"s\", 1e999]\n\
                       [lark-apps]\nm = [\"i\", \"t\", \"\", 1e999]\n";
    assert!(resolve(by_position).is_some());
}

#[test]
fn a_date_spells_a_record_without_members() {
    let good = "[lark-apps]\nd = 1979-05-27\n[lark-apps.m]\napp_id = \"i\"\napp_secret = \"t\"\n\
                [console]\nlark_app = ";
    assert!(resolve(&format!("{good}\"m\"\n")).is_some());
    assert!(resolve(&format!("{good}\"d\"\n")).is_none());
    assert!(resolve("console = 1979-05-27\n").is_none());
    assert!(resolve("lark-apps = 1979-05-27\n[console]\nlark_app = \"m\"\n").is_none());
}
