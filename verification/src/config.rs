//! The console's OAuth settings, resolved from the live TOML configuration:
//! `[console]` and the `[lark-apps.<name>]` entry that it binds.

use vstd::prelude::*;

use crate::document::{read_toml, toml_document};
use crate::text::{
    all_blank, before_first, begins_with, copy_text, first_replaced, fold_list, folded_list, maybe_text, replace_first,
    same, split_first, starts_with, texts, trim, trim_end_matches, trimmed, without_trailing,
};
use crate::tree::{
    is_record, key_texts, maybe_tree, member, or_empty, others_skippable, record, text_or_empty,
    tree_view, Tree, TreeView,
};

verus! {

/// Every sensitive `user_info` identity field needs its contact scope: `email`,
/// `enterprise_email` with `employee_no`, `user_id`, and `mobile`. The console
/// matches its allowlist on the addresses, which come back only when their scope
/// is both granted to the app and asked for, so the whole set is asked for by
/// default. Each scope must also be granted on the app's permission page, or the
/// authorize page fails with error 20027.
pub const DEFAULT_USER_INFO_SCOPES: &'static str =
    "contact:user.email:readonly contact:user.employee:readonly contact:user.employee_id:readonly contact:user.phone:readonly";

/// The platform that an app belongs to when its entry names none.
pub const DEFAULT_BASE_URL: &'static str = "https://open.larksuite.com";

/// The `[console]` section.
pub struct ConsoleSection {
    pub lark_app: Option<String>,
    pub admins: Vec<String>,
    pub redirect_uri: Option<String>,
    pub scope: Option<String>,
}

/// One `[lark-apps.<name>]` entry.
pub struct LarkApp {
    pub app_id: String,
    pub app_secret: String,
    pub base_url: String,
}

/// The `[lark-apps]` registry.
pub struct LarkRegistry {
    pub apps: Vec<(String, LarkApp)>,
}

/// The parts of the configuration that concern signing in.
pub struct ConfigView {
    pub console: ConsoleSection,
    pub lark_apps: LarkRegistry,
}

/// OAuth settings resolved from the live configuration.
pub struct OAuthConfig {
    pub app_id: String,
    pub app_secret: String,
    /// `open.larksuite.com` host: token exchange and user_info.
    pub open_base: String,
    /// `accounts.larksuite.com` host: the user-facing authorize page.
    pub accounts_base: String,
    /// Lower-case allowlist; empty means any tenant user.
    pub admins: Vec<String>,
    pub redirect_uri: Option<String>,
    pub scope: Option<String>,
}

/// The mathematical form of a [`ConsoleSection`].
#[verifier::ext_equal]
pub struct ConsoleModel {
    pub lark_app: Option<Seq<char>>,
    pub admins: Seq<Seq<char>>,
    pub redirect_uri: Option<Seq<char>>,
    pub scope: Option<Seq<char>>,
}

/// The mathematical form of a [`LarkApp`].
#[verifier::ext_equal]
pub struct AppModel {
    pub app_id: Seq<char>,
    pub app_secret: Seq<char>,
    pub base_url: Seq<char>,
}

/// The mathematical form of a [`ConfigView`].
#[verifier::ext_equal]
pub struct ConfigModel {
    pub console: ConsoleModel,
    pub lark_apps: Seq<(Seq<char>, AppModel)>,
}

/// The mathematical form of an [`OAuthConfig`].
#[verifier::ext_equal]
pub struct OAuthModel {
    pub app_id: Seq<char>,
    pub app_secret: Seq<char>,
    pub open_base: Seq<char>,
    pub accounts_base: Seq<char>,
    pub admins: Seq<Seq<char>>,
    pub redirect_uri: Option<Seq<char>>,
    pub scope: Option<Seq<char>>,
}

impl View for ConsoleSection {
    type V = ConsoleModel;

    open spec fn view(&self) -> ConsoleModel {
        ConsoleModel {
            lark_app: maybe_text(self.lark_app),
            admins: texts(self.admins@),
            redirect_uri: maybe_text(self.redirect_uri),
            scope: maybe_text(self.scope),
        }
    }
}

impl View for LarkApp {
    type V = AppModel;

    open spec fn view(&self) -> AppModel {
        AppModel { app_id: self.app_id@, app_secret: self.app_secret@, base_url: self.base_url@ }
    }
}

impl View for LarkRegistry {
    type V = Seq<(Seq<char>, AppModel)>;

    open spec fn view(&self) -> Seq<(Seq<char>, AppModel)> {
        self.apps@.map_values(|e: (String, LarkApp)| (e.0@, e.1@))
    }
}

impl View for ConfigView {
    type V = ConfigModel;

    open spec fn view(&self) -> ConfigModel {
        ConfigModel { console: self.console@, lark_apps: self.lark_apps@ }
    }
}

impl View for OAuthConfig {
    type V = OAuthModel;

    open spec fn view(&self) -> OAuthModel {
        OAuthModel {
            app_id: self.app_id@,
            app_secret: self.app_secret@,
            open_base: self.open_base@,
            accounts_base: self.accounts_base@,
            admins: texts(self.admins@),
            redirect_uri: maybe_text(self.redirect_uri),
            scope: maybe_text(self.scope),
        }
    }
}

// ---- reading the document ---------------------------------------------------

/// A text that may be left out. The outer `None` means a value of another kind.
pub open spec fn setting(m: Option<TreeView>) -> Option<Option<Seq<char>>> {
    match m {
        None => Some(None),
        Some(TreeView::Text(s)) => Some(Some(s)),
        _ => None,
    }
}

/// A list of texts that may be left out; `None` means anything else.
pub open spec fn optional_texts(m: Option<TreeView>) -> Option<Seq<Seq<char>>> {
    match m {
        None => Some(Seq::empty()),
        Some(TreeView::List(items)) => if forall|i: int|
            0 <= i < items.len() ==> (#[trigger] items[i]) is Text {
            Some(items.map_values(|t: TreeView| t->Text_0))
        } else {
            None
        },
        _ => None,
    }
}

/// What is read of a configuration.
pub open spec fn config_keys() -> Seq<Seq<char>> {
    seq!["console"@, "lark-apps"@]
}

/// What is read of the `[console]` section.
pub open spec fn console_keys() -> Seq<Seq<char>> {
    seq!["lark_app"@, "admins"@, "redirect_uri"@, "scope"@]
}

/// What is read of a registry entry.
pub open spec fn app_keys() -> Seq<Seq<char>> {
    seq!["app_id"@, "app_secret"@, "base_url"@]
}

/// The `[console]` section, each of whose keys may be left out, as may the whole.
pub open spec fn console_section(m: Option<TreeView>) -> Option<ConsoleModel> {
    match m {
        None => Some(
            ConsoleModel {
                lark_app: None,
                admins: Seq::empty(),
                redirect_uri: None,
                scope: None,
            },
        ),
        Some(t) => {
            let lark_app = setting(member(t, "lark_app"@, 0));
            let admins = optional_texts(member(t, "admins"@, 1));
            let redirect_uri = setting(member(t, "redirect_uri"@, 2));
            let scope = setting(member(t, "scope"@, 3));
            if record(t) && others_skippable(t, console_keys()) && lark_app is Some && admins is Some && redirect_uri is Some
                && scope is Some {
                Some(
                    ConsoleModel {
                        lark_app: lark_app->0,
                        admins: admins->0,
                        redirect_uri: redirect_uri->0,
                        scope: scope->0,
                    },
                )
            } else {
                None
            }
        },
    }
}

/// One registry entry; a key that is left out is empty.
pub open spec fn registry_entry(t: TreeView) -> Option<AppModel> {
    let app_id = setting(member(t, "app_id"@, 0));
    let app_secret = setting(member(t, "app_secret"@, 1));
    let base_url = setting(member(t, "base_url"@, 2));
    if record(t) && others_skippable(t, app_keys()) && app_id is Some && app_secret is Some && base_url is Some {
        Some(
            AppModel {
                app_id: text_or_empty(app_id->0),
                app_secret: text_or_empty(app_secret->0),
                base_url: text_or_empty(base_url->0),
            },
        )
    } else {
        None
    }
}

/// The `[lark-apps]` registry, which may be left out. One entry that is no app
/// spoils the whole.
pub open spec fn registry(m: Option<TreeView>) -> Option<Seq<(Seq<char>, AppModel)>> {
    match m {
        None => Some(Seq::empty()),
        Some(TreeView::Table(entries)) => if forall|i: int|
            0 <= i < entries.len() ==> registry_entry((#[trigger] entries[i]).1) is Some {
            Some(
                entries.map_values(
                    |e: (Seq<char>, TreeView)| (e.0, registry_entry(e.1)->0),
                ),
            )
        } else {
            None
        },
        _ => None,
    }
}

/// What a document says about signing in.
pub open spec fn config_view(t: TreeView) -> Option<ConfigModel> {
    let console = console_section(member(t, "console"@, 0));
    let lark_apps = registry(member(t, "lark-apps"@, 1));
    if t is Table && others_skippable(t, config_keys()) && console is Some && lark_apps is Some {
        Some(ConfigModel { console: console->0, lark_apps: lark_apps->0 })
    } else {
        None
    }
}

fn read_setting(m: Option<&Tree>) -> (r: Option<Option<String>>)
    ensures
        match r {
            Some(t) => setting(maybe_tree(m)) == Some(maybe_text(t)),
            None => setting(maybe_tree(m)) is None,
        },
{
    match m {
        None => Some(None),
        Some(Tree::Text(s)) => Some(Some(s.clone())),
        _ => None,
    }
}

fn read_texts(m: Option<&Tree>) -> (r: Option<Vec<String>>)
    ensures
        match r {
            Some(l) => optional_texts(maybe_tree(m)) == Some(texts(l@)),
            None => optional_texts(maybe_tree(m)) is None,
        },
{
    let mut out: Vec<String> = Vec::new();
    match m {
        None => {
            assert(texts(out@) =~= Seq::empty());
            Some(out)
        },
        Some(t) => match t {
            Tree::List(items) => {
                let ghost seen = t@->List_0;
                let mut i: usize = 0;
                while i < items.len()
                    invariant
                        i <= items.len(),
                        i == out@.len(),
                        m == Some(t),
                        t@ == TreeView::List(seen),
                        seen.len() == items@.len(),
                        forall|k: int|
                            0 <= k < items@.len() ==> #[trigger] seen[k] == tree_view(items@[k]),
                        forall|k: int|
                            0 <= k < i ==> (#[trigger] seen[k]) is Text && seen[k]->Text_0
                                == out@[k]@,
                    decreases items.len() - i,
                {
                    match &items[i] {
                        Tree::Text(s) => {
                            assert(seen[i as int] == TreeView::Text(s@));
                            out.push(s.clone());
                        },
                        _ => {
                            assert(!(seen[i as int] is Text));
                            return None;
                        },
                    }
                    i = i + 1;
                }
                assert(texts(out@) =~= seen.map_values(|t: TreeView| t->Text_0));
                Some(out)
            },
            _ => None,
        },
    }
}

impl ConsoleSection {
    /// The `[console]` section of a document.
    pub fn read(m: Option<&Tree>) -> (r: Option<ConsoleSection>)
        ensures
            match r {
                Some(c) => console_section(maybe_tree(m)) == Some(c@),
                None => console_section(maybe_tree(m)) is None,
            },
    {
        let t = match m {
            Some(t) => t,
            None => {
                let c = ConsoleSection {
                    lark_app: None,
                    admins: Vec::new(),
                    redirect_uri: None,
                    scope: None,
                };
                assert(c@.admins =~= Seq::empty());
                return Some(c);
            },
        };
        let keys = ["lark_app", "admins", "redirect_uri", "scope"];
        assert(key_texts(keys@) =~= console_keys());
        if !is_record(t) || !t.others_skip(&keys) {
            return None;
        }
        let lark_app = read_setting(t.member("lark_app", 0))?;
        let admins = read_texts(t.member("admins", 1))?;
        let redirect_uri = read_setting(t.member("redirect_uri", 2))?;
        let scope = read_setting(t.member("scope", 3))?;
        Some(ConsoleSection { lark_app, admins, redirect_uri, scope })
    }
}

impl LarkApp {
    /// One registry entry of a document.
    pub fn read(t: &Tree) -> (r: Option<LarkApp>)
        ensures
            match r {
                Some(a) => registry_entry(t@) == Some(a@),
                None => registry_entry(t@) is None,
            },
    {
        let keys = ["app_id", "app_secret", "base_url"];
        assert(key_texts(keys@) =~= app_keys());
        if !is_record(t) || !t.others_skip(&keys) {
            return None;
        }
        let app_id = or_empty(read_setting(t.member("app_id", 0))?);
        let app_secret = or_empty(read_setting(t.member("app_secret", 1))?);
        let base_url = or_empty(read_setting(t.member("base_url", 2))?);
        Some(LarkApp { app_id, app_secret, base_url })
    }
}

impl LarkRegistry {
    /// The `[lark-apps]` registry of a document.
    pub fn read(m: Option<&Tree>) -> (r: Option<LarkRegistry>)
        ensures
            match r {
                Some(l) => registry(maybe_tree(m)) == Some(l@),
                None => registry(maybe_tree(m)) is None,
            },
    {
        let mut apps: Vec<(String, LarkApp)> = Vec::new();
        match m {
            None => {
                let l = LarkRegistry { apps };
                assert(l@ =~= Seq::empty());
                Some(l)
            },
            Some(t) => match t {
                Tree::Table(entries) => {
                    let ghost seen = t@->Table_0;
                    let mut i: usize = 0;
                    while i < entries.len()
                        invariant
                            i <= entries.len(),
                            i == apps@.len(),
                            m == Some(t),
                            t@ == TreeView::Table(seen),
                            seen.len() == entries@.len(),
                            forall|k: int|
                                0 <= k < entries@.len() ==> #[trigger] seen[k] == (
                                    entries@[k].0@,
                                    tree_view(entries@[k].1),
                                ),
                            forall|k: int|
                                0 <= k < i ==> registry_entry((#[trigger] seen[k]).1) == Some(
                                    apps@[k].1@,
                                ) && seen[k].0 == apps@[k].0@,
                        decreases entries.len() - i,
                    {
                        let name = entries[i].0.clone();
                        match LarkApp::read(&entries[i].1) {
                            Some(app) => {
                                apps.push((name, app));
                            },
                            None => {
                                assert(registry_entry(seen[i as int].1) is None);
                                return None;
                            },
                        }
                        i = i + 1;
                    }
                    let l = LarkRegistry { apps };
                    assert(l@ =~= seen.map_values(
                        |e: (Seq<char>, TreeView)| (e.0, registry_entry(e.1)->0),
                    ));
                    Some(l)
                },
                _ => None,
            },
        }
    }

    /// The app registered under `name`.
    pub fn get(&self, name: &str) -> (r: Option<&LarkApp>)
        ensures
            match r {
                Some(a) => registered(self@, name@) == Some(a@),
                None => registered(self@, name@) is None,
            },
    {
        let ghost seen = self@;
        assert(seen.subrange(0, seen.len() as int) =~= seen);
        let mut i: usize = 0;
        while i < self.apps.len()
            invariant
                i <= self.apps.len(),
                seen == self@,
                registered(seen, name@) == registered(
                    seen.subrange(i as int, seen.len() as int),
                    name@,
                ),
            decreases self.apps.len() - i,
        {
            let ghost rest = seen.subrange(i as int, seen.len() as int);
            assert(rest.drop_first() =~= seen.subrange(i + 1, seen.len() as int));
            assert(rest[0] == (self.apps@[i as int].0@, self.apps@[i as int].1@));
            if same(self.apps[i].0.as_str(), name) {
                return Some(&self.apps[i].1);
            }
            i = i + 1;
        }
        None
    }
}

impl ConfigView {
    /// What a document says about signing in.
    pub fn read(t: &Tree) -> (r: Option<ConfigView>)
        ensures
            match r {
                Some(c) => config_view(t@) == Some(c@),
                None => config_view(t@) is None,
            },
    {
        match t {
            Tree::Table(_) => {},
            _ => {
                return None;
            },
        }
        let keys = ["console", "lark-apps"];
        assert(key_texts(keys@) =~= config_keys());
        if !t.others_skip(&keys) {
            return None;
        }
        let console = ConsoleSection::read(t.member("console", 0))?;
        let lark_apps = LarkRegistry::read(t.member("lark-apps", 1))?;
        Some(ConfigView { console, lark_apps })
    }
}

// ---- resolution -------------------------------------------------------------

/// The app registered under `name`.
pub open spec fn registered(apps: Seq<(Seq<char>, AppModel)>, name: Seq<char>) -> Option<AppModel>
    decreases apps.len(),
{
    if apps.len() == 0 {
        None
    } else if apps[0].0 == name {
        Some(apps[0].1)
    } else {
        registered(apps.drop_first(), name)
    }
}

/// The platform's API host: the configured one without slashes at its end, or
/// the default where none is configured.
pub open spec fn open_base(base_url: Seq<char>) -> Seq<char> {
    if base_url.len() == 0 {
        DEFAULT_BASE_URL@
    } else {
        without_trailing(base_url, '/')
    }
}

/// The host of the authorize page that belongs to an API host:
/// `open.larksuite.com` has `accounts.larksuite.com`, `open.feishu.cn` has
/// `accounts.feishu.cn`.
pub open spec fn accounts_base(open_base: Seq<char>) -> Seq<char> {
    first_replaced(open_base, "://open."@, "://accounts."@)
}

/// The settings that a configuration resolves to; `None` where `[console]` binds
/// no app, or one that is not registered or lacks its id or secret.
pub open spec fn resolved(c: ConfigModel) -> Option<OAuthModel> {
    match c.console.lark_app {
        None => None,
        Some(name) => match registered(c.lark_apps, name) {
            None => None,
            Some(app) => if app.app_id.len() == 0 || app.app_secret.len() == 0 {
                None
            } else {
                Some(
                    OAuthModel {
                        app_id: app.app_id,
                        app_secret: app.app_secret,
                        open_base: open_base(app.base_url),
                        accounts_base: accounts_base(open_base(app.base_url)),
                        admins: folded_list(c.console.admins),
                        redirect_uri: c.console.redirect_uri,
                        scope: c.console.scope,
                    },
                )
            },
        },
    }
}

/// The settings that a TOML text resolves to; `None` also where the text is no
/// TOML document, or one whose sections have values of the wrong kind.
pub open spec fn resolved_text(config_toml: Seq<char>) -> Option<OAuthModel> {
    match toml_document(config_toml) {
        None => None,
        Some(t) => match config_view(t) {
            None => None,
            Some(c) => resolved(c),
        },
    }
}

/// The platform that an app belongs to when its entry names none.
pub fn default_base_url() -> (r: String)
    ensures
        r@ == DEFAULT_BASE_URL@,
{
    DEFAULT_BASE_URL.to_owned()
}

/// Resolve `[console]` and its bound app.
pub fn resolve_view(view: &ConfigView) -> (r: Option<OAuthConfig>)
    ensures
        match r {
            Some(cfg) => resolved(view@) == Some(cfg@) && (cfg.admins@.len() == 0 <==> all_blank(
                view@.console.admins,
            )),
            None => resolved(view@) is None,
        },
{
    let name = match &view.console.lark_app {
        Some(name) => name,
        None => {
            return None;
        },
    };
    let app = view.lark_apps.get(name.as_str())?;
    if app.app_id.as_str().is_empty() || app.app_secret.as_str().is_empty() {
        return None;
    }
    let open_base = if app.base_url.as_str().is_empty() {
        default_base_url()
    } else {
        trim_end_matches(app.base_url.as_str(), '/').to_owned()
    };
    let accounts_base = replace_first(open_base.as_str(), "://open.", "://accounts.");
    Some(
        OAuthConfig {
            app_id: app.app_id.clone(),
            app_secret: app.app_secret.clone(),
            open_base,
            accounts_base,
            admins: fold_list(&view.console.admins),
            redirect_uri: copy_text(&view.console.redirect_uri),
            scope: copy_text(&view.console.scope),
        },
    )
}

/// Resolve `[console]` and its bound `[lark-apps.<name>]` from the live TOML.
/// `None` means not configured, so the console stays open.
pub fn resolve(config_toml: &str) -> (r: Option<OAuthConfig>)
    ensures
        match r {
            Some(cfg) => resolved_text(config_toml@) == Some(cfg@) && (cfg.admins@.len() == 0
                <==> all_blank(config_view(toml_document(config_toml@)->0)->0.console.admins)),
            None => resolved_text(config_toml@) is None,
        },
{
    let document = read_toml(config_toml)?;
    let view = ConfigView::read(&document)?;
    resolve_view(&view)
}

// ---- derived settings -------------------------------------------------------

/// The scope to ask for. An explicit setting wins, trimmed, and an empty one asks
/// for none; otherwise the full identity set is asked for exactly when there is
/// an allowlist.
pub open spec fn scope_to_request(scope: Option<Seq<char>>, admins: Seq<Seq<char>>) -> Option<
    Seq<char>,
> {
    match scope {
        Some(s) => if trimmed(s).len() > 0 {
            Some(trimmed(s))
        } else {
            None
        },
        None => if admins.len() > 0 {
            Some(DEFAULT_USER_INFO_SCOPES@)
        } else {
            None
        },
    }
}

/// The `scope` to send to the authorize endpoint. An explicit `[console].scope`
/// wins verbatim (set it empty to request none); otherwise the full identity set
/// when an admin allowlist is configured, and nothing when it isn't: the open
/// case needs no email and shouldn't force the operator to grant contact
/// permissions just to sign in.
pub fn effective_scope(cfg: &OAuthConfig) -> (r: Option<String>)
    ensures
        maybe_text(r) == scope_to_request(cfg@.scope, cfg@.admins),
{
    match &cfg.scope {
        Some(s) => {
            let s = trim(s.as_str());
            if s.is_empty() {
                None
            } else {
                Some(s.to_owned())
            }
        },
        None => if cfg.admins.is_empty() {
            None
        } else {
            Some(DEFAULT_USER_INFO_SCOPES.to_owned())
        },
    }
}

/// The characters of a borrowed text that may be absent.
pub open spec fn maybe_str(t: Option<&str>) -> Option<Seq<char>> {
    match t {
        Some(s) => Some(s@),
        None => None,
    }
}

/// Whether a request host is this machine.
pub open spec fn local_host(host: Seq<char>) -> bool {
    begins_with(host, "localhost"@) || begins_with(host, "127.0.0.1"@)
}

/// The callback URL: the configured one where it is set and not empty, else
/// derived from the request's host and the scheme that a proxy forwarded.
pub open spec fn callback_url(
    configured: Option<Seq<char>>,
    host: Option<Seq<char>>,
    forwarded_proto: Option<Seq<char>>,
) -> Seq<char> {
    if configured matches Some(uri) && uri.len() > 0 {
        configured->0
    } else {
        let host = match host {
            Some(h) => h,
            None => "localhost:8080"@,
        };
        let scheme = match forwarded_proto {
            Some(p) => trimmed(before_first(p, ',')),
            None => if local_host(host) {
                "http"@
            } else {
                "https"@
            },
        };
        scheme + "://"@ + host + "/auth/callback"@
    }
}

/// The callback URL Lark redirects back to. Prefer the explicit config value (it
/// must match what's registered in the Lark app), else derive it from the `Host`
/// and `X-Forwarded-Proto` headers of the request.
pub fn redirect_uri(
    cfg: &OAuthConfig,
    host: Option<&str>,
    forwarded_proto: Option<&str>,
) -> (r: String)
    ensures
        r@ == callback_url(cfg@.redirect_uri, maybe_str(host), maybe_str(forwarded_proto)),
{
    if let Some(uri) = &cfg.redirect_uri {
        if !uri.as_str().is_empty() {
            return uri.clone();
        }
    }
    let host = match host {
        Some(h) => h,
        None => "localhost:8080",
    };
    let scheme = match forwarded_proto {
        Some(p) => trim(split_first(p, ',')),
        None => if starts_with(host, "localhost") || starts_with(host, "127.0.0.1") {
            "http"
        } else {
            "https"
        },
    };
    let mut url = scheme.to_owned();
    url.append("://");
    url.append(host);
    url.append("/auth/callback");
    url
}

} // verus!
