//! What is read of a document, said by the names and the places at which it stands.

use vstd::prelude::*;

use crate::config::{
    config_view, console_section, registry, registry_entry, resolved, AppModel, ConfigModel,
    ConsoleModel,
};
use crate::lark::{access_token, user_data, user_info, UserError, UserModel};
use crate::tree::{field, skippable, TreeView};

verus! {

// ---- tables -----------------------------------------------------------------

/// A table gives for a key what stands beside the key.
pub proof fn entry_is_found(entries: Seq<(Seq<char>, TreeView)>, key: Seq<char>, i: int)
    requires
        0 <= i < entries.len(),
        entries[i].0 == key,
        forall|k: int| 0 <= k < i ==> (#[trigger] entries[k]).0 != key,
    ensures
        field(TreeView::Table(entries), key) == Some(entries[i].1),
    decreases i,
{
    if i > 0 {
        assert(entries[0].0 != key);
        let rest = entries.drop_first();
        assert forall|k: int| 0 <= k < i - 1 implies (#[trigger] rest[k]).0 != key by {
            assert(rest[k] == entries[k + 1]);
        }
        entry_is_found(rest, key, i - 1);
    }
}

/// A table gives nothing for a key that it does not have.
pub proof fn entry_is_missing(entries: Seq<(Seq<char>, TreeView)>, key: Seq<char>)
    requires
        forall|k: int| 0 <= k < entries.len() ==> (#[trigger] entries[k]).0 != key,
    ensures
        field(TreeView::Table(entries), key) is None,
    decreases entries.len(),
{
    if entries.len() > 0 {
        assert(entries[0].0 != key);
        let rest = entries.drop_first();
        assert forall|k: int| 0 <= k < rest.len() implies (#[trigger] rest[k]).0 != key by {
            assert(rest[k] == entries[k + 1]);
        }
        entry_is_missing(rest, key);
    }
}

/// The text under a key, where one stands there.
pub open spec fn text_under(t: TreeView, key: Seq<char>) -> Option<Seq<char>> {
    match field(t, key) {
        Some(TreeView::Text(s)) => Some(s),
        _ => None,
    }
}

/// The text at a place, where one stands there.
pub open spec fn text_at(items: Seq<TreeView>, i: int) -> Option<Seq<char>> {
    if 0 <= i < items.len() && items[i] is Text {
        Some(items[i]->Text_0)
    } else {
        None
    }
}

/// Whether a key is absent or has a text.
pub open spec fn absent_or_text(t: TreeView, key: Seq<char>) -> bool {
    field(t, key) is None || text_under(t, key) is Some
}

/// Whether a key is absent or has a list of texts.
pub open spec fn absent_or_texts(t: TreeView, key: Seq<char>) -> bool {
    match field(t, key) {
        None => true,
        Some(TreeView::List(items)) => forall|i: int|
            0 <= i < items.len() ==> (#[trigger] items[i]) is Text,
        Some(_) => false,
    }
}

/// Whether some texts are those of a list.
pub open spec fn are_the_texts(found: Seq<Seq<char>>, items: Seq<TreeView>) -> bool {
    &&& found.len() == items.len()
    &&& forall|i: int| 0 <= i < items.len() ==> #[trigger] items[i] == TreeView::Text(found[i])
}

// ---- the configuration ------------------------------------------------------

/// The `[console]` section is read by the names of its settings: each setting is what
/// stands under its own name, and nothing where the name is absent. A setting of the
/// wrong kind spoils the section; so does a number that is too large under any other
/// name, and nothing else does.
pub proof fn console_is_read_by_name(entries: Seq<(Seq<char>, TreeView)>)
    ensures
        ({
            let t = TreeView::Table(entries);
            console_section(Some(t)) is Some <==> {
                &&& absent_or_text(t, "lark_app"@)
                &&& absent_or_texts(t, "admins"@)
                &&& absent_or_text(t, "redirect_uri"@)
                &&& absent_or_text(t, "scope"@)
                &&& forall|i: int|
                    #![trigger entries[i]]
                    0 <= i < entries.len() && entries[i].0 != "lark_app"@ && entries[i].0
                        != "admins"@ && entries[i].0 != "redirect_uri"@ && entries[i].0 != "scope"@
                        ==> skippable(entries[i].1)
            }
        }),
        ({
            let t = TreeView::Table(entries);
            console_section(Some(t)) matches Some(c) ==> {
                &&& c.lark_app == text_under(t, "lark_app"@)
                &&& c.redirect_uri == text_under(t, "redirect_uri"@)
                &&& c.scope == text_under(t, "scope"@)
                &&& field(t, "admins"@) is None ==> c.admins.len() == 0
                &&& field(t, "admins"@) matches Some(TreeView::List(items)) ==> are_the_texts(
                    c.admins,
                    items,
                )
            }
        }),
{
    let t = TreeView::Table(entries);
    let keys = crate::config::console_keys();
    assert(keys[0] == "lark_app"@ && keys[1] == "admins"@ && keys[2] == "redirect_uri"@ && keys[3]
        == "scope"@);
    assert(keys.contains(keys[0]) && keys.contains(keys[1]) && keys.contains(keys[2])
        && keys.contains(keys[3]));
    assert forall|x: Seq<char>| #[trigger] keys.contains(x) implies x == "lark_app"@ || x
        == "admins"@ || x == "redirect_uri"@ || x == "scope"@ by {}
    if field(t, "admins"@) matches Some(TreeView::List(_)) {
        let items = field(t, "admins"@)->0->List_0;
        if console_section(Some(t)) is Some {
            let c = console_section(Some(t))->0;
            assert forall|i: int| 0 <= i < items.len() implies #[trigger] items[i]
                == TreeView::Text(c.admins[i]) by {}
        }
    }
}

/// A `[console]` section that is a list is read by place: the app, the allowlist, the
/// callback address, the scope.
pub proof fn console_is_read_by_place(items: Seq<TreeView>)
    ensures
        console_section(Some(TreeView::List(items))) matches Some(c) ==> {
            &&& c.lark_app == text_at(items, 0)
            &&& c.redirect_uri == text_at(items, 2)
            &&& c.scope == text_at(items, 3)
            &&& items.len() < 2 ==> c.admins.len() == 0
            &&& items.len() >= 2 ==> (items[1] matches TreeView::List(listed) && are_the_texts(
                c.admins,
                listed,
            ))
        },
        console_section(Some(TreeView::List(items))) is Some <==> {
            &&& items.len() > 0 ==> items[0] is Text
            &&& items.len() > 1 ==> (items[1] matches TreeView::List(listed) && forall|i: int|
                0 <= i < listed.len() ==> (#[trigger] listed[i]) is Text)
            &&& items.len() > 2 ==> items[2] is Text
            &&& items.len() > 3 ==> items[3] is Text
        },
{
    let t = TreeView::List(items);
    if console_section(Some(t)) is Some && items.len() >= 2 {
        let c = console_section(Some(t))->0;
        let listed = items[1]->List_0;
        assert forall|i: int| 0 <= i < listed.len() implies #[trigger] listed[i] == TreeView::Text(
            c.admins[i],
        ) by {}
    }
}

/// A registry entry is read by the names of its values: each is what stands under its
/// own name, and empty where the name is absent.
pub proof fn app_is_read_by_name(entries: Seq<(Seq<char>, TreeView)>)
    ensures
        ({
            let t = TreeView::Table(entries);
            registry_entry(t) is Some <==> {
                &&& absent_or_text(t, "app_id"@)
                &&& absent_or_text(t, "app_secret"@)
                &&& absent_or_text(t, "base_url"@)
                &&& forall|i: int|
                    #![trigger entries[i]]
                    0 <= i < entries.len() && entries[i].0 != "app_id"@ && entries[i].0
                        != "app_secret"@ && entries[i].0 != "base_url"@ ==> skippable(entries[i].1)
            }
        }),
        ({
            let t = TreeView::Table(entries);
            registry_entry(t) matches Some(app) ==> {
                &&& text_under(t, "app_id"@) matches Some(s) ==> app.app_id == s
                &&& text_under(t, "app_secret"@) matches Some(s) ==> app.app_secret == s
                &&& text_under(t, "base_url"@) matches Some(s) ==> app.base_url == s
                &&& field(t, "app_id"@) is None ==> app.app_id.len() == 0
                &&& field(t, "app_secret"@) is None ==> app.app_secret.len() == 0
                &&& field(t, "base_url"@) is None ==> app.base_url.len() == 0
            }
        }),
{
    let keys = crate::config::app_keys();
    assert(keys[0] == "app_id"@ && keys[1] == "app_secret"@ && keys[2] == "base_url"@);
    assert(keys.contains(keys[0]) && keys.contains(keys[1]) && keys.contains(keys[2]));
    assert forall|x: Seq<char>| #[trigger] keys.contains(x) implies x == "app_id"@ || x
        == "app_secret"@ || x == "base_url"@ by {}
}

/// A registry entry that is a list is read by place: the id, the secret, the platform.
pub proof fn app_is_read_by_place(items: Seq<TreeView>)
    ensures
        registry_entry(TreeView::List(items)) is Some <==> forall|i: int|
            0 <= i < 3 && i < items.len() ==> (#[trigger] items[i]) is Text,
        registry_entry(TreeView::List(items)) matches Some(app) ==> {
            &&& text_at(items, 0) matches Some(s) ==> app.app_id == s
            &&& text_at(items, 1) matches Some(s) ==> app.app_secret == s
            &&& text_at(items, 2) matches Some(s) ==> app.base_url == s
        },
{
    let t = TreeView::List(items);
    if forall|i: int| 0 <= i < 3 && i < items.len() ==> (#[trigger] items[i]) is Text {
        if items.len() > 0 {
            assert(items[0] is Text);
        }
        if items.len() > 1 {
            assert(items[1] is Text);
        }
        if items.len() > 2 {
            assert(items[2] is Text);
        }
        assert(registry_entry(t) is Some);
    }
}

/// The registry holds an app for each of its entries, in order, under the entry's
/// name; an entry that is no app spoils it.
pub proof fn registry_is_read_entry_by_entry(entries: Seq<(Seq<char>, TreeView)>)
    ensures
        registry(Some(TreeView::Table(entries))) is Some <==> forall|i: int|
            0 <= i < entries.len() ==> registry_entry((#[trigger] entries[i]).1) is Some,
        registry(Some(TreeView::Table(entries))) matches Some(apps) ==> apps.len() == entries.len()
            && forall|i: int|
            #![trigger apps[i]]
            0 <= i < apps.len() ==> apps[i].0 == entries[i].0 && Some(apps[i].1) == registry_entry(
                entries[i].1,
            ),
        registry(None) == Some(Seq::<(Seq<char>, AppModel)>::empty()),
{
    if registry(Some(TreeView::Table(entries))) is Some {
        let apps = registry(Some(TreeView::Table(entries)))->0;
        assert forall|i: int| #![trigger apps[i]] 0 <= i < apps.len() implies apps[i].0
            == entries[i].0 && Some(apps[i].1) == registry_entry(entries[i].1) by {
            assert(registry_entry(entries[i].1) is Some);
        }
    }
}

/// Of a document the sections `console` and `lark-apps` are read, each by its name; one
/// that is absent holds nothing. A section of the wrong kind spoils the document; so
/// does a number that is too large in any other section, and nothing else does.
pub proof fn document_is_read_by_section(entries: Seq<(Seq<char>, TreeView)>)
    ensures
        ({
            let t = TreeView::Table(entries);
            config_view(t) is Some <==> {
                &&& console_section(field(t, "console"@)) is Some
                &&& registry(field(t, "lark-apps"@)) is Some
                &&& forall|i: int|
                    #![trigger entries[i]]
                    0 <= i < entries.len() && entries[i].0 != "console"@ && entries[i].0
                        != "lark-apps"@ ==> skippable(entries[i].1)
            }
        }),
        ({
            let t = TreeView::Table(entries);
            config_view(t) matches Some(c) ==> {
                &&& console_section(field(t, "console"@)) == Some(c.console)
                &&& registry(field(t, "lark-apps"@)) == Some(c.lark_apps)
            }
        }),
        console_section(None) == Some(
            ConsoleModel {
                lark_app: None,
                admins: Seq::empty(),
                redirect_uri: None,
                scope: None,
            },
        ),
{
    let keys = crate::config::config_keys();
    assert(keys[0] == "console"@ && keys[1] == "lark-apps"@);
    assert(keys.contains(keys[0]) && keys.contains(keys[1]));
    assert forall|x: Seq<char>| #[trigger] keys.contains(x) implies x == "console"@ || x
        == "lark-apps"@ by {}
}

/// What is neither a table nor a list spells no section and no app, but for a date,
/// which spells one without any setting; a registry is a table, and so is a document.
pub proof fn other_values_spell_nothing(t: TreeView)
    requires
        !(t is Table),
    ensures
        registry(Some(t)) is None,
        config_view(t) is None,
        !(t is List) ==> (console_section(Some(t)) is Some <==> t is Date),
        !(t is List) ==> (registry_entry(t) is Some <==> t is Date),
        t is Date ==> console_section(Some(t)) == console_section(None),
        t is Date ==> (registry_entry(t) matches Some(app) && app.app_id.len() == 0
            && app.app_secret.len() == 0 && app.base_url.len() == 0),
{
}

/// A value can be passed over exactly where no number in it, at any depth, is too
/// large.
pub proof fn only_large_numbers_stop_a_reader(
    items: Seq<TreeView>,
    entries: Seq<(Seq<char>, TreeView)>,
    s: Seq<char>,
)
    ensures
        !skippable(TreeView::TooLarge),
        skippable(TreeView::Text(s)) && skippable(TreeView::Date) && skippable(TreeView::Other)
            && skippable(TreeView::Null),
        skippable(TreeView::List(items)) <==> forall|i: int|
            0 <= i < items.len() ==> skippable(#[trigger] items[i]),
        skippable(TreeView::Table(entries)) <==> forall|i: int|
            0 <= i < entries.len() ==> skippable((#[trigger] entries[i]).1),
{
    let l = TreeView::List(items);
    let t = TreeView::Table(entries);
    if skippable(l) {
        assert forall|i: int| 0 <= i < items.len() implies skippable(#[trigger] items[i]) by {
            assert(skippable(l->List_0[i]));
        }
    }
    if forall|i: int| 0 <= i < items.len() ==> skippable(#[trigger] items[i]) {
        assert(skippable(l));
    }
    if skippable(t) {
        assert forall|i: int| 0 <= i < entries.len() implies skippable((#[trigger] entries[i]).1) by {
            assert(skippable(t->Table_0[i].1));
        }
    }
    if forall|i: int| 0 <= i < entries.len() ==> skippable((#[trigger] entries[i]).1) {
        assert(skippable(t));
    }
}

/// A document that registers one app and binds it.
pub open spec fn one_app_document(
    name: Seq<char>,
    id: Seq<char>,
    secret: Seq<char>,
    platform: Seq<char>,
) -> TreeView {
    TreeView::Table(
        seq![
            (
                "lark-apps"@,
                TreeView::Table(
                    seq![
                        (
                            name,
                            TreeView::Table(
                                seq![
                                    ("app_id"@, TreeView::Text(id)),
                                    ("app_secret"@, TreeView::Text(secret)),
                                    ("base_url"@, TreeView::Text(platform)),
                                ],
                            ),
                        ),
                    ],
                ),
            ),
            ("console"@, TreeView::Table(seq![("lark_app"@, TreeView::Text(name))])),
        ],
    )
}

/// A document that registers one app and binds it is read so: one app, with the id,
/// the secret and the platform that stand there, bound under its name, and no other
/// setting. It resolves exactly where the id and the secret are not empty, to this id
/// and this secret.
pub proof fn one_app_document_is_read(
    name: Seq<char>,
    id: Seq<char>,
    secret: Seq<char>,
    platform: Seq<char>,
)
    ensures
        config_view(one_app_document(name, id, secret, platform)) == Some(
            ConfigModel {
                console: ConsoleModel {
                    lark_app: Some(name),
                    admins: Seq::empty(),
                    redirect_uri: None,
                    scope: None,
                },
                lark_apps: seq![
                    (name, AppModel { app_id: id, app_secret: secret, base_url: platform }),
                ],
            },
        ),
        ({
            let read = config_view(one_app_document(name, id, secret, platform))->0;
            &&& resolved(read) is Some <==> id.len() > 0 && secret.len() > 0
            &&& resolved(read) matches Some(o) ==> o.app_id == id && o.app_secret == secret
                && o.admins.len() == 0 && o.redirect_uri is None && o.scope is None
        }),
{
    reveal_strlit("lark-apps");
    reveal_strlit("console");
    reveal_strlit("app_id");
    reveal_strlit("app_secret");
    reveal_strlit("base_url");
    reveal_strlit("lark_app");
    reveal_strlit("admins");
    reveal_strlit("redirect_uri");
    reveal_strlit("scope");
    let app = seq![
        ("app_id"@, TreeView::Text(id)),
        ("app_secret"@, TreeView::Text(secret)),
        ("base_url"@, TreeView::Text(platform)),
    ];
    assert(app[0].0.len() == 6 && app[1].0.len() == 10 && app[2].0.len() == 8);
    entry_is_found(app, "app_id"@, 0);
    entry_is_found(app, "app_secret"@, 1);
    entry_is_found(app, "base_url"@, 2);
    app_is_read_by_name(app);
    let apps = seq![(name, TreeView::Table(app))];
    assert(apps[0].1 == TreeView::Table(app));
    registry_is_read_entry_by_entry(apps);
    let found = registry(Some(TreeView::Table(apps)))->0;
    assert(found =~= seq![
        (name, AppModel { app_id: id, app_secret: secret, base_url: platform }),
    ]) by {
        assert(found[0].0 == apps[0].0);
        assert(found[0].1 =~= AppModel { app_id: id, app_secret: secret, base_url: platform });
    }
    let console = seq![("lark_app"@, TreeView::Text(name))];
    assert(console[0].0.len() == 8);
    assert("redirect_uri"@.len() == 12 && "scope"@.len() == 5 && "admins"@.len() == 6);
    entry_is_found(console, "lark_app"@, 0);
    entry_is_missing(console, "admins"@);
    entry_is_missing(console, "redirect_uri"@);
    entry_is_missing(console, "scope"@);
    console_is_read_by_name(console);
    let whole = seq![
        ("lark-apps"@, TreeView::Table(apps)),
        ("console"@, TreeView::Table(console)),
    ];
    assert(whole[0].0.len() == 9 && whole[1].0.len() == 7);
    entry_is_found(whole, "lark-apps"@, 0);
    entry_is_found(whole, "console"@, 1);
    document_is_read_by_section(whole);
    assert(one_app_document(name, id, secret, platform) == TreeView::Table(whole));
    let read = config_view(TreeView::Table(whole))->0;
    assert(read.console.admins =~= Seq::empty());
    assert(read.lark_apps[0].0 == name);
    crate::laws::words::lists_fold_entry_by_entry(Seq::empty(), Seq::empty(), name);
    assert(Seq::<Seq<char>>::empty() + Seq::<Seq<char>>::empty() =~= Seq::<Seq<char>>::empty());
}

// ---- replies ----------------------------------------------------------------

/// Whether a key is absent, null or has a text.
pub open spec fn absent_null_or_text(t: TreeView, key: Seq<char>) -> bool {
    match field(t, key) {
        None => true,
        Some(TreeView::Null) => true,
        Some(TreeView::Text(_)) => true,
        Some(_) => false,
    }
}

/// An account is read by the names of its values: each is the text that stands under
/// its own name, and is absent where the name is absent or null. A value of another
/// kind under one of these names spoils the account, and nothing else does.
pub proof fn account_is_read_by_name(data: TreeView)
    requires
        data is Table,
    ensures
        user_data(data) is Some <==> absent_null_or_text(data, "name"@) && absent_null_or_text(
            data,
            "email"@,
        ) && absent_null_or_text(data, "enterprise_email"@) && absent_null_or_text(
            data,
            "open_id"@,
        ),
        user_data(data) matches Some(u) ==> {
            &&& u.name == text_under(data, "name"@)
            &&& u.email == text_under(data, "email"@)
            &&& u.enterprise_email == text_under(data, "enterprise_email"@)
            &&& u.open_id == text_under(data, "open_id"@)
        },
{
}

/// An account that is a list is read by place: the name, the address, the enterprise
/// address, the open id. A list with more than these is no account.
pub proof fn account_is_read_by_place(items: Seq<TreeView>)
    ensures
        user_data(TreeView::List(items)) is Some <==> items.len() <= 4 && forall|i: int|
            0 <= i < items.len() ==> (#[trigger] items[i]) is Text || items[i] is Null,
        user_data(TreeView::List(items)) matches Some(u) ==> {
            &&& u.name == text_at(items, 0)
            &&& u.email == text_at(items, 1)
            &&& u.enterprise_email == text_at(items, 2)
            &&& u.open_id == text_at(items, 3)
        },
{
    let t = TreeView::List(items);
    if items.len() <= 4 && forall|i: int|
        0 <= i < items.len() ==> (#[trigger] items[i]) is Text || items[i] is Null {
        if items.len() > 0 {
            assert(items[0] is Text || items[0] is Null);
        }
        if items.len() > 1 {
            assert(items[1] is Text || items[1] is Null);
        }
        if items.len() > 2 {
            assert(items[2] is Text || items[2] is Null);
        }
        if items.len() > 3 {
            assert(items[3] is Text || items[3] is Null);
        }
        assert(user_data(t) is Some);
    }
}

/// The account of a reply stands under `data`: there is none where that is absent or
/// null, and it is unreadable where that is no account.
pub proof fn account_stands_under_data(reply: TreeView)
    requires
        reply is Table,
    ensures
        field(reply, "data"@) is None || field(reply, "data"@) == Some(TreeView::Null) <==> (
        user_info(reply) == Err::<UserModel, UserError>(UserError::NoUserData)),
        field(reply, "data"@) matches Some(data) ==> !(data is Null) ==> (match user_data(data) {
            Some(u) => user_info(reply) == Ok::<UserModel, UserError>(u),
            None => user_info(reply) == Err::<UserModel, UserError>(UserError::Unreadable),
        }),
{
}

/// A reply that is a list has its account as its only item; a reply that is neither a
/// table nor a list is unreadable.
pub proof fn other_replies(reply: TreeView)
    requires
        !(reply is Table),
        !(reply is Date),
    ensures
        !(reply is List) ==> user_info(reply) == Err::<UserModel, UserError>(UserError::Unreadable),
        reply matches TreeView::List(items) ==> {
            &&& items.len() > 1 ==> user_info(reply) == Err::<UserModel, UserError>(
                UserError::Unreadable,
            )
            &&& items.len() == 0 ==> user_info(reply) == Err::<UserModel, UserError>(
                UserError::NoUserData,
            )
            &&& items.len() == 1 && user_data(items[0]) is Some ==> user_info(reply) == Ok::<
                UserModel,
                UserError,
            >(user_data(items[0])->0)
        },
{
}

/// A reply whose account has one value and no other.
pub open spec fn one_value_reply(key: Seq<char>, value: Seq<char>) -> TreeView {
    TreeView::Table(seq![("data"@, TreeView::Table(seq![(key, TreeView::Text(value))]))])
}

/// A reply that says one thing of an account gives an account of which that one thing
/// is known, and nothing else.
pub proof fn one_value_is_read(value: Seq<char>)
    ensures
        user_info(one_value_reply("name"@, value)) == Ok::<UserModel, UserError>(
            UserModel { name: Some(value), email: None, enterprise_email: None, open_id: None },
        ),
        user_info(one_value_reply("email"@, value)) == Ok::<UserModel, UserError>(
            UserModel { name: None, email: Some(value), enterprise_email: None, open_id: None },
        ),
        user_info(one_value_reply("enterprise_email"@, value)) == Ok::<UserModel, UserError>(
            UserModel { name: None, email: None, enterprise_email: Some(value), open_id: None },
        ),
        user_info(one_value_reply("open_id"@, value)) == Ok::<UserModel, UserError>(
            UserModel { name: None, email: None, enterprise_email: None, open_id: Some(value) },
        ),
{
    reveal_strlit("name");
    reveal_strlit("email");
    reveal_strlit("enterprise_email");
    reveal_strlit("open_id");
    assert("name"@.len() == 4 && "email"@.len() == 5 && "enterprise_email"@.len() == 16
        && "open_id"@.len() == 7);
    one_value_found("name"@, value);
    one_value_found("email"@, value);
    one_value_found("enterprise_email"@, value);
    one_value_found("open_id"@, value);
}

proof fn one_value_found(key: Seq<char>, value: Seq<char>)
    ensures
        field(one_value_reply(key, value), "data"@) == Some(
            TreeView::Table(seq![(key, TreeView::Text(value))]),
        ),
        user_info(one_value_reply(key, value)) == (match user_data(
            TreeView::Table(seq![(key, TreeView::Text(value))]),
        ) {
            Some(u) => Ok::<UserModel, UserError>(u),
            None => Err::<UserModel, UserError>(UserError::Unreadable),
        }),
        field(TreeView::Table(seq![(key, TreeView::Text(value))]), key) == Some(
            TreeView::Text(value),
        ),
        forall|other: Seq<char>|
            other != key ==> #[trigger] field(
                TreeView::Table(seq![(key, TreeView::Text(value))]),
                other,
            ) is None,
{
    let inner = seq![(key, TreeView::Text(value))];
    let outer = seq![("data"@, TreeView::Table(inner))];
    assert(outer[0].0 == "data"@);
    entry_is_found(outer, "data"@, 0);
    assert(inner[0].0 == key);
    entry_is_found(inner, key, 0);
    assert forall|other: Seq<char>| other != key implies #[trigger] field(
        TreeView::Table(inner),
        other,
    ) is None by {
        entry_is_missing(inner, other);
    }
    account_stands_under_data(TreeView::Table(outer));
}

/// The token of a reply is the text under `access_token`, wherever in the reply that
/// stands; there is none where another kind of value stands there, or nothing, and
/// none in a reply that is no table.
pub proof fn token_stands_under_its_name(reply: TreeView, token: Seq<char>)
    ensures
        access_token(reply) == text_under(reply, "access_token"@),
        access_token(
            TreeView::Table(seq![("access_token"@, TreeView::Text(token))]),
        ) == Some(token),
        !(reply is Table) ==> access_token(reply) is None,
{
    let entries = seq![("access_token"@, TreeView::Text(token))];
    assert(entries[0].0 == "access_token"@);
    entry_is_found(entries, "access_token"@, 0);
}

} // verus!
