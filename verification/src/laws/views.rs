//! The mathematical forms say what the values hold, field by field.

use vstd::prelude::*;

use crate::callback::{
    maybe_bytes, maybe_config, maybe_user, CallbackQuery, CallbackStep, LoginCookie,
    LoginCookieModel, NoticeModel, PendingExchange, PendingUser, SignInNotice, StepModel,
};
use crate::config::{
    config_view, maybe_str, resolved, resolved_text, ConfigView, ConsoleSection, LarkApp,
    LarkRegistry, OAuthConfig,
};
use crate::document::{
    json_compact, json_document, json_spelling, json_tree, json_value, toml_document,
};
use crate::lark::{
    text_result, user_result, TokenRequest, UserData, UserError, UserModel, UserRequest,
};
use crate::login::maybe_reply;
use crate::reply::{
    Body, BodyModel, Claims, ClaimsModel, CookieChange, CookieModel, Handshake, Reply, Session,
    SetCookie,
};
use crate::session::{maybe_session, maybe_stored, Me, MeUser};
use crate::text::{maybe_text, text_pairs, texts};
use crate::tree::{key_texts, maybe_tree, Tree, TreeView};

verus! {

/// The form of an optional text, of a list of texts and of a list of pairs is made text
/// by text.
pub proof fn texts_in_full(
    t: Option<String>,
    s: Option<&str>,
    list: Seq<String>,
    pairs: Seq<(String, String)>,
    keys: Seq<&str>,
    i: int,
)
    ensures
        maybe_text(t) is Some <==> t is Some,
        t matches Some(x) ==> maybe_text(t) == Some(x@),
        maybe_str(s) is Some <==> s is Some,
        s matches Some(x) ==> maybe_str(s) == Some(x@),
        texts(list).len() == list.len(),
        0 <= i < list.len() ==> texts(list)[i] == list[i]@,
        text_pairs(pairs).len() == pairs.len(),
        0 <= i < pairs.len() ==> text_pairs(pairs)[i] == (pairs[i].0@, pairs[i].1@),
        key_texts(keys).len() == keys.len(),
        0 <= i < keys.len() ==> key_texts(keys)[i] == keys[i]@,
{
}

/// The form of the settings and of what they are made from.
pub proof fn settings_in_full(
    o: OAuthConfig,
    c: ConfigView,
    section: ConsoleSection,
    app: LarkApp,
    registry: LarkRegistry,
    i: int,
)
    ensures
        o@.app_id == o.app_id@,
        o@.app_secret == o.app_secret@,
        o@.open_base == o.open_base@,
        o@.accounts_base == o.accounts_base@,
        o@.admins == texts(o.admins@),
        o@.redirect_uri == maybe_text(o.redirect_uri),
        o@.scope == maybe_text(o.scope),
        c@.console == c.console@,
        c@.lark_apps == c.lark_apps@,
        section@.lark_app == maybe_text(section.lark_app),
        section@.admins == texts(section.admins@),
        section@.redirect_uri == maybe_text(section.redirect_uri),
        section@.scope == maybe_text(section.scope),
        app@.app_id == app.app_id@,
        app@.app_secret == app.app_secret@,
        app@.base_url == app.base_url@,
        registry@.len() == registry.apps@.len(),
        0 <= i < registry.apps@.len() ==> registry@[i] == (
            registry.apps@[i].0@,
            registry.apps@[i].1@,
        ),
{
}

/// The form of what is asked of Lark and of what it says.
pub proof fn exchange_in_full(
    token: TokenRequest,
    account: UserRequest,
    user: UserData,
    read: Result<UserData, UserError>,
    report: Result<String, String>,
)
    ensures
        token@.url == token.url@,
        token@.fields == text_pairs(token.fields@),
        account@.url == account.url@,
        account@.bearer == account.bearer@,
        user@.name == maybe_text(user.name),
        user@.email == maybe_text(user.email),
        user@.enterprise_email == maybe_text(user.enterprise_email),
        user@.open_id == maybe_text(user.open_id),
        read matches Ok(u) ==> user_result(read) == Ok::<UserModel, UserError>(u@),
        read matches Err(e) ==> user_result(read) == Err::<UserModel, UserError>(e),
        report matches Ok(s) ==> text_result(report) == Ok::<Seq<char>, Seq<char>>(s@),
        report matches Err(s) ==> text_result(report) == Err::<Seq<char>, Seq<char>>(s@),
{
}

/// The form of what cookies carry and of what is answered.
pub proof fn answers_in_full(
    session: Session,
    handshake: Handshake,
    cookie: SetCookie,
    name: &'static str,
    path: &'static str,
    text: String,
    status: u16,
    reply: Reply,
    i: int,
)
    ensures
        session@.email == session.email@ && session@.name == session.name@ && session@.exp
            == session.exp,
        handshake@.state == handshake.state@ && handshake@.verifier == handshake.verifier@
            && handshake@.redirect_uri == handshake.redirect_uri@,
        Claims::Login(handshake)@ == ClaimsModel::Login(handshake@),
        Claims::SignedIn(session)@ == ClaimsModel::SignedIn(session@),
        CookieChange::Store(cookie)@ == (CookieModel::Store {
            name: cookie.name@,
            claims: cookie.claims@,
            path: cookie.path@,
            http_only: cookie.http_only,
            same_site: cookie.same_site,
            secure: cookie.secure,
        }),
        (CookieChange::Remove { name, path })@ == (CookieModel::Remove {
            name: name@,
            path: path@,
        }),
        Body::Redirect(text)@ == BodyModel::Redirect(text@),
        Body::Text(status, text)@ == BodyModel::Text(status, text@),
        Body::Empty(status)@ == BodyModel::Empty(status),
        reply@.body == reply.body@,
        reply@.cookies.len() == reply.cookies@.len(),
        0 <= i < reply.cookies@.len() ==> reply@.cookies[i] == reply.cookies@[i]@,
        maybe_reply(Some(reply)) == Some(reply@),
        maybe_session(Some(session)) == Some(session@),
        maybe_reply(None) is None,
        maybe_session(None) is None,
{
}

/// The form of the steps of a callback and of what they carry.
pub proof fn steps_in_full(
    q: CallbackQuery,
    h: Handshake,
    exchange: PendingExchange,
    lookup: PendingUser,
    reply: Reply,
    cfg: OAuthConfig,
    user: UserData,
    body: &[u8],
    stored: Vec<u8>,
)
    ensures
        q@.code == maybe_text(q.code) && q@.state == maybe_text(q.state) && q@.error == maybe_text(
            q.error,
        ),
        LoginCookie::Missing@ == LoginCookieModel::Missing,
        LoginCookie::Malformed@ == LoginCookieModel::Malformed,
        LoginCookie::Valid(h)@ == LoginCookieModel::Valid(h@),
        exchange@.cfg == exchange.cfg@ && exchange@.redirect_uri == exchange.redirect_uri@
            && exchange@.request == exchange.request@,
        lookup@.cfg == lookup.cfg@ && lookup@.redirect_uri == lookup.redirect_uri@
            && lookup@.request == lookup.request@,
        CallbackStep::Finish(reply)@ == StepModel::Finish(reply@),
        CallbackStep::Exchange(exchange)@ == StepModel::Exchange(exchange@),
        CallbackStep::FetchUser(lookup)@ == StepModel::FetchUser(lookup@),
        maybe_config(Some(cfg)) == Some(cfg@) && maybe_config(None) is None,
        maybe_user(Some(user)) == Some(user@) && maybe_user(None) is None,
        maybe_bytes(Some(body)) == Some(body@) && maybe_bytes(None) is None,
        maybe_stored(Some(stored)) == Some(stored@) && maybe_stored(None) is None,
{
}

/// The form of what the UI and the operator are told.
pub proof fn reports_in_full(
    me: Me,
    user: MeUser,
    text: String,
    open_id: Option<String>,
    addresses: Vec<String>,
)
    ensures
        user@.email == user.email@ && user@.name == user.name@,
        me@.auth_required == me.auth_required && me@.authenticated == me.authenticated,
        me.user matches Some(u) ==> me@.user == Some(u@),
        me.user is None ==> me@.user is None,
        SignInNotice::Quiet@ == NoticeModel::Quiet,
        (SignInNotice::AnyoneMaySignIn { identity: text })@ == (NoticeModel::AnyoneMaySignIn {
            identity: text@,
        }),
        (SignInNotice::NoAddress { open_id })@ == (NoticeModel::NoAddress {
            open_id: maybe_text(open_id),
        }),
        (SignInNotice::NotListed { addresses, open_id })@ == (NoticeModel::NotListed {
            addresses: texts(addresses@),
            open_id: maybe_text(open_id),
        }),
{
}

/// The form of a tree, kind by kind and item by item.
pub proof fn trees_in_full(
    s: String,
    items: Vec<Tree>,
    entries: Vec<(String, Tree)>,
    i: int,
    t: &Tree,
)
    ensures
        Tree::Null@ == TreeView::Null,
        Tree::Date@ == TreeView::Date,
        Tree::TooLarge@ == TreeView::TooLarge,
        Tree::Other@ == TreeView::Other,
        Tree::Text(s)@ == TreeView::Text(s@),
        Tree::List(items)@ matches TreeView::List(seen) && seen.len() == items@.len() && (0 <= i
            < items@.len() ==> seen[i] == items@[i]@),
        Tree::Table(entries)@ matches TreeView::Table(seen) && seen.len() == entries@.len() && (0
            <= i < entries@.len() ==> seen[i] == (entries@[i].0@, entries@[i].1@)),
        maybe_tree(Some(t)) == Some(t@),
        maybe_tree(None) is None,
{
}

/// A text is resolved by what its document says, and to nothing where it has none or one
/// that cannot be read; a JSON text says what its value holds.
pub proof fn texts_are_read_as_documents(text: Seq<char>, body: Seq<u8>)
    ensures
        toml_document(text) is None ==> resolved_text(text) is None,
        toml_document(text) matches Some(t) ==> match config_view(t) {
            Some(c) => resolved_text(text) == resolved(c),
            None => resolved_text(text) is None,
        },
        json_document(body) is Some <==> json_value(body) is Some,
        json_value(body) matches Some(v) ==> json_document(body) == Some(json_tree(v)),
        json_compact(body) is Some <==> json_value(body) is Some,
        json_value(body) matches Some(v) ==> json_compact(body) == Some(json_spelling(v)),
{
}

} // verus!
