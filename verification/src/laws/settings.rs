//! What the settings come to: which host is asked, for which scope, and where Lark sends
//! the browser back to.

use vstd::prelude::*;

use crate::config::{
    accounts_base, callback_url, local_host, open_base, registered, resolved, resolved_text,
    config_view, scope_to_request, ConfigModel,
};
use crate::document::toml_document;
use crate::lark::{token_request, user_request};
use crate::laws::reading::{one_app_document, one_app_document_is_read};
use crate::laws::words::{
    beginning_is_the_first_part, blank, cut_at_the_first, leftmost_is_replaced,
    no_cut_without_the_character, tight, tight_texts_stay, trailing_run_is_dropped,
    trimming_drops_what_is_around,
};
use crate::login::{authorize_page, over_tls};
use crate::text::{folded_list, occurs_at, white_space};

verus! {

// ---- resolution -------------------------------------------------------------

/// Settings that resolve are those of the app that `[console]` binds and of `[console]`
/// itself, character for character: the id and the secret of the app, and the callback
/// address and the scope of `[console]`.
pub proof fn settings_are_taken_as_they_stand(c: ConfigModel)
    ensures
        resolved(c) matches Some(o) ==> {
            &&& c.console.lark_app matches Some(name)
            &&& registered(c.lark_apps, name) matches Some(app)
            &&& o.app_id == app.app_id
            &&& o.app_secret == app.app_secret
            &&& o.redirect_uri == c.console.redirect_uri
            &&& o.scope == c.console.scope
            &&& o.admins == folded_list(c.console.admins)
            &&& o.open_base == open_base(app.base_url)
        },
{
}

/// Of two apps of the same name the first counts, and an app of another name does not.
pub proof fn first_app_of_a_name_counts(c: ConfigModel, i: int)
    requires
        c.console.lark_app is Some,
        0 <= i < c.lark_apps.len(),
        c.lark_apps[i].0 == c.console.lark_app->0,
        forall|k: int| 0 <= k < i ==> (#[trigger] c.lark_apps[k]).0 != c.console.lark_app->0,
    ensures
        registered(c.lark_apps, c.console.lark_app->0) == Some(c.lark_apps[i].1),
        resolved(c) matches Some(o) ==> o.app_id == c.lark_apps[i].1.app_id && o.app_secret
            == c.lark_apps[i].1.app_secret,
{
    found_at(c.lark_apps, c.console.lark_app->0, i);
}

proof fn found_at(apps: Seq<(Seq<char>, crate::config::AppModel)>, name: Seq<char>, i: int)
    requires
        0 <= i < apps.len(),
        apps[i].0 == name,
        forall|k: int| 0 <= k < i ==> (#[trigger] apps[k]).0 != name,
    ensures
        registered(apps, name) == Some(apps[i].1),
    decreases i,
{
    if i > 0 {
        assert(apps[0].0 != name);
        let rest = apps.drop_first();
        assert forall|k: int| 0 <= k < i - 1 implies (#[trigger] rest[k]).0 != name by {
            assert(rest[k] == apps[k + 1]);
        }
        found_at(rest, name, i - 1);
    }
}

/// The platform is the configured one but for the slashes at its end, however many
/// there are, and Lark's own where none is configured.
pub proof fn platform_loses_only_its_slashes(host: Seq<char>, n: nat)
    requires
        host.len() + n > 0,
        host.len() > 0 ==> host[host.len() - 1] != '/',
    ensures
        open_base(host + Seq::new(n, |i: int| '/')) == host,
        open_base(Seq::empty()) == "https://open.larksuite.com"@,
{
    trailing_run_is_dropped(host, '/', n);
}

/// Whatever the scheme, the authorize page of an `open` host is on the `accounts` host
/// of the same domain; only that word changes.
pub proof fn accounts_host_belongs_to_the_open_host(scheme: Seq<char>, domain: Seq<char>)
    requires
        !scheme.contains(':'),
    ensures
        accounts_base(scheme + "://open."@ + domain) == scheme + "://accounts."@ + domain,
{
    reveal_strlit("://open.");
    let from = "://open."@;
    let s = scheme + from + domain;
    assert forall|j: int| 0 <= j < scheme.len() implies !occurs_at(s, from, j) by {
        if occurs_at(s, from, j) {
            assert(s.subrange(j, j + from.len())[0] == s[j]);
            assert(from[0] == ':');
            assert(s[j] == scheme[j]);
            assert(scheme.contains(scheme[j]));
        }
    }
    leftmost_is_replaced(scheme, from, domain, "://accounts."@);
}

/// The three addresses of an app on an `open` host: the page on which the user agrees is
/// on the `accounts` host of its domain, and the token and the account are asked of the
/// `open` host itself.
pub proof fn each_address_is_on_the_configured_platform(
    c: ConfigModel,
    domain: Seq<char>,
    code: Seq<char>,
    verifier: Seq<char>,
    redirect: Seq<char>,
    token: Seq<char>,
)
    requires
        resolved(c) is Some,
        registered(c.lark_apps, c.console.lark_app->0)->0.base_url == "https://open."@ + domain,
        domain.len() > 0,
        domain[domain.len() - 1] != '/',
    ensures
        ({
            let o = resolved(c)->0;
            &&& authorize_page(o) == "https://accounts."@ + domain
                + "/open-apis/authen/v1/authorize"@
            &&& token_request(o, code, verifier, redirect).url == "https://open."@ + domain
                + "/open-apis/authen/v2/oauth/token"@
            &&& user_request(o, token).url == "https://open."@ + domain
                + "/open-apis/authen/v1/user_info"@
        }),
{
    reveal_strlit("https");
    reveal_strlit("https://open.");
    reveal_strlit("https://accounts.");
    reveal_strlit("://open.");
    reveal_strlit("://accounts.");
    let host = "https://open."@ + domain;
    assert(host[host.len() - 1] == domain[domain.len() - 1]);
    platform_loses_only_its_slashes(host, 0);
    assert(host + Seq::new(0, |i: int| '/') =~= host);
    assert("https"@ + "://open."@ + domain =~= host);
    assert("https"@ + "://accounts."@ + domain =~= "https://accounts."@ + domain);
    assert(!"https"@.contains(':'));
    accounts_host_belongs_to_the_open_host("https"@, domain);
}

/// A text that spells a document with one app, bound, resolves to that app, whatever
/// platform it is on.
pub proof fn one_app_text_resolves(
    text: Seq<char>,
    name: Seq<char>,
    id: Seq<char>,
    secret: Seq<char>,
    host: Seq<char>,
)
    requires
        toml_document(text) == Some(one_app_document(name, id, secret, host)),
        id.len() > 0,
        secret.len() > 0,
        host.len() > 0,
        host[host.len() - 1] != '/',
    ensures
        resolved_text(text) matches Some(o) && o.app_id == id && o.app_secret == secret
            && o.open_base == host && o.admins.len() == 0 && o.redirect_uri is None && o.scope
            is None,
{
    one_app_document_is_read(name, id, secret, host);
    platform_loses_only_its_slashes(host, 0);
    assert(host + Seq::new(0, |i: int| '/') =~= host);
    let c = config_view(one_app_document(name, id, secret, host))->0;
    assert(c.lark_apps[0].0 == name);
    first_app_of_a_name_counts(c, 0);
}

// ---- the scope --------------------------------------------------------------

/// The scope asked for is the configured one, whole, but for the white space around it;
/// with none configured it is the whole identity set where there is an allowlist, and
/// nothing otherwise.
pub proof fn scope_is_asked_for_whole(
    before: Seq<char>,
    scope: Seq<char>,
    after: Seq<char>,
    admins: Seq<Seq<char>>,
)
    requires
        blank(before),
        tight(scope),
        blank(after),
    ensures
        scope.len() > 0 ==> scope_to_request(Some(before + scope + after), admins) == Some(scope),
        scope.len() == 0 ==> scope_to_request(Some(before + scope + after), admins) is None,
        admins.len() > 0 ==> scope_to_request(None, admins) == Some(
            "contact:user.email:readonly contact:user.employee:readonly contact:user.employee_id:readonly contact:user.phone:readonly"@,
        ),
        admins.len() == 0 ==> scope_to_request(None, admins) is None,
{
    trimming_drops_what_is_around(before, scope, after);
}

// ---- the callback address ---------------------------------------------------

/// Without a configured address, the callback is on the host of the request, over the
/// scheme that a proxy forwarded.
pub proof fn forwarded_scheme_is_used(host: Seq<char>, scheme: Seq<char>)
    requires
        !scheme.contains(','),
        tight(scheme),
    ensures
        callback_url(None, Some(host), Some(scheme)) == scheme + "://"@ + host
            + "/auth/callback"@,
        scheme == "https"@ ==> over_tls(callback_url(None, Some(host), Some(scheme))),
        scheme == "http"@ ==> !over_tls(callback_url(None, Some(host), Some(scheme))),
{
    no_cut_without_the_character(scheme, ',');
    tight_texts_stay(scheme);
    let url = callback_url(None, Some(host), Some(scheme));
    reveal_strlit("http");
    reveal_strlit("https");
    reveal_strlit("://");
    reveal_strlit("https://");
    if scheme == "https"@ {
        assert(url.take(8) =~= "https://"@);
        assert(url =~= "https://"@ + url.skip(8));
        beginning_is_the_first_part(url, "https://"@);
    }
    if scheme == "http"@ {
        assert(url[4] == ':');
        assert("https://"@[4] == 's');
    }
}

/// Of several forwarded schemes the first counts, without the white space around it.
pub proof fn first_forwarded_scheme_counts(
    host: Seq<char>,
    before: Seq<char>,
    scheme: Seq<char>,
    after: Seq<char>,
    others: Seq<char>,
)
    requires
        !scheme.contains(','),
        blank(before),
        tight(scheme),
        blank(after),
    ensures
        callback_url(None, Some(host), Some(before + scheme + after + seq![','] + others)) == scheme
            + "://"@ + host + "/auth/callback"@,
        callback_url(None, Some(host), Some(before + scheme + after)) == scheme + "://"@ + host
            + "/auth/callback"@,
{
    let first = before + scheme + after;
    assert(!first.contains(',')) by {
        if first.contains(',') {
            let k = choose|k: int| 0 <= k < first.len() && first[k] == ',';
            if k < before.len() {
                assert(white_space(before[k]));
            } else if k < before.len() + scheme.len() {
                assert(scheme[k - before.len()] == ',');
                assert(scheme.contains(','));
            } else {
                assert(white_space(after[k - before.len() - scheme.len()]));
            }
        }
    }
    cut_at_the_first(first, ',', others);
    no_cut_without_the_character(first, ',');
    trimming_drops_what_is_around(before, scheme, after);
}

/// Without a proxy the callback is over plain HTTP on this machine and over TLS on any
/// other; a request without a host is taken to be for this machine.
pub proof fn callback_is_on_the_requested_host(host: Seq<char>, proto: Option<Seq<char>>)
    ensures
        local_host(host) ==> callback_url(None, Some(host), None) == "http://"@ + host
            + "/auth/callback"@,
        !local_host(host) ==> callback_url(None, Some(host), None) == "https://"@ + host
            + "/auth/callback"@,
        callback_url(None, None, proto) == callback_url(None, Some("localhost:8080"@), proto),
        callback_url(None, None, None) == "http://localhost:8080/auth/callback"@,
{
    reveal_strlit("http");
    reveal_strlit("https");
    reveal_strlit("://");
    reveal_strlit("http://");
    reveal_strlit("https://");
    reveal_strlit("localhost");
    reveal_strlit("localhost:8080");
    reveal_strlit("/auth/callback");
    reveal_strlit("http://localhost:8080/auth/callback");
    assert("http"@ + "://"@ + host + "/auth/callback"@ =~= "http://"@ + host + "/auth/callback"@);
    assert("https"@ + "://"@ + host + "/auth/callback"@ =~= "https://"@ + host
        + "/auth/callback"@);
    assert("localhost:8080"@ =~= "localhost"@ + "localhost:8080"@.skip(9));
    machine_is_known_by_its_host("localhost:8080"@);
    beginning_is_the_first_part("localhost:8080"@, "localhost"@);
    assert("http"@ + "://"@ + "localhost:8080"@ + "/auth/callback"@
        =~= "http://localhost:8080/auth/callback"@);
}

/// A host is this machine exactly where it begins with `localhost` or `127.0.0.1`.
pub proof fn machine_is_known_by_its_host(host: Seq<char>)
    ensures
        local_host(host) <==> (exists|rest: Seq<char>| host == #[trigger] ("localhost"@ + rest))
            || (exists|rest: Seq<char>| host == #[trigger] ("127.0.0.1"@ + rest)),
{
    beginning_is_the_first_part(host, "localhost"@);
    beginning_is_the_first_part(host, "127.0.0.1"@);
}

/// A configured address that is empty counts as none, and any other is used as it
/// stands.
pub proof fn empty_address_counts_as_none(
    uri: Seq<char>,
    host: Option<Seq<char>>,
    proto: Option<Seq<char>>,
)
    ensures
        callback_url(Some(Seq::empty()), host, proto) == callback_url(None, host, proto),
        uri.len() > 0 ==> callback_url(Some(uri), host, proto) == uri,
{
}

/// An address is over TLS exactly where it begins with `https://`.
pub proof fn tls_is_known_by_the_scheme(address: Seq<char>)
    ensures
        over_tls(address) <==> exists|rest: Seq<char>| address == #[trigger] ("https://"@ + rest),
{
    beginning_is_the_first_part(address, "https://"@);
}

} // verus!
