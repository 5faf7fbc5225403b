//! When parameters can be added to an address, and what comes of it.

use vstd::prelude::*;
use vstd::utf8::{encode_scalar, encode_utf8, encode_utf8_decode_utf8};

use crate::config::OAuthModel;
use crate::laws::words::cut_at_the_first;
use crate::laws::words::no_cut_without_the_character;
use crate::laws::{form_text_is_plain, in_forms, in_utf8};
use crate::login::{
    authorize_page, authorize_params, form_pair, form_pairs, form_text, fragment_of, joint,
    login_outcome, open_query, parsed_base, query_end, takes_params, with_params, without_fragment,
};
use crate::reply::HandshakeModel;
use crate::text::before_first;
use crate::token::challenge_of;

verus! {

proof fn utf8_of_two(a: Seq<char>, b: Seq<char>)
    ensures
        encode_utf8(a + b) == encode_utf8(a) + encode_utf8(b),
    decreases a.len(),
{
    if a.len() == 0 {
        assert(a + b =~= b);
        assert(encode_utf8(a) + encode_utf8(b) =~= encode_utf8(b));
    } else {
        assert((a + b).drop_first() =~= a.drop_first() + b);
        utf8_of_two(a.drop_first(), b);
        let head = encode_scalar(a[0] as u32);
        assert(head + (encode_utf8(a.drop_first()) + encode_utf8(b)) =~= head + encode_utf8(
            a.drop_first(),
        ) + encode_utf8(b));
    }
}

proof fn utf8_of_ascii(s: Seq<char>)
    requires
        forall|i: int| 0 <= i < s.len() ==> (#[trigger] s[i] as u32) < 128,
    ensures
        encode_utf8(s).len() == s.len(),
    decreases s.len(),
{
    if s.len() > 0 {
        assert((s[0] as u32) < 128);
        let rest = s.drop_first();
        assert forall|i: int| 0 <= i < rest.len() implies (#[trigger] rest[i] as u32) < 128 by {
            assert(rest[i] == s[i + 1]);
        }
        utf8_of_ascii(rest);
    }
}

proof fn pairs_are_plain(params: Seq<(Seq<char>, Seq<char>)>)
    ensures
        forall|i: int|
            0 <= i < form_pairs(params).len() ==> {
                let c = #[trigger] form_pairs(params)[i];
                in_forms(c) || c == '=' || c == '&'
            },
    decreases params.len(),
{
    if params.len() > 0 {
        let key = form_text(encode_utf8(params[0].0));
        let value = form_text(encode_utf8(params[0].1));
        let first = form_pair(params[0]);
        let rest = form_pairs(params.drop_first());
        form_text_is_plain(encode_utf8(params[0].0));
        form_text_is_plain(encode_utf8(params[0].1));
        pairs_are_plain(params.drop_first());
        let all = form_pairs(params);
        assert forall|i: int| 0 <= i < all.len() implies {
            let c = #[trigger] all[i];
            in_forms(c) || c == '=' || c == '&'
        } by {
            if i < first.len() {
                assert(all[i] == first[i]);
                if i < key.len() {
                    assert(first[i] == key[i]);
                } else if i > key.len() {
                    assert(first[i] == value[i - key.len() - 1]);
                }
            } else if i > first.len() {
                assert(all[i] == rest[i - first.len() - 1]);
            }
        }
    }
}

/// The parts of an address before its fragment, with the parameters in its query.
pub open spec fn up_to_fragment(url: Seq<char>, params: Seq<(Seq<char>, Seq<char>)>) -> Seq<char> {
    before_first(with_params(url, params), '#')
}

proof fn head_has_no_sign(s: Seq<char>, c: char)
    ensures
        !before_first(s, c).contains(c),
    decreases s.len(),
{
    if s.len() > 0 && s[0] != c {
        head_has_no_sign(s.drop_first(), c);
        let rest = before_first(s.drop_first(), c);
        let whole = before_first(s, c);
        assert(whole =~= seq![s[0]] + rest);
        if whole.contains(c) {
            let k = choose|k: int| 0 <= k < whole.len() && whole[k] == c;
            assert(k > 0);
            assert(rest[k - 1] == c);
            assert(rest.contains(c));
        }
    }
}

proof fn parts_of_the_address(url: Seq<char>, params: Seq<(Seq<char>, Seq<char>)>)
    ensures
        up_to_fragment(url, params) == open_query(url) + joint(url, params) + form_pairs(params),
        encode_utf8(up_to_fragment(url, params)).len() == query_end(url, params),
        with_params(url, params) == up_to_fragment(url, params) + fragment_of(url),
{
    reveal_strlit("?");
    let opened = open_query(url);
    let sep = joint(url, params);
    let pairs = form_pairs(params);
    let s = opened + sep + pairs;
    let all = with_params(url, params);
    pairs_are_plain(params);
    head_has_no_sign(url, '#');
    assert(!s.contains('#')) by {
        if s.contains('#') {
            let k = choose|k: int| 0 <= k < s.len() && s[k] == '#';
            let head = without_fragment(url);
            if k < head.len() {
                assert(head[k] == '#');
                assert(head.contains('#'));
            } else if k < opened.len() {
                assert(opened[k] == '?');
            } else if k < opened.len() + sep.len() {
                assert(sep[k - opened.len()] == '&');
            } else {
                assert(pairs[k - opened.len() - sep.len()] == '#');
            }
        }
    }
    let fragment = fragment_of(url);
    assert(all =~= s + fragment);
    if url.contains('#') {
        fragment_begins_with_its_sign(url);
        let inside = fragment.drop_first();
        assert(fragment =~= seq!['#'] + inside);
        assert(all =~= s + seq!['#'] + inside);
        cut_at_the_first(s, '#', inside);
    } else {
        no_cut_without_the_character(url, '#');
        assert(fragment =~= Seq::empty());
        assert(all =~= s);
        no_cut_without_the_character(s, '#');
    }
    utf8_of_two(opened + sep, pairs);
    utf8_of_two(opened, sep);
    utf8_of_ascii(sep);
    assert forall|i: int| 0 <= i < pairs.len() implies (#[trigger] pairs[i] as u32) < 128 by {}
    utf8_of_ascii(pairs);
}

proof fn fragment_begins_with_its_sign(url: Seq<char>)
    requires
        url.contains('#'),
    ensures
        before_first(url, '#').len() < url.len(),
        fragment_of(url).len() > 0,
        fragment_of(url)[0] == '#',
    decreases url.len(),
{
    if url[0] != '#' {
        let rest = url.drop_first();
        let k = choose|k: int| 0 <= k < url.len() && url[k] == '#';
        assert(rest[k - 1] == '#');
        assert(rest.contains('#'));
        fragment_begins_with_its_sign(rest);
        let n = before_first(rest, '#').len() as int;
        assert(before_first(url, '#') == seq![url[0]] + before_first(rest, '#'));
        assert(before_first(url, '#').len() == n + 1);
        assert(n < rest.len());
        assert(url.skip(n + 1) =~= rest.skip(n));
    } else {
        assert(before_first(url, '#') =~= Seq::empty());
    }
}

/// Parameters can be added to an address exactly where every place that has to be
/// remembered fits in thirty-two bits: where its query begins, if that is new, and where
/// its fragment begins, if it has one. Nothing else about its size matters.
pub proof fn addresses_take_parameters(url: Seq<char>, params: Seq<(Seq<char>, Seq<char>)>)
    ensures
        takes_params(url, params) <==> {
            &&& !before_first(url, '#').contains('?') ==> encode_utf8(before_first(url, '#')).len()
                <= 0xffff_ffff
            &&& url.contains('#') ==> encode_utf8(up_to_fragment(url, params)).len() <= 0xffff_ffff
        },
{
    parts_of_the_address(url, params);
}

/// A login goes unanswered exactly where its page is an address that cannot take its
/// parameters.
pub proof fn login_is_answered_where_it_can_be(cfg: OAuthModel, h: HandshakeModel)
    ensures
        login_outcome(cfg, h) is None <==> (parsed_base(authorize_page(cfg)) matches Some(url)
            && !takes_params(
            url,
            authorize_params(cfg, h.redirect_uri, h.state, challenge_of(h.verifier)),
        )),
{
}

/// Parameters are added before the fragment, which stays as it is, and after what the
/// query already holds.
pub proof fn query_grows_at_its_end(
    path: Seq<char>,
    query: Seq<char>,
    fragment: Seq<char>,
    params: Seq<(Seq<char>, Seq<char>)>,
)
    requires
        !path.contains('?'),
        !path.contains('#'),
        !query.contains('#'),
        query.len() > 0,
        params.len() > 0,
    ensures
        with_params(path + seq!['?'] + query, params) == path + seq!['?'] + query + seq!['&']
            + form_pairs(params),
        with_params(path + seq!['?'] + query + seq!['#'] + fragment, params) == path + seq!['?']
            + query + seq!['&'] + form_pairs(params) + seq!['#'] + fragment,
{
    reveal_strlit("?");
    let head = path + seq!['?'] + query;
    assert(!head.contains('#')) by {
        if head.contains('#') {
            let k = choose|k: int| 0 <= k < head.len() && head[k] == '#';
            if k < path.len() {
                assert(path[k] == '#');
                assert(path.contains('#'));
            } else if k > path.len() {
                assert(query[k - path.len() - 1] == '#');
                assert(query.contains('#'));
            }
        }
    }
    assert(head[path.len() as int] == '?');
    assert(head.contains('?'));
    cut_at_the_first(path, '?', query);
    let bare = path + "?"@;
    assert(bare.len() < head.len());
    no_cut_without_the_character(head, '#');
    assert(fragment_of(head) =~= Seq::empty());
    assert(with_params(head, params) =~= head + seq!['&'] + form_pairs(params));
    let whole = head + seq!['#'] + fragment;
    cut_at_the_first(head, '#', fragment);
    assert(fragment_of(whole) =~= seq!['#'] + fragment);
    assert(with_params(whole, params) =~= head + seq!['&'] + form_pairs(params) + seq!['#']
        + fragment);
}

/// Parameters that are the same in UTF-8 are the same.
pub proof fn parameters_are_known_by_their_bytes(
    a: Seq<(Seq<char>, Seq<char>)>,
    b: Seq<(Seq<char>, Seq<char>)>,
)
    requires
        in_utf8(a) == in_utf8(b),
    ensures
        a == b,
{
    assert(in_utf8(a).len() == a.len() && in_utf8(b).len() == b.len());
    assert forall|i: int| 0 <= i < a.len() implies a[i] == b[i] by {
        assert(in_utf8(a)[i] == in_utf8(b)[i]);
        encode_utf8_decode_utf8(a[i].0);
        encode_utf8_decode_utf8(a[i].1);
        encode_utf8_decode_utf8(b[i].0);
        encode_utf8_decode_utf8(b[i].1);
    }
    assert(a =~= b);
}

} // verus!
