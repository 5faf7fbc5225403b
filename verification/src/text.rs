//! Text as the rest of the crate uses it: sequences of characters, with the
//! few operations that configuration values and headers go through.

use vstd::prelude::*;
use vstd::utf8::is_ascii_chars;

use crate::laws::folded_list_holds_what_is_not_blank;

verus! {

/// The characters with Unicode's `White_Space` property.
pub open spec fn white_space(c: char) -> bool {
    let u = c as u32;
    ||| 0x9 <= u <= 0xd
    ||| u == 0x20
    ||| u == 0x85
    ||| u == 0xa0
    ||| u == 0x1680
    ||| 0x2000 <= u <= 0x200a
    ||| u == 0x2028
    ||| u == 0x2029
    ||| u == 0x202f
    ||| u == 0x205f
    ||| u == 0x3000
}

/// `s` without its leading white space.
pub open spec fn without_leading_space(s: Seq<char>) -> Seq<char>
    decreases s.len(),
{
    if s.len() > 0 && white_space(s[0]) {
        without_leading_space(s.drop_first())
    } else {
        s
    }
}

/// `s` without its trailing white space.
pub open spec fn without_trailing_space(s: Seq<char>) -> Seq<char>
    decreases s.len(),
{
    if s.len() > 0 && white_space(s.last()) {
        without_trailing_space(s.drop_last())
    } else {
        s
    }
}

/// `s` without white space at either end.
pub open spec fn trimmed(s: Seq<char>) -> Seq<char> {
    without_trailing_space(without_leading_space(s))
}

/// `s` without the run of `c` at its end.
pub open spec fn without_trailing(s: Seq<char>, c: char) -> Seq<char>
    decreases s.len(),
{
    if s.len() > 0 && s.last() == c {
        without_trailing(s.drop_last(), c)
    } else {
        s
    }
}

/// Whether `s` begins with `prefix`.
pub open spec fn begins_with(s: Seq<char>, prefix: Seq<char>) -> bool {
    prefix.is_prefix_of(s)
}

/// Whether `pattern` occurs in `s` from position `i` on.
pub open spec fn occurs_at(s: Seq<char>, pattern: Seq<char>, i: int) -> bool {
    0 <= i && i + pattern.len() <= s.len() && s.subrange(i, i + pattern.len()) == pattern
}

/// Whether `i` is the leftmost position at which `pattern` occurs in `s`.
pub open spec fn first_occurrence(s: Seq<char>, pattern: Seq<char>, i: int) -> bool {
    occurs_at(s, pattern, i) && forall|j: int| 0 <= j < i ==> !occurs_at(s, pattern, j)
}

/// `s` with the leftmost occurrence of `from` replaced by `to`; `s` itself
/// where `from` does not occur.
pub open spec fn first_replaced(s: Seq<char>, from: Seq<char>, to: Seq<char>) -> Seq<char> {
    if exists|i: int| first_occurrence(s, from, i) {
        let i = choose|i: int| first_occurrence(s, from, i);
        s.subrange(0, i) + to + s.subrange(i + from.len(), s.len() as int)
    } else {
        s
    }
}

/// The part of `s` before the first `c`; all of `s` where there is none.
pub open spec fn before_first(s: Seq<char>, c: char) -> Seq<char>
    decreases s.len(),
{
    if s.len() == 0 || s[0] == c {
        Seq::empty()
    } else {
        seq![s[0]] + before_first(s.drop_first(), c)
    }
}

/// The part of `s` after the first `c`; nothing where there is none.
pub open spec fn after_first(s: Seq<char>, c: char) -> Seq<char> {
    if before_first(s, c).len() < s.len() {
        s.skip(before_first(s, c).len() as int + 1)
    } else {
        Seq::empty()
    }
}

/// `c` with `A` to `Z` turned into `a` to `z`.
pub open spec fn ascii_lowercase(c: char) -> char {
    if 'A' <= c <= 'Z' {
        (c as u32 + 32) as char
    } else {
        c
    }
}

/// The lower-case form of a text that is not all ASCII, by Unicode's case tables: its
/// first character, and the others.
pub uninterp spec fn unicode_lowercase(s: Seq<char>) -> (char, Seq<char>);

/// The lower-case form of a text.
pub open spec fn lowercase(s: Seq<char>) -> Seq<char> {
    if is_ascii_chars(s) {
        s.map_values(|c: char| ascii_lowercase(c))
    } else {
        seq![unicode_lowercase(s).0] + unicode_lowercase(s).1
    }
}

/// `str::to_lowercase`: of a text that is all ASCII it changes exactly the letters
/// `A` to `Z`. Of any other the result depends on the text alone and is not empty,
/// since a character has one or more characters as its lower-case form; what
/// Unicode's case tables make of the text is left to the name.
pub assume_specification[ str::to_lowercase ](s: &str) -> (r: String)
    ensures
        r@ == (if is_ascii_chars(s@) {
            s@.map_values(|c: char| ascii_lowercase(c))
        } else {
            seq![unicode_lowercase(s@).0] + unicode_lowercase(s@).1
        }),
;

/// How an address or an allowlist entry is written for comparison: trimmed and
/// in lower case.
pub open spec fn folded(s: Seq<char>) -> Seq<char> {
    lowercase(trimmed(s))
}

/// The folded entries of a list, without those that are empty.
pub open spec fn folded_list(list: Seq<Seq<char>>) -> Seq<Seq<char>> {
    list.map_values(|s: Seq<char>| folded(s)).filter(|s: Seq<char>| s.len() > 0)
}

/// Whether no text in a list holds anything but white space.
pub open spec fn all_blank(list: Seq<Seq<char>>) -> bool {
    forall|i: int| 0 <= i < list.len() ==> trimmed(#[trigger] list[i]).len() == 0
}

/// The characters of each text in a list.
pub open spec fn texts(list: Seq<String>) -> Seq<Seq<char>> {
    list.map_values(|s: String| s@)
}

/// The characters of a text that may be absent.
pub open spec fn maybe_text(t: Option<String>) -> Option<Seq<char>> {
    match t {
        Some(s) => Some(s@),
        None => None,
    }
}

/// The characters of each text in a list of pairs.
pub open spec fn text_pairs(list: Seq<(String, String)>) -> Seq<(Seq<char>, Seq<char>)> {
    list.map_values(|p: (String, String)| (p.0@, p.1@))
}

/// The one-element list of a text, empty where it is absent.
pub open spec fn present(t: Option<Seq<char>>) -> Seq<Seq<char>> {
    match t {
        Some(s) => seq![s],
        None => Seq::empty(),
    }
}

fn is_white_space(c: char) -> (r: bool)
    ensures
        r == white_space(c),
{
    let u: u32 = c as u32;
    (0x9 <= u && u <= 0xd) || u == 0x20 || u == 0x85 || u == 0xa0 || u == 0x1680 || (0x2000 <= u
        && u <= 0x200a) || u == 0x2028 || u == 0x2029 || u == 0x202f || u == 0x205f || u == 0x3000
}

/// The characters of `s`, in order.
fn characters(s: &str) -> (r: Vec<char>)
    ensures
        r@ == s@,
{
    let mut out: Vec<char> = Vec::new();
    for c in it: s.chars()
        invariant
            out@ == s@.take(it.index() as int),
            it.seq() == s@,
    {
        out.push(c);
    }
    out
}

proof fn leading_space_step(s: Seq<char>, i: int)
    requires
        0 <= i <= s.len(),
        forall|k: int| 0 <= k < i ==> white_space(#[trigger] s[k]),
    ensures
        without_leading_space(s) == without_leading_space(s.subrange(i, s.len() as int)),
    decreases i,
{
    if i == 0 {
        assert(s.subrange(0, s.len() as int) =~= s);
    } else {
        leading_space_step(s.drop_first(), i - 1);
        assert(s.drop_first().subrange(i - 1, s.len() - 1) =~= s.subrange(i, s.len() as int));
    }
}

proof fn trailing_space_step(s: Seq<char>, i: int)
    requires
        0 <= i <= s.len(),
        forall|k: int| i <= k < s.len() ==> white_space(#[trigger] s[k]),
    ensures
        without_trailing_space(s) == without_trailing_space(s.subrange(0, i)),
    decreases s.len() - i,
{
    if i == s.len() {
        assert(s.subrange(0, i) =~= s);
    } else {
        assert(white_space(s[s.len() - 1]));
        trailing_space_step(s.drop_last(), i);
        assert(s.drop_last().subrange(0, i) =~= s.subrange(0, i));
    }
}

proof fn trailing_step(s: Seq<char>, c: char, i: int)
    requires
        0 <= i <= s.len(),
        forall|k: int| i <= k < s.len() ==> #[trigger] s[k] == c,
    ensures
        without_trailing(s, c) == without_trailing(s.subrange(0, i), c),
    decreases s.len() - i,
{
    if i == s.len() {
        assert(s.subrange(0, i) =~= s);
    } else {
        assert(s[s.len() - 1] == c);
        trailing_step(s.drop_last(), c, i);
        assert(s.drop_last().subrange(0, i) =~= s.subrange(0, i));
    }
}

/// What stands before the first `c`, found by its position.
pub proof fn before_first_step(s: Seq<char>, c: char, i: int)
    requires
        0 <= i <= s.len(),
        forall|k: int| 0 <= k < i ==> #[trigger] s[k] != c,
        i == s.len() || s[i] == c,
    ensures
        before_first(s, c) == s.subrange(0, i),
    decreases i,
{
    if i > 0 {
        assert(s[0] != c);
        before_first_step(s.drop_first(), c, i - 1);
        assert(seq![s[0]] + s.drop_first().subrange(0, i - 1) =~= s.subrange(0, i));
    }
}

/// `s` without white space at either end.
pub fn trim(s: &str) -> (r: &str)
    ensures
        r@ == trimmed(s@),
{
    let cs = characters(s);
    let mut start: usize = 0;
    while start < cs.len() && is_white_space(cs[start])
        invariant
            start <= cs.len(),
            cs@ == s@,
            forall|k: int| 0 <= k < start ==> white_space(#[trigger] s@[k]),
        decreases cs.len() - start,
    {
        start = start + 1;
    }
    let ghost rest = s@.subrange(start as int, s@.len() as int);
    proof {
        leading_space_step(s@, start as int);
        assert(without_leading_space(rest) == rest);
    }
    let mut end: usize = cs.len();
    while end > start && is_white_space(cs[end - 1])
        invariant
            start <= end <= cs.len(),
            cs@ == s@,
            rest == s@.subrange(start as int, s@.len() as int),
            forall|k: int| end - start <= k < rest.len() ==> white_space(#[trigger] rest[k]),
        decreases end,
    {
        end = end - 1;
    }
    proof {
        trailing_space_step(rest, end - start);
        assert(rest.subrange(0, end - start) =~= s@.subrange(start as int, end as int));
    }
    s.substring_char(start, end)
}

/// `s` without the run of `c` at its end.
pub fn trim_end_matches(s: &str, c: char) -> (r: &str)
    ensures
        r@ == without_trailing(s@, c),
{
    let cs = characters(s);
    let mut end: usize = cs.len();
    while end > 0 && cs[end - 1] == c
        invariant
            end <= cs.len(),
            cs@ == s@,
            forall|k: int| end <= k < s@.len() ==> #[trigger] s@[k] == c,
        decreases end,
    {
        end = end - 1;
    }
    proof {
        trailing_step(s@, c, end as int);
    }
    s.substring_char(0, end)
}

/// The part of `s` before the first `c`; all of `s` where there is none.
pub fn split_first(s: &str, c: char) -> (r: &str)
    ensures
        r@ == before_first(s@, c),
{
    let cs = characters(s);
    let mut end: usize = 0;
    while end < cs.len() && cs[end] != c
        invariant
            end <= cs.len(),
            cs@ == s@,
            forall|k: int| 0 <= k < end ==> #[trigger] s@[k] != c,
        decreases cs.len() - end,
    {
        end = end + 1;
    }
    proof {
        before_first_step(s@, c, end as int);
    }
    s.substring_char(0, end)
}

/// Whether `pattern` occurs in `cs` from position `i` on.
fn matches_at(cs: &Vec<char>, pattern: &Vec<char>, i: usize) -> (r: bool)
    ensures
        r == occurs_at(cs@, pattern@, i as int),
{
    if i > cs.len() || pattern.len() > cs.len() - i {
        return false;
    }
    let mut k: usize = 0;
    while k < pattern.len()
        invariant
            k <= pattern.len(),
            i + pattern.len() <= cs.len(),
            forall|j: int| 0 <= j < k ==> cs@[i + j] == #[trigger] pattern@[j],
        decreases pattern.len() - k,
    {
        if cs[i + k] != pattern[k] {
            assert(cs@.subrange(i as int, i + pattern@.len())[k as int] != pattern@[k as int]);
            return false;
        }
        k = k + 1;
    }
    assert(cs@.subrange(i as int, i + pattern@.len()) =~= pattern@);
    true
}

/// Whether `s` begins with `prefix`.
pub fn starts_with(s: &str, prefix: &str) -> (r: bool)
    ensures
        r == begins_with(s@, prefix@),
{
    let r = matches_at(&characters(s), &characters(prefix), 0);
    proof {
        if prefix@.len() <= s@.len() {
            assert(s@.subrange(0, prefix@.len() as int) =~= s@.take(prefix@.len() as int));
        }
        if begins_with(s@, prefix@) {
            assert(s@.subrange(0, prefix@.len() as int) =~= prefix@);
        }
    }
    r
}

/// `s` with the leftmost occurrence of `from` replaced by `to`.
pub fn replace_first(s: &str, from: &str, to: &str) -> (r: String)
    ensures
        r@ == first_replaced(s@, from@, to@),
{
    let cs = characters(s);
    let pattern = characters(from);
    let mut i: usize = 0;
    while i < cs.len() && !matches_at(&cs, &pattern, i)
        invariant
            i <= cs.len(),
            cs@ == s@,
            pattern@ == from@,
            forall|j: int| 0 <= j < i ==> !occurs_at(s@, from@, j),
        decreases cs.len() - i,
    {
        i = i + 1;
    }
    if matches_at(&cs, &pattern, i) {
        proof {
            assert(first_occurrence(s@, from@, i as int));
            let j = choose|j: int| first_occurrence(s@, from@, j);
            assert(first_occurrence(s@, from@, j));
            assert(j == i) by {
                if j < i {
                    assert(!occurs_at(s@, from@, j));
                }
                if i < j {
                    assert(!occurs_at(s@, from@, i as int));
                }
            }
        }
        let mut out = s.substring_char(0, i).to_owned();
        out.append(to);
        out.append(s.substring_char(i + pattern.len(), cs.len()));
        out
    } else {
        proof {
            assert forall|j: int| !first_occurrence(s@, from@, j) by {
                if 0 <= j < i {
                    assert(!occurs_at(s@, from@, j));
                }
            }
        }
        s.to_owned()
    }
}

/// The folded entries of `list`, in order, without those that are empty.
pub fn fold_list(list: &Vec<String>) -> (r: Vec<String>)
    ensures
        texts(r@) == folded_list(texts(list@)),
        r@.len() == 0 <==> all_blank(texts(list@)),
{
    let ghost keep = |s: Seq<char>| s.len() > 0;
    let ghost all = texts(list@).map_values(|s: Seq<char>| folded(s));
    let mut out: Vec<String> = Vec::new();
    proof {
        assert(all.take(0) =~= Seq::empty());
        reveal(Seq::filter);
        assert(texts(out@) =~= all.take(0).filter(keep));
    }
    let mut i: usize = 0;
    while i < list.len()
        invariant
            i <= list.len(),
            keep == (|s: Seq<char>| s.len() > 0),
            all == texts(list@).map_values(|s: Seq<char>| folded(s)),
            texts(out@) == all.take(i as int).filter(keep),
        decreases list.len() - i,
    {
        let entry = trim(list[i].as_str()).to_lowercase();
        proof {
            reveal(Seq::filter);
            assert(all.take(i + 1).drop_last() =~= all.take(i as int));
            assert(all.take(i + 1).last() == entry@);
        }
        let ghost before = out@;
        if !entry.as_str().is_empty() {
            out.push(entry);
            assert(texts(out@) =~= texts(before).push(entry@));
        }
        i = i + 1;
    }
    assert(all.take(i as int) =~= all);
    proof {
        folded_list_holds_what_is_not_blank(texts(list@));
        assert(texts(out@).len() == out@.len());
    }
    out
}

/// Whether `list` holds `s`.
pub fn holds(list: &Vec<String>, s: &str) -> (r: bool)
    ensures
        r == texts(list@).contains(s@),
{
    let mut i: usize = 0;
    while i < list.len()
        invariant
            i <= list.len(),
            forall|k: int| 0 <= k < i ==> #[trigger] texts(list@)[k] != s@,
        decreases list.len() - i,
    {
        if same(list[i].as_str(), s) {
            assert(texts(list@)[i as int] == s@);
            return true;
        }
        i = i + 1;
    }
    false
}

/// A copy of a text that may be absent.
pub(crate) fn copy_text(t: &Option<String>) -> (r: Option<String>)
    ensures
        maybe_text(r) == maybe_text(*t),
{
    match t {
        Some(s) => Some(s.clone()),
        None => None,
    }
}

/// Whether `c` occurs in `s`.
pub fn has_char(s: &str, c: char) -> (r: bool)
    ensures
        r == s@.contains(c),
{
    let cs = characters(s);
    let mut i: usize = 0;
    while i < cs.len()
        invariant
            i <= cs.len(),
            cs@ == s@,
            forall|k: int| 0 <= k < i ==> #[trigger] s@[k] != c,
        decreases cs.len() - i,
    {
        if cs[i] == c {
            assert(s@[i as int] == c);
            return true;
        }
        i = i + 1;
    }
    false
}

/// Appends a pair of texts to a list.
pub fn push_pair(list: &mut Vec<(String, String)>, key: &str, value: &str)
    ensures
        text_pairs(final(list)@) == text_pairs(old(list)@).push((key@, value@)),
{
    let ghost before = list@;
    list.push((key.to_owned(), value.to_owned()));
    assert(text_pairs(list@) =~= text_pairs(before).push((key@, value@)));
}

/// Whether two texts are the same.
pub fn same(a: &str, b: &str) -> (r: bool)
    ensures
        r == (a@ == b@),
{
    a.to_owned() == b.to_owned()
}

} // verus!
