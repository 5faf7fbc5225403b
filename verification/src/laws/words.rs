//! What the text operations mean, said of texts put together from parts.

use vstd::prelude::*;
use vstd::utf8::is_ascii_chars;

use crate::text::{
    after_first, before_first, before_first_step, begins_with, first_occurrence, first_replaced,
    folded, folded_list, lowercase, occurs_at, trimmed, white_space, without_leading_space,
    without_trailing, without_trailing_space,
};

verus! {

/// Whether a text is nothing but white space.
pub open spec fn blank(s: Seq<char>) -> bool {
    forall|i: int| 0 <= i < s.len() ==> white_space(#[trigger] s[i])
}

/// Whether a text neither begins nor ends with white space.
pub open spec fn tight(s: Seq<char>) -> bool {
    s.len() > 0 ==> !white_space(s[0]) && !white_space(s[s.len() - 1])
}

proof fn leading_blanks_go(blanks: Seq<char>, s: Seq<char>)
    requires
        blank(blanks),
    ensures
        without_leading_space(blanks + s) == without_leading_space(s),
    decreases blanks.len(),
{
    if blanks.len() == 0 {
        assert(blanks + s =~= s);
    } else {
        let rest = blanks.drop_first();
        assert forall|i: int| 0 <= i < rest.len() implies white_space(#[trigger] rest[i]) by {
            assert(rest[i] == blanks[i + 1]);
        }
        assert(white_space(blanks[0]));
        assert((blanks + s).drop_first() =~= rest + s);
        leading_blanks_go(rest, s);
    }
}

proof fn trailing_blanks_go(s: Seq<char>, blanks: Seq<char>)
    requires
        blank(blanks),
    ensures
        without_trailing_space(s + blanks) == without_trailing_space(s),
    decreases blanks.len(),
{
    if blanks.len() == 0 {
        assert(s + blanks =~= s);
    } else {
        let rest = blanks.drop_last();
        assert(white_space(blanks[blanks.len() - 1]));
        assert((s + blanks).last() == blanks[blanks.len() - 1]);
        assert((s + blanks).drop_last() =~= s + rest);
        trailing_blanks_go(s, rest);
    }
}

/// Trimming drops the white space around a text and nothing else.
pub proof fn trimming_drops_what_is_around(before: Seq<char>, middle: Seq<char>, after: Seq<char>)
    requires
        blank(before),
        tight(middle),
        blank(after),
    ensures
        trimmed(before + middle + after) == middle,
{
    let s = middle + after;
    assert(before + middle + after =~= before + s);
    leading_blanks_go(before, s);
    if middle.len() > 0 {
        assert(s[0] == middle[0]);
        assert(without_leading_space(s) == s);
        trailing_blanks_go(middle, after);
        assert(middle.last() == middle[middle.len() - 1]);
    } else {
        assert(s =~= after + Seq::empty());
        leading_blanks_go(after, Seq::empty());
        assert(middle =~= Seq::empty());
    }
}

/// A text that neither begins nor ends with white space is left as it is.
pub proof fn tight_texts_stay(s: Seq<char>)
    requires
        tight(s),
    ensures
        trimmed(s) == s,
{
    trimming_drops_what_is_around(Seq::empty(), s, Seq::empty());
    assert(Seq::empty() + s + Seq::empty() =~= s);
}

/// Among the ASCII characters, white space is the space and what lies from the tab to
/// the carriage return.
pub proof fn ascii_white_space(c: char)
    requires
        (c as u32) < 128,
    ensures
        white_space(c) <==> c == ' ' || '\t' <= c <= '\r',
{
}

/// Of a text with a run of a character at its end, the run is dropped and the rest
/// kept.
pub proof fn trailing_run_is_dropped(s: Seq<char>, c: char, n: nat)
    requires
        s.len() > 0 ==> s[s.len() - 1] != c,
    ensures
        without_trailing(s + Seq::new(n, |i: int| c), c) == s,
    decreases n,
{
    let run = Seq::new(n, |i: int| c);
    if n == 0 {
        assert(s + run =~= s);
    } else {
        let less = Seq::new((n - 1) as nat, |i: int| c);
        assert((s + run).last() == c);
        assert((s + run).drop_last() =~= s + less);
        trailing_run_is_dropped(s, c, (n - 1) as nat);
    }
}

/// A text begins with another exactly where it is that text and something more.
pub proof fn beginning_is_the_first_part(s: Seq<char>, prefix: Seq<char>)
    ensures
        begins_with(s, prefix) <==> exists|rest: Seq<char>| s == #[trigger] (prefix + rest),
{
    if begins_with(s, prefix) {
        let rest = s.skip(prefix.len() as int);
        assert(s =~= prefix + rest);
    }
    if exists|rest: Seq<char>| s == #[trigger] (prefix + rest) {
        let rest = choose|rest: Seq<char>| s == #[trigger] (prefix + rest);
        assert(prefix =~= s.subrange(0, prefix.len() as int));
    }
}

/// A text is cut at the first of a character: what stands before it, and what stands
/// after it.
pub proof fn cut_at_the_first(before: Seq<char>, c: char, after: Seq<char>)
    requires
        !before.contains(c),
    ensures
        before_first(before + seq![c] + after, c) == before,
        after_first(before + seq![c] + after, c) == after,
{
    let s = before + seq![c] + after;
    let n = before.len() as int;
    assert forall|k: int| 0 <= k < n implies #[trigger] s[k] != c by {
        assert(s[k] == before[k]);
        assert(before.contains(before[k]));
    }
    assert(s[n] == c);
    before_first_step(s, c, n);
    assert(s.subrange(0, n) =~= before);
    assert(s.skip(n + 1) =~= after);
}

/// A text without a character is not cut there.
pub proof fn no_cut_without_the_character(s: Seq<char>, c: char)
    requires
        !s.contains(c),
    ensures
        before_first(s, c) == s,
        after_first(s, c) == Seq::<char>::empty(),
{
    assert forall|k: int| 0 <= k < s.len() implies #[trigger] s[k] != c by {
        assert(s.contains(s[k]));
    }
    before_first_step(s, c, s.len() as int);
    assert(s.subrange(0, s.len() as int) =~= s);
}

/// A text occurs at a place of another exactly where the other is made of that many
/// characters, the text, and something more.
pub proof fn occurrence_is_a_part(s: Seq<char>, pattern: Seq<char>, i: int)
    ensures
        occurs_at(s, pattern, i) <==> exists|before: Seq<char>, after: Seq<char>|
            before.len() == i && s == #[trigger] (before + pattern + after),
{
    if occurs_at(s, pattern, i) {
        let before = s.subrange(0, i);
        let after = s.skip(i + pattern.len());
        assert(s.subrange(i, i + pattern.len()) == pattern);
        assert(s =~= before + s.subrange(i, i + pattern.len()) + after);
        assert(before.len() == i && s == before + pattern + after);
    }
    if exists|before: Seq<char>, after: Seq<char>|
        before.len() == i && s == #[trigger] (before + pattern + after) {
        let (before, after) = choose|before: Seq<char>, after: Seq<char>|
            before.len() == i && s == #[trigger] (before + pattern + after);
        assert(s.subrange(i, i + pattern.len()) =~= pattern);
    }
}

/// A text in which another does not occur stays as it is when that other is replaced.
pub proof fn nothing_to_replace(s: Seq<char>, from: Seq<char>, to: Seq<char>)
    requires
        forall|before: Seq<char>, after: Seq<char>| s != #[trigger] (before + from + after),
    ensures
        first_replaced(s, from, to) == s,
{
    assert forall|i: int| !first_occurrence(s, from, i) by {
        occurrence_is_a_part(s, from, i);
    }
}

/// The leftmost occurrence of a text is replaced, and all around it stays.
pub proof fn leftmost_is_replaced(
    before: Seq<char>,
    from: Seq<char>,
    after: Seq<char>,
    to: Seq<char>,
)
    requires
        forall|j: int| 0 <= j < before.len() ==> !occurs_at(before + from + after, from, j),
    ensures
        first_replaced(before + from + after, from, to) == before + to + after,
{
    let s = before + from + after;
    let n = before.len() as int;
    assert(s.subrange(n, n + from.len()) =~= from);
    assert(occurs_at(s, from, n));
    assert(first_occurrence(s, from, n));
    let i = choose|i: int| first_occurrence(s, from, i);
    assert(first_occurrence(s, from, i));
    assert(i == n) by {
        if i < n {
            assert(!occurs_at(s, from, i));
        }
        if i > n {
            assert(!occurs_at(s, from, n));
        }
    }
    assert(s.subrange(0, n) =~= before);
    assert(s.subrange(n + from.len(), s.len() as int) =~= after);
    assert(first_replaced(s, from, to) =~= before + to + after);
}

/// Lower case keeps the length of an ASCII text and every character of it but the
/// capitals, each of which becomes its small letter.
pub proof fn capitals_become_small(s: Seq<char>, i: int)
    requires
        is_ascii_chars(s),
        0 <= i < s.len(),
    ensures
        lowercase(s).len() == s.len(),
        'A' <= s[i] <= 'Z' ==> lowercase(s)[i] as int - 'a' as int == s[i] as int - 'A' as int,
        !('A' <= s[i] <= 'Z') ==> lowercase(s)[i] == s[i],
{
}

/// White space around an entry makes no difference to how it is compared.
pub proof fn space_around_an_entry_is_nothing(
    before: Seq<char>,
    middle: Seq<char>,
    after: Seq<char>,
)
    requires
        blank(before),
        tight(middle),
        blank(after),
    ensures
        folded(before + middle + after) == lowercase(middle),
        folded(middle) == lowercase(middle),
{
    trimming_drops_what_is_around(before, middle, after);
    tight_texts_stay(middle);
}

/// A list is folded entry by entry: order and repetitions are kept, a blank entry
/// gives nothing and any other gives itself in lower case without the white space
/// around it.
pub proof fn lists_fold_entry_by_entry(a: Seq<Seq<char>>, b: Seq<Seq<char>>, s: Seq<char>)
    ensures
        folded_list(a + b) == folded_list(a) + folded_list(b),
        folded_list(seq![s]) == (if trimmed(s).len() > 0 {
            seq![lowercase(trimmed(s))]
        } else {
            Seq::empty()
        }),
{
    let keep = |s: Seq<char>| s.len() > 0;
    let fa = a.map_values(|s: Seq<char>| folded(s));
    let fb = b.map_values(|s: Seq<char>| folded(s));
    assert((a + b).map_values(|s: Seq<char>| folded(s)) =~= fa + fb);
    Seq::filter_distributes_over_add(fa, fb, keep);
    let one = seq![s].map_values(|s: Seq<char>| folded(s));
    reveal(Seq::filter);
    assert(one.drop_last() =~= Seq::empty());
    assert(one.drop_last().filter(keep) =~= Seq::empty());
    assert(one.last() == folded(s));
    assert(folded_list(seq![s]) =~= (if trimmed(s).len() > 0 {
        seq![lowercase(trimmed(s))]
    } else {
        Seq::empty()
    }));
}

} // verus!
