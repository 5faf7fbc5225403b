//! Documents as plain trees: what a TOML or a JSON text says, as far as the
//! rest of the crate reads it.

use vstd::prelude::*;

use crate::text::{maybe_text, same};

verus! {

/// A value in a document. Numbers and booleans are not told apart, since nothing
/// reads them, except that a number may be too large for any reader.
pub enum Tree {
    Null,
    Text(String),
    List(Vec<Tree>),
    Table(Vec<(String, Tree)>),
    Date,
    TooLarge,
    Other,
}

/// The mathematical form of a [`Tree`].
pub enum TreeView {
    Null,
    Text(Seq<char>),
    List(Seq<TreeView>),
    Table(Seq<(Seq<char>, TreeView)>),
    Date,
    TooLarge,
    Other,
}

/// What a tree says.
pub open spec fn tree_view(t: Tree) -> TreeView
    decreases t,
{
    match t {
        Tree::Null => TreeView::Null,
        Tree::Text(s) => TreeView::Text(s@),
        Tree::List(items) => TreeView::List(
            Seq::new(
                items@.len(),
                |i: int|
                    if 0 <= i < items@.len() {
                        tree_view(items@[i])
                    } else {
                        TreeView::Other
                    },
            ),
        ),
        Tree::Table(entries) => TreeView::Table(
            Seq::new(
                entries@.len(),
                |i: int|
                    if 0 <= i < entries@.len() {
                        (entries@[i].0@, tree_view(entries@[i].1))
                    } else {
                        (Seq::empty(), TreeView::Other)
                    },
            ),
        ),
        Tree::Date => TreeView::Date,
        Tree::TooLarge => TreeView::TooLarge,
        Tree::Other => TreeView::Other,
    }
}

impl View for Tree {
    type V = TreeView;

    open spec fn view(&self) -> TreeView {
        tree_view(*self)
    }
}

/// The value under `key` in a table with these entries.
pub open spec fn entry(entries: Seq<(Seq<char>, TreeView)>, key: Seq<char>) -> Option<TreeView>
    decreases entries.len(),
{
    if entries.len() == 0 {
        None
    } else if entries[0].0 == key {
        Some(entries[0].1)
    } else {
        entry(entries.drop_first(), key)
    }
}

/// The value under `key`, where `t` is a table that has one.
pub open spec fn field(t: TreeView, key: Seq<char>) -> Option<TreeView> {
    match t {
        TreeView::Table(entries) => entry(entries, key),
        _ => None,
    }
}

/// Whether a reader that has no use for a value can pass over it: nothing in it is
/// too large a number.
pub open spec fn skippable(t: TreeView) -> bool
    decreases t,
{
    match t {
        TreeView::List(items) => forall|i: int| 0 <= i < items.len() ==> skippable(#[trigger] items[i]),
        TreeView::Table(entries) => forall|i: int|
            0 <= i < entries.len() ==> skippable((#[trigger] entries[i]).1),
        TreeView::TooLarge => false,
        _ => true,
    }
}

/// Whether a reader that knows only `keys` can pass over the other entries of `t`,
/// where it is a table.
pub open spec fn others_skippable(t: TreeView, keys: Seq<Seq<char>>) -> bool {
    t matches TreeView::Table(entries) ==> forall|i: int|
        0 <= i < entries.len() ==> keys.contains((#[trigger] entries[i]).0) || skippable(
            entries[i].1,
        )
}

/// The characters of each key in a list.
pub open spec fn key_texts(keys: Seq<&str>) -> Seq<Seq<char>> {
    keys.map_values(|k: &str| k@)
}

/// The member of a record: a table gives it by name, a list by position.
pub open spec fn member(t: TreeView, key: Seq<char>, position: int) -> Option<TreeView> {
    match t {
        TreeView::List(items) => if 0 <= position < items.len() {
            Some(items[position])
        } else {
            None
        },
        _ => field(t, key),
    }
}

/// A text that may be left out. The outer `None` means a value of another kind.
pub open spec fn optional_text(m: Option<TreeView>) -> Option<Option<Seq<char>>> {
    match m {
        None => Some(None),
        Some(TreeView::Null) => Some(None),
        Some(TreeView::Text(s)) => Some(Some(s)),
        _ => None,
    }
}

/// Whether a value can spell a record: by name as a table, by position as a list. A
/// date spells one that has no member.
pub open spec fn record(t: TreeView) -> bool {
    t is Table || t is List || t is Date
}

/// A text, empty where it is left out.
pub open spec fn text_or_empty(t: Option<Seq<char>>) -> Seq<char> {
    match t {
        Some(s) => s,
        None => Seq::empty(),
    }
}

/// The tree behind an optional reference to one.
pub open spec fn maybe_tree(m: Option<&Tree>) -> Option<TreeView> {
    match m {
        Some(t) => Some(t@),
        None => None,
    }
}

proof fn entry_skips(entries: Seq<(Seq<char>, TreeView)>, key: Seq<char>, i: int)
    requires
        0 <= i <= entries.len(),
        forall|k: int| 0 <= k < i ==> (#[trigger] entries[k]).0 != key,
    ensures
        entry(entries, key) == entry(entries.subrange(i, entries.len() as int), key),
    decreases i,
{
    if i == 0 {
        assert(entries.subrange(0, entries.len() as int) =~= entries);
    } else {
        assert(entries[0].0 != key);
        entry_skips(entries.drop_first(), key, i - 1);
        assert(entries.drop_first().subrange(i - 1, entries.len() - 1) =~= entries.subrange(
            i,
            entries.len() as int,
        ));
    }
}

impl Tree {
    /// The value under `key`, where this is a table that has one.
    pub fn field(&self, key: &str) -> (r: Option<&Tree>)
        ensures
            maybe_tree(r) == field(self@, key@),
    {
        match self {
            Tree::Table(entries) => {
                let ghost seen = self@->Table_0;
                let mut i: usize = 0;
                while i < entries.len()
                    invariant
                        i <= entries.len(),
                        seen.len() == entries@.len(),
                        forall|k: int|
                            0 <= k < entries@.len() ==> #[trigger] seen[k] == (
                                entries@[k].0@,
                                tree_view(entries@[k].1),
                            ),
                        forall|k: int| 0 <= k < i ==> (#[trigger] seen[k]).0 != key@,
                        self@ == TreeView::Table(seen),
                    decreases entries.len() - i,
                {
                    if same(entries[i].0.as_str(), key) {
                        proof {
                            entry_skips(seen, key@, i as int);
                            assert(seen.subrange(i as int, seen.len() as int)[0] == seen[i as int]);
                        }
                        return Some(&entries[i].1);
                    }
                    i = i + 1;
                }
                proof {
                    entry_skips(seen, key@, i as int);
                }
                None
            },
            _ => None,
        }
    }

    /// Whether a reader that has no use for this can pass over it.
    pub fn skips(&self) -> (r: bool)
        ensures
            r == skippable(self@),
        decreases self,
    {
        match self {
            Tree::List(items) => {
                let ghost seen = self@->List_0;
                let mut i: usize = 0;
                while i < items.len()
                    invariant
                        i <= items.len(),
                        self matches Tree::List(inner) && inner == items,
                        self@ == TreeView::List(seen),
                        seen.len() == items@.len(),
                        forall|k: int|
                            0 <= k < items@.len() ==> #[trigger] seen[k] == tree_view(items@[k]),
                        forall|k: int| 0 <= k < i ==> skippable(#[trigger] seen[k]),
                    decreases items.len() - i,
                {
                    if !items[i].skips() {
                        assert(!skippable(self@->List_0[i as int]));
                        return false;
                    }
                    i = i + 1;
                }
                true
            },
            Tree::Table(entries) => {
                let ghost seen = self@->Table_0;
                let mut i: usize = 0;
                while i < entries.len()
                    invariant
                        i <= entries.len(),
                        self matches Tree::Table(inner) && inner == entries,
                        self@ == TreeView::Table(seen),
                        seen.len() == entries@.len(),
                        forall|k: int|
                            0 <= k < entries@.len() ==> #[trigger] seen[k] == (
                                entries@[k].0@,
                                tree_view(entries@[k].1),
                            ),
                        forall|k: int| 0 <= k < i ==> skippable((#[trigger] seen[k]).1),
                    decreases entries.len() - i,
                {
                    if !entries[i].1.skips() {
                        assert(!skippable(self@->Table_0[i as int].1));
                        return false;
                    }
                    i = i + 1;
                }
                true
            },
            Tree::TooLarge => false,
            _ => true,
        }
    }

    /// Whether a reader that knows only `keys` can pass over the other entries.
    pub fn others_skip(&self, keys: &[&str]) -> (r: bool)
        ensures
            r == others_skippable(self@, key_texts(keys@)),
    {
        match self {
            Tree::Table(entries) => {
                let ghost seen = self@->Table_0;
                let mut i: usize = 0;
                while i < entries.len()
                    invariant
                        i <= entries.len(),
                        self@ == TreeView::Table(seen),
                        seen.len() == entries@.len(),
                        forall|k: int|
                            0 <= k < entries@.len() ==> #[trigger] seen[k] == (
                                entries@[k].0@,
                                tree_view(entries@[k].1),
                            ),
                        forall|k: int|
                            0 <= k < i ==> key_texts(keys@).contains((#[trigger] seen[k]).0)
                                || skippable(seen[k].1),
                    decreases entries.len() - i,
                {
                    let known = is_among(keys, entries[i].0.as_str());
                    if !known && !entries[i].1.skips() {
                        assert(!key_texts(keys@).contains(self@->Table_0[i as int].0) && !skippable(
                            self@->Table_0[i as int].1,
                        ));
                        return false;
                    }
                    i = i + 1;
                }
                true
            },
            _ => true,
        }
    }

    /// The member of a record: a table gives it by name, a list by position.
    pub fn member(&self, key: &str, position: usize) -> (r: Option<&Tree>)
        ensures
            maybe_tree(r) == member(self@, key@, position as int),
    {
        match self {
            Tree::List(items) => {
                if position < items.len() {
                    Some(&items[position])
                } else {
                    None
                }
            },
            _ => self.field(key),
        }
    }
}

/// Whether `key` is one of `keys`.
fn is_among(keys: &[&str], key: &str) -> (r: bool)
    ensures
        r == key_texts(keys@).contains(key@),
{
    let mut i: usize = 0;
    while i < keys.len()
        invariant
            i <= keys.len(),
            forall|k: int| 0 <= k < i ==> #[trigger] key_texts(keys@)[k] != key@,
        decreases keys.len() - i,
    {
        if same(keys[i], key) {
            assert(key_texts(keys@)[i as int] == key@);
            return true;
        }
        i = i + 1;
    }
    false
}

/// A text that may be left out. The outer `None` means a value of another kind.
pub fn read_text(m: Option<&Tree>) -> (r: Option<Option<String>>)
    ensures
        match r {
            Some(t) => optional_text(maybe_tree(m)) == Some(maybe_text(t)),
            None => optional_text(maybe_tree(m)) is None,
        },
{
    match m {
        None => Some(None),
        Some(Tree::Null) => Some(None),
        Some(Tree::Text(s)) => Some(Some(s.clone())),
        _ => None,
    }
}

/// Whether a value can spell a record.
pub fn is_record(t: &Tree) -> (r: bool)
    ensures
        r == record(t@),
{
    match t {
        Tree::Table(_) => true,
        Tree::List(_) => true,
        Tree::Date => true,
        _ => false,
    }
}

/// The text, empty where it is left out.
pub fn or_empty(t: Option<String>) -> (r: String)
    ensures
        r@ == text_or_empty(maybe_text(t)),
{
    match t {
        Some(s) => s,
        None => String::new(),
    }
}

} // verus!
