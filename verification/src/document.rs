//! Reading TOML and JSON texts into trees.

use serde::de::IgnoredAny;
use serde::Deserialize;
use toml::de::{DeTable, DeValue, ValueDeserializer};
use toml::Spanned;
use vstd::prelude::*;

use crate::text::maybe_text;
use crate::tree::{tree_view, Tree, TreeView};

verus! {

/// A JSON value as the `serde_json` crate holds it.
#[verifier::external_type_specification]
#[verifier::external_body]
pub struct ExJsonValue(serde_json::Value);

/// A TOML value as the `toml` crate holds it.
#[verifier::external_type_specification]
#[verifier::external_body]
pub struct ExTomlValue<'i>(DeValue<'i>);

/// What a JSON value holds.
pub uninterp spec fn json_tree(v: serde_json::Value) -> TreeView;

/// What a TOML value holds.
pub uninterp spec fn toml_tree(v: DeValue) -> TreeView;

/// Whether a TOML value can be read at all, be it to be passed over.
pub uninterp spec fn toml_readable(v: DeValue) -> bool;

/// The document that a TOML text spells, where it is one.
pub uninterp spec fn toml_document(text: Seq<char>) -> Option<TreeView>;

/// The value that a JSON text spells, where it is one.
pub uninterp spec fn json_value(text: Seq<u8>) -> Option<serde_json::Value>;

/// How a value is spelled in JSON without white space.
pub uninterp spec fn json_spelling(v: serde_json::Value) -> Seq<char>;

/// What a JSON text says, where it is one.
pub open spec fn json_document(text: Seq<u8>) -> Option<TreeView> {
    match json_value(text) {
        Some(v) => Some(json_tree(v)),
        None => None,
    }
}

/// A JSON text without white space between its parts, where it is one.
pub open spec fn json_compact(text: Seq<u8>) -> Option<Seq<char>> {
    match json_value(text) {
        Some(v) => Some(json_spelling(v)),
        None => None,
    }
}

/// The topmost layer of a value: what kind it is, and the values inside it.
enum Layer<V> {
    Null,
    Text(String),
    List(Vec<V>),
    Table(Vec<(String, V)>),
    Date,
    Number(V),
    Other,
}

/// `toml::de::DeTable::parse`, as a value: whether a text is a TOML document, and
/// which, depends on the text alone.
#[verifier::external_body]
fn parse_toml(text: &str) -> (r: Option<DeValue<'_>>)
    ensures
        match r {
            Some(v) => toml_document(text@) == Some(toml_tree(v)),
            None => toml_document(text@) is None,
        },
{
    DeTable::parse(text).ok().map(|table| DeValue::Table(table.into_inner()))
}

/// `serde::de::IgnoredAny::deserialize` of a TOML value: whether it can be passed
/// over depends on the value alone.
#[verifier::external_body]
fn can_be_read(v: &DeValue<'_>) -> (r: bool)
    ensures
        r == toml_readable(*v),
{
    IgnoredAny::deserialize(ValueDeserializer::from(Spanned::new(0..0, v.clone()))).is_ok()
}

/// Tells the variants of `toml::de::DeValue` apart and hands out what each holds; a
/// table hands out its entries (`toml::map::Map::into_iter`). A number is handed
/// back whole: whether it is too large is whether it cannot be read.
#[verifier::external_body]
fn open_toml(v: DeValue<'_>) -> (r: Layer<DeValue<'_>>)
    ensures
        match r {
            Layer::Null => false,
            Layer::Text(s) => toml_tree(v) == TreeView::Text(s@),
            Layer::List(items) => toml_tree(v) == TreeView::List(
                items@.map_values(|x: DeValue| toml_tree(x)),
            ),
            Layer::Table(entries) => toml_tree(v) == TreeView::Table(
                entries@.map_values(|e: (String, DeValue)| (e.0@, toml_tree(e.1))),
            ),
            Layer::Date => toml_tree(v) == TreeView::Date,
            Layer::Number(n) => n == v && toml_tree(v) == (if toml_readable(v) {
                TreeView::Other
            } else {
                TreeView::TooLarge
            }),
            Layer::Other => toml_tree(v) == TreeView::Other,
        },
{
    match v {
        DeValue::String(s) => Layer::Text(s.into_owned()),
        DeValue::Array(a) => Layer::List(a.into_iter().map(|x| x.into_inner()).collect()),
        DeValue::Table(t) => Layer::Table(
            t.into_iter().map(|(k, x)| (k.into_inner().into_owned(), x.into_inner())).collect(),
        ),
        DeValue::Integer(n) => Layer::Number(DeValue::Integer(n)),
        DeValue::Float(n) => Layer::Number(DeValue::Float(n)),
        DeValue::Datetime(_) => Layer::Date,
        DeValue::Boolean(_) => Layer::Other,
    }
}

/// `serde_json::from_slice` into a `serde_json::Value`: whether a text is JSON,
/// and which value it spells, depends on its bytes alone.
#[verifier::external_body]
fn parse_json(text: &[u8]) -> (r: Option<serde_json::Value>)
    ensures
        r == json_value(text@),
{
    serde_json::from_slice::<serde_json::Value>(text).ok()
}

/// `serde_json::Value::to_string`: how a value is spelled depends on it alone.
#[verifier::external_body]
fn spell_json(v: &serde_json::Value) -> (r: String)
    ensures
        r@ == json_spelling(*v),
{
    v.to_string()
}

/// Tells the variants of `serde_json::Value` apart and hands out what each
/// holds; an object hands out its entries (`serde_json::Map::into_iter`).
#[verifier::external_body]
fn open_json(v: serde_json::Value) -> (r: Layer<serde_json::Value>)
    ensures
        match r {
            Layer::Null => json_tree(v) == TreeView::Null,
            Layer::Text(s) => json_tree(v) == TreeView::Text(s@),
            Layer::List(items) => json_tree(v) == TreeView::List(
                items@.map_values(|x: serde_json::Value| json_tree(x)),
            ),
            Layer::Table(entries) => json_tree(v) == TreeView::Table(
                entries@.map_values(|e: (String, serde_json::Value)| (e.0@, json_tree(e.1))),
            ),
            Layer::Date => false,
            Layer::Number(_) => false,
            Layer::Other => json_tree(v) == TreeView::Other,
        },
{
    match v {
        serde_json::Value::Null => Layer::Null,
        serde_json::Value::String(s) => Layer::Text(s),
        serde_json::Value::Array(items) => Layer::List(items),
        serde_json::Value::Object(object) => Layer::Table(object.into_iter().collect()),
        serde_json::Value::Bool(_) => Layer::Other,
        serde_json::Value::Number(_) => Layer::Other,
    }
}

/// The tree of a TOML value.
fn tree_of_toml(v: DeValue<'_>) -> (t: Tree)
    ensures
        t@ == toml_tree(v),
    decreases toml_tree(v),
{
    let ghost whole = toml_tree(v);
    match open_toml(v) {
        Layer::Null => Tree::Null,
        Layer::Text(s) => Tree::Text(s),
        Layer::List(items) => {
            let ghost given = items@;
            let mut out: Vec<Tree> = Vec::new();
            for x in it: items
                invariant
                    it.seq() == given,
                    whole == toml_tree(v),
                    whole == TreeView::List(given.map_values(|x: DeValue| toml_tree(x))),
                    out@.len() == it.index(),
                    forall|k: int|
                        0 <= k < out@.len() ==> tree_view(#[trigger] out@[k]) == toml_tree(
                            given[k],
                        ),
            {
                proof {
                    assert(whole->List_0[it.index() as int] == toml_tree(x));
                    assert(decreases_to!(whole => whole->List_0[it.index() as int]));
                }
                out.push(tree_of_toml(x));
            }
            let t = Tree::List(out);
            assert(t@->List_0 =~= whole->List_0);
            t
        },
        Layer::Table(entries) => {
            let ghost given = entries@;
            let mut out: Vec<(String, Tree)> = Vec::new();
            for e in it: entries
                invariant
                    it.seq() == given,
                    whole == toml_tree(v),
                    whole == TreeView::Table(
                        given.map_values(|e: (String, DeValue)| (e.0@, toml_tree(e.1))),
                    ),
                    out@.len() == it.index(),
                    forall|k: int|
                        0 <= k < out@.len() ==> (#[trigger] out@[k]).0@ == given[k].0@ && tree_view(
                            out@[k].1,
                        ) == toml_tree(given[k].1),
            {
                proof {
                    assert(whole->Table_0[it.index() as int].1 == toml_tree(e.1));
                    assert(decreases_to!(whole => whole->Table_0[it.index() as int].1));
                }
                out.push((e.0, tree_of_toml(e.1)));
            }
            let t = Tree::Table(out);
            assert(t@->Table_0 =~= whole->Table_0);
            t
        },
        Layer::Date => Tree::Date,
        Layer::Number(n) => if can_be_read(&n) {
            Tree::Other
        } else {
            Tree::TooLarge
        },
        Layer::Other => Tree::Other,
    }
}

/// The tree of a JSON value.
fn tree_of_json(v: serde_json::Value) -> (t: Tree)
    ensures
        t@ == json_tree(v),
    decreases json_tree(v),
{
    let ghost whole = json_tree(v);
    match open_json(v) {
        Layer::Null => Tree::Null,
        Layer::Text(s) => Tree::Text(s),
        Layer::List(items) => {
            let ghost given = items@;
            let mut out: Vec<Tree> = Vec::new();
            for x in it: items
                invariant
                    it.seq() == given,
                    whole == json_tree(v),
                    whole == TreeView::List(given.map_values(|x: serde_json::Value| json_tree(x))),
                    out@.len() == it.index(),
                    forall|k: int|
                        0 <= k < out@.len() ==> tree_view(#[trigger] out@[k]) == json_tree(
                            given[k],
                        ),
            {
                proof {
                    assert(whole->List_0[it.index() as int] == json_tree(x));
                    assert(decreases_to!(whole => whole->List_0[it.index() as int]));
                }
                out.push(tree_of_json(x));
            }
            let t = Tree::List(out);
            assert(t@->List_0 =~= whole->List_0);
            t
        },
        Layer::Table(entries) => {
            let ghost given = entries@;
            let mut out: Vec<(String, Tree)> = Vec::new();
            for e in it: entries
                invariant
                    it.seq() == given,
                    whole == json_tree(v),
                    whole == TreeView::Table(
                        given.map_values(|e: (String, serde_json::Value)| (e.0@, json_tree(e.1))),
                    ),
                    out@.len() == it.index(),
                    forall|k: int|
                        0 <= k < out@.len() ==> (#[trigger] out@[k]).0@ == given[k].0@ && tree_view(
                            out@[k].1,
                        ) == json_tree(given[k].1),
            {
                proof {
                    assert(whole->Table_0[it.index() as int].1 == json_tree(e.1));
                    assert(decreases_to!(whole => whole->Table_0[it.index() as int].1));
                }
                out.push((e.0, tree_of_json(e.1)));
            }
            let t = Tree::Table(out);
            assert(t@->Table_0 =~= whole->Table_0);
            t
        },
        _ => Tree::Other,
    }
}

/// The document that a TOML text spells, or `None` where the text is not TOML.
pub fn read_toml(text: &str) -> (r: Option<Tree>)
    ensures
        match r {
            Some(t) => toml_document(text@) == Some(t@),
            None => toml_document(text@) is None,
        },
{
    match parse_toml(text) {
        Some(v) => Some(tree_of_toml(v)),
        None => None,
    }
}

/// What a JSON text says, or `None` where the text is not JSON.
pub fn read_json(text: &[u8]) -> (r: Option<Tree>)
    ensures
        match r {
            Some(t) => json_document(text@) == Some(t@),
            None => json_document(text@) is None,
        },
{
    match parse_json(text) {
        Some(v) => Some(tree_of_json(v)),
        None => None,
    }
}

/// A JSON text without white space between its parts, or `None` where the text is
/// not JSON.
pub fn compact_json(text: &[u8]) -> (r: Option<String>)
    ensures
        maybe_text(r) == json_compact(text@),
{
    match parse_json(text) {
        Some(v) => Some(spell_json(&v)),
        None => None,
    }
}

} // verus!
