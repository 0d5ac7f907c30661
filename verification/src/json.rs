//! A JSON document as a tree of plain values, with the lookups that the
//! provider drivers make in it.

use vstd::prelude::*;

verus! {

/// A JSON document.
///
/// A number is held as its decimal text. An object is held as its entries in
/// order; where a key stands more than once, the last entry counts.
#[derive(Debug, PartialEq, Eq)]
pub enum Json {
    Null,
    Bool(bool),
    Number(String),
    Text(String),
    Array(Vec<Json>),
    Object(Vec<(String, Json)>),
}

/// The mathematical model of a [`Json`] document.
pub ghost enum JsonTree {
    Null,
    Bool(bool),
    Number(Seq<char>),
    Text(Seq<char>),
    Array(Seq<JsonTree>),
    Object(Seq<(Seq<char>, JsonTree)>),
}

/// The value of the last entry of `entries` under `key`.
pub open spec fn lookup(entries: Seq<(Seq<char>, JsonTree)>, key: Seq<char>) -> Option<JsonTree>
    decreases entries.len(),
{
    if entries.len() == 0 {
        None
    } else if entries.last().0 == key {
        Some(entries.last().1)
    } else {
        lookup(entries.drop_last(), key)
    }
}

impl JsonTree {
    /// The value under `key`, where this is an object that has the key.
    pub open spec fn field(self, key: Seq<char>) -> Option<JsonTree> {
        match self {
            JsonTree::Object(entries) => lookup(entries, key),
            _ => None,
        }
    }

    /// The element at `i`, where this is an array that long.
    pub open spec fn item(self, i: int) -> Option<JsonTree> {
        match self {
            JsonTree::Array(items) => if 0 <= i < items.len() {
                Some(items[i])
            } else {
                None
            },
            _ => None,
        }
    }

    /// The characters, where this is a string.
    pub open spec fn as_text(self) -> Option<Seq<char>> {
        match self {
            JsonTree::Text(t) => Some(t),
            _ => None,
        }
    }

    /// The elements, where this is an array.
    pub open spec fn as_items(self) -> Option<Seq<JsonTree>> {
        match self {
            JsonTree::Array(items) => Some(items),
            _ => None,
        }
    }
}

/// The model of `j`.
pub open spec fn tree_of(j: Json) -> JsonTree
    decreases j, 0nat,
{
    match j {
        Json::Null => JsonTree::Null,
        Json::Bool(b) => JsonTree::Bool(b),
        Json::Number(n) => JsonTree::Number(n@),
        Json::Text(t) => JsonTree::Text(t@),
        Json::Array(items) => JsonTree::Array(first_trees(items, items@.len())),
        Json::Object(entries) => JsonTree::Object(first_entries(entries, entries@.len())),
    }
}

/// The models of the first `n` elements of `items`.
pub open spec fn first_trees(items: Vec<Json>, n: nat) -> Seq<JsonTree>
    decreases items, n,
{
    if n == 0 || n > items@.len() {
        Seq::empty()
    } else {
        first_trees(items, (n - 1) as nat).push(tree_of(items@[n - 1]))
    }
}

/// The models of the first `n` entries of `entries`.
pub open spec fn first_entries(entries: Vec<(String, Json)>, n: nat) -> Seq<(Seq<char>, JsonTree)>
    decreases entries, n,
{
    if n == 0 || n > entries@.len() {
        Seq::empty()
    } else {
        first_entries(entries, (n - 1) as nat).push(
            (entries@[n - 1].0@, tree_of(entries@[n - 1].1)),
        )
    }
}

impl View for Json {
    type V = JsonTree;

    open spec fn view(&self) -> JsonTree {
        tree_of(*self)
    }
}

/// The models of the elements of `items`.
pub open spec fn trees(items: Seq<Json>) -> Seq<JsonTree> {
    Seq::new(items.len(), |i: int| items[i]@)
}

/// The models of the entries of `entries`.
pub open spec fn entry_trees(entries: Seq<(String, Json)>) -> Seq<(Seq<char>, JsonTree)> {
    Seq::new(entries.len(), |i: int| (entries[i].0@, entries[i].1@))
}

/// The value under `key` of the document `of`, if there is one.
pub open spec fn then_field(of: Option<JsonTree>, key: Seq<char>) -> Option<JsonTree> {
    match of {
        Some(tree) => tree.field(key),
        None => None,
    }
}

/// The element at `i` of the document `of`, if there is one.
pub open spec fn then_item(of: Option<JsonTree>, i: int) -> Option<JsonTree> {
    match of {
        Some(tree) => tree.item(i),
        None => None,
    }
}

/// The characters of the document `of`, if there is one and it is a string.
pub open spec fn then_text(of: Option<JsonTree>) -> Option<Seq<char>> {
    match of {
        Some(tree) => tree.as_text(),
        None => None,
    }
}

/// The model of an optional document.
pub open spec fn option_tree(j: Option<&Json>) -> Option<JsonTree> {
    match j {
        Some(j) => Some(j@),
        None => None,
    }
}

proof fn lemma_first_trees(items: Vec<Json>, n: nat)
    requires
        n <= items@.len(),
    ensures
        first_trees(items, n) == trees(items@.take(n as int)),
    decreases n,
{
    if n > 0 {
        lemma_first_trees(items, (n - 1) as nat);
    }
}

proof fn lemma_first_entries(entries: Vec<(String, Json)>, n: nat)
    requires
        n <= entries@.len(),
    ensures
        first_entries(entries, n) == entry_trees(entries@.take(n as int)),
    decreases n,
{
    if n > 0 {
        lemma_first_entries(entries, (n - 1) as nat);
    }
}

/// The model of an array is the array of its elements' models.
pub proof fn lemma_array_tree(items: Vec<Json>)
    ensures
        Json::Array(items)@ == JsonTree::Array(trees(items@)),
{
    lemma_first_trees(items, items@.len());
    assert(items@.take(items@.len() as int) =~= items@);
}

/// The model of an object is the sequence of its entries' models.
pub proof fn lemma_object_tree(entries: Vec<(String, Json)>)
    ensures
        Json::Object(entries)@ == JsonTree::Object(entry_trees(entries@)),
{
    lemma_first_entries(entries, entries@.len());
    assert(entries@.take(entries@.len() as int) =~= entries@);
}

/// `serde_json::Value`, carried from the reading of a text to its taking
/// apart without a look inside.
#[verifier::external_type_specification]
#[verifier::external_body]
pub struct ExValue(serde_json::Value);

/// The document that a `serde_json::Value` holds.
pub uninterp spec fn value_tree(value: serde_json::Value) -> JsonTree;

/// The document that `text` is read as, or `None` where `text` is not
/// exactly one JSON document.
pub uninterp spec fn parsed(text: Seq<char>) -> Option<JsonTree>;

/// Calls `serde_json::from_str` for a `serde_json::Value`. The reading of a
/// text depends on the text alone: it is `parsed` of it, with the value that
/// comes back holding that document, and no value where the call fails.
#[verifier::external_body]
fn read_value(text: &str) -> (r: Option<serde_json::Value>)
    ensures
        match r {
            Some(value) => parsed(text@) == Some(value_tree(value)),
            None => parsed(text@).is_none(),
        },
{
    serde_json::from_str::<serde_json::Value>(text).ok()
}

/// Takes a `serde_json::Value` apart, variant by variant, into a [`Json`]
/// that holds the same document; a number is kept as the text that
/// `serde_json::Number` prints.
#[verifier::external_body]
fn from_value(value: serde_json::Value) -> (j: Json)
    ensures
        j@ == value_tree(value),
{
    match value {
        serde_json::Value::Null => Json::Null,
        serde_json::Value::Bool(b) => Json::Bool(b),
        serde_json::Value::Number(n) => Json::Number(n.to_string()),
        serde_json::Value::String(t) => Json::Text(t),
        serde_json::Value::Array(a) => Json::Array(a.into_iter().map(from_value).collect()),
        serde_json::Value::Object(o) => Json::Object(
            o.into_iter().map(|(k, v)| (k, from_value(v))).collect(),
        ),
    }
}

impl Json {
    /// The string that holds the characters of `text`.
    pub fn text(text: &str) -> (r: Json)
        ensures
            r@ == JsonTree::Text(text@),
    {
        Json::Text(text.to_owned())
    }

    /// The array of `items`.
    pub fn array(items: Vec<Json>) -> (r: Json)
        ensures
            r@ == JsonTree::Array(trees(items@)),
    {
        proof {
            lemma_array_tree(items);
        }
        Json::Array(items)
    }

    /// The object of `entries`.
    pub fn object(entries: Vec<(String, Json)>) -> (r: Json)
        ensures
            r@ == JsonTree::Object(entry_trees(entries@)),
    {
        proof {
            lemma_object_tree(entries);
        }
        Json::Object(entries)
    }

    /// Reads `text` as one JSON document.
    pub fn parse(text: &str) -> (r: Option<Json>)
        ensures
            match r {
                Some(j) => parsed(text@) == Some(j@),
                None => parsed(text@).is_none(),
            },
    {
        match read_value(text) {
            Some(value) => Some(from_value(value)),
            None => None,
        }
    }

    /// The value under `key`, where this is an object that has the key.
    pub fn field(&self, key: &str) -> (r: Option<&Json>)
        ensures
            option_tree(r) == self@.field(key@),
    {
        match self {
            Json::Object(entries) => {
                let ghost es = entry_trees(entries@);
                let mut i = entries.len();
                proof {
                    lemma_object_tree(*entries);
                    assert(es.take(i as int) =~= es);
                }
                while i > 0
                    invariant
                        i <= entries@.len(),
                        es == entry_trees(entries@),
                        self@.field(key@) == lookup(es.take(i as int), key@),
                    decreases i,
                {
                    assert(es.take(i as int).drop_last() =~= es.take(i - 1));
                    i -= 1;
                    if crate::text::same_text(entries[i].0.as_str(), key) {
                        return Some(&entries[i].1);
                    }
                }
                None
            },
            _ => None,
        }
    }

    /// The element at `i`, where this is an array that long.
    pub fn item(&self, i: usize) -> (r: Option<&Json>)
        ensures
            option_tree(r) == self@.item(i as int),
    {
        match self {
            Json::Array(items) => {
                proof {
                    lemma_array_tree(*items);
                }
                if i < items.len() {
                    Some(&items[i])
                } else {
                    None
                }
            },
            _ => None,
        }
    }

    /// The characters, where this is a string.
    pub fn as_str(&self) -> (r: Option<&str>)
        ensures
            match r {
                Some(t) => self@.as_text() == Some(t@),
                None => self@.as_text().is_none(),
            },
    {
        match self {
            Json::Text(t) => Some(t.as_str()),
            _ => None,
        }
    }

    /// The elements, where this is an array.
    pub fn as_array(&self) -> (r: Option<&Vec<Json>>)
        ensures
            match r {
                Some(items) => self@.as_items() == Some(trees(items@)),
                None => self@.as_items().is_none(),
            },
    {
        match self {
            Json::Array(items) => {
                proof {
                    lemma_array_tree(*items);
                }
                Some(items)
            },
            _ => None,
        }
    }
}

/// The value under `key` of the document `of`, if there is one.
pub fn field_of<'a>(of: Option<&'a Json>, key: &str) -> (r: Option<&'a Json>)
    ensures
        option_tree(r) == then_field(option_tree(of), key@),
{
    match of {
        Some(j) => j.field(key),
        None => None,
    }
}

/// The element at `i` of the document `of`, if there is one.
pub fn item_of<'a>(of: Option<&'a Json>, i: usize) -> (r: Option<&'a Json>)
    ensures
        option_tree(r) == then_item(option_tree(of), i as int),
{
    match of {
        Some(j) => j.item(i),
        None => None,
    }
}

/// The characters of the document `of`, if there is one and it is a string.
pub fn text_in<'a>(of: Option<&'a Json>) -> (r: Option<&'a str>)
    ensures
        match r {
            Some(t) => then_text(option_tree(of)) == Some(t@),
            None => then_text(option_tree(of)).is_none(),
        },
{
    match of {
        Some(j) => j.as_str(),
        None => None,
    }
}

} // verus!
