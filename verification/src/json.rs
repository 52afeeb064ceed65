//! JSON values as a tree of plain data, and the calls into `serde_json` that
//! turn text into such a tree and back.
//!
//! Everything that reads or builds a document works on the tree and is
//! proved.  Of `serde_json` only this is taken on trust: that what it reads
//! depends on the text alone, and what it prints on the tree alone.

use serde_json::{Number, Value};
use vstd::prelude::*;
use crate::text::same_text;

verus! {

/// A JSON value.  A number is kept as its literal text.
#[derive(Debug, PartialEq)]
pub enum Json {
    Null,
    Bool(bool),
    Number(String),
    Str(String),
    Array(Vec<Json>),
    Object(Vec<Member>),
}

/// One `"key": value` entry of an object.
#[derive(Debug, PartialEq)]
pub struct Member {
    pub key: String,
    pub value: Json,
}

/// The mathematical value of a [`Json`].
pub enum JsonView {
    Null,
    Bool(bool),
    Number(Seq<char>),
    Str(Seq<char>),
    Array(Seq<JsonView>),
    Object(Seq<(Seq<char>, JsonView)>),
}

impl View for Json {
    type V = JsonView;

    open spec fn view(&self) -> JsonView
        decreases self,
    {
        match self {
            Json::Null => JsonView::Null,
            Json::Bool(b) => JsonView::Bool(*b),
            Json::Number(t) => JsonView::Number(t@),
            Json::Str(s) => JsonView::Str(s@),
            Json::Array(a) => JsonView::Array(
                Seq::new(
                    a@.len(),
                    |i: int|
                        if 0 <= i < a@.len() {
                            a@[i].view()
                        } else {
                            JsonView::Null
                        },
                ),
            ),
            Json::Object(m) => JsonView::Object(
                Seq::new(
                    m@.len(),
                    |i: int|
                        if 0 <= i < m@.len() {
                            (m@[i].key@, m@[i].value.view())
                        } else {
                            (Seq::empty(), JsonView::Null)
                        },
                ),
            ),
        }
    }
}

/// The views of the items of an array.
pub open spec fn items_view(a: Seq<Json>) -> Seq<JsonView> {
    Seq::new(a.len(), |i: int| a[i]@)
}

/// The views of the members of an object.
pub open spec fn members_view(m: Seq<Member>) -> Seq<(Seq<char>, JsonView)> {
    Seq::new(m.len(), |i: int| (m[i].key@, m[i].value@))
}

/// The value that the members `ms[..n]` give to `key`: that of the last of
/// them with this key, if there is one.
pub open spec fn lookup_among(ms: Seq<(Seq<char>, JsonView)>, key: Seq<char>, n: int) -> Option<
    JsonView,
>
    decreases n,
{
    if n <= 0 {
        None
    } else if ms[n - 1].0 == key {
        Some(ms[n - 1].1)
    } else {
        lookup_among(ms, key, n - 1)
    }
}

/// The value that an object's members give to `key`: that of the last member
/// with this key, if there is one.
pub open spec fn lookup(ms: Seq<(Seq<char>, JsonView)>, key: Seq<char>) -> Option<JsonView> {
    lookup_among(ms, key, ms.len() as int)
}

impl JsonView {
    /// What indexing by `key` gives: the member's value, and `Null` where
    /// `self` is no object or has no such member.
    pub open spec fn field(self, key: Seq<char>) -> JsonView {
        match self {
            JsonView::Object(ms) => match lookup(ms, key) {
                Some(v) => v,
                None => JsonView::Null,
            },
            _ => JsonView::Null,
        }
    }

    /// The text of a string value.
    pub open spec fn as_text(self) -> Option<Seq<char>> {
        match self {
            JsonView::Str(s) => Some(s),
            _ => None,
        }
    }

    /// The text of a string value, or `default`.
    pub open spec fn text_or(self, default: Seq<char>) -> Seq<char> {
        match self {
            JsonView::Str(s) => s,
            _ => default,
        }
    }

    /// The truth value of a boolean, or `default`.
    pub open spec fn bool_or(self, default: bool) -> bool {
        match self {
            JsonView::Bool(b) => b,
            _ => default,
        }
    }

    /// The items of an array.
    pub open spec fn as_items(self) -> Option<Seq<JsonView>> {
        match self {
            JsonView::Array(a) => Some(a),
            _ => None,
        }
    }

    /// The literal text of a number.
    pub open spec fn as_number(self) -> Option<Seq<char>> {
        match self {
            JsonView::Number(t) => Some(t),
            _ => None,
        }
    }
}

pub proof fn lemma_array_view(a: Vec<Json>)
    ensures
        Json::Array(a)@ == JsonView::Array(items_view(a@)),
{
    assert(Json::Array(a)@->Array_0 =~= items_view(a@));
}

pub proof fn lemma_object_view(m: Vec<Member>)
    ensures
        Json::Object(m)@ == JsonView::Object(members_view(m@)),
{
    reveal_with_fuel(<Json as View>::view, 2);
    let a = Json::Object(m)@->Object_0;
    let b = members_view(m@);
    assert(a.len() == b.len());
    assert forall|i: int| 0 <= i < a.len() implies a[i] == b[i] by {
        assert(a[i] == (m@[i].key@, m@[i].value@));
    }
    assert(a =~= b);
}

pub proof fn lemma_items_view_push(a: Seq<Json>, j: Json)
    ensures
        items_view(a.push(j)) == items_view(a).push(j@),
{
    assert(items_view(a.push(j)) =~= items_view(a).push(j@));
}

pub proof fn lemma_members_view_push(m: Seq<Member>, e: Member)
    ensures
        members_view(m.push(e)) == members_view(m).push((e.key@, e.value@)),
{
    assert(members_view(m.push(e)) =~= members_view(m).push((e.key@, e.value@)));
}

impl Json {
    /// The value of member `key`, where `self` is an object that has one.
    pub fn get(&self, key: &str) -> (r: Option<&Json>)
        ensures
            match r {
                Some(v) => self@ is Object && lookup(self@->Object_0, key@) == Some(v@),
                None => !(self@ is Object) || lookup(self@->Object_0, key@).is_none(),
            },
            r.is_none() ==> self@.field(key@) == JsonView::Null,
            r matches Some(v) ==> self@.field(key@) == v@,
    {
        match self {
            Json::Object(m) => {
                proof {
                    lemma_object_view(*m);
                }
                let ghost ms = members_view(m@);
                let mut i: usize = m.len();
                while i > 0
                    invariant
                        i <= m.len(),
                        ms == members_view(m@),
                        self@ == JsonView::Object(ms),
                        lookup(ms, key@) == lookup_among(ms, key@, i as int),
                    decreases i,
                {
                    i -= 1;
                    if same_text(m[i].key.as_str(), key) {
                        return Some(&m[i].value);
                    }
                }
                None
            },
            _ => None,
        }
    }

    /// The text of a string value.
    pub fn as_str(&self) -> (r: Option<&String>)
        ensures
            match r {
                Some(s) => self@.as_text() == Some(s@),
                None => self@.as_text().is_none(),
            },
    {
        match self {
            Json::Str(s) => Some(s),
            _ => None,
        }
    }

    /// The truth value of a boolean.
    pub fn as_bool(&self) -> (r: Option<bool>)
        ensures
            match r {
                Some(b) => self@ == JsonView::Bool(b),
                None => !(self@ is Bool),
            },
    {
        match self {
            Json::Bool(b) => Some(*b),
            _ => None,
        }
    }

    /// The items of an array.
    pub fn as_array(&self) -> (r: Option<&Vec<Json>>)
        ensures
            match r {
                Some(a) => self@.as_items() == Some(items_view(a@)),
                None => self@.as_items().is_none(),
            },
    {
        match self {
            Json::Array(a) => {
                proof {
                    lemma_array_view(*a);
                }
                Some(a)
            },
            _ => None,
        }
    }

    /// The literal text of a number.
    pub fn as_number(&self) -> (r: Option<&String>)
        ensures
            match r {
                Some(t) => self@.as_number() == Some(t@),
                None => self@.as_number().is_none(),
            },
    {
        match self {
            Json::Number(t) => Some(t),
            _ => None,
        }
    }

    /// Whether `self` is an object.
    pub fn is_object(&self) -> (r: bool)
        ensures
            r == (self@ is Object),
    {
        match self {
            Json::Object(_) => true,
            _ => false,
        }
    }
}

/// `serde_json::Value`, taken as it is: nothing is known of a value but what
/// [`value_tree`] names.
#[verifier::external_type_specification]
#[verifier::external_body]
pub struct ExValue(Value);

/// What a `serde_json::Value` holds, as a tree: the members of an object in
/// the order in which the value hands them out, and each number by the text
/// that `serde_json` displays for it.
pub uninterp spec fn value_tree(v: Value) -> JsonView;

/// What `serde_json::from_str` makes of a text: the tree of the value read,
/// or the message of the error.
pub uninterp spec fn parsed_json(text: Seq<char>) -> Result<JsonView, Seq<char>>;

/// What a tree is to `serde_json` once `serde_json::Number::from_str` has
/// read each of its numbers from the literal: the tree of the value made, or
/// the message of the first number that was not read.
pub uninterp spec fn built_json(doc: JsonView) -> Result<JsonView, Seq<char>>;

/// What `serde_json::to_string_pretty` prints for a value that holds the
/// given tree, or the message of the error.
pub uninterp spec fn printed_tree(tree: JsonView) -> Result<Seq<char>, Seq<char>>;

/// Whether `serde_json::Number::from_str` reads a literal as a number.  It
/// does not where the literal is no JSON number or writes a number beyond the
/// range of 64-bit floats.
pub uninterp spec fn number_is_read(literal: Seq<char>) -> bool;

/// Asks `serde_json::Number::from_str` whether it reads a literal.  That the
/// answer depends on the literal alone is all that is claimed.
#[verifier::external_body]
fn reads_number(literal: &str) -> (r: bool)
    ensures
        r == number_is_read(literal@),
{
    literal.parse::<Number>().is_ok()
}

/// A tree as it is printed: with `null` in the place of each number that
/// `serde_json` does not read.
pub open spec fn printable(doc: JsonView) -> JsonView
    decreases doc,
{
    match doc {
        JsonView::Number(literal) => if number_is_read(literal) {
            doc
        } else {
            JsonView::Null
        },
        JsonView::Array(a) => JsonView::Array(
            Seq::new(
                a.len(),
                |i: int|
                    if 0 <= i < a.len() {
                        printable(a[i])
                    } else {
                        JsonView::Null
                    },
            ),
        ),
        JsonView::Object(ms) => JsonView::Object(
            Seq::new(
                ms.len(),
                |i: int|
                    if 0 <= i < ms.len() {
                        (ms[i].0, printable(ms[i].1))
                    } else {
                        (Seq::empty(), JsonView::Null)
                    },
            ),
        ),
        _ => doc,
    }
}

/// What is printed for a document: what `serde_json` prints for the value
/// made of it, or the message that says why none was made or printed.
pub open spec fn printed_json(doc: JsonView) -> Result<Seq<char>, Seq<char>> {
    match built_json(doc) {
        Ok(tree) => printed_tree(tree),
        Err(e) => Err(e),
    }
}

/// Reads JSON text with `serde_json::from_str`.  That the result depends on
/// the text alone is all that is claimed.
#[verifier::external_body]
fn value_of_text(text: &str) -> (r: Result<Value, String>)
    ensures
        match r {
            Ok(v) => parsed_json(text@) == Ok::<JsonView, Seq<char>>(value_tree(v)),
            Err(e) => parsed_json(text@) == Err::<JsonView, Seq<char>>(e@),
        },
{
    serde_json::from_str::<Value>(text).map_err(|e| e.to_string())
}

/// Copies a `serde_json::Value` into a tree, variant by variant; a number is
/// copied as the text that `serde_json` displays for it.  The result is what
/// [`value_tree`] names.
#[verifier::external_body]
fn json_of_value(v: &Value) -> (r: Json)
    ensures
        r@ == value_tree(*v),
{
    match v {
        Value::Null => Json::Null,
        Value::Bool(b) => Json::Bool(*b),
        Value::Number(n) => Json::Number(n.to_string()),
        Value::String(s) => Json::Str(s.clone()),
        Value::Array(a) => Json::Array(a.iter().map(json_of_value).collect()),
        Value::Object(m) => Json::Object(
            m.iter().map(|(k, x)| Member { key: k.clone(), value: json_of_value(x) }).collect(),
        ),
    }
}

/// Copies a tree into a `serde_json::Value`, variant by variant; a number is
/// read from its literal with `serde_json::Number::from_str`, whose error
/// ends the copy.  That the result depends on the tree alone is all that is
/// claimed.
#[verifier::external_body]
fn value_of_json(j: &Json) -> (r: Result<Value, String>)
    ensures
        match r {
            Ok(v) => built_json(j@) == Ok::<JsonView, Seq<char>>(value_tree(v)),
            Err(e) => built_json(j@) == Err::<JsonView, Seq<char>>(e@),
        },
{
    Ok(match j {
        Json::Null => Value::Null,
        Json::Bool(b) => Value::Bool(*b),
        Json::Number(t) => Value::Number(t.parse::<Number>().map_err(|e| e.to_string())?),
        Json::Str(s) => Value::String(s.clone()),
        Json::Array(a) => Value::Array(a.iter().map(value_of_json).collect::<Result<_, _>>()?),
        Json::Object(m) => Value::Object(
            m.iter()
                .map(|e| Ok((e.key.clone(), value_of_json(&e.value)?)))
                .collect::<Result<_, String>>()?,
        ),
    })
}

/// Prints a value with `serde_json::to_string_pretty`.  That the result
/// depends on what the value holds alone is all that is claimed.
#[verifier::external_body]
fn text_of_value(v: &Value) -> (r: Result<String, String>)
    ensures
        match r {
            Ok(t) => printed_tree(value_tree(*v)) == Ok::<Seq<char>, Seq<char>>(t@),
            Err(e) => printed_tree(value_tree(*v)) == Err::<Seq<char>, Seq<char>>(e@),
        },
{
    serde_json::to_string_pretty(v).map_err(|e| e.to_string())
}

/// A copy of a tree with `null` in the place of each number that
/// `serde_json` does not read.
#[verifier::rlimit(40)]
pub fn printable_json(doc: &Json) -> (r: Json)
    ensures
        r@ == printable(doc@),
    decreases doc,
{
    match doc {
        Json::Null => Json::Null,
        Json::Bool(b) => Json::Bool(*b),
        Json::Str(s) => Json::Str(s.clone()),
        Json::Number(literal) => {
            if reads_number(literal.as_str()) {
                Json::Number(literal.clone())
            } else {
                Json::Null
            }
        },
        Json::Array(a) => {
            proof {
                lemma_array_view(*a);
            }
            let mut items: Vec<Json> = Vec::new();
            let mut i: usize = 0;
            while i < a.len()
                invariant
                    i <= a.len(),
                    *doc == Json::Array(*a),
                    decreases_to!(doc => a),
                    items@.len() == i,
                    forall|k: int| 0 <= k < i ==> (#[trigger] items@[k])@ == printable(a@[k]@),
                decreases a.len() - i,
            {
                proof {
                    vstd::std_specs::vec::axiom_vec_index_decreases(*a, i as int);
                }
                let item = printable_json(&a[i]);
                items.push(item);
                i += 1;
            }
            proof {
                lemma_array_view(items);
                assert(items_view(items@) =~= printable(doc@)->Array_0);
            }
            Json::Array(items)
        },
        Json::Object(m) => {
            proof {
                lemma_object_view(*m);
            }
            let mut members: Vec<Member> = Vec::new();
            let mut i: usize = 0;
            while i < m.len()
                invariant
                    i <= m.len(),
                    *doc == Json::Object(*m),
                    decreases_to!(doc => m),
                    members@.len() == i,
                    forall|k: int|
                        0 <= k < i ==> (#[trigger] members@[k]).key@ == m@[k].key@
                            && members@[k].value@ == printable(m@[k].value@),
                decreases m.len() - i,
            {
                proof {
                    vstd::std_specs::vec::axiom_vec_index_decreases(*m, i as int);
                }
                let value = printable_json(&m[i].value);
                members.push(Member { key: m[i].key.clone(), value });
                i += 1;
            }
            proof {
                lemma_object_view(members);
                assert(members_view(members@) =~= printable(doc@)->Object_0);
            }
            Json::Object(members)
        },
    }
}

/// Reads JSON text into a tree.
pub fn parse_json(text: &str) -> (r: Result<Json, String>)
    ensures
        match r {
            Ok(j) => parsed_json(text@) == Ok::<JsonView, Seq<char>>(j@),
            Err(e) => parsed_json(text@) == Err::<JsonView, Seq<char>>(e@),
        },
{
    match value_of_text(text) {
        Ok(v) => Ok(json_of_value(&v)),
        Err(e) => Err(e),
    }
}

/// Prints a tree as JSON text, indented by two spaces.
pub fn print_json(doc: &Json) -> (r: Result<String, String>)
    ensures
        match r {
            Ok(t) => printed_json(doc@) == Ok::<Seq<char>, Seq<char>>(t@),
            Err(e) => printed_json(doc@) == Err::<Seq<char>, Seq<char>>(e@),
        },
{
    match value_of_json(doc) {
        Ok(v) => text_of_value(&v),
        Err(e) => Err(e),
    }
}

} // verus!
