//! Reading a batch from JSON, for trying a block by hand.
//!
//! A debug input, not a wire format: a batch's encoding is canonical CBOR and nothing else, and
//! this is the one place a batch has a second, textual spelling — one-way. JSON is a smaller
//! data model than a signal's, so three things do not survive it: byte strings have no JSON
//! spelling; int and float are told apart by how a number is written (`1` is an int, `1.0` and
//! `1e0` are floats); and duplicate object keys collapse, because the parser resolves them
//! before this code sees them. Everything else is exact, and an integer past `i64::MAX` is
//! refused rather than rounded into a float.
//!
//! The parser hands over a [`Json`] tree; this module turns it into signals, and says exactly
//! where the first thing it cannot represent is, as a path a reader can follow: `[0].temp`,
//! `[2].tags[1]`.
use vstd::prelude::*;
use crate::text::{decimal, push_decimal};

verus! {

/// A JSON number, as the parser classifies it by how it was written.
#[derive(Debug, Clone, Copy, PartialEq, Eq)]
pub enum Number {
    /// Written without a fraction or an exponent, and inside `i64`.
    Int(i64),
    /// Written as an integer just past `i64::MAX`, still inside `u64`.
    Wide(u64),
    /// Anything else: a float, always finite — the parser refuses a literal that overflows,
    /// and has no spelling for NaN — held as its IEEE 754 bits.
    Float(u64),
}

/// A JSON document, as the parser hands it over. An object's members come in the parser's
/// order, with duplicates already resolved.
#[derive(Debug, PartialEq, Eq)]
pub enum Json {
    /// `null`.
    Null,
    /// `true` or `false`.
    Bool(bool),
    /// A number.
    Number(Number),
    /// A string.
    Str(String),
    /// An array.
    Array(Vec<Json>),
    /// An object.
    Object(Vec<(String, Json)>),
}

/// A value of a signal's data model, as far as JSON can spell one.
#[derive(Debug, PartialEq, Eq)]
pub enum Value {
    /// Null.
    Null,
    /// A boolean.
    Bool(bool),
    /// A 64-bit integer.
    Int(i64),
    /// A finite 64-bit float, by its IEEE 754 bits.
    Float(u64),
    /// Text.
    Str(String),
    /// An array.
    Array(Vec<Value>),
    /// A map from text keys, in key order as the document gave them.
    Record(Vec<(String, Value)>),
}

/// One signal: its fields.
#[derive(Debug, PartialEq, Eq)]
pub struct Signal {
    /// The fields, in the document's order.
    pub fields: Vec<(String, Value)>,
}

/// Why a JSON document is not a batch.
#[derive(Debug, Clone, PartialEq, Eq)]
pub struct JsonError {
    /// Where in the document, as a path a reader can follow: `[0].temp`, `[2].tags[1]`.
    /// Empty for the document as a whole.
    pub path: String,
    /// What is wrong there.
    pub message: String,
}

/// The sentence for an integer no `i64` holds.
pub const OUTSIDE_I64: &'static str = "an integer outside i64 is outside the value space";

/// The sentence for a document that is not an array.
pub const NOT_AN_ARRAY: &'static str = "a batch is a JSON array of objects";

/// The sentence for a member of the batch that is not an object.
pub const NOT_AN_OBJECT: &'static str = "a signal is a JSON object";

/// How an error reads: the message, preceded by `at <path>: ` when there is a path.
pub open spec fn describe_spec(path: Seq<char>, message: Seq<char>) -> Seq<char> {
    if path.len() == 0 {
        message
    } else {
        "at "@ + path + ": "@ + message
    }
}

impl JsonError {
    /// How the error reads (see [`describe_spec`]).
    pub fn describe(&self) -> (text: String)
        ensures
            text@ == describe_spec(self.path@, self.message@),
    {
        if self.path.as_str().is_empty() {
            self.message.clone()
        } else {
            let mut text = String::from_str("at ");
            text.append(self.path.as_str());
            text.append(": ");
            text.append(self.message.as_str());
            text
        }
    }
}

/// The path to member `index` of the array at `path`.
pub open spec fn index_path(path: Seq<char>, index: int) -> Seq<char> {
    path + seq!['['] + decimal(index as nat) + seq![']']
}

/// The path to member `key` of the object at `path`.
pub open spec fn key_path(path: Seq<char>, key: Seq<char>) -> Seq<char> {
    path + seq!['.'] + key
}

/// `value` is what `json` means in a signal's data model.
pub open spec fn converts(json: Json, value: Value) -> bool
    decreases json, 0int,
{
    match json {
        Json::Null => value is Null,
        Json::Bool(b) => value == Value::Bool(b),
        Json::Str(s) => match value {
            Value::Str(t) => t@ == s@,
            _ => false,
        },
        Json::Number(Number::Int(i)) => value == Value::Int(i),
        Json::Number(Number::Float(bits)) => value == Value::Float(bits),
        Json::Number(Number::Wide(_)) => false,
        Json::Array(items) => match value {
            Value::Array(values) => values@.len() == items@.len() && items_convert(items@, values@, items@.len() as int),
            _ => false,
        },
        Json::Object(members) => match value {
            Value::Record(entries) => entries@.len() == members@.len() && members_convert(
                members@,
                entries@,
                members@.len() as int,
            ),
            _ => false,
        },
    }
}

/// The first `n` of `items` convert to the first `n` of `values`.
pub open spec fn items_convert(items: Seq<Json>, values: Seq<Value>, n: int) -> bool
    decreases items, n,
{
    if n <= 0 {
        true
    } else if n > items.len() || n > values.len() {
        false
    } else {
        items_convert(items, values, n - 1) && converts(items[n - 1], values[n - 1])
    }
}

/// The first `n` of `members` convert to the first `n` of `entries`, key for key.
pub open spec fn members_convert(members: Seq<(String, Json)>, entries: Seq<(String, Value)>, n: int) -> bool
    decreases members, n,
{
    if n <= 0 {
        true
    } else if n > members.len() || n > entries.len() {
        false
    } else {
        members_convert(members, entries, n - 1) && entries[n - 1].0@ == members[n - 1].0@ && converts(
            members[n - 1].1,
            entries[n - 1].1,
        )
    }
}

/// Whether the first `n` convert depends on the first `n` of `values` alone.
proof fn lemma_items_prefix(items: Seq<Json>, a: Seq<Value>, b: Seq<Value>, n: int)
    requires
        0 <= n <= a.len(),
        n <= b.len(),
        forall|k: int| 0 <= k < n ==> a[k] == b[k],
    ensures
        items_convert(items, a, n) == items_convert(items, b, n),
    decreases n,
{
    if n > 0 {
        assert(a[n - 1] == b[n - 1]);
        lemma_items_prefix(items, a, b, n - 1);
    }
}

/// Whether the first `n` convert depends on the first `n` of `entries` alone.
proof fn lemma_members_prefix(members: Seq<(String, Json)>, a: Seq<(String, Value)>, b: Seq<(String, Value)>, n: int)
    requires
        0 <= n <= a.len(),
        n <= b.len(),
        forall|k: int| 0 <= k < n ==> a[k] == b[k],
    ensures
        members_convert(members, a, n) == members_convert(members, b, n),
    decreases n,
{
    if n > 0 {
        assert(a[n - 1] == b[n - 1]);
        lemma_members_prefix(members, a, b, n - 1);
    }
}

/// The first thing in `json`, found at `path`, that a signal cannot hold — in document order —
/// as its path and what is wrong there.
pub open spec fn value_error(json: Json, path: Seq<char>) -> Option<(Seq<char>, Seq<char>)>
    decreases json, 0int,
{
    match json {
        Json::Number(Number::Wide(_)) => Some((path, OUTSIDE_I64@)),
        Json::Array(items) => items_error(items@, path, 0),
        Json::Object(members) => members_error(members@, path, 0),
        _ => None,
    }
}

/// The first thing a signal cannot hold among `items[from..]`, members of the array at `path`.
pub open spec fn items_error(items: Seq<Json>, path: Seq<char>, from: int) -> Option<(Seq<char>, Seq<char>)>
    decreases items, items.len() - from,
{
    if from < 0 || from >= items.len() {
        None
    } else {
        match value_error(items[from], index_path(path, from)) {
            Some(e) => Some(e),
            None => items_error(items, path, from + 1),
        }
    }
}

/// The first thing a signal cannot hold among `members[from..]`, members of the object at
/// `path`.
pub open spec fn members_error(members: Seq<(String, Json)>, path: Seq<char>, from: int) -> Option<
    (Seq<char>, Seq<char>),
>
    decreases members, members.len() - from,
{
    if from < 0 || from >= members.len() {
        None
    } else {
        match value_error(members[from].1, key_path(path, members[from].0@)) {
            Some(e) => Some(e),
            None => members_error(members, path, from + 1),
        }
    }
}

/// The path to member `index` of the array at `path`.
fn index_path_of(path: &String, index: usize) -> (member: String)
    ensures
        member@ == index_path(path@, index as int),
{
    let mut member = path.clone();
    member.push('[');
    push_decimal(&mut member, index as u64);
    member.push(']');
    member
}

/// The path to member `key` of the object at `path`.
fn key_path_of(path: &String, key: &String) -> (member: String)
    ensures
        member@ == key_path(path@, key@),
{
    let mut member = path.clone();
    member.push('.');
    member.append(key.as_str());
    member
}

/// Converts one JSON value, found at `path`, into a signal's data model — or says where the
/// first thing in it that a signal cannot hold is.
pub fn value(json: &Json, path: &String) -> (converted: Result<Value, JsonError>)
    ensures
        match converted {
            Ok(v) => value_error(*json, path@) is None && converts(*json, v),
            Err(e) => value_error(*json, path@) == Some((e.path@, e.message@)),
        },
    decreases json,
{
    match json {
        Json::Null => Ok(Value::Null),
        Json::Bool(b) => Ok(Value::Bool(*b)),
        Json::Str(text) => Ok(Value::Str(text.clone())),
        Json::Number(Number::Int(i)) => Ok(Value::Int(*i)),
        Json::Number(Number::Float(bits)) => Ok(Value::Float(*bits)),
        Json::Number(Number::Wide(_)) => Err(JsonError { path: path.clone(), message: String::from_str(OUTSIDE_I64) }),
        Json::Array(items) => {
            let mut values: Vec<Value> = Vec::new();
            let mut i: usize = 0;
            while i < items.len()
                invariant
                    *json == Json::Array(*items),
                    i <= items@.len(),
                    values@.len() == i,
                    items_convert(items@, values@, i as int),
                    items_error(items@, path@, 0) == items_error(items@, path@, i as int),
                decreases items@.len() - i,
            {
                let member = index_path_of(path, i);
                proof {
                    assert(decreases_to!(*json => *items));
                    assert(decreases_to!(*items => items@));
                    assert(decreases_to!(items@ => items@[i as int]));
                }
                match value(&items[i], &member) {
                    Ok(v) => {
                        let ghost before = values@;
                        values.push(v);
                        proof {
                            assert forall|k: int| 0 <= k < i implies before[k] == values@[k] by {}
                            lemma_items_prefix(items@, before, values@, i as int);
                        }
                    },
                    Err(e) => {
                        assert(items_error(items@, path@, i as int) == Some((e.path@, e.message@)));
                        return Err(e);
                    },
                }
                i = i + 1;
            }
            assert(items_error(items@, path@, i as int) is None);
            Ok(Value::Array(values))
        },
        Json::Object(members) => {
            let mut entries: Vec<(String, Value)> = Vec::new();
            let mut i: usize = 0;
            while i < members.len()
                invariant
                    *json == Json::Object(*members),
                    i <= members@.len(),
                    entries@.len() == i,
                    members_convert(members@, entries@, i as int),
                    members_error(members@, path@, 0) == members_error(members@, path@, i as int),
                decreases members@.len() - i,
            {
                let member = key_path_of(path, &members[i].0);
                proof {
                    assert(decreases_to!(*json => *members));
                    assert(decreases_to!(*members => members@));
                    assert(decreases_to!(members@ => members@[i as int]));
                    assert(decreases_to!(members@[i as int] => members@[i as int].1));
                }
                match value(&members[i].1, &member) {
                    Ok(v) => {
                        let key = members[i].0.clone();
                        let ghost before = entries@;
                        entries.push((key, v));
                        proof {
                            assert forall|k: int| 0 <= k < i implies before[k] == entries@[k] by {}
                            lemma_members_prefix(members@, before, entries@, i as int);
                        }
                    },
                    Err(e) => {
                        assert(members_error(members@, path@, i as int) == Some((e.path@, e.message@)));
                        return Err(e);
                    },
                }
                i = i + 1;
            }
            assert(members_error(members@, path@, i as int) is None);
            Ok(Value::Record(entries))
        },
    }
}

/// `signal` is what the object `json` means as a signal: its fields are the object's members,
/// converted.
pub open spec fn converts_signal(json: Json, signal: Signal) -> bool {
    json is Object && converts(json, Value::Record(signal.fields))
}

/// The first thing wrong among the batch's signals `signals[from..]`.
pub open spec fn signals_error(signals: Seq<Json>, from: int) -> Option<(Seq<char>, Seq<char>)>
    decreases signals.len() - from,
{
    if from < 0 || from >= signals.len() {
        None
    } else {
        match signals[from] {
            Json::Object(members) => match members_error(members@, index_path(Seq::empty(), from), 0) {
                Some(e) => Some(e),
                None => signals_error(signals, from + 1),
            },
            _ => Some((index_path(Seq::empty(), from), NOT_AN_OBJECT@)),
        }
    }
}

/// The first thing wrong with a document as a batch: not an array, a member that is not an
/// object, or something in one that a signal cannot hold.
pub open spec fn batch_error(document: Json) -> Option<(Seq<char>, Seq<char>)> {
    match document {
        Json::Array(signals) => signals_error(signals@, 0),
        _ => Some((Seq::empty(), NOT_AN_ARRAY@)),
    }
}

/// Reads a batch from a JSON document: an array of objects, one signal each. An empty array is
/// a legal batch and stays one.
pub fn batch_from_json(document: &Json) -> (batch: Result<Vec<Signal>, JsonError>)
    ensures
        match batch {
            Ok(signals) => batch_error(*document) is None && match *document {
                Json::Array(members) => signals@.len() == members@.len() && forall|i: int|
                    0 <= i < members@.len() ==> #[trigger] converts_signal(members@[i], signals@[i]),
                _ => false,
            },
            Err(e) => batch_error(*document) == Some((e.path@, e.message@)),
        },
{
    let members = match document {
        Json::Array(members) => members,
        _ => {
            return Err(JsonError { path: String::new(), message: String::from_str(NOT_AN_ARRAY) });
        },
    };
    let mut signals: Vec<Signal> = Vec::new();
    let mut i: usize = 0;
    let root = String::new();
    while i < members.len()
        invariant
            *document == Json::Array(*members),
            root@ == Seq::<char>::empty(),
            i <= members@.len(),
            signals@.len() == i,
            forall|k: int| 0 <= k < i ==> #[trigger] converts_signal(members@[k], signals@[k]),
            signals_error(members@, 0) == signals_error(members@, i as int),
        decreases members@.len() - i,
    {
        let path = index_path_of(&root, i);
        match &members[i] {
            Json::Object(_) => {
                match value(&members[i], &path) {
                    Ok(Value::Record(fields)) => {
                        let signal = Signal { fields };
                        assert(converts_signal(members@[i as int], signal));
                        signals.push(signal);
                    },
                    Ok(_) => {
                        return Err(JsonError { path, message: String::from_str(NOT_AN_OBJECT) });
                    },
                    Err(e) => {
                        return Err(e);
                    },
                }
            },
            _ => {
                return Err(JsonError { path, message: String::from_str(NOT_AN_OBJECT) });
            },
        }
        i = i + 1;
    }
    Ok(signals)
}

} // verus!
