//! Reading and writing the fields of objects: numbers, texts, optional
//! values and lists.

use crate::serial::tree::{
    as_array, as_bool, as_i64, as_str, field, field_trees, get_field, is_null, json_bool, json_int,
    json_list, json_null, json_text, json_tree, object, trees, JsonTree,
};
use crate::util::seqs::views;
use serde_json::Value;
use vstd::prelude::*;

verus! {

/// A type that is written as a JSON tree and read back from one.
pub trait JsonCodec: View + Sized {
    /// Whether a value can be written so that it reads back: its numbers
    /// fit, and the identifiers and times in it read back from their texts.
    spec fn writable(v: Self::V) -> bool;

    /// The tree that a value is written as.
    spec fn encode(v: Self::V) -> JsonTree;

    /// The value that a tree describes, where it describes one.
    spec fn decode(t: JsonTree) -> Option<Self::V>;

    /// What is written reads back as it was.
    proof fn lemma_round_trip(v: Self::V)
        requires
            Self::writable(v),
        ensures
            Self::decode(Self::encode(v)) == Some(v),
    ;

    /// Writes the value as a tree.
    fn to_value(&self) -> (v: Value)
        ensures
            json_tree(v) == Self::encode(self@),
            Self::writable(self@),
    ;

    /// Reads a value from a tree.
    fn from_value(v: &Value) -> (r: Option<Self>)
        ensures
            match r {
                Some(x) => Self::decode(json_tree(*v)) == Some(x@),
                None => Self::decode(json_tree(*v)) is None,
            },
    ;
}

/// Whether a number fits the integers that documents hold.
pub open spec fn fits_i32(n: int) -> bool {
    i32::MIN <= n <= i32::MAX
}

/// The number that a tree describes: an integer that fits.
pub open spec fn decode_i32(t: JsonTree) -> Option<int> {
    match t {
        JsonTree::Int(n) => if fits_i32(n) {
            Some(n)
        } else {
            None
        },
        _ => None,
    }
}

/// The text that a tree describes.
pub open spec fn decode_text(t: JsonTree) -> Option<Seq<char>> {
    match t {
        JsonTree::Text(s) => Some(s),
        _ => None,
    }
}

/// The truth value that a tree describes.
pub open spec fn decode_bool(t: JsonTree) -> Option<bool> {
    match t {
        JsonTree::Bool(b) => Some(b),
        _ => None,
    }
}

/// A number under a key.
pub open spec fn field_i32(t: JsonTree, key: Seq<char>) -> Option<int> {
    match field(t, key) {
        Some(x) => decode_i32(x),
        None => None,
    }
}

/// A text under a key.
pub open spec fn field_text(t: JsonTree, key: Seq<char>) -> Option<Seq<char>> {
    match field(t, key) {
        Some(x) => decode_text(x),
        None => None,
    }
}

/// An optional number under a key: a missing field and `null` both stand
/// for none.
pub open spec fn field_opt_i32(t: JsonTree, key: Seq<char>) -> Option<Option<int>> {
    match field(t, key) {
        None => Some(None),
        Some(JsonTree::Null) => Some(None),
        Some(x) => match decode_i32(x) {
            Some(n) => Some(Some(n)),
            None => None,
        },
    }
}

/// An optional text under a key: a missing field and `null` both stand for
/// none.
pub open spec fn field_opt_text(t: JsonTree, key: Seq<char>) -> Option<Option<Seq<char>>> {
    match field(t, key) {
        None => Some(None),
        Some(JsonTree::Null) => Some(None),
        Some(x) => match decode_text(x) {
            Some(s) => Some(Some(s)),
            None => None,
        },
    }
}

/// An optional truth value under a key: a missing field and `null` both
/// stand for none.
pub open spec fn field_opt_bool(t: JsonTree, key: Seq<char>) -> Option<Option<bool>> {
    match field(t, key) {
        None => Some(None),
        Some(JsonTree::Null) => Some(None),
        Some(x) => match decode_bool(x) {
            Some(b) => Some(Some(b)),
            None => None,
        },
    }
}

/// The tree of an optional number.
pub open spec fn encode_opt_i32(n: Option<int>) -> JsonTree {
    match n {
        Some(n) => JsonTree::Int(n),
        None => JsonTree::Null,
    }
}

/// The tree of an optional text.
pub open spec fn encode_opt_text(s: Option<Seq<char>>) -> JsonTree {
    match s {
        Some(s) => JsonTree::Text(s),
        None => JsonTree::Null,
    }
}

/// The tree of an optional truth value.
pub open spec fn encode_opt_bool(b: Option<bool>) -> JsonTree {
    match b {
        Some(b) => JsonTree::Bool(b),
        None => JsonTree::Null,
    }
}

/// The list that some values are written as.
pub open spec fn encode_list<T: JsonCodec>(items: Seq<T::V>) -> JsonTree {
    JsonTree::List(items.map_values(|x: T::V| T::encode(x)))
}

/// Whether all of some values can be written.
pub open spec fn writable_list<T: JsonCodec>(items: Seq<T::V>) -> bool {
    forall|i: int| 0 <= i < items.len() ==> T::writable(#[trigger] items[i])
}

/// The values that a list describes: it describes them where each of its
/// items describes one.
pub open spec fn decode_list<T: JsonCodec>(t: JsonTree) -> Option<Seq<T::V>> {
    match t {
        JsonTree::List(items) => if forall|i: int|
            0 <= i < items.len() ==> T::decode(#[trigger] items[i]) is Some {
            Some(items.map_values(|x: JsonTree| T::decode(x)->Some_0))
        } else {
            None
        },
        _ => None,
    }
}

/// A value under a key.
pub open spec fn field_value<T: JsonCodec>(t: JsonTree, key: Seq<char>) -> Option<T::V> {
    match field(t, key) {
        Some(x) => T::decode(x),
        None => None,
    }
}

/// A list of values under a key.
pub open spec fn field_list<T: JsonCodec>(t: JsonTree, key: Seq<char>) -> Option<Seq<T::V>> {
    match field(t, key) {
        Some(x) => decode_list::<T>(x),
        None => None,
    }
}

/// A list reads back as it was written.
pub proof fn lemma_list_round_trip<T: JsonCodec>(items: Seq<T::V>)
    requires
        writable_list::<T>(items),
    ensures
        decode_list::<T>(encode_list::<T>(items)) == Some(items),
{
    let written = items.map_values(|x: T::V| T::encode(x));
    assert forall|i: int| 0 <= i < written.len() implies T::decode(#[trigger] written[i])
        == Some(items[i]) by {
        T::lemma_round_trip(items[i]);
    }
}

/// The field that was put into an object last under its key is the one
/// found there.
pub proof fn lemma_object_field(fields: Seq<(Seq<char>, JsonTree)>, i: int)
    requires
        0 <= i < fields.len(),
        forall|j: int| i < j < fields.len() ==> fields[j].0 != fields[i].0,
    ensures
        field(object(fields), fields[i].0) == Some(fields[i].1),
    decreases fields.len(),
{
    if i < fields.len() - 1 {
        let front = fields.drop_last();
        assert forall|j: int| i < j < front.len() implies front[j].0 != front[i].0 by {
        }
        lemma_object_field(front, i);
    }
}

/// Puts one more field at the end of the fields of an object to be.
pub fn put(fields: &mut Vec<(String, Value)>, key: &str, value: Value)
    ensures
        field_trees(final(fields)@) == field_trees(old(fields)@).push((key@, json_tree(value))),
{
    fields.push((key.to_owned(), value));
}

/// Writes an optional number.
pub fn opt_i32_to_value(n: Option<i32>) -> (v: Value)
    ensures
        json_tree(v) == encode_opt_i32(
            match n {
                Some(n) => Some(n as int),
                None => None,
            },
        ),
{
    match n {
        Some(n) => json_int(n as i64),
        None => json_null(),
    }
}

/// Writes an optional text.
pub fn opt_text_to_value(s: &Option<String>) -> (v: Value)
    ensures
        json_tree(v) == encode_opt_text(
            match *s {
                Some(s) => Some(s@),
                None => None,
            },
        ),
{
    match s {
        Some(s) => json_text(s.as_str()),
        None => json_null(),
    }
}

/// Writes an optional truth value.
pub fn opt_bool_to_value(b: Option<bool>) -> (v: Value)
    ensures
        json_tree(v) == encode_opt_bool(b),
{
    match b {
        Some(b) => json_bool(b),
        None => json_null(),
    }
}

/// Reads a number that fits.
pub fn value_to_i32(v: &Value) -> (r: Option<i32>)
    ensures
        match r {
            Some(n) => decode_i32(json_tree(*v)) == Some(n as int),
            None => decode_i32(json_tree(*v)) is None,
        },
{
    match as_i64(v) {
        Some(n) => if -2147483648 <= n && n <= 2147483647 {
            Some(n as i32)
        } else {
            None
        },
        None => None,
    }
}

/// Reads the number under a key.
pub fn get_i32(v: &Value, key: &str) -> (r: Option<i32>)
    ensures
        match r {
            Some(n) => field_i32(json_tree(*v), key@) == Some(n as int),
            None => field_i32(json_tree(*v), key@) is None,
        },
{
    match get_field(v, key) {
        Some(x) => value_to_i32(x),
        None => None,
    }
}

/// Reads the text under a key.
pub fn get_text(v: &Value, key: &str) -> (r: Option<String>)
    ensures
        match r {
            Some(s) => field_text(json_tree(*v), key@) == Some(s@),
            None => field_text(json_tree(*v), key@) is None,
        },
{
    match get_field(v, key) {
        Some(x) => match as_str(x) {
            Some(s) => Some(s.to_owned()),
            None => None,
        },
        None => None,
    }
}

/// Reads the optional number under a key.
pub fn get_opt_i32(v: &Value, key: &str) -> (r: Option<Option<i32>>)
    ensures
        match r {
            Some(Some(n)) => field_opt_i32(json_tree(*v), key@) == Some(Some(n as int)),
            Some(None) => field_opt_i32(json_tree(*v), key@) == Some(None::<int>),
            None => field_opt_i32(json_tree(*v), key@) is None,
        },
{
    match get_field(v, key) {
        None => Some(None),
        Some(x) => if is_null(x) {
            Some(None)
        } else {
            match value_to_i32(x) {
                Some(n) => Some(Some(n)),
                None => None,
            }
        },
    }
}

/// Reads the optional text under a key.
pub fn get_opt_text(v: &Value, key: &str) -> (r: Option<Option<String>>)
    ensures
        match r {
            Some(Some(s)) => field_opt_text(json_tree(*v), key@) == Some(Some(s@)),
            Some(None) => field_opt_text(json_tree(*v), key@) == Some(None::<Seq<char>>),
            None => field_opt_text(json_tree(*v), key@) is None,
        },
{
    match get_field(v, key) {
        None => Some(None),
        Some(x) => if is_null(x) {
            Some(None)
        } else {
            match as_str(x) {
                Some(s) => Some(Some(s.to_owned())),
                None => None,
            }
        },
    }
}

/// Reads the optional truth value under a key.
pub fn get_opt_bool(v: &Value, key: &str) -> (r: Option<Option<bool>>)
    ensures
        r == field_opt_bool(json_tree(*v), key@),
{
    match get_field(v, key) {
        None => Some(None),
        Some(x) => if is_null(x) {
            Some(None)
        } else {
            match as_bool(x) {
                Some(b) => Some(Some(b)),
                None => None,
            }
        },
    }
}

/// Reads the value under a key.
pub fn get_value<T: JsonCodec>(v: &Value, key: &str) -> (r: Option<T>)
    ensures
        match r {
            Some(x) => field_value::<T>(json_tree(*v), key@) == Some(x@),
            None => field_value::<T>(json_tree(*v), key@) is None,
        },
{
    match get_field(v, key) {
        Some(x) => T::from_value(x),
        None => None,
    }
}

/// Writes some values as a list.
pub fn list_to_value<T: JsonCodec>(items: &Vec<T>) -> (v: Value)
    ensures
        json_tree(v) == encode_list::<T>(views(items@)),
        writable_list::<T>(views(items@)),
{
    let mut written: Vec<Value> = Vec::new();
    let mut i: usize = 0;
    while i < items.len()
        invariant
            0 <= i <= items.len(),
            trees(written@) == views(items@).take(i as int).map_values(|x: T::V| T::encode(x)),
            forall|j: int| 0 <= j < i ==> T::writable(#[trigger] views(items@)[j]),
        decreases items.len() - i,
    {
        let ghost before = trees(written@);
        let item = items[i].to_value();
        written.push(item);
        proof {
            assert(trees(written@) =~= before.push(json_tree(item)));
        }
        i = i + 1;
    }
    proof {
        assert(views(items@).take(i as int) =~= views(items@));
    }
    json_list(written)
}

/// Reads a list of values.
pub fn value_to_list<T: JsonCodec>(v: &Value) -> (r: Option<Vec<T>>)
    ensures
        match r {
            Some(items) => decode_list::<T>(json_tree(*v)) == Some(views(items@)),
            None => decode_list::<T>(json_tree(*v)) is None,
        },
{
    match as_array(v) {
        None => None,
        Some(written) => {
            let ghost all = trees(written@);
            let mut items: Vec<T> = Vec::new();
            let mut i: usize = 0;
            while i < written.len()
                invariant
                    0 <= i <= written.len(),
                    all == trees(written@),
                    json_tree(*v) == JsonTree::List(all),
                    items@.len() == i,
                    forall|j: int|
                        0 <= j < i ==> T::decode(#[trigger] all[j]) == Some(items@[j]@),
                decreases written.len() - i,
            {
                match T::from_value(&written[i]) {
                    Some(item) => {
                        items.push(item);
                    },
                    None => {
                        assert(T::decode(all[i as int]) is None);
                        return None;
                    },
                }
                i = i + 1;
            }
            Some(items)
        },
    }
}

/// Reads the list of values under a key.
pub fn get_list<T: JsonCodec>(v: &Value, key: &str) -> (r: Option<Vec<T>>)
    ensures
        match r {
            Some(items) => field_list::<T>(json_tree(*v), key@) == Some(views(items@)),
            None => field_list::<T>(json_tree(*v), key@) is None,
        },
{
    match get_field(v, key) {
        Some(x) => value_to_list::<T>(x),
        None => None,
    }
}

} // verus!
