//! JSON values as trees, and the calls that make, inspect, print and parse
//! them.

use serde_json::Value;
use vstd::prelude::*;
use vstd::string::StringSliceAdditionalSpecFns;

verus! {

/// `serde_json::Value`, carried through as an opaque value.
#[verifier::external_type_specification]
#[verifier::external_body]
pub struct ExJsonValue(serde_json::Value);

/// What a JSON value holds. Numbers with a fraction or an exponent all
/// count as `Real`: nothing here reads them.
pub enum JsonTree {
    Null,
    Bool(bool),
    Int(int),
    Real,
    Text(Seq<char>),
    List(Seq<JsonTree>),
    Object(Map<Seq<char>, JsonTree>),
}

/// What a JSON value holds.
pub uninterp spec fn json_tree(v: serde_json::Value) -> JsonTree;

/// A JSON value printed on several lines, indented by two spaces.
pub uninterp spec fn pretty_form(v: serde_json::Value) -> Seq<char>;

/// A JSON value printed without any white space.
pub uninterp spec fn compact_form(v: serde_json::Value) -> Seq<char>;

/// A JSON value printed as YAML, where the YAML writer accepts it.
pub uninterp spec fn yaml_form(v: serde_json::Value) -> Option<Seq<char>>;

/// What the JSON parser makes of a text: a value, or its complaint.
pub uninterp spec fn parsed_json(text: Seq<char>) -> Result<serde_json::Value, Seq<char>>;

/// What the YAML parser makes of a text: a value, or its complaint.
pub uninterp spec fn parsed_yaml(text: Seq<char>) -> Result<serde_json::Value, Seq<char>>;

/// The trees of some values, in order.
pub open spec fn trees(items: Seq<Value>) -> Seq<JsonTree> {
    items.map_values(|v: Value| json_tree(v))
}

/// Keys and trees of some fields, in order.
pub open spec fn field_trees(fields: Seq<(String, Value)>) -> Seq<(Seq<char>, JsonTree)> {
    fields.map_values(|f: (String, Value)| (f.0@, json_tree(f.1)))
}

/// The map that fields make when they are put in one after the other: a
/// later field replaces an earlier one of the same key.
pub open spec fn field_map(fields: Seq<(Seq<char>, JsonTree)>) -> Map<Seq<char>, JsonTree>
    decreases fields.len(),
{
    if fields.len() == 0 {
        Map::empty()
    } else {
        field_map(fields.drop_last()).insert(fields.last().0, fields.last().1)
    }
}

/// The object with the given fields.
pub open spec fn object(fields: Seq<(Seq<char>, JsonTree)>) -> JsonTree {
    JsonTree::Object(field_map(fields))
}

/// The field of an object under a key. Anything that is no object has no
/// fields.
pub open spec fn field(t: JsonTree, key: Seq<char>) -> Option<JsonTree> {
    match t {
        JsonTree::Object(m) => if m.contains_key(key) {
            Some(m[key])
        } else {
            None
        },
        _ => None,
    }
}

/// Writes `Value::Null`.
#[verifier::external_body]
pub(crate) fn json_null() -> (v: Value)
    ensures
        json_tree(v) == JsonTree::Null,
{
    Value::Null
}

/// Writes `Value::Bool`.
#[verifier::external_body]
pub(crate) fn json_bool(b: bool) -> (v: Value)
    ensures
        json_tree(v) == JsonTree::Bool(b),
{
    Value::Bool(b)
}

/// Calls `Value::from` on an integer, which makes the number with that value.
#[verifier::external_body]
pub(crate) fn json_int(n: i64) -> (v: Value)
    ensures
        json_tree(v) == JsonTree::Int(n as int),
{
    Value::from(n)
}

/// Writes `Value::String` around a copy of the text.
#[verifier::external_body]
pub(crate) fn json_text(text: &str) -> (v: Value)
    ensures
        json_tree(v) == JsonTree::Text(text@),
{
    Value::String(text.to_owned())
}

/// Writes `Value::Array` around the items.
#[verifier::external_body]
pub(crate) fn json_list(items: Vec<Value>) -> (v: Value)
    ensures
        json_tree(v) == JsonTree::List(trees(items@)),
{
    Value::Array(items)
}

/// Collects the fields into a `serde_json::Map`, which puts them in one after
/// the other, and writes `Value::Object` around it.
#[verifier::external_body]
pub(crate) fn json_object(fields: Vec<(String, Value)>) -> (v: Value)
    ensures
        json_tree(v) == object(field_trees(fields@)),
{
    Value::Object(fields.into_iter().collect())
}

/// Calls `Value::is_null`.
#[verifier::external_body]
pub(crate) fn is_null(v: &Value) -> (r: bool)
    ensures
        r == (json_tree(*v) is Null),
{
    v.is_null()
}

/// Calls `Value::is_object`.
#[verifier::external_body]
pub(crate) fn is_object(v: &Value) -> (r: bool)
    ensures
        r == (json_tree(*v) is Object),
{
    v.is_object()
}

/// Calls `Value::as_bool`.
#[verifier::external_body]
pub(crate) fn as_bool(v: &Value) -> (r: Option<bool>)
    ensures
        r == match json_tree(*v) {
            JsonTree::Bool(b) => Some(b),
            _ => None,
        },
{
    v.as_bool()
}

/// Calls `Value::as_i64`, which gives the value of an integer number that
/// fits.
#[verifier::external_body]
pub(crate) fn as_i64(v: &Value) -> (r: Option<i64>)
    ensures
        r == match json_tree(*v) {
            JsonTree::Int(n) => if i64::MIN <= n <= i64::MAX {
                Some(n as i64)
            } else {
                None
            },
            _ => None,
        },
{
    v.as_i64()
}

/// Calls `Value::as_str`.
#[verifier::external_body]
pub(crate) fn as_str(v: &Value) -> (r: Option<&str>)
    ensures
        match r {
            Some(text) => json_tree(*v) == JsonTree::Text(text@),
            None => !(json_tree(*v) is Text),
        },
{
    v.as_str()
}

/// Calls `Value::as_array`.
#[verifier::external_body]
pub(crate) fn as_array(v: &Value) -> (r: Option<&Vec<Value>>)
    ensures
        match r {
            Some(items) => json_tree(*v) == JsonTree::List(trees(items@)),
            None => !(json_tree(*v) is List),
        },
{
    v.as_array()
}

/// Calls `Value::get` with a key: the field of an object under that key.
#[verifier::external_body]
pub(crate) fn get_field<'a>(v: &'a Value, key: &str) -> (r: Option<&'a Value>)
    ensures
        match r {
            Some(x) => field(json_tree(*v), key@) == Some(json_tree(*x)),
            None => field(json_tree(*v), key@) is None,
        },
{
    v.get(key)
}

/// Formats a value with `Display` in its alternate form, which
/// pretty-prints it.
#[verifier::external_body]
pub(crate) fn print_pretty(v: &Value) -> (text: String)
    ensures
        text@ == pretty_form(*v),
{
    format!("{:#}", v)
}

/// Formats a value with `Display`, which prints it in compact form.
#[verifier::external_body]
pub(crate) fn print_compact(v: &Value) -> (text: String)
    ensures
        text@ == compact_form(*v),
{
    format!("{}", v)
}

/// Calls `serde_yaml::to_string`.
#[verifier::external_body]
pub(crate) fn print_yaml(v: &Value) -> (text: Option<String>)
    ensures
        match text {
            Some(t) => yaml_form(*v) == Some(t@),
            None => yaml_form(*v) is None,
        },
{
    match serde_yaml::to_string(v) {
        Ok(t) => Some(t),
        Err(_) => None,
    }
}

/// Calls `serde_json::from_str` for a value; an error comes back as the text
/// that `Display` writes for it.
#[verifier::external_body]
pub(crate) fn parse_json(text: &str) -> (r: Result<Value, String>)
    ensures
        match r {
            Ok(v) => parsed_json(text@) == Ok::<Value, Seq<char>>(v),
            Err(e) => parsed_json(text@) == Err::<Value, Seq<char>>(e@),
        },
{
    match serde_json::from_str::<Value>(text) {
        Ok(v) => Ok(v),
        Err(e) => Err(e.to_string()),
    }
}

/// The deepest column at which a YAML text may open a block collection that
/// `parse_yaml` still takes.
pub const YAML_REACH: usize = 128;

/// Whether a byte breaks a line.
pub open spec fn is_break_byte(b: u8) -> bool {
    b == 10 || b == 13
}

/// Whether a byte may stand in front of the place where a block collection
/// opens: a blank, or one of the indicators `-`, `?` and `:`.
pub open spec fn is_structure_byte(b: u8) -> bool {
    b == 32 || b == 9 || b == 45 || b == 63 || b == 58
}

/// What a walk along a YAML text knows at a place.
pub struct Reach {
    /// How many bytes lie between the last line feed and the place.
    pub col: nat,
    /// Whether only blanks and indicators lie between the last line break
    /// and the place, so that a block collection may open there.
    pub open: bool,
    /// The deepest column so far at which a block collection may open.
    pub deepest: nat,
}

/// Whether something can begin with a byte: not with a space and not with
/// a line break, which are passed over wherever they stand.
pub open spec fn is_start_byte(b: u8) -> bool {
    b != 32 && !is_break_byte(b)
}

/// What a walk knows after the first `n` bytes of a text. A line feed sets
/// the column back; a lone carriage return breaks the line and leaves the
/// column as it is.
pub open spec fn reach_after(bytes: Seq<u8>, n: nat) -> Reach
    decreases n,
{
    if n == 0 || n > bytes.len() {
        Reach { col: 0, open: true, deepest: 0 }
    } else {
        let before = reach_after(bytes, (n - 1) as nat);
        let b = bytes[n - 1];
        Reach {
            col: if b == 10 {
                0
            } else {
                before.col + 1
            },
            open: is_break_byte(b) || (before.open && is_structure_byte(b)),
            deepest: if before.open && is_start_byte(b) && before.col > before.deepest {
                before.col
            } else {
                before.deepest
            },
        }
    }
}

/// The deepest column at which a YAML text may open a block collection:
/// the greatest column of a byte with which something can begin and which
/// only blanks and the indicators `-`, `?` and `:` separate from the line
/// break before it. A text nests its block collections no deeper than
/// this, since each opens at a column beyond that of the one around it.
pub open spec fn yaml_reach(bytes: Seq<u8>) -> nat {
    reach_after(bytes, bytes.len()).deepest
}

/// Whether a YAML text opens its block collections within the columns that
/// `parse_yaml` takes.
pub fn yaml_within_reach(text: &str) -> (within: bool)
    ensures
        within == (yaml_reach(text.spec_bytes()) <= YAML_REACH),
{
    let bytes = text.as_bytes();
    let mut col: usize = 0;
    let mut open = true;
    let mut deepest: usize = 0;
    let mut i: usize = 0;
    while i < bytes.len()
        invariant
            0 <= i <= bytes.len(),
            bytes@ == text.spec_bytes(),
            col <= i,
            deepest <= i,
            reach_after(bytes@, i as nat) == (Reach {
                col: col as nat,
                open,
                deepest: deepest as nat,
            }),
        decreases bytes.len() - i,
    {
        let b = bytes[i];
        if open && b != 32 && b != 10 && b != 13 && col > deepest {
            deepest = col;
        }
        if b == 10 {
            col = 0;
            open = true;
        } else {
            col = col + 1;
            open = b == 13 || (open && (b == 32 || b == 9 || b == 45 || b == 63 || b == 58));
        }
        i = i + 1;
    }
    deepest <= YAML_REACH
}

/// Calls `serde_yaml::from_str` for a JSON value; an error comes back as the
/// text that `Display` writes for it.
///
/// The loader underneath calls itself once for every collection inside
/// another, without a limit of its own, so a text that nests deep enough
/// overruns the stack. The `requires` keeps such texts out. The scanner
/// counts flow collections in a byte and refuses more than 255 of them
/// inside each other. It opens a block collection only at a column beyond
/// that of the collection around it, and only where nothing but blanks and
/// the indicators `-`, `?` and `:` stands between the last line break and
/// that column; a sequence may besides stand at the column of the mapping
/// that holds it, and a flow sequence may hold a mapping of one pair
/// without brackets. With `yaml_reach` at most `YAML_REACH`, a text thus
/// nests fewer than a thousand collections.
#[verifier::external_body]
pub(crate) fn parse_yaml(text: &str) -> (r: Result<Value, String>)
    requires
        yaml_reach(text.spec_bytes()) <= YAML_REACH,
    ensures
        match r {
            Ok(v) => parsed_yaml(text@) == Ok::<Value, Seq<char>>(v),
            Err(e) => parsed_yaml(text@) == Err::<Value, Seq<char>>(e@),
        },
{
    match serde_yaml::from_str::<Value>(text) {
        Ok(v) => Ok(v),
        Err(e) => Err(e.to_string()),
    }
}

} // verus!
