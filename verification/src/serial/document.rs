//! Whole documents as JSON and YAML texts.

use chrono::NaiveDateTime;
use crate::serial::domain::{field_uuid, get_uuid, uuid_readable, uuid_to_value};
use crate::serial::fields::{
    field_i32, field_text, field_value, fits_i32, get_i32, get_text, get_value, lemma_object_field,
    put, JsonCodec,
};
use crate::serial::tree::{
    compact_form, field_trees, json_int, json_object, json_text, json_tree, object, parse_json,
    parse_yaml, parsed_json, parsed_yaml, pretty_form, print_compact, print_pretty, print_yaml,
    yaml_form, yaml_reach, yaml_within_reach, JsonTree, YAML_REACH,
};
use crate::structure::common::{
    datetime_form, datetime_readable, parsed_datetime, Document, DocumentBody, DocumentView,
    ModelLoadError,
};
use crate::util::naming::{hyphenated_form, uuid_bytes};
use crate::util::text::same_text;
use serde_json::Value;
use vstd::prelude::*;
use vstd::string::StringSliceAdditionalSpecFns;

verus! {

/// Formats a date and time with `Debug`.
#[verifier::external_body]
fn datetime_text(t: &NaiveDateTime) -> (text: String)
    ensures
        text@ == datetime_form(*t),
{
    format!("{:?}", t)
}

/// Calls `str::parse` for a date and time.
#[verifier::external_body]
fn parse_datetime(text: &str) -> (r: Option<NaiveDateTime>)
    ensures
        r == parsed_datetime(text@),
{
    match text.parse::<NaiveDateTime>() {
        Ok(t) => Some(t),
        Err(_) => None,
    }
}

/// The date and time under a key: a text that reads as one.
pub open spec fn field_datetime(t: JsonTree, key: Seq<char>) -> Option<NaiveDateTime> {
    match field_text(t, key) {
        Some(text) => parsed_datetime(text),
        None => None,
    }
}

/// Reads the date and time under a key.
fn get_datetime(v: &Value, key: &str) -> (r: Option<NaiveDateTime>)
    ensures
        r == field_datetime(json_tree(*v), key@),
{
    match get_text(v, key) {
        Some(text) => parse_datetime(text.as_str()),
        None => None,
    }
}

/// What `from_json` and `from_yaml` say of a text that is well-formed and
/// describes no document of the kind asked for.
pub open spec fn mismatch_message() -> Seq<char> {
    "the text does not describe a document of this kind"@
}

/// What `from_yaml` says of a text that opens a block collection beyond the
/// deepest column that the YAML parser is handed.
pub open spec fn too_deep_message() -> Seq<char> {
    "the text is indented too deep"@
}

/// The fields that a document is written with.
pub open spec fn document_fields<T: DocumentBody>(d: DocumentView<T::V>) -> Seq<
    (Seq<char>, JsonTree),
> {
    seq![
        ("id"@, JsonTree::Text(hyphenated_form(uuid_bytes(d.id)))),
        ("project_id"@, JsonTree::Text(hyphenated_form(uuid_bytes(d.project_id)))),
        ("name"@, JsonTree::Text(d.name)),
        ("doctype"@, JsonTree::Text(d.doctype)),
        ("version"@, JsonTree::Int(d.version)),
        ("created_at"@, JsonTree::Text(datetime_form(d.created_at))),
        ("updated_at"@, JsonTree::Text(datetime_form(d.updated_at))),
        ("body"@, T::encode(d.body)),
    ]
}

/// A document that a parser has made of a text, or why there is none.
pub open spec fn read_result<T: DocumentBody>(
    parsed: Result<Value, Seq<char>>,
    r: Result<Document<T>, ModelLoadError>,
) -> bool {
    match parsed {
        Ok(v) => match Document::<T>::decode(json_tree(v)) {
            Some(d) => r is Ok && r->Ok_0@ == d,
            None => r matches Err(ModelLoadError::BadStructure(m)) && m@ == mismatch_message(),
        },
        Err(complaint) => r matches Err(ModelLoadError::UnParseable(m)) && m@ == complaint,
    }
}

/// What `from_yaml` makes of a text: `UnParseable` for a text that reaches
/// beyond the deepest column that the YAML parser is handed, and else what
/// the parse comes to.
pub open spec fn read_yaml_result<T: DocumentBody>(
    text: &str,
    r: Result<Document<T>, ModelLoadError>,
) -> bool {
    if yaml_reach(text.spec_bytes()) <= YAML_REACH {
        read_result::<T>(parsed_yaml(text@), r)
    } else {
        r matches Err(ModelLoadError::UnParseable(m)) && m@ == too_deep_message()
    }
}

/// A document after an update from a text that a parser has read, with what
/// the update returns: the document that the text describes, or the
/// document as it was and why the text describes none.
pub open spec fn update_result<T: DocumentBody>(
    parsed: Result<Value, Seq<char>>,
    before: Document<T>,
    after: Document<T>,
    r: Result<&Document<T>, String>,
) -> bool {
    match parsed {
        Ok(v) => match Document::<T>::decode(json_tree(v)) {
            Some(d) => r is Ok && *r->Ok_0 == after && after@ == d,
            None => r is Err && r->Err_0@ == mismatch_message() && after == before,
        },
        Err(complaint) => r is Err && r->Err_0@ == complaint && after == before,
    }
}

impl<T: DocumentBody> Document<T> {
    /// Whether a document can be written so that it reads back: its tag is
    /// that of its body's kind, its version is not negative, its version and
    /// the numbers in its body fit, and its identifiers and times read back
    /// from their texts.
    pub open spec fn writable(d: DocumentView<T::V>) -> bool {
        &&& uuid_readable(d.id)
        &&& uuid_readable(d.project_id)
        &&& d.doctype == T::doctype_tag()
        &&& 0 <= d.version
        &&& fits_i32(d.version)
        &&& datetime_readable(d.created_at)
        &&& datetime_readable(d.updated_at)
        &&& T::writable(d.body)
    }

    /// The tree that a document is written as: an object with the
    /// identifiers in hyphenated form, the times as `Debug` writes them, and
    /// the body as its kind is written.
    pub open spec fn encode(d: DocumentView<T::V>) -> JsonTree {
        object(document_fields::<T>(d))
    }

    /// The document that a tree describes, where it describes one of this
    /// kind: an object with all eight fields, each of the right kind, with
    /// the tag of this kind and a version that is not negative. Fields
    /// beyond these are passed over.
    pub open spec fn decode(t: JsonTree) -> Option<DocumentView<T::V>> {
        match (
            field_uuid(t, "id"@),
            field_uuid(t, "project_id"@),
            field_text(t, "name"@),
            field_text(t, "doctype"@),
            field_i32(t, "version"@),
            field_datetime(t, "created_at"@),
            field_datetime(t, "updated_at"@),
            field_value::<T>(t, "body"@),
        ) {
            (
                Some(id),
                Some(project_id),
                Some(name),
                Some(doctype),
                Some(version),
                Some(created_at),
                Some(updated_at),
                Some(body),
            ) => if doctype == T::doctype_tag() && version >= 0 {
                Some(
                    DocumentView {
                        id,
                        project_id,
                        name,
                        doctype,
                        version,
                        created_at,
                        updated_at,
                        body,
                    },
                )
            } else {
                None
            },
            _ => None,
        }
    }

    /// Round trip: the tree that a document is written as describes that
    /// document and no other.
    pub proof fn lemma_round_trip(d: DocumentView<T::V>)
        requires
            Self::writable(d),
        ensures
            Self::decode(Self::encode(d)) == Some(d),
    {
        reveal_strlit("id");
        reveal_strlit("project_id");
        reveal_strlit("name");
        reveal_strlit("doctype");
        reveal_strlit("version");
        reveal_strlit("created_at");
        reveal_strlit("updated_at");
        reveal_strlit("body");
        assert("id"@.len() == 2);
        assert("project_id"@.len() == 10 && "project_id"@[0] == 'p');
        assert("created_at"@.len() == 10 && "created_at"@[0] == 'c');
        assert("updated_at"@.len() == 10 && "updated_at"@[0] == 'u');
        assert("name"@.len() == 4 && "name"@[0] == 'n');
        assert("body"@.len() == 4 && "body"@[0] == 'b');
        assert("doctype"@.len() == 7 && "doctype"@[0] == 'd');
        let fields = document_fields::<T>(d);
        lemma_object_field(fields, 0);
        lemma_object_field(fields, 1);
        lemma_object_field(fields, 2);
        lemma_object_field(fields, 3);
        lemma_object_field(fields, 4);
        lemma_object_field(fields, 5);
        lemma_object_field(fields, 6);
        lemma_object_field(fields, 7);
        T::lemma_round_trip(d.body);
    }

    /// Round trip through a text: where a parser makes of the text that a
    /// document was printed as a value with the tree that was printed, what
    /// `from_json` and `from_yaml` return for that text is the document.
    pub proof fn lemma_text_round_trip(
        d: DocumentView<T::V>,
        printed: Value,
        parsed: Result<Value, Seq<char>>,
        r: Result<Document<T>, ModelLoadError>,
    )
        requires
            Self::writable(d),
            json_tree(printed) == Self::encode(d),
            parsed is Ok,
            json_tree(parsed->Ok_0) == json_tree(printed),
            read_result::<T>(parsed, r),
        ensures
            r is Ok,
            r->Ok_0@ == d,
    {
        Self::lemma_round_trip(d);
    }

    /// Writes the document as a tree. A well-formed document reads back from
    /// that tree as it is, provided that its two times read back from their
    /// texts.
    pub fn to_value(&self) -> (v: Value)
        ensures
            json_tree(v) == Self::encode(self@),
            self.well_formed() && datetime_readable(self.created_at) && datetime_readable(
                self.updated_at,
            ) ==> Self::writable(self@) && Self::decode(json_tree(v)) == Some(self@),
    {
        let mut fields: Vec<(String, Value)> = Vec::new();
        put(&mut fields, "id", uuid_to_value(&self.id));
        put(&mut fields, "project_id", uuid_to_value(&self.project_id));
        put(&mut fields, "name", json_text(self.name.as_str()));
        put(&mut fields, "doctype", json_text(self.doctype.as_str()));
        put(&mut fields, "version", json_int(self.version as i64));
        put(&mut fields, "created_at", json_text(datetime_text(&self.created_at).as_str()));
        put(&mut fields, "updated_at", json_text(datetime_text(&self.updated_at).as_str()));
        put(&mut fields, "body", self.body.to_value());
        proof {
            assert(field_trees(fields@) =~= document_fields::<T>(self@));
            if self.well_formed() && datetime_readable(self.created_at) && datetime_readable(
                self.updated_at,
            ) {
                Self::lemma_round_trip(self@);
            }
        }
        json_object(fields)
    }

    /// Reads a document from a tree. What is read is well-formed.
    pub fn from_value(v: &Value) -> (r: Option<Self>)
        ensures
            match r {
                Some(d) => Self::decode(json_tree(*v)) == Some(d@) && d.well_formed(),
                None => Self::decode(json_tree(*v)) is None,
            },
    {
        let id = match get_uuid(v, "id") {
            Some(x) => x,
            None => return None,
        };
        let project_id = match get_uuid(v, "project_id") {
            Some(x) => x,
            None => return None,
        };
        let name = match get_text(v, "name") {
            Some(x) => x,
            None => return None,
        };
        let doctype = match get_text(v, "doctype") {
            Some(x) => x,
            None => return None,
        };
        let version = match get_i32(v, "version") {
            Some(x) => x,
            None => return None,
        };
        let created_at = match get_datetime(v, "created_at") {
            Some(x) => x,
            None => return None,
        };
        let updated_at = match get_datetime(v, "updated_at") {
            Some(x) => x,
            None => return None,
        };
        let body = match get_value::<T>(v, "body") {
            Some(x) => x,
            None => return None,
        };
        if !same_text(doctype.as_str(), T::doctype().as_str()) || version < 0 {
            return None;
        }
        Some(Document { id, project_id, name, doctype, version, created_at, updated_at, body })
    }

    /// What a parse comes to: the document that the parsed value describes;
    /// `BadStructure` where it describes none of this kind; `UnParseable`,
    /// with the parser's complaint, where the text did not parse.
    pub fn from_parsed(parsed: Result<Value, String>) -> (r: Result<Self, ModelLoadError>)
        ensures
            match parsed {
                Ok(v) => match Self::decode(json_tree(v)) {
                    Some(d) => r is Ok && r->Ok_0@ == d,
                    None => r matches Err(ModelLoadError::BadStructure(m)) && m@
                        == mismatch_message(),
                },
                Err(complaint) => r matches Err(ModelLoadError::UnParseable(m)) && m@
                    == complaint@,
            },
            r is Ok ==> r->Ok_0.well_formed(),
    {
        match parsed {
            Ok(v) => match Self::from_value(&v) {
                Some(d) => Ok(d),
                None => Err(
                    ModelLoadError::BadStructure(
                        "the text does not describe a document of this kind".to_owned(),
                    ),
                ),
            },
            Err(complaint) => Err(ModelLoadError::UnParseable(complaint)),
        }
    }

    /// The document as indented JSON: the tree of `encode`, pretty-printed.
    pub fn to_json(&self) -> (text: String)
        ensures
            exists|v: Value| #[trigger] json_tree(v) == Self::encode(self@) && text@ == pretty_form(v),
    {
        let v = self.to_value();
        print_pretty(&v)
    }

    /// The document as compact JSON: the tree of `encode`, printed without
    /// white space.
    pub fn to_json_compact(&self) -> (text: String)
        ensures
            exists|v: Value|
                #[trigger] json_tree(v) == Self::encode(self@) && text@ == compact_form(v),
    {
        let v = self.to_value();
        print_compact(&v)
    }

    /// Reads a document from JSON. A text that is no JSON is `UnParseable`;
    /// JSON that describes no document of this kind is `BadStructure`. What
    /// is read is well-formed.
    pub fn from_json(s: &str) -> (r: Result<Self, ModelLoadError>)
        ensures
            read_result::<T>(parsed_json(s@), r),
            r is Ok ==> r->Ok_0.well_formed(),
    {
        Self::from_parsed(parse_json(s))
    }

    /// Replaces the document by the one that a JSON text describes and
    /// returns it. Where the text describes none, the document stays as it
    /// is, and the error says why: the parser's complaint, or that the text
    /// describes no document of this kind.
    pub fn update_from_json(&mut self, s: &str) -> (r: Result<&Self, String>)
        ensures
            update_result::<T>(parsed_json(s@), *old(self), *final(self), r),
            r is Ok ==> final(self).well_formed(),
    {
        match Self::from_json(s) {
            Ok(d) => {
                *self = d;
                Ok(self)
            },
            Err(ModelLoadError::UnParseable(m)) => Err(m),
            Err(ModelLoadError::BadStructure(m)) => Err(m),
        }
    }

    /// The document as YAML: the tree of `encode`, printed by the YAML
    /// writer, or nothing where that writer refuses the tree.
    pub fn to_yaml(&self) -> (text: Option<String>)
        ensures
            exists|v: Value|
                json_tree(v) == Self::encode(self@) && match text {
                    Some(t) => yaml_form(v) == Some(t@),
                    None => yaml_form(v) is None,
                },
    {
        let v = self.to_value();
        print_yaml(&v)
    }

    /// Reads a document from YAML. A text that is no YAML is `UnParseable`,
    /// and so is one that opens a block collection beyond column
    /// `YAML_REACH`, which is not handed to the parser; YAML that describes
    /// no document of this kind is `BadStructure`. What is read is
    /// well-formed.
    pub fn from_yaml(s: &str) -> (r: Result<Self, ModelLoadError>)
        ensures
            read_yaml_result::<T>(s, r),
            r is Ok ==> r->Ok_0.well_formed(),
    {
        if yaml_within_reach(s) {
            Self::from_parsed(parse_yaml(s))
        } else {
            Err(ModelLoadError::UnParseable("the text is indented too deep".to_owned()))
        }
    }

    /// Replaces the document by the one that a YAML text describes and
    /// returns it. Where the text describes none, the document stays as it
    /// is, and the error says why: the parser's complaint, that the text is
    /// indented too deep, or that it describes no document of this kind.
    pub fn update_from_yaml(&mut self, s: &str) -> (r: Result<&Self, String>)
        ensures
            if yaml_reach(s.spec_bytes()) <= YAML_REACH {
                update_result::<T>(parsed_yaml(s@), *old(self), *final(self), r)
            } else {
                r is Err && r->Err_0@ == too_deep_message() && *final(self) == *old(self)
            },
            r is Ok ==> final(self).well_formed(),
    {
        match Self::from_yaml(s) {
            Ok(d) => {
                *self = d;
                Ok(self)
            },
            Err(ModelLoadError::UnParseable(m)) => Err(m),
            Err(ModelLoadError::BadStructure(m)) => Err(m),
        }
    }
}

} // verus!
