//! The document envelope: identity, name, kind, version and timestamps
//! around a typed body.

use chrono::NaiveDateTime;
use crate::messages::DocumentProperties;
use crate::serial::fields::JsonCodec;
use crate::serial::tree::json_tree;
use crate::structure::data::opt_text;
use crate::util::naming::{
    empty_uuid, hyphenated_form, hyphenated_text, random_uuid, uuid_bytes, zero_bytes,
};
use crate::util::text::same_text;
use uuid::Uuid;
use vstd::prelude::*;
use vstd::string::StringExecFns;

verus! {

/// `chrono::NaiveDateTime`, carried through as an opaque value.
#[verifier::external_type_specification]
#[verifier::external_body]
pub struct ExNaiveDateTime(chrono::NaiveDateTime);

/// The date and time that lies `secs` whole seconds and `nsecs` nanoseconds
/// after midnight of 1 January 1970.
pub uninterp spec fn timestamp_value(secs: i64, nsecs: u32) -> chrono::NaiveDateTime;

/// What `Debug` writes for a text: the text in double quotes, with the
/// characters that cannot stand there as they are written as escapes.
pub uninterp spec fn debug_form(text: Seq<char>) -> Seq<char>;

/// What `Debug` writes for a date and time: the date, the letter T and the
/// time of day, with the fraction of the second where there is one.
pub uninterp spec fn datetime_form(t: chrono::NaiveDateTime) -> Seq<char>;

/// The date and time that a text reads as, where it reads as one.
pub uninterp spec fn parsed_datetime(text: Seq<char>) -> Option<chrono::NaiveDateTime>;

/// Whether a date and time reads back from the text it is written as. A
/// leap second that does not fall on the last second of a minute does not.
pub open spec fn datetime_readable(t: NaiveDateTime) -> bool {
    parsed_datetime(datetime_form(t)) == Some(t)
}

/// Calls `NaiveDateTime::from_timestamp`, which panics on seconds more than
/// about 262,000 years from the common era and on two or more seconds' worth
/// of nanoseconds: both are kept out here. Only times from 1970 to the end
/// of the year 9999 are let in, and no leap second: these are written with a
/// year of four digits and read back from what `Debug` writes, which parses
/// by the format that `Debug` prints.
#[verifier::external_body]
#[allow(deprecated)]
pub(crate) fn datetime_from_timestamp(secs: i64, nsecs: u32) -> (t: NaiveDateTime)
    requires
        0 <= secs <= 253_402_300_799,
        nsecs < 1_000_000_000,
    ensures
        t == timestamp_value(secs, nsecs),
        datetime_readable(t),
{
    NaiveDateTime::from_timestamp(secs, nsecs)
}

/// Formats a text with `Debug`.
#[verifier::external_body]
fn debug_text(text: &str) -> (quoted: String)
    ensures
        quoted@ == debug_form(text@),
{
    format!("{:?}", text)
}

/// The kinds of document.
#[derive(Debug, PartialEq, Eq, Hash, Structural)]
pub enum Doctype {
    Domain,
    XFlow,
    Fngroup,
    Modelx,
}

impl Clone for Doctype {
    fn clone(&self) -> (r: Self)
        ensures
            r == *self,
    {
        match self {
            Doctype::Domain => Doctype::Domain,
            Doctype::XFlow => Doctype::XFlow,
            Doctype::Fngroup => Doctype::Fngroup,
            Doctype::Modelx => Doctype::Modelx,
        }
    }
}

impl Doctype {
    /// The tag that marks documents of a kind.
    pub open spec fn tag(self) -> Seq<char> {
        match self {
            Doctype::Domain => "domain"@,
            Doctype::XFlow => "xflow"@,
            Doctype::Fngroup => "fngroup"@,
            Doctype::Modelx => "modelx"@,
        }
    }

    /// The kind that a tag marks, where it marks one.
    pub open spec fn of_tag(tag: Seq<char>) -> Option<Doctype> {
        if tag == "domain"@ {
            Some(Doctype::Domain)
        } else if tag == "xflow"@ {
            Some(Doctype::XFlow)
        } else if tag == "fngroup"@ {
            Some(Doctype::Fngroup)
        } else if tag == "modelx"@ {
            Some(Doctype::Modelx)
        } else {
            None
        }
    }

    /// No two kinds have the same tag: every kind is found again by its tag,
    /// and a tag marks at most the kind that has it.
    pub proof fn lemma_tags_tell_kinds_apart()
        ensures
            forall|kind: Doctype| Doctype::of_tag(#[trigger] kind.tag()) == Some(kind),
            forall|tag: Seq<char>|
                #![trigger Doctype::of_tag(tag)]
                Doctype::of_tag(tag) is Some ==> tag == Doctype::of_tag(tag)->Some_0.tag(),
    {
        reveal_strlit("domain");
        reveal_strlit("xflow");
        reveal_strlit("fngroup");
        reveal_strlit("modelx");
        assert("domain"@.len() == 6 && "domain"@[0] == 'd');
        assert("modelx"@.len() == 6 && "modelx"@[0] == 'm');
        assert("xflow"@.len() == 5);
    }

    /// The tag that marks documents of the kind.
    pub fn name(&self) -> (tag: &'static str)
        ensures
            tag@ == self.tag(),
    {
        match self {
            Doctype::Domain => "domain",
            Doctype::XFlow => "xflow",
            Doctype::Fngroup => "fngroup",
            Doctype::Modelx => "modelx",
        }
    }

    /// The kind that a tag marks. A tag that is none of the four marks none.
    pub fn parse(tag: &str) -> (kind: Option<Doctype>)
        ensures
            kind == Doctype::of_tag(tag@),
    {
        if same_text(tag, "domain") {
            Some(Doctype::Domain)
        } else if same_text(tag, "xflow") {
            Some(Doctype::XFlow)
        } else if same_text(tag, "fngroup") {
            Some(Doctype::Fngroup)
        } else if same_text(tag, "modelx") {
            Some(Doctype::Modelx)
        } else {
            None
        }
    }
}

/// What every body type of a document provides: its kind tag and the body
/// that a new document starts with.
pub trait DocumentBody: JsonCodec {
    /// The kind of the documents with this body.
    spec fn kind() -> Doctype;

    /// The tag that marks documents with this body: that of their kind.
    spec fn doctype_tag() -> Seq<char>;

    /// The tag is that of the kind.
    proof fn lemma_tag_of_kind()
        ensures
            Self::doctype_tag() == Self::kind().tag(),
    ;

    /// What the body of a new document holds.
    spec fn initial() -> Self::V;

    /// The tag that marks documents with this body.
    fn doctype() -> (tag: String)
        ensures
            tag@ == Self::doctype_tag(),
    ;

    /// The body of a new document.
    fn initial_body() -> (body: Self)
        ensures
            body@ == Self::initial(),
    ;
}

/// A versioned, identified envelope around a body.
#[derive(Debug, PartialEq, Eq)]
pub struct Document<T> {
    pub id: Uuid,
    pub project_id: Uuid,
    pub name: String,
    pub doctype: String,
    pub version: i32,
    pub created_at: NaiveDateTime,
    pub updated_at: NaiveDateTime,
    pub body: T,
}

/// What a document holds, with texts as sequences of characters and the body
/// by its own view.
pub struct DocumentView<B> {
    pub id: Uuid,
    pub project_id: Uuid,
    pub name: Seq<char>,
    pub doctype: Seq<char>,
    pub version: int,
    pub created_at: NaiveDateTime,
    pub updated_at: NaiveDateTime,
    pub body: B,
}

impl<T: View> View for Document<T> {
    type V = DocumentView<T::V>;

    open spec fn view(&self) -> DocumentView<T::V> {
        DocumentView {
            id: self.id,
            project_id: self.project_id,
            name: self.name@,
            doctype: self.doctype@,
            version: self.version as int,
            created_at: self.created_at,
            updated_at: self.updated_at,
            body: self.body@,
        }
    }
}

/// An edit of a document's envelope, as a value.
pub enum DocumentEdit {
    /// One more revision is counted.
    Change,
    /// The name is replaced where a new one is given.
    ChangeProps { name: Option<Seq<char>> },
}

impl<B> DocumentView<B> {
    /// The document after an edit of its envelope: what `change` and
    /// `change_props` leave behind.
    pub open spec fn after(self, edit: DocumentEdit) -> DocumentView<B> {
        match edit {
            DocumentEdit::Change => DocumentView { version: self.version + 1, ..self },
            DocumentEdit::ChangeProps { name } => DocumentView {
                name: match name {
                    Some(n) => n,
                    None => self.name,
                },
                ..self
            },
        }
    }

    /// The document after a run of edits, first to last.
    pub open spec fn after_all(self, edits: Seq<DocumentEdit>) -> DocumentView<B>
        decreases edits.len(),
    {
        if edits.len() == 0 {
            self
        } else {
            self.after_all(edits.drop_last()).after(edits.last())
        }
    }

    /// Versions only grow: after any run of edits the version is the old one
    /// plus the number of revisions counted, and so never less than before.
    /// Identity, kind, times and body stay as they were.
    pub proof fn lemma_version_counts_changes(self, edits: Seq<DocumentEdit>)
        ensures
            self.after_all(edits).version == self.version + edits.filter(
                |e: DocumentEdit| e is Change,
            ).len(),
            self.after_all(edits).version >= self.version,
            self.after_all(edits).id == self.id,
            self.after_all(edits).doctype == self.doctype,
            self.after_all(edits).body == self.body,
        decreases edits.len(),
    {
        reveal(Seq::filter);
        if edits.len() > 0 {
            self.lemma_version_counts_changes(edits.drop_last());
        }
    }
}

/// A non-owning pointer to another document.
#[derive(Debug, PartialEq, Eq)]
pub struct DocumentReference {
    pub id: Uuid,
    pub doctype: String,
}

/// What a reference holds.
pub struct DocumentReferenceView {
    pub id: Uuid,
    pub doctype: Seq<char>,
}

impl View for DocumentReference {
    type V = DocumentReferenceView;

    open spec fn view(&self) -> DocumentReferenceView {
        DocumentReferenceView { id: self.id, doctype: self.doctype@ }
    }
}

impl Clone for DocumentReference {
    fn clone(&self) -> (r: Self)
        ensures
            r@ == self@,
    {
        DocumentReference { id: self.id, doctype: self.doctype.clone() }
    }
}

/// Why a text could not be read as a document.
#[derive(Debug, PartialEq, Eq)]
pub enum ModelLoadError {
    /// The text is not well-formed in its format.
    UnParseable(String),
    /// The text is well-formed and does not describe a document.
    BadStructure(String),
}

impl Clone for ModelLoadError {
    fn clone(&self) -> (r: Self)
        ensures
            r is UnParseable == self is UnParseable,
            r is UnParseable ==> r->UnParseable_0@ == self->UnParseable_0@,
            r is BadStructure ==> r->BadStructure_0@ == self->BadStructure_0@,
    {
        match self {
            ModelLoadError::UnParseable(m) => ModelLoadError::UnParseable(m.clone()),
            ModelLoadError::BadStructure(m) => ModelLoadError::BadStructure(m.clone()),
        }
    }
}

impl<T: DocumentBody> Document<T> {
    /// The tag agrees with the body's type, and the version is no less than
    /// that of a new document.
    pub open spec fn well_formed(&self) -> bool {
        &&& self.doctype@ == T::doctype_tag()
        &&& self.version >= 0
    }

    /// A new document in a project: a fresh random identifier, the name
    /// "default", version 0, both timestamps at the start of 1970, and the
    /// body that documents of this kind start with. The tag is always that of
    /// the body's type: `doctype` says which kind the caller means and cannot
    /// make a document whose tag disagrees with its body.
    pub fn new(project_id: &Uuid, doctype: String) -> (doc: Self)
        ensures
            doc.well_formed(),
            doc@.project_id == *project_id,
            doc@.name == "default"@,
            doc@.doctype == T::doctype_tag(),
            doc@.version == 0,
            doc@.created_at == timestamp_value(0, 0),
            doc@.updated_at == timestamp_value(0, 0),
            datetime_readable(doc@.created_at),
            datetime_readable(doc@.updated_at),
            doc@.body == T::initial(),
            uuid_bytes(doc@.id).len() == 16,
            uuid_bytes(doc@.id)[6] / 16 == 4,
            uuid_bytes(doc@.id)[8] / 64 == 2,
    {
        Document {
            id: random_uuid(),
            project_id: *project_id,
            name: "default".to_owned(),
            doctype: T::doctype(),
            version: 0,
            created_at: datetime_from_timestamp(0, 0),
            updated_at: datetime_from_timestamp(0, 0),
            body: T::initial_body(),
        }
    }

    /// Counts one more revision and returns the new version: one more than
    /// before. Nothing else changes.
    pub fn change(&mut self) -> (version: i32)
        requires
            old(self).version < i32::MAX,
        ensures
            version == old(self).version + 1,
            final(self)@ == (DocumentView { version: old(self).version + 1, ..old(self)@ }),
            final(self)@ == old(self)@.after(DocumentEdit::Change),
            old(self).well_formed() ==> final(self).well_formed(),
    {
        self.version = self.version + 1;
        self.version
    }
}

impl<T: View> Document<T> {
    /// Takes over the name from `props` where it gives one. Nothing else
    /// changes, the version and the kind included.
    pub fn change_props(&mut self, props: &DocumentProperties) -> (r: &Self)
        ensures
            *r == *final(self),
            final(self).doctype@ == old(self).doctype@,
            final(self).version == old(self).version,
            final(self)@ == old(self)@.after(
                DocumentEdit::ChangeProps { name: opt_text(props.name) },
            ),
            final(self)@ == (DocumentView {
                name: match props.name {
                    Some(n) => n@,
                    None => old(self)@.name,
                },
                ..old(self)@
            }),
    {
        if let Some(name) = &props.name {
            self.name = name.clone();
        }
        self
    }

    /// A short text that names the document: the word "document" and the
    /// identifier in its hyphenated form.
    pub fn to_string(&self) -> (text: String)
        ensures
            text@ == "document "@ + hyphenated_form(uuid_bytes(self.id)),
    {
        let mut text = "document ".to_owned();
        let id = hyphenated_text(&self.id);
        text.append(id.as_str());
        text
    }

    /// A one-line summary: kind, identifier and name, each as `Debug`
    /// writes it.
    pub fn summary(&self) -> (text: String)
        ensures
            text@ == "Doc "@ + debug_form(self.doctype@) + " - "@ + hyphenated_form(
                uuid_bytes(self.id),
            ) + " - "@ + debug_form(self.name@),
    {
        let mut text = "Doc ".to_owned();
        let doctype = debug_text(self.doctype.as_str());
        text.append(doctype.as_str());
        text.append(" - ");
        let id = hyphenated_text(&self.id);
        text.append(id.as_str());
        text.append(" - ");
        let name = debug_text(self.name.as_str());
        text.append(name.as_str());
        text
    }
}

/// A document taken apart for storing: the envelope's fields by reference,
/// and the body as an untyped JSON value.
pub struct RawDocument<'a> {
    pub id: &'a Uuid,
    pub project_id: &'a Uuid,
    pub name: &'a str,
    pub doctype: &'a str,
    pub version: &'a i32,
    pub created_at: NaiveDateTime,
    pub updated_at: NaiveDateTime,
    pub body: serde_json::Value,
}

impl<T: DocumentBody> Document<T> {
    /// The document taken apart for storing, with the body written as a
    /// tree.
    pub fn as_raw(&self) -> (raw: RawDocument<'_>)
        ensures
            *raw.id == self.id,
            *raw.project_id == self.project_id,
            raw.name@ == self.name@,
            raw.doctype@ == self.doctype@,
            *raw.version == self.version,
            raw.created_at == self.created_at,
            raw.updated_at == self.updated_at,
            json_tree(raw.body) == T::encode(self.body@),
            T::decode(json_tree(raw.body)) == Some(self.body@),
    {
        let body = self.body.to_value();
        proof {
            T::lemma_round_trip(self.body@);
        }
        RawDocument {
            id: &self.id,
            project_id: &self.project_id,
            name: self.name.as_str(),
            doctype: self.doctype.as_str(),
            version: &self.version,
            created_at: self.created_at,
            updated_at: self.updated_at,
            body,
        }
    }
}

impl<T: DocumentBody> Document<T> {
    /// A new document that belongs to no project yet, under a given name:
    /// otherwise as `new` makes it.
    pub fn unfiled(name: &str) -> (doc: Self)
        ensures
            doc.well_formed(),
            uuid_bytes(doc@.project_id) == zero_bytes(),
            doc@.name == name@,
            doc@.doctype == T::doctype_tag(),
            doc@.version == 0,
            doc@.created_at == timestamp_value(0, 0),
            doc@.updated_at == timestamp_value(0, 0),
            datetime_readable(doc@.created_at),
            datetime_readable(doc@.updated_at),
            doc@.body == T::initial(),
            uuid_bytes(doc@.id).len() == 16,
            uuid_bytes(doc@.id)[6] / 16 == 4,
            uuid_bytes(doc@.id)[8] / 64 == 2,
    {
        Document {
            id: random_uuid(),
            project_id: empty_uuid(),
            name: name.to_owned(),
            doctype: T::doctype(),
            version: 0,
            created_at: datetime_from_timestamp(0, 0),
            updated_at: datetime_from_timestamp(0, 0),
            body: T::initial_body(),
        }
    }
}

impl<T> Document<T> {
    /// The document's identifier.
    pub fn id(&self) -> (id: &Uuid)
        ensures
            *id == self.id,
    {
        &self.id
    }

    /// The document's name.
    pub fn name(&self) -> (name: &str)
        ensures
            name@ == self.name@,
    {
        self.name.as_str()
    }

    /// The tag of the document's kind.
    pub fn doctype(&self) -> (doctype: &str)
        ensures
            doctype@ == self.doctype@,
    {
        self.doctype.as_str()
    }

    /// When the document was created.
    pub fn created_at(&self) -> (t: NaiveDateTime)
        ensures
            t == self.created_at,
    {
        self.created_at
    }

    /// When the document was last stored.
    pub fn updated_at(&self) -> (t: NaiveDateTime)
        ensures
            t == self.updated_at,
    {
        self.updated_at
    }

    /// The document's body.
    pub fn body(&self) -> (body: &T)
        ensures
            *body == self.body,
    {
        &self.body
    }
}

impl<T: Clone> Clone for Document<T> {
    /// A copy: the envelope's fields as they are, and the body as its own
    /// `clone` copies it.
    fn clone(&self) -> (r: Self)
        ensures
            r.id == self.id,
            r.project_id == self.project_id,
            r.name@ == self.name@,
            r.doctype@ == self.doctype@,
            r.version == self.version,
            r.created_at == self.created_at,
            r.updated_at == self.updated_at,
            cloned::<T>(self.body, r.body),
    {
        Document {
            id: self.id,
            project_id: self.project_id,
            name: self.name.clone(),
            doctype: self.doctype.clone(),
            version: self.version,
            created_at: self.created_at,
            updated_at: self.updated_at,
            body: self.body.clone(),
        }
    }
}

} // verus!
