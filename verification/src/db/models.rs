//! The stored form of a document, and the recovery of typed documents
//! from it by the kind that it names.

use chrono::NaiveDateTime;
use crate::messages::CommonPropertiesUpdate;
use crate::serial::fields::JsonCodec;
use crate::serial::tree::json_tree;
use crate::structure::common::{Doctype, DocumentBody, RawDocument};
use crate::structure::domain::{Domain, DomainDocument};
use crate::structure::fngroup::{Fngroup, FngroupDocument};
use crate::structure::modelx::{Modelx, ModelxDocument};
use crate::structure::xflow::{XFlow, XFlowDocument};
use crate::util::naming::{random_uuid, uuid_bytes};
use crate::util::text::same_text;
use serde_json::Value;
use uuid::Uuid;
use vstd::pervasive::unreached;
use vstd::prelude::*;

verus! {

/// A document as it is stored: the envelope's fields and the body as an
/// untyped JSON value.
#[derive(Debug, PartialEq, Eq)]
pub struct Document {
    pub id: Uuid,
    pub project_id: Uuid,
    pub name: String,
    pub doctype: String,
    pub version: i32,
    pub body: Value,
    pub created_at: NaiveDateTime,
    pub updated_at: NaiveDateTime,
}

/// A typed document of any of the known kinds.
#[derive(Debug, PartialEq, Eq)]
pub enum GearsDocument {
    Domain(DomainDocument),
    XFlow(XFlowDocument),
    Fngroup(FngroupDocument),
    Modelx(ModelxDocument),
}

/// Why a stored document could not be recovered as a document of a kind.
#[derive(Debug, PartialEq, Eq)]
pub enum DispatchError {
    /// The stored document names another kind.
    WrongDoctype { expected: String, actual: String },
    /// The stored document names the kind, and its body is no body of that
    /// kind: the record is corrupt.
    CorruptBody { doctype: String },
}

impl Document {
    /// Whether the body is one of the kind that the document names, where
    /// it names one of the known kinds. A stored document of which this does
    /// not hold is corrupt.
    pub open spec fn body_matches_doctype(&self) -> bool {
        match Doctype::of_tag(self.doctype@) {
            Some(Doctype::Domain) => Domain::decode(json_tree(self.body)) is Some,
            Some(Doctype::XFlow) => XFlow::decode(json_tree(self.body)) is Some,
            Some(Doctype::Fngroup) => Fngroup::decode(json_tree(self.body)) is Some,
            Some(Doctype::Modelx) => Modelx::decode(json_tree(self.body)) is Some,
            None => true,
        }
    }

    /// Whether a typed document is this stored document with its body read
    /// as a body of the document's kind.
    pub open spec fn recovered_as<T: DocumentBody>(
        &self,
        doc: crate::structure::common::Document<T>,
    ) -> bool {
        &&& doc.id == self.id
        &&& doc.project_id == self.project_id
        &&& doc.name@ == self.name@
        &&& doc.doctype@ == self.doctype@
        &&& doc.version == self.version
        &&& doc.created_at == self.created_at
        &&& doc.updated_at == self.updated_at
        &&& T::decode(json_tree(self.body)) == Some(doc.body@)
    }

    /// The stored form of a document that was taken apart.
    pub fn from_raw(doc: RawDocument<'_>) -> (record: Self)
        ensures
            record.id == *doc.id,
            record.project_id == *doc.project_id,
            record.name@ == doc.name@,
            record.doctype@ == doc.doctype@,
            record.version == *doc.version,
            record.created_at == doc.created_at,
            record.updated_at == doc.updated_at,
            record.body == doc.body,
    {
        Document {
            id: *doc.id,
            project_id: *doc.project_id,
            version: *doc.version,
            name: doc.name.to_owned(),
            doctype: doc.doctype.to_owned(),
            updated_at: doc.updated_at,
            created_at: doc.created_at,
            body: doc.body,
        }
    }

    /// Recovers the typed document of kind `T`. The stored document must
    /// name that kind, else it is a `WrongDoctype`; and its body must be a
    /// body of that kind, else the record is corrupt. The envelope is taken
    /// over as it is stored: what is recovered is well-formed where the
    /// stored version is not negative.
    pub fn recover<T: DocumentBody>(&self) -> (r: Result<
        crate::structure::common::Document<T>,
        DispatchError,
    >)
        ensures
            match r {
                Ok(doc) => {
                    &&& self.doctype@ == T::doctype_tag()
                    &&& self.recovered_as(doc)
                    &&& self.version >= 0 ==> doc.well_formed()
                },
                Err(DispatchError::WrongDoctype { expected, actual }) => {
                    &&& self.doctype@ != T::doctype_tag()
                    &&& expected@ == T::doctype_tag()
                    &&& actual@ == self.doctype@
                },
                Err(DispatchError::CorruptBody { doctype }) => {
                    &&& self.doctype@ == T::doctype_tag()
                    &&& doctype@ == self.doctype@
                    &&& T::decode(json_tree(self.body)) is None
                },
            },
    {
        let expected = T::doctype();
        if !same_text(self.doctype.as_str(), expected.as_str()) {
            return Err(DispatchError::WrongDoctype { expected, actual: self.doctype.clone() });
        }
        match T::from_value(&self.body) {
            Some(body) => Ok(
                crate::structure::common::Document {
                    id: self.id,
                    project_id: self.project_id,
                    doctype: self.doctype.clone(),
                    name: self.name.clone(),
                    version: self.version,
                    created_at: self.created_at,
                    updated_at: self.updated_at,
                    body,
                },
            ),
            None => Err(DispatchError::CorruptBody { doctype: self.doctype.clone() }),
        }
    }

    /// The stored document as a domain document. A document that names
    /// another kind is refused, whatever its body holds: the body is not read
    /// then. A document that names this kind must carry a body of this kind;
    /// one that does not is corrupt, which `reads_as` tells beforehand.
    pub fn as_domain(&self) -> (r: Result<DomainDocument, String>)
        requires
            self.doctype@ == "domain"@ ==> Domain::decode(json_tree(self.body)) is Some,
        ensures
            match r {
                Ok(doc) => {
                    &&& self.doctype@ == "domain"@
                    &&& self.recovered_as(doc)
                    &&& self.version >= 0 ==> doc.well_formed()
                },
                Err(m) => self.doctype@ != "domain"@ && m@ == "Not a domain document"@,
            },
    {
        match self.recover::<Domain>() {
            Ok(doc) => Ok(doc),
            Err(DispatchError::WrongDoctype { .. }) => Err("Not a domain document".to_owned()),
            Err(DispatchError::CorruptBody { .. }) => unreached(),
        }
    }

    /// The stored document as an xflow document. A document that names
    /// another kind is refused, whatever its body holds: the body is not read
    /// then. A document that names this kind must carry a body of this kind;
    /// one that does not is corrupt, which `reads_as` tells beforehand.
    pub fn as_xflow(&self) -> (r: Result<XFlowDocument, String>)
        requires
            self.doctype@ == "xflow"@ ==> XFlow::decode(json_tree(self.body)) is Some,
        ensures
            match r {
                Ok(doc) => {
                    &&& self.doctype@ == "xflow"@
                    &&& self.recovered_as(doc)
                    &&& self.version >= 0 ==> doc.well_formed()
                },
                Err(m) => self.doctype@ != "xflow"@ && m@ == "Not a xflow document"@,
            },
    {
        match self.recover::<XFlow>() {
            Ok(doc) => Ok(doc),
            Err(DispatchError::WrongDoctype { .. }) => Err("Not a xflow document".to_owned()),
            Err(DispatchError::CorruptBody { .. }) => unreached(),
        }
    }

    /// The stored document as a function-group document. A document that names
    /// another kind is refused, whatever its body holds: the body is not read
    /// then. A document that names this kind must carry a body of this kind;
    /// one that does not is corrupt, which `reads_as` tells beforehand.
    pub fn as_fngroup(&self) -> (r: Result<FngroupDocument, String>)
        requires
            self.doctype@ == "fngroup"@ ==> Fngroup::decode(json_tree(self.body)) is Some,
        ensures
            match r {
                Ok(doc) => {
                    &&& self.doctype@ == "fngroup"@
                    &&& self.recovered_as(doc)
                    &&& self.version >= 0 ==> doc.well_formed()
                },
                Err(m) => self.doctype@ != "fngroup"@ && m@ == "Not a fngroup document"@,
            },
    {
        match self.recover::<Fngroup>() {
            Ok(doc) => Ok(doc),
            Err(DispatchError::WrongDoctype { .. }) => Err("Not a fngroup document".to_owned()),
            Err(DispatchError::CorruptBody { .. }) => unreached(),
        }
    }

    /// The stored document as a model document. A document that names
    /// another kind is refused, whatever its body holds: the body is not read
    /// then. A document that names this kind must carry a body of this kind;
    /// one that does not is corrupt, which `reads_as` tells beforehand.
    pub fn as_modelx(&self) -> (r: Result<ModelxDocument, String>)
        requires
            self.doctype@ == "modelx"@ ==> Modelx::decode(json_tree(self.body)) is Some,
        ensures
            match r {
                Ok(doc) => {
                    &&& self.doctype@ == "modelx"@
                    &&& self.recovered_as(doc)
                    &&& self.version >= 0 ==> doc.well_formed()
                },
                Err(m) => self.doctype@ != "modelx"@ && m@ == "Not a modelx document"@,
            },
    {
        match self.recover::<Modelx>() {
            Ok(doc) => Ok(doc),
            Err(DispatchError::WrongDoctype { .. }) => Err("Not a modelx document".to_owned()),
            Err(DispatchError::CorruptBody { .. }) => unreached(),
        }
    }

    /// Whether the body is a body of kind `T`: what `as_domain` and its
    /// siblings demand of a stored document that names their kind.
    pub fn reads_as<T: DocumentBody>(&self) -> (reads: bool)
        ensures
            reads == (T::decode(json_tree(self.body)) is Some),
    {
        T::from_value(&self.body).is_some()
    }

    /// Whether the body is one of the kind that the document names, where
    /// it names one of the known kinds: what `concrete` demands of its
    /// callers.
    pub fn is_sound(&self) -> (sound: bool)
        ensures
            sound == self.body_matches_doctype(),
    {
        match Doctype::parse(self.doctype.as_str()) {
            Some(Doctype::Domain) => self.reads_as::<Domain>(),
            Some(Doctype::XFlow) => self.reads_as::<XFlow>(),
            Some(Doctype::Fngroup) => self.reads_as::<Fngroup>(),
            Some(Doctype::Modelx) => self.reads_as::<Modelx>(),
            None => true,
        }
    }

    /// The typed document of the kind that the stored document names, or
    /// nothing where it names none of the known kinds.
    pub fn concrete(&self) -> (r: Option<GearsDocument>)
        requires
            self.body_matches_doctype(),
        ensures
            match r {
                Some(GearsDocument::Domain(doc)) => self.doctype@ == "domain"@
                    && self.recovered_as(doc),
                Some(GearsDocument::XFlow(doc)) => self.doctype@ == "xflow"@ && self.recovered_as(
                    doc,
                ),
                Some(GearsDocument::Fngroup(doc)) => self.doctype@ == "fngroup"@
                    && self.recovered_as(doc),
                Some(GearsDocument::Modelx(doc)) => self.doctype@ == "modelx"@
                    && self.recovered_as(doc),
                None => Doctype::of_tag(self.doctype@) is None,
            },
    {
        proof {
            Doctype::lemma_tags_tell_kinds_apart();
        }
        match Doctype::parse(self.doctype.as_str()) {
            Some(Doctype::Domain) => match self.recover::<Domain>() {
                Ok(doc) => Some(GearsDocument::Domain(doc)),
                Err(_) => unreached(),
            },
            Some(Doctype::XFlow) => match self.recover::<XFlow>() {
                Ok(doc) => Some(GearsDocument::XFlow(doc)),
                Err(_) => unreached(),
            },
            Some(Doctype::Fngroup) => match self.recover::<Fngroup>() {
                Ok(doc) => Some(GearsDocument::Fngroup(doc)),
                Err(_) => unreached(),
            },
            Some(Doctype::Modelx) => match self.recover::<Modelx>() {
                Ok(doc) => Some(GearsDocument::Modelx(doc)),
                Err(_) => unreached(),
            },
            None => None,
        }
    }
}

/// Why a document is not stored.
#[derive(Debug, PartialEq, Eq)]
pub enum SaveError {
    /// The document to store is not the revision that follows the stored one.
    VersionConflict { stored: i32, incoming: i32 },
}

impl Document {
    /// Whether a revision may replace this stored document: it must be at
    /// the version that follows the stored one. Two writers that started
    /// from the same revision thus cannot both store theirs.
    pub fn check_save(&self, incoming: &RawDocument<'_>) -> (r: Result<(), SaveError>)
        ensures
            match r {
                Ok(()) => *incoming.version == self.version + 1,
                Err(SaveError::VersionConflict { stored, incoming: found }) => {
                    &&& *incoming.version != self.version + 1
                    &&& stored == self.version
                    &&& found == *incoming.version
                },
            },
    {
        let fits = self.version < i32::MAX && *incoming.version == self.version + 1;
        if fits {
            Ok(())
        } else {
            Err(SaveError::VersionConflict { stored: self.version, incoming: *incoming.version })
        }
    }
}

/// A project as it is first stored.
#[derive(Debug, PartialEq, Eq)]
pub struct NewProject {
    pub id: Uuid,
    pub name: String,
    pub description: String,
    pub model_id: Option<Uuid>,
}

/// A stored project.
#[derive(Debug, PartialEq, Eq)]
pub struct Project {
    pub id: Uuid,
    pub name: String,
    pub description: String,
    pub model_id: Option<Uuid>,
    pub created_at: NaiveDateTime,
    pub updated_at: NaiveDateTime,
}

/// A document as it is first stored: the store sets the times.
#[derive(Debug, PartialEq, Eq)]
pub struct InsertDocument {
    pub id: Uuid,
    pub project_id: Uuid,
    pub name: String,
    pub doctype: String,
    pub version: i32,
    pub body: Value,
}

impl Project {
    /// The record of a new project with a name: a fresh random identifier,
    /// the name as its description too, and no model yet.
    pub fn create(name: &str) -> (project: NewProject)
        ensures
            project.name@ == name@,
            project.description@ == name@,
            project.model_id is None,
            uuid_bytes(project.id).len() == 16,
            uuid_bytes(project.id)[6] / 16 == 4,
            uuid_bytes(project.id)[8] / 64 == 2,
    {
        NewProject {
            id: random_uuid(),
            name: name.to_owned(),
            description: name.to_owned(),
            model_id: None,
        }
    }

    /// Takes over the name from an update, and the description where the
    /// update gives one. Nothing else changes.
    pub fn update_project(&mut self, input: CommonPropertiesUpdate)
        ensures
            final(self).name@ == input.name@,
            final(self).description@ == match input.description {
                Some(d) => d@,
                None => old(self).description@,
            },
            final(self).id == old(self).id,
            final(self).model_id == old(self).model_id,
            final(self).created_at == old(self).created_at,
            final(self).updated_at == old(self).updated_at,
    {
        self.name = input.name;
        if let Some(description) = input.description {
            self.description = description;
        }
    }
}

} // verus!
