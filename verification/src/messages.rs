//! The inputs that callers hand to the editing operations.

pub mod common;

use crate::structure::data::{clone_opt_string, opt_text};
use uuid::Uuid;
use vstd::prelude::*;

verus! {

/// A project to create, as its author describes it.
#[derive(Debug, PartialEq, Eq)]
pub struct NewProject {
    pub name: String,
    pub description: Option<String>,
}

/// A project to create, with the user who will own it.
#[derive(Debug, PartialEq, Eq)]
pub struct NewProjectDTO {
    pub name: String,
    pub description: Option<String>,
    pub owner: Uuid,
}

impl NewProject {
    /// The same project, owned by `owner`.
    pub fn to_dto(&self, owner: &Uuid) -> (dto: NewProjectDTO)
        ensures
            dto.name@ == self.name@,
            opt_text(dto.description) == opt_text(self.description),
            dto.owner == *owner,
    {
        NewProjectDTO {
            name: self.name.clone(),
            description: clone_opt_string(&self.description),
            owner: *owner,
        }
    }
}

/// A document to create in a project.
#[derive(Debug, PartialEq, Eq)]
pub struct NewDocument {
    pub name: String,
    pub description: Option<String>,
    pub project_id: Uuid,
}

/// A document to create, with the user who will own it.
#[derive(Debug, PartialEq, Eq)]
pub struct NewDocumentDTO {
    pub name: String,
    pub description: Option<String>,
    pub project_id: Uuid,
    pub owner: Uuid,
}

impl NewDocument {
    /// The same document, owned by `owner`.
    pub fn to_dto(&self, owner: &Uuid) -> (dto: NewDocumentDTO)
        ensures
            dto.name@ == self.name@,
            opt_text(dto.description) == opt_text(self.description),
            dto.project_id == self.project_id,
            dto.owner == *owner,
    {
        NewDocumentDTO {
            name: self.name.clone(),
            description: clone_opt_string(&self.description),
            project_id: self.project_id,
            owner: *owner,
        }
    }
}

/// New values for what every stored item has.
#[derive(Debug, PartialEq, Eq)]
pub struct CommonPropertiesUpdate {
    pub id: Uuid,
    pub name: String,
    pub description: Option<String>,
}

/// Names a project.
#[derive(Debug, PartialEq, Eq)]
pub struct ProjectId {
    pub project_id: Uuid,
}

/// Names a document.
#[derive(Debug, PartialEq, Eq)]
pub struct DocumentId {
    pub document_id: Uuid,
}

/// Names an element inside a document.
#[derive(Debug, PartialEq, Eq)]
pub struct DocumentElementId {
    pub document_id: Uuid,
    pub element_id: i32,
}

/// Names a document together with its project.
#[derive(Debug, PartialEq, Eq)]
pub struct DocumentIdentifier {
    pub project_id: Uuid,
    pub document_id: Uuid,
}

/// An entity to add to a domain document.
#[derive(Debug, PartialEq, Eq)]
pub struct DomainAddEntityInput {
    pub name: String,
    pub project_id: Uuid,
    pub domain_id: Uuid,
}

/// New values for a document's own properties; a missing one is left as it is.
#[derive(Debug, PartialEq, Eq)]
pub struct DocumentProperties {
    pub name: Option<String>,
    pub description: Option<String>,
}

/// Names a project, as an input.
#[derive(Debug, PartialEq, Eq)]
pub struct ProjectIdInput {
    pub project_id: Uuid,
}

/// What a string attribute is made with.
#[derive(Debug, PartialEq, Eq)]
pub struct AttributeInputString {
    pub default: Option<String>,
}

/// What an integer attribute is made with.
#[derive(Debug, PartialEq, Eq)]
pub struct AttributeInputInteger {
    pub default: Option<i32>,
    pub min: Option<i32>,
    pub max: Option<i32>,
}

/// What a boolean attribute is made with.
#[derive(Debug, PartialEq, Eq)]
pub struct AttributeInputBoolean {
    pub default: Option<bool>,
}

/// A string attribute to add to an entity of a domain document.
#[derive(Debug, PartialEq, Eq)]
pub struct AddStringAttributeToEntity {
    pub project_id: Uuid,
    pub domain_id: Uuid,
    pub entity_id: i32,
    pub name: String,
    pub default: Option<String>,
}

/// A function to add to a function group.
#[derive(Debug, PartialEq, Eq)]
pub struct FnGroupFnNew {
    pub name: String,
}

/// New values for a function of a group; a missing one is left as it is.
#[derive(Debug, PartialEq, Eq)]
pub struct FnGroupFnUpdate {
    pub id: i32,
    pub name: Option<String>,
    pub description: Option<String>,
    pub body: Option<String>,
}

} // verus!
