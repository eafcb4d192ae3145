//! Documents as JSON and YAML: the tree that a document is written as, and
//! the reading of documents from such trees.

pub mod data;
pub mod document;
pub mod domain;
pub mod fields;
pub mod fngroup;
pub mod tree;
pub mod xflow;
