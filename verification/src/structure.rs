//! The document envelope and the bodies it can carry.

pub mod common;
pub mod data;
pub mod domain;
pub mod fngroup;
pub mod modelx;
pub mod xflow;
