//! Documents as they are stored: with the body still untyped.

pub mod models;
