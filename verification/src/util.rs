//! Helpers around identifiers, sequences and model directories.

pub mod fs;
pub mod naming;
pub mod seqs;
pub mod text;
