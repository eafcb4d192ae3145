//! Versioned, typed documents for data modelling: an envelope around a body,
//! and the bodies it carries (entity models, flow graphs, function groups).

pub mod db;
pub mod messages;
pub mod serial;
pub mod structure;
pub mod util;
