//! Decisions of a crash-dump handler: how the dispatcher's arguments are read,
//! where a placement policy puts the dump, and which steps write it.

pub mod error;
pub mod laws;
pub mod paths;
pub mod pipeline;
pub mod policy;
pub mod report;
pub mod request;
pub mod script;
pub mod text;
pub mod writer;
