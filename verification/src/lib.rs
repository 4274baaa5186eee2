//! Configuration metadata, loading information and the checks that a loaded
//! configuration must pass before it is accepted.

pub mod error;
pub mod info;
pub mod loading;
pub mod metadata;
pub mod sources;
pub mod tsl;
