//! Foreign-binding declarations for the attribute members of a web-platform
//! interface description.

pub mod members;
pub mod names;
pub mod types;
