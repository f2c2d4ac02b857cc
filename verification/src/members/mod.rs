//! Members of an interface.

pub mod attribute;
