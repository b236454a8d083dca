//! The concrete table types that the library decodes.

pub mod bgrt;
