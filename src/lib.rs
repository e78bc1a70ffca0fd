//! Generation of the data-access operations (`find`, `save`, `all`,
//! `destroy`) of a record type from its declaration and its markers.
pub mod decl;
pub mod error;
pub mod inspect;
pub mod markers;
pub mod text;
pub mod ops;
pub mod laws;
