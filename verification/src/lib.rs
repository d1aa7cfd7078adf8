//! Generates data-access source text for relational tables described by a
//! table descriptor and per-table options: record types for the read, create
//! and update shapes, and the CRUD/pagination operations that are legal for
//! the table.

pub mod code;
pub mod descriptor;
pub mod fields;
pub mod inflect;
