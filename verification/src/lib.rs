//! A read-only parser for SFNT (TrueType/OpenType) font metadata.
//!
//! The library takes an in-memory byte buffer, locates the table directory
//! (plain SFNT or TrueType collection), decodes the `head`, `hhea`, `maxp`,
//! `OS/2`, `post` and `name` tables with bounds-checked big-endian reads, and
//! aggregates the result into one `FontInfo` snapshot.

pub mod buckets;
pub mod container;
pub mod error;
pub mod facade;
pub mod name;
pub mod reader;
pub mod tables;
