//! Decoder for the metadata sections of openNURBS "3dm" model archives.
//!
//! The archive is a self-describing tree of length-prefixed chunks. The
//! library reads an in-memory byte buffer through a cursor ([`reader::Reader`]),
//! frames length-bounded sub-streams ([`chunk::Chunk`]), and decodes the
//! metadata records (header, file version, comment, start section,
//! properties and settings) that precede the geometry tables.

pub mod application;
pub mod archive;
pub mod boolean;
pub mod chunk;
pub mod comment;
pub mod date;
pub mod error;
pub mod header;
pub mod notes;
pub mod numbers;
pub mod on_version;
pub mod preview_image;
pub mod properties;
pub mod reader;
pub mod revision_history;
pub mod sequence;
pub mod settings;
pub mod start_section;
pub mod string;
pub mod time;
pub mod typecode;
pub mod uuid;
pub mod version;
