//! Chunk typecodes.
//!
//! A typecode is a 32-bit tag naming a chunk's kind. The top bit
//! ([`SHORT`]) marks an inline chunk: its value field carries a small
//! integer instead of a payload length. The upper half-word classifies
//! tables (`typecode & 0xFFFF_0000 == TABLE`), and [`ENDOFTABLE`]
//! terminates a table.

use vstd::prelude::*;

verus! {

/// 32-bit tag naming a chunk's kind.
pub type Typecode = u32;

/// Bit marking an inline chunk whose value is data, not a length.
pub const SHORT: u32 = 0x8000_0000;

/// Upper half-word shared by every table typecode.
pub const TABLE: u32 = 0x1000_0000;

/// Terminates a table.
pub const ENDOFTABLE: u32 = 0xFFFF_FFFF;

pub const COMMENTBLOCK: u32 = 0x0000_0001;

pub const ENDOFFILE: u32 = 0x0000_7FFF;

// Typecodes of the version 1 start-section preamble.
pub const SUMMARY: u32 = 0x0000_0010;

pub const BITMAPPREVIEW: u32 = 0x0000_0020;

pub const UNIT_AND_TOLERANCES: u32 = 0x0000_0030;

pub const VIEWPORT: u32 = 0x0000_0040;

pub const LAYER: u32 = 0x0000_0050;

pub const RENDERMESHPARAMS: u32 = 0x0000_0060;

pub const CURRENTLAYER: u32 = 0x0000_0070;

pub const ANNOTATION_SETTINGS: u32 = 0x0000_0080;

pub const NOTES: u32 = 0x0000_0090;

pub const NAMED_CPLANE: u32 = 0x0000_00a0;

pub const NAMED_VIEW: u32 = 0x0000_00b0;

// Typecodes of the version 2 properties table.
pub const PROPERTIES_TABLE: u32 = 0x1000_0014;

pub const PROPERTIES_REVISIONHISTORY: u32 = 0x2000_8021;

pub const PROPERTIES_NOTES: u32 = 0x2000_8022;

pub const PROPERTIES_PREVIEWIMAGE: u32 = 0x2000_8023;

pub const PROPERTIES_APPLICATION: u32 = 0x2000_8024;

pub const PROPERTIES_COMPRESSED_PREVIEWIMAGE: u32 = 0x2000_8025;

pub const PROPERTIES_OPENNURBS_VERSION: u32 = 0xA000_8026;

pub const PROPERTIES_AS_FILE_NAME: u32 = 0x2000_8027;

// Typecodes of the version 2 settings table.
pub const SETTINGS_TABLE: u32 = 0x1000_0015;

pub const SETTINGS_UNITSANDTOLS: u32 = 0x2000_8031;

pub const SETTINGS_RENDERMESH: u32 = 0x2000_8032;

pub const SETTINGS_ANALYSISMESH: u32 = 0x2000_8033;

pub const SETTINGS_ANNOTATION: u32 = 0x2000_8034;

pub const SETTINGS_MODEL_URL: u32 = 0x2000_8131;

pub const SETTINGS_CURRENT_COLOR: u32 = 0x2000_8132;

pub const SETTINGS_PLUGINLIST: u32 = 0x2000_8135;

pub const SETTINGS_ATTRIBUTES: u32 = 0x2000_8136;

// Inline typecodes whose 4-byte value stays unsigned although the
// inline bit is set.
pub const RGB: u32 = 0x8008_0001;

pub const RGBDISPLAY: u32 = 0x8008_0002;

pub const OBJECT_RECORD_TYPE: u32 = 0x8002_0001;

} // verus!
