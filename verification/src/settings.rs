//! The settings table.
//!
//! A wrapped table keyed by the settings typecodes. Floating-point
//! settings are carried as their raw 64-bit little-endian encodings;
//! giving the bits numeric meaning is left to the caller.

use vstd::prelude::*;

use crate::boolean::BoolFromI32;
use crate::chunk::{
    is_inline_typecode, spec_chunk_end_at, spec_is_inline, spec_is_unsigned,
    spec_normal_version_ok, spec_size_of_length, Begin, Chunk, Version as ChunkVersion,
};
use crate::version::Version as FileVersion;
use crate::error::DecodeError;
use crate::numbers::{le_bytes, le_i32, le_i64};
use crate::reader::Reader;
use crate::sequence::Sequence;
use crate::string::{spec_wstring_at, WStringWithLength};
use crate::typecode;

verus! {

/// One entry of the plug-in list. The record itself carries no decoded
/// fields; its framing chunk is read and advanced past.
#[derive(Debug)]
pub struct PlugIn {}

/// Whether a plug-in record decodes at `pos` in a window ending at
/// `eff`: its framing chunk must fit as a header with a positive,
/// representable payload, and the framed version stamp must decode
/// inside that payload.
pub open spec fn spec_plugin_ok(d: Seq<u8>, pos: int, eff: int, version: FileVersion) -> bool {
    let w = spec_size_of_length(version) as int;
    let hdr_end = pos + 4 + w;
    let tc = le_bytes(d.subrange(pos, pos + 4)) as u32;
    let value = if w == 8 {
        le_i64(d.subrange(pos + 4, pos + 12))
    } else if spec_is_unsigned(tc) {
        le_bytes(d.subrange(pos + 4, pos + 8))
    } else {
        le_i32(d.subrange(pos + 4, pos + 8))
    };
    &&& hdr_end <= eff
    &&& 0 < value
    &&& hdr_end + value <= u64::MAX
    &&& spec_normal_version_ok(d, hdr_end, vstd::math::min(hdr_end + value, eff), version)
}

/// Cursor positions after each of `count` consecutive plug-in records
/// from `pos`: one past the last record's framing chunk, or nothing as
/// soon as a record does not decode.
pub open spec fn spec_plugin_run(
    d: Seq<u8>,
    pos: int,
    eff: int,
    version: FileVersion,
    count: int,
) -> Option<int>
    decreases count,
{
    if count <= 0 {
        Some(pos)
    } else if spec_plugin_ok(d, pos, eff, version) {
        spec_plugin_run(d, spec_chunk_end_at(d, pos, version), eff, version, count - 1)
    } else {
        None
    }
}

impl PlugIn {
    /// Opens the record's framing chunk, reads the framed version stamp
    /// inside it and advances past the record, whatever else it holds.
    pub fn deserialize(r: &mut Reader) -> (res: Result<PlugIn, DecodeError>)
        ensures
            final(r).data@ == old(r).data@,
            final(r).version == old(r).version,
            final(r).limit == old(r).limit,
            ({
                let pos = old(r).position as int;
                let eff = old(r).spec_eff_len();
                let d = old(r).data@;
                if spec_plugin_ok(d, pos, eff, old(r).version) {
                    &&& res is Ok
                    &&& final(r).position == spec_chunk_end_at(d, pos, old(r).version)
                } else {
                    res is Err
                }
            }),
    {
        let begin = Begin::deserialize(r)?;
        let chunk = Chunk::open_body(r, begin)?;
        match ChunkVersion::deserialize_normal(r) {
            Ok(_) => {}
            Err(e) => {
                chunk.close(r);
                return Err(e);
            }
        }
        chunk.close(r);
        Ok(PlugIn {})
    }
}

impl Default for PlugIn {
    fn default() -> (r: PlugIn) {
        PlugIn {  }
    }
}

impl Sequence<PlugIn> {
    /// Decodes a length-prefixed run of plug-in records.
    pub fn deserialize(r: &mut Reader) -> (res: Result<Sequence<PlugIn>, DecodeError>)
        ensures
            final(r).data@ == old(r).data@,
            final(r).version == old(r).version,
            final(r).limit == old(r).limit,
            ({
                let pos = old(r).position as int;
                let eff = old(r).spec_eff_len();
                let d = old(r).data@;
                if pos + 4 > eff {
                    res is Err
                } else {
                    let len = le_i32(d.subrange(pos, pos + 4));
                    if len < 0 {
                        &&& res matches Err(e) && e == DecodeError::InvalidLength
                        &&& final(r).position == pos + 4
                    } else {
                        match spec_plugin_run(d, pos + 4, eff, old(r).version, len) {
                            Some(run_end) => {
                                &&& res matches Ok(s) && s.data@.len() == len
                                &&& final(r).position == run_end
                            },
                            None => res is Err,
                        }
                    }
                }
            }),
    {
        let len = match r.read_i32() {
            Ok(v) => v,
            Err(e) => {
                return Err(DecodeError::Io(e));
            }
        };
        if len < 0 {
            return Err(DecodeError::InvalidLength);
        }
        let mut data: Vec<PlugIn> = Vec::new();
        let mut i: i32 = 0;
        while i < len
            invariant
                0 <= i <= len,
                data@.len() == i,
                r.data@ == old(r).data@,
                r.version == old(r).version,
                r.limit == old(r).limit,
                old(r).position + 4 <= old(r).spec_eff_len(),
                len == le_i32(old(r).data@.subrange(old(r).position as int, old(r).position + 4)),
                spec_plugin_run(
                    old(r).data@,
                    old(r).position + 4,
                    old(r).spec_eff_len(),
                    old(r).version,
                    len as int,
                ) == spec_plugin_run(
                    old(r).data@,
                    r.position as int,
                    old(r).spec_eff_len(),
                    old(r).version,
                    len - i,
                ),
            decreases len - i,
        {
            let ghost p_before = r.position as int;
            let item = match PlugIn::deserialize(r) {
                Ok(v) => v,
                Err(e) => {
                    proof {
                        assert(!spec_plugin_ok(
                            old(r).data@,
                            p_before,
                            old(r).spec_eff_len(),
                            old(r).version,
                        ));
                    }
                    return Err(e);
                }
            };
            proof {
                assert(spec_plugin_ok(
                    old(r).data@,
                    p_before,
                    old(r).spec_eff_len(),
                    old(r).version,
                ));
            }
            data.push(item);
            i = i + 1;
        }
        Ok(Sequence { data })
    }
}

/// Unit system and tolerances. The record decodes no fields; the
/// enclosing table entry is advanced past as a whole.
#[derive(Debug)]
pub struct UnitsAndTolerances {}

impl UnitsAndTolerances {
    /// Reads nothing and always succeeds; the table walker skips the
    /// entry's payload.
    pub fn deserialize(r: &mut Reader) -> (res: Result<UnitsAndTolerances, DecodeError>)
        ensures
            *final(r) == *old(r),
            res is Ok,
    {
        Ok(UnitsAndTolerances {  })
    }
}

impl Default for UnitsAndTolerances {
    fn default() -> (r: UnitsAndTolerances) {
        UnitsAndTolerances {  }
    }
}

/// Render or analysis mesh quality parameters.
#[derive(Debug)]
pub struct MeshParameters {
    pub compute_curvature: bool,
}

/// What decoding mesh parameters at `pos` in a window ending at `eff`
/// yields: the result and the final cursor position `end`.
pub open spec fn spec_mesh_parameters_post(
    d: Seq<u8>,
    pos: int,
    eff: int,
    res: Result<MeshParameters, DecodeError>,
    end: int,
) -> bool {
    if pos + 1 > eff {
        res is Err
    } else {
        let version_byte = d.subrange(pos, pos + 1)[0] as int;
        if version_byte / 16 != 1 {
            &&& res matches Ok(m) && m.compute_curvature == false
            &&& end == pos + 1
        } else if pos + 5 > eff {
            res is Err
        } else {
            &&& res matches Ok(m)
            &&& m.compute_curvature == (le_i32(d.subrange(pos + 1, pos + 5)) != 0)
            &&& end == pos + 5
        }
    }
}

impl MeshParameters {
    /// Reads a chunk version byte; with a major version other than one
    /// the record keeps its default, otherwise the flag follows.
    pub fn deserialize(r: &mut Reader) -> (res: Result<MeshParameters, DecodeError>)
        ensures
            final(r).same_context(old(r)),
            spec_mesh_parameters_post(
                old(r).data@,
                old(r).position as int,
                old(r).spec_eff_len(),
                res,
                final(r).position as int,
            ),
    {
        let version = ChunkVersion::deserialize(r)?;
        if version.major() != 1 {
            return Ok(MeshParameters { compute_curvature: false });
        }
        let flag = BoolFromI32::deserialize(r)?;
        Ok(MeshParameters { compute_curvature: flag.0 })
    }
}

impl Default for MeshParameters {
    fn default() -> (r: MeshParameters)
        ensures
            r.compute_curvature == false,
    {
        MeshParameters { compute_curvature: false }
    }
}

/// What decoding the annotation settings at `pos` in a window ending at
/// `eff` yields: the result and the final cursor position `end`.
pub open spec fn spec_annotation_post(
    d: Seq<u8>,
    pos: int,
    eff: int,
    res: Result<Annotation, DecodeError>,
    end: int,
) -> bool {
    if pos + 1 > eff {
        res is Err
    } else {
        let version_byte = d.subrange(pos, pos + 1)[0] as int;
        let minor = version_byte % 16;
        if version_byte / 16 != 1 {
            &&& res matches Ok(a) && Annotation::spec_default(a)
            &&& end == pos + 1
        } else if pos + 85 > eff {
            res is Err
        } else {
            match spec_wstring_at(d, pos + 85, eff) {
                Some((face, p1)) => {
                    let tail_len: int = if minor == 0 {
                        0
                    } else if minor == 1 {
                        9
                    } else if minor == 2 {
                        18
                    } else {
                        20
                    };
                    if p1 + tail_len > eff {
                        res is Err
                    } else {
                        &&& res matches Ok(a)
                        &&& a.dim_scale == le_bytes(d.subrange(pos + 1, pos + 9))
                        &&& a.text_height == le_bytes(d.subrange(pos + 9, pos + 17))
                        &&& a.dim_exe == le_bytes(d.subrange(pos + 17, pos + 25))
                        &&& a.dim_exo == le_bytes(d.subrange(pos + 25, pos + 33))
                        &&& a.arrow_length == le_bytes(d.subrange(pos + 33, pos + 41))
                        &&& a.arrow_width == le_bytes(d.subrange(pos + 41, pos + 49))
                        &&& a.center_mark == le_bytes(d.subrange(pos + 49, pos + 57))
                        &&& a.dim_units == le_i32(d.subrange(pos + 57, pos + 61))
                        &&& a.arrow_type == le_i32(d.subrange(pos + 61, pos + 65))
                        &&& a.angular_units == le_i32(d.subrange(pos + 65, pos + 69))
                        &&& a.length_format == le_i32(d.subrange(pos + 69, pos + 73))
                        &&& a.angle_format == le_i32(d.subrange(pos + 73, pos + 77))
                        &&& a.resolution == le_i32(d.subrange(pos + 81, pos + 85))
                        &&& a.face_name@ == face
                        &&& end == p1 + tail_len
                        &&& if minor == 0 {
                            Annotation::spec_gated_default(a)
                        } else {
                            &&& a.world_view_text_scale == le_bytes(d.subrange(p1, p1 + 8))
                            &&& a.enable_annotation_scaling == le_bytes(
                                d.subrange(p1 + 8, p1 + 9),
                            )
                            &&& if minor == 1 {
                                &&& a.world_view_hatch_scale == 0
                                &&& a.enable_hatch_scaling == 0
                                &&& a.enable_model_space_annotation_scaling == 0
                                &&& a.enable_layout_space_annotation_scaling == 0
                            } else {
                                &&& a.world_view_hatch_scale == le_bytes(
                                    d.subrange(p1 + 9, p1 + 17),
                                )
                                &&& a.enable_hatch_scaling == le_bytes(
                                    d.subrange(p1 + 17, p1 + 18),
                                )
                                &&& if minor == 2 {
                                    &&& a.enable_model_space_annotation_scaling == 0
                                    &&& a.enable_layout_space_annotation_scaling == 0
                                } else {
                                    &&& a.enable_model_space_annotation_scaling == le_bytes(
                                        d.subrange(p1 + 18, p1 + 19),
                                    )
                                    &&& a.enable_layout_space_annotation_scaling == le_bytes(
                                        d.subrange(p1 + 19, p1 + 20),
                                    )
                                }
                            }
                        }
                    }
                },
                None => res is Err,
            }
        }
    }
}

/// Annotation settings. The seven scale fields hold raw 64-bit
/// little-endian floating-point encodings. Fields past the face name
/// exist only from certain chunk minor versions on and otherwise keep
/// their defaults.
#[derive(Debug)]
pub struct Annotation {
    pub dim_scale: u64,
    pub text_height: u64,
    pub dim_exe: u64,
    pub dim_exo: u64,
    pub arrow_length: u64,
    pub arrow_width: u64,
    pub center_mark: u64,
    pub dim_units: i32,
    pub arrow_type: i32,
    pub angular_units: i32,
    pub length_format: i32,
    pub angle_format: i32,
    pub resolution: i32,
    pub face_name: String,
    pub world_view_text_scale: u64,
    pub enable_annotation_scaling: u8,
    pub world_view_hatch_scale: u64,
    pub enable_hatch_scaling: u8,
    pub enable_model_space_annotation_scaling: u8,
    pub enable_layout_space_annotation_scaling: u8,
}

impl Annotation {
    /// The record with every field zero or empty.
    pub open spec fn spec_default(a: Annotation) -> bool {
        &&& a.dim_scale == 0
        &&& a.text_height == 0
        &&& a.dim_exe == 0
        &&& a.dim_exo == 0
        &&& a.arrow_length == 0
        &&& a.arrow_width == 0
        &&& a.center_mark == 0
        &&& a.dim_units == 0
        &&& a.arrow_type == 0
        &&& a.angular_units == 0
        &&& a.length_format == 0
        &&& a.angle_format == 0
        &&& a.resolution == 0
        &&& a.face_name@ == Seq::<char>::empty()
        &&& Annotation::spec_gated_default(a)
    }

    /// The version-gated fields in their default state.
    pub open spec fn spec_gated_default(a: Annotation) -> bool {
        &&& a.world_view_text_scale == 0
        &&& a.enable_annotation_scaling == 0
        &&& a.world_view_hatch_scale == 0
        &&& a.enable_hatch_scaling == 0
        &&& a.enable_model_space_annotation_scaling == 0
        &&& a.enable_layout_space_annotation_scaling == 0
    }

    /// Reads a chunk version byte. With a major version other than one
    /// the record keeps its defaults. Otherwise the fixed fields follow:
    /// seven raw scales, five 32-bit codes, a discarded 32-bit pad, the
    /// resolution and the face name; fields after that appear only when
    /// the minor version passes their threshold and keep their defaults
    /// otherwise.
    pub fn deserialize(r: &mut Reader) -> (res: Result<Annotation, DecodeError>)
        ensures
            final(r).same_context(old(r)),
            spec_annotation_post(
                old(r).data@,
                old(r).position as int,
                old(r).spec_eff_len(),
                res,
                final(r).position as int,
            ),
    {
        let version = ChunkVersion::deserialize(r)?;
        if version.major() != 1 {
            return Ok(Annotation::default_record());
        }
        let dim_scale = read_scale(r)?;
        let text_height = read_scale(r)?;
        let dim_exe = read_scale(r)?;
        let dim_exo = read_scale(r)?;
        let arrow_length = read_scale(r)?;
        let arrow_width = read_scale(r)?;
        let center_mark = read_scale(r)?;
        let dim_units = read_code(r)?;
        let arrow_type = read_code(r)?;
        let angular_units = read_code(r)?;
        let length_format = read_code(r)?;
        let angle_format = read_code(r)?;
        let _pad = read_code(r)?;
        let resolution = read_code(r)?;
        let face_name = WStringWithLength::deserialize(r)?;
        let mut record = Annotation {
            dim_scale,
            text_height,
            dim_exe,
            dim_exo,
            arrow_length,
            arrow_width,
            center_mark,
            dim_units,
            arrow_type,
            angular_units,
            length_format,
            angle_format,
            resolution,
            face_name: face_name.0,
            world_view_text_scale: 0,
            enable_annotation_scaling: 0,
            world_view_hatch_scale: 0,
            enable_hatch_scaling: 0,
            enable_model_space_annotation_scaling: 0,
            enable_layout_space_annotation_scaling: 0,
        };
        if version.minor() > 0 {
            record.world_view_text_scale = read_scale(r)?;
            record.enable_annotation_scaling = read_byte(r)?;
        }
        if version.minor() > 1 {
            record.world_view_hatch_scale = read_scale(r)?;
            record.enable_hatch_scaling = read_byte(r)?;
        }
        if version.minor() > 2 {
            record.enable_model_space_annotation_scaling = read_byte(r)?;
            record.enable_layout_space_annotation_scaling = read_byte(r)?;
        }
        Ok(record)
    }

    /// Every field zero or empty.
    pub fn default_record() -> (r: Annotation)
        ensures
            Annotation::spec_default(r),
    {
        Annotation {
            dim_scale: 0,
            text_height: 0,
            dim_exe: 0,
            dim_exo: 0,
            arrow_length: 0,
            arrow_width: 0,
            center_mark: 0,
            dim_units: 0,
            arrow_type: 0,
            angular_units: 0,
            length_format: 0,
            angle_format: 0,
            resolution: 0,
            face_name: String::new(),
            world_view_text_scale: 0,
            enable_annotation_scaling: 0,
            world_view_hatch_scale: 0,
            enable_hatch_scaling: 0,
            enable_model_space_annotation_scaling: 0,
            enable_layout_space_annotation_scaling: 0,
        }
    }
}

impl Default for Annotation {
    /// Every field zero or empty.
    fn default() -> (r: Annotation)
        ensures
            Annotation::spec_default(r),
    {
        Annotation::default_record()
    }
}

/// Reads one raw 64-bit floating-point encoding.
fn read_scale(r: &mut Reader) -> (res: Result<u64, DecodeError>)
    ensures
        final(r).same_context(old(r)),
        ({
            let pos = old(r).position as int;
            let eff = old(r).spec_eff_len();
            if pos + 8 <= eff {
                &&& res matches Ok(v) && v == le_bytes(old(r).data@.subrange(pos, pos + 8))
                &&& final(r).position == pos + 8
            } else {
                &&& res is Err
                &&& final(r).position == old(r).spec_pos_after_failed_read(pos)
            }
        }),
{
    match r.read_u64() {
        Ok(v) => Ok(v),
        Err(e) => Err(DecodeError::Io(e)),
    }
}

/// Reads one 32-bit code.
fn read_code(r: &mut Reader) -> (res: Result<i32, DecodeError>)
    ensures
        final(r).same_context(old(r)),
        ({
            let pos = old(r).position as int;
            let eff = old(r).spec_eff_len();
            if pos + 4 <= eff {
                &&& res matches Ok(v) && v == le_i32(old(r).data@.subrange(pos, pos + 4))
                &&& final(r).position == pos + 4
            } else {
                &&& res is Err
                &&& final(r).position == old(r).spec_pos_after_failed_read(pos)
            }
        }),
{
    match r.read_i32() {
        Ok(v) => Ok(v),
        Err(e) => Err(DecodeError::Io(e)),
    }
}

/// Reads one byte-sized flag.
fn read_byte(r: &mut Reader) -> (res: Result<u8, DecodeError>)
    ensures
        final(r).same_context(old(r)),
        ({
            let pos = old(r).position as int;
            let eff = old(r).spec_eff_len();
            if pos + 1 <= eff {
                &&& res matches Ok(v) && v == le_bytes(old(r).data@.subrange(pos, pos + 1))
                &&& final(r).position == pos + 1
            } else {
                &&& res is Err
                &&& final(r).position == old(r).spec_pos_after_failed_read(pos)
            }
        }),
{
    match r.read_u8() {
        Ok(v) => Ok(v),
        Err(e) => Err(DecodeError::Io(e)),
    }
}

/// What decoding the attribute settings at `pos` in a window ending at
/// `eff` yields: the result and the final cursor position `end`.
pub open spec fn spec_attributes_post(
    d: Seq<u8>,
    pos: int,
    eff: int,
    res: Result<Attributes, DecodeError>,
    end: int,
) -> bool {
    if pos + 1 > eff {
        res is Err
    } else {
        let version_byte = d.subrange(pos, pos + 1)[0] as int;
        if version_byte / 16 != 1 {
            &&& res matches Ok(a) && a.line_type_display_scale == 0
            &&& end == pos + 1
        } else if pos + 9 > eff {
            res is Err
        } else {
            &&& res matches Ok(a)
            &&& a.line_type_display_scale == le_bytes(d.subrange(pos + 1, pos + 9))
            &&& end == pos + 9
        }
    }
}

/// Display attribute settings. The scale holds a raw 64-bit
/// floating-point encoding.
#[derive(Debug)]
pub struct Attributes {
    pub line_type_display_scale: u64,
}

impl Attributes {
    /// Reads a chunk version byte; with a major version other than one
    /// the record keeps its default, otherwise the scale follows.
    pub fn deserialize(r: &mut Reader) -> (res: Result<Attributes, DecodeError>)
        ensures
            final(r).same_context(old(r)),
            spec_attributes_post(
                old(r).data@,
                old(r).position as int,
                old(r).spec_eff_len(),
                res,
                final(r).position as int,
            ),
    {
        let version = ChunkVersion::deserialize(r)?;
        if version.major() != 1 {
            return Ok(Attributes { line_type_display_scale: 0 });
        }
        let scale = read_scale(r)?;
        Ok(Attributes { line_type_display_scale: scale })
    }
}

impl Default for Attributes {
    fn default() -> (r: Attributes)
        ensures
            r.line_type_display_scale == 0,
    {
        Attributes { line_type_display_scale: 0 }
    }
}

/// What decoding the current colour at `pos` in a window ending at
/// `eff` yields: the result and the final cursor position `end`.
pub open spec fn spec_current_color_post(
    d: Seq<u8>,
    pos: int,
    eff: int,
    res: Result<CurrentColor, DecodeError>,
    end: int,
) -> bool {
    if pos + 8 <= eff {
        &&& res matches Ok(c)
        &&& c.color == le_i32(d.subrange(pos, pos + 4))
        &&& c.source == le_i32(d.subrange(pos + 4, pos + 8))
        &&& end == pos + 8
    } else {
        res is Err
    }
}

/// The current drawing colour and its source.
#[derive(Debug)]
pub struct CurrentColor {
    pub color: i32,
    pub source: i32,
}

impl CurrentColor {
    /// Reads the colour and its source.
    pub fn deserialize(r: &mut Reader) -> (res: Result<CurrentColor, DecodeError>)
        ensures
            final(r).same_context(old(r)),
            spec_current_color_post(
                old(r).data@,
                old(r).position as int,
                old(r).spec_eff_len(),
                res,
                final(r).position as int,
            ),
    {
        let color = read_code(r)?;
        let source = read_code(r)?;
        Ok(CurrentColor { color, source })
    }
}

impl Default for CurrentColor {
    fn default() -> (r: CurrentColor)
        ensures
            r.color == 0,
            r.source == 0,
    {
        CurrentColor { color: 0, source: 0 }
    }
}

/// The mesh parameters `m` are what decodes at `pos`.
pub open spec fn spec_entry_mesh(d: Seq<u8>, pos: int, eff: int, m: MeshParameters) -> bool {
    exists|p: int| spec_mesh_parameters_post(d, pos, eff, Ok(m), p)
}

/// The annotation settings `a` are what decodes at `pos`.
pub open spec fn spec_entry_annotation(d: Seq<u8>, pos: int, eff: int, a: Annotation) -> bool {
    exists|p: int| spec_annotation_post(d, pos, eff, Ok(a), p)
}

/// The attribute settings `a` are what decodes at `pos`.
pub open spec fn spec_entry_attributes(d: Seq<u8>, pos: int, eff: int, a: Attributes) -> bool {
    exists|p: int| spec_attributes_post(d, pos, eff, Ok(a), p)
}

/// The current colour `c` is what decodes at `pos`.
pub open spec fn spec_entry_current_color(
    d: Seq<u8>,
    pos: int,
    eff: int,
    c: CurrentColor,
) -> bool {
    exists|p: int| spec_current_color_post(d, pos, eff, Ok(c), p)
}

/// What one entry of the wrapped settings table does. `before` and
/// `after` are the record around the entry, the result says whether the
/// walk continues, and `end` is where the cursor stands afterwards: at
/// the end of the entry's header for inline entries, one past its
/// payload otherwise.
pub open spec fn spec_settings_entry_post(
    d: Seq<u8>,
    pos: int,
    eff: int,
    version: FileVersion,
    before: Settings,
    after: Settings,
    res: Result<bool, DecodeError>,
    end: int,
) -> bool {
    let w = spec_size_of_length(version) as int;
    let hdr_end = pos + 4 + w;
    if hdr_end > eff {
        res is Err
    } else {
        let tc = le_bytes(d.subrange(pos, pos + 4)) as u32;
        let value = if w == 8 {
            le_i64(d.subrange(pos + 4, pos + 12))
        } else if spec_is_unsigned(tc) {
            le_bytes(d.subrange(pos + 4, pos + 8))
        } else {
            le_i32(d.subrange(pos + 4, pos + 8))
        };
        if tc == typecode::ENDOFTABLE {
            &&& res matches Ok(more) && more == false
            &&& after == before
            &&& end == hdr_end
        } else if spec_is_inline(tc) {
            &&& res matches Ok(more) && more == true
            &&& after == before
            &&& end == hdr_end
        } else if value <= 0 || hdr_end + value > u64::MAX {
            res is Err
        } else {
            let body_eff = vstd::math::min(hdr_end + value, eff);
            res matches Ok(more) ==> {
                &&& more == true
                &&& end == hdr_end + value
                &&& if tc == typecode::SETTINGS_PLUGINLIST {
                    after == (Settings { plugin_list: after.plugin_list, ..before })
                } else if tc == typecode::SETTINGS_UNITSANDTOLS {
                    after == (Settings {
                        units_and_tolerances: after.units_and_tolerances,
                        ..before
                    })
                } else if tc == typecode::SETTINGS_RENDERMESH {
                    &&& after == (Settings { render_mesh: after.render_mesh, ..before })
                    &&& spec_entry_mesh(d, hdr_end, body_eff, after.render_mesh)
                } else if tc == typecode::SETTINGS_ANALYSISMESH {
                    &&& after == (Settings { analysis_mesh: after.analysis_mesh, ..before })
                    &&& spec_entry_mesh(d, hdr_end, body_eff, after.analysis_mesh)
                } else if tc == typecode::SETTINGS_ANNOTATION {
                    &&& after == (Settings { anotation: after.anotation, ..before })
                    &&& spec_entry_annotation(d, hdr_end, body_eff, after.anotation)
                } else if tc == typecode::SETTINGS_MODEL_URL {
                    &&& after == (Settings { model_url: after.model_url, ..before })
                    &&& spec_wstring_at(d, hdr_end, body_eff) matches Some(parsed)
                        && after.model_url@ == parsed.0
                } else if tc == typecode::SETTINGS_ATTRIBUTES {
                    &&& after == (Settings { attributes: after.attributes, ..before })
                    &&& spec_entry_attributes(d, hdr_end, body_eff, after.attributes)
                } else if tc == typecode::SETTINGS_CURRENT_COLOR {
                    &&& after == (Settings { current_color: after.current_color, ..before })
                    &&& spec_entry_current_color(d, hdr_end, body_eff, after.current_color)
                } else {
                    after == before
                }
            }
        }
    }
}

/// Decodes one entry of the wrapped settings table into the record
/// field its typecode names, advancing past the entry in full.
#[verifier::rlimit(60)]
fn settings_table_entry(r: &mut Reader, table: &mut Settings) -> (res: Result<bool, DecodeError>)
    ensures
        final(r).data@ == old(r).data@,
        final(r).version == old(r).version,
        res is Ok ==> final(r).limit == old(r).limit,
        res matches Ok(more) ==> final(r).position >= old(r).position + 8,
        res is Err ==> *final(table) == *old(table),
        spec_settings_entry_post(
            old(r).data@,
            old(r).position as int,
            old(r).spec_eff_len(),
            old(r).version,
            *old(table),
            *final(table),
            res,
            final(r).position as int,
        ),
{
    let begin = Begin::deserialize(r)?;
    let tc = begin.typecode;
    if tc == typecode::ENDOFTABLE {
        return Ok(false);
    }
    if is_inline_typecode(tc) {
        return Ok(true);
    }
    let chunk = Chunk::open_body(r, begin)?;
    let ghost d = old(r).data@;
    let ghost hdr_end = begin.initial_position as int;
    let ghost body_eff = vstd::math::min(hdr_end + begin.value, old(r).spec_eff_len());
    proof {
        assert(r.spec_eff_len() == body_eff);
    }
    if tc == typecode::SETTINGS_PLUGINLIST {
        table.plugin_list = match Sequence::<PlugIn>::deserialize(r) {
            Ok(list) => list,
            Err(e) => {
                chunk.close(r);
                return Err(e);
            }
        };
    } else if tc == typecode::SETTINGS_UNITSANDTOLS {
        table.units_and_tolerances = match UnitsAndTolerances::deserialize(r) {
            Ok(u) => u,
            Err(e) => {
                chunk.close(r);
                return Err(e);
            }
        };
    } else if tc == typecode::SETTINGS_RENDERMESH {
        table.render_mesh = match MeshParameters::deserialize(r) {
            Ok(m) => m,
            Err(e) => {
                chunk.close(r);
                return Err(e);
            }
        };
        proof {
            let mid = r.position as int;
            assert(spec_mesh_parameters_post(d, hdr_end, body_eff, Ok(table.render_mesh), mid));
            assert(spec_entry_mesh(d, hdr_end, body_eff, table.render_mesh));
        }
    } else if tc == typecode::SETTINGS_ANALYSISMESH {
        table.analysis_mesh = match MeshParameters::deserialize(r) {
            Ok(m) => m,
            Err(e) => {
                chunk.close(r);
                return Err(e);
            }
        };
        proof {
            let mid = r.position as int;
            assert(spec_mesh_parameters_post(d, hdr_end, body_eff, Ok(table.analysis_mesh), mid));
            assert(spec_entry_mesh(d, hdr_end, body_eff, table.analysis_mesh));
        }
    } else if tc == typecode::SETTINGS_ANNOTATION {
        table.anotation = match Annotation::deserialize(r) {
            Ok(a) => a,
            Err(e) => {
                chunk.close(r);
                return Err(e);
            }
        };
        proof {
            let mid = r.position as int;
            assert(spec_annotation_post(d, hdr_end, body_eff, Ok(table.anotation), mid));
            assert(spec_entry_annotation(d, hdr_end, body_eff, table.anotation));
        }
    } else if tc == typecode::SETTINGS_MODEL_URL {
        table.model_url = match WStringWithLength::deserialize(r) {
            Ok(s) => s.0,
            Err(e) => {
                chunk.close(r);
                return Err(e);
            }
        };
    } else if tc == typecode::SETTINGS_ATTRIBUTES {
        table.attributes = match Attributes::deserialize(r) {
            Ok(a) => a,
            Err(e) => {
                chunk.close(r);
                return Err(e);
            }
        };
        proof {
            let mid = r.position as int;
            assert(spec_attributes_post(d, hdr_end, body_eff, Ok(table.attributes), mid));
            assert(spec_entry_attributes(d, hdr_end, body_eff, table.attributes));
        }
    } else if tc == typecode::SETTINGS_CURRENT_COLOR {
        table.current_color = match CurrentColor::deserialize(r) {
            Ok(c) => c,
            Err(e) => {
                chunk.close(r);
                return Err(e);
            }
        };
        proof {
            let mid = r.position as int;
            assert(spec_current_color_post(d, hdr_end, body_eff, Ok(table.current_color), mid));
            assert(spec_entry_current_color(d, hdr_end, body_eff, table.current_color));
        }
    }
    chunk.close(r);
    Ok(true)
}

/// All settings records of an archive.
#[derive(Debug)]
pub struct Settings {
    pub plugin_list: Sequence<PlugIn>,
    pub units_and_tolerances: UnitsAndTolerances,
    pub render_mesh: MeshParameters,
    pub analysis_mesh: MeshParameters,
    pub anotation: Annotation,
    pub model_url: String,
    pub attributes: Attributes,
    pub current_color: CurrentColor,
}

impl Settings {
    /// The record with every field in its default state.
    pub open spec fn spec_default(s: Settings) -> bool {
        &&& s.plugin_list.data@.len() == 0
        &&& s.render_mesh.compute_curvature == false
        &&& s.analysis_mesh.compute_curvature == false
        &&& Annotation::spec_default(s.anotation)
        &&& s.model_url@ == Seq::<char>::empty()
        &&& s.attributes.line_type_display_scale == 0
        &&& s.current_color.color == 0
        &&& s.current_color.source == 0
    }
}

impl Default for Settings {
    /// Every record in its default state.
    fn default() -> (r: Settings)
        ensures
            Settings::spec_default(r),
    {
        Settings {
            plugin_list: Sequence { data: Vec::new() },
            units_and_tolerances: UnitsAndTolerances::default(),
            render_mesh: MeshParameters::default(),
            analysis_mesh: MeshParameters::default(),
            anotation: Annotation::default_record(),
            model_url: String::new(),
            attributes: Attributes::default(),
            current_color: CurrentColor::default(),
        }
    }
}

/// One possible outcome of walking the settings table's entries from
/// `pos` in a window ending at `eff`, with the record `before`: the
/// entry at `pos` fails and the walk fails the same way, or it is the
/// end-of-table sentinel and the record is returned as it stands, or it
/// fills a field and the walk continues after the entry.
pub open spec fn spec_settings_walk(
    d: Seq<u8>,
    pos: int,
    eff: int,
    version: FileVersion,
    before: Settings,
    res: Result<Settings, DecodeError>,
    end: int,
) -> bool
    decreases
            (if pos <= eff {
                eff - pos + 1
            } else {
                0int
            }),
{
    ||| (res matches Err(e) && spec_settings_entry_post(
        d,
        pos,
        eff,
        version,
        before,
        before,
        Err(e),
        end,
    ))
    ||| (res matches Ok(t) && t == before && spec_settings_entry_post(
        d,
        pos,
        eff,
        version,
        before,
        before,
        Ok(false),
        end,
    ))
    ||| (exists|mid: Settings, step_end: int|
        {
            &&& #[trigger] spec_settings_entry_post(
                d,
                pos,
                eff,
                version,
                before,
                mid,
                Ok(true),
                step_end,
            )
            &&& spec_settings_walk(d, step_end, eff, version, mid, res, end)
        })
}

/// The result `res` is an outcome of walking the settings table's
/// entries from `pos` in a window ending at `eff`, starting from the
/// record in its default state.
pub open spec fn spec_settings_outcome(
    d: Seq<u8>,
    pos: int,
    eff: int,
    version: FileVersion,
    res: Result<Settings, DecodeError>,
) -> bool {
    exists|init: Settings, inner_end: int|
        {
            &&& #[trigger] spec_settings_walk(d, pos, eff, version, init, res, inner_end)
            &&& Settings::spec_default(init)
        }
}

/// What decoding the wrapped settings table at `pos` yields: the outer
/// header must fit and declare a positive, representable payload; a
/// typecode other than the settings table leaves the record at its
/// defaults with the cursor one past the outer chunk; the settings
/// table is walked inside the chunk's window, and on success the cursor
/// again lands one past the outer chunk.
pub open spec fn spec_settings_post(
    d: Seq<u8>,
    pos: int,
    eff: int,
    version: FileVersion,
    res: Result<Settings, DecodeError>,
    end: int,
) -> bool {
    let w = spec_size_of_length(version) as int;
    let hdr_end = pos + 4 + w;
    let tc = le_bytes(d.subrange(pos, pos + 4)) as u32;
    let value = if w == 8 {
        le_i64(d.subrange(pos + 4, pos + 12))
    } else if spec_is_unsigned(tc) {
        le_bytes(d.subrange(pos + 4, pos + 8))
    } else {
        le_i32(d.subrange(pos + 4, pos + 8))
    };
    if hdr_end > eff {
        res is Err
    } else if value <= 0 || hdr_end + value > u64::MAX {
        res is Err
    } else {
        let outer_end = hdr_end + value;
        let body_eff = vstd::math::min(outer_end, eff);
        if tc != typecode::SETTINGS_TABLE {
            &&& res matches Ok(s) && Settings::spec_default(s)
            &&& end == outer_end
        } else {
            &&& (res is Ok ==> end == outer_end)
            &&& spec_settings_outcome(d, hdr_end, body_eff, version, res)
        }
    }
}

impl Settings {
    /// Opens the outer table chunk. If its typecode is not the settings
    /// table, the whole chunk is skipped and the record stays at its
    /// defaults. Otherwise the keyed entries inside are walked until the
    /// end-of-table sentinel: a recognised typecode fills its record, an
    /// unknown one is skipped, and every entry is advanced past in full.
    pub fn deserialize(r: &mut Reader) -> (res: Result<Settings, DecodeError>)
        ensures
            final(r).data@ == old(r).data@,
            final(r).version == old(r).version,
            res matches Ok(_) ==> final(r).limit == old(r).limit,
            spec_settings_post(
                old(r).data@,
                old(r).position as int,
                old(r).spec_eff_len(),
                old(r).version,
                res,
                final(r).position as int,
            ),
    {
        let mut table = Settings::default();
        let ghost init = table;
        let outer_begin = Begin::deserialize(r)?;
        let outer = Chunk::open_body(r, outer_begin)?;
        let ghost d = old(r).data@;
        let ghost fv = old(r).version;
        let ghost start = outer.offset as int;
        let ghost body_eff = r.spec_eff_len();
        if outer_begin.typecode == typecode::SETTINGS_TABLE {
            loop
                invariant_except_break
                    forall|fr: Result<Settings, DecodeError>, fe: int|
                        #[trigger] spec_settings_walk(
                            d,
                            r.position as int,
                            body_eff,
                            fv,
                            table,
                            fr,
                            fe,
                        ) ==> spec_settings_walk(d, start, body_eff, fv, init, fr, fe),
                invariant
                    r.data@ == old(r).data@,
                    r.version == old(r).version,
                    d == old(r).data@ && fv == old(r).version,
                    Settings::spec_default(init),
                    r.limit == if outer.spec_end() <= outer.prev_limit {
                        outer.spec_end() as u64
                    } else {
                        outer.prev_limit
                    },
                    body_eff == r.spec_eff_len(),
                    outer.wf(),
                    outer.spec_end() <= u64::MAX,
                    start == old(r).position + 4 + spec_size_of_length(old(r).version),
                    old(r).position + 4 + spec_size_of_length(old(r).version) <= old(
                        r,
                    ).spec_eff_len(),
                    outer_begin.typecode == le_bytes(
                        old(r).data@.subrange(old(r).position as int, old(r).position + 4),
                    ) as u32,
                    outer_begin.typecode == typecode::SETTINGS_TABLE,
                    0 < outer_begin.value,
                    outer.spec_end() == start + outer_begin.value,
                    outer.prev_limit == old(r).limit,
                    body_eff == vstd::math::min(outer.spec_end(), old(r).spec_eff_len()),
                    outer_begin.value == ({
                        let w = spec_size_of_length(old(r).version) as int;
                        let pos = old(r).position as int;
                        if w == 8 {
                            le_i64(old(r).data@.subrange(pos + 4, pos + 12))
                        } else if spec_is_unsigned(outer_begin.typecode) {
                            le_bytes(old(r).data@.subrange(pos + 4, pos + 8))
                        } else {
                            le_i32(old(r).data@.subrange(pos + 4, pos + 8))
                        }
                    }),
                ensures
                    r.data@ == old(r).data@,
                    r.version == old(r).version,
                    r.limit == if outer.spec_end() <= outer.prev_limit {
                        outer.spec_end() as u64
                    } else {
                        outer.prev_limit
                    },
                    spec_settings_walk(d, start, body_eff, fv, init, Ok(table), r.position as int),
                decreases u64::MAX - r.position,
            {
                let ghost p_before = r.position as int;
                let ghost t_before = table;
                let more = match settings_table_entry(r, &mut table) {
                    Ok(m) => m,
                    Err(e) => {
                        proof {
                            assert(spec_settings_walk(
                                d,
                                p_before,
                                body_eff,
                                fv,
                                t_before,
                                Err::<Settings, DecodeError>(e),
                                r.position as int,
                            ));
                            assert(spec_settings_walk(
                                d,
                                start,
                                body_eff,
                                fv,
                                init,
                                Err::<Settings, DecodeError>(e),
                                r.position as int,
                            ));
                            assert(spec_settings_outcome(
                                d,
                                start,
                                body_eff,
                                fv,
                                Err::<Settings, DecodeError>(e),
                            ));
                        }
                        return Err(e);
                    }
                };
                if !more {
                    proof {
                        assert(spec_settings_walk(
                            d,
                            p_before,
                            body_eff,
                            fv,
                            t_before,
                            Ok::<Settings, DecodeError>(table),
                            r.position as int,
                        ));
                    }
                    break ;
                }
                proof {
                    let ghost p_after = r.position as int;
                    let ghost t_after = table;
                    assert forall|fr: Result<Settings, DecodeError>, fe: int| #[trigger]
                        spec_settings_walk(d, p_after, body_eff, fv, t_after, fr, fe) implies
                        spec_settings_walk(d, start, body_eff, fv, init, fr, fe) by {
                        assert(spec_settings_entry_post(
                            d,
                            p_before,
                            body_eff,
                            fv,
                            t_before,
                            t_after,
                            Ok(true),
                            p_after,
                        ));
                        assert(spec_settings_walk(d, p_before, body_eff, fv, t_before, fr, fe));
                    }
                }
            }
        }
        let ghost inner_end = r.position as int;
        outer.close(r);
        proof {
            if outer_begin.typecode == typecode::SETTINGS_TABLE {
                assert(spec_settings_walk(
                    d,
                    start,
                    body_eff,
                    fv,
                    init,
                    Ok::<Settings, DecodeError>(table),
                    inner_end,
                ));
                assert(spec_settings_outcome(
                    d,
                    start,
                    body_eff,
                    fv,
                    Ok::<Settings, DecodeError>(table),
                ));
            }
        }
        Ok(table)
    }
}

} // verus!
