//! The notes record of the properties table.

use vstd::prelude::*;

use crate::boolean::BoolFromI32;
use crate::chunk::Version as ChunkVersion;
use crate::error::DecodeError;
use crate::numbers::le_i32;
use crate::reader::Reader;
use crate::string::{spec_string_at, spec_wstring_at, StringWithLength, WStringWithLength};
use crate::version::Version as FileVersion;

verus! {

/// Notes as written by version 1 archives: visibility flag, window
/// rectangle, then the narrow text.
#[derive(Debug)]
pub struct NotesV1 {
    pub visible: i32,
    pub window_left: i32,
    pub window_top: i32,
    pub window_right: i32,
    pub window_bottom: i32,
    pub data: String,
}

/// Notes as written by version 2 archives: gated on chunk major
/// version 1; HTML flag, wide text, visibility flag, window rectangle.
#[derive(Debug)]
pub struct NotesV2 {
    pub html_encoded: bool,
    pub data: String,
    pub visible: bool,
    pub window_left: i32,
    pub window_top: i32,
    pub window_right: i32,
    pub window_bottom: i32,
}

/// Notes in either layout.
#[derive(Debug)]
pub enum Notes {
    V1(NotesV1),
    V2(NotesV2),
}

/// What decoding version 1 notes at `pos` in a window ending at `eff`
/// yields: the result and the final cursor position `end`.
pub open spec fn spec_notes_v1_post(
    d: Seq<u8>,
    pos: int,
    eff: int,
    res: Result<NotesV1, DecodeError>,
    end: int,
) -> bool {
    if pos + 20 > eff {
        res is Err
    } else {
        match spec_string_at(d, pos + 20, eff) {
            Some((text, text_end)) => {
                &&& res matches Ok(n)
                &&& n.visible == le_i32(d.subrange(pos, pos + 4))
                &&& n.window_left == le_i32(d.subrange(pos + 4, pos + 8))
                &&& n.window_top == le_i32(d.subrange(pos + 8, pos + 12))
                &&& n.window_right == le_i32(d.subrange(pos + 12, pos + 16))
                &&& n.window_bottom == le_i32(d.subrange(pos + 16, pos + 20))
                &&& n.data@ == text
                &&& end == text_end
            },
            None => res is Err,
        }
    }
}

impl NotesV1 {
    /// The record every field of which is zero or empty.
    pub open spec fn spec_default(n: NotesV1) -> bool {
        &&& n.visible == 0
        &&& n.window_left == 0
        &&& n.window_top == 0
        &&& n.window_right == 0
        &&& n.window_bottom == 0
        &&& n.data@ == Seq::<char>::empty()
    }

    /// Reads the five 32-bit fields and then the narrow text.
    pub fn deserialize(r: &mut Reader) -> (res: Result<NotesV1, DecodeError>)
        ensures
            final(r).same_context(old(r)),
            spec_notes_v1_post(
                old(r).data@,
                old(r).position as int,
                old(r).spec_eff_len(),
                res,
                final(r).position as int,
            ),
    {
        let visible = match r.read_i32() {
            Ok(v) => v,
            Err(e) => {
                return Err(DecodeError::Io(e));
            }
        };
        let window_left = match r.read_i32() {
            Ok(v) => v,
            Err(e) => {
                return Err(DecodeError::Io(e));
            }
        };
        let window_top = match r.read_i32() {
            Ok(v) => v,
            Err(e) => {
                return Err(DecodeError::Io(e));
            }
        };
        let window_right = match r.read_i32() {
            Ok(v) => v,
            Err(e) => {
                return Err(DecodeError::Io(e));
            }
        };
        let window_bottom = match r.read_i32() {
            Ok(v) => v,
            Err(e) => {
                return Err(DecodeError::Io(e));
            }
        };
        let data = StringWithLength::deserialize(r)?;
        Ok(
            NotesV1 {
                visible,
                window_left,
                window_top,
                window_right,
                window_bottom,
                data: data.0,
            },
        )
    }
}

impl Default for NotesV1 {
    /// Every field zero or empty.
    fn default() -> (r: NotesV1)
        ensures
            NotesV1::spec_default(r),
    {
        NotesV1 {
            visible: 0,
            window_left: 0,
            window_top: 0,
            window_right: 0,
            window_bottom: 0,
            data: String::new(),
        }
    }
}

/// What decoding version 2 notes at `pos` in a window ending at `eff`
/// yields: the result and the final cursor position `end`.
pub open spec fn spec_notes_v2_post(
    d: Seq<u8>,
    pos: int,
    eff: int,
    res: Result<NotesV2, DecodeError>,
    end: int,
) -> bool {
    if pos + 1 > eff {
        res is Err
    } else {
        let version_byte = d.subrange(pos, pos + 1)[0] as int;
        if version_byte / 16 != 1 {
            &&& res matches Ok(n) && NotesV2::spec_default(n)
            &&& end == pos + 1
        } else if pos + 5 > eff {
            res is Err
        } else {
            match spec_wstring_at(d, pos + 5, eff) {
                Some((text, p1)) => {
                    if p1 + 20 > eff {
                        res is Err
                    } else {
                        &&& res matches Ok(n)
                        &&& n.html_encoded == (le_i32(d.subrange(pos + 1, pos + 5)) != 0)
                        &&& n.data@ == text
                        &&& n.visible == (le_i32(d.subrange(p1, p1 + 4)) != 0)
                        &&& n.window_left == le_i32(d.subrange(p1 + 4, p1 + 8))
                        &&& n.window_top == le_i32(d.subrange(p1 + 8, p1 + 12))
                        &&& n.window_right == le_i32(d.subrange(p1 + 12, p1 + 16))
                        &&& n.window_bottom == le_i32(d.subrange(p1 + 16, p1 + 20))
                        &&& end == p1 + 20
                    }
                },
                None => res is Err,
            }
        }
    }
}

impl NotesV2 {
    /// The record every field of which is zero or empty, used when the
    /// version gate fails.
    pub open spec fn spec_default(n: NotesV2) -> bool {
        &&& n.html_encoded == false
        &&& n.data@ == Seq::<char>::empty()
        &&& n.visible == false
        &&& n.window_left == 0
        &&& n.window_top == 0
        &&& n.window_right == 0
        &&& n.window_bottom == 0
    }

    /// Reads a chunk version byte; with a major version other than one
    /// the record keeps its defaults, otherwise the fields follow.
    pub fn deserialize(r: &mut Reader) -> (res: Result<NotesV2, DecodeError>)
        ensures
            final(r).same_context(old(r)),
            spec_notes_v2_post(
                old(r).data@,
                old(r).position as int,
                old(r).spec_eff_len(),
                res,
                final(r).position as int,
            ),
    {
        let version = ChunkVersion::deserialize(r)?;
        if version.major() != 1 {
            return Ok(NotesV2::default_record());
        }
        let html_encoded = BoolFromI32::deserialize(r)?;
        let data = WStringWithLength::deserialize(r)?;
        let visible = BoolFromI32::deserialize(r)?;
        let window_left = match r.read_i32() {
            Ok(v) => v,
            Err(e) => {
                return Err(DecodeError::Io(e));
            }
        };
        let window_top = match r.read_i32() {
            Ok(v) => v,
            Err(e) => {
                return Err(DecodeError::Io(e));
            }
        };
        let window_right = match r.read_i32() {
            Ok(v) => v,
            Err(e) => {
                return Err(DecodeError::Io(e));
            }
        };
        let window_bottom = match r.read_i32() {
            Ok(v) => v,
            Err(e) => {
                return Err(DecodeError::Io(e));
            }
        };
        Ok(
            NotesV2 {
                html_encoded: html_encoded.0,
                data: data.0,
                visible: visible.0,
                window_left,
                window_top,
                window_right,
                window_bottom,
            },
        )
    }

    /// Every field zero or empty.
    pub fn default_record() -> (r: NotesV2)
        ensures
            NotesV2::spec_default(r),
    {
        NotesV2 {
            html_encoded: false,
            data: String::new(),
            visible: false,
            window_left: 0,
            window_top: 0,
            window_right: 0,
            window_bottom: 0,
        }
    }
}

impl Default for NotesV2 {
    /// Every field zero or empty.
    fn default() -> (r: NotesV2)
        ensures
            NotesV2::spec_default(r),
    {
        NotesV2::default_record()
    }
}

impl Notes {
    /// Selects the layout by the archive version of the reader and
    /// decodes that layout in full.
    pub fn deserialize(r: &mut Reader) -> (res: Result<Notes, DecodeError>)
        ensures
            final(r).same_context(old(r)),
            old(r).version == FileVersion::V1 ==> match res {
                Ok(n) => n matches Notes::V1(inner) && spec_notes_v1_post(
                    old(r).data@,
                    old(r).position as int,
                    old(r).spec_eff_len(),
                    Ok(inner),
                    final(r).position as int,
                ),
                Err(e) => spec_notes_v1_post(
                    old(r).data@,
                    old(r).position as int,
                    old(r).spec_eff_len(),
                    Err(e),
                    final(r).position as int,
                ),
            },
            old(r).version != FileVersion::V1 ==> match res {
                Ok(n) => n matches Notes::V2(inner) && spec_notes_v2_post(
                    old(r).data@,
                    old(r).position as int,
                    old(r).spec_eff_len(),
                    Ok(inner),
                    final(r).position as int,
                ),
                Err(e) => spec_notes_v2_post(
                    old(r).data@,
                    old(r).position as int,
                    old(r).spec_eff_len(),
                    Err(e),
                    final(r).position as int,
                ),
            },
    {
        if r.version() == FileVersion::V1 {
            match NotesV1::deserialize(r) {
                Ok(n) => Ok(Notes::V1(n)),
                Err(e) => Err(e),
            }
        } else {
            match NotesV2::deserialize(r) {
                Ok(n) => Ok(Notes::V2(n)),
                Err(e) => Err(e),
            }
        }
    }
}

impl Default for Notes {
    /// Version 1 notes with every field zero or empty.
    fn default() -> (r: Notes)
        ensures
            r matches Notes::V1(n) && NotesV1::spec_default(n),
    {
        Notes::V1(NotesV1::default())
    }
}

} // verus!
