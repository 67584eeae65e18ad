//! The revision history record of the properties table.

use vstd::prelude::*;

use crate::chunk::Version as ChunkVersion;
use crate::error::DecodeError;
use crate::numbers::le_i32;
use crate::reader::Reader;
use crate::string::{spec_string_at, spec_wstring_at, StringWithLength, WStringWithLength};
use crate::time::{spec_time_at, Time};
use crate::version::Version as FileVersion;

verus! {

/// Revision history as written by version 1 archives: narrow author
/// names, each timestamp followed by a discarded 32-bit pad, then the
/// revision count.
#[derive(Debug)]
pub struct RevisionHistoryV1 {
    pub created_by: String,
    pub create_time: Time,
    pub last_edited_by: String,
    pub last_edit_time: Time,
    pub revision_count: i32,
}

/// Revision history as written by version 2 archives: gated on chunk
/// major version 1, with wide author names and no padding.
#[derive(Debug)]
pub struct RevisionHistoryV2 {
    pub created_by: String,
    pub create_time: Time,
    pub last_edited_by: String,
    pub last_edit_time: Time,
    pub revision_count: i32,
}

/// Revision history in either layout.
#[derive(Debug)]
pub enum RevisionHistory {
    V1(RevisionHistoryV1),
    V2(RevisionHistoryV2),
}

/// What decoding a version 1 revision history at `pos` in a window
/// ending at `eff` yields: the result and the final cursor position.
pub open spec fn spec_revision_history_v1_post(
    d: Seq<u8>,
    pos: int,
    eff: int,
    res: Result<RevisionHistoryV1, DecodeError>,
    end: int,
) -> bool {
    match spec_string_at(d, pos, eff) {
        Some((created, p1)) => {
            if p1 + 36 > eff {
                res is Err
            } else {
                match spec_string_at(d, p1 + 36, eff) {
                    Some((edited, p2)) => {
                        if p2 + 40 > eff {
                            res is Err
                        } else {
                            &&& res matches Ok(h)
                            &&& h.created_by@ == created
                            &&& h.create_time == spec_time_at(d, p1)
                            &&& h.last_edited_by@ == edited
                            &&& h.last_edit_time == spec_time_at(d, p2)
                            &&& h.revision_count == le_i32(d.subrange(p2 + 36, p2 + 40))
                            &&& end == p2 + 40
                        }
                    },
                    None => res is Err,
                }
            }
        },
        None => res is Err,
    }
}

impl RevisionHistoryV1 {
    /// The record every field of which is zero or empty.
    pub open spec fn spec_default(h: RevisionHistoryV1) -> bool {
        &&& h.created_by@ == Seq::<char>::empty()
        &&& h.create_time == Time::zero()
        &&& h.last_edited_by@ == Seq::<char>::empty()
        &&& h.last_edit_time == Time::zero()
        &&& h.revision_count == 0
    }

    /// Reads author, timestamp, pad, author, timestamp, pad and count.
    pub fn deserialize(r: &mut Reader) -> (res: Result<RevisionHistoryV1, DecodeError>)
        ensures
            final(r).same_context(old(r)),
            spec_revision_history_v1_post(
                old(r).data@,
                old(r).position as int,
                old(r).spec_eff_len(),
                res,
                final(r).position as int,
            ),
    {
        let created_by = StringWithLength::deserialize(r)?;
        let create_time = Time::deserialize(r)?;
        match r.read_i32() {
            Ok(_) => {}
            Err(e) => {
                return Err(DecodeError::Io(e));
            }
        }
        let last_edited_by = StringWithLength::deserialize(r)?;
        let last_edit_time = Time::deserialize(r)?;
        match r.read_i32() {
            Ok(_) => {}
            Err(e) => {
                return Err(DecodeError::Io(e));
            }
        }
        let revision_count = match r.read_i32() {
            Ok(v) => v,
            Err(e) => {
                return Err(DecodeError::Io(e));
            }
        };
        Ok(
            RevisionHistoryV1 {
                created_by: created_by.0,
                create_time,
                last_edited_by: last_edited_by.0,
                last_edit_time,
                revision_count,
            },
        )
    }
}

impl Default for RevisionHistoryV1 {
    /// Every field zero or empty.
    fn default() -> (r: RevisionHistoryV1)
        ensures
            RevisionHistoryV1::spec_default(r),
    {
        RevisionHistoryV1 {
            created_by: String::new(),
            create_time: Time::default(),
            last_edited_by: String::new(),
            last_edit_time: Time::default(),
            revision_count: 0,
        }
    }
}

/// What decoding a version 2 revision history at `pos` in a window
/// ending at `eff` yields: the result and the final cursor position.
pub open spec fn spec_revision_history_v2_post(
    d: Seq<u8>,
    pos: int,
    eff: int,
    res: Result<RevisionHistoryV2, DecodeError>,
    end: int,
) -> bool {
    if pos + 1 > eff {
        res is Err
    } else {
        let version_byte = d.subrange(pos, pos + 1)[0] as int;
        if version_byte / 16 != 1 {
            &&& res matches Ok(h) && RevisionHistoryV2::spec_default(h)
            &&& end == pos + 1
        } else {
            match spec_wstring_at(d, pos + 1, eff) {
                Some((created, p1)) => {
                    if p1 + 32 > eff {
                        res is Err
                    } else {
                        match spec_wstring_at(d, p1 + 32, eff) {
                            Some((edited, p2)) => {
                                if p2 + 36 > eff {
                                    res is Err
                                } else {
                                    &&& res matches Ok(h)
                                    &&& h.created_by@ == created
                                    &&& h.create_time == spec_time_at(d, p1)
                                    &&& h.last_edited_by@ == edited
                                    &&& h.last_edit_time == spec_time_at(d, p2)
                                    &&& h.revision_count == le_i32(d.subrange(p2 + 32, p2 + 36))
                                    &&& end == p2 + 36
                                }
                            },
                            None => res is Err,
                        }
                    }
                },
                None => res is Err,
            }
        }
    }
}

impl RevisionHistoryV2 {
    /// The record every field of which is zero or empty.
    pub open spec fn spec_default(h: RevisionHistoryV2) -> bool {
        &&& h.created_by@ == Seq::<char>::empty()
        &&& h.create_time == Time::zero()
        &&& h.last_edited_by@ == Seq::<char>::empty()
        &&& h.last_edit_time == Time::zero()
        &&& h.revision_count == 0
    }

    /// Reads a chunk version byte; with a major version other than one
    /// the record keeps its defaults, otherwise the fields follow.
    pub fn deserialize(r: &mut Reader) -> (res: Result<RevisionHistoryV2, DecodeError>)
        ensures
            final(r).same_context(old(r)),
            spec_revision_history_v2_post(
                old(r).data@,
                old(r).position as int,
                old(r).spec_eff_len(),
                res,
                final(r).position as int,
            ),
    {
        let version = ChunkVersion::deserialize(r)?;
        if version.major() != 1 {
            return Ok(RevisionHistoryV2::default_record());
        }
        let created_by = WStringWithLength::deserialize(r)?;
        let create_time = Time::deserialize(r)?;
        let last_edited_by = WStringWithLength::deserialize(r)?;
        let last_edit_time = Time::deserialize(r)?;
        let revision_count = match r.read_i32() {
            Ok(v) => v,
            Err(e) => {
                return Err(DecodeError::Io(e));
            }
        };
        Ok(
            RevisionHistoryV2 {
                created_by: created_by.0,
                create_time,
                last_edited_by: last_edited_by.0,
                last_edit_time,
                revision_count,
            },
        )
    }

    /// Every field zero or empty.
    pub fn default_record() -> (r: RevisionHistoryV2)
        ensures
            RevisionHistoryV2::spec_default(r),
    {
        RevisionHistoryV2 {
            created_by: String::new(),
            create_time: Time::default(),
            last_edited_by: String::new(),
            last_edit_time: Time::default(),
            revision_count: 0,
        }
    }
}

impl Default for RevisionHistoryV2 {
    /// Every field zero or empty.
    fn default() -> (r: RevisionHistoryV2)
        ensures
            RevisionHistoryV2::spec_default(r),
    {
        RevisionHistoryV2::default_record()
    }
}

impl RevisionHistory {
    /// Selects the layout by the archive version of the reader and
    /// decodes that layout in full.
    pub fn deserialize(r: &mut Reader) -> (res: Result<RevisionHistory, DecodeError>)
        ensures
            final(r).same_context(old(r)),
            old(r).version == FileVersion::V1 ==> match res {
                Ok(h) => h matches RevisionHistory::V1(inner)
                    && spec_revision_history_v1_post(
                    old(r).data@,
                    old(r).position as int,
                    old(r).spec_eff_len(),
                    Ok(inner),
                    final(r).position as int,
                ),
                Err(e) => spec_revision_history_v1_post(
                    old(r).data@,
                    old(r).position as int,
                    old(r).spec_eff_len(),
                    Err(e),
                    final(r).position as int,
                ),
            },
            old(r).version != FileVersion::V1 ==> match res {
                Ok(h) => h matches RevisionHistory::V2(inner)
                    && spec_revision_history_v2_post(
                    old(r).data@,
                    old(r).position as int,
                    old(r).spec_eff_len(),
                    Ok(inner),
                    final(r).position as int,
                ),
                Err(e) => spec_revision_history_v2_post(
                    old(r).data@,
                    old(r).position as int,
                    old(r).spec_eff_len(),
                    Err(e),
                    final(r).position as int,
                ),
            },
    {
        if r.version() == FileVersion::V1 {
            match RevisionHistoryV1::deserialize(r) {
                Ok(h) => Ok(RevisionHistory::V1(h)),
                Err(e) => Err(e),
            }
        } else {
            match RevisionHistoryV2::deserialize(r) {
                Ok(h) => Ok(RevisionHistory::V2(h)),
                Err(e) => Err(e),
            }
        }
    }
}

impl Default for RevisionHistory {
    /// Version 1 history with every field zero or empty.
    fn default() -> (r: RevisionHistory)
        ensures
            r matches RevisionHistory::V1(h) && RevisionHistoryV1::spec_default(h),
    {
        RevisionHistory::V1(RevisionHistoryV1::default())
    }
}

} // verus!
