//! The start section of version 1 archives.
//!
//! Version 1 archives carry a preamble of known chunks before the
//! properties. The decoder scans their typecodes and skips their
//! payloads. When a typecode outside the preamble set appears, a
//! table-classified typecode reveals that the archive actually uses the
//! version 2 layout and the context is upgraded; otherwise the scan
//! position is restored.

use vstd::prelude::*;

use crate::chunk::{spec_is_unsigned, Value};
use crate::error::DecodeError;
use crate::numbers::{le_bytes, le_i32};
use crate::reader::{Reader, SeekFrom};
use crate::typecode;
use crate::version::Version as FileVersion;

verus! {

/// Marker for a consumed start section.
#[derive(Debug)]
pub struct StartSection;

/// Whether a typecode belongs to the version 1 preamble.
pub open spec fn spec_preamble_typecode(tc: u32) -> bool {
    ||| tc == typecode::SUMMARY
    ||| tc == typecode::BITMAPPREVIEW
    ||| tc == typecode::UNIT_AND_TOLERANCES
    ||| tc == typecode::VIEWPORT
    ||| tc == typecode::LAYER
    ||| tc == typecode::RENDERMESHPARAMS
    ||| tc == typecode::CURRENTLAYER
    ||| tc == typecode::ANNOTATION_SETTINGS
    ||| tc == typecode::NOTES
    ||| tc == typecode::NAMED_CPLANE
    ||| tc == typecode::NAMED_VIEW
}

/// Outcome of the version 1 preamble scan from `pos`: `None` when the
/// scan fails (a short read, a negative skip length, or a position
/// overflow), else whether the terminating typecode is table-classified
/// and the position just after that typecode. Preamble chunks are a
/// 32-bit typecode, a 32-bit value whose signedness follows the
/// reader's current chunk header, and that many payload bytes.
pub open spec fn spec_start_scan(d: Seq<u8>, pos: int, eff: int, unsigned: bool) -> Option<
    (bool, int),
>
    decreases
            (if pos <= eff {
                eff - pos
            } else {
                0int
            }),
{
    if pos + 4 > eff {
        None
    } else {
        let tc = le_bytes(d.subrange(pos, pos + 4)) as u32;
        if !spec_preamble_typecode(tc) {
            Some(((tc & 0xFFFF0000u32) == typecode::TABLE, pos + 4))
        } else if pos + 8 > eff {
            None
        } else {
            let value = if unsigned {
                le_bytes(d.subrange(pos + 4, pos + 8))
            } else {
                le_i32(d.subrange(pos + 4, pos + 8))
            };
            if value < 0 {
                None
            } else if pos + 8 + value > u64::MAX {
                None
            } else if pos + 8 + value > eff {
                None
            } else {
                spec_start_scan(d, pos + 8 + value, eff, unsigned)
            }
        }
    }
}

impl StartSection {
    /// Scans the version 1 preamble; on anything but a version 1
    /// context this reads nothing. When the scan ends at a
    /// table-classified typecode the context is upgraded to version 2
    /// and the cursor stays just after that typecode; otherwise the
    /// context stays at version 1 and the cursor is restored to where
    /// the scan began. The scan fails exactly when it runs off the
    /// window, meets a negative skip length or overflows a position.
    pub fn deserialize(r: &mut Reader) -> (res: Result<StartSection, DecodeError>)
        ensures
            final(r).data@ == old(r).data@,
            final(r).limit == old(r).limit,
            final(r).chunk_begin == old(r).chunk_begin,
            old(r).version != FileVersion::V1 ==> (res matches Ok(_) && *final(r) == *old(r)),
            old(r).version == FileVersion::V1 ==> match spec_start_scan(
                old(r).data@,
                old(r).position as int,
                old(r).spec_eff_len(),
                spec_is_unsigned(old(r).chunk_begin.typecode),
            ) {
                Some((upgrade, scan_end)) => {
                    &&& res matches Ok(_)
                    &&& if upgrade {
                        final(r).version == FileVersion::V2 && final(r).position == scan_end
                    } else {
                        final(r).version == FileVersion::V1 && final(r).position == old(
                            r,
                        ).position
                    }
                },
                None => res is Err && final(r).version == FileVersion::V1,
            },
    {
        let backup = r.position();
        if r.version() == FileVersion::V1 {
            loop
                invariant_except_break
                    r.version == FileVersion::V1,
                    spec_start_scan(
                        old(r).data@,
                        old(r).position as int,
                        old(r).spec_eff_len(),
                        spec_is_unsigned(old(r).chunk_begin.typecode),
                    ) == spec_start_scan(
                        old(r).data@,
                        r.position as int,
                        old(r).spec_eff_len(),
                        spec_is_unsigned(old(r).chunk_begin.typecode),
                    ),
                invariant
                    old(r).version == FileVersion::V1,
                    r.data@ == old(r).data@,
                    r.limit == old(r).limit,
                    r.chunk_begin == old(r).chunk_begin,
                ensures
                    r.version == FileVersion::V1 || r.version == FileVersion::V2,
                    match spec_start_scan(
                        old(r).data@,
                        old(r).position as int,
                        old(r).spec_eff_len(),
                        spec_is_unsigned(old(r).chunk_begin.typecode),
                    ) {
                        Some((upgrade, scan_end)) => {
                            &&& upgrade <==> r.version == FileVersion::V2
                            &&& r.position == scan_end
                        },
                        None => false,
                    },
                decreases u64::MAX - r.position,
            {
                let ghost scan_pos = r.position as int;
                let tc = match r.read_u32() {
                    Ok(v) => v,
                    Err(e) => {
                        return Err(DecodeError::Io(e));
                    }
                };
                if tc == typecode::SUMMARY || tc == typecode::BITMAPPREVIEW || tc
                    == typecode::UNIT_AND_TOLERANCES || tc == typecode::VIEWPORT || tc
                    == typecode::LAYER || tc == typecode::RENDERMESHPARAMS || tc
                    == typecode::CURRENTLAYER || tc == typecode::ANNOTATION_SETTINGS || tc
                    == typecode::NOTES || tc == typecode::NAMED_CPLANE || tc
                    == typecode::NAMED_VIEW {
                    let value = Value::deserialize(r)?;
                    if value.0 < 0 {
                        return Err(DecodeError::InvalidLength);
                    }
                    match r.seek(SeekFrom::Current(value.0)) {
                        Ok(_) => {}
                        Err(_) => {
                            return Err(DecodeError::InvalidInput);
                        }
                    }
                    proof {
                        let d0 = old(r).data@;
                        let eff0 = old(r).spec_eff_len();
                        let uns = spec_is_unsigned(old(r).chunk_begin.typecode);
                        let val = if uns {
                            le_bytes(d0.subrange(scan_pos + 4, scan_pos + 8))
                        } else {
                            le_i32(d0.subrange(scan_pos + 4, scan_pos + 8))
                        };
                        assert(val == value.0);
                        assert(r.position as int == scan_pos + 8 + val);
                        if scan_pos + 8 + val > eff0 {
                            assert(spec_start_scan(d0, scan_pos, eff0, uns) is None);
                            assert(spec_start_scan(d0, r.position as int, eff0, uns) is None);
                        }
                        assert(spec_start_scan(d0, scan_pos, eff0, uns) == spec_start_scan(
                            d0,
                            r.position as int,
                            eff0,
                            uns,
                        ));
                    }
                } else {
                    if tc & 0xFFFF0000 == typecode::TABLE {
                        r.set_version(FileVersion::V2);
                    }
                    break ;
                }
            }
        }
        if r.version() == FileVersion::V1 {
            match r.seek(SeekFrom::Start(backup)) {
                Ok(_) => {}
                Err(_) => {
                    return Err(DecodeError::InvalidInput);
                }
            }
        }
        Ok(StartSection)
    }
}

} // verus!
