//! Archive format version.
//!
//! The overall format version is written as an 8-byte ASCII block right
//! after the file header: leading spaces, then a base-10 integer. The
//! recognised values are 1, 2, 3, 4, 50, 60 and 70; they select, among
//! other things, the width of every chunk length field.

use vstd::prelude::*;

use crate::reader::{IoErrorKind, Reader};

verus! {

/// Overall archive format version.
#[derive(Debug, Clone, Copy, PartialEq, Eq, Structural)]
pub enum Version {
    V1,
    V2,
    V3,
    V4,
    V50,
    V60,
    V70,
}

/// Failure of the archive version block decode.
#[derive(Debug, PartialEq, Eq, Structural)]
pub enum VersionError {
    InvalidVersion,
    IoError(IoErrorKind),
}

/// The byte each version is written as (and parsed from).
pub open spec fn spec_version_byte(v: Version) -> u8 {
    match v {
        Version::V1 => 1,
        Version::V2 => 2,
        Version::V3 => 3,
        Version::V4 => 4,
        Version::V50 => 50,
        Version::V60 => 60,
        Version::V70 => 70,
    }
}

/// The version a numeric value names, if any.
pub open spec fn spec_version_of(value: int) -> Option<Version> {
    if value == 1 {
        Some(Version::V1)
    } else if value == 2 {
        Some(Version::V2)
    } else if value == 3 {
        Some(Version::V3)
    } else if value == 4 {
        Some(Version::V4)
    } else if value == 50 {
        Some(Version::V50)
    } else if value == 60 {
        Some(Version::V60)
    } else if value == 70 {
        Some(Version::V70)
    } else {
        None
    }
}

impl Version {
    /// Maps a numeric version value to the version it names.
    pub fn from_byte(value: u8) -> (r: Result<Version, VersionError>)
        ensures
            match spec_version_of(value as int) {
                Some(v) => r == Ok::<Version, VersionError>(v),
                None => r == Err::<Version, VersionError>(VersionError::InvalidVersion),
            },
    {
        match value {
            1 => Ok(Version::V1),
            2 => Ok(Version::V2),
            3 => Ok(Version::V3),
            4 => Ok(Version::V4),
            50 => Ok(Version::V50),
            60 => Ok(Version::V60),
            70 => Ok(Version::V70),
            _ => Err(VersionError::InvalidVersion),
        }
    }

    /// The numeric value this version is written as.
    pub fn to_byte(self) -> (r: u8)
        ensures
            r == spec_version_byte(self),
    {
        match self {
            Version::V1 => 1,
            Version::V2 => 2,
            Version::V3 => 3,
            Version::V4 => 4,
            Version::V50 => 50,
            Version::V60 => 60,
            Version::V70 => 70,
        }
    }
}

/// Value of an ASCII digit run folded left to right onto `acc`; `None`
/// as soon as a byte is not a digit.
pub open spec fn spec_digits_value(s: Seq<u8>, acc: int) -> Option<int>
    decreases s.len(),
{
    if s.len() == 0 {
        Some(acc)
    } else if 0x30 <= s[0] <= 0x39 {
        spec_digits_value(s.subrange(1, s.len() as int), acc * 10 + (s[0] - 0x30))
    } else {
        None
    }
}

/// Value of the 8-byte version block: leading spaces, then a base-10
/// integer; `None` when a non-digit follows the spaces.
pub open spec fn spec_version_block_value(s: Seq<u8>) -> Option<int>
    decreases s.len(),
{
    if s.len() > 0 && s[0] == 0x20 {
        spec_version_block_value(s.subrange(1, s.len() as int))
    } else {
        spec_digits_value(s, 0)
    }
}

/// Folding digits never shrinks a non-negative accumulator.
proof fn lemma_digits_value_monotone(s: Seq<u8>, acc: int)
    requires
        0 <= acc,
    ensures
        spec_digits_value(s, acc) matches Some(v) ==> v >= acc,
    decreases s.len(),
{
    if s.len() > 0 && 0x30 <= s[0] <= 0x39 {
        lemma_digits_value_monotone(s.subrange(1, s.len() as int), acc * 10 + (s[0] - 0x30));
    }
}

impl Version {
    /// Decodes the 8-byte ASCII version block and records the version on
    /// the reader. The block is leading spaces followed by a base-10
    /// integer; a non-digit or an unknown value is an invalid version.
    pub fn deserialize(r: &mut Reader) -> (res: Result<Version, VersionError>)
        ensures
            final(r).data@ == old(r).data@,
            final(r).limit == old(r).limit,
            final(r).chunk_begin == old(r).chunk_begin,
            ({
                let pos = old(r).position as int;
                let eff = old(r).spec_eff_len();
                if pos + 8 <= eff {
                    let block = old(r).data@.subrange(pos, pos + 8);
                    &&& final(r).position == pos + 8
                    &&& match spec_version_block_value(block) {
                        Some(value) => match spec_version_of(value) {
                            Some(v) => {
                                &&& res matches Ok(got) && got == v
                                &&& final(r).version == v
                            },
                            None => {
                                &&& res matches Err(e) && e == VersionError::InvalidVersion
                                &&& final(r).version == old(r).version
                            },
                        },
                        None => {
                            &&& res matches Err(e) && e == VersionError::InvalidVersion
                            &&& final(r).version == old(r).version
                        },
                    }
                } else {
                    &&& res matches Err(e) && e == VersionError::IoError(
                        IoErrorKind::UnexpectedEof,
                    )
                    &&& final(r).version == old(r).version
                    &&& final(r).position == old(r).spec_pos_after_failed_read(pos)
                }
            }),
    {
        let bytes = match r.read_exact(8) {
            Ok(b) => b,
            Err(e) => {
                return Err(VersionError::IoError(e));
            }
        };
        let ghost block = bytes@;
        proof {
            assert(block.subrange(0, 8) =~= block);
        }
        let mut i: usize = 0;
        while i < 8 && bytes[i] == 0x20
            invariant
                i <= 8,
                bytes@ == block,
                block.len() == 8,
                r.same_context(old(r)),
                r.position == old(r).position + 8,
                old(r).position + 8 <= old(r).spec_eff_len(),
                block == old(r).data@.subrange(old(r).position as int, old(r).position + 8),
                spec_version_block_value(block) == spec_version_block_value(
                    block.subrange(i as int, 8),
                ),
            decreases 8 - i,
        {
            proof {
                assert(block.subrange(i as int, 8).subrange(1, 8 - i as int) =~= block.subrange(
                    i + 1,
                    8,
                ));
            }
            i = i + 1;
        }
        proof {
            assert(spec_version_block_value(block.subrange(i as int, 8)) == spec_digits_value(
                block.subrange(i as int, 8),
                0,
            ));
        }
        let mut acc: u32 = 0;
        while i < 8
            invariant
                i <= 8,
                bytes@ == block,
                block.len() == 8,
                acc <= 70,
                r.same_context(old(r)),
                r.position == old(r).position + 8,
                old(r).position + 8 <= old(r).spec_eff_len(),
                block == old(r).data@.subrange(old(r).position as int, old(r).position + 8),
                spec_version_block_value(block) == spec_digits_value(
                    block.subrange(i as int, 8),
                    acc as int,
                ),
            decreases 8 - i,
        {
            let b = bytes[i];
            if b < 0x30 || b > 0x39 {
                return Err(VersionError::InvalidVersion);
            }
            proof {
                assert(block.subrange(i as int, 8).subrange(1, 8 - i as int) =~= block.subrange(
                    i + 1,
                    8,
                ));
            }
            acc = acc * 10 + ((b - 0x30) as u32);
            i = i + 1;
            if acc > 70 {
                proof {
                    lemma_digits_value_monotone(block.subrange(i as int, 8), acc as int);
                }
                return Err(VersionError::InvalidVersion);
            }
        }
        proof {
            assert(block.subrange(8, 8).len() == 0);
        }
        if acc > 255 {
            return Err(VersionError::InvalidVersion);
        }
        match Version::from_byte(acc as u8) {
            Ok(v) => {
                r.set_version(v);
                Ok(v)
            }
            Err(e) => Err(e),
        }
    }
}

/// The version mapping is a bijection between the seven versions and the
/// seven numeric values: mapping a value to its version and back yields the
/// value, every other value is refused, and mapping a version to its value
/// and back yields the version.
pub proof fn lemma_version_mapping_bijective(value: int)
    ensures
        match spec_version_of(value) {
            Some(v) => spec_version_byte(v) == value,
            None => !(value == 1 || value == 2 || value == 3 || value == 4 || value == 50
                || value == 60 || value == 70),
        },
        forall|v: Version| spec_version_of(spec_version_byte(v) as int) == Some(v),
{
}

} // verus!
