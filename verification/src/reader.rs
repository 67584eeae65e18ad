//! Cursor over an in-memory archive image.
//!
//! A [`Reader`] owns the archive bytes and carries the decoding context:
//! the current position, the archive [`Version`] (updated once the file
//! version block is decoded) and the most recently decoded chunk header.
//! The `limit` field is the absolute end of the innermost open chunk;
//! reads never cross it, which makes every chunk a self-delimiting
//! sub-stream of its parent.

use vstd::prelude::*;
use vstd::slice::{slice_subrange, slice_to_vec};

use crate::chunk::Begin;
use crate::numbers::{le_bytes, le_i32, le_i64, lemma_le_bytes_1, lemma_le_bytes_2, lemma_le_bytes_4, lemma_le_bytes_8};
use crate::version::Version;

verus! {

/// Kind of a byte-source failure.
#[derive(Debug, Clone, Copy, PartialEq, Eq, Structural)]
pub enum IoErrorKind {
    /// The source ended before the requested bytes were read.
    UnexpectedEof,
    /// The bytes read do not form a value of the expected shape.
    InvalidData,
    /// A seek to a negative or overflowing position.
    InvalidInput,
}

/// Origin of a seek, as in `std::io`.
#[derive(Debug, Clone, Copy, PartialEq, Eq, Structural)]
pub enum SeekFrom {
    Start(u64),
    End(i64),
    Current(i64),
}

/// Cursor over the archive bytes, carrying the decoding context.
pub struct Reader {
    /// The whole archive image.
    pub data: Vec<u8>,
    /// Absolute position of the next byte to read.
    pub position: u64,
    /// Absolute end of the innermost open chunk; reads stop here.
    pub limit: u64,
    /// Archive format version; `V1` until the file version block is decoded.
    pub version: Version,
    /// The most recently decoded chunk header.
    pub chunk_begin: Begin,
}

impl Reader {
    /// End of the readable window: the data end or the current chunk
    /// limit, whichever comes first.
    pub open spec fn spec_eff_len(&self) -> int {
        if self.data@.len() <= self.limit {
            self.data@.len() as int
        } else {
            self.limit as int
        }
    }

    /// True when `self` differs from `other` at most in its position:
    /// same bytes, same limit, same version, same current chunk header.
    pub open spec fn same_context(&self, other: &Reader) -> bool {
        &&& self.data@ == other.data@
        &&& self.limit == other.limit
        &&& self.version == other.version
        &&& self.chunk_begin == other.chunk_begin
    }

    /// Position after a read of `n` bytes was attempted at `pos`: a short
    /// read consumes everything left in the window.
    pub open spec fn spec_pos_after_failed_read(&self, pos: int) -> int {
        if pos <= self.spec_eff_len() {
            self.spec_eff_len()
        } else {
            pos
        }
    }

    /// A fresh cursor at position zero with no chunk open.
    pub fn new(data: Vec<u8>, version: Version) -> (r: Reader)
        ensures
            r.data@ == data@,
            r.position == 0,
            r.limit == u64::MAX,
            r.version == version,
            r.chunk_begin == Begin::zero(),
    {
        Reader {
            data,
            position: 0,
            limit: u64::MAX,
            version,
            chunk_begin: Begin { typecode: 0, value: 0, initial_position: 0 },
        }
    }

    pub fn position(&self) -> (r: u64)
        ensures
            r == self.position,
    {
        self.position
    }

    pub fn set_position(&mut self, position: u64)
        ensures
            final(self).position == position,
            final(self).same_context(old(self)),
    {
        self.position = position;
    }

    pub fn version(&self) -> (r: Version)
        ensures
            r == self.version,
    {
        self.version
    }

    pub fn set_version(&mut self, version: Version)
        ensures
            final(self).version == version,
            final(self).data@ == old(self).data@,
            final(self).position == old(self).position,
            final(self).limit == old(self).limit,
            final(self).chunk_begin == old(self).chunk_begin,
    {
        self.version = version;
    }

    pub fn chunk_begin(&self) -> (r: Begin)
        ensures
            r == self.chunk_begin,
    {
        self.chunk_begin
    }

    pub fn set_chunk_begin(&mut self, chunk_begin: Begin)
        ensures
            final(self).chunk_begin == chunk_begin,
            final(self).data@ == old(self).data@,
            final(self).position == old(self).position,
            final(self).limit == old(self).limit,
            final(self).version == old(self).version,
    {
        self.chunk_begin = chunk_begin;
    }

    /// End of the readable window as a value.
    pub fn eff_len(&self) -> (r: u64)
        ensures
            r == self.spec_eff_len(),
            r <= usize::MAX,
    {
        let data_len = self.data.len() as u64;
        if data_len <= self.limit {
            data_len
        } else {
            self.limit
        }
    }

    /// Reads exactly `n` bytes, or fails without reading past the window.
    pub fn read_exact(&mut self, n: usize) -> (r: Result<Vec<u8>, IoErrorKind>)
        ensures
            final(self).same_context(old(self)),
            ({
                let pos = old(self).position as int;
                let eff = old(self).spec_eff_len();
                if pos + n <= eff {
                    &&& r matches Ok(v) && v@ == old(self).data@.subrange(pos, pos + n)
                    &&& final(self).position == pos + n
                } else {
                    &&& r matches Err(e) && e == IoErrorKind::UnexpectedEof
                    &&& final(self).position == old(self).spec_pos_after_failed_read(pos)
                }
            }),
    {
        let eff = self.eff_len();
        if self.position <= eff && (n as u64) <= eff - self.position {
            let start = self.position as usize;
            let bytes = slice_to_vec(slice_subrange(self.data.as_slice(), start, start + n));
            self.position = self.position + (n as u64);
            Ok(bytes)
        } else {
            if self.position < eff {
                self.position = eff;
            }
            Err(IoErrorKind::UnexpectedEof)
        }
    }

    /// Reads everything left in the window; empty when the position is
    /// already past it.
    pub fn read_to_end(&mut self) -> (r: Vec<u8>)
        ensures
            final(self).same_context(old(self)),
            ({
                let pos = old(self).position as int;
                let eff = old(self).spec_eff_len();
                if pos <= eff {
                    r@ == old(self).data@.subrange(pos, eff) && final(self).position == eff
                } else {
                    r@ == Seq::<u8>::empty() && final(self).position == old(self).position
                }
            }),
    {
        let eff = self.eff_len();
        if self.position <= eff {
            let start = self.position as usize;
            let end = eff as usize;
            let bytes = slice_to_vec(slice_subrange(self.data.as_slice(), start, end));
            self.position = eff;
            bytes
        } else {
            Vec::new()
        }
    }

    /// Moves the cursor; fails on a negative or overflowing target.
    pub fn seek(&mut self, from: SeekFrom) -> (r: Result<u64, IoErrorKind>)
        ensures
            final(self).same_context(old(self)),
            ({
                let target = match from {
                    SeekFrom::Start(v) => v as int,
                    SeekFrom::End(d) => old(self).data@.len() + d,
                    SeekFrom::Current(d) => old(self).position + d,
                };
                if 0 <= target <= u64::MAX {
                    &&& r matches Ok(p) && p == target
                    &&& final(self).position == target
                } else {
                    &&& r matches Err(e) && e == IoErrorKind::InvalidInput
                    &&& final(self).position == old(self).position
                }
            }),
    {
        match from {
            SeekFrom::Start(v) => {
                self.position = v;
                Ok(v)
            }
            SeekFrom::End(d) => {
                let base = self.data.len() as u64;
                match base.checked_add_signed(d) {
                    Some(p) => {
                        self.position = p;
                        Ok(p)
                    }
                    None => Err(IoErrorKind::InvalidInput),
                }
            }
            SeekFrom::Current(d) => {
                match self.position.checked_add_signed(d) {
                    Some(p) => {
                        self.position = p;
                        Ok(p)
                    }
                    None => Err(IoErrorKind::InvalidInput),
                }
            }
        }
    }

    /// Reads one byte.
    pub fn read_u8(&mut self) -> (r: Result<u8, IoErrorKind>)
        ensures
            final(self).same_context(old(self)),
            ({
                let pos = old(self).position as int;
                let eff = old(self).spec_eff_len();
                if pos + 1 <= eff {
                    &&& r matches Ok(v) && v == le_bytes(old(self).data@.subrange(pos, pos + 1))
                    &&& final(self).position == pos + 1
                } else {
                    &&& r matches Err(e) && e == IoErrorKind::UnexpectedEof
                    &&& final(self).position == old(self).spec_pos_after_failed_read(pos)
                }
            }),
    {
        let bytes = self.read_exact(1)?;
        proof {
            lemma_le_bytes_1(bytes@);
        }
        Ok(bytes[0])
    }

    /// Reads a little-endian unsigned 16-bit value.
    pub fn read_u16(&mut self) -> (r: Result<u16, IoErrorKind>)
        ensures
            final(self).same_context(old(self)),
            ({
                let pos = old(self).position as int;
                let eff = old(self).spec_eff_len();
                if pos + 2 <= eff {
                    &&& r matches Ok(v) && v == le_bytes(old(self).data@.subrange(pos, pos + 2))
                    &&& final(self).position == pos + 2
                } else {
                    &&& r matches Err(e) && e == IoErrorKind::UnexpectedEof
                    &&& final(self).position == old(self).spec_pos_after_failed_read(pos)
                }
            }),
    {
        let bytes = self.read_exact(2)?;
        proof {
            lemma_le_bytes_2(bytes@);
        }
        Ok((bytes[0] as u16) + 0x100 * (bytes[1] as u16))
    }

    /// Reads a little-endian unsigned 32-bit value.
    pub fn read_u32(&mut self) -> (r: Result<u32, IoErrorKind>)
        ensures
            final(self).same_context(old(self)),
            ({
                let pos = old(self).position as int;
                let eff = old(self).spec_eff_len();
                if pos + 4 <= eff {
                    &&& r matches Ok(v) && v == le_bytes(old(self).data@.subrange(pos, pos + 4))
                    &&& final(self).position == pos + 4
                } else {
                    &&& r matches Err(e) && e == IoErrorKind::UnexpectedEof
                    &&& final(self).position == old(self).spec_pos_after_failed_read(pos)
                }
            }),
    {
        let bytes = self.read_exact(4)?;
        proof {
            lemma_le_bytes_4(bytes@);
        }
        Ok((bytes[0] as u32) + 0x100 * (bytes[1] as u32) + 0x1_0000 * (bytes[2] as u32)
            + 0x100_0000 * (bytes[3] as u32))
    }

    /// Reads a little-endian unsigned 64-bit value.
    pub fn read_u64(&mut self) -> (r: Result<u64, IoErrorKind>)
        ensures
            final(self).same_context(old(self)),
            ({
                let pos = old(self).position as int;
                let eff = old(self).spec_eff_len();
                if pos + 8 <= eff {
                    &&& r matches Ok(v) && v == le_bytes(old(self).data@.subrange(pos, pos + 8))
                    &&& final(self).position == pos + 8
                } else {
                    &&& r matches Err(e) && e == IoErrorKind::UnexpectedEof
                    &&& final(self).position == old(self).spec_pos_after_failed_read(pos)
                }
            }),
    {
        let bytes = self.read_exact(8)?;
        proof {
            lemma_le_bytes_8(bytes@);
        }
        Ok((bytes[0] as u64) + 0x100 * (bytes[1] as u64) + 0x1_0000 * (bytes[2] as u64)
            + 0x100_0000 * (bytes[3] as u64) + 0x1_0000_0000 * (bytes[4] as u64)
            + 0x100_0000_0000 * (bytes[5] as u64) + 0x1_0000_0000_0000 * (bytes[6] as u64)
            + 0x100_0000_0000_0000 * (bytes[7] as u64))
    }

    /// Reads a little-endian signed 32-bit value.
    pub fn read_i32(&mut self) -> (r: Result<i32, IoErrorKind>)
        ensures
            final(self).same_context(old(self)),
            ({
                let pos = old(self).position as int;
                let eff = old(self).spec_eff_len();
                if pos + 4 <= eff {
                    &&& r matches Ok(v) && v == le_i32(old(self).data@.subrange(pos, pos + 4))
                    &&& final(self).position == pos + 4
                } else {
                    &&& r matches Err(e) && e == IoErrorKind::UnexpectedEof
                    &&& final(self).position == old(self).spec_pos_after_failed_read(pos)
                }
            }),
    {
        let raw = self.read_u32()?;
        if raw < 0x8000_0000 {
            Ok(raw as i32)
        } else {
            Ok(-((u32::MAX - raw) as i32) - 1)
        }
    }

    /// Reads a little-endian signed 64-bit value.
    pub fn read_i64(&mut self) -> (r: Result<i64, IoErrorKind>)
        ensures
            final(self).same_context(old(self)),
            ({
                let pos = old(self).position as int;
                let eff = old(self).spec_eff_len();
                if pos + 8 <= eff {
                    &&& r matches Ok(v) && v == le_i64(old(self).data@.subrange(pos, pos + 8))
                    &&& final(self).position == pos + 8
                } else {
                    &&& r matches Err(e) && e == IoErrorKind::UnexpectedEof
                    &&& final(self).position == old(self).spec_pos_after_failed_read(pos)
                }
            }),
    {
        let raw = self.read_u64()?;
        if raw < 0x8000_0000_0000_0000 {
            Ok(raw as i64)
        } else {
            Ok(-((u64::MAX - raw) as i64) - 1)
        }
    }
}

} // verus!
