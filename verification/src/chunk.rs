//! Chunk framing.
//!
//! Every level of a 3dm archive is a sequence of chunks: a 32-bit
//! typecode, a value field whose width depends on the archive version
//! (and whose signedness depends on the typecode), and, for non-inline
//! chunks, a payload of `value` bytes. A [`Chunk`] is the length-bounded
//! view of one payload; closing it advances the reader to the first byte
//! after the chunk, no matter how much of the payload was consumed.

use vstd::prelude::*;

use crate::error::DecodeError;
use crate::numbers::le_bytes;
use crate::numbers::le_i32;
use crate::numbers::le_i64;
use crate::reader::{IoErrorKind, Reader, SeekFrom};
use crate::typecode;
use crate::version::Version as FileVersion;

verus! {

/// A decoded chunk header: typecode, value and the absolute position of
/// the first payload byte.
#[derive(Debug, Clone, Copy, PartialEq, Eq, Structural)]
pub struct Begin {
    pub typecode: u32,
    pub value: i64,
    pub initial_position: u64,
}

/// Width in bytes of the chunk value field for an archive version.
pub open spec fn spec_size_of_length(version: FileVersion) -> u8 {
    match version {
        FileVersion::V1 | FileVersion::V2 | FileVersion::V3 | FileVersion::V4 => 4u8,
        _ => 8u8,
    }
}

/// Whether a 4-byte value field is read unsigned: it is, unless the
/// inline bit is set, except for a few inline typecodes that stay
/// unsigned.
pub open spec fn spec_is_unsigned(tc: u32) -> bool {
    ||| 0 == (typecode::SHORT & tc)
    ||| tc == typecode::RGB
    ||| tc == typecode::RGBDISPLAY
    ||| tc == typecode::PROPERTIES_OPENNURBS_VERSION
    ||| tc == typecode::OBJECT_RECORD_TYPE
}

/// Whether a typecode marks an inline chunk: its value is a small
/// integer, and it has no payload.
pub open spec fn spec_is_inline(tc: u32) -> bool {
    0 != (typecode::SHORT & tc)
}

/// The chunk value field width is always 4 or 8 bytes: 4 up to archive
/// version 4, 8 from version 50 on.
pub proof fn lemma_length_field_width(version: FileVersion)
    ensures
        spec_size_of_length(version) == 4 || spec_size_of_length(version) == 8,
        (spec_size_of_length(version) == 4) <==> (version == FileVersion::V1 || version
            == FileVersion::V2 || version == FileVersion::V3 || version == FileVersion::V4),
{
}

impl Begin {
    /// The header with typecode, value and position all zero.
    pub open spec fn zero() -> Begin {
        Begin { typecode: 0, value: 0, initial_position: 0 }
    }

    /// Width in bytes of the value field for an archive version.
    pub fn size_of_length(version: FileVersion) -> (r: u8)
        ensures
            r == spec_size_of_length(version),
            r == 4 || r == 8,
    {
        match version {
            FileVersion::V1 | FileVersion::V2 | FileVersion::V3 | FileVersion::V4 => 4u8,
            _ => 8u8,
        }
    }

    /// Whether this header's 4-byte value field is read unsigned.
    pub fn is_unsigned(self) -> (r: bool)
        ensures
            r == spec_is_unsigned(self.typecode),
    {
        is_unsigned_typecode(self.typecode)
    }

    /// Decodes a chunk header at the current position and records it as
    /// the reader's current chunk header.
    pub fn deserialize(r: &mut Reader) -> (res: Result<Begin, DecodeError>)
        ensures
            final(r).data@ == old(r).data@,
            final(r).limit == old(r).limit,
            final(r).version == old(r).version,
            ({
                let pos = old(r).position as int;
                let eff = old(r).spec_eff_len();
                let w = spec_size_of_length(old(r).version) as int;
                let tc = le_bytes(old(r).data@.subrange(pos, pos + 4));
                if pos + 4 + w <= eff {
                    &&& res matches Ok(b)
                    &&& b.typecode == tc
                    &&& b.value == if w == 8 {
                        le_i64(old(r).data@.subrange(pos + 4, pos + 12))
                    } else if spec_is_unsigned(b.typecode) {
                        le_bytes(old(r).data@.subrange(pos + 4, pos + 8))
                    } else {
                        le_i32(old(r).data@.subrange(pos + 4, pos + 8))
                    }
                    &&& w == 4 && spec_is_unsigned(b.typecode) ==> b.value >= 0
                    &&& b.initial_position == pos + 4 + w
                    &&& final(r).position == pos + 4 + w
                    &&& final(r).chunk_begin == b
                } else {
                    &&& res matches Err(e) && e == DecodeError::Io(IoErrorKind::UnexpectedEof)
                    &&& final(r).chunk_begin == old(r).chunk_begin
                    &&& final(r).position == if pos + 4 > eff {
                        old(r).spec_pos_after_failed_read(pos)
                    } else {
                        eff
                    }
                }
            }),
    {
        let tc = match r.read_u32() {
            Ok(v) => v,
            Err(e) => {
                return Err(DecodeError::Io(e));
            }
        };
        let value: i64;
        if Begin::size_of_length(r.version()) == 8 {
            value = match r.read_i64() {
                Ok(v) => v,
                Err(e) => {
                    return Err(DecodeError::Io(e));
                }
            };
        } else if is_unsigned_typecode(tc) {
            let raw = match r.read_u32() {
                Ok(v) => v,
                Err(e) => {
                    return Err(DecodeError::Io(e));
                }
            };
            value = raw as i64;
        } else {
            let raw = match r.read_i32() {
                Ok(v) => v,
                Err(e) => {
                    return Err(DecodeError::Io(e));
                }
            };
            value = raw as i64;
        }
        let begin = Begin { typecode: tc, value, initial_position: r.position() };
        r.set_chunk_begin(begin);
        Ok(begin)
    }
}

impl Default for Begin {
    fn default() -> (r: Begin)
        ensures
            r == Begin::zero(),
    {
        Begin { typecode: 0, value: 0, initial_position: 0 }
    }
}

/// Whether a typecode's 4-byte value field is read unsigned.
pub fn is_unsigned_typecode(tc: u32) -> (r: bool)
    ensures
        r == spec_is_unsigned(tc),
{
    0 == (typecode::SHORT & tc) || tc == typecode::RGB || tc == typecode::RGBDISPLAY || tc
        == typecode::PROPERTIES_OPENNURBS_VERSION || tc == typecode::OBJECT_RECORD_TYPE
}

/// Whether a typecode marks an inline chunk.
pub fn is_inline_typecode(tc: u32) -> (r: bool)
    ensures
        r == spec_is_inline(tc),
{
    0 != (typecode::SHORT & tc)
}

/// A chunk value field read on its own, after the typecode was consumed
/// separately. Width comes from the archive version, signedness from the
/// reader's current chunk header.
#[derive(Debug, Clone, Copy, PartialEq, Eq, Structural)]
pub struct Value(pub i64);

impl Value {
    /// Width in bytes of the value field for an archive version.
    pub fn size(version: FileVersion) -> (r: u8)
        ensures
            r == spec_size_of_length(version),
            r == 4 || r == 8,
    {
        Begin::size_of_length(version)
    }

    /// Whether a 4-byte value field is read unsigned for this typecode.
    pub fn is_unsigned(tc: u32) -> (r: bool)
        ensures
            r == spec_is_unsigned(tc),
    {
        is_unsigned_typecode(tc)
    }

    /// Decodes a bare value field at the current position.
    pub fn deserialize(r: &mut Reader) -> (res: Result<Value, DecodeError>)
        ensures
            final(r).same_context(old(r)),
            ({
                let pos = old(r).position as int;
                let eff = old(r).spec_eff_len();
                let w = spec_size_of_length(old(r).version) as int;
                if pos + w <= eff {
                    &&& res matches Ok(v)
                    &&& v.0 == if w == 8 {
                        le_i64(old(r).data@.subrange(pos, pos + 8))
                    } else if spec_is_unsigned(old(r).chunk_begin.typecode) {
                        le_bytes(old(r).data@.subrange(pos, pos + 4))
                    } else {
                        le_i32(old(r).data@.subrange(pos, pos + 4))
                    }
                    &&& w == 4 && spec_is_unsigned(old(r).chunk_begin.typecode) ==> v.0 >= 0
                    &&& final(r).position == pos + w
                } else {
                    &&& res matches Err(e) && e == DecodeError::Io(IoErrorKind::UnexpectedEof)
                    &&& final(r).position == old(r).spec_pos_after_failed_read(pos)
                }
            }),
    {
        if Value::size(r.version()) == 8 {
            match r.read_i64() {
                Ok(v) => Ok(Value(v)),
                Err(e) => Err(DecodeError::Io(e)),
            }
        } else if is_unsigned_typecode(r.chunk_begin().typecode) {
            match r.read_u32() {
                Ok(v) => Ok(Value(v as i64)),
                Err(e) => Err(DecodeError::Io(e)),
            }
        } else {
            match r.read_i32() {
                Ok(v) => Ok(Value(v as i64)),
                Err(e) => Err(DecodeError::Io(e)),
            }
        }
    }
}

/// A chunk version stamp: one byte holding the major version in the high
/// nibble and the minor version in the low nibble.
#[derive(Debug, Clone, Copy, PartialEq, Eq, Structural)]
pub struct Version {
    pub inner: u8,
}

impl Version {
    /// Low nibble.
    pub fn minor(&self) -> (r: u8)
        ensures
            r == self.inner % 16,
            r < 16,
    {
        self.inner % 16
    }

    /// High nibble.
    pub fn major(&self) -> (r: u8)
        ensures
            r == self.inner / 16,
            r < 16,
    {
        self.inner / 16
    }

    /// Reads a version byte directly from the stream.
    pub fn deserialize(r: &mut Reader) -> (res: Result<Version, DecodeError>)
        ensures
            final(r).same_context(old(r)),
            ({
                let pos = old(r).position as int;
                let eff = old(r).spec_eff_len();
                if pos + 1 <= eff {
                    &&& res matches Ok(v)
                    &&& v.inner == le_bytes(old(r).data@.subrange(pos, pos + 1))
                    &&& final(r).position == pos + 1
                } else {
                    res matches Err(e) && e == DecodeError::Io(IoErrorKind::UnexpectedEof)
                }
            }),
    {
        match r.read_u8() {
            Ok(b) => Ok(Version { inner: b }),
            Err(e) => Err(DecodeError::Io(e)),
        }
    }

    /// Reads a version byte framed by its own chunk: opens the chunk,
    /// reads the byte inside it and advances past the chunk.
    pub fn deserialize_normal(r: &mut Reader) -> (res: Result<Version, DecodeError>)
        ensures
            final(r).data@ == old(r).data@,
            final(r).limit == old(r).limit,
            final(r).version == old(r).version,
            spec_normal_version_post(
                old(r).data@,
                old(r).position as int,
                old(r).spec_eff_len(),
                old(r).version,
                res,
                final(r).position as int,
            ),
    {
        let begin = Begin::deserialize(r)?;
        let chunk = Chunk::open_body(r, begin)?;
        let version = match Version::deserialize(r) {
            Ok(v) => v,
            Err(e) => {
                chunk.close(r);
                return Err(e);
            }
        };
        chunk.close(r);
        Ok(version)
    }
}

/// Whether a chunk-framed version stamp decodes at `pos` in a window
/// ending at `eff`: its framing header must fit the window, declare a
/// positive payload with a representable end, and the version byte must
/// lie within both the payload and the window.
pub open spec fn spec_normal_version_ok(
    d: Seq<u8>,
    pos: int,
    eff: int,
    version: FileVersion,
) -> bool {
    let w = spec_size_of_length(version) as int;
    let hdr_end = pos + 4 + w;
    let tc = le_bytes(d.subrange(pos, pos + 4)) as u32;
    let value = if w == 8 {
        le_i64(d.subrange(pos + 4, pos + 12))
    } else if spec_is_unsigned(tc) {
        le_bytes(d.subrange(pos + 4, pos + 8))
    } else {
        le_i32(d.subrange(pos + 4, pos + 8))
    };
    &&& hdr_end + 1 <= eff
    &&& 0 < value
    &&& hdr_end + value <= u64::MAX
}

/// One past the payload of the chunk whose header lies at `pos`.
pub open spec fn spec_chunk_end_at(d: Seq<u8>, pos: int, version: FileVersion) -> int {
    let w = spec_size_of_length(version) as int;
    let hdr_end = pos + 4 + w;
    let tc = le_bytes(d.subrange(pos, pos + 4)) as u32;
    let value = if w == 8 {
        le_i64(d.subrange(pos + 4, pos + 12))
    } else if spec_is_unsigned(tc) {
        le_bytes(d.subrange(pos + 4, pos + 8))
    } else {
        le_i32(d.subrange(pos + 4, pos + 8))
    };
    hdr_end + value
}

/// What decoding a chunk-framed version stamp at `pos` yields: the
/// stamp is the first payload byte, and the cursor lands one past the
/// framing chunk.
pub open spec fn spec_normal_version_post(
    d: Seq<u8>,
    pos: int,
    eff: int,
    version: FileVersion,
    res: Result<Version, DecodeError>,
    end: int,
) -> bool {
    let w = spec_size_of_length(version) as int;
    let hdr_end = pos + 4 + w;
    if spec_normal_version_ok(d, pos, eff, version) {
        &&& res matches Ok(v) && v.inner == le_bytes(d.subrange(hdr_end, hdr_end + 1))
        &&& end == spec_chunk_end_at(d, pos, version)
    } else {
        res is Err
    }
}

/// Failure of a sub-stream operation.
#[derive(Debug, Clone, Copy, PartialEq, Eq, Structural)]
pub enum ChunkError {
    /// A chunk with zero length.
    EmptyChunk,
    /// The position is outside the chunk's bounds.
    OutOfBounds,
    /// A seek to a negative or overflowing position.
    InvalidInput,
}

/// The length-bounded view of one chunk's payload: `length` bytes
/// starting at absolute position `offset` of the reader.
#[derive(Debug, Clone, Copy)]
pub struct Chunk {
    pub offset: u64,
    pub length: u64,
    pub begin: Begin,
    pub prev_limit: u64,
}

impl Chunk {
    /// A chunk is well formed when it has at least one byte and its last
    /// byte has a representable position.
    pub open spec fn wf(&self) -> bool {
        1 <= self.length && self.offset + self.length - 1 <= u64::MAX
    }

    /// One past the chunk's last byte.
    pub open spec fn spec_end(&self) -> int {
        self.offset + self.length
    }

    /// Makes the view of `length` bytes at `offset`. A zero length or an
    /// unrepresentable last position is refused.
    pub fn new(offset: u64, length: u64, begin: Begin) -> (res: Result<Chunk, ChunkError>)
        ensures
            if length == 0 {
                res matches Err(e) && e == ChunkError::EmptyChunk
            } else if offset + length - 1 > u64::MAX {
                res matches Err(e) && e == ChunkError::InvalidInput
            } else {
                &&& res matches Ok(c)
                &&& c.offset == offset
                &&& c.length == length
                &&& c.begin == begin
                &&& c.prev_limit == u64::MAX
                &&& c.wf()
            },
    {
        if length == 0 {
            Err(ChunkError::EmptyChunk)
        } else if length - 1 > u64::MAX - offset {
            Err(ChunkError::InvalidInput)
        } else {
            Ok(Chunk { offset, length, begin, prev_limit: u64::MAX })
        }
    }

    /// Absolute position of the chunk's first byte.
    pub fn start_position(&self) -> (r: u64)
        ensures
            r == self.offset,
    {
        self.offset
    }

    /// Absolute position of the chunk's last byte.
    pub fn end_position(&self) -> (r: u64)
        requires
            self.wf(),
        ensures
            r == self.offset + self.length - 1,
    {
        self.offset + (self.length - 1)
    }

    /// Payload length in bytes.
    pub fn length(&self) -> (r: u64)
        ensures
            r == self.length,
    {
        self.length
    }

    /// The chunk header this view was made from.
    pub fn begin(&self) -> (r: Begin)
        ensures
            r == self.begin,
    {
        self.begin
    }

    /// How many payload bytes lie at or after the reader's position;
    /// fails when the position is before the chunk.
    pub fn remainder_length(&self, r: &Reader) -> (res: Result<u64, ChunkError>)
        requires
            self.wf(),
        ensures
            if r.position < self.offset {
                res matches Err(e) && e == ChunkError::OutOfBounds
            } else {
                res matches Ok(k) && k == if r.position < self.spec_end() {
                    self.spec_end() - r.position
                } else {
                    0
                }
            },
    {
        if r.position() < self.offset {
            Err(ChunkError::OutOfBounds)
        } else {
            let end = self.offset + (self.length - 1);
            if r.position() <= end {
                Ok(end - r.position() + 1)
            } else {
                Ok(0)
            }
        }
    }

    /// Reads up to `n` bytes, clamped to the payload and to the data;
    /// returns what was read, possibly nothing at the chunk's end.
    pub fn read(&self, r: &mut Reader, n: usize) -> (res: Result<Vec<u8>, ChunkError>)
        requires
            self.wf(),
        ensures
            final(r).same_context(old(r)),
            ({
                let pos = old(r).position as int;
                let eff = old(r).spec_eff_len();
                if pos < self.offset {
                    &&& res matches Err(e) && e == ChunkError::OutOfBounds
                    &&& final(r).position == old(r).position
                } else {
                    let rem = if pos < self.spec_end() {
                        self.spec_end() - pos
                    } else {
                        0
                    };
                    let avail = if pos < eff {
                        eff - pos
                    } else {
                        0
                    };
                    let k = vstd::math::min(n as int, vstd::math::min(rem, avail));
                    &&& res matches Ok(v)
                    &&& v@.len() == k
                    &&& pos <= eff ==> v@ == old(r).data@.subrange(pos, pos + k)
                    &&& final(r).position == pos + k
                }
            }),
    {
        if r.position() < self.offset {
            return Err(ChunkError::OutOfBounds);
        }
        let end = self.offset + (self.length - 1);
        let rem: u64 = if r.position() <= end {
            end - r.position() + 1
        } else {
            0
        };
        let eff = r.eff_len();
        let avail: u64 = if r.position() < eff {
            eff - r.position()
        } else {
            0
        };
        let mut k: u64 = n as u64;
        if rem < k {
            k = rem;
        }
        if avail < k {
            k = avail;
        }
        if k == 0 {
            proof {
                if old(r).position <= old(r).spec_eff_len() {
                    assert(old(r).data@.subrange(
                        old(r).position as int,
                        old(r).position as int,
                    ) =~= Seq::<u8>::empty());
                }
            }
            return Ok(Vec::new());
        }
        match r.read_exact(k as usize) {
            Ok(v) => Ok(v),
            Err(_) => Err(ChunkError::OutOfBounds),
        }
    }

    /// Moves the reader within the chunk; returns the new position
    /// relative to the chunk start. Seeks are confined to the chunk: a
    /// target before the chunk start or past one byte after its last is
    /// out of bounds, and an overflowing target is invalid input. Every
    /// accepted seek returns a relative position between zero and the
    /// length and leaves the reader inside the chunk's slice of the
    /// parent, `[offset, offset + length]`. Seeking to `End(1)` — the
    /// largest accepted target — is the idiom that advances past the
    /// chunk.
    pub fn seek(&self, r: &mut Reader, from: SeekFrom) -> (res: Result<u64, ChunkError>)
        requires
            self.wf(),
        ensures
            final(r).same_context(old(r)),
            res matches Ok(p) ==> 0 <= p <= self.length,
            res matches Ok(p) ==> self.offset <= final(r).position <= self.spec_end(),
            ({
                let target = match from {
                    SeekFrom::Start(v) => self.offset + v,
                    SeekFrom::End(d) => self.offset + self.length - 1 + d,
                    SeekFrom::Current(d) => old(r).position + d,
                };
                if !(0 <= target <= u64::MAX) {
                    &&& res matches Err(e) && e == ChunkError::InvalidInput
                    &&& final(r).position == old(r).position
                } else if target < self.offset || target > self.spec_end() {
                    &&& res matches Err(e) && e == ChunkError::OutOfBounds
                    &&& final(r).position == old(r).position
                } else {
                    &&& res matches Ok(p) && p == target - self.offset
                    &&& final(r).position == target
                }
            }),
    {
        let target: Option<u64> = match from {
            SeekFrom::Start(v) => self.offset.checked_add(v),
            SeekFrom::End(d) => {
                let end = self.offset + (self.length - 1);
                end.checked_add_signed(d)
            }
            SeekFrom::Current(d) => r.position().checked_add_signed(d),
        };
        match target {
            Some(p) => {
                let end = self.offset + (self.length - 1);
                if p < self.offset || (p > end && p - end > 1) {
                    Err(ChunkError::OutOfBounds)
                } else {
                    r.set_position(p);
                    Ok(p - self.offset)
                }
            }
            None => Err(ChunkError::InvalidInput),
        }
    }

    /// Opens the payload of a decoded header as a sub-stream: the chunk
    /// starts at the reader's position and narrows the read window to its
    /// end. The header's value must be a positive length.
    pub fn open_body(r: &mut Reader, begin: Begin) -> (res: Result<Chunk, DecodeError>)
        ensures
            final(r).data@ == old(r).data@,
            final(r).position == old(r).position,
            final(r).version == old(r).version,
            final(r).chunk_begin == old(r).chunk_begin,
            ({
                let pos = old(r).position as int;
                if begin.value < 0 {
                    &&& res matches Err(e) && e == DecodeError::InvalidLength
                    &&& final(r).limit == old(r).limit
                } else if begin.value == 0 {
                    &&& res matches Err(e) && e == DecodeError::EmptyChunk
                    &&& final(r).limit == old(r).limit
                } else if pos + begin.value > u64::MAX {
                    &&& res matches Err(e) && e == DecodeError::InvalidInput
                    &&& final(r).limit == old(r).limit
                } else {
                    &&& res matches Ok(c)
                    &&& c.offset == old(r).position
                    &&& c.length == begin.value
                    &&& c.begin == begin
                    &&& c.prev_limit == old(r).limit
                    &&& c.wf()
                    &&& c.spec_end() <= u64::MAX
                    &&& final(r).limit == if c.spec_end() <= old(r).limit {
                        c.spec_end() as u64
                    } else {
                        old(r).limit
                    }
                }
            }),
    {
        if begin.value < 0 {
            return Err(DecodeError::InvalidLength);
        }
        if begin.value == 0 {
            return Err(DecodeError::EmptyChunk);
        }
        let length = begin.value as u64;
        let offset = r.position();
        if length > u64::MAX - offset {
            return Err(DecodeError::InvalidInput);
        }
        let end = offset + length;
        let chunk = Chunk { offset, length, begin, prev_limit: r.limit };
        if end <= r.limit {
            r.limit = end;
        }
        Ok(chunk)
    }

    /// Leaves the chunk: the reader stands at the first byte after the
    /// payload and its read window is as it was before the chunk was
    /// opened, no matter how much of the payload was consumed.
    pub fn close(&self, r: &mut Reader)
        requires
            self.wf(),
            self.offset + self.length <= u64::MAX,
        ensures
            final(r).data@ == old(r).data@,
            final(r).version == old(r).version,
            final(r).chunk_begin == old(r).chunk_begin,
            final(r).position == self.offset + self.length,
            final(r).limit == self.prev_limit,
    {
        r.limit = self.prev_limit;
        r.set_position(self.offset + self.length);
    }
}

/// The major and minor nibbles of a chunk version byte reassemble to the
/// byte: `major * 16 + minor == b`, with both nibbles below 16.
pub proof fn lemma_version_nibbles_round_trip(b: u8)
    ensures
        b / 16 < 16,
        b % 16 < 16,
        (b / 16) * 16 + (b % 16) == b,
{
}

} // verus!
