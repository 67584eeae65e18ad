//! The comment block that follows the archive version.

use vstd::prelude::*;

use crate::chunk::{spec_is_unsigned, spec_size_of_length, Begin, Chunk};
use crate::error::DecodeError;
use crate::numbers::{le_bytes, le_i64};
use crate::reader::Reader;
use crate::version::Version as FileVersion;
use crate::string::{deserialize_text_to_end, utf8_decode};
use crate::typecode;

verus! {

/// The archive comment text.
#[derive(Debug)]
pub struct Comment(pub String);

/// What decoding the comment at `pos` yields: the chunk header there
/// must fit, carry the comment typecode and declare a positive,
/// representable payload, and the payload within the window must be
/// UTF-8 text; the cursor then lands one past the chunk.
pub open spec fn spec_comment_post(
    d: Seq<u8>,
    pos: int,
    eff: int,
    version: FileVersion,
    res: Result<Comment, DecodeError>,
    end: int,
) -> bool {
    let w = spec_size_of_length(version) as int;
    let tc = le_bytes(d.subrange(pos, pos + 4));
    let hdr_end = pos + 4 + w;
    let value = if w == 8 {
        le_i64(d.subrange(pos + 4, pos + 12))
    } else {
        le_bytes(d.subrange(pos + 4, pos + 8))
    };
    if hdr_end <= eff && tc == typecode::COMMENTBLOCK && 0 < value && hdr_end + value
        <= u64::MAX {
        let body_end = vstd::math::min(hdr_end + value, eff);
        match utf8_decode(d.subrange(hdr_end, body_end)) {
            Some(t) => {
                &&& res matches Ok(c) && c.0@ == t
                &&& end == hdr_end + value
            },
            None => res is Err,
        }
    } else {
        res is Err
    }
}

impl Comment {
    /// Opens the chunk that must carry the comment typecode and reads
    /// its whole payload as UTF-8 text.
    pub fn deserialize(r: &mut Reader) -> (res: Result<Comment, DecodeError>)
        ensures
            final(r).data@ == old(r).data@,
            final(r).version == old(r).version,
            res is Ok ==> final(r).limit == old(r).limit,
            res is Ok ==> final(r).chunk_begin.typecode == typecode::COMMENTBLOCK,
            spec_comment_post(
                old(r).data@,
                old(r).position as int,
                old(r).spec_eff_len(),
                old(r).version,
                res,
                final(r).position as int,
            ),
    {
        let begin = Begin::deserialize(r)?;
        if begin.typecode != typecode::COMMENTBLOCK {
            return Err(DecodeError::InvalidTypecode);
        }
        proof {
            assert((typecode::SHORT & typecode::COMMENTBLOCK) == 0) by (bit_vector);
            assert(spec_is_unsigned(typecode::COMMENTBLOCK));
        }
        let chunk = Chunk::open_body(r, begin)?;
        let text = match deserialize_text_to_end(r) {
            Ok(t) => t,
            Err(e) => {
                chunk.close(r);
                return Err(e);
            }
        };
        chunk.close(r);
        Ok(Comment(text))
    }
}

} // verus!
