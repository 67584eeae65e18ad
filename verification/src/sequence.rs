//! Length-prefixed sequences.
//!
//! A sequence is a signed 32-bit element count followed by that many
//! elements. A negative count is an invalid length, and fewer valid
//! elements than declared is an error.

use vstd::prelude::*;

use crate::error::DecodeError;
use crate::numbers::le_i32;
use crate::reader::{IoErrorKind, Reader};

verus! {

/// A decoded length-prefixed sequence.
#[derive(Debug)]
pub struct Sequence<T> {
    pub data: Vec<T>,
}

impl Sequence<u8> {
    /// Decodes a length-prefixed run of bytes.
    pub fn deserialize(r: &mut Reader) -> (res: Result<Sequence<u8>, DecodeError>)
        ensures
            final(r).same_context(old(r)),
            ({
                let pos = old(r).position as int;
                let eff = old(r).spec_eff_len();
                if pos + 4 > eff {
                    &&& res matches Err(e) && e == DecodeError::Io(IoErrorKind::UnexpectedEof)
                    &&& final(r).position == old(r).spec_pos_after_failed_read(pos)
                } else {
                    let len = le_i32(old(r).data@.subrange(pos, pos + 4));
                    if len < 0 {
                        &&& res matches Err(e) && e == DecodeError::InvalidLength
                        &&& final(r).position == pos + 4
                    } else if pos + 4 + len > eff {
                        &&& res matches Err(e) && e == DecodeError::Io(IoErrorKind::UnexpectedEof)
                        &&& final(r).position == eff
                    } else {
                        &&& res matches Ok(s)
                        &&& s.data@ == old(r).data@.subrange(pos + 4, pos + 4 + len)
                        &&& final(r).position == pos + 4 + len
                    }
                }
            }),
    {
        let len = match r.read_i32() {
            Ok(v) => v,
            Err(e) => {
                return Err(DecodeError::Io(e));
            }
        };
        if len < 0 {
            return Err(DecodeError::InvalidLength);
        }
        match r.read_exact(len as usize) {
            Ok(bytes) => Ok(Sequence { data: bytes }),
            Err(e) => Err(DecodeError::Io(e)),
        }
    }
}

} // verus!
