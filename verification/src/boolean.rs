//! Booleans stored as 32-bit integers.

use vstd::prelude::*;

use crate::error::DecodeError;
use crate::numbers::le_i32;
use crate::reader::{IoErrorKind, Reader};

verus! {

/// A boolean read from a 32-bit little-endian integer: any non-zero
/// value is true.
pub struct BoolFromI32(pub bool);

impl BoolFromI32 {
    /// Reads four bytes and interprets them as a boolean.
    pub fn deserialize(r: &mut Reader) -> (res: Result<BoolFromI32, DecodeError>)
        ensures
            final(r).same_context(old(r)),
            ({
                let pos = old(r).position as int;
                let eff = old(r).spec_eff_len();
                if pos + 4 <= eff {
                    &&& res matches Ok(b)
                    &&& b.0 == (le_i32(old(r).data@.subrange(pos, pos + 4)) != 0)
                    &&& final(r).position == pos + 4
                } else {
                    &&& res matches Err(e) && e == DecodeError::Io(IoErrorKind::UnexpectedEof)
                    &&& final(r).position == old(r).spec_pos_after_failed_read(pos)
                }
            }),
    {
        match r.read_i32() {
            Ok(v) => Ok(BoolFromI32(v != 0)),
            Err(e) => Err(DecodeError::Io(e)),
        }
    }
}

} // verus!
