//! UUIDs as stored in 3dm archives.

use vstd::prelude::*;

use crate::error::DecodeError;
use crate::numbers::le_bytes;
use crate::reader::{IoErrorKind, Reader};

verus! {

/// A UUID: one 32-bit group, two 16-bit groups and four raw bytes, all
/// little-endian.
#[derive(Debug, Clone, Copy, PartialEq, Eq)]
pub struct Uuid {
    pub data1: u32,
    pub data2: u16,
    pub data3: u16,
    pub data4: [u8; 4],
}

impl Uuid {
    /// Reads the four groups in order.
    pub fn deserialize(r: &mut Reader) -> (res: Result<Uuid, DecodeError>)
        ensures
            final(r).same_context(old(r)),
            ({
                let pos = old(r).position as int;
                let eff = old(r).spec_eff_len();
                let d = old(r).data@;
                if pos + 12 <= eff {
                    &&& res matches Ok(u)
                    &&& u.data1 == le_bytes(d.subrange(pos, pos + 4))
                    &&& u.data2 == le_bytes(d.subrange(pos + 4, pos + 6))
                    &&& u.data3 == le_bytes(d.subrange(pos + 6, pos + 8))
                    &&& u.data4@ == d.subrange(pos + 8, pos + 12)
                    &&& final(r).position == pos + 12
                } else {
                    &&& res matches Err(e) && e == DecodeError::Io(IoErrorKind::UnexpectedEof)
                    &&& final(r).position == old(r).spec_pos_after_failed_read(pos)
                }
            }),
    {
        let data1 = match r.read_u32() {
            Ok(v) => v,
            Err(e) => {
                return Err(DecodeError::Io(e));
            }
        };
        let data2 = match r.read_u16() {
            Ok(v) => v,
            Err(e) => {
                return Err(DecodeError::Io(e));
            }
        };
        let data3 = match r.read_u16() {
            Ok(v) => v,
            Err(e) => {
                return Err(DecodeError::Io(e));
            }
        };
        let tail = match r.read_exact(4) {
            Ok(b) => b,
            Err(e) => {
                return Err(DecodeError::Io(e));
            }
        };
        let data4: [u8; 4] = [tail[0], tail[1], tail[2], tail[3]];
        proof {
            assert(data4@ =~= tail@);
        }
        Ok(Uuid { data1, data2, data3, data4 })
    }
}

} // verus!
