//! Timestamps: eight consecutive 32-bit fields.

use vstd::prelude::*;

use crate::error::DecodeError;
use crate::numbers::le_bytes;
use crate::reader::{IoErrorKind, Reader};

verus! {

/// A timestamp as stored in revision histories: eight unsigned 32-bit
/// little-endian fields in this order.
#[derive(Debug, Clone, Copy, PartialEq, Eq, Structural)]
pub struct Time {
    pub second: u32,
    pub minute: u32,
    pub hour: u32,
    pub month_day: u32,
    pub month: u32,
    pub year: u32,
    pub week_day: u32,
    pub year_day: u32,
}

/// The timestamp whose eight fields lie at `pos`.
pub open spec fn spec_time_at(data: Seq<u8>, pos: int) -> Time {
    Time {
        second: le_bytes(data.subrange(pos, pos + 4)) as u32,
        minute: le_bytes(data.subrange(pos + 4, pos + 8)) as u32,
        hour: le_bytes(data.subrange(pos + 8, pos + 12)) as u32,
        month_day: le_bytes(data.subrange(pos + 12, pos + 16)) as u32,
        month: le_bytes(data.subrange(pos + 16, pos + 20)) as u32,
        year: le_bytes(data.subrange(pos + 20, pos + 24)) as u32,
        week_day: le_bytes(data.subrange(pos + 24, pos + 28)) as u32,
        year_day: le_bytes(data.subrange(pos + 28, pos + 32)) as u32,
    }
}

impl Time {
    /// The timestamp with every field zero.
    pub open spec fn zero() -> Time {
        Time {
            second: 0,
            minute: 0,
            hour: 0,
            month_day: 0,
            month: 0,
            year: 0,
            week_day: 0,
            year_day: 0,
        }
    }

    /// Reads the eight fields in order.
    pub fn deserialize(r: &mut Reader) -> (res: Result<Time, DecodeError>)
        ensures
            final(r).same_context(old(r)),
            ({
                let pos = old(r).position as int;
                let eff = old(r).spec_eff_len();
                let d = old(r).data@;
                if pos + 32 <= eff {
                    &&& res matches Ok(t)
                    &&& t == spec_time_at(d, pos)
                    &&& t.second == le_bytes(d.subrange(pos, pos + 4))
                    &&& t.minute == le_bytes(d.subrange(pos + 4, pos + 8))
                    &&& t.hour == le_bytes(d.subrange(pos + 8, pos + 12))
                    &&& t.month_day == le_bytes(d.subrange(pos + 12, pos + 16))
                    &&& t.month == le_bytes(d.subrange(pos + 16, pos + 20))
                    &&& t.year == le_bytes(d.subrange(pos + 20, pos + 24))
                    &&& t.week_day == le_bytes(d.subrange(pos + 24, pos + 28))
                    &&& t.year_day == le_bytes(d.subrange(pos + 28, pos + 32))
                    &&& final(r).position == pos + 32
                } else {
                    &&& res matches Err(e) && e == DecodeError::Io(IoErrorKind::UnexpectedEof)
                    &&& final(r).position == old(r).spec_pos_after_failed_read(pos)
                }
            }),
    {
        let second = match r.read_u32() {
            Ok(v) => v,
            Err(e) => {
                return Err(DecodeError::Io(e));
            }
        };
        let minute = match r.read_u32() {
            Ok(v) => v,
            Err(e) => {
                return Err(DecodeError::Io(e));
            }
        };
        let hour = match r.read_u32() {
            Ok(v) => v,
            Err(e) => {
                return Err(DecodeError::Io(e));
            }
        };
        let month_day = match r.read_u32() {
            Ok(v) => v,
            Err(e) => {
                return Err(DecodeError::Io(e));
            }
        };
        let month = match r.read_u32() {
            Ok(v) => v,
            Err(e) => {
                return Err(DecodeError::Io(e));
            }
        };
        let year = match r.read_u32() {
            Ok(v) => v,
            Err(e) => {
                return Err(DecodeError::Io(e));
            }
        };
        let week_day = match r.read_u32() {
            Ok(v) => v,
            Err(e) => {
                return Err(DecodeError::Io(e));
            }
        };
        let year_day = match r.read_u32() {
            Ok(v) => v,
            Err(e) => {
                return Err(DecodeError::Io(e));
            }
        };
        Ok(Time { second, minute, hour, month_day, month, year, week_day, year_day })
    }
}

impl Default for Time {
    /// The all-zero timestamp.
    fn default() -> (r: Time)
        ensures
            r == Time::zero(),
    {
        Time {
            second: 0,
            minute: 0,
            hour: 0,
            month_day: 0,
            month: 0,
            year: 0,
            week_day: 0,
            year_day: 0,
        }
    }
}

} // verus!
