//! Length-prefixed text.
//!
//! Narrow strings are a 32-bit byte count followed by that many UTF-8
//! bytes. Wide strings are a 32-bit code unit count (including a
//! trailing NUL) followed by that many 16-bit little-endian UTF-16
//! units; the NUL is consumed but not part of the text.

use vstd::prelude::*;

use crate::error::DecodeError;
use crate::numbers::{le_bytes, lemma_le_bytes_2, lemma_le_bytes_4};
use crate::reader::{IoErrorKind, Reader};
use vstd::arithmetic::div_mod::{lemma_div_denominator, lemma_fundamental_div_mod, lemma_small_mod};

verus! {

/// Text decoded from a UTF-8 byte sequence, or nothing when the bytes
/// are not valid UTF-8.
pub uninterp spec fn utf8_decode(bytes: Seq<u8>) -> Option<Seq<char>>;

/// Text decoded from a UTF-16 code unit sequence, or nothing when the
/// units are not valid UTF-16.
pub uninterp spec fn utf16_decode(units: Seq<u16>) -> Option<Seq<char>>;

/// Relies on String::from_utf8: the outcome depends on the bytes alone;
/// valid UTF-8 yields the decoded text, anything else is refused.
#[verifier::external_body]
fn string_from_utf8(bytes: Vec<u8>) -> (r: Option<String>)
    ensures
        match r {
            Some(s) => utf8_decode(bytes@) == Some(s@),
            None => utf8_decode(bytes@) is None,
        },
{
    match String::from_utf8(bytes) {
        Ok(s) => Some(s),
        Err(_) => None,
    }
}

/// Relies on String::from_utf16: the outcome depends on the units alone;
/// valid UTF-16 yields the decoded text, anything else is refused.
#[verifier::external_body]
fn string_from_utf16(units: &Vec<u16>) -> (r: Option<String>)
    ensures
        match r {
            Some(s) => utf16_decode(units@) == Some(s@),
            None => utf16_decode(units@) is None,
        },
{
    match String::from_utf16(units.as_slice()) {
        Ok(s) => Some(s),
        Err(_) => None,
    }
}

/// Reads everything left in the window and decodes it as UTF-8 text.
/// This is how a chunk payload is read as a string: the enclosing chunk
/// supplies the length.
pub fn deserialize_text_to_end(r: &mut Reader) -> (res: Result<String, DecodeError>)
    ensures
        final(r).same_context(old(r)),
        ({
            let pos = old(r).position as int;
            let eff = old(r).spec_eff_len();
            let raw = if pos <= eff {
                old(r).data@.subrange(pos, eff)
            } else {
                Seq::<u8>::empty()
            };
            &&& final(r).position == if pos <= eff {
                eff
            } else {
                pos
            }
            &&& match utf8_decode(raw) {
                Some(t) => res matches Ok(s) && s@ == t,
                None => res matches Err(e) && e == DecodeError::Io(IoErrorKind::InvalidData),
            }
        }),
{
    let bytes = r.read_to_end();
    match string_from_utf8(bytes) {
        Some(s) => Ok(s),
        None => Err(DecodeError::Io(IoErrorKind::InvalidData)),
    }
}

/// Text and end position of a narrow string parse at `pos` in a window
/// ending at `eff`; nothing on any failure.
pub open spec fn spec_string_at(data: Seq<u8>, pos: int, eff: int) -> Option<(Seq<char>, int)> {
    if pos + 4 > eff {
        None
    } else {
        let len = le_bytes(data.subrange(pos, pos + 4));
        if pos + 4 + len > eff {
            None
        } else {
            match utf8_decode(data.subrange(pos + 4, pos + 4 + len)) {
                Some(t) => Some((t, pos + 4 + len)),
                None => None,
            }
        }
    }
}

/// A narrow string: 32-bit byte count, then that many UTF-8 bytes.
pub struct StringWithLength(pub String);

impl StringWithLength {
    /// Decodes a length-prefixed narrow string. A declared length that
    /// exceeds what the window holds is an invalid length.
    pub fn deserialize(r: &mut Reader) -> (res: Result<StringWithLength, DecodeError>)
        ensures
            final(r).same_context(old(r)),
            match spec_string_at(old(r).data@, old(r).position as int, old(r).spec_eff_len()) {
                Some((text, end)) => {
                    &&& res matches Ok(s) && s.0@ == text
                    &&& final(r).position == end
                },
                None => res is Err,
            },
            ({
                let pos = old(r).position as int;
                let eff = old(r).spec_eff_len();
                if pos + 4 > eff {
                    &&& res matches Err(e) && e == DecodeError::Io(IoErrorKind::UnexpectedEof)
                    &&& final(r).position == old(r).spec_pos_after_failed_read(pos)
                } else {
                    let len = le_bytes(old(r).data@.subrange(pos, pos + 4));
                    if pos + 4 + len > eff {
                        &&& res matches Err(e) && e == DecodeError::InvalidLength
                        &&& final(r).position == eff
                    } else {
                        &&& final(r).position == pos + 4 + len
                        &&& match utf8_decode(old(r).data@.subrange(pos + 4, pos + 4 + len)) {
                            Some(t) => res matches Ok(s) && s.0@ == t,
                            None => res matches Err(e) && e == DecodeError::Io(
                                IoErrorKind::InvalidData,
                            ),
                        }
                    }
                }
            }),
    {
        let len = match r.read_u32() {
            Ok(v) => v,
            Err(e) => {
                return Err(DecodeError::Io(e));
            }
        };
        let eff = r.eff_len();
        if (len as u64) > eff - r.position() {
            let _rest = r.read_to_end();
            return Err(DecodeError::InvalidLength);
        }
        let bytes = match r.read_exact(len as usize) {
            Ok(b) => b,
            Err(_) => {
                return Err(DecodeError::InvalidLength);
            }
        };
        match string_from_utf8(bytes) {
            Some(s) => Ok(StringWithLength(s)),
            None => Err(DecodeError::Io(IoErrorKind::InvalidData)),
        }
    }
}

/// The `count` 16-bit little-endian units at `pos`.
pub open spec fn spec_units(data: Seq<u8>, pos: int, count: nat) -> Seq<u16>
    decreases count,
{
    if count == 0 {
        Seq::empty()
    } else {
        seq![le_bytes(data.subrange(pos, pos + 2)) as u16] + spec_units(
            data,
            pos + 2,
            (count - 1) as nat,
        )
    }
}

/// Reading one more unit appends it at the end.
proof fn lemma_spec_units_snoc(data: Seq<u8>, pos: int, count: nat)
    ensures
        spec_units(data, pos, (count + 1) as nat) == spec_units(data, pos, count).push(
            le_bytes(data.subrange(pos + 2 * count, pos + 2 * count + 2)) as u16,
        ),
    decreases count,
{
    let last = le_bytes(data.subrange(pos + 2 * count, pos + 2 * count + 2)) as u16;
    if count == 0 {
        assert(spec_units(data, pos + 2, 0) =~= Seq::<u16>::empty());
        assert(spec_units(data, pos, 0) =~= Seq::<u16>::empty());
        assert(spec_units(data, pos, 1) =~= spec_units(data, pos, 0).push(last));
    } else {
        let first = le_bytes(data.subrange(pos, pos + 2)) as u16;
        lemma_spec_units_snoc(data, pos + 2, (count - 1) as nat);
        assert(spec_units(data, pos + 2, count) == spec_units(data, pos + 2, (count - 1) as nat)
            .push(last));
        assert(spec_units(data, pos, (count + 1) as nat) == seq![first] + spec_units(
            data,
            pos + 2,
            count,
        ));
        assert(spec_units(data, pos, count) == seq![first] + spec_units(
            data,
            pos + 2,
            (count - 1) as nat,
        ));
        assert(seq![first] + spec_units(data, pos + 2, (count - 1) as nat).push(last) =~= (
        seq![first] + spec_units(data, pos + 2, (count - 1) as nat)).push(last));
    }
}

/// Text and end position of a wide string parse at `pos` in a window
/// ending at `eff`; nothing on any failure.
pub open spec fn spec_wstring_at(data: Seq<u8>, pos: int, eff: int) -> Option<(Seq<char>, int)> {
    if pos + 4 > eff {
        None
    } else {
        let count = le_bytes(data.subrange(pos, pos + 4));
        if count == 0 || pos + 4 + 2 * count > eff {
            None
        } else {
            match utf16_decode(spec_units(data, pos + 4, (count - 1) as nat)) {
                Some(t) => Some((t, pos + 4 + 2 * count)),
                None => None,
            }
        }
    }
}

/// A wide string: 32-bit unit count including a trailing NUL, then that
/// many 16-bit little-endian UTF-16 units.
pub struct WStringWithLength(pub String);

impl WStringWithLength {
    /// Decodes a length-prefixed wide string: `count - 1` text units,
    /// then one more unit (the NUL) that is consumed and dropped. A zero
    /// count is an invalid length.
    pub fn deserialize(r: &mut Reader) -> (res: Result<WStringWithLength, DecodeError>)
        ensures
            final(r).same_context(old(r)),
            match spec_wstring_at(old(r).data@, old(r).position as int, old(r).spec_eff_len()) {
                Some((text, end)) => {
                    &&& res matches Ok(s) && s.0@ == text
                    &&& final(r).position == end
                },
                None => res is Err,
            },
            ({
                let pos = old(r).position as int;
                let eff = old(r).spec_eff_len();
                if pos + 4 > eff {
                    &&& res matches Err(e) && e == DecodeError::Io(IoErrorKind::UnexpectedEof)
                    &&& final(r).position == old(r).spec_pos_after_failed_read(pos)
                } else {
                    let count = le_bytes(old(r).data@.subrange(pos, pos + 4));
                    if count == 0 {
                        &&& res matches Err(e) && e == DecodeError::InvalidLength
                        &&& final(r).position == pos + 4
                    } else if pos + 4 + 2 * count > eff {
                        &&& res matches Err(e) && e == DecodeError::Io(IoErrorKind::UnexpectedEof)
                        &&& final(r).position == eff
                    } else {
                        let units = spec_units(old(r).data@, pos + 4, (count - 1) as nat);
                        &&& final(r).position == pos + 4 + 2 * count
                        &&& match utf16_decode(units) {
                            Some(t) => res matches Ok(s) && s.0@ == t,
                            None => res matches Err(e) && e == DecodeError::Io(
                                IoErrorKind::InvalidData,
                            ),
                        }
                    }
                }
            }),
    {
        let count = match r.read_u32() {
            Ok(v) => v,
            Err(e) => {
                return Err(DecodeError::Io(e));
            }
        };
        if count == 0 {
            return Err(DecodeError::InvalidLength);
        }
        let n = count - 1;
        let mut units: Vec<u16> = Vec::new();
        let mut i: u32 = 0;
        while i < n
            invariant
                i <= n,
                n == count - 1,
                1 <= count <= u32::MAX,
                r.same_context(old(r)),
                old(r).position + 4 <= old(r).spec_eff_len(),
                count == le_bytes(
                    old(r).data@.subrange(old(r).position as int, old(r).position + 4),
                ),
                r.position == old(r).position + 4 + 2 * i,
                r.position <= old(r).spec_eff_len(),
                units@ == spec_units(old(r).data@, old(r).position + 4, i as nat),
            decreases n - i,
        {
            let u = match r.read_u16() {
                Ok(v) => v,
                Err(e) => {
                    return Err(DecodeError::Io(e));
                }
            };
            proof {
                lemma_spec_units_snoc(old(r).data@, old(r).position + 4, i as nat);
            }
            units.push(u);
            i = i + 1;
        }
        match r.read_u16() {
            Ok(_) => {}
            Err(e) => {
                return Err(DecodeError::Io(e));
            }
        }
        match string_from_utf16(&units) {
            Some(s) => Ok(WStringWithLength(s)),
            None => Err(DecodeError::Io(IoErrorKind::InvalidData)),
        }
    }
}

/// Little-endian encoding of a 32-bit length.
pub open spec fn spec_le4(n: int) -> Seq<u8> {
    seq![
        (n % 256) as u8,
        ((n / 256) % 256) as u8,
        ((n / 0x1_0000) % 256) as u8,
        ((n / 0x100_0000) % 256) as u8,
    ]
}

/// The four little-endian bytes of a 32-bit value decode back to it.
pub proof fn lemma_le4_value(n: int)
    requires
        0 <= n <= u32::MAX,
    ensures
        le_bytes(spec_le4(n)) == n,
{
    lemma_le_bytes_4(spec_le4(n));
    lemma_fundamental_div_mod(n, 256);
    lemma_fundamental_div_mod(n / 256, 256);
    lemma_fundamental_div_mod(n / 0x1_0000, 256);
    lemma_div_denominator(n, 256, 256);
    lemma_div_denominator(n, 0x1_0000, 256);
    lemma_small_mod((n / 0x100_0000) as nat, 256);
}

/// Little-endian encoding of 16-bit units.
pub open spec fn spec_le2_units(units: Seq<u16>) -> Seq<u8>
    decreases units.len(),
{
    if units.len() == 0 {
        Seq::empty()
    } else {
        seq![(units[0] % 256) as u8, (units[0] / 256) as u8] + spec_le2_units(
            units.subrange(1, units.len() as int),
        )
    }
}

/// The units parsed from a window depend only on the bytes under them.
proof fn lemma_spec_units_depends(d1: Seq<u8>, p1: int, d2: Seq<u8>, p2: int, count: nat)
    requires
        0 <= p1,
        0 <= p2,
        p1 + 2 * count <= d1.len(),
        p2 + 2 * count <= d2.len(),
        d1.subrange(p1, p1 + 2 * count) == d2.subrange(p2, p2 + 2 * count),
    ensures
        spec_units(d1, p1, count) == spec_units(d2, p2, count),
    decreases count,
{
    if count > 0 {
        assert(d1.subrange(p1, p1 + 2) =~= d2.subrange(p2, p2 + 2));
        assert forall|k: int| 0 <= k < 2 * count - 2 implies #[trigger] d1.subrange(
            p1 + 2,
            p1 + 2 * count,
        )[k] == d2.subrange(p2 + 2, p2 + 2 * count)[k] by {
            assert(d1.subrange(p1, p1 + 2 * count)[k + 2] == d1[p1 + 2 + k]);
            assert(d2.subrange(p2, p2 + 2 * count)[k + 2] == d2[p2 + 2 + k]);
            assert(d1.subrange(p1, p1 + 2 * count)[k + 2] == d2.subrange(p2, p2 + 2 * count)[k
                + 2]);
            assert(d1.subrange(p1 + 2, p1 + 2 * count)[k] == d1[p1 + 2 + k]);
            assert(d2.subrange(p2 + 2, p2 + 2 * count)[k] == d2[p2 + 2 + k]);
        }
        assert(d1.subrange(p1 + 2, p1 + 2 * count) =~= d2.subrange(p2 + 2, p2 + 2 * count));
        lemma_spec_units_depends(d1, p1 + 2, d2, p2 + 2, (count - 1) as nat);
    }
}

/// Parsing `count` units out of the encoding of `units` yields the first
/// `count` of them.
proof fn lemma_units_of_le2(units: Seq<u16>, count: nat)
    requires
        count <= units.len(),
    ensures
        spec_le2_units(units).len() == 2 * units.len(),
        spec_units(spec_le2_units(units), 0, count) == units.take(count as int),
    decreases count, units.len(),
{
    let data = spec_le2_units(units);
    if units.len() == 0 {
        assert(units.take(0) =~= Seq::<u16>::empty());
    } else {
        let tail = units.subrange(1, units.len() as int);
        lemma_units_of_le2(tail, if count == 0 { 0 } else { (count - 1) as nat });
        assert(data.len() == 2 * units.len());
        if count > 0 {
            let u = units[0];
            assert(data.subrange(0, 2) =~= seq![(u % 256) as u8, (u / 256) as u8]);
            lemma_le_bytes_2(data.subrange(0, 2));
            lemma_fundamental_div_mod(u as int, 256);
            assert(le_bytes(data.subrange(0, 2)) == u);
            let tail_data = spec_le2_units(tail);
            assert(data.subrange(2, 2 + 2 * (count - 1)) =~= tail_data.subrange(
                0,
                2 * (count - 1),
            ));
            lemma_spec_units_depends(data, 2, tail_data, 0, (count - 1) as nat);
            assert(spec_units(data, 0, count) =~= units.take(count as int));
        }
    }
}

/// Round trip of the narrow length prefix: a stream made of the payload
/// length and then the payload decodes to exactly the payload, and a
/// stream whose declared length is one more than the payload holds is
/// short, which the decoder refuses as an invalid length.
pub proof fn lemma_string_with_length_round_trip(payload: Seq<u8>)
    requires
        payload.len() + 1 <= u32::MAX,
    ensures
        ({
            let data = spec_le4(payload.len() as int) + payload;
            &&& le_bytes(data.subrange(0, 4)) == payload.len()
            &&& data.subrange(4, 4 + payload.len() as int) == payload
        }),
        ({
            let data = spec_le4(payload.len() + 1 as int) + payload;
            &&& le_bytes(data.subrange(0, 4)) == payload.len() + 1
            &&& 4 + le_bytes(data.subrange(0, 4)) > data.len()
        }),
{
    let data1 = spec_le4(payload.len() as int) + payload;
    assert(data1.subrange(0, 4) =~= spec_le4(payload.len() as int));
    lemma_le4_value(payload.len() as int);
    assert(data1.subrange(4, 4 + payload.len() as int) =~= payload);
    let data2 = spec_le4(payload.len() + 1 as int) + payload;
    assert(data2.subrange(0, 4) =~= spec_le4(payload.len() + 1 as int));
    lemma_le4_value(payload.len() + 1 as int);
}

/// Round trip of the wide length prefix: for units that end with a NUL,
/// a stream made of the unit count and the encoded units decodes to the
/// units without the final NUL.
pub proof fn lemma_wstring_round_trip(units: Seq<u16>)
    requires
        1 <= units.len(),
        units.len() <= u32::MAX,
    ensures
        ({
            let data = spec_le4(units.len() as int) + spec_le2_units(units);
            &&& le_bytes(data.subrange(0, 4)) == units.len()
            &&& data.len() == 4 + 2 * units.len()
            &&& spec_units(data, 4, (units.len() - 1) as nat) == units.take(units.len() - 1)
        }),
{
    let enc = spec_le2_units(units);
    let data = spec_le4(units.len() as int) + enc;
    assert(data.subrange(0, 4) =~= spec_le4(units.len() as int));
    lemma_le4_value(units.len() as int);
    lemma_units_of_le2(units, (units.len() - 1) as nat);
    assert(data.subrange(4, 4 + 2 * (units.len() - 1)) =~= enc.subrange(
        0,
        2 * (units.len() - 1),
    ));
    lemma_spec_units_depends(data, 4, enc, 0, (units.len() - 1) as nat);
}

} // verus!
