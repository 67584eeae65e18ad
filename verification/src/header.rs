//! The archive header: the fixed 24-byte ASCII literal
//! `"3D Geometry File Format "` that opens every 3dm file.

use vstd::prelude::*;

use crate::numbers::bytes_eq;
use crate::reader::{IoErrorKind, Reader};

verus! {

/// Marker for a successfully decoded archive header.
#[derive(Debug)]
pub struct Header;

/// Failure of the header decode.
#[derive(Debug, PartialEq, Eq, Structural)]
pub enum HeaderError {
    InvalidHeader,
    IoError(IoErrorKind),
}

/// The bytes of the ASCII literal `"3D Geometry File Format "`.
pub open spec fn spec_file_begin() -> Seq<u8> {
    seq![
        0x33u8, 0x44u8, 0x20u8, 0x47u8, 0x65u8, 0x6fu8, 0x6du8, 0x65u8, 0x74u8, 0x72u8, 0x79u8,
        0x20u8, 0x46u8, 0x69u8, 0x6cu8, 0x65u8, 0x20u8, 0x46u8, 0x6fu8, 0x72u8, 0x6du8, 0x61u8,
        0x74u8, 0x20u8,
    ]
}

/// Builds the expected header bytes.
fn file_begin() -> (v: Vec<u8>)
    ensures
        v@ == spec_file_begin(),
{
    let mut v: Vec<u8> = Vec::new();
    v.push(0x33);
    v.push(0x44);
    v.push(0x20);
    v.push(0x47);
    v.push(0x65);
    v.push(0x6f);
    v.push(0x6d);
    v.push(0x65);
    v.push(0x74);
    v.push(0x72);
    v.push(0x79);
    v.push(0x20);
    v.push(0x46);
    v.push(0x69);
    v.push(0x6c);
    v.push(0x65);
    v.push(0x20);
    v.push(0x46);
    v.push(0x6f);
    v.push(0x72);
    v.push(0x6d);
    v.push(0x61);
    v.push(0x74);
    v.push(0x20);
    proof {
        assert(v@ =~= spec_file_begin());
    }
    v
}

impl Header {
    /// Reads 24 bytes and requires them to equal the header literal.
    pub fn deserialize(r: &mut Reader) -> (res: Result<Header, HeaderError>)
        ensures
            final(r).same_context(old(r)),
            ({
                let pos = old(r).position as int;
                let eff = old(r).spec_eff_len();
                if pos + 24 <= eff {
                    &&& final(r).position == pos + 24
                    &&& if old(r).data@.subrange(pos, pos + 24) == spec_file_begin() {
                        res matches Ok(_)
                    } else {
                        res matches Err(e) && e == HeaderError::InvalidHeader
                    }
                } else {
                    &&& res matches Err(e) && e == HeaderError::IoError(IoErrorKind::UnexpectedEof)
                    &&& final(r).position == old(r).spec_pos_after_failed_read(pos)
                }
            }),
    {
        let bytes = match r.read_exact(24) {
            Ok(b) => b,
            Err(e) => {
                return Err(HeaderError::IoError(e));
            }
        };
        let expected = file_begin();
        if bytes_eq(&bytes, &expected) {
            Ok(Header)
        } else {
            Err(HeaderError::InvalidHeader)
        }
    }
}

} // verus!
