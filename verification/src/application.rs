//! The application record of the properties table.

use vstd::prelude::*;

use crate::chunk::Version as ChunkVersion;
use crate::error::DecodeError;
use crate::reader::Reader;
use crate::string::{spec_wstring_at, WStringWithLength};

verus! {

/// Name, address and description of the application that wrote the
/// archive.
#[derive(Debug)]
pub struct Application {
    pub name: String,
    pub url: String,
    pub details: String,
}

/// What decoding an application record at `pos` in a window ending at
/// `eff` yields: the result and the final cursor position `end`.
pub open spec fn spec_application_post(
    d: Seq<u8>,
    pos: int,
    eff: int,
    res: Result<Application, DecodeError>,
    end: int,
) -> bool {
    if pos + 1 > eff {
        res is Err
    } else {
        match spec_wstring_at(d, pos + 1, eff) {
            Some((name_text, p1)) => match spec_wstring_at(d, p1, eff) {
                Some((url_text, p2)) => match spec_wstring_at(d, p2, eff) {
                    Some((details_text, p3)) => {
                        &&& res matches Ok(a)
                        &&& a.name@ == name_text
                        &&& a.url@ == url_text
                        &&& a.details@ == details_text
                        &&& end == p3
                    },
                    None => res is Err,
                },
                None => res is Err,
            },
            None => res is Err,
        }
    }
}

impl Application {
    pub fn name(&self) -> (r: &str)
        ensures
            r@ == self.name@,
    {
        self.name.as_str()
    }

    pub fn url(&self) -> (r: &str)
        ensures
            r@ == self.url@,
    {
        self.url.as_str()
    }

    pub fn details(&self) -> (r: &str)
        ensures
            r@ == self.details@,
    {
        self.details.as_str()
    }

    /// Reads a chunk version byte (kept but not branched on) and then
    /// the three wide strings, in order.
    pub fn deserialize(r: &mut Reader) -> (res: Result<Application, DecodeError>)
        ensures
            final(r).same_context(old(r)),
            spec_application_post(
                old(r).data@,
                old(r).position as int,
                old(r).spec_eff_len(),
                res,
                final(r).position as int,
            ),
    {
        let _version = ChunkVersion::deserialize(r)?;
        let name = WStringWithLength::deserialize(r)?;
        let url = WStringWithLength::deserialize(r)?;
        let details = WStringWithLength::deserialize(r)?;
        Ok(Application { name: name.0, url: url.0, details: details.0 })
    }
}

impl Default for Application {
    /// Every field empty.
    fn default() -> (r: Application)
        ensures
            r.name@ == Seq::<char>::empty(),
            r.url@ == Seq::<char>::empty(),
            r.details@ == Seq::<char>::empty(),
    {
        Application { name: String::new(), url: String::new(), details: String::new() }
    }
}

} // verus!
