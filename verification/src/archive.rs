//! The archive orchestrator.
//!
//! An archive decode is a fixed sequence: header, file version,
//! comment, start section, properties, settings. Each step advances
//! the reader and may update the archive version it carries; any
//! failure is final.

use vstd::prelude::*;

use crate::chunk::spec_is_unsigned;
use crate::comment::{spec_comment_post, Comment};
use crate::error::DecodeError;
use crate::header::{spec_file_begin, Header, HeaderError};
use crate::properties::{spec_properties_v1_post, spec_properties_v2_post, Properties, PropertiesV1, PropertiesV2};
use crate::reader::Reader;
use crate::settings::{spec_settings_post, Settings};
use crate::start_section::{spec_start_scan, StartSection};
use crate::typecode;
use crate::version::{spec_version_block_value, spec_version_of, Version, VersionError};

verus! {

/// The decoded metadata of one archive.
#[derive(Debug)]
pub struct Archive {
    pub header: Header,
    pub version: Version,
    pub comment: Comment,
    pub start_section: StartSection,
    pub properties: Properties,
    pub settings: Settings,
}

/// The archive version named by the 8-byte ASCII block at `pos`.
pub open spec fn spec_archive_version_at(d: Seq<u8>, pos: int) -> Option<Version> {
    match spec_version_block_value(d.subrange(pos, pos + 8)) {
        Some(value) => spec_version_of(value),
        None => None,
    }
}

/// Settings stage of an archive decode: the settings table lies at
/// `pos`; on success the archive holds the comment, properties and
/// settings the earlier stages produced.
pub open spec fn spec_archive_settings_stage(
    d: Seq<u8>,
    pos: int,
    eff: int,
    ver: Version,
    comment: Comment,
    properties: Properties,
    res: Result<Archive, DecodeError>,
) -> bool {
    ||| (res matches Err(e) && (exists|se: int| spec_settings_post(d, pos, eff, ver, Err(e), se)))
    ||| (exists|st: Settings, s_end: int|
        {
            &&& #[trigger] spec_settings_post(d, pos, eff, ver, Ok(st), s_end)
            &&& res matches Ok(a)
            &&& a.comment == comment
            &&& a.properties == properties
            &&& a.settings == st
        })
}

/// Properties stage of an archive decode, at the archive version the
/// start section left behind: version 1 archives read the bare table
/// from absolute position 32, later ones the wrapped table at `pos`.
pub open spec fn spec_archive_properties_stage(
    d: Seq<u8>,
    pos: int,
    eff: int,
    ver: Version,
    comment: Comment,
    res: Result<Archive, DecodeError>,
) -> bool {
    if ver == Version::V1 {
        ||| (res matches Err(e) && (exists|pe: int|
            spec_properties_v1_post(d, 32, eff, ver, Err(e), pe)))
        ||| (exists|p: PropertiesV1, p_end: int|
            {
                &&& #[trigger] spec_properties_v1_post(d, 32, eff, ver, Ok(p), p_end)
                &&& spec_archive_settings_stage(
                    d,
                    p_end,
                    eff,
                    ver,
                    comment,
                    Properties::V1(p),
                    res,
                )
            })
    } else {
        ||| (res matches Err(e) && (exists|pe: int|
            spec_properties_v2_post(d, pos, eff, ver, Err(e), pe)))
        ||| (exists|p: PropertiesV2, p_end: int|
            {
                &&& #[trigger] spec_properties_v2_post(d, pos, eff, ver, Ok(p), p_end)
                &&& spec_archive_settings_stage(
                    d,
                    p_end,
                    eff,
                    ver,
                    comment,
                    Properties::V2(p),
                    res,
                )
            })
    }
}

/// Start-section stage of an archive decode: on a version 1 context the
/// preamble is scanned from `pos` — the scan decides the layout version
/// and the position the properties are read from; later contexts skip
/// the stage. The scan's value field signedness follows the comment
/// chunk header, which is the context's current header here.
pub open spec fn spec_archive_start_stage(
    d: Seq<u8>,
    pos: int,
    eff: int,
    ver: Version,
    comment: Comment,
    res: Result<Archive, DecodeError>,
) -> bool {
    if ver != Version::V1 {
        spec_archive_properties_stage(d, pos, eff, ver, comment, res)
    } else {
        match spec_start_scan(d, pos, eff, spec_is_unsigned(typecode::COMMENTBLOCK)) {
            Some((upgrade, scan_end)) => {
                if upgrade {
                    spec_archive_properties_stage(d, scan_end, eff, Version::V2, comment, res)
                } else {
                    spec_archive_properties_stage(d, pos, eff, Version::V1, comment, res)
                }
            },
            None => res is Err,
        }
    }
}

/// Stages after the version block: comment at `pos`, then start
/// section, properties and settings, each at the position the previous
/// stage left. The decode fails exactly where a stage fails.
pub open spec fn spec_archive_tail_post(
    d: Seq<u8>,
    pos: int,
    eff: int,
    ver: Version,
    res: Result<Archive, DecodeError>,
) -> bool {
    ||| (res matches Err(e) && (exists|ce: int| spec_comment_post(d, pos, eff, ver, Err(e), ce)))
    ||| (exists|c: Comment, c_end: int|
        {
            &&& #[trigger] spec_comment_post(d, pos, eff, ver, Ok(c), c_end)
            &&& spec_archive_start_stage(d, c_end, eff, ver, c, res)
        })
}

/// What a whole archive decode from `pos` yields: the 24-byte header
/// literal, the version block naming a known version — recorded in the
/// result — and then the tail stages. The decode fails exactly when the
/// header or version block is wrong or a later stage fails.
pub open spec fn spec_archive_post(
    d: Seq<u8>,
    pos: int,
    eff: int,
    res: Result<Archive, DecodeError>,
) -> bool {
    if pos + 24 > eff {
        res is Err
    } else if d.subrange(pos, pos + 24) != spec_file_begin() {
        res is Err
    } else if pos + 32 > eff {
        res is Err
    } else {
        match spec_archive_version_at(d, pos + 24) {
            Some(ver) => {
                &&& (res matches Ok(a) ==> a.version == ver)
                &&& spec_archive_tail_post(d, pos + 32, eff, ver, res)
            },
            None => res is Err,
        }
    }
}

impl Archive {
    /// Runs the whole decode sequence: header, version, comment, start
    /// section, properties, settings. The result and every stage are
    /// pinned by [`spec_archive_post`]; the context version ends at the
    /// recorded version, or at version 2 where the start section found
    /// a version 1 archive with the later layout.
    pub fn deserialize(r: &mut Reader) -> (res: Result<Archive, DecodeError>)
        ensures
            final(r).data@ == old(r).data@,
            res matches Ok(a) ==> (final(r).version == a.version || (a.version == Version::V1
                && final(r).version == Version::V2)),
            spec_archive_post(
                old(r).data@,
                old(r).position as int,
                old(r).spec_eff_len(),
                res,
            ),
    {
        let ghost d = old(r).data@;
        let ghost pos0 = old(r).position as int;
        let ghost eff = old(r).spec_eff_len();
        let header = match Header::deserialize(r) {
            Ok(h) => h,
            Err(HeaderError::InvalidHeader) => {
                return Err(DecodeError::InvalidHeader);
            }
            Err(HeaderError::IoError(kind)) => {
                return Err(DecodeError::Io(kind));
            }
        };
        let version = match Version::deserialize(r) {
            Ok(v) => v,
            Err(VersionError::InvalidVersion) => {
                return Err(DecodeError::InvalidVersion);
            }
            Err(VersionError::IoError(kind)) => {
                return Err(DecodeError::Io(kind));
            }
        };
        let ghost tail_pos = pos0 + 32;
        let comment = match Comment::deserialize(r) {
            Ok(c) => c,
            Err(e) => {
                proof {
                    assert(spec_comment_post(d, tail_pos, eff, version, Err(e), r.position as int));
                }
                return Err(e);
            }
        };
        let ghost c_end = r.position as int;
        let start_section = match StartSection::deserialize(r) {
            Ok(s) => s,
            Err(e) => {
                proof {
                    assert(spec_archive_start_stage(
                        d,
                        c_end,
                        eff,
                        version,
                        comment,
                        Err::<Archive, DecodeError>(e),
                    ));
                    assert(spec_archive_tail_post(
                        d,
                        tail_pos,
                        eff,
                        version,
                        Err::<Archive, DecodeError>(e),
                    ));
                }
                return Err(e);
            }
        };
        let ghost ver2 = r.version;
        let ghost p_pos = r.position as int;
        let properties = match Properties::deserialize(r) {
            Ok(p) => p,
            Err(e) => {
                proof {
                    assert(spec_archive_properties_stage(
                        d,
                        p_pos,
                        eff,
                        ver2,
                        comment,
                        Err::<Archive, DecodeError>(e),
                    ));
                    assert(spec_archive_start_stage(
                        d,
                        c_end,
                        eff,
                        version,
                        comment,
                        Err::<Archive, DecodeError>(e),
                    ));
                    assert(spec_archive_tail_post(
                        d,
                        tail_pos,
                        eff,
                        version,
                        Err::<Archive, DecodeError>(e),
                    ));
                }
                return Err(e);
            }
        };
        let ghost prop_end = r.position as int;
        let settings = match Settings::deserialize(r) {
            Ok(s) => s,
            Err(e) => {
                proof {
                    assert(spec_archive_settings_stage(
                        d,
                        prop_end,
                        eff,
                        ver2,
                        comment,
                        properties,
                        Err::<Archive, DecodeError>(e),
                    ));
                    assert(spec_archive_properties_stage(
                        d,
                        p_pos,
                        eff,
                        ver2,
                        comment,
                        Err::<Archive, DecodeError>(e),
                    ));
                    assert(spec_archive_start_stage(
                        d,
                        c_end,
                        eff,
                        version,
                        comment,
                        Err::<Archive, DecodeError>(e),
                    ));
                    assert(spec_archive_tail_post(
                        d,
                        tail_pos,
                        eff,
                        version,
                        Err::<Archive, DecodeError>(e),
                    ));
                }
                return Err(e);
            }
        };
        let ghost s_end = r.position as int;
        let archive = Archive { header, version, comment, start_section, properties, settings };
        proof {
            assert(spec_archive_settings_stage(
                d,
                prop_end,
                eff,
                ver2,
                archive.comment,
                archive.properties,
                Ok::<Archive, DecodeError>(archive),
            ));
            assert(spec_archive_properties_stage(
                d,
                p_pos,
                eff,
                ver2,
                archive.comment,
                Ok::<Archive, DecodeError>(archive),
            ));
            assert(spec_archive_start_stage(
                d,
                c_end,
                eff,
                version,
                archive.comment,
                Ok::<Archive, DecodeError>(archive),
            ));
            assert(spec_archive_tail_post(
                d,
                tail_pos,
                eff,
                version,
                Ok::<Archive, DecodeError>(archive),
            ));
        }
        Ok(archive)
    }
}

} // verus!
