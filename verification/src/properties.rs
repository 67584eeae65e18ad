//! The properties table.
//!
//! Version 1 archives store the properties as a bare run of chunks that
//! ends at the first unrecognised typecode. Version 2 archives wrap
//! them in a table chunk whose entries are keyed sub-chunks terminated
//! by the end-of-table sentinel; unknown entries are skipped. When the
//! same typecode appears twice, the later record wins.

use vstd::prelude::*;

use crate::application::{spec_application_post, Application};
use crate::chunk::{
    is_inline_typecode, spec_is_inline, spec_is_unsigned, spec_size_of_length, Begin, Chunk,
};
use crate::error::DecodeError;
use crate::notes::{spec_notes_v1_post, spec_notes_v2_post, Notes, NotesV1};
use crate::numbers::{le_bytes, le_i32, le_i64};
use crate::on_version::{DateFormatVersion, NormalFormatVersion, Version as OnVersion};
use crate::preview_image::{CompressedPreviewImage, PreviewImage};
use crate::reader::{Reader, SeekFrom};
use crate::revision_history::{
    spec_revision_history_v1_post, spec_revision_history_v2_post, RevisionHistory,
    RevisionHistoryV1,
};
use crate::string::{deserialize_text_to_end, spec_wstring_at, utf8_decode, WStringWithLength};
use crate::typecode;
use crate::version::Version as FileVersion;

verus! {

/// Properties of a version 1 archive.
#[derive(Debug)]
pub struct PropertiesV1 {
    pub comment: String,
    pub revision_history: RevisionHistory,
    pub notes: Notes,
    pub preview_image: PreviewImage,
}

/// Properties of a version 2 archive.
#[derive(Debug)]
pub struct PropertiesV2 {
    pub filename: String,
    pub version: OnVersion,
    pub revision_history: RevisionHistory,
    pub notes: Notes,
    pub application: Application,
    pub preview_image: PreviewImage,
    pub compressed_preview_image: CompressedPreviewImage,
}

/// Properties in either layout.
#[derive(Debug)]
pub enum Properties {
    V1(PropertiesV1),
    V2(PropertiesV2),
}

/// Decodes the openNURBS version stamp carried as the inline value of
/// its table entry. Values shaped like a decimal date (`yyyymmddv` for
/// years 1582 to 2099) use the date encoding; anything else uses the
/// bit-packed encoding.
fn on_version_from_value(value: i64) -> (res: Result<OnVersion, DecodeError>)
    ensures
        res matches Ok(v) ==> v.wf(),
{
    if value < 0 {
        return Err(DecodeError::InvalidVersion);
    }
    let raw = value as u64;
    let parsed = if 158_200_000 <= raw && raw <= 209_999_999 {
        OnVersion::from_date_format(DateFormatVersion(raw))
    } else {
        OnVersion::from_normal_format(NormalFormatVersion(raw))
    };
    match parsed {
        Ok(v) => Ok(v),
        Err(_) => Err(DecodeError::InvalidVersion),
    }
}

impl PropertiesV1 {
    /// The record with every field in its default state.
    pub open spec fn spec_default(p: PropertiesV1) -> bool {
        &&& p.comment@ == Seq::<char>::empty()
        &&& p.revision_history matches RevisionHistory::V1(h) && RevisionHistoryV1::spec_default(
            h,
        )
        &&& p.notes matches Notes::V1(n) && NotesV1::spec_default(n)
    }
}

impl Default for PropertiesV1 {
    /// Every record in its default state.
    fn default() -> (r: PropertiesV1)
        ensures
            PropertiesV1::spec_default(r),
    {
        PropertiesV1 {
            comment: String::new(),
            revision_history: RevisionHistory::default(),
            notes: Notes::default(),
            preview_image: PreviewImage::default(),
        }
    }
}

/// One possible outcome of walking the bare version 1 table from `pos`
/// with the record `before`: the entry at `pos` fails and the walk
/// fails the same way, or it ends the table and the record is returned
/// as it stands with the cursor just past the ending header, or it
/// fills a field and the walk continues after the entry. Because each
/// entry's outcome is determined by the bytes, so is the walk's: in
/// particular an error outcome is satisfiable only where an entry
/// actually fails.
pub open spec fn spec_properties_v1_walk(
    d: Seq<u8>,
    pos: int,
    eff: int,
    version: FileVersion,
    before: PropertiesV1,
    res: Result<PropertiesV1, DecodeError>,
    end: int,
) -> bool
    decreases
            (if pos <= eff {
                eff - pos + 1
            } else {
                0int
            }),
{
    ||| (res matches Err(e) && spec_properties_v1_entry_post(
        d,
        pos,
        eff,
        version,
        before,
        before,
        Err(e),
        end,
    ))
    ||| (res matches Ok(t) && t == before && spec_properties_v1_entry_post(
        d,
        pos,
        eff,
        version,
        before,
        before,
        Ok(false),
        end,
    ))
    ||| (exists|mid: PropertiesV1, step_end: int|
        {
            &&& #[trigger] spec_properties_v1_entry_post(
                d,
                pos,
                eff,
                version,
                before,
                mid,
                Ok(true),
                step_end,
            )
            &&& spec_properties_v1_walk(d, step_end, eff, version, mid, res, end)
        })
}

/// What decoding the bare version 1 table at `pos` yields: the result
/// and final position are an outcome of the walk from the record in its
/// default state.
pub open spec fn spec_properties_v1_post(
    d: Seq<u8>,
    pos: int,
    eff: int,
    version: FileVersion,
    res: Result<PropertiesV1, DecodeError>,
    end: int,
) -> bool {
    exists|init: PropertiesV1|
        #![trigger PropertiesV1::spec_default(init)]
        {
            &&& PropertiesV1::spec_default(init)
            &&& spec_properties_v1_walk(d, pos, eff, version, init, res, end)
        }
}

impl PropertiesV1 {
    /// Walks the bare table: reads chunk headers and fills the record a
    /// recognised typecode names, until the first unrecognised typecode
    /// ends the table. Each consumed chunk is advanced past in full.
    pub fn deserialize(r: &mut Reader) -> (res: Result<PropertiesV1, DecodeError>)
        ensures
            final(r).data@ == old(r).data@,
            final(r).version == old(r).version,
            final(r).limit == old(r).limit,
            res matches Ok(_) ==> final(r).position >= old(r).position + 8,
            spec_properties_v1_post(
                old(r).data@,
                old(r).position as int,
                old(r).spec_eff_len(),
                old(r).version,
                res,
                final(r).position as int,
            ),
    {
        let mut table = PropertiesV1::default();
        let ghost init = table;
        let ghost d = old(r).data@;
        let ghost pos0 = old(r).position as int;
        let ghost eff = old(r).spec_eff_len();
        let ghost fv = old(r).version;
        loop
            invariant_except_break
                forall|fr: Result<PropertiesV1, DecodeError>, fe: int|
                    #[trigger] spec_properties_v1_walk(
                        d,
                        r.position as int,
                        eff,
                        fv,
                        table,
                        fr,
                        fe,
                    ) ==> spec_properties_v1_walk(d, pos0, eff, fv, init, fr, fe),
            invariant
                r.data@ == old(r).data@,
                r.version == old(r).version,
                r.limit == old(r).limit,
                r.position >= old(r).position,
                d == old(r).data@ && pos0 == old(r).position as int && eff == old(
                    r,
                ).spec_eff_len() && fv == old(r).version,
                PropertiesV1::spec_default(init),
            ensures
                r.data@ == old(r).data@,
                r.version == old(r).version,
                r.limit == old(r).limit,
                r.position >= old(r).position + 8,
                spec_properties_v1_walk(d, pos0, eff, fv, init, Ok(table), r.position as int),
            decreases u64::MAX - r.position,
        {
            let ghost p_before = r.position as int;
            let ghost t_before = table;
            let more = match properties_v1_table_entry(r, &mut table) {
                Ok(m) => m,
                Err(e) => {
                    proof {
                        assert(spec_properties_v1_walk(
                            d,
                            p_before,
                            eff,
                            fv,
                            t_before,
                            Err::<PropertiesV1, DecodeError>(e),
                            r.position as int,
                        ));
                    }
                    return Err(e);
                }
            };
            if !more {
                proof {
                    assert(spec_properties_v1_walk(
                        d,
                        p_before,
                        eff,
                        fv,
                        t_before,
                        Ok::<PropertiesV1, DecodeError>(table),
                        r.position as int,
                    ));
                }
                break ;
            }
            proof {
                let ghost p_after = r.position as int;
                let ghost t_after = table;
                assert forall|fr: Result<PropertiesV1, DecodeError>, fe: int| #[trigger]
                    spec_properties_v1_walk(d, p_after, eff, fv, t_after, fr, fe) implies
                    spec_properties_v1_walk(d, pos0, eff, fv, init, fr, fe) by {
                    assert(spec_properties_v1_entry_post(
                        d,
                        p_before,
                        eff,
                        fv,
                        t_before,
                        t_after,
                        Ok(true),
                        p_after,
                    ));
                    assert(spec_properties_v1_walk(d, p_before, eff, fv, t_before, fr, fe));
                }
            }
        }
        Ok(table)
    }
}

/// What one entry of the bare version 1 properties table does. An
/// unrecognised typecode ends the table with the cursor just past its
/// header; a recognised one fills its record and the cursor advances
/// one past the entry's payload.
pub open spec fn spec_properties_v1_entry_post(
    d: Seq<u8>,
    pos: int,
    eff: int,
    version: FileVersion,
    before: PropertiesV1,
    after: PropertiesV1,
    res: Result<bool, DecodeError>,
    end: int,
) -> bool {
    let w = spec_size_of_length(version) as int;
    let hdr_end = pos + 4 + w;
    if hdr_end > eff {
        res is Err
    } else {
        let tc = le_bytes(d.subrange(pos, pos + 4)) as u32;
        let value = if w == 8 {
            le_i64(d.subrange(pos + 4, pos + 12))
        } else if spec_is_unsigned(tc) {
            le_bytes(d.subrange(pos + 4, pos + 8))
        } else {
            le_i32(d.subrange(pos + 4, pos + 8))
        };
        if !(tc == typecode::COMMENTBLOCK || tc == typecode::SUMMARY || tc == typecode::NOTES
            || tc == typecode::BITMAPPREVIEW) {
            &&& res matches Ok(more) && more == false
            &&& after == before
            &&& end == hdr_end
        } else if value <= 0 || hdr_end + value > u64::MAX {
            res is Err
        } else {
            let body_eff = vstd::math::min(hdr_end + value, eff);
            res matches Ok(more) ==> {
                &&& more == true
                &&& end == hdr_end + value
                &&& if tc == typecode::COMMENTBLOCK {
                    &&& after == (PropertiesV1 { comment: after.comment, ..before })
                    &&& utf8_decode(d.subrange(hdr_end, body_eff)) matches Some(t)
                        && after.comment@ == t
                } else if tc == typecode::SUMMARY {
                    &&& after == (PropertiesV1 { revision_history: after.revision_history, ..before })
                    &&& spec_entry_revision_history(
                        d,
                        hdr_end,
                        body_eff,
                        version,
                        after.revision_history,
                    )
                } else if tc == typecode::NOTES {
                    &&& after == (PropertiesV1 { notes: after.notes, ..before })
                    &&& spec_entry_notes(d, hdr_end, body_eff, version, after.notes)
                } else {
                    after == (PropertiesV1 { preview_image: after.preview_image, ..before })
                }
            }
        }
    }
}

/// Decodes one entry of the bare version 1 properties table into the
/// record field its typecode names, advancing past the entry in full.
#[verifier::rlimit(60)]
fn properties_v1_table_entry(r: &mut Reader, table: &mut PropertiesV1) -> (res: Result<
    bool,
    DecodeError,
>)
    ensures
        final(r).data@ == old(r).data@,
        final(r).version == old(r).version,
        final(r).limit == old(r).limit,
        res matches Ok(more) ==> final(r).position >= old(r).position + 8,
        res is Err ==> *final(table) == *old(table),
        spec_properties_v1_entry_post(
            old(r).data@,
            old(r).position as int,
            old(r).spec_eff_len(),
            old(r).version,
            *old(table),
            *final(table),
            res,
            final(r).position as int,
        ),
{
    let begin = Begin::deserialize(r)?;
    let tc = begin.typecode;
    if !(tc == typecode::COMMENTBLOCK || tc == typecode::SUMMARY || tc == typecode::NOTES || tc
        == typecode::BITMAPPREVIEW) {
        return Ok(false);
    }
    let chunk = Chunk::open_body(r, begin)?;
    let ghost d = old(r).data@;
    let ghost hdr_end = begin.initial_position as int;
    let ghost body_eff = vstd::math::min(hdr_end + begin.value, old(r).spec_eff_len());
    proof {
        assert(r.spec_eff_len() == body_eff);
    }
    if tc == typecode::COMMENTBLOCK {
        table.comment = match deserialize_text_to_end(r) {
            Ok(t) => t,
            Err(e) => {
                chunk.close(r);
                return Err(e);
            }
        };
    } else if tc == typecode::SUMMARY {
        table.revision_history = match RevisionHistory::deserialize(r) {
            Ok(h) => h,
            Err(e) => {
                chunk.close(r);
                return Err(e);
            }
        };
        proof {
            let mid = r.position as int;
            match &table.revision_history {
                RevisionHistory::V1(inner) => {
                    assert(spec_revision_history_v1_post(d, hdr_end, body_eff, Ok(*inner), mid));
                }
                RevisionHistory::V2(inner) => {
                    assert(spec_revision_history_v2_post(d, hdr_end, body_eff, Ok(*inner), mid));
                }
            }
            assert(spec_entry_revision_history(
                d,
                hdr_end,
                body_eff,
                old(r).version,
                table.revision_history,
            ));
        }
    } else if tc == typecode::NOTES {
        table.notes = match Notes::deserialize(r) {
            Ok(n) => n,
            Err(e) => {
                chunk.close(r);
                return Err(e);
            }
        };
        proof {
            let mid = r.position as int;
            match &table.notes {
                Notes::V1(inner) => {
                    assert(spec_notes_v1_post(d, hdr_end, body_eff, Ok(*inner), mid));
                }
                Notes::V2(inner) => {
                    assert(spec_notes_v2_post(d, hdr_end, body_eff, Ok(*inner), mid));
                }
            }
            assert(spec_entry_notes(d, hdr_end, body_eff, old(r).version, table.notes));
        }
    } else {
        table.preview_image = PreviewImage;
    }
    chunk.close(r);
    Ok(true)
}

impl Default for PropertiesV2 {
    /// Every record in its default state.
    fn default() -> (r: PropertiesV2)
        ensures
            PropertiesV2::spec_default(r),
    {
        PropertiesV2 {
            filename: String::new(),
            version: OnVersion::default(),
            revision_history: RevisionHistory::default(),
            notes: Notes::default(),
            application: Application::default(),
            preview_image: PreviewImage::default(),
            compressed_preview_image: CompressedPreviewImage::default(),
        }
    }
}


/// The application record `a` is what decodes at `pos` in a window
/// ending at `eff`.
pub open spec fn spec_entry_application(d: Seq<u8>, pos: int, eff: int, a: Application) -> bool {
    exists|p: int| spec_application_post(d, pos, eff, Ok(a), p)
}

/// The revision history `h` is what decodes at `pos` for the given
/// archive version.
pub open spec fn spec_entry_revision_history(
    d: Seq<u8>,
    pos: int,
    eff: int,
    version: FileVersion,
    h: RevisionHistory,
) -> bool {
    if version == FileVersion::V1 {
        h matches RevisionHistory::V1(inner) && exists|p: int|
            spec_revision_history_v1_post(d, pos, eff, Ok(inner), p)
    } else {
        h matches RevisionHistory::V2(inner) && exists|p: int|
            spec_revision_history_v2_post(d, pos, eff, Ok(inner), p)
    }
}

/// The notes `n` are what decodes at `pos` for the given archive
/// version.
pub open spec fn spec_entry_notes(
    d: Seq<u8>,
    pos: int,
    eff: int,
    version: FileVersion,
    n: Notes,
) -> bool {
    if version == FileVersion::V1 {
        n matches Notes::V1(inner) && exists|p: int| spec_notes_v1_post(d, pos, eff, Ok(inner), p)
    } else {
        n matches Notes::V2(inner) && exists|p: int| spec_notes_v2_post(d, pos, eff, Ok(inner), p)
    }
}

/// What one entry of the wrapped properties table does. `before` and
/// `after` are the record around the entry, the result says whether the
/// walk continues, and `end` is where the cursor stands afterwards: at
/// the end of the entry's header for inline entries, one past its
/// payload otherwise.
pub open spec fn spec_properties_entry_post(
    d: Seq<u8>,
    pos: int,
    eff: int,
    version: FileVersion,
    before: PropertiesV2,
    after: PropertiesV2,
    res: Result<bool, DecodeError>,
    end: int,
) -> bool {
    let w = spec_size_of_length(version) as int;
    let hdr_end = pos + 4 + w;
    if hdr_end > eff {
        res is Err
    } else {
        let tc = le_bytes(d.subrange(pos, pos + 4)) as u32;
        let value = if w == 8 {
            le_i64(d.subrange(pos + 4, pos + 12))
        } else if spec_is_unsigned(tc) {
            le_bytes(d.subrange(pos + 4, pos + 8))
        } else {
            le_i32(d.subrange(pos + 4, pos + 8))
        };
        if tc == typecode::ENDOFTABLE {
            &&& res matches Ok(more) && more == false
            &&& after == before
            &&& end == hdr_end
        } else if spec_is_inline(tc) {
            if tc == typecode::PROPERTIES_OPENNURBS_VERSION {
                res matches Ok(more) ==> {
                    &&& more == true
                    &&& after == (PropertiesV2 { version: after.version, ..before })
                    &&& after.version.wf()
                    &&& end == hdr_end
                }
            } else {
                &&& res matches Ok(more) && more == true
                &&& after == before
                &&& end == hdr_end
            }
        } else if value <= 0 || hdr_end + value > u64::MAX {
            res is Err
        } else {
            let body_eff = vstd::math::min(hdr_end + value, eff);
            res matches Ok(more) ==> {
                &&& more == true
                &&& end == hdr_end + value
                &&& if tc == typecode::PROPERTIES_AS_FILE_NAME {
                    &&& after == (PropertiesV2 { filename: after.filename, ..before })
                    &&& spec_wstring_at(d, hdr_end, body_eff) matches Some(parsed)
                        && after.filename@ == parsed.0
                } else if tc == typecode::PROPERTIES_REVISIONHISTORY {
                    &&& after == (PropertiesV2 { revision_history: after.revision_history, ..before })
                    &&& spec_entry_revision_history(
                        d,
                        hdr_end,
                        body_eff,
                        version,
                        after.revision_history,
                    )
                } else if tc == typecode::PROPERTIES_NOTES {
                    &&& after == (PropertiesV2 { notes: after.notes, ..before })
                    &&& spec_entry_notes(d, hdr_end, body_eff, version, after.notes)
                } else if tc == typecode::PROPERTIES_APPLICATION {
                    &&& after == (PropertiesV2 { application: after.application, ..before })
                    &&& spec_entry_application(d, hdr_end, body_eff, after.application)
                } else if tc == typecode::PROPERTIES_PREVIEWIMAGE || tc
                    == typecode::PROPERTIES_COMPRESSED_PREVIEWIMAGE {
                    after == (PropertiesV2 {
                        preview_image: after.preview_image,
                        compressed_preview_image: after.compressed_preview_image,
                        ..before
                    })
                } else {
                    after == before
                }
            }
        }
    }
}

/// Decodes one entry of the wrapped properties table into the record
/// field its typecode names, advancing past the entry in full.
#[verifier::rlimit(60)]
#[verifier::spinoff_prover]
fn properties_table_entry(r: &mut Reader, table: &mut PropertiesV2) -> (res: Result<
    bool,
    DecodeError,
>)
    ensures
        final(r).data@ == old(r).data@,
        final(r).version == old(r).version,
        res is Ok ==> final(r).limit == old(r).limit,
        res matches Ok(more) ==> final(r).position >= old(r).position + 8,
        res is Err ==> *final(table) == *old(table),
        spec_properties_entry_post(
            old(r).data@,
            old(r).position as int,
            old(r).spec_eff_len(),
            old(r).version,
            *old(table),
            *final(table),
            res,
            final(r).position as int,
        ),
{
    let begin = Begin::deserialize(r)?;
    let tc = begin.typecode;
    if tc == typecode::ENDOFTABLE {
        return Ok(false);
    }
    if is_inline_typecode(tc) {
        if tc == typecode::PROPERTIES_OPENNURBS_VERSION {
            table.version = on_version_from_value(begin.value)?;
        }
        return Ok(true);
    }
    let chunk = Chunk::open_body(r, begin)?;
    let ghost d = old(r).data@;
    let ghost hdr_end = begin.initial_position as int;
    let ghost body_eff = vstd::math::min(hdr_end + begin.value, old(r).spec_eff_len());
    proof {
        assert(r.spec_eff_len() == body_eff);
    }
    if tc == typecode::PROPERTIES_AS_FILE_NAME {
        table.filename = match WStringWithLength::deserialize(r) {
            Ok(s) => s.0,
            Err(e) => {
                chunk.close(r);
                return Err(e);
            }
        };
    } else if tc == typecode::PROPERTIES_REVISIONHISTORY {
        table.revision_history = match RevisionHistory::deserialize(r) {
            Ok(h) => h,
            Err(e) => {
                chunk.close(r);
                return Err(e);
            }
        };
        proof {
            let mid = r.position as int;
            match &table.revision_history {
                RevisionHistory::V1(inner) => {
                    assert(spec_revision_history_v1_post(d, hdr_end, body_eff, Ok(*inner), mid));
                }
                RevisionHistory::V2(inner) => {
                    assert(spec_revision_history_v2_post(d, hdr_end, body_eff, Ok(*inner), mid));
                }
            }
            assert(spec_entry_revision_history(
                d,
                hdr_end,
                body_eff,
                old(r).version,
                table.revision_history,
            ));
        }
    } else if tc == typecode::PROPERTIES_NOTES {
        table.notes = match Notes::deserialize(r) {
            Ok(n) => n,
            Err(e) => {
                chunk.close(r);
                return Err(e);
            }
        };
        proof {
            let mid = r.position as int;
            match &table.notes {
                Notes::V1(inner) => {
                    assert(spec_notes_v1_post(d, hdr_end, body_eff, Ok(*inner), mid));
                }
                Notes::V2(inner) => {
                    assert(spec_notes_v2_post(d, hdr_end, body_eff, Ok(*inner), mid));
                }
            }
            assert(spec_entry_notes(d, hdr_end, body_eff, old(r).version, table.notes));
        }
    } else if tc == typecode::PROPERTIES_APPLICATION {
        table.application = match Application::deserialize(r) {
            Ok(a) => a,
            Err(e) => {
                chunk.close(r);
                return Err(e);
            }
        };
        proof {
            let mid = r.position as int;
            assert(spec_application_post(d, hdr_end, body_eff, Ok(table.application), mid));
            assert(spec_entry_application(d, hdr_end, body_eff, table.application));
        }
    } else if tc == typecode::PROPERTIES_PREVIEWIMAGE {
        table.preview_image = PreviewImage;
    } else if tc == typecode::PROPERTIES_COMPRESSED_PREVIEWIMAGE {
        table.compressed_preview_image = CompressedPreviewImage;
    }
    chunk.close(r);
    Ok(true)
}

/// One possible outcome of walking the wrapped table's entries from
/// `pos` in a window ending at `eff`, with the record `before`: the
/// entry at `pos` fails and the walk fails the same way, or it is the
/// end-of-table sentinel and the record is returned as it stands, or it
/// fills a field and the walk continues after the entry.
pub open spec fn spec_properties_v2_walk(
    d: Seq<u8>,
    pos: int,
    eff: int,
    version: FileVersion,
    before: PropertiesV2,
    res: Result<PropertiesV2, DecodeError>,
    end: int,
) -> bool
    decreases
            (if pos <= eff {
                eff - pos + 1
            } else {
                0int
            }),
{
    ||| (res matches Err(e) && spec_properties_entry_post(
        d,
        pos,
        eff,
        version,
        before,
        before,
        Err(e),
        end,
    ))
    ||| (res matches Ok(t) && t == before && spec_properties_entry_post(
        d,
        pos,
        eff,
        version,
        before,
        before,
        Ok(false),
        end,
    ))
    ||| (exists|mid: PropertiesV2, step_end: int|
        {
            &&& #[trigger] spec_properties_entry_post(
                d,
                pos,
                eff,
                version,
                before,
                mid,
                Ok(true),
                step_end,
            )
            &&& spec_properties_v2_walk(d, step_end, eff, version, mid, res, end)
        })
}

/// The result `res` is an outcome of walking the wrapped table's
/// entries from `pos` in a window ending at `eff`, starting from the
/// record in its default state.
pub open spec fn spec_properties_v2_outcome(
    d: Seq<u8>,
    pos: int,
    eff: int,
    version: FileVersion,
    res: Result<PropertiesV2, DecodeError>,
) -> bool {
    exists|init: PropertiesV2, inner_end: int|
        {
            &&& #[trigger] spec_properties_v2_walk(d, pos, eff, version, init, res, inner_end)
            &&& PropertiesV2::spec_default(init)
        }
}

/// What decoding the wrapped version 2 table at `pos` yields: the
/// outer header must fit and declare a positive, representable payload;
/// a typecode other than the properties table leaves the record at its
/// defaults with the cursor one past the outer chunk; the properties
/// table is walked inside the chunk's window, and on success the cursor
/// again lands one past the outer chunk.
pub open spec fn spec_properties_v2_post(
    d: Seq<u8>,
    pos: int,
    eff: int,
    version: FileVersion,
    res: Result<PropertiesV2, DecodeError>,
    end: int,
) -> bool {
    let w = spec_size_of_length(version) as int;
    let hdr_end = pos + 4 + w;
    let tc = le_bytes(d.subrange(pos, pos + 4)) as u32;
    let value = if w == 8 {
        le_i64(d.subrange(pos + 4, pos + 12))
    } else if spec_is_unsigned(tc) {
        le_bytes(d.subrange(pos + 4, pos + 8))
    } else {
        le_i32(d.subrange(pos + 4, pos + 8))
    };
    if hdr_end > eff {
        res is Err
    } else if value <= 0 || hdr_end + value > u64::MAX {
        res is Err
    } else {
        let outer_end = hdr_end + value;
        let body_eff = vstd::math::min(outer_end, eff);
        if tc != typecode::PROPERTIES_TABLE {
            &&& res matches Ok(p) && PropertiesV2::spec_default(p)
            &&& end == outer_end
        } else {
            &&& (res is Ok ==> end == outer_end)
            &&& spec_properties_v2_outcome(d, hdr_end, body_eff, version, res)
        }
    }
}

impl PropertiesV2 {
    /// The record with every field in its default state.
    pub open spec fn spec_default(p: PropertiesV2) -> bool {
        &&& p.filename@ == Seq::<char>::empty()
        &&& p.version.major_version == 0
        &&& p.version.minor_version == 0
        &&& p.version.platform == 0
        &&& p.version.date == crate::on_version::spec_min_date()
        &&& p.revision_history matches RevisionHistory::V1(h) && RevisionHistoryV1::spec_default(
            h,
        )
        &&& p.notes matches Notes::V1(n) && NotesV1::spec_default(n)
        &&& p.application.name@ == Seq::<char>::empty()
        &&& p.application.url@ == Seq::<char>::empty()
        &&& p.application.details@ == Seq::<char>::empty()
    }

    /// Opens the outer table chunk. If its typecode is not the
    /// properties table, the whole chunk is skipped and the record stays
    /// at its defaults. Otherwise the keyed entries inside are walked
    /// until the end-of-table sentinel: a recognised typecode fills its
    /// record, an unknown one is skipped, and every entry is advanced
    /// past in full. The inline openNURBS version entry carries its
    /// value in the header itself.
    pub fn deserialize(r: &mut Reader) -> (res: Result<PropertiesV2, DecodeError>)
        ensures
            final(r).data@ == old(r).data@,
            final(r).version == old(r).version,
            res matches Ok(_) ==> final(r).limit == old(r).limit,
            spec_properties_v2_post(
                old(r).data@,
                old(r).position as int,
                old(r).spec_eff_len(),
                old(r).version,
                res,
                final(r).position as int,
            ),
    {
        let mut table = PropertiesV2::default();
        let ghost init = table;
        let outer_begin = Begin::deserialize(r)?;
        let outer = Chunk::open_body(r, outer_begin)?;
        let ghost d = old(r).data@;
        let ghost fv = old(r).version;
        let ghost start = outer.offset as int;
        let ghost body_eff = r.spec_eff_len();
        if outer_begin.typecode == typecode::PROPERTIES_TABLE {
            loop
                invariant_except_break
                    forall|fr: Result<PropertiesV2, DecodeError>, fe: int|
                        #[trigger] spec_properties_v2_walk(
                            d,
                            r.position as int,
                            body_eff,
                            fv,
                            table,
                            fr,
                            fe,
                        ) ==> spec_properties_v2_walk(d, start, body_eff, fv, init, fr, fe),
                invariant
                    r.data@ == old(r).data@,
                    r.version == old(r).version,
                    d == old(r).data@ && fv == old(r).version,
                    PropertiesV2::spec_default(init),
                    r.limit == if outer.spec_end() <= outer.prev_limit {
                        outer.spec_end() as u64
                    } else {
                        outer.prev_limit
                    },
                    body_eff == r.spec_eff_len(),
                    outer.wf(),
                    outer.spec_end() <= u64::MAX,
                    start == old(r).position + 4 + spec_size_of_length(old(r).version),
                    old(r).position + 4 + spec_size_of_length(old(r).version) <= old(
                        r,
                    ).spec_eff_len(),
                    outer_begin.typecode == le_bytes(
                        old(r).data@.subrange(old(r).position as int, old(r).position + 4),
                    ) as u32,
                    outer_begin.typecode == typecode::PROPERTIES_TABLE,
                    0 < outer_begin.value,
                    outer.spec_end() == start + outer_begin.value,
                    outer.prev_limit == old(r).limit,
                    body_eff == vstd::math::min(outer.spec_end(), old(r).spec_eff_len()),
                    outer_begin.value == ({
                        let w = spec_size_of_length(old(r).version) as int;
                        let pos = old(r).position as int;
                        if w == 8 {
                            le_i64(old(r).data@.subrange(pos + 4, pos + 12))
                        } else if spec_is_unsigned(outer_begin.typecode) {
                            le_bytes(old(r).data@.subrange(pos + 4, pos + 8))
                        } else {
                            le_i32(old(r).data@.subrange(pos + 4, pos + 8))
                        }
                    }),
                ensures
                    r.data@ == old(r).data@,
                    r.version == old(r).version,
                    r.limit == if outer.spec_end() <= outer.prev_limit {
                        outer.spec_end() as u64
                    } else {
                        outer.prev_limit
                    },
                    spec_properties_v2_walk(
                        d,
                        start,
                        body_eff,
                        fv,
                        init,
                        Ok(table),
                        r.position as int,
                    ),
                decreases u64::MAX - r.position,
            {
                let ghost p_before = r.position as int;
                let ghost t_before = table;
                let more = match properties_table_entry(r, &mut table) {
                    Ok(m) => m,
                    Err(e) => {
                        proof {
                            assert(spec_properties_v2_walk(
                                d,
                                p_before,
                                body_eff,
                                fv,
                                t_before,
                                Err::<PropertiesV2, DecodeError>(e),
                                r.position as int,
                            ));
                            assert(spec_properties_v2_walk(
                                d,
                                start,
                                body_eff,
                                fv,
                                init,
                                Err::<PropertiesV2, DecodeError>(e),
                                r.position as int,
                            ));
                            assert(spec_properties_v2_outcome(
                                d,
                                start,
                                body_eff,
                                fv,
                                Err::<PropertiesV2, DecodeError>(e),
                            ));
                        }
                        return Err(e);
                    }
                };
                if !more {
                    proof {
                        assert(spec_properties_v2_walk(
                            d,
                            p_before,
                            body_eff,
                            fv,
                            t_before,
                            Ok::<PropertiesV2, DecodeError>(table),
                            r.position as int,
                        ));
                    }
                    break ;
                }
                proof {
                    let ghost p_after = r.position as int;
                    let ghost t_after = table;
                    assert forall|fr: Result<PropertiesV2, DecodeError>, fe: int| #[trigger]
                        spec_properties_v2_walk(d, p_after, body_eff, fv, t_after, fr, fe) implies
                        spec_properties_v2_walk(d, start, body_eff, fv, init, fr, fe) by {
                        assert(spec_properties_entry_post(
                            d,
                            p_before,
                            body_eff,
                            fv,
                            t_before,
                            t_after,
                            Ok(true),
                            p_after,
                        ));
                        assert(spec_properties_v2_walk(
                            d,
                            p_before,
                            body_eff,
                            fv,
                            t_before,
                            fr,
                            fe,
                        ));
                    }
                }
            }
        }
        let ghost inner_end = r.position as int;
        outer.close(r);
        proof {
            if outer_begin.typecode == typecode::PROPERTIES_TABLE {
                assert(spec_properties_v2_walk(
                    d,
                    start,
                    body_eff,
                    fv,
                    init,
                    Ok::<PropertiesV2, DecodeError>(table),
                    inner_end,
                ));
                assert(spec_properties_v2_outcome(
                    d,
                    start,
                    body_eff,
                    fv,
                    Ok::<PropertiesV2, DecodeError>(table),
                ));
            }
        }
        Ok(table)
    }
}

impl Properties {
    /// Version 1 archives read the bare table from absolute position
    /// 32, right after header and version block; later archives read
    /// the wrapped table at the current position.
    pub fn deserialize(r: &mut Reader) -> (res: Result<Properties, DecodeError>)
        ensures
            final(r).data@ == old(r).data@,
            final(r).version == old(r).version,
            res is Ok ==> final(r).limit == old(r).limit,
            old(r).version == FileVersion::V1 ==> match res {
                Ok(p) => p matches Properties::V1(inner) && spec_properties_v1_post(
                    old(r).data@,
                    32,
                    old(r).spec_eff_len(),
                    old(r).version,
                    Ok(inner),
                    final(r).position as int,
                ),
                Err(e) => spec_properties_v1_post(
                    old(r).data@,
                    32,
                    old(r).spec_eff_len(),
                    old(r).version,
                    Err(e),
                    final(r).position as int,
                ),
            },
            old(r).version != FileVersion::V1 ==> match res {
                Ok(p) => p matches Properties::V2(inner) && spec_properties_v2_post(
                    old(r).data@,
                    old(r).position as int,
                    old(r).spec_eff_len(),
                    old(r).version,
                    Ok(inner),
                    final(r).position as int,
                ),
                Err(e) => spec_properties_v2_post(
                    old(r).data@,
                    old(r).position as int,
                    old(r).spec_eff_len(),
                    old(r).version,
                    Err(e),
                    final(r).position as int,
                ),
            },
    {
        if r.version() == FileVersion::V1 {
            match r.seek(SeekFrom::Start(32)) {
                Ok(_) => {}
                Err(_) => {
                    return Err(DecodeError::InvalidInput);
                }
            }
            match PropertiesV1::deserialize(r) {
                Ok(p) => Ok(Properties::V1(p)),
                Err(e) => Err(e),
            }
        } else {
            match PropertiesV2::deserialize(r) {
                Ok(p) => Ok(Properties::V2(p)),
                Err(e) => Err(e),
            }
        }
    }
}

impl Default for Properties {
    /// Version 1 properties with every record in its default state.
    fn default() -> (r: Properties)
        ensures
            r is V1,
    {
        Properties::V1(PropertiesV1::default())
    }
}

} // verus!
