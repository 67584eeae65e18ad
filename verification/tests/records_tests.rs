use geometria::archive::Archive;
use geometria::boolean::BoolFromI32;
use geometria::comment::Comment;
use geometria::error::DecodeError;
use geometria::notes::{Notes, NotesV1, NotesV2};
use geometria::properties::Properties;
use geometria::reader::Reader;
use geometria::revision_history::RevisionHistoryV2;
use geometria::settings::{Annotation, CurrentColor, MeshParameters};
use geometria::start_section::StartSection;
use geometria::typecode;
use geometria::uuid::Uuid;
use geometria::version::Version as FileVersion;

#[test]
fn deserialize_comment() {
    let text = "The comment".to_string();
    let value = text.len() as u32;
    let mut data: Vec<u8> = Vec::new();
    data.extend(typecode::COMMENTBLOCK.to_le_bytes());
    data.extend(value.to_le_bytes());
    data.extend(text.as_bytes());
    let mut r = Reader::new(data, FileVersion::V1);
    let comment = Comment::deserialize(&mut r).unwrap();
    assert_eq!(text, comment.0);
}

#[test]
fn deserialize_comment_with_invalid_typecode() {
    let text = "The comment".to_string();
    let value = text.len() as u32;
    let mut data: Vec<u8> = Vec::new();
    data.extend(0u32.to_le_bytes());
    data.extend(value.to_le_bytes());
    data.extend(text.as_bytes());
    let mut r = Reader::new(data, FileVersion::V1);
    assert!(Comment::deserialize(&mut r).is_err());
}

#[test]
fn comment_invalid_typecode_error_kind() {
    let mut data: Vec<u8> = Vec::new();
    data.extend(0u32.to_le_bytes());
    data.extend(4u32.to_le_bytes());
    data.extend([1u8, 2, 3, 4]);
    let mut r = Reader::new(data, FileVersion::V1);
    assert_eq!(Comment::deserialize(&mut r).err(), Some(DecodeError::InvalidTypecode));
}

#[test]
fn deserialize_start_section_with_v1_header_and_body() {
    let content = [0u8; 8];
    let value = content.len() as u32;
    let mut data: Vec<u8> = Vec::new();
    data.extend(typecode::SUMMARY.to_le_bytes());
    data.extend(value.to_le_bytes());
    data.extend(content);
    data.extend(0u32.to_le_bytes());
    let mut r = Reader::new(data, FileVersion::V1);
    assert!(StartSection::deserialize(&mut r).is_ok());
    assert_eq!(r.position(), 0);
}

#[test]
fn deserialize_start_section_with_v1_header_and_v2_body() {
    let content = [0u8; 8];
    let value = content.len() as u32;
    let mut data: Vec<u8> = Vec::new();
    data.extend(typecode::SUMMARY.to_le_bytes());
    data.extend(value.to_le_bytes());
    data.extend(content);
    data.extend(typecode::TABLE.to_le_bytes());
    let mut r = Reader::new(data, FileVersion::V1);
    assert!(StartSection::deserialize(&mut r).is_ok());
    assert_ne!(r.position(), 0);
    assert_eq!(r.version(), FileVersion::V2);
}

#[test]
fn comment_truncated_payload_reads_what_is_there() {
    let mut data: Vec<u8> = Vec::new();
    data.extend(typecode::COMMENTBLOCK.to_le_bytes());
    data.extend(11u32.to_le_bytes());
    data.extend("The c".as_bytes());
    let mut r = Reader::new(data, FileVersion::V1);
    let comment = Comment::deserialize(&mut r).unwrap();
    assert_eq!(comment.0, "The c");
}

#[test]
fn comment_empty_chunk_is_rejected() {
    let mut data: Vec<u8> = Vec::new();
    data.extend(typecode::COMMENTBLOCK.to_le_bytes());
    data.extend(0u32.to_le_bytes());
    let mut r = Reader::new(data, FileVersion::V1);
    assert_eq!(Comment::deserialize(&mut r).err(), Some(DecodeError::EmptyChunk));
}

#[test]
fn start_section_rejects_negative_skip() {
    let mut data: Vec<u8> = Vec::new();
    data.extend(typecode::SUMMARY.to_le_bytes());
    data.extend((-1i32).to_le_bytes());
    let mut r = Reader::new(data, FileVersion::V1);
    r.set_chunk_begin(geometria::chunk::Begin {
        typecode: typecode::SHORT,
        value: 0,
        initial_position: 0,
    });
    assert_eq!(
        StartSection::deserialize(&mut r).err(),
        Some(DecodeError::InvalidLength)
    );
}

#[test]
fn boolean_from_i32() {
    let mut data: Vec<u8> = Vec::new();
    data.extend(0i32.to_le_bytes());
    data.extend(7i32.to_le_bytes());
    let mut r = Reader::new(data, FileVersion::V1);
    assert!(!BoolFromI32::deserialize(&mut r).unwrap().0);
    assert!(BoolFromI32::deserialize(&mut r).unwrap().0);
}

#[test]
fn uuid_deserialize() {
    let mut data: Vec<u8> = Vec::new();
    data.extend(0x11223344u32.to_le_bytes());
    data.extend(0x5566u16.to_le_bytes());
    data.extend(0x7788u16.to_le_bytes());
    data.extend([1u8, 2, 3, 4]);
    let mut r = Reader::new(data, FileVersion::V1);
    let uuid = Uuid::deserialize(&mut r).unwrap();
    assert_eq!(uuid.data1, 0x11223344);
    assert_eq!(uuid.data2, 0x5566);
    assert_eq!(uuid.data3, 0x7788);
    assert_eq!(uuid.data4, [1, 2, 3, 4]);
}

fn push_wstring(data: &mut Vec<u8>, text: &str) {
    let with_nul = format!("{}\0", text);
    let count = with_nul.encode_utf16().count() as u32;
    data.extend(count.to_le_bytes());
    for unit in with_nul.encode_utf16() {
        data.extend(unit.to_le_bytes());
    }
}

#[test]
fn notes_v1_deserialize() {
    let mut data: Vec<u8> = Vec::new();
    data.extend(1i32.to_le_bytes());
    data.extend(10i32.to_le_bytes());
    data.extend(20i32.to_le_bytes());
    data.extend(30i32.to_le_bytes());
    data.extend(40i32.to_le_bytes());
    let text = "note text";
    data.extend((text.len() as u32).to_le_bytes());
    data.extend(text.as_bytes());
    let mut r = Reader::new(data, FileVersion::V1);
    let notes = NotesV1::deserialize(&mut r).unwrap();
    assert_eq!(notes.visible, 1);
    assert_eq!(
        (notes.window_left, notes.window_top, notes.window_right, notes.window_bottom),
        (10, 20, 30, 40)
    );
    assert_eq!(notes.data, text);
}

#[test]
fn notes_v2_deserialize() {
    let mut data: Vec<u8> = Vec::new();
    data.push(0x10);
    data.extend(1i32.to_le_bytes());
    push_wstring(&mut data, "wide note");
    data.extend(0i32.to_le_bytes());
    data.extend(5i32.to_le_bytes());
    data.extend(6i32.to_le_bytes());
    data.extend(7i32.to_le_bytes());
    data.extend(8i32.to_le_bytes());
    let mut r = Reader::new(data, FileVersion::V2);
    let notes = NotesV2::deserialize(&mut r).unwrap();
    assert!(notes.html_encoded);
    assert_eq!(notes.data, "wide note");
    assert!(!notes.visible);
    assert_eq!(
        (notes.window_left, notes.window_top, notes.window_right, notes.window_bottom),
        (5, 6, 7, 8)
    );
}

#[test]
fn notes_version_dispatch() {
    let mut data: Vec<u8> = Vec::new();
    data.extend(1i32.to_le_bytes());
    data.extend(10i32.to_le_bytes());
    data.extend(20i32.to_le_bytes());
    data.extend(30i32.to_le_bytes());
    data.extend(40i32.to_le_bytes());
    data.extend(0u32.to_le_bytes());
    let mut r = Reader::new(data, FileVersion::V1);
    assert!(matches!(Notes::deserialize(&mut r).unwrap(), Notes::V1(_)));
}

#[test]
fn revision_history_v2_version_gate() {
    let data = vec![0x20u8];
    let mut r = Reader::new(data, FileVersion::V2);
    let history = RevisionHistoryV2::deserialize(&mut r).unwrap();
    assert_eq!(history.created_by, "");
    assert_eq!(history.last_edited_by, "");
    assert_eq!(history.revision_count, 0);
    assert_eq!(r.position(), 1);
}

#[test]
fn revision_history_v2_deserialize() {
    let mut data: Vec<u8> = Vec::new();
    data.push(0x10);
    push_wstring(&mut data, "author");
    data.extend([0u8; 32]);
    push_wstring(&mut data, "editor");
    data.extend([0u8; 32]);
    data.extend(3i32.to_le_bytes());
    let mut r = Reader::new(data, FileVersion::V2);
    let history = RevisionHistoryV2::deserialize(&mut r).unwrap();
    assert_eq!(history.created_by, "author");
    assert_eq!(history.last_edited_by, "editor");
    assert_eq!(history.revision_count, 3);
}

#[test]
fn mesh_parameters_gate_and_flag() {
    let mut data: Vec<u8> = Vec::new();
    data.push(0x10);
    data.extend(1i32.to_le_bytes());
    let mut r = Reader::new(data, FileVersion::V2);
    let mesh = MeshParameters::deserialize(&mut r).unwrap();
    assert!(mesh.compute_curvature);

    let mut r = Reader::new(vec![0x20u8], FileVersion::V2);
    let mesh = MeshParameters::deserialize(&mut r).unwrap();
    assert!(!mesh.compute_curvature);
}

#[test]
fn current_color_deserialize() {
    let mut data: Vec<u8> = Vec::new();
    data.extend(0x00FF00i32.to_le_bytes());
    data.extend(1i32.to_le_bytes());
    let mut r = Reader::new(data, FileVersion::V2);
    let color = CurrentColor::deserialize(&mut r).unwrap();
    assert_eq!(color.color, 0x00FF00);
    assert_eq!(color.source, 1);
}

fn annotation_fixed_fields(data: &mut Vec<u8>) {
    for scale in 0..7u64 {
        data.extend((scale + 1).to_le_bytes());
    }
    for code in 0..5i32 {
        data.extend((code + 1).to_le_bytes());
    }
    data.extend(0i32.to_le_bytes());
    data.extend(42i32.to_le_bytes());
    push_wstring(data, "Arial");
}

#[test]
fn annotation_minor_version_gating() {
    let mut plain: Vec<u8> = Vec::new();
    plain.push(0x10);
    annotation_fixed_fields(&mut plain);

    let mut extended: Vec<u8> = Vec::new();
    extended.push(0x11);
    annotation_fixed_fields(&mut extended);
    extended.extend(9u64.to_le_bytes());
    extended.push(1u8);

    let mut r = Reader::new(plain, FileVersion::V2);
    let base = Annotation::deserialize(&mut r).unwrap();
    assert_eq!(base.resolution, 42);
    assert_eq!(base.face_name, "Arial");
    assert_eq!(base.world_view_text_scale, 0);
    assert_eq!(base.enable_annotation_scaling, 0);

    let mut r = Reader::new(extended, FileVersion::V2);
    let gated = Annotation::deserialize(&mut r).unwrap();
    assert_eq!(gated.resolution, base.resolution);
    assert_eq!(gated.face_name, base.face_name);
    assert_eq!(gated.dim_scale, base.dim_scale);
    assert_eq!(gated.world_view_text_scale, 9);
    assert_eq!(gated.enable_annotation_scaling, 1);
    assert_eq!(gated.world_view_hatch_scale, base.world_view_hatch_scale);
}

#[test]
fn annotation_major_version_gate() {
    let mut r = Reader::new(vec![0x20u8], FileVersion::V2);
    let skipped = Annotation::deserialize(&mut r).unwrap();
    assert_eq!(skipped.dim_scale, 0);
    assert_eq!(skipped.face_name, "");
    assert_eq!(r.position(), 1);
}

#[test]
fn archive_header_and_version() {
    let mut data: Vec<u8> = Vec::new();
    data.extend("3D Geometry File Format ".as_bytes());
    data.extend("       1".as_bytes());
    let mut r = Reader::new(data, FileVersion::V1);
    assert!(geometria::header::Header::deserialize(&mut r).is_ok());
    let version = FileVersion::deserialize(&mut r).unwrap();
    assert_eq!(version, FileVersion::V1);
    assert_eq!(r.version(), FileVersion::V1);
}

fn push_end_of_table(data: &mut Vec<u8>) {
    data.extend(typecode::ENDOFTABLE.to_le_bytes());
    data.extend(0i32.to_le_bytes());
}

#[test]
fn archive_v2_minimal() {
    let mut data: Vec<u8> = Vec::new();
    data.extend("3D Geometry File Format ".as_bytes());
    data.extend("       2".as_bytes());
    let comment = "made by hand";
    data.extend(typecode::COMMENTBLOCK.to_le_bytes());
    data.extend((comment.len() as u32).to_le_bytes());
    data.extend(comment.as_bytes());
    data.extend(typecode::PROPERTIES_TABLE.to_le_bytes());
    data.extend(8u32.to_le_bytes());
    push_end_of_table(&mut data);
    data.extend(typecode::SETTINGS_TABLE.to_le_bytes());
    data.extend(8u32.to_le_bytes());
    push_end_of_table(&mut data);
    let mut r = Reader::new(data, FileVersion::V1);
    let archive = Archive::deserialize(&mut r).unwrap();
    assert_eq!(archive.version, FileVersion::V2);
    assert_eq!(archive.comment.0, comment);
    assert!(matches!(archive.properties, Properties::V2(_)));
}

#[test]
fn properties_v2_table_dispatch() {
    let mut entries: Vec<u8> = Vec::new();
    // Inline openNURBS version entry: the value is the stamp itself.
    entries.extend(typecode::PROPERTIES_OPENNURBS_VERSION.to_le_bytes());
    entries.extend(200612060u32.to_le_bytes());
    // File name entry.
    let mut name_payload: Vec<u8> = Vec::new();
    push_wstring(&mut name_payload, "model.3dm");
    entries.extend(typecode::PROPERTIES_AS_FILE_NAME.to_le_bytes());
    entries.extend((name_payload.len() as u32).to_le_bytes());
    entries.extend(&name_payload);
    // An unknown entry that must be skipped.
    entries.extend(0x2000_0001u32.to_le_bytes());
    entries.extend(3u32.to_le_bytes());
    entries.extend([0xAAu8; 3]);
    push_end_of_table(&mut entries);

    let mut data: Vec<u8> = Vec::new();
    data.extend(typecode::PROPERTIES_TABLE.to_le_bytes());
    data.extend((entries.len() as u32).to_le_bytes());
    data.extend(&entries);
    let total = data.len() as u64;
    let mut r = Reader::new(data, FileVersion::V2);
    let properties = Properties::deserialize(&mut r).unwrap();
    match properties {
        Properties::V2(p) => {
            assert_eq!(p.filename, "model.3dm");
            assert_eq!(p.version.major_version(), 5);
            assert_eq!(p.version.date().year(), 2006);
        }
        Properties::V1(_) => panic!("expected the version 2 layout"),
    }
    assert_eq!(r.position(), total);
}

#[test]
fn settings_table_dispatch() {
    let mut entries: Vec<u8> = Vec::new();
    // Current colour entry.
    entries.extend(typecode::SETTINGS_CURRENT_COLOR.to_le_bytes());
    entries.extend(8u32.to_le_bytes());
    entries.extend(0x123456i32.to_le_bytes());
    entries.extend(2i32.to_le_bytes());
    // Model address entry.
    let mut url_payload: Vec<u8> = Vec::new();
    push_wstring(&mut url_payload, "https://example.test/model");
    entries.extend(typecode::SETTINGS_MODEL_URL.to_le_bytes());
    entries.extend((url_payload.len() as u32).to_le_bytes());
    entries.extend(&url_payload);
    // Render mesh entry, chunk version 1.0, flag set.
    entries.extend(typecode::SETTINGS_RENDERMESH.to_le_bytes());
    entries.extend(5u32.to_le_bytes());
    entries.push(0x10);
    entries.extend(1i32.to_le_bytes());
    push_end_of_table(&mut entries);

    let mut data: Vec<u8> = Vec::new();
    data.extend(typecode::SETTINGS_TABLE.to_le_bytes());
    data.extend((entries.len() as u32).to_le_bytes());
    data.extend(&entries);
    let total = data.len() as u64;
    let mut r = Reader::new(data, FileVersion::V2);
    let settings = geometria::settings::Settings::deserialize(&mut r).unwrap();
    assert_eq!(settings.current_color.color, 0x123456);
    assert_eq!(settings.current_color.source, 2);
    assert_eq!(settings.model_url, "https://example.test/model");
    assert!(settings.render_mesh.compute_curvature);
    assert!(!settings.analysis_mesh.compute_curvature);
    assert_eq!(r.position(), total);
}

#[test]
fn settings_plugin_list_entries_are_counted() {
    // One plug-in record: a framing chunk whose payload is the framed
    // version stamp (its own chunk holding one version byte).
    let mut version_chunk: Vec<u8> = Vec::new();
    version_chunk.extend(2u32.to_le_bytes());
    version_chunk.extend(1u32.to_le_bytes());
    version_chunk.push(0x10);
    let mut plugin: Vec<u8> = Vec::new();
    plugin.extend(3u32.to_le_bytes());
    plugin.extend((version_chunk.len() as u32).to_le_bytes());
    plugin.extend(&version_chunk);
    let mut list_payload: Vec<u8> = Vec::new();
    list_payload.extend(1i32.to_le_bytes());
    list_payload.extend(&plugin);

    let mut entries: Vec<u8> = Vec::new();
    entries.extend(typecode::SETTINGS_PLUGINLIST.to_le_bytes());
    entries.extend((list_payload.len() as u32).to_le_bytes());
    entries.extend(&list_payload);
    push_end_of_table(&mut entries);

    let mut data: Vec<u8> = Vec::new();
    data.extend(typecode::SETTINGS_TABLE.to_le_bytes());
    data.extend((entries.len() as u32).to_le_bytes());
    data.extend(&entries);
    let total = data.len() as u64;
    let mut r = Reader::new(data, FileVersion::V2);
    let settings = geometria::settings::Settings::deserialize(&mut r).unwrap();
    assert_eq!(settings.plugin_list.data.len(), 1);
    assert_eq!(r.position(), total);
}

#[test]
fn properties_v2_wrong_table_typecode_yields_defaults() {
    let mut data: Vec<u8> = Vec::new();
    data.extend(typecode::TABLE.to_le_bytes());
    data.extend(4u32.to_le_bytes());
    data.extend([0u8; 4]);
    let mut r = Reader::new(data, FileVersion::V2);
    let properties = Properties::deserialize(&mut r).unwrap();
    match properties {
        Properties::V2(p) => {
            assert_eq!(p.filename, "");
            assert_eq!(p.version.major_version(), 0);
        }
        Properties::V1(_) => panic!("expected the version 2 layout"),
    }
    assert_eq!(r.position(), 12);
}
