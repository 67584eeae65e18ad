use geometria::chunk::{Begin, Chunk, ChunkError, Value, Version as ChunkVersion};
use geometria::reader::{Reader, SeekFrom};
use geometria::typecode;
use geometria::version::Version as FileVersion;

fn reader_with(data: Vec<u8>, version: FileVersion) -> Reader {
    Reader::new(data, version)
}

#[test]
fn deserialize_version() {
    let major_version = 1u8;
    let minor_version = 2u8;
    let data = vec![major_version << 4 | (minor_version & 0x0F)];
    let mut r = reader_with(data, FileVersion::V1);
    let version = ChunkVersion::deserialize(&mut r).unwrap();
    assert_eq!(major_version, version.major());
    assert_eq!(minor_version, version.minor());
}

#[test]
fn version_nibbles_reassemble() {
    let data = vec![0xABu8];
    let mut r = reader_with(data, FileVersion::V1);
    let version = ChunkVersion::deserialize(&mut r).unwrap();
    assert_eq!(10, version.major());
    assert_eq!(11, version.minor());
    assert_eq!(0xAB, version.major() as u16 * 16 + version.minor() as u16);
}

#[test]
fn value_size() {
    assert_eq!(4, Value::size(FileVersion::V1));
    assert_eq!(4, Value::size(FileVersion::V2));
    assert_eq!(4, Value::size(FileVersion::V3));
    assert_eq!(4, Value::size(FileVersion::V4));
    assert_eq!(8, Value::size(FileVersion::V50));
    assert_eq!(8, Value::size(FileVersion::V60));
    assert_eq!(8, Value::size(FileVersion::V70));
}

#[test]
fn value_is_unsigned() {
    assert!(Value::is_unsigned(typecode::RGB));
    assert!(Value::is_unsigned(typecode::RGBDISPLAY));
    assert!(Value::is_unsigned(typecode::PROPERTIES_OPENNURBS_VERSION));
    assert!(Value::is_unsigned(typecode::OBJECT_RECORD_TYPE));
    assert!(Value::is_unsigned(!typecode::SHORT));
    assert!(Value::is_unsigned(0));
    assert!(!Value::is_unsigned(typecode::SHORT));
}

fn reader_with_begin(data: Vec<u8>, version: FileVersion, tc: u32) -> Reader {
    let mut r = Reader::new(data, version);
    r.set_chunk_begin(Begin { typecode: tc, value: 0, initial_position: 0 });
    r
}

#[test]
fn deserialize_value_0_size_8() {
    let data = 0i64.to_le_bytes().to_vec();
    let mut r = reader_with_begin(data, FileVersion::V50, 0);
    assert_eq!(Value::deserialize(&mut r).ok(), Some(Value(0i64)));
}

#[test]
fn deserialize_value_max_size_8() {
    let data = i64::MAX.to_le_bytes().to_vec();
    let mut r = reader_with_begin(data, FileVersion::V50, 0);
    assert_eq!(Value::deserialize(&mut r).ok(), Some(Value(i64::MAX)));
}

#[test]
fn deserialize_value_min_size_8() {
    let data = i64::MIN.to_le_bytes().to_vec();
    let mut r = reader_with_begin(data, FileVersion::V50, 0);
    assert_eq!(Value::deserialize(&mut r).ok(), Some(Value(i64::MIN)));
}

#[test]
fn deserialize_value_0_size_4_unsigned() {
    let data = 0u32.to_le_bytes().to_vec();
    let mut r = reader_with_begin(data, FileVersion::V1, typecode::RGB);
    assert_eq!(Value::deserialize(&mut r).ok(), Some(Value(0i64)));
}

#[test]
fn deserialize_value_min_size_4_unsigned() {
    let data = u32::MIN.to_le_bytes().to_vec();
    let mut r = reader_with_begin(data, FileVersion::V1, typecode::RGB);
    assert_eq!(Value::deserialize(&mut r).ok(), Some(Value(u32::MIN as i64)));
}

#[test]
fn deserialize_value_max_size_4_unsigned() {
    let data = u32::MAX.to_le_bytes().to_vec();
    let mut r = reader_with_begin(data, FileVersion::V1, typecode::RGB);
    assert_eq!(Value::deserialize(&mut r).ok(), Some(Value(u32::MAX as i64)));
}

#[test]
fn deserialize_value_0_size_4_signed() {
    let data = 0i32.to_le_bytes().to_vec();
    let mut r = reader_with_begin(data, FileVersion::V1, typecode::SHORT);
    assert_eq!(Value::deserialize(&mut r).ok(), Some(Value(0i64)));
}

#[test]
fn deserialize_value_min_size_4_signed() {
    let data = i32::MIN.to_le_bytes().to_vec();
    let mut r = reader_with_begin(data, FileVersion::V1, typecode::SHORT);
    assert_eq!(Value::deserialize(&mut r).ok(), Some(Value(i32::MIN as i64)));
}

#[test]
fn deserialize_value_max_size_4_signed() {
    let data = i32::MAX.to_le_bytes().to_vec();
    let mut r = reader_with_begin(data, FileVersion::V1, typecode::SHORT);
    assert_eq!(Value::deserialize(&mut r).ok(), Some(Value(i32::MAX as i64)));
}

#[test]
fn new_not_empty_chunk() {
    let chunk = Chunk::new(0, 1, Begin::default());
    assert!(chunk.is_ok());
    let result = chunk.ok().unwrap();
    assert_eq!(result.start_position(), 0);
    assert_eq!(result.length(), 1);
}

#[test]
fn new_empty_chunk() {
    let chunk = Chunk::new(0, 0, Begin::default());
    assert_eq!(chunk.err(), Some(ChunkError::EmptyChunk));
}

#[test]
fn chunk_start_position() {
    let chunk = Chunk::new(1, 1, Begin::default()).unwrap();
    assert_eq!(1, chunk.start_position());
}

#[test]
fn chunk_end_position() {
    let chunk = Chunk::new(1, 2, Begin::default()).unwrap();
    assert_eq!(2, chunk.end_position());
}

#[test]
fn chunk_length() {
    let chunk = Chunk::new(1, 2, Begin::default()).unwrap();
    assert_eq!(2, chunk.length());
}

#[test]
fn chunk_remainder_length() {
    let offset = 1u64;
    let length = 9u64;
    let chunk = Chunk::new(offset, length, Begin::default()).unwrap();
    let mut stream = reader_with(vec![0u8; 11], FileVersion::V1);

    stream.set_position(offset - 1);
    let result = chunk.remainder_length(&stream);
    assert!(result.is_err());
    assert_eq!(ChunkError::OutOfBounds, result.err().unwrap());

    stream.set_position(offset);
    assert_eq!(Some(length), chunk.remainder_length(&stream).ok());

    stream.set_position(offset + length - 1);
    assert_eq!(Some(1), chunk.remainder_length(&stream).ok());

    stream.set_position(offset + length);
    assert_eq!(Some(0), chunk.remainder_length(&stream).ok());
}

#[test]
fn seek_chunk_from_start_to_start() {
    let mut stream = reader_with(vec![0u8; 11], FileVersion::V1);
    let offset = 1u64;
    let length = 9u64;
    let chunk = Chunk::new(offset, length, Begin::default()).unwrap();
    assert_eq!(Some(0), chunk.seek(&mut stream, SeekFrom::Start(0)).ok());
    assert_eq!(offset, stream.position());
}

#[test]
fn seek_chunk_from_start_to_end() {
    let mut stream = reader_with(vec![0u8; 11], FileVersion::V1);
    let offset = 1u64;
    let length = 9u64;
    let chunk = Chunk::new(offset, length, Begin::default()).unwrap();
    assert_eq!(Some(length - 1), chunk.seek(&mut stream, SeekFrom::Start(length - 1)).ok());
    assert_eq!(offset + length - 1, stream.position());
}

#[test]
fn seek_chunk_from_start_beyond_end() {
    let mut stream = reader_with(vec![0u8; 11], FileVersion::V1);
    let offset = 1u64;
    let length = 9u64;
    let chunk = Chunk::new(offset, length, Begin::default()).unwrap();
    assert_eq!(Some(length), chunk.seek(&mut stream, SeekFrom::Start(length)).ok());
    assert_eq!(offset + length, stream.position());
}

#[test]
fn seek_chunk_from_start_overflow() {
    let mut stream = reader_with(vec![0u8; 11], FileVersion::V1);
    let offset = 1u64;
    let length = 9u64;
    let chunk = Chunk::new(offset, length, Begin::default()).unwrap();
    assert_eq!(
        ChunkError::InvalidInput,
        chunk.seek(&mut stream, SeekFrom::Start(u64::MAX)).err().unwrap()
    );
    assert_eq!(0, stream.position());
}

#[test]
fn seek_chunk_from_end_to_end() {
    let mut stream = reader_with(vec![0u8; 11], FileVersion::V1);
    let offset = 1u64;
    let length = 9u64;
    let chunk = Chunk::new(offset, length, Begin::default()).unwrap();
    assert_eq!(Some(length - 1), chunk.seek(&mut stream, SeekFrom::End(0)).ok());
    assert_eq!(offset + length - 1, stream.position());
}

#[test]
fn seek_chunk_from_end_beyond_the_end() {
    let mut stream = reader_with(vec![0u8; 11], FileVersion::V1);
    let offset = 1u64;
    let length = 9u64;
    let chunk = Chunk::new(offset, length, Begin::default()).unwrap();
    assert_eq!(Some(length), chunk.seek(&mut stream, SeekFrom::End(1)).ok());
    assert_eq!(offset + length, stream.position());
}

#[test]
fn seek_chunk_from_end_to_start() {
    let mut stream = reader_with(vec![0u8; 11], FileVersion::V1);
    let offset = 1u64;
    let length = 9u64;
    let chunk = Chunk::new(offset, length, Begin::default()).unwrap();
    assert_eq!(Some(0), chunk.seek(&mut stream, SeekFrom::End(1 - (length as i64))).ok());
    assert_eq!(offset, stream.position());
}

#[test]
fn seek_chunk_from_end_to_negative() {
    let mut stream = reader_with(vec![0u8; 11], FileVersion::V1);
    let offset = 1u64;
    let length = 9u64;
    let chunk = Chunk::new(offset, length, Begin::default()).unwrap();
    assert_eq!(
        ChunkError::OutOfBounds,
        chunk.seek(&mut stream, SeekFrom::End(-(length as i64))).err().unwrap()
    );
    assert_eq!(0, stream.position());
}

#[test]
fn seek_chunk_from_end_negative_overflow() {
    let mut stream = reader_with(vec![0u8; 11], FileVersion::V1);
    let offset = 1u64;
    let length = 9u64;
    let chunk = Chunk::new(offset, length, Begin::default()).unwrap();
    assert_eq!(
        ChunkError::InvalidInput,
        chunk.seek(&mut stream, SeekFrom::End(-((offset + length + 1) as i64))).err().unwrap()
    );
    assert_eq!(0, stream.position());
}

#[test]
fn seek_chunk_from_end_positive_overflow() {
    let mut stream = reader_with(vec![0u8; 11], FileVersion::V1);
    let offset = u64::MAX;
    let length = 1u64;
    let chunk = Chunk::new(offset, length, Begin::default()).unwrap();
    assert_eq!(
        ChunkError::InvalidInput,
        chunk.seek(&mut stream, SeekFrom::End(1)).err().unwrap()
    );
    assert_eq!(0, stream.position());
}

#[test]
fn seek_chunk_from_current_to_start() {
    let mut stream = reader_with(vec![0u8; 11], FileVersion::V1);
    let offset = 1u64;
    let length = 9u64;
    let chunk = Chunk::new(offset, length, Begin::default()).unwrap();
    assert_eq!(Some(0), chunk.seek(&mut stream, SeekFrom::Current(offset as i64)).ok());
    assert_eq!(offset, stream.position());
}

#[test]
fn seek_chunk_from_current_to_end() {
    let mut stream = reader_with(vec![0u8; 11], FileVersion::V1);
    let offset = 1u64;
    let length = 9u64;
    let chunk = Chunk::new(offset, length, Begin::default()).unwrap();
    assert_eq!(
        Some(length - 1),
        chunk.seek(&mut stream, SeekFrom::Current((offset + length - 1) as i64)).ok()
    );
    assert_eq!(offset + length - 1, stream.position());
}

#[test]
fn seek_chunk_from_current_beyond_end() {
    let mut stream = reader_with(vec![0u8; 11], FileVersion::V1);
    let offset = 1u64;
    let length = 9u64;
    let chunk = Chunk::new(offset, length, Begin::default()).unwrap();
    assert_eq!(
        Some(length),
        chunk.seek(&mut stream, SeekFrom::Current((offset + length) as i64)).ok()
    );
    assert_eq!(offset + length, stream.position());
}

#[test]
fn seek_chunk_from_current_to_negative() {
    let mut stream = reader_with(vec![0u8; 11], FileVersion::V1);
    let offset = 1u64;
    let length = 9u64;
    stream.set_position(offset);
    let chunk = Chunk::new(offset, length, Begin::default()).unwrap();
    assert_eq!(
        ChunkError::OutOfBounds,
        chunk.seek(&mut stream, SeekFrom::Current(-1)).err().unwrap()
    );
    assert_eq!(offset, stream.position());
}

#[test]
fn seek_chunk_from_current_negative_overflow() {
    let mut stream = reader_with(vec![0u8; 11], FileVersion::V1);
    let offset = 1u64;
    let length = 9u64;
    stream.set_position(offset);
    let chunk = Chunk::new(offset, length, Begin::default()).unwrap();
    assert_eq!(
        ChunkError::InvalidInput,
        chunk.seek(&mut stream, SeekFrom::Current(-((offset + 1) as i64))).err().unwrap()
    );
    assert_eq!(offset, stream.position());
}

#[test]
fn seek_chunk_from_current_positive_overflow() {
    let mut stream = reader_with(vec![0u8; 11], FileVersion::V1);
    let offset = u64::MAX;
    let length = 1u64;
    stream.set_position(offset);
    let chunk = Chunk::new(offset, length, Begin::default()).unwrap();
    assert_eq!(
        ChunkError::InvalidInput,
        chunk.seek(&mut stream, SeekFrom::Current(1)).err().unwrap()
    );
    assert_eq!(offset, stream.position());
}

#[test]
fn seek_chunk_confined_to_chunk() {
    let mut stream = reader_with(vec![0u8; 11], FileVersion::V1);
    let offset = 1u64;
    let length = 9u64;
    let chunk = Chunk::new(offset, length, Begin::default()).unwrap();
    // One past the last byte is the largest accepted target.
    assert_eq!(Some(length), chunk.seek(&mut stream, SeekFrom::Start(length)).ok());
    assert_eq!(offset + length, stream.position());
    // Anything further is out of bounds and does not move the cursor.
    assert_eq!(
        ChunkError::OutOfBounds,
        chunk.seek(&mut stream, SeekFrom::Start(length + 1)).err().unwrap()
    );
    assert_eq!(
        ChunkError::OutOfBounds,
        chunk.seek(&mut stream, SeekFrom::End(2)).err().unwrap()
    );
    assert_eq!(
        ChunkError::OutOfBounds,
        chunk.seek(&mut stream, SeekFrom::Current(1)).err().unwrap()
    );
    assert_eq!(offset + length, stream.position());
}

#[test]
fn read_chunk() {
    let data: Vec<u8> = (0..11).collect();
    let mut stream = reader_with(data, FileVersion::V1);
    let offset = 1u64;
    let length = 9u64;
    let chunk = Chunk::new(offset, length, Begin::default()).unwrap();

    assert_eq!(ChunkError::OutOfBounds, chunk.read(&mut stream, 10).err().unwrap());

    chunk.seek(&mut stream, SeekFrom::Start(0)).unwrap();
    let bytes = chunk.read(&mut stream, 10).unwrap();
    assert_eq!(length as usize, bytes.len());
    let expected: Vec<u8> = (1..=9).collect();
    assert_eq!(bytes, expected);
    assert_eq!(offset + length, stream.position());
}

#[test]
fn read_string_from_chunk() {
    let data = "hello world!".as_bytes().to_vec();
    let mut stream = reader_with(data, FileVersion::V1);
    let chunk = Chunk::new(0, 5, Begin::default()).unwrap();
    let bytes = chunk.read(&mut stream, 12).unwrap();
    let result = String::from_utf8(bytes).unwrap();
    assert_eq!(result, "hello".to_string());
}

#[test]
fn begin_deserialize_updates_context() {
    let mut data: Vec<u8> = Vec::new();
    data.extend(typecode::SUMMARY.to_le_bytes());
    data.extend(16u32.to_le_bytes());
    let mut r = reader_with(data, FileVersion::V1);
    let begin = Begin::deserialize(&mut r).unwrap();
    assert_eq!(begin.typecode, typecode::SUMMARY);
    assert_eq!(begin.value, 16);
    assert_eq!(begin.initial_position, 8);
    assert_eq!(r.chunk_begin(), begin);
}

#[test]
fn begin_deserialize_wide_length() {
    let mut data: Vec<u8> = Vec::new();
    data.extend(typecode::SUMMARY.to_le_bytes());
    data.extend((-2i64).to_le_bytes());
    let mut r = reader_with(data, FileVersion::V60);
    let begin = Begin::deserialize(&mut r).unwrap();
    assert_eq!(begin.value, -2);
    assert_eq!(begin.initial_position, 12);
}

#[test]
fn size_of_length_is_4_or_8() {
    for version in [
        FileVersion::V1,
        FileVersion::V2,
        FileVersion::V3,
        FileVersion::V4,
        FileVersion::V50,
        FileVersion::V60,
        FileVersion::V70,
    ] {
        let width = Begin::size_of_length(version);
        assert!(width == 4 || width == 8);
    }
}
