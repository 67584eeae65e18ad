use geometria::header::{Header, HeaderError};
use geometria::reader::{IoErrorKind, Reader, SeekFrom};
use geometria::sequence::Sequence;
use geometria::string::{StringWithLength, WStringWithLength};
use geometria::time::Time;
use geometria::version::{Version, VersionError};

#[test]
fn deserialize_u8() {
    let mut r = Reader::new(vec![11u8], Version::V1);
    assert_eq!(11u8, r.read_u8().unwrap());
}

#[test]
fn read_numbers_little_endian() {
    let mut data: Vec<u8> = Vec::new();
    data.extend(0x1234u16.to_le_bytes());
    data.extend(0x12345678u32.to_le_bytes());
    data.extend((-5i32).to_le_bytes());
    data.extend(i64::MIN.to_le_bytes());
    let mut r = Reader::new(data, Version::V1);
    assert_eq!(0x1234u16, r.read_u16().unwrap());
    assert_eq!(0x12345678u32, r.read_u32().unwrap());
    assert_eq!(-5i32, r.read_i32().unwrap());
    assert_eq!(i64::MIN, r.read_i64().unwrap());
    assert_eq!(r.read_u8().err(), Some(IoErrorKind::UnexpectedEof));
}

#[test]
fn reader_seek_and_position() {
    let mut r = Reader::new(vec![0u8; 8], Version::V1);
    assert_eq!(r.seek(SeekFrom::Start(5)).unwrap(), 5);
    assert_eq!(r.seek(SeekFrom::Current(-2)).unwrap(), 3);
    assert_eq!(r.seek(SeekFrom::End(-1)).unwrap(), 7);
    assert_eq!(r.seek(SeekFrom::Current(-8)).err(), Some(IoErrorKind::InvalidInput));
    assert_eq!(r.position(), 7);
}

#[test]
fn header_deserialize_ok() {
    let data = "3D Geometry File Format ".as_bytes().to_vec();
    let mut r = Reader::new(data, Version::V1);
    assert!(Header::deserialize(&mut r).is_ok());
}

#[test]
fn header_deserialize_invalid_header() {
    let data = "4D Geometry File Format ".as_bytes().to_vec();
    let mut r = Reader::new(data, Version::V1);
    assert_eq!(Header::deserialize(&mut r).err(), Some(HeaderError::InvalidHeader));
}

#[test]
fn header_deserialize_io_error() {
    let data = "3D Geometry File Format".as_bytes().to_vec();
    let mut r = Reader::new(data, Version::V1);
    assert_eq!(
        Header::deserialize(&mut r).err(),
        Some(HeaderError::IoError(IoErrorKind::UnexpectedEof))
    );
}

#[test]
fn version_conversions() {
    let mut version = Version::V1;
    assert_eq!(1u8, version.to_byte());
    version = Version::V2;
    assert_eq!(2u8, version.to_byte());
    version = Version::V3;
    assert_eq!(3u8, version.to_byte());
    version = Version::V4;
    assert_eq!(4u8, version.to_byte());
    version = Version::V50;
    assert_eq!(50u8, version.to_byte());
    version = Version::V60;
    assert_eq!(60u8, version.to_byte());
    version = Version::V70;
    assert_eq!(70u8, version.to_byte());

    assert_eq!(Version::from_byte(1u8).ok(), Some(Version::V1));
    assert_eq!(Version::from_byte(2u8).ok(), Some(Version::V2));
    assert_eq!(Version::from_byte(3u8).ok(), Some(Version::V3));
    assert_eq!(Version::from_byte(4u8).ok(), Some(Version::V4));
    assert_eq!(Version::from_byte(50u8).ok(), Some(Version::V50));
    assert_eq!(Version::from_byte(60u8).ok(), Some(Version::V60));
    assert_eq!(Version::from_byte(70u8).ok(), Some(Version::V70));
    assert_eq!(Version::from_byte(0u8).err(), Some(VersionError::InvalidVersion));
}

#[test]
fn version_deserialize_ok() {
    let data = "       1".as_bytes().to_vec();
    let mut r = Reader::new(data, Version::V1);
    assert_eq!(Version::deserialize(&mut r).ok(), Some(Version::V1));
    assert_eq!(r.version(), Version::V1);
}

#[test]
fn version_deserialize_updates_context() {
    let data = "      50".as_bytes().to_vec();
    let mut r = Reader::new(data, Version::V1);
    assert_eq!(Version::deserialize(&mut r).ok(), Some(Version::V50));
    assert_eq!(r.version(), Version::V50);
}

#[test]
fn deserialize_invalid_version() {
    let data = "        a".as_bytes().to_vec();
    let mut r = Reader::new(data, Version::V1);
    assert_eq!(
        Version::deserialize(&mut r).err(),
        Some(VersionError::InvalidVersion)
    );
}

#[test]
fn version_deserialize_io_error() {
    let data = "    1".as_bytes().to_vec();
    let mut r = Reader::new(data, Version::V1);
    assert_eq!(
        Version::deserialize(&mut r).err(),
        Some(VersionError::IoError(IoErrorKind::UnexpectedEof))
    );
}

#[test]
fn deserialize_string_with_length() {
    let text = "The string".to_string();
    let size: u32 = text.len() as u32;
    let mut data: Vec<u8> = Vec::new();
    data.extend(size.to_le_bytes());
    data.extend(text.as_bytes());
    let mut r = Reader::new(data, Version::V1);
    let string_with_length = StringWithLength::deserialize(&mut r).unwrap();
    assert_eq!(text, string_with_length.0);
}

#[test]
fn deserialize_string_with_invalid_length() {
    let text = "The string".to_string();
    let size: u32 = (text.len() + 1) as u32;
    let mut data: Vec<u8> = Vec::new();
    data.extend(size.to_le_bytes());
    data.extend(text.as_bytes());
    let mut r = Reader::new(data, Version::V1);
    assert!(StringWithLength::deserialize(&mut r).is_err());
}

#[test]
fn deserialize_string_multibyte_utf8() {
    let mut data: Vec<u8> = Vec::new();
    data.extend(2u32.to_le_bytes());
    data.push(0xC3);
    data.push(0xA9);
    let mut r = Reader::new(data, Version::V1);
    let decoded = StringWithLength::deserialize(&mut r).unwrap();
    assert_eq!(decoded.0.chars().count(), 1);
    assert_eq!(decoded.0, "\u{e9}");
}

#[test]
fn deserialize_wstring_with_length_ok() {
    let mut text = "The string\0".to_string();
    let size: u32 = text.encode_utf16().count() as u32;
    let mut data: Vec<u8> = Vec::new();
    data.extend(size.to_le_bytes());
    for unit in text.encode_utf16() {
        data.extend(unit.to_le_bytes());
    }
    let mut r = Reader::new(data, Version::V1);
    let wstring_with_length = WStringWithLength::deserialize(&mut r).unwrap();
    text.pop();
    assert_eq!(text, wstring_with_length.0);
}

#[test]
fn deserialize_wstring_with_invalid_lenth() {
    let text = "The string\0".to_string();
    let size: u32 = (text.encode_utf16().count() + 1) as u32;
    let mut data: Vec<u8> = Vec::new();
    data.extend(size.to_le_bytes());
    for unit in text.encode_utf16() {
        data.extend(unit.to_le_bytes());
    }
    let mut r = Reader::new(data, Version::V1);
    assert!(WStringWithLength::deserialize(&mut r).is_err());
}

#[test]
fn deserialize_wstring_with_zero_count() {
    let mut data: Vec<u8> = Vec::new();
    data.extend(0u32.to_le_bytes());
    let mut r = Reader::new(data, Version::V1);
    assert!(WStringWithLength::deserialize(&mut r).is_err());
}

#[test]
fn invalid_length() {
    let mut data: Vec<u8> = Vec::new();
    data.extend((-1i32).to_le_bytes());
    let mut r = Reader::new(data, Version::V1);
    assert!(Sequence::<u8>::deserialize(&mut r).is_err());
}

#[test]
fn short_length() {
    let mut data: Vec<u8> = Vec::new();
    data.extend(2i32.to_le_bytes());
    data.push(0);
    let mut r = Reader::new(data, Version::V1);
    assert!(Sequence::<u8>::deserialize(&mut r).is_err());
}

#[test]
fn ok_length() {
    let mut data: Vec<u8> = Vec::new();
    data.extend(2i32.to_le_bytes());
    data.push(0);
    data.push(1);
    let mut r = Reader::new(data, Version::V1);
    assert_eq!(Sequence::<u8>::deserialize(&mut r).unwrap().data, vec![0, 1]);
}

#[test]
fn time_deserialize_ok() {
    let mut data: Vec<u8> = Vec::new();
    let second = 1u32;
    let minute = 2u32;
    let hour = 3u32;
    let month_day = 4u32;
    let month = 5u32;
    let year = 6u32;
    let week_day = 7u32;
    let year_day = 8u32;
    data.extend(second.to_le_bytes());
    data.extend(minute.to_le_bytes());
    data.extend(hour.to_le_bytes());
    data.extend(month_day.to_le_bytes());
    data.extend(month.to_le_bytes());
    data.extend(year.to_le_bytes());
    data.extend(week_day.to_le_bytes());
    data.extend(year_day.to_le_bytes());
    let mut r = Reader::new(data, Version::V1);
    let time = Time::deserialize(&mut r).unwrap();
    assert_eq!(time.second, second);
    assert_eq!(time.minute, minute);
    assert_eq!(time.hour, hour);
    assert_eq!(time.month_day, month_day);
    assert_eq!(time.month, month);
    assert_eq!(time.year, year);
    assert_eq!(time.week_day, week_day);
    assert_eq!(time.year_day, year_day);
}
