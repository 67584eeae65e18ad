use geometria::date::GregorianDateBuilder;
use geometria::on_version::{
    DateFormatVersion, Error, Mask, NormalFormatVersion, Version,
};

#[test]
fn mask() {
    let mut mask = Mask { position: 0, size: 0 };
    assert_eq!(0, mask.max_value());
    assert_eq!(0, mask.mask());
    assert_eq!(0, mask.extract_value(0b11));
    assert_eq!(0, mask.insert_value(0b11));

    mask = Mask { position: 1, size: 0 };
    assert_eq!(0, mask.max_value());
    assert_eq!(0, mask.mask());
    assert_eq!(0, mask.extract_value(0b11));
    assert_eq!(0, mask.insert_value(0b11));

    mask = Mask { position: 0, size: 1 };
    assert_eq!(1, mask.max_value());
    assert_eq!(0b01, mask.mask());
    assert_eq!(0b01, mask.extract_value(0b01));
    assert_eq!(0b00, mask.extract_value(0b10));
    assert_eq!(0b01, mask.insert_value(0b01));
    assert_eq!(0b00, mask.insert_value(0b10));

    mask = Mask { position: 1, size: 1 };
    assert_eq!(1, mask.max_value());
    assert_eq!(0b10, mask.mask());
    assert_eq!(0b00, mask.extract_value(0b01));
    assert_eq!(0b01, mask.extract_value(0b10));
    assert_eq!(0b10, mask.insert_value(0b01));
    assert_eq!(0b00, mask.insert_value(0b10));

    mask = Mask { position: 1, size: 2 };
    assert_eq!(3, mask.max_value());
    assert_eq!(0b110, mask.mask());
    assert_eq!(0b011, mask.extract_value(0b110));
    assert_eq!(0b000, mask.extract_value(0b001));
    assert_eq!(0b001, mask.extract_value(0b011));
    assert_eq!(0b110, mask.insert_value(0b011));
    assert_eq!(0b000, mask.insert_value(0b100));
    assert_eq!(0b100, mask.insert_value(0b010));
}

fn min_date() -> geometria::date::GregorianDate {
    GregorianDateBuilder::new().year(2000).month_and_day(12, 21).build().unwrap()
}

fn max_date() -> geometria::date::GregorianDate {
    GregorianDateBuilder::new().year(2099).month_and_day(12, 31).build().unwrap()
}

#[test]
fn valid_version() {
    let mut date = min_date();
    for major_version in 0..=4 {
        assert!(Version::new(major_version, 0, date, 0).is_ok());
    }
    date = GregorianDateBuilder::new().year(2006).build().unwrap();
    assert!(Version::new(5, 0, date, 0).is_ok());

    date = GregorianDateBuilder::new().year(2012).build().unwrap();
    assert!(Version::new(6, 0, date, 0).is_ok());

    date = GregorianDateBuilder::new().year(2018).build().unwrap();
    assert!(Version::new(7, 127, date, 3).is_ok());
}

#[test]
fn invalid_major_version() {
    assert_eq!(
        Version::new(8, 0, min_date(), 0).err(),
        Some(Error::InvalidMajorVersion)
    );
}

#[test]
fn invalid_minor_version() {
    assert_eq!(
        Version::new(0, 128, min_date(), 0).err(),
        Some(Error::InvalidMinorVersion)
    );
}

#[test]
fn invalid_date() {
    assert_eq!(
        Version::new(
            0,
            0,
            GregorianDateBuilder::new().year(2000).month_and_day(12, 20).build().unwrap(),
            0
        )
        .err(),
        Some(Error::InvalidDate)
    );
    assert_eq!(
        Version::new(
            0,
            0,
            GregorianDateBuilder::new().year(2100).month_and_day(1, 1).build().unwrap(),
            0
        )
        .err(),
        Some(Error::InvalidDate)
    );
}

#[test]
fn invalid_platform() {
    assert_eq!(
        Version::new(0, 0, min_date(), 4).err(),
        Some(Error::InvalidPlatform)
    );
}

#[test]
fn mismatch_version_date() {
    let mut date = GregorianDateBuilder::new().year(2012).build().unwrap();
    for major_version in 0..=4 {
        assert_eq!(
            Version::new(major_version, 0, date, 0).err(),
            Some(Error::VersionDateMismatch)
        );
    }
    date = GregorianDateBuilder::new().year(2005).build().unwrap();
    assert_eq!(Version::new(5, 0, date, 0).err(), Some(Error::VersionDateMismatch));

    date = GregorianDateBuilder::new().year(2011).build().unwrap();
    assert_eq!(Version::new(6, 0, date, 0).err(), Some(Error::VersionDateMismatch));

    date = GregorianDateBuilder::new().year(2017).build().unwrap();
    assert_eq!(Version::new(7, 0, date, 0).err(), Some(Error::VersionDateMismatch));
}

#[test]
fn observers() {
    let version = Version::new(
        9,
        1,
        GregorianDateBuilder::new().year(2002).month_and_day(10, 27).build().unwrap(),
        2,
    )
    .unwrap();
    assert_eq!(9, version.major_version());
    assert_eq!(1, version.minor_version());
    assert_eq!(2002, version.date().year());
    assert_eq!(10, version.date().month());
    assert_eq!(27, version.date().day_of_month());
    assert_eq!(2, version.platform());
}

#[test]
fn on_version_conversions() {
    let mut initial_version = Version::new(0, 0, min_date(), 0).unwrap();
    let mut normal_format: NormalFormatVersion = initial_version.to_normal_format();
    let mut date_format: DateFormatVersion = initial_version.to_date_format();

    let mut final_version = Version::from_normal_format(normal_format).unwrap();
    assert_eq!(initial_version, final_version);

    final_version = Version::from_date_format(date_format).unwrap();
    assert_eq!(initial_version, final_version);

    initial_version = Version::new(9, 1, max_date(), 1).unwrap();
    normal_format = initial_version.to_normal_format();
    date_format = initial_version.to_date_format();

    final_version = Version::from_normal_format(normal_format).unwrap();
    assert_eq!(initial_version, final_version);

    final_version = Version::from_date_format(date_format).unwrap();
    let initial_version_simplified = Version::new(9, 0, max_date(), 0).unwrap();
    assert_eq!(initial_version_simplified, final_version);
}

#[test]
fn date_format_special_value() {
    let version = Version::from_date_format(DateFormatVersion(200612060)).unwrap();
    assert_eq!(5, version.major_version());
    assert_eq!(2006, version.date().year());
    assert_eq!(12, version.date().month());
    assert_eq!(6, version.date().day_of_month());
}
