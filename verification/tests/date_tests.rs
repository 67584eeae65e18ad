use geometria::date::{Error, GregorianDateBuilder};

#[test]
fn date_default_build() {
    let date = GregorianDateBuilder::new().build().unwrap();
    assert_eq!((date.year(), date.month(), date.day_of_month()), (1582, 1, 1));
}

#[test]
fn date_valid_build() {
    let date = GregorianDateBuilder::new()
        .year(1989)
        .month(11)
        .day_of_month(11)
        .build()
        .unwrap();
    assert_eq!((date.year(), date.month(), date.day_of_month()), (1989, 11, 11));
}

#[test]
fn date_valid_year() {
    assert!(GregorianDateBuilder::new().year(1582).build().is_ok());
}

#[test]
fn date_invalid_year() {
    assert_eq!(
        GregorianDateBuilder::new().year(1581).build().err(),
        Some(Error::InvalidYear)
    );
}

#[test]
fn date_valid_month() {
    for month in 1..=12 {
        assert!(GregorianDateBuilder::new().month(month).build().is_ok());
    }
}

#[test]
fn date_invalid_month() {
    assert_eq!(
        GregorianDateBuilder::new().month(0).build().err(),
        Some(Error::InvalidMonth)
    );
    assert_eq!(
        GregorianDateBuilder::new().month(13).build().err(),
        Some(Error::InvalidMonth)
    );
}

#[test]
fn valid_day() {
    for month in [1, 3, 5, 7, 8, 10, 12] {
        for day in 1..=31 {
            assert!(GregorianDateBuilder::new().month(month).day_of_month(day).build().is_ok());
        }
    }
    for month in [4, 6, 9, 1] {
        for day in 1..=30 {
            assert!(GregorianDateBuilder::new().month(month).day_of_month(day).build().is_ok());
        }
    }
    for day in 1..=28 {
        assert!(GregorianDateBuilder::new().month(2).day_of_month(day).build().is_ok());
    }
    for day in 1..=29 {
        assert!(
            GregorianDateBuilder::new().year(1624).month(2).day_of_month(day).build().is_ok()
        );
    }
}

#[test]
fn invalid_day() {
    for month in 1..=12 {
        assert_eq!(
            GregorianDateBuilder::new().month(month).day_of_month(0).build().err(),
            Some(Error::InvalidDayOfMonth)
        );
    }
    for month in [1, 3, 5, 7, 8, 10, 12] {
        assert_eq!(
            GregorianDateBuilder::new().month(month).day_of_month(32).build().err(),
            Some(Error::InvalidDayOfMonth)
        );
    }
    for month in [4, 6, 9, 11] {
        assert_eq!(
            GregorianDateBuilder::new().month(month).day_of_month(31).build().err(),
            Some(Error::InvalidDayOfMonth)
        );
    }
    assert_eq!(
        GregorianDateBuilder::new().month(2).day_of_month(29).build().err(),
        Some(Error::InvalidDayOfMonth)
    );
    assert_eq!(
        GregorianDateBuilder::new().year(1624).month(2).day_of_month(30).build().err(),
        Some(Error::InvalidDayOfMonth)
    );
}

#[test]
fn valid_day_of_month() {
    for month in [1, 3, 5, 7, 8, 10, 12] {
        for day in 1..=31 {
            assert!(
                GregorianDateBuilder::new().month_and_day(month, day).build().is_ok()
            );
        }
    }
    for month in [4, 6, 9, 1] {
        for day in 1..=30 {
            assert!(
                GregorianDateBuilder::new().month_and_day(month, day).build().is_ok()
            );
        }
    }
    for day in 1..=28 {
        assert!(GregorianDateBuilder::new().month_and_day(2, day).build().is_ok());
    }
    for day in 1..=29 {
        assert!(
            GregorianDateBuilder::new().year(1624).month_and_day(2, day).build().is_ok()
        );
    }
}

#[test]
fn invalid_day_of_month() {
    for month in 1..=12 {
        assert_eq!(
            GregorianDateBuilder::new().month_and_day(month, 0).build().err(),
            Some(Error::InvalidDayOfMonth)
        );
    }
    for month in [1, 3, 5, 7, 8, 10, 12] {
        assert_eq!(
            GregorianDateBuilder::new().month_and_day(month, 32).build().err(),
            Some(Error::InvalidDayOfMonth)
        );
    }
    for month in [4, 6, 9, 11] {
        assert_eq!(
            GregorianDateBuilder::new().month_and_day(month, 31).build().err(),
            Some(Error::InvalidDayOfMonth)
        );
    }
    assert_eq!(
        GregorianDateBuilder::new().month_and_day(2, 29).build().err(),
        Some(Error::InvalidDayOfMonth)
    );
    assert_eq!(
        GregorianDateBuilder::new().year(1624).month_and_day(2, 30).build().err(),
        Some(Error::InvalidDayOfMonth)
    );
}

#[test]
fn invalid_day_of_year() {
    assert_eq!(
        GregorianDateBuilder::new().day_of_year(0).build().err(),
        Some(Error::InvalidDayOfYear)
    );
    assert_eq!(
        GregorianDateBuilder::new().day_of_year(366).build().err(),
        Some(Error::InvalidDayOfYear)
    );
    assert_eq!(
        GregorianDateBuilder::new().year(2000).day_of_year(367).build().err(),
        Some(Error::InvalidDayOfYear)
    );
}

#[test]
fn valid_day_of_year() {
    assert!(GregorianDateBuilder::new().day_of_year(365).build().is_ok());
    assert!(GregorianDateBuilder::new().year(2000).day_of_year(366).build().is_ok());
}

#[test]
fn day_of_year_inverts_to_month_and_day() {
    let date = GregorianDateBuilder::new().year(2000).day_of_year(366).build().unwrap();
    assert_eq!((date.month(), date.day_of_month()), (12, 31));
    assert_eq!(date.day_of_year(), 366);
    let date = GregorianDateBuilder::new().year(1999).day_of_year(60).build().unwrap();
    assert_eq!((date.month(), date.day_of_month()), (3, 1));
}

#[test]
fn date_month_days() {
    for month in [1, 3, 5, 7, 8, 10, 12] {
        assert_eq!(
            GregorianDateBuilder::new().month(month).build().unwrap().month_days(),
            31
        );
    }
    for month in [4, 6, 9, 11] {
        assert_eq!(
            GregorianDateBuilder::new().month(month).build().unwrap().month_days(),
            30
        );
    }
    assert_eq!(GregorianDateBuilder::new().month(2).build().unwrap().month_days(), 28);
    assert_eq!(
        GregorianDateBuilder::new().year(1624).month(2).build().unwrap().month_days(),
        29
    );
}

#[test]
fn date_year_days() {
    assert_eq!(GregorianDateBuilder::new().year(1999).build().unwrap().year_days(), 365);
    assert_eq!(GregorianDateBuilder::new().year(2000).build().unwrap().year_days(), 366);
}

#[test]
fn date_day_of_year() {
    for month in 1..12 {
        let initial_date = GregorianDateBuilder::new().month(month).build().unwrap();
        let final_date = GregorianDateBuilder::new().month(month + 1).build().unwrap();
        assert_eq!(
            final_date.day_of_year() - initial_date.day_of_year(),
            initial_date.month_days() as u16
        );
    }
}

#[test]
fn date_is_leap_year() {
    assert!(GregorianDateBuilder::new().year(1624).build().unwrap().is_leap_year());
    assert!(GregorianDateBuilder::new().year(1628).build().unwrap().is_leap_year());
    assert!(GregorianDateBuilder::new().year(2000).build().unwrap().is_leap_year());

    assert!(!GregorianDateBuilder::new().year(1620).build().unwrap().is_leap_year());
    assert!(!GregorianDateBuilder::new().year(1625).build().unwrap().is_leap_year());
    assert!(!GregorianDateBuilder::new().year(1700).build().unwrap().is_leap_year());
}

#[test]
fn date_cmp_impl() {
    let build = |y: u16, m: u8, d: u8| {
        GregorianDateBuilder::new().year(y).month_and_day(m, d).build().unwrap()
    };
    assert_eq!(build(1624, 1, 1), build(1624, 1, 1));
    assert_ne!(build(1624, 1, 1), build(1624, 1, 2));
    assert!(build(1625, 1, 1) > build(1624, 2, 2));
    assert!(build(1624, 2, 1) > build(1624, 1, 2));
    assert!(build(1624, 1, 2) > build(1624, 1, 1));
}

#[test]
fn date_first_and_last_of_month() {
    let date = GregorianDateBuilder::new().year(2000).month_and_day(2, 10).build().unwrap();
    assert_eq!(date.first_of_month().day_of_month(), 1);
    assert_eq!(date.last_of_month().day_of_month(), 29);
}
