//! The openNURBS build version stamp carried in the properties table.
//!
//! The stamp packs a major and minor version, a build date and a
//! platform into one integer. Two encodings exist: a bit-packed form
//! (major, minor, days since the reference date, platform) and an older
//! decimal date form (`yyyymmddv`).

use vstd::prelude::*;

use vstd::arithmetic::power2::{lemma2_to64, lemma2_to64_rest, lemma_pow2_adds, lemma_pow2_pos, lemma_pow2_strictly_increases, pow2};

use crate::date::{spec_day_of_year, spec_days_before, spec_is_leap_year, spec_month_days, spec_wf_date, GregorianDate, GregorianDateBuilder};

verus! {

/// A contiguous bit field: `size` bits starting at bit `position`.
#[derive(Debug, Clone, Copy)]
pub struct Mask {
    pub position: u8,
    pub size: u8,
}

/// Computes a power of two.
fn pow2_u64(e: u8) -> (r: u64)
    requires
        e < 64,
    ensures
        r == pow2(e as nat),
        r >= 1,
{
    proof {
        vstd::arithmetic::power2::lemma_pow2_pos(0);
        lemma2_to64();
    }
    let mut r: u64 = 1;
    let mut i: u8 = 0;
    while i < e
        invariant
            i <= e < 64,
            r == pow2(i as nat),
        decreases e - i,
    {
        proof {
            lemma_pow2_adds(i as nat, 1);
            lemma2_to64();
            vstd::bits::lemma_u64_pow2_no_overflow((i + 1) as nat);
        }
        r = r * 2;
        i = i + 1;
    }
    proof {
        lemma_pow2_pos(e as nat);
    }
    r
}

impl Mask {
    /// The field fits a 64-bit word.
    pub open spec fn wf(&self) -> bool {
        &&& self.size < 64
        &&& self.position < 64
        &&& self.position + self.size <= 64
    }

    /// Largest value the field can hold.
    pub open spec fn spec_max_value(&self) -> int {
        pow2(self.size as nat) - 1
    }

    /// The field's bits within the word.
    pub open spec fn spec_mask(&self) -> int {
        (pow2(self.size as nat) - 1) * pow2(self.position as nat)
    }

    /// The field's value within a word.
    pub open spec fn spec_extract(&self, value: int) -> int {
        (value / pow2(self.position as nat) as int) % pow2(self.size as nat) as int
    }

    /// A value placed into the field, truncated to its size.
    pub open spec fn spec_insert(&self, value: int) -> int {
        (value % pow2(self.size as nat) as int) * pow2(self.position as nat) as int
    }

    /// Bound for placed values: the whole field stays below 2^64.
    proof fn lemma_insert_fits(&self, value: int)
        requires
            self.wf(),
            0 <= value,
        ensures
            0 <= self.spec_insert(value) <= (pow2(self.size as nat) - 1) * pow2(
                self.position as nat,
            ) <= u64::MAX,
            0 <= self.spec_extract(value) <= self.spec_max_value(),
    {
        let s = pow2(self.size as nat) as int;
        let p = pow2(self.position as nat) as int;
        lemma_pow2_pos(self.size as nat);
        lemma_pow2_pos(self.position as nat);
        lemma_pow2_adds(self.size as nat, self.position as nat);
        if self.size + self.position < 64 {
            lemma_pow2_strictly_increases((self.size + self.position) as nat, 64);
        }
        lemma2_to64_rest();
        assert(s * p <= 0x10000000000000000) by {
            assert(pow2((self.size + self.position) as nat) <= pow2(64));
        }
        assert((value % s) * p <= (s - 1) * p) by (nonlinear_arith)
            requires
                0 < s,
                0 < p,
                0 <= value,
        ;
        assert((s - 1) * p == s * p - p) by (nonlinear_arith);
        assert(0 <= (value % s) * p) by (nonlinear_arith)
            requires
                0 < s,
                0 < p,
        ;
    }

    /// Largest value the field can hold.
    pub fn max_value(&self) -> (r: u64)
        requires
            self.wf(),
        ensures
            r == self.spec_max_value(),
    {
        pow2_u64(self.size) - 1
    }

    /// The field's bits within the word.
    pub fn mask(&self) -> (r: u64)
        requires
            self.wf(),
        ensures
            r == self.spec_mask(),
    {
        proof {
            self.lemma_insert_fits(0);
        }
        let high = pow2_u64(self.size) - 1;
        let low = pow2_u64(self.position);
        high * low
    }

    /// Reads the field's value out of a word.
    pub fn extract_value(&self, value: u64) -> (r: u64)
        requires
            self.wf(),
        ensures
            r == self.spec_extract(value as int),
            r <= self.spec_max_value(),
    {
        let p = pow2_u64(self.position);
        let s = pow2_u64(self.size);
        (value / p) % s
    }

    /// Places a value into the field, truncating it to the field size.
    pub fn insert_value(&self, value: u64) -> (r: u64)
        requires
            self.wf(),
        ensures
            r == self.spec_insert(value as int),
    {
        proof {
            self.lemma_insert_fits(value as int);
        }
        let p = pow2_u64(self.position);
        let s = pow2_u64(self.size);
        (value % s) * p
    }
}

/// Field of the platform the build was made for.
pub open spec fn spec_platform_mask() -> Mask {
    Mask { position: 0u8, size: 2u8 }
}

/// Field of the build date.
pub open spec fn spec_date_mask() -> Mask {
    Mask { position: 2u8, size: 16u8 }
}

/// Field of the minor version.
pub open spec fn spec_minor_version_mask() -> Mask {
    Mask { position: 18u8, size: 7u8 }
}

/// Field of the major version.
pub open spec fn spec_major_version_mask() -> Mask {
    Mask { position: 25u8, size: 6u8 }
}

/// Field of the platform the build was made for.
pub fn platform_mask() -> (r: Mask)
    ensures
        r == (Mask { position: 0u8, size: 2u8 }),
{
    Mask { position: 0, size: 2 }
}

/// Field of the build date, counted in years and day ordinals from the
/// reference year 2000.
pub fn date_mask() -> (r: Mask)
    ensures
        r == (Mask { position: 2u8, size: 16u8 }),
{
    Mask { position: 2, size: 16 }
}

/// Field of the minor version.
pub fn minor_version_mask() -> (r: Mask)
    ensures
        r == (Mask { position: 18u8, size: 7u8 }),
{
    Mask { position: 18, size: 7 }
}

/// Field of the major version.
pub fn major_version_mask() -> (r: Mask)
    ensures
        r == (Mask { position: 25u8, size: 6u8 }),
{
    Mask { position: 25, size: 6 }
}

/// Modulus that separates the year from the day ordinal in the packed
/// date field.
pub const DATE_MOD: u16 = 367;

/// Year the packed date field counts from.
pub const DATE_REF_YEAR: u16 = 2000;

/// Largest ordinary major version.
pub const MAJOR_VERSION_MAX: u8 = 7;

/// Major version used by debug builds.
pub const MAJOR_VERSION_DEBUG: u8 = 9;

/// Earliest date a version stamp may carry: 2000-12-21.
pub open spec fn spec_min_date() -> GregorianDate {
    GregorianDate { year: 2000, month: 12, day_of_month: 21 }
}

/// Latest date a version stamp may carry: 2099-12-31.
pub open spec fn spec_max_date() -> GregorianDate {
    GregorianDate { year: 2099, month: 12, day_of_month: 31 }
}

/// Lexicographic date order as a spec relation.
pub open spec fn spec_date_le(a: GregorianDate, b: GregorianDate) -> bool {
    if a.year != b.year {
        a.year < b.year
    } else if a.month != b.month {
        a.month < b.month
    } else {
        a.day_of_month <= b.day_of_month
    }
}

/// Failure of a version stamp decode.
#[derive(Debug, PartialEq, Eq, Structural)]
pub enum Error {
    InvalidMajorVersion,
    InvalidMinorVersion,
    InvalidDate,
    InvalidPlatform,
    VersionDateMismatch,
}

/// Which error [`Version::new`] raises, if any: the checks run in this
/// order and the first failure wins.
pub open spec fn spec_new_error(
    major_version: int,
    minor_version: int,
    date: GregorianDate,
    platform: int,
) -> Option<Error> {
    if major_version > MAJOR_VERSION_MAX && major_version != MAJOR_VERSION_DEBUG {
        Some(Error::InvalidMajorVersion)
    } else if minor_version > 127 {
        Some(Error::InvalidMinorVersion)
    } else if !(spec_date_le(spec_min_date(), date) && spec_date_le(date, spec_max_date())) {
        Some(Error::InvalidDate)
    } else if platform > 3 {
        Some(Error::InvalidPlatform)
    } else if (major_version <= 4 && date.year > 2011) || (major_version == 5 && date.year < 2006)
        || (major_version == 6 && date.year < 2012) || (major_version == 7 && date.year < 2018) {
        Some(Error::VersionDateMismatch)
    } else {
        None
    }
}

/// A decoded openNURBS version stamp.
#[derive(Debug, Clone, Copy, PartialEq)]
pub struct Version {
    pub major_version: u8,
    pub minor_version: u8,
    pub date: GregorianDate,
    pub platform: u8,
}

/// A version stamp in the bit-packed encoding.
#[derive(Debug, Clone, Copy)]
pub struct NormalFormatVersion(pub u64);

/// A version stamp in the decimal date encoding `yyyymmddv`.
#[derive(Debug, Clone, Copy)]
pub struct DateFormatVersion(pub u64);

impl Version {
    /// A well-formed stamp: every field within its range, the date valid
    /// and consistent with the major version.
    pub open spec fn wf(&self) -> bool {
        &&& self.date.wf()
        &&& spec_new_error(
            self.major_version as int,
            self.minor_version as int,
            self.date,
            self.platform as int,
        ) is None
    }

    /// Validates the four fields of a stamp. The checks run in order:
    /// major version, minor version, date range, platform, then the
    /// consistency of major version and date year.
    pub fn new(major_version: u8, minor_version: u8, date: GregorianDate, platform: u8) -> (res:
        Result<Version, Error>)
        requires
            date.wf(),
        ensures
            match spec_new_error(
                major_version as int,
                minor_version as int,
                date,
                platform as int,
            ) {
                Some(e) => res == Err::<Version, Error>(e),
                None => {
                    &&& res matches Ok(v)
                    &&& v.major_version == major_version
                    &&& v.minor_version == minor_version
                    &&& v.date == date
                    &&& v.platform == platform
                    &&& v.wf()
                },
            },
    {
        if MAJOR_VERSION_MAX < major_version && MAJOR_VERSION_DEBUG != major_version {
            return Err(Error::InvalidMajorVersion);
        }
        if 127 < minor_version {
            return Err(Error::InvalidMinorVersion);
        }
        let min = GregorianDate { year: 2000, month: 12, day_of_month: 21 };
        let max = GregorianDate { year: 2099, month: 12, day_of_month: 31 };
        if min > date || max < date {
            return Err(Error::InvalidDate);
        }
        if 3 < platform {
            return Err(Error::InvalidPlatform);
        }
        if (4 >= major_version && 2011 < date.year) || (5 == major_version && 2006 > date.year)
            || (6 == major_version && 2012 > date.year) || (7 == major_version && 2018
            > date.year) {
            return Err(Error::VersionDateMismatch);
        }
        Ok(Version { major_version, minor_version, date, platform })
    }

    pub fn major_version(&self) -> (r: u8)
        ensures
            r == self.major_version,
    {
        self.major_version
    }

    pub fn minor_version(&self) -> (r: u8)
        ensures
            r == self.minor_version,
    {
        self.minor_version
    }

    pub fn date(&self) -> (r: &GregorianDate)
        ensures
            r == self.date,
    {
        &self.date
    }

    pub fn platform(&self) -> (r: u8)
        ensures
            r == self.platform,
    {
        self.platform
    }

    /// Decodes a stamp from the bit-packed encoding.
    pub fn from_normal_format(encoded: NormalFormatVersion) -> (res: Result<Version, Error>)
        ensures
            ({
                let value = encoded.0 as int;
                let major = spec_major_version_mask().spec_extract(value);
                let minor = spec_minor_version_mask().spec_extract(value);
                let platform = spec_platform_mask().spec_extract(value);
                let raw_date = spec_date_mask().spec_extract(value);
                let year = raw_date / (DATE_MOD as int) + DATE_REF_YEAR;
                let ordinal = raw_date % (DATE_MOD as int);
                match res {
                    Ok(v) => {
                        &&& v.major_version == major
                        &&& v.minor_version == minor
                        &&& v.platform == platform
                        &&& v.date.year == year
                        &&& spec_day_of_year(
                            spec_is_leap_year(year),
                            v.date.month as int,
                            v.date.day_of_month as int,
                        ) == ordinal
                        &&& v.wf()
                    },
                    Err(e) => {
                        ||| e == Error::InvalidDate
                        ||| e == Error::InvalidMajorVersion
                        ||| e == Error::InvalidMinorVersion
                        ||| e == Error::InvalidPlatform
                        ||| e == Error::VersionDateMismatch
                    },
                }
            }),
            Version::spec_normal_format_ok(encoded.0 as int) ==> res is Ok,
    {
        let value = encoded.0;
        let major_raw = major_version_mask().extract_value(value);
        let minor_raw = minor_version_mask().extract_value(value);
        let platform_raw = platform_mask().extract_value(value);
        let raw_date = date_mask().extract_value(value);
        proof {
            lemma2_to64();
        }
        let major = major_raw as u8;
        let minor = minor_raw as u8;
        let platform = platform_raw as u8;
        let raw_date16 = raw_date as u16;
        let year = raw_date16 / DATE_MOD + DATE_REF_YEAR;
        let ordinal = raw_date16 % DATE_MOD;
        let date = match GregorianDateBuilder::new().year(year).day_of_year(ordinal).build() {
            Ok(d) => d,
            Err(_) => {
                return Err(Error::InvalidDate);
            }
        };
        proof {
            if Version::spec_normal_format_ok(encoded.0 as int) {
                if date.year == 2000 {
                    assert(spec_is_leap_year(2000));
                    assert forall|m: int| 1 <= m <= 11 implies spec_days_before(true, m)
                        + spec_month_days(true, m) <= 335 by {}
                    assert(date.month == 12 && date.day_of_month >= 21);
                }
                assert(spec_date_le(spec_min_date(), date));
                assert(spec_date_le(date, spec_max_date()));
                assert(spec_new_error(major as int, minor as int, date, platform as int)
                    is None);
            }
        }
        Version::new(major, minor, date, platform)
    }

    /// Whether the bit-packed encoding `value` decodes to a valid stamp:
    /// the day ordinal must name a day of its year, the year must lie in
    /// the allowed range and be late enough for the major version, and
    /// the major version must be an ordinary or debug one. The minor
    /// version and platform fields cannot exceed their ranges.
    pub open spec fn spec_normal_format_ok(value: int) -> bool {
        let major = spec_major_version_mask().spec_extract(value);
        let raw_date = spec_date_mask().spec_extract(value);
        let year = raw_date / (DATE_MOD as int) + DATE_REF_YEAR;
        let ordinal = raw_date % (DATE_MOD as int);
        let year_days: int = if spec_is_leap_year(year) {
            366
        } else {
            365
        };
        &&& 1 <= ordinal <= year_days
        &&& !(major > MAJOR_VERSION_MAX && major != MAJOR_VERSION_DEBUG)
        &&& (year > 2000 || (year == 2000 && ordinal >= 356))
        &&& year <= 2099
        &&& !((major <= 4 && year > 2011) || (major == 5 && year < 2006) || (major == 6 && year
            < 2012) || (major == 7 && year < 2018))
    }

    /// Encodes a stamp into the bit-packed encoding: the major version,
    /// minor version, packed date and platform each land in their bit
    /// field.
    pub fn to_normal_format(&self) -> (r: NormalFormatVersion)
        requires
            self.wf(),
        ensures
            r.0 == spec_major_version_mask().spec_insert(self.major_version as int)
                + spec_minor_version_mask().spec_insert(self.minor_version as int)
                + spec_date_mask().spec_insert(
                (self.date.year - DATE_REF_YEAR) * (DATE_MOD as int) + spec_day_of_year(
                    spec_is_leap_year(self.date.year as int),
                    self.date.month as int,
                    self.date.day_of_month as int,
                ),
            ) + spec_platform_mask().spec_insert(self.platform as int),
    {
        let doy = self.date.day_of_year();
        let packed_date: u64 = ((self.date.year - DATE_REF_YEAR) as u64) * (DATE_MOD as u64)
            + doy as u64;
        let a = major_version_mask().insert_value(self.major_version as u64);
        let b = minor_version_mask().insert_value(self.minor_version as u64);
        let c = date_mask().insert_value(packed_date);
        let d = platform_mask().insert_value(self.platform as u64);
        proof {
            spec_major_version_mask().lemma_insert_fits(self.major_version as int);
            spec_minor_version_mask().lemma_insert_fits(self.minor_version as int);
            spec_date_mask().lemma_insert_fits(packed_date as int);
            spec_platform_mask().lemma_insert_fits(self.platform as int);
            lemma2_to64();
            assert((pow2(6) - 1) * pow2(25) == 0x7e000000int) by (nonlinear_arith)
                requires
                    pow2(6) == 64,
                    pow2(25) == 0x2000000,
            ;
            assert((pow2(7) - 1) * pow2(18) == 0x1fc0000int) by (nonlinear_arith)
                requires
                    pow2(7) == 128,
                    pow2(18) == 0x40000,
            ;
            assert((pow2(16) - 1) * pow2(2) == 0x3fffcint) by (nonlinear_arith)
                requires
                    pow2(16) == 0x10000,
                    pow2(2) == 4,
            ;
            assert((pow2(2) - 1) * pow2(0) == 3) by (nonlinear_arith)
                requires
                    pow2(2) == 4,
                    pow2(0) == 1,
            ;
        }
        NormalFormatVersion(a + b + c + d)
    }

    /// Decodes a stamp from the decimal date encoding. The special value
    /// 200612060 names major version 5; otherwise the trailing digit is
    /// the major version.
    pub fn from_date_format(encoded: DateFormatVersion) -> (res: Result<Version, Error>)
        ensures
            ({
                let value = encoded.0 as int;
                let major = if value == 200612060 {
                    5int
                } else {
                    value % 10
                };
                let day = (value / 10) % 100;
                let month = (value / 1000) % 100;
                let year = value / 100000;
                match res {
                    Ok(v) => {
                        &&& v.major_version == major
                        &&& v.minor_version == 0
                        &&& v.platform == 0
                        &&& v.date.year == year
                        &&& v.date.month == month
                        &&& v.date.day_of_month == day
                        &&& v.wf()
                    },
                    Err(e) => {
                        ||| year > u16::MAX
                        ||| !spec_wf_date(year, month, day)
                        ||| spec_new_error(major, 0, GregorianDate {
                            year: year as u16,
                            month: month as u8,
                            day_of_month: day as u8,
                        }, 0) is Some
                    },
                }
            }),
            ({
                let value = encoded.0 as int;
                let major = if value == 200612060 {
                    5int
                } else {
                    value % 10
                };
                let day = (value / 10) % 100;
                let month = (value / 1000) % 100;
                let year = value / 100000;
                (year <= u16::MAX && spec_wf_date(year, month, day) && spec_new_error(
                    major,
                    0,
                    GregorianDate { year: year as u16, month: month as u8, day_of_month: day as u8 },
                    0,
                ) is None) ==> res is Ok
            }),
    {
        let value = encoded.0;
        let major: u8 = if value == 200612060 {
            5
        } else {
            (value % 10) as u8
        };
        let day8: u8 = ((value / 10) % 100) as u8;
        let month8: u8 = ((value / 1000) % 100) as u8;
        let year_wide = value / 100000;
        if year_wide > u16::MAX as u64 {
            return Err(Error::InvalidDate);
        }
        let year16 = year_wide as u16;
        let date = match GregorianDateBuilder::new().year(year16).month_and_day(
            month8,
            day8,
        ).build() {
            Ok(d) => d,
            Err(_) => {
                return Err(Error::InvalidDate);
            }
        };
        Version::new(major, 0, date, 0)
    }

    /// Encodes a stamp into the decimal date encoding `yyyymmddv`.
    pub fn to_date_format(&self) -> (r: DateFormatVersion)
        requires
            self.wf(),
        ensures
            r.0 == self.major_version + (self.date.day_of_month as int) * 10 + (
            self.date.month as int) * 1000 + (self.date.year as int) * 100000,
    {
        let mut out: u64 = self.major_version as u64;
        out = out + (self.date.day_of_month as u64) * 10;
        out = out + (self.date.month as u64) * 1000;
        out = out + (self.date.year as u64) * 100000;
        DateFormatVersion(out)
    }
}

impl Default for Version {
    /// Major version zero on the earliest allowed date.
    fn default() -> (r: Version)
        ensures
            r.major_version == 0,
            r.minor_version == 0,
            r.date == spec_min_date(),
            r.platform == 0,
            r.wf(),
    {
        Version {
            major_version: 0,
            minor_version: 0,
            date: GregorianDate { year: 2000, month: 12, day_of_month: 21 },
            platform: 0,
        }
    }
}

} // verus!
