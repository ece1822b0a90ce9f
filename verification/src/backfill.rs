//! The log of a backfill run: where it is written, and how its file is
//! named after the time of the run.

use vstd::prelude::*;
use vstd::string::*;
use crate::text::{decimal, join_path, joined, to_chars, to_decimal};

verus! {

/// A moment in UTC, by its calendar parts.
#[derive(Debug, Clone, Copy, PartialEq, Eq, Structural)]
pub struct DateParts {
    pub year: i32,
    pub month: u8,
    pub day: u8,
    pub hour: u8,
    pub minute: u8,
    pub second: u8,
    pub nanosecond: u32,
}

/// The calendar parts, in UTC, of the moment that lies the given number of
/// nanoseconds after the Unix epoch, as the `time` crate computes them;
/// `None` for a moment outside the range of its dates.
pub uninterp spec fn utc_parts_of(unix_nanos: i128) -> Option<DateParts>;

/// The moment in the form of RFC 3339, as the `time` crate writes it;
/// `None` where it cannot be written so.
pub uninterp spec fn rfc3339_of(unix_nanos: i128) -> Option<Seq<char>>;

/// Calls `OffsetDateTime::from_unix_timestamp_nanos` and reads the parts
/// of the result with `year`, `month`, `day`, `hour`, `minute`, `second`
/// and `nanosecond`. The contract only names the result.
#[verifier::external_body]
pub(crate) fn utc_parts(unix_nanos: i128) -> (r: Option<DateParts>)
    ensures
        r == utc_parts_of(unix_nanos),
{
    let t = time::OffsetDateTime::from_unix_timestamp_nanos(unix_nanos).ok()?;
    Some(
        DateParts {
            year: t.year(),
            month: u8::from(t.month()),
            day: t.day(),
            hour: t.hour(),
            minute: t.minute(),
            second: t.second(),
            nanosecond: t.nanosecond(),
        },
    )
}

/// Calls `OffsetDateTime::from_unix_timestamp_nanos` and formats the
/// result with `OffsetDateTime::format` and the `Rfc3339` description. The
/// contract only names the result.
#[verifier::external_body]
pub(crate) fn rfc3339(unix_nanos: i128) -> (r: Option<String>)
    ensures
        r.deep_view() == rfc3339_of(unix_nanos),
{
    let t = time::OffsetDateTime::from_unix_timestamp_nanos(unix_nanos).ok()?;
    t.format(&time::format_description::well_known::Rfc3339).ok()
}

/// `count` zeros.
pub open spec fn zeros(count: nat) -> Seq<char> {
    Seq::new(count, |i: int| '0')
}

/// A number in decimal, with zeros before it up to `width` digits.
pub open spec fn padded(n: nat, width: nat) -> Seq<char> {
    let digits = decimal(n);
    if digits.len() >= width {
        digits
    } else {
        zeros((width - digits.len()) as nat) + digits
    }
}

pub fn pad(n: usize, width: usize) -> (r: String)
    ensures
        r@ == padded(n as nat, width as nat),
{
    let digits = to_decimal(n);
    let len: usize = to_chars(digits.as_str()).len();
    if len >= width {
        return digits;
    }
    let mut s = String::new();
    let mut i: usize = 0;
    proof {
        assert(s@ =~= zeros(0));
    }
    while i < width - len
        invariant
            len < width,
            i <= width - len,
            s@ == zeros(i as nat),
        decreases width - len - i,
    {
        s.push('0');
        proof {
            assert(s@ =~= zeros((i + 1) as nat));
        }
        i += 1;
    }
    s.append(digits.as_str());
    s
}

/// A year with at least four characters, the sign of a year before the
/// year zero among them.
pub open spec fn year_text(year: i32) -> Seq<char> {
    if year >= 0 {
        padded(year as nat, 4)
    } else {
        seq!['-'] + padded((-year) as nat, 3)
    }
}

/// The moment as it stands in a file name: date, `T`, time of day with
/// nine digits for the nanoseconds, `Z`.
pub open spec fn timestamp_text(parts: DateParts) -> Seq<char> {
    year_text(parts.year) + padded(parts.month as nat, 2) + padded(parts.day as nat, 2) + seq![
        'T',
    ] + padded(parts.hour as nat, 2) + padded(parts.minute as nat, 2) + padded(
        parts.second as nat,
        2,
    ) + padded(parts.nanosecond as nat, 9) + seq!['Z']
}

pub fn filename_timestamp(parts: &DateParts) -> (r: String)
    ensures
        r@ == timestamp_text(*parts),
{
    let mut s = if parts.year >= 0 {
        pad(parts.year as usize, 4)
    } else {
        let mut s = String::new();
        s.push('-');
        let year: i64 = parts.year as i64;
        s.append(pad((-year) as usize, 3).as_str());
        proof {
            assert(s@ =~= seq!['-'] + padded((-parts.year) as nat, 3));
        }
        s
    };
    s.append(pad(parts.month as usize, 2).as_str());
    s.append(pad(parts.day as usize, 2).as_str());
    let ghost date = s@;
    s.push('T');
    proof {
        assert(s@ =~= date + seq!['T']);
    }
    s.append(pad(parts.hour as usize, 2).as_str());
    s.append(pad(parts.minute as usize, 2).as_str());
    s.append(pad(parts.second as usize, 2).as_str());
    s.append(pad(parts.nanosecond as usize, 9).as_str());
    let ghost body = s@;
    s.push('Z');
    proof {
        assert(s@ =~= body + seq!['Z']);
    }
    s
}

/// The time stamp of a log row: RFC 3339, or `unknown` where the moment
/// cannot be written so.
pub open spec fn row_timestamp(unix_nanos: i128) -> Seq<char> {
    match rfc3339_of(unix_nanos) {
        Some(text) => text,
        None => "unknown"@,
    }
}

pub fn now_rfc3339(unix_nanos: i128) -> (r: String)
    ensures
        r@ == row_timestamp(unix_nanos),
{
    match rfc3339(unix_nanos) {
        Some(text) => text,
        None => "unknown".to_owned(),
    }
}

/// Why no log could be set up.
#[derive(Debug, Clone, Copy, PartialEq, Eq, Structural)]
pub enum BackfillError {
    /// The configuration directory is not known.
    NoConfigDir,
    /// The time of the run is outside the calendar.
    BadTime,
}

impl BackfillError {
    pub fn message(self) -> (r: &'static str)
        ensures
            r@ == match self {
                BackfillError::NoConfigDir => "cannot determine config directory: $HOME is not set"@,
                BackfillError::BadTime => "the time of the run is out of range"@,
            },
    {
        match self {
            BackfillError::NoConfigDir => "cannot determine config directory: $HOME is not set",
            BackfillError::BadTime => "the time of the run is out of range",
        }
    }
}

/// The log of a backfill run; a disabled log has no file.
#[derive(Debug, Clone, PartialEq, Eq)]
pub struct BackfillLogger {
    pub log_path: Option<String>,
}

/// The name of the log file of a run.
pub open spec fn log_file_name(parts: DateParts) -> Seq<char> {
    "backfill."@ + timestamp_text(parts) + ".log"@
}

impl BackfillLogger {
    /// The log of a run at the given moment, in the given directory.
    pub fn new_with_now(dir: &str, now: &DateParts) -> (r: BackfillLogger)
        ensures
            r.log_path matches Some(path) && path@ == joined(dir@, log_file_name(*now)),
    {
        let mut name = "backfill.".to_owned();
        name.append(filename_timestamp(now).as_str());
        name.append(".log");
        BackfillLogger { log_path: Some(join_path(dir, name.as_str())) }
    }

    /// The log of a run that begins `unix_nanos` nanoseconds after the
    /// Unix epoch, in the configuration directory.
    pub fn new(config_dir: Option<&str>, unix_nanos: i128) -> (r: Result<
        BackfillLogger,
        BackfillError,
    >)
        ensures
            match config_dir {
                None => r == Err::<BackfillLogger, BackfillError>(BackfillError::NoConfigDir),
                Some(dir) => match utc_parts_of(unix_nanos) {
                    None => r == Err::<BackfillLogger, BackfillError>(BackfillError::BadTime),
                    Some(parts) => r matches Ok(logger) && logger.log_path matches Some(path)
                        && path@ == joined(dir@, log_file_name(parts)),
                },
            },
    {
        match config_dir {
            None => Err(BackfillError::NoConfigDir),
            Some(dir) => match utc_parts(unix_nanos) {
                None => Err(BackfillError::BadTime),
                Some(parts) => Ok(BackfillLogger::new_with_now(dir, &parts)),
            },
        }
    }

    /// A log that writes nothing.
    pub fn disabled() -> (r: BackfillLogger)
        ensures
            r.log_path is None,
    {
        BackfillLogger { log_path: None }
    }

    /// The file of the log, if it has one.
    pub fn path(&self) -> (r: Option<String>)
        ensures
            r.deep_view() == self.log_path.deep_view(),
    {
        match &self.log_path {
            Some(p) => Some(p.clone()),
            None => None,
        }
    }
}

} // verus!
