//! Points in time: which of a file's times names it, and how a time is
//! written into a file name.

use vstd::prelude::*;
use crate::error::AppError;

verus! {

/// A point in time, and the zone it is read in: whole seconds and
/// nanoseconds since 1970-01-01 00:00:00 UTC, and the local offset from UTC,
/// in seconds to the east, that is in effect at that moment.
#[derive(Clone, Copy, Debug, PartialEq, Eq, Structural)]
pub struct Timestamp {
    pub secs: i64,
    pub nanos: u32,
    pub utc_offset: i32,
}

impl Timestamp {
    /// True where `self` is an earlier moment than `other`. The zone plays
    /// no part.
    pub open spec fn is_before(self, other: Timestamp) -> bool {
        self.secs < other.secs || (self.secs == other.secs && self.nanos < other.nanos)
    }

    pub fn before(&self, other: &Timestamp) -> (b: bool)
        ensures
            b == self.is_before(*other),
    {
        self.secs < other.secs || (self.secs == other.secs && self.nanos < other.nanos)
    }
}

/// The times that a file system keeps of a file, each where it keeps one.
#[derive(Clone, Copy, Debug, PartialEq, Eq, Structural)]
pub struct FileTimes {
    pub created: Option<Timestamp>,
    pub modified: Option<Timestamp>,
}

/// The time that names a file: the earlier of creation and modification
/// where both are known, the one that is known otherwise.
pub open spec fn earliest(times: FileTimes) -> Option<Timestamp> {
    match (times.created, times.modified) {
        (Some(created), Some(modified)) => Some(
            if modified.is_before(created) {
                modified
            } else {
                created
            },
        ),
        (Some(created), None) => Some(created),
        (None, Some(modified)) => Some(modified),
        (None, None) => None,
    }
}

/// The time that names a file whose metadata was asked for: `None` stands
/// for metadata that could not be read.
pub open spec fn earliest_of(metadata: Option<FileTimes>) -> Option<Timestamp> {
    match metadata {
        Some(times) => earliest(times),
        None => None,
    }
}

/// Where both times are known, the time that names the file is one of them
/// and neither is earlier.
pub proof fn lemma_earliest_is_smaller(created: Timestamp, modified: Timestamp)
    ensures
        ({
            let chosen = earliest(FileTimes { created: Some(created), modified: Some(modified) });
            &&& chosen is Some
            &&& chosen->0 == created || chosen->0 == modified
            &&& !created.is_before(chosen->0)
            &&& !modified.is_before(chosen->0)
        }),
{
}

/// The time that names a file. Fails with `MetadataError` where the
/// metadata could not be read or holds neither time.
pub fn get_earliest_file_date(metadata: &Option<FileTimes>) -> (result: Result<Timestamp, AppError>)
    ensures
        match earliest_of(*metadata) {
            Some(time) => result == Ok::<Timestamp, AppError>(time),
            None => result == Err::<Timestamp, AppError>(AppError::MetadataError),
        },
{
    let times = match metadata {
        Some(times) => times,
        None => {
            return Err(AppError::MetadataError);
        },
    };
    match (times.created, times.modified) {
        (Some(created), Some(modified)) => if modified.before(&created) {
            Ok(modified)
        } else {
            Ok(created)
        },
        (Some(created), None) => Ok(created),
        (None, Some(modified)) => Ok(modified),
        (None, None) => Err(AppError::MetadataError),
    }
}

/// The digit that stands for `d`.
pub open spec fn digit(d: nat) -> char {
    if d == 0 {
        '0'
    } else if d == 1 {
        '1'
    } else if d == 2 {
        '2'
    } else if d == 3 {
        '3'
    } else if d == 4 {
        '4'
    } else if d == 5 {
        '5'
    } else if d == 6 {
        '6'
    } else if d == 7 {
        '7'
    } else if d == 8 {
        '8'
    } else {
        '9'
    }
}

/// The decimal digits of `n`, most significant first.
pub open spec fn digits(n: nat) -> Seq<char>
    decreases n,
{
    if n < 10 {
        seq![digit(n)]
    } else {
        digits(n / 10).push(digit(n % 10))
    }
}

/// `n` written in decimal, with a minus sign where it is negative.
pub open spec fn decimal(n: int) -> Seq<char> {
    if n < 0 {
        seq!['-'] + digits((-n) as nat)
    } else {
        digits(n as nat)
    }
}

fn digit_text(d: u64) -> (text: &'static str)
    requires
        d < 10,
    ensures
        text@ == seq![digit(d as nat)],
{
    proof {
        reveal_strlit("0");
        reveal_strlit("1");
        reveal_strlit("2");
        reveal_strlit("3");
        reveal_strlit("4");
        reveal_strlit("5");
        reveal_strlit("6");
        reveal_strlit("7");
        reveal_strlit("8");
        reveal_strlit("9");
    }
    let text = if d == 0 {
        "0"
    } else if d == 1 {
        "1"
    } else if d == 2 {
        "2"
    } else if d == 3 {
        "3"
    } else if d == 4 {
        "4"
    } else if d == 5 {
        "5"
    } else if d == 6 {
        "6"
    } else if d == 7 {
        "7"
    } else if d == 8 {
        "8"
    } else {
        "9"
    };
    assert(text@ =~= seq![digit(d as nat)]);
    text
}

fn digits_text(n: u64) -> (text: String)
    ensures
        text@ == digits(n as nat),
{
    let mut text = String::from_str(digit_text(n % 10));
    let mut rest: u64 = n / 10;
    assert(text@ =~= Seq::<char>::empty().push(digit((n % 10) as nat)));
    while rest > 0
        invariant
            digits(n as nat) == if rest > 0 {
                digits(rest as nat) + text@
            } else {
                text@
            },
        decreases rest,
    {
        let ghost tail = text@;
        text = String::from_str(digit_text(rest % 10)).concat(text.as_str());
        proof {
            let d = seq![digit((rest % 10) as nat)];
            assert(text@ =~= d + tail);
            if rest >= 10 {
                assert(digits(rest as nat) + tail =~= digits((rest / 10) as nat) + (d + tail));
            } else {
                assert(digits(rest as nat) + tail =~= d + tail);
            }
        }
        rest = rest / 10;
    }
    text
}

/// Writes a number of seconds in decimal.
pub fn decimal_text(n: i64) -> (text: String)
    ensures
        text@ == decimal(n as int),
{
    if n < 0 {
        let magnitude: u64 = ((-(n + 1)) as u64) + 1;
        proof {
            reveal_strlit("-");
        }
        let text = String::from_str("-").concat(digits_text(magnitude).as_str());
        assert(text@ =~= seq!['-'] + digits((-n) as nat));
        text
    } else {
        digits_text(n as u64)
    }
}

/// The text that chrono writes for a moment under a strftime pattern: for
/// the moment `secs` seconds and `nanos` nanoseconds after the epoch, read at
/// `utc_offset` seconds east of UTC. `None` where chrono cannot hold the
/// moment or the offset, or where the pattern is not one that it can write.
pub uninterp spec fn strftime(secs: int, nanos: int, utc_offset: int, pattern: Seq<char>) -> Option<
    Seq<char>,
>;

/// Lets chrono write a moment: `DateTime::from_timestamp`, moved to the
/// `FixedOffset` made by `east_opt`, written by `DateTime::format` into a
/// string. chrono reports a moment or an offset out of its range by `None`
/// and a pattern that it cannot write by an error from the writer; each
/// gives `None` here. The text is a function of the four arguments alone:
/// no clock, locale or zone of the machine is read.
#[verifier::external_body]
fn render(secs: i64, nanos: u32, utc_offset: i32, pattern: &str) -> (text: Option<String>)
    ensures
        match text {
            Some(written) => strftime(secs as int, nanos as int, utc_offset as int, pattern@)
                == Some(written@),
            None => strftime(secs as int, nanos as int, utc_offset as int, pattern@) is None,
        },
{
    let moment = chrono::DateTime::from_timestamp(secs, nanos)?;
    let zone = chrono::FixedOffset::east_opt(utc_offset)?;
    let mut written = String::new();
    moment.with_timezone(&zone).format(pattern).write_to(&mut written).ok()?;
    Some(written)
}

/// How a time is written into a file name: as the pattern says where chrono
/// can write it so, else as the seconds since the epoch in decimal, so that
/// there is always a name.
pub open spec fn stamp(time: Timestamp, pattern: Seq<char>) -> Seq<char> {
    match strftime(time.secs as int, time.nanos as int, time.utc_offset as int, pattern) {
        Some(written) => written,
        None => decimal(time.secs as int),
    }
}

/// Chooses between what was written for a time and the fallback.
pub fn written_or_seconds(written: Option<String>, time: &Timestamp) -> (text: String)
    ensures
        text@ == match written {
            Some(written) => written@,
            None => decimal(time.secs as int),
        },
{
    match written {
        Some(written) => written,
        None => decimal_text(time.secs),
    }
}

/// Writes a time for a file name under a strftime pattern.
pub fn format_timestamp(time: &Timestamp, pattern: &str) -> (text: String)
    ensures
        text@ == stamp(*time, pattern@),
{
    written_or_seconds(render(time.secs, time.nanos, time.utc_offset, pattern), time)
}

/// The time that names a file, written under a strftime pattern. Fails with
/// `MetadataError` where the file has no such time.
pub fn get_timestamp(metadata: &Option<FileTimes>, format: &str) -> (result: Result<
    String,
    AppError,
>)
    ensures
        match earliest_of(*metadata) {
            Some(time) => result matches Ok(text) && text@ == stamp(time, format@),
            None => result == Err::<String, AppError>(AppError::MetadataError),
        },
{
    match get_earliest_file_date(metadata) {
        Ok(time) => Ok(format_timestamp(&time, format)),
        Err(error) => Err(error),
    }
}

} // verus!
