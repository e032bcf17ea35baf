//! Classification: which files are audio that this crate takes in, and which
//! of them carry the name that the recorder gives its files.

use vstd::prelude::*;
use crate::error::AppError;
use crate::path::extension_of;
use crate::path::name_of;
use crate::path::base_name;
use crate::path::get_extension;

verus! {

/// The audio containers that are taken in.
#[derive(Clone, Copy, Debug, PartialEq, Eq, Structural)]
pub enum AudioFormat {
    MP3,
    MP4,
}

/// An ASCII capital turned into its small letter; any other character as it
/// is.
pub open spec fn lower(c: char) -> char {
    if 'A' <= c && c <= 'Z' {
        ((c as u8) + 32u8) as char
    } else {
        c
    }
}

/// A text with its ASCII capitals turned into small letters.
pub open spec fn lowered(s: Seq<char>) -> Seq<char> {
    s.map_values(|c: char| lower(c))
}

/// The format that an extension, written without its dot, stands for:
/// `mp3` and `mp4` in any mix of capitals and small letters, and no other.
pub open spec fn format_of(extension: Seq<char>) -> Option<AudioFormat> {
    if lowered(extension) == seq!['m', 'p', '3'] {
        Some(AudioFormat::MP3)
    } else if lowered(extension) == seq!['m', 'p', '4'] {
        Some(AudioFormat::MP4)
    } else {
        None
    }
}

/// The format of the file that a path names, by the extension of its last
/// component. A name without extension has none.
pub open spec fn format_of_path(path: Seq<char>) -> Option<AudioFormat> {
    match extension_of(path) {
        Some(extension) => format_of(extension),
        None => None,
    }
}

/// Capitals play no part: two extensions that differ only in the case of
/// their ASCII letters stand for the same format, and the two supported
/// extensions are told apart.
pub proof fn lemma_format_ignores_case(a: Seq<char>, b: Seq<char>)
    requires
        lowered(a) == lowered(b),
    ensures
        format_of(a) == format_of(b),
        format_of(seq!['m', 'p', '3']) == Some(AudioFormat::MP3),
        format_of(seq!['M', 'P', '3']) == Some(AudioFormat::MP3),
        format_of(seq!['m', 'p', '4']) == Some(AudioFormat::MP4),
        format_of(seq!['M', 'P', '4']) == Some(AudioFormat::MP4),
{
    assert(lowered(seq!['m', 'p', '3']) =~= seq!['m', 'p', '3']);
    assert(lowered(seq!['M', 'P', '3']) =~= seq!['m', 'p', '3']);
    assert(lowered(seq!['m', 'p', '4']) =~= seq!['m', 'p', '4']);
    assert(lowered(seq!['M', 'P', '4']) =~= seq!['m', 'p', '4']);
    assert(seq!['m', 'p', '3'][2] != seq!['m', 'p', '4'][2]);
}

/// Turns an ASCII capital into its small letter.
pub fn to_lower(c: char) -> (out: char)
    ensures
        out == lower(c),
{
    if 'A' <= c && c <= 'Z' {
        ((c as u8) + 32u8) as char
    } else {
        c
    }
}

impl AudioFormat {
    /// The format that an extension, written without its dot, stands for.
    pub fn from_extension(ext: &str) -> (format: Option<AudioFormat>)
        ensures
            format == format_of(ext@),
    {
        if ext.unicode_len() != 3 {
            proof {
                assert(lowered(ext@).len() == ext@.len());
                assert(seq!['m', 'p', '3'].len() == 3);
                assert(seq!['m', 'p', '4'].len() == 3);
            }
            return None;
        }
        let first = to_lower(ext.get_char(0));
        let second = to_lower(ext.get_char(1));
        let third = to_lower(ext.get_char(2));
        proof {
            assert(lowered(ext@) =~= seq![first, second, third]);
            assert(seq![first, second, third][0] == first);
            assert(seq![first, second, third][1] == second);
            assert(seq![first, second, third][2] == third);
        }
        if first == 'm' && second == 'p' && third == '3' {
            assert(seq![first, second, third] =~= seq!['m', 'p', '3']);
            Some(AudioFormat::MP3)
        } else if first == 'm' && second == 'p' && third == '4' {
            assert(seq![first, second, third] =~= seq!['m', 'p', '4']);
            Some(AudioFormat::MP4)
        } else {
            None
        }
    }

    /// True of the extensions that stand for a format.
    pub fn is_supported(ext: &str) -> (supported: bool)
        ensures
            supported == (format_of(ext@) is Some),
    {
        AudioFormat::from_extension(ext).is_some()
    }
}

/// The format of the file that a path names, or `None` where it is not
/// audio that is taken in.
pub fn classify(path: &str) -> (format: Option<AudioFormat>)
    ensures
        format == format_of_path(path@),
{
    let extension = get_extension(path);
    let n = extension.as_str().unicode_len();
    if n == 0 {
        None
    } else {
        AudioFormat::from_extension(extension.as_str().substring_char(1, n))
    }
}

/// The format of the file that a path names, or `UnsupportedFormat` where
/// it is not audio that is taken in. This is the usual answer for a file
/// that turns up in a watched directory, and no failure of the watch.
pub fn require_supported(path: &str) -> (result: Result<AudioFormat, AppError>)
    ensures
        match format_of_path(path@) {
            Some(format) => result == Ok::<AudioFormat, AppError>(format),
            None => result == Err::<AudioFormat, AppError>(AppError::UnsupportedFormat),
        },
{
    match classify(path) {
        Some(format) => Ok(format),
        None => Err(AppError::UnsupportedFormat),
    }
}

/// True where a path names audio that is taken in: where the extension of
/// its last component is `mp3` or `mp4`, capitals or not.
pub fn is_supported_audio_format(path: &str) -> (supported: bool)
    ensures
        supported == (format_of_path(path@) is Some),
{
    classify(path).is_some()
}

/// True of the ten digits.
pub open spec fn is_digit(c: char) -> bool {
    '0' <= c && c <= '9'
}

/// The number that a digit stands for.
pub open spec fn digit_value(c: char) -> int {
    c as int - '0' as int
}

/// How long the recorder's file names are.
pub open spec fn recorder_name_len() -> int {
    26
}

/// What the recorder's file names end in, in small letters.
pub open spec fn recorder_suffix() -> Seq<char> {
    seq!['_', 'r', 'e', 'c', '.', 'm', 'p', '3']
}

/// True where `c` can stand at place `at` of a recorder's file name. The
/// name is `R-`, five digits of a running number, an underscore, ten digits
/// of a time (two each of year, month, day, hour and minute), and
/// `_REC.mp3`, this last in capitals or small letters.
pub open spec fn fits(c: char, at: int) -> bool {
    if at == 0 {
        c == 'R'
    } else if at == 1 {
        c == '-'
    } else if 2 <= at < 7 {
        is_digit(c)
    } else if at == 7 {
        c == '_'
    } else if 8 <= at < 18 {
        is_digit(c)
    } else if 18 <= at < 26 {
        lower(c) == recorder_suffix()[at - 18]
    } else {
        false
    }
}

/// True of the file names that the recorder gives.
pub open spec fn is_recorder_name(name: Seq<char>) -> bool {
    &&& name.len() == recorder_name_len()
    &&& forall|i: int| 0 <= i < name.len() ==> fits(#[trigger] name[i], i)
}

/// The time that a recorder's file name carries, as it is written there:
/// two digits each, unchecked.
#[derive(Clone, Copy, Debug, PartialEq, Eq, Structural)]
pub struct RecorderStamp {
    pub year: u8,
    pub month: u8,
    pub day: u8,
    pub hour: u8,
    pub minute: u8,
}

/// The number that the two digits at `at` and behind it stand for.
pub open spec fn two_digits(name: Seq<char>, at: int) -> int {
    digit_value(name[at]) * 10 + digit_value(name[at + 1])
}

/// The time that a file name carries, where it is one of the recorder's.
pub open spec fn stamp_of(name: Seq<char>) -> Option<RecorderStamp> {
    if is_recorder_name(name) {
        Some(
            RecorderStamp {
                year: two_digits(name, 8) as u8,
                month: two_digits(name, 10) as u8,
                day: two_digits(name, 12) as u8,
                hour: two_digits(name, 14) as u8,
                minute: two_digits(name, 16) as u8,
            },
        )
    } else {
        None
    }
}

/// A recorder's file is an mp3 file: what passes for the recorder's name is
/// taken in as `MP3`.
pub proof fn lemma_recorder_files_are_mp3(path: Seq<char>)
    requires
        is_recorder_name(name_of(path)),
    ensures
        format_of_path(path) == Some(AudioFormat::MP3),
{
    let name = name_of(path);
    crate::path::lemma_last_index(name, '.');
    assert forall|i: int| 18 <= i < 26 implies lower(#[trigger] name[i]) == recorder_suffix()[i
        - 18] by {
        assert(fits(name[i], i));
    }
    assert(lower(name[22]) == '.');
    assert(name[22] == '.');
    assert(lower(name[23]) == 'm' && lower(name[24]) == 'p' && lower(name[25]) == '3');
    assert(name[23] != '.' && name[24] != '.' && name[25] != '.');
    let dot = crate::path::last_index(name, '.');
    assert(dot == 22) by {
        if dot < 22 {
            assert(name[22] != '.');
        }
    }
    let extension = crate::path::dotted_extension_of(path).skip(1);
    assert(extension =~= seq![name[23], name[24], name[25]]);
    assert(lowered(extension) =~= seq!['m', 'p', '3']);
}

fn is_digit_char(c: char) -> (b: bool)
    ensures
        b == is_digit(c),
{
    '0' <= c && c <= '9'
}

fn fits_at(c: char, at: usize) -> (b: bool)
    ensures
        b == fits(c, at as int),
{
    if at == 0 {
        c == 'R'
    } else if at == 1 {
        c == '-'
    } else if at < 7 {
        is_digit_char(c)
    } else if at == 7 {
        c == '_'
    } else if at < 18 {
        is_digit_char(c)
    } else if at == 18 {
        to_lower(c) == '_'
    } else if at == 19 {
        to_lower(c) == 'r'
    } else if at == 20 {
        to_lower(c) == 'e'
    } else if at == 21 {
        to_lower(c) == 'c'
    } else if at == 22 {
        to_lower(c) == '.'
    } else if at == 23 {
        to_lower(c) == 'm'
    } else if at == 24 {
        to_lower(c) == 'p'
    } else if at == 25 {
        to_lower(c) == '3'
    } else {
        false
    }
}

/// True where the last component of a path is a name that the recorder
/// gives.
pub fn matches_recorder_pattern(path: &str) -> (matches: bool)
    ensures
        matches == is_recorder_name(name_of(path@)),
{
    let name = match base_name(path) {
        Some(name) => name,
        None => {
            return false;
        },
    };
    if name.unicode_len() != 26 {
        return false;
    }
    let mut at: usize = 0;
    while at < 26
        invariant
            at <= 26,
            name@.len() == 26,
            name@ == name_of(path@),
            forall|i: int| 0 <= i < at ==> fits(#[trigger] name@[i], i),
        decreases 26 - at,
    {
        if !fits_at(name.get_char(at), at) {
            assert(!fits(name@[at as int], at as int));
            return false;
        }
        at = at + 1;
    }
    true
}

fn two_digits_at(name: &str, at: usize) -> (value: u8)
    requires
        at < 25,
        at + 1 < name@.len(),
        is_digit(name@[at as int]),
        is_digit(name@[at + 1]),
    ensures
        value == two_digits(name@, at as int),
{
    let tens = (name.get_char(at) as u8) - 48;
    let ones = (name.get_char(at + 1) as u8) - 48;
    tens * 10 + ones
}

/// The time that the last component of a path carries, where it is a name
/// that the recorder gives.
pub fn recorder_stamp(path: &str) -> (stamp: Option<RecorderStamp>)
    ensures
        stamp == stamp_of(name_of(path@)),
{
    if !matches_recorder_pattern(path) {
        return None;
    }
    let name = match base_name(path) {
        Some(name) => name,
        None => {
            return None;
        },
    };
    proof {
        assert forall|i: int| 8 <= i < 18 implies is_digit(#[trigger] name@[i]) by {
            assert(fits(name@[i], i));
        }
    }
    Some(
        RecorderStamp {
            year: two_digits_at(name, 8),
            month: two_digits_at(name, 10),
            day: two_digits_at(name, 12),
            hour: two_digits_at(name, 14),
            minute: two_digits_at(name, 16),
        },
    )
}

/// A file that is taken in.
#[derive(Debug, PartialEq, Eq)]
pub struct ClassifiedFile {
    /// The path of the file.
    pub path: String,
    /// The container that its extension stands for.
    pub format: AudioFormat,
    /// Whether its name is one that the recorder gives.
    pub recorder_pattern: bool,
}

impl ClassifiedFile {
    /// Classifies the file at `path`: `None` where it is no audio that is
    /// taken in.
    pub fn of(path: &str) -> (file: Option<ClassifiedFile>)
        ensures
            match format_of_path(path@) {
                Some(format) => file matches Some(found) && found.path@ == path@ && found.format
                    == format && found.recorder_pattern == is_recorder_name(name_of(path@)),
                None => file is None,
            },
    {
        match classify(path) {
            Some(format) => Some(
                ClassifiedFile {
                    path: String::from_str(path),
                    format,
                    recorder_pattern: matches_recorder_pattern(path),
                },
            ),
            None => None,
        }
    }
}

} // verus!
