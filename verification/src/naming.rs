//! Naming: what a file is called where it is going.

use vstd::prelude::*;
use crate::error::AppError;
use crate::path::stem_of;
use crate::path::dotted_extension_of;
use crate::path::name_of;
use crate::path::get_filename;
use crate::path::get_extension;
use crate::path::lemma_stem_and_extension;
use crate::timestamp::FileTimes;
use crate::timestamp::Timestamp;
use crate::timestamp::earliest_of;
use crate::timestamp::stamp;
use crate::timestamp::get_timestamp;

verus! {

/// What is put behind a name to mark a summary.
pub open spec fn summary_marker() -> Seq<char> {
    seq!['_', 's', 'u', 'm', 'm', 'a', 'r', 'y']
}

/// A name with the summary marker behind it.
pub open spec fn with_summary(name: Seq<char>) -> Seq<char> {
    name + summary_marker()
}

/// A name with an underscore and a time behind it.
pub open spec fn with_timestamp(name: Seq<char>, time: Timestamp, pattern: Seq<char>) -> Seq<char> {
    name + seq!['_'] + stamp(time, pattern)
}

/// The name that a file gets. It starts from the stem of the file's name,
/// or from nothing where the name is replaced. A time is put behind it where
/// one is asked for or the name is replaced: the time that names the file,
/// without which there is no name but `MetadataError`. The summary marker
/// goes behind that where it is asked for or the name is replaced. The
/// extension of the file's name closes it, always.
pub open spec fn derived_name(
    path: Seq<char>,
    replace_filename: bool,
    append_timestamp: bool,
    pattern: Seq<char>,
    append_summary: bool,
    metadata: Option<FileTimes>,
) -> Result<Seq<char>, AppError> {
    let start = if replace_filename {
        Seq::empty()
    } else {
        stem_of(path)
    };
    let timed = if append_timestamp || replace_filename {
        match earliest_of(metadata) {
            Some(time) => Ok(with_timestamp(start, time, pattern)),
            None => Err(AppError::MetadataError),
        }
    } else {
        Ok(start)
    };
    match timed {
        Ok(name) => Ok(
            (if append_summary || replace_filename {
                with_summary(name)
            } else {
                name
            }) + dotted_extension_of(path),
        ),
        Err(error) => Err(error),
    }
}

/// Puts the summary marker behind a name.
pub fn add_summary(filename: &str) -> (marked: String)
    ensures
        marked@ == with_summary(filename@),
{
    proof {
        reveal_strlit("_summary");
    }
    let marked = String::from_str(filename).concat("_summary");
    assert(marked@ =~= with_summary(filename@));
    marked
}

/// Puts an underscore and a time, as it is written, behind a name.
pub fn with_written_time(filename: &str, written: &str) -> (name: String)
    ensures
        name@ == filename@ + seq!['_'] + written@,
{
    proof {
        reveal_strlit("_");
    }
    let name = String::from_str(filename).concat("_").concat(written);
    assert("_"@ =~= seq!['_']);
    name
}

/// Puts an underscore and the time that names a file behind a name. Fails
/// with `MetadataError` where the file has no such time.
pub fn add_timestamp(metadata: &Option<FileTimes>, filename: &str, timestamp_format: &str) -> (result:
    Result<String, AppError>)
    ensures
        match earliest_of(*metadata) {
            Some(time) => result matches Ok(name) && name@ == with_timestamp(
                filename@,
                time,
                timestamp_format@,
            ),
            None => result == Err::<String, AppError>(AppError::MetadataError),
        },
{
    match get_timestamp(metadata, timestamp_format) {
        Ok(written) => Ok(with_written_time(filename, written.as_str())),
        Err(error) => Err(error),
    }
}

/// The name that a file gets where it is going; see `derived_name`.
/// `metadata` holds the file's times, or `None` where they could not be
/// read; it is looked at only where a time goes into the name.
pub fn modify_filename(
    path: &str,
    replace_filename: bool,
    append_timestamp: bool,
    timestamp_format: &str,
    append_summary: bool,
    metadata: &Option<FileTimes>,
) -> (result: Result<String, AppError>)
    ensures
        match derived_name(
            path@,
            replace_filename,
            append_timestamp,
            timestamp_format@,
            append_summary,
            *metadata,
        ) {
            Ok(name) => result matches Ok(given) && given@ == name,
            Err(error) => result == Err::<String, AppError>(error),
        },
{
    let extension = get_extension(path);
    let mut filename = if replace_filename {
        String::new()
    } else {
        get_filename(path)
    };
    if append_timestamp || replace_filename {
        filename = match add_timestamp(metadata, filename.as_str(), timestamp_format) {
            Ok(timed) => timed,
            Err(error) => {
                return Err(error);
            },
        };
    }
    if append_summary || replace_filename {
        filename = add_summary(filename.as_str());
    }
    Ok(filename.concat(extension.as_str()))
}

/// The same file under the same options gets the same name: the name
/// depends on nothing but what `modify_filename` is given.
pub proof fn lemma_name_is_determined(
    path: Seq<char>,
    other_path: Seq<char>,
    replace_filename: bool,
    append_timestamp: bool,
    pattern: Seq<char>,
    other_pattern: Seq<char>,
    append_summary: bool,
    metadata: Option<FileTimes>,
)
    requires
        path =~= other_path,
        pattern =~= other_pattern,
    ensures
        derived_name(path, replace_filename, append_timestamp, pattern, append_summary, metadata)
            == derived_name(
            other_path,
            replace_filename,
            append_timestamp,
            other_pattern,
            append_summary,
            metadata,
        ),
{
}

/// Where the name is replaced, the stem plays no part: the name is an
/// underscore, the time, the summary marker and the extension, whatever the
/// other two options say, and two files with the same extension and the same
/// times get the same name.
pub proof fn lemma_replaced_name_ignores_stem(
    path: Seq<char>,
    other_path: Seq<char>,
    append_timestamp: bool,
    pattern: Seq<char>,
    append_summary: bool,
    metadata: Option<FileTimes>,
)
    requires
        dotted_extension_of(path) == dotted_extension_of(other_path),
    ensures
        derived_name(path, true, append_timestamp, pattern, append_summary, metadata)
            == derived_name(other_path, true, false, pattern, false, metadata),
        earliest_of(metadata) matches Some(time) ==> derived_name(
            path,
            true,
            append_timestamp,
            pattern,
            append_summary,
            metadata,
        ) == Ok::<Seq<char>, AppError>(
            seq!['_'] + stamp(time, pattern) + summary_marker() + dotted_extension_of(path),
        ),
        earliest_of(metadata) is None ==> derived_name(
            path,
            true,
            append_timestamp,
            pattern,
            append_summary,
            metadata,
        ) == Err::<Seq<char>, AppError>(AppError::MetadataError),
{
    if let Some(time) = earliest_of(metadata) {
        assert(Seq::<char>::empty() + seq!['_'] + stamp(time, pattern) =~= seq!['_'] + stamp(
            time,
            pattern,
        ));
    }
}

/// Where nothing is asked for, a file keeps its name, and its times are not
/// needed.
pub proof fn lemma_plain_name_is_kept(path: Seq<char>, pattern: Seq<char>, metadata: Option<FileTimes>)
    ensures
        derived_name(path, false, false, pattern, false, metadata) == Ok::<Seq<char>, AppError>(
            name_of(path),
        ),
{
    lemma_stem_and_extension(path);
}

/// The extension is always kept: every name ends in the extension of the
/// file that it is derived from.
pub proof fn lemma_extension_is_kept(
    path: Seq<char>,
    replace_filename: bool,
    append_timestamp: bool,
    pattern: Seq<char>,
    append_summary: bool,
    metadata: Option<FileTimes>,
)
    ensures
        derived_name(path, replace_filename, append_timestamp, pattern, append_summary, metadata)
            matches Ok(name) ==> {
            let extension = dotted_extension_of(path);
            &&& name.len() >= extension.len()
            &&& name.skip(name.len() - extension.len()) == extension
        },
{
    let extension = dotted_extension_of(path);
    match derived_name(path, replace_filename, append_timestamp, pattern, append_summary, metadata) {
        Ok(name) => {
            assert(name.skip(name.len() - extension.len()) =~= extension);
        },
        Err(_) => {},
    }
}

} // verus!
