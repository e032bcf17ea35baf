//! Configuration: what the watch is told once, when it starts.

use vstd::prelude::*;

verus! {

/// How much is logged.
#[derive(Clone, Copy, Debug, PartialEq, Eq, Structural)]
pub enum LogLevel {
    Off,
    Error,
    Warn,
    Info,
    Debug,
    Trace,
}

/// What is given on the command line.
#[derive(Debug)]
pub struct Args {
    /// The directory that is watched.
    pub input: String,
    /// The directory that files are moved to.
    pub output: String,
    /// Replace the file's name by time and summary marker.
    pub replace_filename: bool,
    /// Put the summary marker behind the file's name.
    pub append_summary: bool,
    /// Put the time behind the file's name.
    pub append_timestamp: bool,
    /// The strftime pattern that times are written under.
    pub timestamp_format: String,
    /// How much is logged.
    pub log_level: LogLevel,
}

/// What a watch works by, for as long as it runs.
#[derive(Debug)]
pub struct WatchConfiguration {
    /// The directory that is watched.
    pub source_dir: String,
    /// The directory that files are moved to.
    pub destination_dir: String,
    /// Replace the file's name by time and summary marker.
    pub replace_filename: bool,
    /// Put the time behind the file's name.
    pub append_timestamp: bool,
    /// Put the summary marker behind the file's name.
    pub append_summary: bool,
    /// The strftime pattern that times are written under.
    pub timestamp_format: String,
}

/// Replacing the name stands alone: it brings time and summary marker with
/// it, and is not combined with asking for either.
pub open spec fn naming_is_consistent(
    replace_filename: bool,
    append_timestamp: bool,
    append_summary: bool,
) -> bool {
    replace_filename ==> !append_timestamp && !append_summary
}

impl WatchConfiguration {
    /// True of a configuration whose naming options do not contradict each
    /// other.
    pub open spec fn well_formed(&self) -> bool {
        naming_is_consistent(self.replace_filename, self.append_timestamp, self.append_summary)
    }

    /// True where a time goes into the names, so that the times of each file
    /// are needed.
    pub open spec fn names_by_time(&self) -> bool {
        self.append_timestamp || self.replace_filename
    }

    /// True where a time goes into the names.
    pub fn needs_times(&self) -> (needed: bool)
        ensures
            needed == self.names_by_time(),
    {
        self.append_timestamp || self.replace_filename
    }

    /// A configuration made of its parts, or `None` where replacing the name
    /// is combined with asking for time or summary marker.
    pub fn new(
        source_dir: String,
        destination_dir: String,
        replace_filename: bool,
        append_timestamp: bool,
        append_summary: bool,
        timestamp_format: String,
    ) -> (made: Option<WatchConfiguration>)
        ensures
            made is Some <==> naming_is_consistent(
                replace_filename,
                append_timestamp,
                append_summary,
            ),
            made matches Some(config) ==> {
                &&& config.well_formed()
                &&& config.source_dir == source_dir
                &&& config.destination_dir == destination_dir
                &&& config.replace_filename == replace_filename
                &&& config.append_timestamp == append_timestamp
                &&& config.append_summary == append_summary
                &&& config.timestamp_format == timestamp_format
            },
    {
        if replace_filename && (append_timestamp || append_summary) {
            None
        } else {
            Some(
                WatchConfiguration {
                    source_dir,
                    destination_dir,
                    replace_filename,
                    append_timestamp,
                    append_summary,
                    timestamp_format,
                },
            )
        }
    }
}

impl Args {
    /// The configuration that the arguments ask for, or `None` where they
    /// contradict each other.
    pub fn configuration(&self) -> (made: Option<WatchConfiguration>)
        ensures
            made is Some <==> naming_is_consistent(
                self.replace_filename,
                self.append_timestamp,
                self.append_summary,
            ),
            made matches Some(config) ==> {
                &&& config.well_formed()
                &&& config.source_dir@ == self.input@
                &&& config.destination_dir@ == self.output@
                &&& config.replace_filename == self.replace_filename
                &&& config.append_timestamp == self.append_timestamp
                &&& config.append_summary == self.append_summary
                &&& config.timestamp_format@ == self.timestamp_format@
            },
    {
        WatchConfiguration::new(
            self.input.clone(),
            self.output.clone(),
            self.replace_filename,
            self.append_timestamp,
            self.append_summary,
            self.timestamp_format.clone(),
        )
    }
}

} // verus!
