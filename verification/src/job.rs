//! The handling of one file: classification, naming, decoding and move, in
//! this order, each step asked of a driver and its answer taken in turn.

use vstd::prelude::*;
use crate::config::WatchConfiguration;
use crate::error::AppError;
use crate::format::format_of_path;
use crate::format::require_supported;
use crate::naming::derived_name;
use crate::naming::modify_filename;
use crate::relocate::Effect;
use crate::relocate::FsRequest;
use crate::relocate::MoveStage;
use crate::relocate::advance_stage;
use crate::relocate::effect_in;
use crate::relocate::first_stage;
use crate::relocate::starting_stage;
use crate::relocate::next_stage;
use crate::relocate::request_in;
use crate::path::separator;
use crate::timestamp::FileTimes;

verus! {

/// Where the handling of a file stands.
#[derive(Clone, Copy, Debug, PartialEq, Eq, Structural)]
pub enum JobStage {
    /// Asked whether there is a file at the path.
    Probing,
    /// Asked for the file's times.
    Timing,
    /// Asked for the audio to be decoded.
    Transcoding,
    /// The move is under way.
    Moving(MoveStage),
    /// The file is at its destination.
    Relocated,
    /// The file is none that is taken in; it was left alone.
    Skipped,
    /// The file was given up.
    Failed(AppError),
}

/// How the handling of a file ended.
#[derive(Clone, Copy, Debug, PartialEq, Eq, Structural)]
pub enum JobOutcome {
    /// The file is at its destination.
    Relocated,
    /// The file is none that is taken in; it was left alone.
    Skipped,
    /// The file was given up.
    Failed(AppError),
}

/// What a driver answers.
#[derive(Clone, Copy, Debug, PartialEq, Eq)]
pub enum Reply {
    /// Whether there is a file at the path.
    Exists(bool),
    /// The file's times, or `None` where they could not be read.
    Times(Option<FileTimes>),
    /// How decoding the audio went.
    Transcoded(Result<(), AppError>),
    /// Whether the request to the file system succeeded.
    Fs(bool),
}

/// What is asked of a driver, as texts.
pub enum Demand {
    /// Is there a file at this path?
    CheckExists(Seq<char>),
    /// Read the times of the file at this path.
    ReadTimes(Seq<char>),
    /// Decode the audio of the file at this path.
    Transcode(Seq<char>),
    /// Do this to the file system.
    Fs(Effect),
    /// Nothing: the handling has ended.
    Finished(JobOutcome),
}

/// What is asked of a driver.
#[derive(Debug, PartialEq, Eq)]
pub enum Request {
    /// Is there a file at this path?
    CheckExists(String),
    /// Read the times of the file at this path.
    ReadTimes(String),
    /// Decode the audio of the file at this path.
    Transcode(String),
    /// Do this to the file system.
    Fs(FsRequest),
    /// Nothing: the handling has ended.
    Finished(JobOutcome),
}

impl View for Request {
    type V = Demand;

    open spec fn view(&self) -> Demand {
        match self {
            Request::CheckExists(path) => Demand::CheckExists(path@),
            Request::ReadTimes(path) => Demand::ReadTimes(path@),
            Request::Transcode(path) => Demand::Transcode(path@),
            Request::Fs(request) => Demand::Fs(request@),
            Request::Finished(outcome) => Demand::Finished(*outcome),
        }
    }
}

/// The handling of one file, as texts.
pub struct JobView {
    /// The path of the file.
    pub source: Seq<char>,
    /// The path that the file is moved to; empty until the name is known.
    pub destination: Seq<char>,
    /// Where the handling stands.
    pub stage: JobStage,
}

/// A path below a directory. A path that starts at the root stands for
/// itself and takes the place of the directory. Any other is joined to the
/// directory by one separator, unless the directory is empty or already
/// ends in one.
pub open spec fn joined(dir: Seq<char>, name: Seq<char>) -> Seq<char> {
    if name.len() > 0 && name[0] == separator() {
        name
    } else if dir.len() == 0 || dir.last() == separator() {
        dir + name
    } else {
        dir + seq![separator()] + name
    }
}

/// The stage of a handling whose move stands at `stage`.
pub open spec fn settled(stage: MoveStage) -> JobStage {
    match stage {
        MoveStage::Moved => JobStage::Relocated,
        MoveStage::Failed => JobStage::Failed(AppError::FileSystemError),
        _ => JobStage::Moving(stage),
    }
}

/// The handling of a file that has just come up: a file that is no audio
/// to take in is skipped at once, and nothing is asked about it.
pub open spec fn opened(path: Seq<char>) -> JobView {
    JobView {
        source: path,
        destination: Seq::empty(),
        stage: if format_of_path(path) is Some {
            JobStage::Probing
        } else {
            JobStage::Skipped
        },
    }
}

/// A handling once the file's times are in, or are not needed: the file
/// gets its name, and with it its destination; without a name it is given
/// up.
pub open spec fn named(job: JobView, config: WatchConfiguration, metadata: Option<FileTimes>) -> JobView {
    match derived_name(
        job.source,
        config.replace_filename,
        config.append_timestamp,
        config.timestamp_format@,
        config.append_summary,
        metadata,
    ) {
        Ok(name) => JobView {
            source: job.source,
            destination: joined(config.destination_dir@, name),
            stage: JobStage::Transcoding,
        },
        Err(error) => JobView { stage: JobStage::Failed(error), ..job },
    }
}

/// A handling after an answer. A path without a file is skipped. A file
/// that exists is named, after its times are read where the name needs
/// them; then its audio is decoded; then it is moved. A failure at any step
/// gives this file up with the step's error. An answer that the stage did
/// not ask for changes nothing.
pub open spec fn after_reply(job: JobView, reply: Reply, config: WatchConfiguration) -> JobView {
    match (job.stage, reply) {
        (JobStage::Probing, Reply::Exists(true)) => if config.names_by_time() {
            JobView { stage: JobStage::Timing, ..job }
        } else {
            named(job, config, None)
        },
        (JobStage::Probing, Reply::Exists(false)) => JobView { stage: JobStage::Skipped, ..job },
        (JobStage::Timing, Reply::Times(metadata)) => named(job, config, metadata),
        (JobStage::Transcoding, Reply::Transcoded(Ok(()))) => JobView {
            stage: settled(first_stage(job.destination)),
            ..job
        },
        (JobStage::Transcoding, Reply::Transcoded(Err(error))) => JobView {
            stage: JobStage::Failed(error),
            ..job
        },
        (JobStage::Moving(stage), Reply::Fs(succeeded)) => JobView {
            stage: settled(next_stage(stage, succeeded)),
            ..job
        },
        _ => job,
    }
}

/// What a handling asks of its driver.
pub open spec fn demand_of(job: JobView) -> Demand {
    match job.stage {
        JobStage::Probing => Demand::CheckExists(job.source),
        JobStage::Timing => Demand::ReadTimes(job.source),
        JobStage::Transcoding => Demand::Transcode(job.source),
        JobStage::Moving(stage) => Demand::Fs(effect_in(job.source, job.destination, stage)),
        JobStage::Relocated => Demand::Finished(JobOutcome::Relocated),
        JobStage::Skipped => Demand::Finished(JobOutcome::Skipped),
        JobStage::Failed(error) => Demand::Finished(JobOutcome::Failed(error)),
    }
}

impl JobView {
    /// True once the handling has ended.
    pub open spec fn has_ended(self) -> bool {
        self.stage is Relocated || self.stage is Skipped || self.stage is Failed
    }
}

/// A handling that has ended stays as it is: once a file is relocated,
/// skipped or given up, no answer brings it back, and nothing more is asked
/// about it.
pub proof fn lemma_ended_job_stays(job: JobView, reply: Reply, config: WatchConfiguration)
    requires
        job.has_ended(),
    ensures
        after_reply(job, reply, config) == job,
        demand_of(job) is Finished,
{
}

/// The file system is asked for nothing but the move: a handling asks it
/// only while the move is under way, and then only to make the directory of
/// the destination or to rename the file from its path to its destination.
pub proof fn lemma_job_only_moves(job: JobView)
    ensures
        demand_of(job) matches Demand::Fs(effect) ==> job.stage is Moving && effect == effect_in(
            job.source,
            job.destination,
            job.stage->Moving_0,
        ),
        demand_of(job) matches Demand::Fs(Effect::Rename(from, to)) ==> from == job.source && to
            == job.destination,
{
}

/// A file that is no audio to take in is never touched: whatever is
/// answered, its handling stays skipped.
pub proof fn lemma_unsupported_is_left_alone(path: Seq<char>, reply: Reply, config: WatchConfiguration)
    requires
        format_of_path(path) is None,
    ensures
        demand_of(opened(path)) == Demand::Finished(JobOutcome::Skipped),
        after_reply(opened(path), reply, config) == opened(path),
{
}

/// Joins a path to a directory.
pub fn join(dir: &str, name: &str) -> (path: String)
    ensures
        path@ == joined(dir@, name@),
{
    let n = dir.unicode_len();
    if name.unicode_len() > 0 && name.get_char(0) == '/' {
        String::from_str(name)
    } else if n == 0 || dir.get_char(n - 1) == '/' {
        String::from_str(dir).concat(name)
    } else {
        proof {
            reveal_strlit("/");
        }
        let path = String::from_str(dir).concat("/").concat(name);
        assert("/"@ =~= seq![separator()]);
        path
    }
}

/// The handling of one file.
pub struct FileJob {
    source: String,
    destination: String,
    stage: JobStage,
}

impl View for FileJob {
    type V = JobView;

    closed spec fn view(&self) -> JobView {
        JobView { source: self.source@, destination: self.destination@, stage: self.stage }
    }
}

impl FileJob {
    /// Takes up the file at `path`.
    pub fn new(path: &str) -> (job: FileJob)
        ensures
            job@ == opened(path@),
    {
        let stage = match require_supported(path) {
            Ok(_) => JobStage::Probing,
            Err(_) => JobStage::Skipped,
        };
        FileJob { source: String::from_str(path), destination: String::new(), stage }
    }

    /// Where the handling stands.
    pub fn stage(&self) -> (stage: JobStage)
        ensures
            stage == self@.stage,
    {
        self.stage
    }

    /// The path of the file.
    pub fn source(&self) -> (path: &str)
        ensures
            path@ == self@.source,
    {
        self.source.as_str()
    }

    /// The path that the file is moved to; empty until the name is known.
    pub fn destination(&self) -> (path: &str)
        ensures
            path@ == self@.destination,
    {
        self.destination.as_str()
    }

    /// What is asked of the driver now.
    pub fn request(&self) -> (request: Request)
        ensures
            request@ == demand_of(self@),
    {
        match self.stage {
            JobStage::Probing => Request::CheckExists(self.source.clone()),
            JobStage::Timing => Request::ReadTimes(self.source.clone()),
            JobStage::Transcoding => Request::Transcode(self.source.clone()),
            JobStage::Moving(stage) => Request::Fs(
                request_in(self.source.as_str(), self.destination.as_str(), stage),
            ),
            JobStage::Relocated => Request::Finished(JobOutcome::Relocated),
            JobStage::Skipped => Request::Finished(JobOutcome::Skipped),
            JobStage::Failed(error) => Request::Finished(JobOutcome::Failed(error)),
        }
    }

    /// How the handling ended, once it has.
    pub fn outcome(&self) -> (outcome: Option<JobOutcome>)
        ensures
            match outcome {
                Some(outcome) => demand_of(self@) == Demand::Finished(outcome),
                None => !(demand_of(self@) is Finished),
            },
    {
        match self.stage {
            JobStage::Relocated => Some(JobOutcome::Relocated),
            JobStage::Skipped => Some(JobOutcome::Skipped),
            JobStage::Failed(error) => Some(JobOutcome::Failed(error)),
            _ => None,
        }
    }

    fn name(&mut self, config: &WatchConfiguration, metadata: &Option<FileTimes>)
        ensures
            final(self)@ == named(old(self)@, *config, *metadata),
    {
        match modify_filename(
            self.source.as_str(),
            config.replace_filename,
            config.append_timestamp,
            config.timestamp_format.as_str(),
            config.append_summary,
            metadata,
        ) {
            Ok(name) => {
                self.destination = join(config.destination_dir.as_str(), name.as_str());
                self.stage = JobStage::Transcoding;
            },
            Err(error) => {
                self.stage = JobStage::Failed(error);
            },
        }
    }

    fn settle(&mut self, stage: MoveStage)
        ensures
            final(self)@ == (JobView { stage: settled(stage), ..old(self)@ }),
    {
        self.stage = match stage {
            MoveStage::Moved => JobStage::Relocated,
            MoveStage::Failed => JobStage::Failed(AppError::FileSystemError),
            _ => JobStage::Moving(stage),
        };
    }

    /// Takes the driver's answer to the last request and moves on.
    pub fn advance(&mut self, reply: Reply, config: &WatchConfiguration)
        ensures
            final(self)@ == after_reply(old(self)@, reply, *config),
    {
        match (self.stage, reply) {
            (JobStage::Probing, Reply::Exists(exists)) => {
                if !exists {
                    self.stage = JobStage::Skipped;
                } else if config.needs_times() {
                    self.stage = JobStage::Timing;
                } else {
                    self.name(config, &None);
                }
            },
            (JobStage::Timing, Reply::Times(metadata)) => {
                self.name(config, &metadata);
            },
            (JobStage::Transcoding, Reply::Transcoded(result)) => {
                match result {
                    Ok(_) => {
                        self.settle(starting_stage(self.destination.as_str()));
                    },
                    Err(error) => {
                        self.stage = JobStage::Failed(error);
                    },
                }
            },
            (JobStage::Moving(stage), Reply::Fs(succeeded)) => {
                self.settle(advance_stage(stage, succeeded));
            },
            _ => {},
        }
    }
}

} // verus!
