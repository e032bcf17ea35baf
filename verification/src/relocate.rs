//! Relocation: the order in which the file system is asked to move a file,
//! and what it means for the file when an answer is no.
//!
//! Nothing here touches a file. A driver performs each request and reports
//! whether it succeeded; the rules decide what is asked next.

use vstd::prelude::*;
use crate::error::AppError;
use crate::path::directory_of;
use crate::path::parent_directory;

verus! {

/// Where a move stands.
#[derive(Clone, Copy, Debug, PartialEq, Eq, Structural)]
pub enum MoveStage {
    /// The directory of the destination is being made.
    CreatingParent,
    /// The file is being renamed to its destination.
    Renaming,
    /// The file is at its destination.
    Moved,
    /// The move was given up; the file is where it was.
    Failed,
}

/// A request to the file system, as texts.
pub enum Effect {
    /// Make this directory and every directory above it that is missing.
    CreateDirs(Seq<char>),
    /// Rename the first path to the second, in one step.
    Rename(Seq<char>, Seq<char>),
    /// Nothing is left to do.
    Nothing,
}

/// A request to the file system.
#[derive(Debug, PartialEq, Eq)]
pub enum FsRequest {
    /// Make this directory and every directory above it that is missing.
    CreateDirs(String),
    /// Rename the first path to the second, in one step.
    Rename(String, String),
    /// Nothing is left to do.
    Nothing,
}

impl View for FsRequest {
    type V = Effect;

    open spec fn view(&self) -> Effect {
        match self {
            FsRequest::CreateDirs(dir) => Effect::CreateDirs(dir@),
            FsRequest::Rename(from, to) => Effect::Rename(from@, to@),
            FsRequest::Nothing => Effect::Nothing,
        }
    }
}

/// The stage that a move to `to` starts in: the destination's directory is
/// made first, where the destination names one.
pub open spec fn first_stage(to: Seq<char>) -> MoveStage {
    if directory_of(to) is Some {
        MoveStage::CreatingParent
    } else {
        MoveStage::Renaming
    }
}

/// The stage that follows when the file system has answered. A failure
/// gives the move up at once, so a file is never renamed into a directory
/// that could not be made; a move that has ended stays as it is.
pub open spec fn next_stage(stage: MoveStage, succeeded: bool) -> MoveStage {
    match stage {
        MoveStage::CreatingParent => if succeeded {
            MoveStage::Renaming
        } else {
            MoveStage::Failed
        },
        MoveStage::Renaming => if succeeded {
            MoveStage::Moved
        } else {
            MoveStage::Failed
        },
        MoveStage::Moved => MoveStage::Moved,
        MoveStage::Failed => MoveStage::Failed,
    }
}

/// What a move asks of the file system in a stage.
pub open spec fn effect_in(from: Seq<char>, to: Seq<char>, stage: MoveStage) -> Effect {
    match stage {
        MoveStage::CreatingParent => match directory_of(to) {
            Some(dir) => Effect::CreateDirs(dir),
            None => Effect::Nothing,
        },
        MoveStage::Renaming => Effect::Rename(from, to),
        MoveStage::Moved => Effect::Nothing,
        MoveStage::Failed => Effect::Nothing,
    }
}

/// What a move has come to: nothing yet while it is under way, success once
/// the file is moved, `FileSystemError` once it is given up.
pub open spec fn result_in(stage: MoveStage) -> Option<Result<(), AppError>> {
    match stage {
        MoveStage::Moved => Some(Ok(())),
        MoveStage::Failed => Some(Err(AppError::FileSystemError)),
        _ => None,
    }
}

/// The stage that follows when the file system has answered.
pub fn advance_stage(stage: MoveStage, succeeded: bool) -> (next: MoveStage)
    ensures
        next == next_stage(stage, succeeded),
{
    match stage {
        MoveStage::CreatingParent => if succeeded {
            MoveStage::Renaming
        } else {
            MoveStage::Failed
        },
        MoveStage::Renaming => if succeeded {
            MoveStage::Moved
        } else {
            MoveStage::Failed
        },
        MoveStage::Moved => MoveStage::Moved,
        MoveStage::Failed => MoveStage::Failed,
    }
}

/// The stage that a move to `to` starts in.
pub fn starting_stage(to: &str) -> (stage: MoveStage)
    ensures
        stage == first_stage(to@),
{
    match parent_directory(to) {
        Some(_) => MoveStage::CreatingParent,
        None => MoveStage::Renaming,
    }
}

/// What a move from `from` to `to` asks of the file system in a stage.
pub fn request_in(from: &str, to: &str, stage: MoveStage) -> (request: FsRequest)
    ensures
        request@ == effect_in(from@, to@, stage),
{
    match stage {
        MoveStage::CreatingParent => match parent_directory(to) {
            Some(dir) => FsRequest::CreateDirs(dir),
            None => FsRequest::Nothing,
        },
        MoveStage::Renaming => FsRequest::Rename(String::from_str(from), String::from_str(to)),
        MoveStage::Moved => FsRequest::Nothing,
        MoveStage::Failed => FsRequest::Nothing,
    }
}

/// The move of one file, step by step.
pub struct Relocation {
    from: String,
    to: String,
    stage: MoveStage,
}

impl Relocation {
    /// The path that the file is moved from.
    pub closed spec fn source(&self) -> Seq<char> {
        self.from@
    }

    /// The path that the file is moved to.
    pub closed spec fn target(&self) -> Seq<char> {
        self.to@
    }

    /// Where the move stands.
    pub closed spec fn stage(&self) -> MoveStage {
        self.stage
    }

    /// What is asked of the file system now.
    pub fn request(&self) -> (request: FsRequest)
        ensures
            request@ == effect_in(self.source(), self.target(), self.stage()),
    {
        request_in(self.from.as_str(), self.to.as_str(), self.stage)
    }

    /// Takes the file system's answer to the last request and moves on.
    pub fn advance(&mut self, succeeded: bool)
        ensures
            final(self).source() == old(self).source(),
            final(self).target() == old(self).target(),
            final(self).stage() == next_stage(old(self).stage(), succeeded),
    {
        self.stage = advance_stage(self.stage, succeeded);
    }

    /// What the move has come to, once it has ended.
    pub fn result(&self) -> (result: Option<Result<(), AppError>>)
        ensures
            result == result_in(self.stage()),
    {
        match self.stage {
            MoveStage::Moved => Some(Ok(())),
            MoveStage::Failed => Some(Err(AppError::FileSystemError)),
            _ => None,
        }
    }
}

/// Begins the move of the file at `input` to `output`: the directory of
/// `output` is made, with all that is missing above it, and then the file is
/// renamed in one step. The relocation that is returned asks for the first
/// of these.
pub fn move_file(input: &str, output: &str) -> (relocation: Relocation)
    ensures
        relocation.source() == input@,
        relocation.target() == output@,
        relocation.stage() == first_stage(output@),
{
    Relocation {
        from: String::from_str(input),
        to: String::from_str(output),
        stage: starting_stage(output),
    }
}

/// The files of a file system after it has answered a request: making
/// directories adds and removes no file; a rename that succeeds takes the
/// file from its old path to its new one; a request that fails changes
/// nothing. This is what is taken for granted of the file system.
pub open spec fn files_after(files: Set<Seq<char>>, effect: Effect, succeeded: bool) -> Set<
    Seq<char>,
> {
    match effect {
        Effect::Rename(from, to) => if succeeded {
            files.remove(from).insert(to)
        } else {
            files
        },
        _ => files,
    }
}

/// A move and the files around it after the file system has given
/// `answers`, one to each request in turn, starting from `stage`.
pub open spec fn run(
    from: Seq<char>,
    to: Seq<char>,
    stage: MoveStage,
    files: Set<Seq<char>>,
    answers: Seq<bool>,
) -> (MoveStage, Set<Seq<char>>)
    decreases answers.len(),
{
    if answers.len() == 0 {
        (stage, files)
    } else {
        let (reached, present) = run(from, to, stage, files, answers.drop_last());
        (
            next_stage(reached, answers.last()),
            files_after(present, effect_in(from, to, reached), answers.last()),
        )
    }
}

/// No file is lost. Take a file at `from`, nothing at `to`, and a file
/// system that behaves as `files_after` says. Whatever it answers, and
/// however long the move is driven: once the move has succeeded the file is
/// at `to` and no longer at `from`; while it is under way, and once it has
/// failed, the file is still at `from` and nothing is at `to`.
pub proof fn lemma_no_file_is_lost(
    from: Seq<char>,
    to: Seq<char>,
    files: Set<Seq<char>>,
    answers: Seq<bool>,
)
    requires
        from != to,
        files.contains(from),
        !files.contains(to),
    ensures
        ({
            let (reached, present) = run(from, to, first_stage(to), files, answers);
            &&& reached is Moved ==> present.contains(to) && !present.contains(from)
            &&& !(reached is Moved) ==> present.contains(from) && !present.contains(to)
            &&& result_in(reached) == Some(Ok::<(), AppError>(())) <==> reached is Moved
        }),
    decreases answers.len(),
{
    if answers.len() > 0 {
        lemma_no_file_is_lost(from, to, files, answers.drop_last());
    }
}

/// The file is renamed only into a directory that was made: where the
/// request to make the destination's directory fails, the move is given up,
/// no rename is asked for, and the files stay as they were.
pub proof fn lemma_rename_follows_directory(
    from: Seq<char>,
    to: Seq<char>,
    files: Set<Seq<char>>,
    answers: Seq<bool>,
)
    requires
        directory_of(to) is Some,
        answers.len() > 0,
        !answers[0],
    ensures
        run(from, to, first_stage(to), files, answers) == (MoveStage::Failed, files),
        forall|k: int|
            0 <= k <= answers.len() ==> !(effect_in(
                from,
                to,
                (#[trigger] run(from, to, first_stage(to), files, answers.take(k))).0,
            ) is Rename),
    decreases answers.len(),
{
    let start = first_stage(to);
    assert(run(from, to, start, files, answers.take(0)) == (start, files));
    if answers.len() == 1 {
        assert(run(from, to, start, files, answers.drop_last()) == (start, files));
    } else {
        assert(answers.drop_last()[0] == answers[0]);
        lemma_rename_follows_directory(from, to, files, answers.drop_last());
    }
    assert forall|k: int| 0 <= k <= answers.len() implies !(effect_in(
        from,
        to,
        (#[trigger] run(from, to, start, files, answers.take(k))).0,
    ) is Rename) by {
        if k == answers.len() {
            assert(answers.take(k) =~= answers);
        } else if answers.len() > 1 {
            assert(answers.take(k) =~= answers.drop_last().take(k));
        } else {
            assert(k == 0);
        }
    }
}

} // verus!
