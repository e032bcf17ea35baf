use custodian::error::AppError;
use custodian::relocate::advance_stage;
use custodian::relocate::move_file;
use custodian::path::parent_directory;
use custodian::relocate::request_in;
use custodian::relocate::starting_stage;
use custodian::relocate::FsRequest;
use custodian::relocate::MoveStage;

#[test]
fn a_move_makes_the_directory_and_then_renames() {
    let mut relocation = move_file("in/voice.mp3", "out/2024/voice.mp3");
    assert_eq!(relocation.request(), FsRequest::CreateDirs("out/2024".to_string()));
    assert_eq!(relocation.result(), None);
    relocation.advance(true);
    assert_eq!(
        relocation.request(),
        FsRequest::Rename("in/voice.mp3".to_string(), "out/2024/voice.mp3".to_string())
    );
    assert_eq!(relocation.result(), None);
    relocation.advance(true);
    assert_eq!(relocation.request(), FsRequest::Nothing);
    assert_eq!(relocation.result(), Some(Ok(())));
}

#[test]
fn no_rename_after_a_directory_that_could_not_be_made() {
    let mut relocation = move_file("in/voice.mp3", "out/voice.mp3");
    relocation.advance(false);
    assert_eq!(relocation.request(), FsRequest::Nothing);
    assert_eq!(relocation.result(), Some(Err(AppError::FileSystemError)));
    relocation.advance(true);
    assert_eq!(relocation.request(), FsRequest::Nothing);
    assert_eq!(relocation.result(), Some(Err(AppError::FileSystemError)));
}

#[test]
fn a_rename_that_fails_gives_the_move_up() {
    let mut relocation = move_file("in/voice.mp3", "out/voice.mp3");
    relocation.advance(true);
    relocation.advance(false);
    assert_eq!(relocation.request(), FsRequest::Nothing);
    assert_eq!(relocation.result(), Some(Err(AppError::FileSystemError)));
}

#[test]
fn a_move_that_has_ended_stays_ended() {
    let mut relocation = move_file("a", "b/c");
    relocation.advance(true);
    relocation.advance(true);
    relocation.advance(false);
    assert_eq!(relocation.result(), Some(Ok(())));
}

#[test]
fn a_destination_of_one_component_lies_in_the_empty_path() {
    let mut relocation = move_file("in/voice.mp3", "voice.mp3");
    assert_eq!(relocation.request(), FsRequest::CreateDirs("".to_string()));
    relocation.advance(true);
    assert_eq!(
        relocation.request(),
        FsRequest::Rename("in/voice.mp3".to_string(), "voice.mp3".to_string())
    );
}

#[test]
fn a_destination_that_is_the_root_is_renamed_at_once() {
    let relocation = move_file("in/voice.mp3", "/");
    assert_eq!(relocation.request(), FsRequest::Rename("in/voice.mp3".to_string(), "/".to_string()));
    assert_eq!(starting_stage(""), MoveStage::Renaming);
}

#[test]
fn directories_are_taken_as_the_standard_library_takes_them() {
    for path in [
        "", "/", "//", ".", "..", "./", "./.", "/.", "/..", "a", "a/", "a//", "a/.", "a/..",
        "a/../", "a/b", "/a", "//a", "/a/b/", "./a", "../a", "a/./b", "/./a", "a//b", "a/b/./",
        "out/2024/voice.mp3", "/voice.mp3", "out//x//", "/a/.", "././a", "a/./.", ".//a",
    ] {
        let expected = std::path::Path::new(path)
            .parent()
            .map(|parent| parent.to_str().unwrap().to_string());
        assert_eq!(parent_directory(path), expected, "{:?}", path);
    }
}

#[test]
fn parent_directory_is_what_stands_before_the_last_separator() {
    assert_eq!(parent_directory("out/2024/voice.mp3"), Some("out/2024".to_string()));
    assert_eq!(parent_directory("out/voice.mp3"), Some("out".to_string()));
    assert_eq!(parent_directory("/voice.mp3"), Some("/".to_string()));
    assert_eq!(parent_directory("./voice.mp3"), Some(".".to_string()));
    assert_eq!(parent_directory("voice.mp3"), Some("".to_string()));
    assert_eq!(parent_directory(""), None);
    assert_eq!(parent_directory("/"), None);
    assert_eq!(parent_directory("out/"), Some("".to_string()));
    assert_eq!(parent_directory("out/x/"), Some("out".to_string()));
}

#[test]
fn stages_follow_each_other() {
    assert_eq!(starting_stage("out/voice.mp3"), MoveStage::CreatingParent);
    assert_eq!(starting_stage("voice.mp3"), MoveStage::CreatingParent);
    assert_eq!(starting_stage("/"), MoveStage::Renaming);
    assert_eq!(advance_stage(MoveStage::CreatingParent, true), MoveStage::Renaming);
    assert_eq!(advance_stage(MoveStage::CreatingParent, false), MoveStage::Failed);
    assert_eq!(advance_stage(MoveStage::Renaming, true), MoveStage::Moved);
    assert_eq!(advance_stage(MoveStage::Renaming, false), MoveStage::Failed);
    assert_eq!(advance_stage(MoveStage::Moved, false), MoveStage::Moved);
    assert_eq!(advance_stage(MoveStage::Failed, true), MoveStage::Failed);
}

#[test]
fn requests_name_their_paths() {
    assert_eq!(request_in("a", "b/c", MoveStage::CreatingParent), FsRequest::CreateDirs("b".to_string()));
    assert_eq!(request_in("a", "c", MoveStage::CreatingParent), FsRequest::CreateDirs("".to_string()));
    assert_eq!(request_in("a", "/", MoveStage::CreatingParent), FsRequest::Nothing);
    assert_eq!(
        request_in("a", "b/c", MoveStage::Renaming),
        FsRequest::Rename("a".to_string(), "b/c".to_string())
    );
    assert_eq!(request_in("a", "b/c", MoveStage::Moved), FsRequest::Nothing);
    assert_eq!(request_in("a", "b/c", MoveStage::Failed), FsRequest::Nothing);
}
