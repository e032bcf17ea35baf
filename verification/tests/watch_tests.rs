use custodian::config::Args;
use custodian::config::LogLevel;
use custodian::config::WatchConfiguration;
use custodian::error::AppError;
use custodian::error::AudioFault;
use custodian::job::JobOutcome;
use custodian::watch::Directive;
use custodian::watch::EventKind;
use custodian::watch::FileEvent;
use custodian::watch::LoopState;
use custodian::watch::Phase;
use custodian::watch::Signal;
use custodian::watch::WatchLoop;

fn config() -> WatchConfiguration {
    WatchConfiguration::new("in".to_string(), "out".to_string(), false, true, false, "%Y".to_string())
        .unwrap()
}

fn event(paths: &[&str]) -> Signal {
    Signal::Event(FileEvent {
        kind: EventKind::Created,
        paths: paths.iter().map(|path| path.to_string()).collect(),
    })
}

fn running() -> WatchLoop {
    let mut watch = WatchLoop::new(&config());
    watch.deliver(Signal::SourceReady(true));
    watch.deliver(Signal::Subscribed(true));
    watch
}

#[test]
fn a_watch_is_set_up_step_by_step() {
    let mut watch = WatchLoop::new(&config());
    assert_eq!(watch.phase(), Phase::Preparing);
    assert_eq!(watch.state(), LoopState::Starting);
    assert_eq!(watch.directive(), Directive::CreateSource("in".to_string()));
    assert_eq!(watch.deliver(Signal::SourceReady(true)), Directive::Subscribe("in".to_string()));
    assert_eq!(watch.phase(), Phase::Subscribing);
    assert_eq!(watch.deliver(Signal::Subscribed(true)), Directive::Wait);
    assert_eq!(watch.phase(), Phase::Running);
    assert_eq!(watch.waiting(), 0);
}

#[test]
fn a_source_directory_that_cannot_be_made_ends_the_watch() {
    let mut watch = WatchLoop::new(&config());
    let directive = watch.deliver(Signal::SourceReady(false));
    assert_eq!(directive, Directive::Stop(Err(AppError::FileSystemError)));
    assert_eq!(watch.phase(), Phase::Closed(Err(AppError::FileSystemError)));
}

#[test]
fn a_watch_that_cannot_be_set_up_ends() {
    let mut watch = WatchLoop::new(&config());
    watch.deliver(Signal::SourceReady(true));
    let directive = watch.deliver(Signal::Subscribed(false));
    assert_eq!(directive, Directive::Stop(Err(AppError::NotifyError)));
}

#[test]
fn watch_loop_goes_on_after_a_file_that_failed() {
    let mut watch = running();
    let batch = event(&["in/broken.mp3", "in/voice.mp3"]);
    assert_eq!(watch.state(), LoopState::Idle);
    assert_eq!(watch.deliver(batch), Directive::Handle("in/broken.mp3".to_string()));
    assert_eq!(watch.state(), LoopState::Dispatching);
    let failed = JobOutcome::Failed(AppError::AudioProcessingError(AudioFault::Decode));
    assert_eq!(watch.deliver(Signal::Handled(failed)), Directive::Handle("in/voice.mp3".to_string()));
    assert_eq!(watch.phase(), Phase::Running);
    assert_eq!(watch.deliver(Signal::Handled(JobOutcome::Relocated)), Directive::Wait);
    assert_eq!(watch.phase(), Phase::Running);
    assert_eq!(watch.state(), LoopState::Idle);
    let next = event(&["in/later.mp3"]);
    assert_eq!(watch.deliver(next), Directive::Handle("in/later.mp3".to_string()));
}

#[test]
fn no_kind_of_failure_ends_the_watch() {
    for error in [
        AppError::FileSystemError,
        AppError::MetadataError,
        AppError::AudioProcessingError(AudioFault::ResetRequired),
        AppError::UnsupportedFormat,
        AppError::NotifyError,
    ] {
        let mut watch = running();
        watch.deliver(event(&["a.mp3", "b.mp3"]));
        let directive = watch.deliver(Signal::Handled(JobOutcome::Failed(error)));
        assert_eq!(directive, Directive::Handle("b.mp3".to_string()));
        assert_eq!(watch.phase(), Phase::Running);
        assert_eq!(watch.waiting(), 1);
    }
}

#[test]
fn events_are_handled_in_the_order_they_came() {
    let mut watch = running();
    watch.deliver(event(&["a", "b"]));
    let directive = watch.deliver(event(&["c"]));
    assert_eq!(directive, Directive::Handle("a".to_string()));
    assert_eq!(watch.waiting(), 3);
    assert_eq!(watch.deliver(Signal::Handled(JobOutcome::Skipped)), Directive::Handle("b".to_string()));
    assert_eq!(watch.deliver(Signal::Handled(JobOutcome::Skipped)), Directive::Handle("c".to_string()));
    assert_eq!(watch.deliver(Signal::Handled(JobOutcome::Skipped)), Directive::Wait);
}

#[test]
fn an_event_without_paths_leaves_the_watch_idle() {
    let mut watch = running();
    assert_eq!(watch.deliver(event(&[])), Directive::Wait);
    assert_eq!(watch.waiting(), 0);
}

#[test]
fn a_closed_channel_ends_an_idle_watch_in_success() {
    let mut watch = running();
    assert_eq!(watch.deliver(Signal::Disconnected), Directive::Stop(Ok(())));
    assert_eq!(watch.phase(), Phase::Closed(Ok(())));
    assert_eq!(watch.state(), LoopState::Closed);
    assert_eq!(watch.deliver(event(&["a"])), Directive::Stop(Ok(())));
}

#[test]
fn an_error_of_the_watch_ends_it() {
    let mut watch = running();
    assert_eq!(watch.deliver(Signal::WatchFailed), Directive::Stop(Err(AppError::NotifyError)));
}

#[test]
fn the_end_of_the_channel_waits_for_the_files_in_hand() {
    let mut watch = running();
    watch.deliver(event(&["a"]));
    assert_eq!(watch.deliver(Signal::Disconnected), Directive::Handle("a".to_string()));
    assert_eq!(watch.deliver(Signal::WatchFailed), Directive::Handle("a".to_string()));
    assert_eq!(watch.deliver(Signal::Handled(JobOutcome::Relocated)), Directive::Wait);
    assert_eq!(watch.deliver(Signal::Disconnected), Directive::Stop(Ok(())));
}

#[test]
fn signals_out_of_place_change_nothing() {
    let mut watch = WatchLoop::new(&config());
    assert_eq!(watch.deliver(Signal::Subscribed(true)), Directive::CreateSource("in".to_string()));
    assert_eq!(watch.deliver(event(&["a"])), Directive::CreateSource("in".to_string()));
    assert_eq!(watch.deliver(Signal::Disconnected), Directive::CreateSource("in".to_string()));
    let mut watch = running();
    assert_eq!(watch.deliver(Signal::Handled(JobOutcome::Relocated)), Directive::Wait);
    assert_eq!(watch.deliver(Signal::SourceReady(false)), Directive::Wait);
}

#[test]
fn replacing_the_name_cannot_be_combined() {
    let make = |replace, time, summary| {
        WatchConfiguration::new("in".to_string(), "out".to_string(), replace, time, summary, "%Y".to_string())
    };
    assert!(make(true, true, false).is_none());
    assert!(make(true, false, true).is_none());
    assert!(make(true, true, true).is_none());
    assert!(make(true, false, false).is_some());
    assert!(make(false, true, true).is_some());
    assert!(make(false, false, false).is_some());
    assert!(make(true, false, false).unwrap().needs_times());
    assert!(make(false, true, false).unwrap().needs_times());
    assert!(!make(false, false, true).unwrap().needs_times());
}

#[test]
fn arguments_become_a_configuration() {
    let args = Args {
        input: "in".to_string(),
        output: "out".to_string(),
        replace_filename: false,
        append_summary: true,
        append_timestamp: false,
        timestamp_format: "%Y%m%d%H%M%S".to_string(),
        log_level: LogLevel::Info,
    };
    let config = args.configuration().unwrap();
    assert_eq!(config.source_dir, "in");
    assert_eq!(config.destination_dir, "out");
    assert!(!config.replace_filename);
    assert!(config.append_summary);
    assert!(!config.append_timestamp);
    assert_eq!(config.timestamp_format, "%Y%m%d%H%M%S");
    let conflict = Args { replace_filename: true, ..args };
    assert!(conflict.configuration().is_none());
}

#[test]
fn every_kind_of_event_is_taken_alike() {
    for kind in [EventKind::Created, EventKind::Modified, EventKind::Removed, EventKind::Other] {
        let mut watch = running();
        let signal = Signal::Event(FileEvent { kind, paths: vec!["a.mp3".to_string()] });
        assert_eq!(watch.deliver(signal), Directive::Handle("a.mp3".to_string()));
    }
}

#[test]
fn errors_say_what_they_are() {
    assert_eq!(AppError::FileSystemError.message(), "File system error");
    assert_eq!(AppError::MetadataError.message(), "Metadata retrieval failed");
    assert_eq!(AppError::AudioProcessingError(AudioFault::Probe).message(), "Failed to process audio data");
    assert_eq!(AppError::UnsupportedFormat.message(), "Invalid file format");
    assert_eq!(AppError::NotifyError.message(), "Notification error");
}

#[test]
fn only_an_error_of_the_watch_is_fatal() {
    assert!(AppError::NotifyError.fatal());
    assert!(!AppError::FileSystemError.fatal());
    assert!(!AppError::MetadataError.fatal());
    assert!(!AppError::UnsupportedFormat.fatal());
    assert!(!AppError::AudioProcessingError(AudioFault::Stream).fatal());
}
