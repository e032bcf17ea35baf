//! The watch loop: setting the watch up, taking events as they come, and
//! handing out the files of each event one after the other.
//!
//! The loop waits on no channel and touches no file itself. A driver does
//! what each directive says and reports back with a signal.

use vstd::prelude::*;
use std::collections::VecDeque;
use crate::config::WatchConfiguration;
use crate::error::AppError;
use crate::job::JobOutcome;

verus! {

/// Where the watch stands.
#[derive(Clone, Copy, Debug, PartialEq, Eq)]
pub enum Phase {
    /// The source directory is being made.
    Preparing,
    /// The watch on the source directory is being set up.
    Subscribing,
    /// The watch is on. It is idle while no file waits to be handled, and
    /// dispatching while one does.
    Running,
    /// The watch has ended, with this result.
    Closed(Result<(), AppError>),
}

/// What the file system reported of the paths of an event.
#[derive(Clone, Copy, Debug, PartialEq, Eq, Structural)]
pub enum EventKind {
    Created,
    Modified,
    Removed,
    Other,
}

/// A change that the file system reported: what happened, and to which
/// paths. An event is taken in once and then let go.
#[derive(Debug)]
pub struct FileEvent {
    pub kind: EventKind,
    pub paths: Vec<String>,
}

/// The state of the watch, as seen from outside.
#[derive(Clone, Copy, Debug, PartialEq, Eq, Structural)]
pub enum LoopState {
    /// The watch is being set up.
    Starting,
    /// The watch is on and waits for the next event.
    Idle,
    /// The watch is on and the files of an event are being handled.
    Dispatching,
    /// The watch has ended.
    Closed,
}

/// What a driver reports, as texts.
pub enum SignalView {
    SourceReady(bool),
    Subscribed(bool),
    Event(EventKind, Seq<Seq<char>>),
    Handled(JobOutcome),
    Disconnected,
    WatchFailed,
}

/// What a driver reports.
#[derive(Debug)]
pub enum Signal {
    /// Whether the source directory could be made.
    SourceReady(bool),
    /// Whether the watch could be set up.
    Subscribed(bool),
    /// The file system reported a change.
    Event(FileEvent),
    /// The file that was handed out has been handled, with this outcome.
    Handled(JobOutcome),
    /// The channel that events come through is closed.
    Disconnected,
    /// The watch reported an error in place of an event.
    WatchFailed,
}

/// The texts of a list of strings.
pub open spec fn texts(paths: Seq<String>) -> Seq<Seq<char>> {
    paths.map_values(|path: String| path@)
}

impl View for Signal {
    type V = SignalView;

    open spec fn view(&self) -> SignalView {
        match self {
            Signal::SourceReady(ready) => SignalView::SourceReady(*ready),
            Signal::Subscribed(subscribed) => SignalView::Subscribed(*subscribed),
            Signal::Event(event) => SignalView::Event(event.kind, texts(event.paths@)),
            Signal::Handled(outcome) => SignalView::Handled(*outcome),
            Signal::Disconnected => SignalView::Disconnected,
            Signal::WatchFailed => SignalView::WatchFailed,
        }
    }
}

/// What a driver is told to do, as texts.
pub enum DirectiveView {
    CreateSource(Seq<char>),
    Subscribe(Seq<char>),
    Wait,
    Handle(Seq<char>),
    Stop(Result<(), AppError>),
}

/// What a driver is told to do.
#[derive(Debug, PartialEq, Eq)]
pub enum Directive {
    /// Make this directory, with all that is missing above it.
    CreateSource(String),
    /// Watch this directory, and not what lies below it.
    Subscribe(String),
    /// Wait for the next event.
    Wait,
    /// Handle the file at this path.
    Handle(String),
    /// Stop, and report this result.
    Stop(Result<(), AppError>),
}

impl View for Directive {
    type V = DirectiveView;

    open spec fn view(&self) -> DirectiveView {
        match self {
            Directive::CreateSource(dir) => DirectiveView::CreateSource(dir@),
            Directive::Subscribe(dir) => DirectiveView::Subscribe(dir@),
            Directive::Wait => DirectiveView::Wait,
            Directive::Handle(path) => DirectiveView::Handle(path@),
            Directive::Stop(result) => DirectiveView::Stop(*result),
        }
    }
}

/// A watch, as texts.
pub struct LoopView {
    /// The directory that is watched.
    pub source_dir: Seq<char>,
    /// Where the watch stands.
    pub phase: Phase,
    /// The paths that wait to be handled, the one in hand first.
    pub queue: Seq<Seq<char>>,
}

impl LoopView {
    /// True while the watch is on and no file waits.
    pub open spec fn is_idle(self) -> bool {
        self.phase is Running && self.queue.len() == 0
    }

    /// True while the watch is on and a file is in hand.
    pub open spec fn is_dispatching(self) -> bool {
        self.phase is Running && self.queue.len() > 0
    }

    /// True once the watch has ended.
    pub open spec fn is_closed(self) -> bool {
        self.phase is Closed
    }

    /// The state of the watch, as seen from outside.
    pub open spec fn state(self) -> LoopState {
        match self.phase {
            Phase::Preparing => LoopState::Starting,
            Phase::Subscribing => LoopState::Starting,
            Phase::Running => if self.queue.len() > 0 {
                LoopState::Dispatching
            } else {
                LoopState::Idle
            },
            Phase::Closed(_) => LoopState::Closed,
        }
    }
}

/// A watch that has just been made: nothing is set up yet.
pub open spec fn started(source_dir: Seq<char>) -> LoopView {
    LoopView { source_dir, phase: Phase::Preparing, queue: Seq::empty() }
}

/// A watch after a signal.
///
/// Setting up: a source directory that cannot be made ends the watch with
/// `FileSystemError`, a watch that cannot be set up with `NotifyError`.
/// Running: the paths of an event, of whatever kind, join the queue behind
/// those that wait, for whether a path still names a file is found out when
/// it is handled; a file that has been handled leaves the queue, whatever
/// its outcome; a
/// closed channel ends an idle watch in success, and an error of the watch
/// ends it with `NotifyError`. While a file is in hand only its outcome and
/// further events are taken; the end of the channel is taken once the queue
/// is empty. A signal that the phase has no use for changes nothing, and a
/// watch that has ended stays so.
pub open spec fn after_signal(watch: LoopView, signal: SignalView) -> LoopView {
    match (watch.phase, signal) {
        (Phase::Preparing, SignalView::SourceReady(true)) => LoopView {
            phase: Phase::Subscribing,
            ..watch
        },
        (Phase::Preparing, SignalView::SourceReady(false)) => LoopView {
            phase: Phase::Closed(Err(AppError::FileSystemError)),
            ..watch
        },
        (Phase::Subscribing, SignalView::Subscribed(true)) => LoopView {
            phase: Phase::Running,
            ..watch
        },
        (Phase::Subscribing, SignalView::Subscribed(false)) => LoopView {
            phase: Phase::Closed(Err(AppError::NotifyError)),
            ..watch
        },
        (Phase::Running, SignalView::Event(_, paths)) => LoopView {
            queue: watch.queue + paths,
            ..watch
        },
        (Phase::Running, SignalView::Handled(_)) => if watch.queue.len() > 0 {
            LoopView { queue: watch.queue.drop_first(), ..watch }
        } else {
            watch
        },
        (Phase::Running, SignalView::Disconnected) => if watch.queue.len() == 0 {
            LoopView { phase: Phase::Closed(Ok(())), ..watch }
        } else {
            watch
        },
        (Phase::Running, SignalView::WatchFailed) => if watch.queue.len() == 0 {
            LoopView { phase: Phase::Closed(Err(AppError::NotifyError)), ..watch }
        } else {
            watch
        },
        _ => watch,
    }
}

/// What a watch tells its driver.
pub open spec fn directive_of(watch: LoopView) -> DirectiveView {
    match watch.phase {
        Phase::Preparing => DirectiveView::CreateSource(watch.source_dir),
        Phase::Subscribing => DirectiveView::Subscribe(watch.source_dir),
        Phase::Running => if watch.queue.len() > 0 {
            DirectiveView::Handle(watch.queue[0])
        } else {
            DirectiveView::Wait
        },
        Phase::Closed(result) => DirectiveView::Stop(result),
    }
}

/// A watch after the files in hand have been handled with `outcomes`, one
/// after the other.
pub open spec fn after_outcomes(watch: LoopView, outcomes: Seq<JobOutcome>) -> LoopView
    decreases outcomes.len(),
{
    if outcomes.len() == 0 {
        watch
    } else {
        after_signal(
            after_outcomes(watch, outcomes.drop_last()),
            SignalView::Handled(outcomes.last()),
        )
    }
}

/// No outcome of a file ends the watch or keeps another file from its turn.
/// Take a watch that is on. When the file in hand has been handled, be it
/// relocated, skipped or given up with any error, the watch is still on, the
/// files that waited behind it wait as before, and the next of them is
/// handed out; the watch is idle again once none is left.
pub proof fn lemma_failure_does_not_stop_the_watch(watch: LoopView, outcome: JobOutcome)
    requires
        watch.is_dispatching(),
    ensures
        ({
            let next = after_signal(watch, SignalView::Handled(outcome));
            &&& next.phase == Phase::Running
            &&& next.queue == watch.queue.drop_first()
            &&& next.source_dir == watch.source_dir
            &&& watch.queue.len() > 1 ==> directive_of(next) == DirectiveView::Handle(watch.queue[1])
            &&& watch.queue.len() == 1 ==> directive_of(next) == DirectiveView::Wait
        }),
{
}

/// Every file of a batch gets its turn, in the order of the batch, whatever
/// became of the files before it: after any outcomes of the first `k` files
/// the watch hands out file `k`, and after all of them it is idle.
pub proof fn lemma_every_path_is_handled(watch: LoopView, outcomes: Seq<JobOutcome>)
    requires
        watch.phase is Running,
        outcomes.len() <= watch.queue.len(),
    ensures
        ({
            let reached = after_outcomes(watch, outcomes);
            &&& reached.phase == Phase::Running
            &&& reached.queue == watch.queue.skip(outcomes.len() as int)
            &&& outcomes.len() < watch.queue.len() ==> directive_of(reached)
                == DirectiveView::Handle(watch.queue[outcomes.len() as int])
            &&& outcomes.len() == watch.queue.len() ==> reached.is_idle()
        }),
    decreases outcomes.len(),
{
    if outcomes.len() == 0 {
        assert(watch.queue.skip(0) =~= watch.queue);
    } else {
        let before = outcomes.drop_last();
        lemma_every_path_is_handled(watch, before);
        let reached = after_outcomes(watch, before);
        assert(reached.queue.drop_first() =~= watch.queue.skip(outcomes.len() as int));
    }
}

/// One file is in hand at a time. While a file is being handled, no signal
/// but its outcome hands out another: further events wait behind it, and
/// the file in hand stays the one that the driver is told to handle.
pub proof fn lemma_one_file_in_hand(watch: LoopView, signal: SignalView)
    requires
        watch.is_dispatching(),
        !(signal is Handled),
    ensures
        directive_of(after_signal(watch, signal)) == DirectiveView::Handle(watch.queue[0]),
        after_signal(watch, signal).is_dispatching(),
{
}

/// The watch ends only for a reason of its own: a watch that is on can be
/// ended by the end of the channel or an error of the watch, and by no
/// other signal.
pub proof fn lemma_only_the_channel_closes(watch: LoopView, signal: SignalView)
    requires
        watch.phase is Running,
        after_signal(watch, signal).is_closed(),
    ensures
        signal is Disconnected || signal is WatchFailed,
        watch.is_idle(),
{
}

/// The watch loop.
pub struct WatchLoop {
    source_dir: String,
    phase: Phase,
    queue: VecDeque<String>,
}

impl View for WatchLoop {
    type V = LoopView;

    closed spec fn view(&self) -> LoopView {
        LoopView { source_dir: self.source_dir@, phase: self.phase, queue: texts(self.queue@) }
    }
}

impl WatchLoop {
    /// A watch on the source directory of `config`, before anything is set
    /// up.
    pub fn new(config: &WatchConfiguration) -> (watch: WatchLoop)
        ensures
            watch@ == started(config.source_dir@),
    {
        let watch = WatchLoop {
            source_dir: config.source_dir.clone(),
            phase: Phase::Preparing,
            queue: VecDeque::new(),
        };
        assert(texts(watch.queue@) =~= Seq::<Seq<char>>::empty());
        watch
    }

    /// Where the watch stands.
    pub fn phase(&self) -> (phase: Phase)
        ensures
            phase == self@.phase,
    {
        self.phase
    }

    /// The state of the watch, as seen from outside.
    pub fn state(&self) -> (state: LoopState)
        ensures
            state == self@.state(),
    {
        match self.phase {
            Phase::Preparing => LoopState::Starting,
            Phase::Subscribing => LoopState::Starting,
            Phase::Running => if self.queue.len() > 0 {
                LoopState::Dispatching
            } else {
                LoopState::Idle
            },
            Phase::Closed(_) => LoopState::Closed,
        }
    }

    /// The number of paths that wait to be handled, the one in hand
    /// included.
    pub fn waiting(&self) -> (n: usize)
        ensures
            n == self@.queue.len(),
    {
        self.queue.len()
    }

    /// What the driver is told to do now.
    pub fn directive(&self) -> (directive: Directive)
        ensures
            directive@ == directive_of(self@),
    {
        match self.phase {
            Phase::Preparing => Directive::CreateSource(self.source_dir.clone()),
            Phase::Subscribing => Directive::Subscribe(self.source_dir.clone()),
            Phase::Running => if self.queue.len() > 0 {
                Directive::Handle(self.queue[0].clone())
            } else {
                Directive::Wait
            },
            Phase::Closed(result) => Directive::Stop(result),
        }
    }

    /// Takes a signal of the driver and says what it is to do next.
    pub fn deliver(&mut self, signal: Signal) -> (directive: Directive)
        ensures
            final(self)@ == after_signal(old(self)@, signal@),
            directive@ == directive_of(final(self)@),
    {
        let ghost before = self.queue@;
        match (self.phase, signal) {
            (Phase::Preparing, Signal::SourceReady(ready)) => {
                self.phase = if ready {
                    Phase::Subscribing
                } else {
                    Phase::Closed(Err(AppError::FileSystemError))
                };
            },
            (Phase::Subscribing, Signal::Subscribed(subscribed)) => {
                self.phase = if subscribed {
                    Phase::Running
                } else {
                    Phase::Closed(Err(AppError::NotifyError))
                };
            },
            (Phase::Running, Signal::Event(event)) => {
                let ghost arrived = event.paths@;
                for path in waiting: event.paths
                    invariant
                        waiting.seq() == arrived,
                        self.queue@ == before + arrived.take(waiting.index()),
                        self.phase == old(self).phase,
                        self.source_dir == old(self).source_dir,
                {
                    proof {
                        assert(arrived.take(waiting.index() + 1) =~= arrived.take(
                            waiting.index(),
                        ).push(path));
                    }
                    self.queue.push_back(path);
                }
                proof {
                    assert(arrived.take(arrived.len() as int) =~= arrived);
                    assert(texts(before + arrived) =~= texts(before) + texts(arrived));
                }
            },
            (Phase::Running, Signal::Handled(_)) => {
                self.queue.pop_front();
                proof {
                    if before.len() > 0 {
                        assert(texts(before.subrange(1, before.len() as int)) =~= texts(
                            before,
                        ).drop_first());
                    }
                }
            },
            (Phase::Running, Signal::Disconnected) => {
                if self.queue.len() == 0 {
                    self.phase = Phase::Closed(Ok(()));
                }
            },
            (Phase::Running, Signal::WatchFailed) => {
                if self.queue.len() == 0 {
                    self.phase = Phase::Closed(Err(AppError::NotifyError));
                }
            },
            _ => {},
        }
        self.directive()
    }
}

} // verus!
