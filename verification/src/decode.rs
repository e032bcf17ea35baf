//! Decoding: what each answer of a demuxer and a decoder means for the
//! samples collected so far, and what a decoding comes to in the end.
//!
//! Nothing here reads a byte of audio. A driver asks the demuxer and the
//! decoder, reports each answer as an event, and stops asking when an event
//! ends the decoding.

use vstd::prelude::*;
use crate::error::AppError;
use crate::error::AudioFault;

verus! {

/// What a failed call into the decoder library reported.
#[derive(Clone, Copy, Debug, PartialEq, Eq, Structural)]
pub enum StreamError {
    /// Reading failed; `end_of_stream` where the input simply ran out.
    Io { end_of_stream: bool },
    /// The data is malformed.
    Decode,
    /// The stream could not be positioned.
    Seek,
    /// The container or codec uses a feature that is not supported.
    Unsupported,
    /// A limit that guards against hostile streams was reached.
    Limit,
    /// The track list changed: decoders would have to be rebuilt.
    ResetRequired,
}

/// What a driver reports of one step of a decoding, as plain values.
#[derive(Debug, PartialEq, Eq)]
pub enum PacketEvent {
    /// No container format was recognised in the bytes.
    Unrecognised,
    /// The container holds no track to decode.
    NoTrack,
    /// No decoder could be made for the track.
    NoDecoder,
    /// The demuxer or the decoder broke off in the middle of a call.
    Aborted,
    /// A packet of the chosen track, decoded to these interleaved samples.
    Decoded(Vec<i16>),
    /// A packet of another track.
    OtherTrack,
    /// A packet of the chosen track that the decoder refused.
    DecodeFailed(StreamError),
    /// No packet: the demuxer refused to give one.
    ReadFailed(StreamError),
}

/// Where a decoding stands.
#[derive(Clone, Copy, Debug, PartialEq, Eq, Structural)]
pub enum Progress {
    /// More packets are expected.
    Continue,
    /// The stream ended; what was collected is the result.
    Finished,
    /// The file is given up.
    Failed(AudioFault),
}

impl PacketEvent {
    /// The samples that this turn adds.
    pub open spec fn samples(self) -> Seq<i16> {
        match self {
            PacketEvent::Decoded(chunk) => chunk@,
            _ => Seq::empty(),
        }
    }

    /// What this step means for the decoding. A packet that fails to decode
    /// for want of data or for malformed data is skipped; the end of the
    /// input ends the decoding in success; a demand to reset is reported as
    /// such; anything else gives the file up.
    pub open spec fn progress(self) -> Progress {
        match self {
            PacketEvent::Unrecognised => Progress::Failed(AudioFault::Probe),
            PacketEvent::NoTrack => Progress::Failed(AudioFault::NoTrack),
            PacketEvent::NoDecoder => Progress::Failed(AudioFault::NoDecoder),
            PacketEvent::Aborted => Progress::Failed(AudioFault::Aborted),
            PacketEvent::Decoded(_) => Progress::Continue,
            PacketEvent::OtherTrack => Progress::Continue,
            PacketEvent::DecodeFailed(StreamError::Io { .. }) => Progress::Continue,
            PacketEvent::DecodeFailed(StreamError::Decode) => Progress::Continue,
            PacketEvent::DecodeFailed(StreamError::ResetRequired) => Progress::Failed(
                AudioFault::ResetRequired,
            ),
            PacketEvent::DecodeFailed(_) => Progress::Failed(AudioFault::Decode),
            PacketEvent::ReadFailed(StreamError::Io { end_of_stream: true }) => Progress::Finished,
            PacketEvent::ReadFailed(StreamError::ResetRequired) => Progress::Failed(
                AudioFault::ResetRequired,
            ),
            PacketEvent::ReadFailed(_) => Progress::Failed(AudioFault::Stream),
        }
    }

    /// True of a step that neither ends the decoding nor fails it.
    pub open spec fn keeps_going(self) -> bool {
        self.progress() is Continue
    }

    /// True of a step after which the driver asks on.
    pub fn goes_on(&self) -> (on: bool)
        ensures
            on == self.keeps_going(),
    {
        match self {
            PacketEvent::Decoded(_) => true,
            PacketEvent::OtherTrack => true,
            PacketEvent::DecodeFailed(StreamError::Io { .. }) => true,
            PacketEvent::DecodeFailed(StreamError::Decode) => true,
            _ => false,
        }
    }
}

/// The state of a decoding after `events`, in order: the samples collected
/// and where the loop stands. Events behind the one that ended the loop
/// change nothing.
pub open spec fn replay(events: Seq<PacketEvent>) -> (Seq<i16>, Progress)
    decreases events.len(),
{
    if events.len() == 0 {
        (Seq::empty(), Progress::Continue)
    } else {
        let (samples, progress) = replay(events.drop_last());
        if progress is Continue {
            (samples + events.last().samples(), events.last().progress())
        } else {
            (samples, progress)
        }
    }
}

/// What a decoding yields in the end: the samples where the stream ended
/// cleanly, the fault where it failed, and `Unfinished` where it was still
/// open when the asking stopped.
pub open spec fn outcome(samples: Seq<i16>, progress: Progress) -> Result<Seq<i16>, AppError> {
    match progress {
        Progress::Finished => Ok(samples),
        Progress::Failed(fault) => Err(AppError::AudioProcessingError(fault)),
        Progress::Continue => Err(AppError::AudioProcessingError(AudioFault::Unfinished)),
    }
}

/// All samples of `events`, in order.
pub open spec fn all_samples(events: Seq<PacketEvent>) -> Seq<i16>
    decreases events.len(),
{
    if events.len() == 0 {
        Seq::empty()
    } else {
        all_samples(events.drop_last()) + events.last().samples()
    }
}

/// As long as every turn keeps going, nothing decoded is lost and the loop
/// stays open.
pub proof fn lemma_replay_while_open(events: Seq<PacketEvent>)
    requires
        forall|i: int| 0 <= i < events.len() ==> (#[trigger] events[i]).keeps_going(),
    ensures
        replay(events) == (all_samples(events), Progress::Continue),
    decreases events.len(),
{
    if events.len() > 0 {
        let head = events.drop_last();
        assert forall|i: int| 0 <= i < head.len() implies (#[trigger] head[i]).keeps_going() by {
            assert(head[i] == events[i]);
        }
        lemma_replay_while_open(head);
    }
}

/// A stream that ends cleanly yields every sample decoded before its end,
/// whatever packets were skipped on the way: if each turn but the last
/// decoded a packet, met a packet of another track or skipped one that the
/// decoder refused for want of data or for malformed data, and the last turn
/// found the end of the input, then the result is `Ok` and holds the samples
/// of all decoded packets, in order.
pub proof fn lemma_clean_end_keeps_all_samples(events: Seq<PacketEvent>)
    requires
        events.len() > 0,
        events.last() == PacketEvent::ReadFailed(StreamError::Io { end_of_stream: true }),
        forall|i: int| 0 <= i < events.len() - 1 ==> (#[trigger] events[i]).keeps_going(),
    ensures
        outcome(replay(events).0, replay(events).1) == Ok::<Seq<i16>, AppError>(
            all_samples(events.drop_last()),
        ),
{
    let head = events.drop_last();
    assert forall|i: int| 0 <= i < head.len() implies (#[trigger] head[i]).keeps_going() by {
        assert(head[i] == events[i]);
    }
    lemma_replay_while_open(head);
    assert(events.last().samples() =~= Seq::<i16>::empty());
    assert(replay(events).0 =~= all_samples(head));
}

/// The samples collected so far and where the loop stands.
pub struct Decoding {
    samples: Vec<i16>,
    progress: Progress,
}

impl Decoding {
    /// The samples collected so far.
    pub closed spec fn samples(&self) -> Seq<i16> {
        self.samples@
    }

    /// Where the loop stands.
    pub closed spec fn progress(&self) -> Progress {
        self.progress
    }

    /// A decoding that has seen nothing yet.
    pub fn new() -> (fresh: Decoding)
        ensures
            (fresh.samples(), fresh.progress()) == replay(Seq::empty()),
    {
        Decoding { samples: Vec::new(), progress: Progress::Continue }
    }

    /// True while more packets are expected.
    pub fn is_open(&self) -> (open: bool)
        ensures
            open == (self.progress() is Continue),
    {
        match self.progress {
            Progress::Continue => true,
            _ => false,
        }
    }

    /// Takes one turn of the loop into account and says where the loop
    /// stands now. Once the loop has ended, further events change nothing.
    pub fn absorb(&mut self, event: PacketEvent) -> (now: Progress)
        ensures
            now == final(self).progress(),
            old(self).progress() is Continue ==> final(self).samples() == old(self).samples()
                + event.samples() && final(self).progress() == event.progress(),
            !(old(self).progress() is Continue) ==> final(self).samples() == old(self).samples()
                && final(self).progress() == old(self).progress(),
    {
        if !self.is_open() {
            return self.progress;
        }
        let ghost before = self.samples@;
        let next = match event {
            PacketEvent::Unrecognised => Progress::Failed(AudioFault::Probe),
            PacketEvent::NoTrack => Progress::Failed(AudioFault::NoTrack),
            PacketEvent::NoDecoder => Progress::Failed(AudioFault::NoDecoder),
            PacketEvent::Aborted => Progress::Failed(AudioFault::Aborted),
            PacketEvent::Decoded(mut chunk) => {
                self.samples.append(&mut chunk);
                Progress::Continue
            },
            PacketEvent::OtherTrack => Progress::Continue,
            PacketEvent::DecodeFailed(error) => match error {
                StreamError::Io { .. } => Progress::Continue,
                StreamError::Decode => Progress::Continue,
                StreamError::ResetRequired => Progress::Failed(AudioFault::ResetRequired),
                _ => Progress::Failed(AudioFault::Decode),
            },
            PacketEvent::ReadFailed(error) => match error {
                StreamError::Io { end_of_stream } => if end_of_stream {
                    Progress::Finished
                } else {
                    Progress::Failed(AudioFault::Stream)
                },
                StreamError::ResetRequired => Progress::Failed(AudioFault::ResetRequired),
                _ => Progress::Failed(AudioFault::Stream),
            },
        };
        proof {
            assert(self.samples@ =~= before + event.samples());
        }
        self.progress = next;
        next
    }

    /// Ends the decoding and gives what it yields.
    pub fn finish(self) -> (result: Result<Vec<i16>, AppError>)
        ensures
            match result {
                Ok(samples) => outcome(self.samples(), self.progress()) == Ok::<
                    Seq<i16>,
                    AppError,
                >(samples@),
                Err(error) => outcome(self.samples(), self.progress()) == Err::<
                    Seq<i16>,
                    AppError,
                >(error),
            },
    {
        match self.progress {
            Progress::Finished => Ok(self.samples),
            Progress::Failed(fault) => Err(AppError::AudioProcessingError(fault)),
            Progress::Continue => Err(AppError::AudioProcessingError(AudioFault::Unfinished)),
        }
    }
}

/// What a decoding comes to when the demuxer and the decoder answer with
/// `events`, in this order: the samples of every decoded packet up to the
/// clean end of the stream, or the fault that gave the file up.
pub fn collect(events: Vec<PacketEvent>) -> (result: Result<Vec<i16>, AppError>)
    ensures
        match result {
            Ok(samples) => outcome(replay(events@).0, replay(events@).1) == Ok::<
                Seq<i16>,
                AppError,
            >(samples@),
            Err(error) => outcome(replay(events@).0, replay(events@).1) == Err::<
                Seq<i16>,
                AppError,
            >(error),
        },
{
    let mut decoding = Decoding::new();
    let ghost all = events@;
    for event in turns: events
        invariant
            turns.seq() == all,
            (decoding.samples(), decoding.progress()) == replay(all.take(turns.index())),
    {
        proof {
            assert(all.take(turns.index() + 1).drop_last() =~= all.take(turns.index()));
        }
        decoding.absorb(event);
    }
    proof {
        assert(all.take(all.len() as int) =~= all);
    }
    decoding.finish()
}

/// What is done with the decoded audio of a packet.
#[derive(Clone, Copy, Debug, PartialEq, Eq, Structural)]
pub enum Export {
    /// It holds no samples: there is nothing to take.
    Nothing,
    /// It holds more than can be kept as 16-bit samples.
    TooLarge,
    /// Its samples are taken.
    Samples,
}

/// The most samples that decoded audio may have room for: as many 16-bit
/// samples as memory can address.
pub open spec fn max_samples() -> int {
    (usize::MAX / 2) as int
}

/// What is done with decoded audio of so many channels and with room for
/// so many frames. Audio without a channel or without room for a frame holds
/// no samples. Audio with room for more samples than can be kept is not
/// taken.
pub open spec fn export_of(channels: nat, capacity: nat) -> Export {
    if channels == 0 || capacity == 0 {
        Export::Nothing
    } else if capacity * channels > max_samples() {
        Export::TooLarge
    } else {
        Export::Samples
    }
}

/// What is done with decoded audio of so many channels and with room for
/// so many frames.
pub fn plan_export(channels: usize, capacity: usize) -> (plan: Export)
    ensures
        plan == export_of(channels as nat, capacity as nat),
{
    if channels == 0 || capacity == 0 {
        Export::Nothing
    } else if capacity > (usize::MAX / 2) / channels {
        assert(capacity * channels > usize::MAX / 2) by (nonlinear_arith)
            requires
                channels > 0,
                capacity > (usize::MAX / 2) / channels,
        ;
        Export::TooLarge
    } else {
        assert(capacity * channels <= usize::MAX / 2) by (nonlinear_arith)
            requires
                channels > 0,
                capacity <= (usize::MAX / 2) / channels,
        ;
        Export::Samples
    }
}

/// The event that decoded audio stands for, once it is known what is done
/// with it: audio without samples is a decoded packet that adds nothing,
/// audio that is too large counts as a limit reached, and audio that is
/// taken is a decoded packet with its samples.
pub open spec fn audio_event_of(plan: Export, samples: Seq<i16>) -> (Seq<i16>, Progress) {
    match plan {
        Export::Nothing => (Seq::empty(), Progress::Continue),
        Export::TooLarge => (
            Seq::empty(),
            PacketEvent::DecodeFailed(StreamError::Limit).progress(),
        ),
        Export::Samples => (samples, Progress::Continue),
    }
}

/// Turns decoded audio into its event. `samples` are looked at only where
/// the plan is to take them.
pub fn audio_event(plan: Export, samples: Vec<i16>) -> (event: PacketEvent)
    ensures
        (event.samples(), event.progress()) == audio_event_of(plan, samples@),
        plan is TooLarge <==> event == PacketEvent::DecodeFailed(StreamError::Limit),
        !(plan is TooLarge) ==> event is Decoded,
{
    match plan {
        Export::Nothing => PacketEvent::Decoded(Vec::new()),
        Export::TooLarge => PacketEvent::DecodeFailed(StreamError::Limit),
        Export::Samples => PacketEvent::Decoded(samples),
    }
}

/// True of a packet that is decoded: one of the track that was chosen.
/// Packets of other tracks are passed over.
pub fn is_of_track(packet_track: u32, chosen: u32) -> (wanted: bool)
    ensures
        wanted == (packet_track == chosen),
{
    packet_track == chosen
}

/// Writes decoded samples out. Encoding is not part of this crate: this
/// stands in for it, takes any samples and succeeds.
pub fn write_out(samples: &Vec<i16>) -> (result: Result<(), AppError>)
    ensures
        result == Ok::<(), AppError>(()),
{
    Ok(())
}

/// What transcribing comes to once the decoding has ended: samples are
/// written out, and a failure of the decoding stays the failure that it is.
pub fn transcribed(decoded: Result<Vec<i16>, AppError>) -> (result: Result<(), AppError>)
    ensures
        match decoded {
            Ok(_) => result == Ok::<(), AppError>(()),
            Err(error) => result == Err::<(), AppError>(error),
        },
{
    match decoded {
        Ok(samples) => write_out(&samples),
        Err(error) => Err(error),
    }
}

/// What transcribing a file comes to when the demuxer and the decoder
/// answer with `events`, in this order: success where the decoding ends
/// cleanly, and else the fault of the decoding.
pub open spec fn transcription_of(events: Seq<PacketEvent>) -> Result<(), AppError> {
    match outcome(replay(events).0, replay(events).1) {
        Ok(_) => Ok(()),
        Err(error) => Err(error),
    }
}

/// Transcribes a file from what its demuxer and decoder answered: the
/// samples are collected as `collect` says and written out.
pub fn transcribe_audio(events: Vec<PacketEvent>) -> (result: Result<(), AppError>)
    ensures
        result == transcription_of(events@),
        result matches Err(error) ==> error is AudioProcessingError,
{
    transcribed(collect(events))
}

/// A stream that ends cleanly is transcribed with success, whatever packets
/// were skipped on the way.
pub proof fn lemma_clean_end_is_transcribed(events: Seq<PacketEvent>)
    requires
        events.len() > 0,
        events.last() == PacketEvent::ReadFailed(StreamError::Io { end_of_stream: true }),
        forall|i: int| 0 <= i < events.len() - 1 ==> (#[trigger] events[i]).keeps_going(),
    ensures
        transcription_of(events) == Ok::<(), AppError>(()),
{
    lemma_clean_end_keeps_all_samples(events);
}

} // verus!
