use vstd::prelude::*;

verus! {

/// Why the audio of one file could not be processed.
#[derive(Clone, Copy, Debug, PartialEq, Eq, Structural)]
pub enum AudioFault {
    /// No container format was recognised in the bytes.
    Probe,
    /// The container holds no track to decode.
    NoTrack,
    /// No decoder could be made for the track.
    NoDecoder,
    /// The stream asked for its decoders to be rebuilt, which is not done.
    ResetRequired,
    /// Reading the next packet failed for good.
    Stream,
    /// Decoding a packet failed for good.
    Decode,
    /// The demuxer or the decoder broke off in the middle of a call.
    Aborted,
    /// The decoding was ended before the stream was.
    Unfinished,
}

/// What can go wrong while one file is handled, or while the watch is set up.
#[derive(Clone, Copy, Debug, PartialEq, Eq, Structural)]
pub enum AppError {
    /// Creating a directory or moving a file failed.
    FileSystemError,
    /// The times of a file could not be read.
    MetadataError,
    /// The audio could not be decoded.
    AudioProcessingError(AudioFault),
    /// The file is no supported audio container.
    UnsupportedFormat,
    /// The watch on the source directory failed.
    NotifyError,
}

impl AppError {
    /// True of the one error that ends the watch; every other one concerns a
    /// single file.
    pub open spec fn is_fatal(self) -> bool {
        self is NotifyError
    }

    /// What the error says of itself.
    pub open spec fn text(self) -> Seq<char> {
        match self {
            AppError::FileSystemError => "File system error"@,
            AppError::MetadataError => "Metadata retrieval failed"@,
            AppError::AudioProcessingError(_) => "Failed to process audio data"@,
            AppError::UnsupportedFormat => "Invalid file format"@,
            AppError::NotifyError => "Notification error"@,
        }
    }

    /// What the error says of itself.
    pub fn message(&self) -> (message: &'static str)
        ensures
            message@ == self.text(),
    {
        match self {
            AppError::FileSystemError => "File system error",
            AppError::MetadataError => "Metadata retrieval failed",
            AppError::AudioProcessingError(_) => "Failed to process audio data",
            AppError::UnsupportedFormat => "Invalid file format",
            AppError::NotifyError => "Notification error",
        }
    }

    /// True of the error that ends the watch.
    pub fn fatal(&self) -> (b: bool)
        ensures
            b == self.is_fatal(),
    {
        match self {
            AppError::NotifyError => true,
            _ => false,
        }
    }
}

} // verus!
