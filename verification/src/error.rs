//! Typed failures of the model store, the transcription engine, and
//! the external merge pipeline, with the coarser category each one
//! falls under.

use vstd::prelude::*;
use vstd::string::StringExecFns;

verus! {

/// A distinct failure point of the library.
#[derive(Clone, Copy, Debug, PartialEq, Eq, Structural)]
pub enum WhisperError {
    /// The model download could not connect or the request failed.
    ConnectionFailed,
    /// The model download's byte stream broke off or was unreadable.
    StreamCorrupted,
    /// The server did not report a content length for the model file.
    SizeUnavailable,
    /// A local file could not be created or written.
    StorageIo,
    /// The model artifact is present but unreadable or corrupt.
    ModelLoadFailed,
    /// A fresh inference state could not be created.
    StateCreationFailed,
    /// The decoder failed while running over the audio.
    DecodeFailed,
    /// A produced segment or token could not be read back.
    SegmentExtractionFailed,
    /// The decode produced zero segments.
    NoSpeechDetected,
    /// An external merge step could not be spawned.
    ToolSpawnFailed,
    /// An external merge step exited unsuccessfully.
    ToolExitFailed,
}

/// The coarse category of a failure: which subsystem misbehaved.
#[derive(Clone, Copy, Debug, PartialEq, Eq, Structural)]
pub enum ErrorKind {
    /// Download connect or stream failures.
    Connectivity,
    /// Local file create/write failures.
    StorageIo,
    /// Unreadable or corrupt model file.
    ModelIntegrity,
    /// Inference or session errors.
    DecodeFailure,
    /// No speech detected.
    EmptyResult,
    /// Spawn failure or non-zero exit of the merge collaborator.
    ExternalToolFailure,
}

impl WhisperError {
    /// The category `self` falls under.
    pub open spec fn kind_spec(self) -> ErrorKind {
        match self {
            WhisperError::ConnectionFailed => ErrorKind::Connectivity,
            WhisperError::StreamCorrupted => ErrorKind::Connectivity,
            WhisperError::SizeUnavailable => ErrorKind::Connectivity,
            WhisperError::StorageIo => ErrorKind::StorageIo,
            WhisperError::ModelLoadFailed => ErrorKind::ModelIntegrity,
            WhisperError::StateCreationFailed => ErrorKind::DecodeFailure,
            WhisperError::DecodeFailed => ErrorKind::DecodeFailure,
            WhisperError::SegmentExtractionFailed => ErrorKind::DecodeFailure,
            WhisperError::NoSpeechDetected => ErrorKind::EmptyResult,
            WhisperError::ToolSpawnFailed => ErrorKind::ExternalToolFailure,
            WhisperError::ToolExitFailed => ErrorKind::ExternalToolFailure,
        }
    }

    /// The category `self` falls under.
    pub fn kind(&self) -> (r: ErrorKind)
        ensures
            r == self.kind_spec(),
    {
        match self {
            WhisperError::ConnectionFailed => ErrorKind::Connectivity,
            WhisperError::StreamCorrupted => ErrorKind::Connectivity,
            WhisperError::SizeUnavailable => ErrorKind::Connectivity,
            WhisperError::StorageIo => ErrorKind::StorageIo,
            WhisperError::ModelLoadFailed => ErrorKind::ModelIntegrity,
            WhisperError::StateCreationFailed => ErrorKind::DecodeFailure,
            WhisperError::DecodeFailed => ErrorKind::DecodeFailure,
            WhisperError::SegmentExtractionFailed => ErrorKind::DecodeFailure,
            WhisperError::NoSpeechDetected => ErrorKind::EmptyResult,
            WhisperError::ToolSpawnFailed => ErrorKind::ExternalToolFailure,
            WhisperError::ToolExitFailed => ErrorKind::ExternalToolFailure,
        }
    }

    /// The human-readable description of `self`.
    pub open spec fn message_spec(self) -> Seq<char> {
        match self {
            WhisperError::ConnectionFailed => "failed to connect while downloading the model"@,
            WhisperError::StreamCorrupted => "the model download stream was corrupted"@,
            WhisperError::SizeUnavailable => "the server did not report the model file size"@,
            WhisperError::StorageIo => "failed to create or write a local file"@,
            WhisperError::ModelLoadFailed => "failed to load the model file"@,
            WhisperError::StateCreationFailed => "failed to create an inference state"@,
            WhisperError::DecodeFailed => "failed to transcribe the audio"@,
            WhisperError::SegmentExtractionFailed => "failed to read back a produced segment"@,
            WhisperError::NoSpeechDetected => "no speech was detected in the audio"@,
            WhisperError::ToolSpawnFailed => "failed to start the external merge tool"@,
            WhisperError::ToolExitFailed => "the external merge tool exited with an error"@,
        }
    }

    /// A human-readable description of the failure.
    pub fn message(&self) -> (r: String)
        ensures
            r@ == self.message_spec(),
    {
        match self {
            WhisperError::ConnectionFailed => String::from_str(
                "failed to connect while downloading the model",
            ),
            WhisperError::StreamCorrupted => String::from_str(
                "the model download stream was corrupted",
            ),
            WhisperError::SizeUnavailable => String::from_str(
                "the server did not report the model file size",
            ),
            WhisperError::StorageIo => String::from_str("failed to create or write a local file"),
            WhisperError::ModelLoadFailed => String::from_str("failed to load the model file"),
            WhisperError::StateCreationFailed => String::from_str(
                "failed to create an inference state",
            ),
            WhisperError::DecodeFailed => String::from_str("failed to transcribe the audio"),
            WhisperError::SegmentExtractionFailed => String::from_str(
                "failed to read back a produced segment",
            ),
            WhisperError::NoSpeechDetected => String::from_str(
                "no speech was detected in the audio",
            ),
            WhisperError::ToolSpawnFailed => String::from_str(
                "failed to start the external merge tool",
            ),
            WhisperError::ToolExitFailed => String::from_str(
                "the external merge tool exited with an error",
            ),
        }
    }
}

} // verus!
