//! The model store's download logic as a state machine.
//!
//! The store guarantees a usable local copy of a requested artifact
//! without redundant downloads, and lets a caller abort a slow
//! download cleanly.  All decisions — when to request, how to account
//! for each chunk, what cancellation and errors leave behind — live
//! here as a pure transition function; the caller performs the I/O
//! each returned action asks for and feeds the outcome back in as the
//! next event.
//!
//! The progress counters are reset to their idle values before and
//! after every attempt; while an attempt streams, `downloaded` never
//! exceeds `total_size`.

use vstd::prelude::*;
use crate::error::WhisperError;

verus! {

/// Sentinel for an unknown (unbounded) total size.
pub const UNBOUNDED: u64 = u64::MAX;

/// The observable progress of the in-flight download attempt.
#[derive(Copy, Clone, Debug, PartialEq, Eq, Structural)]
pub struct Progress {
    /// Declared size of the artifact, or [`UNBOUNDED`] if unknown.
    pub total_size: u64,
    /// Bytes streamed so far, never exceeding `total_size`.
    pub downloaded: u64,
    /// Whether a download attempt is in flight.
    pub active: bool,
}

impl Progress {
    /// The values observers read between attempts.
    pub open spec fn is_idle(self) -> bool {
        self.total_size == UNBOUNDED && self.downloaded == 0 && !self.active
    }

    /// The idle progress state.
    pub fn idle() -> (r: Progress)
        ensures
            r.is_idle(),
    {
        Progress { total_size: UNBOUNDED, downloaded: 0, active: false }
    }
}

/// How a download attempt ended.
#[derive(Copy, Clone, Debug, PartialEq, Eq, Structural)]
pub enum DownloadOutcome {
    /// The artifact was already present; nothing was downloaded.
    AlreadyPresent,
    /// The whole stream was consumed and written.
    Completed,
    /// Cancellation was requested; the partial file is left in place
    /// and the attempt counts as a success.
    Cancelled,
    /// The attempt failed; the partial file, if any, is left in place.
    Failed(WhisperError),
}

/// Where a download attempt stands.
#[derive(Copy, Clone, Debug, PartialEq, Eq, Structural)]
pub enum DownloadPhase {
    /// Looking for an existing artifact.
    Checking,
    /// Destination opened and request issued; awaiting the response.
    Requesting,
    /// Response accepted; consuming the byte stream.
    Streaming,
    /// The attempt ended.
    Finished(DownloadOutcome),
}

/// What the caller observed, handed to the machine as the next event.
#[derive(Copy, Clone, Debug)]
pub enum DownloadEvent {
    /// Whether the resolved destination path already exists.
    PathChecked(bool),
    /// The destination file could not be created.
    OpenFailed,
    /// The request could not connect.
    ConnectFailed,
    /// The response arrived, with its declared content length, if
    /// any.
    ResponseArrived(Option<u64>),
    /// Cancellation was requested before the next chunk was consumed.
    CancelObserved,
    /// The next chunk arrived, with its length in bytes.
    ChunkArrived(u64),
    /// The byte stream broke off with an error.
    StreamFailed,
    /// The chunk could not be appended to the destination file.
    WriteFailed,
    /// The byte stream ended normally.
    StreamEnded,
}

/// What the caller must do next.
#[derive(Copy, Clone, Debug, PartialEq, Eq, Structural)]
pub enum DownloadAction {
    /// Create (truncating) the destination file and issue the GET
    /// request.
    OpenAndRequest,
    /// Consume the next chunk of the byte stream.
    ReadChunk,
    /// Append the chunk just examined to the destination file, then
    /// consume the next one.
    WriteChunk,
    /// Nothing further: the attempt is over and [`Downloader::outcome`]
    /// says how.
    Stop,
}

/// The download state machine: the current phase and the shared
/// progress slot that observers read.
#[derive(Copy, Clone, Debug, PartialEq, Eq, Structural)]
pub struct Downloader {
    pub phase: DownloadPhase,
    pub progress: Progress,
}

impl Downloader {
    /// Progress accounting consistent with the phase.
    pub open spec fn wf(self) -> bool {
        match self.phase {
            DownloadPhase::Checking => self.progress.is_idle(),
            DownloadPhase::Requesting => self.progress.active && self.progress.downloaded == 0
                && self.progress.total_size == UNBOUNDED,
            DownloadPhase::Streaming => self.progress.active && self.progress.downloaded
                <= self.progress.total_size,
            DownloadPhase::Finished(_) => self.progress.is_idle(),
        }
    }

    /// Which events can arrive in which phase.
    pub open spec fn accepts(self, event: DownloadEvent) -> bool {
        match event {
            DownloadEvent::PathChecked(_) => self.phase == DownloadPhase::Checking,
            DownloadEvent::OpenFailed => self.phase == DownloadPhase::Requesting,
            DownloadEvent::ConnectFailed => self.phase == DownloadPhase::Requesting,
            DownloadEvent::ResponseArrived(_) => self.phase == DownloadPhase::Requesting,
            DownloadEvent::CancelObserved => self.phase == DownloadPhase::Streaming,
            DownloadEvent::ChunkArrived(_) => self.phase == DownloadPhase::Streaming,
            DownloadEvent::StreamFailed => self.phase == DownloadPhase::Streaming,
            DownloadEvent::WriteFailed => self.phase == DownloadPhase::Streaming,
            DownloadEvent::StreamEnded => self.phase == DownloadPhase::Streaming,
        }
    }

    /// The transition function: the machine after `event`, and the
    /// action the caller must take next.
    pub open spec fn step_spec(self, event: DownloadEvent) -> (Downloader, DownloadAction) {
        match event {
            DownloadEvent::PathChecked(exists) => if exists {
                (
                    Downloader {
                        phase: DownloadPhase::Finished(DownloadOutcome::AlreadyPresent),
                        progress: self.progress,
                    },
                    DownloadAction::Stop,
                )
            } else {
                (
                    Downloader {
                        phase: DownloadPhase::Requesting,
                        progress: Progress { active: true, ..self.progress },
                    },
                    DownloadAction::OpenAndRequest,
                )
            },
            DownloadEvent::OpenFailed => (
                self.finished(DownloadOutcome::Failed(WhisperError::StorageIo)),
                DownloadAction::Stop,
            ),
            DownloadEvent::ConnectFailed => (
                self.finished(DownloadOutcome::Failed(WhisperError::ConnectionFailed)),
                DownloadAction::Stop,
            ),
            DownloadEvent::ResponseArrived(content_length) => match content_length {
                Some(total) => (
                    Downloader {
                        phase: DownloadPhase::Streaming,
                        progress: Progress {
                            total_size: total,
                            downloaded: 0,
                            active: self.progress.active,
                        },
                    },
                    DownloadAction::ReadChunk,
                ),
                None => (
                    self.finished(DownloadOutcome::Failed(WhisperError::SizeUnavailable)),
                    DownloadAction::Stop,
                ),
            },
            DownloadEvent::CancelObserved => (
                self.finished(DownloadOutcome::Cancelled),
                DownloadAction::Stop,
            ),
            DownloadEvent::ChunkArrived(len) => (
                Downloader {
                    phase: self.phase,
                    progress: Progress {
                        downloaded: self.progress.clamped_add(len),
                        ..self.progress
                    },
                },
                DownloadAction::WriteChunk,
            ),
            DownloadEvent::StreamFailed => (
                self.finished(DownloadOutcome::Failed(WhisperError::StreamCorrupted)),
                DownloadAction::Stop,
            ),
            DownloadEvent::WriteFailed => (
                self.finished(DownloadOutcome::Failed(WhisperError::StorageIo)),
                DownloadAction::Stop,
            ),
            DownloadEvent::StreamEnded => (
                self.finished(DownloadOutcome::Completed),
                DownloadAction::Stop,
            ),
        }
    }

    /// The ended machine: the outcome recorded, the progress slot back
    /// at its idle values.
    pub open spec fn finished(self, outcome: DownloadOutcome) -> Downloader {
        Downloader {
            phase: DownloadPhase::Finished(outcome),
            progress: Progress { total_size: UNBOUNDED, downloaded: 0, active: false },
        }
    }

    /// A machine ready to check for an existing artifact.
    pub fn new() -> (r: Downloader)
        ensures
            r.phase == DownloadPhase::Checking,
            r.progress.is_idle(),
            r.wf(),
    {
        Downloader { phase: DownloadPhase::Checking, progress: Progress::idle() }
    }

    /// How the attempt ended, once the machine has stopped.
    pub fn outcome(&self) -> (r: Option<DownloadOutcome>)
        ensures
            r == (match self.phase {
                DownloadPhase::Finished(outcome) => Some(outcome),
                _ => None::<DownloadOutcome>,
            }),
    {
        match self.phase {
            DownloadPhase::Finished(outcome) => Some(outcome),
            _ => None,
        }
    }

    /// Feeds one observed event into the machine and returns what to
    /// do next.
    pub fn step(&mut self, event: DownloadEvent) -> (action: DownloadAction)
        requires
            old(self).wf(),
            old(self).accepts(event),
        ensures
            (*final(self), action) == old(self).step_spec(event),
            final(self).wf(),
    {
        match event {
            DownloadEvent::PathChecked(exists) => {
                if exists {
                    self.phase = DownloadPhase::Finished(DownloadOutcome::AlreadyPresent);
                    DownloadAction::Stop
                } else {
                    self.phase = DownloadPhase::Requesting;
                    self.progress.active = true;
                    DownloadAction::OpenAndRequest
                }
            },
            DownloadEvent::OpenFailed => {
                self.finish(DownloadOutcome::Failed(WhisperError::StorageIo))
            },
            DownloadEvent::ConnectFailed => {
                self.finish(DownloadOutcome::Failed(WhisperError::ConnectionFailed))
            },
            DownloadEvent::ResponseArrived(content_length) => {
                match content_length {
                    Some(total) => {
                        self.phase = DownloadPhase::Streaming;
                        self.progress.total_size = total;
                        self.progress.downloaded = 0;
                        DownloadAction::ReadChunk
                    },
                    None => self.finish(
                        DownloadOutcome::Failed(WhisperError::SizeUnavailable),
                    ),
                }
            },
            DownloadEvent::CancelObserved => self.finish(DownloadOutcome::Cancelled),
            DownloadEvent::ChunkArrived(len) => {
                let room = self.progress.total_size - self.progress.downloaded;
                if len > room {
                    self.progress.downloaded = self.progress.total_size;
                } else {
                    self.progress.downloaded = self.progress.downloaded + len;
                }
                DownloadAction::WriteChunk
            },
            DownloadEvent::StreamFailed => {
                self.finish(DownloadOutcome::Failed(WhisperError::StreamCorrupted))
            },
            DownloadEvent::WriteFailed => {
                self.finish(DownloadOutcome::Failed(WhisperError::StorageIo))
            },
            DownloadEvent::StreamEnded => self.finish(DownloadOutcome::Completed),
        }
    }

    /// Records the outcome and resets the progress slot to idle.
    fn finish(&mut self, outcome: DownloadOutcome) -> (action: DownloadAction)
        ensures
            *final(self) == old(self).finished(outcome),
            action == DownloadAction::Stop,
    {
        self.phase = DownloadPhase::Finished(outcome);
        self.progress = Progress::idle();
        DownloadAction::Stop
    }
}

impl Progress {
    /// `downloaded` advanced by `len`, clamped to never exceed
    /// `total_size`.
    pub open spec fn clamped_add(self, len: u64) -> u64 {
        if self.downloaded + len <= self.total_size {
            (self.downloaded + len) as u64
        } else {
            self.total_size
        }
    }
}

/// Acquisition is idempotent: when the artifact already exists, the
/// attempt finishes successfully at once and no action that touches
/// the network — or anything else — is requested.
pub proof fn lemma_idempotent_acquisition(d: Downloader)
    requires
        d.wf(),
        d.phase == DownloadPhase::Checking,
    ensures
        d.step_spec(DownloadEvent::PathChecked(true)).1 == DownloadAction::Stop,
        d.step_spec(DownloadEvent::PathChecked(true)).0.phase == DownloadPhase::Finished(
            DownloadOutcome::AlreadyPresent,
        ),
        d.step_spec(DownloadEvent::PathChecked(true)).0.progress.is_idle(),
{
}

/// Cancellation mid-download is clean: the progress state returns to
/// its idle values and the attempt ends as a success, not an error.
pub proof fn lemma_cancellation_is_clean(d: Downloader)
    requires
        d.wf(),
        d.phase == DownloadPhase::Streaming,
    ensures
        d.step_spec(DownloadEvent::CancelObserved).0.progress.is_idle(),
        d.step_spec(DownloadEvent::CancelObserved).0.phase == DownloadPhase::Finished(
            DownloadOutcome::Cancelled,
        ),
        d.step_spec(DownloadEvent::CancelObserved).1 == DownloadAction::Stop,
{
}

} // verus!
