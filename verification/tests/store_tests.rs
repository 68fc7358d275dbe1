use whisper_cli::download::{
    DownloadAction, DownloadEvent, DownloadOutcome, DownloadPhase, Downloader, UNBOUNDED,
};
use whisper_cli::error::{ErrorKind, WhisperError};
use whisper_cli::model::Model;

#[test]
fn model_keys() {
    assert_eq!(Model::TinyEnglish.key(), "tiny.en");
    assert_eq!(Model::Tiny.key(), "tiny");
    assert_eq!(Model::BaseEnglish.key(), "base.en");
    assert_eq!(Model::Base.key(), "base");
    assert_eq!(Model::SmallEnglish.key(), "small.en");
    assert_eq!(Model::Small.key(), "small");
    assert_eq!(Model::MediumEnglish.key(), "medium.en");
    assert_eq!(Model::Medium.key(), "medium");
    assert_eq!(Model::Large.key(), "large");
    assert_eq!(Model::LargeV1.key(), "large-v1");
}

#[test]
fn model_file_name_and_url() {
    assert_eq!(Model::Medium.file_name(), "medium.bin");
    assert_eq!(
        Model::Medium.url(),
        "https://huggingface.co/ggerganov/whisper.cpp/resolve/main/ggml-medium.bin"
    );
    assert_eq!(
        Model::LargeV1.url(),
        "https://huggingface.co/ggerganov/whisper.cpp/resolve/main/ggml-large-v1.bin"
    );
}

#[test]
fn acquisition_is_idempotent_when_artifact_exists() {
    let mut d = Downloader::new();
    let action = d.step(DownloadEvent::PathChecked(true));
    assert_eq!(action, DownloadAction::Stop);
    assert_eq!(d.outcome(), Some(DownloadOutcome::AlreadyPresent));
    assert_eq!(d.progress.total_size, UNBOUNDED);
    assert_eq!(d.progress.downloaded, 0);
    assert!(!d.progress.active);
}

#[test]
fn full_download_runs_to_completion() {
    let mut d = Downloader::new();
    assert_eq!(d.step(DownloadEvent::PathChecked(false)), DownloadAction::OpenAndRequest);
    assert!(d.progress.active);
    assert_eq!(
        d.step(DownloadEvent::ResponseArrived(Some(100))),
        DownloadAction::ReadChunk
    );
    assert_eq!(d.progress.total_size, 100);
    assert_eq!(d.step(DownloadEvent::ChunkArrived(60)), DownloadAction::WriteChunk);
    assert_eq!(d.progress.downloaded, 60);
    assert_eq!(d.step(DownloadEvent::ChunkArrived(40)), DownloadAction::WriteChunk);
    assert_eq!(d.progress.downloaded, 100);
    assert_eq!(d.step(DownloadEvent::StreamEnded), DownloadAction::Stop);
    assert_eq!(d.outcome(), Some(DownloadOutcome::Completed));
    assert_eq!(d.progress.total_size, UNBOUNDED);
    assert_eq!(d.progress.downloaded, 0);
    assert!(!d.progress.active);
}

#[test]
fn downloaded_bytes_are_clamped_to_total_size() {
    let mut d = Downloader::new();
    d.step(DownloadEvent::PathChecked(false));
    d.step(DownloadEvent::ResponseArrived(Some(50)));
    d.step(DownloadEvent::ChunkArrived(80));
    assert_eq!(d.progress.downloaded, 50);
}

#[test]
fn cancellation_resets_progress_and_is_not_an_error() {
    let mut d = Downloader::new();
    d.step(DownloadEvent::PathChecked(false));
    d.step(DownloadEvent::ResponseArrived(Some(1000)));
    d.step(DownloadEvent::ChunkArrived(10));
    let action = d.step(DownloadEvent::CancelObserved);
    assert_eq!(action, DownloadAction::Stop);
    assert_eq!(d.outcome(), Some(DownloadOutcome::Cancelled));
    assert_eq!(d.progress.total_size, UNBOUNDED);
    assert_eq!(d.progress.downloaded, 0);
    assert!(!d.progress.active);
}

#[test]
fn missing_content_length_fails_deterministically() {
    let mut d = Downloader::new();
    d.step(DownloadEvent::PathChecked(false));
    let action = d.step(DownloadEvent::ResponseArrived(None));
    assert_eq!(action, DownloadAction::Stop);
    assert_eq!(
        d.outcome(),
        Some(DownloadOutcome::Failed(WhisperError::SizeUnavailable))
    );
    assert!(!d.progress.active);
}

#[test]
fn connect_failure_surfaces_as_connectivity() {
    let mut d = Downloader::new();
    d.step(DownloadEvent::PathChecked(false));
    d.step(DownloadEvent::ConnectFailed);
    assert_eq!(
        d.outcome(),
        Some(DownloadOutcome::Failed(WhisperError::ConnectionFailed))
    );
    assert_eq!(WhisperError::ConnectionFailed.kind(), ErrorKind::Connectivity);
}

#[test]
fn stream_and_write_failures_are_typed() {
    let mut d = Downloader::new();
    d.step(DownloadEvent::PathChecked(false));
    d.step(DownloadEvent::ResponseArrived(Some(10)));
    d.step(DownloadEvent::StreamFailed);
    assert_eq!(
        d.outcome(),
        Some(DownloadOutcome::Failed(WhisperError::StreamCorrupted))
    );

    let mut d = Downloader::new();
    d.step(DownloadEvent::PathChecked(false));
    d.step(DownloadEvent::ResponseArrived(Some(10)));
    d.step(DownloadEvent::WriteFailed);
    assert_eq!(d.outcome(), Some(DownloadOutcome::Failed(WhisperError::StorageIo)));

    let mut d = Downloader::new();
    d.step(DownloadEvent::PathChecked(false));
    d.step(DownloadEvent::OpenFailed);
    assert_eq!(d.outcome(), Some(DownloadOutcome::Failed(WhisperError::StorageIo)));
}

#[test]
fn outcome_is_none_while_running() {
    let mut d = Downloader::new();
    assert_eq!(d.outcome(), None);
    d.step(DownloadEvent::PathChecked(false));
    assert_eq!(d.outcome(), None);
}

#[test]
fn error_kinds_cover_the_taxonomy() {
    assert_eq!(WhisperError::StreamCorrupted.kind(), ErrorKind::Connectivity);
    assert_eq!(WhisperError::SizeUnavailable.kind(), ErrorKind::Connectivity);
    assert_eq!(WhisperError::StorageIo.kind(), ErrorKind::StorageIo);
    assert_eq!(WhisperError::ModelLoadFailed.kind(), ErrorKind::ModelIntegrity);
    assert_eq!(WhisperError::StateCreationFailed.kind(), ErrorKind::DecodeFailure);
    assert_eq!(WhisperError::DecodeFailed.kind(), ErrorKind::DecodeFailure);
    assert_eq!(
        WhisperError::SegmentExtractionFailed.kind(),
        ErrorKind::DecodeFailure
    );
    assert_eq!(WhisperError::NoSpeechDetected.kind(), ErrorKind::EmptyResult);
    assert_eq!(WhisperError::ToolSpawnFailed.kind(), ErrorKind::ExternalToolFailure);
    assert_eq!(WhisperError::ToolExitFailed.kind(), ErrorKind::ExternalToolFailure);
}

#[test]
fn error_messages_name_the_failure() {
    assert_eq!(
        WhisperError::NoSpeechDetected.message(),
        "no speech was detected in the audio"
    );
    assert_eq!(
        WhisperError::ConnectionFailed.message(),
        "failed to connect while downloading the model"
    );
}

#[test]
fn download_phase_is_observable() {
    let mut d = Downloader::new();
    assert_eq!(d.phase, DownloadPhase::Checking);
    d.step(DownloadEvent::PathChecked(false));
    assert_eq!(d.phase, DownloadPhase::Requesting);
    d.step(DownloadEvent::ResponseArrived(Some(10)));
    assert_eq!(d.phase, DownloadPhase::Streaming);
}
