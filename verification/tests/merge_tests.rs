use whisper_cli::error::WhisperError;
use whisper_cli::merge::{base_args, burn_args, MergePhase, MergePipeline};

#[test]
fn both_steps_succeeding_finish_the_merge() {
    let mut p = MergePipeline::new();
    assert!(!p.busy());
    assert!(p.start(true));
    assert_eq!(p.phase, MergePhase::CombiningBase);
    assert!(p.busy());
    assert!(!p.on_step_result(true, true));
    assert_eq!(p.phase, MergePhase::BurningSubtitles);
    assert!(p.busy());
    assert!(p.on_step_result(true, true));
    assert_eq!(p.phase, MergePhase::Done);
    assert!(!p.busy());
}

#[test]
fn retrigger_while_busy_is_a_no_op() {
    let mut p = MergePipeline::new();
    assert!(p.start(true));
    let before = p.phase;
    assert!(!p.start(true));
    assert_eq!(p.phase, before);
}

#[test]
fn missing_inputs_start_nothing() {
    let mut p = MergePipeline::new();
    assert!(!p.start(false));
    assert_eq!(p.phase, MergePhase::Idle);
}

#[test]
fn first_step_failure_aborts_the_merge() {
    let mut p = MergePipeline::new();
    p.start(true);
    assert!(p.on_step_result(true, false));
    assert_eq!(p.phase, MergePhase::Failed(WhisperError::ToolExitFailed));
    assert!(!p.busy());
}

#[test]
fn spawn_failure_is_distinguished_from_exit_failure() {
    let mut p = MergePipeline::new();
    p.start(true);
    assert!(p.on_step_result(false, false));
    assert_eq!(p.phase, MergePhase::Failed(WhisperError::ToolSpawnFailed));
}

#[test]
fn second_step_failure_aborts_the_merge() {
    let mut p = MergePipeline::new();
    p.start(true);
    p.on_step_result(true, true);
    assert!(p.on_step_result(true, false));
    assert_eq!(p.phase, MergePhase::Failed(WhisperError::ToolExitFailed));
}

#[test]
fn base_args_match_the_toolchain_invocation() {
    let args = base_args("song.wav", "cover.png", "temp.mp4");
    let expect = [
        "-loop", "1", "-i", "cover.png", "-i", "song.wav", "-c:v", "libx264", "-c:a", "aac",
        "-b:a", "192k", "-pix_fmt", "yuv420p", "-y", "-shortest", "temp.mp4",
    ];
    let got: Vec<&str> = args.iter().map(|a| a.as_str()).collect();
    assert_eq!(got, expect);
}

#[test]
fn burn_args_match_the_toolchain_invocation() {
    let args = burn_args("song.srt", "song.mp4", "temp.mp4");
    let expect = [
        "-i", "temp.mp4", "-vf", "subtitles=song.srt", "-c:a", "copy", "-y", "song.mp4",
    ];
    let got: Vec<&str> = args.iter().map(|a| a.as_str()).collect();
    assert_eq!(got, expect);
}
