use core::time::Duration;
use whisper_cli::transcript::{Format, Transcript, Utterance};

fn utt(start: i64, end: i64, text: &str) -> Utterance {
    Utterance { start, end, text: text.to_string() }
}

fn transcript(utterances: Vec<Utterance>, words: Option<Vec<Utterance>>) -> Transcript {
    Transcript {
        processing_time: Duration::from_millis(0),
        utterances,
        word_utterances: words,
    }
}

#[test]
fn srt_single_utterance() {
    let t = transcript(vec![utt(65, 325, " hello ")], None);
    assert_eq!(t.to_srt(), "1\n00:00:00,650 --> 00:00:03,250\nhello\n\n");
}

#[test]
fn vtt_single_utterance() {
    let t = transcript(vec![utt(65, 325, " hello ")], None);
    assert_eq!(t.to_vtt(), "WEBVTT\n\n00:00.650 --> 00:03.250\n- hello\n\n");
}

#[test]
fn lrc_single_utterance() {
    let t = transcript(vec![utt(65, 325, " hello ")], None);
    assert_eq!(t.to_lrc(), "[00:00.65]\n[00:00.65]hello\n");
}

#[test]
fn srt_cue_numbers_count_up_from_one() {
    let t = transcript(
        vec![utt(0, 100, "a"), utt(100, 200, "b"), utt(200, 300, "c")],
        None,
    );
    assert_eq!(
        t.to_srt(),
        "1\n00:00:00,000 --> 00:00:01,000\na\n\n\
         2\n00:00:01,000 --> 00:00:02,000\nb\n\n\
         3\n00:00:02,000 --> 00:00:03,000\nc\n\n"
    );
}

#[test]
fn srt_empty_transcript_renders_nothing() {
    let t = transcript(vec![], None);
    assert_eq!(t.to_srt(), "");
}

#[test]
fn vtt_empty_transcript_renders_header_only() {
    let t = transcript(vec![], None);
    assert_eq!(t.to_vtt(), "WEBVTT\n\n");
}

#[test]
fn lrc_empty_transcript_renders_nothing() {
    let t = transcript(vec![], None);
    assert_eq!(t.to_lrc(), "");
}

#[test]
fn renderers_prefer_word_utterances() {
    let t = transcript(
        vec![utt(0, 500, "segment text")],
        Some(vec![utt(0, 200, " word1"), utt(200, 500, " word2")]),
    );
    assert_eq!(
        t.to_srt(),
        "1\n00:00:00,000 --> 00:00:02,000\nword1\n\n\
         2\n00:00:02,000 --> 00:00:05,000\nword2\n\n"
    );
    assert_eq!(t.to_lrc(), "[00:00.00]\n[00:00.00]word1\n[00:02.00]\n[00:02.00]word2\n");
}

#[test]
fn empty_word_utterances_suppress_segment_output() {
    let t = transcript(vec![utt(0, 500, "segment text")], Some(vec![]));
    assert_eq!(t.to_srt(), "");
    assert_eq!(t.to_vtt(), "WEBVTT\n\n");
}

#[test]
fn long_timestamps_gain_digits() {
    // 100 hours: SRT widens the hours field, VTT and LRC widen minutes.
    let t = transcript(vec![utt(36000000, 36000001, "x")], None);
    assert_eq!(t.to_srt(), "1\n100:00:00,000 --> 100:00:00,010\nx\n\n");
    assert_eq!(t.to_vtt(), "WEBVTT\n\n6000:00.000 --> 6000:00.010\n- x\n\n");
}

#[test]
fn text_is_trimmed_of_surrounding_whitespace_only() {
    let t = transcript(vec![utt(0, 1, "\t a b \n")], None);
    assert_eq!(t.to_srt(), "1\n00:00:00,000 --> 00:00:00,010\na b\n\n");
}

#[test]
fn render_dispatches_by_format() {
    let t = transcript(vec![utt(65, 325, "hi")], None);
    assert_eq!(t.render(Format::Lrc), t.to_lrc());
    assert_eq!(t.render(Format::Srt), t.to_srt());
    assert_eq!(t.render(Format::Vtt), t.to_vtt());
}

#[test]
fn format_extensions() {
    assert_eq!(Format::Lrc.extension(), "lrc");
    assert_eq!(Format::Srt.extension(), "srt");
    assert_eq!(Format::Vtt.extension(), "vtt");
}
