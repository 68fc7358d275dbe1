//! The transcription engine's pure core: the configuration of one
//! inference run, and the reconstruction of a hierarchical transcript
//! (segments containing tokens) from the decoder's flat output.
//!
//! The decode itself is an external capability: given audio samples
//! and parameters it produces N segments, each with start/end offsets,
//! text, and per-token sub-spans.  The caller extracts those into
//! [`RawSegment`] values and hands them to [`assemble_transcript`],
//! which is verified for every value they may take.

use vstd::prelude::*;
use core::time::Duration;
use crate::error::WhisperError;
use crate::lang::Language;
use crate::text::spec_is_control;
use crate::transcript::{Transcript, Utterance, UtteranceView};

verus! {

/// The mathematical value of one decoded segment: its offsets and
/// text, and its tokens in decode order.
#[verifier::ext_equal]
pub ghost struct RawSegmentView {
    pub start: int,
    pub end: int,
    pub text: Seq<char>,
    pub tokens: Seq<UtteranceView>,
}

/// One segment as the decoder reports it: centisecond offsets, text,
/// and the per-token sub-spans in decode order.
#[derive(Debug)]
pub struct RawSegment {
    pub start: i64,
    pub end: i64,
    pub text: String,
    pub tokens: Vec<Utterance>,
}

impl View for RawSegment {
    type V = RawSegmentView;

    open spec fn view(&self) -> RawSegmentView {
        RawSegmentView {
            start: self.start as int,
            end: self.end as int,
            text: self.text@,
            tokens: self.tokens.deep_view(),
        }
    }
}

impl DeepView for RawSegment {
    type V = RawSegmentView;

    open spec fn deep_view(&self) -> RawSegmentView {
        self.view()
    }
}

/// The configuration of one inference run.
#[derive(Copy, Clone, Debug, PartialEq, Eq, Structural)]
pub struct DecodeParams {
    /// How many decoding hypotheses to keep; 1 means greedy decoding.
    pub best_of: i32,
    /// Whether to translate into English rather than transcribe.
    pub translate: bool,
    /// Diagnostic output toggles; all suppressed.
    pub print_special: bool,
    pub print_progress: bool,
    pub print_realtime: bool,
    pub print_timestamps: bool,
    /// Whether the decoder should time-stamp individual tokens.
    pub token_timestamps: bool,
    /// The target language, or automatic detection.
    pub language: Language,
}

impl DecodeParams {
    /// The configuration for one transcription: greedy decoding
    /// (single best hypothesis), all diagnostic output suppressed,
    /// the translation toggle as requested, and token timestamps
    /// mirroring the word-timestamp request.
    pub fn new(language: Language, translate: bool, word_timestamps: bool) -> (r: DecodeParams)
        ensures
            r.best_of == 1,
            r.translate == translate,
            !r.print_special,
            !r.print_progress,
            !r.print_realtime,
            !r.print_timestamps,
            r.token_timestamps == word_timestamps,
            r.language == language,
    {
        DecodeParams {
            best_of: 1,
            translate,
            print_special: false,
            print_progress: false,
            print_realtime: false,
            print_timestamps: false,
            token_timestamps: word_timestamps,
            language,
        }
    }
}

/// The segment-level utterance a decoded segment contributes.
pub open spec fn segment_utterance(s: RawSegmentView) -> UtteranceView {
    UtteranceView { start: s.start, end: s.end, text: s.text }
}

/// The segment-level utterances of `segs`, in decode order.
pub open spec fn segment_utterances(segs: Seq<RawSegmentView>) -> Seq<UtteranceView> {
    segs.map_values(|s: RawSegmentView| segment_utterance(s))
}

/// The tokens of one segment that survive control-token filtering, in
/// token order.
pub open spec fn filter_tokens(toks: Seq<UtteranceView>) -> Seq<UtteranceView>
    decreases toks.len(),
{
    if toks.len() == 0 {
        Seq::empty()
    } else {
        filter_tokens(toks.drop_last()) + if spec_is_control(toks.last().text) {
            Seq::empty()
        } else {
            seq![toks.last()]
        }
    }
}

/// The word-level utterances of `segs`: surviving tokens in
/// segment-then-token order.
pub open spec fn collect_words(segs: Seq<RawSegmentView>) -> Seq<UtteranceView>
    decreases segs.len(),
{
    if segs.len() == 0 {
        Seq::empty()
    } else {
        collect_words(segs.drop_last()) + filter_tokens(segs.last().tokens)
    }
}

/// Assembles the transcript from the decoder's flat output.
///
/// Zero segments are reported as the `NoSpeechDetected` error, never
/// as an empty transcript.  Otherwise the transcript holds one
/// utterance per segment in decode order and, exactly when word
/// timestamps were requested, one word-level utterance per surviving
/// token in segment-then-token order; tokens whose text begins with
/// the internal control-token marker are skipped.
pub fn assemble_transcript(
    segments: Vec<RawSegment>,
    word_timestamps: bool,
    processing_time: Duration,
) -> (r: Result<Transcript, WhisperError>)
    ensures
        segments@.len() == 0 ==> r == Err::<Transcript, WhisperError>(
            WhisperError::NoSpeechDetected,
        ),
        segments@.len() > 0 ==> (r matches Ok(t) && {
            &&& t.processing_time == processing_time
            &&& t.utterances.deep_view() == segment_utterances(segments.deep_view())
            &&& word_timestamps ==> (t.word_utterances matches Some(words) && words.deep_view()
                == collect_words(segments.deep_view()))
            &&& !word_timestamps ==> t.word_utterances is None
        }),
{
    if segments.len() == 0 {
        return Err(WhisperError::NoSpeechDetected);
    }
    let ghost gsegs = segments.deep_view();
    let mut utterances: Vec<Utterance> = Vec::new();
    let mut words: Vec<Utterance> = Vec::new();
    let n = segments.len();
    let mut i: usize = 0;
    while i < n
        invariant
            i <= n == segments@.len(),
            gsegs == segments.deep_view(),
            gsegs.len() == segments@.len(),
            utterances.deep_view() == segment_utterances(gsegs.take(i as int)),
            word_timestamps ==> words.deep_view() == collect_words(gsegs.take(i as int)),
            !word_timestamps ==> words@.len() == 0,
        decreases n - i,
    {
        let seg = &segments[i];
        proof {
            assert(utterances.deep_view().len() == utterances@.len());
        }
        utterances.push(Utterance { start: seg.start, end: seg.end, text: seg.text.clone() });
        proof {
            assert(gsegs.take(i + 1).drop_last() =~= gsegs.take(i as int));
            let lhs = utterances.deep_view();
            let rhs = segment_utterances(gsegs.take(i + 1));
            assert(lhs.len() == i + 1);
            assert(seg.deep_view() == gsegs[i as int]);
            assert(lhs[i as int] == segment_utterance(gsegs[i as int]));
            assert forall|k: int| 0 <= k < i implies lhs[k] == rhs[k] by {
                assert(lhs[k] == segment_utterances(gsegs.take(i as int))[k]);
                assert(rhs[k] == segment_utterance(gsegs.take(i + 1)[k]));
            }
            assert(lhs =~~= rhs);
        }
        if word_timestamps {
            let m = seg.tokens.len();
            let mut j: usize = 0;
            while j < m
                invariant
                    j <= m == seg.tokens@.len(),
                    seg.deep_view() == gsegs[i as int],
                    0 <= i < gsegs.len(),
                    words.deep_view() == collect_words(gsegs.take(i as int)) + filter_tokens(
                        gsegs[i as int].tokens.take(j as int),
                    ),
                decreases m - j,
            {
                let tok = &seg.tokens[j];
                proof {
                    assert(gsegs[i as int].tokens.take(j + 1).drop_last() =~= gsegs[
                        i as int
                    ].tokens.take(j as int));
                    assert(gsegs[i as int].tokens.take(j + 1).last() == tok.deep_view());
                }
                if !crate::text::is_control_token(tok.text.as_str()) {
                    let ghost pre = words.deep_view();
                    proof {
                        assert(pre.len() == words@.len());
                    }
                    words.push(
                        Utterance { start: tok.start, end: tok.end, text: tok.text.clone() },
                    );
                    proof {
                        let lhs = words.deep_view();
                        assert(lhs[pre.len() as int] == tok.deep_view());
                        assert(forall|k: int| 0 <= k < pre.len() ==> #[trigger] lhs[k] == pre[k]);
                        assert(lhs =~~= collect_words(gsegs.take(i as int)) + filter_tokens(
                            gsegs[i as int].tokens.take(j + 1),
                        ));
                    }
                } else {
                    proof {
                        assert(words.deep_view() =~~= collect_words(gsegs.take(i as int))
                            + filter_tokens(gsegs[i as int].tokens.take(j + 1)));
                    }
                }
                j = j + 1;
            }
            proof {
                assert(gsegs[i as int].tokens.take(m as int) =~= gsegs[i as int].tokens);
                assert(gsegs.take(i + 1).drop_last() =~= gsegs.take(i as int));
                assert(gsegs.take(i + 1).last() == gsegs[i as int]);
                assert(words.deep_view() == collect_words(gsegs.take(i + 1)));
            }
        } else {
            proof {
                assert(gsegs.take(i + 1).drop_last() =~= gsegs.take(i as int));
                assert(gsegs.take(i + 1).last() == gsegs[i as int]);
            }
        }
        i = i + 1;
    }
    proof {
        assert(gsegs.take(gsegs.len() as int) =~= gsegs);
    }
    Ok(
        Transcript {
            processing_time,
            utterances,
            word_utterances: if word_timestamps {
                Some(words)
            } else {
                None
            },
        },
    )
}

/// The tokens surviving the filter of one segment never begin with
/// the control-token marker.
proof fn lemma_filter_tokens_no_control(toks: Seq<UtteranceView>)
    ensures
        forall|i: int|
            0 <= i < filter_tokens(toks).len() ==> !spec_is_control(
                (#[trigger] filter_tokens(toks)[i]).text,
            ),
    decreases toks.len(),
{
    if toks.len() > 0 {
        lemma_filter_tokens_no_control(toks.drop_last());
        let kept = filter_tokens(toks.drop_last());
        assert forall|i: int| 0 <= i < filter_tokens(toks).len() implies !spec_is_control(
            (#[trigger] filter_tokens(toks)[i]).text,
        ) by {
            if i < kept.len() {
                assert(filter_tokens(toks)[i] == kept[i]);
            } else {
                assert(filter_tokens(toks)[i] == toks.last());
            }
        }
    }
}

/// Token filtering: a token whose text begins with the control-token
/// marker never appears among the word-level utterances, even where
/// it is a segment's only token.
pub proof fn lemma_no_control_tokens(segs: Seq<RawSegmentView>)
    ensures
        forall|i: int|
            0 <= i < collect_words(segs).len() ==> !spec_is_control(
                (#[trigger] collect_words(segs)[i]).text,
            ),
    decreases segs.len(),
{
    if segs.len() > 0 {
        lemma_no_control_tokens(segs.drop_last());
        lemma_filter_tokens_no_control(segs.last().tokens);
        let earlier = collect_words(segs.drop_last());
        let tail = filter_tokens(segs.last().tokens);
        assert forall|i: int| 0 <= i < collect_words(segs).len() implies !spec_is_control(
            (#[trigger] collect_words(segs)[i]).text,
        ) by {
            if i < earlier.len() {
                assert(collect_words(segs)[i] == earlier[i]);
            } else {
                assert(collect_words(segs)[i] == tail[i - earlier.len()]);
            }
        }
    }
}

} // verus!
