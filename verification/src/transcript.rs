//! The in-memory result of one transcription: ordered time-coded
//! utterances, optional word-level utterances, and the processing
//! duration; and the choice of subtitle output format.

use vstd::prelude::*;
use core::time::Duration;

verus! {

/// The mathematical value of an utterance: centisecond start and end
/// offsets and the text, as a character sequence.
#[verifier::ext_equal]
pub ghost struct UtteranceView {
    pub start: int,
    pub end: int,
    pub text: Seq<char>,
}

impl UtteranceView {
    /// A valid utterance starts no earlier than the audio and ends no
    /// earlier than it starts.
    pub open spec fn wf(self) -> bool {
        0 <= self.start <= self.end
    }
}

/// One time-coded text fragment: a recognized segment, or a single
/// recognized token.  `start` and `end` are centiseconds from the
/// beginning of the audio.
#[derive(Debug)]
pub struct Utterance {
    pub start: i64,
    pub end: i64,
    pub text: String,
}

impl View for Utterance {
    type V = UtteranceView;

    open spec fn view(&self) -> UtteranceView {
        UtteranceView { start: self.start as int, end: self.end as int, text: self.text@ }
    }
}

impl DeepView for Utterance {
    type V = UtteranceView;

    open spec fn deep_view(&self) -> UtteranceView {
        self.view()
    }
}

/// The complete output of one transcription call.
#[derive(Debug)]
pub struct Transcript {
    /// Wall-clock time the whole decode took.
    pub processing_time: Duration,
    /// One entry per recognized segment, in decode order.
    pub utterances: Vec<Utterance>,
    /// One entry per surviving recognized token, in segment-then-token
    /// order; present exactly when word timestamps were requested.
    pub word_utterances: Option<Vec<Utterance>>,
}

impl Transcript {
    /// The fragments a render call works on: the word-level utterances
    /// when present, else the segment-level ones.  The choice is made
    /// once per render and applies uniformly.
    pub open spec fn fragments(self) -> Seq<UtteranceView> {
        match self.word_utterances {
            Some(words) => words.deep_view(),
            None => self.utterances.deep_view(),
        }
    }

    /// Every fragment a render call would see is a valid utterance.
    pub open spec fn fragments_wf(self) -> bool {
        forall|i: int| 0 <= i < self.fragments().len() ==> (#[trigger] self.fragments()[i]).wf()
    }
}

/// A subtitle output format.
#[derive(Clone, Copy, Debug, PartialEq, Eq, Structural)]
pub enum Format {
    Lrc,
    Srt,
    Vtt,
}

impl Format {
    /// The file extension used when persisting this format.
    pub open spec fn extension_spec(self) -> Seq<char> {
        match self {
            Format::Lrc => "lrc"@,
            Format::Srt => "srt"@,
            Format::Vtt => "vtt"@,
        }
    }

    /// The file extension used when persisting this format.
    pub fn extension(&self) -> (r: &'static str)
        ensures
            r@ == self.extension_spec(),
    {
        match self {
            Format::Lrc => "lrc",
            Format::Srt => "srt",
            Format::Vtt => "vtt",
        }
    }
}

} // verus!
