//! Deterministic, pure rendering of a [`Transcript`] into the LRC,
//! SRT and VTT subtitle text formats.
//!
//! Each renderer works on the transcript's word-level utterances when
//! present, else on its segment-level ones, and emits each fragment's
//! timestamps and trimmed text byte-for-byte as the format requires.
//! The LRC renderer emits the start timestamp twice per fragment, once
//! bare and once carrying the text; pairing start with end instead
//! would be an equally standard convention, but one was chosen here
//! and is applied consistently.

use vstd::prelude::*;
use vstd::string::StringExecFns;
use crate::text::{spec_trim, trim};
use crate::timecode::{
    lrc_timestamp, push_decimal, push_lrc_timestamp, push_srt_timestamp, push_vtt_timestamp,
    spec_decimal, srt_timestamp, vtt_timestamp,
};
use crate::transcript::{Format, Transcript, UtteranceView};

verus! {

/// The two LRC lines for one fragment: the bare start timestamp, then
/// the start timestamp with the trimmed text.
pub open spec fn lrc_fragment(u: UtteranceView) -> Seq<char> {
    lrc_timestamp(u.start) + "\n"@ + lrc_timestamp(u.start) + spec_trim(u.text) + "\n"@
}

/// The LRC rendering of `frags`, in order.
pub open spec fn lrc_render(frags: Seq<UtteranceView>) -> Seq<char>
    decreases frags.len(),
{
    if frags.len() == 0 {
        Seq::empty()
    } else {
        lrc_render(frags.drop_last()) + lrc_fragment(frags.last())
    }
}

/// One SRT cue: its 1-indexed number, the start and end timestamps,
/// the trimmed text, and a blank separator line.
pub open spec fn srt_cue(number: int, u: UtteranceView) -> Seq<char> {
    spec_decimal(number as nat, 1) + "\n"@ + srt_timestamp(u.start) + " --> "@ + srt_timestamp(
        u.end,
    ) + "\n"@ + spec_trim(u.text) + "\n\n"@
}

/// The SRT rendering of `frags` with cue numbers counted from
/// `first`.
pub open spec fn srt_render_from(frags: Seq<UtteranceView>, first: int) -> Seq<char>
    decreases frags.len(),
{
    if frags.len() == 0 {
        Seq::empty()
    } else {
        srt_render_from(frags.drop_last(), first) + srt_cue(
            first + frags.len() - 1,
            frags.last(),
        )
    }
}

/// The SRT rendering of `frags`: cues numbered from 1.
pub open spec fn srt_render(frags: Seq<UtteranceView>) -> Seq<char> {
    srt_render_from(frags, 1)
}

/// One VTT cue: start and end timestamps, the trimmed text on a
/// dashed line, and a blank separator line.
pub open spec fn vtt_fragment(u: UtteranceView) -> Seq<char> {
    vtt_timestamp(u.start) + " --> "@ + vtt_timestamp(u.end) + "\n- "@ + spec_trim(u.text)
        + "\n\n"@
}

/// The VTT cues for `frags`, in order, without the file header.
pub open spec fn vtt_body(frags: Seq<UtteranceView>) -> Seq<char>
    decreases frags.len(),
{
    if frags.len() == 0 {
        Seq::empty()
    } else {
        vtt_body(frags.drop_last()) + vtt_fragment(frags.last())
    }
}

/// The VTT rendering of `frags`: the fixed header, a blank line, then
/// the cues.
pub open spec fn vtt_render(frags: Seq<UtteranceView>) -> Seq<char> {
    "WEBVTT\n\n"@ + vtt_body(frags)
}

impl Transcript {
    /// Renders the transcript as LRC text.
    pub fn to_lrc(&self) -> (r: String)
        requires
            self.fragments_wf(),
        ensures
            r@ == lrc_render(self.fragments()),
    {
        let frags = match &self.word_utterances {
            Some(words) => words,
            None => &self.utterances,
        };
        let ghost gfrags = self.fragments();
        let mut out = String::new();
        let mut k: usize = 0;
        while k < frags.len()
            invariant
                self.fragments_wf(),
                gfrags == self.fragments(),
                frags.deep_view() == gfrags,
                k <= frags@.len() == gfrags.len(),
                out@ == lrc_render(gfrags.take(k as int)),
            decreases frags@.len() - k,
        {
            let u = &frags[k];
            proof {
                assert(gfrags[k as int].wf());
            }
            push_lrc_timestamp(&mut out, u.start);
            out.append("\n");
            push_lrc_timestamp(&mut out, u.start);
            out.append(trim(u.text.as_str()));
            out.append("\n");
            proof {
                assert(gfrags.take(k + 1).drop_last() =~= gfrags.take(k as int));
                assert(gfrags.take(k + 1).last() == gfrags[k as int]);
                assert(out@ =~= lrc_render(gfrags.take(k + 1)));
            }
            k = k + 1;
        }
        proof {
            assert(gfrags.take(gfrags.len() as int) =~= gfrags);
        }
        out
    }

    /// Renders the transcript as SRT text, cues numbered from 1.
    pub fn to_srt(&self) -> (r: String)
        requires
            self.fragments_wf(),
        ensures
            r@ == srt_render(self.fragments()),
    {
        let frags = match &self.word_utterances {
            Some(words) => words,
            None => &self.utterances,
        };
        let ghost gfrags = self.fragments();
        let mut out = String::new();
        let mut k: usize = 0;
        while k < frags.len()
            invariant
                self.fragments_wf(),
                gfrags == self.fragments(),
                frags.deep_view() == gfrags,
                k <= frags@.len() == gfrags.len(),
                out@ == srt_render_from(gfrags.take(k as int), 1),
            decreases frags@.len() - k,
        {
            let u = &frags[k];
            proof {
                assert(gfrags[k as int].wf());
            }
            let number: u64 = k as u64 + 1;
            push_decimal(&mut out, number, 1);
            out.append("\n");
            push_srt_timestamp(&mut out, u.start);
            out.append(" --> ");
            push_srt_timestamp(&mut out, u.end);
            out.append("\n");
            out.append(trim(u.text.as_str()));
            out.append("\n\n");
            proof {
                assert(gfrags.take(k + 1).drop_last() =~= gfrags.take(k as int));
                assert(gfrags.take(k + 1).last() == gfrags[k as int]);
                assert(out@ =~= srt_render_from(gfrags.take(k + 1), 1));
            }
            k = k + 1;
        }
        proof {
            assert(gfrags.take(gfrags.len() as int) =~= gfrags);
        }
        out
    }

    /// Renders the transcript as VTT text: the `WEBVTT` header, then
    /// one cue per fragment.
    pub fn to_vtt(&self) -> (r: String)
        requires
            self.fragments_wf(),
        ensures
            r@ == vtt_render(self.fragments()),
    {
        let frags = match &self.word_utterances {
            Some(words) => words,
            None => &self.utterances,
        };
        let ghost gfrags = self.fragments();
        let mut out = String::from_str("WEBVTT\n\n");
        let mut k: usize = 0;
        while k < frags.len()
            invariant
                self.fragments_wf(),
                gfrags == self.fragments(),
                frags.deep_view() == gfrags,
                k <= frags@.len() == gfrags.len(),
                out@ == "WEBVTT\n\n"@ + vtt_body(gfrags.take(k as int)),
            decreases frags@.len() - k,
        {
            let u = &frags[k];
            proof {
                assert(gfrags[k as int].wf());
            }
            push_vtt_timestamp(&mut out, u.start);
            out.append(" --> ");
            push_vtt_timestamp(&mut out, u.end);
            out.append("\n- ");
            out.append(trim(u.text.as_str()));
            out.append("\n\n");
            proof {
                assert(gfrags.take(k + 1).drop_last() =~= gfrags.take(k as int));
                assert(gfrags.take(k + 1).last() == gfrags[k as int]);
                assert(out@ =~= "WEBVTT\n\n"@ + vtt_body(gfrags.take(k + 1)));
            }
            k = k + 1;
        }
        proof {
            assert(gfrags.take(gfrags.len() as int) =~= gfrags);
        }
        out
    }

    /// Renders the transcript in the requested format.
    pub fn render(&self, format: Format) -> (r: String)
        requires
            self.fragments_wf(),
        ensures
            format == Format::Lrc ==> r@ == lrc_render(self.fragments()),
            format == Format::Srt ==> r@ == srt_render(self.fragments()),
            format == Format::Vtt ==> r@ == vtt_render(self.fragments()),
    {
        match format {
            Format::Lrc => self.to_lrc(),
            Format::Srt => self.to_srt(),
            Format::Vtt => self.to_vtt(),
        }
    }
}

/// The cue numbers of an SRT rendering are exactly `1..=n` in
/// emission order, with no gaps or repeats: the output is the
/// concatenation of the cues for fragments `0..n`, the `k`-th
/// carrying cue number `k + 1`.
pub proof fn lemma_srt_cue_numbers(frags: Seq<UtteranceView>)
    ensures
        srt_render(frags) == Seq::new(frags.len(), |k: int| srt_cue(k + 1, frags[k])).flatten(),
        srt_render(frags) == Seq::new(frags.len(), |k: int| srt_cue(k + 1, frags[k])).flatten_alt(),
    decreases frags.len(),
{
    let blocks = Seq::new(frags.len(), |k: int| srt_cue(k + 1, frags[k]));
    blocks.lemma_flatten_and_flatten_alt_are_equivalent();
    if frags.len() == 0 {
        assert(srt_render(frags) =~= blocks.flatten_alt());
    } else {
        let prev = frags.drop_last();
        lemma_srt_cue_numbers(prev);
        let prev_blocks = Seq::new(prev.len(), |k: int| srt_cue(k + 1, prev[k]));
        assert(blocks.drop_last() =~= prev_blocks);
        assert(blocks.last() == srt_cue(frags.len() as int, frags.last()));
        assert(srt_render(frags) == srt_render_from(prev, 1) + srt_cue(
            frags.len() as int,
            frags.last(),
        ));
    }
}

} // verus!
