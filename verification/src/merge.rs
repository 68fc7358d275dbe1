//! The external merge pipeline's decisions: a two-step state machine
//! (combine a still image and the audio into a baseline video, then
//! burn the subtitle file into it) and the exact argument lists each
//! step hands to the external video toolchain.
//!
//! The caller spawns the external tool and waits on it; each step's
//! outcome is fed back in.  Each step must fully succeed before the
//! next starts; any failure ends the whole merge at once.  A trigger
//! while a merge is already running is a no-op.

use vstd::prelude::*;
use vstd::string::StringExecFns;
use crate::error::WhisperError;

verus! {

/// Where the merge pipeline stands.
#[derive(Copy, Clone, Debug, PartialEq, Eq, Structural)]
pub enum MergePhase {
    /// No merge is running.
    Idle,
    /// Step 1: combining the still image and the audio into the
    /// baseline video.
    CombiningBase,
    /// Step 2: burning the subtitle file into the baseline video.
    BurningSubtitles,
    /// Both steps succeeded.
    Done,
    /// A step failed; the merge stopped at once, leaving only the
    /// intermediate file the failing step began writing.
    Failed(WhisperError),
}

/// The merge pipeline state machine.
#[derive(Copy, Clone, Debug, PartialEq, Eq, Structural)]
pub struct MergePipeline {
    pub phase: MergePhase,
}

impl MergePipeline {
    /// Whether a merge is in flight: the busy flag observers read.
    pub open spec fn busy_spec(self) -> bool {
        self.phase == MergePhase::CombiningBase || self.phase == MergePhase::BurningSubtitles
    }

    /// Whether a merge is in flight.
    pub fn busy(&self) -> (r: bool)
        ensures
            r == self.busy_spec(),
    {
        match self.phase {
            MergePhase::CombiningBase => true,
            MergePhase::BurningSubtitles => true,
            _ => false,
        }
    }

    /// A pipeline with no merge running.
    pub fn new() -> (r: MergePipeline)
        ensures
            r.phase == MergePhase::Idle,
    {
        MergePipeline { phase: MergePhase::Idle }
    }

    /// A fire-and-forget trigger.  While a merge is already running
    /// the trigger is a no-op; without all three inputs nothing
    /// starts; otherwise step 1 begins.
    pub fn start(&mut self, inputs_ready: bool) -> (started: bool)
        ensures
            old(self).busy_spec() ==> *final(self) == *old(self) && !started,
            !old(self).busy_spec() && !inputs_ready ==> final(self).phase == MergePhase::Idle
                && !started,
            !old(self).busy_spec() && inputs_ready ==> final(self).phase
                == MergePhase::CombiningBase && started,
    {
        if self.busy() {
            false
        } else if !inputs_ready {
            self.phase = MergePhase::Idle;
            false
        } else {
            self.phase = MergePhase::CombiningBase;
            true
        }
    }

    /// Feeds back the outcome of the step that just ran: whether the
    /// external tool could be spawned, and whether it exited
    /// successfully.  Spawn failure and unsuccessful exit are
    /// distinguished; a success moves to the next step or finishes.
    pub fn on_step_result(&mut self, spawned: bool, exit_ok: bool) -> (done: bool)
        requires
            old(self).busy_spec(),
        ensures
            !spawned ==> final(self).phase == MergePhase::Failed(WhisperError::ToolSpawnFailed),
            spawned && !exit_ok ==> final(self).phase == MergePhase::Failed(
                WhisperError::ToolExitFailed,
            ),
            spawned && exit_ok && old(self).phase == MergePhase::CombiningBase ==> final(
                self).phase == MergePhase::BurningSubtitles,
            spawned && exit_ok && old(self).phase == MergePhase::BurningSubtitles ==> final(
                self).phase == MergePhase::Done,
            done == !final(self).busy_spec(),
    {
        if !spawned {
            self.phase = MergePhase::Failed(WhisperError::ToolSpawnFailed);
            true
        } else if !exit_ok {
            self.phase = MergePhase::Failed(WhisperError::ToolExitFailed);
            true
        } else if matches!(self.phase, MergePhase::CombiningBase) {
            self.phase = MergePhase::BurningSubtitles;
            false
        } else {
            self.phase = MergePhase::Done;
            true
        }
    }
}

/// The argument list of step 1: loop the still image, take the audio,
/// and encode the baseline video into `temp`.
pub open spec fn base_args_spec(audio: Seq<char>, image: Seq<char>, temp: Seq<char>) -> Seq<
    Seq<char>,
> {
    seq![
        "-loop"@,
        "1"@,
        "-i"@,
        image,
        "-i"@,
        audio,
        "-c:v"@,
        "libx264"@,
        "-c:a"@,
        "aac"@,
        "-b:a"@,
        "192k"@,
        "-pix_fmt"@,
        "yuv420p"@,
        "-y"@,
        "-shortest"@,
        temp,
    ]
}

/// The argument list of step 2: burn `subtitle` (a file name in the
/// working directory) into the baseline video `temp`, copying the
/// audio, writing `output`.
pub open spec fn burn_args_spec(subtitle: Seq<char>, output: Seq<char>, temp: Seq<char>) -> Seq<
    Seq<char>,
> {
    seq!["-i"@, temp, "-vf"@, "subtitles="@ + subtitle, "-c:a"@, "copy"@, "-y"@, output]
}

/// Builds the step-1 argument list.
pub fn base_args(audio: &str, image: &str, temp: &str) -> (r: Vec<String>)
    ensures
        r.deep_view() == base_args_spec(audio@, image@, temp@),
{
    let mut r: Vec<String> = Vec::new();
    r.push(String::from_str("-loop"));
    r.push(String::from_str("1"));
    r.push(String::from_str("-i"));
    r.push(String::from_str(image));
    r.push(String::from_str("-i"));
    r.push(String::from_str(audio));
    r.push(String::from_str("-c:v"));
    r.push(String::from_str("libx264"));
    r.push(String::from_str("-c:a"));
    r.push(String::from_str("aac"));
    r.push(String::from_str("-b:a"));
    r.push(String::from_str("192k"));
    r.push(String::from_str("-pix_fmt"));
    r.push(String::from_str("yuv420p"));
    r.push(String::from_str("-y"));
    r.push(String::from_str("-shortest"));
    r.push(String::from_str(temp));
    proof {
        assert(r.deep_view() =~~= base_args_spec(audio@, image@, temp@));
    }
    r
}

/// Builds the step-2 argument list.
pub fn burn_args(subtitle: &str, output: &str, temp: &str) -> (r: Vec<String>)
    ensures
        r.deep_view() == burn_args_spec(subtitle@, output@, temp@),
{
    let mut r: Vec<String> = Vec::new();
    r.push(String::from_str("-i"));
    r.push(String::from_str(temp));
    r.push(String::from_str("-vf"));
    r.push(String::from_str("subtitles=").concat(subtitle));
    r.push(String::from_str("-c:a"));
    r.push(String::from_str("copy"));
    r.push(String::from_str("-y"));
    r.push(String::from_str(output));
    proof {
        assert(r.deep_view() =~~= burn_args_spec(subtitle@, output@, temp@));
    }
    r
}

} // verus!
