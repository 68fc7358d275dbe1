//! The acoustic model descriptor: which model variant to use, and its
//! deterministic cache file name and remote location.

use vstd::prelude::*;
use vstd::string::StringExecFns;

verus! {

/// An acoustic model variant: its size, and whether it is the
/// English-only specialization.
#[derive(Copy, Clone, PartialEq, Eq, PartialOrd, Ord, Debug, Structural)]
pub enum Model {
    TinyEnglish,
    Tiny,
    BaseEnglish,
    Base,
    SmallEnglish,
    Small,
    MediumEnglish,
    Medium,
    Large,
    LargeV1,
}

impl Model {
    /// The canonical key naming this variant.
    pub open spec fn key_spec(self) -> Seq<char> {
        match self {
            Model::TinyEnglish => "tiny.en"@,
            Model::Tiny => "tiny"@,
            Model::BaseEnglish => "base.en"@,
            Model::Base => "base"@,
            Model::SmallEnglish => "small.en"@,
            Model::Small => "small"@,
            Model::MediumEnglish => "medium.en"@,
            Model::Medium => "medium"@,
            Model::Large => "large"@,
            Model::LargeV1 => "large-v1"@,
        }
    }

    /// The canonical key naming this variant.
    pub fn key(&self) -> (r: &'static str)
        ensures
            r@ == self.key_spec(),
    {
        match self {
            Model::TinyEnglish => "tiny.en",
            Model::Tiny => "tiny",
            Model::BaseEnglish => "base.en",
            Model::Base => "base",
            Model::SmallEnglish => "small.en",
            Model::Small => "small",
            Model::MediumEnglish => "medium.en",
            Model::Medium => "medium",
            Model::Large => "large",
            Model::LargeV1 => "large-v1",
        }
    }

    /// The cache file name the artifact is stored under, in the
    /// process's working directory.
    pub open spec fn file_name_spec(self) -> Seq<char> {
        self.key_spec() + ".bin"@
    }

    /// The cache file name the artifact is stored under.
    pub fn file_name(&self) -> (r: String)
        ensures
            r@ == self.file_name_spec(),
    {
        String::from_str(self.key()).concat(".bin")
    }

    /// The remote location the artifact is fetched from, derived
    /// deterministically from the canonical key.
    pub open spec fn url_spec(self) -> Seq<char> {
        "https://huggingface.co/ggerganov/whisper.cpp/resolve/main/ggml-"@ + self.key_spec()
            + ".bin"@
    }

    /// The remote location the artifact is fetched from.
    pub fn url(&self) -> (r: String)
        ensures
            r@ == self.url_spec(),
    {
        String::from_str("https://huggingface.co/ggerganov/whisper.cpp/resolve/main/ggml-").concat(
            self.key(),
        ).concat(".bin")
    }
}

} // verus!
