//! Whisper model identities, files and download checks.

pub mod downloader;
pub mod manager;
pub mod registry;

use vstd::prelude::*;

pub use registry::{ModelInfo, ModelRegistry, ModelSize};

use crate::text::{push_str, string_of};

verus! {

/// The models that can be downloaded.
#[derive(Debug, Clone, Copy, PartialEq, Eq, Hash, Structural)]
pub enum ModelId {
    Tiny,
    TinyEn,
    Base,
    BaseEn,
    Small,
    SmallEn,
    Medium,
    MediumEn,
    LargeV2,
    LargeV3,
    LargeV3Turbo,
}

/// The catalog id of a model.
pub open spec fn model_id_str(m: ModelId) -> Seq<char> {
    match m {
        ModelId::Tiny => "tiny"@,
        ModelId::TinyEn => "tiny.en"@,
        ModelId::Base => "base"@,
        ModelId::BaseEn => "base.en"@,
        ModelId::Small => "small"@,
        ModelId::SmallEn => "small.en"@,
        ModelId::Medium => "medium"@,
        ModelId::MediumEn => "medium.en"@,
        ModelId::LargeV2 => "large-v2"@,
        ModelId::LargeV3 => "large-v3"@,
        ModelId::LargeV3Turbo => "large-v3-turbo"@,
    }
}

/// The file a model with catalog id `id` is stored in: `ggml-<id>.bin`.
pub open spec fn model_file_name_of(id: Seq<char>) -> Seq<char> {
    "ggml-"@ + id + ".bin"@
}

/// Executable [`model_file_name_of`].
pub fn model_file_name(id: &str) -> (r: String)
    ensures
        r@ == model_file_name_of(id@),
{
    let mut out: Vec<char> = Vec::new();
    push_str(&mut out, "ggml-");
    push_str(&mut out, id);
    push_str(&mut out, ".bin");
    assert(out@ =~= model_file_name_of(id@));
    string_of(out.as_slice())
}

impl ModelId {
    /// The model's catalog id.
    pub fn as_str(&self) -> (r: &'static str)
        ensures
            r@ == model_id_str(*self),
    {
        match self {
            ModelId::Tiny => "tiny",
            ModelId::TinyEn => "tiny.en",
            ModelId::Base => "base",
            ModelId::BaseEn => "base.en",
            ModelId::Small => "small",
            ModelId::SmallEn => "small.en",
            ModelId::Medium => "medium",
            ModelId::MediumEn => "medium.en",
            ModelId::LargeV2 => "large-v2",
            ModelId::LargeV3 => "large-v3",
            ModelId::LargeV3Turbo => "large-v3-turbo",
        }
    }

    /// The model's file name, `ggml-<id>.bin`.
    pub fn filename(&self) -> (r: String)
        ensures
            r@ == model_file_name_of(model_id_str(*self)),
    {
        model_file_name(self.as_str())
    }
}

} // verus!
