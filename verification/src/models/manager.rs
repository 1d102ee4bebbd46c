//! Which model engine to use when a model is requested.

use vstd::prelude::*;

use crate::text::str_eq;

verus! {

/// How a model request is served.
#[derive(Debug, Clone, Copy, PartialEq, Eq, Structural)]
pub enum LoadDecision {
    /// The requested model is the one already loaded.
    ReuseLoaded,
    /// Load the requested model from its file.
    LoadFromFile,
    /// The model's file is not on disk.
    NotDownloaded,
}

/// A loaded engine of the same model is reused; otherwise the model is
/// loaded when its file exists.
pub open spec fn load_decision_of(loaded: Option<Seq<char>>, requested: Seq<char>, file_present: bool) -> LoadDecision {
    if loaded == Some(requested) {
        LoadDecision::ReuseLoaded
    } else if file_present {
        LoadDecision::LoadFromFile
    } else {
        LoadDecision::NotDownloaded
    }
}

/// Executable [`load_decision_of`].
pub fn load_decision(loaded: Option<&str>, requested: &str, file_present: bool) -> (r: LoadDecision)
    ensures
        r == load_decision_of(
            match loaded {
                Some(l) => Some(l@),
                None => None,
            },
            requested@,
            file_present,
        ),
{
    let same = match loaded {
        Some(l) => str_eq(l, requested),
        None => false,
    };
    if same {
        LoadDecision::ReuseLoaded
    } else if file_present {
        LoadDecision::LoadFromFile
    } else {
        LoadDecision::NotDownloaded
    }
}

} // verus!
