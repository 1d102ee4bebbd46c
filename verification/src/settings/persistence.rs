//! Where the configuration file lives, and what a load settles on.

use vstd::prelude::*;

use std::path::PathBuf;

use super::config::AppConfig;

verus! {

/// Reads and writes the configuration at one file path.
pub struct ConfigPersistence {
    path: PathBuf,
}

impl ConfigPersistence {
    /// The configuration file this store reads and writes.
    pub closed spec fn location(&self) -> PathBuf {
        self.path
    }

    /// A store for the configuration file at `path`.
    pub fn new(path: PathBuf) -> (r: Self)
        ensures
            r.location() == path,
    {
        ConfigPersistence { path }
    }

    /// The configuration file this store reads and writes.
    pub fn path(&self) -> (r: &PathBuf)
        ensures
            *r == self.location(),
    {
        &self.path
    }

    /// The configuration a load yields: the parsed file where there is a
    /// file that parses, and the defaults otherwise.
    pub fn config_or_default(parsed: Option<AppConfig>) -> (r: AppConfig)
        ensures
            parsed matches Some(c) ==> r == c,
            parsed is None ==> {
                &&& r.general.has_defaults()
                &&& r.audio.has_defaults()
                &&& r.whisper.has_defaults()
                &&& r.chinese.has_defaults()
                &&& r.output.has_defaults()
                &&& r.context.has_defaults()
                &&& r.history.has_defaults()
                &&& r.modules.is_all_enabled()
            },
    {
        match parsed {
            Some(c) => c,
            None => AppConfig::default(),
        }
    }
}

} // verus!
