//! The configuration consumed by the lifecycle operations.
//!
//! Loading and layering configuration files is a concern of the surrounding
//! program; the operations themselves only ever read one value from it: the
//! optional data directory.

use vstd::prelude::*;

verus! {

/// The program configuration as the lifecycle operations see it.
#[derive(Debug, Clone)]
pub struct Config {
    /// The location to store the actual data, if one is configured.
    pub data_dir: Option<String>,
}

impl Config {
    /// A configuration with no data directory.
    pub fn new() -> (r: Config)
        ensures
            r.data_dir is None,
    {
        Config { data_dir: None }
    }

    /// Sets [`Self::data_dir`].
    pub fn add_data_dir(&mut self, path: String)
        ensures
            final(self).data_dir == Some(path),
    {
        self.data_dir = Some(path);
    }
}

impl Default for Config {
    /// Same as [`Config::new`]: no data directory.
    fn default() -> (r: Config)
        ensures
            r.data_dir is None,
    {
        Config { data_dir: None }
    }
}

} // verus!
