//! Audio-side records. Sample processing (mixing, effects, metering) is
//! floating-point work that runs in the host's audio pipeline; the engine
//! keeps the plugin records and analyzer entry points here.

use vstd::prelude::*;
use crate::host;

verus! {

/// Waveform analysis entry point; the sample math runs in the host's audio
/// pipeline.
pub struct WaveformAnalyzer;

/// A loaded plugin record.
#[derive(Debug)]
pub struct VSTPlugin {
    pub id: String,
    pub name: String,
    pub path: std::path::PathBuf,
}

impl VSTPlugin {
    /// Records a plugin at a path with a fresh id. Loading the binary and
    /// scanning its capabilities is the host's work.
    pub fn load(path: std::path::PathBuf) -> (r: Result<Self, String>)
        ensures
            r is Ok,
            r.unwrap().id@.len() == 36,
            r.unwrap().name@ == "Plugin"@,
            r.unwrap().path == path,
    {
        Ok(VSTPlugin {
            id: host::new_id(),
            name: "Plugin".to_owned(),
            path,
        })
    }
}

} // verus!
