//! Audio command records. Sample processing is floating-point work in the
//! host's audio pipeline.

use vstd::prelude::*;
use crate::commands::CommandResult;
use crate::host;

verus! {

/// A plugin record, as the command layer exchanges it.
#[derive(Debug, Clone)]
pub struct VSTPlugin {
    pub id: String,
    pub name: String,
    pub path: String,
    pub version: String,
    pub is_instrument: bool,
}

/// Loads a plugin from a path. Loading the binary is the host's work; the
/// returned record carries a fresh id and the advertised fields.
pub fn load_vst_plugin(plugin_path: String) -> (r: CommandResult<VSTPlugin>)
    ensures
        r is Ok,
        r.unwrap().id@.len() == 36,
        r.unwrap().name@ == "Example Plugin"@,
        r.unwrap().path == plugin_path,
        r.unwrap().version@ == "1.0.0"@,
        !r.unwrap().is_instrument,
{
    Ok(VSTPlugin {
        id: host::new_id(),
        name: "Example Plugin".to_owned(),
        path: plugin_path,
        version: "1.0.0".to_owned(),
        is_instrument: false,
    })
}

/// Lists installed plugins. Scanning plugin directories is the host's
/// work; no plugins are reported here.
pub fn get_vst_plugins() -> (r: CommandResult<Vec<VSTPlugin>>)
    ensures
        r is Ok,
        r.unwrap()@.len() == 0,
{
    Ok(Vec::new())
}

/// Surround sound configuration.
#[derive(Debug, Clone)]
pub struct SurroundConfig {
    pub format: String,
    pub channel_mapping: Vec<String>,
}

/// Configures surround output. Routing channels is the host's work;
/// acknowledging the configuration never fails.
pub fn configure_surround_sound(_config: SurroundConfig) -> (r: CommandResult<bool>)
    ensures
        r is Ok && r.unwrap(),
{
    Ok(true)
}

} // verus!
