//! Color grading command records. The grading math is floating-point work
//! in the host's pipeline; the scope data records live here.

use vstd::prelude::*;
use crate::commands::CommandResult;

verus! {

/// Histogram scope data: one 256-bin count per channel and for luminance.
#[derive(Debug, Clone)]
pub struct HistogramData {
    pub red: Vec<u32>,
    pub green: Vec<u32>,
    pub blue: Vec<u32>,
    pub luminance: Vec<u32>,
}

/// Vectorscope data: a square intensity plot of chrominance.
#[derive(Debug, Clone)]
pub struct VectorscopeData {
    pub data: Vec<Vec<u8>>,
    pub radius: u32,
}

/// RGB parade data: one waveform plot per channel.
#[derive(Debug, Clone)]
pub struct RGBParadeData {
    pub red: Vec<Vec<u8>>,
    pub green: Vec<Vec<u8>>,
    pub blue: Vec<Vec<u8>>,
}

/// Adjusts levels on a target. Applying the tonal curve is the host's
/// work; acknowledging the adjustment never fails.
pub fn adjust_levels(_target_id: String) -> (r: CommandResult<bool>)
    ensures
        r is Ok && r.unwrap(),
{
    Ok(true)
}

/// Matches color from a source to a target. The transfer runs in the
/// host's pipeline; acknowledging the job never fails.
pub fn color_match(_source_id: String, _target_id: String) -> (r: CommandResult<bool>)
    ensures
        r is Ok && r.unwrap(),
{
    Ok(true)
}

} // verus!
