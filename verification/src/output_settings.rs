//! Options that the operator sets for the filters of an output.
use vstd::prelude::*;

verus! {

/// How a frame is fitted to the output size.
#[derive(Clone, Copy, Debug, PartialEq, Eq, Structural)]
pub enum ScalingMode {
    Stretch,
    ScaleAndPad,
    Crop,
}

/// Options of the QSV deinterlacer.
#[derive(Debug)]
pub struct DeinterlaceQsvOptions {
    /// The `deinterlace_qsv` mode; ffmpeg's advanced mode when unset.
    pub mode: Option<String>,
}

impl Default for DeinterlaceQsvOptions {
    fn default() -> (r: DeinterlaceQsvOptions)
        ensures
            r.mode is None,
    {
        DeinterlaceQsvOptions { mode: None }
    }
}

/// Per-filter options that the planners pass on to the filters they choose.
#[derive(Debug)]
pub struct VideoFilterOptions {
    pub deinterlace_qsv: DeinterlaceQsvOptions,
}

impl Default for VideoFilterOptions {
    fn default() -> (r: VideoFilterOptions)
        ensures
            r.deinterlace_qsv.mode is None,
    {
        VideoFilterOptions { deinterlace_qsv: DeinterlaceQsvOptions::default() }
    }
}

} // verus!
