//! The video filters a planner places in a filter chain.
use vstd::prelude::*;

use crate::accel::amf::VppAmf;
use crate::accel::qsv::{DeinterlaceQsv, FormatQsv, PadQsv, ScaleQsv};
use crate::output_settings::ScalingMode;
use crate::pipeline::{clone_opt_string, FrameSize, PixelFormat};

verus! {

/// Software scaling to a target size.
#[derive(Clone, Debug)]
pub struct ScaleFilter {
    pub size: Option<FrameSize>,
    pub scaling_mode: ScalingMode,
    pub input_is_anamorphic: bool,
    pub force_original_aspect_ratio: Option<String>,
}

/// Software padding to a target size.
#[derive(Clone, Copy, Debug, PartialEq, Eq, Structural)]
pub struct PadFilter {
    pub size: Option<FrameSize>,
    pub scaling_mode: ScalingMode,
}

/// Software tone mapping of HDR frames to SDR.
#[derive(Clone, Debug)]
pub struct ToneMapFilter {
    pub algorithm: Option<String>,
    pub output_format: PixelFormat,
}

/// Software deinterlacing.
#[derive(Clone, Copy, Debug, PartialEq, Eq, Structural)]
pub struct DeinterlaceFilter {}

/// Download of hardware frames to system memory.
#[derive(Clone, Copy, Debug, PartialEq, Eq, Structural)]
pub struct HwDownloadFilter {
    pub target_pixel_format: PixelFormat,
}

/// One filter of a video filter chain.
#[derive(Clone, Debug)]
pub enum VideoFilter {
    Scale(ScaleFilter),
    Pad(PadFilter),
    ToneMap(ToneMapFilter),
    Deinterlace(DeinterlaceFilter),
    HwDownload(HwDownloadFilter),
    ScaleQsv(ScaleQsv),
    PadQsv(PadQsv),
    FormatQsv(FormatQsv),
    DeinterlaceQsv(DeinterlaceQsv),
    VppAmf(VppAmf),
}

impl ScaleFilter {
    /// A copy of this filter.
    pub fn duplicate(&self) -> (r: ScaleFilter)
        ensures
            r == *self,
    {
        ScaleFilter {
            size: self.size,
            scaling_mode: self.scaling_mode,
            input_is_anamorphic: self.input_is_anamorphic,
            force_original_aspect_ratio: clone_opt_string(&self.force_original_aspect_ratio),
        }
    }
}

impl ToneMapFilter {
    /// A copy of this filter.
    pub fn duplicate(&self) -> (r: ToneMapFilter)
        ensures
            r == *self,
    {
        ToneMapFilter {
            algorithm: clone_opt_string(&self.algorithm),
            output_format: self.output_format,
        }
    }
}

impl VideoFilter {
    /// A copy of this filter.
    pub fn duplicate(&self) -> (r: VideoFilter)
        ensures
            r == *self,
    {
        match self {
            VideoFilter::Scale(f) => VideoFilter::Scale(f.duplicate()),
            VideoFilter::Pad(f) => VideoFilter::Pad(*f),
            VideoFilter::ToneMap(f) => VideoFilter::ToneMap(f.duplicate()),
            VideoFilter::Deinterlace(f) => VideoFilter::Deinterlace(*f),
            VideoFilter::HwDownload(f) => VideoFilter::HwDownload(*f),
            VideoFilter::ScaleQsv(f) => VideoFilter::ScaleQsv(*f),
            VideoFilter::PadQsv(f) => VideoFilter::PadQsv(*f),
            VideoFilter::FormatQsv(f) => VideoFilter::FormatQsv(*f),
            VideoFilter::DeinterlaceQsv(f) => VideoFilter::DeinterlaceQsv(f.duplicate()),
            VideoFilter::VppAmf(f) => VideoFilter::VppAmf(*f),
        }
    }
}

impl From<ScaleFilter> for VideoFilter {
    fn from(value: ScaleFilter) -> (r: VideoFilter) {
        VideoFilter::Scale(value)
    }
}

impl vstd::std_specs::convert::FromSpecImpl<ScaleFilter> for VideoFilter {
    open spec fn obeys_from_spec() -> bool {
        true
    }

    open spec fn from_spec(v: ScaleFilter) -> VideoFilter {
        VideoFilter::Scale(v)
    }
}

impl From<ToneMapFilter> for VideoFilter {
    fn from(value: ToneMapFilter) -> (r: VideoFilter) {
        VideoFilter::ToneMap(value)
    }
}

impl vstd::std_specs::convert::FromSpecImpl<ToneMapFilter> for VideoFilter {
    open spec fn obeys_from_spec() -> bool {
        true
    }

    open spec fn from_spec(v: ToneMapFilter) -> VideoFilter {
        VideoFilter::ToneMap(v)
    }
}

impl From<ScaleQsv> for VideoFilter {
    fn from(value: ScaleQsv) -> (r: VideoFilter) {
        VideoFilter::ScaleQsv(value)
    }
}

impl vstd::std_specs::convert::FromSpecImpl<ScaleQsv> for VideoFilter {
    open spec fn obeys_from_spec() -> bool {
        true
    }

    open spec fn from_spec(v: ScaleQsv) -> VideoFilter {
        VideoFilter::ScaleQsv(v)
    }
}

impl From<PadQsv> for VideoFilter {
    fn from(value: PadQsv) -> (r: VideoFilter) {
        VideoFilter::PadQsv(value)
    }
}

impl vstd::std_specs::convert::FromSpecImpl<PadQsv> for VideoFilter {
    open spec fn obeys_from_spec() -> bool {
        true
    }

    open spec fn from_spec(v: PadQsv) -> VideoFilter {
        VideoFilter::PadQsv(v)
    }
}

impl From<VppAmf> for VideoFilter {
    fn from(value: VppAmf) -> (r: VideoFilter) {
        VideoFilter::VppAmf(value)
    }
}

impl vstd::std_specs::convert::FromSpecImpl<VppAmf> for VideoFilter {
    open spec fn obeys_from_spec() -> bool {
        true
    }

    open spec fn from_spec(v: VppAmf) -> VideoFilter {
        VideoFilter::VppAmf(v)
    }
}

} // verus!
