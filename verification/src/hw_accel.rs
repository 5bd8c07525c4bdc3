//! What a hardware acceleration backend hands to the pipeline planner.
use vstd::prelude::*;

use crate::pipeline::{FrameSurface, PixelFormat};
use crate::video_filter::VideoFilter;

verus! {

/// One filter of a pipeline's filter graph.
#[derive(Debug)]
pub enum PipelineFilter {
    Video(VideoFilter),
}

/// How to decode an input on the device: the decoder arguments, the surface the
/// decoded frames live on, and the filters that must follow the decoder.
#[derive(Debug)]
pub struct HwDecoder {
    pub args: Vec<String>,
    pub surface: FrameSurface,
    pub filters: Vec<PipelineFilter>,
}

/// An encoder and the frames it prefers.
#[derive(Debug)]
pub struct VideoCodec {
    pub codec_name: &'static str,
    pub options: Vec<String>,
    pub preferred_pixel_format_8bit: Option<PixelFormat>,
    pub preferred_pixel_format_10bit: Option<PixelFormat>,
    pub preferred_surface: FrameSurface,
}

} // verus!
