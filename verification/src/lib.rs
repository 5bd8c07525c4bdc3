use vstd::prelude::*;

pub mod accel;
pub mod amf_sys;
pub mod bytes;
pub mod capabilities;
pub mod d3d11;
pub mod error;
pub mod fallback;
pub mod ffmpeg_info;
pub mod format_map;
pub mod hw_accel;
pub mod input;
pub mod media;
pub mod output_settings;
pub mod overlay_filter;
pub mod pipeline;
pub mod probe;
pub mod sorting;
pub mod stream_variables;
pub mod text;
pub mod video_filter;
pub mod vpl;

verus! {

} // verus!
