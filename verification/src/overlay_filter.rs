//! Overlays of a secondary input (a watermark) onto the main video.
use vstd::prelude::*;

use crate::pipeline::{
    pixel_bit_depth, FrameState, FrameStateModel, FrameSurface, PixelFormat,
};
use crate::text::owned;
use crate::video_filter::VideoFilter;

verus! {

broadcast use vstd::string::group_string_axioms;

/// What an overlay does to the frames and what it needs of its two inputs.
pub trait OverlayKindOp {
    /// The state after the overlay, from the main input's state.
    spec fn apply_spec(&self, s: FrameStateModel) -> FrameStateModel;

    /// The state the main input must be in.
    spec fn main_input_spec(&self, s: FrameStateModel) -> FrameStateModel;

    /// The state the secondary input must be in, from the main input's state.
    spec fn secondary_input_spec(&self, s: FrameStateModel) -> FrameStateModel;

    /// The filter argument.
    spec fn arg_spec(&self) -> Option<Seq<char>>;

    fn apply_to(&self, state: &mut FrameState)
        ensures
            final(state)@ == self.apply_spec(old(state)@),
    ;

    fn main_input_state(&self, current_state: &FrameState) -> (r: FrameState)
        ensures
            r@ == self.main_input_spec(current_state@),
    ;

    fn secondary_input_state(&self, current_state: &FrameState) -> (r: FrameState)
        ensures
            r@ == self.secondary_input_spec(current_state@),
    ;

    fn as_arg(&self) -> (r: Option<String>)
        ensures
            match r {
                Some(s) => self.arg_spec() == Some(s@),
                None => self.arg_spec() is None,
            },
    ;
}

/// The `overlay` filter, on system memory.
#[derive(Clone, Copy, Debug)]
pub struct SoftwareOverlay;

/// The software overlay's main input: system frames, 8-bit or 10-bit planar 4:2:0 as
/// the frames already are.
pub open spec fn software_main_input(s: FrameStateModel) -> FrameStateModel {
    FrameStateModel {
        surface: FrameSurface::System,
        pixel_format: if pixel_bit_depth(s.pixel_format) == 10 {
            PixelFormat::Yuv420p10le
        } else {
            PixelFormat::Yuv420p
        },
        ..s
    }
}

/// The software overlay's secondary input: a fresh system frame with alpha, at the
/// main input's bit depth.
pub open spec fn software_secondary_input(s: FrameStateModel) -> FrameStateModel {
    FrameStateModel {
        surface: FrameSurface::System,
        pixel_format: if pixel_bit_depth(s.pixel_format) == 10 {
            PixelFormat::Yuva420p10le
        } else {
            PixelFormat::Yuva420p
        },
        ..FrameState::default_spec()@
    }
}

impl OverlayKindOp for SoftwareOverlay {
    open spec fn apply_spec(&self, s: FrameStateModel) -> FrameStateModel {
        s
    }

    open spec fn main_input_spec(&self, s: FrameStateModel) -> FrameStateModel {
        software_main_input(s)
    }

    open spec fn secondary_input_spec(&self, s: FrameStateModel) -> FrameStateModel {
        software_secondary_input(s)
    }

    open spec fn arg_spec(&self) -> Option<Seq<char>> {
        Some("overlay"@)
    }

    /// A software overlay leaves the frame state as it is.
    fn apply_to(&self, _state: &mut FrameState) {
    }

    fn main_input_state(&self, current_state: &FrameState) -> (r: FrameState) {
        let pixel_format = if current_state.pixel_format.bit_depth() == 10 {
            PixelFormat::Yuv420p10le
        } else {
            PixelFormat::Yuv420p
        };
        FrameState {
            surface: FrameSurface::System,
            pixel_format: pixel_format,
            ..current_state.duplicate()
        }
    }

    fn secondary_input_state(&self, current_state: &FrameState) -> (r: FrameState) {
        let pixel_format = if current_state.pixel_format.bit_depth() == 10 {
            PixelFormat::Yuva420p10le
        } else {
            PixelFormat::Yuva420p
        };
        FrameState { surface: FrameSurface::System, pixel_format: pixel_format, ..FrameState::default() }
    }

    fn as_arg(&self) -> (r: Option<String>) {
        Some(owned("overlay"))
    }
}

/// The kinds of overlay.
#[derive(Clone, Copy, Debug)]
pub enum OverlayKind {
    Software(SoftwareOverlay),
}

impl OverlayKindOp for OverlayKind {
    open spec fn apply_spec(&self, s: FrameStateModel) -> FrameStateModel {
        match self {
            OverlayKind::Software(o) => o.apply_spec(s),
        }
    }

    open spec fn main_input_spec(&self, s: FrameStateModel) -> FrameStateModel {
        match self {
            OverlayKind::Software(o) => o.main_input_spec(s),
        }
    }

    open spec fn secondary_input_spec(&self, s: FrameStateModel) -> FrameStateModel {
        match self {
            OverlayKind::Software(o) => o.secondary_input_spec(s),
        }
    }

    open spec fn arg_spec(&self) -> Option<Seq<char>> {
        match self {
            OverlayKind::Software(o) => o.arg_spec(),
        }
    }

    fn apply_to(&self, state: &mut FrameState) {
        match self {
            OverlayKind::Software(o) => o.apply_to(state),
        }
    }

    fn main_input_state(&self, current_state: &FrameState) -> (r: FrameState) {
        match self {
            OverlayKind::Software(o) => o.main_input_state(current_state),
        }
    }

    fn secondary_input_state(&self, current_state: &FrameState) -> (r: FrameState) {
        match self {
            OverlayKind::Software(o) => o.secondary_input_state(current_state),
        }
    }

    fn as_arg(&self) -> (r: Option<String>) {
        match self {
            OverlayKind::Software(o) => o.as_arg(),
        }
    }
}

/// An overlay with the filters that prepare its secondary input.
#[derive(Clone)]
pub struct OverlayFilter {
    pub kind: OverlayKind,
    pub secondary: Vec<VideoFilter>,
    pub secondary_initial_state: FrameState,
}

} // verus!
