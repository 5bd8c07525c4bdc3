use ffpipeline::overlay_filter::{OverlayKind, OverlayKindOp, SoftwareOverlay};
use ffpipeline::pipeline::{FrameSize, FrameState, FrameSurface, PixelFormat};

fn amf_state(pixel_format: PixelFormat) -> FrameState {
    FrameState {
        size: FrameSize {
            width: 1920,
            height: 1080,
        },
        surface: FrameSurface::Amf,
        pixel_format,
        ..FrameState::default()
    }
}

#[test]
fn software_overlay_inputs_are_system_frames() {
    let overlay = OverlayKind::Software(SoftwareOverlay);
    let main = overlay.main_input_state(&amf_state(PixelFormat::P010le));
    assert_eq!(main.surface, FrameSurface::System);
    assert_eq!(main.pixel_format, PixelFormat::Yuv420p10le);
    assert_eq!(main.size.width, 1920);

    let secondary = overlay.secondary_input_state(&amf_state(PixelFormat::Nv12));
    assert_eq!(secondary.surface, FrameSurface::System);
    assert_eq!(secondary.pixel_format, PixelFormat::Yuva420p);
    assert_eq!(secondary.size.width, 0);

    let secondary10 = overlay.secondary_input_state(&amf_state(PixelFormat::Yuv420p10le));
    assert_eq!(secondary10.pixel_format, PixelFormat::Yuva420p10le);
}

#[test]
fn software_overlay_leaves_the_state() {
    let overlay = OverlayKind::Software(SoftwareOverlay);
    let mut state = amf_state(PixelFormat::Nv12);
    overlay.apply_to(&mut state);
    assert_eq!(state.surface, FrameSurface::Amf);
    assert_eq!(state.pixel_format, PixelFormat::Nv12);
    assert_eq!(overlay.as_arg().as_deref(), Some("overlay"));
}
