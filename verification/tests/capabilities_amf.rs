use ffpipeline::amf_sys::{AMF_SURFACE_BGRA, AMF_SURFACE_NV12, AMF_SURFACE_P010};
use ffpipeline::capabilities::amf::{
    AmfCapabilities, AmfDevice, AmfEncoderCapability, AmfSurfaceFormat,
};
use ffpipeline::format_map::FormatMap;
use ffpipeline::pipeline::{PixelFormat, VideoFormat};

fn caps(input: &[i32], output: &[i32]) -> AmfCapabilities {
    caps_with_runtime(Some((1, 4, 35, 0)), input, output)
}

fn caps_with_runtime(
    runtime_version: Option<(u16, u16, u16, u16)>,
    input: &[i32],
    output: &[i32],
) -> AmfCapabilities {
    let mut supported_encoders = FormatMap::new();
    supported_encoders.insert(
        VideoFormat::H264,
        AmfEncoderCapability {
            bit_depths: vec![8],
            b_frames: false,
            max_profile: Some(100),
            max_level: Some(52),
        },
    );
    supported_encoders.insert(
        VideoFormat::Hevc,
        AmfEncoderCapability {
            bit_depths: vec![8, 10],
            b_frames: true,
            max_profile: Some(2),
            max_level: Some(186),
        },
    );

    let mut supported_decoders = FormatMap::new();
    supported_decoders.insert(VideoFormat::H264, vec![8]);
    supported_decoders.insert(VideoFormat::Hevc, vec![8, 10]);

    AmfCapabilities {
        supported_decoders,
        supported_encoders,
        vpp_input_formats: input.iter().map(|f| AmfSurfaceFormat(*f)).collect(),
        vpp_output_formats: output.iter().map(|f| AmfSurfaceFormat(*f)).collect(),
        runtime_version,
        device: Some(AmfDevice::Dx11),
        adapter: None,
    }
}

#[test]
fn ten_bit_encode_requires_runtime_1_4_32() {
    assert!(!caps_with_runtime(Some((1, 4, 31, 0)), &[], &[]).can_encode(&VideoFormat::Hevc, 10));
    assert!(caps_with_runtime(Some((1, 4, 31, 0)), &[], &[]).can_encode(&VideoFormat::Hevc, 8));
    assert!(caps_with_runtime(Some((1, 4, 32, 0)), &[], &[]).can_encode(&VideoFormat::Hevc, 10));
    assert!(caps_with_runtime(Some((1, 5, 0, 0)), &[], &[]).can_encode(&VideoFormat::Hevc, 10));
    assert!(!caps_with_runtime(None, &[], &[]).can_encode(&VideoFormat::Hevc, 10));
}

#[test]
fn tonemap_requires_runtime_1_4_34() {
    assert!(!caps_with_runtime(Some((1, 4, 31, 0)), &[], &[]).can_tonemap());
    assert!(!caps_with_runtime(Some((1, 4, 33, 0)), &[], &[]).can_tonemap());
    assert!(caps_with_runtime(Some((1, 4, 34, 0)), &[], &[]).can_tonemap());
    assert!(caps_with_runtime(Some((1, 5, 0, 0)), &[], &[]).can_tonemap());
    assert!(!caps_with_runtime(None, &[], &[]).can_tonemap());
}

#[test]
fn decode_and_encode_follow_probed_bit_depths() {
    let caps = caps(&[], &[]);
    assert!(caps.can_decode(&VideoFormat::H264, 8));
    assert!(!caps.can_decode(&VideoFormat::H264, 10));
    assert!(caps.can_decode(&VideoFormat::Hevc, 10));
    assert!(!caps.can_decode(&VideoFormat::Av1, 8));

    assert!(caps.can_encode(&VideoFormat::Hevc, 10));
    assert!(!caps.can_encode(&VideoFormat::H264, 10));
    assert!(!caps.can_encode(&VideoFormat::Av1, 8));
    assert!(caps.b_frames(&VideoFormat::Hevc));
    assert!(!caps.b_frames(&VideoFormat::H264));
    assert!(!caps.b_frames(&VideoFormat::Vp9));
}

#[test]
fn vpp_requires_format_on_both_sides() {
    let both = caps(
        &[AMF_SURFACE_NV12, AMF_SURFACE_P010, AMF_SURFACE_BGRA],
        &[AMF_SURFACE_NV12, AMF_SURFACE_P010, AMF_SURFACE_BGRA],
    );
    assert!(both.vpp_supports_format(&PixelFormat::Nv12));
    assert!(both.vpp_supports_format(&PixelFormat::Yuv420p));
    assert!(both.vpp_supports_format(&PixelFormat::P010le));
    assert!(both.vpp_supports_format(&PixelFormat::Yuv420p10le));
    assert!(both.vpp_supports_format(&PixelFormat::Bgra));
    assert!(!both.vpp_supports_format(&PixelFormat::Nv15));

    let input_only = caps(&[AMF_SURFACE_NV12, AMF_SURFACE_P010], &[AMF_SURFACE_NV12]);
    assert!(input_only.vpp_supports_format(&PixelFormat::Nv12));
    assert!(!input_only.vpp_supports_format(&PixelFormat::P010le));
    assert!(input_only.vpp_accepts_input(&PixelFormat::P010le));
    assert!(input_only.vpp_accepts_input(&PixelFormat::Yuv420p10le));
    assert!(!input_only.vpp_accepts_input(&PixelFormat::Bgra));
    assert!(!input_only.vpp_accepts_input(&PixelFormat::Nv15));
}

#[test]
fn format_names_are_sorted_by_amf_code() {
    let caps = caps(&[AMF_SURFACE_P010, AMF_SURFACE_NV12], &[]);
    assert_eq!(caps.vpp_input_formats(), vec!["NV12", "P010"]);
    assert!(caps.vpp_output_formats().is_empty());
}

// Further cases.

#[test]
fn duplicate_and_unknown_surface_formats_are_named_once() {
    let caps = caps(&[AMF_SURFACE_P010, 999, AMF_SURFACE_P010], &[]);
    assert_eq!(
        caps.vpp_input_formats(),
        vec!["P010", "AMF_SURFACE_FORMAT(999)"]
    );
}

#[test]
fn counts_formats_with_a_decoder_and_with_an_encoder() {
    let caps = caps(&[], &[]);
    assert_eq!(caps.count(), 4);
    assert_eq!(caps.runtime_version(), Some((1, 4, 35, 0)));
    assert_eq!(caps.device(), Some(AmfDevice::Dx11));
    assert!(caps.encoder(&VideoFormat::Hevc).is_some_and(|e| e.b_frames));
    assert!(caps.encoder(&VideoFormat::Av1).is_none());
}
