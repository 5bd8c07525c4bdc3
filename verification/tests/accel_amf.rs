use ffpipeline::accel::amf::{Amf, VppAmf};
use ffpipeline::amf_sys::{AMF_SURFACE_BGRA, AMF_SURFACE_NV12, AMF_SURFACE_P010};
use ffpipeline::capabilities::amf::{
    AmfAdapter, AmfCapabilities, AmfDevice, AmfEncoderCapability, AmfSurfaceFormat,
};
use ffpipeline::ffmpeg_info::{FfmpegInfo, KnownVideoFilter};
use ffpipeline::format_map::FormatMap;
use ffpipeline::hw_accel::PipelineFilter;
use ffpipeline::output_settings::VideoFilterOptions;
use ffpipeline::pipeline::{
    FrameSize, FrameState, FrameSurface, HdrFormat, PixelFormat, SurfaceSet, VideoFormat,
};
use ffpipeline::probe::{CodecType, FrameRate, ProbeResultColorParams, ProbeResultVideoStream};
use ffpipeline::video_filter::{ScaleFilter, ToneMapFilter, VideoFilter};
use ffpipeline::output_settings::ScalingMode;

/// Models a build with the etv patch, so mpeg2_amf and vc1_amf exist.
fn make_ffmpeg_info() -> FfmpegInfo {
    FfmpegInfo {
        decoders: ["h264_amf", "hevc_amf", "vp9_amf", "av1_amf", "mpeg2_amf", "vc1_amf"]
            .map(String::from)
            .into(),
        video_filters: vec![KnownVideoFilter::VppAmf.to_string()],
        ..Default::default()
    }
}

fn hdr_amf_state() -> FrameState {
    FrameState {
        size: FrameSize {
            width: 3840,
            height: 2160,
        },
        is_anamorphic: false,
        is_interlaced: false,
        sample_aspect_ratio: None,
        display_aspect_ratio: None,
        surface: FrameSurface::Amf,
        pixel_format: PixelFormat::P010le,
        hdr_format: HdrFormat::Hdr10,
        rotation: None,
    }
}

fn tonemap_filter(output_format: PixelFormat) -> VideoFilter {
    ToneMapFilter {
        algorithm: Some(String::from("hable")),
        output_format,
    }
    .into()
}

fn make_amf() -> Amf {
    make_amf_with_vpp(&[AMF_SURFACE_NV12, AMF_SURFACE_BGRA])
}

fn make_amf_with_vpp(vpp_formats: &[i32]) -> Amf {
    make_amf_with_runtime(Some((1, 4, 37, 0)), vpp_formats)
}

fn make_amf_with_runtime(
    runtime_version: Option<(u16, u16, u16, u16)>,
    vpp_formats: &[i32],
) -> Amf {
    let mut supported_decoders = FormatMap::new();
    supported_decoders.insert(VideoFormat::H264, vec![8]);
    supported_decoders.insert(VideoFormat::Hevc, vec![8, 10]);
    supported_decoders.insert(VideoFormat::Mpeg2Video, vec![8]);
    supported_decoders.insert(VideoFormat::Vc1, vec![8]);

    let mut supported_encoders = FormatMap::new();
    supported_encoders.insert(
        VideoFormat::H264,
        AmfEncoderCapability {
            bit_depths: vec![8],
            b_frames: false,
            max_profile: Some(100),
            max_level: Some(52),
        },
    );
    supported_encoders.insert(
        VideoFormat::Hevc,
        AmfEncoderCapability {
            bit_depths: vec![8],
            b_frames: false,
            max_profile: Some(2),
            max_level: Some(186),
        },
    );

    let vpp: Vec<AmfSurfaceFormat> = vpp_formats.iter().copied().map(AmfSurfaceFormat).collect();

    Amf {
        capabilities: AmfCapabilities {
            supported_decoders,
            supported_encoders,
            vpp_input_formats: vpp.clone(),
            vpp_output_formats: vpp,
            runtime_version,
            device: Some(AmfDevice::Dx11),
            adapter: None,
        },
    }
}

#[test]
fn init_hw_device_derives_from_d3d11va_on_chosen_adapter() {
    let surfaces = SurfaceSet::default();
    assert_eq!(
        make_amf().init_hw_device(&surfaces),
        vec!["-init_hw_device", "amf=hw", "-filter_hw_device", "hw"]
    );

    let mut amf = make_amf();
    amf.capabilities.adapter = Some(AmfAdapter {
        index: 1,
        description: String::from("AMD Radeon RX 6600M"),
        vendor_id: 0x1002,
        device_id: 0x73ff,
    });
    assert_eq!(
        amf.init_hw_device(&surfaces),
        vec![
            "-init_hw_device",
            "d3d11va=dx:1",
            "-init_hw_device",
            "amf=hw@dx",
            "-filter_hw_device",
            "hw"
        ]
    );
}

fn video_stream(codec: &str, pix_fmt: &str) -> ProbeResultVideoStream {
    ProbeResultVideoStream {
        stream_index: 0,
        codec: String::from(codec),
        codec_type: CodecType::Video,
        dv_profile: None,
        profile: String::from("main"),
        height: Some(1080),
        width: Some(1920),
        frame_rate: FrameRate::parse("30000/1001"),
        sample_aspect_ratio: None,
        display_aspect_ratio: None,
        pix_fmt: String::from(pix_fmt),
        color_params: Default::default(),
        field_order: None,
        rotation: None,
    }
}

fn pq_video_stream() -> ProbeResultVideoStream {
    ProbeResultVideoStream {
        profile: String::from("main 10"),
        color_params: ProbeResultColorParams {
            color_range: Some(String::from("tv")),
            color_space: Some(String::from("bt2020nc")),
            color_transfer: Some(String::from("smpte2084")),
            color_primaries: Some(String::from("bt2020")),
            has_hdr10_metadata: true,
        },
        ..video_stream("hevc", "yuv420p10le")
    }
}

#[test]
fn decode_follows_capabilities() {
    let amf = make_amf_with_vpp(&[AMF_SURFACE_NV12, AMF_SURFACE_P010, AMF_SURFACE_BGRA]);
    assert!(amf.can_decode("h264", "high", &PixelFormat::Yuv420p));
    assert!(!amf.can_decode("h264", "high 10", &PixelFormat::Yuv420p10le));
    assert!(amf.can_decode("hevc", "main 10", &PixelFormat::Yuv420p10le));
    assert!(!amf.can_decode("vp9", "profile 0", &PixelFormat::Yuv420p));
    assert!(amf.can_decode("mpeg2video", "main", &PixelFormat::Yuv420p));
    assert!(amf.can_decode("vc1", "advanced", &PixelFormat::Yuv420p));
    assert!(!amf.can_decode("mpeg4", "simple", &PixelFormat::Yuv420p));
}

#[test]
fn decoder_requires_the_amf_decoder_in_ffmpeg() {
    let amf = make_amf_with_vpp(&[AMF_SURFACE_NV12, AMF_SURFACE_P010, AMF_SURFACE_BGRA]);
    let with_patch = make_ffmpeg_info();
    assert!(amf
        .make_decoder(&with_patch, &video_stream("mpeg2video", "yuv420p"))
        .is_some());
    // hardware and build both support vc1, but vc1_amf breaks timestamps
    assert!(amf
        .make_decoder(&with_patch, &video_stream("vc1", "yuv420p"))
        .is_none());

    // stock ffmpeg, without the etv patch
    let stock = FfmpegInfo {
        decoders: ["h264_amf", "hevc_amf", "vp9_amf", "av1_amf"]
            .map(String::from)
            .into(),
        ..make_ffmpeg_info()
    };
    assert!(amf
        .make_decoder(&stock, &video_stream("h264", "yuv420p"))
        .is_some());
    assert!(amf
        .make_decoder(&stock, &video_stream("mpeg2video", "yuv420p"))
        .is_none());
    assert!(amf
        .make_decoder(&stock, &video_stream("vc1", "yuv420p"))
        .is_none());

    assert!(amf
        .make_decoder(&FfmpegInfo::default(), &video_stream("h264", "yuv420p"))
        .is_none());
}

#[test]
fn decode_requires_converter_input_support() {
    // runtime 1.4.31 decodes hevc 10-bit to P010 but its converter has no P010 input
    let amf = make_amf_with_runtime(Some((1, 4, 31, 0)), &[AMF_SURFACE_NV12, AMF_SURFACE_BGRA]);
    assert!(amf.can_decode("hevc", "main", &PixelFormat::Yuv420p));
    assert!(!amf.can_decode("hevc", "main 10", &PixelFormat::Yuv420p10le));
    assert!(amf
        .make_decoder(&make_ffmpeg_info(), &video_stream("hevc", "yuv420p10le"))
        .is_none());
    assert!(amf
        .make_decoder(&make_ffmpeg_info(), &pq_video_stream())
        .is_none());
}

#[test]
fn pq_sources_decode_on_device_when_converter_can_tonemap() {
    // caps still list no P010 input; only the runtime version unlocks pq decode
    let amf = make_amf();
    assert!(!amf.can_decode("hevc", "main 10", &PixelFormat::Yuv420p10le));
    assert!(
        amf.make_decoder(&make_ffmpeg_info(), &video_stream("hevc", "yuv420p10le"))
            .is_none(),
        "sdr 10-bit must stay in software: the converter mangles P010 to NV12"
    );

    let decoder = amf
        .make_decoder(&make_ffmpeg_info(), &pq_video_stream())
        .expect("pq source should decode on the device");
    assert_eq!(decoder.surface, FrameSurface::Amf);

    let hlg = ProbeResultVideoStream {
        color_params: ProbeResultColorParams {
            color_transfer: Some(String::from("arib-std-b67")),
            ..pq_video_stream().color_params
        },
        ..pq_video_stream()
    };
    assert!(amf.make_decoder(&make_ffmpeg_info(), &hlg).is_none());
}

#[test]
fn encoder_is_gated_by_capabilities() {
    let amf = make_amf();
    assert!(amf.can_encode(&VideoFormat::Hevc, 8));
    assert!(!amf.can_encode(&VideoFormat::Hevc, 10));
    assert_eq!(
        amf.codec_for_format(&VideoFormat::Hevc, 8, None)
            .map(|c| c.codec_name),
        Some("hevc_amf")
    );
    assert!(amf.codec_for_format(&VideoFormat::Hevc, 10, None).is_none());
    assert!(amf.codec_for_format(&VideoFormat::Av1, 8, None).is_none());
}

#[test]
fn upload_follows_converter_formats() {
    let amf = make_amf();
    assert!(amf.accepts_upload_format(&PixelFormat::Nv12));
    assert!(amf.accepts_upload_format(&PixelFormat::Yuv420p));
    assert!(amf.accepts_upload_format(&PixelFormat::Bgra));
    assert!(!amf.accepts_upload_format(&PixelFormat::P010le));
}

#[test]
fn format_conversion_follows_converter_formats() {
    let amf = make_amf();
    let ffmpeg_info = FfmpegInfo::default();
    assert!(amf.can_convert_pixel_format(&ffmpeg_info, &PixelFormat::Nv12));
    assert!(amf.can_convert_pixel_format(&ffmpeg_info, &PixelFormat::Yuv420p));
    assert!(amf.can_convert_pixel_format(&ffmpeg_info, &PixelFormat::Bgra));
    assert!(!amf.can_convert_pixel_format(&ffmpeg_info, &PixelFormat::P010le));
    assert!(!amf.can_convert_pixel_format(&ffmpeg_info, &PixelFormat::Yuv420p10le));

    let with_p010 = make_amf_with_vpp(&[AMF_SURFACE_NV12, AMF_SURFACE_P010]);
    assert!(with_p010.can_convert_pixel_format(&ffmpeg_info, &PixelFormat::P010le));
    assert!(!with_p010.can_convert_pixel_format(&ffmpeg_info, &PixelFormat::Bgra));
}

#[test]
fn best_filter_selects_vpp_amf_tonemap_for_hdr_to_8bit_sdr() {
    let amf = make_amf();
    let ffmpeg_info = make_ffmpeg_info();
    let filter_options = VideoFilterOptions::default();

    for hdr_format in [HdrFormat::Hdr10, HdrFormat::Pq] {
        let state = FrameState {
            hdr_format,
            ..hdr_amf_state()
        };
        let result = amf.best_filter(
            &tonemap_filter(PixelFormat::Yuv420p),
            &ffmpeg_info,
            &state,
            &filter_options,
        );
        assert!(
            matches!(
                result,
                VideoFilter::VppAmf(VppAmf {
                    tonemap: true,
                    format: Some(PixelFormat::Nv12),
                    ..
                })
            ),
            "expected vpp_amf tonemap for {hdr_format:?}, got {result:?}"
        );
    }
}

#[test]
fn best_filter_keeps_software_tonemap_when_vpp_amf_cannot_be_used() {
    let amf = make_amf();
    let ffmpeg_info = make_ffmpeg_info();
    let filter_options = VideoFilterOptions::default();

    // 10-bit sdr output: the converter's p010 output skips the gamut mapping
    let result = amf.best_filter(
        &tonemap_filter(PixelFormat::Yuv420p10le),
        &ffmpeg_info,
        &hdr_amf_state(),
        &filter_options,
    );
    assert!(matches!(result, VideoFilter::ToneMap(_)), "got {result:?}");

    // system frames carry no amf surface metadata for the converter to read
    let state = FrameState {
        surface: FrameSurface::System,
        ..hdr_amf_state()
    };
    let result = amf.best_filter(
        &tonemap_filter(PixelFormat::Yuv420p),
        &ffmpeg_info,
        &state,
        &filter_options,
    );
    assert!(matches!(result, VideoFilter::ToneMap(_)), "got {result:?}");

    // only pq input has been verified
    for hdr_format in [HdrFormat::Hlg, HdrFormat::Dv5, HdrFormat::Sdr] {
        let state = FrameState {
            hdr_format,
            ..hdr_amf_state()
        };
        let result = amf.best_filter(
            &tonemap_filter(PixelFormat::Yuv420p),
            &ffmpeg_info,
            &state,
            &filter_options,
        );
        assert!(
            matches!(result, VideoFilter::ToneMap(_)),
            "expected software tonemap for {hdr_format:?}, got {result:?}"
        );
    }

    // no vpp_amf filter in ffmpeg
    let result = amf.best_filter(
        &tonemap_filter(PixelFormat::Yuv420p),
        &FfmpegInfo::default(),
        &hdr_amf_state(),
        &filter_options,
    );
    assert!(matches!(result, VideoFilter::ToneMap(_)), "got {result:?}");

    // runtime too old for the converter's color management
    let old_runtime =
        make_amf_with_runtime(Some((1, 4, 31, 0)), &[AMF_SURFACE_NV12, AMF_SURFACE_BGRA]);
    let result = old_runtime.best_filter(
        &tonemap_filter(PixelFormat::Yuv420p),
        &ffmpeg_info,
        &hdr_amf_state(),
        &filter_options,
    );
    assert!(matches!(result, VideoFilter::ToneMap(_)), "got {result:?}");
}

#[test]
fn tonemap_fuses_with_scale_and_clears_hdr() {
    let scale = VppAmf::scale(FrameSize {
        width: 1920,
        height: 1080,
    });
    let fused = scale.fuse(&VppAmf::tonemap()).unwrap();
    assert_eq!(
        fused.as_arg().as_deref(),
        Some(
            "vpp_amf=w=1920:h=1080:format=nv12:color_profile=bt709:primaries=bt709:trc=bt709,setsar=1"
        )
    );

    let fused = VppAmf::tonemap().fuse(&scale).unwrap();
    assert_eq!(fused.size, scale.size);
    assert!(fused.tonemap);

    let mut state = hdr_amf_state();
    fused.apply_to(&mut state);
    assert_eq!(state.hdr_format, HdrFormat::Sdr);
    assert_eq!(state.pixel_format, PixelFormat::Nv12);
    assert_eq!(state.surface, FrameSurface::Amf);
    assert_eq!(state.size.width, 1920);
}

#[test]
fn tonemap_does_not_fuse_with_non_nv12_format() {
    let tonemap = VppAmf::tonemap();
    assert!(tonemap.fuse(&VppAmf::format(PixelFormat::P010le)).is_none());
    assert!(VppAmf::format(PixelFormat::P010le)
        .fuse(&tonemap)
        .is_some_and(|f| f.format == Some(PixelFormat::Nv12)));
}

// Further cases.

#[test]
fn two_scales_do_not_fuse() {
    let a = VppAmf::scale(FrameSize {
        width: 1280,
        height: 720,
    });
    let b = VppAmf::scale(FrameSize {
        width: 1920,
        height: 1080,
    });
    assert!(a.fuse(&b).is_none());
}

#[test]
fn fused_filter_leaves_frames_as_the_pair_would() {
    let scale = VppAmf::scale(FrameSize {
        width: 1280,
        height: 720,
    });
    let format = VppAmf::format(PixelFormat::Nv12);
    let fused = scale.fuse(&format).unwrap();

    let mut one = hdr_amf_state();
    fused.apply_to(&mut one);

    let mut two = hdr_amf_state();
    scale.apply_to(&mut two);
    format.apply_to(&mut two);

    assert_eq!(one.size, two.size);
    assert_eq!(one.pixel_format, two.pixel_format);
    assert_eq!(one.surface, two.surface);
    assert_eq!(one.hdr_format, two.hdr_format);
    assert_eq!(one.is_anamorphic, two.is_anamorphic);
    assert_eq!(one.sample_aspect_ratio, two.sample_aspect_ratio);
    assert_eq!(one.sample_aspect_ratio.as_deref(), Some("1:1"));
}

#[test]
fn vpp_amf_arguments() {
    assert_eq!(VppAmf::default().as_arg(), None);
    assert_eq!(
        VppAmf::format(PixelFormat::Bgra).as_arg().as_deref(),
        Some("vpp_amf=format=bgra")
    );
    assert_eq!(
        VppAmf::scale(FrameSize {
            width: 640,
            height: 360
        })
        .as_arg()
        .as_deref(),
        Some("vpp_amf=w=640:h=360,setsar=1")
    );
}

#[test]
fn best_filter_moves_scaling_to_the_converter() {
    let amf = make_amf();
    let scale: VideoFilter = ScaleFilter {
        size: Some(FrameSize {
            width: 1280,
            height: 720,
        }),
        scaling_mode: ScalingMode::ScaleAndPad,
        input_is_anamorphic: false,
        force_original_aspect_ratio: None,
    }
    .into();
    let result = amf.best_filter(
        &scale,
        &make_ffmpeg_info(),
        &hdr_amf_state(),
        &VideoFilterOptions::default(),
    );
    assert!(matches!(
        result,
        VideoFilter::VppAmf(VppAmf {
            tonemap: false,
            size: Some(FrameSize {
                width: 1280,
                height: 720
            }),
            format: None
        })
    ));

    let result = amf.best_filter(
        &scale,
        &FfmpegInfo::default(),
        &hdr_amf_state(),
        &VideoFilterOptions::default(),
    );
    assert!(matches!(result, VideoFilter::Scale(_)));
}

#[test]
fn interlaced_streams_download_after_decode() {
    let amf = make_amf();
    let stream = ProbeResultVideoStream {
        field_order: Some(String::from("tt")),
        ..video_stream("h264", "yuv420p")
    };
    let decoder = amf.make_decoder(&make_ffmpeg_info(), &stream).unwrap();
    assert_eq!(decoder.surface, FrameSurface::System);
    assert_eq!(decoder.filters.len(), 1);
    assert!(matches!(
        decoder.filters[0],
        PipelineFilter::Video(VideoFilter::HwDownload(_))
    ));
    assert_eq!(
        decoder.args,
        vec!["-hwaccel", "amf", "-hwaccel_output_format", "amf"]
    );

    let progressive = amf
        .make_decoder(&make_ffmpeg_info(), &video_stream("h264", "yuv420p"))
        .unwrap();
    assert_eq!(progressive.surface, FrameSurface::Amf);
    assert!(progressive.filters.is_empty());
}

#[test]
fn alpha_formats_have_no_converter() {
    let amf = make_amf();
    assert!(amf.format_filter(&PixelFormat::Yuva420p).is_none());
    assert!(matches!(
        amf.format_filter(&PixelFormat::Nv12),
        Some(VideoFilter::VppAmf(VppAmf {
            format: Some(PixelFormat::Nv12),
            ..
        }))
    ));
}

#[test]
fn h264_encoder_takes_no_options() {
    let codec = make_amf()
        .codec_for_format(&VideoFormat::H264, 8, None)
        .unwrap();
    assert_eq!(codec.codec_name, "h264_amf");
    assert!(codec.options.is_empty());
    assert_eq!(codec.preferred_surface, FrameSurface::Amf);
    let hevc = make_amf()
        .codec_for_format(&VideoFormat::Hevc, 8, None)
        .unwrap();
    assert_eq!(hevc.options, vec!["-tag:v", "hvc1"]);
}
