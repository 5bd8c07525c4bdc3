use ffpipeline::accel::qsv::{DeinterlaceQsv, FormatQsv, PadQsv, Qsv, ScaleQsv};
use ffpipeline::capabilities::qsv::{QsvCapabilities, MFX_FOURCC_NV12};
use ffpipeline::capabilities::qsv::QsvFourCC;
use ffpipeline::ffmpeg_info::{FfmpegInfo, KnownVideoFilter};
use ffpipeline::format_map::FormatMap;
use ffpipeline::output_settings::{DeinterlaceQsvOptions, ScalingMode, VideoFilterOptions};
use ffpipeline::pipeline::{
    FrameSize, FrameState, FrameSurface, HdrFormat, PixelFormat, SurfaceSet, VideoFormat,
};
use ffpipeline::video_filter::{DeinterlaceFilter, PadFilter, ScaleFilter, VideoFilter};

fn make_qsv() -> Qsv {
    Qsv {
        capabilities: QsvCapabilities {
            supported_decoders: FormatMap::new(),
            supported_encoders: FormatMap::new(),
            vpp_pixel_formats: Vec::new(),
            vpp_filters: Vec::new(),
            runtime_api: None,
        },
    }
}

fn make_ffmpeg_info(with_pad_option: bool) -> FfmpegInfo {
    let video_filters = vec![KnownVideoFilter::VppQsv.to_string()];

    let mut options = vec![String::from("deinterlace"), String::from("denoise")];
    if with_pad_option {
        options.extend([
            String::from("pad_w"),
            String::from("pad_h"),
            String::from("pad_x"),
            String::from("pad_y"),
            String::from("pad_color"),
        ]);
    }
    let video_filter_options = vec![(KnownVideoFilter::VppQsv.to_string(), options)];

    FfmpegInfo {
        hwaccels: Vec::new(),
        video_filters,
        preferred_filters: Vec::new(),
        video_filter_options,
        ..Default::default()
    }
}

fn make_frame_state() -> FrameState {
    FrameState {
        size: FrameSize {
            width: 1440,
            height: 1080,
        },
        is_anamorphic: false,
        is_interlaced: false,
        sample_aspect_ratio: None,
        display_aspect_ratio: None,
        surface: FrameSurface::Qsv,
        pixel_format: PixelFormat::Nv12,
        hdr_format: HdrFormat::Sdr,
        rotation: None,
    }
}

fn pad_1920x1080() -> VideoFilter {
    VideoFilter::Pad(PadFilter {
        size: Some(FrameSize {
            width: 1920,
            height: 1080,
        }),
        scaling_mode: ScalingMode::ScaleAndPad,
    })
}

#[test]
fn best_filter_selects_pad_qsv_when_vpp_qsv_has_pad_option() {
    let qsv = make_qsv();
    let ffmpeg_info = make_ffmpeg_info(true);
    let state = make_frame_state();
    let filter_options = VideoFilterOptions::default();

    let result = qsv.best_filter(&pad_1920x1080(), &ffmpeg_info, &state, &filter_options);

    match result {
        VideoFilter::PadQsv(PadQsv {
            size: Some(size),
            scale: None,
        }) => {
            assert_eq!(size.width, 1920);
            assert_eq!(size.height, 1080);
        }
        other => panic!("expected PadQsv, got {other:?}"),
    }
}

#[test]
fn best_filter_falls_back_to_software_pad_without_pad_option() {
    let qsv = make_qsv();
    let ffmpeg_info = make_ffmpeg_info(false);
    let state = make_frame_state();
    let filter_options = VideoFilterOptions::default();

    let result = qsv.best_filter(&pad_1920x1080(), &ffmpeg_info, &state, &filter_options);

    assert!(
        matches!(result, VideoFilter::Pad(_)),
        "expected software Pad fallback, got {result:?}"
    );
}

#[test]
fn pad_qsv_arg_and_state() {
    let pad = PadQsv {
        size: Some(FrameSize {
            width: 1920,
            height: 1080,
        }),
        scale: None,
    };

    assert_eq!(
        pad.as_arg().as_deref(),
        Some("vpp_qsv=pad_w=1920:pad_h=1080:pad_x=-1:pad_y=-1:pad_color=black")
    );

    let mut state = make_frame_state();
    pad.apply_to(&mut state);
    assert_eq!(state.size.width, 1920);
    assert_eq!(state.size.height, 1080);
    assert_eq!(state.surface, FrameSurface::Qsv);
}

#[test]
fn pad_qsv_fused_scale_emits_single_instance() {
    let pad = PadQsv {
        size: Some(FrameSize {
            width: 1920,
            height: 1080,
        }),
        scale: Some(ScaleQsv {
            size: Some(FrameSize {
                width: 1440,
                height: 1080,
            }),
            input_is_anamorphic: false,
        }),
    };

    assert_eq!(
        pad.as_arg().as_deref(),
        Some(
            "vpp_qsv=w=1440:h=1080:pad_w=1920:pad_h=1080:pad_x=-1:pad_y=-1:pad_color=black,setsar=1"
        )
    );

    let mut state = make_frame_state();
    state.is_anamorphic = true;
    pad.apply_to(&mut state);
    assert_eq!(state.size.width, 1920);
    assert_eq!(state.size.height, 1080);
    assert!(!state.is_anamorphic);
    assert_eq!(state.sample_aspect_ratio.as_deref(), Some("1:1"));
}

#[test]
fn pad_qsv_fused_anamorphic_scale_prescales_then_combines() {
    let pad = PadQsv {
        size: Some(FrameSize {
            width: 1920,
            height: 1080,
        }),
        scale: Some(ScaleQsv {
            size: Some(FrameSize {
                width: 1440,
                height: 1080,
            }),
            input_is_anamorphic: true,
        }),
    };

    assert_eq!(
        pad.as_arg().as_deref(),
        Some(
            "vpp_qsv=w=iw*sar:h=ih,vpp_qsv=w=1440:h=1080:pad_w=1920:pad_h=1080:pad_x=-1:pad_y=-1:pad_color=black,setsar=1"
        )
    );
}

#[test]
fn scale_qsv_arg() {
    let size = Some(FrameSize {
        width: 1440,
        height: 1080,
    });

    let scale = ScaleQsv {
        size,
        input_is_anamorphic: false,
    };
    assert_eq!(
        scale.as_arg().as_deref(),
        Some("vpp_qsv=w=1440:h=1080,setsar=1")
    );

    let anamorphic = ScaleQsv {
        size,
        input_is_anamorphic: true,
    };
    assert_eq!(
        anamorphic.as_arg().as_deref(),
        Some("vpp_qsv=w=iw*sar:h=ih,vpp_qsv=w=1440:h=1080,setsar=1")
    );
}

// Further cases.

#[test]
fn pad_qsv_without_size_has_no_argument() {
    let pad = PadQsv {
        size: None,
        scale: None,
    };
    assert_eq!(pad.as_arg(), None);

    let unsized_scale = PadQsv {
        size: Some(FrameSize {
            width: 1920,
            height: 1080,
        }),
        scale: Some(ScaleQsv {
            size: None,
            input_is_anamorphic: false,
        }),
    };
    assert_eq!(
        unsized_scale.as_arg().as_deref(),
        Some("vpp_qsv=pad_w=1920:pad_h=1080:pad_x=-1:pad_y=-1:pad_color=black")
    );
}

#[test]
fn fused_pad_leaves_frames_as_scale_then_pad() {
    let scale = ScaleQsv {
        size: Some(FrameSize {
            width: 1440,
            height: 1080,
        }),
        input_is_anamorphic: true,
    };
    let size = Some(FrameSize {
        width: 1920,
        height: 1080,
    });
    let fused = PadQsv {
        size,
        scale: Some(scale),
    };
    let pad = PadQsv { size, scale: None };

    let mut one = make_frame_state();
    one.is_anamorphic = true;
    one.surface = FrameSurface::System;
    fused.apply_to(&mut one);

    let mut two = make_frame_state();
    two.is_anamorphic = true;
    two.surface = FrameSurface::System;
    scale.apply_to(&mut two);
    pad.apply_to(&mut two);

    assert_eq!(one.size, two.size);
    assert_eq!(one.surface, two.surface);
    assert_eq!(one.is_anamorphic, two.is_anamorphic);
    assert_eq!(one.sample_aspect_ratio, two.sample_aspect_ratio);
    assert_eq!(one.display_aspect_ratio, two.display_aspect_ratio);
}

#[test]
fn format_and_deinterlace_arguments() {
    assert_eq!(
        FormatQsv {
            format: PixelFormat::P010le
        }
        .as_arg()
        .as_deref(),
        Some("vpp_qsv=format=p010le")
    );
    assert_eq!(
        DeinterlaceQsv { mode: None }.as_arg().as_deref(),
        Some("deinterlace_qsv=mode=2")
    );
    assert_eq!(
        DeinterlaceQsv {
            mode: Some(String::from("1"))
        }
        .as_arg()
        .as_deref(),
        Some("deinterlace_qsv=mode=1")
    );

    let mut state = make_frame_state();
    state.is_interlaced = true;
    state.surface = FrameSurface::System;
    DeinterlaceQsv { mode: None }.apply_to(&mut state);
    assert!(!state.is_interlaced);
    assert_eq!(state.surface, FrameSurface::Qsv);
}

#[test]
fn best_filter_uses_qsv_scale_and_deinterlace_when_available() {
    let qsv = make_qsv();
    let mut info = make_ffmpeg_info(false);
    info.video_filters
        .push(KnownVideoFilter::DeinterlaceQsv.to_string());
    let options = VideoFilterOptions {
        deinterlace_qsv: DeinterlaceQsvOptions {
            mode: Some(String::from("1")),
        },
    };
    let scale = VideoFilter::Scale(ScaleFilter {
        size: Some(FrameSize {
            width: 1280,
            height: 720,
        }),
        scaling_mode: ScalingMode::ScaleAndPad,
        input_is_anamorphic: true,
        force_original_aspect_ratio: None,
    });
    assert!(matches!(
        qsv.best_filter(&scale, &info, &make_frame_state(), &options),
        VideoFilter::ScaleQsv(ScaleQsv {
            input_is_anamorphic: true,
            ..
        })
    ));
    match qsv.best_filter(
        &VideoFilter::Deinterlace(DeinterlaceFilter {}),
        &info,
        &make_frame_state(),
        &options,
    ) {
        VideoFilter::DeinterlaceQsv(d) => assert_eq!(d.mode.as_deref(), Some("1")),
        other => panic!("expected DeinterlaceQsv, got {other:?}"),
    }
    assert!(matches!(
        qsv.best_filter(&scale, &FfmpegInfo::default(), &make_frame_state(), &options),
        VideoFilter::Scale(_)
    ));
}

#[test]
fn qsv_decodes_h264_and_hevc_only() {
    let mut qsv = make_qsv();
    qsv.capabilities
        .supported_decoders
        .insert(VideoFormat::H264, vec![8]);
    qsv.capabilities
        .supported_decoders
        .insert(VideoFormat::Vp9, vec![8]);
    assert!(qsv.can_decode("h264", "high", &PixelFormat::Yuv420p));
    assert!(!qsv.can_decode("h264", "high 10", &PixelFormat::Yuv420p10le));
    assert!(!qsv.can_decode("vp9", "profile 0", &PixelFormat::Yuv420p));
    assert!(!qsv.can_decode("hevc", "main", &PixelFormat::Yuv420p));
}

#[test]
fn qsv_codecs_and_device() {
    let qsv = make_qsv();
    let h264 = qsv
        .codec_for_format(&VideoFormat::H264, 8, None)
        .unwrap();
    assert_eq!(h264.codec_name, "h264_qsv");
    assert_eq!(
        h264.options,
        vec!["-low_power", "0", "-look_ahead", "0", "-forced_idr", "1"]
    );
    let hevc = qsv
        .codec_for_format(&VideoFormat::Hevc, 10, None)
        .unwrap();
    assert_eq!(hevc.codec_name, "hevc_qsv");
    assert_eq!(hevc.options.len(), 8);
    assert!(qsv.codec_for_format(&VideoFormat::Av1, 8, None).is_none());
    assert_eq!(
        qsv.init_hw_device(&SurfaceSet::default()),
        vec!["-init_hw_device", "qsv=hw", "-filter_hw_device", "hw"]
    );
}

#[test]
fn qsv_upload_follows_vpp_formats() {
    let mut qsv = make_qsv();
    qsv.capabilities.vpp_pixel_formats = vec![QsvFourCC(MFX_FOURCC_NV12)];
    assert!(qsv.accepts_upload_format(&PixelFormat::Yuv420p));
    assert!(!qsv.accepts_upload_format(&PixelFormat::P010le));
}
