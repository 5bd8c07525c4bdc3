use ffpipeline::ffmpeg_info::{FfmpegInfo, KnownVideoFilter};

#[test]
fn test_best_fit_no_preference_select_first() {
    let video_filters: Vec<String> = [
        KnownVideoFilter::TonemapOpencl,
        KnownVideoFilter::TonemapVaapi,
    ]
    .iter()
    .map(|f| f.to_string())
    .collect();

    let info: FfmpegInfo = FfmpegInfo {
        hwaccels: Vec::new(),
        video_filters,
        preferred_filters: Vec::new(),
        video_filter_options: Vec::new(),
        decoders: Vec::new(),
    };

    let best_fit = info.find_best_fit(
        [
            KnownVideoFilter::TonemapOpencl,
            KnownVideoFilter::TonemapVaapi,
        ]
        .as_ref(),
    );

    assert!(info.has_video_filter(&KnownVideoFilter::TonemapOpencl));
    assert_eq!(best_fit, Some(&KnownVideoFilter::TonemapOpencl));
}

#[test]
fn test_best_fit_preference_select_by_preference() {
    let video_filters: Vec<String> = [
        KnownVideoFilter::TonemapOpencl,
        KnownVideoFilter::TonemapVaapi,
    ]
    .iter()
    .map(|f| f.to_string())
    .collect();

    let preferred_filters = vec![
        (KnownVideoFilter::TonemapOpencl.to_string(), 1),
        (KnownVideoFilter::TonemapVaapi.to_string(), 0),
    ];

    let info = FfmpegInfo {
        hwaccels: Vec::new(),
        video_filters,
        preferred_filters,
        video_filter_options: Vec::new(),
        decoders: Vec::new(),
    };

    let best_fit = info.find_best_fit(
        [
            KnownVideoFilter::TonemapOpencl,
            KnownVideoFilter::TonemapVaapi,
        ]
        .as_ref(),
    );

    assert_eq!(best_fit, Some(&KnownVideoFilter::TonemapVaapi));
}

#[test]
fn test_parse_filter_options() {
    let help_text = r"Filter vpp_qsv
  Description: Quick Sync Video VPP.
  Inputs:
       #0: default (video)
  Outputs:
       #0: default (video)
vpp_qsv AVOptions:
   deinterlace       <int>        ..FV....... deinterlace mode: 0=off, 1=bob, 2=advanced (from 0 to 2) (default 0)
   denoise           <int>        ..FV....... denoise level [0, 100] (from 0 to 100) (default 0)
   pad_w             <int>        ..FV....... set the padded output width (0 = no padding) (from 0 to 32767) (default 0)
   pad_h             <int>        ..FV....... set the padded output height (0 = no padding) (from 0 to 32767) (default 0)
   pad_color         <color>      ..FV....... set the colour of the padded area (default 'black')
";
    let options = FfmpegInfo::parse_filter_options(help_text);
    let contains = |name: &str| options.iter().any(|o| o == name);

    assert!(contains("deinterlace"));
    assert!(contains("pad_w"));
    assert!(contains("pad_color"));
    assert!(!contains("#0:"));
    assert!(!contains("Description:"));
}

#[test]
fn test_video_filter_has_option() {
    let video_filters = vec![KnownVideoFilter::VppQsv.to_string()];

    let video_filter_options = vec![(
        KnownVideoFilter::VppQsv.to_string(),
        vec![String::from("pad_w"), String::from("pad_h")],
    )];

    let info = FfmpegInfo {
        video_filters,
        video_filter_options,
        ..Default::default()
    };

    assert!(info.video_filter_has_option(&KnownVideoFilter::VppQsv, "pad_w"));
    assert!(!info.video_filter_has_option(&KnownVideoFilter::VppQsv, "does_not_exist"));
    assert!(!info.video_filter_has_option(&KnownVideoFilter::PadVaapi, "pad_w"));
}

#[test]
fn test_linux_escape_path() {
    let input = r"/movies/Big Buck Bunny [2008]/Big Buck Bunny [2008].en.srt";
    let result = FfmpegInfo::escape_path(input);
    assert_eq!(
        result,
        r"/movies/Big Buck Bunny \[2008\]/Big Buck Bunny \[2008\].en.srt"
    );
}

#[test]
fn test_linux_escape_path_apostrophe() {
    let input = r"/media/World's [2019]/ep's.mkv";
    let result = FfmpegInfo::escape_path(input);
    assert_eq!(result, r"/media/World\\\'s \[2019\]/ep\\\'s.mkv");
}

// Further cases.

#[test]
fn best_fit_of_absent_filters_is_none() {
    let info = FfmpegInfo::default();
    assert_eq!(
        info.find_best_fit(&[KnownVideoFilter::TonemapOpencl]),
        None
    );
}

#[test]
fn escape_filter_value_escapes_each_delimiter() {
    assert_eq!(
        FfmpegInfo::escape_filter_value(r"a:b,c;d\e"),
        r"a\\:b\,c\;d\\\\e"
    );
}

#[test]
fn parse_hw_accels_skips_the_header() {
    let out = "Hardware acceleration methods:\nvaapi\nqsv\n\n";
    assert_eq!(FfmpegInfo::parse_hw_accels(out), vec!["vaapi", "qsv"]);
}

#[test]
fn known_decoder_presence() {
    let info = FfmpegInfo {
        decoders: vec![String::from("h264_amf")],
        ..Default::default()
    };
    assert!(info.has_decoder("h264_amf"));
    assert!(!info.has_decoder("hevc_amf"));
}

#[test]
fn parse_video_filters_keeps_known_enabled_filters() {
    let out = " ... scale_vaapi       V->V       Scale to/from VAAPI surfaces.\n \
               ... vpp_qsv           V->V       Quick Sync Video VPP.\n \
               ... scale             V->V       Scale the input video size.\n \
               ... yadif             V->V       Deinterlace the input image.\n";
    let filters = FfmpegInfo::parse_video_filters(out, &vec![String::from("yadif")]);
    assert_eq!(filters, vec!["scale_vaapi", "vpp_qsv"]);
}

#[test]
fn preferences_keep_the_last_position_of_available_filters() {
    let preferred = vec![
        String::from("vpp_qsv"),
        String::from("missing"),
        String::from("scale_vaapi"),
        String::from("vpp_qsv"),
    ];
    let available = vec![String::from("vpp_qsv"), String::from("scale_vaapi")];
    let mut positions = FfmpegInfo::preferred_positions(&preferred, &available);
    positions.sort();
    assert_eq!(
        positions,
        vec![(String::from("scale_vaapi"), 2), (String::from("vpp_qsv"), 3)]
    );
}

#[test]
fn only_vpp_qsv_options_are_probed() {
    assert_eq!(
        FfmpegInfo::option_probed_filters(&vec![
            String::from("scale_vaapi"),
            String::from("vpp_qsv")
        ]),
        vec![KnownVideoFilter::VppQsv]
    );
    assert!(FfmpegInfo::option_probed_filters(&vec![String::from("scale_vaapi")]).is_empty());
}

#[test]
fn test_windows_escape_path() {
    let input = r"C:\Movies\foo[1].srt";
    let result = FfmpegInfo::escape_windows_path(input);
    assert_eq!(result, r"C\\:/Movies/foo\[1\].srt");
}

#[test]
fn options_of_an_absent_filter_do_not_count() {
    let info = FfmpegInfo {
        video_filter_options: vec![(
            KnownVideoFilter::VppQsv.to_string(),
            vec![String::from("pad_w")],
        )],
        ..Default::default()
    };
    assert!(!info.video_filter_has_option(&KnownVideoFilter::VppQsv, "pad_w"));
}

#[test]
fn parse_decoders_keeps_known_amf_decoders() {
    let out = "Decoders:\n V..... = Video\n ------\n V....D h264                 H.264 / AVC\n V....D h264_amf             AMD AMF H.264 decoder\n V....D hevc_amf             AMD AMF HEVC decoder\n V....D h264_amf             again\n";
    assert_eq!(FfmpegInfo::parse_decoders(out), vec!["h264_amf", "hevc_amf"]);
}

#[test]
fn loaded_info_keeps_known_enabled_and_preferred_filters() {
    let accels = "Hardware acceleration methods:\nvaapi\nbogus\nqsv\n";
    let filters = " ... scale_vaapi       V->V       Scale to/from VAAPI surfaces.\n \
                   ... vpp_qsv           V->V       Quick Sync Video VPP.\n \
                   ... yadif             V->V       Deinterlace the input image.\n";
    let help = "vpp_qsv AVOptions:\n  pad_w             <int>        ..FV....... padding width\n";
    let decoders = " V....D hevc_amf             AMD AMF HEVC decoder\n";
    let info = FfmpegInfo::from_outputs(
        accels,
        filters,
        &vec![String::from("yadif")],
        &vec![String::from("yadif"), String::from("vpp_qsv"), String::from("missing")],
        Some(help),
        decoders,
    );
    assert_eq!(info.hwaccels, vec!["vaapi", "qsv"]);
    assert_eq!(info.video_filters, vec!["scale_vaapi", "vpp_qsv"]);
    assert_eq!(info.preferred_filters, vec![(String::from("vpp_qsv"), 1)]);
    assert_eq!(
        info.video_filter_options,
        vec![(String::from("vpp_qsv"), vec![String::from("pad_w")])]
    );
    assert_eq!(info.decoders, vec!["hevc_amf"]);
    assert!(info.video_filter_has_option(&KnownVideoFilter::VppQsv, "pad_w"));
}

#[test]
fn loaded_info_probes_no_options_without_vpp_qsv() {
    let filters = " ... scale_vaapi       V->V       Scale to/from VAAPI surfaces.\n";
    let help = "vpp_qsv AVOptions:\n  pad_w             <int>        ..FV....... padding width\n";
    let info = FfmpegInfo::from_outputs("", filters, &vec![], &vec![], Some(help), "");
    assert!(info.video_filter_options.is_empty());
    assert!(info.hwaccels.is_empty());
    assert!(info.preferred_filters.is_empty());
}
