use ffpipeline::capabilities::qsv::{
    QsvCapabilities, QsvFourCC, MFX_EXTBUFF_VIDEO_SIGNAL_INFO_IN,
    MFX_EXTBUFF_VIDEO_SIGNAL_INFO_OUT, MFX_FOURCC_NV12, MFX_FOURCC_P010,
};
use ffpipeline::format_map::FormatMap;
use ffpipeline::pipeline::VideoFormat;

fn caps(runtime_api: Option<(u16, u16)>, filters: &[u32], formats: &[u32]) -> QsvCapabilities {
    QsvCapabilities {
        supported_decoders: FormatMap::new(),
        supported_encoders: FormatMap::new(),
        vpp_pixel_formats: formats.iter().map(|f| QsvFourCC(*f)).collect(),
        vpp_filters: filters.iter().map(|f| QsvFourCC(*f)).collect(),
        runtime_api,
    }
}

const VSI: &[u32] = &[
    MFX_EXTBUFF_VIDEO_SIGNAL_INFO_IN,
    MFX_EXTBUFF_VIDEO_SIGNAL_INFO_OUT,
];

#[test]
fn can_tonemap_on_vpl_runtime_with_signal_info_and_p010() {
    assert!(caps(Some((2, 17)), VSI, &[MFX_FOURCC_NV12, MFX_FOURCC_P010]).can_tonemap());
}

#[test]
fn cannot_tonemap_on_legacy_runtime() {
    assert!(!caps(Some((1, 35)), VSI, &[MFX_FOURCC_P010]).can_tonemap());
    assert!(!caps(Some((1, 35)), &[], &[MFX_FOURCC_P010]).can_tonemap());
    assert!(!caps(None, VSI, &[MFX_FOURCC_P010]).can_tonemap());
}

#[test]
fn cannot_tonemap_without_both_signal_info_filters() {
    assert!(!caps(
        Some((2, 17)),
        &[MFX_EXTBUFF_VIDEO_SIGNAL_INFO_IN],
        &[MFX_FOURCC_P010]
    )
    .can_tonemap());
    assert!(!caps(Some((2, 17)), &[], &[MFX_FOURCC_P010]).can_tonemap());
}

#[test]
fn cannot_tonemap_without_p010_vpp_support() {
    assert!(!caps(Some((2, 17)), VSI, &[MFX_FOURCC_NV12]).can_tonemap());
}

// Further cases.

#[test]
fn vpp_filter_names_are_sorted_and_distinct() {
    let c = caps(
        Some((2, 17)),
        &[
            MFX_EXTBUFF_VIDEO_SIGNAL_INFO_OUT,
            MFX_EXTBUFF_VIDEO_SIGNAL_INFO_IN,
            MFX_EXTBUFF_VIDEO_SIGNAL_INFO_OUT,
        ],
        &[],
    );
    let name = |code: u32| String::from_utf8_lossy(&code.to_ne_bytes()).into_owned();
    let mut expected = vec![
        name(MFX_EXTBUFF_VIDEO_SIGNAL_INFO_IN),
        name(MFX_EXTBUFF_VIDEO_SIGNAL_INFO_OUT),
    ];
    expected.sort();
    assert!(expected == ["VSIN", "VSOT"] || expected == ["NISV", "TOSV"]);
    assert_eq!(c.vpp_filters(), expected);
}

#[test]
fn decode_and_encode_follow_reported_bit_depths() {
    let mut c = caps(None, &[], &[]);
    c.supported_decoders.insert(VideoFormat::Hevc, vec![8, 10]);
    c.supported_encoders.insert(VideoFormat::H264, vec![8]);
    assert!(c.can_decode(&VideoFormat::Hevc, 10));
    assert!(!c.can_decode(&VideoFormat::H264, 8));
    assert!(c.can_encode(&VideoFormat::H264, 8));
    assert!(!c.can_encode(&VideoFormat::H264, 10));
    assert_eq!(c.count(), 2);
    assert_eq!(c.runtime_api(), None);
}
