use ffpipeline::probe::{FrameRate, ProbeResult, ProbeResultColorParams, ProbeResultVideoStream, CodecType};

#[test]
fn frame_rates() {
    assert_eq!(
        FrameRate::parse("30000/1001"),
        Some(FrameRate {
            numerator: 30000,
            denominator: 1001
        })
    );
    assert_eq!(
        FrameRate::parse("25"),
        Some(FrameRate {
            numerator: 25,
            denominator: 1
        })
    );
    assert_eq!(FrameRate::parse("25/0"), None);
    assert_eq!(FrameRate::parse(""), None);
    assert_eq!(FrameRate::parse("/1"), None);
    assert_eq!(FrameRate::parse("2x/1"), None);
    assert_eq!(FrameRate::parse("4294967296"), None);
    assert_eq!(FrameRate::parse("1/2/3"), None);
}

fn stream(field_order: Option<&str>) -> ProbeResultVideoStream {
    ProbeResultVideoStream {
        stream_index: 0,
        codec: String::from("h264"),
        codec_type: CodecType::Video,
        dv_profile: None,
        profile: String::from("high"),
        height: None,
        width: None,
        frame_rate: None,
        sample_aspect_ratio: None,
        display_aspect_ratio: None,
        pix_fmt: String::from("yuv420p"),
        color_params: ProbeResultColorParams::default(),
        field_order: field_order.map(String::from),
        rotation: None,
    }
}

#[test]
fn interlacing_follows_the_field_order() {
    assert!(stream(Some("tt")).is_interlaced());
    assert!(stream(Some("bt")).is_interlaced());
    assert!(!stream(Some("progressive")).is_interlaced());
    assert!(!stream(None).is_interlaced());
}

#[test]
fn pq_follows_the_transfer() {
    let mut params = ProbeResultColorParams::default();
    assert!(!params.is_pq());
    params.color_transfer = Some(String::from("smpte2084"));
    assert!(params.is_pq());
    params.color_transfer = Some(String::from("arib-std-b67"));
    assert!(!params.is_pq());
}

#[test]
fn probe_result_text_is_the_report() {
    let result = ProbeResult {
        path: String::from("a.mkv"),
        json: String::from("{\"streams\":[]}"),
    };
    assert_eq!(result.to_display_string(), "{\"streams\":[]}");
}
