use ffpipeline::amf_sys::{
    amf_make_full_version, amf_memory_type_name, amf_result_name, amf_surface_format_name,
    amf_version_parts, from_wide, wide, AMFGuid, AMF_FULL_VERSION,
};

#[test]
fn guid_matches_header() {
    assert_eq!(std::mem::size_of::<AMFGuid>(), 16);
    assert_eq!(std::mem::align_of::<AMFGuid>(), 4);
}

#[test]
fn version_round_trips() {
    assert_eq!(amf_version_parts(AMF_FULL_VERSION), (1, 5, 2, 0));
    assert_eq!(
        amf_make_full_version(1, 4, 35, 0),
        0x0001_0004_0023_0000_u64
    );
}

#[test]
fn wide_is_nul_terminated() {
    let w = wide("NV12");
    assert_eq!(w.len(), 5);
    assert_eq!(w[4], 0);
    assert_eq!(from_wide(&w), "NV12");
}

// Further cases.

#[test]
fn from_wide_stops_at_the_first_nul_and_replaces_non_scalars() {
    assert_eq!(from_wide(&[0x41, 0xD800, 0x42, 0, 0x43]), "A\u{FFFD}B");
    assert_eq!(from_wide(&[0x41, 0x42]), "AB");
    assert_eq!(from_wide(&[]), "");
}

#[test]
fn wide_keeps_code_points() {
    assert_eq!(wide("é€"), vec![0xE9, 0x20AC, 0]);
}

#[test]
fn names_of_known_and_unknown_codes() {
    assert_eq!(amf_result_name(0), "AMF_OK");
    assert_eq!(amf_result_name(-7), "AMF_RESULT(-7)");
    assert_eq!(amf_surface_format_name(1), "NV12");
    assert_eq!(amf_surface_format_name(1000), "AMF_SURFACE_FORMAT(1000)");
    assert_eq!(amf_memory_type_name(3), "DX11");
    assert_eq!(amf_memory_type_name(99), "AMF_MEMORY_TYPE(99)");
}

#[test]
fn version_parts_split_sixteen_bits_each() {
    assert_eq!(
        amf_version_parts(amf_make_full_version(0xFFFF, 0, 0xABCD, 1)),
        (0xFFFF, 0, 0xABCD, 1)
    );
}

#[test]
fn utf16_wide_form_round_trips() {
    let w = ffpipeline::amf_sys::wide_utf16("NV12");
    assert_eq!(w, vec![0x4E, 0x56, 0x31, 0x32, 0]);
    assert_eq!(ffpipeline::amf_sys::from_wide_utf16(&w), "NV12");

    let clef = ffpipeline::amf_sys::wide_utf16("a\u{1D11E}");
    assert_eq!(clef, vec![0x61, 0xD834, 0xDD1E, 0]);
    assert_eq!(ffpipeline::amf_sys::from_wide_utf16(&clef), "a\u{1D11E}");
    assert_eq!(ffpipeline::amf_sys::from_wide_utf16(&[0x41, 0xD800, 0x42, 0, 0x43]), "A\u{FFFD}B");
}
