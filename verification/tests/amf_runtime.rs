use ffpipeline::amf_sys::{AMF_ACCEL_GPU, AMF_ACCEL_NOT_SUPPORTED, AMF_FULL_VERSION, AMF_SURFACE_NV12, AMF_SURFACE_P010};
use ffpipeline::capabilities::amf::runtime::{
    amf_requested_version, assemble_capabilities, component_usable, context_outcome,
    decoder_components, decoder_table, encoder_capability, encoder_components, first_backend,
    init_step, no_usable_device, queried_runtime_version, runtime_init_outcome,
    runtime_load_failure, trial_surface, InitAttempt, InitBackend, InitOutcome,
};
use ffpipeline::capabilities::amf::{AmfAdapter, AmfDevice};
use ffpipeline::error::FFPipelineError;
use ffpipeline::format_map::FormatMap;
use ffpipeline::pipeline::VideoFormat;

#[test]
fn requested_version_never_exceeds_either_side() {
    assert_eq!(amf_requested_version(None), AMF_FULL_VERSION);
    assert_eq!(amf_requested_version(Some(0x0001_0004_0022_0000)), 0x0001_0004_0022_0000);
    assert_eq!(amf_requested_version(Some(0x0001_0006_0000_0000)), AMF_FULL_VERSION);
}

#[test]
fn unsupported_components_are_skipped() {
    assert!(!component_usable(AMF_ACCEL_NOT_SUPPORTED));
    assert!(component_usable(AMF_ACCEL_GPU));
}

#[test]
fn backends_fall_back_in_order_without_a_chosen_adapter() {
    assert_eq!(first_backend(true), InitBackend::Dx11);
    assert_eq!(first_backend(false), InitBackend::Vulkan);

    let mut failures = Vec::new();
    assert!(matches!(
        init_step(InitAttempt::Dx11(1), None, &mut failures),
        InitOutcome::Next(InitBackend::Dx9)
    ));
    assert!(matches!(
        init_step(InitAttempt::Dx9(17), None, &mut failures),
        InitOutcome::Next(InitBackend::Vulkan)
    ));
    assert!(matches!(
        init_step(InitAttempt::VulkanUnavailable(8), None, &mut failures),
        InitOutcome::Exhausted
    ));
    assert_eq!(
        failures,
        vec![
            "InitDX11: AMF_FAIL",
            "InitDX9: AMF_NO_DEVICE",
            "AMFContext1 (Vulkan) unavailable: AMF_NO_INTERFACE"
        ]
    );
    match no_usable_device(&failures) {
        FFPipelineError::AmfCapabilitiesError(m) => assert_eq!(
            m,
            "no usable device (InitDX11: AMF_FAIL; InitDX9: AMF_NO_DEVICE; AMFContext1 (Vulkan) unavailable: AMF_NO_INTERFACE)"
        ),
        other => panic!("unexpected {other:?}"),
    }
}

#[test]
fn dx11_failure_on_a_chosen_adapter_is_final() {
    let adapter = AmfAdapter {
        index: 1,
        description: String::from("RX 6600M"),
        vendor_id: 0x1002,
        device_id: 0x73ff,
    };
    let mut failures = Vec::new();
    match init_step(InitAttempt::Dx11(1), Some(&adapter), &mut failures) {
        InitOutcome::Failed(FFPipelineError::AmfCapabilitiesError(m)) => {
            assert_eq!(m, "InitDX11 on adapter 1 (\"RX 6600M\") failed: AMF_FAIL")
        }
        other => panic!("unexpected {other:?}"),
    }
    assert!(failures.is_empty());
    assert!(matches!(
        init_step(InitAttempt::Dx11(0), Some(&adapter), &mut failures),
        InitOutcome::Ready(AmfDevice::Dx11)
    ));
    assert!(matches!(
        init_step(InitAttempt::Vulkan(0), None, &mut failures),
        InitOutcome::Ready(AmfDevice::Vulkan)
    ));
}

#[test]
fn trial_surfaces_and_encoder_capability() {
    assert_eq!(trial_surface(8, false), Some(AMF_SURFACE_NV12));
    assert_eq!(trial_surface(10, true), Some(AMF_SURFACE_P010));
    assert_eq!(trial_surface(10, false), None);
    assert_eq!(trial_surface(12, true), None);

    assert!(encoder_capability(Vec::new(), Some(true), Some(1), Some(2)).is_none());
    let cap = encoder_capability(vec![8, 10], None, Some(2), Some(186)).unwrap();
    assert_eq!(cap.bit_depths, vec![8, 10]);
    assert!(!cap.b_frames);
    assert_eq!(cap.max_profile, Some(2));
    assert_eq!(cap.max_level, Some(186));
}

#[test]
fn decoder_table_joins_components_of_one_format() {
    let rows = decoder_components();
    assert_eq!(rows.len(), 8);
    assert_eq!(rows[4].1, "AMFVideoDecoderHW_H265_MAIN10");
    let probed: Vec<(VideoFormat, Vec<u8>)> = vec![
        (VideoFormat::Mpeg2Video, vec![]),
        (VideoFormat::H264, vec![8]),
        (VideoFormat::Hevc, vec![8]),
        (VideoFormat::Hevc, vec![10]),
        (VideoFormat::Vp9, vec![]),
    ];
    let table = decoder_table(&probed);
    assert_eq!(table.len(), 2);
    assert_eq!(table.get(&VideoFormat::Hevc), Some(&vec![8, 10]));
    assert_eq!(table.get(&VideoFormat::H264), Some(&vec![8]));
    assert!(table.get(&VideoFormat::Mpeg2Video).is_none());

    let encoders = encoder_components();
    assert_eq!(encoders.len(), 3);
    assert!(encoders[1].b_frames.is_none());
    assert_eq!(encoders[2].ten_bit.map(|t| t.profile_value), Some(1));

    let caps = assemble_capabilities(
        table,
        FormatMap::new(),
        Vec::new(),
        Vec::new(),
        Some(0x0001_0004_0022_0000),
        AmfDevice::Dx11,
        None,
    );
    assert_eq!(caps.runtime_version(), Some((1, 4, 34, 0)));
    assert!(caps.can_decode(&VideoFormat::Hevc, 10));
    assert_eq!(caps.device(), Some(AmfDevice::Dx11));
}

#[test]
fn runtime_version_is_known_only_after_a_successful_query() {
    assert_eq!(queried_runtime_version(0, 0x0001_0004_0024_0000), Some(0x0001_0004_0024_0000));
    assert_eq!(queried_runtime_version(-1, 0x0001_0004_0024_0000), None);
}

#[test]
fn runtime_load_failure_is_an_amf_capabilities_error() {
    assert!(matches!(
        runtime_load_failure("no such library"),
        FFPipelineError::AmfCapabilitiesError(m) if m == "failed to load the AMF runtime: no such library"
    ));
}

#[test]
fn runtime_init_needs_success_and_a_factory() {
    assert!(runtime_init_outcome(0, true).is_ok());
    assert!(matches!(
        runtime_init_outcome(0, false),
        Err(FFPipelineError::AmfCapabilitiesError(m)) if m == "AMFInit failed: AMF_OK"
    ));
    match runtime_init_outcome(3, true) {
        Err(FFPipelineError::AmfCapabilitiesError(m)) => assert!(m.starts_with("AMFInit failed: ")),
        other => panic!("unexpected {other:?}"),
    }
}

#[test]
fn context_creation_needs_success_and_a_context() {
    assert!(context_outcome(0, true).is_ok());
    assert!(matches!(
        context_outcome(0, false),
        Err(FFPipelineError::AmfCapabilitiesError(m)) if m == "CreateContext failed: AMF_OK"
    ));
    assert!(matches!(
        context_outcome(-5, true),
        Err(FFPipelineError::AmfCapabilitiesError(m)) if m == "CreateContext failed: AMF_RESULT(-5)"
    ));
}
