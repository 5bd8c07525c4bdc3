use ffpipeline::capabilities::amf::adapter::{
    adapter_summary, on_step_failure, requested_but, select_adapter, target_adapter,
    AmfDeviceTarget, DxgiFailure,
};
use ffpipeline::d3d11::{AdapterInfo, VENDOR_ID_AMD};
use ffpipeline::error::FFPipelineError;

fn adapter(index: u32, vendor_id: u32, vram_mib: usize) -> AdapterInfo {
    AdapterInfo {
        index,
        description: format!("adapter {index}"),
        vendor_id,
        device_id: 0x73ff,
        dedicated_video_memory: vram_mib << 20,
        luid: [index as u8; 8],
        flags: 0,
    }
}

#[test]
fn explicit_index_picks_that_adapter_whatever_its_vendor() {
    let adapters = vec![adapter(0, VENDOR_ID_AMD, 512), adapter(1, 0x10de, 8192)];
    let chosen = target_adapter(&AmfDeviceTarget::Adapter(1), &adapters, || None);
    assert_eq!(chosen.ok().flatten().map(|a| a.index), Some(1));
}

#[test]
fn missing_explicit_index_is_an_error() {
    let adapters = vec![adapter(0, VENDOR_ID_AMD, 512), adapter(1, VENDOR_ID_AMD, 8192)];
    match target_adapter(&AmfDeviceTarget::Adapter(7), &adapters, || None) {
        Err(FFPipelineError::AmfCapabilitiesError(message)) => {
            assert_eq!(message, "amf_device 7 not found (2 adapters present)")
        }
        other => panic!("expected an error, got {:?}", other.map(|a| a.map(|a| a.index))),
    }
}

#[test]
fn auto_picks_the_best_amd_adapter() {
    let adapters = vec![adapter(0, VENDOR_ID_AMD, 512), adapter(1, VENDOR_ID_AMD, 8192)];
    let chosen = target_adapter(&AmfDeviceTarget::Auto, &adapters, || None);
    assert_eq!(chosen.ok().flatten().map(|a| a.index), Some(1));

    let nvidia = [adapter(0, 0x10de, 512)];
    let none = target_adapter(&AmfDeviceTarget::Auto, &nvidia, || None);
    assert!(matches!(none, Ok(None)));
}

#[test]
fn failed_steps_fall_back_only_without_an_explicit_index() {
    let auto = on_step_failure::<u32>(&AmfDeviceTarget::Auto, String::from("no dxgi"));
    assert!(matches!(auto, Ok(None)));

    let message = requested_but(&AmfDeviceTarget::Adapter(2), "DXGI is unavailable: gone");
    assert_eq!(message, "Adapter(2) requested but DXGI is unavailable: gone");
    match on_step_failure::<u32>(&AmfDeviceTarget::Adapter(2), message) {
        Err(FFPipelineError::AmfCapabilitiesError(m)) => {
            assert_eq!(m, "Adapter(2) requested but DXGI is unavailable: gone")
        }
        _ => panic!("expected an error"),
    }
    assert_eq!(AmfDeviceTarget::Auto.describe(), "Auto");
}

#[test]
fn summary_keeps_the_identity() {
    let a = adapter(3, VENDOR_ID_AMD, 512);
    let summary = adapter_summary(&a);
    assert_eq!(summary.index, 3);
    assert_eq!(summary.description, "adapter 3");
    assert_eq!(summary.vendor_id, VENDOR_ID_AMD);
    assert_eq!(summary.device_id, 0x73ff);
}

#[test]
fn selection_composes_the_dxgi_steps() {
    let adapters = vec![adapter(0, VENDOR_ID_AMD, 512), adapter(1, VENDOR_ID_AMD, 8192)];

    let auto = select_adapter(&AmfDeviceTarget::Auto, Ok(&adapters), || None, |i| Ok::<u32, String>(i + 100));
    match auto {
        Ok(Some((a, device))) => {
            assert_eq!(a.index, 1);
            assert_eq!(device, 101);
        }
        _ => panic!("expected adapter 1"),
    }

    let failed = select_adapter(&AmfDeviceTarget::Auto, Ok(&adapters), || None, |_| Err::<u32, String>(String::from("E_FAIL")));
    assert!(matches!(failed, Ok(None)));

    let no_dxgi = select_adapter(&AmfDeviceTarget::Auto, Err(DxgiFailure::Load(String::from("gone"))), || None, |_| Ok::<u32, String>(0));
    assert!(matches!(no_dxgi, Ok(None)));

    match select_adapter(&AmfDeviceTarget::Adapter(0), Err(DxgiFailure::Load(String::from("gone"))), || None, |_| Ok::<u32, String>(0)) {
        Err(FFPipelineError::AmfCapabilitiesError(m)) => assert_eq!(m, "Adapter(0) requested but DXGI is unavailable: gone"),
        _ => panic!("expected an error"),
    }
    match select_adapter(&AmfDeviceTarget::Adapter(0), Err(DxgiFailure::Enumerate(String::from("EnumAdapters1(0) failed"))), || None, |_| Ok::<u32, String>(0)) {
        Err(FFPipelineError::AmfCapabilitiesError(m)) => assert_eq!(m, "Adapter(0) requested but EnumAdapters1(0) failed"),
        _ => panic!("expected an error"),
    }
    match select_adapter(&AmfDeviceTarget::Adapter(0), Ok(&adapters), || None, |_| Err::<u32, String>(String::from("D3D11CreateDevice failed"))) {
        Err(FFPipelineError::AmfCapabilitiesError(m)) => assert_eq!(m, "D3D11CreateDevice failed"),
        _ => panic!("expected an error"),
    }
    match select_adapter(&AmfDeviceTarget::Adapter(0), Ok(&adapters), || None, |i| Ok::<u32, String>(i)) {
        Ok(Some((a, d))) => {
            assert_eq!(a.index, 0);
            assert_eq!(d, 0);
        }
        _ => panic!("expected adapter 0"),
    }
}
