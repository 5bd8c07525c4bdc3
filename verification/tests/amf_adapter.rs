use ffpipeline::capabilities::amf::adapter::{choose_adapter, choose_with_hint};
use ffpipeline::d3d11::{AdapterInfo, DXGI_ADAPTER_FLAG_SOFTWARE, VENDOR_ID_AMD};

fn adapter(index: u32, vendor_id: u32, vram_mib: usize, luid: u8, flags: u32) -> AdapterInfo {
    AdapterInfo {
        index,
        description: format!("adapter {index}"),
        vendor_id,
        device_id: index,
        dedicated_video_memory: vram_mib << 20,
        luid: [luid; 8],
        flags,
    }
}

const IGPU: u32 = 0;
const DGPU: u32 = 1;

fn laptop() -> Vec<AdapterInfo> {
    vec![
        adapter(IGPU, VENDOR_ID_AMD, 512, 1, 0),
        adapter(DGPU, VENDOR_ID_AMD, 8192, 2, 0),
        adapter(2, 0x1414, 0, 3, DXGI_ADAPTER_FLAG_SOFTWARE),
    ]
}

#[test]
fn vulkan_luid_wins_when_it_matches() {
    let adapters = laptop();
    assert_eq!(
        choose_adapter(&adapters, || Some([1; 8])).map(|a| a.index),
        Some(IGPU)
    );
    assert_eq!(
        choose_adapter(&adapters, || Some([2; 8])).map(|a| a.index),
        Some(DGPU)
    );
}

#[test]
fn falls_back_to_dedicated_memory() {
    let adapters = laptop();
    assert_eq!(choose_adapter(&adapters, || None).map(|a| a.index), Some(DGPU));
    assert_eq!(
        choose_adapter(&adapters, || Some([9; 8])).map(|a| a.index),
        Some(DGPU)
    );
}

#[test]
fn single_amd_adapter_needs_no_hint() {
    let adapters = vec![
        adapter(0, 0x10de, 16384, 1, 0),
        adapter(1, VENDOR_ID_AMD, 512, 2, 0),
    ];
    let chosen = choose_adapter(&adapters, || panic!("hint should not be consulted"));
    assert_eq!(chosen.map(|a| a.index), Some(1));
}

#[test]
fn ignores_non_amd_and_software_adapters() {
    let adapters = vec![
        adapter(0, 0x10de, 16384, 1, 0),
        adapter(1, 0x1414, 0, 2, DXGI_ADAPTER_FLAG_SOFTWARE),
    ];
    assert!(choose_adapter(&adapters, || None).is_none());

    let software_amd = vec![adapter(0, VENDOR_ID_AMD, 0, 1, DXGI_ADAPTER_FLAG_SOFTWARE)];
    assert!(choose_adapter(&software_amd, || None).is_none());
}

// Further cases.

#[test]
fn equal_memory_prefers_the_last_adapter() {
    let adapters = vec![
        adapter(0, VENDOR_ID_AMD, 4096, 1, 0),
        adapter(1, VENDOR_ID_AMD, 4096, 2, 0),
        adapter(2, VENDOR_ID_AMD, 1024, 3, 0),
    ];
    assert_eq!(choose_with_hint(&adapters, None).map(|a| a.index), Some(1));
}

#[test]
fn hint_matching_a_software_adapter_is_ignored() {
    let mut adapters = laptop();
    adapters.push(adapter(3, VENDOR_ID_AMD, 0, 7, DXGI_ADAPTER_FLAG_SOFTWARE));
    assert_eq!(
        choose_with_hint(&adapters, Some([7; 8])).map(|a| a.index),
        Some(DGPU)
    );
}

#[test]
fn no_adapters_choose_nothing() {
    assert!(choose_with_hint(&[], Some([1; 8])).is_none());
}
