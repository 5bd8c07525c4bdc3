use ffpipeline::d3d11::{
    succeeded, AdapterInfo, DXGI_ADAPTER_DESC1, DXGI_ADAPTER_FLAG_SOFTWARE, DXGI_ERROR_NOT_FOUND,
    LUID, VENDOR_ID_AMD,
};

#[test]
fn adapter_info_from_desc() {
    let mut desc = DXGI_ADAPTER_DESC1 {
        Description: [0; 128],
        VendorId: VENDOR_ID_AMD,
        DeviceId: 0x73ff,
        SubSysId: 0,
        Revision: 0,
        DedicatedVideoMemory: 8 << 30,
        DedicatedSystemMemory: 0,
        SharedSystemMemory: 0,
        AdapterLuid: LUID {
            LowPart: 0x0001_0203,
            HighPart: 0x0405_0607,
        },
        Flags: 0,
    };
    for (i, c) in "RX 6600M".encode_utf16().enumerate() {
        desc.Description[i] = c;
    }

    let info = AdapterInfo::from((1, &desc));
    assert_eq!(info.index, 1);
    assert_eq!(info.description, "RX 6600M");
    assert_eq!(info.vendor_id, VENDOR_ID_AMD);
    assert_eq!(info.device_id, 0x73ff);
    assert!(!info.is_software());

    let mut expected = [0u8; 8];
    expected[..4].copy_from_slice(&0x0001_0203_u32.to_ne_bytes());
    expected[4..].copy_from_slice(&0x0405_0607_i32.to_ne_bytes());
    assert_eq!(info.luid, expected);
}

#[test]
fn software_flag() {
    let info = AdapterInfo {
        index: 2,
        description: String::from("Microsoft Basic Render Driver"),
        vendor_id: 0x1414,
        device_id: 0x8c,
        dedicated_video_memory: 0,
        luid: [0; 8],
        flags: DXGI_ADAPTER_FLAG_SOFTWARE,
    };
    assert!(info.is_software());
}

// Further cases.

#[test]
fn description_without_terminator_uses_all_units() {
    let desc = DXGI_ADAPTER_DESC1 {
        Description: [0x41; 128],
        VendorId: 0,
        DeviceId: 0,
        SubSysId: 0,
        Revision: 0,
        DedicatedVideoMemory: 0,
        DedicatedSystemMemory: 0,
        SharedSystemMemory: 0,
        AdapterLuid: LUID {
            LowPart: 0,
            HighPart: -1,
        },
        Flags: 3,
    };
    let info = AdapterInfo::from_desc(0, &desc);
    assert_eq!(info.description, "A".repeat(128));
    assert!(info.is_software());
    assert_eq!(&info.luid[4..], &(-1i32).to_ne_bytes());
}

#[test]
fn result_codes() {
    assert!(succeeded(0));
    assert!(succeeded(1));
    assert!(!succeeded(DXGI_ERROR_NOT_FOUND));
    assert_eq!(DXGI_ERROR_NOT_FOUND as u32, 0x887A_0002);
}
