//! The DXGI adapter description that the AMF probe reads to pick a GPU.
use vstd::prelude::*;

use crate::bytes::{be_bytes, bytes_in_order, le_bytes, native_little_endian};
use crate::text::{string_from_utf16_lossy, utf16_lossy};

verus! {

pub type HRESULT = i32;

/// `DXGI_ERROR_NOT_FOUND` (0x887A0002): no adapter at the index.
pub const DXGI_ERROR_NOT_FOUND: HRESULT = -2005270526i32;

/// AMF only initializes on AMD adapters.
pub const VENDOR_ID_AMD: u32 = 0x1002;

pub const DXGI_ADAPTER_FLAG_SOFTWARE: u32 = 2;

pub const D3D_DRIVER_TYPE_UNKNOWN: u32 = 0;

pub const D3D11_CREATE_DEVICE_VIDEO_SUPPORT: u32 = 0x800;

pub const D3D11_SDK_VERSION: u32 = 7;

/// Whether a COM result code reports success: success codes are non-negative.
pub fn succeeded(hr: HRESULT) -> (r: bool)
    ensures
        r == (hr >= 0),
{
    hr >= 0
}

/// A COM interface identifier.
pub struct GUID {
    pub data1: u32,
    pub data2: u16,
    pub data3: u16,
    pub data4: [u8; 8],
}

/// A locally unique adapter identifier.
#[allow(non_snake_case)]
#[derive(Clone, Copy)]
pub struct LUID {
    pub LowPart: u32,
    pub HighPart: i32,
}

/// The eight bytes of a LUID, low part first, each part in the given byte order.
pub open spec fn luid_bytes(luid: LUID, little: bool) -> Seq<u8> {
    if little {
        le_bytes(luid.LowPart) + le_bytes(luid.HighPart as u32)
    } else {
        be_bytes(luid.LowPart) + be_bytes(luid.HighPart as u32)
    }
}

impl LUID {
    /// The low part then the high part, each in this machine's byte order, which is how
    /// `VkPhysicalDeviceIDProperties::deviceLUID` holds it, so the two compare directly.
    pub fn to_bytes(self) -> (r: [u8; 8])
        ensures
            r@ == luid_bytes(self, true) || r@ == luid_bytes(self, false),
    {
        let little = native_little_endian();
        let low = bytes_in_order(self.LowPart, little);
        let high = bytes_in_order(self.HighPart as u32, little);
        let r = [low[0], low[1], low[2], low[3], high[0], high[1], high[2], high[3]];
        assert(r@ =~= luid_bytes(self, little));
        r
    }
}

/// An adapter's description as DXGI reports it.
#[allow(non_snake_case, non_camel_case_types)]
pub struct DXGI_ADAPTER_DESC1 {
    pub Description: [u16; 128],
    pub VendorId: u32,
    pub DeviceId: u32,
    pub SubSysId: u32,
    pub Revision: u32,
    pub DedicatedVideoMemory: usize,
    pub DedicatedSystemMemory: usize,
    pub SharedSystemMemory: usize,
    pub AdapterLuid: LUID,
    pub Flags: u32,
}

/// `n` is the length of the NUL-terminated text in `units`: the index of the first
/// zero, or the whole length when there is none.
pub open spec fn text_len(units: Seq<u16>, n: int) -> bool {
    &&& 0 <= n <= units.len()
    &&& forall|i: int| 0 <= i < n ==> units[i] != 0
    &&& n < units.len() ==> units[n] == 0
}

/// An adapter, by the index DXGI enumerates it at; software adapters are counted,
/// because that index is what ffmpeg's `d3d11va` device string selects.
#[derive(Debug, Clone, PartialEq, Eq)]
pub struct AdapterInfo {
    pub index: u32,
    pub description: String,
    pub vendor_id: u32,
    pub device_id: u32,
    pub dedicated_video_memory: usize,
    pub luid: [u8; 8],
    pub flags: u32,
}

impl AdapterInfo {
    pub open spec fn is_software_spec(&self) -> bool {
        self.flags & DXGI_ADAPTER_FLAG_SOFTWARE != 0
    }

    /// The adapter that DXGI describes at `index`.
    pub open spec fn describes(&self, index: u32, desc: DXGI_ADAPTER_DESC1) -> bool {
        &&& self.index == index
        &&& exists|n: int|
            text_len(desc.Description@, n) && self.description@ == utf16_lossy(
                desc.Description@.take(n),
            )
        &&& self.vendor_id == desc.VendorId
        &&& self.device_id == desc.DeviceId
        &&& self.dedicated_video_memory == desc.DedicatedVideoMemory
        &&& (self.luid@ == luid_bytes(desc.AdapterLuid, true) || self.luid@ == luid_bytes(
            desc.AdapterLuid,
            false,
        ))
        &&& self.flags == desc.Flags
    }

    pub fn is_software(&self) -> (r: bool)
        ensures
            r == self.is_software_spec(),
    {
        self.flags & DXGI_ADAPTER_FLAG_SOFTWARE != 0
    }

    /// The adapter that DXGI describes at `index`, with the description read up to its
    /// terminating NUL.
    pub fn from_desc(index: u32, desc: &DXGI_ADAPTER_DESC1) -> (r: AdapterInfo)
        ensures
            r.describes(index, *desc),
    {
        let mut units: Vec<u16> = Vec::new();
        let mut i: usize = 0;
        while i < 128 && desc.Description[i] != 0
            invariant
                0 <= i <= 128,
                desc.Description@.len() == 128,
                units@ == desc.Description@.take(i as int),
                forall|j: int| 0 <= j < i ==> desc.Description@[j] != 0,
            decreases 128 - i,
        {
            units.push(desc.Description[i]);
            i = i + 1;
            assert(units@ =~= desc.Description@.take(i as int));
        }
        assert(text_len(desc.Description@, i as int));
        let description = string_from_utf16_lossy(units.as_slice());
        AdapterInfo {
            index: index,
            description: description,
            vendor_id: desc.VendorId,
            device_id: desc.DeviceId,
            dedicated_video_memory: desc.DedicatedVideoMemory,
            luid: desc.AdapterLuid.to_bytes(),
            flags: desc.Flags,
        }
    }
}

impl<'a> From<(u32, &'a DXGI_ADAPTER_DESC1)> for AdapterInfo {
    /// See [`AdapterInfo::from_desc`].
    fn from(value: (u32, &'a DXGI_ADAPTER_DESC1)) -> (r: AdapterInfo)
        ensures
            r.describes(value.0, *value.1),
    {
        AdapterInfo::from_desc(value.0, value.1)
    }
}

impl<'a> vstd::std_specs::convert::FromSpecImpl<(u32, &'a DXGI_ADAPTER_DESC1)> for AdapterInfo {
    /// The description is a `String`, which no spec value can name, so `from` is
    /// specified by its own `ensures` instead.
    open spec fn obeys_from_spec() -> bool {
        false
    }

    open spec fn from_spec(v: (u32, &'a DXGI_ADAPTER_DESC1)) -> AdapterInfo {
        arbitrary()
    }
}

} // verus!
