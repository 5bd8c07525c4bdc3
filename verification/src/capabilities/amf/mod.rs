//! What the AMF runtime reports it can decode, encode and convert.
use vstd::prelude::*;

pub mod adapter;
pub mod runtime;

use crate::amf_sys::{
    amf_surface_format_name, amf_surface_format_name_spec, AMF_SURFACE_BGRA, AMF_SURFACE_NV12,
    AMF_SURFACE_P010,
};
use crate::error::FFPipelineError;
use crate::format_map::FormatMap;
use crate::pipeline::{views, PixelFormat, VideoFormat};
use crate::sorting::{sorted_distinct, strictly_ascending};

verus! {

broadcast use vstd::string::group_string_axioms;

/// The runtime version from which ffmpeg's amf encoders accept P010: 1.4.32.0.
pub open spec fn min_runtime_for_10bit_encode() -> (u16, u16, u16, u16) {
    (1, 4, 32, 0)
}

/// The runtime version from which the converter maps PQ to bt709: 1.4.34.0.
pub open spec fn min_runtime_for_vpp_tonemap() -> (u16, u16, u16, u16) {
    (1, 4, 34, 0)
}

/// Version order: compare part by part, most significant first.
pub open spec fn version_at_least(v: (u16, u16, u16, u16), min: (u16, u16, u16, u16)) -> bool {
    v.0 > min.0 || (v.0 == min.0 && (v.1 > min.1 || (v.1 == min.1 && (v.2 > min.2 || (v.2
        == min.2 && v.3 >= min.3)))))
}

fn version_ge(v: (u16, u16, u16, u16), min: (u16, u16, u16, u16)) -> (r: bool)
    ensures
        r == version_at_least(v, min),
{
    v.0 > min.0 || (v.0 == min.0 && (v.1 > min.1 || (v.1 == min.1 && (v.2 > min.2 || (v.2
        == min.2 && v.3 >= min.3)))))
}

/// The device API the AMF context was initialised on.
#[derive(Debug, Clone, Copy, PartialEq, Eq, Structural)]
pub enum AmfDevice {
    Dx11,
    Dx9,
    Vulkan,
}

impl AmfDevice {
    pub fn name(&self) -> (r: &'static str)
        ensures
            r@ == match *self {
                AmfDevice::Dx11 => "DX11"@,
                AmfDevice::Dx9 => "DX9"@,
                AmfDevice::Vulkan => "Vulkan"@,
            },
    {
        match self {
            AmfDevice::Dx11 => "DX11",
            AmfDevice::Dx9 => "DX9",
            AmfDevice::Vulkan => "Vulkan",
        }
    }
}

/// An AMF surface format code.
#[derive(Debug, Clone, Copy, PartialEq, Eq, Structural)]
pub struct AmfSurfaceFormat(pub i32);

#[derive(Debug)]
pub struct AmfEncoderCapability {
    pub bit_depths: Vec<u8>,
    pub b_frames: bool,
    pub max_profile: Option<i64>,
    pub max_level: Option<i64>,
}

/// The display adapter the capabilities were probed on.
#[derive(Debug)]
pub struct AmfAdapter {
    pub index: u32,
    pub description: String,
    pub vendor_id: u32,
    pub device_id: u32,
}

#[derive(Debug)]
pub struct AmfCapabilities {
    pub supported_decoders: FormatMap<Vec<u8>>,
    pub supported_encoders: FormatMap<AmfEncoderCapability>,
    pub vpp_input_formats: Vec<AmfSurfaceFormat>,
    pub vpp_output_formats: Vec<AmfSurfaceFormat>,
    pub runtime_version: Option<(u16, u16, u16, u16)>,
    pub device: Option<AmfDevice>,
    pub adapter: Option<AmfAdapter>,
}

/// The AMF surface a software pixel format becomes after upload, or is decoded to.
pub open spec fn vpp_surface_spec(p: PixelFormat) -> Option<AmfSurfaceFormat> {
    match p {
        PixelFormat::Nv12 | PixelFormat::Yuv420p => Some(AmfSurfaceFormat(AMF_SURFACE_NV12)),
        PixelFormat::P010le | PixelFormat::Yuv420p10le => Some(AmfSurfaceFormat(AMF_SURFACE_P010)),
        PixelFormat::Bgra => Some(AmfSurfaceFormat(AMF_SURFACE_BGRA)),
        _ => None,
    }
}

pub fn vpp_surface(pixel_format: &PixelFormat) -> (r: Option<AmfSurfaceFormat>)
    ensures
        r == vpp_surface_spec(*pixel_format),
{
    match pixel_format {
        PixelFormat::Nv12 | PixelFormat::Yuv420p => Some(AmfSurfaceFormat(AMF_SURFACE_NV12)),
        PixelFormat::P010le | PixelFormat::Yuv420p10le => Some(AmfSurfaceFormat(AMF_SURFACE_P010)),
        PixelFormat::Bgra => Some(AmfSurfaceFormat(AMF_SURFACE_BGRA)),
        _ => None,
    }
}

/// The surface that ffmpeg exchanges with the amf codecs at a bit depth: NV12 for 8-bit,
/// P010 for 10-bit.
pub open spec fn surface_for_bit_depth_spec(bit_depth: u8) -> Option<AmfSurfaceFormat> {
    if bit_depth == 8 {
        Some(AmfSurfaceFormat(AMF_SURFACE_NV12))
    } else if bit_depth == 10 {
        Some(AmfSurfaceFormat(AMF_SURFACE_P010))
    } else {
        None
    }
}

pub fn surface_for_bit_depth(bit_depth: u8) -> (r: Option<AmfSurfaceFormat>)
    ensures
        r == surface_for_bit_depth_spec(bit_depth),
{
    match bit_depth {
        8 => Some(AmfSurfaceFormat(AMF_SURFACE_NV12)),
        10 => Some(AmfSurfaceFormat(AMF_SURFACE_P010)),
        _ => None,
    }
}

pub fn contains_surface(v: &Vec<AmfSurfaceFormat>, s: AmfSurfaceFormat) -> (r: bool)
    ensures
        r == v@.contains(s),
{
    let mut i: usize = 0;
    while i < v.len()
        invariant
            0 <= i <= v@.len(),
            forall|j: int| 0 <= j < i ==> v@[j] != s,
        decreases v@.len() - i,
    {
        if v[i] == s {
            assert(v@[i as int] == s);
            return true;
        }
        i = i + 1;
    }
    false
}

pub fn contains_u8(v: &Vec<u8>, x: u8) -> (r: bool)
    ensures
        r == v@.contains(x),
{
    let mut i: usize = 0;
    while i < v.len()
        invariant
            0 <= i <= v@.len(),
            forall|j: int| 0 <= j < i ==> v@[j] != x,
        decreases v@.len() - i,
    {
        if v[i] == x {
            assert(v@[i as int] == x);
            return true;
        }
        i = i + 1;
    }
    false
}

/// The candidate bit depths, in order, whose exchange surface is among `formats`.
pub open spec fn bit_depths_spec(formats: Seq<AmfSurfaceFormat>, candidates: Seq<u8>) -> Seq<u8> {
    candidates.filter(
        |bd: u8| surface_for_bit_depth_spec(bd) matches Some(s) && formats.contains(s),
    )
}

pub fn bit_depths(formats: &Vec<AmfSurfaceFormat>, candidates: &Vec<u8>) -> (r: Vec<u8>)
    ensures
        r@ == bit_depths_spec(formats@, candidates@),
{
    let mut r: Vec<u8> = Vec::new();
    let mut i: usize = 0;
    while i < candidates.len()
        invariant
            0 <= i <= candidates@.len(),
            r@ == bit_depths_spec(formats@, candidates@.take(i as int)),
        decreases candidates@.len() - i,
    {
        let bd = candidates[i];
        let keep = match surface_for_bit_depth(bd) {
            Some(s) => contains_surface(formats, s),
            None => false,
        };
        if keep {
            r.push(bd);
        }
        assert(candidates@.take(i + 1).drop_last() =~= candidates@.take(i as int));
        assert(candidates@.take(i + 1).last() == bd);
        reveal_with_fuel(Seq::<_>::filter, 1);
        i = i + 1;
    }
    assert(candidates@.take(candidates@.len() as int) =~= candidates@);
    r
}

/// The codes of a list of surface formats.
pub open spec fn format_codes(v: Seq<AmfSurfaceFormat>) -> Seq<i32> {
    v.map_values(|f: AmfSurfaceFormat| f.0)
}

/// The names of surface format codes.
pub open spec fn surface_names(codes: Seq<i32>) -> Seq<Seq<char>> {
    codes.map_values(|c: i32| amf_surface_format_name_spec(c))
}

/// The names of the distinct formats, ordered by code.
pub fn sorted_names(formats: &Vec<AmfSurfaceFormat>) -> (r: Vec<String>)
    ensures
        exists|codes: Seq<i32>|
            strictly_ascending(codes) && codes.to_set() == format_codes(formats@).to_set()
                && views(r@) == surface_names(codes),
{
    let mut codes: Vec<i32> = Vec::new();
    let mut i: usize = 0;
    while i < formats.len()
        invariant
            0 <= i <= formats@.len(),
            codes@ == format_codes(formats@.take(i as int)),
        decreases formats@.len() - i,
    {
        codes.push(formats[i].0);
        assert(format_codes(formats@.take(i + 1)) =~= format_codes(formats@.take(i as int)).push(
            formats@[i as int].0,
        ));
        i = i + 1;
    }
    assert(formats@.take(formats@.len() as int) =~= formats@);
    let sorted = sorted_distinct(&codes);
    let mut names: Vec<String> = Vec::new();
    let mut j: usize = 0;
    while j < sorted.len()
        invariant
            0 <= j <= sorted@.len(),
            views(names@) == surface_names(sorted@.take(j as int)),
        decreases sorted@.len() - j,
    {
        let ghost before = names@;
        let n = amf_surface_format_name(sorted[j]);
        names.push(n);
        assert(names@ == before.push(n));
        assert(views(names@) =~= views(before).push(n@));
        assert(sorted@.take(j + 1) =~= sorted@.take(j as int).push(sorted@[j as int]));
        assert(surface_names(sorted@.take(j + 1)) =~= surface_names(sorted@.take(j as int)).push(
            amf_surface_format_name_spec(sorted@[j as int]),
        ));
        assert(views(names@) =~= surface_names(sorted@.take(j + 1)));
        j = j + 1;
    }
    assert(sorted@.take(sorted@.len() as int) =~= sorted@);
    names
}

impl AmfCapabilities {
    pub open spec fn can_decode_spec(&self, format: VideoFormat, bit_depth: u8) -> bool {
        self.supported_decoders.view().contains_key(format)
            && self.supported_decoders.view()[format]@.contains(bit_depth)
    }

    pub open spec fn runtime_supports_10bit_encode_spec(&self) -> bool {
        self.runtime_version matches Some(v) && version_at_least(
            v,
            min_runtime_for_10bit_encode(),
        )
    }

    /// 10-bit encodes need runtime 1.4.32 whatever the hardware reports.
    pub open spec fn can_encode_spec(&self, format: VideoFormat, bit_depth: u8) -> bool {
        !(bit_depth == 10 && !self.runtime_supports_10bit_encode_spec())
            && self.supported_encoders.view().contains_key(format)
            && self.supported_encoders.view()[format].bit_depths@.contains(bit_depth)
    }

    /// vpp_amf both consumes and produces the format, so it must appear on both sides.
    pub open spec fn vpp_supports_format_spec(&self, p: PixelFormat) -> bool {
        vpp_surface_spec(p) matches Some(s) && self.vpp_input_formats@.contains(s)
            && self.vpp_output_formats@.contains(s)
    }

    pub open spec fn vpp_accepts_input_spec(&self, p: PixelFormat) -> bool {
        vpp_surface_spec(p) matches Some(s) && self.vpp_input_formats@.contains(s)
    }

    pub open spec fn can_tonemap_spec(&self) -> bool {
        self.runtime_version matches Some(v) && version_at_least(v, min_runtime_for_vpp_tonemap())
    }

    pub fn can_decode(&self, format: &VideoFormat, bit_depth: u8) -> (r: bool)
        ensures
            r == self.can_decode_spec(*format, bit_depth),
    {
        match self.supported_decoders.get(format) {
            Some(bit_depths) => contains_u8(bit_depths, bit_depth),
            None => false,
        }
    }

    /// ffmpeg's amf encoders refuse P010 on runtimes older than 1.4.32, whatever the
    /// hardware supports.
    pub fn can_encode(&self, format: &VideoFormat, bit_depth: u8) -> (r: bool)
        ensures
            r == self.can_encode_spec(*format, bit_depth),
    {
        if bit_depth == 10 && !self.runtime_supports_10bit_encode() {
            return false;
        }
        match self.supported_encoders.get(format) {
            Some(cap) => contains_u8(&cap.bit_depths, bit_depth),
            None => false,
        }
    }

    fn runtime_supports_10bit_encode(&self) -> (r: bool)
        ensures
            r == self.runtime_supports_10bit_encode_spec(),
    {
        match self.runtime_version {
            Some(version) => version_ge(version, (1, 4, 32, 0)),
            None => false,
        }
    }

    pub fn b_frames(&self, format: &VideoFormat) -> (r: bool)
        ensures
            r == (self.supported_encoders.view().contains_key(*format)
                && self.supported_encoders.view()[*format].b_frames),
    {
        match self.supported_encoders.get(format) {
            Some(cap) => cap.b_frames,
            None => false,
        }
    }

    pub fn encoder(&self, format: &VideoFormat) -> (r: Option<&AmfEncoderCapability>)
        ensures
            r matches Some(c) ==> self.supported_encoders.view().contains_key(*format) && *c
                == self.supported_encoders.view()[*format],
            r is None ==> !self.supported_encoders.view().contains_key(*format),
    {
        self.supported_encoders.get(format)
    }

    /// Software formats map to the surface they become after upload.
    pub fn vpp_supports_format(&self, pixel_format: &PixelFormat) -> (r: bool)
        ensures
            r == self.vpp_supports_format_spec(*pixel_format),
    {
        match vpp_surface(pixel_format) {
            Some(s) => contains_surface(&self.vpp_input_formats, s) && contains_surface(
                &self.vpp_output_formats,
                s,
            ),
            None => false,
        }
    }

    /// Whether the converter can consume surfaces in this format.
    pub fn vpp_accepts_input(&self, pixel_format: &PixelFormat) -> (r: bool)
        ensures
            r == self.vpp_accepts_input_spec(*pixel_format),
    {
        match vpp_surface(pixel_format) {
            Some(s) => contains_surface(&self.vpp_input_formats, s),
            None => false,
        }
    }

    /// Whether vpp_amf can convert decoder PQ surfaces to bt709 nv12; the runtime version
    /// decides, because the converter caps never list P010 input.
    pub fn can_tonemap(&self) -> (r: bool)
        ensures
            r == self.can_tonemap_spec(),
    {
        match self.runtime_version {
            Some(version) => version_ge(version, (1, 4, 34, 0)),
            None => false,
        }
    }

    pub fn vpp_input_formats(&self) -> (r: Vec<String>)
        ensures
            exists|codes: Seq<i32>|
                strictly_ascending(codes) && codes.to_set() == format_codes(
                    self.vpp_input_formats@,
                ).to_set() && views(r@) == surface_names(codes),
    {
        sorted_names(&self.vpp_input_formats)
    }

    pub fn vpp_output_formats(&self) -> (r: Vec<String>)
        ensures
            exists|codes: Seq<i32>|
                strictly_ascending(codes) && codes.to_set() == format_codes(
                    self.vpp_output_formats@,
                ).to_set() && views(r@) == surface_names(codes),
    {
        sorted_names(&self.vpp_output_formats)
    }

    pub fn runtime_version(&self) -> (r: Option<(u16, u16, u16, u16)>)
        ensures
            r == self.runtime_version,
    {
        self.runtime_version
    }

    pub fn device(&self) -> (r: Option<AmfDevice>)
        ensures
            r == self.device,
    {
        self.device
    }

    pub fn adapter(&self) -> (r: Option<&AmfAdapter>)
        ensures
            r matches Some(a) ==> self.adapter == Some(*a),
            r is None ==> self.adapter is None,
    {
        match &self.adapter {
            Some(a) => Some(a),
            None => None,
        }
    }

    /// The number of formats with a decoder plus the number with an encoder.
    pub fn count(&self) -> (r: usize)
        ensures
            r == self.supported_decoders.view().dom().len()
                + self.supported_encoders.view().dom().len(),
    {
        self.supported_decoders.len() + self.supported_encoders.len()
    }

    /// The capabilities on a platform without an AMF runtime: nothing is supported.
    pub fn probe() -> (r: Result<AmfCapabilities, FFPipelineError>)
        ensures
            r matches Ok(c) && c.supported_decoders.view() == Map::<VideoFormat, Vec<u8>>::empty()
                && c.supported_encoders.view() == Map::<
                VideoFormat,
                AmfEncoderCapability,
            >::empty() && c.vpp_input_formats@.len() == 0 && c.vpp_output_formats@.len() == 0
                && c.runtime_version is None && c.device is None && c.adapter is None,
    {
        Ok(
            AmfCapabilities {
                supported_decoders: FormatMap::new(),
                supported_encoders: FormatMap::new(),
                vpp_input_formats: Vec::new(),
                vpp_output_formats: Vec::new(),
                runtime_version: None,
                device: None,
                adapter: None,
            },
        )
    }
}

/// Whatever the converter can convert, it also accepts as input.
pub proof fn lemma_vpp_supports_implies_accepts(caps: &AmfCapabilities, p: PixelFormat)
    ensures
        caps.vpp_supports_format_spec(p) ==> caps.vpp_accepts_input_spec(p),
{
}

/// Newer runtimes keep every capability that the version gates.
pub proof fn lemma_runtime_gates_monotone(
    v: (u16, u16, u16, u16),
    w: (u16, u16, u16, u16),
    min: (u16, u16, u16, u16),
)
    requires
        version_at_least(w, v),
        version_at_least(v, min),
    ensures
        version_at_least(w, min),
{
}

/// Tone mapping needs a runtime that can also encode 10-bit.
pub proof fn lemma_tonemap_runtime_encodes_10bit(caps: &AmfCapabilities)
    ensures
        caps.can_tonemap_spec() ==> caps.runtime_supports_10bit_encode_spec(),
{
}

} // verus!
