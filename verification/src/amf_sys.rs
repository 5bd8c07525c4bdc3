//! Constants, names and wide-character text of the AMF runtime interface.
use vstd::prelude::*;

use crate::d3d11::text_len;
use crate::text::{
    is_surrogate, lemma_utf16_lossy_without_surrogates, owned, push_signed_decimal, push_str,
    signed_decimal, string_from_utf16_lossy, utf16_lossy,
};

verus! {

broadcast use vstd::string::group_string_axioms;
pub const AMF_OK: i32 = 0;
pub const AMF_FAIL: i32 = 1;
pub const AMF_UNEXPECTED: i32 = 2;
pub const AMF_ACCESS_DENIED: i32 = 3;
pub const AMF_INVALID_ARG: i32 = 4;
pub const AMF_OUT_OF_RANGE: i32 = 5;
pub const AMF_OUT_OF_MEMORY: i32 = 6;
pub const AMF_INVALID_POINTER: i32 = 7;
pub const AMF_NO_INTERFACE: i32 = 8;
pub const AMF_NOT_IMPLEMENTED: i32 = 9;
pub const AMF_NOT_SUPPORTED: i32 = 10;
pub const AMF_NOT_FOUND: i32 = 11;
pub const AMF_ALREADY_INITIALIZED: i32 = 12;
pub const AMF_NOT_INITIALIZED: i32 = 13;
pub const AMF_INVALID_FORMAT: i32 = 14;
pub const AMF_WRONG_STATE: i32 = 15;
pub const AMF_FILE_NOT_OPEN: i32 = 16;
pub const AMF_NO_DEVICE: i32 = 17;
pub const AMF_DIRECTX_FAILED: i32 = 18;
pub const AMF_OPENCL_FAILED: i32 = 19;
pub const AMF_GLX_FAILED: i32 = 20;
pub const AMF_XV_FAILED: i32 = 21;
pub const AMF_ALSA_FAILED: i32 = 22;
pub const AMF_EOF: i32 = 23;
pub const AMF_REPEAT: i32 = 24;
pub const AMF_INPUT_FULL: i32 = 25;
pub const AMF_RESOLUTION_CHANGED: i32 = 26;
pub const AMF_RESOLUTION_UPDATED: i32 = 27;
pub const AMF_INVALID_DATA_TYPE: i32 = 28;
pub const AMF_INVALID_RESOLUTION: i32 = 29;
pub const AMF_CODEC_NOT_SUPPORTED: i32 = 30;
pub const AMF_SURFACE_FORMAT_NOT_SUPPORTED: i32 = 31;
pub const AMF_SURFACE_MUST_BE_SHARED: i32 = 32;
pub const AMF_DECODER_NOT_PRESENT: i32 = 33;
pub const AMF_DECODER_SURFACE_ALLOCATION_FAILED: i32 = 34;
pub const AMF_DECODER_NO_FREE_SURFACES: i32 = 35;
pub const AMF_ENCODER_NOT_PRESENT: i32 = 36;
pub const AMF_DEM_ERROR: i32 = 37;
pub const AMF_DEM_PROPERTY_READONLY: i32 = 38;
pub const AMF_DEM_REMOTE_DISPLAY_CREATE_FAILED: i32 = 39;
pub const AMF_DEM_START_ENCODING_FAILED: i32 = 40;
pub const AMF_DEM_QUERY_OUTPUT_FAILED: i32 = 41;
pub const AMF_TAN_CLIPPING_WAS_REQUIRED: i32 = 42;
pub const AMF_TAN_UNSUPPORTED_VERSION: i32 = 43;
pub const AMF_NEED_MORE_INPUT: i32 = 44;
pub const AMF_VULKAN_FAILED: i32 = 45;

pub const AMF_SURFACE_UNKNOWN: i32 = 0;
pub const AMF_SURFACE_NV12: i32 = 1;
pub const AMF_SURFACE_YV12: i32 = 2;
pub const AMF_SURFACE_BGRA: i32 = 3;
pub const AMF_SURFACE_ARGB: i32 = 4;
pub const AMF_SURFACE_RGBA: i32 = 5;
pub const AMF_SURFACE_GRAY8: i32 = 6;
pub const AMF_SURFACE_YUV420P: i32 = 7;
pub const AMF_SURFACE_U8V8: i32 = 8;
pub const AMF_SURFACE_YUY2: i32 = 9;
pub const AMF_SURFACE_P010: i32 = 10;
pub const AMF_SURFACE_RGBA_F16: i32 = 11;
pub const AMF_SURFACE_UYVY: i32 = 12;
pub const AMF_SURFACE_R10G10B10A2: i32 = 13;
pub const AMF_SURFACE_Y210: i32 = 14;
pub const AMF_SURFACE_AYUV: i32 = 15;
pub const AMF_SURFACE_Y410: i32 = 16;
pub const AMF_SURFACE_Y416: i32 = 17;
pub const AMF_SURFACE_GRAY32: i32 = 18;
pub const AMF_SURFACE_P012: i32 = 19;
pub const AMF_SURFACE_P016: i32 = 20;
pub const AMF_SURFACE_Y216: i32 = 21;
pub const AMF_SURFACE_R16G16: i32 = 22;
pub const AMF_SURFACE_R24G8: i32 = 23;
pub const AMF_SURFACE_R32: i32 = 24;
pub const AMF_SURFACE_R16: i32 = 25;

pub const AMF_MEMORY_UNKNOWN: i32 = 0;
pub const AMF_MEMORY_HOST: i32 = 1;
pub const AMF_MEMORY_DX9: i32 = 2;
pub const AMF_MEMORY_DX11: i32 = 3;
pub const AMF_MEMORY_OPENCL: i32 = 4;
pub const AMF_MEMORY_OPENGL: i32 = 5;
pub const AMF_MEMORY_XV: i32 = 6;
pub const AMF_MEMORY_GRALLOC: i32 = 7;
pub const AMF_MEMORY_COMPUTE_FOR_DX9: i32 = 8;
pub const AMF_MEMORY_COMPUTE_FOR_DX11: i32 = 9;
pub const AMF_MEMORY_VULKAN: i32 = 10;
pub const AMF_MEMORY_DX12: i32 = 11;

/// The names of the AMF result codes that the runtime reports by name.
pub open spec fn known_result_name(code: i32) -> Option<Seq<char>> {
    if code == 0 {
        Some("AMF_OK"@)
    } else if code == 1 {
        Some("AMF_FAIL"@)
    } else if code == 2 {
        Some("AMF_UNEXPECTED"@)
    } else if code == 3 {
        Some("AMF_ACCESS_DENIED"@)
    } else if code == 4 {
        Some("AMF_INVALID_ARG"@)
    } else if code == 5 {
        Some("AMF_OUT_OF_RANGE"@)
    } else if code == 6 {
        Some("AMF_OUT_OF_MEMORY"@)
    } else if code == 7 {
        Some("AMF_INVALID_POINTER"@)
    } else if code == 8 {
        Some("AMF_NO_INTERFACE"@)
    } else if code == 9 {
        Some("AMF_NOT_IMPLEMENTED"@)
    } else if code == 10 {
        Some("AMF_NOT_SUPPORTED"@)
    } else if code == 11 {
        Some("AMF_NOT_FOUND"@)
    } else if code == 12 {
        Some("AMF_ALREADY_INITIALIZED"@)
    } else if code == 13 {
        Some("AMF_NOT_INITIALIZED"@)
    } else if code == 14 {
        Some("AMF_INVALID_FORMAT"@)
    } else if code == 15 {
        Some("AMF_WRONG_STATE"@)
    } else if code == 17 {
        Some("AMF_NO_DEVICE"@)
    } else if code == 18 {
        Some("AMF_DIRECTX_FAILED"@)
    } else if code == 19 {
        Some("AMF_OPENCL_FAILED"@)
    } else if code == 30 {
        Some("AMF_CODEC_NOT_SUPPORTED"@)
    } else if code == 31 {
        Some("AMF_SURFACE_FORMAT_NOT_SUPPORTED"@)
    } else if code == 33 {
        Some("AMF_DECODER_NOT_PRESENT"@)
    } else if code == 36 {
        Some("AMF_ENCODER_NOT_PRESENT"@)
    } else if code == 45 {
        Some("AMF_VULKAN_FAILED"@)
    } else {
        None
    }
}

fn known_result_name_exec(code: i32) -> (r: Option<&'static str>)
    ensures
        r matches Some(n) ==> known_result_name(code) == Some(n@),
        r is None ==> known_result_name(code) is None,
{
    match code {
        0 => Some("AMF_OK"),
        1 => Some("AMF_FAIL"),
        2 => Some("AMF_UNEXPECTED"),
        3 => Some("AMF_ACCESS_DENIED"),
        4 => Some("AMF_INVALID_ARG"),
        5 => Some("AMF_OUT_OF_RANGE"),
        6 => Some("AMF_OUT_OF_MEMORY"),
        7 => Some("AMF_INVALID_POINTER"),
        8 => Some("AMF_NO_INTERFACE"),
        9 => Some("AMF_NOT_IMPLEMENTED"),
        10 => Some("AMF_NOT_SUPPORTED"),
        11 => Some("AMF_NOT_FOUND"),
        12 => Some("AMF_ALREADY_INITIALIZED"),
        13 => Some("AMF_NOT_INITIALIZED"),
        14 => Some("AMF_INVALID_FORMAT"),
        15 => Some("AMF_WRONG_STATE"),
        17 => Some("AMF_NO_DEVICE"),
        18 => Some("AMF_DIRECTX_FAILED"),
        19 => Some("AMF_OPENCL_FAILED"),
        30 => Some("AMF_CODEC_NOT_SUPPORTED"),
        31 => Some("AMF_SURFACE_FORMAT_NOT_SUPPORTED"),
        33 => Some("AMF_DECODER_NOT_PRESENT"),
        36 => Some("AMF_ENCODER_NOT_PRESENT"),
        45 => Some("AMF_VULKAN_FAILED"),
        _ => None,
    }
}

/// The names of the AMF surface formats.
pub open spec fn known_surface_format_name(code: i32) -> Option<Seq<char>> {
    if code == 0 {
        Some("UNKNOWN"@)
    } else if code == 1 {
        Some("NV12"@)
    } else if code == 2 {
        Some("YV12"@)
    } else if code == 3 {
        Some("BGRA"@)
    } else if code == 4 {
        Some("ARGB"@)
    } else if code == 5 {
        Some("RGBA"@)
    } else if code == 6 {
        Some("GRAY8"@)
    } else if code == 7 {
        Some("YUV420P"@)
    } else if code == 8 {
        Some("U8V8"@)
    } else if code == 9 {
        Some("YUY2"@)
    } else if code == 10 {
        Some("P010"@)
    } else if code == 11 {
        Some("RGBA_F16"@)
    } else if code == 12 {
        Some("UYVY"@)
    } else if code == 13 {
        Some("R10G10B10A2"@)
    } else if code == 14 {
        Some("Y210"@)
    } else if code == 15 {
        Some("AYUV"@)
    } else if code == 16 {
        Some("Y410"@)
    } else if code == 17 {
        Some("Y416"@)
    } else if code == 18 {
        Some("GRAY32"@)
    } else if code == 19 {
        Some("P012"@)
    } else if code == 20 {
        Some("P016"@)
    } else if code == 21 {
        Some("Y216"@)
    } else if code == 22 {
        Some("R16G16"@)
    } else if code == 23 {
        Some("R24G8"@)
    } else if code == 24 {
        Some("R32"@)
    } else if code == 25 {
        Some("R16"@)
    } else {
        None
    }
}

fn known_surface_format_name_exec(code: i32) -> (r: Option<&'static str>)
    ensures
        r matches Some(n) ==> known_surface_format_name(code) == Some(n@),
        r is None ==> known_surface_format_name(code) is None,
{
    match code {
        0 => Some("UNKNOWN"),
        1 => Some("NV12"),
        2 => Some("YV12"),
        3 => Some("BGRA"),
        4 => Some("ARGB"),
        5 => Some("RGBA"),
        6 => Some("GRAY8"),
        7 => Some("YUV420P"),
        8 => Some("U8V8"),
        9 => Some("YUY2"),
        10 => Some("P010"),
        11 => Some("RGBA_F16"),
        12 => Some("UYVY"),
        13 => Some("R10G10B10A2"),
        14 => Some("Y210"),
        15 => Some("AYUV"),
        16 => Some("Y410"),
        17 => Some("Y416"),
        18 => Some("GRAY32"),
        19 => Some("P012"),
        20 => Some("P016"),
        21 => Some("Y216"),
        22 => Some("R16G16"),
        23 => Some("R24G8"),
        24 => Some("R32"),
        25 => Some("R16"),
        _ => None,
    }
}

/// The names of the AMF memory types.
pub open spec fn known_memory_type_name(code: i32) -> Option<Seq<char>> {
    if code == 0 {
        Some("UNKNOWN"@)
    } else if code == 1 {
        Some("HOST"@)
    } else if code == 2 {
        Some("DX9"@)
    } else if code == 3 {
        Some("DX11"@)
    } else if code == 4 {
        Some("OPENCL"@)
    } else if code == 5 {
        Some("OPENGL"@)
    } else if code == 6 {
        Some("XV"@)
    } else if code == 7 {
        Some("GRALLOC"@)
    } else if code == 8 {
        Some("COMPUTE_FOR_DX9"@)
    } else if code == 9 {
        Some("COMPUTE_FOR_DX11"@)
    } else if code == 10 {
        Some("VULKAN"@)
    } else if code == 11 {
        Some("DX12"@)
    } else {
        None
    }
}

fn known_memory_type_name_exec(code: i32) -> (r: Option<&'static str>)
    ensures
        r matches Some(n) ==> known_memory_type_name(code) == Some(n@),
        r is None ==> known_memory_type_name(code) is None,
{
    match code {
        0 => Some("UNKNOWN"),
        1 => Some("HOST"),
        2 => Some("DX9"),
        3 => Some("DX11"),
        4 => Some("OPENCL"),
        5 => Some("OPENGL"),
        6 => Some("XV"),
        7 => Some("GRALLOC"),
        8 => Some("COMPUTE_FOR_DX9"),
        9 => Some("COMPUTE_FOR_DX11"),
        10 => Some("VULKAN"),
        11 => Some("DX12"),
        _ => None,
    }
}

/// The text of `code`: its name, or `AMF_RESULT(CODE)` for codes without one.
pub open spec fn amf_result_name_spec(code: i32) -> Seq<char> {
    match known_result_name(code) {
        Some(n) => n,
        None => "AMF_RESULT("@ + signed_decimal(code as int) + ")"@,
    }
}

pub fn amf_result_name(code: i32) -> (r: String)
    ensures
        r@ == amf_result_name_spec(code),
{
    match known_result_name_exec(code) {
        Some(n) => owned(n),
        None => {
            let mut r = owned("AMF_RESULT(");
            push_signed_decimal(&mut r, code as i64);
            push_str(&mut r, ")");
            r
        },
    }
}

/// The text of `code`: its name, or `AMF_SURFACE_FORMAT(CODE)` for codes without one.
pub open spec fn amf_surface_format_name_spec(code: i32) -> Seq<char> {
    match known_surface_format_name(code) {
        Some(n) => n,
        None => "AMF_SURFACE_FORMAT("@ + signed_decimal(code as int) + ")"@,
    }
}

pub fn amf_surface_format_name(code: i32) -> (r: String)
    ensures
        r@ == amf_surface_format_name_spec(code),
{
    match known_surface_format_name_exec(code) {
        Some(n) => owned(n),
        None => {
            let mut r = owned("AMF_SURFACE_FORMAT(");
            push_signed_decimal(&mut r, code as i64);
            push_str(&mut r, ")");
            r
        },
    }
}

/// The text of `code`: its name, or `AMF_MEMORY_TYPE(CODE)` for codes without one.
pub open spec fn amf_memory_type_name_spec(code: i32) -> Seq<char> {
    match known_memory_type_name(code) {
        Some(n) => n,
        None => "AMF_MEMORY_TYPE("@ + signed_decimal(code as int) + ")"@,
    }
}

pub fn amf_memory_type_name(code: i32) -> (r: String)
    ensures
        r@ == amf_memory_type_name_spec(code),
{
    match known_memory_type_name_exec(code) {
        Some(n) => owned(n),
        None => {
            let mut r = owned("AMF_MEMORY_TYPE(");
            push_signed_decimal(&mut r, code as i64);
            push_str(&mut r, ")");
            r
        },
    }
}

/// The full version number `major.minor.release.build`, 16 bits per part.
pub open spec fn full_version(major: u64, minor: u64, release: u64, build: u64) -> u64 {
    (major << 48u64) | (minor << 32u64) | (release << 16u64) | build
}

pub fn amf_make_full_version(major: u64, minor: u64, release: u64, build: u64) -> (r: u64)
    ensures
        r == full_version(major, minor, release, build),
        major < 0x10000 && minor < 0x10000 && release < 0x10000 && build < 0x10000 ==> r as int
            == major * 0x1_0000_0000_0000 + minor * 0x1_0000_0000 + release * 0x1_0000 + build,
{
    proof {
        lemma_full_version_value(major, minor, release, build);
    }
    (major << 48u64) | (minor << 32u64) | (release << 16u64) | build
}

proof fn lemma_full_version_value(major: u64, minor: u64, release: u64, build: u64)
    ensures
        major < 0x10000 && minor < 0x10000 && release < 0x10000 && build < 0x10000 ==> full_version(
            major,
            minor,
            release,
            build,
        ) as int == major * 0x1_0000_0000_0000 + minor * 0x1_0000_0000 + release * 0x1_0000
            + build,
{
    assert(major < 0x10000 && minor < 0x10000 && release < 0x10000 && build < 0x10000 ==> (major
        << 48u64) | (minor << 32u64) | (release << 16u64) | build == major * 0x1_0000_0000_0000
        + minor * 0x1_0000_0000 + release * 0x1_0000 + build) by (bit_vector);
}

/// A component's caps report that it cannot run.
pub const AMF_ACCEL_NOT_SUPPORTED: i32 = -1;

pub const AMF_ACCEL_HARDWARE: i32 = 0;

pub const AMF_ACCEL_GPU: i32 = 1;

pub const AMF_ACCEL_SOFTWARE: i32 = 2;

/// The version of the SDK headers these bindings follow: 1.5.2.0.
pub const AMF_FULL_VERSION: u64 = 0x0001_0005_0002_0000;

/// [`AMF_FULL_VERSION`] is version 1.5.2.0.
pub proof fn lemma_sdk_version()
    ensures
        AMF_FULL_VERSION == full_version(1, 5, 2, 0),
{
    assert(AMF_FULL_VERSION == (1u64 << 48u64) | (5u64 << 32u64) | (2u64 << 16u64) | 0u64) by (bit_vector);
}

/// The four 16-bit parts of a full version number, most significant first.
pub open spec fn version_parts(v: u64) -> (u16, u16, u16, u16) {
    (
        ((v as int / 0x1_0000_0000_0000) % 0x10000) as u16,
        ((v as int / 0x1_0000_0000) % 0x10000) as u16,
        ((v as int / 0x1_0000) % 0x10000) as u16,
        (v as int % 0x10000) as u16,
    )
}

pub fn amf_version_parts(version: u64) -> (r: (u16, u16, u16, u16))
    ensures
        r == version_parts(version),
{
    let a = version >> 48u64;
    let b = (version >> 32u64) & 0xffff;
    let c = (version >> 16u64) & 0xffff;
    let d = version & 0xffff;
    assert(version >> 48u64 == (version / 0x1_0000_0000_0000) % 0x10000) by (bit_vector);
    assert((version >> 32u64) & 0xffff == (version / 0x1_0000_0000) % 0x10000) by (bit_vector);
    assert((version >> 16u64) & 0xffff == (version / 0x1_0000) % 0x10000) by (bit_vector);
    assert(version & 0xffff == version % 0x10000) by (bit_vector);
    (a as u16, b as u16, c as u16, d as u16)
}

/// Splitting a full version number gives back the parts it was made of.
pub proof fn lemma_version_round_trip(major: u16, minor: u16, release: u16, build: u16)
    ensures
        version_parts(full_version(major as u64, minor as u64, release as u64, build as u64)) == (
            major,
            minor,
            release,
            build,
        ),
{
    let v = full_version(major as u64, minor as u64, release as u64, build as u64);
    lemma_full_version_value(major as u64, minor as u64, release as u64, build as u64);
    let t = major * 0x1_0000_0000_0000 + minor * 0x1_0000_0000 + release * 0x1_0000 + build;
    assert(v as int == t);
    assert(t / 0x1_0000_0000_0000 == major as int) by (nonlinear_arith)
        requires
            t == major * 0x1_0000_0000_0000 + minor * 0x1_0000_0000 + release * 0x1_0000 + build,
            0 <= major < 0x10000,
            0 <= minor < 0x10000,
            0 <= release < 0x10000,
            0 <= build < 0x10000,
    ;
    assert(t / 0x1_0000_0000 == major * 0x10000 + minor) by (nonlinear_arith)
        requires
            t == major * 0x1_0000_0000_0000 + minor * 0x1_0000_0000 + release * 0x1_0000 + build,
            0 <= major < 0x10000,
            0 <= minor < 0x10000,
            0 <= release < 0x10000,
            0 <= build < 0x10000,
    ;
    assert(t / 0x1_0000 == major * 0x1_0000_0000 + minor * 0x10000 + release) by (nonlinear_arith)
        requires
            t == major * 0x1_0000_0000_0000 + minor * 0x1_0000_0000 + release * 0x1_0000 + build,
            0 <= major < 0x10000,
            0 <= minor < 0x10000,
            0 <= release < 0x10000,
            0 <= build < 0x10000,
    ;
    assert((major * 0x10000 + minor) % 0x10000 == minor as int) by (nonlinear_arith)
        requires
            0 <= major < 0x10000,
            0 <= minor < 0x10000,
    ;
    assert((major * 0x1_0000_0000 + minor * 0x10000 + release) % 0x10000 == release as int)
        by (nonlinear_arith)
        requires
            0 <= major < 0x10000,
            0 <= minor < 0x10000,
            0 <= release < 0x10000,
    ;
    assert(t % 0x10000 == build as int) by (nonlinear_arith)
        requires
            t == major * 0x1_0000_0000_0000 + minor * 0x1_0000_0000 + release * 0x1_0000 + build,
            0 <= major < 0x10000,
            0 <= minor < 0x10000,
            0 <= release < 0x10000,
            0 <= build < 0x10000,
    ;
}

/// A string as AMF's wide characters, terminated by a zero: one code point per unit, as
/// `wchar_t` holds them outside Windows.
pub open spec fn wide_spec(s: Seq<char>) -> Seq<u32> {
    s.map_values(|c: char| c as u32).push(0)
}

pub fn wide(s: &str) -> (r: Vec<u32>)
    ensures
        r@ == wide_spec(s@),
{
    let v = crate::text::chars_of(s);
    let mut r: Vec<u32> = Vec::new();
    let mut i: usize = 0;
    while i < v.len()
        invariant
            0 <= i <= v@.len(),
            v@ == s@,
            r@.len() == i,
            forall|j: int| 0 <= j < i ==> r@[j] == v@[j] as u32,
        decreases v@.len() - i,
    {
        r.push(v[i] as u32);
        i = i + 1;
    }
    r.push(0);
    assert(r@ =~= wide_spec(s@));
    r
}

/// Reading back the wide form of a text without NUL characters gives the text.
pub proof fn lemma_wide_round_trip(s: Seq<char>)
    requires
        forall|i: int| 0 <= i < s.len() ==> s[i] != '\0',
    ensures
        wide_len(wide_spec(s), s.len() as int),
        wide_spec(s).take(s.len() as int).map_values(|u: u32| decode_wide(u)) == s,
{
    let w = wide_spec(s);
    assert forall|i: int| 0 <= i < s.len() implies w[i] != 0 && decode_wide(w[i]) == s[i] by {
        let c = s[i];
        let u = c as u32;
        vstd::utf8::char_is_scalar(c);
        vstd::utf8::char_u32_cast(c, u);
        assert(w[i] == u);
        assert(u != 0);
        assert(is_scalar(u));
        assert(decode_wide(u) == c);
    }
    assert(w.take(s.len() as int).map_values(|u: u32| decode_wide(u)) =~= s);
}

/// Whether `u` is a Unicode scalar value: a code point that is not a surrogate.
pub open spec fn is_scalar(u: u32) -> bool {
    u < 0xD800 || (0xE000 <= u && u <= 0x10FFFF)
}

/// `char::from_u32`: the character with code point `u`, which exists exactly when `u`
/// is a Unicode scalar value.
#[verifier::external_body]
fn char_from_u32(u: u32) -> (r: Option<char>)
    ensures
        r is Some <==> is_scalar(u),
        r matches Some(c) ==> c == u as char,
{
    char::from_u32(u)
}

/// One wide character as text: the character with that code point, or U+FFFD where
/// the code point is not a scalar value.
pub open spec fn decode_wide(u: u32) -> char {
    if is_scalar(u) {
        u as char
    } else {
        '\u{FFFD}'
    }
}

/// `n` is the length of the NUL-terminated text in `units`: the index of the first
/// zero, or the whole length when there is none.
pub open spec fn wide_len(units: Seq<u32>, n: int) -> bool {
    &&& 0 <= n <= units.len()
    &&& forall|i: int| 0 <= i < n ==> units[i] != 0
    &&& n < units.len() ==> units[n] == 0
}

/// The text of AMF's 32-bit wide characters (outside Windows), up to the first zero;
/// units that are no Unicode scalar value read as U+FFFD.
pub fn from_wide(units: &[u32]) -> (r: String)
    ensures
        exists|n: int| wide_len(units@, n) && r@ == units@.take(n).map_values(|u: u32| decode_wide(u)),
{
    let mut r = String::new();
    let mut i: usize = 0;
    while i < units.len() && units[i] != 0
        invariant
            0 <= i <= units@.len(),
            forall|j: int| 0 <= j < i ==> units@[j] != 0,
            r@ == units@.take(i as int).map_values(|u: u32| decode_wide(u)),
        decreases units@.len() - i,
    {
        let c = match char_from_u32(units[i]) {
            Some(c) => c,
            None => '\u{FFFD}',
        };
        crate::text::push_char(&mut r, c);
        i = i + 1;
        assert(r@ =~= units@.take(i as int).map_values(|u: u32| decode_wide(u)));
    }
    assert(wide_len(units@, i as int));
    r
}

/// The UTF-16 code units of one character: itself below U+10000, else a surrogate
/// pair.
pub open spec fn utf16_units(c: char) -> Seq<u16> {
    let u = c as u32;
    if u < 0x10000 {
        seq![u as u16]
    } else {
        let v = u - 0x10000;
        seq![(0xD800 + v / 0x400) as u16, (0xDC00 + v % 0x400) as u16]
    }
}

/// The UTF-16 encoding of a text.
pub open spec fn utf16_encode(s: Seq<char>) -> Seq<u16>
    decreases s.len(),
{
    if s.len() == 0 {
        Seq::<u16>::empty()
    } else {
        utf16_encode(s.drop_last()) + utf16_units(s.last())
    }
}

/// A string as AMF's wide characters where `wchar_t` is 16 bits wide (Windows): its
/// UTF-16 code units, terminated by a zero.
pub fn wide_utf16(s: &str) -> (r: Vec<u16>)
    ensures
        r@ == utf16_encode(s@).push(0),
{
    let v = crate::text::chars_of(s);
    let mut r: Vec<u16> = Vec::new();
    let mut i: usize = 0;
    while i < v.len()
        invariant
            0 <= i <= v@.len(),
            v@ == s@,
            r@ == utf16_encode(v@.take(i as int)),
        decreases v@.len() - i,
    {
        let c = v[i];
        let u = c as u32;
        proof {
            vstd::utf8::char_is_scalar(c);
        }
        if u < 0x10000 {
            r.push(u as u16);
        } else {
            let w = u - 0x10000;
            r.push((0xD800 + w / 0x400) as u16);
            r.push((0xDC00 + w % 0x400) as u16);
        }
        i = i + 1;
        assert(v@.take(i as int).drop_last() =~= v@.take(i - 1));
        assert(r@ =~= utf16_encode(v@.take(i as int)));
    }
    assert(v@.take(v@.len() as int) =~= v@);
    r.push(0);
    r
}

proof fn lemma_utf16_encode_first(s: Seq<char>)
    requires
        s.len() > 0,
    ensures
        utf16_encode(s) == utf16_units(s[0]) + utf16_encode(s.drop_first()),
    decreases s.len(),
{
    if s.len() == 1 {
        assert(s.drop_last() =~= Seq::<char>::empty());
        assert(s.drop_first() =~= Seq::<char>::empty());
        assert(utf16_encode(s.drop_last()) == Seq::<u16>::empty());
        assert(s.last() == s[0]);
        assert(utf16_encode(s.drop_first()) == Seq::<u16>::empty());
        assert(utf16_encode(s) =~= utf16_units(s[0]) + utf16_encode(s.drop_first()));
    } else {
        lemma_utf16_encode_first(s.drop_last());
        assert(s.drop_last().drop_first() =~= s.drop_first().drop_last());
        assert(s.drop_first().last() == s.last());
        assert(utf16_encode(s) =~= utf16_units(s[0]) + utf16_encode(s.drop_first()));
    }
}

proof fn lemma_utf16_units_decode(c: char, rest: Seq<u16>)
    ensures
        utf16_lossy(utf16_units(c) + rest) == seq![c] + utf16_lossy(rest),
        forall|i: int| 0 <= i < utf16_units(c).len() ==> (c != '\0' ==> #[trigger] utf16_units(c)[i] != 0),
{
    let u = c as u32;
    vstd::utf8::char_is_scalar(c);
    vstd::utf8::char_u32_cast(c, u);
    let units = utf16_units(c) + rest;
    if u < 0x10000 {
        let w = u as u16;
        assert(w == u);
        assert(!is_surrogate(w));
        assert(units[0] == w);
        assert(units.drop_first() =~= rest);
        assert((w as char) == (u as char));
    } else {
        let v = u - 0x10000;
        let hi = (0xD800 + v / 0x400) as u16;
        let lo = (0xDC00 + v % 0x400) as u16;
        assert(v < 0x100000);
        assert(v / 0x400 < 0x400);
        assert((v / 0x400) * 0x400 + v % 0x400 == v) by (nonlinear_arith);
        assert(units[0] == hi && units[1] == lo);
        assert(units.subrange(2, units.len() as int) =~= rest);
        assert(is_surrogate(hi) && hi <= 0xDBFF);
        assert(0xDC00 <= lo <= 0xDFFF);
        assert(0x10000 + (hi - 0xD800) * 0x400 + (lo - 0xDC00) == u);
    }
}

/// Reading back the 16-bit wide form of a text without NUL characters gives the text.
pub proof fn lemma_wide_utf16_round_trip(s: Seq<char>)
    requires
        forall|i: int| 0 <= i < s.len() ==> s[i] != '\0',
    ensures
        text_len(utf16_encode(s).push(0), utf16_encode(s).len() as int),
        utf16_lossy(utf16_encode(s).push(0).take(utf16_encode(s).len() as int)) == s,
    decreases s.len(),
{
    let e = utf16_encode(s);
    assert(e.push(0).take(e.len() as int) =~= e);
    if s.len() > 0 {
        let rest = s.drop_first();
        assert forall|i: int| 0 <= i < rest.len() implies rest[i] != '\0' by {
            assert(rest[i] == s[i + 1]);
        }
        lemma_wide_utf16_round_trip(rest);
        let er = utf16_encode(rest);
        assert(er.push(0).take(er.len() as int) =~= er);
        lemma_utf16_encode_first(s);
        lemma_utf16_units_decode(s[0], er);
        assert(utf16_lossy(e) =~= s);
        let first = utf16_units(s[0]);
        assert forall|i: int| 0 <= i < e.len() implies e.push(0)[i] != 0 by {
            if i < first.len() {
                assert(e[i] == first[i]);
            } else {
                assert(e[i] == er[i - first.len()]);
                assert(er.push(0)[i - first.len()] != 0);
            }
        }
    }
}

/// The text of AMF's 16-bit wide characters (Windows), up to the first zero, decoded as
/// UTF-16 with invalid sequences replaced. Where the text holds no surrogate, each unit
/// is the character with its value.
pub fn from_wide_utf16(units: &[u16]) -> (r: String)
    ensures
        exists|n: int|
            text_len(units@, n) && r@ == utf16_lossy(units@.take(n)) && ((forall|i: int|
                0 <= i < n ==> !(0xD800 <= #[trigger] units@[i] <= 0xDFFF)) ==> r@
                == units@.take(n).map_values(|u: u16| u as char)),
{
    let mut text: Vec<u16> = Vec::new();
    let mut i: usize = 0;
    while i < units.len() && units[i] != 0
        invariant
            0 <= i <= units@.len(),
            text@ == units@.take(i as int),
            forall|j: int| 0 <= j < i ==> units@[j] != 0,
        decreases units@.len() - i,
    {
        text.push(units[i]);
        i = i + 1;
        assert(text@ =~= units@.take(i as int));
    }
    assert(text_len(units@, i as int));
    let r = string_from_utf16_lossy(text.as_slice());
    proof {
        if forall|j: int| 0 <= j < i ==> !(0xD800 <= #[trigger] units@[j] <= 0xDFFF) {
            assert forall|j: int| 0 <= j < text@.len() implies !is_surrogate(#[trigger] text@[j]) by {
                assert(text@[j] == units@[j]);
            }
            lemma_utf16_lossy_without_surrogates(text@);
        }
    }
    r
}

/// A COM-style interface identifier.
#[derive(Clone, Copy, Debug, PartialEq, Eq, Structural)]
pub struct AMFGuid {
    pub data1: u32,
    pub data2: u16,
    pub data3: u16,
    pub data41: u8,
    pub data42: u8,
    pub data43: u8,
    pub data44: u8,
    pub data45: u8,
    pub data46: u8,
    pub data47: u8,
    pub data48: u8,
}

} // verus!
