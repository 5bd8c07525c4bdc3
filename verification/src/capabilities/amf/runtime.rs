//! The decisions of the AMF runtime probe: which API version to ask for, which device
//! backend to try next, and what the probed components add up to. The calls into the
//! runtime happen around these functions; each takes what a call returned.
use vstd::prelude::*;

use crate::amf_sys::{
    amf_result_name, amf_result_name_spec, AMF_ACCEL_NOT_SUPPORTED, AMF_FULL_VERSION, AMF_OK,
    AMF_SURFACE_NV12, AMF_SURFACE_P010,
};
use crate::amf_sys::{version_parts, amf_version_parts};
use crate::capabilities::amf::{
    AmfAdapter, AmfCapabilities, AmfDevice, AmfEncoderCapability, AmfSurfaceFormat,
};
use crate::error::FFPipelineError;
use crate::format_map::FormatMap;
use crate::pipeline::{join, join_strings, views, VideoFormat};
use crate::text::{decimal, owned, push_decimal, push_str};

verus! {

broadcast use vstd::string::group_string_axioms;

/// The API version to initialise the runtime with: never newer than the runtime
/// reports, nor than these bindings follow.
pub fn amf_requested_version(runtime: Option<u64>) -> (r: u64)
    ensures
        r == match runtime {
            Some(v) => if v < AMF_FULL_VERSION {
                v
            } else {
                AMF_FULL_VERSION
            },
            None => AMF_FULL_VERSION,
        },
{
    match runtime {
        Some(v) => if v < AMF_FULL_VERSION {
            v
        } else {
            AMF_FULL_VERSION
        },
        None => AMF_FULL_VERSION,
    }
}

/// The runtime version `AMFQueryVersion` reported: the version when the query returned
/// `AMF_OK`, none otherwise.
pub fn queried_runtime_version(status: i32, version: u64) -> (r: Option<u64>)
    ensures
        r == if status == AMF_OK {
            Some(version)
        } else {
            None
        },
{
    if status == AMF_OK {
        Some(version)
    } else {
        None
    }
}

/// The error when the AMF runtime library cannot be loaded.
pub fn runtime_load_failure(cause: &str) -> (r: FFPipelineError)
    ensures
        r matches FFPipelineError::AmfCapabilitiesError(m) && m@
            == "failed to load the AMF runtime: "@ + cause@,
{
    let mut m = owned("failed to load the AMF runtime: ");
    push_str(&mut m, cause);
    FFPipelineError::AmfCapabilitiesError(m)
}

/// A runtime call that hands back an object succeeded only with `AMF_OK` and the object;
/// otherwise the error names the call and its result code.
pub open spec fn call_outcome(call: Seq<char>, status: i32, present: bool) -> Result<(), Seq<char>> {
    if status == AMF_OK && present {
        Ok(())
    } else {
        Err(call + " failed: "@ + amf_result_name_spec(status))
    }
}

fn object_call_outcome(call: &str, status: i32, present: bool) -> (r: Result<(), FFPipelineError>)
    ensures
        match call_outcome(call@, status, present) {
            Ok(()) => r is Ok,
            Err(m) => r matches Err(FFPipelineError::AmfCapabilitiesError(e)) && e@ == m,
        },
{
    if status == AMF_OK && present {
        Ok(())
    } else {
        let mut m = owned(call);
        push_str(&mut m, " failed: ");
        let name = amf_result_name(status);
        push_str(&mut m, name.as_str());
        Err(FFPipelineError::AmfCapabilitiesError(m))
    }
}

/// What `AMFInit` gave: on with the factory, or the AMF capabilities error.
pub fn runtime_init_outcome(status: i32, factory_present: bool) -> (r: Result<(), FFPipelineError>)
    ensures
        match call_outcome("AMFInit"@, status, factory_present) {
            Ok(()) => r is Ok,
            Err(m) => r matches Err(FFPipelineError::AmfCapabilitiesError(e)) && e@ == m,
        },
{
    object_call_outcome("AMFInit", status, factory_present)
}

/// What `CreateContext` gave: on with the context, or the AMF capabilities error.
pub fn context_outcome(status: i32, context_present: bool) -> (r: Result<(), FFPipelineError>)
    ensures
        match call_outcome("CreateContext"@, status, context_present) {
            Ok(()) => r is Ok,
            Err(m) => r matches Err(FFPipelineError::AmfCapabilitiesError(e)) && e@ == m,
        },
{
    object_call_outcome("CreateContext", status, context_present)
}

/// Whether a component whose caps report this acceleration type can be used.
pub fn component_usable(acceleration: i32) -> (r: bool)
    ensures
        r == (acceleration != AMF_ACCEL_NOT_SUPPORTED),
{
    acceleration != AMF_ACCEL_NOT_SUPPORTED
}

/// The device backends, in the order ffmpeg's hwcontext_amf tries them.
#[derive(Clone, Copy, Debug, PartialEq, Eq, Structural)]
pub enum InitBackend {
    Dx11,
    Dx9,
    Vulkan,
}

/// What one device initialisation attempt returned.
#[derive(Clone, Copy, Debug, PartialEq, Eq, Structural)]
pub enum InitAttempt {
    Dx11(i32),
    Dx9(i32),
    Vulkan(i32),
    /// The context has no Vulkan interface: the query's result.
    VulkanUnavailable(i32),
}

/// What follows an attempt.
#[derive(Debug)]
pub enum InitOutcome {
    Ready(AmfDevice),
    Failed(FFPipelineError),
    Next(InitBackend),
    Exhausted,
}

/// The first backend to try: DX11 on Windows, where DX9 follows; elsewhere only
/// Vulkan.
pub fn first_backend(windows: bool) -> (r: InitBackend)
    ensures
        r == if windows {
            InitBackend::Dx11
        } else {
            InitBackend::Vulkan
        },
{
    if windows {
        InitBackend::Dx11
    } else {
        InitBackend::Vulkan
    }
}

/// The failure note an attempt leaves.
pub open spec fn failure_note(attempt: InitAttempt) -> Seq<char> {
    match attempt {
        InitAttempt::Dx11(e) => "InitDX11: "@ + amf_result_name_spec(e),
        InitAttempt::Dx9(e) => "InitDX9: "@ + amf_result_name_spec(e),
        InitAttempt::Vulkan(e) => "InitVulkan: "@ + amf_result_name_spec(e),
        InitAttempt::VulkanUnavailable(e) => "AMFContext1 (Vulkan) unavailable: "@
            + amf_result_name_spec(e),
    }
}

/// The error when DX11 fails on the adapter that was chosen for the probe.
pub open spec fn backed_dx11_error(adapter: AmfAdapter, e: i32) -> Seq<char> {
    "InitDX11 on adapter "@ + decimal(adapter.index as nat) + " (\""@ + adapter.description@
        + "\") failed: "@ + amf_result_name_spec(e)
}

/// The step after an attempt. A success gives its device. With a D3D11 device on a
/// chosen adapter there is no fallback from DX11, because another backend would land
/// on another GPU. Otherwise a failure is noted and DX11 falls back to DX9, DX9 to
/// Vulkan, and after Vulkan nothing is left.
pub fn init_step(
    attempt: InitAttempt,
    backing: Option<&AmfAdapter>,
    failures: &mut Vec<String>,
) -> (r: InitOutcome)
    ensures
        match attempt {
            InitAttempt::Dx11(e) => if e == AMF_OK {
                r == InitOutcome::Ready(AmfDevice::Dx11) && final(failures)@ == old(failures)@
            } else {
                match backing {
                    Some(a) => r matches InitOutcome::Failed(FFPipelineError::AmfCapabilitiesError(m))
                        && m@ == backed_dx11_error(*a, e) && final(failures)@ == old(failures)@,
                    None => r == InitOutcome::Next(InitBackend::Dx9) && views(final(failures)@)
                        == views(old(failures)@).push(failure_note(attempt)),
                }
            },
            InitAttempt::Dx9(e) => if e == AMF_OK {
                r == InitOutcome::Ready(AmfDevice::Dx9) && final(failures)@ == old(failures)@
            } else {
                r == InitOutcome::Next(InitBackend::Vulkan) && views(final(failures)@) == views(
                    old(failures)@,
                ).push(failure_note(attempt))
            },
            InitAttempt::Vulkan(e) => if e == AMF_OK {
                r == InitOutcome::Ready(AmfDevice::Vulkan) && final(failures)@ == old(failures)@
            } else {
                r == InitOutcome::Exhausted && views(final(failures)@) == views(old(failures)@).push(
                    failure_note(attempt),
                )
            },
            InitAttempt::VulkanUnavailable(_) => r == InitOutcome::Exhausted && views(
                final(failures)@,
            ) == views(old(failures)@).push(failure_note(attempt)),
        },
{
    let ghost before = views(failures@);
    match attempt {
        InitAttempt::Dx11(e) => {
            if e == AMF_OK {
                return InitOutcome::Ready(AmfDevice::Dx11);
            }
            if let Some(a) = backing {
                let mut m = owned("InitDX11 on adapter ");
                push_decimal(&mut m, a.index as u64);
                push_str(&mut m, " (\"");
                push_str(&mut m, a.description.as_str());
                push_str(&mut m, "\") failed: ");
                let name = amf_result_name(e);
                push_str(&mut m, name.as_str());
                return InitOutcome::Failed(FFPipelineError::AmfCapabilitiesError(m));
            }
            let mut note = owned("InitDX11: ");
            let name = amf_result_name(e);
            push_str(&mut note, name.as_str());
            failures.push(note);
            assert(views(failures@) =~= before.push(failure_note(attempt)));
            InitOutcome::Next(InitBackend::Dx9)
        },
        InitAttempt::Dx9(e) => {
            if e == AMF_OK {
                return InitOutcome::Ready(AmfDevice::Dx9);
            }
            let mut note = owned("InitDX9: ");
            let name = amf_result_name(e);
            push_str(&mut note, name.as_str());
            failures.push(note);
            assert(views(failures@) =~= before.push(failure_note(attempt)));
            InitOutcome::Next(InitBackend::Vulkan)
        },
        InitAttempt::Vulkan(e) => {
            if e == AMF_OK {
                return InitOutcome::Ready(AmfDevice::Vulkan);
            }
            let mut note = owned("InitVulkan: ");
            let name = amf_result_name(e);
            push_str(&mut note, name.as_str());
            failures.push(note);
            assert(views(failures@) =~= before.push(failure_note(attempt)));
            InitOutcome::Exhausted
        },
        InitAttempt::VulkanUnavailable(e) => {
            let mut note = owned("AMFContext1 (Vulkan) unavailable: ");
            let name = amf_result_name(e);
            push_str(&mut note, name.as_str());
            failures.push(note);
            assert(views(failures@) =~= before.push(failure_note(attempt)));
            InitOutcome::Exhausted
        },
    }
}

/// The error when every backend failed, listing the failures.
pub fn no_usable_device(failures: &Vec<String>) -> (r: FFPipelineError)
    ensures
        r matches FFPipelineError::AmfCapabilitiesError(m) && m@ == "no usable device ("@ + join(
            views(failures@),
            "; "@,
        ) + ")"@,
{
    let mut m = owned("no usable device (");
    let joined = join_strings(failures, "; ");
    push_str(&mut m, joined.as_str());
    push_str(&mut m, ")");
    FFPipelineError::AmfCapabilitiesError(m)
}

/// The surface a trial encoder initialisation uses for a bit depth: NV12 for 8-bit,
/// P010 for 10-bit where the encoder has 10-bit profile properties; no trial otherwise.
pub fn trial_surface(bit_depth: u8, has_ten_bit_properties: bool) -> (r: Option<i32>)
    ensures
        r == if bit_depth == 8 {
            Some(AMF_SURFACE_NV12)
        } else if bit_depth == 10 && has_ten_bit_properties {
            Some(AMF_SURFACE_P010)
        } else {
            None
        },
{
    if bit_depth == 8 {
        Some(AMF_SURFACE_NV12)
    } else if bit_depth == 10 && has_ten_bit_properties {
        Some(AMF_SURFACE_P010)
    } else {
        None
    }
}

/// An encoder's capability from the bit depths whose trial initialisation succeeded
/// and the properties its caps report; none when no bit depth passed. An absent
/// B-frame property means no B-frames.
pub fn encoder_capability(
    passed: Vec<u8>,
    b_frames: Option<bool>,
    max_profile: Option<i64>,
    max_level: Option<i64>,
) -> (r: Option<AmfEncoderCapability>)
    ensures
        passed@.len() == 0 ==> r is None,
        passed@.len() > 0 ==> (r matches Some(c) && c.bit_depths@ == passed@ && c.b_frames == (
            b_frames == Some(true)) && c.max_profile == max_profile && c.max_level == max_level),
{
    if passed.len() == 0 {
        return None;
    }
    let b = match b_frames {
        Some(b) => b,
        None => false,
    };
    Some(
        AmfEncoderCapability {
            bit_depths: passed,
            b_frames: b,
            max_profile: max_profile,
            max_level: max_level,
        },
    )
}

/// The decoder components the probe creates, with the format each decodes and the bit
/// depths its existence stands for. A decoder's output formats say nothing of bit depth
/// (the H.264 decoder lists P010 but corrupts 10-bit streams), so the 10-bit formats
/// have components of their own; AV1 Main covers 8 and 10-bit.
pub open spec fn decoder_rows() -> Seq<(VideoFormat, Seq<char>, Seq<u8>)> {
    seq![
        (VideoFormat::Mpeg2Video, "AMFVideoDecoderUVD_MPEG2"@, seq![8u8]),
        (VideoFormat::Vc1, "AMFVideoDecoderUVD_VC1"@, seq![8u8]),
        (VideoFormat::H264, "AMFVideoDecoderUVD_H264_AVC"@, seq![8u8]),
        (VideoFormat::Hevc, "AMFVideoDecoderHW_H265_HEVC"@, seq![8u8]),
        (VideoFormat::Hevc, "AMFVideoDecoderHW_H265_MAIN10"@, seq![10u8]),
        (VideoFormat::Vp9, "AMFVideoDecoderHW_VP9"@, seq![8u8]),
        (VideoFormat::Vp9, "AMFVideoDecoderHW_VP9_10BIT"@, seq![10u8]),
        (VideoFormat::Av1, "AMFVideoDecoderHW_AV1"@, seq![8u8, 10u8]),
    ]
}

/// [`decoder_rows`] as values.
pub fn decoder_components() -> (r: Vec<(VideoFormat, &'static str, Vec<u8>)>)
    ensures
        r@.len() == decoder_rows().len(),
        forall|k: int|
            0 <= k < r@.len() ==> (#[trigger] r@[k]).0 == decoder_rows()[k].0 && r@[k].1@
                == decoder_rows()[k].1 && r@[k].2@ == decoder_rows()[k].2,
{
    let r = vec![
        (VideoFormat::Mpeg2Video, "AMFVideoDecoderUVD_MPEG2", vec![8u8]),
        (VideoFormat::Vc1, "AMFVideoDecoderUVD_VC1", vec![8u8]),
        (VideoFormat::H264, "AMFVideoDecoderUVD_H264_AVC", vec![8u8]),
        (VideoFormat::Hevc, "AMFVideoDecoderHW_H265_HEVC", vec![8u8]),
        (VideoFormat::Hevc, "AMFVideoDecoderHW_H265_MAIN10", vec![10u8]),
        (VideoFormat::Vp9, "AMFVideoDecoderHW_VP9", vec![8u8]),
        (VideoFormat::Vp9, "AMFVideoDecoderHW_VP9_10BIT", vec![10u8]),
        (VideoFormat::Av1, "AMFVideoDecoderHW_AV1", vec![8u8, 10u8]),
    ];
    assert forall|k: int| 0 <= k < r@.len() implies (#[trigger] r@[k]).0 == decoder_rows()[k].0
        && r@[k].1@ == decoder_rows()[k].1 && r@[k].2@ == decoder_rows()[k].2 by {
        assert(r@[0].2@ =~= seq![8u8]);
        assert(r@[1].2@ =~= seq![8u8]);
        assert(r@[2].2@ =~= seq![8u8]);
        assert(r@[3].2@ =~= seq![8u8]);
        assert(r@[4].2@ =~= seq![10u8]);
        assert(r@[5].2@ =~= seq![8u8]);
        assert(r@[6].2@ =~= seq![10u8]);
        assert(r@[7].2@ =~= seq![8u8, 10u8]);
    }
    r
}

/// The bit depths the probed decoder components give `format`, in table order; none
/// when no component for it found any.
pub open spec fn collected_depths(rows: Seq<(VideoFormat, Vec<u8>)>, format: VideoFormat) -> Option<
    Seq<u8>,
>
    decreases rows.len(),
{
    if rows.len() == 0 {
        None
    } else {
        let before = collected_depths(rows.drop_last(), format);
        let (f, depths) = rows.last();
        if f == format && depths@.len() > 0 {
            Some(
                match before {
                    Some(b) => b,
                    None => Seq::<u8>::empty(),
                } + depths@,
            )
        } else {
            before
        }
    }
}

fn concat_depths(a: &Vec<u8>, b: &Vec<u8>) -> (r: Vec<u8>)
    ensures
        r@ == a@ + b@,
{
    let mut r: Vec<u8> = Vec::new();
    let mut i: usize = 0;
    while i < a.len()
        invariant
            0 <= i <= a@.len(),
            r@ == a@.take(i as int),
        decreases a@.len() - i,
    {
        r.push(a[i]);
        i = i + 1;
        assert(r@ =~= a@.take(i as int));
    }
    let mut j: usize = 0;
    while j < b.len()
        invariant
            0 <= j <= b@.len(),
            a@.take(a@.len() as int) == a@,
            r@ == a@ + b@.take(j as int),
        decreases b@.len() - j,
    {
        r.push(b[j]);
        j = j + 1;
        assert(r@ =~= a@ + b@.take(j as int));
    }
    assert(a@.take(a@.len() as int) =~= a@);
    assert(b@.take(b@.len() as int) =~= b@);
    r
}

/// The decoder table from what each probed component found, one entry per row of
/// [`decoder_rows`] in order: a format has the depths of its components together.
pub fn decoder_table(probed: &Vec<(VideoFormat, Vec<u8>)>) -> (r: FormatMap<Vec<u8>>)
    ensures
        forall|f: VideoFormat|
            #![trigger r.view().contains_key(f)]
            #![trigger collected_depths(probed@, f)]
            (r.view().contains_key(f) <==> collected_depths(probed@, f) is Some) && (
            r.view().contains_key(f) ==> r.view()[f]@ == collected_depths(probed@, f)->0),
{
    let mut table: FormatMap<Vec<u8>> = FormatMap::new();
    let mut k: usize = 0;
    while k < probed.len()
        invariant
            0 <= k <= probed@.len(),
            forall|f: VideoFormat|
                #![trigger table.view().contains_key(f)]
                #![trigger collected_depths(probed@.take(k as int), f)]
                (table.view().contains_key(f) <==> collected_depths(probed@.take(k as int), f)
                    is Some) && (table.view().contains_key(f) ==> table.view()[f]@
                    == collected_depths(probed@.take(k as int), f)->0),
        decreases probed@.len() - k,
    {
        let format = probed[k].0;
        let depths = &probed[k].1;
        let ghost prefix = probed@.take(k + 1);
        assert(prefix.drop_last() =~= probed@.take(k as int));
        assert(prefix.last() == probed@[k as int]);
        if depths.len() > 0 {
            let merged = match table.get(&format) {
                Some(existing) => concat_depths(existing, depths),
                None => concat_depths(&Vec::new(), depths),
            };
            proof {
                assert(Seq::<u8>::empty() + depths@ =~= depths@);
            }
            table.insert(format, merged);
        }
        k = k + 1;
        assert forall|f: VideoFormat|
            (table.view().contains_key(f) <==> collected_depths(probed@.take(k as int), f) is Some)
                && (table.view().contains_key(f) ==> table.view()[f]@ == collected_depths(
                probed@.take(k as int),
                f,
            )->0) by {
            assert(collected_depths(prefix, f) == collected_depths(probed@.take(k as int), f));
        }
    }
    assert(probed@.take(probed@.len() as int) =~= probed@);
    table
}

/// The properties that set up a 10-bit trial initialisation of an encoder.
#[derive(Clone, Copy, Debug)]
pub struct TenBitInit {
    pub profile: &'static str,
    pub profile_value: i64,
    pub color_bit_depth: &'static str,
}

/// An encoder component and the caps properties the probe reads from it. HEVC has no
/// B-frame capability property in the SDK headers.
#[derive(Clone, Copy, Debug)]
pub struct EncoderComponent {
    pub format: VideoFormat,
    pub id: &'static str,
    pub max_profile: &'static str,
    pub max_level: &'static str,
    pub b_frames: Option<&'static str>,
    pub ten_bit: Option<TenBitInit>,
}

/// The text of an optional string slice.
pub open spec fn opt_text(o: Option<&'static str>) -> Option<Seq<char>> {
    match o {
        Some(s) => Some(s@),
        None => None,
    }
}

/// 10-bit trial properties with these names and profile value.
pub open spec fn ten_bit_is(o: Option<TenBitInit>, profile: Seq<char>, value: i64, depth: Seq<char>) -> bool {
    match o {
        Some(b) => b.profile@ == profile && b.profile_value == value && b.color_bit_depth@ == depth,
        None => false,
    }
}

/// The encoder components the probe creates: H.264 (8-bit only), HEVC and AV1, with
/// the main profile that admits 10-bit input for the latter two.
pub open spec fn is_encoder_table(t: Seq<EncoderComponent>) -> bool {
    &&& t.len() == 3
    &&& t[0].format == VideoFormat::H264 && t[0].id@ == "AMFVideoEncoderVCE_AVC"@
        && t[0].max_profile@ == "MaxProfile"@ && t[0].max_level@ == "MaxLevel"@ && opt_text(
        t[0].b_frames,
    ) == Some("BFrames"@) && t[0].ten_bit is None
    &&& t[1].format == VideoFormat::Hevc && t[1].id@ == "AMFVideoEncoderHW_HEVC"@
        && t[1].max_profile@ == "HevcMaxProfile"@ && t[1].max_level@ == "HevcMaxLevel"@
        && t[1].b_frames is None && ten_bit_is(t[1].ten_bit, "HevcProfile"@, 2, "HevcColorBitDepth"@)
    &&& t[2].format == VideoFormat::Av1 && t[2].id@ == "AMFVideoEncoderHW_AV1"@
        && t[2].max_profile@ == "Av1MaxProfile"@ && t[2].max_level@ == "Av1MaxLevel"@ && opt_text(
        t[2].b_frames,
    ) == Some("AV1BFrames"@) && ten_bit_is(t[2].ten_bit, "Av1Profile"@, 1, "Av1ColorBitDepth"@)
}

pub fn encoder_components() -> (r: Vec<EncoderComponent>)
    ensures
        is_encoder_table(r@),
{
    vec![
        EncoderComponent {
            format: VideoFormat::H264,
            id: "AMFVideoEncoderVCE_AVC",
            max_profile: "MaxProfile",
            max_level: "MaxLevel",
            b_frames: Some("BFrames"),
            ten_bit: None,
        },
        EncoderComponent {
            format: VideoFormat::Hevc,
            id: "AMFVideoEncoderHW_HEVC",
            max_profile: "HevcMaxProfile",
            max_level: "HevcMaxLevel",
            b_frames: None,
            ten_bit: Some(
                TenBitInit {
                    profile: "HevcProfile",
                    profile_value: 2,
                    color_bit_depth: "HevcColorBitDepth",
                },
            ),
        },
        EncoderComponent {
            format: VideoFormat::Av1,
            id: "AMFVideoEncoderHW_AV1",
            max_profile: "Av1MaxProfile",
            max_level: "Av1MaxLevel",
            b_frames: Some("AV1BFrames"),
            ten_bit: Some(
                TenBitInit {
                    profile: "Av1Profile",
                    profile_value: 1,
                    color_bit_depth: "Av1ColorBitDepth",
                },
            ),
        },
    ]
}

/// The probed capabilities: the tables, the converter's formats, the runtime version
/// split into its parts, the device the context runs on, and the adapter it was
/// probed on.
pub fn assemble_capabilities(
    supported_decoders: FormatMap<Vec<u8>>,
    supported_encoders: FormatMap<AmfEncoderCapability>,
    vpp_input_formats: Vec<AmfSurfaceFormat>,
    vpp_output_formats: Vec<AmfSurfaceFormat>,
    runtime: Option<u64>,
    device: AmfDevice,
    adapter: Option<AmfAdapter>,
) -> (r: AmfCapabilities)
    ensures
        r.supported_decoders.view() == supported_decoders.view(),
        r.supported_encoders.view() == supported_encoders.view(),
        r.vpp_input_formats@ == vpp_input_formats@,
        r.vpp_output_formats@ == vpp_output_formats@,
        r.runtime_version == match runtime {
            Some(v) => Some(version_parts(v)),
            None => None,
        },
        r.device == Some(device),
        r.adapter == adapter,
{
    let runtime_version = match runtime {
        Some(v) => Some(amf_version_parts(v)),
        None => None,
    };
    AmfCapabilities {
        supported_decoders: supported_decoders,
        supported_encoders: supported_encoders,
        vpp_input_formats: vpp_input_formats,
        vpp_output_formats: vpp_output_formats,
        runtime_version: runtime_version,
        device: Some(device),
        adapter: adapter,
    }
}


/// The name of a decoder component marks a 10-bit profile: it ends in `MAIN10` or
/// `10BIT`.
pub open spec fn marks_ten_bit(name: Seq<char>) -> bool {
    ||| name.len() >= 6 && name.subrange(name.len() - 6, name.len() as int) == "MAIN10"@
    ||| name.len() >= 5 && name.subrange(name.len() - 5, name.len() as int) == "10BIT"@
}

proof fn lemma_unmarked(name: Seq<char>)
    requires
        name.len() > 0,
        name.last() != '0',
        name.last() != 'T',
    ensures
        !marks_ten_bit(name),
{
    reveal_strlit("MAIN10");
    reveal_strlit("10BIT");
    if name.len() >= 6 && name.subrange(name.len() - 6, name.len() as int) == "MAIN10"@ {
        assert(name.subrange(name.len() - 6, name.len() as int)[5] == name.last());
    }
    if name.len() >= 5 && name.subrange(name.len() - 5, name.len() as int) == "10BIT"@ {
        assert(name.subrange(name.len() - 5, name.len() as int)[4] == name.last());
    }
}

/// A decoder component that exists for a 10-bit profile stands for bit depth 10 alone;
/// every other component decodes 8-bit; and each format with a 10-bit profile (HEVC,
/// VP9, AV1) has a component that decodes 10-bit.
pub proof fn lemma_decoder_rows_bit_depths()
    ensures
        forall|k: int|
            0 <= k < decoder_rows().len() && marks_ten_bit(#[trigger] decoder_rows()[k].1)
                ==> decoder_rows()[k].2 == seq![10u8],
        forall|k: int|
            0 <= k < decoder_rows().len() && !marks_ten_bit(#[trigger] decoder_rows()[k].1)
                ==> decoder_rows()[k].2.contains(8u8),
        forall|k: int|
            0 <= k < decoder_rows().len() ==> forall|i: int|
                0 <= i < (#[trigger] decoder_rows()[k]).2.len() ==> decoder_rows()[k].2[i] == 8
                    || decoder_rows()[k].2[i] == 10,
        exists|k: int|
            0 <= k < decoder_rows().len() && (#[trigger] decoder_rows()[k]).0 == VideoFormat::Hevc
                && decoder_rows()[k].2.contains(10u8),
        exists|k: int|
            0 <= k < decoder_rows().len() && (#[trigger] decoder_rows()[k]).0 == VideoFormat::Vp9
                && decoder_rows()[k].2.contains(10u8),
        exists|k: int|
            0 <= k < decoder_rows().len() && (#[trigger] decoder_rows()[k]).0 == VideoFormat::Av1
                && decoder_rows()[k].2.contains(10u8),
{
    let rows = decoder_rows();
    reveal_strlit("AMFVideoDecoderUVD_MPEG2");
    reveal_strlit("AMFVideoDecoderUVD_VC1");
    reveal_strlit("AMFVideoDecoderUVD_H264_AVC");
    reveal_strlit("AMFVideoDecoderHW_H265_HEVC");
    reveal_strlit("AMFVideoDecoderHW_H265_MAIN10");
    reveal_strlit("AMFVideoDecoderHW_VP9");
    reveal_strlit("AMFVideoDecoderHW_VP9_10BIT");
    reveal_strlit("AMFVideoDecoderHW_AV1");
    reveal_strlit("MAIN10");
    reveal_strlit("10BIT");
    lemma_unmarked(rows[0].1);
    lemma_unmarked(rows[1].1);
    lemma_unmarked(rows[2].1);
    lemma_unmarked(rows[3].1);
    lemma_unmarked(rows[5].1);
    lemma_unmarked(rows[7].1);
    let m = rows[4].1;
    assert(m.subrange(m.len() - 6, m.len() as int) =~= "MAIN10"@);
    let b = rows[6].1;
    assert(b.subrange(b.len() - 5, b.len() as int) =~= "10BIT"@);
    assert(rows[0].2[0] == 8 && rows[1].2[0] == 8 && rows[2].2[0] == 8 && rows[3].2[0] == 8);
    assert(rows[5].2[0] == 8 && rows[7].2[0] == 8 && rows[7].2[1] == 10);
    assert(rows[4].2[0] == 10 && rows[6].2[0] == 10);
    assert(rows[4].0 == VideoFormat::Hevc && rows[4].2.contains(10u8));
    assert(rows[6].0 == VideoFormat::Vp9 && rows[6].2.contains(10u8));
    assert(rows[7].0 == VideoFormat::Av1 && rows[7].2.contains(10u8));
}

} // verus!
