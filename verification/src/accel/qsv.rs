//! Intel Quick Sync: the filters that run on QSV surfaces, and the planner hooks that
//! pick them.
use vstd::prelude::*;

use crate::capabilities::qsv::QsvCapabilities;
use crate::ffmpeg_info::{FfmpegInfo, KnownHardwareAccel, KnownVideoFilter};
use crate::hw_accel::{HwDecoder, VideoCodec};
use crate::output_settings::VideoFilterOptions;
use crate::pipeline::{
    clone_opt_string, opt_view, parse_pixel_format, pixel_bit_depth, pixel_format_name,
    scaled_state, views, FrameSize, FrameState, FrameStateModel, FrameSurface, PixelFormat,
    SurfaceSet, VideoFormat,
};
use crate::probe::ProbeResultVideoStream;
use crate::text::{decimal, owned, push_decimal, push_str, str_eq};
use crate::video_filter::VideoFilter;

verus! {

broadcast use vstd::string::group_string_axioms;

/// The `vpp_qsv` option that only builds with padding support advertise.
pub const VPP_QSV_PAD_OPTION: &'static str = "pad_w";

/// Scaling on the device with `vpp_qsv`.
#[derive(Clone, Copy, Debug, PartialEq, Eq, Structural)]
pub struct ScaleQsv {
    pub size: Option<FrameSize>,
    pub input_is_anamorphic: bool,
}

/// The `vpp_qsv` scale argument: an optional square-pixel prescale, the scale to
/// `size`, the extra options, and a square sample aspect ratio.
pub open spec fn scale_qsv_arg(prescale: bool, size: FrameSize, extra: Seq<char>) -> Seq<char> {
    (if prescale {
        "vpp_qsv=w=iw*sar:h=ih,"@
    } else {
        Seq::<char>::empty()
    }) + "vpp_qsv=w="@ + decimal(size.width as nat) + ":h="@ + decimal(size.height as nat)
        + extra + ",setsar=1"@
}

impl ScaleQsv {
    pub open spec fn arg_with_spec(&self, extra: Seq<char>) -> Option<Seq<char>> {
        match self.size {
            Some(size) => Some(scale_qsv_arg(self.input_is_anamorphic, size, extra)),
            None => None,
        }
    }

    pub open spec fn apply_spec(&self, s: FrameStateModel) -> FrameStateModel {
        match self.size {
            Some(size) => scaled_state(s, size, FrameSurface::Qsv),
            None => s,
        }
    }

    /// The filter argument with `extra_options` appended to the scale options; `None`
    /// without a target size.
    pub fn as_arg_with(&self, extra_options: &str) -> (r: Option<String>)
        ensures
            opt_view(r) == self.arg_with_spec(extra_options@),
    {
        match self.size {
            Some(size) => {
                let mut r = String::new();
                if self.input_is_anamorphic {
                    push_str(&mut r, "vpp_qsv=w=iw*sar:h=ih,");
                }
                push_str(&mut r, "vpp_qsv=w=");
                push_decimal(&mut r, size.width as u64);
                push_str(&mut r, ":h=");
                push_decimal(&mut r, size.height as u64);
                push_str(&mut r, extra_options);
                push_str(&mut r, ",setsar=1");
                assert(r@ =~= scale_qsv_arg(self.input_is_anamorphic, size, extra_options@));
                Some(r)
            },
            None => None,
        }
    }

    pub fn as_arg(&self) -> (r: Option<String>)
        ensures
            opt_view(r) == self.arg_with_spec(Seq::<char>::empty()),
    {
        proof {
            reveal_strlit("");
        }
        let r = self.as_arg_with("");
        assert(""@ =~= Seq::<char>::empty());
        r
    }

    pub fn apply_to(&self, state: &mut FrameState)
        ensures
            final(state)@ == self.apply_spec(old(state)@),
    {
        if let Some(size) = self.size {
            state.size = size;
            state.surface = FrameSurface::Qsv;
            state.is_anamorphic = false;
            state.sample_aspect_ratio = Some(owned("1:1"));
            state.display_aspect_ratio = None;
        }
    }

    /// Nothing to resolve: the filter is final as chosen.
    pub fn evaluate(&self, _state: &FrameState, _ffmpeg_info: &FfmpegInfo) -> (r: Option<VideoFilter>)
        ensures
            r is None,
    {
        None
    }

    pub fn required_surface(&self) -> (r: Option<FrameSurface>)
        ensures
            r == Some(FrameSurface::Qsv),
    {
        Some(FrameSurface::Qsv)
    }
}

/// Padding on the device with `vpp_qsv`, optionally fused with the scale before it:
/// scale and pad then share one `vpp_qsv` instance and one VPP pass.
#[derive(Clone, Copy, Debug, PartialEq, Eq, Structural)]
pub struct PadQsv {
    pub size: Option<FrameSize>,
    pub scale: Option<ScaleQsv>,
}

/// The `vpp_qsv` padding options that centre the frame on a black `size` canvas.
pub open spec fn pad_qsv_options(size: FrameSize) -> Seq<char> {
    "pad_w="@ + decimal(size.width as nat) + ":pad_h="@ + decimal(size.height as nat)
        + ":pad_x=-1:pad_y=-1:pad_color=black"@
}

impl PadQsv {
    pub open spec fn arg_spec(&self) -> Option<Seq<char>> {
        match self.size {
            None => None,
            Some(size) => match self.scale {
                Some(scale) if scale.size is Some => scale.arg_with_spec(
                    ":"@ + pad_qsv_options(size),
                ),
                _ => Some("vpp_qsv="@ + pad_qsv_options(size)),
            },
        }
    }

    pub open spec fn apply_spec(&self, s: FrameStateModel) -> FrameStateModel {
        let scaled = match self.scale {
            Some(scale) => scale.apply_spec(s),
            None => s,
        };
        match self.size {
            Some(size) => FrameStateModel { size: size, surface: FrameSurface::Qsv, ..scaled },
            None => scaled,
        }
    }

    fn pad_options(size: &FrameSize) -> (r: String)
        ensures
            r@ == pad_qsv_options(*size),
    {
        let mut r = owned("pad_w=");
        push_decimal(&mut r, size.width as u64);
        push_str(&mut r, ":pad_h=");
        push_decimal(&mut r, size.height as u64);
        push_str(&mut r, ":pad_x=-1:pad_y=-1:pad_color=black");
        r
    }

    pub fn as_arg(&self) -> (r: Option<String>)
        ensures
            opt_view(r) == self.arg_spec(),
    {
        let size = match self.size {
            Some(size) => size,
            None => return None,
        };
        let pad_options = Self::pad_options(&size);
        if let Some(scale) = self.scale {
            let mut extra = owned(":");
            push_str(&mut extra, pad_options.as_str());
            if let Some(arg) = scale.as_arg_with(extra.as_str()) {
                return Some(arg);
            }
        }
        let mut r = owned("vpp_qsv=");
        push_str(&mut r, pad_options.as_str());
        Some(r)
    }

    pub fn apply_to(&self, state: &mut FrameState)
        ensures
            final(state)@ == self.apply_spec(old(state)@),
    {
        if let Some(scale) = self.scale {
            scale.apply_to(state);
        }
        if let Some(size) = self.size {
            state.size = size;
            state.surface = FrameSurface::Qsv;
        }
    }

    /// Nothing to resolve: the filter is final as chosen.
    pub fn evaluate(&self, _state: &FrameState, _ffmpeg_info: &FfmpegInfo) -> (r: Option<VideoFilter>)
        ensures
            r is None,
    {
        None
    }

    pub fn required_surface(&self) -> (r: Option<FrameSurface>)
        ensures
            r == Some(FrameSurface::Qsv),
    {
        Some(FrameSurface::Qsv)
    }
}

/// A pad fused with the scale before it leaves the frames as that scale and then the
/// pad alone would.
pub proof fn lemma_fused_pad_is_scale_then_pad(
    size: Option<FrameSize>,
    scale: ScaleQsv,
    s: FrameStateModel,
)
    ensures
        (PadQsv { size: size, scale: Some(scale) }).apply_spec(s) == (PadQsv {
            size: size,
            scale: None,
        }).apply_spec(scale.apply_spec(s)),
{
}

/// Pixel format conversion on the device.
#[derive(Clone, Copy, Debug, PartialEq, Eq, Structural)]
pub struct FormatQsv {
    pub format: PixelFormat,
}

impl FormatQsv {
    pub open spec fn arg_spec(&self) -> Seq<char> {
        "vpp_qsv=format="@ + pixel_format_name(self.format)
    }

    pub open spec fn apply_spec(&self, s: FrameStateModel) -> FrameStateModel {
        FrameStateModel { pixel_format: self.format, surface: FrameSurface::Qsv, ..s }
    }

    pub fn as_arg(&self) -> (r: Option<String>)
        ensures
            opt_view(r) == Some(self.arg_spec()),
    {
        let mut r = owned("vpp_qsv=format=");
        push_str(&mut r, self.format.as_arg());
        Some(r)
    }

    pub fn apply_to(&self, state: &mut FrameState)
        ensures
            final(state)@ == self.apply_spec(old(state)@),
    {
        state.pixel_format = self.format;
        state.surface = FrameSurface::Qsv;
    }

    /// Nothing to resolve: the filter is final as chosen.
    pub fn evaluate(&self, _state: &FrameState, _ffmpeg_info: &FfmpegInfo) -> (r: Option<VideoFilter>)
        ensures
            r is None,
    {
        None
    }

    pub fn required_surface(&self) -> (r: Option<FrameSurface>)
        ensures
            r == Some(FrameSurface::Qsv),
    {
        Some(FrameSurface::Qsv)
    }
}

/// Deinterlacing on the device.
#[derive(Clone, Debug)]
pub struct DeinterlaceQsv {
    pub mode: Option<String>,
}

impl DeinterlaceQsv {
    /// The `deinterlace_qsv` argument; mode 2 (advanced) when none is set.
    pub open spec fn arg_spec(&self) -> Seq<char> {
        "deinterlace_qsv=mode="@ + match self.mode {
            Some(m) => m@,
            None => "2"@,
        }
    }

    pub open spec fn apply_spec(&self, s: FrameStateModel) -> FrameStateModel {
        FrameStateModel { is_interlaced: false, surface: FrameSurface::Qsv, ..s }
    }

    /// A copy of this filter.
    pub fn duplicate(&self) -> (r: DeinterlaceQsv)
        ensures
            r == *self,
    {
        DeinterlaceQsv { mode: clone_opt_string(&self.mode) }
    }

    pub fn as_arg(&self) -> (r: Option<String>)
        ensures
            opt_view(r) == Some(self.arg_spec()),
    {
        let mut r = owned("deinterlace_qsv=mode=");
        match &self.mode {
            Some(m) => push_str(&mut r, m.as_str()),
            None => push_str(&mut r, "2"),
        }
        Some(r)
    }

    pub fn apply_to(&self, state: &mut FrameState)
        ensures
            final(state)@ == self.apply_spec(old(state)@),
    {
        state.is_interlaced = false;
        state.surface = FrameSurface::Qsv;
    }

    /// Nothing to resolve: the filter is final as chosen.
    pub fn evaluate(&self, _state: &FrameState, _ffmpeg_info: &FfmpegInfo) -> (r: Option<VideoFilter>)
        ensures
            r is None,
    {
        None
    }

    pub fn required_surface(&self) -> (r: Option<FrameSurface>)
        ensures
            r == Some(FrameSurface::Qsv),
    {
        Some(FrameSurface::Qsv)
    }
}

/// Intel Quick Sync, with the capabilities probed from the runtime.
#[derive(Debug)]
pub struct Qsv {
    pub capabilities: QsvCapabilities,
}

/// The formats the QSV decoder takes, by ffprobe codec name.
pub open spec fn qsv_decode_format(codec: Seq<char>) -> Option<VideoFormat> {
    if codec == "h264"@ {
        Some(VideoFormat::H264)
    } else if codec == "hevc"@ {
        Some(VideoFormat::Hevc)
    } else {
        None
    }
}

/// The encoder options QSV encodes always take; hevc adds the `hvc1` tag.
pub open spec fn qsv_encoder_options(hevc: bool) -> Seq<Seq<char>> {
    seq!["-low_power"@, "0"@, "-look_ahead"@, "0"@, "-forced_idr"@, "1"@] + if hevc {
        seq!["-tag:v"@, "hvc1"@]
    } else {
        Seq::<Seq<char>>::empty()
    }
}

/// An encoder that prefers nv12 and p010 frames on QSV surfaces.
pub open spec fn is_qsv_codec(c: VideoCodec, name: Seq<char>, options: Seq<Seq<char>>) -> bool {
    &&& c.codec_name@ == name
    &&& views(c.options@) == options
    &&& c.preferred_pixel_format_8bit == Some(PixelFormat::Nv12)
    &&& c.preferred_pixel_format_10bit == Some(PixelFormat::P010le)
    &&& c.preferred_surface == FrameSurface::Qsv
}

impl Qsv {
    pub open spec fn can_decode_spec(&self, codec: Seq<char>, pixel_format: PixelFormat) -> bool {
        match qsv_decode_format(codec) {
            Some(format) => self.capabilities.can_decode_spec(format, pixel_bit_depth(pixel_format)),
            None => false,
        }
    }

    /// The QSV filter that replaces a software filter where this ffmpeg build has one:
    /// scaling and deinterlacing need the QSV filters, padding needs a `vpp_qsv` that
    /// advertises the pad options. Every other filter stays as it is.
    pub open spec fn best_filter_spec(
        &self,
        f: VideoFilter,
        info: FfmpegInfo,
        options: VideoFilterOptions,
    ) -> VideoFilter {
        match f {
            VideoFilter::Scale(s) => if info.has_video_filter_spec(KnownVideoFilter::VppQsv) {
                VideoFilter::ScaleQsv(
                    ScaleQsv { size: s.size, input_is_anamorphic: s.input_is_anamorphic },
                )
            } else {
                f
            },
            VideoFilter::Deinterlace(_) => if info.has_video_filter_spec(
                KnownVideoFilter::DeinterlaceQsv,
            ) {
                VideoFilter::DeinterlaceQsv(DeinterlaceQsv { mode: options.deinterlace_qsv.mode })
            } else {
                f
            },
            VideoFilter::Pad(p) => if info.has_option_spec(
                KnownVideoFilter::VppQsv,
                VPP_QSV_PAD_OPTION@,
            ) {
                VideoFilter::PadQsv(PadQsv { size: p.size, scale: None })
            } else {
                f
            },
            _ => f,
        }
    }

    pub fn best_filter(
        &self,
        video_filter: &VideoFilter,
        ffmpeg_info: &FfmpegInfo,
        _current_state: &FrameState,
        filter_options: &VideoFilterOptions,
    ) -> (r: VideoFilter)
        ensures
            r == self.best_filter_spec(*video_filter, *ffmpeg_info, *filter_options),
    {
        match video_filter {
            VideoFilter::Scale(scale) => {
                if ffmpeg_info.has_video_filter(&KnownVideoFilter::VppQsv) {
                    return VideoFilter::ScaleQsv(
                        ScaleQsv { size: scale.size, input_is_anamorphic: scale.input_is_anamorphic },
                    );
                }
            },
            VideoFilter::Deinterlace(_) => {
                if ffmpeg_info.has_video_filter(&KnownVideoFilter::DeinterlaceQsv) {
                    return VideoFilter::DeinterlaceQsv(
                        DeinterlaceQsv { mode: clone_opt_string(&filter_options.deinterlace_qsv.mode) },
                    );
                }
            },
            // upstream vpp_qsv has no pad options, only the patched builds do
            VideoFilter::Pad(pad) => {
                if ffmpeg_info.video_filter_has_option(&KnownVideoFilter::VppQsv, VPP_QSV_PAD_OPTION) {
                    return VideoFilter::PadQsv(PadQsv { size: pad.size, scale: None });
                }
            },
            _ => {},
        }
        video_filter.duplicate()
    }

    /// Only h264 and hevc decode on the device, at the bit depths the runtime reported.
    pub fn can_decode(&self, codec: &str, _profile: &str, pixel_format: &PixelFormat) -> (r: bool)
        ensures
            r == self.can_decode_spec(codec@, *pixel_format),
    {
        let format = if str_eq(codec, "h264") {
            VideoFormat::H264
        } else if str_eq(codec, "hevc") {
            VideoFormat::Hevc
        } else {
            return false;
        };
        self.capabilities.can_decode(&format, pixel_format.bit_depth())
    }

    pub fn can_encode(&self, format: &VideoFormat, bit_depth: u8) -> (r: bool)
        ensures
            r == self.capabilities.can_encode_spec(*format, bit_depth),
    {
        self.capabilities.can_encode(format, bit_depth)
    }

    pub fn codec_for_format(
        &self,
        format: &VideoFormat,
        _bit_depth: u8,
        _video_size: Option<FrameSize>,
    ) -> (r: Option<VideoCodec>)
        ensures
            match *format {
                VideoFormat::H264 => r matches Some(c) && is_qsv_codec(
                    c,
                    "h264_qsv"@,
                    qsv_encoder_options(false),
                ),
                VideoFormat::Hevc => r matches Some(c) && is_qsv_codec(
                    c,
                    "hevc_qsv"@,
                    qsv_encoder_options(true),
                ),
                _ => r is None,
            },
    {
        let hevc = match format {
            VideoFormat::H264 => false,
            VideoFormat::Hevc => true,
            _ => return None,
        };
        let mut options = vec![
            owned("-low_power"),
            owned("0"),
            owned("-look_ahead"),
            owned("0"),
            owned("-forced_idr"),
            owned("1"),
        ];
        if hevc {
            options.push(owned("-tag:v"));
            options.push(owned("hvc1"));
        }
        assert(views(options@) =~= qsv_encoder_options(hevc));
        Some(
            VideoCodec {
                codec_name: if hevc {
                    "hevc_qsv"
                } else {
                    "h264_qsv"
                },
                options: options,
                preferred_pixel_format_8bit: Some(PixelFormat::Nv12),
                preferred_pixel_format_10bit: Some(PixelFormat::P010le),
                preferred_surface: FrameSurface::Qsv,
            },
        )
    }

    pub fn format_filter(&self, pixel_format: &PixelFormat) -> (r: Option<VideoFilter>)
        ensures
            r == Some(VideoFilter::FormatQsv(FormatQsv { format: *pixel_format })),
    {
        Some(VideoFilter::FormatQsv(FormatQsv { format: *pixel_format }))
    }

    pub fn init_hw_device(&self, _surfaces: &SurfaceSet) -> (r: Vec<String>)
        ensures
            views(r@) == seq!["-init_hw_device"@, "qsv=hw"@, "-filter_hw_device"@, "hw"@],
    {
        let r = vec![owned("-init_hw_device"), owned("qsv=hw"), owned("-filter_hw_device"), owned("hw")];
        assert(views(r@) =~= seq!["-init_hw_device"@, "qsv=hw"@, "-filter_hw_device"@, "hw"@]);
        r
    }

    pub fn known_accel(&self) -> (r: Option<&KnownHardwareAccel>)
        ensures
            r matches Some(a) && *a == KnownHardwareAccel::Qsv,
    {
        Some(&KnownHardwareAccel::Qsv)
    }

    /// Decoding on the device needs nothing after the decoder.
    pub fn make_decoder(
        &self,
        _ffmpeg_info: &FfmpegInfo,
        video_stream: &ProbeResultVideoStream,
    ) -> (r: Option<HwDecoder>)
        ensures
            r is Some == self.can_decode_spec(
                video_stream.codec@,
                parse_pixel_format(video_stream.pix_fmt@),
            ),
            r matches Some(d) ==> views(d.args@) == seq![
                "-hwaccel"@,
                "qsv"@,
                "-hwaccel_output_format"@,
                "qsv"@,
            ] && d.surface == FrameSurface::Qsv && d.filters@.len() == 0,
    {
        let pixel_format = PixelFormat::parse(video_stream.pix_fmt.as_str());
        if self.can_decode(video_stream.codec.as_str(), video_stream.profile.as_str(), &pixel_format) {
            let args = vec![owned("-hwaccel"), owned("qsv"), owned("-hwaccel_output_format"), owned("qsv")];
            assert(views(args@) =~= seq!["-hwaccel"@, "qsv"@, "-hwaccel_output_format"@, "qsv"@]);
            Some(HwDecoder { args: args, surface: FrameSurface::Qsv, filters: Vec::new() })
        } else {
            None
        }
    }

    pub fn accepts_upload_format(&self, pixel_format: &PixelFormat) -> (r: bool)
        ensures
            r == self.capabilities.vpp_supports_format_spec(*pixel_format),
    {
        self.capabilities.vpp_supports_format(pixel_format)
    }
}


/// QSV decodes h264 and hevc, by their ffprobe names, and nothing else; each name
/// reaches the same format as for AMF, and a stream with either name decodes on QSV
/// exactly when the runtime reports a decoder for its format at the stream's depth.
pub proof fn lemma_qsv_decode_formats(qsv: Qsv, pixel_format: PixelFormat, c: Seq<char>)
    ensures
        qsv_decode_format("h264"@) == Some(VideoFormat::H264),
        qsv_decode_format("hevc"@) == Some(VideoFormat::Hevc),
        qsv_decode_format(c) matches Some(f) ==> (f == VideoFormat::H264 || f == VideoFormat::Hevc)
            && crate::accel::amf::amf_video_format(c) == Some(f),
        qsv.can_decode_spec("h264"@, pixel_format) == qsv.capabilities.can_decode_spec(
            VideoFormat::H264,
            pixel_bit_depth(pixel_format),
        ),
        qsv.can_decode_spec("hevc"@, pixel_format) == qsv.capabilities.can_decode_spec(
            VideoFormat::Hevc,
            pixel_bit_depth(pixel_format),
        ),
        qsv_decode_format(c) is None ==> !qsv.can_decode_spec(c, pixel_format),
{
    reveal_strlit("h264");
    reveal_strlit("hevc");
    assert("h264"@[1] != "hevc"@[1]);
    crate::accel::amf::lemma_amf_codec_formats(c, c);
}

} // verus!
