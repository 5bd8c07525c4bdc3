//! AMD AMF: the `vpp_amf` converter, and the planner hooks that decide what runs on
//! the device.
use vstd::prelude::*;

use crate::capabilities::amf::{AmfAdapter, AmfCapabilities};
use crate::ffmpeg_info::{
    decoder_name, has_name, FfmpegInfo, KnownDecoders, KnownHardwareAccel, KnownVideoFilter,
};
use crate::hw_accel::{HwDecoder, PipelineFilter, VideoCodec};
use crate::output_settings::VideoFilterOptions;
use crate::pipeline::{
    hw_output_format, hw_pixel_format, join, join_strings, opt_view, parse_pixel_format,
    pixel_bit_depth, pixel_format_name, pixel_has_alpha, scaled_state, views, FrameSize,
    FrameState, FrameStateModel, FrameSurface, HdrFormat, HwPixelFormat, PixelFormat,
    SurfaceSet, VideoFormat,
};
use crate::probe::ProbeResultVideoStream;
use crate::text::{decimal, owned, push_decimal, push_str, str_eq};
use crate::video_filter::{HwDownloadFilter, VideoFilter};

verus! {

broadcast use vstd::string::group_string_axioms;

/// One `vpp_amf` instance: any of a scale, a format conversion and a PQ to bt709
/// conversion.
#[derive(Clone, Copy, Debug, PartialEq, Eq, Structural)]
pub struct VppAmf {
    pub tonemap: bool,
    pub size: Option<FrameSize>,
    pub format: Option<PixelFormat>,
}

impl Default for VppAmf {
    fn default() -> (r: VppAmf)
        ensures
            r == (VppAmf { tonemap: false, size: None, format: None }),
    {
        VppAmf { tonemap: false, size: None, format: None }
    }
}

/// The options of one `vpp_amf` instance, in the order ffmpeg receives them.
pub open spec fn vpp_amf_options(f: VppAmf) -> Seq<Seq<char>> {
    (match f.size {
        Some(size) => seq!["w="@ + decimal(size.width as nat) + ":h="@ + decimal(size.height as nat)],
        None => Seq::<Seq<char>>::empty(),
    }) + (match f.format {
        Some(format) => seq!["format="@ + pixel_format_name(format)],
        None => Seq::<Seq<char>>::empty(),
    }) + (if f.tonemap {
        seq!["color_profile=bt709:primaries=bt709:trc=bt709"@]
    } else {
        Seq::<Seq<char>>::empty()
    })
}

impl VppAmf {
    /// The fusion of this instance with the next one: `None` when both scale, or when
    /// the result would tone map to anything but nv12. A later format conversion wins.
    pub open spec fn fuse_spec(&self, next: VppAmf) -> Option<VppAmf> {
        if self.size is Some && next.size is Some {
            None
        } else {
            let fused = VppAmf {
                tonemap: self.tonemap || next.tonemap,
                size: if self.size is Some { self.size } else { next.size },
                format: if next.format is Some { next.format } else { self.format },
            };
            if fused.tonemap && fused.format != Some(PixelFormat::Nv12) {
                None
            } else {
                Some(fused)
            }
        }
    }

    pub open spec fn apply_spec(&self, s: FrameStateModel) -> FrameStateModel {
        let on_device = FrameStateModel { surface: FrameSurface::Amf, ..s };
        let mapped = if self.tonemap {
            FrameStateModel { hdr_format: HdrFormat::Sdr, ..on_device }
        } else {
            on_device
        };
        let scaled = match self.size {
            Some(size) => scaled_state(mapped, size, FrameSurface::Amf),
            None => mapped,
        };
        match self.format {
            Some(format) => FrameStateModel { pixel_format: format, ..scaled },
            None => scaled,
        }
    }

    pub open spec fn arg_spec(&self) -> Option<Seq<char>> {
        let options = vpp_amf_options(*self);
        if options.len() == 0 {
            None
        } else {
            Some(
                "vpp_amf="@ + join(options, ":"@) + if self.size is Some {
                    ",setsar=1"@
                } else {
                    Seq::<char>::empty()
                },
            )
        }
    }

    pub fn scale(size: FrameSize) -> (r: VppAmf)
        ensures
            r == (VppAmf { tonemap: false, size: Some(size), format: None }),
    {
        VppAmf { size: Some(size), ..VppAmf::default() }
    }

    pub fn format(format: PixelFormat) -> (r: VppAmf)
        ensures
            r == (VppAmf { tonemap: false, size: None, format: Some(format) }),
    {
        VppAmf { format: Some(format), ..VppAmf::default() }
    }

    /// PQ to bt709 conversion. Only nv12 output maps the gamut correctly.
    /// The PQ to bt709 conversion, to nv12.
    pub open spec fn tonemap_spec() -> VppAmf {
        VppAmf { tonemap: true, size: None, format: Some(PixelFormat::Nv12) }
    }

    pub fn tonemap() -> (r: VppAmf)
        ensures
            r == VppAmf::tonemap_spec(),
    {
        VppAmf { tonemap: true, format: Some(PixelFormat::Nv12), ..VppAmf::default() }
    }

    pub fn fuse(&self, next: &VppAmf) -> (r: Option<VppAmf>)
        ensures
            r == self.fuse_spec(*next),
    {
        if self.size.is_some() && next.size.is_some() {
            return None;
        }
        let fused = VppAmf {
            tonemap: self.tonemap || next.tonemap,
            size: match self.size {
                Some(size) => Some(size),
                None => next.size,
            },
            format: match next.format {
                Some(format) => Some(format),
                None => self.format,
            },
        };
        // the converter only tone maps correctly to nv12
        let nv12 = match fused.format {
            Some(PixelFormat::Nv12) => true,
            _ => false,
        };
        if fused.tonemap && !nv12 {
            return None;
        }
        Some(fused)
    }

    pub fn apply_to(&self, state: &mut FrameState)
        ensures
            final(state)@ == self.apply_spec(old(state)@),
    {
        state.surface = FrameSurface::Amf;
        if self.tonemap {
            state.hdr_format = HdrFormat::Sdr;
        }
        if let Some(size) = self.size {
            state.size = size;
            state.surface = FrameSurface::Amf;
            state.is_anamorphic = false;
            state.sample_aspect_ratio = Some(owned("1:1"));
            state.display_aspect_ratio = None;
        }
        if let Some(format) = self.format {
            state.pixel_format = format;
        }
    }

    /// Nothing to resolve: the filter is final as chosen.
    pub fn evaluate(&self, _state: &FrameState, _ffmpeg_info: &FfmpegInfo) -> (r: Option<VideoFilter>)
        ensures
            r is None,
    {
        None
    }

    pub fn required_surface(&self) -> (r: Option<FrameSurface>)
        ensures
            r == Some(FrameSurface::Amf),
    {
        Some(FrameSurface::Amf)
    }

    pub fn as_arg(&self) -> (r: Option<String>)
        ensures
            opt_view(r) == self.arg_spec(),
    {
        let mut options: Vec<String> = Vec::new();
        if let Some(size) = self.size {
            let mut o = owned("w=");
            push_decimal(&mut o, size.width as u64);
            push_str(&mut o, ":h=");
            push_decimal(&mut o, size.height as u64);
            options.push(o);
        }
        let ghost after_size = views(options@);
        if let Some(format) = self.format {
            let mut o = owned("format=");
            push_str(&mut o, format.as_arg());
            options.push(o);
        }
        let ghost after_format = views(options@);
        if self.tonemap {
            options.push(owned("color_profile=bt709:primaries=bt709:trc=bt709"));
        }
        proof {
            let s = match self.size {
                Some(size) => seq![
                    "w="@ + decimal(size.width as nat) + ":h="@ + decimal(size.height as nat),
                ],
                None => Seq::<Seq<char>>::empty(),
            };
            let f = match self.format {
                Some(format) => seq!["format="@ + pixel_format_name(format)],
                None => Seq::<Seq<char>>::empty(),
            };
            assert(after_size =~= s);
            assert(after_format =~= s + f);
            assert(views(options@) =~= vpp_amf_options(*self));
        }
        if options.len() == 0 {
            None
        } else {
            let mut arg = owned("vpp_amf=");
            let joined = join_strings(&options, ":");
            push_str(&mut arg, joined.as_str());
            if self.size.is_some() {
                push_str(&mut arg, ",setsar=1");
            }
            proof {
                reveal_strlit("");
            }
            assert(self.size is None ==> arg@ =~= arg@ + Seq::<char>::empty());
            Some(arg)
        }
    }
}

/// Fusing two `vpp_amf` instances changes nothing about the frames: the fused
/// instance leaves them as the first and then the second would.
pub proof fn lemma_fuse_is_sequential(a: VppAmf, b: VppAmf, s: FrameStateModel)
    requires
        a.fuse_spec(b) is Some,
    ensures
        a.fuse_spec(b).unwrap().apply_spec(s) == b.apply_spec(a.apply_spec(s)),
{
}

/// A fused instance that tone maps always converts to nv12.
pub proof fn lemma_fused_tonemap_is_nv12(a: VppAmf, b: VppAmf)
    requires
        a.fuse_spec(b) matches Some(f) && f.tonemap,
    ensures
        a.fuse_spec(b).unwrap().format == Some(PixelFormat::Nv12),
{
}

/// AMD AMF, with the capabilities probed from the runtime.
#[derive(Debug)]
pub struct Amf {
    pub capabilities: AmfCapabilities,
}

/// The format of a stream, by ffprobe codec name, among those AMF can decode.
pub open spec fn amf_video_format(codec: Seq<char>) -> Option<VideoFormat> {
    if codec == "av1"@ {
        Some(VideoFormat::Av1)
    } else if codec == "h264"@ {
        Some(VideoFormat::H264)
    } else if codec == "hevc"@ {
        Some(VideoFormat::Hevc)
    } else if codec == "mpeg2video"@ {
        Some(VideoFormat::Mpeg2Video)
    } else if codec == "vc1"@ {
        Some(VideoFormat::Vc1)
    } else if codec == "vp9"@ {
        Some(VideoFormat::Vp9)
    } else {
        None
    }
}

/// The ffmpeg decoder that `-hwaccel amf` uses for a codec. vc1 has none on purpose:
/// the AMF runtime stamps each output picture with its own packet's timestamp, and
/// VC-1 in MKV carries decode-order timestamps, so a constant-rate encode would drop
/// and duplicate about a third of the frames.
pub open spec fn amf_decoder_name(codec: Seq<char>) -> Option<Seq<char>> {
    if codec == "av1"@ {
        Some(decoder_name(KnownDecoders::Av1Amf))
    } else if codec == "h264"@ {
        Some(decoder_name(KnownDecoders::H264Amf))
    } else if codec == "hevc"@ {
        Some(decoder_name(KnownDecoders::HevcAmf))
    } else if codec == "mpeg2video"@ {
        Some(decoder_name(KnownDecoders::Mpeg2Amf))
    } else if codec == "vp9"@ {
        Some(decoder_name(KnownDecoders::Vp9Amf))
    } else {
        None
    }
}

fn video_format(codec: &str) -> (r: Option<VideoFormat>)
    ensures
        r == amf_video_format(codec@),
{
    if str_eq(codec, "av1") {
        Some(VideoFormat::Av1)
    } else if str_eq(codec, "h264") {
        Some(VideoFormat::H264)
    } else if str_eq(codec, "hevc") {
        Some(VideoFormat::Hevc)
    } else if str_eq(codec, "mpeg2video") {
        Some(VideoFormat::Mpeg2Video)
    } else if str_eq(codec, "vc1") {
        Some(VideoFormat::Vc1)
    } else if str_eq(codec, "vp9") {
        Some(VideoFormat::Vp9)
    } else {
        None
    }
}

/// `-hwaccel amf` makes ffmpeg use this decoder, so the build must include it; if it
/// is missing, ffmpeg silently falls back to software decoding.
fn amf_decoder(codec: &str) -> (r: Option<&'static str>)
    ensures
        opt_str_view(r) == amf_decoder_name(codec@),
{
    if str_eq(codec, "av1") {
        Some(KnownDecoders::Av1Amf.name())
    } else if str_eq(codec, "h264") {
        Some(KnownDecoders::H264Amf.name())
    } else if str_eq(codec, "hevc") {
        Some(KnownDecoders::HevcAmf.name())
    } else if str_eq(codec, "mpeg2video") {
        Some(KnownDecoders::Mpeg2Amf.name())
    } else if str_eq(codec, "vp9") {
        Some(KnownDecoders::Vp9Amf.name())
    } else {
        None
    }
}

/// The text of an optional string slice.
pub open spec fn opt_str_view(o: Option<&str>) -> Option<Seq<char>> {
    match o {
        Some(s) => Some(s@),
        None => None,
    }
}

/// An encoder that prefers nv12 and p010 frames on AMF surfaces.
pub open spec fn is_amf_codec(c: VideoCodec, name: Seq<char>, options: Seq<Seq<char>>) -> bool {
    &&& c.codec_name@ == name
    &&& views(c.options@) == options
    &&& c.preferred_pixel_format_8bit == Some(PixelFormat::Nv12)
    &&& c.preferred_pixel_format_10bit == Some(PixelFormat::P010le)
    &&& c.preferred_surface == FrameSurface::Amf
}

/// The device arguments: AMF derived from a `d3d11va` device on the chosen adapter,
/// or AMF on the runtime's own choice of adapter.
pub open spec fn amf_device_args(adapter: Option<AmfAdapter>) -> Seq<Seq<char>> {
    match adapter {
        Some(a) => seq![
            "-init_hw_device"@,
            "d3d11va=dx:"@ + decimal(a.index as nat),
            "-init_hw_device"@,
            "amf=hw@dx"@,
            "-filter_hw_device"@,
            "hw"@,
        ],
        None => seq!["-init_hw_device"@, "amf=hw"@, "-filter_hw_device"@, "hw"@],
    }
}

impl Amf {
    /// Decoded surfaces go through vpp_amf, so decoding on the device also needs a
    /// converter that takes the decoded format.
    pub open spec fn can_decode_spec(&self, codec: Seq<char>, pixel_format: PixelFormat) -> bool {
        &&& amf_video_format(codec) matches Some(format)
        &&& self.capabilities.can_decode_spec(format, pixel_bit_depth(pixel_format))
        &&& self.capabilities.vpp_accepts_input_spec(pixel_format)
    }

    /// PQ sources skip the converter check: its caps list no P010 input, but runtimes
    /// that can tone map accept decoder PQ surfaces.
    pub open spec fn can_decode_for_tonemap_spec(
        &self,
        stream: ProbeResultVideoStream,
        pixel_format: PixelFormat,
    ) -> bool {
        &&& stream.color_params.is_pq_spec()
        &&& self.capabilities.can_tonemap_spec()
        &&& amf_video_format(stream.codec@) matches Some(format)
        &&& self.capabilities.can_decode_spec(format, pixel_bit_depth(pixel_format))
    }

    /// Whether a tone map to `output_format` can run in vpp_amf: the converter reads the
    /// transfer characteristics the decoder stamped on the surface, so the frames must
    /// be HDR10 or PQ straight from the AMF decoder, and only nv12 output maps the
    /// gamut.
    pub open spec fn tonemap_on_device_spec(
        &self,
        output_format: PixelFormat,
        info: FfmpegInfo,
        state: FrameState,
    ) -> bool {
        &&& info.has_video_filter_spec(KnownVideoFilter::VppAmf)
        &&& self.capabilities.can_tonemap_spec()
        &&& state.surface == FrameSurface::Amf
        &&& (state.hdr_format == HdrFormat::Hdr10 || state.hdr_format == HdrFormat::Pq)
        &&& hw_pixel_format(output_format) == HwPixelFormat::Nv12
    }

    pub open spec fn best_filter_spec(
        &self,
        f: VideoFilter,
        info: FfmpegInfo,
        state: FrameState,
    ) -> VideoFilter {
        match f {
            VideoFilter::Scale(s) => match s.size {
                Some(size) if info.has_video_filter_spec(KnownVideoFilter::VppAmf) => {
                    VideoFilter::VppAmf(VppAmf { tonemap: false, size: Some(size), format: None })
                },
                _ => f,
            },
            VideoFilter::ToneMap(t) => if self.tonemap_on_device_spec(t.output_format, info, state) {
                VideoFilter::VppAmf(
                    VppAmf { tonemap: true, size: None, format: Some(PixelFormat::Nv12) },
                )
            } else {
                f
            },
            _ => f,
        }
    }

    /// Whether a stream decodes on the device: ffmpeg must have the AMF decoder, and
    /// the converter must take the decoded frames or the source must be PQ on a
    /// runtime that tone maps.
    pub open spec fn decodes_on_device_spec(&self, info: FfmpegInfo, stream: ProbeResultVideoStream) -> bool {
        let pixel_format = parse_pixel_format(stream.pix_fmt@);
        &&& amf_decoder_name(stream.codec@) matches Some(d)
        &&& has_name(info.decoders@, d)
        &&& (self.can_decode_spec(stream.codec@, pixel_format)
            || self.can_decode_for_tonemap_spec(stream, pixel_format))
    }

    fn can_decode_for_tonemap(
        &self,
        video_stream: &ProbeResultVideoStream,
        pixel_format: &PixelFormat,
    ) -> (r: bool)
        ensures
            r == self.can_decode_for_tonemap_spec(*video_stream, *pixel_format),
    {
        if !video_stream.color_params.is_pq() || !self.capabilities.can_tonemap() {
            return false;
        }
        match video_format(video_stream.codec.as_str()) {
            Some(format) => self.capabilities.can_decode(&format, pixel_format.bit_depth()),
            None => false,
        }
    }

    pub fn best_filter(
        &self,
        video_filter: &VideoFilter,
        ffmpeg_info: &FfmpegInfo,
        current_state: &FrameState,
        _filter_options: &VideoFilterOptions,
    ) -> (r: VideoFilter)
        ensures
            r == self.best_filter_spec(*video_filter, *ffmpeg_info, *current_state),
    {
        match video_filter {
            VideoFilter::Scale(scale) => {
                if let Some(size) = scale.size {
                    if ffmpeg_info.has_video_filter(&KnownVideoFilter::VppAmf) {
                        return VideoFilter::VppAmf(VppAmf::scale(size));
                    }
                }
            },
            VideoFilter::ToneMap(tonemap) => {
                let hdr = match current_state.hdr_format {
                    HdrFormat::Hdr10 | HdrFormat::Pq => true,
                    _ => false,
                };
                let on_amf = match current_state.surface {
                    FrameSurface::Amf => true,
                    _ => false,
                };
                let nv12 = match hw_output_format(&tonemap.output_format) {
                    HwPixelFormat::Nv12 => true,
                    HwPixelFormat::P010 => false,
                };
                if ffmpeg_info.has_video_filter(&KnownVideoFilter::VppAmf)
                    && self.capabilities.can_tonemap() && on_amf && hdr && nv12 {
                    return VideoFilter::VppAmf(VppAmf::tonemap());
                }
            },
            _ => {},
        }
        video_filter.duplicate()
    }

    pub fn can_decode(&self, codec: &str, _profile: &str, pixel_format: &PixelFormat) -> (r: bool)
        ensures
            r == self.can_decode_spec(codec@, *pixel_format),
    {
        match video_format(codec) {
            Some(format) => self.capabilities.can_decode(&format, pixel_format.bit_depth())
                && self.capabilities.vpp_accepts_input(pixel_format),
            None => false,
        }
    }

    pub fn can_encode(&self, format: &VideoFormat, bit_depth: u8) -> (r: bool)
        ensures
            r == self.capabilities.can_encode_spec(*format, bit_depth),
    {
        self.capabilities.can_encode(format, bit_depth)
    }

    pub fn codec_for_format(
        &self,
        format: &VideoFormat,
        bit_depth: u8,
        _video_size: Option<FrameSize>,
    ) -> (r: Option<VideoCodec>)
        ensures
            !self.capabilities.can_encode_spec(*format, bit_depth) ==> r is None,
            self.capabilities.can_encode_spec(*format, bit_depth) ==> match *format {
                VideoFormat::H264 => r matches Some(c) && is_amf_codec(
                    c,
                    "h264_amf"@,
                    Seq::<Seq<char>>::empty(),
                ),
                VideoFormat::Hevc => r matches Some(c) && is_amf_codec(
                    c,
                    "hevc_amf"@,
                    seq!["-tag:v"@, "hvc1"@],
                ),
                _ => r is None,
            },
    {
        if !self.capabilities.can_encode(format, bit_depth) {
            return None;
        }
        match format {
            VideoFormat::H264 => {
                let options: Vec<String> = Vec::new();
                assert(views(options@) =~= Seq::<Seq<char>>::empty());
                Some(
                    VideoCodec {
                        codec_name: "h264_amf",
                        options: options,
                        preferred_pixel_format_8bit: Some(PixelFormat::Nv12),
                        preferred_pixel_format_10bit: Some(PixelFormat::P010le),
                        preferred_surface: FrameSurface::Amf,
                    },
                )
            },
            VideoFormat::Hevc => {
                let options = vec![owned("-tag:v"), owned("hvc1")];
                assert(views(options@) =~= seq!["-tag:v"@, "hvc1"@]);
                Some(
                    VideoCodec {
                        codec_name: "hevc_amf",
                        options: options,
                        preferred_pixel_format_8bit: Some(PixelFormat::Nv12),
                        preferred_pixel_format_10bit: Some(PixelFormat::P010le),
                        preferred_surface: FrameSurface::Amf,
                    },
                )
            },
            _ => None,
        }
    }

    /// The converter has no alpha formats.
    pub fn format_filter(&self, pixel_format: &PixelFormat) -> (r: Option<VideoFilter>)
        ensures
            r == if pixel_has_alpha(*pixel_format) {
                None
            } else {
                Some(
                    VideoFilter::VppAmf(
                        VppAmf { tonemap: false, size: None, format: Some(*pixel_format) },
                    ),
                )
            },
    {
        if pixel_format.has_alpha() {
            None
        } else {
            Some(VideoFilter::VppAmf(VppAmf::format(*pixel_format)))
        }
    }

    /// ffmpeg's AMF context ignores its device string. The only way to pick an adapter
    /// is to derive AMF from a `d3d11va` device, which does take an adapter index.
    pub fn init_hw_device(&self, _surfaces: &SurfaceSet) -> (r: Vec<String>)
        ensures
            views(r@) == amf_device_args(self.capabilities.adapter),
    {
        match self.capabilities.adapter() {
            Some(adapter) => {
                let mut device = owned("d3d11va=dx:");
                push_decimal(&mut device, adapter.index as u64);
                let r = vec![
                    owned("-init_hw_device"),
                    device,
                    owned("-init_hw_device"),
                    owned("amf=hw@dx"),
                    owned("-filter_hw_device"),
                    owned("hw"),
                ];
                assert(views(r@) =~= amf_device_args(self.capabilities.adapter));
                r
            },
            None => {
                let r = vec![
                    owned("-init_hw_device"),
                    owned("amf=hw"),
                    owned("-filter_hw_device"),
                    owned("hw"),
                ];
                assert(views(r@) =~= amf_device_args(self.capabilities.adapter));
                r
            },
        }
    }

    pub fn known_accel(&self) -> (r: Option<&KnownHardwareAccel>)
        ensures
            r matches Some(a) && *a == KnownHardwareAccel::Amf,
    {
        Some(&KnownHardwareAccel::Amf)
    }

    /// The AMF decoder stamps interlaced surfaces as field pairs, and the runtime then
    /// switches h264_amf into interlaced scan mode, which stalls; so interlaced frames
    /// are downloaded right after decode and travel as system frames from there.
    pub fn make_decoder(
        &self,
        ffmpeg_info: &FfmpegInfo,
        video_stream: &ProbeResultVideoStream,
    ) -> (r: Option<HwDecoder>)
        ensures
            r is Some == self.decodes_on_device_spec(*ffmpeg_info, *video_stream),
            r matches Some(d) ==> views(d.args@) == seq![
                "-hwaccel"@,
                "amf"@,
                "-hwaccel_output_format"@,
                "amf"@,
            ],
            r matches Some(d) ==> if video_stream.is_interlaced_spec() {
                &&& d.surface == FrameSurface::System
                &&& d.filters@ == seq![
                    PipelineFilter::Video(
                        VideoFilter::HwDownload(
                            HwDownloadFilter { target_pixel_format: PixelFormat::Nv12 },
                        ),
                    ),
                ]
            } else {
                d.surface == FrameSurface::Amf && d.filters@.len() == 0
            },
    {
        let has_decoder = match amf_decoder(video_stream.codec.as_str()) {
            Some(decoder) => ffmpeg_info.has_decoder(decoder),
            None => false,
        };
        if !has_decoder {
            return None;
        }
        let pixel_format = PixelFormat::parse(video_stream.pix_fmt.as_str());
        if !self.can_decode(video_stream.codec.as_str(), video_stream.profile.as_str(), &pixel_format)
            && !self.can_decode_for_tonemap(video_stream, &pixel_format) {
            return None;
        }
        let (surface, filters) = if video_stream.is_interlaced() {
            (
                FrameSurface::System,
                vec![
                    PipelineFilter::Video(
                        VideoFilter::HwDownload(
                            HwDownloadFilter { target_pixel_format: PixelFormat::Nv12 },
                        ),
                    ),
                ],
            )
        } else {
            (FrameSurface::Amf, Vec::new())
        };
        let args = vec![
            owned("-hwaccel"),
            KnownHardwareAccel::Amf.to_string(),
            owned("-hwaccel_output_format"),
            KnownHardwareAccel::Amf.to_string(),
        ];
        assert(views(args@) =~= seq!["-hwaccel"@, "amf"@, "-hwaccel_output_format"@, "amf"@]);
        Some(HwDecoder { args: args, surface: surface, filters: filters })
    }

    pub fn accepts_upload_format(&self, pixel_format: &PixelFormat) -> (r: bool)
        ensures
            r == self.capabilities.vpp_supports_format_spec(*pixel_format),
    {
        self.capabilities.vpp_supports_format(pixel_format)
    }

    pub fn can_convert_pixel_format(
        &self,
        _ffmpeg_info: &FfmpegInfo,
        pixel_format: &PixelFormat,
    ) -> (r: bool)
        ensures
            r == self.capabilities.vpp_supports_format_spec(*pixel_format),
    {
        self.capabilities.vpp_supports_format(pixel_format)
    }
}

/// A vc1 stream never decodes on the device, whatever the hardware and the ffmpeg
/// build support.
pub proof fn lemma_vc1_stays_in_software(amf: Amf, info: FfmpegInfo, stream: ProbeResultVideoStream)
    requires
        stream.codec@ == "vc1"@,
    ensures
        !amf.decodes_on_device_spec(info, stream),
{
    reveal_strlit("vc1");
    reveal_strlit("av1");
    reveal_strlit("h264");
    reveal_strlit("hevc");
    reveal_strlit("mpeg2video");
    reveal_strlit("vp9");
    assert("vc1"@[0] != "av1"@[0] && "vc1"@.len() != "h264"@.len());
    assert("vc1"@.len() != "hevc"@.len() && "vc1"@.len() != "mpeg2video"@.len());
    assert("vc1"@[1] != "vp9"@[1]);
    assert(amf_decoder_name(stream.codec@) is None);
}

/// A stream that is not PQ decodes on the device only if the converter takes the
/// decoded format.
pub proof fn lemma_sdr_decode_needs_converter_input(
    amf: Amf,
    info: FfmpegInfo,
    stream: ProbeResultVideoStream,
)
    requires
        !stream.color_params.is_pq_spec(),
        amf.decodes_on_device_spec(info, stream),
    ensures
        amf.capabilities.vpp_accepts_input_spec(parse_pixel_format(stream.pix_fmt@)),
{
}

/// A tone map goes to the converter only for HDR10 or PQ frames on AMF surfaces,
/// and converts them to nv12.
pub proof fn lemma_device_tonemap_conditions(
    amf: Amf,
    f: VideoFilter,
    info: FfmpegInfo,
    state: FrameState,
)
    requires
        f is ToneMap,
        amf.best_filter_spec(f, info, state) matches VideoFilter::VppAmf(v) && v.tonemap,
    ensures
        state.surface == FrameSurface::Amf,
        state.hdr_format == HdrFormat::Hdr10 || state.hdr_format == HdrFormat::Pq,
        amf.best_filter_spec(f, info, state) == VideoFilter::VppAmf(VppAmf::tonemap_spec()),
{
}


/// Some ffprobe codec name reaches `f`.
pub open spec fn amf_format_named(f: VideoFormat) -> bool {
    exists|n: Seq<char>| #[trigger] amf_video_format(n) == Some(f)
}

proof fn lemma_codec_names_distinct()
    ensures
        "av1"@ != "h264"@ && "av1"@ != "hevc"@ && "av1"@ != "mpeg2video"@ && "av1"@ != "vc1"@
            && "av1"@ != "vp9"@,
        "h264"@ != "hevc"@ && "h264"@ != "mpeg2video"@ && "h264"@ != "vc1"@ && "h264"@ != "vp9"@,
        "hevc"@ != "mpeg2video"@ && "hevc"@ != "vc1"@ && "hevc"@ != "vp9"@,
        "mpeg2video"@ != "vc1"@ && "mpeg2video"@ != "vp9"@,
        "vc1"@ != "vp9"@,
{
    reveal_strlit("av1");
    reveal_strlit("h264");
    reveal_strlit("hevc");
    reveal_strlit("mpeg2video");
    reveal_strlit("vc1");
    reveal_strlit("vp9");
    assert("av1"@[0] != "vc1"@[0] && "av1"@[0] != "vp9"@[0] && "vc1"@[1] != "vp9"@[1]);
    assert("h264"@[1] != "hevc"@[1]);
}

/// The ffprobe codec names of the formats AMF decodes: each format is reached by
/// exactly one name, each name ffmpeg has an AMF decoder for reaches a format, and
/// the names are those ffprobe reports.
pub proof fn lemma_amf_codec_formats(c: Seq<char>, d: Seq<char>)
    ensures
        forall|f: VideoFormat| #[trigger] amf_format_named(f),
        amf_video_format(c) is Some && amf_video_format(c) == amf_video_format(d) ==> c == d,
        amf_decoder_name(c) is Some ==> amf_video_format(c) is Some,
        amf_video_format("av1"@) == Some(VideoFormat::Av1),
        amf_video_format("h264"@) == Some(VideoFormat::H264),
        amf_video_format("hevc"@) == Some(VideoFormat::Hevc),
        amf_video_format("mpeg2video"@) == Some(VideoFormat::Mpeg2Video),
        amf_video_format("vc1"@) == Some(VideoFormat::Vc1),
        amf_video_format("vp9"@) == Some(VideoFormat::Vp9),
{
    lemma_codec_names_distinct();
    assert forall|f: VideoFormat| #[trigger] amf_format_named(f) by {
        match f {
            VideoFormat::Av1 => assert(amf_video_format("av1"@) == Some(f)),
            VideoFormat::H264 => assert(amf_video_format("h264"@) == Some(f)),
            VideoFormat::Hevc => assert(amf_video_format("hevc"@) == Some(f)),
            VideoFormat::Mpeg2Video => assert(amf_video_format("mpeg2video"@) == Some(f)),
            VideoFormat::Vc1 => assert(amf_video_format("vc1"@) == Some(f)),
            VideoFormat::Vp9 => assert(amf_video_format("vp9"@) == Some(f)),
        }
    }
}

/// A stream decodes on the device exactly when its codec name reaches a format that
/// the runtime decodes at the stream's bit depth and the converter takes its pixel
/// format; every format is reached by some name, and a name that reaches none never
/// decodes on the device.
pub proof fn lemma_amf_can_decode_follows_runtime(amf: Amf, pixel_format: PixelFormat, c: Seq<char>)
    ensures
        amf_video_format(c) matches Some(f) ==> amf.can_decode_spec(c, pixel_format) == (
        amf.capabilities.can_decode_spec(f, pixel_bit_depth(pixel_format))
            && amf.capabilities.vpp_accepts_input_spec(pixel_format)),
        amf_video_format(c) is None ==> !amf.can_decode_spec(c, pixel_format),
        forall|f: VideoFormat| #[trigger] amf_format_named(f),
        amf.can_decode_spec("vp9"@, pixel_format) == (amf.capabilities.can_decode_spec(
            VideoFormat::Vp9,
            pixel_bit_depth(pixel_format),
        ) && amf.capabilities.vpp_accepts_input_spec(pixel_format)),
        amf.can_decode_spec("hevc"@, pixel_format) == (amf.capabilities.can_decode_spec(
            VideoFormat::Hevc,
            pixel_bit_depth(pixel_format),
        ) && amf.capabilities.vpp_accepts_input_spec(pixel_format)),
{
    lemma_amf_codec_formats(c, c);
}

} // verus!
