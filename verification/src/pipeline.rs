//! Frame-state model shared by the filter planners, and the ffmpeg argument pipeline.
use vstd::prelude::*;

use crate::error::FFPipelineError;
use crate::probe::ProbeResult;
use crate::text::{decimal, decimal_string, owned, push_str, str_eq};

verus! {

broadcast use vstd::string::group_string_axioms;

/// Video codecs the pipeline knows how to decode or encode.
#[derive(Clone, Copy, Debug, PartialEq, Eq, Structural, Hash)]
pub enum VideoFormat {
    Av1,
    H264,
    Hevc,
    Mpeg2Video,
    Vc1,
    Vp9,
}

/// Software pixel formats, by their ffmpeg names.
#[derive(Clone, Copy, Debug, PartialEq, Eq, Structural)]
pub enum PixelFormat {
    Yuv420p,
    Yuv420p10le,
    Yuva420p,
    Yuva420p10le,
    Nv12,
    Nv15,
    P010le,
    Bgra,
    Unknown,
}

/// The ffmpeg name of a pixel format.
pub open spec fn pixel_format_name(p: PixelFormat) -> Seq<char> {
    match p {
        PixelFormat::Yuv420p => "yuv420p"@,
        PixelFormat::Yuv420p10le => "yuv420p10le"@,
        PixelFormat::Yuva420p => "yuva420p"@,
        PixelFormat::Yuva420p10le => "yuva420p10le"@,
        PixelFormat::Nv12 => "nv12"@,
        PixelFormat::Nv15 => "nv15"@,
        PixelFormat::P010le => "p010le"@,
        PixelFormat::Bgra => "bgra"@,
        PixelFormat::Unknown => "unknown"@,
    }
}

/// Bits per component.
pub open spec fn pixel_bit_depth(p: PixelFormat) -> u8 {
    match p {
        PixelFormat::Yuv420p10le | PixelFormat::Yuva420p10le | PixelFormat::Nv15
        | PixelFormat::P010le => 10,
        _ => 8,
    }
}

/// Whether the format carries an alpha plane.
pub open spec fn pixel_has_alpha(p: PixelFormat) -> bool {
    match p {
        PixelFormat::Yuva420p | PixelFormat::Yuva420p10le | PixelFormat::Bgra => true,
        _ => false,
    }
}

/// The pixel format that an ffprobe `pix_fmt` string names.
pub open spec fn parse_pixel_format(s: Seq<char>) -> PixelFormat {
    if s == "yuv420p"@ {
        PixelFormat::Yuv420p
    } else if s == "yuv420p10le"@ {
        PixelFormat::Yuv420p10le
    } else if s == "yuva420p"@ {
        PixelFormat::Yuva420p
    } else if s == "yuva420p10le"@ {
        PixelFormat::Yuva420p10le
    } else if s == "nv12"@ {
        PixelFormat::Nv12
    } else if s == "nv15"@ {
        PixelFormat::Nv15
    } else if s == "p010le"@ {
        PixelFormat::P010le
    } else if s == "bgra"@ {
        PixelFormat::Bgra
    } else {
        PixelFormat::Unknown
    }
}

impl PixelFormat {
    /// The ffmpeg name, as used in `format=` options.
    pub fn as_arg(&self) -> (r: &'static str)
        ensures
            r@ == pixel_format_name(*self),
    {
        match self {
            PixelFormat::Yuv420p => "yuv420p",
            PixelFormat::Yuv420p10le => "yuv420p10le",
            PixelFormat::Yuva420p => "yuva420p",
            PixelFormat::Yuva420p10le => "yuva420p10le",
            PixelFormat::Nv12 => "nv12",
            PixelFormat::Nv15 => "nv15",
            PixelFormat::P010le => "p010le",
            PixelFormat::Bgra => "bgra",
            PixelFormat::Unknown => "unknown",
        }
    }

    pub fn bit_depth(&self) -> (r: u8)
        ensures
            r == pixel_bit_depth(*self),
    {
        match self {
            PixelFormat::Yuv420p10le | PixelFormat::Yuva420p10le | PixelFormat::Nv15
            | PixelFormat::P010le => 10,
            _ => 8,
        }
    }

    pub fn has_alpha(&self) -> (r: bool)
        ensures
            r == pixel_has_alpha(*self),
    {
        match self {
            PixelFormat::Yuva420p | PixelFormat::Yuva420p10le | PixelFormat::Bgra => true,
            _ => false,
        }
    }

    /// Reads an ffprobe `pix_fmt` value; names it does not know give `Unknown`.
    pub fn parse(s: &str) -> (r: PixelFormat)
        ensures
            r == parse_pixel_format(s@),
    {
        if str_eq(s, "yuv420p") {
            PixelFormat::Yuv420p
        } else if str_eq(s, "yuv420p10le") {
            PixelFormat::Yuv420p10le
        } else if str_eq(s, "yuva420p") {
            PixelFormat::Yuva420p
        } else if str_eq(s, "yuva420p10le") {
            PixelFormat::Yuva420p10le
        } else if str_eq(s, "nv12") {
            PixelFormat::Nv12
        } else if str_eq(s, "nv15") {
            PixelFormat::Nv15
        } else if str_eq(s, "p010le") {
            PixelFormat::P010le
        } else if str_eq(s, "bgra") {
            PixelFormat::Bgra
        } else {
            PixelFormat::Unknown
        }
    }
}

/// The pixel formats that hardware surfaces hold.
#[derive(Clone, Copy, Debug, PartialEq, Eq, Structural)]
pub enum HwPixelFormat {
    Nv12,
    P010,
}

/// The hardware surface format that a software format is carried in: 10-bit formats
/// travel as P010, all others as NV12.
pub open spec fn hw_pixel_format(p: PixelFormat) -> HwPixelFormat {
    if pixel_bit_depth(p) == 10 {
        HwPixelFormat::P010
    } else {
        HwPixelFormat::Nv12
    }
}

pub fn hw_output_format(p: &PixelFormat) -> (r: HwPixelFormat)
    ensures
        r == hw_pixel_format(*p),
{
    if p.bit_depth() == 10 {
        HwPixelFormat::P010
    } else {
        HwPixelFormat::Nv12
    }
}

#[derive(Clone, Copy, Debug, PartialEq, Eq, Structural)]
pub struct FrameSize {
    pub width: u32,
    pub height: u32,
}

/// Where the frames live.
#[derive(Clone, Copy, Debug, PartialEq, Eq, Structural)]
pub enum FrameSurface {
    System,
    Amf,
    Qsv,
}

/// The dynamic range the frames carry.
#[derive(Clone, Copy, Debug, PartialEq, Eq, Structural)]
pub enum HdrFormat {
    Sdr,
    Hdr10,
    Pq,
    Hlg,
    Dv5,
}

/// What the planner knows about the frames at one point of the filter chain.
#[derive(Clone, Debug)]
pub struct FrameState {
    pub size: FrameSize,
    pub is_anamorphic: bool,
    pub is_interlaced: bool,
    pub sample_aspect_ratio: Option<String>,
    pub display_aspect_ratio: Option<String>,
    pub surface: FrameSurface,
    pub pixel_format: PixelFormat,
    pub hdr_format: HdrFormat,
    pub rotation: Option<i32>,
}

/// The text of an optional string.
pub open spec fn opt_view(o: Option<String>) -> Option<Seq<char>> {
    match o {
        Some(s) => Some(s@),
        None => None,
    }
}

/// A frame state with its texts as character sequences.
pub struct FrameStateModel {
    pub size: FrameSize,
    pub is_anamorphic: bool,
    pub is_interlaced: bool,
    pub sample_aspect_ratio: Option<Seq<char>>,
    pub display_aspect_ratio: Option<Seq<char>>,
    pub surface: FrameSurface,
    pub pixel_format: PixelFormat,
    pub hdr_format: HdrFormat,
    pub rotation: Option<i32>,
}

/// The state after scaling to `size` on the device `surface`: square pixels, with no
/// display aspect ratio left to apply.
pub open spec fn scaled_state(s: FrameStateModel, size: FrameSize, surface: FrameSurface) -> FrameStateModel {
    FrameStateModel {
        size: size,
        surface: surface,
        is_anamorphic: false,
        sample_aspect_ratio: Some("1:1"@),
        display_aspect_ratio: None,
        ..s
    }
}

impl View for FrameState {
    type V = FrameStateModel;

    open spec fn view(&self) -> FrameStateModel {
        FrameStateModel {
            size: self.size,
            is_anamorphic: self.is_anamorphic,
            is_interlaced: self.is_interlaced,
            sample_aspect_ratio: opt_view(self.sample_aspect_ratio),
            display_aspect_ratio: opt_view(self.display_aspect_ratio),
            surface: self.surface,
            pixel_format: self.pixel_format,
            hdr_format: self.hdr_format,
            rotation: self.rotation,
        }
    }
}

pub fn clone_opt_string(s: &Option<String>) -> (r: Option<String>)
    ensures
        r == *s,
{
    match s {
        Some(v) => Some(v.clone()),
        None => None,
    }
}

impl FrameState {
    /// A copy of this state.
    pub fn duplicate(&self) -> (r: FrameState)
        ensures
            r == *self,
    {
        FrameState {
            size: self.size,
            is_anamorphic: self.is_anamorphic,
            is_interlaced: self.is_interlaced,
            sample_aspect_ratio: clone_opt_string(&self.sample_aspect_ratio),
            display_aspect_ratio: clone_opt_string(&self.display_aspect_ratio),
            surface: self.surface,
            pixel_format: self.pixel_format,
            hdr_format: self.hdr_format,
            rotation: self.rotation,
        }
    }

    /// The state of an empty 8-bit system-memory frame.
    pub open spec fn default_spec() -> FrameState {
        FrameState {
            size: FrameSize { width: 0, height: 0 },
            is_anamorphic: false,
            is_interlaced: false,
            sample_aspect_ratio: None,
            display_aspect_ratio: None,
            surface: FrameSurface::System,
            pixel_format: PixelFormat::Yuv420p,
            hdr_format: HdrFormat::Sdr,
            rotation: None,
        }
    }
}

impl Default for FrameState {
    fn default() -> (r: FrameState)
        ensures
            r == FrameState::default_spec(),
    {
        FrameState {
            size: FrameSize { width: 0, height: 0 },
            is_anamorphic: false,
            is_interlaced: false,
            sample_aspect_ratio: None,
            display_aspect_ratio: None,
            surface: FrameSurface::System,
            pixel_format: PixelFormat::Yuv420p,
            hdr_format: HdrFormat::Sdr,
            rotation: None,
        }
    }
}

/// The hardware surfaces a pipeline uses; device initialisation may depend on it.
#[derive(Debug)]
pub struct SurfaceSet {}

impl Default for SurfaceSet {
    fn default() -> (r: SurfaceSet) {
        SurfaceSet {  }
    }
}

pub enum LogLevel {
    Error,
}

impl LogLevel {
    /// The ffmpeg name of the level.
    pub fn name(&self) -> (r: &'static str)
        ensures
            r@ == "error"@,
    {
        match self {
            LogLevel::Error => "error",
        }
    }
}

pub enum GlobalOption {
    Threads(u32),
    NoStdIn,
    HideBanner,
    LogLevel(LogLevel),
}

/// The arguments one global option contributes.
pub open spec fn global_option_args(o: GlobalOption) -> Seq<Seq<char>> {
    match o {
        GlobalOption::Threads(count) => seq!["-threads"@, decimal(count as nat)],
        GlobalOption::NoStdIn => seq!["-nostdin"@],
        GlobalOption::HideBanner => seq!["-hide_banner"@],
        GlobalOption::LogLevel(_) => seq!["-loglevel"@, "error"@],
    }
}

/// The views of a list of strings.
pub open spec fn views(v: Seq<String>) -> Seq<Seq<char>> {
    v.map_values(|s: String| s@)
}

impl GlobalOption {
    pub fn as_arg(&self) -> (r: Vec<String>)
        ensures
            views(r@) == global_option_args(*self),
    {
        let r = match self {
            GlobalOption::Threads(count) => vec![owned("-threads"), decimal_string(*count as u64)],
            GlobalOption::NoStdIn => vec![owned("-nostdin")],
            GlobalOption::HideBanner => vec![owned("-hide_banner")],
            GlobalOption::LogLevel(level) => vec![owned("-loglevel"), owned(level.name())],
        };
        assert(views(r@) =~= global_option_args(*self));
        r
    }
}

pub enum PipelineInput {
    Video(String),
}

pub struct Pipeline {
    pub global_options: Vec<GlobalOption>,
    pub inputs: Vec<PipelineInput>,
}

/// The arguments of a list of global options, in order.
pub open spec fn all_global_args(opts: Seq<GlobalOption>) -> Seq<Seq<char>>
    decreases opts.len(),
{
    if opts.len() == 0 {
        seq![]
    } else {
        all_global_args(opts.drop_last()) + global_option_args(opts.last())
    }
}

/// The arguments of a list of inputs: `-i PATH` for each.
pub open spec fn all_input_args(inputs: Seq<PipelineInput>) -> Seq<Seq<char>>
    decreases inputs.len(),
{
    if inputs.len() == 0 {
        seq![]
    } else {
        all_input_args(inputs.drop_last()) + match inputs.last() {
            PipelineInput::Video(path) => seq!["-i"@, path@],
        }
    }
}

/// Joins strings with a separator.
pub open spec fn join(parts: Seq<Seq<char>>, sep: Seq<char>) -> Seq<char>
    decreases parts.len(),
{
    if parts.len() == 0 {
        seq![]
    } else if parts.len() == 1 {
        parts[0]
    } else {
        join(parts.drop_last(), sep) + sep + parts.last()
    }
}

/// Joins strings with a separator.
pub fn join_strings(parts: &Vec<String>, sep: &str) -> (r: String)
    ensures
        r@ == join(views(parts@), sep@),
{
    let mut r = String::new();
    let mut i: usize = 0;
    while i < parts.len()
        invariant
            0 <= i <= parts@.len(),
            r@ == join(views(parts@.take(i as int)), sep@),
        decreases parts@.len() - i,
    {
        if i > 0 {
            push_str(&mut r, sep);
        }
        push_str(&mut r, parts[i].as_str());
        i = i + 1;
        assert(views(parts@.take(i as int)).drop_last() =~= views(parts@.take(i - 1)));
        assert(views(parts@.take(i as int)).last() == parts@[i - 1]@);
        if i == 1 {
            assert(views(parts@.take(i as int)) =~= seq![parts@[0]@]);
        }
    }
    assert(parts@.take(parts@.len() as int) =~= parts@);
    r
}

impl Pipeline {
    /// The full argument list: global options, then each input.
    pub open spec fn args_spec(&self) -> Seq<Seq<char>> {
        all_global_args(self.global_options@) + all_input_args(self.inputs@)
    }

    fn full(probe_result: ProbeResult) -> (p: Pipeline)
        ensures
            p.global_options@.len() == 4,
            p.global_options@[0] == GlobalOption::Threads(0),
            p.global_options@[1] == GlobalOption::NoStdIn,
            p.global_options@[2] == GlobalOption::HideBanner,
            p.global_options@[3] == GlobalOption::LogLevel(LogLevel::Error),
            p.inputs@ == seq![PipelineInput::Video(probe_result.path)],
    {
        Pipeline {
            global_options: vec![
                GlobalOption::Threads(0),
                GlobalOption::NoStdIn,
                GlobalOption::HideBanner,
                GlobalOption::LogLevel(LogLevel::Error),
            ],
            inputs: vec![PipelineInput::Video(probe_result.path)],
        }
    }

    pub fn args(&self) -> (r: Vec<String>)
        ensures
            views(r@) == self.args_spec(),
    {
        let mut result: Vec<String> = Vec::new();
        let mut i: usize = 0;
        while i < self.global_options.len()
            invariant
                0 <= i <= self.global_options@.len(),
                views(result@) == all_global_args(self.global_options@.take(i as int)),
            decreases self.global_options@.len() - i,
        {
            let mut part = self.global_options[i].as_arg();
            let ghost before = result@;
            result.append(&mut part);
            i = i + 1;
            assert(self.global_options@.take(i as int).drop_last() =~= self.global_options@.take(
                i - 1,
            ));
            assert(views(result@) =~= views(before) + global_option_args(
                self.global_options@[i - 1],
            ));
        }
        assert(self.global_options@.take(i as int) =~= self.global_options@);
        let mut j: usize = 0;
        while j < self.inputs.len()
            invariant
                0 <= j <= self.inputs@.len(),
                views(result@) == all_global_args(self.global_options@) + all_input_args(
                    self.inputs@.take(j as int),
                ),
            decreases self.inputs@.len() - j,
        {
            let ghost before = result@;
            match &self.inputs[j] {
                PipelineInput::Video(path) => {
                    result.push(owned("-i"));
                    result.push(path.clone());
                },
            }
            j = j + 1;
            assert(self.inputs@.take(j as int).drop_last() =~= self.inputs@.take(j - 1));
            assert(views(result@) =~= views(before) + match self.inputs@[j - 1] {
                PipelineInput::Video(path) => seq!["-i"@, path@],
            });
        }
        assert(self.inputs@.take(j as int) =~= self.inputs@);
        result
    }

    /// The text form: `args: ` and the arguments separated by spaces.
    pub fn to_display_string(&self) -> (r: String)
        ensures
            r@ == "args: "@ + join(self.args_spec(), " "@),
    {
        let mut r = owned("args: ");
        let a = self.args();
        let joined = join_strings(&a, " ");
        push_str(&mut r, joined.as_str());
        r
    }
}

/// The pipeline that transcodes one probed input.
pub fn generate_pipeline(probe_result: ProbeResult) -> (r: Result<Pipeline, FFPipelineError>)
    ensures
        r matches Ok(p) && p.global_options@ == seq![
            GlobalOption::Threads(0),
            GlobalOption::NoStdIn,
            GlobalOption::HideBanner,
            GlobalOption::LogLevel(LogLevel::Error),
        ] && p.inputs@ == seq![PipelineInput::Video(probe_result.path)],
{
    let p = Pipeline::full(probe_result);
    assert(p.global_options@ =~= seq![
        GlobalOption::Threads(0),
        GlobalOption::NoStdIn,
        GlobalOption::HideBanner,
        GlobalOption::LogLevel(LogLevel::Error),
    ]);
    Ok(p)
}

} // verus!
