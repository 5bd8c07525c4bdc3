//! What the installed ffmpeg supports: hardware accelerations, video filters, their
//! options, and decoders, with the operator's filter preferences.
use vstd::prelude::*;

use crate::text::{
    chars_of, line_bounds, lines, next_word, owned, push_char,
    range_eq, str_eq, trim, trim_range, words,
};

verus! {

broadcast use vstd::string::group_string_axioms;

#[derive(Clone, Copy, Debug, PartialEq, Eq, Structural)]
pub enum KnownHardwareAccel {
    Cuda,
    Qsv,
    Rkmpp,
    Vaapi,
    VideoToolbox,
    Vulkan,
    Opencl,
    Amf,
}

/// The name ffmpeg lists for a hardware acceleration.
pub open spec fn accel_name(a: KnownHardwareAccel) -> Seq<char> {
    match a {
        KnownHardwareAccel::Cuda => "cuda"@,
        KnownHardwareAccel::Qsv => "qsv"@,
        KnownHardwareAccel::Rkmpp => "rkmpp"@,
        KnownHardwareAccel::Vaapi => "vaapi"@,
        KnownHardwareAccel::VideoToolbox => "videotoolbox"@,
        KnownHardwareAccel::Vulkan => "vulkan"@,
        KnownHardwareAccel::Opencl => "opencl"@,
        KnownHardwareAccel::Amf => "amf"@,
    }
}

impl KnownHardwareAccel {
    pub fn name(&self) -> (r: &'static str)
        ensures
            r@ == accel_name(*self),
    {
        match self {
            KnownHardwareAccel::Cuda => "cuda",
            KnownHardwareAccel::Qsv => "qsv",
            KnownHardwareAccel::Rkmpp => "rkmpp",
            KnownHardwareAccel::Vaapi => "vaapi",
            KnownHardwareAccel::VideoToolbox => "videotoolbox",
            KnownHardwareAccel::Vulkan => "vulkan",
            KnownHardwareAccel::Opencl => "opencl",
            KnownHardwareAccel::Amf => "amf",
        }
    }

    pub fn to_string(&self) -> (r: String)
        ensures
            r@ == accel_name(*self),
    {
        owned(self.name())
    }

    /// Every known acceleration, in declaration order.
    pub fn all() -> (r: Vec<KnownHardwareAccel>)
        ensures
            forall|a: KnownHardwareAccel| r@.contains(a),
    {
        let r = vec![
            KnownHardwareAccel::Cuda,
            KnownHardwareAccel::Qsv,
            KnownHardwareAccel::Rkmpp,
            KnownHardwareAccel::Vaapi,
            KnownHardwareAccel::VideoToolbox,
            KnownHardwareAccel::Vulkan,
            KnownHardwareAccel::Opencl,
            KnownHardwareAccel::Amf,
        ];
        assert forall|a: KnownHardwareAccel| r@.contains(a) by {
            match a {
                KnownHardwareAccel::Cuda => assert(r@[0] == a),
                KnownHardwareAccel::Qsv => assert(r@[1] == a),
                KnownHardwareAccel::Rkmpp => assert(r@[2] == a),
                KnownHardwareAccel::Vaapi => assert(r@[3] == a),
                KnownHardwareAccel::VideoToolbox => assert(r@[4] == a),
                KnownHardwareAccel::Vulkan => assert(r@[5] == a),
                KnownHardwareAccel::Opencl => assert(r@[6] == a),
                KnownHardwareAccel::Amf => assert(r@[7] == a),
            }
        }
        r
    }
}

#[derive(Clone, Copy, Debug, PartialEq, Eq, Structural)]
pub enum KnownVideoFilter {
    Bwdif,
    BwdifCuda,
    DeinterlaceQsv,
    DeinterlaceVaapi,
    LibPlacebo,
    OverlayCuda,
    OverlayVaapi,
    PadCuda,
    PadOpencl,
    PadVaapi,
    ScaleCuda,
    ScaleRkrga,
    ScaleVaapi,
    ScaleVt,
    ScaleVulkan,
    TonemapOpencl,
    TonemapVaapi,
    VppAmf,
    VppQsv,
    W3fdif,
    Yadif,
    YadifCuda,
}

/// The name ffmpeg lists for a video filter.
pub open spec fn filter_name(f: KnownVideoFilter) -> Seq<char> {
    match f {
        KnownVideoFilter::Bwdif => "bwdif"@,
        KnownVideoFilter::BwdifCuda => "bwdif_cuda"@,
        KnownVideoFilter::DeinterlaceQsv => "deinterlace_qsv"@,
        KnownVideoFilter::DeinterlaceVaapi => "deinterlace_vaapi"@,
        KnownVideoFilter::LibPlacebo => "libplacebo"@,
        KnownVideoFilter::OverlayCuda => "overlay_cuda"@,
        KnownVideoFilter::OverlayVaapi => "overlay_vaapi"@,
        KnownVideoFilter::PadCuda => "pad_cuda"@,
        KnownVideoFilter::PadOpencl => "pad_opencl"@,
        KnownVideoFilter::PadVaapi => "pad_vaapi"@,
        KnownVideoFilter::ScaleCuda => "scale_cuda"@,
        KnownVideoFilter::ScaleRkrga => "scale_rkrga"@,
        KnownVideoFilter::ScaleVaapi => "scale_vaapi"@,
        KnownVideoFilter::ScaleVt => "scale_vt"@,
        KnownVideoFilter::ScaleVulkan => "scale_vulkan"@,
        KnownVideoFilter::TonemapOpencl => "tonemap_opencl"@,
        KnownVideoFilter::TonemapVaapi => "tonemap_vaapi"@,
        KnownVideoFilter::VppAmf => "vpp_amf"@,
        KnownVideoFilter::VppQsv => "vpp_qsv"@,
        KnownVideoFilter::W3fdif => "w3fdif"@,
        KnownVideoFilter::Yadif => "yadif"@,
        KnownVideoFilter::YadifCuda => "yadif_cuda"@,
    }
}

impl KnownVideoFilter {
    pub fn name(&self) -> (r: &'static str)
        ensures
            r@ == filter_name(*self),
    {
        match self {
            KnownVideoFilter::Bwdif => "bwdif",
            KnownVideoFilter::BwdifCuda => "bwdif_cuda",
            KnownVideoFilter::DeinterlaceQsv => "deinterlace_qsv",
            KnownVideoFilter::DeinterlaceVaapi => "deinterlace_vaapi",
            KnownVideoFilter::LibPlacebo => "libplacebo",
            KnownVideoFilter::OverlayCuda => "overlay_cuda",
            KnownVideoFilter::OverlayVaapi => "overlay_vaapi",
            KnownVideoFilter::PadCuda => "pad_cuda",
            KnownVideoFilter::PadOpencl => "pad_opencl",
            KnownVideoFilter::PadVaapi => "pad_vaapi",
            KnownVideoFilter::ScaleCuda => "scale_cuda",
            KnownVideoFilter::ScaleRkrga => "scale_rkrga",
            KnownVideoFilter::ScaleVaapi => "scale_vaapi",
            KnownVideoFilter::ScaleVt => "scale_vt",
            KnownVideoFilter::ScaleVulkan => "scale_vulkan",
            KnownVideoFilter::TonemapOpencl => "tonemap_opencl",
            KnownVideoFilter::TonemapVaapi => "tonemap_vaapi",
            KnownVideoFilter::VppAmf => "vpp_amf",
            KnownVideoFilter::VppQsv => "vpp_qsv",
            KnownVideoFilter::W3fdif => "w3fdif",
            KnownVideoFilter::Yadif => "yadif",
            KnownVideoFilter::YadifCuda => "yadif_cuda",
        }
    }

    pub fn to_string(&self) -> (r: String)
        ensures
            r@ == filter_name(*self),
    {
        owned(self.name())
    }

    /// Every known filter, in declaration order.
    pub fn all() -> (r: Vec<KnownVideoFilter>)
        ensures
            forall|f: KnownVideoFilter| r@.contains(f),
    {
        let r = vec![
            KnownVideoFilter::Bwdif,
            KnownVideoFilter::BwdifCuda,
            KnownVideoFilter::DeinterlaceQsv,
            KnownVideoFilter::DeinterlaceVaapi,
            KnownVideoFilter::LibPlacebo,
            KnownVideoFilter::OverlayCuda,
            KnownVideoFilter::OverlayVaapi,
            KnownVideoFilter::PadCuda,
            KnownVideoFilter::PadOpencl,
            KnownVideoFilter::PadVaapi,
            KnownVideoFilter::ScaleCuda,
            KnownVideoFilter::ScaleRkrga,
            KnownVideoFilter::ScaleVaapi,
            KnownVideoFilter::ScaleVt,
            KnownVideoFilter::ScaleVulkan,
            KnownVideoFilter::TonemapOpencl,
            KnownVideoFilter::TonemapVaapi,
            KnownVideoFilter::VppAmf,
            KnownVideoFilter::VppQsv,
            KnownVideoFilter::W3fdif,
            KnownVideoFilter::Yadif,
            KnownVideoFilter::YadifCuda,
        ];
        assert forall|f: KnownVideoFilter| r@.contains(f) by {
            let i: int = match f {
                KnownVideoFilter::Bwdif => 0,
                KnownVideoFilter::BwdifCuda => 1,
                KnownVideoFilter::DeinterlaceQsv => 2,
                KnownVideoFilter::DeinterlaceVaapi => 3,
                KnownVideoFilter::LibPlacebo => 4,
                KnownVideoFilter::OverlayCuda => 5,
                KnownVideoFilter::OverlayVaapi => 6,
                KnownVideoFilter::PadCuda => 7,
                KnownVideoFilter::PadOpencl => 8,
                KnownVideoFilter::PadVaapi => 9,
                KnownVideoFilter::ScaleCuda => 10,
                KnownVideoFilter::ScaleRkrga => 11,
                KnownVideoFilter::ScaleVaapi => 12,
                KnownVideoFilter::ScaleVt => 13,
                KnownVideoFilter::ScaleVulkan => 14,
                KnownVideoFilter::TonemapOpencl => 15,
                KnownVideoFilter::TonemapVaapi => 16,
                KnownVideoFilter::VppAmf => 17,
                KnownVideoFilter::VppQsv => 18,
                KnownVideoFilter::W3fdif => 19,
                KnownVideoFilter::Yadif => 20,
                KnownVideoFilter::YadifCuda => 21,
            };
            assert(r@[i] == f);
        }
        r
    }
}

/// Decoders whose presence in the ffmpeg build gates hardware decoding.
#[derive(Clone, Copy, Debug, PartialEq, Eq, Structural)]
pub enum KnownDecoders {
    Av1Amf,
    H264Amf,
    HevcAmf,
    Mpeg2Amf,
    Vc1Amf,
    Vp9Amf,
}

pub open spec fn decoder_name(d: KnownDecoders) -> Seq<char> {
    match d {
        KnownDecoders::Av1Amf => "av1_amf"@,
        KnownDecoders::H264Amf => "h264_amf"@,
        KnownDecoders::HevcAmf => "hevc_amf"@,
        KnownDecoders::Mpeg2Amf => "mpeg2_amf"@,
        KnownDecoders::Vc1Amf => "vc1_amf"@,
        KnownDecoders::Vp9Amf => "vp9_amf"@,
    }
}

impl KnownDecoders {
    pub fn name(&self) -> (r: &'static str)
        ensures
            r@ == decoder_name(*self),
    {
        match self {
            KnownDecoders::Av1Amf => "av1_amf",
            KnownDecoders::H264Amf => "h264_amf",
            KnownDecoders::HevcAmf => "hevc_amf",
            KnownDecoders::Mpeg2Amf => "mpeg2_amf",
            KnownDecoders::Vc1Amf => "vc1_amf",
            KnownDecoders::Vp9Amf => "vp9_amf",
        }
    }
}

/// Whether one of the strings in `v` reads `n`.
pub open spec fn has_name(v: Seq<String>, n: Seq<char>) -> bool {
    exists|i: int| 0 <= i < v.len() && #[trigger] v[i]@ == n
}

/// The value of the first entry named `n`.
pub open spec fn pref_lookup(v: Seq<(String, usize)>, n: Seq<char>) -> Option<usize>
    decreases v.len(),
{
    if v.len() == 0 {
        None
    } else if v[0].0@ == n {
        Some(v[0].1)
    } else {
        pref_lookup(v.drop_first(), n)
    }
}

/// The option names of the first entry named `n`.
pub open spec fn options_lookup(v: Seq<(String, Vec<String>)>, n: Seq<char>) -> Option<Seq<String>>
    decreases v.len(),
{
    if v.len() == 0 {
        None
    } else if v[0].0@ == n {
        Some(v[0].1@)
    } else {
        options_lookup(v.drop_first(), n)
    }
}

/// Whether `v` holds a string equal to `n`.
pub fn contains_string(v: &Vec<String>, n: &str) -> (r: bool)
    ensures
        r == has_name(v@, n@),
{
    let mut i: usize = 0;
    while i < v.len()
        invariant
            0 <= i <= v@.len(),
            forall|j: int| 0 <= j < i ==> v@[j]@ != n@,
        decreases v@.len() - i,
    {
        if str_eq(v[i].as_str(), n) {
            return true;
        }
        i = i + 1;
    }
    false
}

fn find_pref(v: &Vec<(String, usize)>, n: &str) -> (r: Option<usize>)
    ensures
        r == pref_lookup(v@, n@),
{
    let mut i: usize = 0;
    assert(v@.skip(0) =~= v@);
    while i < v.len()
        invariant
            0 <= i <= v@.len(),
            pref_lookup(v@, n@) == pref_lookup(v@.skip(i as int), n@),
        decreases v@.len() - i,
    {
        assert(v@.skip(i as int).drop_first() =~= v@.skip(i + 1));
        if str_eq(v[i].0.as_str(), n) {
            return Some(v[i].1);
        }
        i = i + 1;
    }
    None
}

fn find_options<'a>(v: &'a Vec<(String, Vec<String>)>, n: &str) -> (r: Option<&'a Vec<String>>)
    ensures
        r matches Some(o) ==> options_lookup(v@, n@) == Some(o@),
        r is None ==> options_lookup(v@, n@) is None,
{
    let mut i: usize = 0;
    assert(v@.skip(0) =~= v@);
    while i < v.len()
        invariant
            0 <= i <= v@.len(),
            options_lookup(v@, n@) == options_lookup(v@.skip(i as int), n@),
        decreases v@.len() - i,
    {
        assert(v@.skip(i as int).drop_first() =~= v@.skip(i + 1));
        if str_eq(v[i].0.as_str(), n) {
            return Some(&v[i].1);
        }
        i = i + 1;
    }
    None
}

/// The escaping that a filtergraph value needs for one character.
pub open spec fn escape_char(c: char) -> Seq<char> {
    if c == '[' || c == ']' || c == ',' || c == ';' {
        seq!['\\', c]
    } else if c == ':' {
        seq!['\\', '\\', c]
    } else if c == '\'' {
        seq!['\\', '\\', '\\', c]
    } else if c == '\\' {
        seq!['\\', '\\', '\\', '\\']
    } else {
        seq![c]
    }
}

/// `s` with every backslash turned into a forward slash.
pub open spec fn forward_slashes(s: Seq<char>) -> Seq<char> {
    s.map_values(|c: char| if c == '\\' { '/' } else { c })
}

/// A value escaped character by character.
pub open spec fn escape_filter(s: Seq<char>) -> Seq<char>
    decreases s.len(),
{
    if s.len() == 0 {
        seq![]
    } else {
        escape_filter(s.drop_last()) + escape_char(s.last())
    }
}

/// The known-filter name that `v[from..to]` spells, if any.
fn known_filter_named(v: &Vec<char>, from: usize, to: usize) -> (r: Option<KnownVideoFilter>)
    requires
        from <= to <= v@.len(),
    ensures
        r matches Some(f) ==> filter_name(f) == v@.subrange(from as int, to as int),
        r is None ==> forall|f: KnownVideoFilter|
            filter_name(f) != v@.subrange(from as int, to as int),
{
    let all = KnownVideoFilter::all();
    let mut i: usize = 0;
    while i < all.len()
        invariant
            from <= to <= v@.len(),
            0 <= i <= all@.len(),
            forall|f: KnownVideoFilter| all@.contains(f),
            forall|j: int|
                0 <= j < i ==> filter_name(#[trigger] all@[j]) != v@.subrange(
                    from as int,
                    to as int,
                ),
        decreases all@.len() - i,
    {
        let name = chars_of(all[i].name());
        if range_eq(v, from, to, &name) {
            return Some(all[i]);
        }
        i = i + 1;
    }
    proof {
        assert forall|f: KnownVideoFilter| filter_name(f) != v@.subrange(from as int, to as int) by {
            assert(all@.contains(f));
            let j = choose|j: int| 0 <= j < all@.len() && all@[j] == f;
        }
    }
    None
}

/// Whether `v[from..to]` spells a known acceleration name.
fn known_accel_named(v: &Vec<char>, from: usize, to: usize) -> (r: bool)
    requires
        from <= to <= v@.len(),
    ensures
        r == exists|a: KnownHardwareAccel| accel_name(a) == v@.subrange(from as int, to as int),
{
    let all = KnownHardwareAccel::all();
    let mut i: usize = 0;
    while i < all.len()
        invariant
            from <= to <= v@.len(),
            0 <= i <= all@.len(),
            forall|a: KnownHardwareAccel| all@.contains(a),
            forall|j: int|
                0 <= j < i ==> accel_name(#[trigger] all@[j]) != v@.subrange(
                    from as int,
                    to as int,
                ),
        decreases all@.len() - i,
    {
        let name = chars_of(all[i].name());
        if range_eq(v, from, to, &name) {
            return true;
        }
        i = i + 1;
    }
    proof {
        assert forall|a: KnownHardwareAccel| accel_name(a) != v@.subrange(from as int, to as int) by {
            assert(all@.contains(a));
            let j = choose|j: int| 0 <= j < all@.len() && all@[j] == a;
        }
    }
    false
}

/// Whether `v[from..to]` spells a known decoder name.
fn known_decoder_named(v: &Vec<char>, from: usize, to: usize) -> (r: bool)
    requires
        from <= to <= v@.len(),
    ensures
        r == exists|d: KnownDecoders| decoder_name(d) == v@.subrange(from as int, to as int),
{
    let all = vec![
        KnownDecoders::Av1Amf,
        KnownDecoders::H264Amf,
        KnownDecoders::HevcAmf,
        KnownDecoders::Mpeg2Amf,
        KnownDecoders::Vc1Amf,
        KnownDecoders::Vp9Amf,
    ];
    assert forall|d: KnownDecoders| all@.contains(d) by {
        match d {
            KnownDecoders::Av1Amf => assert(all@[0] == d),
            KnownDecoders::H264Amf => assert(all@[1] == d),
            KnownDecoders::HevcAmf => assert(all@[2] == d),
            KnownDecoders::Mpeg2Amf => assert(all@[3] == d),
            KnownDecoders::Vc1Amf => assert(all@[4] == d),
            KnownDecoders::Vp9Amf => assert(all@[5] == d),
        }
    }
    let mut i: usize = 0;
    while i < all.len()
        invariant
            from <= to <= v@.len(),
            0 <= i <= all@.len(),
            forall|d: KnownDecoders| all@.contains(d),
            forall|j: int|
                0 <= j < i ==> decoder_name(#[trigger] all@[j]) != v@.subrange(
                    from as int,
                    to as int,
                ),
        decreases all@.len() - i,
    {
        let name = chars_of(all[i].name());
        if range_eq(v, from, to, &name) {
            return true;
        }
        i = i + 1;
    }
    proof {
        assert forall|d: KnownDecoders| decoder_name(d) != v@.subrange(from as int, to as int) by {
            assert(all@.contains(d));
            let j = choose|j: int| 0 <= j < all@.len() && all@[j] == d;
        }
    }
    false
}

/// Adds `s` to `v` unless it is already there.
fn insert_unique(v: &mut Vec<String>, s: String)
    requires
        views_distinct(old(v)@),
    ensures
        views_distinct(final(v)@),
        forall|n: Seq<char>| has_name(final(v)@, n) <==> (has_name(old(v)@, n) || n == s@),
{
    if !contains_string(v, s.as_str()) {
        let ghost before = v@;
        v.push(s);
        proof {
            assert forall|n: Seq<char>| has_name(v@, n) <==> (has_name(before, n) || n == s@) by {
                if has_name(before, n) {
                    let i = choose|i: int| 0 <= i < before.len() && before[i]@ == n;
                    assert(v@[i]@ == n);
                }
                if n == s@ {
                    assert(v@[before.len() as int]@ == n);
                }
                if has_name(v@, n) && n != s@ {
                    let i = choose|i: int| 0 <= i < v@.len() && v@[i]@ == n;
                    assert(before[i]@ == n);
                }
            }
        }
    }
}

/// No two strings in `v` read the same.
pub open spec fn views_distinct(v: Seq<String>) -> bool {
    forall|i: int, j: int| 0 <= i < v.len() && 0 <= j < v.len() && i != j ==> v[i]@ != v[j]@
}

/// The option names that `ffmpeg -h filter=NAME` lists: the first word of each line
/// whose second word starts with `<` (the option's type).
pub open spec fn is_option_line(l: Seq<char>) -> bool {
    words(l).len() >= 2 && words(l)[1].len() > 0 && words(l)[1][0] == '<'
}

/// The names of the hardware accelerations `ffmpeg -hwaccels` lists: trimmed lines that
/// name a known acceleration.
pub open spec fn is_accel_line(l: Seq<char>, n: Seq<char>) -> bool {
    trim(l) == n && exists|a: KnownHardwareAccel| accel_name(a) == n
}

/// A line of `ffmpeg -filters` that lists filter `n`: its second word, when that is a
/// known filter name that is not disabled.
pub open spec fn is_filter_line(l: Seq<char>, n: Seq<char>, disabled: Seq<String>) -> bool {
    words(l).len() >= 2 && words(l)[1] == n && (exists|f: KnownVideoFilter| filter_name(f) == n)
        && !has_name(disabled, n)
}

/// A line of `ffmpeg -decoders` that lists decoder `n`: its second word, when that is a
/// known decoder name.
pub open spec fn is_decoder_line(l: Seq<char>, n: Seq<char>) -> bool {
    words(l).len() >= 2 && words(l)[1] == n && (exists|d: KnownDecoders| decoder_name(d) == n)
}

/// `n` names a known hardware acceleration.
pub open spec fn known_accel_name(n: Seq<char>) -> bool {
    exists|a: KnownHardwareAccel| accel_name(a) == n
}

/// `n` names a known video filter.
pub open spec fn known_filter_name(n: Seq<char>) -> bool {
    exists|f: KnownVideoFilter| filter_name(f) == n
}

/// The last position at which `n` occurs in `v`.
pub open spec fn last_index_of(v: Seq<String>, n: Seq<char>) -> Option<int>
    decreases v.len(),
{
    if v.len() == 0 {
        None
    } else if v.last()@ == n {
        Some(v.len() - 1)
    } else {
        last_index_of(v.drop_last(), n)
    }
}

#[derive(Debug)]
pub struct FfmpegInfo {
    pub hwaccels: Vec<String>,
    pub video_filters: Vec<String>,
    pub preferred_filters: Vec<(String, usize)>,
    pub video_filter_options: Vec<(String, Vec<String>)>,
    pub decoders: Vec<String>,
}

impl Default for FfmpegInfo {
    fn default() -> (r: FfmpegInfo)
        ensures
            r.hwaccels@.len() == 0,
            r.video_filters@.len() == 0,
            r.preferred_filters@.len() == 0,
            r.video_filter_options@.len() == 0,
            r.decoders@.len() == 0,
    {
        FfmpegInfo {
            hwaccels: Vec::new(),
            video_filters: Vec::new(),
            preferred_filters: Vec::new(),
            video_filter_options: Vec::new(),
            decoders: Vec::new(),
        }
    }
}

impl FfmpegInfo {
    pub open spec fn has_video_filter_spec(&self, f: KnownVideoFilter) -> bool {
        has_name(self.video_filters@, filter_name(f))
    }

    /// The preference index of a filter; `usize::MAX` when it has none.
    pub open spec fn position_spec(&self, f: KnownVideoFilter) -> usize {
        match pref_lookup(self.preferred_filters@, filter_name(f)) {
            Some(p) => p,
            None => usize::MAX,
        }
    }

    /// The filter is present and advertises the option.
    pub open spec fn has_option_spec(&self, f: KnownVideoFilter, option: Seq<char>) -> bool {
        &&& self.has_video_filter_spec(f)
        &&& options_lookup(self.video_filter_options@, filter_name(f)) matches Some(o)
        &&& has_name(o, option)
    }

    /// The filter at `i` is available, no available filter is preferred over it, and
    /// every available filter before it is preferred less.
    pub open spec fn best_fit_at(&self, options: Seq<KnownVideoFilter>, i: int) -> bool {
        &&& 0 <= i < options.len()
        &&& self.has_video_filter_spec(options[i])
        &&& forall|j: int|
            0 <= j < options.len() && self.has_video_filter_spec(#[trigger] options[j])
                ==> self.position_spec(options[i]) <= self.position_spec(options[j])
        &&& forall|j: int|
            0 <= j < i && self.has_video_filter_spec(#[trigger] options[j])
                ==> self.position_spec(options[i]) < self.position_spec(options[j])
    }

    pub fn has_hw_accel(&self, hw_accel: &KnownHardwareAccel) -> (r: bool)
        ensures
            r == has_name(self.hwaccels@, accel_name(*hw_accel)),
    {
        contains_string(&self.hwaccels, hw_accel.name())
    }

    pub fn has_video_filter(&self, filter: &KnownVideoFilter) -> (r: bool)
        ensures
            r == self.has_video_filter_spec(*filter),
    {
        contains_string(&self.video_filters, filter.name())
    }

    pub fn has_decoder(&self, decoder: &str) -> (r: bool)
        ensures
            r == has_name(self.decoders@, decoder@),
    {
        contains_string(&self.decoders, decoder)
    }

    /// Whether the filter is present and advertises the named option. Only filters whose
    /// options were probed have any.
    pub fn video_filter_has_option(&self, filter: &KnownVideoFilter, option: &str) -> (r: bool)
        ensures
            r == self.has_option_spec(*filter, option@),
    {
        if !self.has_video_filter(filter) {
            return false;
        }
        match find_options(&self.video_filter_options, filter.name()) {
            Some(options) => contains_string(options, option),
            None => false,
        }
    }

    fn preference_position(&self, filter: &KnownVideoFilter) -> (r: usize)
        ensures
            r == self.position_spec(*filter),
    {
        match find_pref(&self.preferred_filters, filter.name()) {
            Some(p) => p,
            None => usize::MAX,
        }
    }

    /// The filter of `filter_options` that this ffmpeg has and that the operator prefers
    /// most (lowest preference index); among equals, the first. `None` when ffmpeg has
    /// none of them.
    pub fn find_best_fit<'a>(&self, filter_options: &'a [KnownVideoFilter]) -> (r: Option<
        &'a KnownVideoFilter,
    >)
        ensures
            r is None <==> forall|j: int|
                0 <= j < filter_options@.len() ==> !self.has_video_filter_spec(
                    #[trigger] filter_options@[j],
                ),
            r matches Some(f) ==> exists|i: int|
                self.best_fit_at(filter_options@, i) && filter_options@[i] == *f,
    {
        let mut best: Option<usize> = None;
        let mut best_pos: usize = 0;
        let mut i: usize = 0;
        while i < filter_options.len()
            invariant
                0 <= i <= filter_options@.len(),
                best is None ==> forall|j: int|
                    0 <= j < i ==> !self.has_video_filter_spec(#[trigger] filter_options@[j]),
                best matches Some(b) ==> {
                    &&& b < i
                    &&& self.has_video_filter_spec(filter_options@[b as int])
                    &&& best_pos == self.position_spec(filter_options@[b as int])
                    &&& forall|j: int|
                        0 <= j < i && self.has_video_filter_spec(#[trigger] filter_options@[j])
                            ==> best_pos <= self.position_spec(filter_options@[j])
                    &&& forall|j: int|
                        0 <= j < b && self.has_video_filter_spec(#[trigger] filter_options@[j])
                            ==> best_pos < self.position_spec(filter_options@[j])
                },
            decreases filter_options@.len() - i,
        {
            if self.has_video_filter(&filter_options[i]) {
                let pos = self.preference_position(&filter_options[i]);
                match best {
                    None => {
                        best = Some(i);
                        best_pos = pos;
                    },
                    Some(_) => {
                        if pos < best_pos {
                            best = Some(i);
                            best_pos = pos;
                        }
                    },
                }
            }
            i = i + 1;
        }
        match best {
            None => None,
            Some(b) => {
                assert(filter_options@[b as int] == filter_options[b as int]);
                Some(&filter_options[b])
            },
        }
    }

    /// Escapes a value for use inside a filtergraph: delimiters get one backslash, `:`
    /// two, `'` three, and a literal backslash becomes four.
    pub fn escape_filter_value(value: &str) -> (r: String)
        ensures
            r@ == escape_filter(value@),
    {
        let v = chars_of(value);
        let mut out = String::new();
        let mut i: usize = 0;
        while i < v.len()
            invariant
                0 <= i <= v@.len(),
                v@ == value@,
                out@ == escape_filter(v@.take(i as int)),
            decreases v@.len() - i,
        {
            let ch = v[i];
            if ch == '[' || ch == ']' || ch == ',' || ch == ';' {
                push_char(&mut out, '\\');
                push_char(&mut out, ch);
            } else if ch == ':' {
                push_char(&mut out, '\\');
                push_char(&mut out, '\\');
                push_char(&mut out, ch);
            } else if ch == '\'' {
                push_char(&mut out, '\\');
                push_char(&mut out, '\\');
                push_char(&mut out, '\\');
                push_char(&mut out, ch);
            } else if ch == '\\' {
                push_char(&mut out, '\\');
                push_char(&mut out, '\\');
                push_char(&mut out, '\\');
                push_char(&mut out, '\\');
            } else {
                push_char(&mut out, ch);
            }
            i = i + 1;
            assert(v@.take(i as int).drop_last() =~= v@.take(i - 1));
            assert(out@ =~= escape_filter(v@.take(i as int)));
        }
        assert(v@.take(v@.len() as int) =~= v@);
        out
    }

    /// Escapes a path for use inside a filtergraph, as on systems whose paths use `/`.
    pub fn escape_path(path: &str) -> (r: String)
        ensures
            r@ == escape_filter(path@),
    {
        Self::escape_filter_value(path)
    }

    /// Escapes a Windows path for use inside a filtergraph: its `\` separators become
    /// `/` first, so that only the drive colon and the filtergraph delimiters are
    /// escaped.
    pub fn escape_windows_path(path: &str) -> (r: String)
        ensures
            r@ == escape_filter(forward_slashes(path@)),
    {
        let v = chars_of(path);
        let mut converted = String::new();
        let mut i: usize = 0;
        while i < v.len()
            invariant
                0 <= i <= v@.len(),
                v@ == path@,
                converted@ == forward_slashes(v@.take(i as int)),
            decreases v@.len() - i,
        {
            if v[i] == '\\' {
                push_char(&mut converted, '/');
            } else {
                push_char(&mut converted, v[i]);
            }
            i = i + 1;
            assert(converted@ =~= forward_slashes(v@.take(i as int)));
        }
        assert(v@.take(v@.len() as int) =~= v@);
        Self::escape_filter_value(converted.as_str())
    }

    /// Parses `ffmpeg -h filter=NAME` output into the set of option names.
    pub fn parse_filter_options(help_text: &str) -> (r: Vec<String>)
        ensures
            views_distinct(r@),
            forall|n: Seq<char>|
                has_name(r@, n) <==> exists|k: int|
                    0 <= k < lines(help_text@).len() && is_option_line(
                        #[trigger] lines(help_text@)[k],
                    ) && words(lines(help_text@)[k])[0] == n,
    {
        let v = chars_of(help_text);
        let bounds = line_bounds(&v);
        let mut options: Vec<String> = Vec::new();
        let mut k: usize = 0;
        while k < bounds.len()
            invariant
                0 <= k <= bounds@.len(),
                v@ == help_text@,
                bounds@.len() == lines(v@).len(),
                forall|m: int|
                    0 <= m < bounds@.len() ==> {
                        &&& (#[trigger] bounds@[m]).0 <= bounds@[m].1 <= v@.len()
                        &&& lines(v@)[m] == v@.subrange(bounds@[m].0 as int, bounds@[m].1 as int)
                    },
                views_distinct(options@),
                forall|n: Seq<char>|
                    has_name(options@, n) <==> exists|m: int|
                        0 <= m < k && is_option_line(#[trigger] lines(v@)[m]) && words(
                            lines(v@)[m],
                        )[0] == n,
            decreases bounds@.len() - k,
        {
            let (from, to) = bounds[k];
            let ghost line = lines(v@)[k as int];
            let ghost before = options@;
            match next_word(&v, from, to) {
                Some((s0, e0)) => {
                    match next_word(&v, e0, to) {
                        Some((s1, e1)) => {
                            assert(words(line) == seq![v@.subrange(s0 as int, e0 as int)] + (
                            seq![v@.subrange(s1 as int, e1 as int)] + words(
                                v@.subrange(e1 as int, to as int),
                            )));
                            assert(words(line)[0] == v@.subrange(s0 as int, e0 as int));
                            assert(words(line)[1] == v@.subrange(s1 as int, e1 as int));
                            if v[s1] == '<' {
                                let mut name = String::new();
                                crate::text::push_range(&mut name, &v, s0, e0);
                                insert_unique(&mut options, name);
                                assert(is_option_line(line));
                            } else {
                                assert(!is_option_line(line));
                            }
                        },
                        None => {
                            assert(words(line).len() == 1);
                        },
                    }
                },
                None => {
                    assert(words(line).len() == 0);
                },
            }
            proof {
                assert forall|n: Seq<char>|
                    has_name(options@, n) <==> exists|m: int|
                        0 <= m < k + 1 && is_option_line(#[trigger] lines(v@)[m]) && words(
                            lines(v@)[m],
                        )[0] == n by {
                    if exists|m: int|
                        0 <= m < k + 1 && is_option_line(#[trigger] lines(v@)[m]) && words(
                            lines(v@)[m],
                        )[0] == n {
                        let m = choose|m: int|
                            0 <= m < k + 1 && is_option_line(#[trigger] lines(v@)[m]) && words(
                                lines(v@)[m],
                            )[0] == n;
                        if m < k {
                            assert(has_name(before, n));
                        }
                    }
                }
            }
            k = k + 1;
        }
        options
    }

    /// Parses `ffmpeg -hwaccels` output into the known accelerations it lists.
    pub fn parse_hw_accels(stdout: &str) -> (r: Vec<String>)
        ensures
            views_distinct(r@),
            forall|n: Seq<char>|
                has_name(r@, n) <==> exists|k: int|
                    0 <= k < lines(stdout@).len() && is_accel_line(
                        #[trigger] lines(stdout@)[k],
                        n,
                    ),
    {
        let v = chars_of(stdout);
        let bounds = line_bounds(&v);
        let mut accels: Vec<String> = Vec::new();
        let mut k: usize = 0;
        while k < bounds.len()
            invariant
                0 <= k <= bounds@.len(),
                v@ == stdout@,
                bounds@.len() == lines(v@).len(),
                forall|m: int|
                    0 <= m < bounds@.len() ==> {
                        &&& (#[trigger] bounds@[m]).0 <= bounds@[m].1 <= v@.len()
                        &&& lines(v@)[m] == v@.subrange(bounds@[m].0 as int, bounds@[m].1 as int)
                    },
                views_distinct(accels@),
                forall|n: Seq<char>|
                    has_name(accels@, n) <==> exists|m: int|
                        0 <= m < k && is_accel_line(#[trigger] lines(v@)[m], n),
            decreases bounds@.len() - k,
        {
            let (from, to) = bounds[k];
            let ghost line = lines(v@)[k as int];
            let ghost before = accels@;
            let (lo, hi) = trim_range(&v, from, to);
            assert(trim(line) == v@.subrange(lo as int, hi as int));
            if known_accel_named(&v, lo, hi) {
                let mut name = String::new();
                crate::text::push_range(&mut name, &v, lo, hi);
                insert_unique(&mut accels, name);
            }
            proof {
                assert forall|n: Seq<char>|
                    has_name(accels@, n) <==> exists|m: int|
                        0 <= m < k + 1 && is_accel_line(#[trigger] lines(v@)[m], n) by {
                    if exists|m: int| 0 <= m < k + 1 && is_accel_line(#[trigger] lines(v@)[m], n) {
                        let m = choose|m: int|
                            0 <= m < k + 1 && is_accel_line(#[trigger] lines(v@)[m], n);
                        if m < k {
                            assert(has_name(before, n));
                        }
                    }
                }
            }
            k = k + 1;
        }
        accels
    }

    /// Parses `ffmpeg -filters` output into the known, enabled filters it lists.
    pub fn parse_video_filters(stdout: &str, disabled_filters: &Vec<String>) -> (r: Vec<String>)
        ensures
            views_distinct(r@),
            forall|n: Seq<char>|
                has_name(r@, n) <==> exists|k: int|
                    0 <= k < lines(stdout@).len() && is_filter_line(
                        #[trigger] lines(stdout@)[k],
                        n,
                        disabled_filters@,
                    ),
    {
        let v = chars_of(stdout);
        let bounds = line_bounds(&v);
        let mut filters: Vec<String> = Vec::new();
        let mut k: usize = 0;
        while k < bounds.len()
            invariant
                0 <= k <= bounds@.len(),
                v@ == stdout@,
                bounds@.len() == lines(v@).len(),
                forall|m: int|
                    0 <= m < bounds@.len() ==> {
                        &&& (#[trigger] bounds@[m]).0 <= bounds@[m].1 <= v@.len()
                        &&& lines(v@)[m] == v@.subrange(bounds@[m].0 as int, bounds@[m].1 as int)
                    },
                views_distinct(filters@),
                forall|n: Seq<char>|
                    has_name(filters@, n) <==> exists|m: int|
                        0 <= m < k && is_filter_line(#[trigger] lines(v@)[m], n, disabled_filters@),
            decreases bounds@.len() - k,
        {
            let (from, to) = bounds[k];
            let ghost line = lines(v@)[k as int];
            let ghost before = filters@;
            match next_word(&v, from, to) {
                Some((s0, e0)) => {
                    match next_word(&v, e0, to) {
                        Some((s1, e1)) => {
                            assert(words(line) == seq![v@.subrange(s0 as int, e0 as int)] + (
                            seq![v@.subrange(s1 as int, e1 as int)] + words(
                                v@.subrange(e1 as int, to as int),
                            )));
                            assert(words(line)[1] == v@.subrange(s1 as int, e1 as int));
                            match known_filter_named(&v, s1, e1) {
                                Some(f) => {
                                    let mut name = String::new();
                                    crate::text::push_range(&mut name, &v, s1, e1);
                                    if !contains_string(disabled_filters, name.as_str()) {
                                        insert_unique(&mut filters, name);
                                    }
                                },
                                None => {},
                            }
                        },
                        None => {
                            assert(words(line).len() == 1);
                        },
                    }
                },
                None => {
                    assert(words(line).len() == 0);
                },
            }
            proof {
                assert forall|n: Seq<char>|
                    has_name(filters@, n) <==> exists|m: int|
                        0 <= m < k + 1 && is_filter_line(
                            #[trigger] lines(v@)[m],
                            n,
                            disabled_filters@,
                        ) by {
                    if exists|m: int|
                        0 <= m < k + 1 && is_filter_line(
                            #[trigger] lines(v@)[m],
                            n,
                            disabled_filters@,
                        ) {
                        let m = choose|m: int|
                            0 <= m < k + 1 && is_filter_line(
                                #[trigger] lines(v@)[m],
                                n,
                                disabled_filters@,
                            );
                        if m < k {
                            assert(has_name(before, n));
                        }
                    }
                }
            }
            k = k + 1;
        }
        filters
    }

    /// Parses `ffmpeg -decoders` output into the known decoders it lists.
    pub fn parse_decoders(stdout: &str) -> (r: Vec<String>)
        ensures
            views_distinct(r@),
            forall|n: Seq<char>|
                has_name(r@, n) <==> exists|k: int|
                    0 <= k < lines(stdout@).len() && is_decoder_line(#[trigger] lines(stdout@)[k], n),
    {
        let v = chars_of(stdout);
        let bounds = line_bounds(&v);
        let mut decoders: Vec<String> = Vec::new();
        let mut k: usize = 0;
        while k < bounds.len()
            invariant
                0 <= k <= bounds@.len(),
                v@ == stdout@,
                bounds@.len() == lines(v@).len(),
                forall|m: int|
                    0 <= m < bounds@.len() ==> {
                        &&& (#[trigger] bounds@[m]).0 <= bounds@[m].1 <= v@.len()
                        &&& lines(v@)[m] == v@.subrange(bounds@[m].0 as int, bounds@[m].1 as int)
                    },
                views_distinct(decoders@),
                forall|n: Seq<char>|
                    has_name(decoders@, n) <==> exists|m: int|
                        0 <= m < k && is_decoder_line(#[trigger] lines(v@)[m], n),
            decreases bounds@.len() - k,
        {
            let (from, to) = bounds[k];
            let ghost line = lines(v@)[k as int];
            let ghost before = decoders@;
            match next_word(&v, from, to) {
                Some((s0, e0)) => {
                    match next_word(&v, e0, to) {
                        Some((s1, e1)) => {
                            assert(words(line) == seq![v@.subrange(s0 as int, e0 as int)] + (
                            seq![v@.subrange(s1 as int, e1 as int)] + words(
                                v@.subrange(e1 as int, to as int),
                            )));
                            assert(words(line)[1] == v@.subrange(s1 as int, e1 as int));
                            if known_decoder_named(&v, s1, e1) {
                                let mut name = String::new();
                                crate::text::push_range(&mut name, &v, s1, e1);
                                insert_unique(&mut decoders, name);
                            }
                        },
                        None => {
                            assert(words(line).len() == 1);
                        },
                    }
                },
                None => {
                    assert(words(line).len() == 0);
                },
            }
            proof {
                assert forall|n: Seq<char>|
                    has_name(decoders@, n) <==> exists|m: int|
                        0 <= m < k + 1 && is_decoder_line(#[trigger] lines(v@)[m], n) by {
                    if exists|m: int| 0 <= m < k + 1 && is_decoder_line(#[trigger] lines(v@)[m], n) {
                        let m = choose|m: int|
                            0 <= m < k + 1 && is_decoder_line(#[trigger] lines(v@)[m], n);
                        if m < k {
                            assert(has_name(before, n));
                        }
                    }
                }
            }
            k = k + 1;
        }
        decoders
    }

    /// The filters whose options are probed, among those this ffmpeg has: only
    /// `vpp_qsv`, whose padding options the QSV planner reads.
    pub fn option_probed_filters(video_filters: &Vec<String>) -> (r: Vec<KnownVideoFilter>)
        ensures
            r@ == if has_name(video_filters@, filter_name(KnownVideoFilter::VppQsv)) {
                seq![KnownVideoFilter::VppQsv]
            } else {
                Seq::<KnownVideoFilter>::empty()
            },
    {
        let mut r: Vec<KnownVideoFilter> = Vec::new();
        if contains_string(video_filters, KnownVideoFilter::VppQsv.name()) {
            r.push(KnownVideoFilter::VppQsv);
        }
        assert(r@ =~= if has_name(video_filters@, filter_name(KnownVideoFilter::VppQsv)) {
            seq![KnownVideoFilter::VppQsv]
        } else {
            Seq::<KnownVideoFilter>::empty()
        });
        r
    }

    /// The preference index of each available filter: its last position in the
    /// operator's list. Filters that ffmpeg lacks get none.
    pub fn preferred_positions(preferred_filters: &Vec<String>, video_filters: &Vec<String>) -> (r:
        Vec<(String, usize)>)
        ensures
            forall|n: Seq<char>|
                #[trigger] pref_lookup(r@, n) == if has_name(video_filters@, n) {
                    match last_index_of(preferred_filters@, n) {
                        Some(i) => Some(i as usize),
                        None => None,
                    }
                } else {
                    None
                },
    {
        let mut r: Vec<(String, usize)> = Vec::new();
        let mut idx: usize = 0;
        while idx < preferred_filters.len()
            invariant
                0 <= idx <= preferred_filters@.len(),
                forall|n: Seq<char>|
                    #[trigger] pref_lookup(r@, n) == if has_name(video_filters@, n) {
                        match last_index_of(preferred_filters@.take(idx as int), n) {
                            Some(i) => Some(i as usize),
                            None => None,
                        }
                    } else {
                        None
                    },
            decreases preferred_filters@.len() - idx,
        {
            let filter = &preferred_filters[idx];
            let ghost before = r@;
            if contains_string(video_filters, filter.as_str()) {
                let mut next: Vec<(String, usize)> = Vec::new();
                next.push((filter.clone(), idx));
                proof {
                    assert(next@.drop_first() =~= Seq::<(String, usize)>::empty());
                    assert(before.take(0) =~= Seq::<(String, usize)>::empty());
                    assert forall|n: Seq<char>|
                        n != filter@ implies #[trigger] pref_lookup(next@, n) == pref_lookup(
                            before.take(0),
                            n,
                        ) by {
                        assert(next@[0].0@ == filter@);
                    }
                }
                let mut j: usize = 0;
                while j < r.len()
                    invariant
                        0 <= j <= r@.len(),
                        r@ == before,
                        next@.len() >= 1,
                        next@[0] == (*filter, idx),
                        forall|n: Seq<char>|
                            n != filter@ ==> #[trigger] pref_lookup(next@, n) == pref_lookup(
                                before.take(j as int),
                                n,
                            ),
                    decreases r@.len() - j,
                {
                    if !str_eq(r[j].0.as_str(), filter.as_str()) {
                        let entry = (r[j].0.clone(), r[j].1);
                        let ghost prev = next@;
                        next.push(entry);
                        proof {
                            assert forall|n: Seq<char>| n != filter@ implies #[trigger] pref_lookup(
                                next@,
                                n,
                            ) == pref_lookup(before.take(j + 1), n) by {
                                lemma_pref_lookup_push(prev, entry, n);
                                lemma_pref_lookup_push(before.take(j as int), before[j as int], n);
                                assert(before.take(j + 1) =~= before.take(j as int).push(
                                    before[j as int],
                                ));
                            }
                        }
                    } else {
                        proof {
                            assert forall|n: Seq<char>| n != filter@ implies #[trigger] pref_lookup(
                                next@,
                                n,
                            ) == pref_lookup(before.take(j + 1), n) by {
                                lemma_pref_lookup_push(before.take(j as int), before[j as int], n);
                                assert(before.take(j + 1) =~= before.take(j as int).push(
                                    before[j as int],
                                ));
                            }
                        }
                    }
                    j = j + 1;
                }
                assert(before.take(before.len() as int) =~= before);
                r = next;
                proof {
                    assert forall|n: Seq<char>|
                        #[trigger] pref_lookup(r@, n) == if has_name(video_filters@, n) {
                            match last_index_of(preferred_filters@.take(idx + 1), n) {
                                Some(i) => Some(i as usize),
                                None => None,
                            }
                        } else {
                            None
                        } by {
                        assert(preferred_filters@.take(idx + 1).drop_last() =~= preferred_filters@.take(
                            idx as int,
                        ));
                    }
                }
            } else {
                proof {
                    assert forall|n: Seq<char>|
                        #[trigger] pref_lookup(r@, n) == if has_name(video_filters@, n) {
                            match last_index_of(preferred_filters@.take(idx + 1), n) {
                                Some(i) => Some(i as usize),
                                None => None,
                            }
                        } else {
                            None
                        } by {
                        assert(preferred_filters@.take(idx + 1).drop_last() =~= preferred_filters@.take(
                            idx as int,
                        ));
                    }
                }
            }
            idx = idx + 1;
        }
        assert(preferred_filters@.take(preferred_filters@.len() as int) =~= preferred_filters@);
        r
    }

    /// The option names that `ffmpeg -h filter=NAME` printed in `help_text` lists.
    pub open spec fn help_options(help_text: Seq<char>, n: Seq<char>) -> bool {
        exists|k: int|
            0 <= k < lines(help_text).len() && is_option_line(#[trigger] lines(help_text)[k])
                && words(lines(help_text)[k])[0] == n
    }

    /// The options loaded for each filter: those the help text of `vpp_qsv` lists, for
    /// `vpp_qsv` alone, when ffmpeg has it and its help was read.
    pub open spec fn options_loaded(
        options: Seq<(String, Vec<String>)>,
        video_filters: Seq<String>,
        vpp_qsv_help: Option<&str>,
    ) -> bool {
        forall|n: Seq<char>|
            match #[trigger] options_lookup(options, n) {
                Some(o) => {
                    &&& n == filter_name(KnownVideoFilter::VppQsv)
                    &&& vpp_qsv_help is Some
                    &&& views_distinct(o)
                    &&& forall|m: Seq<char>|
                        has_name(o, m) <==> Self::help_options(vpp_qsv_help.unwrap()@, m)
                },
                None => !(n == filter_name(KnownVideoFilter::VppQsv) && has_name(video_filters, n)
                    && vpp_qsv_help is Some),
            }
    }

    /// What one ffmpeg supports, from what it printed for `-hwaccels`, `-filters`,
    /// `-h filter=vpp_qsv` (asked only when `-filters` lists `vpp_qsv`) and
    /// `-decoders`, with the operator's disabled and preferred filters.
    pub fn from_outputs(
        hwaccels_out: &str,
        filters_out: &str,
        disabled_filters: &Vec<String>,
        preferred_filters: &Vec<String>,
        vpp_qsv_help: Option<&str>,
        decoders_out: &str,
    ) -> (r: FfmpegInfo)
        ensures
            views_distinct(r.hwaccels@),
            forall|n: Seq<char>|
                has_name(r.hwaccels@, n) <==> exists|k: int|
                    0 <= k < lines(hwaccels_out@).len() && is_accel_line(
                        #[trigger] lines(hwaccels_out@)[k],
                        n,
                    ),
            views_distinct(r.video_filters@),
            forall|n: Seq<char>|
                has_name(r.video_filters@, n) <==> exists|k: int|
                    0 <= k < lines(filters_out@).len() && is_filter_line(
                        #[trigger] lines(filters_out@)[k],
                        n,
                        disabled_filters@,
                    ),
            forall|n: Seq<char>|
                #[trigger] pref_lookup(r.preferred_filters@, n) == if has_name(r.video_filters@, n) {
                    match last_index_of(preferred_filters@, n) {
                        Some(i) => Some(i as usize),
                        None => None,
                    }
                } else {
                    None
                },
            Self::options_loaded(r.video_filter_options@, r.video_filters@, vpp_qsv_help),
            views_distinct(r.decoders@),
            forall|n: Seq<char>|
                has_name(r.decoders@, n) <==> exists|k: int|
                    0 <= k < lines(decoders_out@).len() && is_decoder_line(
                        #[trigger] lines(decoders_out@)[k],
                        n,
                    ),
            // What every loaded value keeps.
            forall|i: int|
                0 <= i < r.hwaccels@.len() ==> known_accel_name(#[trigger] r.hwaccels@[i]@),
            forall|i: int|
                0 <= i < r.video_filters@.len() ==> known_filter_name(#[trigger] r.video_filters@[i]@)
                    && !has_name(disabled_filters@, r.video_filters@[i]@),
            forall|n: Seq<char>|
                #[trigger] pref_lookup(r.preferred_filters@, n) matches Some(p) ==> {
                    &&& has_name(r.video_filters@, n)
                    &&& p < preferred_filters@.len()
                    &&& preferred_filters@[p as int]@ == n
                    &&& forall|j: int|
                        p < j < preferred_filters@.len() ==> #[trigger] preferred_filters@[j]@ != n
                },
            forall|n: Seq<char>|
                #[trigger] options_lookup(r.video_filter_options@, n) is Some ==> n == filter_name(
                    KnownVideoFilter::VppQsv,
                ) && has_name(r.video_filters@, n),
    {
        let hwaccels = Self::parse_hw_accels(hwaccels_out);
        let video_filters = Self::parse_video_filters(filters_out, disabled_filters);
        let preferred = Self::preferred_positions(preferred_filters, &video_filters);
        let probed = Self::option_probed_filters(&video_filters);
        let mut video_filter_options: Vec<(String, Vec<String>)> = Vec::new();
        let ghost vpp = filter_name(KnownVideoFilter::VppQsv);
        if probed.len() > 0 && vpp_qsv_help.is_some() {
            let help = vpp_qsv_help.unwrap();
            let options = Self::parse_filter_options(help);
            video_filter_options.push((KnownVideoFilter::VppQsv.to_string(), options));
            proof {
                assert(video_filter_options@.drop_first() =~= Seq::<(String, Vec<String>)>::empty());
                assert(has_name(video_filters@, vpp));
                assert forall|n: Seq<char>| #[trigger]
                    options_lookup(video_filter_options@, n) == if n == vpp {
                        Some(options@)
                    } else {
                        None::<Seq<String>>
                    } by {
                    assert(video_filter_options@[0].0@ == vpp);
                    assert(options_lookup(video_filter_options@.drop_first(), n) == None::<Seq<String>>);
                }
                assert(Self::options_loaded(video_filter_options@, video_filters@, vpp_qsv_help));
            }
        } else {
            assert(Self::options_loaded(video_filter_options@, video_filters@, vpp_qsv_help));
        }
        let decoders = Self::parse_decoders(decoders_out);
        proof {
            assert forall|i: int| 0 <= i < hwaccels@.len() implies known_accel_name(
                #[trigger] hwaccels@[i]@,
            ) by {
                let n = hwaccels@[i]@;
                assert(has_name(hwaccels@, n));
                let k = choose|k: int|
                    0 <= k < lines(hwaccels_out@).len() && is_accel_line(
                        #[trigger] lines(hwaccels_out@)[k],
                        n,
                    );
                assert(is_accel_line(lines(hwaccels_out@)[k], n));
            }
            assert forall|i: int| 0 <= i < video_filters@.len() implies known_filter_name(
                #[trigger] video_filters@[i]@,
            ) && !has_name(disabled_filters@, video_filters@[i]@) by {
                let n = video_filters@[i]@;
                assert(has_name(video_filters@, n));
                let k = choose|k: int|
                    0 <= k < lines(filters_out@).len() && is_filter_line(
                        #[trigger] lines(filters_out@)[k],
                        n,
                        disabled_filters@,
                    );
                assert(is_filter_line(lines(filters_out@)[k], n, disabled_filters@));
            }
            assert forall|n: Seq<char>|
                #[trigger] pref_lookup(preferred@, n) is Some implies {
                    let p = pref_lookup(preferred@, n)->0;
                    &&& has_name(video_filters@, n)
                    &&& p < preferred_filters@.len()
                    &&& preferred_filters@[p as int]@ == n
                    &&& forall|j: int|
                        p < j < preferred_filters@.len() ==> #[trigger] preferred_filters@[j]@ != n
                } by {
                lemma_last_index_of(preferred_filters@, n);
                assert(preferred_filters@.len() == preferred_filters.len());
                if let Some(i) = last_index_of(preferred_filters@, n) {
                    assert((i as usize) as int == i);
                }
            }
        }
        FfmpegInfo {
            hwaccels,
            video_filters,
            preferred_filters: preferred,
            video_filter_options,
            decoders,
        }
    }
}

/// Looking up in a list extended at the end.
/// Where no available filter has a preference, the best fit is the first available
/// one.
pub proof fn lemma_best_fit_without_preferences(
    info: FfmpegInfo,
    options: Seq<KnownVideoFilter>,
    i: int,
)
    requires
        forall|j: int|
            0 <= j < options.len() && info.has_video_filter_spec(#[trigger] options[j])
                ==> info.position_spec(options[j]) == usize::MAX,
        info.best_fit_at(options, i),
    ensures
        forall|j: int| 0 <= j < i ==> !info.has_video_filter_spec(#[trigger] options[j]),
{
}

pub proof fn lemma_pref_lookup_push(v: Seq<(String, usize)>, e: (String, usize), n: Seq<char>)
    ensures
        pref_lookup(v.push(e), n) == match pref_lookup(v, n) {
            Some(p) => Some(p),
            None => if e.0@ == n {
                Some(e.1)
            } else {
                None
            },
        },
    decreases v.len(),
{
    let w = v.push(e);
    if v.len() > 0 {
        lemma_pref_lookup_push(v.drop_first(), e, n);
        assert(w.drop_first() =~= v.drop_first().push(e));
        assert(w[0] == v[0]);
        if v[0].0@ == n {
            assert(pref_lookup(w, n) == Some(v[0].1));
        } else {
            assert(pref_lookup(w, n) == pref_lookup(w.drop_first(), n));
            assert(pref_lookup(v, n) == pref_lookup(v.drop_first(), n));
        }
    } else {
        assert(v.push(e).drop_first() =~= Seq::<(String, usize)>::empty());
        assert(v.push(e)[0] == e);
    }
}

/// The last position of `n` in `v` holds `n`, and no later one does.
pub proof fn lemma_last_index_of(v: Seq<String>, n: Seq<char>)
    ensures
        last_index_of(v, n) matches Some(i) ==> {
            &&& 0 <= i < v.len()
            &&& v[i]@ == n
            &&& forall|j: int| i < j < v.len() ==> #[trigger] v[j]@ != n
        },
        last_index_of(v, n) is None ==> !has_name(v, n),
    decreases v.len(),
{
    if v.len() > 0 {
        let init = v.drop_last();
        lemma_last_index_of(init, n);
        assert forall|j: int| 0 <= j < init.len() implies #[trigger] init[j] == v[j] by {}
        if v.last()@ == n {
            assert(last_index_of(v, n) == Some(v.len() - 1));
        } else {
            assert(last_index_of(v, n) == last_index_of(init, n));
            match last_index_of(init, n) {
                Some(i) => {
                    assert forall|j: int| i < j < v.len() implies #[trigger] v[j]@ != n by {
                        if j < init.len() {
                            assert(init[j]@ != n);
                        } else {
                            assert(v[j] == v.last());
                        }
                    }
                },
                None => {
                    if has_name(v, n) {
                        let w = choose|w: int| 0 <= w < v.len() && #[trigger] v[w]@ == n;
                        if w < init.len() {
                            assert(init[w]@ == n);
                            assert(has_name(init, n));
                        } else {
                            assert(v[w] == v.last());
                        }
                    }
                },
            }
        }
    }
}

} // verus!
