//! What ffprobe reports about an input.
use vstd::prelude::*;

use crate::text::{chars_of, str_eq};

verus! {

broadcast use vstd::string::group_string_axioms;

/// The ffprobe report of one input: the path that was probed and the JSON text.
#[derive(Debug)]
pub struct ProbeResult {
    pub path: String,
    pub json: String,
}

impl ProbeResult {
    /// The text form: the JSON report as ffprobe printed it.
    pub fn to_display_string(&self) -> (r: String)
        ensures
            r@ == self.json@,
    {
        self.json.clone()
    }
}

#[derive(Clone, Copy, Debug, PartialEq, Eq, Structural)]
pub enum CodecType {
    Video,
    Audio,
    Subtitle,
}

/// A frame rate as a ratio of two integers.
#[derive(Clone, Copy, Debug, PartialEq, Eq, Structural)]
pub struct FrameRate {
    pub numerator: u32,
    pub denominator: u32,
}

/// The value of a sequence of decimal digits.
pub open spec fn digits_value(s: Seq<char>) -> nat
    decreases s.len(),
{
    if s.len() == 0 {
        0
    } else {
        digits_value(s.drop_last()) * 10 + (s.last() as nat - '0' as nat) as nat
    }
}

pub open spec fn is_digit(c: char) -> bool {
    '0' <= c && c <= '9'
}

/// A non-empty run of decimal digits whose value fits a `u32`.
pub open spec fn parse_u32_spec(s: Seq<char>) -> Option<u32> {
    if s.len() > 0 && (forall|i: int| 0 <= i < s.len() ==> is_digit(#[trigger] s[i]))
        && digits_value(s) <= u32::MAX {
        Some(digits_value(s) as u32)
    } else {
        None
    }
}

/// `N/D` with a non-zero `D`, or a bare `N` (over 1).
pub open spec fn parse_frame_rate(s: Seq<char>) -> Option<FrameRate> {
    if exists|i: int| 0 <= i < s.len() && s[i] == '/' {
        let i = choose|i: int| 0 <= i < s.len() && s[i] == '/' && forall|j: int|
            0 <= j < i ==> s[j] != '/';
        match (parse_u32_spec(s.take(i)), parse_u32_spec(s.skip(i + 1))) {
            (Some(n), Some(d)) => if d != 0 {
                Some(FrameRate { numerator: n, denominator: d })
            } else {
                None
            },
            _ => None,
        }
    } else {
        match parse_u32_spec(s) {
            Some(n) => Some(FrameRate { numerator: n, denominator: 1 }),
            None => None,
        }
    }
}

proof fn lemma_digits_grow(t: Seq<char>, p: int, k: int)
    requires
        forall|i: int| 0 <= i < t.len() ==> is_digit(#[trigger] t[i]),
        0 < p <= k <= t.len(),
        digits_value(t.take(p)) > u32::MAX,
    ensures
        digits_value(t.take(k)) > u32::MAX,
    decreases k - p,
{
    if k > p {
        lemma_digits_grow(t, p, k - 1);
        assert(t.take(k).drop_last() =~= t.take(k - 1));
        assert(is_digit(t[k - 1]));
    }
}

/// Parses `v[from..to]` as a decimal `u32`.
fn parse_u32_range(v: &Vec<char>, from: usize, to: usize) -> (r: Option<u32>)
    requires
        from <= to <= v@.len(),
    ensures
        r == parse_u32_spec(v@.subrange(from as int, to as int)),
{
    let ghost s = v@.subrange(from as int, to as int);
    if from == to {
        return None;
    }
    let mut value: u64 = 0;
    let mut i = from;
    while i < to
        invariant
            from <= i <= to <= v@.len(),
            s == v@.subrange(from as int, to as int),
            forall|j: int| from <= j < i ==> is_digit(#[trigger] v@[j]),
            value == digits_value(v@.subrange(from as int, i as int)),
            value <= u32::MAX,
        decreases to - i,
    {
        let c = v[i];
        if !('0' <= c && c <= '9') {
            assert(!is_digit(s[i - from]));
            return None;
        }
        let d = (c as u32 - '0' as u32) as u64;
        let next = value * 10 + d;
        let ghost prefix = v@.subrange(from as int, (i + 1) as int);
        assert(prefix.drop_last() =~= v@.subrange(from as int, i as int));
        if next > 0xffff_ffff {
            proof {
                if forall|j: int| 0 <= j < s.len() ==> is_digit(#[trigger] s[j]) {
                    assert(s.take(i + 1 - from) =~= prefix);
                    lemma_digits_grow(s, i + 1 - from, s.len() as int);
                    assert(s.take(s.len() as int) =~= s);
                }
            }
            return None;
        }
        value = next;
        i = i + 1;
    }
    proof {
        assert forall|j: int| 0 <= j < s.len() implies is_digit(#[trigger] s[j]) by {
            assert(s[j] == v@[from + j]);
        }
    }
    Some(value as u32)
}

impl FrameRate {
    /// Reads an ffprobe rate such as `30000/1001`.
    pub fn parse(s: &str) -> (r: Option<FrameRate>)
        ensures
            r == parse_frame_rate(s@),
    {
        let v = chars_of(s);
        let mut i: usize = 0;
        while i < v.len()
            invariant
                0 <= i <= v@.len(),
                v@ == s@,
                forall|j: int| 0 <= j < i ==> v@[j] != '/',
            decreases v@.len() - i,
        {
            if v[i] == '/' {
                let ghost w = choose|k: int| 0 <= k < v@.len() && v@[k] == '/' && forall|j: int|
                    0 <= j < k ==> v@[j] != '/';
                assert(v@[i as int] == '/' && forall|j: int| 0 <= j < i ==> v@[j] != '/');
                proof {
                    if w < i {
                    } else if w > i {
                        assert(v@[i as int] != '/');
                    }
                }
                assert(w == i);
                let n = parse_u32_range(&v, 0, i);
                let d = parse_u32_range(&v, i + 1, v.len());
                assert(v@.take(i as int) == v@.subrange(0, i as int));
                assert(v@.skip(i + 1) == v@.subrange(i + 1, v@.len() as int));
                return match (n, d) {
                    (Some(n), Some(d)) => if d != 0 {
                        Some(FrameRate { numerator: n, denominator: d })
                    } else {
                        None
                    },
                    _ => None,
                };
            }
            i = i + 1;
        }
        let n = parse_u32_range(&v, 0, v.len());
        assert(v@.subrange(0, v@.len() as int) == v@);
        match n {
            Some(n) => Some(FrameRate { numerator: n, denominator: 1 }),
            None => None,
        }
    }
}

/// Colour description of a video stream.
#[derive(Debug)]
pub struct ProbeResultColorParams {
    pub color_range: Option<String>,
    pub color_space: Option<String>,
    pub color_transfer: Option<String>,
    pub color_primaries: Option<String>,
    pub has_hdr10_metadata: bool,
}

impl Default for ProbeResultColorParams {
    fn default() -> (r: ProbeResultColorParams)
        ensures
            r.color_range is None,
            r.color_space is None,
            r.color_transfer is None,
            r.color_primaries is None,
            !r.has_hdr10_metadata,
    {
        ProbeResultColorParams {
            color_range: None,
            color_space: None,
            color_transfer: None,
            color_primaries: None,
            has_hdr10_metadata: false,
        }
    }
}

impl ProbeResultColorParams {
    /// Whether the transfer characteristics are PQ (SMPTE ST 2084).
    pub open spec fn is_pq_spec(&self) -> bool {
        self.color_transfer matches Some(t) && t@ == "smpte2084"@
    }

    pub fn is_pq(&self) -> (r: bool)
        ensures
            r == self.is_pq_spec(),
    {
        match &self.color_transfer {
            Some(t) => str_eq(t.as_str(), "smpte2084"),
            None => false,
        }
    }
}

/// The video stream of a probed input.
#[derive(Debug)]
pub struct ProbeResultVideoStream {
    pub stream_index: usize,
    pub codec: String,
    pub codec_type: CodecType,
    pub dv_profile: Option<u32>,
    pub profile: String,
    pub height: Option<u32>,
    pub width: Option<u32>,
    pub frame_rate: Option<FrameRate>,
    pub sample_aspect_ratio: Option<String>,
    pub display_aspect_ratio: Option<String>,
    pub pix_fmt: String,
    pub color_params: ProbeResultColorParams,
    pub field_order: Option<String>,
    pub rotation: Option<i32>,
}

/// Whether an ffprobe `field_order` describes interlaced content.
pub open spec fn interlaced_field_order(f: Seq<char>) -> bool {
    f == "tt"@ || f == "bb"@ || f == "tb"@ || f == "bt"@
}

impl ProbeResultVideoStream {
    pub open spec fn is_interlaced_spec(&self) -> bool {
        self.field_order matches Some(f) && interlaced_field_order(f@)
    }

    /// Whether the stream is interlaced: its field order names a field pair.
    pub fn is_interlaced(&self) -> (r: bool)
        ensures
            r == self.is_interlaced_spec(),
    {
        match &self.field_order {
            Some(f) => {
                let f = f.as_str();
                str_eq(f, "tt") || str_eq(f, "bb") || str_eq(f, "tb") || str_eq(f, "bt")
            },
            None => false,
        }
    }
}

} // verus!
