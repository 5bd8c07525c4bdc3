//! What the oneVPL runtime reports it can decode, encode and process.
use vstd::prelude::*;

use crate::bytes::{be_bytes, le_bytes, ne_bytes};
use crate::capabilities::amf::contains_u8;
use crate::format_map::FormatMap;
use crate::pipeline::{hw_pixel_format, pixel_has_alpha, views, HwPixelFormat, PixelFormat, VideoFormat};
use crate::sorting::{lex_sorted, sort_strings};

verus! {

broadcast use vstd::seq_lib::group_to_multiset_ensures;

/// `NV12`.
pub const MFX_FOURCC_NV12: u32 = 0x3231_564E;

/// `P010`.
pub const MFX_FOURCC_P010: u32 = 0x3031_3050;

/// `RGB4`.
pub const MFX_FOURCC_RGB4: u32 = 0x3442_4752;

/// `VSIN`: video signal information on the VPP input.
pub const MFX_EXTBUFF_VIDEO_SIGNAL_INFO_IN: u32 = 0x4E49_5356;

/// `VSOT`: video signal information on the VPP output.
pub const MFX_EXTBUFF_VIDEO_SIGNAL_INFO_OUT: u32 = 0x544F_5356;

/// A four-character code: a pixel format or a VPP filter id.
#[derive(Debug, Clone, Copy, PartialEq, Eq, Structural)]
pub struct QsvFourCC(pub u32);

#[derive(Debug)]
pub struct QsvCapabilities {
    pub supported_decoders: FormatMap<Vec<u8>>,
    pub supported_encoders: FormatMap<Vec<u8>>,
    pub vpp_pixel_formats: Vec<QsvFourCC>,
    pub vpp_filters: Vec<QsvFourCC>,
    pub runtime_api: Option<(u16, u16)>,
}

/// The four-character code a software pixel format is processed as.
pub open spec fn vpp_fourcc(p: PixelFormat) -> Option<u32> {
    match p {
        PixelFormat::Nv12 | PixelFormat::Yuv420p => Some(MFX_FOURCC_NV12),
        PixelFormat::P010le | PixelFormat::Yuv420p10le => Some(MFX_FOURCC_P010),
        PixelFormat::Bgra => Some(MFX_FOURCC_RGB4),
        _ => None,
    }
}

/// What `String::from_utf8_lossy` makes of a byte sequence.
pub uninterp spec fn utf8_lossy(bytes: Seq<u8>) -> Seq<char>;

/// `String::from_utf8_lossy`: the text of the bytes; valid UTF-8 decodes as is.
#[verifier::external_body]
fn string_from_utf8_lossy(bytes: &[u8]) -> (r: String)
    ensures
        r@ == utf8_lossy(bytes@),
        vstd::utf8::valid_utf8(bytes@) ==> r@ == vstd::utf8::decode_utf8(bytes@),
{
    String::from_utf8_lossy(bytes).into_owned()
}

/// The name of a four-character code: its bytes in machine order, read as text.
pub open spec fn fourcc_name_is(x: u32, name: Seq<char>) -> bool {
    name == utf8_lossy(le_bytes(x)) || name == utf8_lossy(be_bytes(x))
}

pub fn contains_fourcc(v: &Vec<QsvFourCC>, c: QsvFourCC) -> (r: bool)
    ensures
        r == v@.contains(c),
{
    let mut i: usize = 0;
    while i < v.len()
        invariant
            0 <= i <= v@.len(),
            forall|j: int| 0 <= j < i ==> v@[j] != c,
        decreases v@.len() - i,
    {
        if v[i] == c {
            assert(v@[i as int] == c);
            return true;
        }
        i = i + 1;
    }
    false
}

impl QsvCapabilities {
    pub open spec fn can_decode_spec(&self, format: VideoFormat, bit_depth: u8) -> bool {
        self.supported_decoders.view().contains_key(format)
            && self.supported_decoders.view()[format]@.contains(bit_depth)
    }

    pub open spec fn can_encode_spec(&self, format: VideoFormat, bit_depth: u8) -> bool {
        self.supported_encoders.view().contains_key(format)
            && self.supported_encoders.view()[format]@.contains(bit_depth)
    }

    pub open spec fn vpp_supports_format_spec(&self, p: PixelFormat) -> bool {
        vpp_fourcc(p) matches Some(c) && self.vpp_pixel_formats@.contains(QsvFourCC(c))
    }

    /// A heuristic: a 2.x runtime with both video-signal-info filters and P010 VPP.
    pub open spec fn can_tonemap_spec(&self) -> bool {
        &&& self.runtime_api matches Some((major, _)) && major >= 2
        &&& self.vpp_filters@.contains(QsvFourCC(MFX_EXTBUFF_VIDEO_SIGNAL_INFO_IN))
        &&& self.vpp_filters@.contains(QsvFourCC(MFX_EXTBUFF_VIDEO_SIGNAL_INFO_OUT))
        &&& self.vpp_supports_format_spec(PixelFormat::P010le)
    }

    pub fn can_decode(&self, format: &VideoFormat, bit_depth: u8) -> (r: bool)
        ensures
            r == self.can_decode_spec(*format, bit_depth),
    {
        match self.supported_decoders.get(format) {
            Some(bit_depths) => contains_u8(bit_depths, bit_depth),
            None => false,
        }
    }

    pub fn can_encode(&self, format: &VideoFormat, bit_depth: u8) -> (r: bool)
        ensures
            r == self.can_encode_spec(*format, bit_depth),
    {
        match self.supported_encoders.get(format) {
            Some(bit_depths) => contains_u8(bit_depths, bit_depth),
            None => false,
        }
    }

    pub fn vpp_supports_format(&self, pixel_format: &PixelFormat) -> (r: bool)
        ensures
            r == self.vpp_supports_format_spec(*pixel_format),
    {
        let fourcc = match pixel_format {
            PixelFormat::Nv12 | PixelFormat::Yuv420p => Some(MFX_FOURCC_NV12),
            PixelFormat::P010le | PixelFormat::Yuv420p10le => Some(MFX_FOURCC_P010),
            PixelFormat::Bgra => Some(MFX_FOURCC_RGB4),
            _ => None,
        };
        match fourcc {
            Some(c) => contains_fourcc(&self.vpp_pixel_formats, QsvFourCC(c)),
            None => false,
        }
    }

    /// A heuristic; P010 support could mean input or output of any filter.
    pub fn can_tonemap(&self) -> (r: bool)
        ensures
            r == self.can_tonemap_spec(),
    {
        let api = match self.runtime_api {
            Some((major, _)) => major >= 2,
            None => false,
        };
        api && contains_fourcc(&self.vpp_filters, QsvFourCC(MFX_EXTBUFF_VIDEO_SIGNAL_INFO_IN))
            && contains_fourcc(&self.vpp_filters, QsvFourCC(MFX_EXTBUFF_VIDEO_SIGNAL_INFO_OUT))
            && self.vpp_supports_format(&PixelFormat::P010le)
    }

    pub fn runtime_api(&self) -> (r: Option<(u16, u16)>)
        ensures
            r == self.runtime_api,
    {
        self.runtime_api
    }

    /// The names of the distinct VPP filters, in text order.
    pub fn vpp_filters(&self) -> (r: Vec<String>)
        ensures
            lex_sorted(views(r@)),
            exists|codes: Seq<u32>|
                codes.no_duplicates() && codes.to_set() == self.vpp_filters@.map_values(
                    |f: QsvFourCC| f.0,
                ).to_set() && views(r@).len() == codes.len() && exists|names: Seq<Seq<char>>|
                    names.len() == codes.len() && (forall|i: int|
                        0 <= i < codes.len() ==> fourcc_name_is(codes[i], #[trigger] names[i]))
                        && views(r@).to_multiset() == names.to_multiset(),
    {
        let mut codes: Vec<u32> = Vec::new();
        let mut names: Vec<String> = Vec::new();
        let mut i: usize = 0;
        while i < self.vpp_filters.len()
            invariant
                0 <= i <= self.vpp_filters@.len(),
                codes@.no_duplicates(),
                codes@.to_set() == self.vpp_filters@.take(i as int).map_values(
                    |f: QsvFourCC| f.0,
                ).to_set(),
                names@.len() == codes@.len(),
                forall|k: int|
                    0 <= k < codes@.len() ==> fourcc_name_is(codes@[k], #[trigger] names@[k]@),
            decreases self.vpp_filters@.len() - i,
        {
            let c = self.vpp_filters[i].0;
            let ghost before = codes@;
            let mut seen = false;
            let mut j: usize = 0;
            while j < codes.len()
                invariant
                    0 <= j <= codes@.len(),
                    !seen ==> forall|k: int| 0 <= k < j ==> codes@[k] != c,
                    seen ==> codes@.contains(c),
                decreases codes@.len() - j,
            {
                if codes[j] == c {
                    assert(codes@[j as int] == c);
                    seen = true;
                }
                j = j + 1;
            }
            if !seen {
                codes.push(c);
                let bytes = ne_bytes(c);
                names.push(string_from_utf8_lossy(bytes.as_slice()));
            }
            proof {
                let m = self.vpp_filters@.take(i + 1).map_values(|f: QsvFourCC| f.0);
                let m0 = self.vpp_filters@.take(i as int).map_values(|f: QsvFourCC| f.0);
                assert(m =~= m0.push(c));
                assert forall|y: u32| codes@.contains(y) <==> m.contains(y) by {
                    if codes@.contains(y) && y != c {
                        let k = choose|k: int| 0 <= k < codes@.len() && codes@[k] == y;
                        assert(before[k] == y);
                        assert(before.to_set().contains(y));
                        assert(m0.to_set().contains(y));
                        let q = choose|q: int| 0 <= q < m0.len() && m0[q] == y;
                        assert(m[q] == y);
                    }
                    if codes@.contains(y) && y == c {
                        assert(m[i as int] == y);
                    }
                    if m.contains(y) {
                        let q = choose|q: int| 0 <= q < m.len() && m[q] == y;
                        if q < i {
                            assert(m0[q] == y);
                            assert(m0.to_set().contains(y));
                            assert(before.to_set().contains(y));
                            let k = choose|k: int| 0 <= k < before.len() && before[k] == y;
                            assert(codes@[k] == y);
                        } else if !seen {
                            assert(codes@[before.len() as int] == y);
                        }
                    }
                }
                assert(codes@.to_set() =~= m.to_set());
            }
            i = i + 1;
        }
        assert(self.vpp_filters@.take(self.vpp_filters@.len() as int) =~= self.vpp_filters@);
        let ghost nv = views(names@);
        let sorted = sort_strings(names);
        proof {
            assert(views(sorted@).to_multiset().len() == nv.to_multiset().len());
            assert(views(sorted@).len() == codes@.len());
            assert(nv.len() == codes@.len());
            assert(forall|k: int| 0 <= k < codes@.len() ==> fourcc_name_is(codes@[k], #[trigger] nv[k]));
        }
        sorted
    }

    /// The number of formats with a decoder plus the number with an encoder.
    pub fn count(&self) -> (r: usize)
        ensures
            r == self.supported_decoders.view().dom().len()
                + self.supported_encoders.view().dom().len(),
    {
        self.supported_decoders.len() + self.supported_encoders.len()
    }
}

/// Tone mapping is only reported where the VPP handles P010.
pub proof fn lemma_tonemap_needs_p010(caps: &QsvCapabilities)
    ensures
        caps.can_tonemap_spec() ==> caps.vpp_supports_format_spec(PixelFormat::P010le),
{
}


/// A software format without alpha that the VPP takes is carried in the surface format
/// of its bit depth: 8-bit nv12 and yuv420p as NV12, 10-bit p010le and yuv420p10le as
/// P010, so the VPP supports it exactly when it lists that surface format. Of the
/// formats with alpha only packed BGRA is taken (as RGB4); packed 10-bit nv15 and
/// unknown formats are not taken.
pub proof fn lemma_vpp_fourcc_follows_surface(caps: QsvCapabilities, p: PixelFormat)
    ensures
        ({
            let surface = if hw_pixel_format(p) == HwPixelFormat::P010 {
                MFX_FOURCC_P010
            } else {
                MFX_FOURCC_NV12
            };
            !pixel_has_alpha(p) && p != PixelFormat::Nv15 && p != PixelFormat::Unknown ==> {
                &&& vpp_fourcc(p) == Some(surface)
                &&& caps.vpp_supports_format_spec(p) == caps.vpp_pixel_formats@.contains(
                    QsvFourCC(surface),
                )
            }
        }),
        pixel_has_alpha(p) ==> vpp_fourcc(p) == if p == PixelFormat::Bgra {
            Some(MFX_FOURCC_RGB4)
        } else {
            None
        },
        p == PixelFormat::Nv15 || p == PixelFormat::Unknown ==> vpp_fourcc(p) is None,
{
}

} // verus!
