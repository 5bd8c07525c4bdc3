//! oneVPL data that the QSV probe fills in to ask the runtime about a codec.
use vstd::prelude::*;

verus! {

#[allow(non_camel_case_types)]
pub type mfxStatus = i32;

pub const MFX_ERR_NONE: mfxStatus = 0;

pub const MFX_ERR_NOT_FOUND: mfxStatus = -9;

pub const MFX_VARIANT_VALUE_TYPE_U32: u32 = 4;

/// The frames a codec query is about.
#[allow(non_snake_case, non_camel_case_types)]
#[derive(Clone, Copy)]
pub struct mfxFrameInfo {
    pub reserved: [u32; 4],
    pub FourCC: u32,
    pub Width: u16,
    pub Height: u16,
    pub CropX: u16,
    pub CropY: u16,
    pub CropW: u16,
    pub CropH: u16,
    pub FrameRateExtN: u32,
    pub FrameRateExtD: u32,
    pub reserved2: u16,
    pub AspectRatioW: u16,
    pub AspectRatioH: u16,
    pub PicStruct: u16,
    pub ChromaFormat: u16,
    pub reserved3: u16,
}

/// The codec settings of a query.
#[allow(non_snake_case, non_camel_case_types)]
#[derive(Clone, Copy)]
pub struct mfxInfoMFX {
    pub reserved: [u32; 7],
    pub LowPower: u16,
    pub BRCType: u16,
    pub FrameInfo: mfxFrameInfo,
    pub CodecId: u32,
    pub CodecProfile: u16,
    pub CodecLevel: u16,
    pub NumThread: u16,
    pub reserved2: [u16; 3],
}

} // verus!
