//! Video decoding: parsing, reference management and decoder backends.

use vstd::prelude::*;

pub mod bit_reader;
pub mod byte_layout;
pub mod dpb;
pub mod dxva_bitstream;
pub mod dxva_decoder;
pub mod dxva_params;
pub mod dxva_submission;
pub mod gstreamer_decoder;
pub mod hevc_parser;
pub mod hevc_syntax;
pub mod native_video;
pub mod poc;
pub mod reference_lists;
pub mod v4l2;
pub mod vaapi;
pub mod video;

verus! {

/// Pixel format of a decoded frame
#[derive(Debug, Clone, Copy, PartialEq, Eq, Structural)]
pub enum PixelFormat {
    /// 8-bit 4:2:0, chroma interleaved
    NV12,
    /// 10-bit 4:2:0, chroma interleaved
    P010,
    /// 8-bit 4:2:0, three planes
    YUV420P,
}

/// Range of the sample values
#[derive(Debug, Clone, Copy, PartialEq, Eq, Structural)]
pub enum ColorRange {
    Limited,
    Full,
}

/// Colour space of a decoded frame
#[derive(Debug, Clone, Copy, PartialEq, Eq, Structural)]
pub enum ColorSpace {
    BT709,
    BT601,
    BT2020,
}

/// Transfer function of a decoded frame
#[derive(Debug, Clone, Copy, PartialEq, Eq, Structural)]
pub enum TransferFunction {
    SDR,
    PQ,
    HLG,
}

/// Codec of the stream
#[derive(Debug, Clone, Copy, PartialEq, Eq, Structural)]
pub enum VideoCodec {
    H264,
    H265,
    AV1,
}

/// Decoder backend that a user can choose
#[derive(Debug, Clone, Copy, PartialEq, Eq, Structural)]
pub enum VideoDecoderBackend {
    Auto,
    Cuvid,
    Qsv,
    Vaapi,
    Dxva,
    VideoToolbox,
    VulkanVideo,
    Software,
}

/// Operating system that the client runs on
#[derive(Debug, Clone, Copy, PartialEq, Eq, Structural)]
pub enum Platform {
    Windows,
    MacOs,
    Linux,
}

/// A decoded frame as the renderer gets it: either the planes in memory or
/// the index of the GPU surface that holds it.
#[derive(Debug)]
pub struct VideoFrame {
    pub frame_id: u64,
    pub width: u32,
    pub height: u32,
    pub y_plane: Vec<u8>,
    pub u_plane: Vec<u8>,
    pub v_plane: Vec<u8>,
    pub y_stride: u32,
    pub u_stride: u32,
    pub v_stride: u32,
    pub timestamp_us: u64,
    pub format: PixelFormat,
    pub color_range: ColorRange,
    pub color_space: ColorSpace,
    pub transfer_function: TransferFunction,
    /// Slice of the decoder's texture array that holds the frame, where the
    /// frame stays on the GPU.
    pub gpu_frame: Option<u32>,
}

} // verus!
