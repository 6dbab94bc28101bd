//! Native video decoder wrapper: the worker that drives the native DXVA
//! decoder for HEVC streams.
//!
//! The worker parses each packet for its dimensions, (re)creates the decoder
//! when they change, decodes, and reports whether a frame was produced and
//! whether a keyframe is needed. The decoder thread, its channels and the
//! accelerator belong to the caller; the worker's decisions are made here.

use vstd::prelude::*;
use crate::media::dxva_decoder::{DxvaCodec, DxvaDecoderConfig};
use crate::media::v4l2::LockedPlanes;
use crate::media::video::{bumped, is_keyframe_due, keyframe_due, DecodeStats};
use crate::media::{ColorRange, ColorSpace, PixelFormat, TransferFunction, VideoCodec, VideoFrame};

verus! {

/// Consecutive failures after which the native worker asks for a keyframe.
pub const KEYFRAME_REQUEST_THRESHOLD: u32 = 3;

/// Number of surfaces of the decoder that the worker creates.
pub const NATIVE_SURFACE_COUNT: u32 = 25;

/// Commands sent to the native decoder thread
#[derive(Debug)]
pub enum NativeDecoderCommand {
    /// Decode a packet (async mode)
    DecodeAsync { data: Vec<u8>, receive_time_us: u64 },
    /// Update decoder configuration (resolution change)
    Configure { width: u32, height: u32, is_hdr: bool },
    /// Stop the decoder
    Stop,
}

/// How a decoded frame reaches the renderer.
#[derive(Debug, Clone, Copy, PartialEq, Eq, Structural)]
pub enum FrameDelivery {
    /// The frame stays in its surface on the GPU; the renderer has to be
    /// done with it before the decoder hands the surface out again.
    ZeroCopy,
    /// The planes are copied out of the surface right after decoding.
    ImmediateCopy,
}

/// The colour description of a native frame: 10-bit BT.2020 with the PQ
/// curve for HDR, 8-bit BT.709 otherwise, always in limited range.
pub open spec fn native_frame_described(f: VideoFrame, is_hdr: bool) -> bool {
    &&& f.format == if is_hdr {
        PixelFormat::P010
    } else {
        PixelFormat::NV12
    }
    &&& f.color_range == ColorRange::Limited
    &&& f.color_space == if is_hdr {
        ColorSpace::BT2020
    } else {
        ColorSpace::BT709
    }
    &&& f.transfer_function == if is_hdr {
        TransferFunction::PQ
    } else {
        TransferFunction::SDR
    }
}

/// Why no native decoder can be made.
#[derive(Debug, Clone, Copy, PartialEq, Eq, Structural)]
pub enum NativeDecoderError {
    /// The native decoder decodes HEVC only.
    UnsupportedCodec,
}

/// Native D3D11 video decoder wrapper: the caller's end of the decoder
/// thread.
#[derive(Debug)]
pub struct NativeVideoDecoder {
    frames_decoded: u64,
}

impl NativeVideoDecoder {
    /// Number of frames counted on the caller's end.
    pub closed spec fn spec_frames_decoded(&self) -> u64 {
        self.frames_decoded
    }

    /// Create a new native video decoder for async mode. Only HEVC is
    /// supported.
    pub fn new_async(codec: VideoCodec) -> (made: Result<Self, NativeDecoderError>)
        ensures
            made is Ok <==> codec == VideoCodec::H265,
            made matches Ok(decoder) ==> decoder.spec_frames_decoded() == 0,
            made matches Err(e) ==> e == NativeDecoderError::UnsupportedCodec,
    {
        if codec != VideoCodec::H265 {
            return Err(NativeDecoderError::UnsupportedCodec);
        }
        Ok(NativeVideoDecoder { frames_decoded: 0 })
    }

    /// The command that sends a packet off for async decoding.
    pub fn decode_async(&self, data: Vec<u8>, receive_time_us: u64) -> (command: NativeDecoderCommand)
        ensures
            command matches NativeDecoderCommand::DecodeAsync { data: d, receive_time_us: t } && d@
                == data@ && t == receive_time_us,
    {
        NativeDecoderCommand::DecodeAsync { data, receive_time_us }
    }

    /// The command that stops the decoder thread when the wrapper goes.
    pub fn stop_command(&self) -> (command: NativeDecoderCommand)
        ensures
            command is Stop,
    {
        NativeDecoderCommand::Stop
    }

    /// Get frames decoded count
    #[verifier::when_used_as_spec(spec_frames_decoded)]
    pub fn frames_decoded(&self) -> (count: u64)
        ensures
            count == self.spec_frames_decoded(),
    {
        self.frames_decoded
    }

    /// Check if using hardware acceleration (always true for native DXVA)
    pub fn is_hw_accel(&self) -> (yes: bool)
        ensures
            yes,
    {
        true
    }

    /// The renderer's frame for a decoded frame under a way of delivery.
    /// Without copying, the frame names the slice of the decoder's texture
    /// array that holds it and carries no planes. With copying it carries the
    /// planes that were copied out of the surface; a surface that could not
    /// be copied gives no frame.
    pub fn deliver_decoded_frame(
        delivery: FrameDelivery,
        width: u32,
        height: u32,
        array_index: u32,
        planes: Option<LockedPlanes>,
        is_hdr: bool,
        frame_id: u64,
    ) -> (frame: Option<VideoFrame>)
        ensures
            frame is Some <==> delivery == FrameDelivery::ZeroCopy || planes is Some,
            frame matches Some(f) ==> {
                &&& f.frame_id == frame_id
                &&& f.width == width
                &&& f.height == height
                &&& f.timestamp_us == 0
                &&& f.v_plane@.len() == 0
                &&& f.v_stride == 0
                &&& native_frame_described(f, is_hdr)
                &&& match delivery {
                    FrameDelivery::ZeroCopy => {
                        &&& f.gpu_frame == Some(array_index)
                        &&& f.y_plane@.len() == 0
                        &&& f.u_plane@.len() == 0
                        &&& f.y_stride == 0
                        &&& f.u_stride == 0
                    },
                    FrameDelivery::ImmediateCopy => {
                        &&& f.gpu_frame is None
                        &&& f.y_plane@ == planes->0.y_plane@
                        &&& f.u_plane@ == planes->0.uv_plane@
                        &&& f.y_stride == planes->0.y_stride
                        &&& f.u_stride == planes->0.uv_stride
                    },
                }
            },
    {
        match delivery {
            FrameDelivery::ZeroCopy => Some(
                VideoFrame {
                    frame_id,
                    width,
                    height,
                    y_plane: Vec::new(),
                    u_plane: Vec::new(),
                    v_plane: Vec::new(),
                    y_stride: 0,
                    u_stride: 0,
                    v_stride: 0,
                    timestamp_us: 0,
                    format: if is_hdr {
                        PixelFormat::P010
                    } else {
                        PixelFormat::NV12
                    },
                    color_range: ColorRange::Limited,
                    color_space: if is_hdr {
                        ColorSpace::BT2020
                    } else {
                        ColorSpace::BT709
                    },
                    transfer_function: if is_hdr {
                        TransferFunction::PQ
                    } else {
                        TransferFunction::SDR
                    },
                    gpu_frame: Some(array_index),
                },
            ),
            FrameDelivery::ImmediateCopy => Self::convert_decoded_frame(
                width,
                height,
                planes,
                is_hdr,
                frame_id,
            ),
        }
    }

    /// Convert a decoded frame to the renderer's frame from the planes that
    /// were copied out of its surface right after decoding: NV12 for SDR,
    /// P010 for HDR, with the colour description that goes with each. A
    /// surface that could not be copied gives no frame.
    pub fn convert_decoded_frame(
        width: u32,
        height: u32,
        planes: Option<LockedPlanes>,
        is_hdr: bool,
        frame_id: u64,
    ) -> (frame: Option<VideoFrame>)
        ensures
            frame is Some <==> planes is Some,
            frame matches Some(f) ==> {
                &&& f.frame_id == frame_id
                &&& f.width == width
                &&& f.height == height
                &&& f.y_plane@ == planes->0.y_plane@
                &&& f.u_plane@ == planes->0.uv_plane@
                &&& f.v_plane@.len() == 0
                &&& f.y_stride == planes->0.y_stride
                &&& f.u_stride == planes->0.uv_stride
                &&& f.v_stride == 0
                &&& f.timestamp_us == 0
                &&& f.format == if is_hdr {
                    PixelFormat::P010
                } else {
                    PixelFormat::NV12
                }
                &&& f.color_range == ColorRange::Limited
                &&& f.color_space == if is_hdr {
                    ColorSpace::BT2020
                } else {
                    ColorSpace::BT709
                }
                &&& f.transfer_function == if is_hdr {
                    TransferFunction::PQ
                } else {
                    TransferFunction::SDR
                }
                &&& f.gpu_frame is None
            },
    {
        match planes {
            Some(planes) => Some(
                VideoFrame {
                    frame_id,
                    width,
                    height,
                    y_plane: planes.y_plane,
                    u_plane: planes.uv_plane,
                    v_plane: Vec::new(),
                    y_stride: planes.y_stride,
                    u_stride: planes.uv_stride,
                    v_stride: 0,
                    timestamp_us: 0,
                    format: if is_hdr {
                        PixelFormat::P010
                    } else {
                        PixelFormat::NV12
                    },
                    color_range: ColorRange::Limited,
                    color_space: if is_hdr {
                        ColorSpace::BT2020
                    } else {
                        ColorSpace::BT709
                    },
                    transfer_function: if is_hdr {
                        TransferFunction::PQ
                    } else {
                        TransferFunction::SDR
                    },
                    gpu_frame: None,
                },
            ),
            None => None,
        }
    }
}

/// The worker of the native decoder thread as contracts see it.
pub struct WorkerModel {
    /// Whether a decoder exists.
    pub has_decoder: bool,
    pub current_width: u32,
    pub current_height: u32,
    pub is_hdr: bool,
    pub frames_decoded: u64,
    pub consecutive_failures: u32,
}

/// State of the native decoder thread.
#[derive(Debug)]
pub struct NativeDecodeWorker {
    has_decoder: bool,
    current_width: u32,
    current_height: u32,
    is_hdr: bool,
    frames_decoded: u64,
    consecutive_failures: u32,
}

impl View for NativeDecodeWorker {
    type V = WorkerModel;

    closed spec fn view(&self) -> WorkerModel {
        WorkerModel {
            has_decoder: self.has_decoder,
            current_width: self.current_width,
            current_height: self.current_height,
            is_hdr: self.is_hdr,
            frames_decoded: self.frames_decoded,
            consecutive_failures: self.consecutive_failures,
        }
    }
}

/// What came of one packet on the worker.
#[derive(Debug, Clone, Copy, PartialEq, Eq, Structural)]
pub enum NativeDecodeResult {
    /// The decoder produced a frame.
    Decoded,
    /// The decoder failed on the packet.
    Failed,
    /// There is no decoder yet: no parameter set has been seen.
    NotReady,
}

/// The configuration of the decoder that the worker creates for a stream.
pub open spec fn worker_config(width: u32, height: u32, is_hdr: bool) -> DxvaDecoderConfig {
    DxvaDecoderConfig {
        codec: DxvaCodec::HEVC,
        width,
        height,
        is_hdr,
        surface_count: NATIVE_SURFACE_COUNT,
    }
}

/// The configuration of the decoder that the worker creates for a stream.
pub fn worker_config_for(width: u32, height: u32, is_hdr: bool) -> (config: DxvaDecoderConfig)
    ensures
        config == worker_config(width, height, is_hdr),
{
    DxvaDecoderConfig {
        codec: DxvaCodec::HEVC,
        width,
        height,
        is_hdr,
        surface_count: NATIVE_SURFACE_COUNT,
    }
}

/// Whether the worker has to create a decoder for a stream of these
/// dimensions: they are known, and there is no decoder yet or it was made for
/// others.
pub open spec fn needs_decoder(m: WorkerModel, dimensions: Option<(u32, u32, bool)>) -> bool {
    match dimensions {
        Some((width, height, hdr)) => width > 0 && height > 0 && (!m.has_decoder || width
            != m.current_width || height != m.current_height || hdr != m.is_hdr),
        None => false,
    }
}

/// The worker after one packet.
pub open spec fn worker_after(m: WorkerModel, result: NativeDecodeResult) -> WorkerModel {
    match result {
        NativeDecodeResult::Decoded => WorkerModel {
            frames_decoded: bumped(m.frames_decoded as int, u64::MAX as int) as u64,
            consecutive_failures: 0,
            ..m
        },
        _ => WorkerModel {
            consecutive_failures: bumped(m.consecutive_failures as int, u32::MAX as int) as u32,
            ..m
        },
    }
}

/// What the worker reports of one packet: a packet without a frame, whether
/// the decoder failed on it or is not there yet, asks for a keyframe when one
/// is due.
pub open spec fn worker_stats(m: WorkerModel, result: NativeDecodeResult) -> DecodeStats {
    DecodeStats {
        frame_produced: result == NativeDecodeResult::Decoded,
        needs_keyframe: result != NativeDecodeResult::Decoded && keyframe_due(
            worker_after(m, result).consecutive_failures,
            KEYFRAME_REQUEST_THRESHOLD,
        ),
    }
}

/// The worker after the decoder failed on `n` packets in a row.
pub open spec fn after_failures(m: WorkerModel, n: nat) -> WorkerModel
    decreases n,
{
    if n == 0 {
        m
    } else {
        worker_after(after_failures(m, (n - 1) as nat), NativeDecodeResult::Failed)
    }
}

/// In a run of failures that starts from a fresh count, failure number `k`
/// asks for a keyframe where `k` is the threshold or a multiple of twenty
/// beyond it, and nowhere else: once for each crossing, not for every
/// failure behind it.
pub proof fn lemma_keyframe_once_per_crossing(m: WorkerModel, k: nat)
    requires
        m.consecutive_failures == 0,
        1 <= k <= u32::MAX,
    ensures
        after_failures(m, k).consecutive_failures == k,
        worker_stats(after_failures(m, (k - 1) as nat), NativeDecodeResult::Failed).needs_keyframe
            == (k == 3 || (k > 3 && k % 20 == 0)),
    decreases k,
{
    reveal_with_fuel(after_failures, 2);
    if k > 1 {
        lemma_keyframe_once_per_crossing(m, (k - 1) as nat);
    }
}

impl NativeDecodeWorker {
    /// A worker without a decoder.
    pub fn new() -> (worker: Self)
        ensures
            worker@ == (WorkerModel {
                has_decoder: false,
                current_width: 0,
                current_height: 0,
                is_hdr: false,
                frames_decoded: 0,
                consecutive_failures: 0,
            }),
    {
        NativeDecodeWorker {
            has_decoder: false,
            current_width: 0,
            current_height: 0,
            is_hdr: false,
            frames_decoded: 0,
            consecutive_failures: 0,
        }
    }

    /// The configuration of the decoder to create before a packet with these
    /// stream dimensions is decoded, if one has to be created.
    pub fn plan_decoder(&self, dimensions: Option<(u32, u32, bool)>) -> (config: Option<
        DxvaDecoderConfig,
    >)
        ensures
            config is Some <==> needs_decoder(self@, dimensions),
            config matches Some(c) ==> dimensions matches Some((width, height, hdr)) && c
                == worker_config(width, height, hdr),
    {
        match dimensions {
            Some((width, height, hdr)) => {
                if width > 0 && height > 0 && (!self.has_decoder || width != self.current_width
                    || height != self.current_height || hdr != self.is_hdr) {
                    Some(worker_config_for(width, height, hdr))
                } else {
                    None
                }
            },
            None => None,
        }
    }

    /// Takes in that the decoder for `config` was created.
    pub fn decoder_created(&mut self, config: &DxvaDecoderConfig)
        ensures
            final(self)@ == (WorkerModel {
                has_decoder: true,
                current_width: config.width,
                current_height: config.height,
                is_hdr: config.is_hdr,
                ..old(self)@
            }),
    {
        self.has_decoder = true;
        self.current_width = config.width;
        self.current_height = config.height;
        self.is_hdr = config.is_hdr;
    }

    /// What is reported when the decoder could not be created: no frame,
    /// and a keyframe is needed.
    pub fn decoder_creation_failed(&self) -> (stats: DecodeStats)
        ensures
            stats == (DecodeStats { frame_produced: false, needs_keyframe: true }),
    {
        DecodeStats { frame_produced: false, needs_keyframe: true }
    }

    /// Takes in what came of one packet and says what to report.
    pub fn record_result(&mut self, result: NativeDecodeResult) -> (stats: DecodeStats)
        ensures
            final(self)@ == worker_after(old(self)@, result),
            stats == worker_stats(old(self)@, result),
    {
        match result {
            NativeDecodeResult::Decoded => {
                if self.frames_decoded < u64::MAX {
                    self.frames_decoded += 1;
                }
                self.consecutive_failures = 0;
                DecodeStats { frame_produced: true, needs_keyframe: false }
            },
            NativeDecodeResult::Failed | NativeDecodeResult::NotReady => {
                if self.consecutive_failures < u32::MAX {
                    self.consecutive_failures += 1;
                }
                DecodeStats {
                    frame_produced: false,
                    needs_keyframe: is_keyframe_due(
                        self.consecutive_failures,
                        KEYFRAME_REQUEST_THRESHOLD,
                    ),
                }
            },
        }
    }

    /// Whether a failure is worth a log line: the first five in a row, then
    /// every hundredth.
    pub fn should_log_failure(&self) -> (yes: bool)
        ensures
            yes == (self@.consecutive_failures <= 5 || self@.consecutive_failures % 100 == 0),
    {
        self.consecutive_failures <= 5 || self.consecutive_failures % 100 == 0
    }

    /// Whether the worker's decoder decodes HDR.
    pub fn is_hdr(&self) -> (hdr: bool)
        ensures
            hdr == self@.is_hdr,
    {
        self.is_hdr
    }
}

} // verus!
