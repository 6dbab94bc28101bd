//! Video decoder selection and bookkeeping.
//!
//! Platform-specific backends:
//! - Windows: native DXVA or GStreamer D3D11
//! - macOS: GStreamer with VideoToolbox
//! - Linux: GStreamer with V4L2, VA-API or software decoding
//!
//! What the machine offers is found out by the caller; this module scores
//! the GPUs, lists the backends, plans the decoder and counts decode failures
//! until a keyframe has to be asked for.

use vstd::prelude::*;
use crate::media::gstreamer_decoder::{GstCodec, GstDecoderConfig};
use crate::media::{Platform, VideoCodec, VideoDecoderBackend};
use crate::text::{contains, has_substring, lowercase_of, to_lowercase};

verus! {

/// GPU Vendor for decoder optimization
#[derive(Debug, Clone, Copy, PartialEq, Eq, Structural)]
pub enum GpuVendor {
    Nvidia,
    Intel,
    Amd,
    Apple,
    /// Raspberry Pi VideoCore
    Broadcom,
    Other,
    Unknown,
}

/// Kind of a graphics adapter.
#[derive(Debug, Clone, Copy, PartialEq, Eq, Structural)]
pub enum AdapterKind {
    DiscreteGpu,
    IntegratedGpu,
    VirtualGpu,
    Cpu,
    Other,
}

/// What a graphics adapter says of itself.
#[derive(Debug)]
pub struct AdapterInfo {
    pub name: String,
    pub device_type: AdapterKind,
}

/// Vendor that the lowercase name of an enumerated adapter points to.
pub open spec fn vendor_of_name(lower: Seq<char>) -> GpuVendor {
    if has_substring(lower, "nvidia"@) || has_substring(lower, "geforce"@) || has_substring(
        lower,
        "quadro"@,
    ) {
        GpuVendor::Nvidia
    } else if has_substring(lower, "amd"@) || has_substring(lower, "adeon"@) || has_substring(
        lower,
        "ryzen"@,
    ) {
        GpuVendor::Amd
    } else if has_substring(lower, "intel"@) || has_substring(lower, "uhd"@) || has_substring(
        lower,
        "iris"@,
    ) || has_substring(lower, "arc"@) {
        GpuVendor::Intel
    } else if has_substring(lower, "apple"@) || has_substring(lower, "m1"@) || has_substring(
        lower,
        "m2"@,
    ) || has_substring(lower, "m3"@) {
        GpuVendor::Apple
    } else if has_substring(lower, "videocore"@) || has_substring(lower, "broadcom"@)
        || has_substring(lower, "v3d"@) || has_substring(lower, "vc4"@) {
        GpuVendor::Broadcom
    } else {
        GpuVendor::Other
    }
}

/// Vendor that the lowercase name of the default adapter points to.
pub open spec fn default_vendor_of_name(lower: Seq<char>) -> GpuVendor {
    if has_substring(lower, "nvidia"@) {
        GpuVendor::Nvidia
    } else if has_substring(lower, "intel"@) {
        GpuVendor::Intel
    } else if has_substring(lower, "amd"@) {
        GpuVendor::Amd
    } else if has_substring(lower, "apple"@) {
        GpuVendor::Apple
    } else if has_substring(lower, "videocore"@) || has_substring(lower, "broadcom"@)
        || has_substring(lower, "v3d"@) {
        GpuVendor::Broadcom
    } else {
        GpuVendor::Other
    }
}

/// Points for a vendor.
pub open spec fn vendor_points(vendor: GpuVendor) -> int {
    match vendor {
        GpuVendor::Nvidia => 100,
        GpuVendor::Amd => 80,
        GpuVendor::Intel => 50,
        GpuVendor::Apple => 90,
        GpuVendor::Broadcom => 30,
        _ => 0,
    }
}

/// Points for the kind of adapter: discrete GPUs come first.
pub open spec fn kind_points(kind: AdapterKind) -> int {
    match kind {
        AdapterKind::DiscreteGpu => 50,
        AdapterKind::IntegratedGpu => 10,
        _ => 0,
    }
}

/// Score of an adapter.
pub open spec fn adapter_score(adapter: AdapterInfo) -> int {
    vendor_points(vendor_of_name(lowercase_of(adapter.name@))) + kind_points(adapter.device_type)
}

/// Whether adapter `k` is the best: the first one with the highest score.
pub open spec fn is_best_adapter(adapters: Seq<AdapterInfo>, k: int) -> bool {
    &&& 0 <= k < adapters.len()
    &&& forall|j: int|
        0 <= j < adapters.len() ==> adapter_score(#[trigger] adapters[j]) <= adapter_score(
            adapters[k],
        )
    &&& forall|j: int| 0 <= j < k ==> adapter_score(#[trigger] adapters[j]) < adapter_score(adapters[k])
}

/// Vendor and score of an adapter, from its lowercase name and its kind.
pub fn score_adapter(lower_name: &str, kind: AdapterKind) -> (scored: (GpuVendor, i32))
    ensures
        scored.0 == vendor_of_name(lower_name@),
        scored.1 == vendor_points(scored.0) + kind_points(kind),
        0 <= scored.1 <= 150,
{
    let name = lower_name;
    let mut score: i32 = 0;
    let mut vendor = GpuVendor::Other;
    if contains(name, "nvidia") || contains(name, "geforce") || contains(name, "quadro") {
        vendor = GpuVendor::Nvidia;
        score += 100;
    } else if contains(name, "amd") || contains(name, "adeon") || contains(name, "ryzen") {
        vendor = GpuVendor::Amd;
        score += 80;
    } else if contains(name, "intel") || contains(name, "uhd") || contains(name, "iris")
        || contains(name, "arc") {
        vendor = GpuVendor::Intel;
        score += 50;
    } else if contains(name, "apple") || contains(name, "m1") || contains(name, "m2") || contains(
        name,
        "m3",
    ) {
        vendor = GpuVendor::Apple;
        score += 90;
    } else if contains(name, "videocore") || contains(name, "broadcom") || contains(name, "v3d")
        || contains(name, "vc4") {
        vendor = GpuVendor::Broadcom;
        score += 30;
    }
    match kind {
        AdapterKind::DiscreteGpu => {
            score += 50;
        },
        AdapterKind::IntegratedGpu => {
            score += 10;
        },
        _ => {},
    }
    (vendor, score)
}

/// Vendor of the default adapter, from its lowercase name.
pub fn default_adapter_vendor(lower_name: &str) -> (vendor: GpuVendor)
    ensures
        vendor == default_vendor_of_name(lower_name@),
{
    let name = lower_name;
    if contains(name, "nvidia") {
        GpuVendor::Nvidia
    } else if contains(name, "intel") {
        GpuVendor::Intel
    } else if contains(name, "amd") {
        GpuVendor::Amd
    } else if contains(name, "apple") {
        GpuVendor::Apple
    } else if contains(name, "videocore") || contains(name, "broadcom") || contains(name, "v3d") {
        GpuVendor::Broadcom
    } else {
        GpuVendor::Other
    }
}

/// Detect the primary GPU vendor, prioritizing discrete GPUs: the vendor of
/// the best of the enumerated adapters; where none was enumerated, the vendor
/// of the default adapter; `Unknown` where there is none either.
pub fn detect_gpu_vendor(adapters: &Vec<AdapterInfo>, default_adapter: Option<&AdapterInfo>) -> (vendor:
    GpuVendor)
    ensures
        adapters@.len() > 0 ==> exists|k: int|
            is_best_adapter(adapters@, k) && vendor == vendor_of_name(
                lowercase_of(adapters@[k].name@),
            ),
        adapters@.len() == 0 ==> vendor == match default_adapter {
            Some(adapter) => default_vendor_of_name(lowercase_of(adapter.name@)),
            None => GpuVendor::Unknown,
        },
{
    let mut best_score: i32 = -1;
    let mut best_vendor = GpuVendor::Unknown;
    let ghost mut best: int = -1;
    let mut i: usize = 0;
    while i < adapters.len()
        invariant
            0 <= i <= adapters@.len(),
            -1 <= best < i,
            i > 0 ==> best >= 0,
            best < 0 ==> best_score == -1 && best_vendor == GpuVendor::Unknown,
            best >= 0 ==> {
                &&& best_score == adapter_score(adapters@[best])
                &&& best_vendor == vendor_of_name(lowercase_of(adapters@[best].name@))
                &&& forall|j: int|
                    0 <= j < i ==> adapter_score(#[trigger] adapters@[j]) <= adapter_score(
                        adapters@[best],
                    )
                &&& forall|j: int|
                    0 <= j < best ==> adapter_score(#[trigger] adapters@[j]) < adapter_score(
                        adapters@[best],
                    )
            },
        decreases adapters@.len() - i,
    {
        let adapter = &adapters[i];
        let lower = to_lowercase(adapter.name.as_str());
        let (vendor, score) = score_adapter(lower.as_str(), adapter.device_type);
        if score > best_score {
            best_score = score;
            best_vendor = vendor;
            proof {
                best = i as int;
            }
        }
        i += 1;
    }
    if adapters.len() > 0 {
        assert(is_best_adapter(adapters@, best));
        best_vendor
    } else {
        match default_adapter {
            Some(adapter) => {
                let lower = to_lowercase(adapter.name.as_str());
                default_adapter_vendor(lower.as_str())
            },
            None => GpuVendor::Unknown,
        }
    }
}

/// Whether adapter `i` of `adapters` is an Intel one by its name.
pub open spec fn intel_at(adapters: Seq<AdapterInfo>, i: int) -> bool {
    0 <= i < adapters.len() && has_substring(lowercase_of(adapters[i].name@), "intel"@)
}

/// Get the Intel GPU name: the name of the first adapter that is an Intel
/// one by its name, as the adapter spells it; the empty text where there is
/// none.
pub fn get_intel_gpu_name(adapters: &Vec<AdapterInfo>) -> (name: String)
    ensures
        (exists|k: int| intel_at(adapters@, k)) ==> exists|k: int|
            intel_at(adapters@, k) && (forall|j: int| 0 <= j < k ==> !intel_at(adapters@, j))
                && name@ == adapters@[k].name@,
        (forall|k: int| !intel_at(adapters@, k)) ==> name@.len() == 0,
{
    let mut i: usize = 0;
    while i < adapters.len()
        invariant
            i <= adapters@.len(),
            forall|j: int| 0 <= j < i ==> !intel_at(adapters@, j),
        decreases adapters@.len() - i,
    {
        let lower = to_lowercase(adapters[i].name.as_str());
        if contains(lower.as_str(), "intel") {
            assert(intel_at(adapters@, i as int));
            return adapters[i].name.clone();
        }
        i += 1;
    }
    String::new()
}

/// Whether the list of shared libraries names an Intel QSV runtime.
pub open spec fn lists_qsv_runtime(libraries: Seq<char>) -> bool {
    has_substring(libraries, "libmfx"@) || has_substring(libraries, "libvpl"@)
}

/// Check if the Intel QSV runtime is available on a system that is not
/// Windows: only on Intel architectures, and only where the list of shared
/// libraries, if it could be had, names the runtime.
pub fn is_qsv_runtime_available(is_x86: bool, libraries: Option<&str>) -> (available: bool)
    ensures
        available == (is_x86 && match libraries {
            Some(libs) => lists_qsv_runtime(libs@),
            None => false,
        }),
{
    if !is_x86 {
        return false;
    }
    match libraries {
        Some(libs) => contains(libs, "libmfx") || contains(libs, "libvpl"),
        None => false,
    }
}

/// The backends of a platform, between `Auto` and `Software`.
pub open spec fn platform_backends(
    platform: Platform,
    gpu: GpuVendor,
    qsv: bool,
    gstreamer: bool,
) -> Seq<VideoDecoderBackend> {
    let cuvid = if gpu == GpuVendor::Nvidia {
        seq![VideoDecoderBackend::Cuvid]
    } else {
        Seq::empty()
    };
    let quick_sync = if qsv || gpu == GpuVendor::Intel {
        seq![VideoDecoderBackend::Qsv]
    } else {
        Seq::empty()
    };
    match platform {
        Platform::MacOs => seq![VideoDecoderBackend::VideoToolbox],
        Platform::Windows => seq![VideoDecoderBackend::Dxva] + cuvid + quick_sync,
        Platform::Linux => (if gstreamer {
            seq![VideoDecoderBackend::VulkanVideo]
        } else {
            Seq::empty()
        }) + cuvid + quick_sync + seq![VideoDecoderBackend::Vaapi],
    }
}

/// The decoder backends that a system supports, in the order they are
/// offered.
pub open spec fn supported_backends(platform: Platform, gpu: GpuVendor, qsv: bool, gstreamer: bool)
    -> Seq<VideoDecoderBackend> {
    seq![VideoDecoderBackend::Auto] + platform_backends(platform, gpu, qsv, gstreamer)
        + seq![VideoDecoderBackend::Software]
}

/// Get list of supported decoder backends for the current system
pub fn get_supported_decoder_backends(
    platform: Platform,
    gpu: GpuVendor,
    qsv: bool,
    gstreamer: bool,
) -> (backends: Vec<VideoDecoderBackend>)
    ensures
        backends@ == supported_backends(platform, gpu, qsv, gstreamer),
{
    let mut backends: Vec<VideoDecoderBackend> = Vec::new();
    backends.push(VideoDecoderBackend::Auto);
    match platform {
        Platform::MacOs => {
            backends.push(VideoDecoderBackend::VideoToolbox);
        },
        Platform::Windows => {
            backends.push(VideoDecoderBackend::Dxva);
            if gpu == GpuVendor::Nvidia {
                backends.push(VideoDecoderBackend::Cuvid);
            }
            if qsv || gpu == GpuVendor::Intel {
                backends.push(VideoDecoderBackend::Qsv);
            }
        },
        Platform::Linux => {
            if gstreamer {
                backends.push(VideoDecoderBackend::VulkanVideo);
            }
            if gpu == GpuVendor::Nvidia {
                backends.push(VideoDecoderBackend::Cuvid);
            }
            if qsv || gpu == GpuVendor::Intel {
                backends.push(VideoDecoderBackend::Qsv);
            }
            backends.push(VideoDecoderBackend::Vaapi);
        },
    }
    backends.push(VideoDecoderBackend::Software);
    assert(backends@ =~= supported_backends(platform, gpu, qsv, gstreamer));
    backends
}

/// What is reported of one decode call, besides its duration.
#[derive(Debug, Clone, Copy, PartialEq, Eq, Structural)]
pub struct DecodeStats {
    /// Whether a frame was produced
    pub frame_produced: bool,
    /// Whether a keyframe is needed (too many consecutive decode failures)
    pub needs_keyframe: bool,
}

/// What came of pushing one packet into a pipeline.
#[derive(Debug, Clone, Copy, PartialEq, Eq, Structural)]
pub enum DecodeResult {
    /// A frame came out.
    Frame,
    /// No frame yet: the pipeline buffers or reorders.
    NoFrame,
    /// The pipeline failed.
    Failed,
}

/// The GStreamer codec for a stream codec.
pub open spec fn gst_codec_of(codec: VideoCodec) -> GstCodec {
    match codec {
        VideoCodec::H264 => GstCodec::H264,
        VideoCodec::H265 => GstCodec::H265,
        VideoCodec::AV1 => GstCodec::AV1,
    }
}

/// The GStreamer codec for a stream codec.
pub fn gst_codec_for(codec: VideoCodec) -> (gst: GstCodec)
    ensures
        gst == gst_codec_of(codec),
{
    match codec {
        VideoCodec::H264 => GstCodec::H264,
        VideoCodec::H265 => GstCodec::H265,
        VideoCodec::AV1 => GstCodec::AV1,
    }
}

/// Why no decoder can be set up.
#[derive(Debug, Clone, Copy, PartialEq, Eq, Structural)]
pub enum DecoderSetupError {
    /// Video decoding is not supported on Windows ARM64.
    WindowsArm64,
    /// No GStreamer decoder is available on Linux.
    NoDecoderOnLinux,
}

/// The configuration of the GStreamer pipeline for a stream.
pub open spec fn streaming_config(codec: VideoCodec) -> GstDecoderConfig {
    GstDecoderConfig { codec: gst_codec_of(codec), width: 1920, height: 1080, low_latency: true }
}

/// Video decoder on Linux: whether it is hardware accelerated and how many
/// frames it has decoded.
#[derive(Debug)]
pub struct VideoDecoder {
    hw_accel: bool,
    frames_decoded: u64,
    consecutive_failures: u32,
    frames_produced: u64,
}

/// The Linux decoder as contracts see it.
pub struct VideoDecoderModel {
    pub hw_accel: bool,
    /// Frames counted on the caller's side.
    pub frames_decoded: u64,
    /// Consecutive packets without a frame on the worker's side.
    pub consecutive_failures: u32,
    /// Frames produced on the worker's side.
    pub frames_produced: u64,
}

impl View for VideoDecoder {
    type V = VideoDecoderModel;

    closed spec fn view(&self) -> VideoDecoderModel {
        VideoDecoderModel {
            hw_accel: self.hw_accel,
            frames_decoded: self.frames_decoded,
            consecutive_failures: self.consecutive_failures,
            frames_produced: self.frames_produced,
        }
    }
}

/// Consecutive failures after which the Linux worker asks for a keyframe.
pub const LINUX_KEYFRAME_REQUEST_THRESHOLD: u32 = 5;

/// Frames that the Linux worker holds back at the start of a stream.
pub const FRAMES_TO_SKIP: u64 = 5;

/// Failures between two repeated requests for a keyframe while the
/// failure lasts.
pub const KEYFRAME_RETRY_INTERVAL: u32 = 20;

/// One more, but never past the largest value.
pub open spec fn bumped(count: int, max: int) -> int {
    if count < max {
        count + 1
    } else {
        max
    }
}

/// Whether a keyframe is asked for after `failures` packets in a row gave
/// no frame: once when the count reaches the threshold, and again at every
/// multiple of twenty while the failure lasts.
pub open spec fn keyframe_due(failures: u32, threshold: u32) -> bool {
    failures == threshold || (failures > threshold && failures % KEYFRAME_RETRY_INTERVAL == 0)
}

/// Whether a keyframe is asked for after `failures` packets in a row gave
/// no frame.
pub fn is_keyframe_due(failures: u32, threshold: u32) -> (due: bool)
    ensures
        due == keyframe_due(failures, threshold),
{
    failures == threshold || (failures > threshold && failures % KEYFRAME_RETRY_INTERVAL == 0)
}

impl VideoDecoder {
    /// Plan a decoder for non-blocking mode on Linux: the GStreamer pipeline
    /// for the codec where GStreamer is available.
    pub fn new_async(codec: VideoCodec, gstreamer: bool) -> (plan: Result<
        (Self, GstDecoderConfig),
        DecoderSetupError,
    >)
        ensures
            plan is Ok <==> gstreamer,
            plan matches Ok((decoder, config)) ==> config == streaming_config(codec) && decoder@
                == (VideoDecoderModel {
                hw_accel: true,
                frames_decoded: 0,
                consecutive_failures: 0,
                frames_produced: 0,
            }),
            plan matches Err(e) ==> e == DecoderSetupError::NoDecoderOnLinux,
    {
        if !gstreamer {
            return Err(DecoderSetupError::NoDecoderOnLinux);
        }
        let config = GstDecoderConfig {
            codec: gst_codec_for(codec),
            width: 1920,
            height: 1080,
            low_latency: true,
        };
        Ok(
            (
                VideoDecoder {
                    hw_accel: true,
                    frames_decoded: 0,
                    consecutive_failures: 0,
                    frames_produced: 0,
                },
                config,
            ),
        )
    }

    /// Counts the answer to a blocking decode: a frame that came back is one
    /// more frame decoded.
    pub fn decode(&mut self, frame_received: bool)
        ensures
            final(self)@ == (VideoDecoderModel {
                frames_decoded: if frame_received {
                    bumped(old(self)@.frames_decoded as int, u64::MAX as int) as u64
                } else {
                    old(self)@.frames_decoded
                },
                ..old(self)@
            }),
    {
        if frame_received && self.frames_decoded < u64::MAX {
            self.frames_decoded += 1;
        }
    }

    /// Counts a packet that was sent off for decoding, before its frame is
    /// there.
    pub fn decode_async(&mut self)
        ensures
            final(self)@ == (VideoDecoderModel {
                frames_decoded: bumped(old(self)@.frames_decoded as int, u64::MAX as int) as u64,
                ..old(self)@
            }),
    {
        if self.frames_decoded < u64::MAX {
            self.frames_decoded += 1;
        }
    }

    /// On the worker's side: takes in whether a packet produced a frame.
    /// Returns what to report and whether the frame is handed to the
    /// renderer. A keyframe is asked for when the failures in a row reach
    /// the threshold, and again at every twentieth while they last; the
    /// first frames of a stream are held back.
    pub fn record_result(&mut self, frame_produced: bool) -> (out: (DecodeStats, bool))
        ensures
            out.0.frame_produced == frame_produced,
            final(self)@ == (VideoDecoderModel {
                consecutive_failures: if frame_produced {
                    0
                } else {
                    bumped(old(self)@.consecutive_failures as int, u32::MAX as int) as u32
                },
                frames_produced: if frame_produced {
                    bumped(old(self)@.frames_produced as int, u64::MAX as int) as u64
                } else {
                    old(self)@.frames_produced
                },
                ..old(self)@
            }),
            out.0.needs_keyframe == (!frame_produced && keyframe_due(
                final(self)@.consecutive_failures,
                LINUX_KEYFRAME_REQUEST_THRESHOLD,
            )),
            out.1 == (frame_produced && final(self)@.frames_produced > FRAMES_TO_SKIP),
    {
        let needs_keyframe = if frame_produced {
            self.consecutive_failures = 0;
            false
        } else {
            if self.consecutive_failures < u32::MAX {
                self.consecutive_failures += 1;
            }
            is_keyframe_due(self.consecutive_failures, LINUX_KEYFRAME_REQUEST_THRESHOLD)
        };
        let mut deliver = false;
        if frame_produced {
            if self.frames_produced < u64::MAX {
                self.frames_produced += 1;
            }
            deliver = self.frames_produced > FRAMES_TO_SKIP;
        }
        (DecodeStats { frame_produced, needs_keyframe }, deliver)
    }

    /// Check if using hardware acceleration
    pub fn is_hw_accelerated(&self) -> (yes: bool)
        ensures
            yes == self@.hw_accel,
    {
        self.hw_accel
    }

    /// Get number of frames decoded
    pub fn frames_decoded(&self) -> (count: u64)
        ensures
            count == self@.frames_decoded,
    {
        self.frames_decoded
    }
}

/// Consecutive failures after which the GStreamer wrapper asks for a
/// keyframe.
pub const KEYFRAME_REQUEST_THRESHOLD: u32 = 3;

/// Wrapper for the GStreamer decoder with async interface (Windows x64 and
/// macOS): counts frames and consecutive failures.
#[derive(Debug)]
pub struct GStreamerDecoderWrapper {
    frames_decoded: u64,
    /// Track consecutive failures for keyframe request
    consecutive_failures: u32,
}

/// The wrapper as contracts see it.
pub struct WrapperModel {
    pub frames_decoded: u64,
    pub consecutive_failures: u32,
}

impl View for GStreamerDecoderWrapper {
    type V = WrapperModel;

    closed spec fn view(&self) -> WrapperModel {
        WrapperModel {
            frames_decoded: self.frames_decoded,
            consecutive_failures: self.consecutive_failures,
        }
    }
}

/// The wrapper after one packet.
pub open spec fn wrapper_after(m: WrapperModel, result: DecodeResult) -> WrapperModel {
    match result {
        DecodeResult::Frame => WrapperModel {
            frames_decoded: bumped(m.frames_decoded as int, u64::MAX as int) as u64,
            consecutive_failures: 0,
        },
        _ => WrapperModel {
            consecutive_failures: bumped(m.consecutive_failures as int, u32::MAX as int) as u32,
            ..m
        },
    }
}

/// What the wrapper reports of one packet: a packet without a frame,
/// whether the pipeline failed on it or not, asks for a keyframe when one is
/// due.
pub open spec fn wrapper_stats(m: WrapperModel, result: DecodeResult) -> DecodeStats {
    let after = wrapper_after(m, result);
    match result {
        DecodeResult::Frame => DecodeStats { frame_produced: true, needs_keyframe: false },
        _ => DecodeStats {
            frame_produced: false,
            needs_keyframe: keyframe_due(after.consecutive_failures, KEYFRAME_REQUEST_THRESHOLD),
        },
    }
}

impl GStreamerDecoderWrapper {
    /// A wrapper that has decoded nothing yet.
    pub fn new() -> (wrapper: Self)
        ensures
            wrapper@ == (WrapperModel { frames_decoded: 0, consecutive_failures: 0 }),
    {
        GStreamerDecoderWrapper { frames_decoded: 0, consecutive_failures: 0 }
    }

    /// Takes in what came of decoding one packet and says what to report:
    /// a frame resets the failure count; without one the count goes up and a
    /// keyframe is asked for when it is due.
    pub fn decode_async(&mut self, result: DecodeResult) -> (stats: DecodeStats)
        ensures
            final(self)@ == wrapper_after(old(self)@, result),
            stats == wrapper_stats(old(self)@, result),
    {
        match result {
            DecodeResult::Frame => {
                if self.frames_decoded < u64::MAX {
                    self.frames_decoded += 1;
                }
                self.consecutive_failures = 0;
                DecodeStats { frame_produced: true, needs_keyframe: false }
            },
            DecodeResult::NoFrame | DecodeResult::Failed => {
                if self.consecutive_failures < u32::MAX {
                    self.consecutive_failures += 1;
                }
                DecodeStats {
                    frame_produced: false,
                    needs_keyframe: is_keyframe_due(
                        self.consecutive_failures,
                        KEYFRAME_REQUEST_THRESHOLD,
                    ),
                }
            },
        }
    }

    /// Get number of frames decoded
    pub fn frames_decoded(&self) -> (count: u64)
        ensures
            count == self@.frames_decoded,
    {
        self.frames_decoded
    }

    /// Whether the first frame was just decoded.
    pub fn is_first_frame(&self) -> (first: bool)
        ensures
            first == (self@.frames_decoded == 1),
    {
        self.frames_decoded == 1
    }
}

/// Unified video decoder: the GStreamer wrapper on Windows and macOS, the
/// Linux decoder on Linux.
#[derive(Debug)]
pub enum UnifiedVideoDecoder {
    /// GStreamer decoder with hardware acceleration
    GStreamer(GStreamerDecoderWrapper),
    /// Linux decoder (V4L2, VA-API or software through GStreamer)
    Ffmpeg(VideoDecoder),
}

impl UnifiedVideoDecoder {
    /// Plan a unified decoder for a platform: a GStreamer pipeline for the
    /// codec everywhere but on Windows ARM64, and on Linux only where
    /// GStreamer is available.
    pub fn new_async(codec: VideoCodec, platform: Platform, is_arm64: bool, gstreamer: bool) -> (plan:
        Result<(Self, GstDecoderConfig), DecoderSetupError>)
        ensures
            plan is Ok <==> match platform {
                Platform::Windows => !is_arm64,
                Platform::MacOs => true,
                Platform::Linux => gstreamer,
            },
            plan matches Ok((decoder, config)) ==> config == streaming_config(codec) && match platform {
                Platform::Linux => decoder matches UnifiedVideoDecoder::Ffmpeg(d) && d@ == (
                VideoDecoderModel {
                    hw_accel: true,
                    frames_decoded: 0,
                    consecutive_failures: 0,
                    frames_produced: 0,
                }),
                _ => decoder matches UnifiedVideoDecoder::GStreamer(w) && w@ == (WrapperModel {
                    frames_decoded: 0,
                    consecutive_failures: 0,
                }),
            },
            plan matches Err(e) ==> e == match platform {
                Platform::Linux => DecoderSetupError::NoDecoderOnLinux,
                _ => DecoderSetupError::WindowsArm64,
            },
    {
        match platform {
            Platform::Windows => {
                if is_arm64 {
                    return Err(DecoderSetupError::WindowsArm64);
                }
                let config = GstDecoderConfig {
                    codec: gst_codec_for(codec),
                    width: 1920,
                    height: 1080,
                    low_latency: true,
                };
                Ok((UnifiedVideoDecoder::GStreamer(GStreamerDecoderWrapper::new()), config))
            },
            Platform::MacOs => {
                let config = GstDecoderConfig {
                    codec: gst_codec_for(codec),
                    width: 1920,
                    height: 1080,
                    low_latency: true,
                };
                Ok((UnifiedVideoDecoder::GStreamer(GStreamerDecoderWrapper::new()), config))
            },
            Platform::Linux => {
                match VideoDecoder::new_async(codec, gstreamer) {
                    Ok((decoder, config)) => Ok((UnifiedVideoDecoder::Ffmpeg(decoder), config)),
                    Err(e) => Err(e),
                }
            },
        }
    }

    /// Check if using hardware acceleration
    pub fn is_hw_accelerated(&self) -> (yes: bool)
        ensures
            yes == match self {
                UnifiedVideoDecoder::Ffmpeg(decoder) => decoder@.hw_accel,
                UnifiedVideoDecoder::GStreamer(_) => true,
            },
    {
        match self {
            UnifiedVideoDecoder::Ffmpeg(decoder) => decoder.is_hw_accelerated(),
            UnifiedVideoDecoder::GStreamer(_) => true,
        }
    }

    /// Get number of frames decoded
    pub fn frames_decoded(&self) -> (count: u64)
        ensures
            count == match self {
                UnifiedVideoDecoder::Ffmpeg(decoder) => decoder@.frames_decoded,
                UnifiedVideoDecoder::GStreamer(wrapper) => wrapper@.frames_decoded,
            },
    {
        match self {
            UnifiedVideoDecoder::Ffmpeg(decoder) => decoder.frames_decoded(),
            UnifiedVideoDecoder::GStreamer(wrapper) => wrapper.frames_decoded(),
        }
    }
}

} // verus!
