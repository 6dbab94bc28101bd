//! V4L2 video decoder support for Linux (Raspberry Pi).
//!
//! Supported hardware:
//! - Raspberry Pi 4: H.264 decode via bcm2835-codec
//! - Raspberry Pi 5: H.264 and HEVC decode via rpivid
//!
//! The caller reads the machine's description and queries the decoder
//! devices; what this module decides from the answers is which device, which
//! codec and which copy path to use.

use vstd::prelude::*;
use crate::media::byte_layout::copy_range;
use crate::text::{contains, has_substring, lowercase_of, to_lowercase};

verus! {

/// Pixel format of a V4L2 buffer
#[derive(Debug, Clone, Copy, PartialEq, Eq, Structural)]
pub enum V4L2PixelFormat {
    NV12,
    NV21,
    YUV420,
    Unknown,
}

/// Codec of a V4L2 decoder
#[derive(Debug, Clone, Copy, PartialEq, Eq, Structural)]
pub enum V4L2Codec {
    H264,
    HEVC,
}

/// Locked plane data from V4L2 buffer
#[derive(Debug)]
pub struct LockedPlanes {
    pub y_plane: Vec<u8>,
    pub uv_plane: Vec<u8>,
    pub y_stride: u32,
    pub uv_stride: u32,
    pub width: u32,
    pub height: u32,
}

/// Bytes of the luma plane of an NV12 picture.
pub open spec fn nv12_luma_size(width: u32, height: u32) -> int {
    width * height
}

/// Bytes of the interleaved chroma plane of an NV12 picture: half the luma
/// plane.
pub open spec fn nv12_chroma_size(width: u32, height: u32) -> int {
    width * height / 2
}

/// Sizes of the luma and the chroma plane of an NV12 picture, where the
/// luma size fits in 32 bits and both together in the machine's sizes.
pub fn nv12_plane_sizes(width: u32, height: u32) -> (sizes: Option<(usize, usize)>)
    ensures
        sizes is Some <==> nv12_luma_size(width, height) <= u32::MAX && nv12_luma_size(
            width,
            height,
        ) + nv12_chroma_size(width, height) <= usize::MAX,
        sizes matches Some((y_size, uv_size)) ==> y_size == nv12_luma_size(width, height)
            && uv_size == nv12_chroma_size(width, height),
{
    assert(width * height <= 0xFFFF_FFFF * 0xFFFF_FFFF) by (nonlinear_arith)
        requires
            0 <= width <= 0xFFFF_FFFF,
            0 <= height <= 0xFFFF_FFFF,
    ;
    let product: u64 = width as u64 * height as u64;
    if product > 0xFFFF_FFFF {
        return None;
    }
    let total: u64 = product + product / 2;
    if total > usize::MAX as u64 {
        return None;
    }
    Some((product as usize, (product / 2) as usize))
}

/// The planes of an NV12 picture of `width` by `height` whose bytes are
/// `data`, the luma plane first: copies of the two planes with the width as
/// stride. `None` where the sizes do not fit or `data` is not exactly as
/// long as the picture.
pub fn split_nv12_planes(data: &[u8], width: u32, height: u32) -> (planes: Option<LockedPlanes>)
    ensures
        planes is Some <==> nv12_luma_size(width, height) <= u32::MAX && data@.len()
            == nv12_luma_size(width, height) + nv12_chroma_size(width, height),
        planes matches Some(p) ==> {
            &&& p.y_plane@ == data@.subrange(0, nv12_luma_size(width, height))
            &&& p.uv_plane@ == data@.subrange(
                nv12_luma_size(width, height),
                data@.len() as int,
            )
            &&& p.y_stride == width
            &&& p.uv_stride == width
            &&& p.width == width
            &&& p.height == height
        },
{
    let sizes = nv12_plane_sizes(width, height);
    let len: usize = data.len();
    match sizes {
        None => None,
        Some((y_size, uv_size)) => {
            if len != y_size + uv_size {
                return None;
            }
            let y_plane = copy_range(data, 0, y_size);
            let uv_plane = copy_range(data, y_size, len);
            Some(
                LockedPlanes {
                    y_plane,
                    uv_plane,
                    y_stride: width,
                    uv_stride: width,
                    width,
                    height,
                },
            )
        },
    }
}

/// V4L2 buffer from a hardware decoder: a DMA-BUF descriptor with the
/// picture's dimensions.
#[derive(Debug)]
pub struct V4L2BufferWrapper {
    /// DMA-BUF file descriptor
    dmabuf_fd: i32,
    /// Buffer dimensions
    pub width: u32,
    pub height: u32,
    /// Pixel format (NV12 for Pi decoders)
    pub format: V4L2PixelFormat,
    /// Whether we own the descriptor (should close on drop)
    owns_fd: bool,
}

impl V4L2BufferWrapper {
    /// The descriptor that the wrapper holds.
    pub closed spec fn spec_dmabuf_fd(&self) -> i32 {
        self.dmabuf_fd
    }

    /// Whether the wrapper has to close the descriptor.
    pub closed spec fn spec_owns_fd(&self) -> bool {
        self.owns_fd
    }

    /// Width of the picture in the buffer.
    pub closed spec fn spec_width(&self) -> u32 {
        self.width
    }

    /// Height of the picture in the buffer.
    pub closed spec fn spec_height(&self) -> u32 {
        self.height
    }

    /// Pixel format of the picture in the buffer.
    pub closed spec fn spec_format(&self) -> V4L2PixelFormat {
        self.format
    }

    /// Create a wrapper from a DMA-BUF descriptor that the decoder owns
    pub fn new(dmabuf_fd: i32, width: u32, height: u32, format: V4L2PixelFormat) -> (wrapper: Self)
        ensures
            wrapper.spec_dmabuf_fd() == dmabuf_fd,
            wrapper.spec_width() == width,
            wrapper.spec_height() == height,
            wrapper.spec_format() == format,
            !wrapper.spec_owns_fd(),
    {
        V4L2BufferWrapper { dmabuf_fd, width, height, format, owns_fd: false }
    }

    /// Get the DMA-BUF descriptor for import
    #[verifier::when_used_as_spec(spec_dmabuf_fd)]
    pub fn dmabuf_fd(&self) -> (fd: i32)
        ensures
            fd == self.spec_dmabuf_fd(),
    {
        self.dmabuf_fd
    }

    /// Whether the descriptor has to be closed when the wrapper goes: only
    /// a valid descriptor that the wrapper owns.
    pub fn must_close(&self) -> (close: bool)
        ensures
            close == (self.spec_owns_fd() && self.spec_dmabuf_fd() >= 0),
    {
        self.owns_fd && self.dmabuf_fd >= 0
    }

    /// Number of bytes to map for the fallback copy: both planes of the
    /// NV12 picture.
    pub fn mapping_size(&self) -> (size: Option<usize>)
        ensures
            size is Some <==> nv12_luma_size(self.spec_width(), self.spec_height()) <= u32::MAX
                && nv12_luma_size(self.spec_width(), self.spec_height()) + nv12_chroma_size(
                self.spec_width(),
                self.spec_height(),
            ) <= usize::MAX,
            size matches Some(n) ==> n == nv12_luma_size(self.spec_width(), self.spec_height())
                + nv12_chroma_size(self.spec_width(), self.spec_height()),
    {
        match nv12_plane_sizes(self.width, self.height) {
            Some((y_size, uv_size)) => Some(y_size + uv_size),
            None => None,
        }
    }

    /// Copy the planes out of the mapped buffer (fallback path)
    pub fn lock_and_get_planes(&self, mapped: &[u8]) -> (planes: Option<LockedPlanes>)
        ensures
            planes is Some <==> nv12_luma_size(self.spec_width(), self.spec_height()) <= u32::MAX
                && mapped@.len() == nv12_luma_size(self.spec_width(), self.spec_height())
                + nv12_chroma_size(self.spec_width(), self.spec_height()),
            planes matches Some(p) ==> {
                &&& p.y_plane@ == mapped@.subrange(
                    0,
                    nv12_luma_size(self.spec_width(), self.spec_height()),
                )
                &&& p.uv_plane@ == mapped@.subrange(
                    nv12_luma_size(self.spec_width(), self.spec_height()),
                    mapped@.len() as int,
                )
                &&& p.y_stride == self.spec_width()
                &&& p.uv_stride == self.spec_width()
                &&& p.width == self.spec_width()
                &&& p.height == self.spec_height()
            },
    {
        split_nv12_planes(mapped, self.width, self.height)
    }
}

/// What a V4L2 device answers to a capability query.
#[derive(Debug, Clone, Copy)]
pub struct V4l2Capability {
    pub capabilities: u32,
    pub device_caps: u32,
}

/// Capability bit of a memory-to-memory device with multi-planar formats.
pub const V4L2_CAP_VIDEO_M2M_MPLANE: u32 = 0x00004000;

/// Capability bit of a memory-to-memory device.
pub const V4L2_CAP_VIDEO_M2M: u32 = 0x00008000;

impl V4l2Capability {
    /// The capabilities that count: those of the device node where it
    /// reports any, else those of the whole device.
    pub open spec fn effective(self) -> u32 {
        if self.device_caps != 0 {
            self.device_caps
        } else {
            self.capabilities
        }
    }

    /// Whether the device is a memory-to-memory one: one of the two
    /// capability bits, worth 0x4000 and 0x8000, is set.
    pub open spec fn spec_is_m2m(self) -> bool {
        self.effective() / 0x4000 % 4 != 0
    }

    /// Whether the device is a memory-to-memory one.
    pub fn is_m2m(&self) -> (yes: bool)
        ensures
            yes == self.spec_is_m2m(),
    {
        let caps: u32 = if self.device_caps != 0 {
            self.device_caps
        } else {
            self.capabilities
        };
        assert(((caps & 0x00008000) != 0 || (caps & 0x00004000) != 0) == (caps / 0x4000 % 4 != 0))
            by (bit_vector);
        (caps & V4L2_CAP_VIDEO_M2M) != 0 || (caps & V4L2_CAP_VIDEO_M2M_MPLANE) != 0
    }
}

/// What the machine said of itself: the device tree's model text and the
/// processor description, each `None` where it could not be read, and the
/// answer of each decoder device in search order, `None` where the device is
/// missing or did not answer.
#[derive(Debug)]
pub struct V4l2System {
    pub model: Option<String>,
    pub cpuinfo: Option<String>,
    pub h264_devices: Vec<Option<V4l2Capability>>,
    pub hevc_devices: Vec<Option<V4l2Capability>>,
}

/// Number of device paths that are searched for a codec.
pub open spec fn search_path_count(codec: V4L2Codec) -> int {
    match codec {
        V4L2Codec::H264 => 3,
        V4L2Codec::HEVC => 2,
    }
}

/// Device path number `i` in the search order of a codec.
pub open spec fn search_path(codec: V4L2Codec, i: int) -> Seq<char> {
    match codec {
        V4L2Codec::H264 => if i == 0 {
            "/dev/video10"@
        } else if i == 1 {
            "/dev/video11"@
        } else {
            "/dev/video19"@
        },
        V4L2Codec::HEVC => if i == 0 {
            "/dev/video19"@
        } else {
            "/dev/video10"@
        },
    }
}

/// Whether the machine's description names a Raspberry Pi: the model text
/// where there is one, else a Broadcom processor of the Pi family.
pub open spec fn describes_raspberry_pi(model: Option<Seq<char>>, cpuinfo: Option<Seq<char>>) -> bool {
    match model {
        Some(m) => has_substring(lowercase_of(m), "raspberry pi"@),
        None => match cpuinfo {
            Some(c) => has_substring(lowercase_of(c), "bcm2835"@) || has_substring(
                lowercase_of(c),
                "bcm2711"@,
            ) || has_substring(lowercase_of(c), "bcm2712"@),
            None => false,
        },
    }
}

/// Raspberry Pi model that a model text names: 5, 4 or 3, or 0 for a Pi of
/// another generation.
pub open spec fn pi_model_of(model: Option<Seq<char>>) -> Option<u8> {
    match model {
        Some(m) => if has_substring(m, "Raspberry Pi 5"@) {
            Some(5u8)
        } else if has_substring(m, "Raspberry Pi 4"@) {
            Some(4u8)
        } else if has_substring(m, "Raspberry Pi 3"@) {
            Some(3u8)
        } else if has_substring(m, "Raspberry Pi"@) {
            Some(0u8)
        } else {
            None
        },
        None => None,
    }
}

/// The view of an optional text.
pub open spec fn text_of(text: Option<String>) -> Option<Seq<char>> {
    match text {
        Some(t) => Some(t@),
        None => None,
    }
}

/// Whether device `i` of `devices` answered as a memory-to-memory device.
pub open spec fn answers_m2m(devices: Seq<Option<V4l2Capability>>, i: int) -> bool {
    0 <= i < devices.len() && devices[i] is Some && devices[i]->0.spec_is_m2m()
}

/// Whether `i` is the first device in the search order of `codec` that
/// answered as a memory-to-memory device.
pub open spec fn is_first_decoder(codec: V4L2Codec, devices: Seq<Option<V4l2Capability>>, i: int)
    -> bool {
    &&& 0 <= i < search_path_count(codec)
    &&& answers_m2m(devices, i)
    &&& forall|j: int| 0 <= j < i ==> !answers_m2m(devices, j)
}

/// Detect if running on Raspberry Pi, from the lowercase forms of what could
/// be read.
pub fn is_raspberry_pi_lowercase(model_lower: Option<&str>, cpuinfo_lower: Option<&str>) -> (yes:
    bool)
    ensures
        yes == match model_lower {
            Some(m) => has_substring(m@, "raspberry pi"@),
            None => match cpuinfo_lower {
                Some(c) => has_substring(c@, "bcm2835"@) || has_substring(c@, "bcm2711"@)
                    || has_substring(c@, "bcm2712"@),
                None => false,
            },
        },
{
    match model_lower {
        Some(m) => contains(m, "raspberry pi"),
        None => match cpuinfo_lower {
            Some(c) => contains(c, "bcm2835") || contains(c, "bcm2711") || contains(c, "bcm2712"),
            None => false,
        },
    }
}

/// Detect if running on Raspberry Pi
pub fn is_raspberry_pi(system: &V4l2System) -> (yes: bool)
    ensures
        yes == describes_raspberry_pi(text_of(system.model), text_of(system.cpuinfo)),
{
    match &system.model {
        Some(m) => {
            let lower = to_lowercase(m.as_str());
            is_raspberry_pi_lowercase(Some(lower.as_str()), None)
        },
        None => match &system.cpuinfo {
            Some(c) => {
                let lower = to_lowercase(c.as_str());
                is_raspberry_pi_lowercase(None, Some(lower.as_str()))
            },
            None => false,
        },
    }
}

/// Get Raspberry Pi model (4, 5, etc.)
pub fn get_pi_model(system: &V4l2System) -> (model: Option<u8>)
    ensures
        model == pi_model_of(text_of(system.model)),
{
    match &system.model {
        Some(m) => {
            let text = m.as_str();
            if contains(text, "Raspberry Pi 5") {
                Some(5)
            } else if contains(text, "Raspberry Pi 4") {
                Some(4)
            } else if contains(text, "Raspberry Pi 3") {
                Some(3)
            } else if contains(text, "Raspberry Pi") {
                Some(0)
            } else {
                None
            }
        },
        None => None,
    }
}

/// The device paths that are searched for a codec, in order.
pub fn decoder_search_paths(codec: V4L2Codec) -> (paths: Vec<&'static str>)
    ensures
        paths@.len() == search_path_count(codec),
        forall|i: int| 0 <= i < paths@.len() ==> (#[trigger] paths@[i])@ == search_path(codec, i),
{
    let mut paths: Vec<&'static str> = Vec::new();
    match codec {
        V4L2Codec::H264 => {
            paths.push("/dev/video10");
            paths.push("/dev/video11");
            paths.push("/dev/video19");
        },
        V4L2Codec::HEVC => {
            paths.push("/dev/video19");
            paths.push("/dev/video10");
        },
    }
    paths
}

/// Find the V4L2 M2M decoder device for the given codec: the first device
/// in search order that answered as a memory-to-memory device.
pub fn find_v4l2_decoder_device(system: &V4l2System, codec: V4L2Codec) -> (device: Option<String>)
    ensures
        device matches Some(path) ==> exists|i: int|
            is_first_decoder(codec, devices_of(*system, codec), i) && path@ == search_path(codec, i),
        device is None ==> forall|i: int|
            0 <= i < search_path_count(codec) ==> !answers_m2m(devices_of(*system, codec), i),
{
    let paths = decoder_search_paths(codec);
    let devices = match codec {
        V4L2Codec::H264 => &system.h264_devices,
        V4L2Codec::HEVC => &system.hevc_devices,
    };
    let mut i: usize = 0;
    while i < paths.len()
        invariant
            0 <= i <= paths@.len(),
            paths@.len() == search_path_count(codec),
            forall|k: int| 0 <= k < paths@.len() ==> (#[trigger] paths@[k])@ == search_path(codec, k),
            devices@ == devices_of(*system, codec),
            forall|j: int| 0 <= j < i ==> !answers_m2m(devices@, j),
        decreases paths@.len() - i,
    {
        if i < devices.len() {
            match &devices[i] {
                Some(capability) => {
                    if capability.is_m2m() {
                        let path = String::from_str(paths[i]);
                        assert(is_first_decoder(codec, devices@, i as int));
                        return Some(path);
                    }
                },
                None => {},
            }
        }
        i += 1;
    }
    None
}

/// The answers of the devices that are searched for a codec.
pub open spec fn devices_of(system: V4l2System, codec: V4L2Codec) -> Seq<Option<V4l2Capability>> {
    match codec {
        V4L2Codec::H264 => system.h264_devices@,
        V4L2Codec::HEVC => system.hevc_devices@,
    }
}

/// Whether V4L2 decoding of `codec` is available: the machine is a
/// Raspberry Pi and one of the codec's devices is a memory-to-memory device.
pub open spec fn v4l2_available(system: V4l2System, codec: V4L2Codec) -> bool {
    describes_raspberry_pi(text_of(system.model), text_of(system.cpuinfo)) && exists|i: int|
        0 <= i < search_path_count(codec) && answers_m2m(devices_of(system, codec), i)
}

/// The codec that is recommended for the machine: HEVC before H.264 on a
/// Pi 5, H.264 on a Pi 4 or 3, each only where it is available.
pub open spec fn recommended_codec(system: V4l2System) -> Option<V4L2Codec> {
    let model = pi_model_of(text_of(system.model));
    if model == Some(5u8) {
        if v4l2_available(system, V4L2Codec::HEVC) {
            Some(V4L2Codec::HEVC)
        } else if v4l2_available(system, V4L2Codec::H264) {
            Some(V4L2Codec::H264)
        } else {
            None
        }
    } else if model == Some(4u8) || model == Some(3u8) {
        if v4l2_available(system, V4L2Codec::H264) {
            Some(V4L2Codec::H264)
        } else {
            None
        }
    } else {
        None
    }
}

/// Manager for V4L2 zero-copy buffers
#[derive(Debug)]
pub struct V4L2ZeroCopyManager {
    enabled: bool,
    pi_model: Option<u8>,
}

impl V4L2ZeroCopyManager {
    /// Whether zero-copy is on.
    pub closed spec fn spec_is_enabled(&self) -> bool {
        self.enabled
    }

    /// The Raspberry Pi model that was detected.
    pub closed spec fn spec_pi_model(&self) -> Option<u8> {
        self.pi_model
    }

    /// A manager for the machine: zero-copy is on where a Raspberry Pi was
    /// detected.
    pub fn new(system: &V4l2System) -> (manager: Self)
        ensures
            manager.spec_pi_model() == pi_model_of(text_of(system.model)),
            manager.spec_is_enabled() == (pi_model_of(text_of(system.model)) is Some),
    {
        let pi_model = get_pi_model(system);
        V4L2ZeroCopyManager { enabled: pi_model.is_some(), pi_model }
    }

    #[verifier::when_used_as_spec(spec_is_enabled)]
    pub fn is_enabled(&self) -> (enabled: bool)
        ensures
            enabled == self.spec_is_enabled(),
    {
        self.enabled
    }

    #[verifier::when_used_as_spec(spec_pi_model)]
    pub fn pi_model(&self) -> (model: Option<u8>)
        ensures
            model == self.spec_pi_model(),
    {
        self.pi_model
    }

    /// Falls back to the CPU path for good.
    pub fn disable(&mut self)
        ensures
            !final(self).spec_is_enabled(),
            final(self).spec_pi_model() == old(self).spec_pi_model(),
    {
        self.enabled = false;
    }
}

/// Check if V4L2 M2M decoding is available for the given codec
pub fn is_v4l2_available(system: &V4l2System, codec: V4L2Codec) -> (available: bool)
    ensures
        available == v4l2_available(*system, codec),
{
    if !is_raspberry_pi(system) {
        return false;
    }
    find_v4l2_decoder_device(system, codec).is_some()
}

/// Get recommended video codec for this Raspberry Pi
pub fn get_recommended_codec(system: &V4l2System) -> (codec: Option<V4L2Codec>)
    ensures
        codec == recommended_codec(*system),
{
    match get_pi_model(system) {
        Some(5) => {
            if is_v4l2_available(system, V4L2Codec::HEVC) {
                Some(V4L2Codec::HEVC)
            } else if is_v4l2_available(system, V4L2Codec::H264) {
                Some(V4L2Codec::H264)
            } else {
                None
            }
        },
        Some(4) | Some(3) => {
            if is_v4l2_available(system, V4L2Codec::H264) {
                Some(V4L2Codec::H264)
            } else {
                None
            }
        },
        _ => None,
    }
}

} // verus!
