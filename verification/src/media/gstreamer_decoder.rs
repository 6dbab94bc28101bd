//! GStreamer video decoder: which pipeline to build and what its samples
//! mean.
//!
//! Platform support:
//! - Windows: H.264/H.265/AV1 via D3D11 hardware acceleration
//! - macOS: H.264/H.265/AV1 via VideoToolbox (vtdec)
//! - Linux (Raspberry Pi): H.264/HEVC/AV1 via V4L2
//! - Linux (Desktop): H.264/HEVC/AV1 via VA-API
//!
//! The pipeline itself is run by the caller, who reports which elements the
//! plugin registry holds.

use vstd::prelude::*;
use crate::media::byte_layout::copy_range;
use crate::media::{ColorRange, ColorSpace, PixelFormat, Platform, TransferFunction, VideoFrame};
use crate::text::{contains, has_substring};

verus! {

/// GStreamer codec type
#[derive(Debug, Clone, Copy, PartialEq, Eq, Structural)]
pub enum GstCodec {
    H264,
    H265,
    AV1,
}

/// Which elements the plugin registry holds.
#[derive(Debug, Clone, Copy)]
pub struct GstRegistry {
    pub h264parse: bool,
    pub h265parse: bool,
    pub av1parse: bool,
    pub d3d11h264dec: bool,
    pub d3d11h265dec: bool,
    pub d3d11av1dec: bool,
    pub vtdec: bool,
    pub v4l2h264dec: bool,
    pub v4l2h265dec: bool,
    pub v4l2av1dec: bool,
    pub vah264dec: bool,
    pub vah265dec: bool,
    pub vaav1dec: bool,
    pub vaapih264dec: bool,
    pub vaapih265dec: bool,
    pub vaapiav1dec: bool,
    pub avdec_h264: bool,
    pub avdec_h265: bool,
    pub av1dec: bool,
}

/// Family of Linux hardware decoders.
#[derive(Debug, Clone, Copy, PartialEq, Eq, Structural)]
pub enum LinuxDecoderFamily {
    /// Raspberry Pi and embedded devices
    V4l2,
    /// The newer VA plugin for Intel and AMD
    Va,
    /// The legacy VAAPI plugin
    Vaapi,
}

impl GstCodec {
    /// Capabilities of the stream that is pushed into the pipeline.
    pub open spec fn spec_caps_string(self) -> Seq<char> {
        match self {
            GstCodec::H264 => "video/x-h264,stream-format=byte-stream,alignment=au"@,
            GstCodec::H265 => "video/x-h265,stream-format=byte-stream,alignment=au"@,
            GstCodec::AV1 => "video/x-av1,stream-format=obu-stream,alignment=tu"@,
        }
    }

    /// Name of the parser element.
    pub open spec fn spec_parser_element(self) -> Seq<char> {
        match self {
            GstCodec::H264 => "h264parse"@,
            GstCodec::H265 => "h265parse"@,
            GstCodec::AV1 => "av1parse"@,
        }
    }

    /// Name of the platform's hardware decoder element.
    pub open spec fn spec_decoder_element(self, platform: Platform) -> Seq<char> {
        match platform {
            Platform::Windows => match self {
                GstCodec::H264 => "d3d11h264dec"@,
                GstCodec::H265 => "d3d11h265dec"@,
                GstCodec::AV1 => "d3d11av1dec"@,
            },
            Platform::MacOs => "vtdec"@,
            Platform::Linux => match self {
                GstCodec::H264 => "v4l2h264dec"@,
                GstCodec::H265 => "v4l2h265dec"@,
                GstCodec::AV1 => "v4l2av1dec"@,
            },
        }
    }

    /// Name of the software decoder element.
    pub open spec fn spec_software_decoder(self) -> Seq<char> {
        match self {
            GstCodec::H264 => "avdec_h264"@,
            GstCodec::H265 => "avdec_h265"@,
            GstCodec::AV1 => "av1dec"@,
        }
    }

    /// Name of the Linux hardware decoder element of a family.
    pub open spec fn spec_linux_decoder(self, family: LinuxDecoderFamily) -> Seq<char> {
        match family {
            LinuxDecoderFamily::V4l2 => match self {
                GstCodec::H264 => "v4l2h264dec"@,
                GstCodec::H265 => "v4l2h265dec"@,
                GstCodec::AV1 => "v4l2av1dec"@,
            },
            LinuxDecoderFamily::Va => match self {
                GstCodec::H264 => "vah264dec"@,
                GstCodec::H265 => "vah265dec"@,
                GstCodec::AV1 => "vaav1dec"@,
            },
            LinuxDecoderFamily::Vaapi => match self {
                GstCodec::H264 => "vaapih264dec"@,
                GstCodec::H265 => "vaapih265dec"@,
                GstCodec::AV1 => "vaapiav1dec"@,
            },
        }
    }

    pub fn caps_string(&self) -> (caps: &'static str)
        ensures
            caps@ == self.spec_caps_string(),
    {
        match self {
            GstCodec::H264 => "video/x-h264,stream-format=byte-stream,alignment=au",
            GstCodec::H265 => "video/x-h265,stream-format=byte-stream,alignment=au",
            GstCodec::AV1 => "video/x-av1,stream-format=obu-stream,alignment=tu",
        }
    }

    pub fn parser_element(&self) -> (name: &'static str)
        ensures
            name@ == self.spec_parser_element(),
    {
        match self {
            GstCodec::H264 => "h264parse",
            GstCodec::H265 => "h265parse",
            GstCodec::AV1 => "av1parse",
        }
    }

    /// Get the best available decoder element for this codec on a platform
    pub fn decoder_element(&self, platform: Platform) -> (name: &'static str)
        ensures
            name@ == self.spec_decoder_element(platform),
    {
        match platform {
            Platform::Windows => match self {
                GstCodec::H264 => "d3d11h264dec",
                GstCodec::H265 => "d3d11h265dec",
                GstCodec::AV1 => "d3d11av1dec",
            },
            Platform::MacOs => "vtdec",
            Platform::Linux => match self {
                GstCodec::H264 => "v4l2h264dec",
                GstCodec::H265 => "v4l2h265dec",
                GstCodec::AV1 => "v4l2av1dec",
            },
        }
    }

    /// Get fallback software decoder
    pub fn software_decoder(&self) -> (name: &'static str)
        ensures
            name@ == self.spec_software_decoder(),
    {
        match self {
            GstCodec::H264 => "avdec_h264",
            GstCodec::H265 => "avdec_h265",
            GstCodec::AV1 => "av1dec",
        }
    }

    /// Name of the Linux hardware decoder element of a family
    pub fn linux_decoder(&self, family: LinuxDecoderFamily) -> (name: &'static str)
        ensures
            name@ == self.spec_linux_decoder(family),
    {
        match family {
            LinuxDecoderFamily::V4l2 => match self {
                GstCodec::H264 => "v4l2h264dec",
                GstCodec::H265 => "v4l2h265dec",
                GstCodec::AV1 => "v4l2av1dec",
            },
            LinuxDecoderFamily::Va => match self {
                GstCodec::H264 => "vah264dec",
                GstCodec::H265 => "vah265dec",
                GstCodec::AV1 => "vaav1dec",
            },
            LinuxDecoderFamily::Vaapi => match self {
                GstCodec::H264 => "vaapih264dec",
                GstCodec::H265 => "vaapih265dec",
                GstCodec::AV1 => "vaapiav1dec",
            },
        }
    }
}

impl GstRegistry {
    /// Whether the registry holds the parser of a codec.
    pub open spec fn has_parser(self, codec: GstCodec) -> bool {
        match codec {
            GstCodec::H264 => self.h264parse,
            GstCodec::H265 => self.h265parse,
            GstCodec::AV1 => self.av1parse,
        }
    }

    /// Whether the registry holds the platform's hardware decoder of a
    /// codec.
    pub open spec fn has_hw_decoder(self, codec: GstCodec, platform: Platform) -> bool {
        match platform {
            Platform::Windows => match codec {
                GstCodec::H264 => self.d3d11h264dec,
                GstCodec::H265 => self.d3d11h265dec,
                GstCodec::AV1 => self.d3d11av1dec,
            },
            Platform::MacOs => self.vtdec,
            Platform::Linux => self.has_linux_decoder(codec, LinuxDecoderFamily::V4l2),
        }
    }

    /// Whether the registry holds the Linux hardware decoder of a codec in
    /// a family.
    pub open spec fn has_linux_decoder(self, codec: GstCodec, family: LinuxDecoderFamily) -> bool {
        match family {
            LinuxDecoderFamily::V4l2 => match codec {
                GstCodec::H264 => self.v4l2h264dec,
                GstCodec::H265 => self.v4l2h265dec,
                GstCodec::AV1 => self.v4l2av1dec,
            },
            LinuxDecoderFamily::Va => match codec {
                GstCodec::H264 => self.vah264dec,
                GstCodec::H265 => self.vah265dec,
                GstCodec::AV1 => self.vaav1dec,
            },
            LinuxDecoderFamily::Vaapi => match codec {
                GstCodec::H264 => self.vaapih264dec,
                GstCodec::H265 => self.vaapih265dec,
                GstCodec::AV1 => self.vaapiav1dec,
            },
        }
    }

    /// Whether the registry holds the parser of a codec.
    pub fn parser_available(&self, codec: GstCodec) -> (yes: bool)
        ensures
            yes == self.has_parser(codec),
    {
        match codec {
            GstCodec::H264 => self.h264parse,
            GstCodec::H265 => self.h265parse,
            GstCodec::AV1 => self.av1parse,
        }
    }

    /// Whether the registry holds the Linux hardware decoder of a codec in
    /// a family.
    pub fn linux_decoder_available(&self, codec: GstCodec, family: LinuxDecoderFamily) -> (yes: bool)
        ensures
            yes == self.has_linux_decoder(codec, family),
    {
        match family {
            LinuxDecoderFamily::V4l2 => match codec {
                GstCodec::H264 => self.v4l2h264dec,
                GstCodec::H265 => self.v4l2h265dec,
                GstCodec::AV1 => self.v4l2av1dec,
            },
            LinuxDecoderFamily::Va => match codec {
                GstCodec::H264 => self.vah264dec,
                GstCodec::H265 => self.vah265dec,
                GstCodec::AV1 => self.vaav1dec,
            },
            LinuxDecoderFamily::Vaapi => match codec {
                GstCodec::H264 => self.vaapih264dec,
                GstCodec::H265 => self.vaapih265dec,
                GstCodec::AV1 => self.vaapiav1dec,
            },
        }
    }

    /// Whether the registry holds the platform's hardware decoder of a
    /// codec.
    pub fn hw_decoder_available(&self, codec: GstCodec, platform: Platform) -> (yes: bool)
        ensures
            yes == self.has_hw_decoder(codec, platform),
    {
        match platform {
            Platform::Windows => match codec {
                GstCodec::H264 => self.d3d11h264dec,
                GstCodec::H265 => self.d3d11h265dec,
                GstCodec::AV1 => self.d3d11av1dec,
            },
            Platform::MacOs => self.vtdec,
            Platform::Linux => self.linux_decoder_available(codec, LinuxDecoderFamily::V4l2),
        }
    }
}

/// GStreamer decoder configuration
#[derive(Debug, Clone, Copy)]
pub struct GstDecoderConfig {
    pub codec: GstCodec,
    pub width: u32,
    pub height: u32,
    /// Enable low latency mode (minimize buffering)
    pub low_latency: bool,
}

impl Default for GstDecoderConfig {
    /// H.264 at 1920 by 1080 with low latency, as streaming wants it.
    fn default() -> (config: Self)
        ensures
            config == (GstDecoderConfig {
                codec: GstCodec::H264,
                width: 1920,
                height: 1080,
                low_latency: true,
            }),
    {
        GstDecoderConfig { codec: GstCodec::H264, width: 1920, height: 1080, low_latency: true }
    }
}

/// Why no pipeline could be built.
#[derive(Debug, Clone, Copy, PartialEq, Eq, Structural)]
pub enum PipelineError {
    /// The registry does not hold the parser element of this codec.
    ParserNotFound(GstCodec),
}

/// Options of the sink: one buffer that drops old frames for low latency,
/// two buffers that keep them otherwise; never synchronised to the clock.
pub open spec fn sink_options(low_latency: bool) -> Seq<char> {
    if low_latency {
        "max-buffers=1 drop=true sync=false wait-on-eos=false"@
    } else {
        "max-buffers=2 drop=false sync=false wait-on-eos=false"@
    }
}

/// The decoder element that the pipeline uses, whether a download from the
/// GPU follows it, and whether the conversion runs on four threads instead
/// of two: the platform's hardware decoder where the registry holds it (on
/// Linux the first family that it holds, V4L2 before VA before VAAPI), else
/// the software decoder on four threads.
pub open spec fn decoder_choice(codec: GstCodec, platform: Platform, registry: GstRegistry) -> (
    Seq<char>,
    bool,
    bool,
) {
    match platform {
        Platform::Windows => if registry.has_hw_decoder(codec, platform) {
            (codec.spec_decoder_element(platform), true, false)
        } else {
            (codec.spec_software_decoder(), false, true)
        },
        Platform::MacOs => if registry.has_hw_decoder(codec, platform) {
            ("vtdec"@, false, false)
        } else {
            (codec.spec_software_decoder(), false, true)
        },
        Platform::Linux => if registry.has_linux_decoder(codec, LinuxDecoderFamily::V4l2) {
            (codec.spec_linux_decoder(LinuxDecoderFamily::V4l2), false, false)
        } else if registry.has_linux_decoder(codec, LinuxDecoderFamily::Va) {
            (codec.spec_linux_decoder(LinuxDecoderFamily::Va), false, false)
        } else if registry.has_linux_decoder(codec, LinuxDecoderFamily::Vaapi) {
            (codec.spec_linux_decoder(LinuxDecoderFamily::Vaapi), false, false)
        } else {
            (codec.spec_software_decoder(), false, true)
        },
    }
}

/// The text of a pipeline: source, parser, decoder, download where asked,
/// conversion to NV12, sink.
pub open spec fn pipeline_text(
    parser: Seq<char>,
    decoder: Seq<char>,
    download: bool,
    four_threads: bool,
    sink_opts: Seq<char>,
) -> Seq<char> {
    "appsrc name=src is-live=true format=time do-timestamp=true max-buffers=1 ! "@ + parser + " ! "@
        + decoder + (if download {
        " ! d3d11download"@
    } else {
        ""@
    }) + (if four_threads {
        " ! videoconvert n-threads=4"@
    } else {
        " ! videoconvert n-threads=2"@
    }) + " ! video/x-raw,format=NV12 ! appsink name=sink emit-signals=true "@ + sink_opts
}

/// The pipeline for a configuration on a platform with a registry.
pub open spec fn pipeline_for(config: GstDecoderConfig, platform: Platform, registry: GstRegistry)
    -> Result<Seq<char>, PipelineError> {
    if !registry.has_parser(config.codec) {
        Err(PipelineError::ParserNotFound(config.codec))
    } else {
        let choice = decoder_choice(config.codec, platform, registry);
        Ok(
            pipeline_text(
                config.codec.spec_parser_element(),
                choice.0,
                choice.1,
                choice.2,
                sink_options(config.low_latency),
            ),
        )
    }
}

/// Installation hint for a missing parser element.
pub fn parser_hint(codec: GstCodec) -> (hint: &'static str)
    ensures
        hint@ == match codec {
            GstCodec::AV1 => "On Ubuntu/Debian: sudo apt install gstreamer1.0-plugins-bad (version 1.18+)\n  On Fedora: sudo dnf install gstreamer1-plugins-bad-free\n  On Arch: sudo pacman -S gst-plugins-bad"@,
            _ => "On Ubuntu/Debian: sudo apt install gstreamer1.0-plugins-bad\n  On Fedora: sudo dnf install gstreamer1-plugins-bad-free\n  On Arch: sudo pacman -S gst-plugins-bad"@,
        },
{
    match codec {
        GstCodec::AV1 => "On Ubuntu/Debian: sudo apt install gstreamer1.0-plugins-bad (version 1.18+)\n  On Fedora: sudo dnf install gstreamer1-plugins-bad-free\n  On Arch: sudo pacman -S gst-plugins-bad",
        _ => "On Ubuntu/Debian: sudo apt install gstreamer1.0-plugins-bad\n  On Fedora: sudo dnf install gstreamer1-plugins-bad-free\n  On Arch: sudo pacman -S gst-plugins-bad",
    }
}

/// Joins the parts of a pipeline.
fn join_pipeline(
    parser: &str,
    decoder: &str,
    download: bool,
    four_threads: bool,
    sink_opts: &str,
) -> (text: String)
    ensures
        text@ == pipeline_text(parser@, decoder@, download, four_threads, sink_opts@),
{
    let mut text = String::from_str(
        "appsrc name=src is-live=true format=time do-timestamp=true max-buffers=1 ! ",
    );
    text.append(parser);
    text.append(" ! ");
    text.append(decoder);
    text.append(
        if download {
            " ! d3d11download"
        } else {
            ""
        },
    );
    text.append(
        if four_threads {
            " ! videoconvert n-threads=4"
        } else {
            " ! videoconvert n-threads=2"
        },
    );
    text.append(" ! video/x-raw,format=NV12 ! appsink name=sink emit-signals=true ");
    text.append(sink_opts);
    text
}

/// Build the GStreamer pipeline string for a platform, from what the
/// registry holds.
pub fn build_pipeline_string(config: &GstDecoderConfig, platform: Platform, registry: &GstRegistry)
    -> (pipeline: Result<String, PipelineError>)
    ensures
        pipeline is Ok <==> registry.has_parser(config.codec),
        match pipeline {
            Ok(text) => Ok::<Seq<char>, PipelineError>(text@) == pipeline_for(
                *config,
                platform,
                *registry,
            ),
            Err(e) => Err::<Seq<char>, PipelineError>(e) == pipeline_for(*config, platform, *registry),
        },
{
    let codec = config.codec;
    let parser = codec.parser_element();
    let sink_opts = if config.low_latency {
        "max-buffers=1 drop=true sync=false wait-on-eos=false"
    } else {
        "max-buffers=2 drop=false sync=false wait-on-eos=false"
    };
    if !registry.parser_available(codec) {
        return Err(PipelineError::ParserNotFound(codec));
    }
    let hw_decoder_available = registry.hw_decoder_available(codec, platform);
    let sw_decoder = codec.software_decoder();
    match platform {
        Platform::Windows => {
            if hw_decoder_available {
                Ok(join_pipeline(parser, codec.decoder_element(platform), true, false, sink_opts))
            } else {
                Ok(join_pipeline(parser, sw_decoder, false, true, sink_opts))
            }
        },
        Platform::MacOs => {
            if hw_decoder_available {
                Ok(join_pipeline(parser, "vtdec", false, false, sink_opts))
            } else {
                Ok(join_pipeline(parser, sw_decoder, false, true, sink_opts))
            }
        },
        Platform::Linux => {
            if registry.linux_decoder_available(codec, LinuxDecoderFamily::V4l2) {
                Ok(
                    join_pipeline(
                        parser,
                        codec.linux_decoder(LinuxDecoderFamily::V4l2),
                        false,
                        false,
                        sink_opts,
                    ),
                )
            } else if registry.linux_decoder_available(codec, LinuxDecoderFamily::Va) {
                Ok(
                    join_pipeline(
                        parser,
                        codec.linux_decoder(LinuxDecoderFamily::Va),
                        false,
                        false,
                        sink_opts,
                    ),
                )
            } else if registry.linux_decoder_available(codec, LinuxDecoderFamily::Vaapi) {
                Ok(
                    join_pipeline(
                        parser,
                        codec.linux_decoder(LinuxDecoderFamily::Vaapi),
                        false,
                        false,
                        sink_opts,
                    ),
                )
            } else {
                Ok(join_pipeline(parser, sw_decoder, false, true, sink_opts))
            }
        },
    }
}

/// Whether GStreamer decoding is available on a platform: the library is
/// initialised and the registry holds a decoder that the platform can use.
pub open spec fn gstreamer_available(platform: Platform, initialized: bool, r: GstRegistry) -> bool {
    initialized && match platform {
        Platform::Windows => r.d3d11h264dec || r.d3d11h265dec || r.d3d11av1dec || r.avdec_h264
            || r.av1dec,
        Platform::MacOs => (r.vtdec || r.avdec_h264 || r.avdec_h265 || r.av1dec) && r.h264parse,
        Platform::Linux => r.v4l2h264dec || r.v4l2h265dec || r.v4l2av1dec || r.vah264dec
            || r.vah265dec || r.vaav1dec || r.vaapih264dec || r.vaapih265dec || r.avdec_h264
            || r.avdec_h265 || r.av1dec,
    }
}

/// Check if GStreamer decoding is available
pub fn is_gstreamer_available(platform: Platform, initialized: bool, registry: &GstRegistry) -> (yes:
    bool)
    ensures
        yes == gstreamer_available(platform, initialized, *registry),
{
    if !initialized {
        return false;
    }
    let r = registry;
    match platform {
        Platform::Windows => r.d3d11h264dec || r.d3d11h265dec || r.d3d11av1dec || r.avdec_h264
            || r.av1dec,
        Platform::MacOs => {
            if r.vtdec && r.h264parse {
                true
            } else {
                (r.avdec_h264 || r.avdec_h265 || r.av1dec) && r.h264parse
            }
        },
        Platform::Linux => r.v4l2h264dec || r.v4l2h265dec || r.v4l2av1dec || r.vah264dec
            || r.vah265dec || r.vaav1dec || r.vaapih264dec || r.vaapih265dec || r.avdec_h264
            || r.avdec_h265 || r.av1dec,
    }
}

/// Check if GStreamer V4L2 decoding is available (Linux - Raspberry Pi)
pub fn is_gstreamer_v4l2_available(initialized: bool, registry: &GstRegistry) -> (yes: bool)
    ensures
        yes == (initialized && (registry.v4l2h264dec || registry.v4l2h265dec
            || registry.v4l2av1dec)),
{
    initialized && (registry.v4l2h264dec || registry.v4l2h265dec || registry.v4l2av1dec)
}

/// Check if GStreamer VA (VAAPI) decoding is available (Linux - Intel/AMD)
pub fn is_gstreamer_va_available(initialized: bool, registry: &GstRegistry) -> (yes: bool)
    ensures
        yes == (initialized && (registry.vah264dec || registry.vah265dec || registry.vaav1dec
            || registry.vaapih264dec || registry.vaapih265dec)),
{
    if !initialized {
        return false;
    }
    if registry.vah264dec || registry.vah265dec || registry.vaav1dec {
        true
    } else {
        registry.vaapih264dec || registry.vaapih265dec
    }
}

/// Check if running on Raspberry Pi: whether the device tree's model text,
/// where it could be read, names one.
pub fn is_raspberry_pi(model: Option<&str>) -> (yes: bool)
    ensures
        yes == match model {
            Some(m) => has_substring(m@, "Raspberry Pi"@),
            None => false,
        },
{
    match model {
        Some(m) => contains(m, "Raspberry Pi"),
        None => false,
    }
}

/// Colour matrix of a sample, as far as the decoder tells them apart.
#[derive(Debug, Clone, Copy, PartialEq, Eq, Structural)]
pub enum ColorMatrix {
    Bt2020,
    Bt601,
    Other,
}

/// Raw value of the SMPTE ST 2084 (PQ) transfer function.
pub const GST_VIDEO_TRANSFER_SMPTE2084: i32 = 14;

/// Raw value of the ARIB STD-B67 (HLG) transfer function.
pub const GST_VIDEO_TRANSFER_ARIB_STD_B67: i32 = 15;

/// Transfer function of a sample: PQ for raw value 14, HLG for 15, else
/// SDR.
pub open spec fn transfer_of_raw(raw: i32) -> TransferFunction {
    if raw == 14 {
        TransferFunction::PQ
    } else if raw == 15 {
        TransferFunction::HLG
    } else {
        TransferFunction::SDR
    }
}

/// Colour space of a sample: BT.2020 and BT.601 by their matrix, else
/// BT.709.
pub open spec fn space_of_matrix(matrix: ColorMatrix) -> ColorSpace {
    match matrix {
        ColorMatrix::Bt2020 => ColorSpace::BT2020,
        ColorMatrix::Bt601 => ColorSpace::BT601,
        ColorMatrix::Other => ColorSpace::BT709,
    }
}

/// Transfer function of a sample.
pub fn transfer_function_from_raw(raw: i32) -> (transfer: TransferFunction)
    ensures
        transfer == transfer_of_raw(raw),
{
    if raw == GST_VIDEO_TRANSFER_SMPTE2084 {
        TransferFunction::PQ
    } else if raw == GST_VIDEO_TRANSFER_ARIB_STD_B67 {
        TransferFunction::HLG
    } else {
        TransferFunction::SDR
    }
}

/// Colour space of a sample.
pub fn color_space_from_matrix(matrix: ColorMatrix) -> (space: ColorSpace)
    ensures
        space == space_of_matrix(matrix),
{
    match matrix {
        ColorMatrix::Bt2020 => ColorSpace::BT2020,
        ColorMatrix::Bt601 => ColorSpace::BT601,
        ColorMatrix::Other => ColorSpace::BT709,
    }
}

/// Decoded frame from GStreamer
#[derive(Debug)]
pub struct DecodedFrame {
    pub width: u32,
    pub height: u32,
    pub y_plane: Vec<u8>,
    pub uv_plane: Vec<u8>,
    pub y_stride: u32,
    pub uv_stride: u32,
    /// Colour space from the sample's colorimetry
    pub color_space: ColorSpace,
    /// Transfer function (SDR/PQ/HLG) from the sample's colorimetry
    pub transfer_function: TransferFunction,
    /// Colour range: always limited for these streams
    pub color_range: ColorRange,
}

/// Bytes of the luma plane of a sample: stride times height.
pub open spec fn luma_bytes(y_stride: u32, height: u32) -> int {
    y_stride * height
}

/// Bytes of the chroma plane of a sample: stride times height, halved.
pub open spec fn chroma_bytes(uv_stride: u32, height: u32) -> int {
    uv_stride * height / 2
}

/// Whether a buffer of `len` bytes holds the two planes of a sample, and
/// their sizes stay within 32 bits.
pub open spec fn sample_fits(len: int, y_stride: u32, uv_stride: u32, height: u32) -> bool {
    &&& luma_bytes(y_stride, height) <= u32::MAX
    &&& uv_stride * height <= u32::MAX
    &&& len >= luma_bytes(y_stride, height) + chroma_bytes(uv_stride, height)
}

/// The decoded frame of an NV12 sample: the luma plane, then the
/// interleaved chroma plane, copied out of the sample's buffer. A buffer that
/// is too short for the planes gives no frame.
pub fn frame_from_sample(
    data: &[u8],
    width: u32,
    height: u32,
    y_stride: u32,
    uv_stride: u32,
    transfer_raw: i32,
    matrix: ColorMatrix,
) -> (frame: Option<DecodedFrame>)
    ensures
        frame is Some <==> sample_fits(data@.len() as int, y_stride, uv_stride, height),
        frame matches Some(f) ==> {
            &&& f.width == width
            &&& f.height == height
            &&& f.y_stride == y_stride
            &&& f.uv_stride == uv_stride
            &&& f.y_plane@ == data@.subrange(0, luma_bytes(y_stride, height))
            &&& f.uv_plane@ == data@.subrange(
                luma_bytes(y_stride, height),
                luma_bytes(y_stride, height) + chroma_bytes(uv_stride, height),
            )
            &&& f.color_range == ColorRange::Limited
            &&& f.color_space == space_of_matrix(matrix)
            &&& f.transfer_function == transfer_of_raw(transfer_raw)
        },
{
    assert(y_stride * height <= 0xFFFF_FFFF * 0xFFFF_FFFF && uv_stride * height <= 0xFFFF_FFFF
        * 0xFFFF_FFFF) by (nonlinear_arith)
        requires
            0 <= y_stride <= 0xFFFF_FFFF,
            0 <= uv_stride <= 0xFFFF_FFFF,
            0 <= height <= 0xFFFF_FFFF,
    ;
    let y_size: u64 = y_stride as u64 * height as u64;
    let uv_product: u64 = uv_stride as u64 * height as u64;
    if y_size > 0xFFFF_FFFF || uv_product > 0xFFFF_FFFF {
        return None;
    }
    let uv_size: u64 = uv_product / 2;
    let len: usize = data.len();
    if (len as u64) < y_size + uv_size {
        return None;
    }
    let y_end: usize = y_size as usize;
    let uv_end: usize = (y_size + uv_size) as usize;
    Some(
        DecodedFrame {
            width,
            height,
            y_plane: copy_range(data, 0, y_end),
            uv_plane: copy_range(data, y_end, uv_end),
            y_stride,
            uv_stride,
            color_space: color_space_from_matrix(matrix),
            transfer_function: transfer_function_from_raw(transfer_raw),
            color_range: ColorRange::Limited,
        },
    )
}

/// The frame that the renderer gets for a decoded frame: NV12 planes in
/// memory, the chroma plane in the second slot.
pub fn video_frame_from_decoded(decoded: DecodedFrame, frame_id: u64) -> (frame: VideoFrame)
    ensures
        frame.frame_id == frame_id,
        frame.width == decoded.width,
        frame.height == decoded.height,
        frame.y_plane@ == decoded.y_plane@,
        frame.u_plane@ == decoded.uv_plane@,
        frame.v_plane@.len() == 0,
        frame.y_stride == decoded.y_stride,
        frame.u_stride == decoded.uv_stride,
        frame.v_stride == 0,
        frame.timestamp_us == 0,
        frame.format == PixelFormat::NV12,
        frame.color_range == decoded.color_range,
        frame.color_space == decoded.color_space,
        frame.transfer_function == decoded.transfer_function,
        frame.gpu_frame is None,
{
    VideoFrame {
        frame_id,
        width: decoded.width,
        height: decoded.height,
        y_plane: decoded.y_plane,
        u_plane: decoded.uv_plane,
        v_plane: Vec::new(),
        y_stride: decoded.y_stride,
        u_stride: decoded.uv_stride,
        v_stride: 0,
        timestamp_us: 0,
        format: PixelFormat::NV12,
        color_range: decoded.color_range,
        color_space: decoded.color_space,
        transfer_function: decoded.transfer_function,
        gpu_frame: None,
    }
}

/// What the decoder does with one packet.
#[derive(Debug, Clone, Copy, PartialEq, Eq, Structural)]
pub enum PacketAction {
    /// An empty packet is not pushed and gives no frame.
    Skip,
    /// The packet is pushed into the pipeline.
    Push,
}

/// GStreamer video decoder: the count of packets pushed and the transfer
/// function that was seen last.
#[derive(Debug)]
pub struct GStreamerDecoder {
    config: GstDecoderConfig,
    frame_count: u64,
    /// Last transfer function that was reported (to report changes once)
    last_logged_transfer: TransferFunction,
}

impl GStreamerDecoder {
    /// Number of packets pushed into the pipeline.
    pub closed spec fn spec_frame_count(&self) -> u64 {
        self.frame_count
    }

    /// The transfer function that was seen last.
    pub closed spec fn spec_last_transfer(&self) -> TransferFunction {
        self.last_logged_transfer
    }

    /// The configuration that the decoder was made for.
    pub closed spec fn spec_config(&self) -> GstDecoderConfig {
        self.config
    }

    /// The state of a new decoder: nothing pushed, SDR seen last.
    pub fn new(config: GstDecoderConfig) -> (decoder: Self)
        ensures
            decoder.spec_frame_count() == 0,
            decoder.spec_last_transfer() == TransferFunction::SDR,
            decoder.spec_config() == config,
    {
        GStreamerDecoder { config, frame_count: 0, last_logged_transfer: TransferFunction::SDR }
    }

    /// Whether a packet of `len` bytes is pushed at all.
    pub fn packet_action(len: usize) -> (action: PacketAction)
        ensures
            action == if len == 0 {
                PacketAction::Skip
            } else {
                PacketAction::Push
            },
    {
        if len == 0 {
            PacketAction::Skip
        } else {
            PacketAction::Push
        }
    }

    /// Takes in what came of pushing a packet: counts the packet, and turns
    /// the frame that the pipeline finished, if any, into the renderer's
    /// frame. Returns that frame and whether the transfer function changed.
    /// A packet that could not be pushed counts for nothing.
    pub fn decode(&mut self, pushed: bool, decoded: Option<DecodedFrame>, frame_id: u64) -> (out: (
        Option<VideoFrame>,
        bool,
    ))
        requires
            old(self).spec_frame_count() < u64::MAX,
        ensures
            final(self).spec_config() == old(self).spec_config(),
            final(self).spec_frame_count() == if pushed {
                (old(self).spec_frame_count() + 1) as u64
            } else {
                old(self).spec_frame_count()
            },
            out.0 is Some <==> pushed && decoded is Some,
            out.1 == (pushed && decoded is Some && decoded->0.transfer_function
                != old(self).spec_last_transfer()),
            final(self).spec_last_transfer() == if pushed && decoded is Some {
                decoded->0.transfer_function
            } else {
                old(self).spec_last_transfer()
            },
            out.0 matches Some(frame) ==> {
                &&& frame.frame_id == frame_id
                &&& frame.width == decoded->0.width
                &&& frame.height == decoded->0.height
                &&& frame.y_plane@ == decoded->0.y_plane@
                &&& frame.u_plane@ == decoded->0.uv_plane@
                &&& frame.v_plane@.len() == 0
                &&& frame.y_stride == decoded->0.y_stride
                &&& frame.u_stride == decoded->0.uv_stride
                &&& frame.v_stride == 0
                &&& frame.format == PixelFormat::NV12
                &&& frame.color_range == decoded->0.color_range
                &&& frame.color_space == decoded->0.color_space
                &&& frame.transfer_function == decoded->0.transfer_function
                &&& frame.gpu_frame is None
            },
    {
        if !pushed {
            return (None, false);
        }
        self.frame_count += 1;
        match decoded {
            Some(frame) => {
                let changed = frame.transfer_function != self.last_logged_transfer;
                if changed {
                    self.last_logged_transfer = frame.transfer_function;
                }
                (Some(video_frame_from_decoded(frame, frame_id)), changed)
            },
            None => (None, false),
        }
    }

    /// Get frame count
    #[verifier::when_used_as_spec(spec_frame_count)]
    pub fn frame_count(&self) -> (count: u64)
        ensures
            count == self.spec_frame_count(),
    {
        self.frame_count
    }
}

} // verus!
