use opennow_streamer::media::gstreamer_decoder::{
    build_pipeline_string, color_space_from_matrix, frame_from_sample, is_gstreamer_available,
    is_gstreamer_v4l2_available, is_gstreamer_va_available, parser_hint,
    transfer_function_from_raw, video_frame_from_decoded, ColorMatrix, GStreamerDecoder, GstCodec,
    GstDecoderConfig, GstRegistry, LinuxDecoderFamily, PacketAction, PipelineError,
};
use opennow_streamer::media::{ColorRange, ColorSpace, PixelFormat, Platform, TransferFunction};

fn empty_registry() -> GstRegistry {
    GstRegistry {
        h264parse: false,
        h265parse: false,
        av1parse: false,
        d3d11h264dec: false,
        d3d11h265dec: false,
        d3d11av1dec: false,
        vtdec: false,
        v4l2h264dec: false,
        v4l2h265dec: false,
        v4l2av1dec: false,
        vah264dec: false,
        vah265dec: false,
        vaav1dec: false,
        vaapih264dec: false,
        vaapih265dec: false,
        vaapiav1dec: false,
        avdec_h264: false,
        avdec_h265: false,
        av1dec: false,
    }
}

fn parsers() -> GstRegistry {
    let mut r = empty_registry();
    r.h264parse = true;
    r.h265parse = true;
    r.av1parse = true;
    r
}

fn config(codec: GstCodec, low_latency: bool) -> GstDecoderConfig {
    GstDecoderConfig { codec, width: 1920, height: 1080, low_latency }
}

#[test]
fn test_codec_caps() {
    assert!(GstCodec::H264.caps_string().contains("h264"));
    assert!(GstCodec::H265.caps_string().contains("h265"));
    assert!(GstCodec::AV1.caps_string().contains("av1"));
}

#[test]
fn test_default_config() {
    let config = GstDecoderConfig::default();
    assert_eq!(config.width, 1920);
    assert_eq!(config.height, 1080);
    assert_eq!(config.codec, GstCodec::H264);
    assert!(config.low_latency);
}

#[test]
fn test_parser_elements() {
    assert_eq!(GstCodec::H264.parser_element(), "h264parse");
    assert_eq!(GstCodec::H265.parser_element(), "h265parse");
    assert_eq!(GstCodec::AV1.parser_element(), "av1parse");
}

#[test]
fn test_software_decoders() {
    assert_eq!(GstCodec::H264.software_decoder(), "avdec_h264");
    assert_eq!(GstCodec::H265.software_decoder(), "avdec_h265");
    assert_eq!(GstCodec::AV1.software_decoder(), "av1dec");
}

#[test]
fn caps_strings_are_exact() {
    assert_eq!(GstCodec::H264.caps_string(), "video/x-h264,stream-format=byte-stream,alignment=au");
    assert_eq!(GstCodec::H265.caps_string(), "video/x-h265,stream-format=byte-stream,alignment=au");
    assert_eq!(GstCodec::AV1.caps_string(), "video/x-av1,stream-format=obu-stream,alignment=tu");
}

#[test]
fn decoder_elements_by_platform() {
    assert_eq!(GstCodec::H264.decoder_element(Platform::Windows), "d3d11h264dec");
    assert_eq!(GstCodec::H265.decoder_element(Platform::Windows), "d3d11h265dec");
    assert_eq!(GstCodec::AV1.decoder_element(Platform::Windows), "d3d11av1dec");
    assert_eq!(GstCodec::H264.decoder_element(Platform::MacOs), "vtdec");
    assert_eq!(GstCodec::AV1.decoder_element(Platform::MacOs), "vtdec");
    assert_eq!(GstCodec::H264.decoder_element(Platform::Linux), "v4l2h264dec");
    assert_eq!(GstCodec::H265.decoder_element(Platform::Linux), "v4l2h265dec");
    assert_eq!(GstCodec::AV1.decoder_element(Platform::Linux), "v4l2av1dec");
    assert_eq!(GstCodec::H264.linux_decoder(LinuxDecoderFamily::Va), "vah264dec");
    assert_eq!(GstCodec::H265.linux_decoder(LinuxDecoderFamily::Va), "vah265dec");
    assert_eq!(GstCodec::AV1.linux_decoder(LinuxDecoderFamily::Va), "vaav1dec");
    assert_eq!(GstCodec::H264.linux_decoder(LinuxDecoderFamily::Vaapi), "vaapih264dec");
    assert_eq!(GstCodec::H265.linux_decoder(LinuxDecoderFamily::Vaapi), "vaapih265dec");
    assert_eq!(GstCodec::AV1.linux_decoder(LinuxDecoderFamily::Vaapi), "vaapiav1dec");
    assert_eq!(GstCodec::AV1.linux_decoder(LinuxDecoderFamily::V4l2), "v4l2av1dec");
}

#[test]
fn pipeline_needs_the_parser() {
    let r = empty_registry();
    assert_eq!(
        build_pipeline_string(&config(GstCodec::H265, true), Platform::Linux, &r),
        Err(PipelineError::ParserNotFound(GstCodec::H265))
    );
    let mut r = empty_registry();
    r.h264parse = true;
    assert!(build_pipeline_string(&config(GstCodec::H264, true), Platform::Linux, &r).is_ok());
    assert!(build_pipeline_string(&config(GstCodec::AV1, true), Platform::Linux, &r).is_err());
    assert!(parser_hint(GstCodec::H264).contains("gstreamer1.0-plugins-bad\n"));
    assert!(parser_hint(GstCodec::AV1).contains("(version 1.18+)"));
    assert_eq!(parser_hint(GstCodec::H264), parser_hint(GstCodec::H265));
}

#[test]
fn windows_pipeline_with_and_without_hardware() {
    let mut r = parsers();
    r.d3d11h265dec = true;
    assert_eq!(
        build_pipeline_string(&config(GstCodec::H265, true), Platform::Windows, &r).unwrap(),
        "appsrc name=src is-live=true format=time do-timestamp=true max-buffers=1 ! h265parse ! d3d11h265dec ! d3d11download ! videoconvert n-threads=2 ! video/x-raw,format=NV12 ! appsink name=sink emit-signals=true max-buffers=1 drop=true sync=false wait-on-eos=false"
    );
    assert_eq!(
        build_pipeline_string(&config(GstCodec::H264, false), Platform::Windows, &r).unwrap(),
        "appsrc name=src is-live=true format=time do-timestamp=true max-buffers=1 ! h264parse ! avdec_h264 ! videoconvert n-threads=4 ! video/x-raw,format=NV12 ! appsink name=sink emit-signals=true max-buffers=2 drop=false sync=false wait-on-eos=false"
    );
}

#[test]
fn macos_pipeline_uses_videotoolbox() {
    let mut r = parsers();
    r.vtdec = true;
    assert_eq!(
        build_pipeline_string(&config(GstCodec::AV1, true), Platform::MacOs, &r).unwrap(),
        "appsrc name=src is-live=true format=time do-timestamp=true max-buffers=1 ! av1parse ! vtdec ! videoconvert n-threads=2 ! video/x-raw,format=NV12 ! appsink name=sink emit-signals=true max-buffers=1 drop=true sync=false wait-on-eos=false"
    );
    r.vtdec = false;
    assert_eq!(
        build_pipeline_string(&config(GstCodec::AV1, true), Platform::MacOs, &r).unwrap(),
        "appsrc name=src is-live=true format=time do-timestamp=true max-buffers=1 ! av1parse ! av1dec ! videoconvert n-threads=4 ! video/x-raw,format=NV12 ! appsink name=sink emit-signals=true max-buffers=1 drop=true sync=false wait-on-eos=false"
    );
}

#[test]
fn linux_pipeline_prefers_v4l2_then_va_then_vaapi() {
    let prefix = "appsrc name=src is-live=true format=time do-timestamp=true max-buffers=1 ! h264parse ! ";
    let hw = " ! videoconvert n-threads=2 ! video/x-raw,format=NV12 ! appsink name=sink emit-signals=true max-buffers=1 drop=true sync=false wait-on-eos=false";
    let sw = " ! videoconvert n-threads=4 ! video/x-raw,format=NV12 ! appsink name=sink emit-signals=true max-buffers=1 drop=true sync=false wait-on-eos=false";
    let c = config(GstCodec::H264, true);
    let mut r = parsers();
    r.v4l2h264dec = true;
    r.vah264dec = true;
    r.vaapih264dec = true;
    assert_eq!(build_pipeline_string(&c, Platform::Linux, &r).unwrap(), format!("{}v4l2h264dec{}", prefix, hw));
    r.v4l2h264dec = false;
    assert_eq!(build_pipeline_string(&c, Platform::Linux, &r).unwrap(), format!("{}vah264dec{}", prefix, hw));
    r.vah264dec = false;
    assert_eq!(build_pipeline_string(&c, Platform::Linux, &r).unwrap(), format!("{}vaapih264dec{}", prefix, hw));
    r.vaapih264dec = false;
    // Decoders of other codecs do not count.
    r.v4l2h265dec = true;
    assert_eq!(build_pipeline_string(&c, Platform::Linux, &r).unwrap(), format!("{}avdec_h264{}", prefix, sw));
}

#[test]
fn gstreamer_availability_by_platform() {
    let mut r = empty_registry();
    for platform in [Platform::Windows, Platform::MacOs, Platform::Linux] {
        assert!(!is_gstreamer_available(platform, true, &r));
    }
    r.av1dec = true;
    assert!(is_gstreamer_available(Platform::Windows, true, &r));
    assert!(is_gstreamer_available(Platform::Linux, true, &r));
    // macOS also wants the H.264 parser.
    assert!(!is_gstreamer_available(Platform::MacOs, true, &r));
    r.h264parse = true;
    assert!(is_gstreamer_available(Platform::MacOs, true, &r));
    assert!(!is_gstreamer_available(Platform::MacOs, false, &r));
    assert!(!is_gstreamer_available(Platform::Linux, false, &r));
    let mut r = empty_registry();
    r.avdec_h265 = true;
    assert!(!is_gstreamer_available(Platform::Windows, true, &r));
    assert!(is_gstreamer_available(Platform::Linux, true, &r));
    let mut r = empty_registry();
    r.vaapiav1dec = true;
    assert!(!is_gstreamer_available(Platform::Linux, true, &r));
}

#[test]
fn gstreamer_v4l2_and_va_availability() {
    let mut r = empty_registry();
    assert!(!is_gstreamer_v4l2_available(true, &r));
    assert!(!is_gstreamer_va_available(true, &r));
    r.v4l2av1dec = true;
    assert!(is_gstreamer_v4l2_available(true, &r));
    assert!(!is_gstreamer_v4l2_available(false, &r));
    assert!(!is_gstreamer_va_available(true, &r));
    r.vaapih265dec = true;
    assert!(is_gstreamer_va_available(true, &r));
    assert!(!is_gstreamer_va_available(false, &r));
    let mut r = empty_registry();
    r.vaav1dec = true;
    assert!(is_gstreamer_va_available(true, &r));
    let mut r = empty_registry();
    r.vaapiav1dec = true;
    assert!(!is_gstreamer_va_available(true, &r));
}

#[test]
fn colorimetry_is_mapped() {
    assert_eq!(transfer_function_from_raw(14), TransferFunction::PQ);
    assert_eq!(transfer_function_from_raw(15), TransferFunction::HLG);
    assert_eq!(transfer_function_from_raw(0), TransferFunction::SDR);
    assert_eq!(transfer_function_from_raw(13), TransferFunction::SDR);
    assert_eq!(transfer_function_from_raw(-1), TransferFunction::SDR);
    assert_eq!(color_space_from_matrix(ColorMatrix::Bt2020), ColorSpace::BT2020);
    assert_eq!(color_space_from_matrix(ColorMatrix::Bt601), ColorSpace::BT601);
    assert_eq!(color_space_from_matrix(ColorMatrix::Other), ColorSpace::BT709);
}

#[test]
fn sample_is_split_into_planes() {
    // 4 by 2 picture with strides of 8: 16 bytes of luma, 8 of chroma, 3 left over.
    let data: Vec<u8> = (0..27).collect();
    let frame = frame_from_sample(&data, 4, 2, 8, 8, 14, ColorMatrix::Bt2020).expect("a frame");
    assert_eq!((frame.width, frame.height), (4, 2));
    assert_eq!((frame.y_stride, frame.uv_stride), (8, 8));
    assert_eq!(frame.y_plane, (0..16).collect::<Vec<u8>>());
    assert_eq!(frame.uv_plane, (16..24).collect::<Vec<u8>>());
    assert_eq!(frame.transfer_function, TransferFunction::PQ);
    assert_eq!(frame.color_space, ColorSpace::BT2020);
    assert_eq!(frame.color_range, ColorRange::Limited);
    // One byte short.
    assert!(frame_from_sample(&data[..23], 4, 2, 8, 8, 0, ColorMatrix::Other).is_none());
    assert!(frame_from_sample(&data[..24], 4, 2, 8, 8, 0, ColorMatrix::Other).is_some());
    // Sizes beyond 32 bits.
    assert!(frame_from_sample(&data, 4, 65536, 65536, 8, 0, ColorMatrix::Other).is_none());
}

#[test]
fn decoded_frame_becomes_an_nv12_video_frame() {
    let data: Vec<u8> = (0..24).collect();
    let decoded = frame_from_sample(&data, 4, 2, 8, 8, 15, ColorMatrix::Bt601).unwrap();
    let frame = video_frame_from_decoded(decoded, 77);
    assert_eq!(frame.frame_id, 77);
    assert_eq!((frame.width, frame.height), (4, 2));
    assert_eq!(frame.y_plane.len(), 16);
    assert_eq!(frame.u_plane.len(), 8);
    assert!(frame.v_plane.is_empty());
    assert_eq!((frame.y_stride, frame.u_stride, frame.v_stride), (8, 8, 0));
    assert_eq!(frame.timestamp_us, 0);
    assert_eq!(frame.format, PixelFormat::NV12);
    assert_eq!(frame.transfer_function, TransferFunction::HLG);
    assert_eq!(frame.color_space, ColorSpace::BT601);
    assert!(frame.gpu_frame.is_none());
}

#[test]
fn decoder_counts_packets_and_reports_transfer_changes() {
    assert_eq!(GStreamerDecoder::packet_action(0), PacketAction::Skip);
    assert_eq!(GStreamerDecoder::packet_action(1), PacketAction::Push);
    let mut decoder = GStreamerDecoder::new(GstDecoderConfig::default());
    assert_eq!(decoder.frame_count(), 0);
    let data: Vec<u8> = (0..24).collect();
    // A packet that could not be pushed.
    let (frame, changed) = decoder.decode(false, None, 1);
    assert!(frame.is_none() && !changed);
    assert_eq!(decoder.frame_count(), 0);
    // A packet without a frame yet.
    let (frame, changed) = decoder.decode(true, None, 1);
    assert!(frame.is_none() && !changed);
    assert_eq!(decoder.frame_count(), 1);
    // The first frame is SDR: no change.
    let sdr = frame_from_sample(&data, 4, 2, 8, 8, 1, ColorMatrix::Other).unwrap();
    let (frame, changed) = decoder.decode(true, Some(sdr), 2);
    assert_eq!(frame.unwrap().frame_id, 2);
    assert!(!changed);
    // Then the stream turns to PQ, once.
    let pq = frame_from_sample(&data, 4, 2, 8, 8, 14, ColorMatrix::Bt2020).unwrap();
    let (_, changed) = decoder.decode(true, Some(pq), 3);
    assert!(changed);
    let pq = frame_from_sample(&data, 4, 2, 8, 8, 14, ColorMatrix::Bt2020).unwrap();
    let (_, changed) = decoder.decode(true, Some(pq), 4);
    assert!(!changed);
    assert_eq!(decoder.frame_count(), 4);
}

#[test]
fn a_raspberry_pi_is_known_by_its_model_text() {
    let is_pi = opennow_streamer::media::gstreamer_decoder::is_raspberry_pi;
    assert!(is_pi(Some("Raspberry Pi 4 Model B Rev 1.4")));
    assert!(!is_pi(Some("raspberry pi 4")));
    assert!(!is_pi(Some("Intel NUC")));
    assert!(!is_pi(None));
}
