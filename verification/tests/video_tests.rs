use opennow_streamer::media::gstreamer_decoder::GstCodec;
use opennow_streamer::media::native_video::{
    NativeDecodeResult, NativeDecodeWorker, NativeDecoderCommand, NativeDecoderError,
    NativeVideoDecoder,
};
use opennow_streamer::media::v4l2::LockedPlanes;
use opennow_streamer::media::video::{
    default_adapter_vendor, detect_gpu_vendor, get_supported_decoder_backends, gst_codec_for,
    is_keyframe_due, is_qsv_runtime_available, score_adapter, AdapterInfo, AdapterKind, DecodeResult, DecodeStats,
    DecoderSetupError, GStreamerDecoderWrapper, GpuVendor, UnifiedVideoDecoder, VideoDecoder,
};
use opennow_streamer::media::dxva_decoder::DxvaCodec;
use opennow_streamer::media::{
    ColorRange, ColorSpace, PixelFormat, Platform, TransferFunction, VideoCodec,
    VideoDecoderBackend,
};

fn adapter(name: &str, device_type: AdapterKind) -> AdapterInfo {
    AdapterInfo { name: name.to_string(), device_type }
}

#[test]
fn adapters_are_scored_by_vendor_and_kind() {
    assert_eq!(score_adapter("nvidia geforce rtx 4090", AdapterKind::DiscreteGpu), (GpuVendor::Nvidia, 150));
    assert_eq!(score_adapter("quadro p400", AdapterKind::Other), (GpuVendor::Nvidia, 100));
    assert_eq!(score_adapter("amd radeon rx 7900", AdapterKind::DiscreteGpu), (GpuVendor::Amd, 130));
    assert_eq!(score_adapter("radeon graphics", AdapterKind::IntegratedGpu), (GpuVendor::Amd, 90));
    assert_eq!(score_adapter("intel(r) uhd graphics 770", AdapterKind::IntegratedGpu), (GpuVendor::Intel, 60));
    assert_eq!(score_adapter("iris xe", AdapterKind::IntegratedGpu), (GpuVendor::Intel, 60));
    assert_eq!(score_adapter("apple m2 pro", AdapterKind::IntegratedGpu), (GpuVendor::Apple, 100));
    assert_eq!(score_adapter("v3d 4.2", AdapterKind::IntegratedGpu), (GpuVendor::Broadcom, 40));
    assert_eq!(score_adapter("llvmpipe", AdapterKind::Cpu), (GpuVendor::Other, 0));
    assert_eq!(score_adapter("virtio", AdapterKind::VirtualGpu), (GpuVendor::Other, 0));
    // The first keyword list that matches decides.
    assert_eq!(score_adapter("intel arc with nvidia", AdapterKind::Other), (GpuVendor::Nvidia, 100));
    assert_eq!(score_adapter("search", AdapterKind::Other), (GpuVendor::Intel, 50));
}

#[test]
fn best_adapter_decides_the_vendor() {
    let adapters = vec![
        adapter("Intel(R) UHD Graphics", AdapterKind::IntegratedGpu),
        adapter("NVIDIA GeForce RTX 3080", AdapterKind::DiscreteGpu),
        adapter("llvmpipe (LLVM 15)", AdapterKind::Cpu),
    ];
    assert_eq!(detect_gpu_vendor(&adapters, None), GpuVendor::Nvidia);
    // Names are compared in lowercase.
    assert_eq!(detect_gpu_vendor(&vec![adapter("AMD RADEON", AdapterKind::DiscreteGpu)], None), GpuVendor::Amd);
    // Of equal scores the first wins.
    let adapters = vec![
        adapter("Apple M1", AdapterKind::IntegratedGpu),
        adapter("NVIDIA Tesla", AdapterKind::Other),
    ];
    assert_eq!(detect_gpu_vendor(&adapters, None), GpuVendor::Apple);
    assert_eq!(detect_gpu_vendor(&vec![adapter("Mystery", AdapterKind::Other)], None), GpuVendor::Other);
}

#[test]
fn default_adapter_is_the_fallback() {
    let none: Vec<AdapterInfo> = Vec::new();
    assert_eq!(detect_gpu_vendor(&none, None), GpuVendor::Unknown);
    let default = adapter("Intel Iris", AdapterKind::IntegratedGpu);
    assert_eq!(detect_gpu_vendor(&none, Some(&default)), GpuVendor::Intel);
    // With enumerated adapters the default adapter is not looked at.
    let adapters = vec![adapter("VideoCore VI", AdapterKind::IntegratedGpu)];
    assert_eq!(detect_gpu_vendor(&adapters, Some(&default)), GpuVendor::Broadcom);
    assert_eq!(default_adapter_vendor("nvidia"), GpuVendor::Nvidia);
    assert_eq!(default_adapter_vendor("amd"), GpuVendor::Amd);
    assert_eq!(default_adapter_vendor("apple"), GpuVendor::Apple);
    assert_eq!(default_adapter_vendor("broadcom v3d"), GpuVendor::Broadcom);
    // The short lists know fewer names.
    assert_eq!(default_adapter_vendor("geforce"), GpuVendor::Other);
    assert_eq!(default_adapter_vendor("vc4"), GpuVendor::Other);
}

#[test]
fn qsv_runtime_is_found_in_the_library_list() {
    assert!(is_qsv_runtime_available(true, Some("libmfx.so.1 (libc6,x86-64) => /usr/lib/libmfx.so.1")));
    assert!(is_qsv_runtime_available(true, Some("x\nlibvpl.so.2 => /usr/lib/libvpl.so.2")));
    assert!(!is_qsv_runtime_available(true, Some("libva.so.2")));
    assert!(!is_qsv_runtime_available(true, None));
    assert!(!is_qsv_runtime_available(false, Some("libmfx.so.1")));
}

#[test]
fn supported_backends_by_platform() {
    assert_eq!(
        get_supported_decoder_backends(Platform::MacOs, GpuVendor::Apple, false, true),
        vec![VideoDecoderBackend::Auto, VideoDecoderBackend::VideoToolbox, VideoDecoderBackend::Software]
    );
    assert_eq!(
        get_supported_decoder_backends(Platform::Windows, GpuVendor::Nvidia, false, false),
        vec![VideoDecoderBackend::Auto, VideoDecoderBackend::Dxva, VideoDecoderBackend::Cuvid, VideoDecoderBackend::Software]
    );
    assert_eq!(
        get_supported_decoder_backends(Platform::Windows, GpuVendor::Intel, false, false),
        vec![VideoDecoderBackend::Auto, VideoDecoderBackend::Dxva, VideoDecoderBackend::Qsv, VideoDecoderBackend::Software]
    );
    assert_eq!(
        get_supported_decoder_backends(Platform::Windows, GpuVendor::Nvidia, true, false),
        vec![VideoDecoderBackend::Auto, VideoDecoderBackend::Dxva, VideoDecoderBackend::Cuvid, VideoDecoderBackend::Qsv, VideoDecoderBackend::Software]
    );
    assert_eq!(
        get_supported_decoder_backends(Platform::Windows, GpuVendor::Amd, false, true),
        vec![VideoDecoderBackend::Auto, VideoDecoderBackend::Dxva, VideoDecoderBackend::Software]
    );
    assert_eq!(
        get_supported_decoder_backends(Platform::Linux, GpuVendor::Amd, false, true),
        vec![VideoDecoderBackend::Auto, VideoDecoderBackend::VulkanVideo, VideoDecoderBackend::Vaapi, VideoDecoderBackend::Software]
    );
    assert_eq!(
        get_supported_decoder_backends(Platform::Linux, GpuVendor::Nvidia, true, false),
        vec![VideoDecoderBackend::Auto, VideoDecoderBackend::Cuvid, VideoDecoderBackend::Qsv, VideoDecoderBackend::Vaapi, VideoDecoderBackend::Software]
    );
    assert_eq!(
        get_supported_decoder_backends(Platform::Linux, GpuVendor::Unknown, false, false),
        vec![VideoDecoderBackend::Auto, VideoDecoderBackend::Vaapi, VideoDecoderBackend::Software]
    );
}

#[test]
fn codecs_are_mapped_to_gstreamer() {
    assert_eq!(gst_codec_for(VideoCodec::H264), GstCodec::H264);
    assert_eq!(gst_codec_for(VideoCodec::H265), GstCodec::H265);
    assert_eq!(gst_codec_for(VideoCodec::AV1), GstCodec::AV1);
}

#[test]
fn unified_decoder_is_planned_by_platform() {
    let (decoder, config) = UnifiedVideoDecoder::new_async(VideoCodec::H265, Platform::Windows, false, false).unwrap();
    assert!(matches!(decoder, UnifiedVideoDecoder::GStreamer(_)));
    assert_eq!(config.codec, GstCodec::H265);
    assert_eq!((config.width, config.height, config.low_latency), (1920, 1080, true));
    assert!(decoder.is_hw_accelerated());
    assert_eq!(decoder.frames_decoded(), 0);
    assert_eq!(
        UnifiedVideoDecoder::new_async(VideoCodec::H264, Platform::Windows, true, true).unwrap_err(),
        DecoderSetupError::WindowsArm64
    );
    let (decoder, config) = UnifiedVideoDecoder::new_async(VideoCodec::AV1, Platform::MacOs, true, false).unwrap();
    assert!(matches!(decoder, UnifiedVideoDecoder::GStreamer(_)));
    assert_eq!(config.codec, GstCodec::AV1);
    let (decoder, _) = UnifiedVideoDecoder::new_async(VideoCodec::H264, Platform::Linux, false, true).unwrap();
    assert!(matches!(decoder, UnifiedVideoDecoder::Ffmpeg(_)));
    assert!(decoder.is_hw_accelerated());
    assert_eq!(
        UnifiedVideoDecoder::new_async(VideoCodec::H264, Platform::Linux, false, false).unwrap_err(),
        DecoderSetupError::NoDecoderOnLinux
    );
}

#[test]
fn linux_decoder_counts_frames() {
    let (mut decoder, config) = VideoDecoder::new_async(VideoCodec::H264, true).unwrap();
    assert_eq!(config.codec, GstCodec::H264);
    assert!(VideoDecoder::new_async(VideoCodec::H264, false).is_err());
    assert!(decoder.is_hw_accelerated());
    decoder.decode(false);
    assert_eq!(decoder.frames_decoded(), 0);
    decoder.decode(true);
    assert_eq!(decoder.frames_decoded(), 1);
    decoder.decode_async();
    decoder.decode_async();
    assert_eq!(decoder.frames_decoded(), 3);
}

#[test]
fn linux_worker_asks_for_a_keyframe_once_at_five_failures() {
    let (mut decoder, _) = VideoDecoder::new_async(VideoCodec::H265, true).unwrap();
    let mut asked = Vec::new();
    for _ in 0..45 {
        let (stats, deliver) = decoder.record_result(false);
        assert!(!stats.frame_produced);
        assert!(!deliver);
        asked.push(stats.needs_keyframe);
    }
    let expected: Vec<bool> = (1..=45).map(|n| n == 5 || n == 20 || n == 40).collect();
    assert_eq!(asked, expected);
    // A frame resets the count.
    let (stats, _) = decoder.record_result(true);
    assert_eq!(stats, DecodeStats { frame_produced: true, needs_keyframe: false });
    for n in 1..=5 {
        let (stats, _) = decoder.record_result(false);
        assert_eq!(stats.needs_keyframe, n == 5);
    }
}

#[test]
fn linux_worker_holds_back_the_first_five_frames() {
    let (mut decoder, _) = VideoDecoder::new_async(VideoCodec::H265, true).unwrap();
    let delivered: Vec<bool> = (0..8).map(|_| decoder.record_result(true).1).collect();
    assert_eq!(delivered, vec![false, false, false, false, false, true, true, true]);
}

#[test]
fn ten_failures_in_a_row_ask_for_one_keyframe() {
    // Ten consecutive packets on which the decoder fails: the keyframe is
    // asked for at the third, and not again.
    let once = vec![false, false, true, false, false, false, false, false, false, false];
    let mut worker = NativeDecodeWorker::new();
    let asked: Vec<bool> =
        (0..10).map(|_| worker.record_result(NativeDecodeResult::Failed).needs_keyframe).collect();
    assert_eq!(asked, once);
    // The pipeline's wrapper counts in the same way, whether the pipeline
    // failed or only gave no frame.
    let mut wrapper = GStreamerDecoderWrapper::new();
    let asked: Vec<bool> =
        (0..10).map(|_| wrapper.decode_async(DecodeResult::Failed).needs_keyframe).collect();
    assert_eq!(asked, once);
    let mut wrapper = GStreamerDecoderWrapper::new();
    let asked: Vec<bool> =
        (0..10).map(|_| wrapper.decode_async(DecodeResult::NoFrame).needs_keyframe).collect();
    assert_eq!(asked, once);
}

#[test]
fn prolonged_failure_asks_again_every_twenty_packets() {
    let mut wrapper = GStreamerDecoderWrapper::new();
    let mut worker = NativeDecodeWorker::new();
    let mut asked_at = Vec::new();
    for n in 1..=65u32 {
        let stats = wrapper.decode_async(DecodeResult::NoFrame);
        assert!(!stats.frame_produced);
        assert_eq!(worker.record_result(NativeDecodeResult::Failed), stats);
        if stats.needs_keyframe {
            asked_at.push(n);
        }
    }
    assert_eq!(asked_at, vec![3, 20, 40, 60]);
    for threshold in [1u32, 3, 5, 20, 25] {
        let due: Vec<u32> = (0..=60).filter(|n| is_keyframe_due(*n, threshold)).collect();
        let expected: Vec<u32> =
            (0..=60).filter(|n| *n == threshold || (*n > threshold && n % 20 == 0)).collect();
        assert_eq!(due, expected);
    }
    assert!(!is_keyframe_due(u32::MAX, 3));
}

#[test]
fn a_frame_starts_the_count_afresh() {
    let mut wrapper = GStreamerDecoderWrapper::new();
    for _ in 0..4 {
        wrapper.decode_async(DecodeResult::NoFrame);
    }
    let stats = wrapper.decode_async(DecodeResult::Frame);
    assert_eq!(stats, DecodeStats { frame_produced: true, needs_keyframe: false });
    assert!(wrapper.is_first_frame());
    let asked: Vec<bool> = (0..4).map(|_| wrapper.decode_async(DecodeResult::NoFrame).needs_keyframe).collect();
    assert_eq!(asked, vec![false, false, true, false]);
    wrapper.decode_async(DecodeResult::Frame);
    assert!(!wrapper.is_first_frame());
}

#[test]
fn pipeline_errors_and_missing_frames_count_together() {
    let mut wrapper = GStreamerDecoderWrapper::new();
    let results = [
        DecodeResult::Failed,
        DecodeResult::NoFrame,
        DecodeResult::Failed,
        DecodeResult::NoFrame,
        DecodeResult::Failed,
        DecodeResult::Failed,
    ];
    let asked: Vec<bool> = results.iter().map(|r| wrapper.decode_async(*r).needs_keyframe).collect();
    assert_eq!(asked, vec![false, false, true, false, false, false]);
}

#[test]
fn native_decoder_is_for_hevc_only() {
    assert_eq!(NativeVideoDecoder::new_async(VideoCodec::H264).unwrap_err(), NativeDecoderError::UnsupportedCodec);
    assert_eq!(NativeVideoDecoder::new_async(VideoCodec::AV1).unwrap_err(), NativeDecoderError::UnsupportedCodec);
    let decoder = NativeVideoDecoder::new_async(VideoCodec::H265).unwrap();
    assert_eq!(decoder.frames_decoded(), 0);
    assert!(decoder.is_hw_accel());
    match decoder.decode_async(vec![1, 2, 3], 99) {
        NativeDecoderCommand::DecodeAsync { data, receive_time_us } => {
            assert_eq!(data, vec![1, 2, 3]);
            assert_eq!(receive_time_us, 99);
        }
        _ => panic!("a decode command"),
    }
    assert!(matches!(decoder.stop_command(), NativeDecoderCommand::Stop));
}

#[test]
fn native_worker_creates_a_decoder_when_dimensions_change() {
    let mut worker = NativeDecodeWorker::new();
    assert!(worker.plan_decoder(None).is_none());
    assert!(worker.plan_decoder(Some((0, 1080, false))).is_none());
    assert!(worker.plan_decoder(Some((1920, 0, false))).is_none());
    let config = worker.plan_decoder(Some((1920, 1080, false))).expect("a decoder to create");
    assert_eq!(config.codec, DxvaCodec::HEVC);
    assert_eq!((config.width, config.height, config.is_hdr, config.surface_count), (1920, 1080, false, 25));
    worker.decoder_created(&config);
    assert!(worker.plan_decoder(Some((1920, 1080, false))).is_none());
    assert!(worker.plan_decoder(Some((1920, 1080, true))).is_some());
    assert!(worker.plan_decoder(Some((2560, 1440, false))).is_some());
    assert!(worker.plan_decoder(Some((1920, 1088, false))).is_some());
    assert!(!worker.is_hdr());
    assert_eq!(worker.decoder_creation_failed(), DecodeStats { frame_produced: false, needs_keyframe: true });
}

#[test]
fn native_worker_asks_for_a_keyframe_at_the_third_failure() {
    let mut worker = NativeDecodeWorker::new();
    let asked: Vec<bool> = (0..5).map(|_| worker.record_result(NativeDecodeResult::Failed).needs_keyframe).collect();
    assert_eq!(asked, vec![false, false, true, false, false]);
    assert!(worker.should_log_failure());
    let stats = worker.record_result(NativeDecodeResult::Decoded);
    assert_eq!(stats, DecodeStats { frame_produced: true, needs_keyframe: false });
    // Waiting for a parameter set counts as failure like any other.
    let asked: Vec<bool> =
        (0..4).map(|_| worker.record_result(NativeDecodeResult::NotReady).needs_keyframe).collect();
    assert_eq!(asked, vec![false, false, true, false]);
    assert!(!worker.record_result(NativeDecodeResult::Failed).needs_keyframe);
    // Five failures in a row are logged, the sixth is not, the hundredth is.
    assert!(worker.should_log_failure());
    worker.record_result(NativeDecodeResult::Failed);
    assert!(!worker.should_log_failure());
    for _ in 0..94 {
        worker.record_result(NativeDecodeResult::Failed);
    }
    assert!(worker.should_log_failure());
}

#[test]
fn native_frames_are_converted_with_their_colour_description() {
    let planes = LockedPlanes { y_plane: vec![1; 8], uv_plane: vec![2; 4], y_stride: 4, uv_stride: 4, width: 4, height: 2 };
    let frame = NativeVideoDecoder::convert_decoded_frame(4, 2, Some(planes), false, 5).unwrap();
    assert_eq!(frame.frame_id, 5);
    assert_eq!((frame.width, frame.height), (4, 2));
    assert_eq!(frame.y_plane, vec![1; 8]);
    assert_eq!(frame.u_plane, vec![2; 4]);
    assert!(frame.v_plane.is_empty());
    assert_eq!((frame.y_stride, frame.u_stride, frame.v_stride), (4, 4, 0));
    assert_eq!(frame.format, PixelFormat::NV12);
    assert_eq!(frame.color_range, ColorRange::Limited);
    assert_eq!(frame.color_space, ColorSpace::BT709);
    assert_eq!(frame.transfer_function, TransferFunction::SDR);
    assert!(frame.gpu_frame.is_none());
    let planes = LockedPlanes { y_plane: vec![1; 8], uv_plane: vec![2; 4], y_stride: 4, uv_stride: 4, width: 4, height: 2 };
    let frame = NativeVideoDecoder::convert_decoded_frame(4, 2, Some(planes), true, 6).unwrap();
    assert_eq!(frame.format, PixelFormat::P010);
    assert_eq!(frame.color_space, ColorSpace::BT2020);
    assert_eq!(frame.transfer_function, TransferFunction::PQ);
    assert!(NativeVideoDecoder::convert_decoded_frame(4, 2, None, true, 7).is_none());
}

#[test]
fn the_first_intel_adapter_gives_its_name_as_it_spells_it() {
    let get = opennow_streamer::media::video::get_intel_gpu_name;
    let adapters = vec![
        adapter("NVIDIA GeForce RTX 4090", AdapterKind::DiscreteGpu),
        adapter("Intel(R) UHD Graphics 770", AdapterKind::IntegratedGpu),
        adapter("INTEL Arc A770", AdapterKind::DiscreteGpu),
    ];
    assert_eq!(get(&adapters), "Intel(R) UHD Graphics 770");
    assert_eq!(get(&vec![adapter("AMD Radeon", AdapterKind::DiscreteGpu)]), "");
    assert_eq!(get(&Vec::new()), "");
    // A name that only hints at the vendor does not count here.
    assert_eq!(get(&vec![adapter("Iris Xe", AdapterKind::IntegratedGpu)]), "");
}

#[test]
fn a_frame_is_delivered_in_its_surface_or_as_a_copy() {
    let deliver = NativeVideoDecoder::deliver_decoded_frame;
    let zero_copy = opennow_streamer::media::native_video::FrameDelivery::ZeroCopy;
    let copy = opennow_streamer::media::native_video::FrameDelivery::ImmediateCopy;
    let planes = || LockedPlanes {
        y_plane: vec![1; 8],
        uv_plane: vec![2; 4],
        y_stride: 4,
        uv_stride: 4,
        width: 4,
        height: 2,
    };

    // In its surface: the slice of the texture array, and no planes.
    let frame = deliver(zero_copy, 4, 2, 7, None, true, 11).unwrap();
    assert_eq!(frame.gpu_frame, Some(7));
    assert_eq!(frame.frame_id, 11);
    assert_eq!((frame.width, frame.height), (4, 2));
    assert!(frame.y_plane.is_empty() && frame.u_plane.is_empty() && frame.v_plane.is_empty());
    assert_eq!((frame.y_stride, frame.u_stride, frame.v_stride), (0, 0, 0));
    assert_eq!(frame.format, PixelFormat::P010);
    assert_eq!(frame.color_space, ColorSpace::BT2020);
    assert_eq!(frame.transfer_function, TransferFunction::PQ);
    assert_eq!(frame.color_range, ColorRange::Limited);
    // Planes that were copied all the same are not carried along.
    let frame = deliver(zero_copy, 4, 2, 3, Some(planes()), false, 12).unwrap();
    assert_eq!(frame.gpu_frame, Some(3));
    assert!(frame.y_plane.is_empty());
    assert_eq!(frame.format, PixelFormat::NV12);

    // As a copy: the planes, and no surface.
    let frame = deliver(copy, 4, 2, 7, Some(planes()), false, 13).unwrap();
    assert_eq!(frame.gpu_frame, None);
    assert_eq!(frame.y_plane, vec![1; 8]);
    assert_eq!(frame.u_plane, vec![2; 4]);
    assert_eq!((frame.y_stride, frame.u_stride, frame.v_stride), (4, 4, 0));
    assert_eq!(frame.color_space, ColorSpace::BT709);
    assert!(deliver(copy, 4, 2, 7, None, false, 14).is_none());
}
