use opennow_streamer::media::byte_layout::copy_range;
use opennow_streamer::media::v4l2::{
    decoder_search_paths, find_v4l2_decoder_device, get_pi_model,
    get_recommended_codec, is_raspberry_pi, is_raspberry_pi_lowercase, is_v4l2_available,
    nv12_plane_sizes, split_nv12_planes, V4L2BufferWrapper, V4L2Codec, V4L2PixelFormat,
    V4L2ZeroCopyManager, V4l2Capability, V4l2System,
};
use opennow_streamer::media::vaapi::{
    extract_vaapi_surface_from_frame, get_vaapi_driver_name, PlaneInfo, VAAPISurfaceWrapper,
    VADRMPRIMELayer, VADRMPRIMEObject, VADRMPRIMESurfaceDescriptor, VASurfaceFormat,
    VaapiExportError, VaapiZeroCopyManager, DRM_FORMAT_NV12, DRM_FORMAT_P010,
    VA_EXPORT_SURFACE_READ_ONLY, VA_EXPORT_SURFACE_SEPARATE_LAYERS, VA_STATUS_SUCCESS,
    VA_SURFACE_ATTRIB_MEM_TYPE_DRM_PRIME_2,
};

const M2M: V4l2Capability = V4l2Capability { capabilities: 0x8000, device_caps: 0 };
const CAPTURE: V4l2Capability = V4l2Capability { capabilities: 0x0001, device_caps: 0 };

fn system(model: Option<&str>, cpuinfo: Option<&str>) -> V4l2System {
    V4l2System {
        model: model.map(|s| s.to_string()),
        cpuinfo: cpuinfo.map(|s| s.to_string()),
        h264_devices: vec![None, None, None],
        hevc_devices: vec![None, None],
    }
}

fn descriptor(num_objects: u32, fd: i32) -> VADRMPRIMESurfaceDescriptor {
    let object = VADRMPRIMEObject { fd, size: 4096, drm_format_modifier: 0 };
    let layer = VADRMPRIMELayer { drm_format: DRM_FORMAT_NV12, num_planes: 1, object_index: [0; 4], offset: [0; 4], pitch: [1920; 4] };
    VADRMPRIMESurfaceDescriptor {
        fourcc: DRM_FORMAT_NV12,
        width: 1920,
        height: 1080,
        num_objects,
        objects: [object; 4],
        num_layers: 2,
        layers: [layer; 4],
    }
}

#[test]
fn test_locked_planes_layout() {
    // Test NV12 plane calculations
    let width = 1920u32;
    let height = 1080u32;

    // Y plane: full resolution
    let y_size = width * height;
    assert_eq!(y_size, 2073600);

    // UV plane: half height, same width (interleaved)
    let uv_size = width * (height / 2);
    assert_eq!(uv_size, 1036800);

    assert_eq!(nv12_plane_sizes(width, height), Some((2073600, 1036800)));
}

#[test]
fn test_drm_format_codes() {
    // Verify fourcc codes
    assert_eq!(DRM_FORMAT_NV12, 0x3231564E);
    assert_eq!(DRM_FORMAT_P010, 0x30313050);
}

#[test]
fn test_pi_detection() {
    // A Raspberry Pi 5 with its HEVC decoder
    let mut pi = system(Some("Raspberry Pi 5 Model B Rev 1.0"), None);
    pi.hevc_devices = vec![Some(M2M), None];
    let is_pi = is_raspberry_pi(&pi);
    println!("Is Raspberry Pi: {}", is_pi);

    if is_pi {
        println!("Pi Model: {:?}", get_pi_model(&pi));
        println!("H264 available: {}", is_v4l2_available(&pi, V4L2Codec::H264));
        println!("HEVC available: {}", is_v4l2_available(&pi, V4L2Codec::HEVC));
    }
    assert!(is_pi);
    assert_eq!(get_pi_model(&pi), Some(5));
    assert!(!is_v4l2_available(&pi, V4L2Codec::H264));
    assert!(is_v4l2_available(&pi, V4L2Codec::HEVC));
}

#[test]
fn va_api_constants() {
    assert_eq!(VA_STATUS_SUCCESS, 0);
    assert_eq!(VA_EXPORT_SURFACE_READ_ONLY, 1);
    assert_eq!(VA_EXPORT_SURFACE_SEPARATE_LAYERS, 4);
    assert_eq!(VA_SURFACE_ATTRIB_MEM_TYPE_DRM_PRIME_2, 0x4000_0000);
    let plane = PlaneInfo { offset: 0, pitch: 1920 };
    assert_eq!(plane.pitch, 1920);
    assert_ne!(VASurfaceFormat::NV12, VASurfaceFormat::P010);
}

#[test]
fn plane_sizes_and_their_limits() {
    assert_eq!(nv12_plane_sizes(0, 1080), Some((0, 0)));
    assert_eq!(nv12_plane_sizes(3, 3), Some((9, 4)));
    assert_eq!(nv12_plane_sizes(65535, 65537), Some((4294967295, 2147483647)));
    assert_eq!(nv12_plane_sizes(65536, 65536), None);
    assert_eq!(nv12_plane_sizes(u32::MAX, u32::MAX), None);
}

#[test]
fn mapped_buffer_is_split_into_planes() {
    let data: Vec<u8> = (0..12).collect();
    let planes = split_nv12_planes(&data, 4, 2).expect("planes");
    assert_eq!(planes.y_plane, vec![0, 1, 2, 3, 4, 5, 6, 7]);
    assert_eq!(planes.uv_plane, vec![8, 9, 10, 11]);
    assert_eq!((planes.y_stride, planes.uv_stride, planes.width, planes.height), (4, 4, 4, 2));
    assert!(split_nv12_planes(&data[..11], 4, 2).is_none());
    assert!(split_nv12_planes(&data, 4, 3).is_none());
    assert_eq!(copy_range(&data, 3, 6), vec![3, 4, 5]);
    assert!(copy_range(&data, 5, 5).is_empty());
}

#[test]
fn buffer_wrapper_does_not_own_the_decoders_descriptor() {
    let wrapper = V4L2BufferWrapper::new(17, 4, 2, V4L2PixelFormat::NV12);
    assert_eq!(wrapper.dmabuf_fd(), 17);
    assert_eq!((wrapper.width, wrapper.height, wrapper.format), (4, 2, V4L2PixelFormat::NV12));
    assert!(!wrapper.must_close());
    assert_eq!(wrapper.mapping_size(), Some(12));
    let data: Vec<u8> = (0..12).collect();
    let planes = wrapper.lock_and_get_planes(&data).unwrap();
    assert_eq!(planes.y_plane.len(), 8);
    assert_eq!(planes.uv_plane, vec![8, 9, 10, 11]);
    assert!(wrapper.lock_and_get_planes(&data[..5]).is_none());
    assert_eq!(V4L2BufferWrapper::new(-1, 65536, 65536, V4L2PixelFormat::Unknown).mapping_size(), None);
}

#[test]
fn raspberry_pi_is_told_by_model_or_processor() {
    assert!(is_raspberry_pi(&system(Some("Raspberry Pi 4 Model B"), None)));
    assert!(is_raspberry_pi(&system(Some("RASPBERRY PI Compute Module"), None)));
    // A model text that was read decides alone.
    assert!(!is_raspberry_pi(&system(Some("Generic ARM board"), Some("Hardware: BCM2835"))));
    assert!(is_raspberry_pi(&system(None, Some("Hardware\t: BCM2711\nRevision: c03111"))));
    assert!(is_raspberry_pi(&system(None, Some("model name: bcm2712"))));
    assert!(!is_raspberry_pi(&system(None, Some("model name: Intel(R) Core(TM) i7"))));
    assert!(!is_raspberry_pi(&system(None, None)));
    assert!(is_raspberry_pi_lowercase(Some("a raspberry pi"), None));
    assert!(!is_raspberry_pi_lowercase(Some("a Raspberry Pi"), None));
    assert!(is_raspberry_pi_lowercase(None, Some("bcm2835")));
}

#[test]
fn pi_model_from_the_model_text() {
    assert_eq!(get_pi_model(&system(Some("Raspberry Pi 5 Model B"), None)), Some(5));
    assert_eq!(get_pi_model(&system(Some("Raspberry Pi 4 Model B Rev 1.4"), None)), Some(4));
    assert_eq!(get_pi_model(&system(Some("Raspberry Pi 3 Model B Plus"), None)), Some(3));
    assert_eq!(get_pi_model(&system(Some("Raspberry Pi Zero 2 W"), None)), Some(0));
    assert_eq!(get_pi_model(&system(Some("raspberry pi 4"), None)), None);
    assert_eq!(get_pi_model(&system(Some("Orange Pi 5"), None)), None);
    assert_eq!(get_pi_model(&system(None, Some("BCM2711"))), None);
}

#[test]
fn m2m_capability_bits() {
    assert!(M2M.is_m2m());
    assert!(V4l2Capability { capabilities: 0, device_caps: 0x4000 }.is_m2m());
    assert!(V4l2Capability { capabilities: 0x4000, device_caps: 0 }.is_m2m());
    assert!(!CAPTURE.is_m2m());
    // The device node's own capabilities count where it reports any.
    assert!(!V4l2Capability { capabilities: 0x8000, device_caps: 0x0001 }.is_m2m());
    assert!(V4l2Capability { capabilities: 0x0001, device_caps: 0x8001 }.is_m2m());
    assert!(!V4l2Capability { capabilities: 0x3FFF, device_caps: 0 }.is_m2m());
    assert!(!V4l2Capability { capabilities: 0xFFFF_0000, device_caps: 0 }.is_m2m());
}

#[test]
fn decoder_device_is_the_first_m2m_device_in_search_order() {
    assert_eq!(decoder_search_paths(V4L2Codec::H264), vec!["/dev/video10", "/dev/video11", "/dev/video19"]);
    assert_eq!(decoder_search_paths(V4L2Codec::HEVC), vec!["/dev/video19", "/dev/video10"]);
    let mut pi = system(Some("Raspberry Pi 4 Model B"), None);
    assert_eq!(find_v4l2_decoder_device(&pi, V4L2Codec::H264), None);
    pi.h264_devices = vec![Some(CAPTURE), Some(M2M), Some(M2M)];
    assert_eq!(find_v4l2_decoder_device(&pi, V4L2Codec::H264), Some("/dev/video11".to_string()));
    pi.h264_devices = vec![Some(M2M)];
    assert_eq!(find_v4l2_decoder_device(&pi, V4L2Codec::H264), Some("/dev/video10".to_string()));
    pi.hevc_devices = vec![None, Some(M2M), Some(M2M)];
    assert_eq!(find_v4l2_decoder_device(&pi, V4L2Codec::HEVC), Some("/dev/video10".to_string()));
    pi.hevc_devices = vec![];
    assert_eq!(find_v4l2_decoder_device(&pi, V4L2Codec::HEVC), None);
}

#[test]
fn v4l2_is_available_only_on_a_raspberry_pi() {
    let mut pc = system(Some("Some PC"), None);
    pc.h264_devices = vec![Some(M2M), None, None];
    assert!(!is_v4l2_available(&pc, V4L2Codec::H264));
    let mut pi = system(Some("Raspberry Pi 4"), None);
    pi.h264_devices = vec![Some(M2M), None, None];
    assert!(is_v4l2_available(&pi, V4L2Codec::H264));
    assert!(!is_v4l2_available(&pi, V4L2Codec::HEVC));
}

#[test]
fn recommended_codec_by_model() {
    let mut pi5 = system(Some("Raspberry Pi 5 Model B"), None);
    assert_eq!(get_recommended_codec(&pi5), None);
    pi5.h264_devices = vec![Some(M2M), None, None];
    assert_eq!(get_recommended_codec(&pi5), Some(V4L2Codec::H264));
    pi5.hevc_devices = vec![Some(M2M), None];
    assert_eq!(get_recommended_codec(&pi5), Some(V4L2Codec::HEVC));
    let mut pi4 = system(Some("Raspberry Pi 4 Model B"), None);
    pi4.hevc_devices = vec![Some(M2M), None];
    assert_eq!(get_recommended_codec(&pi4), None);
    pi4.h264_devices = vec![None, None, Some(M2M)];
    assert_eq!(get_recommended_codec(&pi4), Some(V4L2Codec::H264));
    let mut pi3 = system(Some("Raspberry Pi 3 Model B"), None);
    pi3.h264_devices = vec![Some(M2M), None, None];
    assert_eq!(get_recommended_codec(&pi3), Some(V4L2Codec::H264));
    let mut zero = system(Some("Raspberry Pi Zero 2 W"), None);
    zero.h264_devices = vec![Some(M2M), None, None];
    assert_eq!(get_recommended_codec(&zero), None);
    assert_eq!(get_recommended_codec(&system(None, Some("BCM2835"))), None);
}

#[test]
fn v4l2_zero_copy_manager() {
    let mut manager = V4L2ZeroCopyManager::new(&system(Some("Raspberry Pi 4 Model B"), None));
    assert!(manager.is_enabled());
    assert_eq!(manager.pi_model(), Some(4));
    manager.disable();
    assert!(!manager.is_enabled());
    assert_eq!(manager.pi_model(), Some(4));
    let manager = V4L2ZeroCopyManager::new(&system(None, Some("BCM2711")));
    assert!(!manager.is_enabled());
    assert_eq!(manager.pi_model(), None);
}

#[test]
fn vaapi_surface_needs_a_display_and_a_surface() {
    assert!(VAAPISurfaceWrapper::from_ffmpeg_frame(false, 5, 1920, 1080).is_none());
    assert!(VAAPISurfaceWrapper::from_ffmpeg_frame(true, 0, 1920, 1080).is_none());
    let surface = VAAPISurfaceWrapper::from_ffmpeg_frame(true, 5, 1920, 1080).unwrap();
    assert_eq!(surface.surface_id(), 5);
    assert!(!surface.is_10bit());
    assert_eq!(surface.exported_fd(), None);
    assert!(extract_vaapi_surface_from_frame(0, true, 4, 2).is_none());
    assert!(extract_vaapi_surface_from_frame(9, false, 4, 2).is_none());
    assert_eq!(extract_vaapi_surface_from_frame(9, true, 4, 2).unwrap().surface_id(), 9);
    // The surface ID is the low 32 bits of the pointer's value.
    if usize::BITS == 64 {
        let pointer = (5usize << 32) | 0x1234;
        assert_eq!(extract_vaapi_surface_from_frame(pointer, true, 4, 2).unwrap().surface_id(), 0x1234);
        assert!(extract_vaapi_surface_from_frame(7usize << 32, true, 4, 2).is_none());
    }
}

#[test]
fn vaapi_export_reports_the_first_failure() {
    let mut surface = VAAPISurfaceWrapper::from_ffmpeg_frame(true, 5, 4, 2).unwrap();
    assert_eq!(surface.export_dmabuf(-1, 0, &descriptor(1, 30)), Err(VaapiExportError::SyncFailed(-1)));
    assert_eq!(surface.export_dmabuf(0, 18, &descriptor(1, 30)), Err(VaapiExportError::ExportFailed(18)));
    assert_eq!(surface.export_dmabuf(0, 0, &descriptor(0, 30)), Err(VaapiExportError::NoObjects));
    assert_eq!(surface.export_dmabuf(0, 0, &descriptor(1, -1)), Err(VaapiExportError::InvalidFd(-1)));
    assert_eq!(surface.exported_fd(), None);
    assert_eq!(surface.export_dmabuf(0, 0, &descriptor(2, 30)), Ok(30));
    assert_eq!(surface.exported_fd(), Some(30));
    assert_eq!(surface.take_fd(), Some(30));
    assert_eq!(surface.take_fd(), None);
    let data: Vec<u8> = (0..12).collect();
    let planes = surface.lock_and_get_planes(&data).unwrap();
    assert_eq!(planes.y_plane, vec![0, 1, 2, 3, 4, 5, 6, 7]);
    assert_eq!(planes.uv_plane, vec![8, 9, 10, 11]);
    assert_eq!((planes.y_stride, planes.uv_stride, planes.width, planes.height), (4, 4, 4, 2));
    assert!(surface.lock_and_get_planes(&data[..4]).is_none());
}

#[test]
fn vaapi_zero_copy_manager() {
    let mut manager = VaapiZeroCopyManager::new();
    assert!(manager.is_enabled());
    manager.set_va_display();
    assert!(manager.is_enabled());
    manager.disable();
    assert!(!manager.is_enabled());
}

#[test]
fn vaapi_driver_name_from_environment_or_render_node() {
    let entries = vec!["card0".to_string(), "renderD128".to_string()];
    assert_eq!(get_vaapi_driver_name(Some("iHD".to_string()), &entries), Some("iHD".to_string()));
    assert_eq!(get_vaapi_driver_name(Some("radeonsi".to_string()), &Vec::new()), Some("radeonsi".to_string()));
    assert_eq!(get_vaapi_driver_name(None, &entries), Some("auto".to_string()));
    assert_eq!(get_vaapi_driver_name(None, &vec!["card0".to_string(), "by-path".to_string()]), None);
    assert_eq!(get_vaapi_driver_name(None, &vec!["xrenderD128".to_string()]), None);
    assert_eq!(get_vaapi_driver_name(None, &Vec::new()), None);
}
