//! VA-API zero-copy video support for Linux.
//!
//! Decoded frames stay on the GPU as VA surfaces and are shared with the
//! renderer as DMA-BUF descriptors. The caller talks to the VA-API library;
//! this module decides what its answers mean and lays out the planes of the
//! fallback copy.

use vstd::prelude::*;
use crate::media::byte_layout::copy_range;
use crate::media::v4l2::{nv12_chroma_size, nv12_luma_size, nv12_plane_sizes};
use crate::text::{has_prefix, starts_with};

verus! {

/// VA surface format (matches VA-API definitions)
#[derive(Debug, Clone, Copy, PartialEq, Eq, Structural)]
pub enum VASurfaceFormat {
    /// 8-bit 4:2:0
    NV12,
    /// 10-bit 4:2:0 (HDR)
    P010,
    Unknown,
}

/// Information about a single plane in a multi-planar surface
#[derive(Debug, Clone, Copy)]
pub struct PlaneInfo {
    pub offset: u32,
    pub pitch: u32,
}

/// DRM fourcc code of NV12
pub const DRM_FORMAT_NV12: u32 = 0x3231564E;

/// DRM fourcc code of P010
pub const DRM_FORMAT_P010: u32 = 0x30313050;

/// Status that VA-API calls return on success
pub const VA_STATUS_SUCCESS: i32 = 0;

/// Export flag: the surface is only read
pub const VA_EXPORT_SURFACE_READ_ONLY: u32 = 0x0001;

/// Export flag: one layer per plane
pub const VA_EXPORT_SURFACE_SEPARATE_LAYERS: u32 = 0x0004;

/// Memory type for DRM PRIME export
pub const VA_SURFACE_ATTRIB_MEM_TYPE_DRM_PRIME_2: u32 = 0x40000000;

/// One exported memory object of a surface
#[derive(Debug, Clone, Copy)]
pub struct VADRMPRIMEObject {
    pub fd: i32,
    pub size: u32,
    pub drm_format_modifier: u64,
}

/// One layer of an exported surface
#[derive(Debug, Clone, Copy)]
pub struct VADRMPRIMELayer {
    pub drm_format: u32,
    pub num_planes: u32,
    pub object_index: [u32; 4],
    pub offset: [u32; 4],
    pub pitch: [u32; 4],
}

/// Description of an exported surface
#[derive(Debug, Clone, Copy)]
pub struct VADRMPRIMESurfaceDescriptor {
    pub fourcc: u32,
    pub width: u32,
    pub height: u32,
    pub num_objects: u32,
    pub objects: [VADRMPRIMEObject; 4],
    pub num_layers: u32,
    pub layers: [VADRMPRIMELayer; 4],
}

/// Locked plane data from VAAPI surface
#[derive(Debug)]
pub struct LockedPlanes {
    pub y_plane: Vec<u8>,
    pub uv_plane: Vec<u8>,
    pub y_stride: u32,
    pub uv_stride: u32,
    pub width: u32,
    pub height: u32,
}

/// Why a surface could not be exported.
#[derive(Debug, Clone, Copy, PartialEq, Eq, Structural)]
pub enum VaapiExportError {
    /// Waiting for the decode to complete failed with this status.
    SyncFailed(i32),
    /// The export call failed with this status.
    ExportFailed(i32),
    /// The export gave no memory object.
    NoObjects,
    /// The first memory object has this invalid descriptor.
    InvalidFd(i32),
}

/// What an export attempt gives: the descriptor of the first memory object
/// where the surface was synced and exported and that descriptor is valid,
/// else the first thing that went wrong.
pub open spec fn export_outcome(
    sync_status: i32,
    export_status: i32,
    descriptor: VADRMPRIMESurfaceDescriptor,
) -> Result<i32, VaapiExportError> {
    if sync_status != VA_STATUS_SUCCESS {
        Err(VaapiExportError::SyncFailed(sync_status))
    } else if export_status != VA_STATUS_SUCCESS {
        Err(VaapiExportError::ExportFailed(export_status))
    } else if descriptor.num_objects == 0 {
        Err(VaapiExportError::NoObjects)
    } else if descriptor.objects[0].fd < 0 {
        Err(VaapiExportError::InvalidFd(descriptor.objects[0].fd))
    } else {
        Ok(descriptor.objects[0].fd)
    }
}

/// Surface from a hardware decoder, with the DMA-BUF descriptor once it was
/// exported.
#[derive(Debug)]
pub struct VAAPISurfaceWrapper {
    /// VA surface ID
    surface_id: u32,
    /// DMA-BUF file descriptor (lazily exported)
    dmabuf_fd: Option<i32>,
    /// Surface dimensions
    width: u32,
    height: u32,
    /// Surface format
    format: VASurfaceFormat,
    /// DRM format fourcc
    drm_format: u32,
    /// DRM modifier (for tiled formats)
    drm_modifier: u64,
}

/// The surface wrapper as contracts see it.
pub struct SurfaceModel {
    pub surface_id: u32,
    pub dmabuf_fd: Option<i32>,
    pub width: u32,
    pub height: u32,
    pub format: VASurfaceFormat,
    pub drm_format: u32,
    pub drm_modifier: u64,
}

impl View for VAAPISurfaceWrapper {
    type V = SurfaceModel;

    closed spec fn view(&self) -> SurfaceModel {
        SurfaceModel {
            surface_id: self.surface_id,
            dmabuf_fd: self.dmabuf_fd,
            width: self.width,
            height: self.height,
            format: self.format,
            drm_format: self.drm_format,
            drm_modifier: self.drm_modifier,
        }
    }
}

impl VAAPISurfaceWrapper {
    /// Create a new wrapper from a decoded frame's surface. A frame without
    /// a display or with surface zero has no surface to wrap.
    pub fn from_ffmpeg_frame(has_display: bool, surface_id: u32, width: u32, height: u32) -> (wrapper:
        Option<Self>)
        ensures
            wrapper is Some <==> has_display && surface_id != 0,
            wrapper matches Some(w) ==> w@ == (SurfaceModel {
                surface_id,
                dmabuf_fd: None,
                width,
                height,
                format: VASurfaceFormat::NV12,
                drm_format: DRM_FORMAT_NV12,
                drm_modifier: 0,
            }),
    {
        if !has_display || surface_id == 0 {
            return None;
        }
        Some(
            VAAPISurfaceWrapper {
                surface_id,
                dmabuf_fd: None,
                width,
                height,
                format: VASurfaceFormat::NV12,
                drm_format: DRM_FORMAT_NV12,
                drm_modifier: 0,
            },
        )
    }

    /// The descriptor of an earlier export, if there was one: the surface
    /// is exported once.
    pub fn exported_fd(&self) -> (fd: Option<i32>)
        ensures
            fd == self@.dmabuf_fd,
    {
        self.dmabuf_fd
    }

    /// Takes in what the library answered to an export of the surface, and
    /// gives the descriptor to use. A good answer is kept for later calls.
    pub fn export_dmabuf(
        &mut self,
        sync_status: i32,
        export_status: i32,
        descriptor: &VADRMPRIMESurfaceDescriptor,
    ) -> (fd: Result<i32, VaapiExportError>)
        ensures
            fd == export_outcome(sync_status, export_status, *descriptor),
            final(self)@ == match fd {
                Ok(value) => SurfaceModel { dmabuf_fd: Some(value), ..old(self)@ },
                Err(_) => old(self)@,
            },
    {
        if sync_status != VA_STATUS_SUCCESS {
            return Err(VaapiExportError::SyncFailed(sync_status));
        }
        if export_status != VA_STATUS_SUCCESS {
            return Err(VaapiExportError::ExportFailed(export_status));
        }
        if descriptor.num_objects == 0 {
            return Err(VaapiExportError::NoObjects);
        }
        let fd: i32 = descriptor.objects[0].fd;
        if fd < 0 {
            return Err(VaapiExportError::InvalidFd(fd));
        }
        self.dmabuf_fd = Some(fd);
        Ok(fd)
    }

    /// Get the surface ID
    pub fn surface_id(&self) -> (id: u32)
        ensures
            id == self@.surface_id,
    {
        self.surface_id
    }

    /// Number of bytes to map for the fallback copy: both planes of the
    /// NV12 picture.
    pub fn mapping_size(&self) -> (size: Option<usize>)
        ensures
            size is Some <==> nv12_luma_size(self@.width, self@.height) <= u32::MAX && nv12_luma_size(
                self@.width,
                self@.height,
            ) + nv12_chroma_size(self@.width, self@.height) <= usize::MAX,
            size matches Some(n) ==> n == nv12_luma_size(self@.width, self@.height)
                + nv12_chroma_size(self@.width, self@.height),
    {
        match nv12_plane_sizes(self.width, self.height) {
            Some((y_size, uv_size)) => Some(y_size + uv_size),
            None => None,
        }
    }

    /// Check if this is a 10-bit HDR surface
    pub fn is_10bit(&self) -> (yes: bool)
        ensures
            yes == (self@.format == VASurfaceFormat::P010),
    {
        self.format == VASurfaceFormat::P010
    }

    /// Copy the luma and the chroma plane out of the mapped surface. This is
    /// the fallback path when zero-copy import fails.
    pub fn lock_and_get_planes(&self, mapped: &[u8]) -> (planes: Option<LockedPlanes>)
        ensures
            planes is Some <==> nv12_luma_size(self@.width, self@.height) <= u32::MAX && mapped@.len()
                == nv12_luma_size(self@.width, self@.height) + nv12_chroma_size(
                self@.width,
                self@.height,
            ),
            planes matches Some(p) ==> {
                &&& p.y_plane@ == mapped@.subrange(0, nv12_luma_size(self@.width, self@.height))
                &&& p.uv_plane@ == mapped@.subrange(
                    nv12_luma_size(self@.width, self@.height),
                    mapped@.len() as int,
                )
                &&& p.y_stride == self@.width
                &&& p.uv_stride == self@.width
                &&& p.width == self@.width
                &&& p.height == self@.height
            },
    {
        let len: usize = mapped.len();
        match nv12_plane_sizes(self.width, self.height) {
            None => None,
            Some((y_size, uv_size)) => {
                if len != y_size + uv_size {
                    return None;
                }
                Some(
                    LockedPlanes {
                        y_plane: copy_range(mapped, 0, y_size),
                        uv_plane: copy_range(mapped, y_size, len),
                        y_stride: self.width,
                        uv_stride: self.width,
                        width: self.width,
                        height: self.height,
                    },
                )
            },
        }
    }

    /// The descriptor to close when the wrapper goes: the exported one.
    pub fn take_fd(&mut self) -> (fd: Option<i32>)
        ensures
            fd == old(self)@.dmabuf_fd,
            final(self)@ == (SurfaceModel { dmabuf_fd: None, ..old(self)@ }),
    {
        let fd = self.dmabuf_fd;
        self.dmabuf_fd = None;
        fd
    }
}

/// Manager for VAAPI zero-copy surfaces
#[derive(Debug)]
pub struct VaapiZeroCopyManager {
    /// Whether zero-copy is enabled
    enabled: bool,
    /// Whether a VA display was set
    has_display: bool,
}

impl VaapiZeroCopyManager {
    /// Whether zero-copy is on.
    pub closed spec fn spec_is_enabled(&self) -> bool {
        self.enabled
    }

    /// Whether a display was set.
    pub closed spec fn spec_has_display(&self) -> bool {
        self.has_display
    }

    /// Create a new manager: zero-copy on, no display yet
    pub fn new() -> (manager: Self)
        ensures
            manager.spec_is_enabled(),
            !manager.spec_has_display(),
    {
        VaapiZeroCopyManager { enabled: true, has_display: false }
    }

    /// Records that the VA display of the decoder context was set
    pub fn set_va_display(&mut self)
        ensures
            final(self).spec_has_display(),
            final(self).spec_is_enabled() == old(self).spec_is_enabled(),
    {
        self.has_display = true;
    }

    /// Check if zero-copy is enabled
    #[verifier::when_used_as_spec(spec_is_enabled)]
    pub fn is_enabled(&self) -> (enabled: bool)
        ensures
            enabled == self.spec_is_enabled(),
    {
        self.enabled
    }

    /// Disable zero-copy (fallback to CPU path)
    pub fn disable(&mut self)
        ensures
            !final(self).spec_is_enabled(),
            final(self).spec_has_display() == old(self).spec_has_display(),
    {
        self.enabled = false;
    }
}

/// The surface ID that a frame's fourth data pointer carries: the pointer's
/// value, kept to 32 bits.
pub open spec fn surface_id_of_pointer(value: usize) -> u32 {
    (value as int % 0x1_0000_0000) as u32
}

/// Extract the surface from a decoded frame: its fourth data pointer holds
/// the surface ID. A null pointer or a missing display gives nothing.
pub fn extract_vaapi_surface_from_frame(
    data3: usize,
    has_display: bool,
    width: u32,
    height: u32,
) -> (wrapper: Option<VAAPISurfaceWrapper>)
    ensures
        wrapper is Some <==> data3 != 0 && has_display && surface_id_of_pointer(data3) != 0,
        wrapper matches Some(w) ==> w@ == (SurfaceModel {
            surface_id: surface_id_of_pointer(data3),
            dmabuf_fd: None,
            width,
            height,
            format: VASurfaceFormat::NV12,
            drm_format: DRM_FORMAT_NV12,
            drm_modifier: 0,
        }),
{
    if data3 == 0 || !has_display {
        return None;
    }
    let surface_id: u32 = (data3 as u64 % 0x1_0000_0000) as u32;
    VAAPISurfaceWrapper::from_ffmpeg_frame(has_display, surface_id, width, height)
}

/// Whether one of the entries of the DRI device directory is a render node.
pub open spec fn has_render_node(entries: Seq<String>) -> bool {
    exists|i: int| 0 <= i < entries.len() && has_prefix(#[trigger] entries[i]@, "renderD"@)
}

/// Get the VAAPI driver name for the current GPU: the name that the
/// environment sets, else "auto" where the DRI device directory holds a
/// render node.
pub fn get_vaapi_driver_name(driver_from_env: Option<String>, dri_entries: &Vec<String>) -> (name:
    Option<String>)
    ensures
        name is Some <==> driver_from_env is Some || has_render_node(dri_entries@),
        name matches Some(n) ==> n@ == match driver_from_env {
            Some(d) => d@,
            None => "auto"@,
        },
{
    match driver_from_env {
        Some(driver) => Some(driver),
        None => {
            let mut i: usize = 0;
            while i < dri_entries.len()
                invariant
                    0 <= i <= dri_entries@.len(),
                    driver_from_env is None,
                    forall|j: int| 0 <= j < i ==> !has_prefix(#[trigger] dri_entries@[j]@, "renderD"@),
                decreases dri_entries@.len() - i,
            {
                if starts_with(dri_entries[i].as_str(), "renderD") {
                    return Some(String::from_str("auto"));
                }
                i += 1;
            }
            None
        },
    }
}

} // verus!
