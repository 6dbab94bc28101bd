//! Handing a frame to the accelerator: the steps in their order, the
//! buffers with their sizes, and what counts as a failure.
//!
//! A frame goes through these steps: begin the frame; hand over the picture
//! parameters, the quantization matrix where the stream uses scaling lists,
//! the slice controls and the bitstream, each in a buffer of its type; submit
//! the buffers; end the frame; flush. A step that fails ends the frame with
//! an error: a frame that was handed over in part would leave the decoder in
//! a state that nobody knows.

use vstd::prelude::*;
use crate::media::dxva_bitstream::{packed_slices, slices_to_bytes};
use crate::media::dxva_decoder::{DxvaError, FrameSubmission};
use crate::media::dxva_params::{
    DxvaBufferType, DxvaHevcQMatrix, PIC_PARAMS_SIZE, QMATRIX_SIZE, SLICE_SHORT_SIZE,
};
use crate::media::byte_layout::copy_range;

verus! {

/// One step of handing a frame to the accelerator.
#[derive(Debug, Clone, Copy, PartialEq, Eq, Structural)]
pub enum SubmitStep {
    BeginFrame,
    /// Hand over the buffer of this type.
    Buffer(DxvaBufferType),
    SubmitBuffers,
    EndFrame,
    /// Flush the device context, so that the frame is decoded before the
    /// surface is used.
    Flush,
    /// The frame is with the accelerator.
    Done,
}

/// Description of a buffer that was handed over, as the accelerator wants
/// it with the submission.
#[derive(Debug, Clone, Copy, PartialEq, Eq, Structural)]
pub struct DxvaBufferDesc {
    pub buffer_type: DxvaBufferType,
    pub data_size: u32,
    /// Number of slices for the slice control buffer, else zero
    pub num_mbs_in_buffer: u32,
    pub width: u32,
    pub height: u32,
}

/// What the accelerator answered when it was asked for a buffer.
#[derive(Debug, Clone, Copy, PartialEq, Eq, Structural)]
pub enum BufferGrant {
    /// The request failed.
    Refused,
    /// The request gave a null buffer.
    Null,
    /// The request gave a buffer of this size.
    Granted(u32),
}

/// The step that follows `step` for a frame that sends the quantization
/// matrix or not, and has slice controls or not.
pub open spec fn step_after(step: SubmitStep, send_qmatrix: bool, has_slices: bool) -> SubmitStep {
    let after_matrix = if has_slices {
        SubmitStep::Buffer(DxvaBufferType::SliceControl)
    } else {
        SubmitStep::Buffer(DxvaBufferType::Bitstream)
    };
    match step {
        SubmitStep::BeginFrame => SubmitStep::Buffer(DxvaBufferType::PictureParameters),
        SubmitStep::Buffer(DxvaBufferType::PictureParameters) => if send_qmatrix {
            SubmitStep::Buffer(DxvaBufferType::InverseQuantizationMatrix)
        } else {
            after_matrix
        },
        SubmitStep::Buffer(DxvaBufferType::InverseQuantizationMatrix) => after_matrix,
        SubmitStep::Buffer(DxvaBufferType::SliceControl) => SubmitStep::Buffer(
            DxvaBufferType::Bitstream,
        ),
        SubmitStep::Buffer(_) => SubmitStep::SubmitBuffers,
        SubmitStep::SubmitBuffers => SubmitStep::EndFrame,
        SubmitStep::EndFrame => SubmitStep::Flush,
        SubmitStep::Flush => SubmitStep::Done,
        SubmitStep::Done => SubmitStep::Done,
    }
}

/// The error that a failed step ends the frame with.
pub open spec fn step_failure(step: SubmitStep) -> DxvaError {
    match step {
        SubmitStep::BeginFrame => DxvaError::BeginFrameFailed,
        SubmitStep::Buffer(buffer_type) => DxvaError::BufferUnavailable(buffer_type),
        SubmitStep::SubmitBuffers => DxvaError::SubmitBuffersFailed,
        _ => DxvaError::EndFrameFailed,
    }
}

/// What the answer to a request for a buffer means for a payload of
/// `needed` bytes: the payload is copied where the buffer is there and large
/// enough.
pub open spec fn grant_outcome(buffer_type: DxvaBufferType, needed: u32, grant: BufferGrant)
    -> Result<(), DxvaError> {
    match grant {
        BufferGrant::Refused => Err(DxvaError::BufferUnavailable(buffer_type)),
        BufferGrant::Null => Err(DxvaError::BufferNull(buffer_type)),
        BufferGrant::Granted(size) => if needed > size {
            Err(DxvaError::BufferTooSmall(buffer_type))
        } else {
            Ok(())
        },
    }
}

/// Checks the accelerator's answer to a request for a buffer.
pub fn check_buffer_grant(buffer_type: DxvaBufferType, needed: u32, grant: BufferGrant) -> (outcome:
    Result<(), DxvaError>)
    ensures
        outcome == grant_outcome(buffer_type, needed, grant),
{
    match grant {
        BufferGrant::Refused => Err(DxvaError::BufferUnavailable(buffer_type)),
        BufferGrant::Null => Err(DxvaError::BufferNull(buffer_type)),
        BufferGrant::Granted(size) => {
            if needed > size {
                Err(DxvaError::BufferTooSmall(buffer_type))
            } else {
                Ok(())
            }
        },
    }
}

/// What handing a buffer back means: an error where the accelerator did
/// not take it.
pub fn check_buffer_release(buffer_type: DxvaBufferType, released: bool) -> (outcome: Result<
    (),
    DxvaError,
>)
    ensures
        outcome == if released {
            Ok::<(), DxvaError>(())
        } else {
            Err::<(), DxvaError>(DxvaError::BufferReleaseFailed(buffer_type))
        },
{
    if released {
        Ok(())
    } else {
        Err(DxvaError::BufferReleaseFailed(buffer_type))
    }
}

impl FrameSubmission {
    /// The bytes that go into the buffer of a type: the packed picture
    /// parameters, a flat quantization matrix, the packed slice controls, or
    /// the bitstream. Other types carry nothing.
    pub open spec fn payload(self, buffer_type: DxvaBufferType) -> Seq<u8> {
        match buffer_type {
            DxvaBufferType::PictureParameters => self.pic_params.packed(),
            DxvaBufferType::SliceControl => packed_slices(self.slice_controls@),
            DxvaBufferType::Bitstream => self.bitstream@,
            _ => Seq::empty(),
        }
    }

    /// The first step.
    pub fn first_step(&self) -> (step: SubmitStep)
        ensures
            step == SubmitStep::BeginFrame,
    {
        SubmitStep::BeginFrame
    }

    /// The step that follows a step that went well.
    pub fn next_step(&self, step: SubmitStep) -> (next: SubmitStep)
        ensures
            next == step_after(step, self.send_qmatrix, self.slice_controls@.len() > 0),
    {
        let after_matrix = if self.slice_controls.len() > 0 {
            SubmitStep::Buffer(DxvaBufferType::SliceControl)
        } else {
            SubmitStep::Buffer(DxvaBufferType::Bitstream)
        };
        match step {
            SubmitStep::BeginFrame => SubmitStep::Buffer(DxvaBufferType::PictureParameters),
            SubmitStep::Buffer(DxvaBufferType::PictureParameters) => {
                if self.send_qmatrix {
                    SubmitStep::Buffer(DxvaBufferType::InverseQuantizationMatrix)
                } else {
                    after_matrix
                }
            },
            SubmitStep::Buffer(DxvaBufferType::InverseQuantizationMatrix) => after_matrix,
            SubmitStep::Buffer(DxvaBufferType::SliceControl) => SubmitStep::Buffer(
                DxvaBufferType::Bitstream,
            ),
            SubmitStep::Buffer(_) => SubmitStep::SubmitBuffers,
            SubmitStep::SubmitBuffers => SubmitStep::EndFrame,
            SubmitStep::EndFrame => SubmitStep::Flush,
            SubmitStep::Flush => SubmitStep::Done,
            SubmitStep::Done => SubmitStep::Done,
        }
    }

    /// The error that the frame ends with where a step failed.
    pub fn failure(step: SubmitStep) -> (error: DxvaError)
        ensures
            error == step_failure(step),
    {
        match step {
            SubmitStep::BeginFrame => DxvaError::BeginFrameFailed,
            SubmitStep::Buffer(buffer_type) => DxvaError::BufferUnavailable(buffer_type),
            SubmitStep::SubmitBuffers => DxvaError::SubmitBuffersFailed,
            _ => DxvaError::EndFrameFailed,
        }
    }

    /// The bytes that go into the buffer of a type.
    pub fn buffer_bytes(&self, buffer_type: DxvaBufferType) -> (bytes: Vec<u8>)
        ensures
            match buffer_type {
                DxvaBufferType::InverseQuantizationMatrix => exists|matrix: DxvaHevcQMatrix|
                    matrix.is_flat() && bytes@ == matrix.packed(),
                _ => bytes@ == self.payload(buffer_type),
            },
            bytes@.len() == match buffer_type {
                DxvaBufferType::PictureParameters => PIC_PARAMS_SIZE as int,
                DxvaBufferType::InverseQuantizationMatrix => QMATRIX_SIZE as int,
                DxvaBufferType::SliceControl => 10 * (self.slice_controls@.len() as int),
                DxvaBufferType::Bitstream => self.bitstream@.len() as int,
                _ => 0,
            },
    {
        match buffer_type {
            DxvaBufferType::PictureParameters => self.pic_params.to_bytes(),
            DxvaBufferType::InverseQuantizationMatrix => {
                let matrix = DxvaHevcQMatrix::default();
                matrix.to_bytes()
            },
            DxvaBufferType::SliceControl => slices_to_bytes(&self.slice_controls),
            DxvaBufferType::Bitstream => copy_range(
                self.bitstream.as_slice(),
                0,
                self.bitstream.len(),
            ),
            _ => Vec::new(),
        }
    }

    /// The descriptions of the buffers that are handed over for the frame,
    /// in the order of the steps, for a decoder of `width` by `height`.
    pub fn buffer_descs(&self, width: u32, height: u32) -> (descs: Vec<DxvaBufferDesc>)
        requires
            self.bitstream@.len() <= u32::MAX,
            10 * self.slice_controls@.len() <= u32::MAX,
        ensures
            descs@ == buffer_descs_of(
                self.send_qmatrix,
                self.slice_controls@.len() as int,
                self.bitstream@.len() as int,
                width,
                height,
            ),
    {
        let mut descs: Vec<DxvaBufferDesc> = Vec::new();
        descs.push(
            DxvaBufferDesc {
                buffer_type: DxvaBufferType::PictureParameters,
                data_size: PIC_PARAMS_SIZE as u32,
                num_mbs_in_buffer: 0,
                width,
                height,
            },
        );
        if self.send_qmatrix {
            descs.push(
                DxvaBufferDesc {
                    buffer_type: DxvaBufferType::InverseQuantizationMatrix,
                    data_size: QMATRIX_SIZE as u32,
                    num_mbs_in_buffer: 0,
                    width,
                    height,
                },
            );
        }
        let count: usize = self.slice_controls.len();
        if count > 0 {
            descs.push(
                DxvaBufferDesc {
                    buffer_type: DxvaBufferType::SliceControl,
                    data_size: (SLICE_SHORT_SIZE * count) as u32,
                    num_mbs_in_buffer: count as u32,
                    width,
                    height,
                },
            );
        }
        descs.push(
            DxvaBufferDesc {
                buffer_type: DxvaBufferType::Bitstream,
                data_size: self.bitstream.len() as u32,
                num_mbs_in_buffer: 0,
                width,
                height,
            },
        );
        assert(descs@ =~= buffer_descs_of(
            self.send_qmatrix,
            self.slice_controls@.len() as int,
            self.bitstream@.len() as int,
            width,
            height,
        ));
        descs
    }
}

/// The descriptions of the buffers of a frame with `slices` slice controls
/// and a bitstream of `bitstream_len` bytes: the picture parameters, the
/// quantization matrix where it is sent, the slice controls where there are
/// any, and the bitstream.
pub open spec fn buffer_descs_of(
    send_qmatrix: bool,
    slices: int,
    bitstream_len: int,
    width: u32,
    height: u32,
) -> Seq<DxvaBufferDesc> {
    seq![
        DxvaBufferDesc {
            buffer_type: DxvaBufferType::PictureParameters,
            data_size: PIC_PARAMS_SIZE as u32,
            num_mbs_in_buffer: 0,
            width,
            height,
        },
    ] + (if send_qmatrix {
        seq![
            DxvaBufferDesc {
                buffer_type: DxvaBufferType::InverseQuantizationMatrix,
                data_size: QMATRIX_SIZE as u32,
                num_mbs_in_buffer: 0,
                width,
                height,
            },
        ]
    } else {
        Seq::empty()
    }) + (if slices > 0 {
        seq![
            DxvaBufferDesc {
                buffer_type: DxvaBufferType::SliceControl,
                data_size: (10 * slices) as u32,
                num_mbs_in_buffer: slices as u32,
                width,
                height,
            },
        ]
    } else {
        Seq::empty()
    }) + seq![
        DxvaBufferDesc {
            buffer_type: DxvaBufferType::Bitstream,
            data_size: bitstream_len as u32,
            num_mbs_in_buffer: 0,
            width,
            height,
        },
    ]
}

} // verus!
