//! Native D3D11 video decoder (DXVA2): the decoder's own state.
//!
//! The decoder owns a fixed pool of output surfaces and the decoded picture
//! buffer that says which of them still hold reference pictures. For each
//! frame it picks a free surface, derives the picture order count, builds the
//! accelerator's picture parameters and, once the accelerator has decoded the
//! frame, records it as a reference. The calls into the accelerator are made
//! by the caller.

use vstd::prelude::*;
use crate::media::dpb::{
    contains_surface, dpb_after_picture, evict_oldest, holds_surface, in_decode_order, is_oldest,
    lemma_evict_to, lemma_first_is_oldest, lemma_picture_keeps_order, lemma_remove_entry,
    lemma_remove_keeps_order, lemma_without_surface, oldest_position, reference_entry,
    remove_surface, surface_tag, surfaces_in_pool, unique_surfaces, without_surface, DpbEntry,
};
use crate::media::dxva_bitstream::{
    build_bitstream_and_slices, framed_stream, nal_bytes, padded_len, padded_stream,
    reported_bytes, slice_control, wants_start_codes, DxvaHevcSliceShort,
};
use crate::media::dxva_params::{build_pic_params, DxvaBufferType, DxvaHevcPicParams};
use crate::media::hevc_parser::{
    lemma_after_nals_keeps_framing, units_view, HevcNalType, HevcNalUnit, HevcParseError, HevcParser, HevcPps,
    HevcSliceHeader, HevcSps, ParserModel,
};
use crate::media::poc::{full_poc, history_after, poc_in_range, PocHistory};

verus! {

/// Video codec types supported by the decoder
#[derive(Debug, Clone, Copy, PartialEq, Eq, Structural)]
pub enum DxvaCodec {
    H264,
    HEVC,
}

/// Pixel format of the output surfaces.
#[derive(Debug, Clone, Copy, PartialEq, Eq, Structural)]
pub enum DxvaOutputFormat {
    /// 8-bit 4:2:0
    Nv12,
    /// 10-bit 4:2:0
    P010,
}

/// Decoder profile that the accelerator is asked for.
#[derive(Debug, Clone, Copy, PartialEq, Eq, Structural)]
pub enum DxvaProfile {
    H264VldNoFgt,
    HevcVldMain,
    HevcVldMain10,
}

/// Decoder configuration
#[derive(Debug, Clone, Copy)]
pub struct DxvaDecoderConfig {
    /// Video codec
    pub codec: DxvaCodec,
    /// Video width
    pub width: u32,
    /// Video height
    pub height: u32,
    /// Whether HDR (10-bit) is enabled
    pub is_hdr: bool,
    /// Number of surfaces in the decoder pool
    pub surface_count: u32,
}

impl Default for DxvaDecoderConfig {
    fn default() -> (config: Self)
        ensures
            config == (DxvaDecoderConfig {
                codec: DxvaCodec::HEVC,
                width: 1920,
                height: 1080,
                is_hdr: false,
                surface_count: 25,
            }),
    {
        DxvaDecoderConfig {
            codec: DxvaCodec::HEVC,
            width: 1920,
            height: 1080,
            is_hdr: false,
            surface_count: 25,
        }
    }
}

/// Number of entries that the decoded picture buffer of a new decoder holds
/// at most.
pub const DPB_MAX_SIZE: usize = 18;

/// Range of the low bits of the picture order count until a sequence
/// parameter set says otherwise.
pub const DEFAULT_MAX_POC_LSB: i32 = 256;

/// The decoder as contracts see it.
pub struct DecoderModel {
    pub config: DxvaDecoderConfig,
    pub output_format: DxvaOutputFormat,
    pub profile: DxvaProfile,
    /// Whether the accelerator's decoder and its output views exist.
    pub initialized: bool,
    /// Round-robin cursor into the surface pool.
    pub cursor: int,
    pub dpb: Seq<DpbEntry>,
    pub dpb_max_size: int,
    /// How the accelerator wants the bitstream framed: 2 without start
    /// codes, else with them.
    pub config_bitstream_raw: int,
    pub frame_count: int,
    pub history: PocHistory,
    pub max_poc_lsb: int,
    /// Largest resolution that the capability check has confirmed.
    pub max_width: u32,
    pub max_height: u32,
}

impl DecoderModel {
    /// Number of surfaces in the pool.
    pub open spec fn surface_count(self) -> int {
        self.config.surface_count as int
    }

    /// What every decoder keeps true of itself.
    pub open spec fn wf(self) -> bool {
        &&& self.surface_count() > 0
        &&& 0 <= self.cursor < self.surface_count()
        &&& self.dpb_max_size >= 1
        &&& self.dpb.len() <= self.dpb_max_size
        &&& unique_surfaces(self.dpb)
        &&& surfaces_in_pool(self.dpb, self.surface_count())
        &&& self.frame_count >= 0
        &&& in_decode_order(self.dpb, self.frame_count)
        &&& self.history.prev_lsb >= 0
    }

    /// Whether surface `index` is free: no entry of the buffer holds it.
    pub open spec fn is_free(self, index: int) -> bool {
        !holds_surface(self.dpb, surface_tag(index))
    }

    /// The surface that lies `offset` steps after the cursor.
    pub open spec fn candidate(self, offset: int) -> int {
        (self.cursor + offset) % self.surface_count()
    }

    /// Whether `offset` is the first step from the cursor to a free surface.
    pub open spec fn is_first_free(self, offset: int) -> bool {
        &&& 0 <= offset < self.surface_count()
        &&& self.is_free(self.candidate(offset))
        &&& forall|j: int| 0 <= j < offset ==> !self.is_free(#[trigger] self.candidate(j))
    }

    /// Whether any surface of the pool is free.
    pub open spec fn has_free_surface(self) -> bool {
        exists|offset: int| self.is_first_free(offset)
    }

    /// Steps from the cursor to the first free surface.
    pub open spec fn first_free_offset(self) -> int {
        choose|offset: int| self.is_first_free(offset)
    }

    /// The surface that the next frame is decoded into.
    pub open spec fn next_surface(self) -> int {
        if self.has_free_surface() {
            self.candidate(self.first_free_offset())
        } else if self.dpb.len() > 0 {
            self.dpb[0].surface_index as int
        } else {
            self.cursor
        }
    }

    /// The decoder after it handed out the next surface: the cursor stands
    /// behind a free surface that was found; where none was free, the first
    /// entry of the buffer gave up its surface.
    pub open spec fn after_next_surface(self) -> DecoderModel {
        if self.has_free_surface() {
            DecoderModel { cursor: (self.next_surface() + 1) % self.surface_count(), ..self }
        } else if self.dpb.len() > 0 {
            DecoderModel { dpb: self.dpb.remove(0), ..self }
        } else {
            DecoderModel { cursor: (self.cursor + 1) % self.surface_count(), ..self }
        }
    }

    /// The decoder after a frame was decoded into surface `surface_idx`.
    pub open spec fn after_picture(
        self,
        surface_idx: int,
        poc: i32,
        is_reference: bool,
        is_idr: bool,
    ) -> DecoderModel {
        DecoderModel {
            frame_count: self.frame_count + 1,
            history: if is_idr {
                PocHistory { prev_lsb: 0, prev_msb: 0 }
            } else {
                self.history
            },
            dpb: dpb_after_picture(
                self.dpb,
                surface_idx,
                poc,
                is_reference,
                is_idr,
                (self.frame_count + 1) as u64,
                self.dpb_max_size,
            ),
            ..self
        }
    }

    /// The decoder after a seek or an error: no references, no history.
    pub open spec fn cleared(self) -> DecoderModel {
        DecoderModel {
            dpb: Seq::empty(),
            history: PocHistory { prev_lsb: 0, prev_msb: 0 },
            frame_count: 0,
            ..self
        }
    }
}

/// There is at most one first step to a free surface.
pub proof fn lemma_first_free_unique(m: DecoderModel, offset: int)
    requires
        m.is_first_free(offset),
    ensures
        m.has_free_surface(),
        m.first_free_offset() == offset,
{
    let c = m.first_free_offset();
    assert(m.is_first_free(c));
    if c < offset {
        assert(!m.is_free(m.candidate(c)));
    } else if offset < c {
        assert(!m.is_free(m.candidate(offset)));
    }
}

/// Output format and decoder profile for a configuration: 10-bit output
/// for HDR, and the profile of the codec at that bit depth.
pub open spec fn format_and_profile(config: DxvaDecoderConfig) -> (DxvaOutputFormat, DxvaProfile) {
    (
        if config.is_hdr {
            DxvaOutputFormat::P010
        } else {
            DxvaOutputFormat::Nv12
        },
        match config.codec {
            DxvaCodec::H264 => DxvaProfile::H264VldNoFgt,
            DxvaCodec::HEVC => if config.is_hdr {
                DxvaProfile::HevcVldMain10
            } else {
                DxvaProfile::HevcVldMain
            },
        },
    )
}

/// A decoder for `config` before the accelerator was set up.
pub open spec fn new_decoder_model(config: DxvaDecoderConfig) -> DecoderModel {
    DecoderModel {
        config,
        output_format: format_and_profile(config).0,
        profile: format_and_profile(config).1,
        initialized: false,
        cursor: 0,
        dpb: Seq::empty(),
        dpb_max_size: DPB_MAX_SIZE as int,
        config_bitstream_raw: 1,
        frame_count: 0,
        history: PocHistory { prev_lsb: 0, prev_msb: 0 },
        max_poc_lsb: DEFAULT_MAX_POC_LSB as int,
        max_width: 0,
        max_height: 0,
    }
}

/// Native D3D11 video decoder: surface pool, decoded picture buffer and
/// picture order count history of one decoder instance.
pub struct DxvaDecoder {
    /// Current configuration
    config: DxvaDecoderConfig,
    /// Format of the output surfaces
    output_format: DxvaOutputFormat,
    /// Decoder profile
    profile: DxvaProfile,
    /// Whether the accelerator's decoder and output views exist
    initialized: bool,
    /// Current surface index (round-robin)
    current_surface: u32,
    /// Maximum supported resolution
    max_width: u32,
    max_height: u32,
    /// Decoded picture buffer for reference frame management
    dpb: Vec<DpbEntry>,
    /// Maximum size of the decoded picture buffer
    dpb_max_size: usize,
    /// 2 = raw bitstream without start codes, else with them
    config_bitstream_raw: u32,
    /// Frame counter for the decode order of buffer entries
    frame_count: u64,
    /// Low bits of the previous picture order count
    prev_poc_lsb: i32,
    /// High part of the previous picture order count
    prev_poc_msb: i32,
    /// Range of the low bits: two to the power the parameter set gives
    max_poc_lsb: i32,
}

impl View for DxvaDecoder {
    type V = DecoderModel;

    closed spec fn view(&self) -> DecoderModel {
        DecoderModel {
            config: self.config,
            output_format: self.output_format,
            profile: self.profile,
            initialized: self.initialized,
            cursor: self.current_surface as int,
            dpb: self.dpb@,
            dpb_max_size: self.dpb_max_size as int,
            config_bitstream_raw: self.config_bitstream_raw as int,
            frame_count: self.frame_count as int,
            history: PocHistory {
                prev_lsb: self.prev_poc_lsb as int,
                prev_msb: self.prev_poc_msb as int,
            },
            max_poc_lsb: self.max_poc_lsb as int,
            max_width: self.max_width,
            max_height: self.max_height,
        }
    }
}

impl DxvaDecoder {
    /// What every decoder keeps true of itself.
    pub open spec fn wf(&self) -> bool {
        self@.wf()
    }

    /// Get output format and decoder profile based on config
    pub fn get_format_and_profile(config: &DxvaDecoderConfig) -> (out: (
        DxvaOutputFormat,
        DxvaProfile,
    ))
        ensures
            out == format_and_profile(*config),
    {
        let format = if config.is_hdr {
            DxvaOutputFormat::P010
        } else {
            DxvaOutputFormat::Nv12
        };
        let profile = match config.codec {
            DxvaCodec::H264 => DxvaProfile::H264VldNoFgt,
            DxvaCodec::HEVC => {
                if config.is_hdr {
                    DxvaProfile::HevcVldMain10
                } else {
                    DxvaProfile::HevcVldMain
                }
            },
        };
        (format, profile)
    }

    /// Create the state of a new decoder. A pool without surfaces cannot
    /// decode anything and is refused.
    pub fn new(config: DxvaDecoderConfig) -> (made: Option<Self>)
        ensures
            made is Some <==> config.surface_count > 0,
            made matches Some(decoder) ==> decoder.wf() && decoder@ == new_decoder_model(config),
    {
        if config.surface_count == 0 {
            return None;
        }
        let (output_format, profile) = Self::get_format_and_profile(&config);
        Some(
            DxvaDecoder {
                config,
                output_format,
                profile,
                initialized: false,
                current_surface: 0,
                max_width: 0,
                max_height: 0,
                dpb: Vec::new(),
                dpb_max_size: DPB_MAX_SIZE,
                config_bitstream_raw: 1,
                frame_count: 0,
                prev_poc_lsb: 0,
                prev_poc_msb: 0,
                max_poc_lsb: DEFAULT_MAX_POC_LSB,
            },
        )
    }

    /// Get the next available surface index, avoiding surfaces in the
    /// decoded picture buffer. The surface returned is never one that the
    /// buffer still holds afterwards; where every surface was held, the
    /// first entry of the buffer, which is its oldest, is evicted for it.
    pub fn get_next_surface(&mut self) -> (surface: u32)
        requires
            old(self).wf(),
        ensures
            final(self).wf(),
            surface == old(self)@.next_surface(),
            final(self)@ == old(self)@.after_next_surface(),
            surface < final(self)@.surface_count(),
            final(self)@.is_free(surface as int),
            old(self)@.has_free_surface() ==> old(self)@.is_free(surface as int) && final(self)@.dpb
                == old(self)@.dpb,
    {
        let surface_count = self.config.surface_count;
        let ghost start = self@;
        let mut step: u32 = 0;
        proof {
            let c = start.cursor;
            let s = surface_count as int;
            assert((c + 0) % s == c) by (nonlinear_arith)
                requires
                    0 <= c < s,
            ;
        }
        while step < surface_count
            invariant
                start.wf(),
                start == old(self)@,
                surface_count == start.surface_count(),
                0 <= step <= surface_count,
                self@ == (DecoderModel { cursor: self@.cursor, ..start }),
                step < surface_count ==> self@.cursor == start.candidate(step as int),
                step == surface_count ==> self@.cursor == start.cursor,
                forall|j: int| 0 <= j < step ==> !start.is_free(#[trigger] start.candidate(j)),
            decreases surface_count - step,
        {
            let candidate = self.current_surface;
            proof {
                lemma_candidate_succ(start.cursor, step as int, surface_count as int);
            }
            self.current_surface = (self.current_surface + 1) % surface_count;
            let in_dpb = contains_surface(&self.dpb, (candidate % 256) as u8);
            if !in_dpb {
                proof {
                    lemma_first_free_unique(start, step as int);
                }
                return candidate;
            }
            step += 1;
        }
        proof {
            assert(!start.has_free_surface()) by {
                if start.has_free_surface() {
                    let k = start.first_free_offset();
                    assert(start.is_first_free(k));
                    assert(!start.is_free(start.candidate(k)));
                }
            }
            // The cursor's own surface is held, so the buffer is not empty.
            assert(!start.is_free(start.candidate(0)));
            assert(start.dpb.len() > 0);
        }
        if self.dpb.len() > 0 {
            let surface = self.dpb[0].surface_index as u32;
            proof {
                lemma_remove_entry(start.dpb, 0, start.surface_count());
                lemma_remove_keeps_order(start.dpb, 0, start.frame_count);
                assert(surface_tag(surface as int) == start.dpb[0].surface_index);
            }
            self.dpb.remove(0);
            return surface;
        }
        let surface = self.current_surface;
        self.current_surface = (self.current_surface + 1) % surface_count;
        surface
    }

    /// Update the decoded picture buffer after decoding a frame into
    /// surface `surface_idx`. Afterwards the buffer holds at most its
    /// maximum size; after an IDR picture it holds that picture alone, if it
    /// is a reference, and the picture order count history is zero.
    pub fn update_dpb(&mut self, surface_idx: u32, poc: i32, is_reference: bool, is_idr: bool)
        requires
            old(self).wf(),
            surface_idx < old(self)@.surface_count(),
            old(self)@.frame_count < u64::MAX,
        ensures
            final(self).wf(),
            final(self)@ == old(self)@.after_picture(
                surface_idx as int,
                poc,
                is_reference,
                is_idr,
            ),
            final(self)@.dpb.len() <= final(self)@.dpb_max_size,
            is_idr ==> final(self)@.history == (PocHistory { prev_lsb: 0, prev_msb: 0 }),
            is_idr && is_reference ==> final(self)@.dpb == seq![
                reference_entry(surface_idx as int, poc, final(self)@.frame_count as u64),
            ],
            is_idr && !is_reference ==> final(self)@.dpb.len() == 0,
            is_reference ==> final(self)@.dpb.len() > 0 && final(self)@.dpb.last()
                == reference_entry(surface_idx as int, poc, final(self)@.frame_count as u64),
    {
        self.frame_count += 1;
        if is_idr {
            self.dpb.clear();
            self.prev_poc_lsb = 0;
            self.prev_poc_msb = 0;
        }
        let tag: u8 = (surface_idx % 256) as u8;
        let ghost start = self.dpb@;
        let ghost pool = self@.surface_count();
        let mut kept = remove_surface(&self.dpb, tag);
        evict_oldest(&mut kept, self.dpb_max_size);
        proof {
            lemma_without_surface(start, tag, pool);
            lemma_evict_to(without_surface(start, tag), self.dpb_max_size as int, pool);
            lemma_picture_keeps_order(
                old(self)@.dpb,
                surface_idx as int,
                poc,
                is_reference,
                is_idr,
                old(self)@.frame_count,
                old(self)@.dpb_max_size,
            );
        }
        if is_reference {
            kept.push(
                DpbEntry {
                    surface_index: tag,
                    poc,
                    is_reference: true,
                    is_long_term: false,
                    frame_num: self.frame_count,
                },
            );
        }
        self.dpb = kept;
    }

    /// Clear the decoded picture buffer (call on seek or error recovery)
    pub fn clear_dpb(&mut self)
        requires
            old(self).wf(),
        ensures
            final(self).wf(),
            final(self)@ == old(self)@.cleared(),
    {
        self.dpb.clear();
        self.prev_poc_lsb = 0;
        self.prev_poc_msb = 0;
        self.frame_count = 0;
    }

    /// Calculate the full picture order count from its low bits, following
    /// ITU-T H.265 section 8.3.1, and remember this picture for the next.
    pub fn calculate_full_poc(&mut self, poc_lsb: i32, is_idr: bool, max_poc_lsb: i32) -> (poc:
        i32)
        requires
            old(self).wf(),
            poc_lsb >= 0,
            poc_in_range(old(self)@.history, poc_lsb as int, is_idr, max_poc_lsb as int),
        ensures
            final(self).wf(),
            poc == full_poc(old(self)@.history, poc_lsb as int, is_idr, max_poc_lsb as int),
            final(self)@ == (DecoderModel {
                history: history_after(
                    old(self)@.history,
                    poc_lsb as int,
                    is_idr,
                    max_poc_lsb as int,
                ),
                ..old(self)@
            }),
    {
        if is_idr {
            self.prev_poc_lsb = 0;
            self.prev_poc_msb = 0;
            return 0;
        }
        let half_max_poc_lsb: i32 = max_poc_lsb / 2;
        let poc_msb: i32 = if poc_lsb < self.prev_poc_lsb && (self.prev_poc_lsb - poc_lsb)
            >= half_max_poc_lsb {
            self.prev_poc_msb + max_poc_lsb
        } else if poc_lsb > self.prev_poc_lsb && (poc_lsb - self.prev_poc_lsb) > half_max_poc_lsb {
            self.prev_poc_msb - max_poc_lsb
        } else {
            self.prev_poc_msb
        };
        let full_poc: i32 = poc_msb + poc_lsb;
        self.prev_poc_lsb = poc_lsb;
        self.prev_poc_msb = poc_msb;
        full_poc
    }

    /// Get decoder configuration
    pub fn config(&self) -> (config: &DxvaDecoderConfig)
        ensures
            *config == self@.config,
    {
        &self.config
    }

    /// Check if decoder is initialized
    pub fn is_initialized(&self) -> (initialized: bool)
        ensures
            initialized == self@.initialized,
    {
        self.initialized
    }

    /// Get output format
    pub fn output_format(&self) -> (format: DxvaOutputFormat)
        ensures
            format == self@.output_format,
    {
        self.output_format
    }

    /// Get the decoder profile
    pub fn profile(&self) -> (profile: DxvaProfile)
        ensures
            profile == self@.profile,
    {
        self.profile
    }

    /// The decoded picture buffer, oldest insertion first
    pub fn dpb(&self) -> (dpb: &Vec<DpbEntry>)
        ensures
            dpb@ == self@.dpb,
    {
        &self.dpb
    }

    /// Round-robin cursor into the surface pool
    pub fn current_surface(&self) -> (cursor: u32)
        ensures
            cursor == self@.cursor,
    {
        self.current_surface
    }

    /// Number of frames recorded since the last clear
    pub fn frame_count(&self) -> (count: u64)
        ensures
            count == self@.frame_count,
    {
        self.frame_count
    }

    /// Low bits and high part of the previous picture order count
    pub fn poc_history(&self) -> (history: (i32, i32))
        ensures
            history.0 == self@.history.prev_lsb,
            history.1 == self@.history.prev_msb,
    {
        (self.prev_poc_lsb, self.prev_poc_msb)
    }
}

/// The surface one step further round the pool.
pub proof fn lemma_candidate_succ(cursor: int, step: int, surface_count: int)
    requires
        surface_count > 0,
        0 <= cursor < surface_count,
        0 <= step < surface_count,
    ensures
        ((cursor + step) % surface_count + 1) % surface_count == if step + 1 == surface_count {
            cursor
        } else {
            (cursor + step + 1) % surface_count
        },
{
    let s = surface_count;
    let a = cursor + step;
    assert(a % s == if a >= s {
        a - s
    } else {
        a
    }) by (nonlinear_arith)
        requires
            0 <= a < 2 * s,
            s > 0,
    ;
    let b = a % s + 1;
    assert(b % s == if b >= s {
        b - s
    } else {
        b
    }) by (nonlinear_arith)
        requires
            0 <= b < 2 * s,
            s > 0,
    ;
    let c = a + 1;
    assert(c % s == if c >= 2 * s {
        c - 2 * s
    } else if c >= s {
        c - s
    } else {
        c
    }) by (nonlinear_arith)
        requires
            0 <= c < 3 * s,
            s > 0,
    ;
}

/// Why the decoder could not do what was asked.
#[derive(Debug, Clone, Copy, PartialEq, Eq, Structural)]
pub enum DxvaError {
    /// The accelerator's decoder was not set up.
    NotInitialized,
    /// The packet holds no NAL unit.
    NoNalUnits,
    /// The header of the first slice could not be read, or it refers to a
    /// parameter set that was not seen.
    Parse(HevcParseError),
    /// The packet holds no slice.
    NoSliceNalUnits,
    /// The picture order count does not fit in 32 bits.
    PocOutOfRange,
    /// The frame does not fit the accelerator's 32-bit sizes.
    BitstreamTooLarge,
    /// The device does not list the decoder profile.
    ProfileNotSupported,
    /// The device could not be asked about the output format.
    FormatCheckFailed,
    /// The device does not decode to the output format.
    FormatNotSupported,
    /// The device could not be asked for its decoder configurations.
    ConfigCountFailed,
    /// The device has no decoder configuration for the resolution.
    NoDecoderConfigurations,
    /// None of the decoder configurations could be read.
    NoValidConfiguration,
    /// None of the common resolutions is supported.
    NoSupportedResolution,
    /// The accelerator did not hand out the buffer.
    BufferUnavailable(DxvaBufferType),
    /// The accelerator handed out a null buffer.
    BufferNull(DxvaBufferType),
    /// The accelerator's buffer is smaller than the payload.
    BufferTooSmall(DxvaBufferType),
    /// The accelerator did not take the buffer back.
    BufferReleaseFailed(DxvaBufferType),
    /// The accelerator refused to begin the frame.
    BeginFrameFailed,
    /// The accelerator refused the buffers.
    SubmitBuffersFailed,
    /// The accelerator refused to end the frame.
    EndFrameFailed,
}

/// Kinds of errors, by how the caller goes on after them.
#[derive(Debug, Clone, Copy, PartialEq, Eq, Structural)]
pub enum DxvaErrorKind {
    /// The packet cannot be decoded yet: the frame is skipped.
    Parse,
    /// The accelerator cannot do what the stream needs: fatal for the
    /// decoder.
    Capability,
    /// A step of handing the frame to the accelerator failed: the frame is
    /// lost.
    Submission,
}

impl DxvaError {
    /// The kind of the error.
    pub open spec fn spec_kind(self) -> DxvaErrorKind {
        match self {
            DxvaError::NoNalUnits | DxvaError::Parse(_) | DxvaError::NoSliceNalUnits
            | DxvaError::PocOutOfRange => DxvaErrorKind::Parse,
            DxvaError::NotInitialized | DxvaError::ProfileNotSupported
            | DxvaError::FormatCheckFailed | DxvaError::FormatNotSupported
            | DxvaError::ConfigCountFailed | DxvaError::NoDecoderConfigurations
            | DxvaError::NoValidConfiguration
            | DxvaError::NoSupportedResolution => DxvaErrorKind::Capability,
            _ => DxvaErrorKind::Submission,
        }
    }

    /// The kind of the error.
    #[verifier::when_used_as_spec(spec_kind)]
    pub fn kind(self) -> (kind: DxvaErrorKind)
        ensures
            kind == self.spec_kind(),
    {
        match self {
            DxvaError::NoNalUnits | DxvaError::Parse(_) | DxvaError::NoSliceNalUnits
            | DxvaError::PocOutOfRange => DxvaErrorKind::Parse,
            DxvaError::NotInitialized | DxvaError::ProfileNotSupported
            | DxvaError::FormatCheckFailed | DxvaError::FormatNotSupported
            | DxvaError::ConfigCountFailed | DxvaError::NoDecoderConfigurations
            | DxvaError::NoValidConfiguration
            | DxvaError::NoSupportedResolution => DxvaErrorKind::Capability,
            _ => DxvaErrorKind::Submission,
        }
    }
}

impl DxvaProfile {
    /// The identifier of the profile in the accelerator's interface.
    pub open spec fn spec_guid(self) -> u128 {
        match self {
            DxvaProfile::H264VldNoFgt => 0x1b81be68_a0c7_11d3_b984_00c04f2e73c5,
            DxvaProfile::HevcVldMain => 0x5b11d51b_2f4c_4452_bcc3_09f2a1160cc0,
            DxvaProfile::HevcVldMain10 => 0x107af0e0_ef1a_4d19_aba8_67a163073d13,
        }
    }

    /// The identifier of the profile in the accelerator's interface.
    #[verifier::when_used_as_spec(spec_guid)]
    pub fn guid(self) -> (guid: u128)
        ensures
            guid == self.spec_guid(),
    {
        match self {
            DxvaProfile::H264VldNoFgt => 0x1b81be68_a0c7_11d3_b984_00c04f2e73c5,
            DxvaProfile::HevcVldMain => 0x5b11d51b_2f4c_4452_bcc3_09f2a1160cc0,
            DxvaProfile::HevcVldMain10 => 0x107af0e0_ef1a_4d19_aba8_67a163073d13,
        }
    }
}

/// What the device answered to the capability queries: the identifier of
/// each decoder profile that it lists, whether it decodes to the output
/// format, and how many decoder configurations it has for the resolution;
/// `None` wherever a query failed.
#[derive(Debug)]
pub struct CapabilityReport {
    pub profiles: Vec<Option<u128>>,
    pub format_supported: Option<bool>,
    pub config_count: Option<u32>,
}

/// Whether the device lists the profile with this identifier.
pub open spec fn lists_profile(profiles: Seq<Option<u128>>, guid: u128) -> bool {
    exists|i: int| 0 <= i < profiles.len() && #[trigger] profiles[i] == Some(guid)
}

/// What the capability check answers.
pub open spec fn capability_outcome(
    profiles: Seq<Option<u128>>,
    format_supported: Option<bool>,
    config_count: Option<u32>,
    guid: u128,
) -> Result<(), DxvaError> {
    if !lists_profile(profiles, guid) {
        Err(DxvaError::ProfileNotSupported)
    } else if format_supported is None {
        Err(DxvaError::FormatCheckFailed)
    } else if format_supported == Some(false) {
        Err(DxvaError::FormatNotSupported)
    } else if config_count is None {
        Err(DxvaError::ConfigCountFailed)
    } else if config_count == Some(0u32) {
        Err(DxvaError::NoDecoderConfigurations)
    } else {
        Ok(())
    }
}

/// Whether configuration `k` is the one to use: the last one in short
/// slice mode (raw bitstream mode 2) where there is one, else the first one
/// that could be read.
pub open spec fn is_selected_config(configs: Seq<Option<u32>>, k: int) -> bool {
    &&& 0 <= k < configs.len()
    &&& configs[k] is Some
    &&& if configs[k] == Some(2u32) {
        forall|j: int| k < j < configs.len() ==> #[trigger] configs[j] != Some(2u32)
    } else {
        &&& forall|j: int| 0 <= j < configs.len() ==> #[trigger] configs[j] != Some(2u32)
        &&& forall|j: int| 0 <= j < k ==> #[trigger] configs[j] is None
    }
}

/// Whether any configuration could be read.
pub open spec fn has_config(configs: Seq<Option<u32>>) -> bool {
    exists|i: int| 0 <= i < configs.len() && #[trigger] configs[i] is Some
}

/// Picks the decoder configuration to use from the raw bitstream mode of
/// each configuration that the device lists, `None` where one could not be
/// read.
pub fn select_decoder_config(configs: &Vec<Option<u32>>) -> (selected: Option<usize>)
    ensures
        selected is Some <==> has_config(configs@),
        selected matches Some(k) ==> is_selected_config(configs@, k as int),
{
    let mut selected: Option<usize> = None;
    let mut fallback: Option<usize> = None;
    let mut i: usize = 0;
    while i < configs.len()
        invariant
            0 <= i <= configs@.len(),
            selected matches Some(k) ==> k < i && configs@[k as int] == Some(2u32) && forall|j: int|
                k < j < i ==> #[trigger] configs@[j] != Some(2u32),
            selected is None ==> forall|j: int| 0 <= j < i ==> #[trigger] configs@[j] != Some(2u32),
            fallback matches Some(k) ==> k < i && configs@[k as int] is Some && configs@[k as int]
                != Some(2u32) && forall|j: int|
                0 <= j < k ==> (#[trigger] configs@[j] is None || configs@[j] == Some(2u32)),
            fallback is None ==> forall|j: int|
                0 <= j < i ==> (#[trigger] configs@[j] is None || configs@[j] == Some(2u32)),
        decreases configs@.len() - i,
    {
        match configs[i] {
            Some(raw) => {
                if raw == 2 {
                    selected = Some(i);
                } else if fallback.is_none() {
                    fallback = Some(i);
                }
            },
            None => {},
        }
        i += 1;
    }
    match selected {
        Some(k) => Some(k),
        None => match fallback {
            Some(k) => {
                assert forall|j: int| 0 <= j < k implies #[trigger] configs@[j] is None by {
                    assert(configs@[j] is None || configs@[j] == Some(2u32));
                }
                Some(k)
            },
            None => {
                assert(!has_config(configs@)) by {
                    if has_config(configs@) {
                        let w = choose|w: int| 0 <= w < configs@.len() && configs@[w] is Some;
                        assert(configs@[w] is None || configs@[w] == Some(2u32));
                    }
                }
                None
            },
        },
    }
}

/// The common resolutions, the largest first.
pub open spec fn common_resolution(i: int) -> (u32, u32) {
    if i == 0 {
        (7680u32, 4320u32)
    } else if i == 1 {
        (5120u32, 2880u32)
    } else if i == 2 {
        (3840u32, 2160u32)
    } else if i == 3 {
        (2560u32, 1440u32)
    } else if i == 4 {
        (1920u32, 1080u32)
    } else {
        (1280u32, 720u32)
    }
}

/// Number of common resolutions.
pub const COMMON_RESOLUTION_COUNT: usize = 6;

/// What the check of a resolution answers: an error where the device could
/// not be asked about the format; else whether it decodes to the format and
/// has a decoder configuration for the resolution.
pub open spec fn resolution_outcome(format_supported: Option<bool>, config_count: Option<u32>)
    -> Result<bool, DxvaError> {
    match format_supported {
        None => Err(DxvaError::FormatCheckFailed),
        Some(false) => Ok(false),
        Some(true) => Ok(
            match config_count {
                Some(count) => count > 0,
                None => false,
            },
        ),
    }
}

/// Whether `k` is the first common resolution whose check did not answer
/// "not supported".
pub open spec fn is_first_answer(support: Seq<Result<bool, DxvaError>>, k: int) -> bool {
    &&& 0 <= k < support.len()
    &&& k < COMMON_RESOLUTION_COUNT
    &&& support[k] != Ok::<bool, DxvaError>(false)
    &&& forall|j: int| 0 <= j < k ==> #[trigger] support[j] == Ok::<bool, DxvaError>(false)
}

/// A frame that was decoded: where it lies in the texture array, and what
/// it holds.
#[derive(Debug, Clone, Copy)]
pub struct DxvaDecodedFrame {
    /// Array slice index within the texture
    pub array_index: u32,
    /// Frame width
    pub width: u32,
    /// Frame height
    pub height: u32,
    /// Is 10-bit HDR
    pub is_hdr: bool,
    /// Picture order count
    pub poc: i32,
}

/// What the accelerator is handed for one frame.
#[derive(Debug)]
pub struct FrameSubmission {
    /// Surface that the frame is decoded into
    pub surface_idx: u32,
    /// Full picture order count of the frame
    pub poc: i32,
    /// Whether the frame is an IDR picture
    pub is_idr: bool,
    /// Whether later frames may refer to the frame
    pub is_reference: bool,
    /// Picture parameters
    pub pic_params: DxvaHevcPicParams,
    /// Whether the quantization matrix is sent: the stream uses scaling
    /// lists
    pub send_qmatrix: bool,
    /// One slice control per slice NAL unit
    pub slice_controls: Vec<DxvaHevcSliceShort>,
    /// The bitstream buffer
    pub bitstream: Vec<u8>,
}

/// The slice NAL units among a run of NAL units.
pub open spec fn slice_units(units: Seq<(HevcNalType, Seq<u8>)>) -> Seq<(HevcNalType, Seq<u8>)> {
    units.filter(|u: (HevcNalType, Seq<u8>)| u.0.spec_is_slice())
}

/// The bytes of each of a run of NAL units.
pub open spec fn unit_bytes(units: Seq<(HevcNalType, Seq<u8>)>) -> Seq<Seq<u8>> {
    Seq::new(units.len(), |i: int| units[i].1)
}

/// The types and bytes of a run of borrowed NAL units.
pub open spec fn refs_view(nals: Seq<&HevcNalUnit>) -> Seq<(HevcNalType, Seq<u8>)> {
    Seq::new(nals.len(), |i: int| (nals[i].nal_type, nals[i].data@))
}

/// Range of the low bits of the picture order count under a sequence
/// parameter set.
pub open spec fn max_poc_lsb_of(sps: HevcSps) -> int {
    (1u32 << (sps.log2_max_poc_lsb as u32)) as int
}

/// Whether the frame's buffers keep within the accelerator's 32-bit sizes.
pub open spec fn frame_fits(slices: Seq<Seq<u8>>, config_bitstream_raw: int) -> bool {
    &&& padded_len(
        framed_stream(slices, wants_start_codes(config_bitstream_raw)).len() as int,
    ) <= u32::MAX
    &&& 10 * slices.len() <= u32::MAX
}

/// What stands in the way of decoding a packet under a decoder and the
/// tables of a parser, if anything does. The first of these is reported: the
/// decoder is not set up; the packet holds no NAL unit; it holds no slice;
/// the header of its first slice cannot be read or refers to a parameter set
/// that was not seen, the packet's own parameter sets counted in; the picture
/// order count or the frame's size is out of range.
pub open spec fn decode_error(m: DecoderModel, p: ParserModel, data: Seq<u8>) -> Option<DxvaError> {
    let units = p.units(data);
    let tables = p.after_nals(units, 0);
    let slices = slice_units(units);
    if !m.initialized {
        Some(DxvaError::NotInitialized)
    } else if units.len() == 0 {
        Some(DxvaError::NoNalUnits)
    } else if slices.len() == 0 {
        Some(DxvaError::NoSliceNalUnits)
    } else {
        match tables.slice_header(slices[0].0, slices[0].1) {
            Err(e) => Some(DxvaError::Parse(e)),
            Ok(header) => {
                let sps = tables.sps[tables.pps[header.pps_id as int]->0.sps_id as int]->0;
                if !poc_in_range(
                    m.history,
                    header.pic_order_cnt_lsb as int,
                    slices[0].0.spec_is_idr(),
                    max_poc_lsb_of(sps),
                ) {
                    Some(DxvaError::PocOutOfRange)
                } else if !frame_fits(unit_bytes(slices), m.config_bitstream_raw) {
                    Some(DxvaError::BitstreamTooLarge)
                } else {
                    None
                }
            },
        }
    }
}

/// The tables of a parser after a packet went through the decoder: as they
/// were where the decoder is not set up, else with the packet's NAL units
/// taken in.
pub open spec fn tables_after(m: DecoderModel, p: ParserModel, data: Seq<u8>) -> ParserModel {
    if !m.initialized {
        p
    } else {
        p.after_nals(p.units(data), 0)
    }
}

/// The decoder with an empty picture buffer before an IDR picture, else as
/// it is.
pub open spec fn before_picture(m: DecoderModel, is_idr: bool) -> DecoderModel {
    if is_idr {
        DecoderModel { dpb: Seq::empty(), ..m }
    } else {
        m
    }
}

impl FrameSubmission {
    /// Whether this is what the accelerator is handed for the frame in
    /// `data`, decoded under `tables` by a decoder that was `m` before.
    pub open spec fn describes_frame(self, m: DecoderModel, tables: ParserModel, data: Seq<u8>)
        -> bool {
        let slices = slice_units(tables.units(data));
        let first = slices[0];
        let header = tables.slice_header(first.0, first.1)->Ok_0;
        let pps = tables.pps[header.pps_id as int]->0;
        let sps = tables.sps[pps.sps_id as int]->0;
        let is_idr = first.0.spec_is_idr();
        let start = before_picture(m, is_idr);
        let with_start_codes = wants_start_codes(m.config_bitstream_raw);
        &&& self.is_idr == is_idr
        &&& self.is_reference == first.0.spec_is_vcl()
        &&& self.surface_idx == start.next_surface()
        &&& self.poc == full_poc(
            m.history,
            header.pic_order_cnt_lsb as int,
            is_idr,
            max_poc_lsb_of(sps),
        )
        &&& self.pic_params.describes(
            sps,
            pps,
            first.0,
            header.slice_type,
            self.surface_idx,
            self.poc,
            start.after_next_surface().dpb,
        )
        &&& self.send_qmatrix == sps.scaling_list_enabled
        &&& self.bitstream@ == padded_stream(unit_bytes(slices), with_start_codes)
        &&& self.bitstream@.len() % 128 == 0
        &&& self.bitstream@.len() <= u32::MAX
        &&& self.slice_controls@.len() == slices.len()
        &&& 10 * self.slice_controls@.len() <= u32::MAX
        &&& forall|i: int|
            0 <= i < slices.len() ==> self.slice_controls@[i] == slice_control(
                unit_bytes(slices),
                with_start_codes,
                i,
            )
        &&& reported_bytes(self.slice_controls@) == self.bitstream@.len()
    }
}

/// The decoder after it prepared the frame in `data` under `tables`: an
/// IDR picture has emptied the picture buffer, the frame's surface is handed
/// out, and the picture order count history holds the frame.
pub open spec fn decoder_after_start(m: DecoderModel, tables: ParserModel, data: Seq<u8>)
    -> DecoderModel {
    let first = slice_units(tables.units(data))[0];
    let header = tables.slice_header(first.0, first.1)->Ok_0;
    let sps = tables.sps[tables.pps[header.pps_id as int]->0.sps_id as int]->0;
    let is_idr = first.0.spec_is_idr();
    let handed = before_picture(m, is_idr).after_next_surface();
    DecoderModel {
        max_poc_lsb: max_poc_lsb_of(sps),
        history: history_after(
            m.history,
            header.pic_order_cnt_lsb as int,
            is_idr,
            max_poc_lsb_of(sps),
        ),
        ..handed
    }
}

impl DxvaDecoder {
    /// Check decoder capabilities from what the device answered: the
    /// profile has to be listed, the output format supported, and there has
    /// to be a decoder configuration for the resolution. A decoder that
    /// passes remembers its resolution as the largest confirmed.
    pub fn check_capabilities(&mut self, report: &CapabilityReport) -> (outcome: Result<
        (),
        DxvaError,
    >)
        requires
            old(self).wf(),
        ensures
            final(self).wf(),
            outcome == capability_outcome(
                report.profiles@,
                report.format_supported,
                report.config_count,
                old(self)@.profile.spec_guid(),
            ),
            final(self)@ == match outcome {
                Ok(_) => DecoderModel {
                    max_width: old(self)@.config.width,
                    max_height: old(self)@.config.height,
                    ..old(self)@
                },
                Err(_) => old(self)@,
            },
    {
        let guid: u128 = self.profile.guid();
        let mut profile_supported = false;
        let mut i: usize = 0;
        while i < report.profiles.len() && !profile_supported
            invariant
                0 <= i <= report.profiles@.len(),
                profile_supported ==> lists_profile(report.profiles@, guid),
                forall|j: int| 0 <= j < i ==> #[trigger] report.profiles@[j] != Some(guid),
            decreases report.profiles@.len() - i + if profile_supported {
                    0int
                } else {
                    1int
                },
        {
            match report.profiles[i] {
                Some(profile) => {
                    if profile == guid {
                        profile_supported = true;
                    } else {
                        i += 1;
                    }
                },
                None => {
                    i += 1;
                },
            }
        }
        if !profile_supported {
            return Err(DxvaError::ProfileNotSupported);
        }
        match report.format_supported {
            None => {
                return Err(DxvaError::FormatCheckFailed);
            },
            Some(false) => {
                return Err(DxvaError::FormatNotSupported);
            },
            Some(true) => {},
        }
        match report.config_count {
            None => {
                return Err(DxvaError::ConfigCountFailed);
            },
            Some(count) => {
                if count == 0 {
                    return Err(DxvaError::NoDecoderConfigurations);
                }
            },
        }
        self.max_width = self.config.width;
        self.max_height = self.config.height;
        Ok(())
    }

    /// First step of setting up the accelerator's decoder: picks the
    /// decoder configuration to create it with, from the raw bitstream mode
    /// of each configuration that the device lists, and takes over its
    /// bitstream framing.
    pub fn initialize_decoder(&mut self, configs: &Vec<Option<u32>>) -> (selected: Result<
        usize,
        DxvaError,
    >)
        requires
            old(self).wf(),
        ensures
            final(self).wf(),
            selected is Ok <==> has_config(configs@),
            selected matches Ok(k) ==> is_selected_config(configs@, k as int) && final(self)@ == (
            DecoderModel { config_bitstream_raw: configs@[k as int]->0 as int, ..old(self)@ }),
            selected matches Err(e) ==> e == DxvaError::NoValidConfiguration && final(self)@ == old(self)@,
    {
        match select_decoder_config(configs) {
            Some(k) => {
                match configs[k] {
                    Some(raw) => {
                        self.config_bitstream_raw = raw;
                    },
                    None => {},
                }
                Ok(k)
            },
            None => Err(DxvaError::NoValidConfiguration),
        }
    }

    /// Last step of setting up the accelerator's decoder: the decoder, the
    /// texture array and a view of each surface exist, and the first surface
    /// is handed out first.
    pub fn decoder_created(&mut self)
        requires
            old(self).wf(),
        ensures
            final(self).wf(),
            final(self)@ == (DecoderModel { initialized: true, cursor: 0, ..old(self)@ }),
    {
        self.initialized = true;
        self.current_surface = 0;
    }

    /// Whether a resolution is supported, from what the device answered
    /// for it.
    pub fn check_resolution_support(format_supported: Option<bool>, config_count: Option<u32>) -> (supported:
        Result<bool, DxvaError>)
        ensures
            supported == resolution_outcome(format_supported, config_count),
    {
        match format_supported {
            None => Err(DxvaError::FormatCheckFailed),
            Some(false) => Ok(false),
            Some(true) => Ok(
                match config_count {
                    Some(count) => count > 0,
                    None => false,
                },
            ),
        }
    }

    /// The common resolutions, the largest first.
    pub fn common_resolutions() -> (list: [(u32, u32); 6])
        ensures
            forall|i: int| 0 <= i < 6 ==> list[i] == common_resolution(i),
    {
        [(7680, 4320), (5120, 2880), (3840, 2160), (2560, 1440), (1920, 1080), (1280, 720)]
    }

    /// Get maximum supported resolution from the checks of the common
    /// resolutions, the largest first: the first one that is supported. A
    /// check that failed before one was found is reported.
    pub fn get_max_resolution(support: &Vec<Result<bool, DxvaError>>) -> (max: Result<
        (u32, u32),
        DxvaError,
    >)
        ensures
            match max {
                Ok(resolution) => exists|k: int|
                    is_first_answer(support@, k) && support@[k] == Ok::<bool, DxvaError>(true)
                        && resolution == common_resolution(k),
                Err(e) => (exists|k: int| is_first_answer(support@, k) && support@[k] == Err::<
                    bool,
                    DxvaError,
                >(e)) || (e == DxvaError::NoSupportedResolution && forall|k: int|
                    !is_first_answer(support@, k)),
            },
    {
        let resolutions = Self::common_resolutions();
        let mut i: usize = 0;
        while i < COMMON_RESOLUTION_COUNT && i < support.len()
            invariant
                0 <= i <= COMMON_RESOLUTION_COUNT,
                i <= support@.len(),
                forall|j: int| 0 <= j < 6 ==> resolutions[j] == common_resolution(j),
                forall|j: int| 0 <= j < i ==> #[trigger] support@[j] == Ok::<bool, DxvaError>(false),
            decreases COMMON_RESOLUTION_COUNT - i,
        {
            match support[i] {
                Ok(true) => {
                    assert(is_first_answer(support@, i as int) && support@[i as int] == Ok::<
                        bool,
                        DxvaError,
                    >(true) && resolutions[i as int] == common_resolution(i as int));
                    return Ok(resolutions[i]);
                },
                Ok(false) => {},
                Err(e) => {
                    assert(is_first_answer(support@, i as int) && support@[i as int] == Err::<
                        bool,
                        DxvaError,
                    >(e));
                    return Err(e);
                },
            }
            i += 1;
        }
        assert forall|k: int| !is_first_answer(support@, k) by {
            if is_first_answer(support@, k) {
                assert(support@[k] == Ok::<bool, DxvaError>(false));
            }
        }
        Err(DxvaError::NoSupportedResolution)
    }

    /// Build HEVC picture parameters from parsed data, for the frame whose
    /// first slice is `nal` with header `slice_header`, decoded into surface
    /// `surface_idx` with picture order count `full_poc`.
    pub fn build_hevc_pic_params(
        &self,
        sps: &HevcSps,
        pps: &HevcPps,
        nal: &HevcNalUnit,
        slice_header: &HevcSliceHeader,
        surface_idx: u32,
        full_poc: i32,
    ) -> (pp: DxvaHevcPicParams)
        requires
            sps.valid(),
            pps.valid(),
        ensures
            pp.describes(
                *sps,
                *pps,
                nal.nal_type,
                slice_header.slice_type,
                surface_idx,
                full_poc,
                self@.dpb,
            ),
    {
        build_pic_params(
            sps,
            pps,
            nal.nal_type,
            slice_header.slice_type,
            surface_idx,
            full_poc,
            &self.dpb,
        )
    }

    /// Build bitstream and slice controls for the slice NAL units of a
    /// frame, framed as the accelerator's configuration asks: with start
    /// codes in raw bitstream mode 1, without them otherwise. A frame that
    /// does not fit the accelerator's 32-bit sizes gives `None`.
    pub fn build_annex_b_bitstream_and_slices(&self, slice_nals: &Vec<&HevcNalUnit>) -> (out: Option<
        (Vec<u8>, Vec<DxvaHevcSliceShort>),
    >)
        ensures
            out is Some <==> padded_len(
                framed_stream(
                    nal_bytes(slice_nals@),
                    wants_start_codes(self@.config_bitstream_raw),
                ).len() as int,
            ) <= u32::MAX,
            out matches Some((bitstream, slices)) ==> {
                let nals = nal_bytes(slice_nals@);
                let with_start_codes = wants_start_codes(self@.config_bitstream_raw);
                &&& bitstream@ == padded_stream(nals, with_start_codes)
                &&& bitstream@.len() % 128 == 0
                &&& slices@.len() == nals.len()
                &&& forall|i: int|
                    0 <= i < slices@.len() ==> slices@[i] == slice_control(nals, with_start_codes, i)
                &&& reported_bytes(slices@) == bitstream@.len()
            },
    {
        build_bitstream_and_slices(slice_nals, self.config_bitstream_raw)
    }

    /// Decode a frame, first half: parses the packet, takes in its
    /// parameter sets, picks the frame's surface, derives its picture order
    /// count and builds everything that the accelerator is handed. The caller
    /// hands it over and, where the accelerator took it, calls
    /// `complete_frame`. Where the packet cannot be decoded the decoder stays
    /// as it was.
    pub fn decode_frame(&mut self, bitstream: &[u8], parser: &mut HevcParser) -> (out: Result<
        FrameSubmission,
        DxvaError,
    >)
        requires
            old(self).wf(),
            old(parser).wf(),
        ensures
            final(self).wf(),
            final(parser).wf(),
            final(parser)@ == tables_after(old(self)@, old(parser)@, bitstream@),
            match out {
                Err(e) => decode_error(old(self)@, old(parser)@, bitstream@) == Some(e) && final(self)@ == old(self)@,
                Ok(submission) => {
                    &&& decode_error(old(self)@, old(parser)@, bitstream@) is None
                    &&& submission.describes_frame(old(self)@, final(parser)@, bitstream@)
                    &&& submission.surface_idx < final(self)@.surface_count()
                    &&& final(self)@.is_free(submission.surface_idx as int)
                    &&& final(self)@ == decoder_after_start(
                        old(self)@,
                        final(parser)@,
                        bitstream@,
                    )
                },
            },
    {
        if !self.initialized {
            return Err(DxvaError::NotInitialized);
        }
        let nals = parser.find_nal_units(bitstream);
        let ghost units = parser@.units(bitstream@);
        proof {
            lemma_after_nals_keeps_framing(parser@, units, 0);
        }
        if nals.len() == 0 {
            return Err(DxvaError::NoNalUnits);
        }
        let mut i: usize = 0;
        while i < nals.len()
            invariant
                0 <= i <= nals@.len(),
                parser.wf(),
                self.wf(),
                self@ == old(self)@,
                self@.initialized,
                units == units_view(nals@),
                units == old(parser)@.units(bitstream@),
                parser@.framing == old(parser)@.framing,
                parser@.after_nals(units, i as int) == old(parser)@.after_nals(units, 0),
            decreases nals@.len() - i,
        {
            let _ = parser.process_nal(&nals[i]);
            i += 1;
        }
        let mut slice_nals: Vec<&HevcNalUnit> = Vec::new();
        let mut k: usize = 0;
        proof {
            reveal(Seq::filter);
            assert(units.subrange(0, 0) =~= Seq::<(HevcNalType, Seq<u8>)>::empty());
            assert(refs_view(slice_nals@) =~= slice_units(units.subrange(0, 0)));
        }
        while k < nals.len()
            invariant
                0 <= k <= nals@.len(),
                units == units_view(nals@),
                refs_view(slice_nals@) == slice_units(units.subrange(0, k as int)),
                forall|j: int|
                    0 <= j < slice_nals@.len() ==> (#[trigger] refs_view(slice_nals@)[j]) == (
                        slice_nals@[j].nal_type,
                        slice_nals@[j].data@,
                    ),
            decreases nals@.len() - k,
        {
            let ghost before = refs_view(slice_nals@);
            if nals[k].nal_type.is_slice() {
                slice_nals.push(&nals[k]);
            }
            proof {
                reveal(Seq::filter);
                let next = units.subrange(0, k + 1);
                assert(next.drop_last() =~= units.subrange(0, k as int));
                assert(next.last() == units[k as int]);
                if nals@[k as int].nal_type.spec_is_slice() {
                    assert(refs_view(slice_nals@) =~= before.push(units[k as int]));
                }
            }
            k += 1;
        }
        proof {
            assert(units.subrange(0, k as int) =~= units);
            assert(nal_bytes(slice_nals@) =~= unit_bytes(slice_units(units)));
        }
        if slice_nals.len() == 0 {
            return Err(DxvaError::NoSliceNalUnits);
        }
        let first_slice: &HevcNalUnit = slice_nals[0];
        assert(refs_view(slice_nals@)[0] == (first_slice.nal_type, first_slice.data@));
        let slice_header = match parser.parse_slice_header(first_slice) {
            Ok(header) => header,
            Err(e) => {
                return Err(DxvaError::Parse(e));
            },
        };
        let pps: HevcPps = match parser.pps[slice_header.pps_id as usize] {
            Some(pps) => pps,
            None => {
                return Err(DxvaError::Parse(HevcParseError::UnknownPps(slice_header.pps_id)));
            },
        };
        let sps: HevcSps = match parser.sps[pps.sps_id as usize] {
            Some(sps) => sps,
            None => {
                return Err(DxvaError::Parse(HevcParseError::UnknownSps(pps.sps_id)));
            },
        };
        let is_idr = first_slice.nal_type.is_idr();
        let log2_max_poc_lsb: u32 = sps.log2_max_poc_lsb as u32;
        let max_poc_lsb_bits: u32 = 1u32 << log2_max_poc_lsb;
        assert(16 <= max_poc_lsb_bits <= 65536) by (bit_vector)
            requires
                max_poc_lsb_bits == 1u32 << log2_max_poc_lsb,
                4 <= log2_max_poc_lsb <= 16,
        ;
        let max_poc_lsb: i32 = max_poc_lsb_bits as i32;
        let poc_lsb: i32 = slice_header.pic_order_cnt_lsb as i32;
        if !self.poc_fits(poc_lsb, is_idr, max_poc_lsb) {
            return Err(DxvaError::PocOutOfRange);
        }
        let framed = self.build_annex_b_bitstream_and_slices(&slice_nals);
        let (annex_b_bitstream, slice_controls) = match framed {
            Some(pair) => pair,
            None => {
                return Err(DxvaError::BitstreamTooLarge);
            },
        };
        if slice_controls.len() > 0xFFFF_FFFF / 10 {
            return Err(DxvaError::BitstreamTooLarge);
        }
        // An IDR picture refers to nothing: the picture buffer is emptied
        // before the picture parameters are built.
        if is_idr {
            self.dpb.clear();
        }
        let surface_idx: u32 = self.get_next_surface();
        self.max_poc_lsb = max_poc_lsb;
        let full_poc: i32 = self.calculate_full_poc(poc_lsb, is_idr, max_poc_lsb);
        let pic_params = self.build_hevc_pic_params(
            &sps,
            &pps,
            first_slice,
            &slice_header,
            surface_idx,
            full_poc,
        );
        Ok(
            FrameSubmission {
                surface_idx,
                poc: full_poc,
                is_idr,
                is_reference: first_slice.nal_type.is_vcl(),
                pic_params,
                send_qmatrix: sps.scaling_list_enabled,
                slice_controls,
                bitstream: annex_b_bitstream,
            },
        )
    }

    /// Whether the picture order count of a picture fits in 32 bits.
    pub fn poc_fits(&self, poc_lsb: i32, is_idr: bool, max_poc_lsb: i32) -> (fits: bool)
        requires
            self.wf(),
            poc_lsb >= 0,
        ensures
            fits == poc_in_range(self@.history, poc_lsb as int, is_idr, max_poc_lsb as int),
    {
        if is_idr {
            return true;
        }
        let half: i64 = (max_poc_lsb / 2) as i64;
        let lsb: i64 = poc_lsb as i64;
        let prev_lsb: i64 = self.prev_poc_lsb as i64;
        let prev_msb: i64 = self.prev_poc_msb as i64;
        let msb: i64 = if lsb < prev_lsb && prev_lsb - lsb >= half {
            prev_msb + max_poc_lsb as i64
        } else if lsb > prev_lsb && lsb - prev_lsb > half {
            prev_msb - max_poc_lsb as i64
        } else {
            prev_msb
        };
        i32::MIN as i64 <= msb && msb <= i32::MAX as i64 && msb + lsb <= i32::MAX as i64
    }

    /// Decode a frame, second half: the accelerator has decoded the frame,
    /// and the decoder records it in the picture buffer. Returns where the
    /// frame lies and what it holds.
    pub fn complete_frame(&mut self, submission: &FrameSubmission) -> (frame: DxvaDecodedFrame)
        requires
            old(self).wf(),
            submission.surface_idx < old(self)@.surface_count(),
            old(self)@.frame_count < u64::MAX,
        ensures
            final(self).wf(),
            final(self)@ == old(self)@.after_picture(
                submission.surface_idx as int,
                submission.poc,
                submission.is_reference,
                submission.is_idr,
            ),
            final(self)@.dpb.len() <= final(self)@.dpb_max_size,
            frame == (DxvaDecodedFrame {
                array_index: submission.surface_idx,
                width: old(self)@.config.width,
                height: old(self)@.config.height,
                is_hdr: old(self)@.config.is_hdr,
                poc: submission.poc,
            }),
    {
        self.update_dpb(
            submission.surface_idx,
            submission.poc,
            submission.is_reference,
            submission.is_idr,
        );
        DxvaDecodedFrame {
            array_index: submission.surface_idx,
            width: self.config.width,
            height: self.config.height,
            is_hdr: self.config.is_hdr,
            poc: submission.poc,
        }
    }
}

/// One decoded picture: the surface it went into, its picture order count,
/// whether it is a reference and whether it is an IDR picture.
pub struct PictureRecord {
    pub surface_idx: int,
    pub poc: i32,
    pub is_reference: bool,
    pub is_idr: bool,
}

impl DecoderModel {
    /// The decoder after a run of decoded pictures was recorded one after
    /// the other.
    pub open spec fn after_pictures(self, pictures: Seq<PictureRecord>) -> DecoderModel
        decreases pictures.len(),
    {
        if pictures.len() == 0 {
            self
        } else {
            let last = pictures.last();
            self.after_pictures(pictures.drop_last()).after_picture(
                last.surface_idx,
                last.poc,
                last.is_reference,
                last.is_idr,
            )
        }
    }
}

/// Recording a decoded picture keeps the decoder in order and the picture
/// buffer within its maximum size. After an IDR picture the buffer holds that
/// picture alone, if it is a reference, and nothing otherwise, and the
/// picture order count history is zero.
pub proof fn lemma_after_picture(
    m: DecoderModel,
    surface_idx: int,
    poc: i32,
    is_reference: bool,
    is_idr: bool,
)
    requires
        m.wf(),
        0 <= surface_idx < m.surface_count(),
        m.frame_count < u64::MAX,
    ensures
        m.after_picture(surface_idx, poc, is_reference, is_idr).wf(),
        m.after_picture(surface_idx, poc, is_reference, is_idr).dpb.len() <= m.dpb_max_size,
        is_idr ==> m.after_picture(surface_idx, poc, is_reference, is_idr).dpb.len() <= 1,
        is_idr ==> m.after_picture(surface_idx, poc, is_reference, is_idr).history == (PocHistory {
            prev_lsb: 0,
            prev_msb: 0,
        }),
        is_idr && is_reference ==> m.after_picture(surface_idx, poc, is_reference, is_idr).dpb
            == seq![reference_entry(surface_idx, poc, (m.frame_count + 1) as u64)],
        is_idr && !is_reference ==> m.after_picture(
            surface_idx,
            poc,
            is_reference,
            is_idr,
        ).dpb.len() == 0,
{
    reveal(Seq::filter);
    let start = if is_idr {
        Seq::<DpbEntry>::empty()
    } else {
        m.dpb
    };
    let tag = surface_tag(surface_idx);
    let kept = without_surface(start, tag);
    lemma_without_surface(start, tag, m.surface_count());
    lemma_evict_to(kept, m.dpb_max_size, m.surface_count());
    lemma_picture_keeps_order(
        m.dpb,
        surface_idx,
        poc,
        is_reference,
        is_idr,
        m.frame_count,
        m.dpb_max_size,
    );
    let evicted = crate::media::dpb::evict_to(kept, m.dpb_max_size);
    let entry = reference_entry(surface_idx, poc, (m.frame_count + 1) as u64);
    if is_reference {
        let after = evicted.push(entry);
        assert forall|i: int, j: int| 0 <= i < j < after.len() implies #[trigger] after[i].surface_index
            != #[trigger] after[j].surface_index by {
            if j == evicted.len() {
                assert(evicted[i].surface_index != tag);
            }
        }
        assert forall|i: int| 0 <= i < after.len() implies (#[trigger] after[i]).surface_index
            < m.surface_count() by {
            if i == evicted.len() {
                assert(tag as int == surface_idx % 256);
            }
        }
    }
    if is_idr {
        assert(kept =~= Seq::<DpbEntry>::empty());
        assert(evicted =~= Seq::<DpbEntry>::empty());
        if is_reference {
            assert(evicted.push(entry) =~= seq![entry]);
        }
    }
}

/// However many pictures are decoded one after the other, each into a
/// surface of the pool, the picture buffer never holds more than its maximum
/// size, as long as the frame counter has room for them.
pub proof fn lemma_dpb_stays_bounded(m: DecoderModel, pictures: Seq<PictureRecord>)
    requires
        m.wf(),
        m.frame_count + pictures.len() <= u64::MAX,
        forall|i: int|
            0 <= i < pictures.len() ==> 0 <= (#[trigger] pictures[i]).surface_idx
                < m.surface_count(),
    ensures
        m.after_pictures(pictures).wf(),
        m.after_pictures(pictures).dpb.len() <= m.dpb_max_size,
        m.after_pictures(pictures).dpb_max_size == m.dpb_max_size,
        m.after_pictures(pictures).config == m.config,
        m.after_pictures(pictures).frame_count == m.frame_count + pictures.len(),
    decreases pictures.len(),
{
    if pictures.len() > 0 {
        let front = pictures.drop_last();
        let last = pictures.last();
        assert forall|i: int| 0 <= i < front.len() implies 0 <= (#[trigger] front[i]).surface_idx
            < m.surface_count() by {
            assert(front[i] == pictures[i]);
        }
        lemma_dpb_stays_bounded(m, front);
        lemma_after_picture(
            m.after_pictures(front),
            last.surface_idx,
            last.poc,
            last.is_reference,
            last.is_idr,
        );
    }
}

/// The surface that is handed out for the next frame is a surface of the
/// pool that the picture buffer does not hold afterwards; where any surface
/// was free, it was free before, and the buffer is as it was.
pub proof fn lemma_next_surface_is_free(m: DecoderModel)
    requires
        m.wf(),
    ensures
        m.after_next_surface().wf(),
        0 <= m.next_surface() < m.surface_count(),
        m.after_next_surface().is_free(m.next_surface()),
        m.has_free_surface() ==> m.is_free(m.next_surface()) && m.after_next_surface().dpb == m.dpb,
        !m.has_free_surface() ==> m.dpb.len() > 0 && m.next_surface() == m.dpb[0].surface_index
            && m.after_next_surface().dpb == m.dpb.remove(0),
{
    let s = m.surface_count();
    if m.has_free_surface() {
        let k = m.first_free_offset();
        assert(m.is_first_free(k));
        assert(0 <= (m.cursor + k) % s < s) by (nonlinear_arith)
            requires
                s > 0,
                m.cursor + k >= 0,
        ;
        assert(0 <= (m.next_surface() + 1) % s < s) by (nonlinear_arith)
            requires
                s > 0,
                m.next_surface() + 1 >= 0,
        ;
    } else {
        assert((m.cursor + 0) % s == m.cursor) by (nonlinear_arith)
            requires
                0 <= m.cursor < s,
        ;
        assert(!m.is_first_free(0));
        assert(!m.is_free(m.candidate(0)));
        assert(m.dpb.len() > 0);
        lemma_remove_entry(m.dpb, 0, s);
        lemma_remove_keeps_order(m.dpb, 0, m.frame_count);
        assert(surface_tag(m.dpb[0].surface_index as int) == m.dpb[0].surface_index);
    }
}

/// The two ways of making room agree: the first entry of the picture
/// buffer, which gives up its surface where none is free, is the oldest one
/// by frame number, which is evicted where the buffer is full.
pub proof fn lemma_first_entry_is_oldest(m: DecoderModel)
    requires
        m.wf(),
        m.dpb.len() > 0,
    ensures
        is_oldest(m.dpb, 0),
        oldest_position(m.dpb) == 0,
{
    lemma_first_is_oldest(m.dpb, m.frame_count);
}

} // verus!
