//! HEVC elementary stream parser: NAL units, parameter sets and the start
//! of slice headers, as far as the decoder needs them.

use vstd::prelude::*;
use crate::media::bit_reader::{extract_payload, payload_of, BitReader};
use crate::media::hevc_syntax::{
    parse_pps, parse_sps, parsed_pps, parsed_sps, read_slice_intro, read_slice_rest, slice_intro,
    slice_rest, start_of,
};
use crate::media::byte_layout::copy_range;

verus! {

/// Type of a NAL unit, from the six type bits of its header.
#[derive(Debug, Clone, Copy, PartialEq, Eq, Structural)]
pub enum HevcNalType {
    TrailN,
    TrailR,
    TsaN,
    TsaR,
    StsaN,
    StsaR,
    RadlN,
    RadlR,
    RaslN,
    RaslR,
    BlaWLp,
    BlaWRadl,
    BlaNLp,
    IdrWRadl,
    IdrNLp,
    CraNut,
    Vps,
    Sps,
    Pps,
    Aud,
    Eos,
    Eob,
    Fd,
    PrefixSei,
    SuffixSei,
    /// A reserved or unspecified type, with its number.
    Other(u8),
}

impl HevcNalType {
    /// The number that the stream carries for this type.
    pub open spec fn spec_code(self) -> u8 {
        match self {
            HevcNalType::TrailN => 0,
            HevcNalType::TrailR => 1,
            HevcNalType::TsaN => 2,
            HevcNalType::TsaR => 3,
            HevcNalType::StsaN => 4,
            HevcNalType::StsaR => 5,
            HevcNalType::RadlN => 6,
            HevcNalType::RadlR => 7,
            HevcNalType::RaslN => 8,
            HevcNalType::RaslR => 9,
            HevcNalType::BlaWLp => 16,
            HevcNalType::BlaWRadl => 17,
            HevcNalType::BlaNLp => 18,
            HevcNalType::IdrWRadl => 19,
            HevcNalType::IdrNLp => 20,
            HevcNalType::CraNut => 21,
            HevcNalType::Vps => 32,
            HevcNalType::Sps => 33,
            HevcNalType::Pps => 34,
            HevcNalType::Aud => 35,
            HevcNalType::Eos => 36,
            HevcNalType::Eob => 37,
            HevcNalType::Fd => 38,
            HevcNalType::PrefixSei => 39,
            HevcNalType::SuffixSei => 40,
            HevcNalType::Other(code) => code,
        }
    }

    /// The type with number `code`; a number without a name of its own is
    /// kept as `Other`.
    pub open spec fn spec_from_code(code: u8) -> HevcNalType {
        if code == 0 {
            HevcNalType::TrailN
        } else if code == 1 {
            HevcNalType::TrailR
        } else if code == 2 {
            HevcNalType::TsaN
        } else if code == 3 {
            HevcNalType::TsaR
        } else if code == 4 {
            HevcNalType::StsaN
        } else if code == 5 {
            HevcNalType::StsaR
        } else if code == 6 {
            HevcNalType::RadlN
        } else if code == 7 {
            HevcNalType::RadlR
        } else if code == 8 {
            HevcNalType::RaslN
        } else if code == 9 {
            HevcNalType::RaslR
        } else if code == 16 {
            HevcNalType::BlaWLp
        } else if code == 17 {
            HevcNalType::BlaWRadl
        } else if code == 18 {
            HevcNalType::BlaNLp
        } else if code == 19 {
            HevcNalType::IdrWRadl
        } else if code == 20 {
            HevcNalType::IdrNLp
        } else if code == 21 {
            HevcNalType::CraNut
        } else if code == 32 {
            HevcNalType::Vps
        } else if code == 33 {
            HevcNalType::Sps
        } else if code == 34 {
            HevcNalType::Pps
        } else if code == 35 {
            HevcNalType::Aud
        } else if code == 36 {
            HevcNalType::Eos
        } else if code == 37 {
            HevcNalType::Eob
        } else if code == 38 {
            HevcNalType::Fd
        } else if code == 39 {
            HevcNalType::PrefixSei
        } else if code == 40 {
            HevcNalType::SuffixSei
        } else {
            HevcNalType::Other(code)
        }
    }

    /// Whether the unit carries a slice segment of a coded picture.
    pub open spec fn spec_is_slice(self) -> bool {
        self.spec_code() <= 9 || 16 <= self.spec_code() <= 21
    }

    /// Whether the unit belongs to an IDR picture.
    pub open spec fn spec_is_idr(self) -> bool {
        self.spec_code() == 19 || self.spec_code() == 20
    }

    /// Whether the unit belongs to the video coding layer.
    pub open spec fn spec_is_vcl(self) -> bool {
        self.spec_code() < 32
    }

    /// Whether the unit belongs to a random access point picture.
    pub open spec fn spec_is_rap(self) -> bool {
        16 <= self.spec_code() <= 23
    }

    /// The number that the stream carries for this type.
    #[verifier::when_used_as_spec(spec_code)]
    pub fn code(self) -> (code: u8)
        ensures
            code == self.spec_code(),
    {
        match self {
            HevcNalType::TrailN => 0,
            HevcNalType::TrailR => 1,
            HevcNalType::TsaN => 2,
            HevcNalType::TsaR => 3,
            HevcNalType::StsaN => 4,
            HevcNalType::StsaR => 5,
            HevcNalType::RadlN => 6,
            HevcNalType::RadlR => 7,
            HevcNalType::RaslN => 8,
            HevcNalType::RaslR => 9,
            HevcNalType::BlaWLp => 16,
            HevcNalType::BlaWRadl => 17,
            HevcNalType::BlaNLp => 18,
            HevcNalType::IdrWRadl => 19,
            HevcNalType::IdrNLp => 20,
            HevcNalType::CraNut => 21,
            HevcNalType::Vps => 32,
            HevcNalType::Sps => 33,
            HevcNalType::Pps => 34,
            HevcNalType::Aud => 35,
            HevcNalType::Eos => 36,
            HevcNalType::Eob => 37,
            HevcNalType::Fd => 38,
            HevcNalType::PrefixSei => 39,
            HevcNalType::SuffixSei => 40,
            HevcNalType::Other(code) => code,
        }
    }

    /// The type with number `code`.
    #[verifier::when_used_as_spec(spec_from_code)]
    pub fn from_code(code: u8) -> (nal_type: HevcNalType)
        ensures
            nal_type == Self::spec_from_code(code),
            code < 64 ==> nal_type.spec_code() == code,
    {
        match code {
            0 => HevcNalType::TrailN,
            1 => HevcNalType::TrailR,
            2 => HevcNalType::TsaN,
            3 => HevcNalType::TsaR,
            4 => HevcNalType::StsaN,
            5 => HevcNalType::StsaR,
            6 => HevcNalType::RadlN,
            7 => HevcNalType::RadlR,
            8 => HevcNalType::RaslN,
            9 => HevcNalType::RaslR,
            16 => HevcNalType::BlaWLp,
            17 => HevcNalType::BlaWRadl,
            18 => HevcNalType::BlaNLp,
            19 => HevcNalType::IdrWRadl,
            20 => HevcNalType::IdrNLp,
            21 => HevcNalType::CraNut,
            32 => HevcNalType::Vps,
            33 => HevcNalType::Sps,
            34 => HevcNalType::Pps,
            35 => HevcNalType::Aud,
            36 => HevcNalType::Eos,
            37 => HevcNalType::Eob,
            38 => HevcNalType::Fd,
            39 => HevcNalType::PrefixSei,
            40 => HevcNalType::SuffixSei,
            _ => HevcNalType::Other(code),
        }
    }

    /// Whether the unit carries a slice segment of a coded picture.
    #[verifier::when_used_as_spec(spec_is_slice)]
    pub fn is_slice(self) -> (yes: bool)
        ensures
            yes == self.spec_is_slice(),
    {
        let code = self.code();
        code <= 9 || (16 <= code && code <= 21)
    }

    /// Whether the unit belongs to an IDR picture.
    #[verifier::when_used_as_spec(spec_is_idr)]
    pub fn is_idr(self) -> (yes: bool)
        ensures
            yes == self.spec_is_idr(),
    {
        let code = self.code();
        code == 19 || code == 20
    }

    /// Whether the unit belongs to the video coding layer.
    #[verifier::when_used_as_spec(spec_is_vcl)]
    pub fn is_vcl(self) -> (yes: bool)
        ensures
            yes == self.spec_is_vcl(),
    {
        self.code() < 32
    }

    /// Whether the unit belongs to a random access point picture.
    #[verifier::when_used_as_spec(spec_is_rap)]
    pub fn is_rap(self) -> (yes: bool)
        ensures
            yes == self.spec_is_rap(),
    {
        let code = self.code();
        16 <= code && code <= 23
    }
}

/// One NAL unit: its type and its bytes, header included, without the start
/// code.
#[derive(Debug)]
pub struct HevcNalUnit {
    pub nal_type: HevcNalType,
    pub data: Vec<u8>,
}

/// Sequence parameter set, as far as the decoder reads it.
#[derive(Debug, Clone, Copy)]
pub struct HevcSps {
    pub sps_id: u8,
    pub chroma_format_idc: u8,
    pub separate_colour_plane: bool,
    pub pic_width: u32,
    pub pic_height: u32,
    pub bit_depth_luma: u8,
    pub bit_depth_chroma: u8,
    pub log2_max_poc_lsb: u8,
    pub log2_min_luma_coding_block_size: u8,
    pub log2_diff_max_min_luma_coding_block_size: u8,
    pub log2_min_luma_transform_block_size: u8,
    pub log2_diff_max_min_luma_transform_block_size: u8,
    pub max_transform_hierarchy_depth_inter: u8,
    pub max_transform_hierarchy_depth_intra: u8,
    pub scaling_list_enabled: bool,
    pub amp_enabled: bool,
    pub sample_adaptive_offset_enabled: bool,
    pub pcm_enabled: bool,
    pub pcm_sample_bit_depth_luma: u8,
    pub pcm_sample_bit_depth_chroma: u8,
    pub log2_min_pcm_luma_coding_block_size: u8,
    pub log2_diff_max_min_pcm_luma_coding_block_size: u8,
    pub pcm_loop_filter_disabled: bool,
    pub num_short_term_ref_pic_sets: u8,
    pub long_term_ref_pics_present: bool,
    pub num_long_term_ref_pics_sps: u8,
    pub temporal_mvp_enabled: bool,
    pub strong_intra_smoothing_enabled: bool,
}

impl HevcSps {
    /// The ranges that the standard gives the fields on which the decoder
    /// computes.
    pub open spec fn valid(self) -> bool {
        &&& self.sps_id < 16
        &&& self.chroma_format_idc <= 3
        &&& 8 <= self.bit_depth_luma <= 16
        &&& 8 <= self.bit_depth_chroma <= 16
        &&& 4 <= self.log2_max_poc_lsb <= 16
        &&& 3 <= self.log2_min_luma_coding_block_size <= 6
        &&& self.log2_diff_max_min_luma_coding_block_size <= 3
        &&& self.pic_width > 0
        &&& self.pic_height > 0
        &&& self.num_short_term_ref_pic_sets <= 64
        &&& self.num_long_term_ref_pics_sps <= 32
    }

    /// Whether the stream is a high dynamic range one: more than eight bits
    /// per luma sample.
    pub open spec fn spec_is_hdr(self) -> bool {
        self.bit_depth_luma > 8
    }
}

/// Picture parameter set, as far as the decoder reads it.
#[derive(Debug, Clone, Copy)]
pub struct HevcPps {
    pub pps_id: u8,
    pub sps_id: u8,
    pub dependent_slice_segments_enabled: bool,
    pub output_flag_present: bool,
    pub num_extra_slice_header_bits: u8,
    pub sign_data_hiding_enabled: bool,
    pub cabac_init_present: bool,
    pub num_ref_idx_l0_default_active: u8,
    pub num_ref_idx_l1_default_active: u8,
    pub init_qp: i8,
    pub constrained_intra_pred: bool,
    pub transform_skip_enabled: bool,
    pub cu_qp_delta_enabled: bool,
    pub diff_cu_qp_delta_depth: u8,
    pub cb_qp_offset: i8,
    pub cr_qp_offset: i8,
    pub slice_chroma_qp_offsets_present: bool,
    pub weighted_pred: bool,
    pub weighted_bipred: bool,
    pub transquant_bypass_enabled: bool,
    pub tiles_enabled: bool,
    pub entropy_coding_sync_enabled: bool,
    pub num_tile_columns: u16,
    pub num_tile_rows: u16,
    pub uniform_spacing: bool,
    pub loop_filter_across_tiles_enabled: bool,
    pub loop_filter_across_slices_enabled: bool,
    pub deblocking_filter_override_enabled: bool,
    pub deblocking_filter_disabled: bool,
    pub beta_offset: i8,
    pub tc_offset: i8,
    pub lists_modification_present: bool,
    pub log2_parallel_merge_level: u8,
    pub slice_segment_header_extension_present: bool,
}

impl HevcPps {
    /// The ranges that the standard gives the fields on which the decoder
    /// computes.
    pub open spec fn valid(self) -> bool {
        &&& self.pps_id < 64
        &&& self.sps_id < 16
        &&& self.num_extra_slice_header_bits <= 7
        &&& -48 <= self.init_qp <= 51
        &&& -12 <= self.cb_qp_offset <= 12
        &&& -12 <= self.cr_qp_offset <= 12
        &&& -12 <= self.beta_offset <= 12
        &&& -12 <= self.tc_offset <= 12
    }
}

/// The start of a slice segment header.
#[derive(Debug, Clone, Copy, PartialEq, Eq, Structural)]
pub struct HevcSliceHeader {
    pub first_slice_segment_in_pic: bool,
    pub pps_id: u8,
    /// 0 for a B slice, 1 for a P slice, 2 for an I slice.
    pub slice_type: u8,
    pub pic_order_cnt_lsb: u32,
}

/// Why the header of a slice segment could not be read.
#[derive(Debug, Clone, Copy, PartialEq, Eq, Structural)]
pub enum HevcParseError {
    /// The slice segment header could not be read or breaks a range.
    MalformedSliceHeader,
    /// The unit is not a slice segment.
    NotASlice,
    /// The slice refers to a picture parameter set that was not seen.
    UnknownPps(u8),
    /// The picture parameter set refers to a sequence parameter set that
    /// was not seen.
    UnknownSps(u8),
}

/// How the NAL units of a packet are framed.
#[derive(Debug, Clone, Copy, PartialEq, Eq, Structural)]
pub enum NalFraming {
    /// A start code stands in front of each unit.
    AnnexB,
    /// The length of each unit stands in front of it, in four bytes, highest
    /// byte first.
    LengthPrefixed,
}

/// Whether a start code stands at position `i` of `data`.
pub open spec fn start_code_at(data: Seq<u8>, i: int) -> bool {
    0 <= i && i + 3 <= data.len() && data[i] == 0 && data[i + 1] == 0 && data[i + 2] == 1
}

/// Position of the first start code at or behind `from`, or the length of
/// `data` where there is none.
pub open spec fn next_start_code(data: Seq<u8>, from: int) -> int
    decreases data.len() - from,
{
    if from < 0 || from >= data.len() {
        data.len() as int
    } else if start_code_at(data, from) {
        from
    } else {
        next_start_code(data, from + 1)
    }
}

/// End of the unit that starts at `start` and is followed by a start code
/// or the end of the data at `end`: the zero bytes before `end` are no part
/// of the unit.
pub open spec fn unit_end(data: Seq<u8>, start: int, end: int) -> int
    decreases end - start,
{
    if end > start && 0 < end <= data.len() && data[end - 1] == 0 {
        unit_end(data, start, end - 1)
    } else {
        end
    }
}

/// The type that the first header byte of a NAL unit gives: the six bits
/// behind its highest bit.
pub open spec fn nal_type_of(first_byte: u8) -> HevcNalType {
    HevcNalType::spec_from_code((first_byte / 2 % 64) as u8)
}

/// The NAL units of a byte stream from position `from` on, behind `acc`:
/// each with its type and its bytes. A unit lies between a start code and
/// the next one or the end of the data, without the zero bytes at its end;
/// what is too short for a header is no unit.
pub open spec fn units_from(data: Seq<u8>, from: int, acc: Seq<(HevcNalType, Seq<u8>)>) -> Seq<
    (HevcNalType, Seq<u8>),
>
    decreases data.len() - from,
{
    let code = next_start_code(data, from);
    if from < 0 || code >= data.len() || code < from {
        acc
    } else {
        let start = code + 3;
        let next = next_start_code(data, start);
        let end = unit_end(data, start, next);
        units_from(
            data,
            if from < next <= data.len() {
                next
            } else {
                data.len() as int
            },
            if end - start >= 2 {
                acc.push((nal_type_of(data[start]), data.subrange(start, end)))
            } else {
                acc
            },
        )
    }
}

/// The NAL units of a byte stream.
pub open spec fn units_of(data: Seq<u8>) -> Seq<(HevcNalType, Seq<u8>)> {
    units_from(data, 0, Seq::empty())
}

/// The length that the four bytes of `data` from position `at` on give,
/// highest byte first.
pub open spec fn unit_length(data: Seq<u8>, at: int) -> int {
    data[at] * 0x100_0000 + data[at + 1] * 0x1_0000 + data[at + 2] * 0x100 + data[at + 3]
}

/// The NAL units of a packet of length-prefixed units from position `from`
/// on, behind `acc`. A unit follows the four bytes of its length; what is
/// too short for a header is no unit; a length that runs past the end of the
/// data ends the packet.
pub open spec fn prefixed_units_from(data: Seq<u8>, from: int, acc: Seq<(HevcNalType, Seq<u8>)>)
    -> Seq<(HevcNalType, Seq<u8>)>
    decreases data.len() - from,
{
    if from < 0 || from + 4 > data.len() || from + 4 + unit_length(data, from) > data.len() {
        acc
    } else {
        let start = from + 4;
        let end = start + unit_length(data, from);
        prefixed_units_from(
            data,
            end,
            if end - start >= 2 {
                acc.push((nal_type_of(data[start]), data.subrange(start, end)))
            } else {
                acc
            },
        )
    }
}

/// The NAL units of a packet under a framing.
pub open spec fn units_in(framing: NalFraming, data: Seq<u8>) -> Seq<(HevcNalType, Seq<u8>)> {
    match framing {
        NalFraming::AnnexB => units_of(data),
        NalFraming::LengthPrefixed => prefixed_units_from(data, 0, Seq::empty()),
    }
}

/// The types and bytes of a run of NAL units.
pub open spec fn units_view(nals: Seq<HevcNalUnit>) -> Seq<(HevcNalType, Seq<u8>)> {
    Seq::new(nals.len(), |i: int| (nals[i].nal_type, nals[i].data@))
}

/// The next start code lies at or behind the position that the search
/// starts from, and no start code lies in between.
pub proof fn lemma_next_start_code(data: Seq<u8>, from: int)
    requires
        0 <= from <= data.len(),
    ensures
        from <= next_start_code(data, from) <= data.len(),
        next_start_code(data, from) < data.len() ==> start_code_at(
            data,
            next_start_code(data, from),
        ),
        forall|i: int| from <= i < next_start_code(data, from) ==> !start_code_at(data, i),
    decreases data.len() - from,
{
    if from < data.len() && !start_code_at(data, from) {
        lemma_next_start_code(data, from + 1);
    }
}

/// Finds the next start code.
fn find_start_code(data: &[u8], from: usize) -> (at: usize)
    requires
        from <= data@.len(),
    ensures
        at == next_start_code(data@, from as int),
        from <= at <= data@.len(),
{
    let len: usize = data.len();
    let mut i: usize = from;
    while i < len
        invariant
            from <= i <= len,
            len == data@.len(),
            next_start_code(data@, i as int) == next_start_code(data@, from as int),
        decreases len - i,
    {
        if len - i >= 3 && data[i] == 0 && data[i + 1] == 0 && data[i + 2] == 1 {
            return i;
        }
        i += 1;
    }
    i
}

/// Finds the end of a unit.
fn find_unit_end(data: &[u8], start: usize, end: usize) -> (at: usize)
    requires
        start <= end <= data@.len(),
    ensures
        at == unit_end(data@, start as int, end as int),
        start <= at <= end,
{
    let mut e: usize = end;
    while e > start && data[e - 1] == 0
        invariant
            start <= e <= end <= data@.len(),
            unit_end(data@, start as int, e as int) == unit_end(data@, start as int, end as int),
        decreases e - start,
    {
        e -= 1;
    }
    e
}

/// Finds the NAL units of a byte stream with start codes.
pub fn find_annex_b_units(data: &[u8]) -> (nals: Vec<HevcNalUnit>)
    ensures
        units_view(nals@) == units_of(data@),
{
    let len: usize = data.len();
    let mut nals: Vec<HevcNalUnit> = Vec::new();
    let mut from: usize = 0;
    assert(units_view(nals@) =~= Seq::<(HevcNalType, Seq<u8>)>::empty());
    loop
        invariant
            0 <= from <= len,
            len == data@.len(),
            units_from(data@, from as int, units_view(nals@)) == units_of(data@),
        decreases len - from,
    {
        let code: usize = find_start_code(data, from);
        if code >= len {
            return nals;
        }
        proof {
            lemma_next_start_code(data@, from as int);
        }
        let start: usize = code + 3;
        let next: usize = find_start_code(data, start);
        let end: usize = find_unit_end(data, start, next);
        let ghost before = units_view(nals@);
        if end - start >= 2 {
            let code_bits: u8 = data[start] / 2 % 64;
            let unit = HevcNalUnit {
                nal_type: HevcNalType::from_code(code_bits),
                data: copy_range(data, start, end),
            };
            nals.push(unit);
            assert(units_view(nals@) =~= before.push(
                (nal_type_of(data@[start as int]), data@.subrange(start as int, end as int)),
            ));
        }
        from = next;
    }
}

/// Finds the NAL units of a packet of length-prefixed units.
pub fn find_length_prefixed_units(data: &[u8]) -> (nals: Vec<HevcNalUnit>)
    ensures
        units_view(nals@) == prefixed_units_from(data@, 0, Seq::empty()),
{
    let len: usize = data.len();
    let mut nals: Vec<HevcNalUnit> = Vec::new();
    let mut from: usize = 0;
    assert(units_view(nals@) =~= Seq::<(HevcNalType, Seq<u8>)>::empty());
    loop
        invariant
            0 <= from <= len,
            len == data@.len(),
            prefixed_units_from(data@, from as int, units_view(nals@)) == prefixed_units_from(
                data@,
                0,
                Seq::empty(),
            ),
        decreases len - from,
    {
        if len - from < 4 {
            return nals;
        }
        let length: u64 = data[from] as u64 * 0x100_0000 + data[from + 1] as u64 * 0x1_0000 + data[from
            + 2] as u64 * 0x100 + data[from + 3] as u64;
        let start: usize = from + 4;
        if length > (len - start) as u64 {
            return nals;
        }
        let end: usize = start + length as usize;
        let ghost before = units_view(nals@);
        if end - start >= 2 {
            let code_bits: u8 = data[start] / 2 % 64;
            let unit = HevcNalUnit {
                nal_type: HevcNalType::from_code(code_bits),
                data: copy_range(data, start, end),
            };
            nals.push(unit);
            assert(units_view(nals@) =~= before.push(
                (nal_type_of(data@[start as int]), data@.subrange(start as int, end as int)),
            ));
        }
        from = end;
    }
}

/// The tables of parameter sets as contracts see them.
pub struct ParserModel {
    /// Sequence parameter sets by their number, sixteen slots.
    pub sps: Seq<Option<HevcSps>>,
    /// Picture parameter sets by their number, sixty-four slots.
    pub pps: Seq<Option<HevcPps>>,
    /// Number of the sequence parameter set that was seen last.
    pub last_sps: Option<u8>,
    /// How the packets that the parser is given are framed.
    pub framing: NalFraming,
}

impl ParserModel {
    /// The NAL units of a packet under the parser's framing.
    pub open spec fn units(self, data: Seq<u8>) -> Seq<(HevcNalType, Seq<u8>)> {
        units_in(self.framing, data)
    }

    /// What every parser keeps true of itself: each table has all its
    /// slots, each set stands under its own number with every field in its
    /// range, and the set that was seen last is there.
    pub open spec fn wf(self) -> bool {
        &&& self.sps.len() == 16
        &&& self.pps.len() == 64
        &&& forall|i: int|
            0 <= i < 16 ==> (#[trigger] self.sps[i] matches Some(s) ==> s.valid() && s.sps_id == i)
        &&& forall|i: int|
            0 <= i < 64 ==> (#[trigger] self.pps[i] matches Some(p) ==> p.valid() && p.pps_id == i)
        &&& self.last_sps matches Some(id) ==> id < 16 && self.sps[id as int] is Some
    }

    /// The tables after a NAL unit of type `nal_type` with bytes `data` was
    /// taken in: a parameter set that could be read stands under its number;
    /// anything else leaves the tables as they are.
    pub open spec fn after_nal(self, nal_type: HevcNalType, data: Seq<u8>) -> ParserModel {
        if nal_type == HevcNalType::Sps {
            match parsed_sps(payload_of(data)) {
                Some(sps) => ParserModel {
                    sps: self.sps.update(sps.sps_id as int, Some(sps)),
                    last_sps: Some(sps.sps_id),
                    ..self
                },
                None => self,
            }
        } else if nal_type == HevcNalType::Pps {
            match parsed_pps(payload_of(data)) {
                Some(pps) => ParserModel { pps: self.pps.update(pps.pps_id as int, Some(pps)), ..self },
                None => self,
            }
        } else {
            self
        }
    }

    /// The header of a slice segment of type `nal_type` with bytes `data`
    /// under these tables.
    pub open spec fn slice_header(self, nal_type: HevcNalType, data: Seq<u8>) -> Result<
        HevcSliceHeader,
        HevcParseError,
    > {
        let payload = payload_of(data);
        let (intro, c1) = slice_intro(payload, start_of(payload), nal_type);
        if !nal_type.spec_is_slice() {
            Err(HevcParseError::NotASlice)
        } else if !c1.ok {
            Err(HevcParseError::MalformedSliceHeader)
        } else if self.pps[intro.1 as int] is None {
            Err(HevcParseError::UnknownPps(intro.1))
        } else if self.sps[self.pps[intro.1 as int]->0.sps_id as int] is None {
            Err(HevcParseError::UnknownSps(self.pps[intro.1 as int]->0.sps_id))
        } else {
            let pps = self.pps[intro.1 as int]->0;
            let sps = self.sps[pps.sps_id as int]->0;
            let (rest, c2) = slice_rest(payload, c1, intro.0, nal_type, sps, pps);
            if c2.ok {
                Ok(
                    HevcSliceHeader {
                        first_slice_segment_in_pic: intro.0,
                        pps_id: intro.1,
                        slice_type: rest.0,
                        pic_order_cnt_lsb: rest.1,
                    },
                )
            } else {
                Err(HevcParseError::MalformedSliceHeader)
            }
        }
    }

    /// Width and height of the pictures and whether the stream is a high
    /// dynamic range one, from the sequence parameter set that was seen last.
    pub open spec fn dimensions(self) -> Option<(u32, u32, bool)> {
        match self.last_sps {
            Some(id) => match self.sps[id as int] {
                Some(sps) => Some((sps.pic_width, sps.pic_height, sps.spec_is_hdr())),
                None => None,
            },
            None => None,
        }
    }

    /// The tables after the NAL units of `nals` from number `from` on were
    /// taken in, one after the other.
    pub open spec fn after_nals(self, nals: Seq<(HevcNalType, Seq<u8>)>, from: int) -> ParserModel
        decreases nals.len() - from,
    {
        if from < 0 || from >= nals.len() {
            self
        } else {
            self.after_nal(nals[from].0, nals[from].1).after_nals(nals, from + 1)
        }
    }
}

/// Taking NAL units in leaves the framing as it is.
pub proof fn lemma_after_nals_keeps_framing(
    p: ParserModel,
    nals: Seq<(HevcNalType, Seq<u8>)>,
    from: int,
)
    ensures
        p.after_nals(nals, from).framing == p.framing,
    decreases nals.len() - from,
{
    if 0 <= from < nals.len() {
        lemma_after_nals_keeps_framing(p.after_nal(nals[from].0, nals[from].1), nals, from + 1);
    }
}

/// HEVC parser: the parameter sets that were seen, by their numbers.
#[derive(Debug)]
pub struct HevcParser {
    /// Sequence parameter sets, sixteen slots
    pub sps: Vec<Option<HevcSps>>,
    /// Picture parameter sets, sixty-four slots
    pub pps: Vec<Option<HevcPps>>,
    /// Number of the sequence parameter set that was seen last
    pub last_sps: Option<u8>,
    /// How the packets are framed
    pub framing: NalFraming,
}

impl View for HevcParser {
    type V = ParserModel;

    open spec fn view(&self) -> ParserModel {
        ParserModel {
            sps: self.sps@,
            pps: self.pps@,
            last_sps: self.last_sps,
            framing: self.framing,
        }
    }
}

impl HevcParser {
    /// What every parser keeps true of itself.
    pub open spec fn wf(&self) -> bool {
        self@.wf()
    }

    /// A parser that has seen nothing, for packets with start codes.
    pub fn new() -> (parser: Self)
        ensures
            parser.wf(),
            parser@.framing == NalFraming::AnnexB,
            parser@.last_sps is None,
            forall|i: int| 0 <= i < 16 ==> parser@.sps[i] is None,
            forall|i: int| 0 <= i < 64 ==> parser@.pps[i] is None,
    {
        Self::with_framing(NalFraming::AnnexB)
    }

    /// A parser that has seen nothing, for packets framed in this way.
    pub fn with_framing(framing: NalFraming) -> (parser: Self)
        ensures
            parser.wf(),
            parser@.framing == framing,
            parser@.last_sps is None,
            forall|i: int| 0 <= i < 16 ==> parser@.sps[i] is None,
            forall|i: int| 0 <= i < 64 ==> parser@.pps[i] is None,
    {
        let mut sps: Vec<Option<HevcSps>> = Vec::new();
        let mut i: usize = 0;
        while i < 16
            invariant
                0 <= i <= 16,
                sps@.len() == i,
                forall|j: int| 0 <= j < i ==> sps@[j] is None,
            decreases 16 - i,
        {
            sps.push(None);
            i += 1;
        }
        let mut pps: Vec<Option<HevcPps>> = Vec::new();
        let mut k: usize = 0;
        while k < 64
            invariant
                0 <= k <= 64,
                pps@.len() == k,
                forall|j: int| 0 <= j < k ==> pps@[j] is None,
            decreases 64 - k,
        {
            pps.push(None);
            k += 1;
        }
        HevcParser { sps, pps, last_sps: None, framing }
    }

    /// Finds the NAL units of a packet under the parser's framing. The
    /// packet is only read.
    pub fn find_nal_units(&self, data: &[u8]) -> (nals: Vec<HevcNalUnit>)
        ensures
            units_view(nals@) == self@.units(data@),
    {
        match self.framing {
            NalFraming::AnnexB => find_annex_b_units(data),
            NalFraming::LengthPrefixed => find_length_prefixed_units(data),
        }
    }

    /// Takes in a NAL unit: a parameter set is parsed and put into its
    /// table, everything else is passed over. A parameter set that cannot be
    /// read is passed over too and leaves the tables as they are: it never
    /// stops the stream.
    pub fn process_nal(&mut self, nal: &HevcNalUnit) -> (outcome: Result<(), HevcParseError>)
        requires
            old(self).wf(),
        ensures
            final(self).wf(),
            final(self)@ == old(self)@.after_nal(nal.nal_type, nal.data@),
            outcome is Ok,
    {
        match nal.nal_type {
            HevcNalType::Sps => {
                let payload = extract_payload(nal.data.as_slice());
                match parse_sps(payload.as_slice()) {
                    Some(sps) => {
                        let id: usize = sps.sps_id as usize;
                        self.sps.set(id, Some(sps));
                        self.last_sps = Some(sps.sps_id);
                        Ok(())
                    },
                    None => Ok(()),
                }
            },
            HevcNalType::Pps => {
                let payload = extract_payload(nal.data.as_slice());
                match parse_pps(payload.as_slice()) {
                    Some(pps) => {
                        let id: usize = pps.pps_id as usize;
                        self.pps.set(id, Some(pps));
                        Ok(())
                    },
                    None => Ok(()),
                }
            },
            _ => Ok(()),
        }
    }

    /// Parses the start of the header of a slice segment. The parameter
    /// sets that the slice refers to have to be known.
    pub fn parse_slice_header(&self, nal: &HevcNalUnit) -> (header: Result<
        HevcSliceHeader,
        HevcParseError,
    >)
        requires
            self.wf(),
        ensures
            header == self@.slice_header(nal.nal_type, nal.data@),
            header matches Ok(h) ==> {
                &&& h.pps_id < 64
                &&& self@.pps[h.pps_id as int] is Some
                &&& self@.sps[self@.pps[h.pps_id as int]->0.sps_id as int] is Some
                &&& h.slice_type <= 2
                &&& h.pic_order_cnt_lsb <= 0xFFFF
            },
    {
        if !nal.nal_type.is_slice() {
            return Err(HevcParseError::NotASlice);
        }
        let payload = extract_payload(nal.data.as_slice());
        let mut r = BitReader::new(payload.as_slice());
        let intro = read_slice_intro(&mut r, nal.nal_type);
        if !r.is_ok() {
            return Err(HevcParseError::MalformedSliceHeader);
        }
        let pps_id: usize = intro.1 as usize;
        let pps = match self.pps[pps_id] {
            Some(pps) => pps,
            None => {
                return Err(HevcParseError::UnknownPps(intro.1));
            },
        };
        let sps = match self.sps[pps.sps_id as usize] {
            Some(sps) => sps,
            None => {
                return Err(HevcParseError::UnknownSps(pps.sps_id));
            },
        };
        let rest = read_slice_rest(&mut r, intro.0, nal.nal_type, &sps, &pps);
        if !r.is_ok() {
            return Err(HevcParseError::MalformedSliceHeader);
        }
        Ok(
            HevcSliceHeader {
                first_slice_segment_in_pic: intro.0,
                pps_id: intro.1,
                slice_type: rest.0,
                pic_order_cnt_lsb: rest.1,
            },
        )
    }

    /// Width and height of the pictures and whether the stream is a high
    /// dynamic range one, from the sequence parameter set that was seen last;
    /// nothing until one was seen.
    pub fn get_dimensions(&self) -> (dimensions: Option<(u32, u32, bool)>)
        requires
            self.wf(),
        ensures
            dimensions == self@.dimensions(),
    {
        match self.last_sps {
            Some(id) => match self.sps[id as usize] {
                Some(sps) => Some((sps.pic_width, sps.pic_height, sps.bit_depth_luma > 8)),
                None => None,
            },
            None => None,
        }
    }
}

} // verus!
