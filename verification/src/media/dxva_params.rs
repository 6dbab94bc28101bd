//! The accelerator's HEVC structures: picture entry, picture parameters,
//! quantization matrix and short slice control, and how picture parameters
//! are built from the parameter sets and the decoded picture buffer.
//!
//! The accelerator reads these as packed bytes; field order and widths are
//! fixed by its interface. Flag groups are words in which each field has its
//! own bits, so a word is the sum of its fields, each times the weight of its
//! lowest bit.

use vstd::prelude::*;
use crate::media::byte_layout::{
    byte_of_i8, i8_to_byte, i32_to_word, le16, le16_run, le32, le32_run, lemma_le16_run_len,
    lemma_le32_run_len, put_bytes, put_i32_run, put_u16, put_u16_run, put_u32, word_of_i32,
};
use crate::media::dpb::DpbEntry;
use crate::media::hevc_parser::{HevcNalType, HevcPps, HevcSps};
use crate::media::reference_lists::{
    at_most, collect_long_term, collect_short_term, listed_before, listed_short_term,
    reference_list, refs_after, refs_before, refs_long_term, set_slot, REF_LIST_LEN,
};

verus! {

/// Picture entry: index into the surface pool in the low seven bits, and
/// the long-term flag in the highest bit.
#[derive(Debug, Clone, Copy, PartialEq, Eq, Structural)]
pub struct DxvaPicEntryHevc {
    pub b_pic_entry: u8,
}

impl DxvaPicEntryHevc {
    /// Entry for surface `index`: the index reduced to seven bits, plus 128
    /// for a long-term reference.
    pub open spec fn spec_new(index: u8, is_long_term: bool) -> Self {
        DxvaPicEntryHevc {
            b_pic_entry: (index % 128 + if is_long_term {
                128int
            } else {
                0int
            }) as u8,
        }
    }

    /// The entry that marks an unused slot.
    pub open spec fn spec_invalid() -> Self {
        DxvaPicEntryHevc { b_pic_entry: 0xFF }
    }

    #[verifier::when_used_as_spec(spec_new)]
    pub fn new(index: u8, is_long_term: bool) -> (entry: Self)
        ensures
            entry == Self::spec_new(index, is_long_term),
    {
        let flags: u8 = if is_long_term {
            0x80
        } else {
            0
        };
        assert((index & 0x7F) | flags == index % 128 + flags) by (bit_vector)
            requires
                flags == 0x80 || flags == 0,
        ;
        DxvaPicEntryHevc { b_pic_entry: (index & 0x7F) | flags }
    }

    #[verifier::when_used_as_spec(spec_invalid)]
    pub fn invalid() -> (entry: Self)
        ensures
            entry == Self::spec_invalid(),
    {
        DxvaPicEntryHevc { b_pic_entry: 0xFF }
    }
}

impl Default for DxvaPicEntryHevc {
    fn default() -> (entry: Self)
        ensures
            entry.b_pic_entry == 0,
    {
        DxvaPicEntryHevc { b_pic_entry: 0 }
    }
}

/// HEVC picture parameters, in the accelerator's field order. Packed, the
/// structure takes 232 bytes.
#[derive(Debug, Clone, Copy)]
pub struct DxvaHevcPicParams {
    // Dimensions in minimum coding block units
    pub pic_width_in_min_cbs_y: u16,
    pub pic_height_in_min_cbs_y: u16,
    // chroma_format_idc:2, separate_colour_plane_flag:1, bit_depth_luma_minus8:3,
    // bit_depth_chroma_minus8:3, log2_max_pic_order_cnt_lsb_minus4:4,
    // NoPicReorderingFlag:1, NoBiPredFlag:1, ReservedBits1:1
    pub w_format_and_sequence_info_flags: u16,
    // Current picture
    pub curr_pic: DxvaPicEntryHevc,
    // Sequence parameters
    pub sps_max_dec_pic_buffering_minus1: u8,
    pub log2_min_luma_coding_block_size_minus3: u8,
    pub log2_diff_max_min_luma_coding_block_size: u8,
    pub log2_min_transform_block_size_minus2: u8,
    pub log2_diff_max_min_transform_block_size: u8,
    pub max_transform_hierarchy_depth_inter: u8,
    pub max_transform_hierarchy_depth_intra: u8,
    pub num_short_term_ref_pic_sets: u8,
    pub num_long_term_ref_pics_sps: u8,
    pub num_ref_idx_l0_default_active_minus1: u8,
    pub num_ref_idx_l1_default_active_minus1: u8,
    pub init_qp_minus26: i8,
    pub uc_num_delta_pocs_of_ref_rps_idx: u8,
    pub w_num_bits_for_short_term_rps_in_slice: u16,
    pub reserved_bits2: u16,
    // scaling_list_enabled_flag:1, amp_enabled_flag:1, sample_adaptive_offset_enabled_flag:1,
    // pcm_enabled_flag:1, pcm_sample_bit_depth_luma_minus1:4, pcm_sample_bit_depth_chroma_minus1:4,
    // log2_min_pcm_luma_coding_block_size_minus3:2, log2_diff_max_min_pcm_luma_coding_block_size:2,
    // pcm_loop_filter_disabled_flag:1, long_term_ref_pics_present_flag:1,
    // sps_temporal_mvp_enabled_flag:1, strong_intra_smoothing_enabled_flag:1,
    // dependent_slice_segments_enabled_flag:1, output_flag_present_flag:1,
    // num_extra_slice_header_bits:3, sign_data_hiding_enabled_flag:1,
    // cabac_init_present_flag:1, ReservedBits3:5
    pub dw_coding_param_tool_flags: u32,
    // constrained_intra_pred_flag:1, transform_skip_enabled_flag:1, cu_qp_delta_enabled_flag:1,
    // pps_slice_chroma_qp_offsets_present_flag:1, weighted_pred_flag:1, weighted_bipred_flag:1,
    // transquant_bypass_enabled_flag:1, tiles_enabled_flag:1, entropy_coding_sync_enabled_flag:1,
    // uniform_spacing_flag:1, loop_filter_across_tiles_enabled_flag:1,
    // pps_loop_filter_across_slices_enabled_flag:1, deblocking_filter_override_enabled_flag:1,
    // pps_deblocking_filter_disabled_flag:1, lists_modification_present_flag:1,
    // slice_segment_header_extension_present_flag:1, IrapPicFlag:1, IdrPicFlag:1, IntraPicFlag:1,
    // ReservedBits4:13
    pub dw_coding_setting_picture_property_flags: u32,
    // Picture parameters
    pub pps_cb_qp_offset: i8,
    pub pps_cr_qp_offset: i8,
    pub num_tile_columns_minus1: u8,
    pub num_tile_rows_minus1: u8,
    pub column_width_minus1: [u16; 19],
    pub row_height_minus1: [u16; 21],
    pub diff_cu_qp_delta_depth: u8,
    pub pps_beta_offset_div2: i8,
    pub pps_tc_offset_div2: i8,
    pub log2_parallel_merge_level_minus2: u8,
    pub curr_pic_order_cnt_val: i32,
    // Reference picture list
    pub ref_pic_list: [DxvaPicEntryHevc; 15],
    pub reserved_bits5: u8,
    // Picture order counts of the reference pictures
    pub pic_order_cnt_val_list: [i32; 15],
    // Reference picture sets: positions in the reference picture list
    pub ref_pic_set_st_curr_before: [u8; 8],
    pub ref_pic_set_st_curr_after: [u8; 8],
    pub ref_pic_set_lt_curr: [u8; 8],
    pub reserved_bits6: u16,
    pub reserved_bits7: u16,
    pub status_report_feedback_number: u32,
}

/// Size of the packed picture parameters in bytes.
pub const PIC_PARAMS_SIZE: usize = 232;

/// Size of the packed short slice control in bytes.
pub const SLICE_SHORT_SIZE: usize = 10;

/// Size of the packed quantization matrix in bytes.
pub const QMATRIX_SIZE: usize = 1000;

/// One for a flag that is set, zero for one that is not.
#[verifier::opaque]
pub open spec fn bit(flag: bool) -> int {
    if flag {
        1
    } else {
        0
    }
}

/// `x` less `y`, but not below zero.
pub open spec fn minus_floor(x: int, y: int) -> int {
    if x >= y {
        x - y
    } else {
        0
    }
}

/// Half of `x`, rounded toward zero.
pub open spec fn half_toward_zero(x: int) -> int {
    if x >= 0 {
        x / 2
    } else {
        -((-x) / 2)
    }
}

/// Edge of the smallest luma coding block in samples.
pub open spec fn min_cb_size(sps: HevcSps) -> int {
    (1u32 << sps.log2_min_luma_coding_block_size) as int
}

/// Format and sequence information word.
pub open spec fn format_and_sequence_info(sps: HevcSps) -> int {
    sps.chroma_format_idc % 4 + 4 * bit(sps.separate_colour_plane) + 8 * ((sps.bit_depth_luma - 8)
        % 8) + 64 * ((sps.bit_depth_chroma - 8) % 8) + 512 * ((sps.log2_max_poc_lsb - 4) % 16)
}

/// The PCM fields of the coding tool word; all zero where PCM is off.
pub open spec fn pcm_tool_bits(sps: HevcSps) -> int {
    if sps.pcm_enabled {
        16 * (minus_floor(sps.pcm_sample_bit_depth_luma as int, 1) % 16) + 256 * (minus_floor(
            sps.pcm_sample_bit_depth_chroma as int,
            1,
        ) % 16) + 4096 * (minus_floor(sps.log2_min_pcm_luma_coding_block_size as int, 3) % 4)
            + 16384 * (sps.log2_diff_max_min_pcm_luma_coding_block_size % 4) + 65536 * bit(
            sps.pcm_loop_filter_disabled,
        )
    } else {
        0
    }
}

/// Coding tool word.
pub open spec fn coding_param_tool_flags(sps: HevcSps, pps: HevcPps) -> int {
    bit(sps.scaling_list_enabled) + 2 * bit(sps.amp_enabled) + 4 * bit(
        sps.sample_adaptive_offset_enabled,
    ) + 8 * bit(sps.pcm_enabled) + pcm_tool_bits(sps) + 0x2_0000 * bit(
        sps.long_term_ref_pics_present,
    ) + 0x4_0000 * bit(sps.temporal_mvp_enabled) + 0x8_0000 * bit(
        sps.strong_intra_smoothing_enabled,
    ) + 0x10_0000 * bit(pps.dependent_slice_segments_enabled) + 0x20_0000 * bit(
        pps.output_flag_present,
    ) + 0x40_0000 * (pps.num_extra_slice_header_bits % 8) + 0x200_0000 * bit(
        pps.sign_data_hiding_enabled,
    ) + 0x400_0000 * bit(pps.cabac_init_present)
}

/// Low byte of the picture property word: the first eight flags of the
/// picture parameter set.
pub open spec fn property_low_byte(pps: HevcPps) -> int {
    bit(pps.constrained_intra_pred) + 2 * bit(pps.transform_skip_enabled) + 4 * bit(
        pps.cu_qp_delta_enabled,
    ) + 8 * bit(pps.slice_chroma_qp_offsets_present) + 16 * bit(pps.weighted_pred) + 32 * bit(
        pps.weighted_bipred,
    ) + 64 * bit(pps.transquant_bypass_enabled) + 128 * bit(pps.tiles_enabled)
}

/// Second byte of the picture property word: the next eight flags of the
/// picture parameter set.
pub open spec fn property_high_byte(pps: HevcPps) -> int {
    bit(pps.entropy_coding_sync_enabled) + 2 * bit(pps.uniform_spacing) + 4 * bit(
        pps.loop_filter_across_tiles_enabled,
    ) + 8 * bit(pps.loop_filter_across_slices_enabled) + 16 * bit(
        pps.deblocking_filter_override_enabled,
    ) + 32 * bit(pps.deblocking_filter_disabled) + 64 * bit(pps.lists_modification_present) + 128
        * bit(pps.slice_segment_header_extension_present)
}

/// The three flags on the kind of picture: random access point, IDR, and
/// intra (an I slice).
pub open spec fn picture_kind_bits(nal_type: HevcNalType, slice_type: u8) -> int {
    bit(nal_type.spec_is_rap()) + 2 * bit(nal_type.spec_is_idr()) + 4 * bit(slice_type == 2)
}

/// Picture property word: sixteen flags of the picture parameter set in
/// bits 0 to 15, the kind of picture in bits 16 to 18.
pub open spec fn picture_property_flags(pps: HevcPps, nal_type: HevcNalType, slice_type: u8) -> int {
    property_low_byte(pps) + 256 * property_high_byte(pps) + 0x1_0000 * picture_kind_bits(
        nal_type,
        slice_type,
    )
}

/// Entry `i` of the reference picture list for `list`: the surface of
/// reference `i`, or the invalid entry behind the last reference.
pub open spec fn ref_list_entry(list: Seq<DpbEntry>, i: int) -> DxvaPicEntryHevc {
    if 0 <= i < list.len() {
        DxvaPicEntryHevc::spec_new(list[i].surface_index, list[i].is_long_term)
    } else {
        DxvaPicEntryHevc::spec_invalid()
    }
}

/// Picture order count `i` of the reference picture list for `list`.
pub open spec fn ref_list_poc(list: Seq<DpbEntry>, i: int) -> i32 {
    if 0 <= i < list.len() {
        list[i].poc
    } else {
        0
    }
}

impl DxvaHevcPicParams {
    /// Whether these are the picture parameters of a picture of NAL type
    /// `nal_type` and slice type `slice_type`, decoded into surface
    /// `surface_idx` with picture order count `poc`, under the parameter
    /// sets `sps` and `pps` and with `dpb` as the decoded picture buffer.
    pub open spec fn describes(
        self,
        sps: HevcSps,
        pps: HevcPps,
        nal_type: HevcNalType,
        slice_type: u8,
        surface_idx: u32,
        poc: i32,
        dpb: Seq<DpbEntry>,
    ) -> bool {
        let is_idr = nal_type.spec_is_idr();
        let list = reference_list(dpb, poc, is_idr);
        let before = listed_before(dpb, poc, is_idr);
        let short_term = listed_short_term(dpb, poc, is_idr);
        &&& self.pic_width_in_min_cbs_y == sps.pic_width as int / min_cb_size(sps) % 0x1_0000
        &&& self.pic_height_in_min_cbs_y == sps.pic_height as int / min_cb_size(sps) % 0x1_0000
        &&& self.w_format_and_sequence_info_flags == format_and_sequence_info(sps)
        &&& self.curr_pic == DxvaPicEntryHevc::spec_new((surface_idx % 256) as u8, false)
        &&& self.sps_max_dec_pic_buffering_minus1 == 4
        &&& self.log2_min_luma_coding_block_size_minus3 == sps.log2_min_luma_coding_block_size - 3
        &&& self.log2_diff_max_min_luma_coding_block_size
            == sps.log2_diff_max_min_luma_coding_block_size
        &&& self.log2_min_transform_block_size_minus2 == minus_floor(
            sps.log2_min_luma_transform_block_size as int,
            2,
        )
        &&& self.log2_diff_max_min_transform_block_size
            == sps.log2_diff_max_min_luma_transform_block_size
        &&& self.max_transform_hierarchy_depth_inter == sps.max_transform_hierarchy_depth_inter
        &&& self.max_transform_hierarchy_depth_intra == sps.max_transform_hierarchy_depth_intra
        &&& self.num_short_term_ref_pic_sets == sps.num_short_term_ref_pic_sets
        &&& self.num_long_term_ref_pics_sps == sps.num_long_term_ref_pics_sps
        &&& self.num_ref_idx_l0_default_active_minus1 == minus_floor(
            pps.num_ref_idx_l0_default_active as int,
            1,
        )
        &&& self.num_ref_idx_l1_default_active_minus1 == minus_floor(
            pps.num_ref_idx_l1_default_active as int,
            1,
        )
        &&& self.init_qp_minus26 == pps.init_qp - 26
        &&& self.uc_num_delta_pocs_of_ref_rps_idx == 0
        &&& self.w_num_bits_for_short_term_rps_in_slice == 0
        &&& self.reserved_bits2 == 0
        &&& self.dw_coding_param_tool_flags == coding_param_tool_flags(sps, pps)
        &&& self.dw_coding_setting_picture_property_flags == picture_property_flags(
            pps,
            nal_type,
            slice_type,
        )
        &&& self.pps_cb_qp_offset == pps.cb_qp_offset
        &&& self.pps_cr_qp_offset == pps.cr_qp_offset
        &&& self.num_tile_columns_minus1 == if pps.tiles_enabled {
            minus_floor(pps.num_tile_columns as int, 1) % 256
        } else {
            0
        }
        &&& self.num_tile_rows_minus1 == if pps.tiles_enabled {
            minus_floor(pps.num_tile_rows as int, 1) % 256
        } else {
            0
        }
        &&& forall|i: int| 0 <= i < 19 ==> self.column_width_minus1[i] == 0
        &&& forall|i: int| 0 <= i < 21 ==> self.row_height_minus1[i] == 0
        &&& self.diff_cu_qp_delta_depth == pps.diff_cu_qp_delta_depth
        &&& self.pps_beta_offset_div2 == half_toward_zero(pps.beta_offset as int)
        &&& self.pps_tc_offset_div2 == half_toward_zero(pps.tc_offset as int)
        &&& self.log2_parallel_merge_level_minus2 == minus_floor(
            pps.log2_parallel_merge_level as int,
            2,
        )
        &&& self.curr_pic_order_cnt_val == poc
        &&& forall|i: int| 0 <= i < 15 ==> self.ref_pic_list[i] == ref_list_entry(list, i)
        &&& self.reserved_bits5 == 0
        &&& forall|i: int| 0 <= i < 15 ==> self.pic_order_cnt_val_list[i] == ref_list_poc(list, i)
        &&& forall|i: int|
            0 <= i < 8 ==> self.ref_pic_set_st_curr_before[i] == set_slot(0, before, i)
        &&& forall|i: int|
            0 <= i < 8 ==> self.ref_pic_set_st_curr_after[i] == set_slot(before, short_term, i)
        &&& forall|i: int|
            0 <= i < 8 ==> self.ref_pic_set_lt_curr[i] == set_slot(
                short_term,
                list.len() as int,
                i,
            )
        &&& self.reserved_bits6 == 0
        &&& self.reserved_bits7 == 0
        &&& self.status_report_feedback_number == 1
    }

    /// The packed bytes of the structure: every field in order, integers
    /// low byte first, nothing between the fields.
    pub open spec fn packed(self) -> Seq<u8> {
        Seq::<u8>::empty() + le16(self.pic_width_in_min_cbs_y) + le16(self.pic_height_in_min_cbs_y)
            + le16(self.w_format_and_sequence_info_flags) + seq![
            self.curr_pic.b_pic_entry,
            self.sps_max_dec_pic_buffering_minus1,
            self.log2_min_luma_coding_block_size_minus3,
            self.log2_diff_max_min_luma_coding_block_size,
            self.log2_min_transform_block_size_minus2,
            self.log2_diff_max_min_transform_block_size,
            self.max_transform_hierarchy_depth_inter,
            self.max_transform_hierarchy_depth_intra,
            self.num_short_term_ref_pic_sets,
            self.num_long_term_ref_pics_sps,
            self.num_ref_idx_l0_default_active_minus1,
            self.num_ref_idx_l1_default_active_minus1,
            byte_of_i8(self.init_qp_minus26),
            self.uc_num_delta_pocs_of_ref_rps_idx,
        ] + le16(self.w_num_bits_for_short_term_rps_in_slice) + le16(self.reserved_bits2) + le32(
            self.dw_coding_param_tool_flags,
        ) + le32(self.dw_coding_setting_picture_property_flags) + seq![
            byte_of_i8(self.pps_cb_qp_offset),
            byte_of_i8(self.pps_cr_qp_offset),
            self.num_tile_columns_minus1,
            self.num_tile_rows_minus1,
        ] + le16_run(self.column_width_minus1@) + le16_run(self.row_height_minus1@) + seq![
            self.diff_cu_qp_delta_depth,
            byte_of_i8(self.pps_beta_offset_div2),
            byte_of_i8(self.pps_tc_offset_div2),
            self.log2_parallel_merge_level_minus2,
        ] + le32(word_of_i32(self.curr_pic_order_cnt_val)) + self.ref_pic_list@.map_values(
            |e: DxvaPicEntryHevc| e.b_pic_entry,
        ) + seq![self.reserved_bits5] + le32_run(self.pic_order_cnt_val_list@)
            + self.ref_pic_set_st_curr_before@ + self.ref_pic_set_st_curr_after@
            + self.ref_pic_set_lt_curr@ + le16(self.reserved_bits6) + le16(self.reserved_bits7)
            + le32(self.status_report_feedback_number)
    }

    /// The structure as the bytes that the accelerator reads.
    pub fn to_bytes(&self) -> (bytes: Vec<u8>)
        ensures
            bytes@ == self.packed(),
            bytes@.len() == PIC_PARAMS_SIZE,
    {
        let mut out: Vec<u8> = Vec::new();
        assert(out@ =~= Seq::<u8>::empty());
        put_u16(&mut out, self.pic_width_in_min_cbs_y);
        put_u16(&mut out, self.pic_height_in_min_cbs_y);
        put_u16(&mut out, self.w_format_and_sequence_info_flags);
        let head: [u8; 14] = [
            self.curr_pic.b_pic_entry,
            self.sps_max_dec_pic_buffering_minus1,
            self.log2_min_luma_coding_block_size_minus3,
            self.log2_diff_max_min_luma_coding_block_size,
            self.log2_min_transform_block_size_minus2,
            self.log2_diff_max_min_transform_block_size,
            self.max_transform_hierarchy_depth_inter,
            self.max_transform_hierarchy_depth_intra,
            self.num_short_term_ref_pic_sets,
            self.num_long_term_ref_pics_sps,
            self.num_ref_idx_l0_default_active_minus1,
            self.num_ref_idx_l1_default_active_minus1,
            i8_to_byte(self.init_qp_minus26),
            self.uc_num_delta_pocs_of_ref_rps_idx,
        ];
        assert(head@ =~= seq![
            self.curr_pic.b_pic_entry,
            self.sps_max_dec_pic_buffering_minus1,
            self.log2_min_luma_coding_block_size_minus3,
            self.log2_diff_max_min_luma_coding_block_size,
            self.log2_min_transform_block_size_minus2,
            self.log2_diff_max_min_transform_block_size,
            self.max_transform_hierarchy_depth_inter,
            self.max_transform_hierarchy_depth_intra,
            self.num_short_term_ref_pic_sets,
            self.num_long_term_ref_pics_sps,
            self.num_ref_idx_l0_default_active_minus1,
            self.num_ref_idx_l1_default_active_minus1,
            byte_of_i8(self.init_qp_minus26),
            self.uc_num_delta_pocs_of_ref_rps_idx,
        ]);
        put_bytes(&mut out, &head);
        put_u16(&mut out, self.w_num_bits_for_short_term_rps_in_slice);
        put_u16(&mut out, self.reserved_bits2);
        put_u32(&mut out, self.dw_coding_param_tool_flags);
        put_u32(&mut out, self.dw_coding_setting_picture_property_flags);
        let offsets: [u8; 4] = [
            i8_to_byte(self.pps_cb_qp_offset),
            i8_to_byte(self.pps_cr_qp_offset),
            self.num_tile_columns_minus1,
            self.num_tile_rows_minus1,
        ];
        assert(offsets@ =~= seq![
            byte_of_i8(self.pps_cb_qp_offset),
            byte_of_i8(self.pps_cr_qp_offset),
            self.num_tile_columns_minus1,
            self.num_tile_rows_minus1,
        ]);
        put_bytes(&mut out, &offsets);
        put_u16_run(&mut out, &self.column_width_minus1);
        put_u16_run(&mut out, &self.row_height_minus1);
        let deblock: [u8; 4] = [
            self.diff_cu_qp_delta_depth,
            i8_to_byte(self.pps_beta_offset_div2),
            i8_to_byte(self.pps_tc_offset_div2),
            self.log2_parallel_merge_level_minus2,
        ];
        assert(deblock@ =~= seq![
            self.diff_cu_qp_delta_depth,
            byte_of_i8(self.pps_beta_offset_div2),
            byte_of_i8(self.pps_tc_offset_div2),
            self.log2_parallel_merge_level_minus2,
        ]);
        put_bytes(&mut out, &deblock);
        put_u32(&mut out, i32_to_word(self.curr_pic_order_cnt_val));
        let entries = entry_bytes(&self.ref_pic_list);
        put_bytes(&mut out, &entries);
        let reserved: [u8; 1] = [self.reserved_bits5];
        assert(reserved@ =~= seq![self.reserved_bits5]);
        put_bytes(&mut out, &reserved);
        put_i32_run(&mut out, &self.pic_order_cnt_val_list);
        put_bytes(&mut out, &self.ref_pic_set_st_curr_before);
        put_bytes(&mut out, &self.ref_pic_set_st_curr_after);
        put_bytes(&mut out, &self.ref_pic_set_lt_curr);
        put_u16(&mut out, self.reserved_bits6);
        put_u16(&mut out, self.reserved_bits7);
        put_u32(&mut out, self.status_report_feedback_number);
        proof {
            lemma_le16_run_len(self.column_width_minus1@);
            lemma_le16_run_len(self.row_height_minus1@);
            lemma_le32_run_len(self.pic_order_cnt_val_list@);
        }
        out
    }
}

impl Default for DxvaHevcPicParams {
    /// Every field zero.
    fn default() -> (pp: Self)
        ensures
            pp.packed() == Seq::new(PIC_PARAMS_SIZE as nat, |i: int| 0u8),
    {
        let pp = DxvaHevcPicParams {
            pic_width_in_min_cbs_y: 0,
            pic_height_in_min_cbs_y: 0,
            w_format_and_sequence_info_flags: 0,
            curr_pic: DxvaPicEntryHevc { b_pic_entry: 0 },
            sps_max_dec_pic_buffering_minus1: 0,
            log2_min_luma_coding_block_size_minus3: 0,
            log2_diff_max_min_luma_coding_block_size: 0,
            log2_min_transform_block_size_minus2: 0,
            log2_diff_max_min_transform_block_size: 0,
            max_transform_hierarchy_depth_inter: 0,
            max_transform_hierarchy_depth_intra: 0,
            num_short_term_ref_pic_sets: 0,
            num_long_term_ref_pics_sps: 0,
            num_ref_idx_l0_default_active_minus1: 0,
            num_ref_idx_l1_default_active_minus1: 0,
            init_qp_minus26: 0,
            uc_num_delta_pocs_of_ref_rps_idx: 0,
            w_num_bits_for_short_term_rps_in_slice: 0,
            reserved_bits2: 0,
            dw_coding_param_tool_flags: 0,
            dw_coding_setting_picture_property_flags: 0,
            pps_cb_qp_offset: 0,
            pps_cr_qp_offset: 0,
            num_tile_columns_minus1: 0,
            num_tile_rows_minus1: 0,
            column_width_minus1: [0u16; 19],
            row_height_minus1: [0u16; 21],
            diff_cu_qp_delta_depth: 0,
            pps_beta_offset_div2: 0,
            pps_tc_offset_div2: 0,
            log2_parallel_merge_level_minus2: 0,
            curr_pic_order_cnt_val: 0,
            ref_pic_list: [DxvaPicEntryHevc { b_pic_entry: 0 };15],
            reserved_bits5: 0,
            pic_order_cnt_val_list: [0i32; 15],
            ref_pic_set_st_curr_before: [0u8; 8],
            ref_pic_set_st_curr_after: [0u8; 8],
            ref_pic_set_lt_curr: [0u8; 8],
            reserved_bits6: 0,
            reserved_bits7: 0,
            status_report_feedback_number: 0,
        };
        proof {
            lemma_zero_runs(pp.column_width_minus1@, pp.pic_order_cnt_val_list@);
            lemma_zero_runs(pp.row_height_minus1@, pp.pic_order_cnt_val_list@);
            assert(pp.packed() =~= Seq::new(PIC_PARAMS_SIZE as nat, |i: int| 0u8));
        }
        pp
    }
}

/// Runs of zero values are runs of zero bytes.
proof fn lemma_zero_runs(halves: Seq<u16>, words: Seq<i32>)
    requires
        forall|i: int| 0 <= i < halves.len() ==> halves[i] == 0,
        forall|i: int| 0 <= i < words.len() ==> words[i] == 0,
    ensures
        le16_run(halves) == Seq::new(2 * halves.len(), |i: int| 0u8),
        le32_run(words) == Seq::new(4 * words.len(), |i: int| 0u8),
    decreases halves.len() + words.len(),
{
    if halves.len() > 0 {
        lemma_zero_runs(halves.drop_last(), Seq::empty());
        assert(le16_run(halves) =~= Seq::new(2 * halves.len(), |i: int| 0u8));
    } else {
        assert(le16_run(halves) =~= Seq::new(2 * halves.len(), |i: int| 0u8));
    }
    if words.len() > 0 {
        lemma_zero_runs(Seq::empty(), words.drop_last());
        assert(le32_run(words) =~= Seq::new(4 * words.len(), |i: int| 0u8));
    } else {
        assert(le32_run(words) =~= Seq::new(4 * words.len(), |i: int| 0u8));
    }
}

/// The bytes of a reference picture list.
fn entry_bytes(list: &[DxvaPicEntryHevc; 15]) -> (bytes: [u8; 15])
    ensures
        bytes@ == list@.map_values(|e: DxvaPicEntryHevc| e.b_pic_entry),
{
    let mut bytes: [u8; 15] = [0u8; 15];
    let mut i: usize = 0;
    while i < 15
        invariant
            0 <= i <= 15,
            forall|j: int| 0 <= j < i ==> bytes[j] == list[j].b_pic_entry,
        decreases 15 - i,
    {
        bytes[i] = list[i].b_pic_entry;
        i += 1;
    }
    assert(bytes@ =~= list@.map_values(|e: DxvaPicEntryHevc| e.b_pic_entry));
    bytes
}

/// Packs the format and sequence information word from its fields.
proof fn lemma_pack_format_word(c: u16, s: u16, l: u16, ch: u16, p: u16)
    by (bit_vector)
    requires
        s <= 1,
    ensures
        ((c & 3) | (s << 2) | ((l & 7) << 3) | ((ch & 7) << 6) | ((p & 0xF) << 9)) == (c % 4) + 4
            * s + 8 * (l % 8) + 64 * (ch % 8) + 512 * (p % 16),
{
}

/// Packs the PCM fields of the coding tool word.
proof fn lemma_pack_pcm_bits(a: u32, b: u32, c: u32, d: u32, e: u32)
    by (bit_vector)
    requires
        e <= 1,
    ensures
        (((a & 0xF) << 4) | ((b & 0xF) << 8) | ((c & 0x3) << 12) | ((d & 0x3) << 14) | (e << 16))
            == 16 * (a % 16) + 256 * (b % 16) + 4096 * (c % 4) + 16384 * (d % 4) + 65536 * e,
        (((a & 0xF) << 4) | ((b & 0xF) << 8) | ((c & 0x3) << 12) | ((d & 0x3) << 14) | (e << 16))
            & 0xFFFE_000F == 0,
{
}

/// Packs the coding tool word from its flags and the PCM fields.
proof fn lemma_pack_tool_word(
    flag0: u32,
    flag1: u32,
    flag2: u32,
    flag3: u32,
    pcm: u32,
    flag17: u32,
    flag18: u32,
    flag19: u32,
    flag20: u32,
    flag21: u32,
    extra: u32,
    flag25: u32,
    flag26: u32,
)
    by (bit_vector)
    requires
        flag0 <= 1,
        flag1 <= 1,
        flag2 <= 1,
        flag3 <= 1,
        pcm & 0xFFFE_000F == 0,
        flag17 <= 1,
        flag18 <= 1,
        flag19 <= 1,
        flag20 <= 1,
        flag21 <= 1,
        flag25 <= 1,
        flag26 <= 1,
    ensures
        (flag0 | (flag1 << 1) | (flag2 << 2) | (flag3 << 3) | pcm | (flag17 << 17) | (flag18 << 18) | (flag19 << 19) | (
        flag20 << 20) | (flag21 << 21) | ((extra & 0x7) << 22) | (flag25 << 25) | (flag26 << 26)) == flag0 + 2 * flag1
            + 4 * flag2 + 8 * flag3 + pcm + 0x2_0000 * flag17 + 0x4_0000 * flag18 + 0x8_0000 * flag19 + 0x10_0000
            * flag20 + 0x20_0000 * flag21 + 0x40_0000 * (extra % 8) + 0x200_0000 * flag25 + 0x400_0000 * flag26,
{
}

/// Packs eight flags into a byte.
proof fn lemma_pack_byte(
    flag0: u32,
    flag1: u32,
    flag2: u32,
    flag3: u32,
    flag4: u32,
    flag5: u32,
    flag6: u32,
    flag7: u32,
)
    by (bit_vector)
    requires
        flag0 <= 1,
        flag1 <= 1,
        flag2 <= 1,
        flag3 <= 1,
        flag4 <= 1,
        flag5 <= 1,
        flag6 <= 1,
        flag7 <= 1,
    ensures
        (flag0 | (flag1 << 1) | (flag2 << 2) | (flag3 << 3) | (flag4 << 4) | (flag5 << 5) | (flag6
            << 6) | (flag7 << 7)) == flag0 + 2 * flag1 + 4 * flag2 + 8 * flag3 + 16 * flag4 + 32
            * flag5 + 64 * flag6 + 128 * flag7,
        (flag0 | (flag1 << 1) | (flag2 << 2) | (flag3 << 3) | (flag4 << 4) | (flag5 << 5) | (flag6
            << 6) | (flag7 << 7)) < 256,
{
}

/// Packs two bytes and three more bits into the picture property word.
proof fn lemma_pack_property_word(low: u32, high: u32, kind: u32)
    by (bit_vector)
    requires
        low < 256,
        high < 256,
        kind < 8,
    ensures
        (low | (high << 8) | (kind << 16)) == low + 256 * high + 0x1_0000 * kind,
{
}

/// One for a flag that is set, zero for one that is not.
fn flag(value: bool) -> (word: u32)
    ensures
        word == bit(value),
        word <= 1,
{
    reveal(bit);
    if value {
        1
    } else {
        0
    }
}

/// Format and sequence information word of a sequence parameter set.
pub fn pack_format_and_sequence_info(sps: &HevcSps) -> (word: u16)
    requires
        sps.valid(),
    ensures
        word == format_and_sequence_info(*sps),
{
    let chroma: u16 = sps.chroma_format_idc as u16;
    let separate: u16 = flag(sps.separate_colour_plane) as u16;
    let luma: u16 = (sps.bit_depth_luma - 8) as u16;
    let chroma_depth: u16 = (sps.bit_depth_chroma - 8) as u16;
    let log2_max_poc: u16 = (sps.log2_max_poc_lsb - 4) as u16;
    proof {
        lemma_pack_format_word(chroma, separate, luma, chroma_depth, log2_max_poc);
    }
    (chroma & 3) | (separate << 2) | ((luma & 7) << 3) | ((chroma_depth & 7) << 6) | ((log2_max_poc
        & 0xF) << 9)
}

/// The PCM fields of the coding tool word, each moved to its bits.
fn join_pcm_bits(a: u32, b: u32, c: u32, d: u32, e: u32) -> (word: u32)
    requires
        e <= 1,
    ensures
        word == 16 * (a % 16) + 256 * (b % 16) + 4096 * (c % 4) + 16384 * (d % 4) + 65536 * e,
        word & 0xFFFE_000F == 0,
{
    proof {
        lemma_pack_pcm_bits(a, b, c, d, e);
    }
    ((a & 0xF) << 4) | ((b & 0xF) << 8) | ((c & 0x3) << 12) | ((d & 0x3) << 14) | (e << 16)
}

/// The fields of the coding tool word, each moved to its bits.
fn join_tool_word(
    flag0: u32,
    flag1: u32,
    flag2: u32,
    flag3: u32,
    pcm: u32,
    flag17: u32,
    flag18: u32,
    flag19: u32,
    flag20: u32,
    flag21: u32,
    extra: u32,
    flag25: u32,
    flag26: u32,
) -> (word: u32)
    requires
        flag0 <= 1,
        flag1 <= 1,
        flag2 <= 1,
        flag3 <= 1,
        pcm & 0xFFFE_000F == 0,
        flag17 <= 1,
        flag18 <= 1,
        flag19 <= 1,
        flag20 <= 1,
        flag21 <= 1,
        flag25 <= 1,
        flag26 <= 1,
    ensures
        word == flag0 + 2 * flag1 + 4 * flag2 + 8 * flag3 + pcm + 0x2_0000 * flag17 + 0x4_0000
            * flag18 + 0x8_0000 * flag19 + 0x10_0000 * flag20 + 0x20_0000 * flag21 + 0x40_0000 * (
        extra % 8) + 0x200_0000 * flag25 + 0x400_0000 * flag26,
{
    proof {
        lemma_pack_tool_word(
            flag0,
            flag1,
            flag2,
            flag3,
            pcm,
            flag17,
            flag18,
            flag19,
            flag20,
            flag21,
            extra,
            flag25,
            flag26,
        );
    }
    flag0 | (flag1 << 1) | (flag2 << 2) | (flag3 << 3) | pcm | (flag17 << 17) | (flag18 << 18) | (
    flag19 << 19) | (flag20 << 20) | (flag21 << 21) | ((extra & 0x7) << 22) | (flag25 << 25) | (
    flag26 << 26)
}

/// Coding tool word of a pair of parameter sets.
pub fn pack_coding_param_tool_flags(sps: &HevcSps, pps: &HevcPps) -> (word: u32)
    ensures
        word == coding_param_tool_flags(*sps, *pps),
{
    let pcm: u32 = if sps.pcm_enabled {
        join_pcm_bits(
            sps.pcm_sample_bit_depth_luma.saturating_sub(1) as u32,
            sps.pcm_sample_bit_depth_chroma.saturating_sub(1) as u32,
            sps.log2_min_pcm_luma_coding_block_size.saturating_sub(3) as u32,
            sps.log2_diff_max_min_pcm_luma_coding_block_size as u32,
            flag(sps.pcm_loop_filter_disabled),
        )
    } else {
        assert(0u32 & 0xFFFE_000F == 0) by (bit_vector);
        0
    };
    assert(pcm == pcm_tool_bits(*sps));
    join_tool_word(
        flag(sps.scaling_list_enabled),
        flag(sps.amp_enabled),
        flag(sps.sample_adaptive_offset_enabled),
        flag(sps.pcm_enabled),
        pcm,
        flag(sps.long_term_ref_pics_present),
        flag(sps.temporal_mvp_enabled),
        flag(sps.strong_intra_smoothing_enabled),
        flag(pps.dependent_slice_segments_enabled),
        flag(pps.output_flag_present),
        pps.num_extra_slice_header_bits as u32,
        flag(pps.sign_data_hiding_enabled),
        flag(pps.cabac_init_present),
    )
}

/// Eight flags, each moved to its bit of a byte.
fn join_byte(
    flag0: u32,
    flag1: u32,
    flag2: u32,
    flag3: u32,
    flag4: u32,
    flag5: u32,
    flag6: u32,
    flag7: u32,
) -> (word: u32)
    requires
        flag0 <= 1,
        flag1 <= 1,
        flag2 <= 1,
        flag3 <= 1,
        flag4 <= 1,
        flag5 <= 1,
        flag6 <= 1,
        flag7 <= 1,
    ensures
        word == flag0 + 2 * flag1 + 4 * flag2 + 8 * flag3 + 16 * flag4 + 32 * flag5 + 64 * flag6
            + 128 * flag7,
        word < 256,
{
    proof {
        lemma_pack_byte(flag0, flag1, flag2, flag3, flag4, flag5, flag6, flag7);
    }
    flag0 | (flag1 << 1) | (flag2 << 2) | (flag3 << 3) | (flag4 << 4) | (flag5 << 5) | (flag6 << 6)
        | (flag7 << 7)
}

/// Two bytes of flags and the bits on the kind of picture, each moved to
/// its place.
fn join_property_word(low: u32, high: u32, kind: u32) -> (word: u32)
    requires
        low < 256,
        high < 256,
        kind < 8,
    ensures
        word == low + 256 * high + 0x1_0000 * kind,
{
    proof {
        lemma_pack_property_word(low, high, kind);
    }
    low | (high << 8) | (kind << 16)
}

/// Low byte of the picture property word.
fn pack_property_low_byte(pps: &HevcPps) -> (word: u32)
    ensures
        word == property_low_byte(*pps),
        word < 256,
{
    join_byte(
        flag(pps.constrained_intra_pred),
        flag(pps.transform_skip_enabled),
        flag(pps.cu_qp_delta_enabled),
        flag(pps.slice_chroma_qp_offsets_present),
        flag(pps.weighted_pred),
        flag(pps.weighted_bipred),
        flag(pps.transquant_bypass_enabled),
        flag(pps.tiles_enabled),
    )
}

/// Second byte of the picture property word.
fn pack_property_high_byte(pps: &HevcPps) -> (word: u32)
    ensures
        word == property_high_byte(*pps),
        word < 256,
{
    join_byte(
        flag(pps.entropy_coding_sync_enabled),
        flag(pps.uniform_spacing),
        flag(pps.loop_filter_across_tiles_enabled),
        flag(pps.loop_filter_across_slices_enabled),
        flag(pps.deblocking_filter_override_enabled),
        flag(pps.deblocking_filter_disabled),
        flag(pps.lists_modification_present),
        flag(pps.slice_segment_header_extension_present),
    )
}

/// The three flags on the kind of picture.
fn pack_picture_kind_bits(nal_type: HevcNalType, slice_type: u8) -> (word: u32)
    ensures
        word == picture_kind_bits(nal_type, slice_type),
        word < 8,
{
    join_byte(
        flag(nal_type.is_rap()),
        flag(nal_type.is_idr()),
        flag(slice_type == 2),
        0,
        0,
        0,
        0,
        0,
    )
}

/// Picture property word of a picture.
pub fn pack_picture_property_flags(pps: &HevcPps, nal_type: HevcNalType, slice_type: u8) -> (word:
    u32)
    ensures
        word == picture_property_flags(*pps, nal_type, slice_type),
{
    join_property_word(
        pack_property_low_byte(pps),
        pack_property_high_byte(pps),
        pack_picture_kind_bits(nal_type, slice_type),
    )
}

/// The reference pictures of a picture with count `poc`, in list order,
/// with the number of those before it and of the short-term ones.
pub fn collect_references(dpb: &Vec<DpbEntry>, poc: i32, is_idr: bool) -> (out: (
    Vec<DpbEntry>,
    usize,
    usize,
))
    ensures
        out.0@ == reference_list(dpb@, poc, is_idr),
        out.0@.len() <= REF_LIST_LEN,
        out.1 == listed_before(dpb@, poc, is_idr),
        out.2 == listed_short_term(dpb@, poc, is_idr),
        out.1 <= out.2 <= out.0@.len(),
{
    let mut list: Vec<DpbEntry> = Vec::new();
    if is_idr || dpb.len() == 0 {
        proof {
            if !is_idr {
                reveal(Seq::filter);
                assert(refs_before(dpb@, poc) =~= Seq::<DpbEntry>::empty());
                assert(refs_after(dpb@, poc) =~= Seq::<DpbEntry>::empty());
                assert(refs_long_term(dpb@) =~= Seq::<DpbEntry>::empty());
                assert(refs_before(dpb@, poc) + refs_after(dpb@, poc) + refs_long_term(dpb@)
                    =~= Seq::<DpbEntry>::empty());
                assert(refs_before(dpb@, poc) + refs_after(dpb@, poc) =~= Seq::<DpbEntry>::empty());
            }
        }
        return (list, 0, 0);
    }
    let mut before = collect_short_term(dpb, poc, true);
    let mut after = collect_short_term(dpb, poc, false);
    let mut long_term = collect_long_term(dpb);
    let ghost all = before@ + after@ + long_term@;
    list.append(&mut before);
    let n_before: usize = if list.len() > REF_LIST_LEN {
        REF_LIST_LEN
    } else {
        list.len()
    };
    list.append(&mut after);
    let n_short: usize = if list.len() > REF_LIST_LEN {
        REF_LIST_LEN
    } else {
        list.len()
    };
    list.append(&mut long_term);
    assert(list@ =~= all);
    if list.len() > REF_LIST_LEN {
        list.truncate(REF_LIST_LEN);
    }
    assert(list@ =~= at_most(all, REF_LIST_LEN as int));
    (list, n_before, n_short)
}

/// Build HEVC picture parameters from parsed data: the picture of NAL type
/// `nal_type` and slice type `slice_type` that is decoded into surface
/// `surface_idx` with picture order count `full_poc`.
pub fn build_pic_params(
    sps: &HevcSps,
    pps: &HevcPps,
    nal_type: HevcNalType,
    slice_type: u8,
    surface_idx: u32,
    full_poc: i32,
    dpb: &Vec<DpbEntry>,
) -> (pp: DxvaHevcPicParams)
    requires
        sps.valid(),
        pps.valid(),
    ensures
        pp.describes(*sps, *pps, nal_type, slice_type, surface_idx, full_poc, dpb@),
{
    let min_cb_log2: u8 = sps.log2_min_luma_coding_block_size;
    let min_cb_size: u32 = 1u32 << min_cb_log2;
    assert(min_cb_size > 0) by (bit_vector)
        requires
            min_cb_size == 1u32 << min_cb_log2,
            3 <= min_cb_log2 <= 6,
    ;
    let is_idr = nal_type.is_idr();
    let (list, n_before, n_short) = collect_references(dpb, full_poc, is_idr);

    let mut ref_pic_list: [DxvaPicEntryHevc; 15] = [DxvaPicEntryHevc::invalid();15];
    let mut pic_order_cnt_val_list: [i32; 15] = [0i32; 15];
    let mut st_curr_before: [u8; 8] = [0xFFu8; 8];
    let mut st_curr_after: [u8; 8] = [0xFFu8; 8];
    let mut lt_curr: [u8; 8] = [0xFFu8; 8];
    let mut i: usize = 0;
    while i < list.len()
        invariant
            0 <= i <= list@.len() <= 15,
            forall|j: int| 0 <= j < 15 ==> ref_pic_list[j] == ref_list_entry(list@.subrange(0, i as int), j),
            forall|j: int|
                0 <= j < 15 ==> pic_order_cnt_val_list[j] == ref_list_poc(
                    list@.subrange(0, i as int),
                    j,
                ),
        decreases list@.len() - i,
    {
        ref_pic_list[i] = DxvaPicEntryHevc::new(list[i].surface_index, list[i].is_long_term);
        pic_order_cnt_val_list[i] = list[i].poc;
        i += 1;
    }
    assert(list@.subrange(0, i as int) =~= list@);
    let mut k: usize = 0;
    while k < 8
        invariant
            0 <= k <= 8,
            n_before <= n_short <= list@.len() <= 15,
            forall|j: int|
                0 <= j < 8 ==> st_curr_before[j] == if j < k {
                    set_slot(0, n_before as int, j)
                } else {
                    0xFFu8
                },
            forall|j: int|
                0 <= j < 8 ==> st_curr_after[j] == if j < k {
                    set_slot(n_before as int, n_short as int, j)
                } else {
                    0xFFu8
                },
            forall|j: int|
                0 <= j < 8 ==> lt_curr[j] == if j < k {
                    set_slot(n_short as int, list@.len() as int, j)
                } else {
                    0xFFu8
                },
        decreases 8 - k,
    {
        if k < n_before {
            st_curr_before[k] = k as u8;
        }
        if n_before + k < n_short {
            st_curr_after[k] = (n_before + k) as u8;
        }
        if n_short + k < list.len() {
            lt_curr[k] = (n_short + k) as u8;
        }
        k += 1;
    }

    let tiles_columns: u8 = if pps.tiles_enabled {
        (pps.num_tile_columns.saturating_sub(1) % 256) as u8
    } else {
        0
    };
    let tiles_rows: u8 = if pps.tiles_enabled {
        (pps.num_tile_rows.saturating_sub(1) % 256) as u8
    } else {
        0
    };
    DxvaHevcPicParams {
        pic_width_in_min_cbs_y: (sps.pic_width / min_cb_size % 0x1_0000) as u16,
        pic_height_in_min_cbs_y: (sps.pic_height / min_cb_size % 0x1_0000) as u16,
        w_format_and_sequence_info_flags: pack_format_and_sequence_info(sps),
        curr_pic: DxvaPicEntryHevc::new((surface_idx % 256) as u8, false),
        sps_max_dec_pic_buffering_minus1: 4,
        log2_min_luma_coding_block_size_minus3: sps.log2_min_luma_coding_block_size.saturating_sub(
            3,
        ),
        log2_diff_max_min_luma_coding_block_size: sps.log2_diff_max_min_luma_coding_block_size,
        log2_min_transform_block_size_minus2: sps.log2_min_luma_transform_block_size.saturating_sub(
            2,
        ),
        log2_diff_max_min_transform_block_size: sps.log2_diff_max_min_luma_transform_block_size,
        max_transform_hierarchy_depth_inter: sps.max_transform_hierarchy_depth_inter,
        max_transform_hierarchy_depth_intra: sps.max_transform_hierarchy_depth_intra,
        num_short_term_ref_pic_sets: sps.num_short_term_ref_pic_sets,
        num_long_term_ref_pics_sps: sps.num_long_term_ref_pics_sps,
        num_ref_idx_l0_default_active_minus1: pps.num_ref_idx_l0_default_active.saturating_sub(1),
        num_ref_idx_l1_default_active_minus1: pps.num_ref_idx_l1_default_active.saturating_sub(1),
        init_qp_minus26: pps.init_qp - 26,
        uc_num_delta_pocs_of_ref_rps_idx: 0,
        w_num_bits_for_short_term_rps_in_slice: 0,
        reserved_bits2: 0,
        dw_coding_param_tool_flags: pack_coding_param_tool_flags(sps, pps),
        dw_coding_setting_picture_property_flags: pack_picture_property_flags(
            pps,
            nal_type,
            slice_type,
        ),
        pps_cb_qp_offset: pps.cb_qp_offset,
        pps_cr_qp_offset: pps.cr_qp_offset,
        num_tile_columns_minus1: tiles_columns,
        num_tile_rows_minus1: tiles_rows,
        column_width_minus1: [0u16; 19],
        row_height_minus1: [0u16; 21],
        diff_cu_qp_delta_depth: pps.diff_cu_qp_delta_depth,
        pps_beta_offset_div2: pps.beta_offset / 2,
        pps_tc_offset_div2: pps.tc_offset / 2,
        log2_parallel_merge_level_minus2: pps.log2_parallel_merge_level.saturating_sub(2),
        curr_pic_order_cnt_val: full_poc,
        ref_pic_list,
        reserved_bits5: 0,
        pic_order_cnt_val_list,
        ref_pic_set_st_curr_before: st_curr_before,
        ref_pic_set_st_curr_after: st_curr_after,
        ref_pic_set_lt_curr: lt_curr,
        reserved_bits6: 0,
        reserved_bits7: 0,
        status_report_feedback_number: 1,
    }
}

/// HEVC quantization matrix: the scaling lists of all block sizes.
/// Packed, the structure takes 1000 bytes.
#[derive(Debug, Clone, Copy)]
pub struct DxvaHevcQMatrix {
    pub scaling_list_4x4: [[u8; 16]; 6],
    pub scaling_list_8x8: [[u8; 64]; 6],
    pub scaling_list_16x16: [[u8; 64]; 6],
    pub scaling_list_32x32: [[u8; 64]; 2],
    pub scaling_list_dc_16x16: [u8; 6],
    pub scaling_list_dc_32x32: [u8; 2],
}

/// The bytes of a run of lists of 16 coefficients.
pub open spec fn rows_of_16(rows: Seq<[u8; 16]>) -> Seq<u8>
    decreases rows.len(),
{
    if rows.len() == 0 {
        Seq::empty()
    } else {
        rows_of_16(rows.drop_last()) + rows.last()@
    }
}

/// The bytes of a run of lists of 64 coefficients.
pub open spec fn rows_of_64(rows: Seq<[u8; 64]>) -> Seq<u8>
    decreases rows.len(),
{
    if rows.len() == 0 {
        Seq::empty()
    } else {
        rows_of_64(rows.drop_last()) + rows.last()@
    }
}

/// A run of lists of 16 coefficients takes 16 bytes each.
pub proof fn lemma_rows_of_16_len(rows: Seq<[u8; 16]>)
    ensures
        rows_of_16(rows).len() == 16 * rows.len(),
    decreases rows.len(),
{
    if rows.len() > 0 {
        lemma_rows_of_16_len(rows.drop_last());
    }
}

/// A run of lists of 64 coefficients takes 64 bytes each.
pub proof fn lemma_rows_of_64_len(rows: Seq<[u8; 64]>)
    ensures
        rows_of_64(rows).len() == 64 * rows.len(),
    decreases rows.len(),
{
    if rows.len() > 0 {
        lemma_rows_of_64_len(rows.drop_last());
    }
}

/// Appends a run of lists of 16 coefficients.
fn put_rows_of_16(out: &mut Vec<u8>, rows: &[[u8; 16]])
    ensures
        final(out)@ == old(out)@ + rows_of_16(rows@),
{
    let mut i: usize = 0;
    assert(rows@.subrange(0, 0) =~= Seq::<[u8; 16]>::empty());
    assert(out@ =~= old(out)@ + Seq::<u8>::empty());
    while i < rows.len()
        invariant
            0 <= i <= rows@.len(),
            out@ == old(out)@ + rows_of_16(rows@.subrange(0, i as int)),
        decreases rows@.len() - i,
    {
        put_bytes(out, &rows[i]);
        proof {
            let next = rows@.subrange(0, i + 1);
            assert(next.drop_last() =~= rows@.subrange(0, i as int));
            assert(next.last() == rows@[i as int]);
            assert(out@ =~= old(out)@ + rows_of_16(next));
        }
        i += 1;
    }
    assert(rows@.subrange(0, i as int) =~= rows@);
}

/// Appends a run of lists of 64 coefficients.
fn put_rows_of_64(out: &mut Vec<u8>, rows: &[[u8; 64]])
    ensures
        final(out)@ == old(out)@ + rows_of_64(rows@),
{
    let mut i: usize = 0;
    assert(rows@.subrange(0, 0) =~= Seq::<[u8; 64]>::empty());
    assert(out@ =~= old(out)@ + Seq::<u8>::empty());
    while i < rows.len()
        invariant
            0 <= i <= rows@.len(),
            out@ == old(out)@ + rows_of_64(rows@.subrange(0, i as int)),
        decreases rows@.len() - i,
    {
        put_bytes(out, &rows[i]);
        proof {
            let next = rows@.subrange(0, i + 1);
            assert(next.drop_last() =~= rows@.subrange(0, i as int));
            assert(next.last() == rows@[i as int]);
            assert(out@ =~= old(out)@ + rows_of_64(next));
        }
        i += 1;
    }
    assert(rows@.subrange(0, i as int) =~= rows@);
}

impl DxvaHevcQMatrix {
    /// The packed bytes of the structure: the lists by size, then the DC
    /// coefficients.
    pub open spec fn packed(self) -> Seq<u8> {
        Seq::<u8>::empty() + rows_of_16(self.scaling_list_4x4@) + rows_of_64(self.scaling_list_8x8@)
            + rows_of_64(self.scaling_list_16x16@) + rows_of_64(self.scaling_list_32x32@)
            + self.scaling_list_dc_16x16@ + self.scaling_list_dc_32x32@
    }

    /// Whether every coefficient has the flat value 16.
    pub open spec fn is_flat(self) -> bool {
        &&& forall|i: int, j: int|
            0 <= i < 6 && 0 <= j < 16 ==> #[trigger] self.scaling_list_4x4[i][j] == 16
        &&& forall|i: int, j: int|
            0 <= i < 6 && 0 <= j < 64 ==> #[trigger] self.scaling_list_8x8[i][j] == 16
        &&& forall|i: int, j: int|
            0 <= i < 6 && 0 <= j < 64 ==> #[trigger] self.scaling_list_16x16[i][j] == 16
        &&& forall|i: int, j: int|
            0 <= i < 2 && 0 <= j < 64 ==> #[trigger] self.scaling_list_32x32[i][j] == 16
        &&& forall|i: int| 0 <= i < 6 ==> self.scaling_list_dc_16x16[i] == 16
        &&& forall|i: int| 0 <= i < 2 ==> self.scaling_list_dc_32x32[i] == 16
    }

    /// The structure as the bytes that the accelerator reads.
    pub fn to_bytes(&self) -> (bytes: Vec<u8>)
        ensures
            bytes@ == self.packed(),
            bytes@.len() == QMATRIX_SIZE,
    {
        let mut out: Vec<u8> = Vec::new();
        assert(out@ =~= Seq::<u8>::empty());
        put_rows_of_16(&mut out, &self.scaling_list_4x4);
        put_rows_of_64(&mut out, &self.scaling_list_8x8);
        put_rows_of_64(&mut out, &self.scaling_list_16x16);
        put_rows_of_64(&mut out, &self.scaling_list_32x32);
        put_bytes(&mut out, &self.scaling_list_dc_16x16);
        put_bytes(&mut out, &self.scaling_list_dc_32x32);
        proof {
            lemma_rows_of_16_len(self.scaling_list_4x4@);
            lemma_rows_of_64_len(self.scaling_list_8x8@);
            lemma_rows_of_64_len(self.scaling_list_16x16@);
            lemma_rows_of_64_len(self.scaling_list_32x32@);
        }
        out
    }
}

impl Default for DxvaHevcQMatrix {
    /// Flat scaling: every coefficient 16.
    fn default() -> (matrix: Self)
        ensures
            matrix.is_flat(),
    {
        DxvaHevcQMatrix {
            scaling_list_4x4: [[16u8; 16]; 6],
            scaling_list_8x8: [[16u8; 64]; 6],
            scaling_list_16x16: [[16u8; 64]; 6],
            scaling_list_32x32: [[16u8; 64]; 2],
            scaling_list_dc_16x16: [16u8; 6],
            scaling_list_dc_32x32: [16u8; 2],
        }
    }
}

/// Buffer types of the accelerator's decoder
#[derive(Debug, Clone, Copy, PartialEq, Eq, Structural)]
pub enum DxvaBufferType {
    PictureParameters,
    MacroblockControl,
    ResidualDifference,
    DeblockingControl,
    InverseQuantizationMatrix,
    SliceControl,
    Bitstream,
    MotionVector,
    FilmGrain,
}

impl DxvaBufferType {
    /// The number that the accelerator's interface gives the buffer type.
    pub open spec fn spec_code(self) -> i32 {
        match self {
            DxvaBufferType::PictureParameters => 0,
            DxvaBufferType::MacroblockControl => 1,
            DxvaBufferType::ResidualDifference => 2,
            DxvaBufferType::DeblockingControl => 3,
            DxvaBufferType::InverseQuantizationMatrix => 4,
            DxvaBufferType::SliceControl => 5,
            DxvaBufferType::Bitstream => 6,
            DxvaBufferType::MotionVector => 7,
            DxvaBufferType::FilmGrain => 8,
        }
    }

    /// The number that the accelerator's interface gives the buffer type.
    #[verifier::when_used_as_spec(spec_code)]
    pub fn code(self) -> (code: i32)
        ensures
            code == self.spec_code(),
    {
        match self {
            DxvaBufferType::PictureParameters => 0,
            DxvaBufferType::MacroblockControl => 1,
            DxvaBufferType::ResidualDifference => 2,
            DxvaBufferType::DeblockingControl => 3,
            DxvaBufferType::InverseQuantizationMatrix => 4,
            DxvaBufferType::SliceControl => 5,
            DxvaBufferType::Bitstream => 6,
            DxvaBufferType::MotionVector => 7,
            DxvaBufferType::FilmGrain => 8,
        }
    }
}

} // verus!
