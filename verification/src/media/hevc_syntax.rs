//! Syntax of the HEVC parameter sets and of the start of a slice segment
//! header (ITU-T H.265, section 7.3), as far as the decoder needs it.
//!
//! Each piece of syntax is given twice: as a function on the payload's bytes
//! and a cursor, which says what the piece holds and where it ends, and as a
//! reader that is proved to give the same.

use vstd::prelude::*;
use crate::media::bit_reader::{
    bit_len, checked, read_bits, read_flag, read_se_range, read_ue, read_ue_max, skip_bits,
    BitReader, Cursor,
};
use crate::media::hevc_parser::{HevcNalType, HevcPps, HevcSps};

verus! {

/// Cursor behind `n` Exp-Golomb codes in a row.
pub open spec fn after_codes(d: Seq<u8>, c: Cursor, n: int) -> Cursor
    decreases n,
{
    if n <= 0 {
        c
    } else {
        after_codes(d, read_ue(d, c).1, n - 1)
    }
}

/// Skips `n` Exp-Golomb codes.
pub fn skip_codes(r: &mut BitReader, n: u32)
    requires
        old(r).wf(),
    ensures
        final(r).wf(),
        final(r).bytes() == old(r).bytes(),
        final(r).cursor() == after_codes(old(r).bytes(), old(r).cursor(), n as int),
{
    let mut i: u32 = 0;
    while i < n
        invariant
            0 <= i <= n,
            r.wf(),
            r.bytes() == old(r).bytes(),
            after_codes(r.bytes(), r.cursor(), n - i) == after_codes(
                old(r).bytes(),
                old(r).cursor(),
                n as int,
            ),
        decreases n - i,
    {
        let _ = r.read_ue();
        i += 1;
    }
}

/// `n` flags in a row behind `acc`, and the cursor behind them.
pub open spec fn flag_run(d: Seq<u8>, c: Cursor, n: int, acc: Seq<bool>) -> (Seq<bool>, Cursor)
    decreases n,
{
    if n <= 0 {
        (acc, c)
    } else {
        flag_run(d, read_flag(d, c).1, n - 1, acc.push(read_flag(d, c).0))
    }
}

/// Reads `n` flags.
pub fn read_flags(r: &mut BitReader, n: u32) -> (flags: Vec<bool>)
    requires
        old(r).wf(),
    ensures
        final(r).wf(),
        final(r).bytes() == old(r).bytes(),
        (flags@, final(r).cursor()) == flag_run(
            old(r).bytes(),
            old(r).cursor(),
            n as int,
            Seq::empty(),
        ),
        flags@.len() == n,
{
    let mut flags: Vec<bool> = Vec::new();
    let mut i: u32 = 0;
    while i < n
        invariant
            0 <= i <= n,
            r.wf(),
            r.bytes() == old(r).bytes(),
            flags@.len() == i,
            flag_run(r.bytes(), r.cursor(), n - i, flags@) == flag_run(
                old(r).bytes(),
                old(r).cursor(),
                n as int,
                Seq::empty(),
            ),
        decreases n - i,
    {
        let flag = r.read_flag();
        flags.push(flag);
        i += 1;
    }
    flags
}

/// A cursor that has failed stays failed through a run of codes.
pub proof fn lemma_after_codes_ok(d: Seq<u8>, c: Cursor, n: int)
    ensures
        after_codes(d, c, n).ok ==> c.ok,
    decreases n,
{
    if n > 0 {
        lemma_after_codes_ok(d, read_ue(d, c).1, n - 1);
    }
}

/// Cursor behind the profiles and levels of the sub-layers from `i` on:
/// 88 bits for each profile and 8 for each level that `flags` announces.
pub open spec fn sub_layers_end(d: Seq<u8>, c: Cursor, flags: Seq<bool>, count: int, i: int) -> Cursor
    decreases count - i,
{
    if i >= count || i < 0 {
        c
    } else {
        let c1 = if flags[2 * i] {
            skip_bits(d, c, 88)
        } else {
            c
        };
        let c2 = if flags[2 * i + 1] {
            skip_bits(d, c1, 8)
        } else {
            c1
        };
        sub_layers_end(d, c2, flags, count, i + 1)
    }
}

/// Cursor behind a profile, tier and level structure with `sub_layers`
/// sub-layers besides the general one.
pub open spec fn profile_tier_level_end(d: Seq<u8>, c: Cursor, sub_layers: int) -> Cursor {
    let c1 = skip_bits(d, c, 96);
    let (flags, c2) = flag_run(d, c1, 2 * sub_layers, Seq::empty());
    let c3 = if sub_layers > 0 {
        skip_bits(d, c2, 2 * (8 - sub_layers))
    } else {
        c2
    };
    sub_layers_end(d, c3, flags, sub_layers, 0)
}

/// Skips a profile, tier and level structure.
pub fn skip_profile_tier_level(r: &mut BitReader, sub_layers: u32)
    requires
        old(r).wf(),
        sub_layers <= 7,
    ensures
        final(r).wf(),
        final(r).bytes() == old(r).bytes(),
        final(r).cursor() == profile_tier_level_end(
            old(r).bytes(),
            old(r).cursor(),
            sub_layers as int,
        ),
{
    r.skip_bits(96);
    let flags = read_flags(r, 2 * sub_layers);
    if sub_layers > 0 {
        r.skip_bits(2 * (8 - sub_layers));
    }
    let ghost start = r.cursor();
    let mut i: u32 = 0;
    while i < sub_layers
        invariant
            0 <= i <= sub_layers <= 7,
            r.wf(),
            r.bytes() == old(r).bytes(),
            flags@.len() == 2 * sub_layers,
            sub_layers_end(r.bytes(), r.cursor(), flags@, sub_layers as int, i as int)
                == sub_layers_end(r.bytes(), start, flags@, sub_layers as int, 0),
        decreases sub_layers - i,
    {
        if flags[2 * i as usize] {
            r.skip_bits(88);
        }
        if flags[2 * i as usize + 1] {
            r.skip_bits(8);
        }
        i += 1;
    }
}

/// Number of coefficients of scaling list `list`, the lists counted
/// through all sizes: 16 for the six smallest, else 64.
pub open spec fn coef_count(list: int) -> int {
    if list < 6 {
        16
    } else {
        64
    }
}

/// Cursor behind the scaling lists from number `list` on, twenty in all.
/// A list is either predicted, with one code, or spelled out, with a code
/// for each coefficient and one more for the larger sizes.
pub open spec fn scaling_lists_end(d: Seq<u8>, c: Cursor, list: int) -> Cursor
    decreases 20 - list,
{
    if list >= 20 || list < 0 {
        c
    } else {
        let (spelled, c1) = read_flag(d, c);
        let c2 = if !spelled {
            read_ue(d, c1).1
        } else {
            after_codes(
                d,
                c1,
                coef_count(list) + if list >= 12 {
                    1int
                } else {
                    0int
                },
            )
        };
        scaling_lists_end(d, c2, list + 1)
    }
}

/// Skips the scaling list data.
pub fn skip_scaling_lists(r: &mut BitReader)
    requires
        old(r).wf(),
    ensures
        final(r).wf(),
        final(r).bytes() == old(r).bytes(),
        final(r).cursor() == scaling_lists_end(old(r).bytes(), old(r).cursor(), 0),
{
    let mut list: u32 = 0;
    while list < 20
        invariant
            0 <= list <= 20,
            r.wf(),
            r.bytes() == old(r).bytes(),
            scaling_lists_end(r.bytes(), r.cursor(), list as int) == scaling_lists_end(
                old(r).bytes(),
                old(r).cursor(),
                0,
            ),
        decreases 20 - list,
    {
        let spelled = r.read_flag();
        if !spelled {
            let _ = r.read_ue();
        } else {
            let count: u32 = if list < 6 {
                16
            } else {
                64
            };
            let extra: u32 = if list >= 12 {
                1
            } else {
                0
            };
            skip_codes(r, count + extra);
        }
        list += 1;
    }
}

/// First part of a sequence parameter set: identification, picture size
/// and bit depths.
#[derive(Debug, Clone, Copy)]
pub struct SpsHead {
    pub sps_id: u8,
    pub chroma_format_idc: u8,
    pub separate_colour_plane: bool,
    pub pic_width: u32,
    pub pic_height: u32,
    pub bit_depth_luma: u8,
    pub bit_depth_chroma: u8,
    pub log2_max_poc_lsb: u8,
}

/// The first part of a sequence parameter set at `c0`.
pub open spec fn sps_head(d: Seq<u8>, c0: Cursor) -> (SpsHead, Cursor) {
    let c1 = skip_bits(d, c0, 4);
    let (sub_layers, c2) = read_bits(d, c1, 3);
    let c3 = skip_bits(d, c2, 1);
    let c4 = profile_tier_level_end(d, c3, sub_layers);
    let (sps_id, c5) = read_ue_max(d, c4, 15);
    let (chroma, c6) = read_ue_max(d, c5, 3);
    let (separate, c7) = if chroma == 3 {
        read_flag(d, c6)
    } else {
        (false, c6)
    };
    let (width, c8) = read_ue(d, c7);
    let (height, c9) = read_ue(d, c8);
    let c10 = checked(c9, width > 0 && height > 0);
    let (window, c11) = read_flag(d, c10);
    let c12 = if window {
        after_codes(d, c11, 4)
    } else {
        c11
    };
    let (luma, c13) = read_ue_max(d, c12, 8);
    let (chroma_depth, c14) = read_ue_max(d, c13, 8);
    let (log2_poc, c15) = read_ue_max(d, c14, 12);
    let (ordering, c16) = read_flag(d, c15);
    let c17 = after_codes(
        d,
        c16,
        if ordering {
            3 * (sub_layers + 1)
        } else {
            3
        },
    );
    (
        SpsHead {
            sps_id: sps_id as u8,
            chroma_format_idc: chroma as u8,
            separate_colour_plane: separate,
            pic_width: width as u32,
            pic_height: height as u32,
            bit_depth_luma: (luma + 8) as u8,
            bit_depth_chroma: (chroma_depth + 8) as u8,
            log2_max_poc_lsb: (log2_poc + 4) as u8,
        },
        c17,
    )
}

/// Reads the first part of a sequence parameter set.
pub fn read_sps_head(r: &mut BitReader) -> (head: SpsHead)
    requires
        old(r).wf(),
    ensures
        final(r).wf(),
        final(r).bytes() == old(r).bytes(),
        (head, final(r).cursor()) == sps_head(old(r).bytes(), old(r).cursor()),
        head.sps_id < 16,
        head.chroma_format_idc <= 3,
        8 <= head.bit_depth_luma <= 16,
        8 <= head.bit_depth_chroma <= 16,
        4 <= head.log2_max_poc_lsb <= 16,
        final(r).cursor().ok ==> head.pic_width > 0 && head.pic_height > 0,
{
    r.skip_bits(4);
    let sub_layers: u32 = r.read_bits(3);
    proof {
        crate::media::bit_reader::lemma_bits_value_bounds(r.bytes(), 0, 3);
        lemma_small_read(old(r).bytes(), skip_bits(old(r).bytes(), old(r).cursor(), 4), 3);
    }
    r.skip_bits(1);
    skip_profile_tier_level(r, sub_layers);
    let sps_id: u32 = r.read_ue_max(15);
    let chroma: u32 = r.read_ue_max(3);
    let separate = if chroma == 3 {
        r.read_flag()
    } else {
        false
    };
    let width: u32 = r.read_ue();
    let height: u32 = r.read_ue();
    r.check(width > 0 && height > 0);
    let window = r.read_flag();
    proof {
        lemma_after_codes_ok(r.bytes(), r.cursor(), 4);
    }
    if window {
        skip_codes(r, 4);
    }
    let luma: u32 = r.read_ue_max(8);
    let chroma_depth: u32 = r.read_ue_max(8);
    let log2_poc: u32 = r.read_ue_max(12);
    let ordering = r.read_flag();
    proof {
        lemma_after_codes_ok(r.bytes(), r.cursor(), 3 * (sub_layers + 1));
        lemma_after_codes_ok(r.bytes(), r.cursor(), 3);
    }
    skip_codes(
        r,
        if ordering {
            3 * (sub_layers + 1)
        } else {
            3
        },
    );
    SpsHead {
        sps_id: sps_id as u8,
        chroma_format_idc: chroma as u8,
        separate_colour_plane: separate,
        pic_width: width,
        pic_height: height,
        bit_depth_luma: (luma + 8) as u8,
        bit_depth_chroma: (chroma_depth + 8) as u8,
        log2_max_poc_lsb: (log2_poc + 4) as u8,
    }
}

/// A read of up to four bits gives a number below sixteen.
pub proof fn lemma_small_read(d: Seq<u8>, c: Cursor, n: int)
    requires
        0 <= n <= 4,
    ensures
        0 <= read_bits(d, c, n).0 <= 15,
        n <= 3 ==> read_bits(d, c, n).0 <= 7,
        n <= 1 ==> read_bits(d, c, n).0 <= 1,
{
    crate::media::bit_reader::lemma_bits_value_bounds(d, c.pos, n);
    reveal_with_fuel(crate::media::bit_reader::max_of_bits, 6);
}

/// Second part of a sequence parameter set: block sizes and coding tools.
#[derive(Debug, Clone, Copy)]
pub struct SpsCoding {
    pub log2_min_luma_coding_block_size: u8,
    pub log2_diff_max_min_luma_coding_block_size: u8,
    pub log2_min_luma_transform_block_size: u8,
    pub log2_diff_max_min_luma_transform_block_size: u8,
    pub max_transform_hierarchy_depth_inter: u8,
    pub max_transform_hierarchy_depth_intra: u8,
    pub scaling_list_enabled: bool,
    pub amp_enabled: bool,
    pub sample_adaptive_offset_enabled: bool,
    pub pcm_enabled: bool,
    pub pcm_sample_bit_depth_luma: u8,
    pub pcm_sample_bit_depth_chroma: u8,
    pub log2_min_pcm_luma_coding_block_size: u8,
    pub log2_diff_max_min_pcm_luma_coding_block_size: u8,
    pub pcm_loop_filter_disabled: bool,
}

/// The PCM fields of a sequence parameter set at `c`: two sample depths of
/// four bits each, two block sizes and a flag.
pub open spec fn sps_pcm(d: Seq<u8>, c: Cursor) -> ((u8, u8, u8, u8, bool), Cursor) {
    let (luma, c1) = read_bits(d, c, 4);
    let (chroma, c2) = read_bits(d, c1, 4);
    let (log2_min, c3) = read_ue_max(d, c2, 2);
    let (log2_diff, c4) = read_ue_max(d, c3, 2);
    let (loop_filter, c5) = read_flag(d, c4);
    (
        (
            (luma + 1) as u8,
            (chroma + 1) as u8,
            (log2_min + 3) as u8,
            log2_diff as u8,
            loop_filter,
        ),
        c5,
    )
}

/// The second part of a sequence parameter set at `c0`.
pub open spec fn sps_coding(d: Seq<u8>, c0: Cursor) -> (SpsCoding, Cursor) {
    let (log2_min_cb, c1) = read_ue_max(d, c0, 3);
    let (log2_diff_cb, c2) = read_ue_max(d, c1, 3);
    let (log2_min_tb, c3) = read_ue_max(d, c2, 3);
    let (log2_diff_tb, c4) = read_ue_max(d, c3, 3);
    let (depth_inter, c5) = read_ue_max(d, c4, 4);
    let (depth_intra, c6) = read_ue_max(d, c5, 4);
    let (scaling, c7) = read_flag(d, c6);
    let (scaling_data, c8) = if scaling {
        read_flag(d, c7)
    } else {
        (false, c7)
    };
    let c9 = if scaling_data {
        scaling_lists_end(d, c8, 0)
    } else {
        c8
    };
    let (amp, c10) = read_flag(d, c9);
    let (sao, c11) = read_flag(d, c10);
    let (pcm, c12) = read_flag(d, c11);
    let (pcm_fields, c13) = if pcm {
        sps_pcm(d, c12)
    } else {
        ((0u8, 0u8, 0u8, 0u8, false), c12)
    };
    (
        SpsCoding {
            log2_min_luma_coding_block_size: (log2_min_cb + 3) as u8,
            log2_diff_max_min_luma_coding_block_size: log2_diff_cb as u8,
            log2_min_luma_transform_block_size: (log2_min_tb + 2) as u8,
            log2_diff_max_min_luma_transform_block_size: log2_diff_tb as u8,
            max_transform_hierarchy_depth_inter: depth_inter as u8,
            max_transform_hierarchy_depth_intra: depth_intra as u8,
            scaling_list_enabled: scaling,
            amp_enabled: amp,
            sample_adaptive_offset_enabled: sao,
            pcm_enabled: pcm,
            pcm_sample_bit_depth_luma: pcm_fields.0,
            pcm_sample_bit_depth_chroma: pcm_fields.1,
            log2_min_pcm_luma_coding_block_size: pcm_fields.2,
            log2_diff_max_min_pcm_luma_coding_block_size: pcm_fields.3,
            pcm_loop_filter_disabled: pcm_fields.4,
        },
        c13,
    )
}

/// Reads the PCM fields of a sequence parameter set.
pub fn read_sps_pcm(r: &mut BitReader) -> (fields: (u8, u8, u8, u8, bool))
    requires
        old(r).wf(),
    ensures
        final(r).wf(),
        final(r).bytes() == old(r).bytes(),
        (fields, final(r).cursor()) == sps_pcm(old(r).bytes(), old(r).cursor()),
{
    proof {
        lemma_small_read(r.bytes(), r.cursor(), 4);
    }
    let luma: u32 = r.read_bits(4);
    proof {
        lemma_small_read(r.bytes(), r.cursor(), 4);
    }
    let chroma: u32 = r.read_bits(4);
    let log2_min: u32 = r.read_ue_max(2);
    let log2_diff: u32 = r.read_ue_max(2);
    let loop_filter = r.read_flag();
    ((luma + 1) as u8, (chroma + 1) as u8, (log2_min + 3) as u8, log2_diff as u8, loop_filter)
}

/// Reads the second part of a sequence parameter set.
pub fn read_sps_coding(r: &mut BitReader) -> (coding: SpsCoding)
    requires
        old(r).wf(),
    ensures
        final(r).wf(),
        final(r).bytes() == old(r).bytes(),
        (coding, final(r).cursor()) == sps_coding(old(r).bytes(), old(r).cursor()),
        3 <= coding.log2_min_luma_coding_block_size <= 6,
        coding.log2_diff_max_min_luma_coding_block_size <= 3,
{
    let log2_min_cb: u32 = r.read_ue_max(3);
    let log2_diff_cb: u32 = r.read_ue_max(3);
    let log2_min_tb: u32 = r.read_ue_max(3);
    let log2_diff_tb: u32 = r.read_ue_max(3);
    let depth_inter: u32 = r.read_ue_max(4);
    let depth_intra: u32 = r.read_ue_max(4);
    let scaling = r.read_flag();
    let scaling_data = if scaling {
        r.read_flag()
    } else {
        false
    };
    if scaling_data {
        skip_scaling_lists(r);
    }
    let amp = r.read_flag();
    let sao = r.read_flag();
    let pcm = r.read_flag();
    let pcm_fields = if pcm {
        read_sps_pcm(r)
    } else {
        (0u8, 0u8, 0u8, 0u8, false)
    };
    SpsCoding {
        log2_min_luma_coding_block_size: (log2_min_cb + 3) as u8,
        log2_diff_max_min_luma_coding_block_size: log2_diff_cb as u8,
        log2_min_luma_transform_block_size: (log2_min_tb + 2) as u8,
        log2_diff_max_min_luma_transform_block_size: log2_diff_tb as u8,
        max_transform_hierarchy_depth_inter: depth_inter as u8,
        max_transform_hierarchy_depth_intra: depth_intra as u8,
        scaling_list_enabled: scaling,
        amp_enabled: amp,
        sample_adaptive_offset_enabled: sao,
        pcm_enabled: pcm,
        pcm_sample_bit_depth_luma: pcm_fields.0,
        pcm_sample_bit_depth_chroma: pcm_fields.1,
        log2_min_pcm_luma_coding_block_size: pcm_fields.2,
        log2_diff_max_min_pcm_luma_coding_block_size: pcm_fields.3,
        pcm_loop_filter_disabled: pcm_fields.4,
    }
}

/// Short-term reference picture set as contracts see it: the differences
/// in picture order count to the reference pictures, those before the
/// picture and those after it, each nearest first.
pub struct RpsModel {
    pub negative: Seq<i32>,
    pub positive: Seq<i32>,
}

/// Short-term reference picture set.
#[derive(Debug)]
pub struct RefPicSet {
    pub negative: Vec<i32>,
    pub positive: Vec<i32>,
}

impl View for RefPicSet {
    type V = RpsModel;

    open spec fn view(&self) -> RpsModel {
        RpsModel { negative: self.negative@, positive: self.positive@ }
    }
}

/// Most pictures that one side of a reference picture set holds.
pub const MAX_RPS_PICS: usize = 16;

/// Whether every difference of `deltas` fits in 16 bits.
pub open spec fn deltas_in_range(deltas: Seq<i32>) -> bool {
    forall|i: int| 0 <= i < deltas.len() ==> -32768 <= #[trigger] deltas[i] <= 32767
}

impl RpsModel {
    /// A set that the syntax allows: at most sixteen pictures on either
    /// side, each difference within 16 bits.
    pub open spec fn wf(self) -> bool {
        &&& self.negative.len() <= MAX_RPS_PICS
        &&& self.positive.len() <= MAX_RPS_PICS
        &&& deltas_in_range(self.negative)
        &&& deltas_in_range(self.positive)
    }

    /// The set without pictures.
    pub open spec fn empty() -> RpsModel {
        RpsModel { negative: Seq::empty(), positive: Seq::empty() }
    }
}

/// `n` differences spelled out one after the other, each as its distance
/// to the one before and a flag: the differences behind `acc`, counted down
/// from `last` or up, and the cursor behind them. A difference that does not
/// fit in 16 bits fails the read and counts as zero.
pub open spec fn rps_deltas(
    d: Seq<u8>,
    c: Cursor,
    n: int,
    negative: bool,
    last: int,
    acc: Seq<i32>,
) -> (Seq<i32>, Cursor)
    decreases n,
{
    if n <= 0 {
        (acc, c)
    } else {
        let (distance, c1) = read_ue_max(d, c, 32767);
        let c2 = skip_bits(d, c1, 1);
        let value = if negative {
            last - (distance + 1)
        } else {
            last + (distance + 1)
        };
        let fits = -32768 <= value <= 32767;
        let kept = if fits {
            value
        } else {
            0
        };
        rps_deltas(d, checked(c2, fits), n - 1, negative, kept, acc.push(kept as i32))
    }
}

/// A reference picture set that is spelled out: the number of pictures on
/// either side, then their differences.
pub open spec fn rps_direct(d: Seq<u8>, c: Cursor) -> (RpsModel, Cursor) {
    let (num_negative, c1) = read_ue_max(d, c, 16);
    let (num_positive, c2) = read_ue_max(d, c1, 16);
    let (negative, c3) = rps_deltas(d, c2, num_negative, true, 0, Seq::empty());
    let (positive, c4) = rps_deltas(d, c3, num_positive, false, 0, Seq::empty());
    (RpsModel { negative, positive }, c4)
}

/// `n` marks behind `acc` that say which pictures of the set before are
/// taken over: a picture that is used is taken over; for one that is not,
/// a second flag says so.
pub open spec fn use_flags(d: Seq<u8>, c: Cursor, n: int, acc: Seq<bool>) -> (Seq<bool>, Cursor)
    decreases n,
{
    if n <= 0 {
        (acc, c)
    } else {
        let (used, c1) = read_flag(d, c);
        let (taken, c2) = if used {
            (true, c1)
        } else {
            read_flag(d, c1)
        };
        use_flags(d, c2, n - 1, acc.push(taken))
    }
}

/// Whether picture `j` of `src`, moved by `shift`, is taken over to the
/// side before the picture (`negative`) or after it: its mark is set and it
/// lies on that side.
pub open spec fn picked(
    src: Seq<i32>,
    flags: Seq<bool>,
    base: int,
    shift: int,
    negative: bool,
    j: int,
) -> bool {
    flags[base + j] && if negative {
        src[j] + shift < 0
    } else {
        src[j] + shift > 0
    }
}

/// `acc` with the pictures of `src` from `j` down to the first that are
/// taken over.
pub open spec fn pick_down(
    src: Seq<i32>,
    flags: Seq<bool>,
    base: int,
    shift: int,
    negative: bool,
    j: int,
    acc: Seq<i32>,
) -> Seq<i32>
    decreases j + 1,
{
    if j < 0 {
        acc
    } else {
        pick_down(
            src,
            flags,
            base,
            shift,
            negative,
            j - 1,
            if picked(src, flags, base, shift, negative, j) {
                acc.push((src[j] + shift) as i32)
            } else {
                acc
            },
        )
    }
}

/// `acc` with the pictures of `src` from `j` up to the last that are taken
/// over.
pub open spec fn pick_up(
    src: Seq<i32>,
    flags: Seq<bool>,
    base: int,
    shift: int,
    negative: bool,
    j: int,
    acc: Seq<i32>,
) -> Seq<i32>
    decreases src.len() - j,
{
    if j < 0 || j >= src.len() {
        acc
    } else {
        pick_up(
            src,
            flags,
            base,
            shift,
            negative,
            j + 1,
            if picked(src, flags, base, shift, negative, j) {
                acc.push((src[j] + shift) as i32)
            } else {
                acc
            },
        )
    }
}

/// One side of a predicted set: the pictures of the other side of `prev`
/// that cross over, the farthest first; the picture at the shift itself; then
/// the pictures of the same side.
pub open spec fn predicted_side(prev: RpsModel, flags: Seq<bool>, shift: int, negative: bool) -> Seq<
    i32,
> {
    let n = prev.negative.len() as int;
    let p = prev.positive.len() as int;
    let (other, other_base, same, same_base) = if negative {
        (prev.positive, n, prev.negative, 0int)
    } else {
        (prev.negative, 0int, prev.positive, n)
    };
    let crossed = pick_down(other, flags, other_base, shift, negative, other.len() - 1, Seq::empty());
    let own = flags[n + p] && if negative {
        shift < 0
    } else {
        shift > 0
    };
    let with_own = if own {
        crossed.push(shift as i32)
    } else {
        crossed
    };
    pick_up(same, flags, same_base, shift, negative, 0, with_own)
}

/// A reference picture set that is predicted from the set before: a shift,
/// and a mark for every picture of that set and one more. A set that the
/// syntax does not allow fails the read and counts as empty.
pub open spec fn rps_predicted(d: Seq<u8>, c: Cursor, prev: RpsModel) -> (RpsModel, Cursor) {
    let (sign, c1) = read_flag(d, c);
    let (distance, c2) = read_ue_max(d, c1, 32767);
    let shift = if sign {
        -(distance + 1)
    } else {
        distance + 1
    };
    let (flags, c3) = use_flags(
        d,
        c2,
        (prev.negative.len() + prev.positive.len() + 1) as int,
        Seq::empty(),
    );
    let set = RpsModel {
        negative: predicted_side(prev, flags, shift, true),
        positive: predicted_side(prev, flags, shift, false),
    };
    if set.wf() {
        (set, c3)
    } else {
        (RpsModel::empty(), checked(c3, false))
    }
}

/// Cursor behind the reference picture sets from number `i` on, `count` in
/// all, where `prev` is the set before. Every set but the first says whether
/// it is predicted.
pub open spec fn rps_sets_end(d: Seq<u8>, c: Cursor, count: int, i: int, prev: RpsModel) -> Cursor
    decreases count - i,
{
    if i >= count || i < 0 {
        c
    } else {
        let (predicted, c1) = if i > 0 {
            read_flag(d, c)
        } else {
            (false, c)
        };
        let (set, c2) = if predicted {
            rps_predicted(d, c1, prev)
        } else {
            rps_direct(d, c1)
        };
        rps_sets_end(d, c2, count, i + 1, set)
    }
}

/// Reads `n` differences of a set that is spelled out.
fn read_rps_deltas(r: &mut BitReader, n: u32, negative: bool) -> (deltas: Vec<i32>)
    requires
        old(r).wf(),
        n <= 16,
    ensures
        final(r).wf(),
        final(r).bytes() == old(r).bytes(),
        (deltas@, final(r).cursor()) == rps_deltas(
            old(r).bytes(),
            old(r).cursor(),
            n as int,
            negative,
            0,
            Seq::empty(),
        ),
        deltas@.len() == n,
        deltas_in_range(deltas@),
{
    let mut deltas: Vec<i32> = Vec::new();
    let mut last: i32 = 0;
    let mut i: u32 = 0;
    while i < n
        invariant
            0 <= i <= n <= 16,
            r.wf(),
            r.bytes() == old(r).bytes(),
            deltas@.len() == i,
            deltas_in_range(deltas@),
            -32768 <= last <= 32767,
            rps_deltas(r.bytes(), r.cursor(), n - i, negative, last as int, deltas@) == rps_deltas(
                old(r).bytes(),
                old(r).cursor(),
                n as int,
                negative,
                0,
                Seq::empty(),
            ),
        decreases n - i,
    {
        let distance: u32 = r.read_ue_max(32767);
        r.skip_bits(1);
        let value: i32 = if negative {
            last - (distance as i32 + 1)
        } else {
            last + (distance as i32 + 1)
        };
        let fits = -32768 <= value && value <= 32767;
        r.check(fits);
        last = if fits {
            value
        } else {
            0
        };
        deltas.push(last);
        i += 1;
    }
    deltas
}

/// Reads a reference picture set that is spelled out.
fn read_rps_direct(r: &mut BitReader) -> (set: RefPicSet)
    requires
        old(r).wf(),
    ensures
        final(r).wf(),
        final(r).bytes() == old(r).bytes(),
        (set@, final(r).cursor()) == rps_direct(old(r).bytes(), old(r).cursor()),
        set@.wf(),
{
    let num_negative: u32 = r.read_ue_max(16);
    let num_positive: u32 = r.read_ue_max(16);
    let negative = read_rps_deltas(r, num_negative, true);
    let positive = read_rps_deltas(r, num_positive, false);
    RefPicSet { negative, positive }
}

/// Reads the marks of a predicted set.
fn read_use_flags(r: &mut BitReader, n: u32) -> (flags: Vec<bool>)
    requires
        old(r).wf(),
    ensures
        final(r).wf(),
        final(r).bytes() == old(r).bytes(),
        (flags@, final(r).cursor()) == use_flags(
            old(r).bytes(),
            old(r).cursor(),
            n as int,
            Seq::empty(),
        ),
        flags@.len() == n,
{
    let mut flags: Vec<bool> = Vec::new();
    let mut i: u32 = 0;
    while i < n
        invariant
            0 <= i <= n,
            r.wf(),
            r.bytes() == old(r).bytes(),
            flags@.len() == i,
            use_flags(r.bytes(), r.cursor(), n - i, flags@) == use_flags(
                old(r).bytes(),
                old(r).cursor(),
                n as int,
                Seq::empty(),
            ),
        decreases n - i,
    {
        let used = r.read_flag();
        let taken = if used {
            true
        } else {
            r.read_flag()
        };
        flags.push(taken);
        i += 1;
    }
    flags
}

/// Whether a picture at `value` moved by `shift` is taken over to a side.
fn is_picked(value: i32, taken: bool, shift: i32, negative: bool) -> (yes: bool)
    requires
        -32768 <= value <= 32767,
        -32768 <= shift <= 32768,
    ensures
        yes == (taken && if negative {
            value + shift < 0
        } else {
            value + shift > 0
        }),
{
    taken && if negative {
        value + shift < 0
    } else {
        value + shift > 0
    }
}

/// One side of a predicted set.
fn predict_side(prev: &RefPicSet, flags: &Vec<bool>, shift: i32, negative: bool) -> (side: Vec<i32>)
    requires
        prev@.wf(),
        flags@.len() == prev@.negative.len() + prev@.positive.len() + 1,
        -32768 <= shift <= 32768,
    ensures
        side@ == predicted_side(prev@, flags@, shift as int, negative),
{
    let n: usize = prev.negative.len();
    let p: usize = prev.positive.len();
    let other: &Vec<i32> = if negative {
        &prev.positive
    } else {
        &prev.negative
    };
    let other_base: usize = if negative {
        n
    } else {
        0
    };
    let same: &Vec<i32> = if negative {
        &prev.negative
    } else {
        &prev.positive
    };
    let same_base: usize = if negative {
        0
    } else {
        n
    };
    let mut side: Vec<i32> = Vec::new();
    let mut j: usize = other.len();
    while j > 0
        invariant
            0 <= j <= other@.len() <= 16,
            flags@.len() <= 33,
            other_base + other@.len() < flags@.len(),
            deltas_in_range(other@),
            -32768 <= shift <= 32768,
            pick_down(other@, flags@, other_base as int, shift as int, negative, j - 1, side@)
                == pick_down(
                other@,
                flags@,
                other_base as int,
                shift as int,
                negative,
                other@.len() - 1,
                Seq::empty(),
            ),
        decreases j,
    {
        j -= 1;
        assert(-32768 <= other@[j as int] <= 32767);
        if is_picked(other[j], flags[other_base + j], shift, negative) {
            side.push(other[j] + shift);
        }
    }
    let own = flags[n + p] && if negative {
        shift < 0
    } else {
        shift > 0
    };
    if own {
        side.push(shift);
    }
    let ghost with_own = side@;
    let mut k: usize = 0;
    while k < same.len()
        invariant
            0 <= k <= same@.len() <= 16,
            flags@.len() <= 33,
            same_base + same@.len() < flags@.len(),
            deltas_in_range(same@),
            -32768 <= shift <= 32768,
            pick_up(same@, flags@, same_base as int, shift as int, negative, k as int, side@)
                == pick_up(same@, flags@, same_base as int, shift as int, negative, 0, with_own),
        decreases same@.len() - k,
    {
        assert(-32768 <= same@[k as int] <= 32767);
        if is_picked(same[k], flags[same_base + k], shift, negative) {
            side.push(same[k] + shift);
        }
        k += 1;
    }
    side
}

/// Whether every difference fits in 16 bits.
fn all_in_range(deltas: &Vec<i32>) -> (yes: bool)
    ensures
        yes == deltas_in_range(deltas@),
{
    let mut i: usize = 0;
    while i < deltas.len()
        invariant
            0 <= i <= deltas@.len(),
            forall|j: int| 0 <= j < i ==> -32768 <= #[trigger] deltas@[j] <= 32767,
        decreases deltas@.len() - i,
    {
        if deltas[i] < -32768 || deltas[i] > 32767 {
            return false;
        }
        i += 1;
    }
    true
}

/// Reads a reference picture set that is predicted from `prev`.
fn read_rps_predicted(r: &mut BitReader, prev: &RefPicSet) -> (set: RefPicSet)
    requires
        old(r).wf(),
        prev@.wf(),
    ensures
        final(r).wf(),
        final(r).bytes() == old(r).bytes(),
        (set@, final(r).cursor()) == rps_predicted(old(r).bytes(), old(r).cursor(), prev@),
        set@.wf(),
{
    let sign = r.read_flag();
    let distance: u32 = r.read_ue_max(32767);
    let shift: i32 = if sign {
        -(distance as i32 + 1)
    } else {
        distance as i32 + 1
    };
    let count: u32 = (prev.negative.len() + prev.positive.len() + 1) as u32;
    let flags = read_use_flags(r, count);
    let negative = predict_side(prev, &flags, shift, true);
    let positive = predict_side(prev, &flags, shift, false);
    let fits = negative.len() <= MAX_RPS_PICS && positive.len() <= MAX_RPS_PICS && all_in_range(
        &negative,
    ) && all_in_range(&positive);
    if fits {
        RefPicSet { negative, positive }
    } else {
        r.check(false);
        RefPicSet { negative: Vec::new(), positive: Vec::new() }
    }
}

/// Skips `count` reference picture sets.
pub fn skip_rps_sets(r: &mut BitReader, count: u32)
    requires
        old(r).wf(),
    ensures
        final(r).wf(),
        final(r).bytes() == old(r).bytes(),
        final(r).cursor() == rps_sets_end(
            old(r).bytes(),
            old(r).cursor(),
            count as int,
            0,
            RpsModel::empty(),
        ),
{
    let mut prev = RefPicSet { negative: Vec::new(), positive: Vec::new() };
    let mut i: u32 = 0;
    while i < count
        invariant
            0 <= i <= count,
            r.wf(),
            r.bytes() == old(r).bytes(),
            prev@.wf(),
            rps_sets_end(r.bytes(), r.cursor(), count as int, i as int, prev@) == rps_sets_end(
                old(r).bytes(),
                old(r).cursor(),
                count as int,
                0,
                RpsModel::empty(),
            ),
        decreases count - i,
    {
        let predicted = if i > 0 {
            r.read_flag()
        } else {
            false
        };
        let set = if predicted {
            read_rps_predicted(r, &prev)
        } else {
            read_rps_direct(r)
        };
        prev = set;
        i += 1;
    }
}

/// Last part of a sequence parameter set: reference pictures and motion
/// prediction.
#[derive(Debug, Clone, Copy)]
pub struct SpsRefs {
    pub num_short_term_ref_pic_sets: u8,
    pub long_term_ref_pics_present: bool,
    pub num_long_term_ref_pics_sps: u8,
    pub temporal_mvp_enabled: bool,
    pub strong_intra_smoothing_enabled: bool,
}

/// The last part of a sequence parameter set at `c0`, where the low bits
/// of the picture order count take `log2_max_poc_lsb` bits.
pub open spec fn sps_refs(d: Seq<u8>, c0: Cursor, log2_max_poc_lsb: u8) -> (SpsRefs, Cursor) {
    let (count, c1) = read_ue_max(d, c0, 64);
    let c2 = rps_sets_end(d, c1, count, 0, RpsModel::empty());
    let (long_term, c3) = read_flag(d, c2);
    let (num_long_term, c4) = if long_term {
        read_ue_max(d, c3, 32)
    } else {
        (0int, c3)
    };
    let c5 = skip_bits(d, c4, num_long_term * (log2_max_poc_lsb + 1));
    let (mvp, c6) = read_flag(d, c5);
    let (strong, c7) = read_flag(d, c6);
    (
        SpsRefs {
            num_short_term_ref_pic_sets: count as u8,
            long_term_ref_pics_present: long_term,
            num_long_term_ref_pics_sps: num_long_term as u8,
            temporal_mvp_enabled: mvp,
            strong_intra_smoothing_enabled: strong,
        },
        c7,
    )
}

/// Reads the last part of a sequence parameter set.
pub fn read_sps_refs(r: &mut BitReader, log2_max_poc_lsb: u8) -> (refs: SpsRefs)
    requires
        old(r).wf(),
        log2_max_poc_lsb <= 16,
    ensures
        final(r).wf(),
        final(r).bytes() == old(r).bytes(),
        (refs, final(r).cursor()) == sps_refs(old(r).bytes(), old(r).cursor(), log2_max_poc_lsb),
        refs.num_short_term_ref_pic_sets <= 64,
        refs.num_long_term_ref_pics_sps <= 32,
{
    let count: u32 = r.read_ue_max(64);
    skip_rps_sets(r, count);
    let long_term = r.read_flag();
    let num_long_term: u32 = if long_term {
        r.read_ue_max(32)
    } else {
        0
    };
    assert(num_long_term * (log2_max_poc_lsb + 1) <= 32 * 17) by (nonlinear_arith)
        requires
            0 <= num_long_term <= 32,
            0 <= log2_max_poc_lsb <= 16,
    ;
    r.skip_bits(num_long_term * (log2_max_poc_lsb as u32 + 1));
    let mvp = r.read_flag();
    let strong = r.read_flag();
    SpsRefs {
        num_short_term_ref_pic_sets: count as u8,
        long_term_ref_pics_present: long_term,
        num_long_term_ref_pics_sps: num_long_term as u8,
        temporal_mvp_enabled: mvp,
        strong_intra_smoothing_enabled: strong,
    }
}

/// The sequence parameter set that three parts make.
pub open spec fn sps_from_parts(head: SpsHead, coding: SpsCoding, refs: SpsRefs) -> HevcSps {
    HevcSps {
        sps_id: head.sps_id,
        chroma_format_idc: head.chroma_format_idc,
        separate_colour_plane: head.separate_colour_plane,
        pic_width: head.pic_width,
        pic_height: head.pic_height,
        bit_depth_luma: head.bit_depth_luma,
        bit_depth_chroma: head.bit_depth_chroma,
        log2_max_poc_lsb: head.log2_max_poc_lsb,
        log2_min_luma_coding_block_size: coding.log2_min_luma_coding_block_size,
        log2_diff_max_min_luma_coding_block_size: coding.log2_diff_max_min_luma_coding_block_size,
        log2_min_luma_transform_block_size: coding.log2_min_luma_transform_block_size,
        log2_diff_max_min_luma_transform_block_size: coding.log2_diff_max_min_luma_transform_block_size,
        max_transform_hierarchy_depth_inter: coding.max_transform_hierarchy_depth_inter,
        max_transform_hierarchy_depth_intra: coding.max_transform_hierarchy_depth_intra,
        scaling_list_enabled: coding.scaling_list_enabled,
        amp_enabled: coding.amp_enabled,
        sample_adaptive_offset_enabled: coding.sample_adaptive_offset_enabled,
        pcm_enabled: coding.pcm_enabled,
        pcm_sample_bit_depth_luma: coding.pcm_sample_bit_depth_luma,
        pcm_sample_bit_depth_chroma: coding.pcm_sample_bit_depth_chroma,
        log2_min_pcm_luma_coding_block_size: coding.log2_min_pcm_luma_coding_block_size,
        log2_diff_max_min_pcm_luma_coding_block_size: coding.log2_diff_max_min_pcm_luma_coding_block_size,
        pcm_loop_filter_disabled: coding.pcm_loop_filter_disabled,
        num_short_term_ref_pic_sets: refs.num_short_term_ref_pic_sets,
        long_term_ref_pics_present: refs.long_term_ref_pics_present,
        num_long_term_ref_pics_sps: refs.num_long_term_ref_pics_sps,
        temporal_mvp_enabled: refs.temporal_mvp_enabled,
        strong_intra_smoothing_enabled: refs.strong_intra_smoothing_enabled,
    }
}

/// The cursor at the start of a payload: failed from the start where the
/// payload's bits are too many to count.
pub open spec fn start_of(payload: Seq<u8>) -> Cursor {
    Cursor { pos: 0, ok: bit_len(payload) <= usize::MAX }
}

/// The sequence parameter set that a payload holds, if all of it could be
/// read and every field lies in its range.
#[verifier::opaque]
pub open spec fn parsed_sps(payload: Seq<u8>) -> Option<HevcSps> {
    let (head, c1) = sps_head(payload, start_of(payload));
    let (coding, c2) = sps_coding(payload, c1);
    let (refs, c3) = sps_refs(payload, c2, head.log2_max_poc_lsb);
    if c3.ok {
        Some(sps_from_parts(head, coding, refs))
    } else {
        None
    }
}

/// Parses the payload of a sequence parameter set.
pub fn parse_sps(payload: &[u8]) -> (sps: Option<HevcSps>)
    ensures
        sps == parsed_sps(payload@),
        sps matches Some(s) ==> s.valid(),
{
    reveal(parsed_sps);
    let mut r = BitReader::new(payload);
    let head = read_sps_head(&mut r);
    let ghost after_head = r.cursor();
    let coding = read_sps_coding(&mut r);
    let ghost after_coding = r.cursor();
    let refs = read_sps_refs(&mut r, head.log2_max_poc_lsb);
    if !r.is_ok() {
        return None;
    }
    proof {
        lemma_sps_coding_ok(payload@, after_head);
        lemma_sps_refs_ok(payload@, after_coding, head.log2_max_poc_lsb);
    }
    Some(
        HevcSps {
            sps_id: head.sps_id,
            chroma_format_idc: head.chroma_format_idc,
            separate_colour_plane: head.separate_colour_plane,
            pic_width: head.pic_width,
            pic_height: head.pic_height,
            bit_depth_luma: head.bit_depth_luma,
            bit_depth_chroma: head.bit_depth_chroma,
            log2_max_poc_lsb: head.log2_max_poc_lsb,
            log2_min_luma_coding_block_size: coding.log2_min_luma_coding_block_size,
            log2_diff_max_min_luma_coding_block_size: coding.log2_diff_max_min_luma_coding_block_size,
            log2_min_luma_transform_block_size: coding.log2_min_luma_transform_block_size,
            log2_diff_max_min_luma_transform_block_size: coding.log2_diff_max_min_luma_transform_block_size,
            max_transform_hierarchy_depth_inter: coding.max_transform_hierarchy_depth_inter,
            max_transform_hierarchy_depth_intra: coding.max_transform_hierarchy_depth_intra,
            scaling_list_enabled: coding.scaling_list_enabled,
            amp_enabled: coding.amp_enabled,
            sample_adaptive_offset_enabled: coding.sample_adaptive_offset_enabled,
            pcm_enabled: coding.pcm_enabled,
            pcm_sample_bit_depth_luma: coding.pcm_sample_bit_depth_luma,
            pcm_sample_bit_depth_chroma: coding.pcm_sample_bit_depth_chroma,
            log2_min_pcm_luma_coding_block_size: coding.log2_min_pcm_luma_coding_block_size,
            log2_diff_max_min_pcm_luma_coding_block_size: coding.log2_diff_max_min_pcm_luma_coding_block_size,
            pcm_loop_filter_disabled: coding.pcm_loop_filter_disabled,
            num_short_term_ref_pic_sets: refs.num_short_term_ref_pic_sets,
            long_term_ref_pics_present: refs.long_term_ref_pics_present,
            num_long_term_ref_pics_sps: refs.num_long_term_ref_pics_sps,
            temporal_mvp_enabled: refs.temporal_mvp_enabled,
            strong_intra_smoothing_enabled: refs.strong_intra_smoothing_enabled,
        },
    )
}

/// A cursor that has failed stays failed through the scaling lists.
pub proof fn lemma_scaling_lists_ok(d: Seq<u8>, c: Cursor, list: int)
    ensures
        scaling_lists_end(d, c, list).ok ==> c.ok,
    decreases 20 - list,
{
    if 0 <= list < 20 {
        let (spelled, c1) = read_flag(d, c);
        let c2 = if !spelled {
            read_ue(d, c1).1
        } else {
            after_codes(
                d,
                c1,
                coef_count(list) + if list >= 12 {
                    1int
                } else {
                    0int
                },
            )
        };
        lemma_after_codes_ok(
            d,
            c1,
            coef_count(list) + if list >= 12 {
                1int
            } else {
                0int
            },
        );
        lemma_scaling_lists_ok(d, c2, list + 1);
    }
}

/// A cursor that has failed stays failed through the second part of a
/// sequence parameter set.
pub proof fn lemma_sps_coding_ok(d: Seq<u8>, c: Cursor)
    ensures
        sps_coding(d, c).1.ok ==> c.ok,
{
    let (log2_min_cb, c1) = read_ue_max(d, c, 3);
    let (log2_diff_cb, c2) = read_ue_max(d, c1, 3);
    let (log2_min_tb, c3) = read_ue_max(d, c2, 3);
    let (log2_diff_tb, c4) = read_ue_max(d, c3, 3);
    let (depth_inter, c5) = read_ue_max(d, c4, 4);
    let (depth_intra, c6) = read_ue_max(d, c5, 4);
    let (scaling, c7) = read_flag(d, c6);
    let (scaling_data, c8) = if scaling {
        read_flag(d, c7)
    } else {
        (false, c7)
    };
    lemma_scaling_lists_ok(d, c8, 0);
}

/// A cursor that has failed stays failed through a run of differences.
pub proof fn lemma_rps_deltas_ok(
    d: Seq<u8>,
    c: Cursor,
    n: int,
    negative: bool,
    last: int,
    acc: Seq<i32>,
)
    ensures
        rps_deltas(d, c, n, negative, last, acc).1.ok ==> c.ok,
    decreases n,
{
    if n > 0 {
        let (distance, c1) = read_ue_max(d, c, 32767);
        let c2 = skip_bits(d, c1, 1);
        let value = if negative {
            last - (distance + 1)
        } else {
            last + (distance + 1)
        };
        let fits = -32768 <= value <= 32767;
        let kept = if fits {
            value
        } else {
            0
        };
        lemma_rps_deltas_ok(d, checked(c2, fits), n - 1, negative, kept, acc.push(kept as i32));
    }
}

/// A cursor that has failed stays failed through a run of marks.
pub proof fn lemma_use_flags_ok(d: Seq<u8>, c: Cursor, n: int, acc: Seq<bool>)
    ensures
        use_flags(d, c, n, acc).1.ok ==> c.ok,
    decreases n,
{
    if n > 0 {
        let (used, c1) = read_flag(d, c);
        let (taken, c2) = if used {
            (true, c1)
        } else {
            read_flag(d, c1)
        };
        lemma_use_flags_ok(d, c2, n - 1, acc.push(taken));
    }
}

/// A cursor that has failed stays failed through the reference picture
/// sets.
pub proof fn lemma_rps_sets_ok(d: Seq<u8>, c: Cursor, count: int, i: int, prev: RpsModel)
    ensures
        rps_sets_end(d, c, count, i, prev).ok ==> c.ok,
    decreases count - i,
{
    if 0 <= i < count {
        let (predicted, c1) = if i > 0 {
            read_flag(d, c)
        } else {
            (false, c)
        };
        let (set, c2) = if predicted {
            rps_predicted(d, c1, prev)
        } else {
            rps_direct(d, c1)
        };
        if predicted {
            let (sign, after_sign) = read_flag(d, c1);
            let (distance, after_distance) = read_ue_max(d, after_sign, 32767);
            lemma_use_flags_ok(
                d,
                after_distance,
                (prev.negative.len() + prev.positive.len() + 1) as int,
                Seq::empty(),
            );
        } else {
            let (num_negative, d1) = read_ue_max(d, c1, 16);
            let (num_positive, d2) = read_ue_max(d, d1, 16);
            lemma_rps_deltas_ok(d, d2, num_negative, true, 0, Seq::empty());
            let (negative, d3) = rps_deltas(d, d2, num_negative, true, 0, Seq::empty());
            lemma_rps_deltas_ok(d, d3, num_positive, false, 0, Seq::empty());
        }
        lemma_rps_sets_ok(d, c2, count, i + 1, set);
    }
}

/// A cursor that has failed stays failed through the last part of a
/// sequence parameter set.
pub proof fn lemma_sps_refs_ok(d: Seq<u8>, c: Cursor, log2_max_poc_lsb: u8)
    ensures
        sps_refs(d, c, log2_max_poc_lsb).1.ok ==> c.ok,
{
    let (count, c1) = read_ue_max(d, c, 64);
    lemma_rps_sets_ok(d, c1, count, 0, RpsModel::empty());
}

/// First part of a picture parameter set: identification, reference
/// defaults and initial quantisation.
#[derive(Debug, Clone, Copy)]
pub struct PpsHead {
    pub pps_id: u8,
    pub sps_id: u8,
    pub dependent_slice_segments_enabled: bool,
    pub output_flag_present: bool,
    pub num_extra_slice_header_bits: u8,
    pub sign_data_hiding_enabled: bool,
    pub cabac_init_present: bool,
    pub num_ref_idx_l0_default_active: u8,
    pub num_ref_idx_l1_default_active: u8,
    pub init_qp: i8,
}

/// Second part of a picture parameter set: prediction and quantisation
/// tools.
#[derive(Debug, Clone, Copy)]
pub struct PpsTools {
    pub constrained_intra_pred: bool,
    pub transform_skip_enabled: bool,
    pub cu_qp_delta_enabled: bool,
    pub diff_cu_qp_delta_depth: u8,
    pub cb_qp_offset: i8,
    pub cr_qp_offset: i8,
    pub slice_chroma_qp_offsets_present: bool,
    pub weighted_pred: bool,
    pub weighted_bipred: bool,
    pub transquant_bypass_enabled: bool,
    pub tiles_enabled: bool,
    pub entropy_coding_sync_enabled: bool,
}

/// The first part of a picture parameter set at `c0`.
pub open spec fn pps_head(d: Seq<u8>, c0: Cursor) -> (PpsHead, Cursor) {
    let (pps_id, c1) = read_ue_max(d, c0, 63);
    let (sps_id, c2) = read_ue_max(d, c1, 15);
    let (dependent, c3) = read_flag(d, c2);
    let (output_flag, c4) = read_flag(d, c3);
    let (extra_bits, c5) = read_bits(d, c4, 3);
    let (sign_hiding, c6) = read_flag(d, c5);
    let (cabac_init, c7) = read_flag(d, c6);
    let (l0, c8) = read_ue_max(d, c7, 14);
    let (l1, c9) = read_ue_max(d, c8, 14);
    let (init_qp, c10) = read_se_range(d, c9, -74, 25);
    (
        PpsHead {
            pps_id: pps_id as u8,
            sps_id: sps_id as u8,
            dependent_slice_segments_enabled: dependent,
            output_flag_present: output_flag,
            num_extra_slice_header_bits: extra_bits as u8,
            sign_data_hiding_enabled: sign_hiding,
            cabac_init_present: cabac_init,
            num_ref_idx_l0_default_active: (l0 + 1) as u8,
            num_ref_idx_l1_default_active: (l1 + 1) as u8,
            init_qp: (init_qp + 26) as i8,
        },
        c10,
    )
}

/// The second part of a picture parameter set at `c0`.
pub open spec fn pps_tools(d: Seq<u8>, c0: Cursor) -> (PpsTools, Cursor) {
    let (constrained, c1) = read_flag(d, c0);
    let (transform_skip, c2) = read_flag(d, c1);
    let (cu_qp_delta, c3) = read_flag(d, c2);
    let (depth, c4) = if cu_qp_delta {
        read_ue_max(d, c3, 3)
    } else {
        (0int, c3)
    };
    let (cb, c5) = read_se_range(d, c4, -12, 12);
    let (cr, c6) = read_se_range(d, c5, -12, 12);
    let (chroma_offsets, c7) = read_flag(d, c6);
    let (weighted, c8) = read_flag(d, c7);
    let (weighted_bi, c9) = read_flag(d, c8);
    let (bypass, c10) = read_flag(d, c9);
    let (tiles, c11) = read_flag(d, c10);
    let (sync, c12) = read_flag(d, c11);
    (
        PpsTools {
            constrained_intra_pred: constrained,
            transform_skip_enabled: transform_skip,
            cu_qp_delta_enabled: cu_qp_delta,
            diff_cu_qp_delta_depth: depth as u8,
            cb_qp_offset: cb as i8,
            cr_qp_offset: cr as i8,
            slice_chroma_qp_offsets_present: chroma_offsets,
            weighted_pred: weighted,
            weighted_bipred: weighted_bi,
            transquant_bypass_enabled: bypass,
            tiles_enabled: tiles,
            entropy_coding_sync_enabled: sync,
        },
        c12,
    )
}

/// Reads the first part of a picture parameter set.
pub fn read_pps_head(r: &mut BitReader) -> (head: PpsHead)
    requires
        old(r).wf(),
    ensures
        final(r).wf(),
        final(r).bytes() == old(r).bytes(),
        (head, final(r).cursor()) == pps_head(old(r).bytes(), old(r).cursor()),
        head.pps_id < 64,
        head.sps_id < 16,
        head.num_extra_slice_header_bits <= 7,
        -48 <= head.init_qp <= 51,
{
    let pps_id: u32 = r.read_ue_max(63);
    let sps_id: u32 = r.read_ue_max(15);
    let dependent = r.read_flag();
    let output_flag = r.read_flag();
    proof {
        lemma_small_read(r.bytes(), r.cursor(), 3);
    }
    let extra_bits: u32 = r.read_bits(3);
    let sign_hiding = r.read_flag();
    let cabac_init = r.read_flag();
    let l0: u32 = r.read_ue_max(14);
    let l1: u32 = r.read_ue_max(14);
    let init_qp: i32 = r.read_se_range(-74, 25);
    PpsHead {
        pps_id: pps_id as u8,
        sps_id: sps_id as u8,
        dependent_slice_segments_enabled: dependent,
        output_flag_present: output_flag,
        num_extra_slice_header_bits: extra_bits as u8,
        sign_data_hiding_enabled: sign_hiding,
        cabac_init_present: cabac_init,
        num_ref_idx_l0_default_active: (l0 + 1) as u8,
        num_ref_idx_l1_default_active: (l1 + 1) as u8,
        init_qp: (init_qp + 26) as i8,
    }
}

/// Reads the second part of a picture parameter set.
pub fn read_pps_tools(r: &mut BitReader) -> (tools: PpsTools)
    requires
        old(r).wf(),
    ensures
        final(r).wf(),
        final(r).bytes() == old(r).bytes(),
        (tools, final(r).cursor()) == pps_tools(old(r).bytes(), old(r).cursor()),
        -12 <= tools.cb_qp_offset <= 12,
        -12 <= tools.cr_qp_offset <= 12,
{
    let constrained = r.read_flag();
    let transform_skip = r.read_flag();
    let cu_qp_delta = r.read_flag();
    let depth: u32 = if cu_qp_delta {
        r.read_ue_max(3)
    } else {
        0
    };
    let cb: i32 = r.read_se_range(-12, 12);
    let cr: i32 = r.read_se_range(-12, 12);
    let chroma_offsets = r.read_flag();
    let weighted = r.read_flag();
    let weighted_bi = r.read_flag();
    let bypass = r.read_flag();
    let tiles = r.read_flag();
    let sync = r.read_flag();
    PpsTools {
        constrained_intra_pred: constrained,
        transform_skip_enabled: transform_skip,
        cu_qp_delta_enabled: cu_qp_delta,
        diff_cu_qp_delta_depth: depth as u8,
        cb_qp_offset: cb as i8,
        cr_qp_offset: cr as i8,
        slice_chroma_qp_offsets_present: chroma_offsets,
        weighted_pred: weighted,
        weighted_bipred: weighted_bi,
        transquant_bypass_enabled: bypass,
        tiles_enabled: tiles,
        entropy_coding_sync_enabled: sync,
    }
}

/// Last part of a picture parameter set: tiles, loop filters and the
/// rest.
#[derive(Debug, Clone, Copy)]
pub struct PpsTail {
    pub num_tile_columns: u16,
    pub num_tile_rows: u16,
    pub uniform_spacing: bool,
    pub loop_filter_across_tiles_enabled: bool,
    pub loop_filter_across_slices_enabled: bool,
    pub deblocking_filter_override_enabled: bool,
    pub deblocking_filter_disabled: bool,
    pub beta_offset: i8,
    pub tc_offset: i8,
    pub lists_modification_present: bool,
    pub log2_parallel_merge_level: u8,
    pub slice_segment_header_extension_present: bool,
}

/// The tile fields of a picture parameter set at `c`: the number of
/// columns and rows, whether they are spaced evenly, the sizes where they
/// are not, and whether the loop filter crosses tiles.
pub open spec fn pps_tiles(d: Seq<u8>, c: Cursor) -> ((u16, u16, bool, bool), Cursor) {
    let (columns, c1) = read_ue_max(d, c, 19);
    let (rows, c2) = read_ue_max(d, c1, 21);
    let (uniform, c3) = read_flag(d, c2);
    let c4 = if uniform {
        c3
    } else {
        after_codes(d, c3, columns + rows)
    };
    let (across, c5) = read_flag(d, c4);
    (((columns + 1) as u16, (rows + 1) as u16, uniform, across), c5)
}

/// The deblocking fields of a picture parameter set at `c`: whether slices
/// may override them, whether the filter is off, and its two offsets where it
/// is on.
pub open spec fn pps_deblocking(d: Seq<u8>, c: Cursor) -> ((bool, bool, i8, i8), Cursor) {
    let (overriding, c1) = read_flag(d, c);
    let (disabled, c2) = read_flag(d, c1);
    let (beta, c3) = if disabled {
        (0int, c2)
    } else {
        read_se_range(d, c2, -6, 6)
    };
    let (tc, c4) = if disabled {
        (0int, c3)
    } else {
        read_se_range(d, c3, -6, 6)
    };
    ((overriding, disabled, (2 * beta) as i8, (2 * tc) as i8), c4)
}

/// The last part of a picture parameter set at `c0`. Without tiles the
/// picture is one tile, evenly spaced, and the loop filter counts as crossing
/// tiles.
pub open spec fn pps_tail(d: Seq<u8>, c0: Cursor, tiles_enabled: bool) -> (PpsTail, Cursor) {
    let (tiles, c1) = if tiles_enabled {
        pps_tiles(d, c0)
    } else {
        ((1u16, 1u16, true, true), c0)
    };
    let (across_slices, c2) = read_flag(d, c1);
    let (deblocking_present, c3) = read_flag(d, c2);
    let (deblocking, c4) = if deblocking_present {
        pps_deblocking(d, c3)
    } else {
        ((false, false, 0i8, 0i8), c3)
    };
    let (scaling, c5) = read_flag(d, c4);
    let c6 = if scaling {
        scaling_lists_end(d, c5, 0)
    } else {
        c5
    };
    let (lists_modification, c7) = read_flag(d, c6);
    let (merge_level, c8) = read_ue_max(d, c7, 4);
    let (extension, c9) = read_flag(d, c8);
    (
        PpsTail {
            num_tile_columns: tiles.0,
            num_tile_rows: tiles.1,
            uniform_spacing: tiles.2,
            loop_filter_across_tiles_enabled: tiles.3,
            loop_filter_across_slices_enabled: across_slices,
            deblocking_filter_override_enabled: deblocking.0,
            deblocking_filter_disabled: deblocking.1,
            beta_offset: deblocking.2,
            tc_offset: deblocking.3,
            lists_modification_present: lists_modification,
            log2_parallel_merge_level: (merge_level + 2) as u8,
            slice_segment_header_extension_present: extension,
        },
        c9,
    )
}

/// Reads the tile fields of a picture parameter set.
pub fn read_pps_tiles(r: &mut BitReader) -> (tiles: (u16, u16, bool, bool))
    requires
        old(r).wf(),
    ensures
        final(r).wf(),
        final(r).bytes() == old(r).bytes(),
        (tiles, final(r).cursor()) == pps_tiles(old(r).bytes(), old(r).cursor()),
{
    let columns: u32 = r.read_ue_max(19);
    let rows: u32 = r.read_ue_max(21);
    let uniform = r.read_flag();
    if !uniform {
        skip_codes(r, columns + rows);
    }
    let across = r.read_flag();
    ((columns + 1) as u16, (rows + 1) as u16, uniform, across)
}

/// Reads the deblocking fields of a picture parameter set.
pub fn read_pps_deblocking(r: &mut BitReader) -> (fields: (bool, bool, i8, i8))
    requires
        old(r).wf(),
    ensures
        final(r).wf(),
        final(r).bytes() == old(r).bytes(),
        (fields, final(r).cursor()) == pps_deblocking(old(r).bytes(), old(r).cursor()),
        -12 <= fields.2 <= 12,
        -12 <= fields.3 <= 12,
{
    let overriding = r.read_flag();
    let disabled = r.read_flag();
    let beta: i32 = if disabled {
        0
    } else {
        r.read_se_range(-6, 6)
    };
    let tc: i32 = if disabled {
        0
    } else {
        r.read_se_range(-6, 6)
    };
    (overriding, disabled, (2 * beta) as i8, (2 * tc) as i8)
}

/// Reads the last part of a picture parameter set.
pub fn read_pps_tail(r: &mut BitReader, tiles_enabled: bool) -> (tail: PpsTail)
    requires
        old(r).wf(),
    ensures
        final(r).wf(),
        final(r).bytes() == old(r).bytes(),
        (tail, final(r).cursor()) == pps_tail(old(r).bytes(), old(r).cursor(), tiles_enabled),
        -12 <= tail.beta_offset <= 12,
        -12 <= tail.tc_offset <= 12,
{
    let tiles = if tiles_enabled {
        read_pps_tiles(r)
    } else {
        (1u16, 1u16, true, true)
    };
    let across_slices = r.read_flag();
    let deblocking_present = r.read_flag();
    let deblocking = if deblocking_present {
        read_pps_deblocking(r)
    } else {
        (false, false, 0i8, 0i8)
    };
    let scaling = r.read_flag();
    if scaling {
        skip_scaling_lists(r);
    }
    let lists_modification = r.read_flag();
    let merge_level: u32 = r.read_ue_max(4);
    let extension = r.read_flag();
    PpsTail {
        num_tile_columns: tiles.0,
        num_tile_rows: tiles.1,
        uniform_spacing: tiles.2,
        loop_filter_across_tiles_enabled: tiles.3,
        loop_filter_across_slices_enabled: across_slices,
        deblocking_filter_override_enabled: deblocking.0,
        deblocking_filter_disabled: deblocking.1,
        beta_offset: deblocking.2,
        tc_offset: deblocking.3,
        lists_modification_present: lists_modification,
        log2_parallel_merge_level: (merge_level + 2) as u8,
        slice_segment_header_extension_present: extension,
    }
}

/// The picture parameter set that three parts make.
pub open spec fn pps_from_parts(head: PpsHead, tools: PpsTools, tail: PpsTail) -> HevcPps {
    HevcPps {
        pps_id: head.pps_id,
        sps_id: head.sps_id,
        dependent_slice_segments_enabled: head.dependent_slice_segments_enabled,
        output_flag_present: head.output_flag_present,
        num_extra_slice_header_bits: head.num_extra_slice_header_bits,
        sign_data_hiding_enabled: head.sign_data_hiding_enabled,
        cabac_init_present: head.cabac_init_present,
        num_ref_idx_l0_default_active: head.num_ref_idx_l0_default_active,
        num_ref_idx_l1_default_active: head.num_ref_idx_l1_default_active,
        init_qp: head.init_qp,
        constrained_intra_pred: tools.constrained_intra_pred,
        transform_skip_enabled: tools.transform_skip_enabled,
        cu_qp_delta_enabled: tools.cu_qp_delta_enabled,
        diff_cu_qp_delta_depth: tools.diff_cu_qp_delta_depth,
        cb_qp_offset: tools.cb_qp_offset,
        cr_qp_offset: tools.cr_qp_offset,
        slice_chroma_qp_offsets_present: tools.slice_chroma_qp_offsets_present,
        weighted_pred: tools.weighted_pred,
        weighted_bipred: tools.weighted_bipred,
        transquant_bypass_enabled: tools.transquant_bypass_enabled,
        tiles_enabled: tools.tiles_enabled,
        entropy_coding_sync_enabled: tools.entropy_coding_sync_enabled,
        num_tile_columns: tail.num_tile_columns,
        num_tile_rows: tail.num_tile_rows,
        uniform_spacing: tail.uniform_spacing,
        loop_filter_across_tiles_enabled: tail.loop_filter_across_tiles_enabled,
        loop_filter_across_slices_enabled: tail.loop_filter_across_slices_enabled,
        deblocking_filter_override_enabled: tail.deblocking_filter_override_enabled,
        deblocking_filter_disabled: tail.deblocking_filter_disabled,
        beta_offset: tail.beta_offset,
        tc_offset: tail.tc_offset,
        lists_modification_present: tail.lists_modification_present,
        log2_parallel_merge_level: tail.log2_parallel_merge_level,
        slice_segment_header_extension_present: tail.slice_segment_header_extension_present,
    }
}

/// Puts the three parts of a picture parameter set together.
fn assemble_pps(head: &PpsHead, tools: &PpsTools, tail: &PpsTail) -> (pps: HevcPps)
    ensures
        pps == pps_from_parts(*head, *tools, *tail),
{
    HevcPps {
        pps_id: head.pps_id,
        sps_id: head.sps_id,
        dependent_slice_segments_enabled: head.dependent_slice_segments_enabled,
        output_flag_present: head.output_flag_present,
        num_extra_slice_header_bits: head.num_extra_slice_header_bits,
        sign_data_hiding_enabled: head.sign_data_hiding_enabled,
        cabac_init_present: head.cabac_init_present,
        num_ref_idx_l0_default_active: head.num_ref_idx_l0_default_active,
        num_ref_idx_l1_default_active: head.num_ref_idx_l1_default_active,
        init_qp: head.init_qp,
        constrained_intra_pred: tools.constrained_intra_pred,
        transform_skip_enabled: tools.transform_skip_enabled,
        cu_qp_delta_enabled: tools.cu_qp_delta_enabled,
        diff_cu_qp_delta_depth: tools.diff_cu_qp_delta_depth,
        cb_qp_offset: tools.cb_qp_offset,
        cr_qp_offset: tools.cr_qp_offset,
        slice_chroma_qp_offsets_present: tools.slice_chroma_qp_offsets_present,
        weighted_pred: tools.weighted_pred,
        weighted_bipred: tools.weighted_bipred,
        transquant_bypass_enabled: tools.transquant_bypass_enabled,
        tiles_enabled: tools.tiles_enabled,
        entropy_coding_sync_enabled: tools.entropy_coding_sync_enabled,
        num_tile_columns: tail.num_tile_columns,
        num_tile_rows: tail.num_tile_rows,
        uniform_spacing: tail.uniform_spacing,
        loop_filter_across_tiles_enabled: tail.loop_filter_across_tiles_enabled,
        loop_filter_across_slices_enabled: tail.loop_filter_across_slices_enabled,
        deblocking_filter_override_enabled: tail.deblocking_filter_override_enabled,
        deblocking_filter_disabled: tail.deblocking_filter_disabled,
        beta_offset: tail.beta_offset,
        tc_offset: tail.tc_offset,
        lists_modification_present: tail.lists_modification_present,
        log2_parallel_merge_level: tail.log2_parallel_merge_level,
        slice_segment_header_extension_present: tail.slice_segment_header_extension_present,
    }
}

/// The picture parameter set that a payload holds, if all of it could be
/// read and every field lies in its range.
#[verifier::opaque]
pub open spec fn parsed_pps(payload: Seq<u8>) -> Option<HevcPps> {
    let (head, c1) = pps_head(payload, start_of(payload));
    let (tools, c2) = pps_tools(payload, c1);
    let (tail, c3) = pps_tail(payload, c2, tools.tiles_enabled);
    if c3.ok {
        Some(pps_from_parts(head, tools, tail))
    } else {
        None
    }
}

/// Parses the payload of a picture parameter set.
pub fn parse_pps(payload: &[u8]) -> (pps: Option<HevcPps>)
    ensures
        pps == parsed_pps(payload@),
        pps matches Some(p) ==> p.valid(),
{
    reveal(parsed_pps);
    let mut r = BitReader::new(payload);
    let head = read_pps_head(&mut r);
    let tools = read_pps_tools(&mut r);
    let tail = read_pps_tail(&mut r, tools.tiles_enabled);
    if !r.is_ok() {
        return None;
    }
    Some(assemble_pps(&head, &tools, &tail))
}

/// The smallest `b`, from `bits` on, for which `power`, doubled with every
/// step, has reached `n`.
pub open spec fn bits_from(n: int, bits: int, power: int) -> int
    decreases
            (if power < n {
                n - power
            } else {
                0
            }),
{
    if power >= n || power <= 0 {
        bits
    } else {
        bits_from(n, bits + 1, 2 * power)
    }
}

/// Number of bits that spell every number below `n`: the smallest `b` with
/// two to the power `b` at least `n`.
pub open spec fn bits_for(n: int) -> int {
    bits_from(n, 0, 1)
}

/// Number of coding tree blocks that cover `samples` samples where a block
/// has `size` samples on its edge.
pub open spec fn blocks_across(samples: u32, size: int) -> int {
    (samples + size - 1) / size
}

/// Edge of a coding tree block in samples.
pub open spec fn ctb_size(sps: HevcSps) -> int {
    (1u64 << ((sps.log2_min_luma_coding_block_size
        + sps.log2_diff_max_min_luma_coding_block_size) as u64)) as int
}

/// Number of bits of a slice segment address: as many as spell every
/// coding tree block of the picture.
pub open spec fn address_bits(sps: HevcSps) -> int {
    bits_for(
        blocks_across(sps.pic_width, ctb_size(sps)) * blocks_across(sps.pic_height, ctb_size(sps)),
    )
}

/// Number of bits that spell every number below `n`.
pub fn count_bits_for(n: u64) -> (bits: u32)
    requires
        n <= 0x4000_0000_0000_0000,
    ensures
        bits == bits_for(n as int),
        bits <= 62,
{
    let mut power: u64 = 1;
    let mut bits: u32 = 0;
    assert(1u64 == 1u64 << 0u32) by (bit_vector);
    while power < n
        invariant
            n <= 0x4000_0000_0000_0000,
            bits <= 62,
            power == 1u64 << bits,
            1 <= power <= 0x4000_0000_0000_0000,
            bits_from(n as int, bits as int, power as int) == bits_for(n as int),
        decreases 62 - bits,
    {
        assert(bits < 62 && 2 * power == 1u64 << ((bits + 1) as u32) && 2 * power
            <= 0x4000_0000_0000_0000) by (bit_vector)
            requires
                power == 1u64 << bits,
                bits <= 62,
                power < 0x4000_0000_0000_0000,
        ;
        power = power * 2;
        bits += 1;
    }
    bits
}

/// Number of bits of a slice segment address.
pub fn slice_address_bits(sps: &HevcSps) -> (bits: u32)
    requires
        sps.valid(),
    ensures
        bits == address_bits(*sps),
        bits <= 62,
{
    let log2_ctb: u64 = sps.log2_min_luma_coding_block_size as u64
        + sps.log2_diff_max_min_luma_coding_block_size as u64;
    let size: u64 = 1u64 << log2_ctb;
    assert(8 <= size <= 512) by (bit_vector)
        requires
            size == 1u64 << log2_ctb,
            3 <= log2_ctb <= 9,
    ;
    let across: u64 = (sps.pic_width as u64 + size - 1) / size;
    let down: u64 = (sps.pic_height as u64 + size - 1) / size;
    assert(across <= 0x2000_0040 && down <= 0x2000_0040) by (nonlinear_arith)
        requires
            size >= 8,
            across == (sps.pic_width as int + size - 1) / (size as int),
            down == (sps.pic_height as int + size - 1) / (size as int),
            sps.pic_width <= 0xFFFF_FFFF,
            sps.pic_height <= 0xFFFF_FFFF,
            size <= 512,
    ;
    assert(across * down <= 0x2000_0040 * 0x2000_0040) by (nonlinear_arith)
        requires
            0 <= across <= 0x2000_0040,
            0 <= down <= 0x2000_0040,
    ;
    count_bits_for(across * down)
}

/// The start of a slice segment header at `c0`: whether the segment is the
/// first of its picture, and the picture parameter set that it refers to.
/// A random access picture carries one more flag in between.
pub open spec fn slice_intro(d: Seq<u8>, c0: Cursor, nal_type: HevcNalType) -> ((bool, u8), Cursor) {
    let (first, c1) = read_flag(d, c0);
    let c2 = if nal_type.spec_is_rap() {
        skip_bits(d, c1, 1)
    } else {
        c1
    };
    let (pps_id, c3) = read_ue_max(d, c2, 63);
    ((first, pps_id as u8), c3)
}

/// What follows in a slice segment header under its parameter sets: the
/// slice type and the low bits of the picture order count, which an IDR
/// picture does not carry. A dependent slice segment has no header of its
/// own and fails the read.
pub open spec fn slice_rest(
    d: Seq<u8>,
    c0: Cursor,
    first: bool,
    nal_type: HevcNalType,
    sps: HevcSps,
    pps: HevcPps,
) -> ((u8, u32), Cursor) {
    let (dependent, c1) = if !first && pps.dependent_slice_segments_enabled {
        read_flag(d, c0)
    } else {
        (false, c0)
    };
    let c2 = if first {
        c1
    } else {
        skip_bits(d, c1, address_bits(sps))
    };
    let c3 = checked(c2, !dependent);
    let c4 = skip_bits(d, c3, pps.num_extra_slice_header_bits as int);
    let (slice_type, c5) = read_ue_max(d, c4, 2);
    let c6 = if pps.output_flag_present {
        skip_bits(d, c5, 1)
    } else {
        c5
    };
    let c7 = if sps.separate_colour_plane {
        skip_bits(d, c6, 2)
    } else {
        c6
    };
    let (poc_lsb, c8) = if nal_type.spec_is_idr() {
        (0int, c7)
    } else {
        read_bits(d, c7, sps.log2_max_poc_lsb as int)
    };
    ((slice_type as u8, poc_lsb as u32), c8)
}

/// Reads the start of a slice segment header.
pub fn read_slice_intro(r: &mut BitReader, nal_type: HevcNalType) -> (intro: (bool, u8))
    requires
        old(r).wf(),
    ensures
        final(r).wf(),
        final(r).bytes() == old(r).bytes(),
        (intro, final(r).cursor()) == slice_intro(old(r).bytes(), old(r).cursor(), nal_type),
        intro.1 < 64,
{
    let first = r.read_flag();
    if nal_type.is_rap() {
        r.skip_bits(1);
    }
    let pps_id: u32 = r.read_ue_max(63);
    (first, pps_id as u8)
}

/// Reads what follows in a slice segment header under its parameter sets.
pub fn read_slice_rest(
    r: &mut BitReader,
    first: bool,
    nal_type: HevcNalType,
    sps: &HevcSps,
    pps: &HevcPps,
) -> (rest: (u8, u32))
    requires
        old(r).wf(),
        sps.valid(),
        pps.valid(),
    ensures
        final(r).wf(),
        final(r).bytes() == old(r).bytes(),
        (rest, final(r).cursor()) == slice_rest(
            old(r).bytes(),
            old(r).cursor(),
            first,
            nal_type,
            *sps,
            *pps,
        ),
        rest.0 <= 2,
        rest.1 <= 0xFFFF,
{
    let dependent = if !first && pps.dependent_slice_segments_enabled {
        r.read_flag()
    } else {
        false
    };
    if !first {
        r.skip_bits(slice_address_bits(sps));
    }
    r.check(!dependent);
    r.skip_bits(pps.num_extra_slice_header_bits as u32);
    let slice_type: u32 = r.read_ue_max(2);
    if pps.output_flag_present {
        r.skip_bits(1);
    }
    if sps.separate_colour_plane {
        r.skip_bits(2);
    }
    let poc_lsb: u32 = if nal_type.is_idr() {
        0
    } else {
        proof {
            crate::media::bit_reader::lemma_bits_value_bounds(
                r.bytes(),
                r.cursor().pos,
                sps.log2_max_poc_lsb as int,
            );
            crate::media::bit_reader::lemma_max_of_bits(sps.log2_max_poc_lsb as int);
        }
        r.read_bits(sps.log2_max_poc_lsb as u32)
    };
    (slice_type as u8, poc_lsb)
}

} // verus!
