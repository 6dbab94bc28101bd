use opennow_streamer::media::bit_reader::{extract_payload, BitReader};
use opennow_streamer::media::dxva_decoder::{
    select_decoder_config, CapabilityReport, DxvaCodec, DxvaDecoder, DxvaDecoderConfig, DxvaError,
    DxvaErrorKind, DxvaProfile, FrameSubmission,
};
use opennow_streamer::media::dxva_params::DxvaBufferType;
use opennow_streamer::media::dxva_submission::{
    check_buffer_grant, check_buffer_release, BufferGrant, SubmitStep,
};
use opennow_streamer::media::hevc_parser::{
    find_annex_b_units, find_length_prefixed_units, HevcNalType, HevcNalUnit, HevcParseError,
    HevcParser, NalFraming,
};
use opennow_streamer::media::hevc_syntax::{count_bits_for, parse_pps, parse_sps, slice_address_bits};

/// Writes bits, the highest bit of each byte first.
struct BitWriter {
    bytes: Vec<u8>,
    used: u32,
}

impl BitWriter {
    fn new() -> Self {
        BitWriter { bytes: Vec::new(), used: 0 }
    }

    fn bit(&mut self, b: bool) {
        if self.used % 8 == 0 {
            self.bytes.push(0);
        }
        if b {
            let last = self.bytes.len() - 1;
            self.bytes[last] |= 1 << (7 - self.used % 8);
        }
        self.used += 1;
    }

    fn bits(&mut self, n: u32, value: u64) {
        for i in (0..n).rev() {
            self.bit((value >> i) & 1 == 1);
        }
    }

    fn ue(&mut self, value: u32) {
        let code = value as u64 + 1;
        let len = 64 - code.leading_zeros();
        self.bits(len - 1, 0);
        self.bits(len, code);
    }

    fn se(&mut self, value: i32) {
        if value > 0 {
            self.ue((2 * value - 1) as u32);
        } else {
            self.ue((-2 * value) as u32);
        }
    }

    fn trailing(mut self) -> Vec<u8> {
        self.bit(true);
        while self.used % 8 != 0 {
            self.bit(false);
        }
        self.bytes
    }
}

/// A NAL unit with its two header bytes and emulation prevention bytes.
fn nal_bytes(nal_type: u8, payload: &[u8]) -> Vec<u8> {
    let mut out = vec![nal_type << 1, 0x01];
    let mut zeros = 0;
    for b in payload {
        if zeros >= 2 && *b <= 3 {
            out.push(3);
            zeros = 0;
        }
        out.push(*b);
        zeros = if *b == 0 { zeros + 1 } else { 0 };
    }
    out
}

struct SpsOptions {
    width: u32,
    height: u32,
    bit_depth: u32,
    scaling_lists: bool,
    rps: u32,
}

fn plain_sps() -> SpsOptions {
    SpsOptions { width: 1920, height: 1080, bit_depth: 8, scaling_lists: false, rps: 0 }
}

fn sps_payload(o: &SpsOptions) -> Vec<u8> {
    let mut w = BitWriter::new();
    w.bits(4, 0); // video parameter set
    w.bits(3, 0); // sub-layers
    w.bit(true); // temporal id nesting
    w.bits(8, 0x01); // profile space, tier, profile
    w.bits(32, 0x6000_0000); // compatibility
    w.bits(48, 0x9000_0000_0000); // constraint flags
    w.bits(8, 120); // level
    w.ue(0); // sequence parameter set id
    w.ue(1); // chroma format
    w.ue(o.width);
    w.ue(o.height);
    w.bit(false); // conformance window
    w.ue(o.bit_depth - 8);
    w.ue(o.bit_depth - 8);
    w.ue(4); // log2_max_pic_order_cnt_lsb_minus4: 8 bits
    w.bit(true); // sub-layer ordering info
    w.ue(4);
    w.ue(0);
    w.ue(0);
    w.ue(0); // log2_min_luma_coding_block_size_minus3
    w.ue(2); // log2_diff_max_min_luma_coding_block_size
    w.ue(0); // log2_min_luma_transform_block_size_minus2
    w.ue(3); // log2_diff_max_min_luma_transform_block_size
    w.ue(1); // max_transform_hierarchy_depth_inter
    w.ue(2); // max_transform_hierarchy_depth_intra
    w.bit(o.scaling_lists);
    if o.scaling_lists {
        w.bit(false); // no scaling list data
    }
    w.bit(true); // amp
    w.bit(true); // sao
    w.bit(false); // pcm
    w.ue(o.rps);
    for i in 0..o.rps {
        if i > 0 {
            w.bit(false); // spelled out
        }
        w.ue(2); // two pictures before
        w.ue(0);
        w.ue(0);
        w.bit(true);
        w.ue(1);
        w.bit(true);
    }
    w.bit(false); // long-term reference pictures
    w.bit(true); // temporal mvp
    w.bit(true); // strong intra smoothing
    w.bit(false); // vui
    w.bit(false); // extension
    w.trailing()
}

fn pps_payload(pps_id: u32, sps_id: u32) -> Vec<u8> {
    let mut w = BitWriter::new();
    w.ue(pps_id);
    w.ue(sps_id);
    w.bit(false); // dependent slice segments
    w.bit(false); // output flag present
    w.bits(3, 0); // extra slice header bits
    w.bit(true); // sign data hiding
    w.bit(false); // cabac init present
    w.ue(0);
    w.ue(1);
    w.se(4); // init_qp_minus26
    w.bit(false); // constrained intra pred
    w.bit(false); // transform skip
    w.bit(true); // cu qp delta
    w.ue(1); // diff_cu_qp_delta_depth
    w.se(-2); // cb
    w.se(3); // cr
    w.bit(false);
    w.bit(false);
    w.bit(false);
    w.bit(false); // transquant bypass
    w.bit(false); // tiles
    w.bit(false); // entropy coding sync
    w.bit(true); // loop filter across slices
    w.bit(true); // deblocking control present
    w.bit(false); // override enabled
    w.bit(false); // disabled
    w.se(-2); // beta_offset_div2
    w.se(1); // tc_offset_div2
    w.bit(false); // scaling list data
    w.bit(false); // lists modification
    w.ue(1); // log2_parallel_merge_level_minus2
    w.bit(false); // slice segment header extension
    w.bit(false); // extension
    w.trailing()
}

fn idr_slice_payload() -> Vec<u8> {
    let mut w = BitWriter::new();
    w.bit(true); // first slice segment in picture
    w.bit(false); // no output of prior pictures
    w.ue(0); // picture parameter set
    w.ue(2); // I slice
    w.bits(16, 0xABCD); // slice data
    w.trailing()
}

fn p_slice_payload(poc_lsb: u32) -> Vec<u8> {
    let mut w = BitWriter::new();
    w.bit(true); // first slice segment in picture
    w.ue(0); // picture parameter set
    w.ue(1); // P slice
    w.bits(8, poc_lsb as u64);
    w.bits(16, 0x1234); // slice data
    w.trailing()
}

fn stream(units: &[Vec<u8>]) -> Vec<u8> {
    let mut out = Vec::new();
    for (i, unit) in units.iter().enumerate() {
        if i % 2 == 0 {
            out.extend_from_slice(&[0, 0, 0, 1]);
        } else {
            out.extend_from_slice(&[0, 0, 1]);
        }
        out.extend_from_slice(unit);
    }
    out
}

fn idr_packet() -> Vec<u8> {
    stream(&[
        nal_bytes(33, &sps_payload(&plain_sps())),
        nal_bytes(34, &pps_payload(0, 0)),
        nal_bytes(19, &idr_slice_payload()),
    ])
}

fn p_packet(poc_lsb: u32) -> Vec<u8> {
    stream(&[nal_bytes(1, &p_slice_payload(poc_lsb))])
}

fn ready_decoder(surface_count: u32) -> DxvaDecoder {
    let mut decoder = DxvaDecoder::new(DxvaDecoderConfig {
        codec: DxvaCodec::HEVC,
        width: 1920,
        height: 1080,
        is_hdr: false,
        surface_count,
    })
    .unwrap();
    let report = CapabilityReport {
        profiles: vec![Some(1), None, Some(DxvaProfile::HevcVldMain.guid())],
        format_supported: Some(true),
        config_count: Some(2),
    };
    assert_eq!(decoder.check_capabilities(&report), Ok(()));
    assert_eq!(decoder.initialize_decoder(&vec![Some(1), Some(2)]), Ok(1));
    decoder.decoder_created();
    assert!(decoder.is_initialized());
    decoder
}

#[test]
fn bit_reader_reads_fixed_and_exp_golomb_codes() {
    let mut w = BitWriter::new();
    w.bits(5, 0b10110);
    w.ue(0);
    w.ue(1);
    w.ue(2);
    w.ue(1920);
    w.se(0);
    w.se(1);
    w.se(-1);
    w.se(7);
    w.se(-7);
    w.bit(true);
    w.bits(32, 0xDEAD_BEEF);
    let bytes = w.trailing();
    let mut r = BitReader::new(&bytes);
    assert_eq!(r.read_bits(5), 0b10110);
    assert_eq!(r.read_ue(), 0);
    assert_eq!(r.read_ue(), 1);
    assert_eq!(r.read_ue(), 2);
    assert_eq!(r.read_ue(), 1920);
    assert_eq!(r.read_se(), 0);
    assert_eq!(r.read_se(), 1);
    assert_eq!(r.read_se(), -1);
    assert_eq!(r.read_se(), 7);
    assert_eq!(r.read_se(), -7);
    assert!(r.read_flag());
    assert_eq!(r.read_bits(32), 0xDEAD_BEEF);
    assert!(r.is_ok());
}

#[test]
fn bit_reader_fails_past_the_end_and_stays_failed() {
    let bytes = [0xFFu8];
    let mut r = BitReader::new(&bytes);
    assert_eq!(r.read_bits(4), 0xF);
    assert_eq!(r.read_bits(5), 0);
    assert!(!r.is_ok());
    assert_eq!(r.read_bits(1), 0);
    assert_eq!(r.read_ue(), 0);
    assert!(!r.read_flag());
    assert!(!r.is_ok());
}

#[test]
fn bit_reader_refuses_codes_without_an_end() {
    let zeros = [0u8; 8];
    let mut r = BitReader::new(&zeros);
    assert_eq!(r.read_ue(), 0);
    assert!(!r.is_ok());
    // The longest code that is read: 31 zero bits, a one bit, 31 more bits.
    let mut w = BitWriter::new();
    w.bits(31, 0);
    w.bits(32, 0xFFFF_FFFF);
    let bytes = w.trailing();
    let mut r = BitReader::new(&bytes);
    assert_eq!(r.read_ue(), 0xFFFF_FFFE);
    assert!(r.is_ok());
}

#[test]
fn bit_reader_checked_reads_fail_out_of_range() {
    let mut w = BitWriter::new();
    w.ue(15);
    w.ue(16);
    let bytes = w.trailing();
    let mut r = BitReader::new(&bytes);
    assert_eq!(r.read_ue_max(15), 15);
    assert!(r.is_ok());
    assert_eq!(r.read_ue_max(15), 0);
    assert!(!r.is_ok());
    let mut w = BitWriter::new();
    w.se(-12);
    w.se(13);
    let bytes = w.trailing();
    let mut r = BitReader::new(&bytes);
    assert_eq!(r.read_se_range(-12, 12), -12);
    assert_eq!(r.read_se_range(-12, 12), 0);
    assert!(!r.is_ok());
}

#[test]
fn payload_drops_header_and_emulation_prevention_bytes() {
    let unit = [0x42, 0x01, 0x00, 0x00, 0x03, 0x01, 0x00, 0x00, 0x03, 0x00, 0x00, 0x03, 0x03, 0x05];
    assert_eq!(extract_payload(&unit), vec![0x00, 0x00, 0x01, 0x00, 0x00, 0x00, 0x00, 0x03, 0x05]);
    assert!(extract_payload(&[0x42]).is_empty());
    assert!(extract_payload(&[0x42, 0x01]).is_empty());
    // A three that does not follow two zeros stays.
    assert_eq!(extract_payload(&[0, 0, 0, 3, 0, 3]), vec![0, 3, 0, 3]);
}

#[test]
fn nal_types_know_their_groups() {
    for code in 0..64u8 {
        let t = HevcNalType::from_code(code);
        assert_eq!(t.code(), code);
        assert_eq!(t.is_slice(), code <= 9 || (16..=21).contains(&code));
        assert_eq!(t.is_idr(), code == 19 || code == 20);
        assert_eq!(t.is_vcl(), code < 32);
        assert_eq!(t.is_rap(), (16..=23).contains(&code));
    }
    assert_eq!(HevcNalType::from_code(33), HevcNalType::Sps);
    assert_eq!(HevcNalType::from_code(34), HevcNalType::Pps);
    assert_eq!(HevcNalType::from_code(19), HevcNalType::IdrWRadl);
    assert_eq!(HevcNalType::from_code(22), HevcNalType::Other(22));
}

#[test]
fn find_nal_units_splits_at_start_codes() {
    let parser = HevcParser::new();
    let data = [
        0xEE, 0, 0, 0, 1, 0x42, 0x01, 0xAA, 0, 0, 1, 0x44, 0x01, 0xBB, 0xCC, 0, 0, 0, 0, 1, 0x26,
        0x01, 0xDD, 0, 0,
    ];
    let nals = parser.find_nal_units(&data);
    assert_eq!(nals.len(), 3);
    assert_eq!(nals[0].nal_type, HevcNalType::Sps);
    assert_eq!(nals[0].data, vec![0x42, 0x01, 0xAA]);
    assert_eq!(nals[1].nal_type, HevcNalType::Pps);
    assert_eq!(nals[1].data, vec![0x44, 0x01, 0xBB, 0xCC]);
    assert_eq!(nals[2].nal_type, HevcNalType::IdrWRadl);
    // The zero bytes at the end are no part of the unit.
    assert_eq!(nals[2].data, vec![0x26, 0x01, 0xDD]);
}

#[test]
fn find_nal_units_without_start_code_finds_nothing() {
    let parser = HevcParser::new();
    assert!(parser.find_nal_units(&[]).is_empty());
    assert!(parser.find_nal_units(&[1, 2, 3, 4, 5]).is_empty());
    assert!(parser.find_nal_units(&[0, 0, 1]).is_empty());
    // A unit of one byte has no header.
    assert!(parser.find_nal_units(&[0, 0, 1, 0x42]).is_empty());
    assert!(parser.find_nal_units(&[0, 0, 1, 0x42, 0, 0, 1, 0x44, 0]).is_empty());
}

fn prefixed(units: &[Vec<u8>]) -> Vec<u8> {
    let mut out = Vec::new();
    for unit in units {
        out.extend_from_slice(&(unit.len() as u32).to_be_bytes());
        out.extend_from_slice(unit);
    }
    out
}

#[test]
fn length_prefixed_units_follow_their_lengths() {
    let data = [
        0, 0, 0, 3, 0x42, 0x01, 0xAA, // a sequence parameter set of three bytes
        0, 0, 0, 1, 0x99, // too short for a header
        0, 0, 0, 0, // nothing at all
        0, 0, 0, 5, 0x26, 0x01, 0, 0, 1, // start codes inside a unit mean nothing
        0, 0, 1, 0, 0x44, 0x01, // a length that runs past the end
    ];
    let nals = find_length_prefixed_units(&data);
    assert_eq!(nals.len(), 2);
    assert_eq!(nals[0].nal_type, HevcNalType::Sps);
    assert_eq!(nals[0].data, vec![0x42, 0x01, 0xAA]);
    assert_eq!(nals[1].nal_type, HevcNalType::IdrWRadl);
    assert_eq!(nals[1].data, vec![0x26, 0x01, 0, 0, 1]);

    assert!(find_length_prefixed_units(&[]).is_empty());
    assert!(find_length_prefixed_units(&[0, 0, 0]).is_empty());
    assert!(find_length_prefixed_units(&[0xFF, 0xFF, 0xFF, 0xFF, 0x42, 0x01]).is_empty());
    let big = prefixed(&[vec![0x40; 70_000]]);
    assert_eq!(find_length_prefixed_units(&big)[0].data.len(), 70_000);
}

#[test]
fn the_parser_reads_packets_by_its_framing() {
    let units = [vec![0x42, 0x01, 0xAA], vec![0x44, 0x01, 0xBB]];
    let with_codes = stream(&units);
    let with_lengths = prefixed(&units);

    let parser = HevcParser::new();
    assert_eq!(parser.framing, NalFraming::AnnexB);
    assert_eq!(parser.find_nal_units(&with_codes).len(), 2);
    assert_eq!(parser.find_nal_units(&with_codes)[1].data, units[1]);
    assert_eq!(find_annex_b_units(&with_codes).len(), 2);
    assert!(parser.find_nal_units(&with_lengths).is_empty());

    let parser = HevcParser::with_framing(NalFraming::LengthPrefixed);
    assert_eq!(parser.framing, NalFraming::LengthPrefixed);
    let nals = parser.find_nal_units(&with_lengths);
    assert_eq!(nals.len(), 2);
    assert_eq!(nals[0].data, units[0]);
    assert_eq!(nals[1].nal_type, HevcNalType::Pps);
    assert_eq!(parser.get_dimensions(), None);
}

#[test]
fn a_length_prefixed_packet_decodes_like_one_with_start_codes() {
    let units = [
        nal_bytes(33, &sps_payload(&plain_sps())),
        nal_bytes(34, &pps_payload(0, 0)),
        nal_bytes(19, &idr_slice_payload()),
    ];
    let mut by_code = HevcParser::new();
    let mut by_length = HevcParser::with_framing(NalFraming::LengthPrefixed);
    let a = ready_decoder(25).decode_frame(&stream(&units), &mut by_code).unwrap();
    let b = ready_decoder(25).decode_frame(&prefixed(&units), &mut by_length).unwrap();
    assert_eq!(a.bitstream, b.bitstream);
    assert_eq!(a.pic_params.to_bytes(), b.pic_params.to_bytes());
    assert_eq!((a.surface_idx, a.poc, a.is_idr), (b.surface_idx, b.poc, b.is_idr));
    assert_eq!(by_length.get_dimensions(), Some((1920, 1080, false)));
    // Read under the other framing the packet holds no unit.
    assert_eq!(
        ready_decoder(25).decode_frame(&prefixed(&units), &mut by_code).unwrap_err(),
        DxvaError::NoNalUnits
    );
}

#[test]
fn sps_is_parsed_field_by_field() {
    let sps = parse_sps(&sps_payload(&plain_sps())).expect("a sequence parameter set");
    assert_eq!(sps.sps_id, 0);
    assert_eq!(sps.chroma_format_idc, 1);
    assert!(!sps.separate_colour_plane);
    assert_eq!((sps.pic_width, sps.pic_height), (1920, 1080));
    assert_eq!((sps.bit_depth_luma, sps.bit_depth_chroma), (8, 8));
    assert_eq!(sps.log2_max_poc_lsb, 8);
    assert_eq!(sps.log2_min_luma_coding_block_size, 3);
    assert_eq!(sps.log2_diff_max_min_luma_coding_block_size, 2);
    assert_eq!(sps.log2_min_luma_transform_block_size, 2);
    assert_eq!(sps.log2_diff_max_min_luma_transform_block_size, 3);
    assert_eq!(sps.max_transform_hierarchy_depth_inter, 1);
    assert_eq!(sps.max_transform_hierarchy_depth_intra, 2);
    assert!(!sps.scaling_list_enabled);
    assert!(sps.amp_enabled);
    assert!(sps.sample_adaptive_offset_enabled);
    assert!(!sps.pcm_enabled);
    assert_eq!(sps.num_short_term_ref_pic_sets, 0);
    assert!(!sps.long_term_ref_pics_present);
    assert!(sps.temporal_mvp_enabled);
    assert!(sps.strong_intra_smoothing_enabled);
}

#[test]
fn sps_with_reference_picture_sets_and_scaling_lists() {
    let options = SpsOptions { width: 3840, height: 2160, bit_depth: 10, scaling_lists: true, rps: 3 };
    let sps = parse_sps(&sps_payload(&options)).expect("a sequence parameter set");
    assert_eq!((sps.pic_width, sps.pic_height), (3840, 2160));
    assert_eq!((sps.bit_depth_luma, sps.bit_depth_chroma), (10, 10));
    assert!(sps.scaling_list_enabled);
    assert_eq!(sps.num_short_term_ref_pic_sets, 3);
    assert!(sps.temporal_mvp_enabled);
    assert!(sps.strong_intra_smoothing_enabled);
}

#[test]
fn sps_with_a_predicted_reference_picture_set() {
    let mut w = BitWriter::new();
    w.bits(4, 0);
    w.bits(3, 0);
    w.bit(true);
    w.bits(32, 0);
    w.bits(32, 0);
    w.bits(32, 0);
    w.ue(3); // sequence parameter set id
    w.ue(1);
    w.ue(1280);
    w.ue(720);
    w.bit(false);
    w.ue(0);
    w.ue(0);
    w.ue(0); // 4 bits of picture order count
    w.bit(true);
    w.ue(1);
    w.ue(0);
    w.ue(0);
    w.ue(1);
    w.ue(1);
    w.ue(0);
    w.ue(1);
    w.ue(0);
    w.ue(0);
    w.bit(false); // scaling lists
    w.bit(false);
    w.bit(false);
    w.bit(false);
    w.ue(2); // two reference picture sets
    // The first: one picture before (-1), one after (+2).
    w.ue(1);
    w.ue(1);
    w.ue(0);
    w.bit(true);
    w.ue(1);
    w.bit(true);
    // The second is predicted from the first with a shift of -1.
    w.bit(true);
    w.bit(true); // sign
    w.ue(0); // distance less one
    w.bit(true); // picture -1: used
    w.bit(false); // picture +2: not used,
    w.bit(true); // but taken over
    w.bit(false); // the shift itself: not used,
    w.bit(false); // and not taken over
    w.bit(true); // long-term reference pictures
    w.ue(2);
    w.bits(4, 5);
    w.bit(true);
    w.bits(4, 9);
    w.bit(false);
    w.bit(false); // temporal mvp
    w.bit(true); // strong intra smoothing
    let sps = parse_sps(&w.trailing()).expect("a sequence parameter set");
    assert_eq!(sps.sps_id, 3);
    assert_eq!(sps.log2_max_poc_lsb, 4);
    assert_eq!(sps.log2_min_luma_coding_block_size, 4);
    assert_eq!(sps.num_short_term_ref_pic_sets, 2);
    assert!(sps.long_term_ref_pics_present);
    assert_eq!(sps.num_long_term_ref_pics_sps, 2);
    assert!(!sps.temporal_mvp_enabled);
    assert!(sps.strong_intra_smoothing_enabled);
}

#[test]
fn malformed_sps_is_refused() {
    let good = sps_payload(&plain_sps());
    // Cut short.
    assert!(parse_sps(&good[..10]).is_none());
    assert!(parse_sps(&[]).is_none());
    // A picture without width.
    let mut options = plain_sps();
    options.width = 0;
    assert!(parse_sps(&sps_payload(&options)).is_none());
    // More bits per sample than the standard allows.
    options = plain_sps();
    options.bit_depth = 17;
    assert!(parse_sps(&sps_payload(&options)).is_none());
}

#[test]
fn pps_is_parsed_field_by_field() {
    let pps = parse_pps(&pps_payload(5, 2)).expect("a picture parameter set");
    assert_eq!(pps.pps_id, 5);
    assert_eq!(pps.sps_id, 2);
    assert!(!pps.dependent_slice_segments_enabled);
    assert!(!pps.output_flag_present);
    assert_eq!(pps.num_extra_slice_header_bits, 0);
    assert!(pps.sign_data_hiding_enabled);
    assert!(!pps.cabac_init_present);
    assert_eq!(pps.num_ref_idx_l0_default_active, 1);
    assert_eq!(pps.num_ref_idx_l1_default_active, 2);
    assert_eq!(pps.init_qp, 30);
    assert!(pps.cu_qp_delta_enabled);
    assert_eq!(pps.diff_cu_qp_delta_depth, 1);
    assert_eq!(pps.cb_qp_offset, -2);
    assert_eq!(pps.cr_qp_offset, 3);
    assert!(!pps.tiles_enabled);
    assert_eq!((pps.num_tile_columns, pps.num_tile_rows), (1, 1));
    assert!(pps.uniform_spacing);
    assert!(pps.loop_filter_across_tiles_enabled);
    assert!(pps.loop_filter_across_slices_enabled);
    assert!(!pps.deblocking_filter_override_enabled);
    assert!(!pps.deblocking_filter_disabled);
    assert_eq!(pps.beta_offset, -4);
    assert_eq!(pps.tc_offset, 2);
    assert!(!pps.lists_modification_present);
    assert_eq!(pps.log2_parallel_merge_level, 3);
    assert!(!pps.slice_segment_header_extension_present);
}

#[test]
fn malformed_pps_is_refused() {
    assert!(parse_pps(&[]).is_none());
    assert!(parse_pps(&pps_payload(64, 0)).is_none());
    assert!(parse_pps(&pps_payload(0, 16)).is_none());
    assert!(parse_pps(&pps_payload(63, 15)).is_some());
}

#[test]
fn address_bits_count_the_coding_tree_blocks() {
    assert_eq!(count_bits_for(0), 0);
    assert_eq!(count_bits_for(1), 0);
    assert_eq!(count_bits_for(2), 1);
    assert_eq!(count_bits_for(3), 2);
    assert_eq!(count_bits_for(4), 2);
    assert_eq!(count_bits_for(5), 3);
    assert_eq!(count_bits_for(510), 9);
    assert_eq!(count_bits_for(1 << 40), 40);
    // 1920 by 1080 in blocks of 32: 60 by 34 blocks, 2040 of them.
    let sps = parse_sps(&sps_payload(&plain_sps())).unwrap();
    assert_eq!(slice_address_bits(&sps), 11);
}

#[test]
fn parser_keeps_parameter_sets_and_reports_dimensions() {
    let mut parser = HevcParser::new();
    assert_eq!(parser.get_dimensions(), None);
    let sps = HevcNalUnit { nal_type: HevcNalType::Sps, data: nal_bytes(33, &sps_payload(&plain_sps())) };
    let pps = HevcNalUnit { nal_type: HevcNalType::Pps, data: nal_bytes(34, &pps_payload(7, 0)) };
    assert_eq!(parser.process_nal(&pps), Ok(()));
    assert_eq!(parser.get_dimensions(), None);
    assert_eq!(parser.process_nal(&sps), Ok(()));
    assert_eq!(parser.get_dimensions(), Some((1920, 1080, false)));
    assert!(parser.sps[0].is_some());
    assert!(parser.pps[7].is_some());
    assert!(parser.pps[0].is_none());
    let hdr = SpsOptions { width: 3840, height: 2160, bit_depth: 10, scaling_lists: false, rps: 0 };
    let sps = HevcNalUnit { nal_type: HevcNalType::Sps, data: nal_bytes(33, &sps_payload(&hdr)) };
    assert_eq!(parser.process_nal(&sps), Ok(()));
    assert_eq!(parser.get_dimensions(), Some((3840, 2160, true)));
}

#[test]
fn parser_passes_over_malformed_parameter_sets() {
    let mut parser = HevcParser::new();
    let good = HevcNalUnit { nal_type: HevcNalType::Sps, data: nal_bytes(33, &sps_payload(&plain_sps())) };
    parser.process_nal(&good).unwrap();
    let bad = HevcNalUnit { nal_type: HevcNalType::Sps, data: vec![0x42, 0x01, 0x01] };
    assert_eq!(parser.process_nal(&bad), Ok(()));
    let bad = HevcNalUnit { nal_type: HevcNalType::Pps, data: vec![0x44, 0x01] };
    assert_eq!(parser.process_nal(&bad), Ok(()));
    // The tables are as they were.
    assert_eq!(parser.get_dimensions(), Some((1920, 1080, false)));
    assert!(parser.sps.iter().filter(|s| s.is_some()).count() == 1);
    assert!(parser.pps.iter().all(|p| p.is_none()));
    // Other units are passed over.
    let sei = HevcNalUnit { nal_type: HevcNalType::PrefixSei, data: vec![0x4E, 0x01, 0xFF] };
    assert_eq!(parser.process_nal(&sei), Ok(()));
}

#[test]
fn slice_header_needs_known_parameter_sets() {
    let mut parser = HevcParser::new();
    let slice = HevcNalUnit { nal_type: HevcNalType::TrailR, data: nal_bytes(1, &p_slice_payload(12)) };
    assert_eq!(parser.parse_slice_header(&slice), Err(HevcParseError::UnknownPps(0)));
    let pps = HevcNalUnit { nal_type: HevcNalType::Pps, data: nal_bytes(34, &pps_payload(0, 0)) };
    parser.process_nal(&pps).unwrap();
    assert_eq!(parser.parse_slice_header(&slice), Err(HevcParseError::UnknownSps(0)));
    let sps = HevcNalUnit { nal_type: HevcNalType::Sps, data: nal_bytes(33, &sps_payload(&plain_sps())) };
    parser.process_nal(&sps).unwrap();
    let header = parser.parse_slice_header(&slice).unwrap();
    assert!(header.first_slice_segment_in_pic);
    assert_eq!(header.pps_id, 0);
    assert_eq!(header.slice_type, 1);
    assert_eq!(header.pic_order_cnt_lsb, 12);
    let idr = HevcNalUnit { nal_type: HevcNalType::IdrWRadl, data: nal_bytes(19, &idr_slice_payload()) };
    let header = parser.parse_slice_header(&idr).unwrap();
    assert_eq!(header.slice_type, 2);
    assert_eq!(header.pic_order_cnt_lsb, 0);
    assert_eq!(parser.parse_slice_header(&sps), Err(HevcParseError::NotASlice));
    let cut = HevcNalUnit { nal_type: HevcNalType::TrailR, data: vec![0x02, 0x01] };
    assert_eq!(parser.parse_slice_header(&cut), Err(HevcParseError::MalformedSliceHeader));
}

#[test]
fn capability_check_reports_the_first_thing_missing() {
    let mut decoder = DxvaDecoder::new(DxvaDecoderConfig::default()).unwrap();
    let guid = DxvaProfile::HevcVldMain.guid();
    let mut report = CapabilityReport { profiles: vec![Some(7), None], format_supported: Some(true), config_count: Some(1) };
    assert_eq!(decoder.check_capabilities(&report), Err(DxvaError::ProfileNotSupported));
    report.profiles.push(Some(guid));
    report.format_supported = None;
    assert_eq!(decoder.check_capabilities(&report), Err(DxvaError::FormatCheckFailed));
    report.format_supported = Some(false);
    assert_eq!(decoder.check_capabilities(&report), Err(DxvaError::FormatNotSupported));
    report.format_supported = Some(true);
    report.config_count = None;
    assert_eq!(decoder.check_capabilities(&report), Err(DxvaError::ConfigCountFailed));
    report.config_count = Some(0);
    assert_eq!(decoder.check_capabilities(&report), Err(DxvaError::NoDecoderConfigurations));
    report.config_count = Some(3);
    assert_eq!(decoder.check_capabilities(&report), Ok(()));
}

#[test]
fn decoder_configuration_prefers_short_slices() {
    assert_eq!(select_decoder_config(&vec![]), None);
    assert_eq!(select_decoder_config(&vec![None, None]), None);
    assert_eq!(select_decoder_config(&vec![None, Some(1), Some(3)]), Some(1));
    assert_eq!(select_decoder_config(&vec![Some(1), Some(2), Some(1)]), Some(1));
    // Of several in short slice mode the last one is taken.
    assert_eq!(select_decoder_config(&vec![Some(2), Some(1), Some(2), None]), Some(2));
    let mut decoder = DxvaDecoder::new(DxvaDecoderConfig::default()).unwrap();
    assert_eq!(decoder.initialize_decoder(&vec![None]), Err(DxvaError::NoValidConfiguration));
    assert_eq!(decoder.initialize_decoder(&vec![None, Some(1)]), Ok(1));
}

#[test]
fn test_check_hevc_support() {
    let result = DxvaDecoder::check_resolution_support(Some(true), Some(2));
    println!("HEVC 1080p support: {:?}", result);
    assert_eq!(result, Ok(true));
}

#[test]
fn test_check_hevc_4k_support() {
    let result = DxvaDecoder::check_resolution_support(Some(true), None);
    println!("HEVC 4K support: {:?}", result);
    assert_eq!(result, Ok(false));
    assert_eq!(DxvaDecoder::check_resolution_support(Some(true), Some(0)), Ok(false));
    assert_eq!(DxvaDecoder::check_resolution_support(Some(false), Some(4)), Ok(false));
    assert_eq!(DxvaDecoder::check_resolution_support(None, Some(4)), Err(DxvaError::FormatCheckFailed));
}

#[test]
fn test_get_max_resolution() {
    let result = DxvaDecoder::get_max_resolution(&vec![Ok(false), Ok(false), Ok(true)]);
    println!("HEVC max resolution: {:?}", result);
    assert_eq!(result, Ok((3840, 2160)));
    assert_eq!(DxvaDecoder::get_max_resolution(&vec![Ok(true)]), Ok((7680, 4320)));
    assert_eq!(
        DxvaDecoder::get_max_resolution(&vec![Ok(false); 5].into_iter().chain([Ok(true)]).collect()),
        Ok((1280, 720))
    );
    assert_eq!(
        DxvaDecoder::get_max_resolution(&vec![Ok(false); 6]),
        Err(DxvaError::NoSupportedResolution)
    );
    assert_eq!(DxvaDecoder::get_max_resolution(&vec![]), Err(DxvaError::NoSupportedResolution));
    assert_eq!(
        DxvaDecoder::get_max_resolution(&vec![Ok(false), Err(DxvaError::FormatCheckFailed), Ok(true)]),
        Err(DxvaError::FormatCheckFailed)
    );
    assert_eq!(
        DxvaDecoder::common_resolutions(),
        [(7680, 4320), (5120, 2880), (3840, 2160), (2560, 1440), (1920, 1080), (1280, 720)]
    );
}

#[test]
fn decode_idr_frame_at_1080p() {
    let mut decoder = ready_decoder(25);
    let mut parser = HevcParser::new();
    let submission = decoder.decode_frame(&idr_packet(), &mut parser).expect("a frame");
    assert_eq!(parser.get_dimensions(), Some((1920, 1080, false)));
    assert_eq!(submission.surface_idx, 0);
    assert_eq!(submission.poc, 0);
    assert!(submission.is_idr);
    assert!(submission.is_reference);
    assert!(!submission.send_qmatrix);
    assert!(decoder.dpb().is_empty());
    assert_eq!(decoder.current_surface(), 1);
    assert_eq!(decoder.poc_history(), (0, 0));
    let pp = &submission.pic_params;
    assert_eq!(pp.pic_width_in_min_cbs_y, 240);
    assert_eq!(pp.pic_height_in_min_cbs_y, 135);
    assert_eq!(pp.curr_pic.b_pic_entry, 0);
    assert!(pp.ref_pic_list.iter().all(|e| e.b_pic_entry == 0xFF));
    assert_eq!(pp.dw_coding_setting_picture_property_flags >> 16, 0b111);
    assert_eq!(pp.init_qp_minus26, 4);
    // One slice, in short slice mode, padded to 128 bytes.
    assert_eq!(submission.slice_controls.len(), 1);
    assert_eq!(submission.bitstream.len() % 128, 0);
    assert_eq!(submission.slice_controls[0].bs_nal_unit_data_location, 0);
    assert_eq!(submission.slice_controls[0].slice_bytes_in_buffer as usize, submission.bitstream.len());
    assert_eq!(submission.bitstream[0], 19 << 1);
    let frame = decoder.complete_frame(&submission);
    assert_eq!(frame.array_index, 0);
    assert_eq!((frame.width, frame.height, frame.is_hdr, frame.poc), (1920, 1080, false, 0));
    assert_eq!(decoder.dpb().len(), 1);
    assert_eq!(decoder.dpb()[0].surface_index, 0);
    assert_eq!(decoder.frame_count(), 1);
}

#[test]
fn decode_frames_after_an_idr_refer_to_the_frames_before() {
    let mut decoder = ready_decoder(25);
    let mut parser = HevcParser::new();
    let idr = decoder.decode_frame(&idr_packet(), &mut parser).unwrap();
    decoder.complete_frame(&idr);
    for i in 1..=3u32 {
        let submission = decoder.decode_frame(&p_packet(i * 2), &mut parser).expect("a frame");
        assert_eq!(submission.surface_idx, i);
        assert_eq!(submission.poc, (i * 2) as i32);
        assert!(!submission.is_idr);
        let pp = &submission.pic_params;
        let listed: Vec<u8> = pp.ref_pic_list.iter().map(|e| e.b_pic_entry).take(i as usize).collect();
        let expected: Vec<u8> = (0..i as u8).rev().collect();
        assert_eq!(listed, expected);
        assert_eq!(pp.ref_pic_list[i as usize].b_pic_entry, 0xFF);
        assert_eq!(pp.curr_pic_order_cnt_val, (i * 2) as i32);
        decoder.complete_frame(&submission);
    }
    assert_eq!(decoder.dpb().len(), 4);
    // A second IDR frame empties the buffer before its parameters are built.
    let idr = decoder.decode_frame(&idr_packet(), &mut parser).unwrap();
    assert!(decoder.dpb().is_empty());
    assert_eq!(idr.surface_idx, 4);
    assert!(idr.pic_params.ref_pic_list.iter().all(|e| e.b_pic_entry == 0xFF));
}

#[test]
fn decode_errors_come_in_order_and_leave_the_decoder_alone() {
    let mut parser = HevcParser::new();
    let mut fresh = DxvaDecoder::new(DxvaDecoderConfig::default()).unwrap();
    assert_eq!(fresh.decode_frame(&idr_packet(), &mut parser).unwrap_err(), DxvaError::NotInitialized);
    assert_eq!(parser.get_dimensions(), None);

    let mut decoder = ready_decoder(25);
    assert_eq!(decoder.decode_frame(&[1, 2, 3], &mut parser).unwrap_err(), DxvaError::NoNalUnits);
    // A slice before any parameter set.
    assert_eq!(
        decoder.decode_frame(&p_packet(4), &mut parser).unwrap_err(),
        DxvaError::Parse(HevcParseError::UnknownPps(0))
    );
    // A malformed parameter set is passed over: the slice after it still
    // finds no parameter set.
    let bad = stream(&[vec![0x42, 0x01, 0x01], nal_bytes(19, &idr_slice_payload())]);
    assert_eq!(
        decoder.decode_frame(&bad, &mut parser).unwrap_err(),
        DxvaError::Parse(HevcParseError::UnknownPps(0))
    );
    assert_eq!(parser.get_dimensions(), None);
    // Parameter sets alone are taken in, but give no frame.
    let sets = stream(&[nal_bytes(33, &sps_payload(&plain_sps())), nal_bytes(34, &pps_payload(0, 0))]);
    assert_eq!(decoder.decode_frame(&sets, &mut parser).unwrap_err(), DxvaError::NoSliceNalUnits);
    assert_eq!(parser.get_dimensions(), Some((1920, 1080, false)));
    assert_eq!(decoder.current_surface(), 0);
    assert!(decoder.dpb().is_empty());
    assert_eq!(decoder.frame_count(), 0);
    // Now the slice decodes.
    assert!(decoder.decode_frame(&p_packet(4), &mut parser).is_ok());
    // And a malformed parameter set in front of a slice does not stop it.
    let frame = decoder.decode_frame(&bad, &mut parser).unwrap();
    assert!(frame.is_idr);
    assert_eq!(frame.poc, 0);
    assert_eq!(parser.get_dimensions(), Some((1920, 1080, false)));
}

#[test]
fn error_kinds_follow_the_taxonomy() {
    assert_eq!(DxvaError::Parse(HevcParseError::UnknownPps(1)).kind(), DxvaErrorKind::Parse);
    assert_eq!(DxvaError::NoNalUnits.kind(), DxvaErrorKind::Parse);
    assert_eq!(DxvaError::NoSliceNalUnits.kind(), DxvaErrorKind::Parse);
    assert_eq!(DxvaError::PocOutOfRange.kind(), DxvaErrorKind::Parse);
    assert_eq!(DxvaError::ProfileNotSupported.kind(), DxvaErrorKind::Capability);
    assert_eq!(DxvaError::NotInitialized.kind(), DxvaErrorKind::Capability);
    assert_eq!(DxvaError::NoSupportedResolution.kind(), DxvaErrorKind::Capability);
    assert_eq!(DxvaError::BeginFrameFailed.kind(), DxvaErrorKind::Submission);
    assert_eq!(DxvaError::BufferTooSmall(DxvaBufferType::Bitstream).kind(), DxvaErrorKind::Submission);
    assert_eq!(DxvaError::BitstreamTooLarge.kind(), DxvaErrorKind::Submission);
    assert_eq!(DxvaError::EndFrameFailed.kind(), DxvaErrorKind::Submission);
}

#[test]
fn submission_steps_follow_their_order() {
    let mut decoder = ready_decoder(25);
    let mut parser = HevcParser::new();
    let submission = decoder.decode_frame(&idr_packet(), &mut parser).unwrap();
    let mut steps = vec![submission.first_step()];
    while *steps.last().unwrap() != SubmitStep::Done {
        let next = submission.next_step(*steps.last().unwrap());
        steps.push(next);
    }
    assert_eq!(
        steps,
        vec![
            SubmitStep::BeginFrame,
            SubmitStep::Buffer(DxvaBufferType::PictureParameters),
            SubmitStep::Buffer(DxvaBufferType::SliceControl),
            SubmitStep::Buffer(DxvaBufferType::Bitstream),
            SubmitStep::SubmitBuffers,
            SubmitStep::EndFrame,
            SubmitStep::Flush,
            SubmitStep::Done,
        ]
    );
    let descs = submission.buffer_descs(1920, 1080);
    assert_eq!(descs.len(), 3);
    assert_eq!(descs[0].buffer_type, DxvaBufferType::PictureParameters);
    assert_eq!(descs[0].data_size, 232);
    assert_eq!(descs[1].buffer_type, DxvaBufferType::SliceControl);
    assert_eq!(descs[1].data_size, 10);
    assert_eq!(descs[1].num_mbs_in_buffer, 1);
    assert_eq!(descs[2].buffer_type, DxvaBufferType::Bitstream);
    assert_eq!(descs[2].data_size as usize, submission.bitstream.len());
    assert_eq!((descs[2].width, descs[2].height), (1920, 1080));
    assert_eq!(submission.buffer_bytes(DxvaBufferType::PictureParameters), submission.pic_params.to_bytes());
    assert_eq!(submission.buffer_bytes(DxvaBufferType::Bitstream), submission.bitstream);
    assert_eq!(submission.buffer_bytes(DxvaBufferType::SliceControl).len(), 10);
    assert_eq!(submission.buffer_bytes(DxvaBufferType::InverseQuantizationMatrix), vec![16u8; 1000]);
    assert!(submission.buffer_bytes(DxvaBufferType::FilmGrain).is_empty());
}

#[test]
fn submission_sends_the_quantization_matrix_for_scaling_lists() {
    let mut decoder = ready_decoder(25);
    let mut parser = HevcParser::new();
    let options = SpsOptions { width: 1920, height: 1080, bit_depth: 8, scaling_lists: true, rps: 0 };
    let packet = stream(&[
        nal_bytes(33, &sps_payload(&options)),
        nal_bytes(34, &pps_payload(0, 0)),
        nal_bytes(19, &idr_slice_payload()),
    ]);
    let submission = decoder.decode_frame(&packet, &mut parser).unwrap();
    assert!(submission.send_qmatrix);
    assert_eq!(
        submission.next_step(SubmitStep::Buffer(DxvaBufferType::PictureParameters)),
        SubmitStep::Buffer(DxvaBufferType::InverseQuantizationMatrix)
    );
    assert_eq!(
        submission.next_step(SubmitStep::Buffer(DxvaBufferType::InverseQuantizationMatrix)),
        SubmitStep::Buffer(DxvaBufferType::SliceControl)
    );
    let descs = submission.buffer_descs(1920, 1080);
    assert_eq!(descs.len(), 4);
    assert_eq!(descs[1].buffer_type, DxvaBufferType::InverseQuantizationMatrix);
    assert_eq!(descs[1].data_size, 1000);
}

#[test]
fn buffer_grants_are_checked() {
    let t = DxvaBufferType::Bitstream;
    assert_eq!(check_buffer_grant(t, 100, BufferGrant::Refused), Err(DxvaError::BufferUnavailable(t)));
    assert_eq!(check_buffer_grant(t, 100, BufferGrant::Null), Err(DxvaError::BufferNull(t)));
    assert_eq!(check_buffer_grant(t, 100, BufferGrant::Granted(99)), Err(DxvaError::BufferTooSmall(t)));
    assert_eq!(check_buffer_grant(t, 100, BufferGrant::Granted(100)), Ok(()));
    assert_eq!(check_buffer_release(t, true), Ok(()));
    assert_eq!(check_buffer_release(t, false), Err(DxvaError::BufferReleaseFailed(t)));
}

#[test]
fn failed_steps_give_submission_errors() {
    assert_eq!(FrameSubmission::failure(SubmitStep::BeginFrame), DxvaError::BeginFrameFailed);
    assert_eq!(
        FrameSubmission::failure(SubmitStep::Buffer(DxvaBufferType::SliceControl)),
        DxvaError::BufferUnavailable(DxvaBufferType::SliceControl)
    );
    assert_eq!(FrameSubmission::failure(SubmitStep::SubmitBuffers), DxvaError::SubmitBuffersFailed);
    assert_eq!(FrameSubmission::failure(SubmitStep::EndFrame), DxvaError::EndFrameFailed);
}
