use opennow_streamer::media::dpb::DpbEntry;
use opennow_streamer::media::dxva_decoder::{
    DxvaCodec, DxvaDecoder, DxvaDecoderConfig, DxvaOutputFormat, DxvaProfile, DPB_MAX_SIZE,
};

fn config(surface_count: u32) -> DxvaDecoderConfig {
    DxvaDecoderConfig { codec: DxvaCodec::HEVC, width: 1920, height: 1080, is_hdr: false, surface_count }
}

fn decoder_with(surface_count: u32) -> DxvaDecoder {
    DxvaDecoder::new(config(surface_count)).expect("a pool with surfaces")
}

fn surfaces(decoder: &DxvaDecoder) -> Vec<u8> {
    decoder.dpb().iter().map(|e| e.surface_index).collect()
}

#[test]
fn default_config_is_hevc_1080p_with_25_surfaces() {
    let c = DxvaDecoderConfig::default();
    assert_eq!(c.codec, DxvaCodec::HEVC);
    assert_eq!(c.width, 1920);
    assert_eq!(c.height, 1080);
    assert!(!c.is_hdr);
    assert_eq!(c.surface_count, 25);
}

#[test]
fn default_dpb_entry_is_zero() {
    let e = DpbEntry::default();
    assert_eq!(e.surface_index, 0);
    assert_eq!(e.poc, 0);
    assert!(!e.is_reference);
    assert!(!e.is_long_term);
    assert_eq!(e.frame_num, 0);
}

#[test]
fn a_pool_without_surfaces_is_refused() {
    assert!(DxvaDecoder::new(config(0)).is_none());
}

#[test]
fn new_decoder_starts_empty() {
    let decoder = decoder_with(25);
    assert!(!decoder.is_initialized());
    assert_eq!(decoder.current_surface(), 0);
    assert_eq!(decoder.frame_count(), 0);
    assert_eq!(decoder.poc_history(), (0, 0));
    assert!(decoder.dpb().is_empty());
    assert_eq!(decoder.config().surface_count, 25);
    assert_eq!(decoder.output_format(), DxvaOutputFormat::Nv12);
    assert_eq!(decoder.profile(), DxvaProfile::HevcVldMain);
}

#[test]
fn format_and_profile_follow_codec_and_hdr() {
    let mut c = config(4);
    assert_eq!(
        DxvaDecoder::get_format_and_profile(&c),
        (DxvaOutputFormat::Nv12, DxvaProfile::HevcVldMain)
    );
    c.is_hdr = true;
    assert_eq!(
        DxvaDecoder::get_format_and_profile(&c),
        (DxvaOutputFormat::P010, DxvaProfile::HevcVldMain10)
    );
    c.codec = DxvaCodec::H264;
    assert_eq!(
        DxvaDecoder::get_format_and_profile(&c),
        (DxvaOutputFormat::P010, DxvaProfile::H264VldNoFgt)
    );
}

#[test]
fn profile_identifiers_are_those_of_the_interface() {
    assert_eq!(DxvaProfile::H264VldNoFgt.guid(), 0x1b81be68_a0c7_11d3_b984_00c04f2e73c5);
    assert_eq!(DxvaProfile::HevcVldMain.guid(), 0x5b11d51b_2f4c_4452_bcc3_09f2a1160cc0);
    assert_eq!(DxvaProfile::HevcVldMain10.guid(), 0x107af0e0_ef1a_4d19_aba8_67a163073d13);
}

#[test]
fn first_surface_of_a_fresh_decoder_is_zero() {
    let mut decoder = decoder_with(25);
    assert_eq!(decoder.get_next_surface(), 0);
    assert_eq!(decoder.current_surface(), 1);
}

#[test]
fn surfaces_are_handed_out_round_robin() {
    let mut decoder = decoder_with(3);
    assert_eq!(decoder.get_next_surface(), 0);
    assert_eq!(decoder.get_next_surface(), 1);
    assert_eq!(decoder.get_next_surface(), 2);
    assert_eq!(decoder.get_next_surface(), 0);
}

#[test]
fn next_surface_skips_surfaces_in_the_dpb() {
    let mut decoder = decoder_with(4);
    decoder.update_dpb(0, 0, true, true);
    decoder.update_dpb(1, 1, true, false);
    // The cursor still stands at 0; surfaces 0 and 1 hold references.
    assert_eq!(decoder.get_next_surface(), 2);
    assert_eq!(decoder.current_surface(), 3);
    assert_eq!(surfaces(&decoder), vec![0, 1]);
}

#[test]
fn poc_wraps_upward_with_max_poc_lsb_256() {
    // LSB sequence [0 (IDR), 4, 8, ..., 252, 0, 4] gives [0, 4, ..., 252, 256, 260].
    let mut decoder = decoder_with(4);
    let mut lsbs: Vec<i32> = (0..64).map(|i| i * 4).collect();
    lsbs.push(0);
    lsbs.push(4);
    let mut expected: Vec<i32> = (0..64).map(|i| i * 4).collect();
    expected.push(256);
    expected.push(260);
    let mut got = Vec::new();
    for (i, lsb) in lsbs.iter().enumerate() {
        got.push(decoder.calculate_full_poc(*lsb, i == 0, 256));
    }
    assert_eq!(got, expected);
    assert_eq!(decoder.poc_history(), (4, 256));
}

#[test]
fn poc_wraps_twice() {
    let mut decoder = decoder_with(4);
    assert_eq!(decoder.calculate_full_poc(0, true, 16), 0);
    let mut poc = 0;
    for step in 1..=40 {
        let lsb = (step * 4) % 16;
        poc = decoder.calculate_full_poc(lsb, false, 16);
        assert_eq!(poc, step * 4);
    }
    assert_eq!(poc, 160);
}

#[test]
fn poc_wraps_downward() {
    let mut decoder = decoder_with(4);
    assert_eq!(decoder.calculate_full_poc(0, true, 256), 0);
    assert_eq!(decoder.calculate_full_poc(4, false, 256), 4);
    // 252 lies more than half the range above 4: the count went down past zero.
    assert_eq!(decoder.calculate_full_poc(252, false, 256), -4);
    assert_eq!(decoder.poc_history(), (252, -256));
}

#[test]
fn poc_half_range_boundaries() {
    // A drop of exactly half the range counts as a wrap upward.
    let mut decoder = decoder_with(4);
    decoder.calculate_full_poc(0, true, 256);
    assert_eq!(decoder.calculate_full_poc(200, false, 256), -56);
    let mut decoder = decoder_with(4);
    decoder.calculate_full_poc(0, true, 256);
    assert_eq!(decoder.calculate_full_poc(128, false, 256), 128);
    assert_eq!(decoder.calculate_full_poc(0, false, 256), 256);
    // A rise of exactly half the range is no wrap; one more is.
    let mut decoder = decoder_with(4);
    decoder.calculate_full_poc(0, true, 256);
    assert_eq!(decoder.calculate_full_poc(129, false, 256), 129 - 256);
}

#[test]
fn idr_resets_poc_history() {
    let mut decoder = decoder_with(4);
    decoder.calculate_full_poc(0, true, 256);
    decoder.calculate_full_poc(200, false, 256);
    assert_eq!(decoder.calculate_full_poc(77, true, 256), 0);
    assert_eq!(decoder.poc_history(), (0, 0));
}

#[test]
fn poc_fits_tells_when_the_count_leaves_32_bits() {
    let max = 1 << 30;
    let top = max - 1;
    let mut decoder = decoder_with(4);
    decoder.calculate_full_poc(0, true, max);
    assert!(decoder.poc_fits(top, false, max));
    assert_eq!(decoder.calculate_full_poc(top, false, max), -1);
    assert_eq!(decoder.poc_history(), (top, -max));
    // Walk the low bits down without a wrap, then wrap downward once more.
    decoder.calculate_full_poc(1 << 29, false, max);
    decoder.calculate_full_poc(1, false, max);
    assert_eq!(decoder.poc_history(), (1, -max));
    assert!(decoder.poc_fits(top, false, max));
    assert_eq!(decoder.calculate_full_poc(top, false, max), i32::MIN + top);
    assert_eq!(decoder.poc_history(), (top, i32::MIN));
    decoder.calculate_full_poc(1 << 29, false, max);
    decoder.calculate_full_poc(1, false, max);
    // A third wrap downward would leave 32 bits; an IDR picture always fits.
    assert!(!decoder.poc_fits(top, false, max));
    assert!(decoder.poc_fits(top, true, max));
    assert!(decoder.poc_fits(2, false, max));
}

#[test]
fn dpb_never_exceeds_its_maximum() {
    let mut decoder = decoder_with(25);
    for i in 0..100u32 {
        let surface = decoder.get_next_surface();
        decoder.update_dpb(surface, i as i32, true, i == 0);
        assert!(decoder.dpb().len() <= DPB_MAX_SIZE);
    }
    assert_eq!(decoder.dpb().len(), DPB_MAX_SIZE);
    assert_eq!(decoder.frame_count(), 100);
    // The entries are the eighteen frames decoded last, oldest first.
    let frame_nums: Vec<u64> = decoder.dpb().iter().map(|e| e.frame_num).collect();
    assert_eq!(frame_nums, (83..=100).collect::<Vec<u64>>());
}

#[test]
fn dpb_surfaces_stay_unique() {
    let mut decoder = decoder_with(5);
    for i in 0..40u32 {
        let surface = decoder.get_next_surface();
        decoder.update_dpb(surface, i as i32, true, false);
        let mut seen = surfaces(&decoder);
        seen.sort();
        seen.dedup();
        assert_eq!(seen.len(), decoder.dpb().len());
    }
}

#[test]
fn idr_update_leaves_only_the_idr_frame() {
    let mut decoder = decoder_with(25);
    for i in 0..5u32 {
        decoder.update_dpb(i, i as i32 * 2, true, false);
    }
    decoder.calculate_full_poc(0, true, 256);
    decoder.calculate_full_poc(100, false, 256);
    assert_eq!(decoder.dpb().len(), 5);
    decoder.update_dpb(7, 0, true, true);
    assert_eq!(decoder.dpb().len(), 1);
    let entry = decoder.dpb()[0];
    assert_eq!(entry.surface_index, 7);
    assert_eq!(entry.poc, 0);
    assert!(entry.is_reference);
    assert!(!entry.is_long_term);
    assert_eq!(entry.frame_num, 6);
    assert_eq!(decoder.poc_history(), (0, 0));
}

#[test]
fn idr_update_of_a_non_reference_frame_empties_the_dpb() {
    let mut decoder = decoder_with(25);
    decoder.update_dpb(0, 0, true, false);
    decoder.update_dpb(1, 2, true, false);
    decoder.update_dpb(2, 0, false, true);
    assert!(decoder.dpb().is_empty());
}

#[test]
fn non_reference_frame_is_not_recorded() {
    let mut decoder = decoder_with(25);
    decoder.update_dpb(0, 0, true, true);
    decoder.update_dpb(1, 1, false, false);
    assert_eq!(surfaces(&decoder), vec![0]);
    assert_eq!(decoder.frame_count(), 2);
}

#[test]
fn reused_surface_replaces_its_old_entry() {
    let mut decoder = decoder_with(25);
    decoder.update_dpb(0, 0, true, true);
    decoder.update_dpb(1, 1, true, false);
    decoder.update_dpb(0, 2, true, false);
    assert_eq!(surfaces(&decoder), vec![1, 0]);
    assert_eq!(decoder.dpb()[1].poc, 2);
    assert_eq!(decoder.dpb()[1].frame_num, 3);
}

#[test]
fn exhausted_pool_evicts_the_first_dpb_entry() {
    // Fewer surfaces than the picture buffer holds: every surface ends up referenced.
    let mut decoder = decoder_with(3);
    for i in 0..3u32 {
        let surface = decoder.get_next_surface();
        assert_eq!(surface, i);
        decoder.update_dpb(surface, i as i32, true, i == 0);
    }
    assert_eq!(surfaces(&decoder), vec![0, 1, 2]);
    let cursor = decoder.current_surface();
    let surface = decoder.get_next_surface();
    // The surface of the first entry is handed out, and that entry is gone.
    assert_eq!(surface, 0);
    assert_eq!(surfaces(&decoder), vec![1, 2]);
    assert_eq!(decoder.current_surface(), cursor);
    assert!(!decoder.dpb().iter().any(|e| e.surface_index as u32 == surface));
}

#[test]
fn next_surface_is_never_in_the_dpb_afterwards() {
    for surface_count in 1..=6u32 {
        let mut decoder = decoder_with(surface_count);
        for i in 0..50u32 {
            let surface = decoder.get_next_surface();
            assert!(surface < surface_count);
            assert!(!decoder.dpb().iter().any(|e| e.surface_index as u32 == surface));
            decoder.update_dpb(surface, i as i32, i % 3 != 2, i % 17 == 0);
        }
    }
}

#[test]
fn the_first_entry_is_always_the_oldest_by_frame_number() {
    for surface_count in 1..=6u32 {
        let mut decoder = decoder_with(surface_count);
        for i in 0..60u32 {
            let surface = decoder.get_next_surface();
            decoder.update_dpb(surface, i as i32, i % 4 != 3, i % 23 == 0);
            if i % 7 == 6 && !decoder.dpb().is_empty() {
                // Reusing a surface that is still held drops its entry from the middle.
                let held = decoder.dpb()[decoder.dpb().len() / 2].surface_index as u32;
                decoder.update_dpb(held, i as i32, true, false);
            }
            let numbers: Vec<u64> = decoder.dpb().iter().map(|e| e.frame_num).collect();
            assert!(numbers.windows(2).all(|w| w[0] < w[1]), "{numbers:?}");
            assert!(numbers.iter().all(|n| *n <= decoder.frame_count()));
        }
    }
}

#[test]
fn clear_dpb_resets_references_history_and_counter() {
    let mut decoder = decoder_with(25);
    decoder.update_dpb(0, 0, true, true);
    decoder.update_dpb(1, 1, true, false);
    decoder.calculate_full_poc(0, true, 256);
    decoder.calculate_full_poc(250, false, 256);
    let cursor = decoder.current_surface();
    decoder.clear_dpb();
    assert!(decoder.dpb().is_empty());
    assert_eq!(decoder.poc_history(), (0, 0));
    assert_eq!(decoder.frame_count(), 0);
    assert_eq!(decoder.current_surface(), cursor);
}
