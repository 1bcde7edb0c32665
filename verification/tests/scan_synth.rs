use memflex::scan::{find_pattern, RemoteScan};
use memflex::synth::synthesize;
use memflex::{DynPattern, Matcher, Pattern};

#[test]
fn test_find_pattern_offsets() {
    let data = [1u8, 2, 1, 2, 1];
    let pat = Pattern::<2>::from_ida_style("01 02");
    assert_eq!(find_pattern(&pat, &data), vec![0, 2]);
}

#[test]
fn test_find_pattern_overlapping() {
    let data = [0u8, 0, 0];
    let pat = Pattern::<2>::from_ida_style("00 00");
    assert_eq!(find_pattern(&pat, &data), vec![0, 1]);
}

#[test]
fn test_find_pattern_single_window() {
    // A pattern exactly as long as the range: one window, offset zero.
    let data = [9u8, 8, 7];
    let hit = DynPattern::from_bytes(&[9, 8, 7]).unwrap();
    assert_eq!(find_pattern(&hit, &data), vec![0]);
    let miss = DynPattern::from_bytes(&[9, 8, 6]).unwrap();
    assert_eq!(find_pattern(&miss, &data), Vec::<usize>::new());
}

#[test]
fn test_find_pattern_longer_than_range() {
    let data = [1u8, 2];
    let pat = DynPattern::from_bytes(&[1, 2, 3]).unwrap();
    assert_eq!(find_pattern(&pat, &data), Vec::<usize>::new());
}

#[test]
fn test_find_pattern_with_wildcards() {
    let data = [0x10u8, 0x20, 0x30, 0x10, 0x21, 0x30];
    let pat = Pattern::<3>::from_ida_style("10 ? 30");
    assert_eq!(find_pattern(&pat, &data), vec![0, 3]);
}

#[test]
fn test_synthesize_scenario_distinct_tail() {
    // Target at the second 0xAA (index 3): its three bytes AA BB DD differ
    // from AA BB CC at index 0, so a three-byte signature already works.
    let data = [0xAAu8, 0xBB, 0xCC, 0xAA, 0xBB, 0xDD];
    let pat = synthesize(&data, 3, 16).unwrap();
    assert_eq!(pat.size(), 3);
    assert!(pat.matches(&data[3..6]));
    assert_eq!(find_pattern(&pat, &data), vec![3]);
}

#[test]
fn test_synthesize_gives_up_below_needed_size() {
    // Two windows identical for ten bytes; with the bound at five no
    // candidate can tell the two locations apart.
    let mut data = [0u8; 20];
    for i in 0..10 {
        data[i] = i as u8 + 1;
        data[i + 10] = i as u8 + 1;
    }
    assert!(synthesize(&data, 0, 5).is_none());
}

#[test]
fn test_synthesize_grows_until_unique() {
    // The first three bytes at the target reappear earlier; four bytes are
    // needed, and the synthesizer settles on exactly four.
    let data = [0x01u8, 0x02, 0x03, 0x09, 0x01, 0x02, 0x03, 0x04];
    let pat = synthesize(&data, 4, 16).unwrap();
    assert_eq!(pat.size(), 4);
    assert_eq!(find_pattern(&pat, &data), vec![4]);
}

#[test]
fn test_synthesize_target_too_close_to_end() {
    let data = [1u8, 2, 3, 4];
    // Only two bytes remain after the target: no three-byte candidate fits.
    assert!(synthesize(&data, 2, 16).is_none());
}

#[test]
fn test_synthesize_result_is_all_exact() {
    let data = [7u8, 1, 2, 3, 7, 7, 7, 9, 5, 6];
    let pat = synthesize(&data, 1, 16).unwrap();
    let mask = pat.to_code_style().1;
    assert!(mask.chars().all(|c| c == 'x'));
}

#[test]
fn test_remote_scan_agrees_with_buffer_scan() {
    let data = [1u8, 2, 1, 2, 1, 9];
    let pat = Pattern::<2>::from_ida_style("01 02");
    let base = 0x1000usize;

    let mut scan = RemoteScan::new(pat, base, data.len());
    let mut found = Vec::new();
    while let Some((addr, len)) = scan.next_read() {
        let off = addr - base;
        let window = &data[off..off + len];
        if let Some(hit) = scan.feed(window) {
            found.push(hit - base);
        }
    }
    let pat2 = Pattern::<2>::from_ida_style("01 02");
    assert_eq!(found, find_pattern(&pat2, &data));
}

#[test]
fn test_remote_scan_abort_stops() {
    let pat = Pattern::<2>::from_ida_style("01 02");
    let mut scan = RemoteScan::new(pat, 0, 100);
    assert!(scan.next_read().is_some());
    scan.abort();
    assert!(scan.next_read().is_none());
}
