//! The process-memory pattern scanner: occurrence sets, region
//! boundaries, and absolute addressing.

use dbgcore::scanner::scan_offsets;
use dbgcore::scanner::scan_region;

#[test]
fn finds_every_occurrence_in_order() {
    let data = vec![1u8, 2, 3, 1, 2, 1, 2];
    let pattern = vec![1u8, 2];
    assert_eq!(scan_offsets(&data, &pattern), vec![0, 3, 5]);
}

#[test]
fn never_reports_a_match_past_the_region_end() {
    // the trailing 5 alone cannot start a full match
    let data = vec![9u8, 9, 5];
    let pattern = vec![5u8, 7];
    assert_eq!(scan_offsets(&data, &pattern), Vec::<usize>::new());
}

#[test]
fn pattern_equal_to_region_prefix_reports_region_start() {
    let data = vec![7u8, 8, 9];
    let pattern = vec![7u8, 8];
    assert_eq!(scan_offsets(&data, &pattern), vec![0]);
    assert_eq!(scan_region(&data, &pattern, 0x1000), vec![0x1000]);
}

#[test]
fn pattern_equal_to_whole_region_matches_once() {
    let data = vec![4u8, 5, 6];
    let pattern = vec![4u8, 5, 6];
    assert_eq!(scan_offsets(&data, &pattern), vec![0]);
}

#[test]
fn empty_pattern_matches_at_every_offset() {
    let data = vec![1u8, 2, 3];
    let pattern: Vec<u8> = Vec::new();
    assert_eq!(scan_offsets(&data, &pattern), vec![0, 1, 2]);
}

#[test]
fn empty_region_has_no_matches() {
    let data: Vec<u8> = Vec::new();
    let pattern = vec![1u8];
    assert_eq!(scan_offsets(&data, &pattern), Vec::<usize>::new());
}

#[test]
fn absolute_addresses_carry_the_region_base() {
    let data = vec![0u8, 0xde, 0xad, 0xde, 0xad];
    let pattern = vec![0xdeu8, 0xad];
    assert_eq!(scan_region(&data, &pattern, 0x7f00_0000), vec![0x7f00_0001, 0x7f00_0003]);
}
