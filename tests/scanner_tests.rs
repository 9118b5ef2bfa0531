use mugen_autosplitter::scanner::scan;

#[test]
fn scan_finds_leftmost_occurrence() {
    let hay = [1u8, 2, 3, 1, 2, 3];
    assert_eq!(scan(&[Some(2), Some(3)], &hay), Some(1));
}

#[test]
fn scan_wildcard_matches_any_byte() {
    let hay = [9u8, 7, 0x60, 5, 0x60];
    assert_eq!(scan(&[None, Some(0x60)], &hay), Some(1));
    assert_eq!(scan(&[Some(5), None], &hay), Some(3));
}

#[test]
fn scan_absent_pattern() {
    let hay = [1u8, 2, 3];
    assert_eq!(scan(&[Some(3), Some(1)], &hay), None);
}

#[test]
fn scan_pattern_longer_than_haystack() {
    let hay = [1u8, 2];
    assert_eq!(scan(&[Some(1), Some(2), Some(3)], &hay), None);
    assert_eq!(scan(&[Some(1)], &[]), None);
}

#[test]
fn scan_empty_pattern_matches_at_start() {
    let hay = [4u8, 5];
    assert_eq!(scan(&[], &hay), Some(0));
    assert_eq!(scan(&[], &[]), Some(0));
}

#[test]
fn scan_match_at_very_end() {
    let hay = [0u8, 0, 0x89, 0x43];
    assert_eq!(scan(&[Some(0x89), Some(0x43)], &hay), Some(2));
}
