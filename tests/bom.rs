use pitufo::bom_check;

#[test]
fn should_remove_bom_utf8() {
    let content: Vec<u8> = vec![239, 187, 191, 1];
    let result = bom_check(&content, true);

    assert_eq!(vec![1], result);
}

#[test]
fn should_not_remove_bom_utf8() {
    let content: Vec<u8> = vec![239, 187, 191, 1];
    let result = bom_check(&content, false);

    assert_eq!(vec![239, 187, 191, 1], result);
}

#[test]
fn should_remove_bom_utf16le() {
    let content: Vec<u8> = vec![255, 254, 1];
    let result = bom_check(&content, true);

    assert_eq!(vec![1], result);
}

#[test]
fn should_not_remove_bom_utf16le() {
    let content: Vec<u8> = vec![255, 254, 1];
    let result = bom_check(&content, false);

    assert_eq!(vec![255, 254, 1], result);
}

#[test]
fn should_remove_bom_utf16be() {
    let content: Vec<u8> = vec![254, 255, 1];
    let result = bom_check(&content, true);

    assert_eq!(vec![1], result);
}

#[test]
fn should_not_remove_bom_utf16lbe() {
    let content: Vec<u8> = vec![254, 255, 1];
    let result = bom_check(&content, false);

    assert_eq!(vec![254, 255, 1], result);
}

#[test]
fn utf8_marker_before_digit_leaves_one_byte() {
    let content: Vec<u8> = vec![0xEF, 0xBB, 0xBF, 0x31];
    assert_eq!(bom_check(&content, true), &[0x31u8][..]);
    assert_eq!(bom_check(&content, false), &[0xEFu8, 0xBB, 0xBF, 0x31][..]);
}

#[test]
fn utf16_markers_before_digit_leave_one_byte() {
    let le: Vec<u8> = vec![0xFF, 0xFE, 0x31];
    let be: Vec<u8> = vec![0xFE, 0xFF, 0x31];
    assert_eq!(bom_check(&le, true), &[0x31u8][..]);
    assert_eq!(bom_check(&be, true), &[0x31u8][..]);
}

#[test]
fn partial_or_absent_marker_is_kept() {
    let short: Vec<u8> = vec![0xEF, 0xBB];
    assert_eq!(bom_check(&short, true), &[0xEFu8, 0xBB][..]);
    let lone: Vec<u8> = vec![0xFF];
    assert_eq!(bom_check(&lone, true), &[0xFFu8][..]);
    let plain: Vec<u8> = b"{}".to_vec();
    assert_eq!(bom_check(&plain, true), b"{}");
    let empty: Vec<u8> = Vec::new();
    assert!(bom_check(&empty, true).is_empty());
}

#[test]
fn only_one_marker_is_stripped() {
    let twice: Vec<u8> = vec![0xEF, 0xBB, 0xBF, 0xEF, 0xBB, 0xBF];
    assert_eq!(bom_check(&twice, true), &[0xEFu8, 0xBB, 0xBF][..]);
    let exact: Vec<u8> = vec![0xFE, 0xFF];
    assert!(bom_check(&exact, true).is_empty());
}
