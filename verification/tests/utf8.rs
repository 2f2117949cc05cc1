use network_ffi::encoding::is_valid_utf8;

fn agrees_with_std(bytes: Vec<u8>) -> bool {
    is_valid_utf8(&bytes) == std::str::from_utf8(&bytes).is_ok()
}

#[test]
fn empty_is_valid() {
    assert!(is_valid_utf8(&Vec::new()));
}

#[test]
fn ascii_address_is_valid() {
    let bytes = b"127.0.0.1:8080".to_vec();
    assert!(is_valid_utf8(&bytes));
    assert!(agrees_with_std(bytes));
}

#[test]
fn interior_nul_is_valid_text() {
    let bytes = vec![0x61, 0x00, 0x62];
    assert!(is_valid_utf8(&bytes));
    assert!(agrees_with_std(bytes));
}

#[test]
fn two_byte_sequence_is_valid() {
    let bytes = vec![0xC3, 0xA9];
    assert!(is_valid_utf8(&bytes));
    assert!(agrees_with_std(bytes));
}

#[test]
fn truncated_two_byte_sequence_is_invalid() {
    let bytes = vec![0x61, 0xC3];
    assert!(!is_valid_utf8(&bytes));
    assert!(agrees_with_std(bytes));
}

#[test]
fn overlong_two_byte_sequence_is_invalid() {
    let bytes = vec![0xC0, 0x80];
    assert!(!is_valid_utf8(&bytes));
    assert!(agrees_with_std(bytes));
}

#[test]
fn two_byte_lead_without_continuation_is_invalid() {
    let bytes = vec![0xC2, 0x20];
    assert!(!is_valid_utf8(&bytes));
    assert!(agrees_with_std(bytes));
}

#[test]
fn three_byte_sequence_is_valid() {
    let bytes = vec![0xE2, 0x82, 0xAC];
    assert!(is_valid_utf8(&bytes));
    assert!(agrees_with_std(bytes));
}

#[test]
fn truncated_three_byte_sequence_is_invalid() {
    let bytes = vec![0xE2, 0x82];
    assert!(!is_valid_utf8(&bytes));
    assert!(agrees_with_std(bytes));
}

#[test]
fn overlong_three_byte_sequence_is_invalid() {
    let bytes = vec![0xE0, 0x80, 0x80];
    assert!(!is_valid_utf8(&bytes));
    assert!(agrees_with_std(bytes));
}

#[test]
fn smallest_three_byte_sequence_is_valid() {
    let bytes = vec![0xE0, 0xA0, 0x80];
    assert!(is_valid_utf8(&bytes));
    assert!(agrees_with_std(bytes));
}

#[test]
fn encoded_surrogate_is_invalid() {
    let bytes = vec![0xED, 0xA0, 0x80];
    assert!(!is_valid_utf8(&bytes));
    assert!(agrees_with_std(bytes));
}

#[test]
fn last_scalar_before_surrogates_is_valid() {
    let bytes = vec![0xED, 0x9F, 0xBF];
    assert!(is_valid_utf8(&bytes));
    assert!(agrees_with_std(bytes));
}

#[test]
fn four_byte_sequence_is_valid() {
    let bytes = vec![0xF0, 0x9F, 0x98, 0x80];
    assert!(is_valid_utf8(&bytes));
    assert!(agrees_with_std(bytes));
}

#[test]
fn overlong_four_byte_sequence_is_invalid() {
    let bytes = vec![0xF0, 0x80, 0x80, 0x80];
    assert!(!is_valid_utf8(&bytes));
    assert!(agrees_with_std(bytes));
}

#[test]
fn largest_scalar_is_valid() {
    let bytes = vec![0xF4, 0x8F, 0xBF, 0xBF];
    assert!(is_valid_utf8(&bytes));
    assert!(agrees_with_std(bytes));
}

#[test]
fn beyond_largest_scalar_is_invalid() {
    let bytes = vec![0xF4, 0x90, 0x80, 0x80];
    assert!(!is_valid_utf8(&bytes));
    assert!(agrees_with_std(bytes));
}

#[test]
fn invalid_lead_bytes_are_rejected() {
    for lead in [0x80u8, 0xBF, 0xC1, 0xF5, 0xFE, 0xFF] {
        let bytes = vec![lead, 0x80, 0x80, 0x80];
        assert!(!is_valid_utf8(&bytes));
        assert!(agrees_with_std(bytes));
    }
}

#[test]
fn mixed_text_is_valid() {
    let bytes = "localhost:53 \u{e9}\u{20ac}\u{1f600}".as_bytes().to_vec();
    assert!(is_valid_utf8(&bytes));
    assert!(agrees_with_std(bytes));
}

#[test]
fn validity_agrees_with_std_on_all_two_byte_inputs() {
    for a in 0..=255u8 {
        for b in 0..=255u8 {
            assert!(agrees_with_std(vec![a, b]), "disagrees on [{a:#x}, {b:#x}]");
        }
    }
}
