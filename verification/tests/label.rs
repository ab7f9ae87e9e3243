use rust_ffi_demo::label::check_label_bytes;
use rust_ffi_demo::label::has_no_nul;
use rust_ffi_demo::label::is_valid_utf8;
use rust_ffi_demo::label::terminated_copy;

#[test]
fn ascii_and_multibyte_text_is_accepted() {
    assert!(check_label_bytes(&b"hello".to_vec()));
    assert!(check_label_bytes(&Vec::new()));
    // Two-, three- and four-byte scalars.
    assert!(check_label_bytes(&"é".as_bytes().to_vec()));
    assert!(check_label_bytes(&"€".as_bytes().to_vec()));
    assert!(check_label_bytes(&"💖".as_bytes().to_vec()));
    assert!(check_label_bytes(&"caffè latte — ½ price".as_bytes().to_vec()));
}

#[test]
fn embedded_nul_is_rejected() {
    assert!(!check_label_bytes(&b"a\0b".to_vec()));
    assert!(!check_label_bytes(&vec![0u8]));
    assert!(!has_no_nul(&b"a\0b".to_vec()));
    assert!(has_no_nul(&b"ab".to_vec()));
}

#[test]
fn malformed_encodings_are_rejected() {
    // Stray continuation byte.
    assert!(!is_valid_utf8(&vec![0x80]));
    // Truncated two- and three-byte forms.
    assert!(!is_valid_utf8(&vec![0xc3]));
    assert!(!is_valid_utf8(&vec![0xe2, 0x82]));
    // Overlong encodings of '/' and NUL.
    assert!(!is_valid_utf8(&vec![0xc0, 0xaf]));
    assert!(!is_valid_utf8(&vec![0xe0, 0x80, 0x80]));
    // A surrogate half.
    assert!(!is_valid_utf8(&vec![0xed, 0xa0, 0x80]));
    // Beyond the last scalar, and an impossible lead byte.
    assert!(!is_valid_utf8(&vec![0xf4, 0x90, 0x80, 0x80]));
    assert!(!is_valid_utf8(&vec![0xf8, 0x88, 0x80, 0x80, 0x80]));
    // A bad tail after a good head.
    assert!(!is_valid_utf8(&vec![b'o', b'k', 0xc3, 0x28]));
}

#[test]
fn boundary_scalars_are_accepted() {
    // Smallest and largest encodings of each width.
    assert!(is_valid_utf8(&vec![0x7f]));
    assert!(is_valid_utf8(&vec![0xc2, 0x80]));
    assert!(is_valid_utf8(&vec![0xdf, 0xbf]));
    assert!(is_valid_utf8(&vec![0xe0, 0xa0, 0x80]));
    assert!(is_valid_utf8(&vec![0xed, 0x9f, 0xbf]));
    assert!(is_valid_utf8(&vec![0xee, 0x80, 0x80]));
    assert!(is_valid_utf8(&vec![0xef, 0xbf, 0xbf]));
    assert!(is_valid_utf8(&vec![0xf0, 0x90, 0x80, 0x80]));
    assert!(is_valid_utf8(&vec![0xf4, 0x8f, 0xbf, 0xbf]));
}

#[test]
fn terminated_copy_appends_exactly_one_nul() {
    assert_eq!(terminated_copy(&b"abc".to_vec()), b"abc\0".to_vec());
    assert_eq!(terminated_copy(&Vec::new()), vec![0u8]);
}
