use byteview::hex::{format_bytes, hex_char};

#[test]
fn formats_bytes_in_brackets() {
    assert_eq!(format_bytes(&vec![0x04, 0x03, 0x02, 0x01]), "[04, 03, 02, 01]");
    assert_eq!(format_bytes(&vec![0xFF]), "[FF]");
    assert_eq!(format_bytes(&vec![0x00]), "[00]");
    assert_eq!(format_bytes(&vec![0xAB, 0xCD]), "[AB, CD]");
    assert_eq!(format_bytes(&vec![0x0A, 0xA0]), "[0A, A0]");
}

#[test]
fn formats_no_bytes_as_empty_brackets() {
    assert_eq!(format_bytes(&Vec::new()), "[]");
}

#[test]
fn digits_are_upper_case() {
    let digits: String = (0u8..16).map(hex_char).collect();
    assert_eq!(digits, "0123456789ABCDEF");
}

#[test]
fn agrees_with_hexadecimal_debug_formatting() {
    for len in 0usize..20 {
        let bytes: Vec<u8> = (0..len).map(|i| (i * 37 + len * 11) as u8).collect();
        assert_eq!(format_bytes(&bytes), format!("{:02X?}", bytes));
    }
    let every: Vec<u8> = (0u8..=255).collect();
    assert_eq!(format_bytes(&every), format!("{:02X?}", every));
}
