use katatsuki::cover::{cover_size, measure};

const PNG_123_321: [u8; 32] = [
    0x89, 0x50, 0x4E, 0x47, 0x0D, 0x0A, 0x1A, 0x0A, 0x00, 0x00, 0x00, 0x0D, 0x49, 0x48, 0x44, 0x52,
    0x00, 0x00, 0x00, 0x7B, 0x00, 0x00, 0x01, 0x41, 0x08, 0x06, 0x00, 0x00, 0x00, 0x9A, 0x38, 0xC4,
];

#[test]
fn png_header_is_measured() {
    assert_eq!(measure(&PNG_123_321), Some((123, 321)));
}

#[test]
fn jpeg_header_is_measured() {
    let mut data = vec![0xFF, 0xD8, 0xFF, 0xE0, 0x00, 0x10];
    data.extend_from_slice(&[0u8; 14]);
    data.extend_from_slice(&[0xFF, 0xC0, 0x00, 0x11, 0x08, 0x00, 0x64, 0x00, 0xC8]);
    assert_eq!(measure(&data), Some((200, 100)));
}

#[test]
fn gif_header_is_measured() {
    let data = b"GIF89a\x40\x01\xF0\x00\x00\x00";
    assert_eq!(measure(data), Some((320, 240)));
}

#[test]
fn unknown_header_is_not_measured() {
    let data = [
        0x89, 0x89, 0x89, 0x89, 0x0D, 0x0A, 0x1A, 0x0A, 0x00, 0x00, 0x00, 0x0D, 0x49, 0x48, 0x44,
        0x52, 0x00, 0x00, 0x00, 0x7B, 0x01, 0x00, 0x01, 0x41, 0x08, 0x06, 0x00, 0x00, 0x00, 0x9A,
        0x38, 0xC4,
    ];
    assert_eq!(measure(&data), None);
}

#[test]
fn short_data_is_not_measured() {
    assert_eq!(measure(&[]), None);
    assert_eq!(measure(&PNG_123_321[..11]), None);
    assert_eq!(measure(&PNG_123_321[..16]), None);
}

#[test]
fn heif_without_boxes_is_not_measured() {
    let data = b"\x00\x00\x00\x0Cftypheic";
    assert_eq!(measure(data), None);
}

#[test]
fn heif_with_large_item_is_measured() {
    if usize::BITS < 64 {
        return;
    }
    let mut data = Vec::new();
    data.extend_from_slice(b"\x00\x00\x00\x0Cftypheic");
    data.extend_from_slice(b"\x00\x00\x00\x40meta\x00\x00\x00\x00");
    data.extend_from_slice(b"\x00\x00\x00\x34iprp");
    data.extend_from_slice(b"\x00\x00\x00\x2Cipco");
    data.extend_from_slice(b"\x00\x00\x00\x14ispe\x00\x00\x00\x00\xFF\xFF\xFF\xFF\xFF\xFF\xFF\xFE");
    assert_eq!(measure(&data), Some((0xFFFF_FFFF, 0xFFFF_FFFE)));
}

#[test]
fn measured_size_is_stored() {
    assert_eq!(cover_size(Some((123, 321))), (123, 321));
    assert_eq!(cover_size(Some((0, 0))), (0, 0));
    assert_eq!(cover_size(Some((i32::MAX as usize, 1))), (i32::MAX, 1));
}

#[test]
fn nothing_measured_is_zero() {
    assert_eq!(cover_size(None), (0, 0));
}

#[test]
fn stored_size_is_cut_to_32_bits() {
    assert_eq!(cover_size(Some((1usize << 31, usize::MAX))), (i32::MIN, -1));
}
