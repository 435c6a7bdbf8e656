use alphaview::encoding::{encode_preview, jpeg_data_url, rgb_buffer_size};

#[test]
fn data_url_of_known_bytes() {
    assert_eq!(jpeg_data_url(b""), "data:image/jpeg;base64,");
    assert_eq!(jpeg_data_url(b"hello"), "data:image/jpeg;base64,aGVsbG8=");
    assert_eq!(jpeg_data_url(b"hel"), "data:image/jpeg;base64,aGVs");
}

#[test]
fn data_url_length() {
    for n in 0..10usize {
        let bytes = vec![7u8; n];
        assert_eq!(jpeg_data_url(&bytes).len(), 23 + 4 * ((n + 2) / 3));
    }
}

#[test]
fn buffer_size_checks() {
    assert_eq!(rgb_buffer_size(2, 3, 18), Some(18));
    assert_eq!(rgb_buffer_size(2, 3, 20), Some(18));
    assert_eq!(rgb_buffer_size(2, 3, 17), None);
    assert_eq!(rgb_buffer_size(0, 0, 0), Some(0));
    assert_eq!(rgb_buffer_size(u32::MAX, u32::MAX, usize::MAX), None);
}

#[test]
fn short_buffer_fails() {
    assert_eq!(encode_preview(4, 4, vec![0u8; 47]), Err("Failed to create image buffer".to_string()));
}

#[test]
fn preview_is_a_jpeg_data_url() {
    let mut pixels = Vec::new();
    for i in 0..(8 * 8) {
        pixels.extend_from_slice(&[(i * 4) as u8, 128, 255 - (i * 4) as u8]);
    }
    let url = encode_preview(8, 8, pixels).expect("encodes");
    // A JPEG starts with FF D8 FF, which is "/9j/" in Base64.
    assert!(url.starts_with("data:image/jpeg;base64,/9j/"));
}

#[test]
fn extra_pixel_bytes_are_ignored() {
    let pixels = vec![90u8; 4 * 2 * 3];
    let mut longer = pixels.clone();
    longer.extend_from_slice(&[1, 2, 3, 4]);
    assert_eq!(encode_preview(4, 2, pixels), encode_preview(4, 2, longer));
}

#[test]
fn empty_image_is_an_encoder_error() {
    let r = encode_preview(0, 0, Vec::new());
    match r {
        Err(m) => assert!(m.starts_with("JPEG encode failed: ")),
        Ok(_) => panic!("a 0x0 JPEG should not encode"),
    }
}

#[test]
fn jpeg_sides_above_65535_fail() {
    let r = encode_preview(65536, 1, vec![0u8; 65536 * 3]);
    match r {
        Err(m) => assert!(m.starts_with("JPEG encode failed: ")),
        Ok(_) => panic!("a side of 65536 should not encode"),
    }
}

#[test]
fn zero_height_with_wide_width_is_an_encoder_error() {
    let r = encode_preview(u32::MAX, 0, Vec::new());
    assert!(matches!(r, Err(ref m) if m.starts_with("JPEG encode failed: ")));
}

#[test]
fn data_url_uses_the_base64_alphabet() {
    let bytes: Vec<u8> = (0..=255u8).collect();
    let url = jpeg_data_url(&bytes);
    let body = &url["data:image/jpeg;base64,".len()..];
    assert!(body.chars().all(|c| c.is_ascii_alphanumeric() || c == '+' || c == '/' || c == '='));
}

#[test]
fn preview_url_body_is_padded_base64() {
    let url = encode_preview(3, 2, vec![200u8; 18]).expect("encodes");
    let body = &url[23..];
    assert_eq!(&url[..23], "data:image/jpeg;base64,");
    assert_eq!(body.len() % 4, 0);
    assert!(body.chars().all(|c| c.is_ascii_alphanumeric() || c == '+' || c == '/' || c == '='));
}
