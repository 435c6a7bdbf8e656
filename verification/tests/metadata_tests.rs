use alphaview::encoding::jpeg_data_url;
use alphaview::metadata::{
    header_read_limit, inspect_header, locate_thumbnail, raw_info_from_fields, read_exif_fields,
    ExifFields, ThumbnailSource, HEADER_READ_LIMIT, THUMBNAIL_MAX_BYTES,
};

fn put16(b: &mut Vec<u8>, v: u16) {
    b.extend_from_slice(&v.to_le_bytes());
}

fn put32(b: &mut Vec<u8>, v: u32) {
    b.extend_from_slice(&v.to_le_bytes());
}

fn entry(b: &mut Vec<u8>, tag: u16, typ: u16, count: u32, value: u32) {
    put16(b, tag);
    put16(b, typ);
    put32(b, count);
    put32(b, value);
}

/// A little-endian TIFF header as a Sony RAW file starts: make, model, an
/// embedded thumbnail and an Exif IFD with exposure, ISO and dimensions.
fn tiff_header(thumb_offset: u32, thumb_len: u32) -> Vec<u8> {
    let mut b = Vec::new();
    b.extend_from_slice(b"II");
    put16(&mut b, 42);
    put32(&mut b, 8);
    put16(&mut b, 5);
    entry(&mut b, 0x010f, 2, 5, 74);
    entry(&mut b, 0x0110, 2, 10, 80);
    entry(&mut b, 0x0201, 4, 1, thumb_offset);
    entry(&mut b, 0x0202, 4, 1, thumb_len);
    entry(&mut b, 0x8769, 4, 1, 90);
    put32(&mut b, 0);
    assert_eq!(b.len(), 74);
    b.extend_from_slice(b"SONY\0\0");
    b.extend_from_slice(b"ILCE-7RM4\0");
    assert_eq!(b.len(), 90);
    put16(&mut b, 4);
    entry(&mut b, 0x829a, 5, 1, 144);
    entry(&mut b, 0x8827, 3, 1, 100);
    entry(&mut b, 0xa002, 4, 1, 7008);
    entry(&mut b, 0xa003, 4, 1, 4672);
    put32(&mut b, 0);
    assert_eq!(b.len(), 144);
    put32(&mut b, 1);
    put32(&mut b, 250);
    b.extend_from_slice(&[0xff, 0xd8, 0xff, 0xd9]);
    b
}

#[test]
fn header_limit_is_256_kib_or_the_file() {
    assert_eq!(HEADER_READ_LIMIT, 262144);
    assert_eq!(header_read_limit(0), 0);
    assert_eq!(header_read_limit(1000), 1000);
    assert_eq!(header_read_limit(262144), 262144);
    assert_eq!(header_read_limit(60_000_000), 262144);
}

#[test]
fn thumbnail_inside_header() {
    match locate_thumbnail(Some(100), Some(50), 200) {
        ThumbnailSource::InHeader { start, end } => assert_eq!((start, end), (100, 150)),
        other => panic!("unexpected {:?}", other),
    }
    match locate_thumbnail(Some(150), Some(50), 200) {
        ThumbnailSource::InHeader { start, end } => assert_eq!((start, end), (150, 200)),
        other => panic!("unexpected {:?}", other),
    }
}

#[test]
fn thumbnail_past_header_is_read_from_file() {
    match locate_thumbnail(Some(151), Some(50), 200) {
        ThumbnailSource::InFile { offset, length } => assert_eq!((offset, length), (151, 50)),
        other => panic!("unexpected {:?}", other),
    }
    match locate_thumbnail(Some(u32::MAX), Some(THUMBNAIL_MAX_BYTES), 262144) {
        ThumbnailSource::InFile { offset, length } => assert_eq!((offset, length), (u32::MAX as u64, 524288)),
        other => panic!("unexpected {:?}", other),
    }
}

#[test]
fn oversized_or_missing_thumbnail_is_skipped() {
    assert!(matches!(locate_thumbnail(Some(0), Some(524289), 262144), ThumbnailSource::Missing));
    assert!(matches!(locate_thumbnail(None, Some(10), 262144), ThumbnailSource::Missing));
    assert!(matches!(locate_thumbnail(Some(10), None, 262144), ThumbnailSource::Missing));
    assert!(matches!(locate_thumbnail(Some(0), Some(524288), 600000), ThumbnailSource::InHeader { start: 0, end: 524288 }));
}

#[test]
fn fields_are_read_from_a_tiff_header() {
    let header = tiff_header(152, 4);
    let f = read_exif_fields(&header).expect("header parses");
    assert_eq!(f.make.as_deref(), Some("\"SONY\""));
    assert_eq!(f.model.as_deref(), Some("\"ILCE-7RM4\""));
    assert_eq!(f.pixel_x_dimension, Some(7008));
    assert_eq!(f.pixel_y_dimension, Some(4672));
    assert_eq!(f.photographic_sensitivity.as_deref(), Some("100"));
    assert_eq!(f.iso_speed, None);
    assert_eq!(f.exposure_time.as_deref(), Some("1/250 s"));
    assert_eq!(f.f_number, None);
    assert_eq!(f.thumbnail_offset, Some(152));
    assert_eq!(f.thumbnail_length, Some(4));
}

#[test]
fn unreadable_header_is_an_error() {
    assert!(read_exif_fields(&[0u8; 64]).is_err());
    assert!(read_exif_fields(&[]).is_err());
    assert!(inspect_header(b"not an image at all", 19).is_err());
}

#[test]
fn header_gives_panel_and_thumbnail() {
    let header = tiff_header(152, 4);
    let report = inspect_header(&header, 61_000_000).expect("header parses");
    let info = report.info;
    assert_eq!(info.make, "SONY");
    assert_eq!(info.model, "ILCE-7RM4");
    assert_eq!(info.clean_make, "SONY");
    assert_eq!(info.clean_model, "ILCE-7RM4");
    assert_eq!((info.width, info.height), (7008, 4672));
    assert_eq!(info.iso.as_deref(), Some("100"));
    assert_eq!(info.shutter_speed.as_deref(), Some("1/250 s"));
    assert_eq!(info.aperture, None);
    assert_eq!(info.lens_model, None);
    assert_eq!(info.file_size_bytes, 61_000_000);
    assert_eq!(info.thumbnail_base64.as_deref(), Some("data:image/jpeg;base64,/9j/2Q=="));
    assert!(report.thumbnail_in_file.is_none());
}

#[test]
fn thumbnail_past_header_is_left_to_caller() {
    let header = tiff_header(1000, 4000);
    let report = inspect_header(&header, 5000).expect("header parses");
    assert_eq!(report.info.thumbnail_base64, None);
    assert_eq!(report.thumbnail_in_file, Some((1000, 4000)));
    assert_eq!(jpeg_data_url(&[0xff, 0xd8]), "data:image/jpeg;base64,/9g=");
}

#[test]
fn oversized_thumbnail_is_not_read() {
    let header = tiff_header(0, 600_000);
    let report = inspect_header(&header, 5000).expect("header parses");
    assert_eq!(report.info.thumbnail_base64, None);
    assert_eq!(report.thumbnail_in_file, None);
}

fn fields() -> ExifFields {
    ExifFields {
        make: None,
        model: Some("\"ILCE-7M3\"".to_string()),
        pixel_x_dimension: None,
        pixel_y_dimension: Some(4000),
        photographic_sensitivity: None,
        iso_speed: Some("\"6400\"".to_string()),
        exposure_time: Some("1/60 s".to_string()),
        f_number: Some("f/2.8".to_string()),
        focal_length: Some("35 mm".to_string()),
        lens_model: Some("\"FE 35mm F1.8\"".to_string()),
        date_time_taken: Some("2024-05-01 10:11:12".to_string()),
        thumbnail_offset: None,
        thumbnail_length: None,
    }
}

#[test]
fn missing_make_reads_unknown_and_iso_falls_back() {
    let info = raw_info_from_fields(&fields(), 42, Some("data:x".to_string()));
    assert_eq!(info.make, "Unknown");
    assert_eq!(info.clean_make, "Unknown");
    assert_eq!(info.model, "ILCE-7M3");
    assert_eq!(info.width, 0);
    assert_eq!(info.height, 4000);
    assert_eq!(info.iso.as_deref(), Some("6400"));
    assert_eq!(info.shutter_speed.as_deref(), Some("1/60 s"));
    assert_eq!(info.aperture.as_deref(), Some("f/2.8"));
    assert_eq!(info.focal_length.as_deref(), Some("35 mm"));
    assert_eq!(info.lens_model.as_deref(), Some("FE 35mm F1.8"));
    assert_eq!(info.date_taken.as_deref(), Some("2024-05-01 10:11:12"));
    assert_eq!(info.file_size_bytes, 42);
    assert_eq!(info.thumbnail_base64.as_deref(), Some("data:x"));
}

#[test]
fn photographic_sensitivity_wins_over_iso_speed() {
    let mut f = fields();
    f.photographic_sensitivity = Some("200".to_string());
    let info = raw_info_from_fields(&f, 0, None);
    assert_eq!(info.iso.as_deref(), Some("200"));
    assert_eq!(info.thumbnail_base64, None);
}

#[test]
fn too_short_header_is_an_unknown_format() {
    assert_eq!(read_exif_fields(&[0x49]).err().as_deref(), Some("Unknown image format"));
    assert_eq!(inspect_header(&[], 0).err().as_deref(), Some("Unknown image format"));
}
