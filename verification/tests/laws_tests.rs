use alphaview::browse::has_arw_extension;
use alphaview::develop::{block_sample_indices, block_span, metering_sample_indices, CfaPattern, CropRegion, RawGeometry};
use alphaview::metadata::{locate_thumbnail, ThumbnailSource};
use alphaview::text::strip_quotes;

#[test]
fn arw_extension_ignores_ascii_case_on_examples() {
    for name in ["A.ARW", "b.arw", "c.ArW", "d.JPG", ".ARW", "e.ARWS", "f.tif"] {
        assert_eq!(has_arw_extension(name), has_arw_extension(&name.to_ascii_lowercase()));
    }
}

#[test]
fn strip_quotes_is_idempotent_on_examples() {
    let s = "\"\"ILCE\"-7\"";
    assert_eq!(strip_quotes(&strip_quotes(s)), strip_quotes(s));
}

#[test]
fn header_thumbnail_lies_in_header() {
    for (o, l, n) in [(0u32, 10u32, 10usize), (5, 5, 12), (9, 2, 10), (0, 524289, 10_000_000)] {
        match locate_thumbnail(Some(o), Some(l), n) {
            ThumbnailSource::InHeader { start, end } => {
                assert!(start <= end && end <= n && end - start <= 524288);
            }
            ThumbnailSource::InFile { offset, length } => {
                assert!(length <= 524288 && offset + length as u64 > n as u64);
            }
            ThumbnailSource::Missing => assert!(l > 524288),
        }
    }
}

#[test]
fn block_contains_its_center() {
    for (c, b, lim) in [(0usize, 5usize, 10usize), (9, 5, 10), (4, 0, 10), (4, 8, 6)] {
        let (s, e) = block_span(c, b, lim);
        assert!(s <= c && c < e && e <= lim && e - s <= 2 * (b / 2) + 1);
    }
}

#[test]
fn cfa_periodic_on_a_six_by_six_tile() {
    let tile: Vec<usize> = (0..36).map(|i| i % 3).collect();
    let cfa = CfaPattern::new(6, 6, tile).unwrap();
    for r in 0..12 {
        for c in 0..12 {
            assert_eq!(cfa.color_at(r + 6, c), cfa.color_at(r, c));
            assert_eq!(cfa.color_at(r, c + 6), cfa.color_at(r, c));
        }
    }
}

#[test]
fn metering_count_is_rows_times_columns() {
    let g = RawGeometry { full_width: 200, components: 1, crop: CropRegion { x: 3, y: 4, width: 95, height: 41 } };
    // Step 10: 5 rows (0..40) and 10 columns (0..90).
    assert_eq!(metering_sample_indices(&g, 7).len(), 5 * 10);
    // Step 30: 2 rows and 4 columns.
    assert_eq!(metering_sample_indices(&g, 30).len(), 2 * 4);
}

#[test]
fn rgb_block_count_is_its_area() {
    let g = RawGeometry { full_width: 50, components: 3, crop: CropRegion { x: 0, y: 0, width: 40, height: 30 } };
    let cfa = CfaPattern::new(2, 2, vec![0, 1, 1, 2]).unwrap();
    // Block 4 around (10, 10): rows and columns 8..13.
    assert_eq!(block_sample_indices(&g, &cfa, 10, 10, 2, 4).len(), 5 * 5);
    // Clipped at the corner: rows and columns 0..3.
    assert_eq!(block_sample_indices(&g, &cfa, 0, 0, 0, 4).len(), 3 * 3);
}

#[test]
fn metered_pixels_lie_in_the_crop() {
    let g = RawGeometry { full_width: 60, components: 1, crop: CropRegion { x: 7, y: 5, width: 33, height: 24 } };
    for i in metering_sample_indices(&g, 11) {
        let (row, col) = (i / 60, i % 60);
        assert!((5..29).contains(&row) && (7..40).contains(&col));
    }
}

#[test]
fn demosaic_samples_lie_in_the_crop() {
    let g = RawGeometry { full_width: 20, components: 1, crop: CropRegion { x: 2, y: 3, width: 10, height: 8 } };
    let cfa = CfaPattern::new(2, 2, vec![0, 1, 1, 2]).unwrap();
    for (cy, cx) in [(0usize, 0usize), (7, 9), (4, 5)] {
        for target in 0..3 {
            for i in block_sample_indices(&g, &cfa, cy, cx, target, 6) {
                let (row, col) = (i / 20, i % 20);
                assert!((3..11).contains(&row) && (2..12).contains(&col));
                assert_eq!(cfa.color_at(row, col), target);
            }
        }
    }
}
