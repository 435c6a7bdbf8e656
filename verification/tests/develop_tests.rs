use alphaview::develop::{
    block_sample_indices, block_span, interquartile_window, metering_sample_indices, preview_max_dimension,
    select_crop, CfaPattern, CropRegion, RawGeometry, SampleWindow, DEFAULT_MAX_DIMENSION,
};

fn region(x: usize, y: usize, width: usize, height: usize) -> CropRegion {
    CropRegion { x, y, width, height }
}

fn rggb() -> CfaPattern {
    CfaPattern::new(2, 2, vec![0, 1, 1, 2]).expect("2x2 tile")
}

#[test]
fn max_dimension_defaults_to_2048() {
    assert_eq!(DEFAULT_MAX_DIMENSION, 2048);
    assert_eq!(preview_max_dimension(None), 2048);
    assert_eq!(preview_max_dimension(Some(512)), 512);
}

#[test]
fn crop_prefers_recommended_then_active_area() {
    let crop = region(12, 8, 7008, 4672);
    let active = region(0, 4, 7040, 4680);
    let c = select_crop(Some(crop), Some(active), 7040, 4688);
    assert_eq!((c.x, c.y, c.width, c.height), (12, 8, 7008, 4672));
    let c = select_crop(None, Some(active), 7040, 4688);
    assert_eq!((c.x, c.y, c.width, c.height), (0, 4, 7040, 4680));
    let c = select_crop(None, None, 7040, 4688);
    assert_eq!((c.x, c.y, c.width, c.height), (0, 0, 7040, 4688));
}

#[test]
fn interquartile_window_is_the_middle_half() {
    assert!(matches!(interquartile_window(100), SampleWindow::Range { start: 25, end: 75 }));
    assert!(matches!(interquartile_window(7), SampleWindow::Range { start: 1, end: 5 }));
    assert!(matches!(interquartile_window(2), SampleWindow::Range { start: 0, end: 1 }));
    assert!(matches!(interquartile_window(1), SampleWindow::Single { index: 0 }));
    assert!(matches!(interquartile_window(0), SampleWindow::Empty));
}

#[test]
fn block_spans_are_clipped() {
    assert_eq!(block_span(10, 4, 100), (8, 13));
    assert_eq!(block_span(1, 4, 100), (0, 4));
    assert_eq!(block_span(99, 4, 100), (97, 100));
    assert_eq!(block_span(5, 1, 100), (5, 6));
    assert_eq!(block_span(5, 0, 100), (5, 6));
}

#[test]
fn cfa_colors_repeat_with_the_tile() {
    let cfa = rggb();
    assert_eq!(cfa.color_at(0, 0), 0);
    assert_eq!(cfa.color_at(0, 1), 1);
    assert_eq!(cfa.color_at(1, 0), 1);
    assert_eq!(cfa.color_at(1, 1), 2);
    assert_eq!(cfa.color_at(100, 101), 1);
    assert_eq!(cfa.color_at(7, 9), 2);
    for r in 0..6 {
        for c in 0..6 {
            assert_eq!(cfa.color_at(r + 2, c), cfa.color_at(r, c));
            assert_eq!(cfa.color_at(r, c + 2), cfa.color_at(r, c));
        }
    }
}

#[test]
fn cfa_needs_a_full_tile() {
    assert!(CfaPattern::new(2, 2, vec![0, 1, 2]).is_none());
    let empty = CfaPattern::new(0, 0, Vec::new()).expect("empty tile");
    assert_eq!(empty.color_at(5, 5), 0);
}

#[test]
fn bayer_block_takes_pixels_of_one_color() {
    // Sensor 10 wide, crop starting at (2, 1); block of 2 around crop (1, 1).
    let g = RawGeometry { full_width: 10, components: 1, crop: region(2, 1, 6, 4) };
    let cfa = rggb();
    // Rows 0..3, columns 0..3 of the crop: sensor rows 1..4, columns 2..5.
    let red = block_sample_indices(&g, &cfa, 1, 1, 0, 2);
    assert_eq!(red, vec![22, 24]);
    let green = block_sample_indices(&g, &cfa, 1, 1, 1, 2);
    assert_eq!(green, vec![12, 14, 23, 32, 34]);
    let blue = block_sample_indices(&g, &cfa, 1, 1, 2, 2);
    assert_eq!(blue, vec![13, 33]);
}

#[test]
fn rgb_block_takes_every_pixel() {
    let g = RawGeometry { full_width: 4, components: 3, crop: region(1, 0, 3, 2) };
    let cfa = rggb();
    let green = block_sample_indices(&g, &cfa, 0, 0, 1, 2);
    // Rows 0..2, columns 0..2 of the crop: sensor columns 1..3.
    assert_eq!(green, vec![4, 7, 16, 19]);
}

#[test]
fn block_outside_crop_is_empty() {
    let g = RawGeometry { full_width: 4, components: 3, crop: region(0, 0, 2, 2) };
    assert_eq!(block_sample_indices(&g, &rggb(), 5, 5, 0, 2), Vec::<usize>::new());
}

#[test]
fn metering_grid_steps_at_least_ten() {
    let g = RawGeometry { full_width: 40, components: 1, crop: region(5, 2, 25, 21) };
    let samples = metering_sample_indices(&g, 3);
    // Rows 0, 10, 20 and columns 0, 10, 20 of the crop.
    let mut expected = Vec::new();
    for row in [0usize, 10, 20] {
        for col in [0usize, 10, 20] {
            expected.push((row + 2) * 40 + (col + 5));
        }
    }
    assert_eq!(samples, expected);
}

#[test]
fn metering_grid_uses_the_given_step_and_stride() {
    let g = RawGeometry { full_width: 100, components: 3, crop: region(0, 0, 30, 12) };
    let samples = metering_sample_indices(&g, 12);
    assert_eq!(samples, vec![0, 36, 72]);
    let g0 = RawGeometry { full_width: 100, components: 0, crop: region(0, 0, 30, 12) };
    assert_eq!(metering_sample_indices(&g0, 12), vec![0, 12, 24]);
}

#[test]
fn metering_of_empty_crop_is_empty() {
    let g = RawGeometry { full_width: 100, components: 1, crop: region(0, 0, 0, 50) };
    assert_eq!(metering_sample_indices(&g, 10), Vec::<usize>::new());
}
