use aspect_fit::AspectRatio;
use aspect_fit::ResizeStrategy;
use aspect_fit::Vector;

#[test]
fn resize() {
    //Format: (target_ratio, new_width, new_height, (offset, size))
    let tests: [(AspectRatio, u32, u32, (Vector, Vector)); 3] = [
        (AspectRatio::new(16, 9), 16, 9, (Vector::zero(), Vector::newi(16, 9))),
        (AspectRatio::new(16, 9), 32, 9, (Vector::newi(8, 0), Vector::newi(16, 9))),
        (AspectRatio::new(16, 9), 16, 17, (Vector::newi(0, 4), Vector::newi(16, 9))),
    ];
    let resize = ResizeStrategy::Letterbox;
    for test in tests.iter() {
        assert_eq!(resize.resize(test.0, test.1, test.2), test.3);
    }
}

#[test]
fn stretch_fills_window() {
    let ratio = AspectRatio::new(16, 9);
    let (offset, size) = ResizeStrategy::Stretch.resize(ratio, 32, 9);
    assert_eq!(offset, Vector::zero());
    assert_eq!(size, Vector::newi(32, 9));
}

#[test]
fn maintain_size_shares_centering() {
    let ratio = AspectRatio::new(16, 9);
    let (offset, size) = ResizeStrategy::MaintainSize.resize(ratio, 32, 9);
    assert_eq!(offset, Vector::newi(8, 0));
    assert_eq!(size, Vector::newi(16, 9));
}

#[test]
fn identical_arguments_identical_results() {
    let ratio = AspectRatio::new(7, 3);
    let first = ResizeStrategy::Letterbox.resize(ratio, 100, 47);
    let second = ResizeStrategy::Letterbox.resize(ratio, 100, 47);
    assert_eq!(first, second);
}

#[test]
fn letterbox_contained_in_window() {
    let ratio = AspectRatio::new(7, 3);
    let (offset, size) = ResizeStrategy::Letterbox.resize(ratio, 100, 47);
    assert!(offset.x >= 0 && offset.y >= 0);
    assert!(offset.x + size.x <= 100);
    assert!(offset.y + size.y <= 47);
}

#[test]
fn offset_is_half_the_slack() {
    let ratio = AspectRatio::new(16, 9);
    let (offset, size) = ResizeStrategy::Letterbox.resize(ratio, 100, 47);
    assert_eq!(offset.x, (100 - size.x) / 2);
    assert_eq!(offset.y, (47 - size.y) / 2);
}

#[test]
fn letterbox_keeps_aspect_up_to_truncation() {
    let ratio = AspectRatio::new(16, 9);
    let (offset, size) = ResizeStrategy::Letterbox.resize(ratio, 1000, 1000);
    // Window is taller than 16:9, so the width spans the window and the
    // height is 1000 * 9 / 16 truncated.
    assert_eq!(size, Vector::newi(1000, 562));
    assert_eq!(offset, Vector::newi(0, 219));
    // Cross-multiplied, the content ratio is within one truncation step of
    // the target: |16 * size.y - 9 * size.x| < 16.
    let cross_gap: i64 = 16 * i64::from(size.y) - 9 * i64::from(size.x);
    assert!(cross_gap.abs() < 16);
}

#[test]
fn exact_ratio_fills_window() {
    let ratio = AspectRatio::new(4, 3);
    let (offset, size) = ResizeStrategy::Letterbox.resize(ratio, 640, 480);
    assert_eq!(offset, Vector::zero());
    assert_eq!(size, Vector::newi(640, 480));
}

#[test]
fn one_pixel_of_slack_leaves_offset_zero() {
    // 17 x 9 is barely wider than 16:9; the single spare column cannot be
    // split, and truncation leaves the bar on the right.
    let ratio = AspectRatio::new(16, 9);
    let (offset, size) = ResizeStrategy::Letterbox.resize(ratio, 17, 9);
    assert_eq!(offset, Vector::zero());
    assert_eq!(size, Vector::newi(16, 9));
}

#[test]
fn sub_pixel_window_collapses_height() {
    // A 1000:1 target in a 3 x 5 window scales the height below one pixel;
    // truncation collapses it to zero and the offset centers the empty band.
    let ratio = AspectRatio::new(1000, 1);
    let (offset, size) = ResizeStrategy::Letterbox.resize(ratio, 3, 5);
    assert_eq!(size, Vector::newi(3, 0));
    assert_eq!(offset, Vector::newi(0, 2));
}

#[test]
fn widest_window_supported() {
    let ratio = AspectRatio::new(1, 1);
    let (offset, size) = ResizeStrategy::Letterbox.resize(ratio, i32::MAX as u32, 1000);
    assert_eq!(size, Vector::newi(1000, 1000));
    assert_eq!(offset, Vector::newi((i32::MAX - 1000) / 2, 0));
}
