//! Coordinates and sizes.

use klamottenkiste::geometry::{
    requested_output, widget_to_output, MAX_OUT_PX, MIN_OUT_PX, SUBPIXELS,
};

/// A position in pixels as sub-pixels.
fn sub(px: f64) -> i64 {
    (px * SUBPIXELS as f64).round() as i64
}

/// Maps a point given in pixels.
fn map(wx: f64, wy: f64, widget: (i32, i32), out: (i32, i32)) -> Option<(f64, f64)> {
    widget_to_output(sub(wx), sub(wy), widget.0, widget.1, out.0, out.1)
        .map(|(x, y)| (x as f64 / SUBPIXELS as f64, y as f64 / SUBPIXELS as f64))
}

#[test]
fn contain_maps_centre_to_output_centre() {
    let (ox, oy) = map(960.0, 600.0, (1920, 1200), (1280, 800)).unwrap();
    assert!((ox - 640.0).abs() < 1e-6, "ox={ox}");
    assert!((oy - 400.0).abs() < 1e-6, "oy={oy}");
}

#[test]
fn contain_exact_fit_is_identity() {
    let (ox, oy) = map(100.0, 200.0, (1280, 800), (1280, 800)).unwrap();
    assert!((ox - 100.0).abs() < 1e-6);
    assert!((oy - 200.0).abs() < 1e-6);
}

#[test]
fn pillarbox_and_letterbox_bars_are_rejected() {
    // A 2000x800 widget and a 1280x800 output leave pillarbox bars of 360 px.
    assert!(map(100.0, 400.0, (2000, 800), (1280, 800)).is_none());
    assert!(map(1000.0, 400.0, (2000, 800), (1280, 800)).is_some());
    // A 1280x1000 widget and a 1280x800 output leave letterbox bars of 100 px.
    assert!(map(640.0, 50.0, (1280, 1000), (1280, 800)).is_none());
    assert!(map(640.0, 500.0, (1280, 1000), (1280, 800)).is_some());
}

#[test]
fn coordinates_follow_the_current_runtime_output_size() {
    // After a resize the pane maps one to one into the new output.
    let (ox, oy) = map(450.0, 150.0, (900, 300), (900, 300)).unwrap();
    assert!((ox - 450.0).abs() < 1e-6, "ox={ox}");
    assert!((oy - 150.0).abs() < 1e-6, "oy={oy}");
    // The same pane with twice the device pixels: the centre still maps to the centre.
    let (ox, oy) = map(450.0, 150.0, (900, 300), (1800, 600)).unwrap();
    assert!((ox - 900.0).abs() < 1e-6, "ox={ox}");
    assert!((oy - 300.0).abs() < 1e-6, "oy={oy}");
}

#[test]
fn output_follows_pane_and_scale_and_is_guarded() {
    assert_eq!(requested_output(900, 300, 1), Some((900, 300)));
    assert_eq!(requested_output(900, 300, 2), Some((1800, 600)));
    assert_eq!(requested_output(0, 300, 1), None);
    assert_eq!(requested_output(900, 0, 1), None);
    assert_eq!(requested_output(900, 300, 0), None);
    assert_eq!(requested_output(4, 4, 1), Some((MIN_OUT_PX, MIN_OUT_PX)));
    assert_eq!(
        requested_output(i32::MAX, i32::MAX, 8),
        Some((MAX_OUT_PX, MAX_OUT_PX))
    );
}

#[test]
fn negative_allocations_are_skipped() {
    assert_eq!(requested_output(-900, 300, 1), None);
    assert_eq!(requested_output(900, -300, 1), None);
    assert_eq!(requested_output(900, 300, -1), None);
}

#[test]
fn each_edge_is_clamped_on_its_own() {
    assert_eq!(requested_output(4, 300, 1), Some((16, 300)));
    assert_eq!(requested_output(300, 20_000, 1), Some((300, 16384)));
    assert_eq!(requested_output(8192, 16, 2), Some((16384, 32)));
    assert_eq!(requested_output(8193, 8, 2), Some((16384, 16)));
}

#[test]
fn sizes_without_area_map_nothing() {
    for bad in [0, -1] {
        assert_eq!(widget_to_output(0, 0, bad, 10, 10, 10), None);
        assert_eq!(widget_to_output(0, 0, 10, bad, 10, 10), None);
        assert_eq!(widget_to_output(0, 0, 10, 10, bad, 10), None);
        assert_eq!(widget_to_output(0, 0, 10, 10, 10, bad), None);
    }
}

#[test]
fn image_edges_belong_to_the_image() {
    // Pillarbox bars of 360 px: the image covers 360..=1640.
    let widget = (2000, 800);
    let out = (1280, 800);
    let at = |x: i64, y: i64| widget_to_output(x, y, widget.0, widget.1, out.0, out.1);
    assert_eq!(at(360 * SUBPIXELS, 0), Some((0, 0)));
    assert_eq!(
        at(1640 * SUBPIXELS, 800 * SUBPIXELS),
        Some((1280 * SUBPIXELS, 800 * SUBPIXELS))
    );
    assert_eq!(at(360 * SUBPIXELS - 1, 0), None);
    assert_eq!(at(1640 * SUBPIXELS + 1, 0), None);
    assert_eq!(at(400 * SUBPIXELS, -1), None);
    assert_eq!(at(400 * SUBPIXELS, 800 * SUBPIXELS + 1), None);
}

#[test]
fn results_are_rounded_down_to_a_sub_pixel() {
    // Three widget pixels show one output pixel.
    assert_eq!(widget_to_output(1, 2, 3, 3, 1, 1), Some((0, 0)));
    assert_eq!(widget_to_output(3, 5, 3, 3, 1, 1), Some((1, 1)));
    assert_eq!(
        widget_to_output(SUBPIXELS, 2 * SUBPIXELS, 3, 3, 1, 1),
        Some((SUBPIXELS / 3, 2 * SUBPIXELS / 3))
    );
}

#[test]
fn mirrored_points_map_together() {
    for (x, y) in [(0, 0), (30, 5), (99, 49), (50, 60), (12, 7)] {
        let here = widget_to_output(x * SUBPIXELS, y * SUBPIXELS, 100, 50, 30, 40);
        let there =
            widget_to_output((100 - x) * SUBPIXELS, (50 - y) * SUBPIXELS, 100, 50, 30, 40);
        assert_eq!(here.is_some(), there.is_some());
    }
}

#[test]
fn mapping_keeps_order() {
    let mut last = -1;
    for x in 0..=100 {
        if let Some((ox, _)) = widget_to_output(x * SUBPIXELS, 0, 100, 50, 70, 35) {
            assert!(ox >= last);
            last = ox;
        }
    }
    assert_eq!(last, 70 * SUBPIXELS);
}

#[test]
fn extreme_sizes_do_not_overflow() {
    assert_eq!(
        widget_to_output(i64::MAX, i64::MAX, i32::MAX, i32::MAX, i32::MAX, i32::MAX),
        None
    );
    assert_eq!(
        widget_to_output(i64::MIN, i64::MIN, i32::MAX, 1, 1, i32::MAX),
        None
    );
    let far = i32::MAX as i64 * SUBPIXELS;
    assert_eq!(
        widget_to_output(far, far, i32::MAX, i32::MAX, i32::MAX, i32::MAX),
        Some((far, far))
    );
}

#[test]
fn a_requested_output_maps_points_to_device_pixels() {
    let (w, h) = requested_output(333, 77, 3).unwrap();
    assert_eq!((w, h), (999, 231));
    assert_eq!(
        widget_to_output(100 * SUBPIXELS, 7 * SUBPIXELS, 333, 77, w, h),
        Some((300 * SUBPIXELS, 21 * SUBPIXELS))
    );
}
