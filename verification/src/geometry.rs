//! Coordinates and sizes: where a pointer lands in the nested output, and how large that output
//! should be.
//!
//! A pane shows the nested output scaled to fit, undistorted and centred, so one pair of edges may
//! leave empty bars. Positions are counted in sub-pixels, [`SUBPIXELS`] to one pixel: a position
//! that a toolkit reports as a binary fraction survives unchanged if it has at most 32 fractional
//! bits, and a result between two sub-pixels is rounded down. Every statement below is about
//! integers.

use vstd::prelude::*;

verus! {

/// Sub-pixels in one pixel, along either axis.
pub const SUBPIXELS: i64 = 0x1_0000_0000;

/// Smallest nested output edge, in device pixels.
pub const MIN_OUT_PX: i32 = 16;

/// Largest nested output edge, in device pixels.
pub const MAX_OUT_PX: i32 = 16384;

/// A `width` by `height` box with area.
pub open spec fn has_area(width: int, height: int) -> bool {
    width > 0 && height > 0
}

/// The scale at which an output is shown, as the fraction `num / den` of a widget pixel per output
/// pixel: the smaller of the two per-axis scales, so that the whole output fits.
pub open spec fn contain_scale(widget_w: int, widget_h: int, out_w: int, out_h: int) -> (int, int) {
    if widget_w * out_h <= widget_h * out_w {
        (widget_w, out_w)
    } else {
        (widget_h, out_h)
    }
}

/// Along one axis, twice `scale.1` times the distance in sub-pixels from the near edge of the shown
/// image to the position `at`.
///
/// The image is `out * num / den` pixels long and centred in `widget` pixels, so its near edge is
/// at `(widget - out * num / den) / 2`; multiplying by `2 * den` clears both fractions.
pub open spec fn inside(at: int, widget: int, out: int, scale: (int, int)) -> int {
    2 * scale.1 * at - SUBPIXELS * (widget * scale.1 - out * scale.0)
}

/// The position `at` lies on the shown image along this axis, edges counted in.
pub open spec fn on_image(at: int, widget: int, out: int, scale: (int, int)) -> bool {
    0 <= inside(at, widget, out, scale) <= 2 * SUBPIXELS * (out * scale.0)
}

/// Along one axis, the output position under the widget position `at`, rounded down to a
/// sub-pixel: the distance from the image's near edge divided by the scale.
pub open spec fn output_at(at: int, widget: int, out: int, scale: (int, int)) -> int {
    inside(at, widget, out, scale) / (2 * scale.0)
}

/// The output position under a widget position, or nothing where there is none: a widget or an
/// output without area, or a position on one of the bars.
pub open spec fn output_position(
    x: int,
    y: int,
    widget_w: int,
    widget_h: int,
    out_w: int,
    out_h: int,
) -> Option<(int, int)> {
    let scale = contain_scale(widget_w, widget_h, out_w, out_h);
    if has_area(widget_w, widget_h) && has_area(out_w, out_h)
        && on_image(x, widget_w, out_w, scale) && on_image(y, widget_h, out_h, scale) {
        Some((output_at(x, widget_w, out_w, scale), output_at(y, widget_h, out_h, scale)))
    } else {
        None
    }
}

proof fn lemma_product_bound(a: int, b: int, a_max: int, b_max: int)
    by (nonlinear_arith)
    requires
        -a_max <= a <= a_max,
        -b_max <= b <= b_max,
    ensures
        -(a_max * b_max) <= a * b <= a_max * b_max,
{
}

/// On the image, the output position lies between the output's edges.
proof fn lemma_output_at_range(at: int, widget: int, out: int, scale: (int, int))
    requires
        scale.0 > 0,
        on_image(at, widget, out, scale),
    ensures
        0 <= output_at(at, widget, out, scale) <= SUBPIXELS * out,
{
    let n = inside(at, widget, out, scale);
    let num = scale.0;
    assert(0 <= n / (2 * num) <= SUBPIXELS * out) by (nonlinear_arith)
        requires
            num > 0,
            0 <= n <= 2 * SUBPIXELS * (out * num),
    ;
}

/// The output position under `at` along one axis, for a scale of `num / den`.
fn axis_to_output(at: i64, widget: i32, out: i32, num: i32, den: i32) -> (position: Option<i64>)
    requires
        widget > 0,
        out > 0,
        num > 0,
        den > 0,
    ensures
        position is Some <==> on_image(
            at as int,
            widget as int,
            out as int,
            (num as int, den as int),
        ),
        position matches Some(p) ==> p == output_at(
            at as int,
            widget as int,
            out as int,
            (num as int, den as int),
        ),
{
    let ghost scale = (num as int, den as int);
    proof {
        lemma_product_bound(den as int, at as int, 0x8000_0000, 0x8000_0000_0000_0000);
        lemma_product_bound(widget as int, den as int, 0x8000_0000, 0x8000_0000);
        lemma_product_bound(out as int, num as int, 0x8000_0000, 0x8000_0000);
        assert(2 * den * at == 2 * (den * at)) by (nonlinear_arith);
    }
    let shown: i128 = out as i128 * num as i128;
    let spare: i128 = widget as i128 * den as i128 - shown;
    proof {
        lemma_product_bound(
            SUBPIXELS as int,
            spare as int,
            0x1_0000_0000,
            0x8000_0000_0000_0000,
        );
        lemma_product_bound(
            2 * SUBPIXELS as int,
            shown as int,
            0x2_0000_0000,
            0x4000_0000_0000_0000,
        );
    }
    let n: i128 = 2 * (den as i128 * at as i128) - SUBPIXELS as i128 * spare;
    assert(n == inside(at as int, widget as int, out as int, scale));
    if n < 0 || n > 2 * SUBPIXELS as i128 * shown {
        return None;
    }
    proof {
        lemma_output_at_range(at as int, widget as int, out as int, scale);
    }
    let position: i128 = n / (2 * num as i128);
    Some(position as i64)
}

/// Maps a widget-local point to the nested output, undoing the fit of the output to the widget.
///
/// The point and the result are in sub-pixels, the sizes in pixels. `None` means that there is
/// nothing under the point: a size without area, or one of the bars beside the image.
pub fn widget_to_output(
    x: i64,
    y: i64,
    widget_w: i32,
    widget_h: i32,
    out_w: i32,
    out_h: i32,
) -> (position: Option<(i64, i64)>)
    ensures
        match (
            position,
            output_position(
                x as int,
                y as int,
                widget_w as int,
                widget_h as int,
                out_w as int,
                out_h as int,
            ),
        ) {
            (Some((px, py)), Some((ox, oy))) => px == ox && py == oy,
            (None, None) => true,
            _ => false,
        },
{
    if widget_w <= 0 || widget_h <= 0 || out_w <= 0 || out_h <= 0 {
        return None;
    }
    proof {
        lemma_product_bound(widget_w as int, out_h as int, 0x8000_0000, 0x8000_0000);
        lemma_product_bound(widget_h as int, out_w as int, 0x8000_0000, 0x8000_0000);
    }
    let (num, den): (i32, i32) = if widget_w as i64 * out_h as i64 <= widget_h as i64
        * out_w as i64 {
        (widget_w, out_w)
    } else {
        (widget_h, out_h)
    };
    match (
        axis_to_output(x, widget_w, out_w, num, den),
        axis_to_output(y, widget_h, out_h, num, den),
    ) {
        (Some(ox), Some(oy)) => Some((ox, oy)),
        _ => None,
    }
}

/// `value` moved to the nearest edge length that the nested output may have.
pub open spec fn clamp_edge(value: int) -> int {
    if value < MIN_OUT_PX {
        MIN_OUT_PX as int
    } else if value > MAX_OUT_PX {
        MAX_OUT_PX as int
    } else {
        value
    }
}

/// The output size to ask for: each edge in device pixels, within the limits, or nothing for a
/// widget that has not been laid out or a scale factor that makes no sense.
pub open spec fn output_request(widget_w: int, widget_h: int, scale_factor: int) -> Option<
    (int, int),
> {
    if has_area(widget_w, widget_h) && scale_factor > 0 {
        Some((clamp_edge(widget_w * scale_factor), clamp_edge(widget_h * scale_factor)))
    } else {
        None
    }
}

/// One output edge for a widget edge of `logical` pixels at `scale_factor`.
fn requested_edge(logical: i32, scale_factor: i32) -> (edge: i32)
    requires
        logical > 0,
        scale_factor > 0,
    ensures
        edge == clamp_edge(logical * scale_factor),
{
    proof {
        lemma_product_bound(logical as int, scale_factor as int, 0x8000_0000, 0x8000_0000);
    }
    // An i32 product could overflow before it is clamped.
    let device: i64 = logical as i64 * scale_factor as i64;
    if device < MIN_OUT_PX as i64 {
        MIN_OUT_PX
    } else if device > MAX_OUT_PX as i64 {
        MAX_OUT_PX
    } else {
        device as i32
    }
}

/// Nested output size, in device pixels, to request for a widget allocation, or `None` to skip.
///
/// The logical size times the scale factor, so that the hosted application lays itself out for the
/// real pane at its native density, with each edge kept in [`MIN_OUT_PX`]..=[`MAX_OUT_PX`].
pub fn requested_output(widget_w: i32, widget_h: i32, scale_factor: i32) -> (size: Option<
    (i32, i32),
>)
    ensures
        match (size, output_request(widget_w as int, widget_h as int, scale_factor as int)) {
            (Some((w, h)), Some((rw, rh))) => w == rw && h == rh,
            (None, None) => true,
            _ => false,
        },
{
    if widget_w <= 0 || widget_h <= 0 || scale_factor <= 0 {
        return None;
    }
    Some((requested_edge(widget_w, scale_factor), requested_edge(widget_h, scale_factor)))
}

/// Where an output position appears in the widget along one axis, in sub-pixels times twice
/// `scale.1`: the near edge of the centred image plus the position times the scale.
pub open spec fn shown_at(position: int, widget: int, out: int, scale: (int, int)) -> int {
    SUBPIXELS * (widget * scale.1 - out * scale.0) + 2 * scale.0 * position
}

/// The scale is positive and no larger than the scale of either axis.
proof fn lemma_contain_scale(widget_w: int, widget_h: int, out_w: int, out_h: int)
    requires
        has_area(widget_w, widget_h),
        has_area(out_w, out_h),
    ensures
        ({
            let scale = contain_scale(widget_w, widget_h, out_w, out_h);
            &&& scale.0 > 0
            &&& scale.1 > 0
            &&& out_w * scale.0 <= widget_w * scale.1
            &&& out_h * scale.0 <= widget_h * scale.1
        }),
{
    assert(out_w * widget_w == widget_w * out_w) by (nonlinear_arith);
    assert(out_h * widget_h == widget_h * out_h) by (nonlinear_arith);
    assert(out_h * widget_w == widget_w * out_h) by (nonlinear_arith);
    assert(out_w * widget_h == widget_h * out_w) by (nonlinear_arith);
}

/// A position that maps at all lies in the widget, and maps to a position on the output, the far
/// edges counted in.
pub proof fn law_position_is_on_the_output(
    x: int,
    y: int,
    widget_w: int,
    widget_h: int,
    out_w: int,
    out_h: int,
)
    ensures
        output_position(x, y, widget_w, widget_h, out_w, out_h) matches Some((ox, oy)) ==> {
            &&& 0 <= ox <= SUBPIXELS * out_w
            &&& 0 <= oy <= SUBPIXELS * out_h
            &&& 0 <= x <= SUBPIXELS * widget_w
            &&& 0 <= y <= SUBPIXELS * widget_h
        },
{
    if output_position(x, y, widget_w, widget_h, out_w, out_h) is Some {
        let scale = contain_scale(widget_w, widget_h, out_w, out_h);
        lemma_contain_scale(widget_w, widget_h, out_w, out_h);
        lemma_output_at_range(x, widget_w, out_w, scale);
        lemma_output_at_range(y, widget_h, out_h, scale);
        lemma_on_image_is_in_widget(x, widget_w, out_w, scale);
        lemma_on_image_is_in_widget(y, widget_h, out_h, scale);
    }
}

proof fn lemma_on_image_is_in_widget(at: int, widget: int, out: int, scale: (int, int))
    requires
        scale.1 > 0,
        out * scale.0 <= widget * scale.1,
        on_image(at, widget, out, scale),
    ensures
        0 <= at <= SUBPIXELS * widget,
{
    let den = scale.1;
    let shown = out * scale.0;
    assert(0 <= at <= SUBPIXELS * widget) by (nonlinear_arith)
        requires
            den > 0,
            shown <= widget * den,
            0 <= 2 * den * at - SUBPIXELS * (widget * den - shown) <= 2 * SUBPIXELS * shown,
            SUBPIXELS == 0x1_0000_0000i64,
    ;
}

/// The mapping undoes the fit: the output position that a point maps to is the last one that is
/// shown at or before the point, on either axis.
pub proof fn law_mapping_undoes_the_fit(
    x: int,
    y: int,
    widget_w: int,
    widget_h: int,
    out_w: int,
    out_h: int,
)
    ensures
        output_position(x, y, widget_w, widget_h, out_w, out_h) matches Some((ox, oy)) ==> {
            let scale = contain_scale(widget_w, widget_h, out_w, out_h);
            &&& shown_at(ox, widget_w, out_w, scale) <= 2 * scale.1 * x
            &&& 2 * scale.1 * x < shown_at(ox + 1, widget_w, out_w, scale)
            &&& shown_at(oy, widget_h, out_h, scale) <= 2 * scale.1 * y
            &&& 2 * scale.1 * y < shown_at(oy + 1, widget_h, out_h, scale)
        },
{
    if output_position(x, y, widget_w, widget_h, out_w, out_h) is Some {
        let scale = contain_scale(widget_w, widget_h, out_w, out_h);
        lemma_contain_scale(widget_w, widget_h, out_w, out_h);
        lemma_quotient(inside(x, widget_w, out_w, scale), scale.0);
        lemma_quotient(inside(y, widget_h, out_h, scale), scale.0);
    }
}

/// Every output position comes back: a widget position at which an output position is shown
/// exactly, on both axes, maps to that output position.
pub proof fn law_shown_position_maps_back(
    x: int,
    y: int,
    ox: int,
    oy: int,
    widget_w: int,
    widget_h: int,
    out_w: int,
    out_h: int,
)
    requires
        has_area(widget_w, widget_h),
        has_area(out_w, out_h),
        0 <= ox <= SUBPIXELS * out_w,
        0 <= oy <= SUBPIXELS * out_h,
        ({
            let scale = contain_scale(widget_w, widget_h, out_w, out_h);
            &&& 2 * scale.1 * x == shown_at(ox, widget_w, out_w, scale)
            &&& 2 * scale.1 * y == shown_at(oy, widget_h, out_h, scale)
        }),
    ensures
        output_position(x, y, widget_w, widget_h, out_w, out_h) == Some((ox, oy)),
{
    let scale = contain_scale(widget_w, widget_h, out_w, out_h);
    lemma_contain_scale(widget_w, widget_h, out_w, out_h);
    lemma_exact_quotient(ox, scale.0, SUBPIXELS as int, out_w);
    lemma_exact_quotient(oy, scale.0, SUBPIXELS as int, out_h);
}

/// The centre of the widget maps to the centre of the output, whatever the two sizes.
pub proof fn law_centre_maps_to_centre(widget_w: int, widget_h: int, out_w: int, out_h: int)
    requires
        has_area(widget_w, widget_h),
        has_area(out_w, out_h),
    ensures
        output_position(
            widget_w * (SUBPIXELS / 2),
            widget_h * (SUBPIXELS / 2),
            widget_w,
            widget_h,
            out_w,
            out_h,
        ) == Some((out_w * (SUBPIXELS / 2), out_h * (SUBPIXELS / 2))),
{
    let half: int = SUBPIXELS as int / 2;
    let scale = contain_scale(widget_w, widget_h, out_w, out_h);
    lemma_centre_is_shown_at_centre(widget_w, out_w, scale);
    lemma_centre_is_shown_at_centre(widget_h, out_h, scale);
    law_shown_position_maps_back(
        widget_w * half,
        widget_h * half,
        out_w * half,
        out_h * half,
        widget_w,
        widget_h,
        out_w,
        out_h,
    );
}

proof fn lemma_centre_is_shown_at_centre(widget: int, out: int, scale: (int, int))
    requires
        out > 0,
    ensures
        2 * scale.1 * (widget * (SUBPIXELS / 2)) == shown_at(
            out * (SUBPIXELS / 2),
            widget,
            out,
            scale,
        ),
        0 <= out * (SUBPIXELS / 2) <= SUBPIXELS * out,
{
    let num = scale.0;
    let den = scale.1;
    assert(2 * den * (widget * 0x8000_0000) == 0x1_0000_0000 * (widget * den - out * num) + 2 * num
        * (out * 0x8000_0000)) by (nonlinear_arith);
}

/// An output of exactly the widget's size is shown as it is: every point of the widget maps to
/// itself, and there are no bars.
pub proof fn law_exact_fit_is_identity(x: int, y: int, width: int, height: int)
    requires
        has_area(width, height),
        0 <= x <= SUBPIXELS * width,
        0 <= y <= SUBPIXELS * height,
    ensures
        output_position(x, y, width, height, width, height) == Some((x, y)),
{
    law_output_follows_the_scale_factor(x, y, width, height, 1);
}

/// An output that is a whole multiple of the widget, as a pane requests for its scale factor, is
/// shown without bars: every point of the widget maps to itself times that factor.
pub proof fn law_output_follows_the_scale_factor(
    x: int,
    y: int,
    width: int,
    height: int,
    factor: int,
)
    requires
        has_area(width, height),
        factor > 0,
        0 <= x <= SUBPIXELS * width,
        0 <= y <= SUBPIXELS * height,
    ensures
        output_position(x, y, width, height, width * factor, height * factor) == Some(
            (x * factor, y * factor),
        ),
{
    let out_w = width * factor;
    let out_h = height * factor;
    assert(out_w > 0 && out_h > 0) by (nonlinear_arith)
        requires
            width > 0,
            height > 0,
            factor > 0,
            out_w == width * factor,
            out_h == height * factor,
    ;
    assert(width * out_h == height * out_w) by (nonlinear_arith)
        requires
            out_w == width * factor,
            out_h == height * factor,
    ;
    lemma_multiple_is_shown_at(x, width, width, factor);
    lemma_multiple_is_shown_at(y, height, width, factor);
    law_shown_position_maps_back(x, y, x * factor, y * factor, width, height, out_w, out_h);
}

proof fn lemma_multiple_is_shown_at(at: int, edge: int, num: int, factor: int)
    requires
        factor > 0,
        0 <= at <= SUBPIXELS * edge,
    ensures
        2 * (num * factor) * at == shown_at(at * factor, edge, edge * factor, (num, num * factor)),
        0 <= at * factor <= SUBPIXELS * (edge * factor),
{
    assert(edge * (num * factor) == (edge * factor) * num) by (nonlinear_arith);
    assert(2 * (num * factor) * at == 2 * num * (at * factor)) by (nonlinear_arith);
    assert(0 <= at * factor <= SUBPIXELS * (edge * factor)) by (nonlinear_arith)
        requires
            factor > 0,
            0 <= at <= SUBPIXELS * edge,
    ;
    assert(SUBPIXELS * (edge * (num * factor) - (edge * factor) * num) == 0) by (nonlinear_arith)
        requires
            edge * (num * factor) == (edge * factor) * num,
    ;
}

/// The bars on opposite sides are equally wide: a point maps exactly where its mirror image in the
/// widget does.
pub proof fn law_bars_are_symmetric(
    x: int,
    y: int,
    widget_w: int,
    widget_h: int,
    out_w: int,
    out_h: int,
)
    ensures
        output_position(x, y, widget_w, widget_h, out_w, out_h) is Some <==> output_position(
            SUBPIXELS * widget_w - x,
            SUBPIXELS * widget_h - y,
            widget_w,
            widget_h,
            out_w,
            out_h,
        ) is Some,
{
    let scale = contain_scale(widget_w, widget_h, out_w, out_h);
    lemma_mirror(x, widget_w, out_w, scale);
    lemma_mirror(y, widget_h, out_h, scale);
}

proof fn lemma_mirror(at: int, widget: int, out: int, scale: (int, int))
    ensures
        inside(SUBPIXELS * widget - at, widget, out, scale) == 2 * SUBPIXELS * (out * scale.0)
            - inside(at, widget, out, scale),
{
    let num = scale.0;
    let den = scale.1;
    assert(2 * den * (SUBPIXELS * widget - at) - SUBPIXELS * (widget * den - out * num) == 2
        * SUBPIXELS * (out * num) - (2 * den * at - SUBPIXELS * (widget * den - out * num)))
        by (nonlinear_arith);
}

/// There are bars along at most one axis: along the axis that sets the scale the image reaches from
/// edge to edge of the widget.
pub proof fn law_one_axis_has_no_bars(
    at: int,
    widget_w: int,
    widget_h: int,
    out_w: int,
    out_h: int,
)
    requires
        has_area(widget_w, widget_h),
        has_area(out_w, out_h),
    ensures
        ({
            let scale = contain_scale(widget_w, widget_h, out_w, out_h);
            if widget_w * out_h <= widget_h * out_w {
                on_image(at, widget_w, out_w, scale) <==> 0 <= at <= SUBPIXELS * widget_w
            } else {
                on_image(at, widget_h, out_h, scale) <==> 0 <= at <= SUBPIXELS * widget_h
            }
        }),
{
    if widget_w * out_h <= widget_h * out_w {
        lemma_fitted_axis(at, widget_w, out_w);
    } else {
        lemma_fitted_axis(at, widget_h, out_h);
    }
}

proof fn lemma_fitted_axis(at: int, widget: int, out: int)
    requires
        out > 0,
    ensures
        on_image(at, widget, out, (widget, out)) <==> 0 <= at <= SUBPIXELS * widget,
{
    assert(widget * out == out * widget) by (nonlinear_arith);
    assert(0 <= 2 * out * at <= 2 * SUBPIXELS * (out * widget) <==> 0 <= at <= SUBPIXELS * widget)
        by (nonlinear_arith)
        requires
            out > 0,
    ;
}

/// Moving right or down in the widget never moves left or up in the output.
pub proof fn law_mapping_keeps_order(
    x1: int,
    y1: int,
    x2: int,
    y2: int,
    widget_w: int,
    widget_h: int,
    out_w: int,
    out_h: int,
)
    ensures
        (
        output_position(x1, y1, widget_w, widget_h, out_w, out_h),
        output_position(x2, y2, widget_w, widget_h, out_w, out_h),
        ) matches (Some((ox1, oy1)), Some((ox2, oy2))) ==> {
            &&& x1 <= x2 ==> ox1 <= ox2
            &&& y1 <= y2 ==> oy1 <= oy2
        },
{
    if output_position(x1, y1, widget_w, widget_h, out_w, out_h) is Some {
        let scale = contain_scale(widget_w, widget_h, out_w, out_h);
        lemma_contain_scale(widget_w, widget_h, out_w, out_h);
        lemma_axis_keeps_order(x1, x2, widget_w, out_w, scale);
        lemma_axis_keeps_order(y1, y2, widget_h, out_h, scale);
    }
}

proof fn lemma_axis_keeps_order(a: int, b: int, widget: int, out: int, scale: (int, int))
    requires
        scale.0 > 0,
        scale.1 > 0,
    ensures
        a <= b ==> output_at(a, widget, out, scale) <= output_at(b, widget, out, scale),
{
    let num = scale.0;
    let den = scale.1;
    if a <= b {
        assert(2 * den * a <= 2 * den * b) by (nonlinear_arith)
            requires
                den > 0,
                a <= b,
        ;
        let m = inside(a, widget, out, scale);
        let n = inside(b, widget, out, scale);
        assert(m / (2 * num) <= n / (2 * num)) by (nonlinear_arith)
            requires
                num > 0,
                m <= n,
        ;
    }
}

/// What a pane asks for is always a size that the output may have.
pub proof fn law_request_is_within_limits(widget_w: int, widget_h: int, scale_factor: int)
    ensures
        output_request(widget_w, widget_h, scale_factor) matches Some((w, h)) ==> {
            &&& MIN_OUT_PX <= w <= MAX_OUT_PX
            &&& MIN_OUT_PX <= h <= MAX_OUT_PX
        },
{
}

/// Where the limits leave it alone, the request is the allocation in device pixels, and a point of
/// the widget then maps to the device pixel under it.
pub proof fn law_request_maps_points_to_device_pixels(
    x: int,
    y: int,
    widget_w: int,
    widget_h: int,
    scale_factor: int,
)
    requires
        has_area(widget_w, widget_h),
        scale_factor > 0,
        MIN_OUT_PX <= widget_w * scale_factor <= MAX_OUT_PX,
        MIN_OUT_PX <= widget_h * scale_factor <= MAX_OUT_PX,
        0 <= x <= SUBPIXELS * widget_w,
        0 <= y <= SUBPIXELS * widget_h,
    ensures
        output_request(widget_w, widget_h, scale_factor) matches Some((w, h))
            && output_position(x, y, widget_w, widget_h, w, h) == Some(
            (x * scale_factor, y * scale_factor),
        ),
{
    law_output_follows_the_scale_factor(x, y, widget_w, widget_h, scale_factor);
}

proof fn lemma_quotient(n: int, num: int)
    requires
        num > 0,
    ensures
        2 * num * (n / (2 * num)) <= n < 2 * num * (n / (2 * num) + 1),
{
    assert(2 * num * (n / (2 * num)) <= n < 2 * num * (n / (2 * num) + 1)) by (nonlinear_arith)
        requires
            num > 0,
    ;
}

proof fn lemma_exact_quotient(position: int, num: int, unit: int, out: int)
    requires
        num > 0,
        0 <= position <= unit * out,
    ensures
        (2 * num * position) / (2 * num) == position,
        0 <= 2 * num * position <= 2 * unit * (out * num),
{
    assert((2 * num * position) / (2 * num) == position) by (nonlinear_arith)
        requires
            num > 0,
    ;
    assert(0 <= 2 * num * position <= 2 * unit * (out * num)) by (nonlinear_arith)
        requires
            num > 0,
            0 <= position <= unit * out,
    ;
}

/// A point maps by proportion. Along the axis that fills the widget, the output position is to the
/// output as the point is to the widget; along the other one the same scale holds, counted from the
/// edge of an image that has half of the room it leaves on either side. Outside the image, and for
/// sizes without area, there is no position.
pub proof fn law_position_is_proportional(
    x: int,
    y: int,
    widget_w: int,
    widget_h: int,
    out_w: int,
    out_h: int,
)
    ensures
        widget_w <= 0 || widget_h <= 0 || out_w <= 0 || out_h <= 0 ==> output_position(
            x,
            y,
            widget_w,
            widget_h,
            out_w,
            out_h,
        ) is None,
        widget_w > 0 && widget_h > 0 && out_w > 0 && out_h > 0 && widget_w * out_h <= widget_h
            * out_w ==> {
            let from_top = 2 * out_w * y - 0x1_0000_0000 * (widget_h * out_w - out_h * widget_w);
            match output_position(x, y, widget_w, widget_h, out_w, out_h) {
                Some((ox, oy)) => {
                    &&& 0 <= x <= 0x1_0000_0000 * widget_w
                    &&& 0 <= from_top <= 0x2_0000_0000 * (out_h * widget_w)
                    &&& ox * widget_w <= x * out_w < (ox + 1) * widget_w
                    &&& oy * (2 * widget_w) <= from_top < (oy + 1) * (2 * widget_w)
                },
                None => {
                    ||| !(0 <= x <= 0x1_0000_0000 * widget_w)
                    ||| !(0 <= from_top <= 0x2_0000_0000 * (out_h * widget_w))
                },
            }
        },
        widget_w > 0 && widget_h > 0 && out_w > 0 && out_h > 0 && widget_w * out_h > widget_h
            * out_w ==> {
            let from_left = 2 * out_h * x - 0x1_0000_0000 * (widget_w * out_h - out_w * widget_h);
            match output_position(x, y, widget_w, widget_h, out_w, out_h) {
                Some((ox, oy)) => {
                    &&& 0 <= y <= 0x1_0000_0000 * widget_h
                    &&& 0 <= from_left <= 0x2_0000_0000 * (out_w * widget_h)
                    &&& oy * widget_h <= y * out_h < (oy + 1) * widget_h
                    &&& ox * (2 * widget_h) <= from_left < (ox + 1) * (2 * widget_h)
                },
                None => {
                    ||| !(0 <= y <= 0x1_0000_0000 * widget_h)
                    ||| !(0 <= from_left <= 0x2_0000_0000 * (out_w * widget_h))
                },
            }
        },
{
    if widget_w > 0 && widget_h > 0 && out_w > 0 && out_h > 0 {
        if widget_w * out_h <= widget_h * out_w {
            lemma_fitted_axis(x, widget_w, out_w);
            lemma_fitted_position(x, widget_w, out_w);
            lemma_centred_position(y, widget_h, out_h, (widget_w, out_w));
        } else {
            lemma_fitted_axis(y, widget_h, out_h);
            lemma_fitted_position(y, widget_h, out_h);
            lemma_centred_position(x, widget_w, out_w, (widget_h, out_h));
        }
    }
}

proof fn lemma_fitted_position(at: int, widget: int, out: int)
    requires
        widget > 0,
    ensures
        ({
            let position = output_at(at, widget, out, (widget, out));
            position * widget <= at * out < (position + 1) * widget
        }),
{
    let n = inside(at, widget, out, (widget, out));
    let position = n / (2 * widget);
    lemma_quotient(n, widget);
    assert(position * widget <= at * out < (position + 1) * widget) by (nonlinear_arith)
        requires
            n == 2 * out * at - SUBPIXELS * (widget * out - out * widget),
            2 * widget * position <= n < 2 * widget * (position + 1),
    ;
}

proof fn lemma_centred_position(at: int, widget: int, out: int, scale: (int, int))
    requires
        scale.0 > 0,
    ensures
        ({
            let position = output_at(at, widget, out, scale);
            position * (2 * scale.0) <= inside(at, widget, out, scale) < (position + 1) * (2
                * scale.0)
        }),
{
    let n = inside(at, widget, out, scale);
    let num = scale.0;
    let position = n / (2 * num);
    lemma_quotient(n, num);
    assert(position * (2 * num) <= n < (position + 1) * (2 * num)) by (nonlinear_arith)
        requires
            2 * num * position <= n < 2 * num * (position + 1),
    ;
}

/// A pane that has been laid out asks for its size in device pixels, or for the nearest size from 16
/// to 16384 on an edge where that is too small or too large; each edge goes by its own length. One
/// that has not been laid out asks for nothing.
pub proof fn law_request_is_the_nearest_allowed_size(
    widget_w: int,
    widget_h: int,
    scale_factor: int,
)
    ensures
        output_request(widget_w, widget_h, scale_factor) is None <==> widget_w <= 0 || widget_h <= 0
            || scale_factor <= 0,
        output_request(widget_w, widget_h, scale_factor) matches Some((w, h)) ==> {
            &&& 16 <= widget_w * scale_factor <= 16384 ==> w == widget_w * scale_factor
            &&& widget_w * scale_factor < 16 ==> w == 16
            &&& widget_w * scale_factor > 16384 ==> w == 16384
            &&& 16 <= widget_h * scale_factor <= 16384 ==> h == widget_h * scale_factor
            &&& widget_h * scale_factor < 16 ==> h == 16
            &&& widget_h * scale_factor > 16384 ==> h == 16384
        },
{
}

/// A position on screen is in pixels of which each holds 2^32 sub-pixels, and an output position
/// appears at the image's near edge plus the position times the scale.
pub proof fn law_positions_are_shown_in_proportion(
    position: int,
    widget: int,
    out: int,
    scale: (int, int),
)
    ensures
        SUBPIXELS == 0x1_0000_0000,
        shown_at(0, widget, out, scale) == 0x1_0000_0000 * (widget * scale.1 - out * scale.0),
        shown_at(position, widget, out, scale) - shown_at(0, widget, out, scale) == 2 * scale.0
            * position,
{
}

} // verus!
