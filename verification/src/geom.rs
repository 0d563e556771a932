//! Stroke geometry: the rasterized form of a line-stroke command and its
//! effect on a raster buffer.
//!
//! A client's stroke is a line segment with a thickness; resolving it to the
//! four corner points of the (possibly rotated) rectangle centered on the
//! segment is floating-point work done at the transport boundary. The hub
//! receives the corners as plain integer pixel coordinates, in the rotational
//! order first-start, first-end, second-end, second-start, and decides here
//! what happens to the canvas buffer.

use crate::color::{rgba_of, CssColor};
use vstd::prelude::*;

verus! {

/// One pixel coordinate of a polygon corner.
#[derive(Clone, Copy, PartialEq, Eq, Structural, Debug)]
pub struct Pt {
    pub x: i32,
    pub y: i32,
}

/// A stroke command, already resolved to the four corner points of the
/// quadrilateral it paints, with the color to paint it in.
#[derive(Clone, Copy, PartialEq, Eq, Structural, Debug)]
pub struct Draw {
    pub p0: Pt,
    pub p1: Pt,
    pub p2: Pt,
    pub p3: Pt,
    pub color: CssColor,
}

/// The raster buffer after filling the quadrilateral `pts` (clipped to the
/// `width` x `height` canvas) with `color`, as `imageproc` computes it.
pub uninterp spec fn polygon_filled(
    width: u32,
    height: u32,
    buf: Seq<u8>,
    pts: Seq<(int, int)>,
    color: (u8, u8, u8, u8),
) -> Seq<u8>;

/// The corner points of a stroke, in their rotational order.
pub open spec fn draw_points(d: Draw) -> Seq<(int, int)> {
    seq![
        (d.p0.x as int, d.p0.y as int),
        (d.p1.x as int, d.p1.y as int),
        (d.p2.x as int, d.p2.y as int),
        (d.p3.x as int, d.p3.y as int),
    ]
}

/// The RGBA value of a stroke's color, as the four channel bytes.
pub open spec fn draw_color_bytes(d: Draw) -> (u8, u8, u8, u8) {
    let c = rgba_of(d.color);
    (c.r, c.g, c.b, c.a)
}

/// A stroke whose first and last corner points coincide collapses to a
/// degenerate polygon; it is skipped rather than filled. Only this narrow
/// configuration is guarded against.
pub open spec fn is_degenerate(d: Draw) -> bool {
    d.p0 == d.p3
}

/// What one stroke does to a raster buffer: nothing when degenerate,
/// otherwise a filled quadrilateral.
pub open spec fn stroke_effect(width: u32, height: u32, buf: Seq<u8>, d: Draw) -> Seq<u8> {
    if is_degenerate(d) {
        buf
    } else {
        polygon_filled(width, height, buf, draw_points(d), draw_color_bytes(d))
    }
}

/// A degenerate (for instance zero-length) stroke leaves the buffer
/// byte-for-byte unchanged.
pub proof fn lemma_degenerate_stroke_noop(width: u32, height: u32, buf: Seq<u8>, d: Draw)
    requires
        is_degenerate(d),
    ensures
        stroke_effect(width, height, buf, d) == buf,
{
}

/// Relies on imageproc's `drawing::draw_polygon_mut`: fills the polygon
/// (clipped to the image bounds) in place, so the buffer keeps its length;
/// the result depends only on the image, the points and the color. The
/// dimensions must be positive: the fill visits at least one scanline, which
/// an empty image does not have.
#[verifier::external_body]
pub(crate) fn draw_polygon_raw(
    width: u32,
    height: u32,
    buf: &mut Vec<u8>,
    p0: Pt,
    p1: Pt,
    p2: Pt,
    p3: Pt,
    color: (u8, u8, u8, u8),
)
    requires
        width >= 1,
        height >= 1,
        old(buf)@.len() == width as nat * height as nat * 4,
    ensures
        final(buf)@ == polygon_filled(
            width,
            height,
            old(buf)@,
            seq![
                (p0.x as int, p0.y as int),
                (p1.x as int, p1.y as int),
                (p2.x as int, p2.y as int),
                (p3.x as int, p3.y as int),
            ],
            color,
        ),
        final(buf)@.len() == old(buf)@.len(),
{
    let data = std::mem::take(buf);
    let mut img = image::RgbaImage::from_raw(width, height, data)
        .expect("buffer length matches the dimensions");
    let points = [
        imageproc::point::Point::new(p0.x, p0.y),
        imageproc::point::Point::new(p1.x, p1.y),
        imageproc::point::Point::new(p2.x, p2.y),
        imageproc::point::Point::new(p3.x, p3.y),
    ];
    let rgba = image::Rgba([color.0, color.1, color.2, color.3]);
    imageproc::drawing::draw_polygon_mut(&mut img, &points, rgba);
    *buf = img.into_raw();
}

} // verus!
