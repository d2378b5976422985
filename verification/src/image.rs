//! From a raw RGBx frame to an image of opaque colours.

use vstd::prelude::*;

use crate::frame::{FrameModel, VideoFrame};

verus! {

/// A colour with premultiplied alpha.
#[derive(Clone, Copy, Debug, PartialEq, Eq, Structural)]
pub struct Rgba {
    pub r: u8,
    pub g: u8,
    pub b: u8,
    pub a: u8,
}

/// An image, its pixels row by row from the top.
#[derive(Debug, PartialEq)]
pub struct ColorImage {
    /// Width and height in pixels.
    pub size: [usize; 2],
    pub pixels: Vec<Rgba>,
}

/// The opaque colour of three channels.
pub open spec fn opaque_rgb(r: u8, g: u8, b: u8) -> Rgba {
    Rgba { r, g, b, a: 255 }
}

/// What every pixel is before the frame's bytes are drawn.
pub open spec fn black() -> Rgba {
    opaque_rgb(0, 0, 0)
}

/// The bytes of one row of RGBx pixels, four for each.
pub open spec fn row_bytes(frame: FrameModel) -> int {
    4 * frame.width
}

/// How many complete rows the frame's bytes hold. Bytes after the last complete row belong to none.
pub open spec fn complete_rows(frame: FrameModel) -> int {
    frame.data.len() as int / row_bytes(frame)
}

/// A frame can be drawn when it has columns, when its bytes fill no more rows than it is high, and
/// when this machine can address one row of its bytes and hold its pixels.
pub open spec fn drawable(frame: FrameModel) -> bool {
    &&& frame.width > 0
    &&& row_bytes(frame) <= usize::MAX
    &&& 4 * (frame.width * frame.height) <= isize::MAX
    &&& complete_rows(frame) <= frame.height
}

/// The colour of the `i`th pixel that the frame's bytes hold; the fourth byte is padding.
pub open spec fn stored_pixel(frame: FrameModel, i: int) -> Rgba {
    opaque_rgb(frame.data[4 * i], frame.data[4 * i + 1], frame.data[4 * i + 2])
}

/// The pixels of the frame, row by row: those of its complete rows, and black below them.
pub open spec fn pixels_of(frame: FrameModel) -> Seq<Rgba> {
    Seq::new(
        (frame.width * frame.height) as nat,
        |i: int|
            if i < complete_rows(frame) * frame.width {
                stored_pixel(frame, i)
            } else {
                black()
            },
    )
}

/// `egui::Color32::from_rgb`: the three channels as they are, with full alpha.
#[verifier::external_body]
fn color_from_rgb(r: u8, g: u8, b: u8) -> (color: Rgba)
    ensures
        color == opaque_rgb(r, g, b),
{
    let [r, g, b, a] = egui::Color32::from_rgb(r, g, b).to_array();
    Rgba { r, g, b, a }
}

/// Complete rows of a drawable frame fit in its data and in its picture.
proof fn lemma_rows_fit(frame: FrameModel)
    requires
        drawable(frame),
    ensures
        0 <= complete_rows(frame) * frame.width <= frame.width * frame.height,
        4 * (complete_rows(frame) * frame.width) <= frame.data.len(),
{
    let w = frame.width as int;
    let h = frame.height as int;
    let n = frame.data.len() as int;
    let rows = n / (4 * w);
    assert(rows >= 0 && rows * (4 * w) <= n) by (nonlinear_arith)
        requires
            rows == n / (4 * w),
            n >= 0,
            w > 0,
    ;
    assert(4 * (rows * w) == rows * (4 * w)) by (nonlinear_arith);
    assert(0 <= rows * w <= w * h) by (nonlinear_arith)
        requires
            0 <= rows <= h,
            w > 0,
    ;
}

/// Whether the frame can be drawn.
pub fn is_drawable(frame: &VideoFrame) -> (is: bool)
    ensures
        is == drawable(frame@),
{
    let width: u128 = frame.width as u128;
    let height: u128 = frame.height as u128;
    let row: u128 = 4 * width;
    if frame.width == 0 || row > usize::MAX as u128 {
        return false;
    }
    assert(width * height <= 0xffff_ffff * 0xffff_ffff) by (nonlinear_arith)
        requires
            width <= 0xffff_ffff,
            height <= 0xffff_ffff,
    ;
    let area: u128 = width * height;
    let rows: usize = frame.data.len() / (row as usize);
    4 * area <= isize::MAX as u128 && rows as u128 <= height
}

/// Draws an RGBx frame. Each pixel takes four bytes, of which the last is ignored.
pub fn convert_rgbx_to_color_image(frame: VideoFrame) -> (image: ColorImage)
    requires
        drawable(frame@),
    ensures
        image.size@ == seq![frame.width as usize, frame.height as usize],
        image.pixels@ == pixels_of(frame@),
{
    let width: usize = frame.width as usize;
    let height: usize = frame.height as usize;
    proof {
        lemma_rows_fit(frame@);
        assert(0 <= width * height) by (nonlinear_arith);
    }
    let area: usize = width * height;
    let stored: usize = (frame.data.len() / (width * 4)) * width;
    let mut pixels: Vec<Rgba> = vec![color_from_rgb(0, 0, 0); area];
    let mut i: usize = 0;
    while i < stored
        invariant
            i <= stored <= area,
            stored == complete_rows(frame@) * frame.width,
            4 * stored <= frame.data.len(),
            area == frame.width * frame.height,
            pixels.len() == area,
            forall|j: int| 0 <= j < i ==> #[trigger] pixels@[j] == stored_pixel(frame@, j),
            forall|j: int| i <= j < area ==> #[trigger] pixels@[j] == black(),
        decreases stored - i,
    {
        let at: usize = 4 * i;
        pixels[i] = color_from_rgb(frame.data[at], frame.data[at + 1], frame.data[at + 2]);
        i += 1;
    }
    ColorImage { size: [width, height], pixels }
}

/// A picture is stored row by row: the pixel in column `x` of row `y` is drawn from the four bytes
/// that start `4 * x` bytes into the `y`th row.
pub proof fn pixel_comes_from_its_row(frame: FrameModel, x: int, y: int)
    requires
        drawable(frame),
        0 <= x < frame.width,
        0 <= y < complete_rows(frame),
    ensures
        ({
            let start = y * row_bytes(frame) + 4 * x;
            &&& 0 <= start
            &&& start + 4 <= frame.data.len()
            &&& pixels_of(frame)[y * frame.width + x] == opaque_rgb(
                frame.data[start],
                frame.data[start + 1],
                frame.data[start + 2],
            )
        }),
{
    lemma_rows_fit(frame);
    let w = frame.width as int;
    let rows = complete_rows(frame);
    assert(0 <= y * w + x < rows * w) by (nonlinear_arith)
        requires
            0 <= x < w,
            0 <= y < rows,
    ;
    assert(4 * (y * w + x) == y * (4 * w) + 4 * x) by (nonlinear_arith);
}

/// A frame with exactly the bytes of its size is drawable when this machine can hold it, and no row
/// of it is missing.
pub proof fn full_frame_is_drawn_whole(frame: FrameModel)
    requires
        frame.width > 0,
        row_bytes(frame) <= usize::MAX,
        4 * (frame.width * frame.height) <= isize::MAX,
        frame.data.len() == 4 * (frame.width * frame.height),
    ensures
        drawable(frame),
        complete_rows(frame) == frame.height,
{
    let w = frame.width as int;
    let h = frame.height as int;
    assert((4 * (w * h)) / (4 * w) == h) by (nonlinear_arith)
        requires
            w > 0,
            h >= 0,
    ;
}

/// Every row that the bytes do not fill is black.
pub proof fn missing_rows_are_black(frame: FrameModel, x: int, y: int)
    requires
        drawable(frame),
        0 <= x < frame.width,
        complete_rows(frame) <= y < frame.height,
    ensures
        0 <= y * frame.width + x < pixels_of(frame).len(),
        pixels_of(frame)[y * frame.width + x] == black(),
{
    let w = frame.width as int;
    let h = frame.height as int;
    let rows = complete_rows(frame);
    lemma_rows_fit(frame);
    assert(rows * w <= y * w + x < w * h) by (nonlinear_arith)
        requires
            0 <= x < w,
            rows <= y < h,
    ;
}

/// The padding byte of a pixel never shows: two drawable frames of one size whose bytes differ in
/// padding alone are drawn the same.
pub proof fn padding_never_shows(a: FrameModel, b: FrameModel)
    requires
        drawable(a),
        a.width == b.width,
        a.height == b.height,
        a.data.len() == b.data.len(),
        forall|i: int| 0 <= i < a.data.len() && i % 4 != 3 ==> a.data[i] == #[trigger] b.data[i],
    ensures
        drawable(b),
        pixels_of(a) == pixels_of(b),
{
    lemma_rows_fit(a);
    assert forall|i: int| 0 <= i < complete_rows(a) * a.width implies stored_pixel(a, i)
        == stored_pixel(b, i) by {
        assert(a.data[4 * i] == b.data[4 * i]);
        assert(a.data[4 * i + 1] == b.data[4 * i + 1]);
        assert(a.data[4 * i + 2] == b.data[4 * i + 2]);
    }
    assert(pixels_of(a) =~= pixels_of(b));
}

} // verus!
