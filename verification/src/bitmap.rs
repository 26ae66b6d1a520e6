//! Bitmaps as plain bytes, and the cut that takes the selected region out
//! of a capture.

use vstd::prelude::*;
use crate::config::Region;
use crate::monitors::{crop_window, window_on, CropWindow, ScaleFactor};

verus! {

/// A bitmap: rows from the top, pixels from the left, the channels of a
/// pixel side by side. A capture has four channels (red, green, blue,
/// alpha), a cut has three (red, green, blue).
#[derive(Clone, Debug, PartialEq, Eq)]
pub struct Bitmap {
    pub width: u32,
    pub height: u32,
    pub pixels: Vec<u8>,
}

/// One channel of one pixel of a bitmap with `channels` channels.
pub open spec fn channel_at(
    pixels: Seq<u8>,
    channels: int,
    width: int,
    column: int,
    row: int,
    channel: int,
) -> u8 {
    pixels[(row * width + column) * channels + channel]
}

/// Whether a capture holds all the bytes that its size asks for.
pub open spec fn is_complete(capture: Bitmap) -> bool {
    capture.pixels@.len() >= 4 * capture.width * capture.height
}

/// The part of a window that lies inside a bitmap of the given size: the
/// corner is moved onto the bitmap, then the size is cut down to what is
/// left of the bitmap from there.
pub open spec fn window_inside(window: CropWindow, width: u32, height: u32) -> CropWindow {
    let x = if window.x < width { window.x } else { width };
    let y = if window.y < height { window.y } else { height };
    CropWindow {
        x,
        y,
        w: if window.w < width - x { window.w } else { (width - x) as u32 },
        h: if window.h < height - y { window.h } else { (height - y) as u32 },
    }
}

/// Whether `cut` shows the pixels of `capture` inside `inside`, without
/// their alpha channel.
pub open spec fn is_cut_of(cut: Bitmap, capture: Bitmap, inside: CropWindow) -> bool {
    &&& cut.width == inside.w
    &&& cut.height == inside.h
    &&& cut.pixels@.len() == 3 * inside.w * inside.h
    &&& forall|column: int, row: int, channel: int|
        0 <= column < inside.w && 0 <= row < inside.h && 0 <= channel < 3 ==> #[trigger] channel_at(
            cut.pixels@,
            3,
            inside.w as int,
            column,
            row,
            channel,
        ) == channel_at(
            capture.pixels@,
            4,
            capture.width as int,
            inside.x + column,
            inside.y + row,
            channel,
        )
}

proof fn pixel_order(width: int, column: int, row: int, before_column: int, before_row: int)
    requires
        0 <= column < width,
        0 <= row,
        0 <= before_column <= width,
        row < before_row || (row == before_row && column < before_column),
    ensures
        0 <= row * width + column < before_row * width + before_column,
{
    assert(row * width >= 0) by (nonlinear_arith)
        requires
            row >= 0,
            width >= 0,
    ;
    if row < before_row {
        assert((row + 1) * width <= before_row * width) by (nonlinear_arith)
            requires
                row + 1 <= before_row,
                width >= 0,
        ;
        assert((row + 1) * width == row * width + width) by (nonlinear_arith);
    }
}

proof fn pixel_inside(width: int, height: int, column: int, row: int)
    requires
        0 <= column < width,
        0 <= row < height,
    ensures
        0 <= row * width + column < width * height,
{
    pixel_order(width, column, row, 0, height);
    assert(height * width == width * height) by (nonlinear_arith);
}

/// Cuts the window out of a capture and drops the alpha channel. A window
/// that reaches over the edge of the capture is cut down to the part
/// inside. Returns `None` exactly when the capture holds fewer bytes than
/// its size asks for.
pub fn crop_to_rgb(capture: &Bitmap, window: &CropWindow) -> (out: Option<Bitmap>)
    ensures
        out is Some == is_complete(*capture),
        out matches Some(cut) ==> is_cut_of(
            cut,
            *capture,
            window_inside(*window, capture.width, capture.height),
        ),
{
    let width: u32 = capture.width;
    let height: u32 = capture.height;
    proof {
        assert(0 <= width * height <= 0xFFFF_FFFF * 0xFFFF_FFFF) by (nonlinear_arith)
            requires
                0 <= width <= 0xFFFF_FFFF,
                0 <= height <= 0xFFFF_FFFF,
        ;
        assert(4 * width * height == 4 * (width * height)) by (nonlinear_arith);
    }
    let area: u128 = (width as u128) * (height as u128);
    let needed: u128 = 4 * area;
    if (capture.pixels.len() as u128) < needed {
        return None;
    }
    let x: u32 = if window.x < width { window.x } else { width };
    let y: u32 = if window.y < height { window.y } else { height };
    let w: u32 = if window.w < width - x { window.w } else { width - x };
    let h: u32 = if window.h < height - y { window.h } else { height - y };
    let ghost inside = window_inside(*window, width, height);
    let ghost source = capture.pixels@;
    let size: usize = capture.pixels.len();
    let mut pixels: Vec<u8> = Vec::new();
    let mut row: u32 = 0;
    while row < h
        invariant
            row <= h,
            inside == (CropWindow { x, y, w, h }),
            x + w <= width,
            y + h <= height,
            source == capture.pixels@,
            source.len() >= 4 * (width * height),
            source.len() == size,
            width == capture.width,
            pixels@.len() == 3 * (row * w),
            forall|c: int, r: int, k: int|
                0 <= c < w && 0 <= r < row && 0 <= k < 3 ==> #[trigger] channel_at(
                    pixels@,
                    3,
                    w as int,
                    c,
                    r,
                    k,
                ) == channel_at(source, 4, width as int, x + c, y + r, k),
        decreases h - row,
    {
        let mut column: u32 = 0;
        while column < w
            invariant
                column <= w,
                row < h,
                x + w <= width,
                y + h <= height,
                source == capture.pixels@,
                source.len() >= 4 * (width * height),
                source.len() == size,
                width == capture.width,
                pixels@.len() == 3 * (row * w + column),
                forall|c: int, r: int, k: int|
                    0 <= c < w && 0 <= k < 3 && (0 <= r < row || (r == row && c < column))
                        ==> #[trigger] channel_at(pixels@, 3, w as int, c, r, k) == channel_at(
                        source,
                        4,
                        width as int,
                        x + c,
                        y + r,
                        k,
                    ),
            decreases w - column,
        {
            proof {
                pixel_inside(width as int, height as int, x + column, y + row);
                assert(0 <= (y + row) * width) by (nonlinear_arith)
                    requires
                        0 <= y + row,
                        0 <= width,
                ;
                let p = (y + row) * width + (x + column);
                assert(4 * p + 3 < source.len());
                assert(source.len() <= usize::MAX);
            }
            let at: usize = (((y + row) as usize) * (width as usize) + ((x + column) as usize))
                * 4;
            let ghost before = pixels@;
            pixels.push(capture.pixels[at]);
            pixels.push(capture.pixels[at + 1]);
            pixels.push(capture.pixels[at + 2]);
            proof {
                assert forall|c: int, r: int, k: int|
                    0 <= c < w && 0 <= k < 3 && (0 <= r < row || (r == row && c < column + 1))
                    implies #[trigger] channel_at(pixels@, 3, w as int, c, r, k) == channel_at(
                    source,
                    4,
                    width as int,
                    x + c,
                    y + r,
                    k,
                ) by {
                    if r == row && c == column {
                        assert(pixels@[(r * w + c) * 3 + k] == source[at + k]);
                    } else {
                        pixel_order(w as int, c, r, column as int, row as int);
                        assert(pixels@[(r * w + c) * 3 + k] == before[(r * w + c) * 3 + k]);
                        assert(channel_at(before, 3, w as int, c, r, k) == channel_at(
                            source,
                            4,
                            width as int,
                            x + c,
                            y + r,
                            k,
                        ));
                    }
                }
            }
            column += 1;
        }
        proof {
            assert((row + 1) * w == row * w + w) by (nonlinear_arith);
        }
        row += 1;
    }
    proof {
        assert(3 * (h * w) == 3 * w * h) by (nonlinear_arith);
    }
    Some(Bitmap { width: w, height: h, pixels })
}

/// Cuts a region out of the capture of a display: the region is scaled to
/// device pixels, cut down to the capture, and taken out without its alpha
/// channel. Returns `None` exactly when the capture holds fewer bytes than
/// its size asks for.
pub fn crop_capture(capture: &Bitmap, region: &Region, scale: ScaleFactor) -> (out: Option<Bitmap>)
    ensures
        out is Some == is_complete(*capture),
        out matches Some(cut) ==> is_cut_of(
            cut,
            *capture,
            window_inside(window_on(*region, scale), capture.width, capture.height),
        ),
{
    let window = crop_window(region, scale);
    crop_to_rgb(capture, &window)
}

/// A window that lies inside the capture is cut out as it is.
pub proof fn window_inside_keeps_what_fits(window: CropWindow, width: u32, height: u32)
    requires
        window.x + window.w <= width,
        window.y + window.h <= height,
    ensures
        window_inside(window, width, height) == window,
{
}

/// What is cut out always lies inside the capture.
pub proof fn window_inside_fits(window: CropWindow, width: u32, height: u32)
    ensures
        window_inside(window, width, height).x + window_inside(window, width, height).w <= width,
        window_inside(window, width, height).y + window_inside(window, width, height).h <= height,
        window_inside(window, width, height).w <= window.w,
        window_inside(window, width, height).h <= window.h,
{
}

} // verus!
