//! Integer geometry: the editor window's size and the region handed to OCR.

use vstd::prelude::*;

verus! {

/// The widest editor window.
pub const MAX_WINDOW_WIDTH: i32 = 1600;

/// The tallest editor window.
pub const MAX_WINDOW_HEIGHT: i32 = 900;

/// Room above the image for the toolbar.
pub const TOOLBAR_HEIGHT: i32 = 50;

/// The smallest width and height of a region worth reading.
pub const MIN_OCR_SIDE: i32 = 5;

pub open spec fn min_int(a: int, b: int) -> int {
    if a <= b { a } else { b }
}

/// The editor window for an image of `img_w` by `img_h` pixels: as large as
/// the image plus the toolbar, at most 1600 by 900.
pub fn editor_window_size(img_w: i32, img_h: i32) -> (size: (i32, i32))
    requires
        img_h + TOOLBAR_HEIGHT <= i32::MAX,
    ensures
        size.0 == min_int(img_w as int, MAX_WINDOW_WIDTH as int),
        size.1 == min_int(img_h + TOOLBAR_HEIGHT, MAX_WINDOW_HEIGHT as int),
        size.0 <= MAX_WINDOW_WIDTH,
        size.1 <= MAX_WINDOW_HEIGHT,
{
    let w = if img_w < MAX_WINDOW_WIDTH { img_w } else { MAX_WINDOW_WIDTH };
    let h = img_h + TOOLBAR_HEIGHT;
    let h = if h < MAX_WINDOW_HEIGHT { h } else { MAX_WINDOW_HEIGHT };
    (w, h)
}

/// A rectangle of whole pixels.
#[derive(Clone, Copy, Debug, PartialEq, Eq, Structural)]
pub struct CropRect {
    pub x: i32,
    pub y: i32,
    pub width: i32,
    pub height: i32,
}

/// The region of a `bg_w` by `bg_h` background that OCR reads for a
/// selection at (`x`, `y`) of `w` by `h` pixels: nothing when the selection
/// is narrower or lower than 5 pixels, else the selection with its corner
/// moved onto the last pixel row or column when it lies beyond, and its
/// size cut at the background's edge.
pub open spec fn ocr_crop_spec(x: int, y: int, w: int, h: int, bg_w: int, bg_h: int) -> Option<
    CropRect,
> {
    if w < MIN_OCR_SIDE || h < MIN_OCR_SIDE {
        None
    } else {
        let cx = min_int(x, bg_w - 1);
        let cy = min_int(y, bg_h - 1);
        Some(
            CropRect {
                x: cx as i32,
                y: cy as i32,
                width: min_int(w, bg_w - cx) as i32,
                height: min_int(h, bg_h - cy) as i32,
            },
        )
    }
}

/// The region that OCR reads; see [`ocr_crop_spec`].  `x` and `y` are the
/// selection's top-left corner, already moved to be at least 0.
pub fn ocr_crop(x: i32, y: i32, w: i32, h: i32, bg_w: i32, bg_h: i32) -> (r: Option<CropRect>)
    requires
        x >= 0,
        y >= 0,
        bg_w >= 0,
        bg_h >= 0,
    ensures
        r == ocr_crop_spec(x as int, y as int, w as int, h as int, bg_w as int, bg_h as int),
        // A region that is read lies inside a non-empty background and is
        // at least one pixel wide and high.
        r matches Some(c) ==> c.width >= 1 && c.height >= 1 && c.width <= w && c.height <= h,
        bg_w >= 1 && bg_h >= 1 ==> (r matches Some(c) ==> 0 <= c.x && c.x + c.width <= bg_w && 0
            <= c.y && c.y + c.height <= bg_h),
{
    if w < MIN_OCR_SIDE || h < MIN_OCR_SIDE {
        return None;
    }
    let cx = if x < bg_w - 1 { x } else { bg_w - 1 };
    let cy = if y < bg_h - 1 { y } else { bg_h - 1 };
    let room_w = bg_w - cx;
    let room_h = bg_h - cy;
    let cw = if w < room_w { w } else { room_w };
    let ch = if h < room_h { h } else { room_h };
    Some(CropRect { x: cx, y: cy, width: cw, height: ch })
}

/// The window fits the image and the 50-pixel toolbar, but never exceeds
/// 1600 by 900: an image that fits is shown whole, a larger one is capped.
pub proof fn lemma_window_size(img_w: i32, img_h: i32)
    requires
        img_h + 50 <= i32::MAX,
    ensures
        img_w <= 1600 ==> min_int(img_w as int, MAX_WINDOW_WIDTH as int) == img_w,
        img_w >= 1600 ==> min_int(img_w as int, MAX_WINDOW_WIDTH as int) == 1600,
        img_h + 50 <= 900 ==> min_int(img_h + TOOLBAR_HEIGHT, MAX_WINDOW_HEIGHT as int) == img_h
            + 50,
        img_h + 50 >= 900 ==> min_int(img_h + TOOLBAR_HEIGHT, MAX_WINDOW_HEIGHT as int) == 900,
{
}

/// A selection narrower or lower than 5 pixels is not read at all; one of
/// at least 5 by 5 pixels that lies inside the background is read exactly
/// as selected.
pub proof fn lemma_ocr_crop_selection(x: int, y: int, w: int, h: int, bg_w: int, bg_h: int)
    requires
        0 <= x,
        0 <= y,
        x + w <= bg_w <= i32::MAX,
        y + h <= bg_h <= i32::MAX,
    ensures
        w < 5 || h < 5 ==> ocr_crop_spec(x, y, w, h, bg_w, bg_h) is None,
        w >= 5 && h >= 5 ==> ocr_crop_spec(x, y, w, h, bg_w, bg_h) == Some(
            CropRect { x: x as i32, y: y as i32, width: w as i32, height: h as i32 },
        ),
{
}

} // verus!
