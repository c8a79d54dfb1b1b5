//! Conversion of decoded RGBA pixels into the byte layout of a Cairo
//! ARGB32 image surface on a little-endian machine (B, G, R, A per pixel,
//! rows `stride` bytes apart).

use vstd::prelude::*;

use vstd::arithmetic::div_mod::lemma_fundamental_div_mod_converse;

verus! {

/// For channel `c` of a surface pixel (0 = B, 1 = G, 2 = R, 3 = A), the
/// channel of the RGBA pixel it is taken from.
pub open spec fn source_channel(c: int) -> int {
    if c == 0 {
        2
    } else if c == 2 {
        0
    } else {
        c
    }
}

/// Byte `i` of the surface: a channel of the pixel that it belongs to, or
/// 0 in the padding at the end of a row.
pub open spec fn argb32_byte(rgba: Seq<u8>, width: int, stride: int, i: int) -> u8 {
    let row = i / stride;
    let col = i % stride;
    if col < width * 4 {
        rgba[(row * width + col / 4) * 4 + source_channel(col % 4)]
    } else {
        0
    }
}

/// The whole surface: `height` rows of `stride` bytes.
pub open spec fn argb32_surface(rgba: Seq<u8>, width: int, height: int, stride: int) -> Seq<u8> {
    Seq::new((stride * height) as nat, |i: int| argb32_byte(rgba, width, stride, i))
}

proof fn lemma_row_col(y: int, col: int, stride: int)
    requires
        0 <= y,
        0 <= col < stride,
    ensures
        (y * stride + col) / stride == y,
        (y * stride + col) % stride == col,
{
    lemma_fundamental_div_mod_converse(y * stride + col, stride, y, col);
}

proof fn lemma_pixel_in_bounds(y: int, x: int, width: int, height: int)
    requires
        0 <= y < height,
        0 <= x < width,
    ensures
        0 <= y * width + x < width * height,
        (y * width + x) * 4 + 3 < width * height * 4,
{
    assert(y * width + x < width * height) by (nonlinear_arith)
        requires
            0 <= y < height,
            0 <= x < width,
    ;
    assert(0 <= y * width) by (nonlinear_arith)
        requires
            0 <= y,
            0 <= x < width,
    ;
}

proof fn lemma_row_fits(y: int, col: int, stride: int, height: int)
    requires
        0 <= y < height,
        0 <= col < stride,
    ensures
        y * stride + col < stride * height,
        0 <= y * stride,
{
    assert(y * stride + col < stride * height) by (nonlinear_arith)
        requires
            0 <= y < height,
            0 <= col < stride,
    ;
    assert(0 <= y * stride) by (nonlinear_arith)
        requires
            0 <= y,
            0 <= stride,
    ;
}

/// Lays out `width` by `height` RGBA pixels (4 bytes each, rows one after
/// the other) as the data of a Cairo ARGB32 surface with rows `stride`
/// bytes apart, the padding at the end of each row being 0.
pub fn rgba_to_argb32(rgba: &Vec<u8>, width: usize, height: usize, stride: usize) -> (out: Vec<
    u8,
>)
    requires
        rgba@.len() == width * height * 4,
        width * 4 <= stride,
        stride * height <= usize::MAX,
    ensures
        out@ == argb32_surface(rgba@, width as int, height as int, stride as int),
{
    let mut out: Vec<u8> = Vec::new();
    let rgba_len = rgba.len();
    let row_bytes = width * 4;
    let mut y: usize = 0;
    while y < height
        invariant
            rgba@.len() == width * height * 4,
            rgba_len == rgba@.len(),
            row_bytes == width * 4,
            width * 4 <= stride,
            stride * height <= usize::MAX,
            y <= height,
            out@.len() == y * stride,
            forall|i: int|
                0 <= i < out@.len() ==> out@[i] == argb32_byte(
                    rgba@,
                    width as int,
                    stride as int,
                    i,
                ),
        decreases height - y,
    {
        let mut col: usize = 0;
        while col < stride
            invariant
                rgba@.len() == width * height * 4,
                rgba_len == rgba@.len(),
                row_bytes == width * 4,
                width * 4 <= stride,
                stride * height <= usize::MAX,
                y < height,
                col <= stride,
                out@.len() == y * stride + col,
                forall|i: int|
                    0 <= i < out@.len() ==> out@[i] == argb32_byte(
                        rgba@,
                        width as int,
                        stride as int,
                        i,
                    ),
            decreases stride - col,
        {
            proof {
                lemma_row_col(y as int, col as int, stride as int);
                lemma_row_fits(y as int, col as int, stride as int, height as int);
            }
            if col < row_bytes {
                let x = col / 4;
                proof {
                    lemma_pixel_in_bounds(y as int, x as int, width as int, height as int);
                }
                let pixel = y * width + x;
                let c = col % 4;
                let source = if c == 0 {
                    2
                } else if c == 2 {
                    0
                } else {
                    c
                };
                out.push(rgba[pixel * 4 + source]);
            } else {
                out.push(0);
            }
            col = col + 1;
        }
        proof {
            assert((y + 1) * stride == y * stride + stride) by (nonlinear_arith);
        }
        y = y + 1;
    }
    proof {
        assert(y * stride == stride * height) by (nonlinear_arith)
            requires
                y == height,
        ;
        assert(out@ =~= argb32_surface(rgba@, width as int, height as int, stride as int));
    }
    out
}

/// Each pixel of the image keeps its place: the surface bytes of pixel
/// (`x`, `y`) start at `y * stride + 4 * x` and hold its blue, green, red
/// and alpha channels in that order.
pub proof fn lemma_argb32_pixel(
    rgba: Seq<u8>,
    width: int,
    height: int,
    stride: int,
    x: int,
    y: int,
    c: int,
)
    requires
        rgba.len() == width * height * 4,
        width * 4 <= stride,
        0 <= x < width,
        0 <= y < height,
        0 <= c < 4,
    ensures
        ({
            let surface = argb32_surface(rgba, width, height, stride);
            let at = y * stride + x * 4 + c;
            let pixel = (y * width + x) * 4;
            &&& 0 <= at < surface.len()
            &&& surface[at] == rgba[pixel + source_channel(c)]
            &&& c == 0 ==> surface[at] == rgba[pixel + 2]
            &&& c == 1 ==> surface[at] == rgba[pixel + 1]
            &&& c == 2 ==> surface[at] == rgba[pixel]
            &&& c == 3 ==> surface[at] == rgba[pixel + 3]
        }),
{
    let col = x * 4 + c;
    lemma_row_col(y, col, stride);
    lemma_row_fits(y, col, stride, height);
    lemma_fundamental_div_mod_converse(col, 4, x, c);
}

/// The bytes at the end of a row, past its last pixel, are 0.
pub proof fn lemma_argb32_padding(
    rgba: Seq<u8>,
    width: int,
    height: int,
    stride: int,
    y: int,
    col: int,
)
    requires
        rgba.len() == width * height * 4,
        0 <= width,
        width * 4 <= col < stride,
        0 <= y < height,
    ensures
        ({
            let surface = argb32_surface(rgba, width, height, stride);
            &&& 0 <= y * stride + col < surface.len()
            &&& surface[y * stride + col] == 0
        }),
{
    lemma_row_col(y, col, stride);
    lemma_row_fits(y, col, stride, height);
}

} // verus!
