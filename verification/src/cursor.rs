//! The mouse cursor: its image as RGBA bytes, where it falls in a captured
//! region, and which of its pixels are drawn onto which frame bytes.
use vstd::prelude::*;

use crate::geometry::{fits_i32, wrap_i32, Point, Rectangle};

verus! {

/// Information about the cursor.
#[derive(Debug, Clone)]
pub struct CursorInfo {
    pub position: Point,
    pub hotspot: Point,
    pub width: u32,
    pub height: u32,
    pub pixels: Vec<u8>,
}

/// Red, green, blue and alpha bytes of a packed ARGB pixel.
pub open spec fn argb_red(argb: u32) -> u8 {
    ((argb >> 16u32) & 0xffu32) as u8
}

pub open spec fn argb_green(argb: u32) -> u8 {
    ((argb >> 8u32) & 0xffu32) as u8
}

pub open spec fn argb_blue(argb: u32) -> u8 {
    (argb & 0xffu32) as u8
}

pub open spec fn argb_alpha(argb: u32) -> u8 {
    ((argb >> 24u32) & 0xffu32) as u8
}

/// Unpacks ARGB32 pixels into R, G, B, A bytes, four per pixel, in order.
pub fn argb_to_rgba(image: &[u32]) -> (out: Vec<u8>)
    ensures
        out@.len() == 4 * image@.len(),
        forall|i: int|
            0 <= i < image@.len() ==> {
                &&& #[trigger] out@[4 * i] == argb_red(image@[i])
                &&& out@[4 * i + 1] == argb_green(image@[i])
                &&& out@[4 * i + 2] == argb_blue(image@[i])
                &&& out@[4 * i + 3] == argb_alpha(image@[i])
            },
{
    let n = image.len();
    let mut out: Vec<u8> = Vec::new();
    let mut k: usize = 0;
    while k < n
        invariant
            n == image@.len(),
            0 <= k <= n,
            out@.len() == 4 * k,
            forall|i: int|
                0 <= i < k ==> {
                    &&& #[trigger] out@[4 * i] == argb_red(image@[i])
                    &&& out@[4 * i + 1] == argb_green(image@[i])
                    &&& out@[4 * i + 2] == argb_blue(image@[i])
                    &&& out@[4 * i + 3] == argb_alpha(image@[i])
                },
        decreases n - k,
    {
        let argb = image[k];
        let a = ((argb >> 24u32) & 0xffu32) as u8;
        let r = ((argb >> 16u32) & 0xffu32) as u8;
        let g = ((argb >> 8u32) & 0xffu32) as u8;
        let b = (argb & 0xffu32) as u8;
        let ghost before = out@;
        out.push(r);
        out.push(g);
        out.push(b);
        out.push(a);
        assert(out@ == before.push(r).push(g).push(b).push(a));
        assert forall|i: int| 0 <= i < k + 1 implies {
            &&& #[trigger] out@[4 * i] == argb_red(image@[i])
            &&& out@[4 * i + 1] == argb_green(image@[i])
            &&& out@[4 * i + 2] == argb_blue(image@[i])
            &&& out@[4 * i + 3] == argb_alpha(image@[i])
        } by {
            if i < k {
                assert(out@[4 * i] == before[4 * i]);
                assert(out@[4 * i + 1] == before[4 * i + 1]);
                assert(out@[4 * i + 2] == before[4 * i + 2]);
                assert(out@[4 * i + 3] == before[4 * i + 3]);
            }
        }
        k = k + 1;
    }
    out
}

/// Builds the cursor description from an XFixes cursor image: `None` when
/// the cursor has no visible size, else the position, hotspot, size and the
/// image unpacked to RGBA bytes.
pub fn cursor_info_from_image(
    x: i16,
    y: i16,
    xhot: u16,
    yhot: u16,
    width: u16,
    height: u16,
    image: &[u32],
) -> (r: Option<CursorInfo>)
    requires
        width * height <= u16::MAX,
    ensures
        (width == 0 || height == 0) ==> r is None,
        (width != 0 && height != 0) ==> (r matches Some(info) && {
            &&& info.position == Point { x: x as i32, y: y as i32 }
            &&& info.hotspot == Point { x: xhot as i32, y: yhot as i32 }
            &&& info.width == width
            &&& info.height == height
            &&& info.pixels@.len() == 4 * image@.len()
            &&& forall|i: int|
                0 <= i < image@.len() ==> {
                    &&& #[trigger] info.pixels@[4 * i] == argb_red(image@[i])
                    &&& info.pixels@[4 * i + 1] == argb_green(image@[i])
                    &&& info.pixels@[4 * i + 2] == argb_blue(image@[i])
                    &&& info.pixels@[4 * i + 3] == argb_alpha(image@[i])
                }
        }),
{
    if width == 0 || height == 0 {
        return None;
    }
    let pixels = argb_to_rgba(image);
    Some(
        CursorInfo {
            position: Point::new(x as i32, y as i32),
            hotspot: Point::new(xhot as i32, yhot as i32),
            width: width as u32,
            height: height as u32,
            pixels,
        },
    )
}

/// Top-left corner of the cursor image relative to the captured region.
pub open spec fn cursor_left(info: CursorInfo, region: Rectangle) -> int {
    info.position.x - info.hotspot.x - region.x
}

pub open spec fn cursor_top(info: CursorInfo, region: Rectangle) -> int {
    info.position.y - info.hotspot.y - region.y
}

/// The cursor image does not touch the region at all.
pub open spec fn cursor_outside(info: CursorInfo, region: Rectangle) -> bool {
    ||| cursor_left(info, region) + wrap_i32(info.width) < 0
    ||| cursor_left(info, region) >= wrap_i32(region.width)
    ||| cursor_top(info, region) + wrap_i32(info.height) < 0
    ||| cursor_top(info, region) >= wrap_i32(region.height)
}

/// The placement test runs without an `i32` overflow.
pub open spec fn placement_defined(info: CursorInfo, region: Rectangle) -> bool {
    let cx = cursor_left(info, region);
    let cy = cursor_top(info, region);
    &&& fits_i32(info.position.x - info.hotspot.x)
    &&& fits_i32(cx)
    &&& fits_i32(info.position.y - info.hotspot.y)
    &&& fits_i32(cy)
    &&& fits_i32(cx + wrap_i32(info.width))
    &&& cx + wrap_i32(info.width) >= 0 && cx < wrap_i32(region.width) ==> fits_i32(
        cy + wrap_i32(info.height),
    )
}

/// Whether `cursor_placement` can be asked about this cursor and region:
/// its coordinate arithmetic stays within `i32`.
pub fn placement_fits(info: &CursorInfo, region: &Rectangle) -> (b: bool)
    ensures
        b == placement_defined(*info, *region),
{
    proof {
        crate::geometry::lemma_cast_u32_to_i32(info.width);
        crate::geometry::lemma_cast_u32_to_i32(info.height);
        crate::geometry::lemma_cast_u32_to_i32(region.width);
    }
    let lo = i32::MIN as i64;
    let hi = i32::MAX as i64;
    let dx = info.position.x as i64 - info.hotspot.x as i64;
    let cx = dx - region.x as i64;
    let dy = info.position.y as i64 - info.hotspot.y as i64;
    let cy = dy - region.y as i64;
    let right = cx + info.width as i32 as i64;
    if !(lo <= dx && dx <= hi && lo <= cx && cx <= hi && lo <= dy && dy <= hi && lo <= cy && cy
        <= hi && lo <= right && right <= hi) {
        return false;
    }
    if right >= 0 && cx < region.width as i32 as i64 {
        let bottom = cy + info.height as i32 as i64;
        lo <= bottom && bottom <= hi
    } else {
        true
    }
}

/// Where the cursor image starts relative to the region, or `None` when it
/// lies entirely outside the region (then nothing is drawn).
pub fn cursor_placement(info: &CursorInfo, region: &Rectangle) -> (r: Option<(i32, i32)>)
    requires
        placement_defined(*info, *region),
    ensures
        cursor_outside(*info, *region) ==> r is None,
        !cursor_outside(*info, *region) ==> r == Some(
            (cursor_left(*info, *region) as i32, cursor_top(*info, *region) as i32),
        ),
{
    let cursor_x = info.position.x - info.hotspot.x - region.x;
    let cursor_y = info.position.y - info.hotspot.y - region.y;
    proof {
        crate::geometry::lemma_cast_u32_to_i32(info.width);
        crate::geometry::lemma_cast_u32_to_i32(info.height);
        crate::geometry::lemma_cast_u32_to_i32(region.width);
        crate::geometry::lemma_cast_u32_to_i32(region.height);
    }
    if (cursor_x + info.width as i32) < 0 || cursor_x >= region.width as i32 || (cursor_y
        + info.height as i32) < 0 || cursor_y >= region.height as i32 {
        return None;
    }
    Some((cursor_x, cursor_y))
}

/// One cursor pixel to draw: where its bytes start in the frame buffer and
/// where its RGBA bytes start in the cursor image.
#[derive(Debug, Clone, Copy, PartialEq, Eq, Structural)]
pub struct BlitTarget {
    pub frame_offset: usize,
    pub cursor_offset: usize,
}

/// Frame column and row that cursor pixel `(cx, cy)` covers.
pub open spec fn covered_column(cursor_x: i32, cx: i32) -> int {
    cursor_x + cx
}

pub open spec fn covered_row(cursor_y: i32, cy: i32) -> int {
    cursor_y + cy
}

/// The covered frame pixel lies inside the region.
pub open spec fn covers_region_pixel(
    cursor_x: i32,
    cursor_y: i32,
    cx: i32,
    cy: i32,
    region: Rectangle,
) -> bool {
    &&& 0 <= covered_row(cursor_y, cy) < wrap_i32(region.height)
    &&& 0 <= covered_column(cursor_x, cx) < wrap_i32(region.width)
}

pub open spec fn spec_frame_offset(
    cursor_x: i32,
    cursor_y: i32,
    cx: i32,
    cy: i32,
    region: Rectangle,
    bpp: usize,
) -> int {
    (covered_row(cursor_y, cy) * wrap_i32(region.width) + covered_column(cursor_x, cx)) * bpp
}

pub open spec fn spec_cursor_offset(cx: i32, cy: i32, cursor_width: u32) -> int {
    (cy * wrap_i32(cursor_width) + cx) * 4
}

/// The offset arithmetic of one cursor pixel runs without an `i32` overflow.
pub open spec fn blit_defined(
    cursor_x: i32,
    cursor_y: i32,
    cx: i32,
    cy: i32,
    cursor_width: u32,
    region: Rectangle,
    bpp: usize,
) -> bool {
    &&& fits_i32(covered_row(cursor_y, cy))
    &&& 0 <= covered_row(cursor_y, cy) < wrap_i32(region.height) ==> fits_i32(
        covered_column(cursor_x, cx),
    )
    &&& covers_region_pixel(cursor_x, cursor_y, cx, cy, region) ==> {
        &&& bpp <= i32::MAX
        &&& fits_i32(covered_row(cursor_y, cy) * wrap_i32(region.width))
        &&& fits_i32(covered_row(cursor_y, cy) * wrap_i32(region.width) + covered_column(cursor_x, cx))
        &&& fits_i32(spec_frame_offset(cursor_x, cursor_y, cx, cy, region, bpp))
        &&& fits_i32(cy * wrap_i32(cursor_width))
        &&& fits_i32(cy * wrap_i32(cursor_width) + cx)
        &&& fits_i32(spec_cursor_offset(cx, cy, cursor_width))
        &&& spec_cursor_offset(cx, cy, cursor_width) >= 0
    }
}

/// Whether cursor pixel `(cx, cy)` is drawn: it covers a pixel of the
/// region, its four image bytes exist, it is not fully transparent, and the
/// covered pixel's colour bytes lie in the buffer.
pub open spec fn pixel_drawn(
    cursor_x: i32,
    cursor_y: i32,
    cx: i32,
    cy: i32,
    cursor_width: u32,
    region: Rectangle,
    bpp: usize,
    pixels: Seq<u8>,
    buffer_len: usize,
) -> bool {
    &&& covers_region_pixel(cursor_x, cursor_y, cx, cy, region)
    &&& spec_cursor_offset(cx, cy, cursor_width) + 3 < pixels.len()
    &&& pixels[spec_cursor_offset(cx, cy, cursor_width) + 3] != 0
    &&& spec_frame_offset(cursor_x, cursor_y, cx, cy, region, bpp) + 2 < buffer_len
}

/// Any cursor pixel that is not fully transparent is drawn: when the pixel
/// covers a pixel of the region, its image bytes exist and the covered
/// pixel's colour bytes lie in the buffer, it is drawn exactly when its
/// alpha byte is non-zero, whatever value that alpha has.
pub proof fn drawn_unless_transparent(
    cursor_x: i32,
    cursor_y: i32,
    cx: i32,
    cy: i32,
    cursor_width: u32,
    region: Rectangle,
    bpp: usize,
    pixels: Seq<u8>,
    buffer_len: usize,
    alpha: u8,
)
    requires
        covers_region_pixel(cursor_x, cursor_y, cx, cy, region),
        0 <= spec_cursor_offset(cx, cy, cursor_width),
        spec_cursor_offset(cx, cy, cursor_width) + 3 < pixels.len(),
        spec_frame_offset(cursor_x, cursor_y, cx, cy, region, bpp) + 2 < buffer_len,
    ensures
        pixel_drawn(
            cursor_x,
            cursor_y,
            cx,
            cy,
            cursor_width,
            region,
            bpp,
            pixels.update(spec_cursor_offset(cx, cy, cursor_width) + 3, alpha),
            buffer_len,
        ) == (alpha != 0),
{
}

/// Whether `blit_target` can be asked about cursor pixel `(cx, cy)`: its
/// offset arithmetic stays within `i32`.
pub fn blit_fits(
    cursor_x: i32,
    cursor_y: i32,
    cx: i32,
    cy: i32,
    cursor_width: u32,
    region: &Rectangle,
    bpp: usize,
) -> (b: bool)
    ensures
        b == blit_defined(cursor_x, cursor_y, cx, cy, cursor_width, *region, bpp),
{
    proof {
        crate::geometry::lemma_cast_u32_to_i32(region.width);
        crate::geometry::lemma_cast_u32_to_i32(region.height);
        crate::geometry::lemma_cast_u32_to_i32(cursor_width);
    }
    let lo = i32::MIN as i64;
    let hi = i32::MAX as i64;
    let row = cursor_y as i64 + cy as i64;
    if !(lo <= row && row <= hi) {
        return false;
    }
    let rh = region.height as i32 as i64;
    let rw = region.width as i32 as i64;
    if !(0 <= row && row < rh) {
        return true;
    }
    let col = cursor_x as i64 + cx as i64;
    if !(lo <= col && col <= hi) {
        return false;
    }
    if !(0 <= col && col < rw) {
        return true;
    }
    if bpp > i32::MAX as usize {
        return false;
    }
    assert(0 <= row * rw < 0x4000_0000_0000_0000) by (nonlinear_arith)
        requires
            0 <= row < 0x8000_0000,
            0 < rw < 0x8000_0000,
    ;
    let base = row * rw;
    if base > hi {
        return false;
    }
    let idx = base + col;
    if idx > hi {
        return false;
    }
    let b = bpp as i64;
    assert(0 <= idx * b < 0x4000_0000_0000_0000) by (nonlinear_arith)
        requires
            0 <= idx < 0x8000_0000,
            0 <= b < 0x8000_0000,
    ;
    let off = idx * b;
    if off > hi {
        return false;
    }
    let cw = cursor_width as i32 as i64;
    assert(-0x4000_0000_0000_0000 <= cy as i64 * cw <= 0x4000_0000_0000_0000) by (nonlinear_arith)
        requires
            -0x8000_0000 <= cy <= 0x7fff_ffff,
            -0x8000_0000 <= cw <= 0x7fff_ffff,
    ;
    let cb = cy as i64 * cw;
    if !(lo <= cb && cb <= hi) {
        return false;
    }
    let ci = cb + cx as i64;
    if !(lo <= ci && ci <= hi) {
        return false;
    }
    let co = ci * 4;
    lo <= co && co <= hi && co >= 0
}

/// Decides whether cursor pixel `(cx, cy)` is drawn, and where: the frame
/// byte offset of the covered pixel and the offset of the cursor pixel's
/// RGBA bytes.
pub fn blit_target(
    cursor_x: i32,
    cursor_y: i32,
    cx: i32,
    cy: i32,
    cursor_width: u32,
    region: &Rectangle,
    bpp: usize,
    pixels: &[u8],
    buffer_len: usize,
) -> (r: Option<BlitTarget>)
    requires
        cx >= 0,
        cy >= 0,
        blit_defined(cursor_x, cursor_y, cx, cy, cursor_width, *region, bpp),
    ensures
        pixel_drawn(cursor_x, cursor_y, cx, cy, cursor_width, *region, bpp, pixels@, buffer_len)
            ==> r == Some(
            BlitTarget {
                frame_offset: spec_frame_offset(cursor_x, cursor_y, cx, cy, *region, bpp) as usize,
                cursor_offset: spec_cursor_offset(cx, cy, cursor_width) as usize,
            },
        ),
        !pixel_drawn(cursor_x, cursor_y, cx, cy, cursor_width, *region, bpp, pixels@, buffer_len)
            ==> r is None,
{
    proof {
        crate::geometry::lemma_cast_u32_to_i32(region.width);
        crate::geometry::lemma_cast_u32_to_i32(region.height);
        crate::geometry::lemma_cast_u32_to_i32(cursor_width);
    }
    let frame_y = cursor_y + cy;
    if frame_y < 0 || frame_y >= region.height as i32 {
        return None;
    }
    let frame_x = cursor_x + cx;
    if frame_x < 0 || frame_x >= region.width as i32 {
        return None;
    }
    let frame_offset_i = (frame_y * region.width as i32 + frame_x) * bpp as i32;
    let cursor_offset_i = (cy * cursor_width as i32 + cx) * 4;
    assert(frame_offset_i >= 0) by (nonlinear_arith)
        requires
            frame_offset_i == (frame_y * wrap_i32(region.width) + frame_x) * bpp,
            0 <= frame_y,
            0 <= frame_x < wrap_i32(region.width),
            bpp >= 0,
    ;
    let frame_offset = frame_offset_i as usize;
    let cursor_offset = cursor_offset_i as usize;
    if cursor_offset >= pixels.len() || pixels.len() - cursor_offset <= 3 {
        return None;
    }
    if pixels[cursor_offset + 3] == 0 {
        return None;
    }
    if frame_offset >= buffer_len || buffer_len - frame_offset <= 2 {
        return None;
    }
    Some(BlitTarget { frame_offset, cursor_offset })
}

} // verus!
