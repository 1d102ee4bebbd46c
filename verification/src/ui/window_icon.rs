//! The 32×32 window icon: a white microphone on a dark background, or on a
//! red one while recording.

use vstd::prelude::*;

verus! {

/// Width and height of the icon.
pub const SIZE: i32 = 32;

/// Background while idle (#2C313A).
pub const BG_NORMAL: u32 = 0x002C_313A;

/// Background while recording (#C62828).
pub const BG_RECORD: u32 = 0x00C6_2828;

/// The microphone colour (#F5F5F5).
pub const WHITE: u32 = 0x00F5_F5F5;

/// The pixel at column `x`, row `y` of a row-major 32×32 buffer.
pub open spec fn px(buf: Seq<u32>, x: int, y: int) -> u32 {
    buf[y * 32 + x]
}

/// `(x, y)` lies on the 32 × 32 canvas.
pub open spec fn in_canvas(x: int, y: int) -> bool {
    0 <= x < 32 && 0 <= y < 32
}

/// Squared distance of `(x, y)` from `(cx, cy)`.
pub open spec fn dist2(x: int, y: int, cx: int, cy: int) -> int {
    (x - cx) * (x - cx) + (y - cy) * (y - cy)
}

/// A disc of squared radius `r2` around `(cx, cy)`, clipped to the box
/// `x0 <= x < x1`, `y0 <= y < y1`.
pub open spec fn in_disc(x: int, y: int, x0: int, x1: int, y0: int, y1: int, cx: int, cy: int, r2: int) -> bool {
    y0 <= y < y1 && x0 <= x < x1 && dist2(x, y, cx, cy) <= r2
}

/// Rows `y0 <= y < y1`, columns `x0 <= x <= x1`.
pub open spec fn in_rows(x: int, y: int, x0: int, x1: int, y0: int, y1: int) -> bool {
    y0 <= y < y1 && x0 <= x <= x1
}

/// The stand: on rows 18–24, the ring between radii 5 and 7 around
/// `(15, 17)`, the bottom of the capsule.
pub open spec fn in_stand(x: int, y: int) -> bool {
    18 <= y < 25 && 8 <= x < 23 && 25 <= dist2(x, y, 15, 17) <= 49
}

/// Whether the microphone covers `(x, y)`: the capsule on rows 3–17,
/// columns 11–20 (a rounded top on rows 3–7, a shaft on rows 8–12, a
/// rounded bottom on rows 13–17), the stand on rows 18–24, the stem on rows
/// 24–27, columns 15–16, and the base bar on rows 27–28, columns 11–20.
pub open spec fn in_mic(x: int, y: int) -> bool {
    ||| in_disc(x, y, 11, 21, 3, 8, 15, 8, 25)
    ||| in_rows(x, y, 11, 20, 8, 13)
    ||| in_disc(x, y, 11, 21, 13, 18, 15, 12, 25)
    ||| in_stand(x, y)
    ||| in_rows(x, y, 15, 16, 24, 28)
    ||| in_rows(x, y, 11, 20, 27, 29)
}

/// The twelve transparent corner pixels.
pub open spec fn is_corner(x: int, y: int) -> bool {
    ||| (x == 0 && y == 0) || (x == 1 && y == 0) || (x == 0 && y == 1)
    ||| (x == 31 && y == 0) || (x == 30 && y == 0) || (x == 31 && y == 1)
    ||| (x == 0 && y == 31) || (x == 1 && y == 31) || (x == 0 && y == 30)
    ||| (x == 31 && y == 31) || (x == 30 && y == 31) || (x == 31 && y == 30)
}

/// The icon's pixel at `(x, y)`.
pub open spec fn icon_pixel(x: int, y: int, recording: bool) -> u32 {
    if in_mic(x, y) {
        WHITE
    } else if is_corner(x, y) {
        0
    } else if recording {
        BG_RECORD
    } else {
        BG_NORMAL
    }
}

/// Sets the pixel at `(x, y)` when it lies on the canvas.
fn put(buf: &mut Vec<u32>, x: i32, y: i32, c: u32)
    requires
        old(buf)@.len() == 1024,
    ensures
        final(buf)@.len() == 1024,
        forall|a: int, b: int|
            in_canvas(a, b) ==> #[trigger] px(final(buf)@, a, b) == (if a == x && b == y {
                c
            } else {
                px(old(buf)@, a, b)
            }),
{
    if 0 <= x && x < SIZE && 0 <= y && y < SIZE {
        let i = (y * SIZE + x) as usize;
        buf.set(i, c);
        assert forall|a: int, b: int| in_canvas(a, b) implies #[trigger] px(buf@, a, b) == (if a == x && b
            == y {
            c
        } else {
            px(old(buf)@, a, b)
        }) by {
            if !(a == x && b == y) {
                assert(b * 32 + a != y * 32 + x);
            }
        }
    }
}

/// Sets row `y` from column `x0` to `x1` inclusive.
fn hline(buf: &mut Vec<u32>, y: i32, x0: i32, x1: i32, c: u32)
    requires
        old(buf)@.len() == 1024,
        0 <= x0 <= x1,
        x1 < 32,
    ensures
        final(buf)@.len() == 1024,
        forall|a: int, b: int|
            in_canvas(a, b) ==> #[trigger] px(final(buf)@, a, b) == (if b == y && x0 <= a <= x1 {
                c
            } else {
                px(old(buf)@, a, b)
            }),
{
    let ghost start = buf@;
    let mut x = x0;
    while x <= x1
        invariant
            buf@.len() == 1024,
            0 <= x0 <= x <= x1 + 1,
            x1 < 32,
            forall|a: int, b: int|
                in_canvas(a, b) ==> #[trigger] px(buf@, a, b) == (if b == y && x0 <= a < x {
                    c
                } else {
                    px(start, a, b)
                }),
        decreases x1 + 1 - x,
    {
        put(buf, x, y, c);
        x = x + 1;
    }
}

/// Whites out `in_disc(x0, x1, y0, y1, cx, cy, r2)` (inside the canvas).
fn disc(buf: &mut Vec<u32>, x0: i32, x1: i32, y0: i32, y1: i32, cx: i32, cy: i32, r2: i32)
    requires
        old(buf)@.len() == 1024,
        0 <= x0 <= x1 <= 32,
        0 <= y0 <= y1 <= 32,
        0 <= cx < 32,
        0 <= cy < 32,
    ensures
        final(buf)@.len() == 1024,
        forall|a: int, b: int|
            in_canvas(a, b) ==> #[trigger] px(final(buf)@, a, b) == (if in_disc(a, b, x0 as int, x1 as int, y0 as int, y1 as int, cx as int, cy as int, r2 as int) {
                WHITE
            } else {
                px(old(buf)@, a, b)
            }),
{
    let ghost start = buf@;
    let mut y = y0;
    while y < y1
        invariant
            buf@.len() == 1024,
            0 <= x0 <= x1 <= 32,
            0 <= y0 <= y <= y1 <= 32,
            0 <= cx < 32,
            0 <= cy < 32,
            forall|a: int, b: int|
                in_canvas(a, b) ==> #[trigger] px(buf@, a, b) == (if in_disc(a, b, x0 as int, x1 as int, y0 as int, y as int, cx as int, cy as int, r2 as int) {
                    WHITE
                } else {
                    px(start, a, b)
                }),
        decreases y1 - y,
    {
        let ghost row_start = buf@;
        let mut x = x0;
        while x < x1
            invariant
                buf@.len() == 1024,
                0 <= x0 <= x <= x1 <= 32,
                0 <= y0 <= y < y1 <= 32,
                0 <= cx < 32,
                0 <= cy < 32,
                forall|a: int, b: int|
                    in_canvas(a, b) ==> #[trigger] px(buf@, a, b) == (if b == y && x0 <= a < x
                        && dist2(a, b, cx as int, cy as int) <= r2 {
                        WHITE
                    } else {
                        px(row_start, a, b)
                    }),
            decreases x1 - x,
        {
            let dx = x - cx;
            let dy = y - cy;
            assert(dx * dx <= 1024 && dy * dy <= 1024) by (nonlinear_arith)
                requires
                    -32 <= dx <= 32,
                    -32 <= dy <= 32,
            ;
            assert(dx * dx >= 0 && dy * dy >= 0) by (nonlinear_arith);
            if dx * dx + dy * dy <= r2 {
                put(buf, x, y, WHITE);
            }
            x = x + 1;
        }
        y = y + 1;
    }
}

/// Whites out the stand (a ring below the capsule).
fn stand(buf: &mut Vec<u32>)
    requires
        old(buf)@.len() == 1024,
    ensures
        final(buf)@.len() == 1024,
        forall|a: int, b: int|
            in_canvas(a, b) ==> #[trigger] px(final(buf)@, a, b) == (if in_stand(a, b) {
                WHITE
            } else {
                px(old(buf)@, a, b)
            }),
{
    let ghost start = buf@;
    let cx: i32 = 15;
    let mut y: i32 = 18;
    while y < 25
        invariant
            buf@.len() == 1024,
            18 <= y <= 25,
            cx == 15,
            forall|a: int, b: int|
                in_canvas(a, b) ==> #[trigger] px(buf@, a, b) == (if in_stand(a, b) && b < y {
                    WHITE
                } else {
                    px(start, a, b)
                }),
        decreases 25 - y,
    {
        let ghost row_start = buf@;
        let mut x: i32 = 8;
        while x < 23
            invariant
                buf@.len() == 1024,
                8 <= x <= 23,
                18 <= y < 25,
                cx == 15,
                forall|a: int, b: int|
                    in_canvas(a, b) ==> #[trigger] px(buf@, a, b) == (if b == y && 8 <= a < x && in_stand(a, b) {
                        WHITE
                    } else {
                        px(row_start, a, b)
                    }),
            decreases 23 - x,
        {
            let dx = x - cx;
            let dy = y - 17;
            assert(dx * dx <= 1024 && dy * dy <= 1024) by (nonlinear_arith)
                requires
                    -32 <= dx <= 32,
                    -32 <= dy <= 32,
            ;
            assert(dx * dx >= 0 && dy * dy >= 0) by (nonlinear_arith);
            let d2 = dx * dx + dy * dy;
            if 25 <= d2 && d2 <= 49 {
                put(buf, x, y, WHITE);
            }
            x = x + 1;
        }
        y = y + 1;
    }
}

/// Draws the microphone in white.
fn draw_mic(buf: &mut Vec<u32>)
    requires
        old(buf)@.len() == 1024,
    ensures
        final(buf)@.len() == 1024,
        forall|a: int, b: int|
            in_canvas(a, b) ==> #[trigger] px(final(buf)@, a, b) == (if in_mic(a, b) {
                WHITE
            } else {
                px(old(buf)@, a, b)
            }),
{
    let ghost b0 = buf@;
    disc(buf, 11, 21, 3, 8, 15, 8, 25);
    let ghost b1 = buf@;
    let mut y: i32 = 8;
    while y < 13
        invariant
            buf@.len() == 1024,
            8 <= y <= 13,
            forall|a: int, b: int|
                in_canvas(a, b) ==> #[trigger] px(buf@, a, b) == (if in_rows(a, b, 11, 20, 8, y as int) {
                    WHITE
                } else {
                    px(b1, a, b)
                }),
        decreases 13 - y,
    {
        hline(buf, y, 11, 20, WHITE);
        y = y + 1;
    }
    let ghost b2 = buf@;
    disc(buf, 11, 21, 13, 18, 15, 12, 25);
    let ghost b3 = buf@;
    stand(buf);
    let ghost b4 = buf@;
    let mut y: i32 = 24;
    while y < 28
        invariant
            buf@.len() == 1024,
            24 <= y <= 28,
            forall|a: int, b: int|
                in_canvas(a, b) ==> #[trigger] px(buf@, a, b) == (if in_rows(a, b, 15, 16, 24, y as int) {
                    WHITE
                } else {
                    px(b4, a, b)
                }),
        decreases 28 - y,
    {
        hline(buf, y, 15, 16, WHITE);
        y = y + 1;
    }
    let ghost b5 = buf@;
    let mut y: i32 = 27;
    while y < 29
        invariant
            buf@.len() == 1024,
            27 <= y <= 29,
            forall|a: int, b: int|
                in_canvas(a, b) ==> #[trigger] px(buf@, a, b) == (if in_rows(a, b, 11, 20, 27, y as int) {
                    WHITE
                } else {
                    px(b5, a, b)
                }),
        decreases 29 - y,
    {
        hline(buf, y, 11, 20, WHITE);
        y = y + 1;
    }
    assert forall|a: int, b: int| in_canvas(a, b) implies #[trigger] px(buf@, a, b) == (if in_mic(a, b) {
        WHITE
    } else {
        px(b0, a, b)
    }) by {
        assert(px(buf@, a, b) == (if in_rows(a, b, 11, 20, 27, 29) { WHITE } else { px(b5, a, b) }));
        assert(px(b5, a, b) == (if in_rows(a, b, 15, 16, 24, 28) { WHITE } else { px(b4, a, b) }));
        assert(px(b4, a, b) == (if in_stand(a, b) { WHITE } else { px(b3, a, b) }));
        assert(px(b3, a, b) == (if in_disc(a, b, 11, 21, 13, 18, 15, 12, 25) { WHITE } else { px(b2, a, b) }));
        assert(px(b2, a, b) == (if in_rows(a, b, 11, 20, 8, 13) { WHITE } else { px(b1, a, b) }));
        assert(px(b1, a, b) == (if in_disc(a, b, 11, 21, 3, 8, 15, 8, 25) { WHITE } else { px(b0, a, b) }));
    }
}

/// The icon's pixels, row-major, as `0x00RRGGBB`; corner pixels are 0.
pub fn make_pixels(recording: bool) -> (r: Vec<u32>)
    ensures
        r@.len() == 1024,
        forall|x: int, y: int| in_canvas(x, y) ==> #[trigger] px(r@, x, y) == icon_pixel(x, y, recording),
{
    let bg = if recording {
        BG_RECORD
    } else {
        BG_NORMAL
    };
    let mut buf: Vec<u32> = Vec::new();
    let mut i: usize = 0;
    while i < 1024
        invariant
            i <= 1024,
            buf@.len() == i,
            forall|k: int| 0 <= k < i ==> #[trigger] buf@[k] == bg,
        decreases 1024 - i,
    {
        buf.push(bg);
        i = i + 1;
    }
    let ghost b0 = buf@;
    put(&mut buf, 0, 0, 0);
    put(&mut buf, 1, 0, 0);
    put(&mut buf, 0, 1, 0);
    put(&mut buf, 31, 0, 0);
    put(&mut buf, 30, 0, 0);
    put(&mut buf, 31, 1, 0);
    put(&mut buf, 0, 31, 0);
    put(&mut buf, 1, 31, 0);
    put(&mut buf, 0, 30, 0);
    put(&mut buf, 31, 31, 0);
    put(&mut buf, 30, 31, 0);
    put(&mut buf, 31, 30, 0);
    let ghost b1 = buf@;
    assert forall|x: int, y: int| in_canvas(x, y) implies #[trigger] px(b1, x, y) == (if is_corner(x, y) {
        0
    } else {
        bg
    }) by {
        assert(px(b0, x, y) == bg);
    }
    draw_mic(&mut buf);
    buf
}

} // verus!
