//! Painting on the frame: a buffer of 8-bit RGBA pixels, row after row,
//! `WIDTH` pixels to a row and `HEIGHT` rows.
use vstd::prelude::*;

use crate::{HEIGHT, WIDTH};

verus! {

/// Number of bytes that the whole screen takes in a frame.
pub open spec fn screen_bytes() -> int {
    WIDTH * HEIGHT * 4
}

/// The number of bytes that the whole screen takes in a frame.
pub fn screen_len() -> (n: usize)
    ensures
        n == screen_bytes(),
{
    (WIDTH * HEIGHT * 4) as usize
}

/// The point of the field that the pixel holding byte `i` shows: as it
/// stands, or turned half a turn for a viewer who sees the field from the
/// other side (`flip`).
pub open spec fn field_point(i: int, flip: bool) -> (int, int) {
    let col = (i / 4) % (WIDTH as int);
    let row = (i / 4) / (WIDTH as int);
    if flip { (WIDTH - 1 - col, HEIGHT - 1 - row) } else { (col, row) }
}

/// The frame after painting, with `ink`, every point of the field in
/// `region` (a point is painted on the pixel that shows it; points off the
/// screen are not painted). `ink(x, y, c)` is channel `c` of the colour of
/// point `(x, y)`. Bytes beyond the screen are left as they are.
pub open spec fn painted(
    frame: Seq<u8>,
    region: spec_fn(int, int) -> bool,
    ink: spec_fn(int, int, int) -> u8,
    flip: bool,
) -> Seq<u8> {
    Seq::new(
        frame.len(),
        |i: int|
            {
                let p = field_point(i, flip);
                if 0 <= i < screen_bytes() && region(p.0, p.1) {
                    ink(p.0, p.1, i % 4)
                } else {
                    frame[i]
                }
            },
    )
}

/// The bytes of the pixel at column `col` and row `row` are the four from
/// `4 * (row * WIDTH + col)` on.
pub proof fn lemma_pixel_bytes(i: int, col: int, row: int)
    requires
        0 <= col < WIDTH,
        0 <= row < HEIGHT,
        0 <= i,
    ensures
        ((i / 4) % (WIDTH as int) == col && (i / 4) / (WIDTH as int) == row) <==> (4 * (row * WIDTH + col) <= i
            < 4 * (row * WIDTH + col) + 4),
{
    let w = WIDTH as int;
    let q = i / 4;
    assert(i == 4 * q + i % 4 && 0 <= i % 4 < 4) by (nonlinear_arith)
        requires q == i / 4, 0 <= i;
    assert(q == w * (q / w) + q % w && 0 <= q % w < w) by (nonlinear_arith)
        requires w == 1200, 0 <= q;
    if q % w == col && q / w == row {
        assert(q == row * w + col) by (nonlinear_arith)
            requires q == w * (q / w) + q % w, q % w == col, q / w == row;
    }
    if 4 * (row * w + col) <= i < 4 * (row * w + col) + 4 {
        assert(q == row * w + col);
        assert(q / w == row && q % w == col) by (nonlinear_arith)
            requires q == row * w + col, 0 <= col < w, w == 1200, 0 <= row;
    }
}

/// The byte from which the pixel showing field point `(x, y)` is stored.
pub open spec fn pixel_start(x: int, y: int, flip: bool) -> int {
    let (col, row) = if flip { (WIDTH - 1 - x, HEIGHT - 1 - y) } else { (x, y) };
    4 * (row * WIDTH + col)
}

/// Byte `i` is one of the four of the pixel showing `(x, y)` exactly when
/// `i` lies in the four bytes from `pixel_start(x, y, flip)` on.
pub proof fn lemma_shows(i: int, x: int, y: int, flip: bool)
    requires
        0 <= x < WIDTH,
        0 <= y < HEIGHT,
        0 <= i,
    ensures
        field_point(i, flip) == (x, y) <==> (pixel_start(x, y, flip) <= i < pixel_start(x, y, flip) + 4),
        pixel_start(x, y, flip) + 4 <= screen_bytes(),
        pixel_start(x, y, flip) % 4 == 0,
{
    let (col, row) = if flip { (WIDTH - 1 - x, HEIGHT - 1 - y) } else { (x, y) };
    lemma_pixel_bytes(i, col, row);
    assert(4 * (row * WIDTH + col) + 4 <= WIDTH * HEIGHT * 4) by (nonlinear_arith)
        requires 0 <= col < WIDTH, 0 <= row < HEIGHT;
}

/// Paints the pixel that shows field point `(x, y)` with `bytes`.
pub fn put_pixel(frame: &mut [u8], x: i64, y: i64, bytes: [u8; 4], flip: bool)
    requires
        0 <= x < WIDTH,
        0 <= y < HEIGHT,
        old(frame)@.len() >= screen_bytes(),
    ensures
        final(frame)@.len() == old(frame)@.len(),
        forall|i: int|
            0 <= i < old(frame)@.len() ==> #[trigger] final(frame)@[i] == if field_point(i, flip) == (
                x as int,
                y as int,
            ) {
                bytes[i % 4]
            } else {
                old(frame)@[i]
            },
{
    let (col, row) = if flip {
        ((WIDTH as i64 - 1 - x) as usize, (HEIGHT as i64 - 1 - y) as usize)
    } else {
        (x as usize, y as usize)
    };
    proof {
        lemma_shows(0, x as int, y as int, flip);
    }
    let idx: usize = (row * WIDTH as usize + col) * 4;
    frame[idx] = bytes[0];
    frame[idx + 1] = bytes[1];
    frame[idx + 2] = bytes[2];
    frame[idx + 3] = bytes[3];
    proof {
        assert forall|i: int| 0 <= i < old(frame)@.len() implies #[trigger] frame@[i] == if field_point(
            i,
            flip,
        ) == (x as int, y as int) {
            bytes[i % 4]
        } else {
            old(frame)@[i]
        } by {
            lemma_shows(i, x as int, y as int, flip);
        }
    }
}

/// Every byte of the screen shows a point of the field.
pub proof fn lemma_on_screen(i: int, flip: bool)
    requires
        0 <= i < screen_bytes(),
    ensures
        0 <= field_point(i, flip).0 < WIDTH,
        0 <= field_point(i, flip).1 < HEIGHT,
{
    let q = i / 4;
    assert(0 <= q < WIDTH * HEIGHT) by (nonlinear_arith)
        requires q == i / 4, 0 <= i < WIDTH * HEIGHT * 4;
    assert(0 <= q % (WIDTH as int) < WIDTH && 0 <= q / (WIDTH as int) < HEIGHT) by (nonlinear_arith)
        requires 0 <= q < 1200 * 900, WIDTH == 1200, HEIGHT == 900;
}

/// Painting depends on the region only through the points of the screen.
pub proof fn lemma_same_region(
    base: Seq<u8>,
    r1: spec_fn(int, int) -> bool,
    r2: spec_fn(int, int) -> bool,
    ink: spec_fn(int, int, int) -> u8,
    flip: bool,
)
    requires
        forall|a: int, b: int| 0 <= a < WIDTH && 0 <= b < HEIGHT ==> (#[trigger] r1(a, b) <==> r2(a, b)),
    ensures
        painted(base, r1, ink, flip) == painted(base, r2, ink, flip),
{
    assert forall|i: int| 0 <= i < base.len() implies painted(base, r1, ink, flip)[i] == painted(
        base,
        r2,
        ink,
        flip,
    )[i] by {
        if 0 <= i < screen_bytes() {
            lemma_on_screen(i, flip);
        }
    }
    assert(painted(base, r1, ink, flip) =~= painted(base, r2, ink, flip));
}

/// Painting one more point after a region is painting the region grown by
/// that point.
pub proof fn lemma_paint_one(
    base: Seq<u8>,
    before: Seq<u8>,
    after: Seq<u8>,
    region: spec_fn(int, int) -> bool,
    grown: spec_fn(int, int) -> bool,
    ink: spec_fn(int, int, int) -> u8,
    flip: bool,
    x: int,
    y: int,
    bytes: [u8; 4],
)
    requires
        0 <= x < WIDTH,
        0 <= y < HEIGHT,
        before == painted(base, region, ink, flip),
        after.len() == before.len(),
        forall|i: int|
            0 <= i < before.len() ==> #[trigger] after[i] == if field_point(i, flip) == (x, y) {
                bytes[i % 4]
            } else {
                before[i]
            },
        forall|c: int| 0 <= c < 4 ==> bytes[c] == ink(x, y, c),
        forall|a: int, b: int| #[trigger] grown(a, b) <==> (region(a, b) || (a == x && b == y)),
    ensures
        after == painted(base, grown, ink, flip),
{
    assert forall|i: int| 0 <= i < after.len() implies after[i] == painted(base, grown, ink, flip)[i] by {
        lemma_shows(i, x, y, flip);
        if field_point(i, flip) == (x, y) {
            assert(0 <= i % 4 < 4);
        }
    }
    assert(after =~= painted(base, grown, ink, flip));
}

/// The points of the rectangle with top-left corner `(x, y)`, `w` wide and
/// `h` high.
pub open spec fn in_rect(x: int, y: int, w: int, h: int) -> spec_fn(int, int) -> bool {
    |a: int, b: int| x <= a < x + w && y <= b < y + h
}

/// One colour for every point.
pub open spec fn solid(color: [u8; 4]) -> spec_fn(int, int, int) -> u8 {
    |a: int, b: int, c: int| color[c]
}

/// Paints the rectangle with top-left corner `(x, y)`, `w` wide and `h`
/// high, in `color`.
pub fn paint_rect(frame: &mut [u8], x: i64, y: i64, w: i64, h: i64, color: [u8; 4], flip: bool)
    requires
        -0x1_0000_0000 <= x <= 0x1_0000_0000,
        -0x1_0000_0000 <= y <= 0x1_0000_0000,
        -0x1_0000_0000 <= w <= 0x1_0000_0000,
        -0x1_0000_0000 <= h <= 0x1_0000_0000,
        old(frame)@.len() >= screen_bytes(),
    ensures
        final(frame)@ == painted(old(frame)@, in_rect(x as int, y as int, w as int, h as int), solid(color), flip),
{
    let ghost base = frame@;
    let x0: i64 = if x > 0 { x } else { 0 };
    let y0: i64 = if y > 0 { y } else { 0 };
    let x1: i64 = if x + w < WIDTH as i64 { x + w } else { WIDTH as i64 };
    let y1: i64 = if y + h < HEIGHT as i64 { y + h } else { HEIGHT as i64 };
    let ghost ink = solid(color);
    let mut row: i64 = y0;
    proof {
        lemma_same_region(base, |a: int, b: int| false, |a: int, b: int| x0 <= a < x1 && y0 <= b < row, ink, flip);
        assert(base =~= painted(base, |a: int, b: int| false, ink, flip));
    }
    while row < y1
        invariant
            0 <= y0 <= row,
            row <= y1 || row == y0,
            y1 <= HEIGHT,
            0 <= x0,
            x1 <= WIDTH,
            x0 == (if x > 0 { x } else { 0 }),
            y0 == (if y > 0 { y } else { 0 }),
            x1 == (if x + w < WIDTH { x + w } else { WIDTH as int }),
            y1 == (if y + h < HEIGHT { y + h } else { HEIGHT as int }),
            frame@.len() == base.len(),
            base.len() >= screen_bytes(),
            ink == solid(color),
            frame@ == painted(base, |a: int, b: int| x0 <= a < x1 && y0 <= b < row, ink, flip),
        decreases y1 - row,
    {
        let mut col: i64 = x0;
        while col < x1
            invariant
                0 <= y0 <= row < y1 <= HEIGHT,
                0 <= x0 <= col,
                col <= x1 || col == x0,
                x1 <= WIDTH,
                frame@.len() == base.len(),
                base.len() >= screen_bytes(),
                ink == solid(color),
                frame@ == painted(
                    base,
                    |a: int, b: int| (x0 <= a < x1 && y0 <= b < row) || (b == row && x0 <= a < col),
                    ink,
                    flip,
                ),
            decreases x1 - col,
        {
            let ghost before = frame@;
            put_pixel(frame, col, row, color, flip);
            proof {
                lemma_paint_one(
                    base,
                    before,
                    frame@,
                    |a: int, b: int| (x0 <= a < x1 && y0 <= b < row) || (b == row && x0 <= a < col),
                    |a: int, b: int| (x0 <= a < x1 && y0 <= b < row) || (b == row && x0 <= a < col + 1),
                    ink,
                    flip,
                    col as int,
                    row as int,
                    color,
                );
            }
            col = col + 1;
        }
        proof {
            lemma_same_region(
                base,
                |a: int, b: int| (x0 <= a < x1 && y0 <= b < row) || (b == row && x0 <= a < col),
                |a: int, b: int| x0 <= a < x1 && y0 <= b < row + 1,
                ink,
                flip,
            );
        }
        row = row + 1;
    }
    proof {
        lemma_same_region(
            base,
            |a: int, b: int| x0 <= a < x1 && y0 <= b < row,
            in_rect(x as int, y as int, w as int, h as int),
            ink,
            flip,
        );
    }
}

/// The square of the distance from `(x, y)` to `(cx, cy)`.
pub open spec fn dist2(x: int, y: int, cx: int, cy: int) -> int {
    (x - cx) * (x - cx) + (y - cy) * (y - cy)
}

/// The points of the disk of radius `r` around `(cx, cy)`, rim included.
pub open spec fn in_disk(cx: int, cy: int, r: int) -> spec_fn(int, int) -> bool {
    |a: int, b: int| dist2(a, b, cx, cy) <= r * r
}

/// The colour of a shaded point: red and blue from the shade `s`, green
/// and alpha full.
pub open spec fn shade_bytes(s: [u8; 2]) -> [u8; 4] {
    [s[0], 255, s[1], 255]
}

/// Shading by distance: a point at squared distance `d` from `(cx, cy)`
/// takes its red and blue from `shades[d]`, and full green and alpha.
pub open spec fn shaded(cx: int, cy: int, shades: Seq<[u8; 2]>) -> spec_fn(int, int, int) -> u8 {
    |a: int, b: int, c: int| shade_bytes(shades[dist2(a, b, cx, cy)])[c]
}

/// Paints the disk of radius `r` around `(cx, cy)`, each point with the
/// red and blue that `shades` gives for its squared distance from the
/// centre, and full green and alpha.
pub fn paint_disk(frame: &mut [u8], cx: i64, cy: i64, r: i64, shades: &Vec<[u8; 2]>, flip: bool)
    requires
        -0x1_0000_0000 <= cx <= 0x1_0000_0000,
        -0x1_0000_0000 <= cy <= 0x1_0000_0000,
        0 <= r <= 255,
        shades@.len() > r * r,
        old(frame)@.len() >= screen_bytes(),
    ensures
        final(frame)@ == painted(old(frame)@, in_disk(cx as int, cy as int, r as int), shaded(cx as int, cy as int, shades@), flip),
{
    let ghost base = frame@;
    let ghost ink = shaded(cx as int, cy as int, shades@);
    let ghost disk = in_disk(cx as int, cy as int, r as int);
    let x0: i64 = if cx - r > 0 { cx - r } else { 0 };
    let y0: i64 = if cy - r > 0 { cy - r } else { 0 };
    let x1: i64 = if cx + r + 1 < WIDTH as i64 { cx + r + 1 } else { WIDTH as i64 };
    let y1: i64 = if cy + r + 1 < HEIGHT as i64 { cy + r + 1 } else { HEIGHT as i64 };
    assert(0 <= r * r <= 65025) by (nonlinear_arith)
        requires 0 <= r <= 255;
    let r2: i64 = r * r;
    let mut row: i64 = y0;
    proof {
        lemma_same_region(base, |a: int, b: int| false, |a: int, b: int| x0 <= a < x1 && y0 <= b < row && disk(a, b), ink, flip);
        assert(base =~= painted(base, |a: int, b: int| false, ink, flip));
    }
    while row < y1
        invariant
            0 <= y0 <= row,
            row <= y1 || row == y0,
            y1 <= HEIGHT,
            0 <= x0,
            x1 <= WIDTH,
            0 <= r <= 255,
            r2 == r * r,
            shades@.len() > r * r,
            x0 == (if cx - r > 0 { cx - r } else { 0 }),
            y0 == (if cy - r > 0 { cy - r } else { 0 }),
            x1 == (if cx + r + 1 < WIDTH { cx + r + 1 } else { WIDTH as int }),
            y1 == (if cy + r + 1 < HEIGHT { cy + r + 1 } else { HEIGHT as int }),
            frame@.len() == base.len(),
            base.len() >= screen_bytes(),
            ink == shaded(cx as int, cy as int, shades@),
            disk == in_disk(cx as int, cy as int, r as int),
            frame@ == painted(base, |a: int, b: int| x0 <= a < x1 && y0 <= b < row && disk(a, b), ink, flip),
        decreases y1 - row,
    {
        let mut col: i64 = x0;
        while col < x1
            invariant
                0 <= y0 <= row < y1 <= HEIGHT,
                0 <= x0 <= col,
                col <= x1 || col == x0,
                x1 <= WIDTH,
                0 <= r <= 255,
                r2 == r * r,
                shades@.len() > r * r,
                x0 == (if cx - r > 0 { cx - r } else { 0 }),
                x1 == (if cx + r + 1 < WIDTH { cx + r + 1 } else { WIDTH as int }),
                y0 == (if cy - r > 0 { cy - r } else { 0 }),
                y1 == (if cy + r + 1 < HEIGHT { cy + r + 1 } else { HEIGHT as int }),
                frame@.len() == base.len(),
                base.len() >= screen_bytes(),
                ink == shaded(cx as int, cy as int, shades@),
                disk == in_disk(cx as int, cy as int, r as int),
                frame@ == painted(
                    base,
                    |a: int, b: int| ((x0 <= a < x1 && y0 <= b < row) || (b == row && x0 <= a < col)) && disk(a, b),
                    ink,
                    flip,
                ),
            decreases x1 - col,
        {
            let dx = col - cx;
            let dy = row - cy;
            assert(-256 <= dx <= 256 && -256 <= dy <= 256);
            assert(0 <= dx * dx <= 65536 && 0 <= dy * dy <= 65536) by (nonlinear_arith)
                requires -256 <= dx <= 256, -256 <= dy <= 256;
            let d2 = dx * dx + dy * dy;
            let ghost before = frame@;
            if d2 <= r2 {
                let shade = shades[d2 as usize];
                let bytes: [u8; 4] = [shade[0], 255, shade[1], 255];
                put_pixel(frame, col, row, bytes, flip);
                proof {
                    lemma_paint_one(
                        base,
                        before,
                        frame@,
                        |a: int, b: int| ((x0 <= a < x1 && y0 <= b < row) || (b == row && x0 <= a < col)) && disk(a, b),
                        |a: int, b: int| ((x0 <= a < x1 && y0 <= b < row) || (b == row && x0 <= a < col + 1)) && disk(a, b),
                        ink,
                        flip,
                        col as int,
                        row as int,
                        bytes,
                    );
                }
            } else {
                proof {
                    lemma_same_region(
                        base,
                        |a: int, b: int| ((x0 <= a < x1 && y0 <= b < row) || (b == row && x0 <= a < col)) && disk(a, b),
                        |a: int, b: int| ((x0 <= a < x1 && y0 <= b < row) || (b == row && x0 <= a < col + 1)) && disk(a, b),
                        ink,
                        flip,
                    );
                }
            }
            col = col + 1;
        }
        proof {
            lemma_same_region(
                base,
                |a: int, b: int| ((x0 <= a < x1 && y0 <= b < row) || (b == row && x0 <= a < col)) && disk(a, b),
                |a: int, b: int| x0 <= a < x1 && y0 <= b < row + 1 && disk(a, b),
                ink,
                flip,
            );
        }
        row = row + 1;
    }
    proof {
        assert forall|a: int, b: int| 0 <= a < WIDTH && 0 <= b < HEIGHT && #[trigger] disk(a, b) implies (x0 <= a < x1
            && y0 <= b < row) by {
            lemma_disk_box(a, b, cx as int, cy as int, r as int);
        }
        lemma_same_region(
            base,
            |a: int, b: int| x0 <= a < x1 && y0 <= b < row && disk(a, b),
            disk,
            ink,
            flip,
        );
    }
}

/// A point of the disk lies within the radius along each axis.
pub proof fn lemma_disk_box(a: int, b: int, cx: int, cy: int, r: int)
    requires
        0 <= r,
        dist2(a, b, cx, cy) <= r * r,
    ensures
        cx - r <= a <= cx + r,
        cy - r <= b <= cy + r,
{
    assert((a - cx) * (a - cx) <= r * r) by (nonlinear_arith)
        requires (a - cx) * (a - cx) + (b - cy) * (b - cy) <= r * r;
    assert((b - cy) * (b - cy) <= r * r) by (nonlinear_arith)
        requires (a - cx) * (a - cx) + (b - cy) * (b - cy) <= r * r;
    assert(cx - r <= a <= cx + r) by (nonlinear_arith)
        requires (a - cx) * (a - cx) <= r * r, 0 <= r;
    assert(cy - r <= b <= cy + r) by (nonlinear_arith)
        requires (b - cy) * (b - cy) <= r * r, 0 <= r;
}

/// The background colour of the point `(x, y)`: a gradient that changes
/// every 15 pixels.
pub open spec fn background(x: int, y: int) -> [u8; 4] {
    [((x / 15) % 255) as u8, ((y / 15) % 255) as u8, (((x + y) / 15) % 255) as u8, 255]
}

/// The background gradient as an ink.
pub open spec fn gradient() -> spec_fn(int, int, int) -> u8 {
    |a: int, b: int, c: int| background(a, b)[c]
}

/// Every point.
pub open spec fn everywhere() -> spec_fn(int, int) -> bool {
    |a: int, b: int| true
}

/// Paints the whole screen with the background gradient.
pub fn paint_background(frame: &mut [u8], flip: bool)
    requires
        old(frame)@.len() >= screen_bytes(),
    ensures
        final(frame)@ == painted(old(frame)@, everywhere(), gradient(), flip),
{
    let ghost base = frame@;
    let ghost ink = gradient();
    let mut row: i64 = 0;
    proof {
        lemma_same_region(base, |a: int, b: int| false, |a: int, b: int| 0 <= b < row, ink, flip);
        assert(base =~= painted(base, |a: int, b: int| false, ink, flip));
    }
    while row < HEIGHT as i64
        invariant
            0 <= row <= HEIGHT,
            frame@.len() == base.len(),
            base.len() >= screen_bytes(),
            ink == gradient(),
            frame@ == painted(base, |a: int, b: int| 0 <= b < row, ink, flip),
        decreases HEIGHT - row,
    {
        let mut col: i64 = 0;
        while col < WIDTH as i64
            invariant
                0 <= row < HEIGHT,
                0 <= col <= WIDTH,
                frame@.len() == base.len(),
                base.len() >= screen_bytes(),
                ink == gradient(),
                frame@ == painted(base, |a: int, b: int| 0 <= b < row || (b == row && 0 <= a < col), ink, flip),
            decreases WIDTH - col,
        {
            let bytes: [u8; 4] = [
                ((col / 15) % 255) as u8,
                ((row / 15) % 255) as u8,
                (((col + row) / 15) % 255) as u8,
                255,
            ];
            let ghost before = frame@;
            put_pixel(frame, col, row, bytes, flip);
            proof {
                lemma_paint_one(
                    base,
                    before,
                    frame@,
                    |a: int, b: int| 0 <= b < row || (b == row && 0 <= a < col),
                    |a: int, b: int| 0 <= b < row || (b == row && 0 <= a < col + 1),
                    ink,
                    flip,
                    col as int,
                    row as int,
                    bytes,
                );
            }
            col = col + 1;
        }
        proof {
            lemma_same_region(
                base,
                |a: int, b: int| 0 <= b < row || (b == row && 0 <= a < col),
                |a: int, b: int| 0 <= b < row + 1,
                ink,
                flip,
            );
        }
        row = row + 1;
    }
    proof {
        lemma_same_region(base, |a: int, b: int| 0 <= b < row, everywhere(), ink, flip);
    }
}

} // verus!
