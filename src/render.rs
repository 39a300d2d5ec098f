//! Area clearing and frame drawing, as streams of terminal bytes.
use vstd::prelude::*;

use crate::escape::{background, cursor_to, decimal, push_background, push_cursor_to};

verus! {

/// A rectangle of the logical canvas, in pixels.
#[derive(Clone, Copy, Debug, PartialEq, Eq, Structural)]
pub struct Area {
    pub left: u16,
    pub top: u16,
    pub width: u16,
    pub height: u16,
}

/// How a frame asks to be disposed of before the next one is drawn.
#[derive(Clone, Copy, Debug, PartialEq, Eq, Structural)]
pub enum DisposalMethod {
    /// No disposal specified.
    Any,
    /// Leave the frame in place.
    Keep,
    /// Restore the frame's area to the background.
    Background,
    /// Restore what was there before the frame.
    Previous,
}

/// A decoded frame: its position on the canvas, its disposal method and its
/// pixels as red, green, blue, alpha bytes, row by row.
#[derive(Debug)]
pub struct Frame {
    pub dispose: DisposalMethod,
    pub left: u16,
    pub top: u16,
    pub width: u16,
    pub height: u16,
    pub interlaced: bool,
    pub buffer: Vec<u8>,
}

impl Frame {
    /// Every pixel index can be turned into a column and a row.
    pub open spec fn drawable(&self) -> bool {
        self.width > 0 || self.buffer@.len() < 4
    }

    /// The number of whole pixels in the buffer.
    pub open spec fn pixel_count(&self) -> nat {
        self.buffer@.len() / 4
    }

    /// The rectangle that the frame covers.
    pub open spec fn area_spec(&self) -> Area {
        Area { left: self.left, top: self.top, width: self.width, height: self.height }
    }

    /// The rectangle that the frame covers.
    pub fn area(&self) -> (r: Area)
        ensures
            r == self.area_spec(),
    {
        Area { left: self.left, top: self.top, width: self.width, height: self.height }
    }
}

/// The 1-based terminal row of canvas row `y`.
pub open spec fn term_row(y: int) -> nat {
    (y + 1) as nat
}

/// The 1-based terminal column of canvas column `x`: two columns per pixel.
pub open spec fn term_col(x: int) -> nat {
    ((x + 1) * 2) as nat
}

/// Canvas column of the `k`-th cell of a block `width` wide starting at `left`.
pub open spec fn cell_x(left: u16, width: u16, k: nat) -> int {
    left as int + (k as int) % (width as int)
}

/// Canvas row of the `k`-th cell of a block `width` wide starting at `top`.
pub open spec fn cell_y(top: u16, width: u16, k: nat) -> int {
    top as int + (k as int) / (width as int)
}

/// Canvas cell `x`, `y` lies in `a`.
pub open spec fn covers(a: Area, x: int, y: int) -> bool {
    a.left <= x < a.left + a.width && a.top <= y < a.top + a.height
}

/// A blank written at a terminal position.
pub open spec fn blank_at(row: nat, col: nat) -> Seq<u8> {
    cursor_to(row, col).push(32u8)
}

/// The bytes that blank the first `n` cells of `a`, row by row.
pub open spec fn clear_cells(a: Area, n: nat) -> Seq<u8>
    decreases n,
{
    if n == 0 {
        seq![]
    } else {
        let k = (n - 1) as nat;
        clear_cells(a, k) + blank_at(
            term_row(cell_y(a.top, a.width, k)),
            term_col(cell_x(a.left, a.width, k)),
        )
    }
}

/// The bytes that blank every cell of `a`.
pub open spec fn clear_bytes(a: Area) -> Seq<u8> {
    clear_cells(a, (a.width * a.height) as nat)
}

/// Pixel `k` of `f`: cursor to its position, its colour as background, two spaces.
pub open spec fn pixel_bytes(f: Frame, k: nat) -> Seq<u8> {
    let b = f.buffer@;
    let i = 4 * (k as int);
    cursor_to(term_row(cell_y(f.top, f.width, k)), term_col(cell_x(f.left, f.width, k)))
        + background(b[i], b[i + 1], b[i + 2]) + seq![32u8, 32u8]
}

/// The bytes that draw the first `n` pixels of `f`.
pub open spec fn draw_pixels(f: Frame, n: nat) -> Seq<u8>
    decreases n,
{
    if n == 0 {
        seq![]
    } else {
        draw_pixels(f, (n - 1) as nat) + pixel_bytes(f, (n - 1) as nat)
    }
}

/// The bytes that draw every pixel of `f`.
pub open spec fn draw_bytes(f: Frame) -> Seq<u8> {
    draw_pixels(f, f.pixel_count())
}

/// The bytes that blank the rectangle at `left`, `top` of `width` by `height`
/// pixels: for each cell, row by row, the cursor goes to its position and a
/// space is written. No colour is selected.
pub fn clear_area(left: u16, top: u16, width: u16, height: u16) -> (r: Vec<u8>)
    ensures
        r@ == clear_bytes(Area { left, top, width, height }),
{
    let ghost a = Area { left, top, width, height };
    assert(width as u64 * height as u64 <= 0xffff * 0xffff) by (nonlinear_arith)
        requires
            width <= 0xffff,
            height <= 0xffff,
    ;
    let n: u64 = width as u64 * height as u64;
    let mut out: Vec<u8> = Vec::new();
    let mut k: u64 = 0;
    while k < n
        invariant
            a == (Area { left, top, width, height }),
            n == width * height,
            n <= 0xffff * 0xffff,
            k <= n,
            out@ == clear_cells(a, k as nat),
        decreases n - k,
    {
        assert(width > 0) by (nonlinear_arith)
            requires
                k < n,
                n == width * height,
        ;
        let w: u64 = width as u64;
        assert(k / w <= k) by (nonlinear_arith)
            requires
                w >= 1,
        ;
        let row: u64 = top as u64 + k / w + 1;
        let col: u64 = (left as u64 + k % w + 1) * 2;
        assert(row == term_row(cell_y(top, width, k as nat)));
        assert(col == term_col(cell_x(left, width, k as nat)));
        let ghost before = out@;
        push_cursor_to(&mut out, row, col);
        out.push(32u8);
        assert(out@ =~= before + blank_at(row as nat, col as nat));
        assert(clear_cells(a, (k + 1) as nat) == clear_cells(a, k as nat) + blank_at(
            term_row(cell_y(a.top, a.width, k as nat)),
            term_col(cell_x(a.left, a.width, k as nat)),
        ));
        k = k + 1;
    }
    out
}

/// The bytes that draw `frame`: for each whole pixel of its buffer, the cursor
/// goes to the pixel's position, its red, green and blue become the background
/// colour, and two spaces are written. Alpha is not used.
pub fn draw_frame(frame: &Frame) -> (r: Vec<u8>)
    requires
        frame.drawable(),
    ensures
        r@ == draw_bytes(*frame),
{
    let n: usize = frame.buffer.len() / 4;
    let mut out: Vec<u8> = Vec::new();
    let mut k: usize = 0;
    while k < n
        invariant
            n == frame.pixel_count(),
            frame.drawable(),
            4 * n <= frame.buffer@.len() <= usize::MAX,
            k <= n,
            out@ == draw_pixels(*frame, k as nat),
        decreases n - k,
    {
        let w: u64 = frame.width as u64;
        let i: u64 = k as u64;
        assert(w >= 1);
        assert(i / w <= i) by (nonlinear_arith)
            requires
                w >= 1,
        ;
        assert(4 * k + 2 < frame.buffer@.len());
        let row: u64 = frame.top as u64 + i / w + 1;
        let col: u64 = (frame.left as u64 + i % w + 1) * 2;
        push_cursor_to(&mut out, row, col);
        push_background(&mut out, frame.buffer[4 * k], frame.buffer[4 * k + 1], frame.buffer[4 * k + 2]);
        out.push(32u8);
        out.push(32u8);
        k = k + 1;
        assert(out@ =~= draw_pixels(*frame, k as nat));
    }
    out
}

/// Pixel `i` of a frame `width` wide lands inside the frame's rectangle, two
/// different pixels land on different cells, and every cell of the rectangle
/// is where some pixel lands.
pub proof fn pixel_positions_bijective(left: u16, top: u16, width: u16, height: u16)
    requires
        width > 0,
    ensures
        forall|i: nat|
            #![trigger cell_x(left, width, i)]
            #![trigger cell_y(top, width, i)]
            i < width * height ==> covers(
                Area { left, top, width, height },
                cell_x(left, width, i),
                cell_y(top, width, i),
            ),
        forall|i: nat, j: nat|
            #![trigger cell_x(left, width, i), cell_x(left, width, j)]
            i != j ==> cell_x(left, width, i) != cell_x(left, width, j) || cell_y(top, width, i)
                != cell_y(top, width, j),
        forall|x: int, y: int|
            #[trigger] covers(Area { left, top, width, height }, x, y) ==> exists|i: nat|
                i < width * height && cell_x(left, width, i) == x && cell_y(top, width, i) == y,
{
    let w = width as int;
    let h = height as int;
    assert forall|i: nat| i < w * h implies covers(
        Area { left, top, width, height },
        #[trigger] cell_x(left, width, i),
        cell_y(top, width, i),
    ) by {
        assert(0 <= (i as int) % w < w) by (nonlinear_arith)
            requires
                w > 0,
        ;
        assert(0 <= (i as int) / w < h) by (nonlinear_arith)
            requires
                w > 0,
                0 <= i < w * h,
        ;
    }
    assert forall|i: nat, j: nat| i != j implies cell_x(left, width, i) != cell_x(left, width, j)
        || cell_y(top, width, i) != cell_y(top, width, j) by {
        let ii = i as int;
        let jj = j as int;
        assert(ii == w * (ii / w) + ii % w) by (nonlinear_arith)
            requires
                w > 0,
        ;
        assert(jj == w * (jj / w) + jj % w) by (nonlinear_arith)
            requires
                w > 0,
        ;
    }
    assert forall|x: int, y: int| #[trigger]
        covers(Area { left, top, width, height }, x, y) implies exists|
        i: nat,
    | i < width * height && cell_x(left, width, i) == x && cell_y(top, width, i) == y by {
        let dx = x - left;
        let dy = y - top;
        let i = dy * w + dx;
        assert(0 <= i < w * h && i / w == dy && i % w == dx) by (nonlinear_arith)
            requires
                w > 0,
                0 <= dx < w,
                0 <= dy < h,
                i == dy * w + dx,
        ;
        assert(cell_x(left, width, i as nat) == x && cell_y(top, width, i as nat) == y);
    }
}

/// No byte of `s` is `m`, the byte that ends every colour selection.
pub open spec fn selects_no_colour(s: Seq<u8>) -> bool {
    forall|i: int| 0 <= i < s.len() ==> #[trigger] s[i] != 109u8
}

proof fn decimal_is_digits(n: nat)
    ensures
        forall|i: int|
            0 <= i < decimal(n).len() ==> 48u8 <= #[trigger] decimal(n)[i] <= 57u8,
    decreases n,
{
    if n >= 10 {
        decimal_is_digits(n / 10);
        let p = decimal(n / 10);
        assert forall|i: int| 0 <= i < decimal(n).len() implies 48u8 <= #[trigger] decimal(n)[i]
            <= 57u8 by {
            if i < p.len() {
                assert(decimal(n)[i] == p[i]);
            }
        }
    }
}

proof fn blank_selects_no_colour(row: nat, col: nat)
    ensures
        selects_no_colour(blank_at(row, col)),
{
    decimal_is_digits(row);
    decimal_is_digits(col);
    let s = blank_at(row, col);
    let r = decimal(row);
    let c = decimal(col);
    assert forall|i: int| 0 <= i < s.len() implies #[trigger] s[i] != 109u8 by {
        if 2 <= i < 2 + r.len() {
            assert(s[i] == r[i - 2]);
        } else if 3 + r.len() <= i < 3 + r.len() + c.len() {
            assert(s[i] == c[i - 3 - r.len()]);
        }
    }
}

proof fn clear_cells_select_no_colour(a: Area, n: nat)
    ensures
        selects_no_colour(clear_cells(a, n)),
    decreases n,
{
    if n > 0 {
        let k = (n - 1) as nat;
        let row = term_row(cell_y(a.top, a.width, k));
        let col = term_col(cell_x(a.left, a.width, k));
        clear_cells_select_no_colour(a, k);
        blank_selects_no_colour(row, col);
        let p = clear_cells(a, k);
        let q = blank_at(row, col);
        assert forall|i: int| 0 <= i < p.len() + q.len() implies #[trigger] (p + q)[i] != 109u8 by {
            if i >= p.len() {
                assert((p + q)[i] == q[i - p.len()]);
            } else {
                assert((p + q)[i] == p[i]);
            }
        }
    }
}

/// Blanking a rectangle writes no colour selection: the stream depends on the
/// rectangle alone, not on the colours the terminal holds, so blanking the
/// same rectangle twice writes the same bytes twice.
pub proof fn clear_is_colourless(left: u16, top: u16, width: u16, height: u16)
    ensures
        selects_no_colour(clear_bytes(Area { left, top, width, height })),
{
    let a = Area { left, top, width, height };
    clear_cells_select_no_colour(a, (a.width * a.height) as nat);
}

} // verus!
