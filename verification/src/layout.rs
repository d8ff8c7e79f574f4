use vstd::prelude::*;

verus! {

use crate::tape::{TapeArr, Unsigned};

/// Largest pixel measure (screen side, cell side, text width, cell count)
/// the layout engine accepts; keeps every coordinate product inside `i64`.
pub const MAX_DIM: u64 = 100_000;

/// Largest magnitude of a layout origin, in pixels.
pub const ORIGIN_MAX: i64 = 100_000_000_000;

/// The fixed on-screen parameters of one row of cells.
///
/// All lengths are in pixels. `cell_size` is the drawn side of a cell square
/// and is independent of the cells' byte width.
#[derive(Clone, Copy, PartialEq, Eq, Structural, Debug)]
pub struct Geometry {
    pub screen_width: u64,
    pub line_thickness: u64,
    pub cell_size: u64,
    pub font_size: u64,
}

impl Geometry {
    pub open spec fn wf(self) -> bool {
        &&& 1 <= self.screen_width <= MAX_DIM
        &&& 2 * self.line_thickness < self.screen_width
        &&& 1 <= self.cell_size <= MAX_DIM
        &&& self.font_size <= MAX_DIM
    }
}

/// Coordinates are exact: one pixel is `10 * screen_width` units, so the
/// padding factor `(screen_width - 2*line_thickness) / screen_width` and the
/// marker offsets `s/2` and `2*s/5` are whole numbers of units.
pub open spec fn unit(g: Geometry) -> int {
    10 * g.screen_width
}

/// Numerator of the padding factor; the factor itself is `pad_num(g) / screen_width`.
pub open spec fn pad_num(g: Geometry) -> int {
    g.screen_width - 2 * g.line_thickness
}

/// Top-left x of cell `n`, in units: exactly `origin.x + n * s * padding` pixels.
pub open spec fn cell_x(g: Geometry, ox: int, n: int) -> int {
    ox * unit(g) + 10 * n * g.cell_size * pad_num(g)
}

/// One draw primitive handed to the render surface; every coordinate is in
/// units of `1 / (10 * screen_width)` pixel.
#[derive(Clone, Copy, PartialEq, Eq, Structural, Debug)]
pub enum Primitive {
    /// Outlined square: top-left corner, side, stroke width.
    RectOutline { x: i64, y: i64, side: i64, thickness: i64 },
    /// The decimal label of `value`, top-left corner and font height.
    Text { x: i64, y: i64, font: i64, value: usize },
    /// A filled triangle, corners in order.
    Triangle { x1: i64, y1: i64, x2: i64, y2: i64, x3: i64, y3: i64 },
}

/// The outlined square of cell `n` stands exactly on the padded grid.
pub open spec fn rect_ok(p: Primitive, g: Geometry, ox: int, oy: int, n: int) -> bool {
    p matches Primitive::RectOutline { x, y, side, thickness } && x == cell_x(g, ox, n) && y == oy
        * unit(g) && side == g.cell_size * unit(g) && thickness == g.line_thickness * unit(g)
}

/// The label of cell `n` shows `v` and is centered in the square: offset from
/// the cell corner by half the cell side minus half the measured text width,
/// and vertically by half the side minus half the font height.
pub open spec fn text_ok(p: Primitive, g: Geometry, ox: int, oy: int, n: int, v: nat, tw: int) -> bool {
    p matches Primitive::Text { x, y, font, value } && value == v && x == cell_x(g, ox, n) + 5
        * g.screen_width * (g.cell_size - tw) && y == oy * unit(g) + 5 * g.screen_width * (
    g.cell_size - g.font_size) && font == g.font_size * unit(g)
}

/// Horizontal center of the pointer marker: the middle of cell `ptr`'s square.
pub open spec fn marker_apex_x(g: Geometry, ox: int, ptr: int) -> int {
    cell_x(g, ox, ptr) + 5 * g.screen_width * g.cell_size
}

/// The marker's row reference line, one and a half cell sides below the row origin.
pub open spec fn marker_base_y(g: Geometry, oy: int) -> int {
    oy * unit(g) + 15 * g.screen_width * g.cell_size
}

/// Half-width of the marker triangle: `2*s/5` pixels.
pub open spec fn marker_half(g: Geometry) -> int {
    4 * g.screen_width * g.cell_size
}

/// The pointer marker: an upward triangle horizontally centered under cell
/// `ptr`, apex `2*s/5` above the reference line, base corners `2*s/5` below
/// and `2*s/5` to each side.
pub open spec fn marker_ok(p: Primitive, g: Geometry, ox: int, oy: int, ptr: int) -> bool {
    p matches Primitive::Triangle { x1, y1, x2, y2, x3, y3 } && x1 == marker_apex_x(g, ox, ptr)
        - marker_half(g) && y1 == marker_base_y(g, oy) + marker_half(g) && x2 == marker_apex_x(
    g, ox, ptr) + marker_half(g) && y2 == marker_base_y(g, oy) + marker_half(g) && x3
        == marker_apex_x(g, ox, ptr) && y3 == marker_base_y(g, oy) - marker_half(g)
}

/// The values the labels of a row show.
pub open spec fn label_vals<T: Unsigned>(s: Seq<T>) -> Seq<nat> {
    s.map_values(|t: T| t.val())
}

/// Cell `n` of a laid-out row: its square at index `2n`, its label at `2n + 1`.
pub open spec fn cell_ok(
    ps: Seq<Primitive>,
    g: Geometry,
    ox: int,
    oy: int,
    vals: Seq<nat>,
    tws: Seq<u64>,
    n: int,
) -> bool {
    &&& rect_ok(ps[2 * n], g, ox, oy, n)
    &&& text_ok(ps[2 * n + 1], g, ox, oy, n, vals[n], tws[n] as int)
}

/// A fully laid-out tape row: the cell grid, then the pointer marker last.
pub open spec fn tape_ok(
    ps: Seq<Primitive>,
    t: TapeArr,
    tws: Seq<u64>,
    g: Geometry,
    ox: int,
    oy: int,
) -> bool {
    &&& ps.len() == 2 * t.vec.len() + 1
    &&& forall|n: int|
        0 <= n < t.vec.len() ==> #[trigger] cell_ok(ps, g, ox, oy, label_vals(t.vec@), tws, n)
    &&& marker_ok(ps[ps.len() - 1], g, ox, oy, t.pointer as int)
}

proof fn lemma_mul_bound(a: int, b: int, amax: int, bmax: int)
    by (nonlinear_arith)
    requires
        -amax <= a <= amax,
        -bmax <= b <= bmax,
        0 <= amax,
        0 <= bmax,
    ensures
        -(amax * bmax) <= a * b <= amax * bmax,
{
}

/// Law: every cell square stands at exactly `origin.x + n*s*padding`, the
/// origins are strictly increasing, and two distinct cells' slots of one
/// pitch `s*padding` never overlap.
pub proof fn lemma_cells_disjoint(g: Geometry, ox: int, m: int, n: int)
    requires
        g.wf(),
        0 <= m < n,
    ensures
        cell_x(g, ox, m) + 10 * g.cell_size * pad_num(g) <= cell_x(g, ox, n),
        cell_x(g, ox, m) < cell_x(g, ox, n),
{
    let s = g.cell_size as int;
    let p = pad_num(g);
    assert(10 * m * s * p + 10 * s * p <= 10 * n * s * p) by (nonlinear_arith)
        requires
            m + 1 <= n,
            1 <= s,
            1 <= p,
    ;
    assert(10 * s * p >= 1) by (nonlinear_arith)
        requires
            1 <= s,
            1 <= p,
    ;
}

/// Law: the pointer marker's horizontal position is a strictly increasing
/// function of the pointer index, so after any sequence of valid moves the
/// marker stands under the current cell and nowhere else.
pub proof fn lemma_marker_tracks_pointer(g: Geometry, ox: int, p1: int, p2: int)
    requires
        g.wf(),
        0 <= p1 < p2,
    ensures
        marker_apex_x(g, ox, p1) == cell_x(g, ox, p1) + 5 * g.screen_width * g.cell_size,
        marker_apex_x(g, ox, p1) < marker_apex_x(g, ox, p2),
{
    lemma_cells_disjoint(g, ox, p1, p2);
}

fn cell_x_px(g: &Geometry, ox: i64, n: u64) -> (x: i64)
    requires
        g.wf(),
        -ORIGIN_MAX <= ox <= ORIGIN_MAX,
        n <= MAX_DIM,
    ensures
        x == cell_x(*g, ox as int, n as int),
        -200_000_000_000_000_000 <= x <= 200_000_000_000_000_000,
{
    let w: i64 = g.screen_width as i64;
    let pad: i64 = w - 2 * (g.line_thickness as i64);
    let s: i64 = g.cell_size as i64;
    proof {
        lemma_mul_bound(ox as int, 10 * w, ORIGIN_MAX as int, 1_000_000);
        lemma_mul_bound(10 * (n as int), s as int, 1_000_000, MAX_DIM as int);
        lemma_mul_bound(10 * (n as int) * s, pad as int, 100_000_000_000, MAX_DIM as int);
    }
    ox * (10 * w) + 10 * (n as i64) * s * pad
}

/// Lay out a row of plain values as outlined squares with centered decimal
/// labels, cell `n` at `origin.x + n * s * padding`. `widths[n]` is the
/// measured pixel width of cell `n`'s rendered label at `font_size`.
pub fn draw_array<T: Unsigned>(
    array: &Vec<T>,
    widths: &Vec<u64>,
    g: &Geometry,
    ox: i64,
    oy: i64,
) -> (r: Vec<Primitive>)
    requires
        g.wf(),
        array@.len() <= MAX_DIM,
        widths@.len() == array@.len(),
        forall|i: int| 0 <= i < widths@.len() ==> (#[trigger] widths@[i]) <= MAX_DIM,
        -ORIGIN_MAX <= ox <= ORIGIN_MAX,
        -ORIGIN_MAX <= oy <= ORIGIN_MAX,
    ensures
        r@.len() == 2 * array@.len(),
        forall|n: int|
            0 <= n < array@.len() ==> #[trigger] cell_ok(
                r@,
                *g,
                ox as int,
                oy as int,
                label_vals(array@),
                widths@,
                n,
            ),
{
    let ghost vals = label_vals(array@);
    let w: i64 = g.screen_width as i64;
    let s: i64 = g.cell_size as i64;
    let f: i64 = g.font_size as i64;
    proof {
        lemma_mul_bound(oy as int, 10 * w, ORIGIN_MAX as int, 1_000_000);
        lemma_mul_bound(s as int, 10 * w, MAX_DIM as int, 1_000_000);
        lemma_mul_bound((g.line_thickness) as int, 10 * w, MAX_DIM as int, 1_000_000);
        lemma_mul_bound(f as int, 10 * w, MAX_DIM as int, 1_000_000);
        lemma_mul_bound(5 * w, s - f, 500_000, 200_000);
    }
    let oy_u: i64 = oy * (10 * w);
    let side: i64 = s * (10 * w);
    let thick: i64 = (g.line_thickness as i64) * (10 * w);
    let font_u: i64 = f * (10 * w);
    let text_y: i64 = oy_u + (5 * w) * (s - f);
    let mut r: Vec<Primitive> = Vec::new();
    let mut n: usize = 0;
    while n < array.len()
        invariant
            g.wf(),
            array@.len() <= MAX_DIM,
            widths@.len() == array@.len(),
            forall|i: int| 0 <= i < widths@.len() ==> (#[trigger] widths@[i]) <= MAX_DIM,
            -ORIGIN_MAX <= ox <= ORIGIN_MAX,
            -ORIGIN_MAX <= oy <= ORIGIN_MAX,
            n <= array@.len(),
            r@.len() == 2 * n,
            vals == label_vals(array@),
            w == g.screen_width,
            s == g.cell_size,
            f == g.font_size,
            oy_u == oy * unit(*g),
            side == g.cell_size * unit(*g),
            thick == g.line_thickness * unit(*g),
            font_u == g.font_size * unit(*g),
            text_y == oy * unit(*g) + 5 * g.screen_width * (g.cell_size - g.font_size),
            forall|k: int|
                0 <= k < n ==> #[trigger] cell_ok(r@, *g, ox as int, oy as int, vals, widths@, k),
        decreases array@.len() - n,
    {
        let ghost prev = r@;
        let x: i64 = cell_x_px(g, ox, n as u64);
        let rect = Primitive::RectOutline { x, y: oy_u, side, thickness: thick };
        r.push(rect);
        let tw: i64 = widths[n] as i64;
        proof {
            lemma_mul_bound(5 * w, s - tw, 500_000, 200_000);
        }
        let text_x: i64 = x + (5 * w) * (s - tw);
        let value: usize = array[n].print();
        let txt = Primitive::Text { x: text_x, y: text_y, font: font_u, value };
        r.push(txt);
        proof {
            let mid = prev.push(rect);
            assert(r@ == mid.push(txt));
            assert forall|k: int| 0 <= k < n + 1 implies #[trigger] cell_ok(
                r@,
                *g,
                ox as int,
                oy as int,
                vals,
                widths@,
                k,
            ) by {
                if k < n {
                    assert(r@[2 * k] == prev[2 * k]);
                    assert(r@[2 * k + 1] == prev[2 * k + 1]);
                    assert(cell_ok(prev, *g, ox as int, oy as int, vals, widths@, k));
                } else {
                    assert(r@[2 * k] == rect);
                    assert(r@[2 * k + 1] == txt);
                    assert(vals[k] == array@[k].val());
                }
            }
        }
        n += 1;
    }
    r
}

/// Lay out one tape: the cell grid of `draw_array` over the tape's cells,
/// then the pointer marker centered under cell `pointer`.
pub fn draw_tape_arr(tape: &TapeArr, widths: &Vec<u64>, g: &Geometry, ox: i64, oy: i64) -> (r: Vec<
    Primitive,
>)
    requires
        tape.wf(),
        g.wf(),
        tape.vec@.len() <= MAX_DIM,
        widths@.len() == tape.vec@.len(),
        forall|i: int| 0 <= i < widths@.len() ==> (#[trigger] widths@[i]) <= MAX_DIM,
        -ORIGIN_MAX <= ox <= ORIGIN_MAX,
        -ORIGIN_MAX <= oy <= ORIGIN_MAX,
    ensures
        tape_ok(r@, *tape, widths@, *g, ox as int, oy as int),
{
    let w: i64 = g.screen_width as i64;
    let s: i64 = g.cell_size as i64;
    let mut r: Vec<Primitive> = draw_array(&tape.vec, widths, g, ox, oy);
    let ghost prev = r@;
    proof {
        lemma_mul_bound(oy as int, 10 * w, ORIGIN_MAX as int, 1_000_000);
        lemma_mul_bound(15 * w, s as int, 1_500_000, MAX_DIM as int);
        lemma_mul_bound(5 * w, s as int, 500_000, MAX_DIM as int);
        lemma_mul_bound(4 * w, s as int, 400_000, MAX_DIM as int);
    }
    let apex_x: i64 = cell_x_px(g, ox, tape.pointer as u64) + (5 * w) * s;
    let base_y: i64 = oy * (10 * w) + (15 * w) * s;
    let half: i64 = (4 * w) * s;
    r.push(
        Primitive::Triangle {
            x1: apex_x - half,
            y1: base_y + half,
            x2: apex_x + half,
            y2: base_y + half,
            x3: apex_x,
            y3: base_y - half,
        },
    );
    proof {
        assert forall|n: int| 0 <= n < tape.vec@.len() implies #[trigger] cell_ok(
            r@,
            *g,
            ox as int,
            oy as int,
            label_vals(tape.vec@),
            widths@,
            n,
        ) by {
            assert(r@[2 * n] == prev[2 * n]);
            assert(r@[2 * n + 1] == prev[2 * n + 1]);
            assert(cell_ok(prev, *g, ox as int, oy as int, label_vals(tape.vec@), widths@, n));
        }
    }
    r
}

/// Lay out several tapes stacked vertically: tape `k`'s row origin is
/// `(origin.x, origin.y + k * 2 * cell_size)`, leaving each row clearance
/// for its pointer marker.
pub fn draw_tapes(
    tapes: &Vec<TapeArr>,
    widths: &Vec<Vec<u64>>,
    g: &Geometry,
    ox: i64,
    oy: i64,
) -> (r: Vec<Vec<Primitive>>)
    requires
        g.wf(),
        widths@.len() == tapes@.len(),
        tapes@.len() <= MAX_DIM,
        forall|k: int| 0 <= k < tapes@.len() ==> (#[trigger] tapes@[k]).wf(),
        forall|k: int| 0 <= k < tapes@.len() ==> (#[trigger] tapes@[k]).vec@.len() <= MAX_DIM,
        forall|k: int|
            0 <= k < tapes@.len() ==> (#[trigger] widths@[k])@.len() == tapes@[k].vec@.len(),
        forall|k: int, i: int|
            0 <= k < tapes@.len() && 0 <= i < widths@[k]@.len() ==> (#[trigger] widths@[k]@[i])
                <= MAX_DIM,
        -ORIGIN_MAX <= ox <= ORIGIN_MAX,
        0 <= oy <= MAX_DIM,
    ensures
        r@.len() == tapes@.len(),
        forall|k: int|
            0 <= k < tapes@.len() ==> tape_ok(
                (#[trigger] r@[k])@,
                tapes@[k],
                widths@[k]@,
                *g,
                ox as int,
                oy + k * 2 * g.cell_size,
            ),
{
    let mut r: Vec<Vec<Primitive>> = Vec::new();
    let mut k: usize = 0;
    while k < tapes.len()
        invariant
            g.wf(),
            widths@.len() == tapes@.len(),
            tapes@.len() <= MAX_DIM,
            forall|j: int| 0 <= j < tapes@.len() ==> (#[trigger] tapes@[j]).wf(),
            forall|j: int| 0 <= j < tapes@.len() ==> (#[trigger] tapes@[j]).vec@.len() <= MAX_DIM,
            forall|j: int|
                0 <= j < tapes@.len() ==> (#[trigger] widths@[j])@.len() == tapes@[j].vec@.len(),
            forall|j: int, i: int|
                0 <= j < tapes@.len() && 0 <= i < widths@[j]@.len() ==> (#[trigger] widths@[j]@[i])
                    <= MAX_DIM,
            -ORIGIN_MAX <= ox <= ORIGIN_MAX,
            0 <= oy <= MAX_DIM,
            k <= tapes@.len(),
            r@.len() == k,
            forall|j: int|
                0 <= j < k ==> tape_ok(
                    (#[trigger] r@[j])@,
                    tapes@[j],
                    widths@[j]@,
                    *g,
                    ox as int,
                    oy + j * 2 * g.cell_size,
                ),
        decreases tapes@.len() - k,
    {
        proof {
            let c = g.cell_size as int;
            assert(0 <= (k as int) * 2 * c <= 20_000_000_000) by (nonlinear_arith)
                requires
                    0 <= k <= 100_000,
                    0 <= c <= 100_000,
            ;
        }
        let row_y: i64 = oy + (k as i64) * 2 * (g.cell_size as i64);
        let row: Vec<Primitive> = draw_tape_arr(&tapes[k], &widths[k], g, ox, row_y);
        r.push(row);
        k += 1;
    }
    r
}

} // verus!
