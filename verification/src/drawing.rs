//! Drawers that collect coloured points and write them to a surface of
//! bytes.

use vstd::prelude::*;

use crate::color::{Color, ColorMode, Pixel};
use crate::linearalgebra::lemma_cell_in_grid;
use crate::scalar::{
    difference, is_ceiling, is_difference, is_floor, is_less, is_number, is_product, is_quotient,
    is_same, is_sum, is_truncation, is_zero, Real,
};

verus! {

/// How a drawer keeps what was drawn: as a list of pixels, or as operations
/// on a canvas.
#[derive(Copy, Clone, Debug, PartialEq, Eq, Structural)]
pub enum DrawMode {
    PIXELBUFFER,
    CANVAS,
}

/// `v` as a signed number of the same 32 bits.
pub open spec fn reinterpreted(v: u32) -> i32 {
    if v <= i32::MAX {
        v as i32
    } else {
        (v - 0x1_0000_0000) as i32
    }
}

/// `v` as a signed number of the same 32 bits.
fn reinterpret(v: u32) -> (r: i32)
    ensures
        r == reinterpreted(v),
{
    if v <= 0x7fff_ffff {
        v as i32
    } else {
        ((v - 0x8000_0000) as i32) + i32::MIN
    }
}

/// `r` is a value that the distance from `from` to `to` may have as a
/// scalar: the scalar of `to` minus the scalar of `from`.
pub open spec fn is_span<T: Real>(from: i32, to: i32, r: T) -> bool {
    exists|start: T, end: T|
        #![trigger is_number(from, start), is_number(to, end)]
        is_number(from, start) && is_number(to, end) && is_difference(end, start, r)
}

/// `y` is a row that the line of slope `m` through `c` may pass in column
/// `x`: `m * x + c`, cut to a whole number.
pub open spec fn is_height<T: Real>(m: T, c: T, x: i32, y: i32) -> bool {
    exists|at: T, rise: T, height: T|
        #![trigger is_product(m, at, rise), is_sum(rise, c, height)]
        is_number(x, at) && is_product(m, at, rise) && is_sum(rise, c, height) && is_truncation(
            height,
            y,
        )
}

/// `m` is a slope that a line which rises by `dy` over `dx` may have, `c` a
/// height at which that line, through `a`, may cross the column 0, and
/// `m_round` the slope rounded away from zero to a whole number.
pub open spec fn is_slope<T: Real>(a: (i32, i32), dx: T, dy: T, m: T, c: T, m_round: i32) -> bool {
    exists|zero: T, rising: bool, rounded: T, start_x: T, start_y: T, run: T|
        #![trigger
            is_less(zero, m, rising),
            is_truncation(rounded, m_round),
            is_product(m, start_x, run),
            is_difference(start_y, run, c)
        ]
        is_quotient(dy, dx, m) && is_zero(zero) && is_less(zero, m, rising) && (if rising {
            is_ceiling(m, rounded)
        } else {
            is_floor(m, rounded)
        }) && is_truncation(rounded, m_round) && is_number(a.0, start_x) && is_number(a.1, start_y)
            && is_product(m, start_x, run) && is_difference(start_y, run, c)
}

/// The smaller of `v` and 0.
pub open spec fn below_zero(v: int) -> int {
    if v < 0 {
        v
    } else {
        0
    }
}

/// The distance of `v` from 0.
pub open spec fn magnitude(v: int) -> int {
    if v < 0 {
        -v
    } else {
        v
    }
}

/// The point of a sloped line in its `i`th column and, of the points of
/// that column, in the `j`th place.
pub open spec fn nth_point(points: Seq<(i32, i32)>, thick: int, i: int, j: int) -> (i32, i32) {
    points[thick * i + j]
}

/// `p` is a point that the line of slope `m` through `c` may be drawn with
/// in column `x`, in place `j` of the points of that column: in the row that
/// the line passes there, plus the smaller of `m_round` and 0, plus `j`.
/// Rows wrap around at the ends of `i32`.
pub open spec fn is_point_of_slope<T: Real>(
    m: T,
    c: T,
    m_round: i32,
    x: int,
    j: int,
    p: (i32, i32),
) -> bool {
    p.0 == x && exists|y: i32| #[trigger]
        is_height(m, c, p.0, y) && p.1 == ((below_zero(m_round as int) + j) as i32).wrapping_add(
            y,
        )
}

/// `points` is a run of points that the line of slope `m` through `c` may
/// be drawn with from column `from` up to, and without, column `to`: in
/// every column as many points as `m_round` is away from zero, one below the
/// other.
pub open spec fn is_sloped_run<T: Real>(
    from: i32,
    to: i32,
    m: T,
    c: T,
    m_round: i32,
    points: Seq<(i32, i32)>,
) -> bool {
    let thick = magnitude(m_round as int);
    &&& points.len() == thick * (to - from)
    &&& forall|i: int, j: int|
        0 <= i < to - from && 0 <= j < thick ==> is_point_of_slope(
            m,
            c,
            m_round,
            from + i,
            j,
            #[trigger] nth_point(points, thick, i, j),
        )
}

/// The points (`from`, `row`), (`from + 1`, `row`), and so on up to, and
/// without, (`to`, `row`).
pub open spec fn level_run(from: i32, to: i32, row: i32) -> Seq<(i32, i32)> {
    Seq::new(
        if to < from {
            0nat
        } else {
            (to - from) as nat
        },
        |i: int| ((from + i) as i32, row),
    )
}

/// The points (`column`, `from`), (`column`, `from + 1`), and so on up to,
/// and without, (`column`, `to`).
pub open spec fn upright_run(column: i32, from: i32, to: i32) -> Seq<(i32, i32)> {
    Seq::new(
        if to < from {
            0nat
        } else {
            (to - from) as nat
        },
        |i: int| (column, (from + i) as i32),
    )
}

/// `points` is a run of points that the line from `a` to `b`, which lies
/// in no column before `a`, may be drawn with.
///
/// A line whose rise compares equal to zero is level; of the others, a line
/// whose run compares equal to zero is upright, and any other is sloped.
pub open spec fn is_run<T: Real>(a: (i32, i32), b: (i32, i32), points: Seq<(i32, i32)>) -> bool {
    exists|dy: T, dx: T, zero: T, level: bool|
        #![trigger is_span(a.1, b.1, dy), is_span(a.0, b.0, dx), is_same(dy, zero, level)]
        is_span(a.1, b.1, dy) && is_span(a.0, b.0, dx) && is_zero(zero) && is_same(dy, zero, level)
            && if level {
            points == level_run(a.0, b.0, a.1)
        } else {
            exists|upright: bool| #[trigger]
                is_same(dx, zero, upright) && if upright {
                    points == upright_run(
                        a.0,
                        if a.1 < b.1 {
                            a.1
                        } else {
                            b.1
                        },
                        if a.1 < b.1 {
                            b.1
                        } else {
                            a.1
                        },
                    )
                } else {
                    exists|m: T, c: T, m_round: i32| #[trigger]
                        is_slope(a, dx, dy, m, c, m_round) && is_sloped_run(
                            a.0,
                            b.0,
                            m,
                            c,
                            m_round,
                            points,
                        )
                }
        }
}

/// `points` is a run of points that the line from `point_a` to `point_b`
/// may be drawn with: the line runs from the point with the smaller column
/// to the other, and ends before it reaches it.
pub open spec fn is_line<T: Real>(
    point_a: (i32, i32),
    point_b: (i32, i32),
    points: Seq<(i32, i32)>,
) -> bool {
    if point_a.0 > point_b.0 {
        is_run::<T>(point_b, point_a, points)
    } else {
        is_run::<T>(point_a, point_b, points)
    }
}

/// The distance from `from` to `to` as a scalar.
fn span<T: Real>(from: i32, to: i32) -> (r: T)
    ensures
        is_span(from, to, r),
{
    let start = T::from_i32(from);
    let end = T::from_i32(to);
    let r = difference(end, start);
    assert(is_number(from, start) && is_number(to, end));
    r
}

/// The row that the line of slope `m` through `c` passes in column `x`.
fn height<T: Real>(m: T, c: T, x: i32) -> (y: i32)
    ensures
        is_height(m, c, x, y),
{
    let at = T::from_i32(x);
    let rise = m.mul(at);
    let height = rise.add(c);
    assert(is_product(m, at, rise) && is_sum(rise, c, height));
    height.to_i32()
}

/// The points from (`from`, `row`) up to, and without, (`to`, `row`).
fn level(from: i32, to: i32, row: i32) -> (points: Vec<(i32, i32)>)
    ensures
        points@ == level_run(from, to, row),
{
    let mut points: Vec<(i32, i32)> = Vec::new();
    let mut x: i32 = from;
    while x < to
        invariant
            from <= x,
            x <= to || to < from,
            to < from ==> x == from,
            points@ == level_run(from, x, row),
        decreases to - x,
    {
        points.push((x, row));
        assert(points@ =~= level_run(from, (x + 1) as i32, row));
        x += 1;
    }
    assert(points@ =~= level_run(from, to, row)) by {
        if to < from {
            assert(x == from);
        } else {
            assert(x == to);
        }
    }
    points
}

/// The points from (`column`, `from`) up to, and without, (`column`, `to`).
fn upright(column: i32, from: i32, to: i32) -> (points: Vec<(i32, i32)>)
    ensures
        points@ == upright_run(column, from, to),
{
    let mut points: Vec<(i32, i32)> = Vec::new();
    let mut y: i32 = from;
    while y < to
        invariant
            from <= y,
            y <= to || to < from,
            to < from ==> y == from,
            points@ == upright_run(column, from, y),
        decreases to - y,
    {
        points.push((column, y));
        assert(points@ =~= upright_run(column, from, (y + 1) as i32));
        y += 1;
    }
    assert(points@ =~= upright_run(column, from, to)) by {
        if to < from {
            assert(y == from);
        } else {
            assert(y == to);
        }
    }
    points
}

/// Point (`i`, `j`) of `points` is a point of the sloped line.
spec fn holds_point<T: Real>(
    from: i32,
    m: T,
    c: T,
    m_round: i32,
    points: Seq<(i32, i32)>,
    i: int,
    j: int,
) -> bool {
    let thick = magnitude(m_round as int);
    let at = thick * i + j;
    0 <= at < points.len() && is_point_of_slope(m, c, m_round, from + i, j, points[at])
}

/// The points of the line of slope `m` through `c` from column `from` up
/// to, and without, column `to`.
fn sloped<T: Real>(from: i32, to: i32, m: T, c: T, m_round: i32) -> (points: Vec<(i32, i32)>)
    requires
        from <= to,
    ensures
        is_sloped_run(from, to, m, c, m_round, points@),
{
    let low: i64 = if m_round < 0 {
        m_round as i64
    } else {
        0
    };
    let high: i64 = if m_round > 0 {
        m_round as i64
    } else {
        0
    };
    let ghost thick = magnitude(m_round as int);
    let mut points: Vec<(i32, i32)> = Vec::new();
    let mut x: i32 = from;
    while x < to
        invariant
            from <= x <= to,
            low == below_zero(m_round as int),
            high - low == thick,
            thick == magnitude(m_round as int),
            points.len() == thick * (x - from),
            forall|i: int, j: int|
                0 <= i < x - from && 0 <= j < thick ==> #[trigger] holds_point(
                    from,
                    m,
                    c,
                    m_round,
                    points@,
                    i,
                    j,
                ),
        decreases to - x,
    {
        let mut y_diff: i64 = low;
        while y_diff < high
            invariant
                from <= x < to,
                low <= y_diff <= high,
                low == below_zero(m_round as int),
                high - low == thick,
                thick == magnitude(m_round as int),
                points.len() == thick * (x - from) + (y_diff - low),
                forall|i: int, j: int|
                    0 <= j < thick && (0 <= i < x - from || (i == x - from && j < y_diff - low))
                        ==> #[trigger] holds_point(from, m, c, m_round, points@, i, j),
            decreases high - y_diff,
        {
            let y = height(m, c, x);
            let ghost before = points@;
            points.push((x, (y_diff as i32).wrapping_add(y)));
            proof {
                assert forall|i: int, j: int|
                    0 <= j < thick && (0 <= i < x - from || (i == x - from && j < y_diff + 1
                        - low)) implies #[trigger] holds_point(
                    from,
                    m,
                    c,
                    m_round,
                    points@,
                    i,
                    j,
                ) by {
                    if i == x - from && j == y_diff - low {
                        assert(is_height(m, c, x, y));
                    } else {
                        assert(holds_point(from, m, c, m_round, before, i, j));
                    }
                }
            }
            y_diff += 1;
        }
        proof {
            assert(thick * (x + 1 - from) == thick * (x - from) + thick) by (nonlinear_arith);
        }
        x += 1;
    }
    proof {
        assert forall|i: int, j: int|
            0 <= i < to - from && 0 <= j < thick implies is_point_of_slope(
            m,
            c,
            m_round,
            from + i,
            j,
            #[trigger] nth_point(points@, thick, i, j),
        ) by {
            assert(holds_point(from, m, c, m_round, points@, i, j));
        }
    }
    points
}

/// The points that the line from `point_a` to `point_b` is drawn with, by
/// its slope.
pub fn slope_line<T: Real>(point_a: (i32, i32), point_b: (i32, i32)) -> (points: Vec<(i32, i32)>)
    ensures
        is_line::<T>(point_a, point_b, points@),
{
    if point_a.0 > point_b.0 {
        run::<T>(point_b, point_a)
    } else {
        run::<T>(point_a, point_b)
    }
}

/// The points that the line from `a` to `b`, which lies in no column before
/// `a`, is drawn with.
fn run<T: Real>(a: (i32, i32), b: (i32, i32)) -> (points: Vec<(i32, i32)>)
    requires
        a.0 <= b.0,
    ensures
        is_run::<T>(a, b, points@),
{
    // using y = mx + c
    let dy: T = span(a.1, b.1);
    let dx: T = span(a.0, b.0);
    let zero = T::zero();
    let level_line = dy.same(zero);
    assert(is_span(a.1, b.1, dy) && is_span(a.0, b.0, dx) && is_same(dy, zero, level_line));
    if level_line {
        level(a.0, b.0, a.1)
    } else {
        let upright_line = dx.same(zero);
        assert(is_same(dx, zero, upright_line));
        if upright_line {
            let (min_y, max_y) = if a.1 < b.1 {
                (a.1, b.1)
            } else {
                (b.1, a.1)
            };
            upright(a.0, min_y, max_y)
        } else {
            let m = dy.div(dx);
            let slope_zero = T::zero();
            let rising = slope_zero.lt(m);
            let rounded = if rising {
                m.ceil()
            } else {
                m.floor()
            };
            let m_round = rounded.to_i32();
            let start_x = T::from_i32(a.0);
            let start_y = T::from_i32(a.1);
            let run = m.mul(start_x);
            let c = difference(start_y, run);
            assert(is_less(slope_zero, m, rising) && is_truncation(rounded, m_round) && is_product(
                m,
                start_x,
                run,
            ) && is_difference(start_y, run, c));
            let points = sloped(a.0, b.0, m, c, m_round);
            assert(is_slope(a, dx, dy, m, c, m_round) && is_sloped_run(
                a.0,
                b.0,
                m,
                c,
                m_round,
                points@,
            ));
            points
        }
    }
}

/// The pixels of the colour `color` at `points`, one after the other.
pub open spec fn coloured(points: Seq<(i32, i32)>, color: Color) -> Seq<Pixel> {
    Seq::new(points.len(), |i: int| Pixel { color, x: points[i].0, y: points[i].1 })
}

/// Adds a pixel of the colour `color` for each of `points` to `pixels`.
fn append(pixels: &mut Vec<Pixel>, points: &Vec<(i32, i32)>, color: Color)
    ensures
        final(pixels)@ == old(pixels)@ + coloured(points@, color),
{
    let mut i: usize = 0;
    while i < points.len()
        invariant
            i <= points.len(),
            pixels@ == old(pixels)@ + coloured(points@.take(i as int), color),
        decreases points.len() - i,
    {
        let point = points[i];
        pixels.push(Pixel { color, x: point.0, y: point.1 });
        assert(pixels@ =~= old(pixels)@ + coloured(points@.take(i + 1), color));
        i += 1;
    }
    assert(points@.take(i as int) =~= points@);
}

/// Collects the points that were drawn, each with the colour it was drawn
/// in, until they are put on the screen.
pub struct PixelBufferDrawer {
    contents: Vec<Pixel>,
    bg_color: Color,
    draw_color: Color,
}

impl PixelBufferDrawer {
    /// The points that wait to be put on the screen, oldest first.
    pub closed spec fn spec_contents(&self) -> Seq<Pixel> {
        self.contents@
    }

    pub closed spec fn spec_bg_color(&self) -> Color {
        self.bg_color
    }

    pub closed spec fn spec_draw_color(&self) -> Color {
        self.draw_color
    }

    /// A drawer without points that draws in black.
    pub fn new(bg_color: Color) -> (drawer: Self)
        ensures
            drawer.spec_contents() == Seq::<Pixel>::empty(),
            drawer.spec_bg_color() == bg_color,
            drawer.spec_draw_color() == (Color { r: 0, g: 0, b: 0, a: 0xff, mode: ColorMode::RGB }),
    {
        PixelBufferDrawer { contents: Vec::new(), bg_color, draw_color: Color::black() }
    }

    /// Forgets the points.
    pub fn clear(&mut self)
        ensures
            final(self).spec_contents() == Seq::<Pixel>::empty(),
            final(self).spec_bg_color() == old(self).spec_bg_color(),
            final(self).spec_draw_color() == old(self).spec_draw_color(),
    {
        self.contents = Vec::new();
    }

    pub fn get_bg_color(&self) -> (color: Color)
        ensures
            color == self.spec_bg_color(),
    {
        self.bg_color
    }

    pub fn set_bg_color(&mut self, color: Color)
        ensures
            final(self).spec_bg_color() == color,
            final(self).spec_contents() == old(self).spec_contents(),
            final(self).spec_draw_color() == old(self).spec_draw_color(),
    {
        self.bg_color = color;
    }

    pub fn get_draw_color(&self) -> (color: Color)
        ensures
            color == self.spec_draw_color(),
    {
        self.draw_color
    }

    pub fn set_draw_color(&mut self, color: Color)
        ensures
            final(self).spec_draw_color() == color,
            final(self).spec_contents() == old(self).spec_contents(),
            final(self).spec_bg_color() == old(self).spec_bg_color(),
    {
        self.draw_color = color;
    }

    /// The points that wait to be put on the screen, oldest first.
    pub fn contents(&self) -> (contents: &Vec<Pixel>)
        ensures
            contents@ == self.spec_contents(),
    {
        &self.contents
    }

    /// Draws a point in the current colour.
    pub fn draw_point(&mut self, point: (u32, u32))
        ensures
            final(self).spec_contents() == old(self).spec_contents().push(
                Pixel {
                    color: old(self).spec_draw_color(),
                    x: reinterpreted(point.0),
                    y: reinterpreted(point.1),
                },
            ),
            final(self).spec_bg_color() == old(self).spec_bg_color(),
            final(self).spec_draw_color() == old(self).spec_draw_color(),
    {
        self.contents.push(
            Pixel { x: reinterpret(point.0), y: reinterpret(point.1), color: self.draw_color },
        );
    }

    /// Draws the line from `point_a` to `point_b` in the current colour, by
    /// its slope. The coordinates are taken as the signed numbers of the same
    /// bits, as `draw_point` takes them.
    pub fn draw_line<T: Real>(&mut self, point_a: (u32, u32), point_b: (u32, u32))
        ensures
            exists|points: Seq<(i32, i32)>| #[trigger]
                is_line::<T>(
                    (reinterpreted(point_a.0), reinterpreted(point_a.1)),
                    (reinterpreted(point_b.0), reinterpreted(point_b.1)),
                    points,
                ) && final(self).spec_contents() == old(self).spec_contents() + coloured(
                    points,
                    old(self).spec_draw_color(),
                ),
            final(self).spec_bg_color() == old(self).spec_bg_color(),
            final(self).spec_draw_color() == old(self).spec_draw_color(),
    {
        let a = (reinterpret(point_a.0), reinterpret(point_a.1));
        let b = (reinterpret(point_b.0), reinterpret(point_b.1));
        let points = slope_line::<T>(a, b);
        append(&mut self.contents, &points, self.draw_color);
    }

    /// Forgets the points and takes `color` as the background.
    pub fn fill(&mut self, color: Color)
        ensures
            final(self).spec_contents() == Seq::<Pixel>::empty(),
            final(self).spec_bg_color() == color,
            final(self).spec_draw_color() == old(self).spec_draw_color(),
    {
        self.contents = Vec::new();
        self.bg_color = color;
    }
}

/// The bytes `bytes` after the pixel that starts at `index` has been given
/// the colour `color`: blue first, then green, then red. The fourth byte of
/// the pixel stays as it is.
pub open spec fn with_color(bytes: Seq<u8>, index: int, color: Color) -> Seq<u8> {
    bytes.update(index, color.b).update(index + 1, color.g).update(index + 2, color.r)
}

/// The bytes after the first `n` pixels have been given the colour `color`.
pub open spec fn flooded_bytes(bytes: Seq<u8>, color: Color, n: nat) -> Seq<u8>
    decreases n,
{
    if n == 0 {
        bytes
    } else {
        with_color(flooded_bytes(bytes, color, (n - 1) as nat), 4 * (n - 1), color)
    }
}

/// The bytes of a surface of `width` by `height` pixels after the first `n`
/// of `pixels` have been written to it, oldest first. A pixel outside the
/// surface is left out.
pub open spec fn overlaid(bytes: Seq<u8>, width: int, height: int, pixels: Seq<Pixel>, n: nat) -> Seq<
    u8,
>
    decreases n,
{
    if n == 0 {
        bytes
    } else {
        let before = overlaid(bytes, width, height, pixels, (n - 1) as nat);
        let pixel = pixels[n - 1];
        if 0 <= pixel.x < width && 0 <= pixel.y < height {
            with_color(before, 4 * (pixel.y * width + pixel.x), pixel.color)
        } else {
            before
        }
    }
}

/// Collects what was drawn and writes it to a surface of four bytes per
/// pixel.
pub struct Drawer {
    bg_color: Color,
    draw_color: Color,
    width: usize,
    height: usize,
    mode: DrawMode,
    pixel_contents: Vec<Pixel>,
}

impl Drawer {
    pub closed spec fn spec_bg_color(&self) -> Color {
        self.bg_color
    }

    pub closed spec fn spec_draw_color(&self) -> Color {
        self.draw_color
    }

    /// The width and the height of the surface.
    pub closed spec fn spec_size(&self) -> (usize, usize) {
        (self.width, self.height)
    }

    pub closed spec fn spec_mode(&self) -> DrawMode {
        self.mode
    }

    /// The points that wait to be written, oldest first.
    pub closed spec fn spec_pixels(&self) -> Seq<Pixel> {
        self.pixel_contents@
    }

    /// `self` is `before` in all but its points.
    pub open spec fn same_setup_as(&self, before: &Drawer) -> bool {
        &&& self.spec_bg_color() == before.spec_bg_color()
        &&& self.spec_draw_color() == before.spec_draw_color()
        &&& self.spec_size() == before.spec_size()
        &&& self.spec_mode() == before.spec_mode()
    }

    pub fn new(bg_color: Color, draw_color: Color, mode: DrawMode, width: u32, height: u32) -> (drawer:
        Self)
        ensures
            drawer.spec_bg_color() == bg_color,
            drawer.spec_draw_color() == draw_color,
            drawer.spec_mode() == mode,
            drawer.spec_size() == (width as usize, height as usize),
            drawer.spec_pixels() == Seq::<Pixel>::empty(),
    {
        Self {
            bg_color,
            draw_color,
            mode,
            width: width as usize,
            height: height as usize,
            pixel_contents: Vec::new(),
        }
    }

    pub fn get_bg_color(&self) -> (color: Color)
        ensures
            color == self.spec_bg_color(),
    {
        self.bg_color
    }

    pub fn set_bg_color(&mut self, color: Color)
        ensures
            final(self).spec_bg_color() == color,
            final(self).spec_draw_color() == old(self).spec_draw_color(),
            final(self).spec_size() == old(self).spec_size(),
            final(self).spec_mode() == old(self).spec_mode(),
            final(self).spec_pixels() == old(self).spec_pixels(),
    {
        self.bg_color = color;
    }

    pub fn get_draw_color(&self) -> (color: Color)
        ensures
            color == self.spec_draw_color(),
    {
        self.draw_color
    }

    pub fn set_draw_color(&mut self, color: Color)
        ensures
            final(self).spec_draw_color() == color,
            final(self).spec_bg_color() == old(self).spec_bg_color(),
            final(self).spec_size() == old(self).spec_size(),
            final(self).spec_mode() == old(self).spec_mode(),
            final(self).spec_pixels() == old(self).spec_pixels(),
    {
        self.draw_color = color;
    }

    pub fn set_size(&mut self, width: u32, height: u32)
        ensures
            final(self).spec_size() == (width as usize, height as usize),
            final(self).spec_bg_color() == old(self).spec_bg_color(),
            final(self).spec_draw_color() == old(self).spec_draw_color(),
            final(self).spec_mode() == old(self).spec_mode(),
            final(self).spec_pixels() == old(self).spec_pixels(),
    {
        self.width = width as usize;
        self.height = height as usize;
    }

    pub fn get_mode(&self) -> (mode: DrawMode)
        ensures
            mode == self.spec_mode(),
    {
        self.mode
    }

    /// Draws a point in the current colour. Only a drawer that keeps pixels
    /// can draw points.
    pub fn draw_point(&mut self, point: (i32, i32))
        requires
            old(self).spec_mode() == DrawMode::PIXELBUFFER,
        ensures
            final(self).spec_pixels() == old(self).spec_pixels().push(
                Pixel { color: old(self).spec_draw_color(), x: point.0, y: point.1 },
            ),
            final(self).same_setup_as(old(self)),
    {
        self.pixel_contents.push(Pixel { color: self.draw_color, x: point.0, y: point.1 });
    }

    /// Draws the line from `point_a` to `point_b` in the current colour, by
    /// its slope. Only a drawer that keeps pixels can draw lines.
    pub fn draw_line<T: Real>(&mut self, point_a: (i32, i32), point_b: (i32, i32))
        requires
            old(self).spec_mode() == DrawMode::PIXELBUFFER,
        ensures
            exists|points: Seq<(i32, i32)>| #[trigger]
                is_line::<T>(point_a, point_b, points)
                    && final(self).spec_pixels() == old(self).spec_pixels() + coloured(points, old(self).spec_draw_color()),
            final(self).same_setup_as(old(self)),
    {
        let points = slope_line::<T>(point_a, point_b);
        append(&mut self.pixel_contents, &points, self.draw_color);
    }

    /// Forgets what was drawn and takes `color` as the background.
    pub fn fill(&mut self, color: Color)
        ensures
            final(self).spec_pixels() == Seq::<Pixel>::empty(),
            final(self).spec_bg_color() == color,
            final(self).spec_draw_color() == old(self).spec_draw_color(),
            final(self).spec_size() == old(self).spec_size(),
            final(self).spec_mode() == old(self).spec_mode(),
    {
        self.clear();
        self.set_bg_color(color);
    }

    /// Forgets what was drawn.
    pub fn clear(&mut self)
        ensures
            final(self).spec_pixels() == Seq::<Pixel>::empty(),
            final(self).same_setup_as(old(self)),
    {
        self.pixel_contents = Vec::new();
    }

    /// Writes the background and then the points, oldest first, to
    /// `surface_pixels`, four bytes to the pixel and row by row, and forgets
    /// the points. Bytes beyond the surface, and the fourth byte of every
    /// pixel, stay as they are.
    pub fn draw(&mut self, surface_pixels: &mut Vec<u8>)
        requires
            old(self).spec_mode() == DrawMode::PIXELBUFFER,
            4 * (old(self).spec_size().0 * old(self).spec_size().1) <= old(surface_pixels).len(),
        ensures
            final(surface_pixels)@ == overlaid(
                flooded_bytes(
                    old(surface_pixels)@,
                    old(self).spec_bg_color(),
                    (old(self).spec_size().0 * old(self).spec_size().1) as nat,
                ),
                old(self).spec_size().0 as int,
                old(self).spec_size().1 as int,
                old(self).spec_pixels(),
                old(self).spec_pixels().len(),
            ),
            final(surface_pixels).len() == old(surface_pixels).len(),
            final(self).spec_pixels() == Seq::<Pixel>::empty(),
            final(self).same_setup_as(old(self)),
    {
        let width = self.width;
        let height = self.height;
        let ghost given = surface_pixels@;
        assert(0 <= width * height) by (nonlinear_arith)
            requires
                0 <= width,
                0 <= height,
        ;
        let cells: usize = width * height;
        let mut cell: usize = 0;
        while cell < cells
            invariant
                cell <= cells,
                4 * cells <= surface_pixels.len(),
                surface_pixels.len() == given.len(),
                surface_pixels@ == flooded_bytes(given, self.bg_color, cell as nat),
                *self == *old(self),
            decreases cells - cell,
        {
            let index = 4 * cell;
            surface_pixels.set(index, self.bg_color.b);
            surface_pixels.set(index + 1, self.bg_color.g);
            surface_pixels.set(index + 2, self.bg_color.r);
            cell += 1;
        }
        let ghost cleared = surface_pixels@;
        let mut done: usize = 0;
        while done < self.pixel_contents.len()
            invariant
                done <= self.pixel_contents.len(),
                width == self.width,
                height == self.height,
                cells == width * height,
                4 * cells <= surface_pixels.len(),
                surface_pixels.len() == given.len(),
                surface_pixels@ == overlaid(
                    cleared,
                    width as int,
                    height as int,
                    self.pixel_contents@,
                    done as nat,
                ),
                *self == *old(self),
            decreases self.pixel_contents.len() - done,
        {
            let pixel = self.pixel_contents[done];
            if pixel.x >= 0 && pixel.y >= 0 && (pixel.x as usize) < width && (pixel.y as usize)
                < height {
                proof {
                    crate::linearalgebra::lemma_cell_in_grid(
                        width as int,
                        height as int,
                        pixel.y as int,
                        pixel.x as int,
                    );
                    assert(pixel.y * width == width * pixel.y) by (nonlinear_arith);
                }
                let index = 4 * ((pixel.y as usize) * width + (pixel.x as usize));
                surface_pixels.set(index, pixel.color.b);
                surface_pixels.set(index + 1, pixel.color.g);
                surface_pixels.set(index + 2, pixel.color.r);
            }
            done += 1;
        }
        self.pixel_contents = Vec::new();
    }
}

} // verus!
