//! The grid of cells in which the windows of an output are previewed.

use vstd::prelude::*;
use vstd::arithmetic::div_mod::{lemma_div_is_ordered, lemma_fundamental_div_mod, lemma_mod_bound};
use crate::geometry::{Point, Rectangle, Size};
use crate::layout::{LayoutError, fits_i32};

verus! {

/// Units kept free around every preview.
pub const PREVIEW_PADDING: i32 = 10;

/// The most previews that stand side by side.
pub const MAX_ELEMENTS_PER_ROW: usize = 4;

/// `a / b` rounded to the nearest integer, a half away from zero, for `b > 0`.
pub open spec fn round_div(a: int, b: int) -> int {
    if a >= 0 {
        (2 * a + b) / (2 * b)
    } else {
        -((b - 2 * a) / (2 * b))
    }
}

/// The number of columns of a grid of `n` cells with at most `max_per_row` in a row.
pub open spec fn grid_columns(n: int, max_per_row: int) -> int {
    if n < max_per_row {
        n
    } else {
        max_per_row
    }
}

/// The number of rows of that grid: `n / columns`, rounded up.
pub open spec fn grid_rows(n: int, max_per_row: int) -> int {
    if n <= 0 {
        0
    } else {
        (n - 1) / grid_columns(n, max_per_row) + 1
    }
}

/// The width of every cell: the share of one column in the width of the
/// output, less the padding on both sides.
pub open spec fn cell_width(n: int, output: Size, padding: int, max_per_row: int) -> int {
    round_div(output.w as int, grid_columns(n, max_per_row)) - 2 * padding
}

/// The height of every cell: the share of one row in the height of the
/// output, less the padding on both sides.
pub open spec fn cell_height(n: int, output: Size, padding: int, max_per_row: int) -> int {
    round_div(output.h as int, grid_rows(n, max_per_row)) - 2 * padding
}

/// The x coordinate of the cells of column `column`.
pub open spec fn column_x(column: int, n: int, output: Size, padding: int, max_per_row: int) -> int {
    padding + (padding + cell_width(n, output, padding, max_per_row)) * column
}

/// The y coordinate of the cells of row `row`.
pub open spec fn row_y(row: int, n: int, output: Size, padding: int, max_per_row: int) -> int {
    padding + (padding + cell_height(n, output, padding, max_per_row)) * row
}

/// The x coordinate of cell `i`, which stands in column `i mod columns`.
pub open spec fn cell_x(i: int, n: int, output: Size, padding: int, max_per_row: int) -> int {
    column_x(i % grid_columns(n, max_per_row), n, output, padding, max_per_row)
}

/// The y coordinate of cell `i`, which stands in row `i div columns`.
pub open spec fn cell_y(i: int, n: int, output: Size, padding: int, max_per_row: int) -> int {
    row_y(i / grid_columns(n, max_per_row), n, output, padding, max_per_row)
}

/// Every cell of the grid is made of values of `i32`: the size of a cell, and
/// the place of the last column and of the last row.
pub open spec fn grid_fits(n: int, output: Size, padding: int, max_per_row: int) -> bool {
    n > 0 ==> {
        &&& fits_i32(cell_width(n, output, padding, max_per_row))
        &&& fits_i32(cell_height(n, output, padding, max_per_row))
        &&& fits_i32(column_x(grid_columns(n, max_per_row) - 1, n, output, padding, max_per_row))
        &&& fits_i32(row_y(grid_rows(n, max_per_row) - 1, n, output, padding, max_per_row))
    }
}

/// Cell `i` of the grid. It says what the cell is where `grid_fits` holds.
pub open spec fn grid_cell(i: int, n: int, output: Size, padding: int, max_per_row: int) -> Rectangle {
    Rectangle {
        loc: Point {
            x: cell_x(i, n, output, padding, max_per_row) as i32,
            y: cell_y(i, n, output, padding, max_per_row) as i32,
        },
        size: Size {
            w: cell_width(n, output, padding, max_per_row) as i32,
            h: cell_height(n, output, padding, max_per_row) as i32,
        },
    }
}

/// The cells of the grid, in the order of the elements they are for.
pub open spec fn grid_cells(n: int, output: Size, padding: int, max_per_row: int) -> Seq<Rectangle> {
    Seq::new(n as nat, |i: int| grid_cell(i, n, output, padding, max_per_row))
}

/// A value on a line between two values of `i32` is one itself.
proof fn lemma_line_fits(start: int, step: int, k: int, last: int)
    requires
        0 <= k <= last,
        fits_i32(start),
        fits_i32(start + step * last),
    ensures
        fits_i32(start + step * k),
{
    assert(step >= 0 ==> 0 <= step * k <= step * last) by (nonlinear_arith)
        requires
            0 <= k <= last,
    ;
    assert(step < 0 ==> step * last <= step * k <= 0) by (nonlinear_arith)
        requires
            0 <= k <= last,
    ;
}

/// Cell `i` of a grid of `n` cells stands in a column below `columns` and in a
/// row below `rows`.
pub proof fn lemma_cell_position(i: int, n: int, max_per_row: int)
    requires
        0 <= i < n,
        max_per_row >= 1,
    ensures
        0 <= i % grid_columns(n, max_per_row) < grid_columns(n, max_per_row),
        0 <= i / grid_columns(n, max_per_row) < grid_rows(n, max_per_row),
{
    let c = grid_columns(n, max_per_row);
    lemma_mod_bound(i, c);
    lemma_div_is_ordered(i, n - 1, c);
    lemma_div_is_ordered(0, i, c);
}

/// Where the grid fits, each of its cells is made of values of `i32`.
pub proof fn lemma_grid_cell_fits(i: int, n: int, output: Size, padding: int, max_per_row: int)
    requires
        0 <= i < n,
        max_per_row >= 1,
        fits_i32(padding),
        grid_fits(n, output, padding, max_per_row),
    ensures
        fits_i32(cell_x(i, n, output, padding, max_per_row)),
        fits_i32(cell_y(i, n, output, padding, max_per_row)),
{
    let c = grid_columns(n, max_per_row);
    let rows = grid_rows(n, max_per_row);
    lemma_cell_position(i, n, max_per_row);
    lemma_line_fits(padding, padding + cell_width(n, output, padding, max_per_row), i % c, c - 1);
    lemma_line_fits(padding, padding + cell_height(n, output, padding, max_per_row), i / c, rows - 1);
}

/// Up to `max_per_row` cells stand in one row, each in a column of its own;
/// above that and up to twice as many, the grid has `max_per_row` columns and
/// two rows. In general the rows are just enough to hold `n` cells.
pub proof fn lemma_grid_shape(n: int, max_per_row: int)
    requires
        n >= 1,
        max_per_row >= 1,
    ensures
        n <= max_per_row ==> grid_columns(n, max_per_row) == n && grid_rows(n, max_per_row) == 1,
        max_per_row < n <= 2 * max_per_row ==> grid_columns(n, max_per_row) == max_per_row && grid_rows(
            n,
            max_per_row,
        ) == 2,
        (grid_rows(n, max_per_row) - 1) * grid_columns(n, max_per_row) < n <= grid_rows(n, max_per_row)
            * grid_columns(n, max_per_row),
{
    let c = grid_columns(n, max_per_row);
    lemma_fundamental_div_mod(n - 1, c);
    lemma_mod_bound(n - 1, c);
    let q = (n - 1) / c;
    assert((q + 1) * c == c * q + c) by (nonlinear_arith);
    assert(q * c == c * q) by (nonlinear_arith);
    if n <= max_per_row {
        assert(q == 0) by (nonlinear_arith)
            requires
                n - 1 == c * q + (n - 1) % c,
                0 <= (n - 1) % c < c,
                c == n,
        ;
    } else if n <= 2 * max_per_row {
        assert(q == 1) by (nonlinear_arith)
            requires
                n - 1 == c * q + (n - 1) % c,
                0 <= (n - 1) % c < c,
                c < n <= 2 * c,
        ;
    }
}

/// A step taken `k` times, for `k >= 1`, is no shorter than the step and has its sign.
proof fn lemma_steps(step: int, k: int)
    requires
        k >= 1,
    ensures
        step >= 0 ==> step * k >= step,
        step < 0 ==> step * k < 0,
{
    assert(step >= 0 ==> step * k >= step) by (nonlinear_arith)
        requires
            k >= 1,
    ;
    assert(step < 0 ==> step * k < 0) by (nonlinear_arith)
        requires
            k >= 1,
    ;
}

/// Two intervals of length `len` that start `step * k` apart, where the step
/// is the length and a padding that is not negative, share no point.
proof fn lemma_apart(start: int, padding: int, len: int, a: int, b: int)
    requires
        padding >= 0,
        0 <= a < b,
    ensures
        !(start + (padding + len) * a < start + (padding + len) * b + len && start + (padding + len) * b
            < start + (padding + len) * a + len),
{
    let step = padding + len;
    lemma_steps(step, b - a);
    assert(step * b - step * a == step * (b - a)) by (nonlinear_arith);
}

/// With a padding that is not negative, no two cells of a grid overlap.
pub proof fn lemma_cells_disjoint(i: int, j: int, n: int, output: Size, padding: int, max_per_row: int)
    requires
        0 <= i < n,
        0 <= j < n,
        i != j,
        max_per_row >= 1,
        padding >= 0,
    ensures
        !({
            &&& cell_x(i, n, output, padding, max_per_row) < cell_x(j, n, output, padding, max_per_row)
                + cell_width(n, output, padding, max_per_row)
            &&& cell_x(j, n, output, padding, max_per_row) < cell_x(i, n, output, padding, max_per_row)
                + cell_width(n, output, padding, max_per_row)
            &&& cell_y(i, n, output, padding, max_per_row) < cell_y(j, n, output, padding, max_per_row)
                + cell_height(n, output, padding, max_per_row)
            &&& cell_y(j, n, output, padding, max_per_row) < cell_y(i, n, output, padding, max_per_row)
                + cell_height(n, output, padding, max_per_row)
        }),
        grid_fits(n, output, padding, max_per_row) ==> !grid_cell(i, n, output, padding, max_per_row).spec_overlaps(
            grid_cell(j, n, output, padding, max_per_row),
        ),
{
    let c = grid_columns(n, max_per_row);
    let w = cell_width(n, output, padding, max_per_row);
    let h = cell_height(n, output, padding, max_per_row);
    lemma_cell_position(i, n, max_per_row);
    lemma_cell_position(j, n, max_per_row);
    lemma_fundamental_div_mod(i, c);
    lemma_fundamental_div_mod(j, c);
    let (ci, cj, ri, rj) = (i % c, j % c, i / c, j / c);
    if ci < cj {
        lemma_apart(padding, padding, w, ci, cj);
    } else if cj < ci {
        lemma_apart(padding, padding, w, cj, ci);
    } else if ri < rj {
        lemma_apart(padding, padding, h, ri, rj);
    } else if rj < ri {
        lemma_apart(padding, padding, h, rj, ri);
    } else {
        assert(false);
    }
    if grid_fits(n, output, padding, max_per_row) {
        if padding <= i32::MAX {
            lemma_grid_cell_fits(i, n, output, padding, max_per_row);
            lemma_grid_cell_fits(j, n, output, padding, max_per_row);
        } else {
            lemma_big_padding_overflows(n, output, padding, max_per_row);
        }
    }
}

/// `round_div` stays within half a unit of the quotient, and has the sign of
/// what is divided.
pub proof fn lemma_round_div_bounds(a: int, b: int)
    requires
        b >= 1,
    ensures
        2 * a - b <= 2 * b * round_div(a, b) <= 2 * a + b,
        a >= 0 ==> round_div(a, b) >= 0,
        a < 0 ==> round_div(a, b) <= 0,
        b == 1 ==> round_div(a, b) == a,
{
    if a >= 0 {
        let x = 2 * a + b;
        let d = 2 * b;
        lemma_fundamental_div_mod(x, d);
        lemma_mod_bound(x, d);
        let q = x / d;
        assert(q >= 0) by (nonlinear_arith)
            requires
                x == d * q + x % d,
                0 <= x % d < d,
                x >= 0,
                d > 0,
        ;
        if b == 1 {
            assert(q == a) by (nonlinear_arith)
                requires
                    2 * a + 1 == 2 * q + x % 2,
                    0 <= x % 2 < 2,
            ;
        }
    } else {
        let x = b - 2 * a;
        let d = 2 * b;
        lemma_fundamental_div_mod(x, d);
        lemma_mod_bound(x, d);
        let q = x / d;
        assert(q >= 0) by (nonlinear_arith)
            requires
                x == d * q + x % d,
                0 <= x % d < d,
                x >= 0,
                d > 0,
        ;
        assert(d * (-q) == -(d * q)) by (nonlinear_arith);
        if b == 1 {
            assert(q == -a) by (nonlinear_arith)
                requires
                    1 - 2 * a == 2 * q + x % 2,
                    0 <= x % 2 < 2,
            ;
        }
    }
}

/// A padding beyond the range of `i32` leaves no grid that fits.
proof fn lemma_big_padding_overflows(n: int, output: Size, padding: int, max_per_row: int)
    requires
        n >= 1,
        max_per_row >= 1,
        padding > i32::MAX,
    ensures
        !grid_fits(n, output, padding, max_per_row),
{
    let c = grid_columns(n, max_per_row);
    lemma_round_div_bounds(output.w as int, c);
    let r = round_div(output.w as int, c);
    assert(r <= 0x1_0000_0000) by (nonlinear_arith)
        requires
            2 * c * r <= 2 * output.w + c,
            c >= 1,
            output.w <= 0x7fff_ffff,
    ;
}

/// One side of a grid: `parts` cells of length `len` with `padding` between
/// them and at both ends reach from `padding` to no further than `padding`
/// short of `total`, when the share of a cell is `round_div(total, parts)`.
proof fn lemma_side_within(total: int, parts: int, padding: int, k: int)
    requires
        parts >= 1,
        padding >= 1,
        0 <= k < parts,
        round_div(total, parts) - 2 * padding >= 0,
    ensures
        padding <= padding + (round_div(total, parts) - padding) * k,
        padding + (round_div(total, parts) - padding) * k + (round_div(total, parts) - 2 * padding) <= total
            - padding,
{
    let share = round_div(total, parts);
    let step = share - padding;
    lemma_round_div_bounds(total, parts);
    assert(0 <= step * k <= step * (parts - 1)) by (nonlinear_arith)
        requires
            step >= 0,
            0 <= k <= parts - 1,
    ;
    assert(step * (parts - 1) + step == parts * share - parts * padding) by (nonlinear_arith)
        requires
            step == share - padding,
    ;
    assert(2 * (parts * share) == 2 * parts * share) by (nonlinear_arith);
    if parts >= 2 {
        assert(parts * padding >= parts) by (nonlinear_arith)
            requires
                padding >= 1,
                parts >= 2,
        ;
        assert(2 * (parts * padding) >= parts + 2 * padding) by (nonlinear_arith)
            requires
                padding >= 1,
                parts >= 2,
        ;
    } else {
        assert(parts * padding == padding) by (nonlinear_arith)
            requires
                parts == 1,
        ;
        assert(parts * share == total) by (nonlinear_arith)
            requires
                parts == 1,
                share == total,
        ;
    }
}

/// The output less `padding` units on every side, its origin being the
/// corner of the output. It says what that is where the output is not
/// smaller than twice the padding.
pub open spec fn padded(output: Size, padding: int) -> Rectangle {
    Rectangle {
        loc: Point { x: padding as i32, y: padding as i32 },
        size: Size { w: (output.w - 2 * padding) as i32, h: (output.h - 2 * padding) as i32 },
    }
}

/// With a padding of at least one unit and cells of a size that is not
/// negative, the grid fits, and every cell lies within the output less the
/// padding on every side.
pub proof fn lemma_cell_within_output(i: int, n: int, output: Size, padding: int, max_per_row: int)
    requires
        0 <= i < n,
        max_per_row >= 1,
        padding >= 1,
        cell_width(n, output, padding, max_per_row) >= 0,
        cell_height(n, output, padding, max_per_row) >= 0,
    ensures
        padding <= cell_x(i, n, output, padding, max_per_row),
        padding <= cell_y(i, n, output, padding, max_per_row),
        cell_x(i, n, output, padding, max_per_row) + cell_width(n, output, padding, max_per_row) <= output.w
            - padding,
        cell_y(i, n, output, padding, max_per_row) + cell_height(n, output, padding, max_per_row) <= output.h
            - padding,
        grid_fits(n, output, padding, max_per_row),
        grid_cell(i, n, output, padding, max_per_row).spec_within(padded(output, padding)),
{
    let c = grid_columns(n, max_per_row);
    let rows = grid_rows(n, max_per_row);
    lemma_cell_position(i, n, max_per_row);
    lemma_side_within(output.w as int, c, padding, i % c);
    lemma_side_within(output.h as int, rows, padding, i / c);
    lemma_cell_position(n - 1, n, max_per_row);
    lemma_side_within(output.w as int, c, padding, c - 1);
    lemma_side_within(output.h as int, rows, padding, rows - 1);
}

/// `a / b` rounded to the nearest integer, a half away from zero.
fn rounded_share(a: i32, b: usize) -> (r: i64)
    requires
        b >= 1,
    ensures
        r == round_div(a as int, b as int),
        -0x8000_0001 <= r <= 0x8000_0001,
{
    let a2: i128 = 2 * (a as i128);
    let b1: i128 = b as i128;
    let b2: i128 = 2 * b1;
    if a >= 0 {
        let q: i128 = (a2 + b1) / b2;
        assert(0 <= q <= a + 1) by (nonlinear_arith)
            requires
                q == (2 * a + b1) / (2 * b1),
                a >= 0,
                b1 >= 1,
        ;
        q as i64
    } else {
        let q: i128 = (b1 - a2) / b2;
        assert(0 <= q <= 1 - a) by (nonlinear_arith)
            requires
                q == (b1 - 2 * a) / (2 * b1),
                a < 0,
                b1 >= 1,
        ;
        (-q) as i64
    }
}

/// The cells of a grid for `count` elements on an output of logical size
/// `output_size`, with `padding` units kept free around every cell and at most
/// `max_per_row` cells in a row; cell `i` is for element `i`. The grid has
/// `min(count, max_per_row)` columns and as many rows as that takes. It is
/// refused where a cell would not be made of values of `i32`.
pub fn thumbnail_grid(count: usize, output_size: Size, padding: i32, max_per_row: usize) -> (r: Result<Vec<Rectangle>, LayoutError>)
    requires
        max_per_row >= 1,
    ensures
        match r {
            Ok(cells) => {
                &&& grid_fits(count as int, output_size, padding as int, max_per_row as int)
                &&& cells@ == grid_cells(count as int, output_size, padding as int, max_per_row as int)
            },
            Err(e) => e == LayoutError::Overflow && !grid_fits(
                count as int,
                output_size,
                padding as int,
                max_per_row as int,
            ),
        },
{
    let mut cells: Vec<Rectangle> = Vec::new();
    if count == 0 {
        assert(cells@ =~= grid_cells(count as int, output_size, padding as int, max_per_row as int));
        return Ok(cells);
    }
    let columns: usize = if count < max_per_row { count } else { max_per_row };
    let rows: usize = (count - 1) / columns + 1;
    let width: i64 = rounded_share(output_size.w, columns) - 2 * (padding as i64);
    let height: i64 = rounded_share(output_size.h, rows) - 2 * (padding as i64);
    let step_x: i64 = padding as i64 + width;
    let step_y: i64 = padding as i64 + height;
    assert(-0x4_0000_0000 * 0x1_0000_0000_0000_0000 <= step_x * (columns - 1) <= 0x4_0000_0000 * 0x1_0000_0000_0000_0000)
        by (nonlinear_arith)
        requires
            -0x4_0000_0000 <= step_x <= 0x4_0000_0000,
            0 <= columns - 1 <= 0x1_0000_0000_0000_0000,
    ;
    assert(-0x4_0000_0000 * 0x1_0000_0000_0000_0000 <= step_y * (rows - 1) <= 0x4_0000_0000 * 0x1_0000_0000_0000_0000)
        by (nonlinear_arith)
        requires
            -0x4_0000_0000 <= step_y <= 0x4_0000_0000,
            0 <= rows - 1 <= 0x1_0000_0000_0000_0000,
    ;
    let last_x: i128 = padding as i128 + (step_x as i128) * ((columns - 1) as i128);
    let last_y: i128 = padding as i128 + (step_y as i128) * ((rows - 1) as i128);
    if width < i32::MIN as i64 || width > i32::MAX as i64 || height < i32::MIN as i64
        || height > i32::MAX as i64 || last_x < i32::MIN as i128 || last_x > i32::MAX as i128
        || last_y < i32::MIN as i128 || last_y > i32::MAX as i128 {
        return Err(LayoutError::Overflow);
    }
    let mut i: usize = 0;
    while i < count
        invariant
            count >= 1,
            max_per_row >= 1,
            0 <= i <= count,
            columns == grid_columns(count as int, max_per_row as int),
            rows == grid_rows(count as int, max_per_row as int),
            width == cell_width(count as int, output_size, padding as int, max_per_row as int),
            height == cell_height(count as int, output_size, padding as int, max_per_row as int),
            step_x == padding + width,
            step_y == padding + height,
            grid_fits(count as int, output_size, padding as int, max_per_row as int),
            cells@.len() == i,
            forall|j: int| 0 <= j < i ==> cells@[j] == grid_cell(
                j,
                count as int,
                output_size,
                padding as int,
                max_per_row as int,
            ),
        decreases count - i,
    {
        let column: usize = i % columns;
        let row: usize = i / columns;
        proof {
            lemma_cell_position(i as int, count as int, max_per_row as int);
            lemma_grid_cell_fits(i as int, count as int, output_size, padding as int, max_per_row as int);
        }
        assert(-0x4_0000_0000 * 0x1_0000_0000_0000_0000 <= step_x * column <= 0x4_0000_0000 * 0x1_0000_0000_0000_0000)
            by (nonlinear_arith)
            requires
                -0x4_0000_0000 <= step_x <= 0x4_0000_0000,
                0 <= column <= 0x1_0000_0000_0000_0000,
        ;
        assert(-0x4_0000_0000 * 0x1_0000_0000_0000_0000 <= step_y * row <= 0x4_0000_0000 * 0x1_0000_0000_0000_0000)
            by (nonlinear_arith)
            requires
                -0x4_0000_0000 <= step_y <= 0x4_0000_0000,
                0 <= row <= 0x1_0000_0000_0000_0000,
        ;
        let x: i128 = padding as i128 + (step_x as i128) * (column as i128);
        let y: i128 = padding as i128 + (step_y as i128) * (row as i128);
        cells.push(
            Rectangle {
                loc: Point { x: x as i32, y: y as i32 },
                size: Size { w: width as i32, h: height as i32 },
            },
        );
        i = i + 1;
    }
    assert(cells@ =~= grid_cells(count as int, output_size, padding as int, max_per_row as int));
    Ok(cells)
}

} // verus!
