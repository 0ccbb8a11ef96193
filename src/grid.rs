//! Tiling of the background grid.
//!
//! Grid lines stand at the multiples of the spacing. Across a visible span
//! that starts at `origin` (the floor of the view's edge, in glyph units) and is
//! `extent` units long, the lines drawn are the first multiple at or after
//! `origin` and every `spacing` units after it, while they stay within `extent`
//! of that first line.

use vstd::prelude::*;

use vstd::arithmetic::div_mod::lemma_fundamental_div_mod_converse;

verus! {

/// The largest magnitude of a coordinate, extent or spacing given to the grid.
pub const GRID_COORD_LIMIT: i64 = 0x1000_0000_0000_0000;

/// The first grid line at or after `origin`.
pub open spec fn first_line_spec(origin: int, spacing: int) -> int {
    origin + (-origin) % spacing
}

/// How many grid lines fit within `extent` of the first one.
pub open spec fn line_count(extent: int, spacing: int) -> nat {
    if extent <= 0 {
        0
    } else {
        ((extent + spacing - 1) / spacing) as nat
    }
}

/// The grid lines across the span of `extent` units from `origin`.
pub open spec fn grid_lines(origin: int, extent: int, spacing: int) -> Seq<int> {
    Seq::new(line_count(extent, spacing), |k: int| first_line_spec(origin, spacing) + k * spacing)
}

/// A multiple of `spacing` within `spacing` after `origin` is the first line.
proof fn lemma_first_line_unique(origin: int, spacing: int, q: int)
    requires
        spacing > 0,
        origin <= q * spacing < origin + spacing,
    ensures
        first_line_spec(origin, spacing) == q * spacing,
{
    assert((-q) * spacing == -(q * spacing)) by (nonlinear_arith);
    lemma_fundamental_div_mod_converse(-origin, spacing, -q, q * spacing - origin);
}

/// The first line is a multiple of `spacing`, at or after `origin` and less
/// than `spacing` after it.
pub proof fn lemma_first_line_bounds(origin: int, spacing: int)
    requires
        spacing > 0,
    ensures
        first_line_spec(origin, spacing) % spacing == 0,
        origin <= first_line_spec(origin, spacing) < origin + spacing,
{
    let m = (-origin) % spacing;
    let q = (-origin) / spacing;
    assert(-origin == q * spacing + m && 0 <= m < spacing) by (nonlinear_arith)
        requires
            spacing > 0,
            m == (-origin) % spacing,
            q == (-origin) / spacing,
    ;
    assert(origin + m == (-q) * spacing) by (nonlinear_arith)
        requires
            -origin == q * spacing + m,
    ;
    lemma_fundamental_div_mod_converse(origin + m, spacing, -q, 0);
}

/// `k` lines whose last one is within `extent` and whose next one would not be
/// are exactly the lines that fit.
proof fn lemma_line_count(extent: int, spacing: int, k: int)
    requires
        spacing > 0,
        k >= 0,
        k * spacing >= extent,
        k > 0 ==> (k - 1) * spacing < extent,
    ensures
        line_count(extent, spacing) == k,
{
    if extent > 0 {
        assert(k > 0) by (nonlinear_arith)
            requires
                spacing > 0,
                k >= 0,
                k * spacing >= extent,
                extent > 0,
        ;
        assert((k - 1) * spacing == k * spacing - spacing) by (nonlinear_arith);
        lemma_fundamental_div_mod_converse(
            extent + spacing - 1,
            spacing,
            k,
            extent + spacing - 1 - k * spacing,
        );
    } else {
        assert(k == 0) by (nonlinear_arith)
            requires
                spacing > 0,
                k >= 0,
                k > 0 ==> (k - 1) * spacing < extent,
                extent <= 0,
        ;
    }
}

/// The first grid line at or after `origin`: the least multiple of `spacing`
/// that is not below it.
pub fn first_line(origin: i64, spacing: i64) -> (r: i64)
    requires
        0 < spacing <= GRID_COORD_LIMIT,
        -GRID_COORD_LIMIT <= origin <= GRID_COORD_LIMIT,
    ensures
        r == first_line_spec(origin as int, spacing as int),
        r % spacing == 0,
        origin <= r < origin + spacing,
{
    proof {
        lemma_first_line_bounds(origin as int, spacing as int);
    }
    if origin >= 0 {
        let rem = origin % spacing;
        let ghost q = origin / spacing;
        proof {
            assert(origin == q * spacing + rem && 0 <= rem < spacing) by (nonlinear_arith)
                requires
                    spacing > 0,
                    origin >= 0,
                    q == origin / spacing,
                    rem == origin % spacing,
            ;
        }
        if rem == 0 {
            proof {
                lemma_first_line_unique(origin as int, spacing as int, q);
            }
            origin
        } else {
            proof {
                assert((q + 1) * spacing == q * spacing + spacing) by (nonlinear_arith);
                lemma_first_line_unique(origin as int, spacing as int, q + 1);
            }
            origin + (spacing - rem)
        }
    } else {
        let n = -origin;
        let rem = n % spacing;
        let ghost q = n / spacing;
        proof {
            assert(n == q * spacing + rem && 0 <= rem < spacing) by (nonlinear_arith)
                requires
                    spacing > 0,
                    n > 0,
                    q == n / spacing,
                    rem == n % spacing,
            ;
            assert((-q) * spacing == -(q * spacing)) by (nonlinear_arith);
            lemma_first_line_unique(origin as int, spacing as int, -q);
        }
        origin + rem
    }
}

/// The positions of the grid lines across the span of `extent` units from
/// `origin`, in increasing order.
pub fn grid_line_positions(origin: i64, extent: i64, spacing: i64) -> (r: Vec<i64>)
    requires
        0 < spacing <= GRID_COORD_LIMIT,
        -GRID_COORD_LIMIT <= origin <= GRID_COORD_LIMIT,
        -GRID_COORD_LIMIT <= extent <= GRID_COORD_LIMIT,
    ensures
        r@.len() == grid_lines(origin as int, extent as int, spacing as int).len(),
        forall|k: int|
            0 <= k < r@.len() ==> r@[k] as int == #[trigger] grid_lines(
                origin as int,
                extent as int,
                spacing as int,
            )[k],
{
    let first = first_line(origin, spacing);
    let stop = first + extent;
    let mut out: Vec<i64> = Vec::new();
    let mut x = first;
    assert(0 * spacing == 0);
    while x < stop
        invariant
            0 < spacing <= GRID_COORD_LIMIT,
            -GRID_COORD_LIMIT <= origin <= GRID_COORD_LIMIT,
            -GRID_COORD_LIMIT <= extent <= GRID_COORD_LIMIT,
            first == first_line_spec(origin as int, spacing as int),
            origin <= first < origin + spacing,
            stop == first + extent,
            x == first + out@.len() * spacing,
            out@.len() > 0 ==> x - spacing < stop,
            out@.len() > 0 ==> x < stop + spacing,
            forall|k: int| 0 <= k < out@.len() ==> out@[k] == first + k * spacing,
        decreases stop + spacing - x,
    {
        proof {
            let len = out@.len() as int;
            assert((len + 1) * spacing == len * spacing + spacing) by (nonlinear_arith);
        }
        out.push(x);
        x = x + spacing;
    }
    proof {
        let len = out@.len() as int;
        assert((len - 1) * spacing == len * spacing - spacing) by (nonlinear_arith);
        lemma_line_count(extent as int, spacing as int, len);
    }
    out
}

/// Neighbouring grid lines lie exactly `spacing` apart, and every line is a
/// multiple of `spacing`.
pub proof fn lemma_grid_lines_spaced(origin: int, extent: int, spacing: int)
    requires
        spacing > 0,
    ensures
        forall|k: int|
            0 <= k < grid_lines(origin, extent, spacing).len() - 1 ==> #[trigger] grid_lines(
                origin,
                extent,
                spacing,
            )[k + 1] - grid_lines(origin, extent, spacing)[k] == spacing,
        forall|k: int|
            0 <= k < grid_lines(origin, extent, spacing).len() ==> #[trigger] grid_lines(
                origin,
                extent,
                spacing,
            )[k] % spacing == 0,
{
    let lines = grid_lines(origin, extent, spacing);
    let first = first_line_spec(origin, spacing);
    lemma_first_line_bounds(origin, spacing);
    assert forall|k: int| 0 <= k < lines.len() - 1 implies #[trigger] lines[k + 1] - lines[k]
        == spacing by {
        assert((k + 1) * spacing == k * spacing + spacing) by (nonlinear_arith);
    }
    assert forall|k: int| 0 <= k < lines.len() implies #[trigger] lines[k] % spacing == 0 by {
        let q = first / spacing;
        assert(first == q * spacing) by (nonlinear_arith)
            requires
                spacing > 0,
                first % spacing == 0,
                q == first / spacing,
        ;
        assert(first + k * spacing == (q + k) * spacing) by (nonlinear_arith)
            requires
                first == q * spacing,
        ;
        lemma_fundamental_div_mod_converse(first + k * spacing, spacing, q + k, 0);
    }
}

/// Panning the view by one grid spacing moves every grid line by one spacing
/// and keeps the number of lines: seen from the view's edge the pattern is
/// the same.
pub proof fn lemma_grid_lines_periodic(origin: int, extent: int, spacing: int)
    requires
        spacing > 0,
    ensures
        grid_lines(origin + spacing, extent, spacing).len() == grid_lines(
            origin,
            extent,
            spacing,
        ).len(),
        forall|k: int|
            0 <= k < grid_lines(origin, extent, spacing).len() ==> #[trigger] grid_lines(
                origin + spacing,
                extent,
                spacing,
            )[k] == grid_lines(origin, extent, spacing)[k] + spacing,
        forall|k: int|
            0 <= k < grid_lines(origin, extent, spacing).len() ==> #[trigger] grid_lines(
                origin + spacing,
                extent,
                spacing,
            )[k] - (origin + spacing) == grid_lines(origin, extent, spacing)[k] - origin,
{
    let first = first_line_spec(origin, spacing);
    lemma_first_line_bounds(origin, spacing);
    let q = first / spacing;
    assert(first == q * spacing) by (nonlinear_arith)
        requires
            spacing > 0,
            first % spacing == 0,
            q == first / spacing,
    ;
    assert((q + 1) * spacing == q * spacing + spacing) by (nonlinear_arith);
    lemma_first_line_unique(origin + spacing, spacing, q + 1);
}

} // verus!
