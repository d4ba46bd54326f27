//! Straight lines on the grid.
//!
//! A line from one tile to another has as many points as the larger of the
//! two coordinate differences. The point number `k` lies `k` steps along
//! the longer axis, and along the shorter axis at the nearest whole tile,
//! a half counted away from the start. The start itself is not a point of
//! the line; the end is its last point.

use crate::types::{abs_int, max_int, scale_unit, sign_int, Position};
use vstd::prelude::*;

verus! {

/// The number of points of a line that spans the differences `dx` and
/// `dy`.
pub open spec fn line_len(dx: int, dy: int) -> int {
    max_int(abs_int(dx), abs_int(dy))
}

/// How far point `k` of a line of `n` points lies from the start along an
/// axis on which the line spans `a` tiles: `k * a / n`, rounded to the
/// nearest whole number.
pub open spec fn line_advance(k: int, a: int, n: int) -> int {
    (2 * k * a + n) / (2 * n)
}

/// One coordinate of point `k` of a line of `n` points that starts at
/// `start` and spans the difference `d` on this axis.
pub open spec fn line_coord(start: int, d: int, n: int, k: int) -> int {
    if d >= 0 {
        start + line_advance(k, abs_int(d), n)
    } else {
        start - line_advance(k, abs_int(d), n)
    }
}

/// Point `k`, counted from 1, of the line from `start` to `end`.
pub open spec fn line_point(start: Position, end: Position, k: int) -> Position {
    let dx = end.0 - start.0;
    let dy = end.1 - start.1;
    let n = line_len(dx, dy);
    Position(
        line_coord(start.0 as int, dx, n, k) as i32,
        line_coord(start.1 as int, dy, n, k) as i32,
    )
}

/// The points of the line from `start` to `end`, without `start`.
pub open spec fn line_points(start: Position, end: Position) -> Seq<Position> {
    Seq::new(
        line_len(end.0 - start.0, end.1 - start.1) as nat,
        |i: int| line_point(start, end, i + 1),
    )
}

/// A point of a line never lies further along an axis than the line
/// spans on it, and the last point lies exactly that far.
pub proof fn line_advance_bounds(k: int, a: int, n: int)
    requires
        0 <= k <= n,
        0 <= a <= n,
        0 < n,
    ensures
        0 <= line_advance(k, a, n) <= a,
        line_advance(n, a, n) == a,
        a == n ==> line_advance(k, a, n) == k,
        a == 0 ==> line_advance(k, a, n) == 0,
{
    let x = 2 * k * a + n;
    let d = 2 * n;
    assert(0 <= k * a <= n * a) by (nonlinear_arith)
        requires
            0 <= k <= n,
            0 <= a,
    ;
    assert(x < d * (a + 1)) by (nonlinear_arith)
        requires
            x == 2 * k * a + n,
            d == 2 * n,
            k * a <= n * a,
            0 < n,
    ;
    assert(0 <= x / d <= a) by (nonlinear_arith)
        requires
            0 <= x < d * (a + 1),
            d > 0,
            a >= 0,
    ;
    let y = 2 * n * a + n;
    assert(y / d == a) by (nonlinear_arith)
        requires
            y == d * a + n,
            d == 2 * n,
            0 < n,
            a >= 0,
    ;
    if a == n {
        assert(x == d * k + n) by (nonlinear_arith)
            requires
                x == 2 * k * a + n,
                d == 2 * n,
                a == n,
        ;
        assert(x / d == k) by (nonlinear_arith)
            requires
                x == d * k + n,
                d == 2 * n,
                0 < n,
                k >= 0,
        ;
    }
    if a == 0 {
        assert(k * a == 0) by (nonlinear_arith)
            requires
                a == 0,
        ;
        assert(x / d == 0) by (nonlinear_arith)
            requires
                x == n,
                d == 2 * n,
                0 < n,
        ;
    }
}

/// Every point of a line lies between its start and its end, on both
/// axes, and the last point is the end.
pub proof fn line_point_between(start: Position, end: Position, k: int)
    requires
        1 <= k <= line_len(end.0 - start.0, end.1 - start.1),
    ensures
        ({
            let p = line_point(start, end, k);
            &&& (start.0 <= p.0 <= end.0 || end.0 <= p.0 <= start.0)
            &&& (start.1 <= p.1 <= end.1 || end.1 <= p.1 <= start.1)
        }),
        k == line_len(end.0 - start.0, end.1 - start.1) ==> line_point(start, end, k) == end,
{
    let dx = end.0 - start.0;
    let dy = end.1 - start.1;
    let n = line_len(dx, dy);
    line_advance_bounds(k, abs_int(dx), n);
    line_advance_bounds(k, abs_int(dy), n);
}

/// Along a row, a column or an exact diagonal, point `k` of a line lies
/// `k` unit steps from the start.
pub proof fn line_point_straight(start: Position, end: Position, k: int)
    requires
        1 <= k <= line_len(end.0 - start.0, end.1 - start.1),
        end.0 == start.0 || end.1 == start.1 || abs_int(end.0 - start.0) == abs_int(
            end.1 - start.1,
        ),
    ensures
        line_point(start, end, k) == Position(
            (start.0 + scale_unit(sign_int(end.0 - start.0), k)) as i32,
            (start.1 + scale_unit(sign_int(end.1 - start.1), k)) as i32,
        ),
{
    let dx = end.0 - start.0;
    let dy = end.1 - start.1;
    let n = line_len(dx, dy);
    line_advance_bounds(k, abs_int(dx), n);
    line_advance_bounds(k, abs_int(dy), n);
}

fn advance(k: u64, a: u64, n: u64) -> (r: u64)
    requires
        0 <= k <= n,
        0 <= a <= n,
        0 < n <= u32::MAX,
    ensures
        r == line_advance(k as int, a as int, n as int),
        r <= a,
{
    proof {
        line_advance_bounds(k as int, a as int, n as int);
        assert(k * a <= n * n) by (nonlinear_arith)
            requires
                0 <= k <= n,
                0 <= a <= n,
        ;
        assert(n * n <= 0xffff_ffff * 0xffff_ffff) by (nonlinear_arith)
            requires
                0 <= n <= 0xffff_ffff,
        ;
    }
    let num: u128 = 2 * (k as u128 * a as u128) + n as u128;
    assert(num == 2 * k * a + n) by (nonlinear_arith)
        requires
            num == 2 * (k * a) + n,
    ;
    let den: u128 = 2 * n as u128;
    (num / den) as u64
}

fn coord(start: i32, d: i64, n: u64, k: u64) -> (r: i32)
    requires
        0 <= k <= n,
        abs_int(d as int) <= n,
        0 < n <= u32::MAX,
        i32::MIN <= start + d <= i32::MAX,
    ensures
        r == line_coord(start as int, d as int, n as int, k as int),
{
    if d >= 0 {
        let m: u64 = advance(k, d as u64, n);
        (start as i64 + m as i64) as i32
    } else {
        let m: u64 = advance(k, (-d) as u64, n);
        (start as i64 - m as i64) as i32
    }
}

/// The points of the line from `start` to `end`, without `start`.
pub fn line_between(start: Position, end: Position) -> (v: Vec<Position>)
    ensures
        v@ == line_points(start, end),
{
    let dx: i64 = end.0 as i64 - start.0 as i64;
    let dy: i64 = end.1 as i64 - start.1 as i64;
    let ax: u64 = if dx < 0 {
        (-dx) as u64
    } else {
        dx as u64
    };
    let ay: u64 = if dy < 0 {
        (-dy) as u64
    } else {
        dy as u64
    };
    let n: u64 = if ax > ay {
        ax
    } else {
        ay
    };
    let mut v: Vec<Position> = Vec::new();
    let mut k: u64 = 0;
    while k < n
        invariant
            0 <= k <= n,
            n == line_len(dx as int, dy as int),
            dx == end.0 - start.0,
            dy == end.1 - start.1,
            n <= u32::MAX,
            v@ =~= Seq::new(k as nat, |i: int| line_point(start, end, i + 1)),
        decreases n - k,
    {
        k = k + 1;
        let x: i32 = coord(start.0, dx, n, k);
        let y: i32 = coord(start.1, dy, n, k);
        v.push(Position(x, y));
    }
    v
}

} // verus!
