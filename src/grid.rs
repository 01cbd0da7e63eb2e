use vstd::arithmetic::div_mod::{
    lemma_fundamental_div_mod, lemma_fundamental_div_mod_converse_div,
    lemma_fundamental_div_mod_converse_mod, lemma_mod_bound,
};
use vstd::prelude::*;

verus! {

/// Rounds a byte size up to the next multiple of four.
pub open spec fn align4_spec(size: int) -> int {
    if size % 4 == 0 {
        size
    } else {
        size + (4 - size % 4)
    }
}

/// `(size + 3) & !3`: the smallest multiple of four that is at least `size`.
pub fn dt_align4(size: i32) -> (r: i32)
    requires
        size <= i32::MAX - 3,
    ensures
        r == align4_spec(size as int),
        r % 4 == 0,
        size <= r < size + 4,
{
    let v: i32 = size + 3;
    let r = v & !3i32;
    let q = v >> 2u32;
    assert(r == q * 4 && r <= v && v - r <= 3) by (bit_vector)
        requires
            r == v & !3i32,
            q == v >> 2u32,
    ;
    assert(r % 4 == 0) by (nonlinear_arith)
        requires
            r == q * 4,
    ;
    proof {
        lemma_fundamental_div_mod(size as int, 4);
        lemma_mod_bound(size as int, 4);
    }
    r
}

/// Integer pair naming a tile of the map grid (x, and y for the world's z axis).
#[derive(Clone, Copy, Debug, Hash, PartialEq, Eq, Structural)]
pub struct DtInt2 {
    pub x: i32,
    pub y: i32,
}

impl DtInt2 {
    pub fn new(x: i32, y: i32) -> (r: Self)
        ensures
            r.x == x,
            r.y == y,
    {
        DtInt2 { x, y }
    }

    pub fn zero() -> (r: Self)
        ensures
            r.x == 0,
            r.y == 0,
    {
        DtInt2 { x: 0, y: 0 }
    }
}

/// Area tags handed to the build pipeline, one per input triangle.
pub struct DtArea {}

impl DtArea {
    pub const NULL: u8 = 0;

    pub const WALKABLE: u8 = 63;
}

/// The half-open rectangle of tile coordinates `[start, end)` holds `c`.
pub open spec fn in_tile_range(start: DtInt2, end: DtInt2, c: DtInt2) -> bool {
    start.x <= c.x < end.x && start.y <= c.y < end.y
}

/// Floor of `n / d` for `d > 0`.
pub open spec fn floor_div(n: int, d: int) -> int {
    n / d
}

/// Ceiling of `n / d` for `d > 0`.
pub open spec fn ceil_div(n: int, d: int) -> int {
    -((-n) / d)
}

/// The closed footprint of tile index `t` holds the point `p / d`, both
/// measured in tile edges.
pub open spec fn tile_covers(t: int, p: int, d: int) -> bool {
    t * d <= p <= (t + 1) * d
}

/// An axis interval `[lo / d, hi / d]` that is a single point lying on a tile
/// boundary: its floor and ceiling coincide, so no tile index lies between them.
pub open spec fn on_boundary_point(lo: int, hi: int, d: int) -> bool {
    lo == hi && lo % d == 0
}

pub struct NavmeshBuildUtils {}

impl NavmeshBuildUtils {
    /// Every tile coordinate of the half-open rectangle `[start, end)`, row by
    /// row, each once. The overlap query floors the box minimum and ceils the
    /// box maximum (in tile edges) and enumerates this rectangle.
    pub fn tiles_in_range(start: DtInt2, end: DtInt2) -> (r: Vec<DtInt2>)
        ensures
            forall|c: DtInt2| r@.contains(c) <==> in_tile_range(start, end, c),
            r@.no_duplicates(),
    {
        let mut r: Vec<DtInt2> = Vec::new();
        let mut y: i32 = start.y;
        while y < end.y
            invariant
                start.y <= end.y ==> start.y <= y <= end.y,
                start.y > end.y ==> y == start.y,
                r@.no_duplicates(),
                forall|c: DtInt2|
                    r@.contains(c) <==> (start.x <= c.x < end.x && start.y <= c.y < y),
            decreases end.y - y,
        {
            let mut x: i32 = start.x;
            while x < end.x
                invariant
                    start.y <= y < end.y,
                    start.x <= end.x ==> start.x <= x <= end.x,
                    start.x > end.x ==> x == start.x,
                    r@.no_duplicates(),
                    forall|c: DtInt2|
                        r@.contains(c) <==> ((start.x <= c.x < end.x && start.y <= c.y < y) || (
                        c.y == y && start.x <= c.x < x)),
                decreases end.x - x,
            {
                let c = DtInt2::new(x, y);
                let ghost prev = r@;
                assert(!r@.contains(c));
                r.push(c);
                proof {
                    assert(r@.drop_last() =~= prev);
                    assert forall|k: DtInt2|
                        r@.contains(k) <==> ((start.x <= k.x < end.x && start.y <= k.y < y) || (
                        k.y == y && start.x <= k.x < x + 1)) by {
                        if r@.contains(k) {
                            let i = choose|i: int| 0 <= i < r@.len() && r@[i] == k;
                            if i < r@.len() - 1 {
                                assert(prev.contains(k)) by {
                                    assert(r@.drop_last()[i] == k);
                                }
                            }
                        }
                        if (start.x <= k.x < end.x && start.y <= k.y < y) || (k.y == y && start.x
                            <= k.x < x) {
                            assert(prev.contains(k));
                            let j = choose|j: int| 0 <= j < prev.len() && prev[j] == k;
                            assert(r@[j] == k);
                        }
                        if k.y == y && k.x == x {
                            assert(r@[r@.len() - 1] == k);
                        }
                    }
                }
                x = x + 1;
            }
            y = y + 1;
        }
        r
    }
}


/// `floor_div(n, d) * d` is the last multiple of `d` at or below `n`, and
/// `ceil_div(n, d) * d` the first at or above it.
proof fn lemma_floor_ceil_bounds(n: int, d: int)
    requires
        d > 0,
    ensures
        floor_div(n, d) * d <= n < floor_div(n, d) * d + d,
        ceil_div(n, d) * d - d < n <= ceil_div(n, d) * d,
{
    lemma_fundamental_div_mod(n, d);
    lemma_mod_bound(n, d);
    lemma_fundamental_div_mod(-n, d);
    lemma_mod_bound(-n, d);
    let q = (-n) / d;
    assert(-n == d * q + (-n) % d);
    assert(ceil_div(n, d) * d == -(q * d)) by (nonlinear_arith)
        requires
            ceil_div(n, d) == -q,
    ;
    assert(floor_div(n, d) * d == d * (n / d)) by (nonlinear_arith)
        requires
            floor_div(n, d) == n / d,
    ;
}

/// One axis of the coverage argument: a point of `[lo / d, hi / d]` lies in the
/// closed footprint of a tile index between the floored `lo` and the ceiled
/// `hi`.
proof fn lemma_axis_covered(lo: int, hi: int, d: int, p: int)
    requires
        d > 0,
        lo <= p <= hi,
        !on_boundary_point(lo, hi, d),
    ensures
        exists|t: int| floor_div(lo, d) <= t < ceil_div(hi, d) && tile_covers(t, p, d),
{
    lemma_floor_ceil_bounds(lo, d);
    lemma_floor_ceil_bounds(hi, d);
    lemma_floor_ceil_bounds(p, d);
    let fl = floor_div(lo, d);
    let f = floor_div(p, d);
    let c = ceil_div(hi, d);
    assert(fl <= f) by (nonlinear_arith)
        requires
            fl * d <= lo,
            lo <= p,
            p < f * d + d,
            d > 0,
    ;
    if f < c {
        assert(tile_covers(f, p, d)) by (nonlinear_arith)
            requires
                f * d <= p < f * d + d,
        ;
    } else {
        assert(f <= c) by (nonlinear_arith)
            requires
                f * d <= p,
                p <= hi,
                hi <= c * d,
                d > 0,
        ;
        assert(p == c * d);
        if fl >= c {
            assert(lo == c * d) by (nonlinear_arith)
                requires
                    fl * d <= lo,
                    lo <= p,
                    p == c * d,
                    fl >= c,
                    d > 0,
            ;
            lemma_fundamental_div_mod_converse_mod(lo, d, c, 0);
            assert(false);
        }
        assert(tile_covers(c - 1, p, d)) by (nonlinear_arith)
            requires
                p == c * d,
                d > 0,
        ;
    }
}

/// Coverage of the overlap query. Take a box whose (x, z) footprint spans
/// `[min_x / d, max_x / d]` by `[min_z / d, max_z / d]` measured in tile
/// edges, and the rectangle of tile coordinates from the floored minimum
/// (`start`) to the ceiled maximum (`end`, exclusive). Every footprint point
/// `(px / d, pz / d)` lies in the closed footprint of a tile of that
/// rectangle. The one exception is an axis along which the box is a single
/// point on a tile boundary, where the rectangle is empty.
pub proof fn lemma_overlap_covers_box(
    min_x: int,
    max_x: int,
    min_z: int,
    max_z: int,
    d: int,
    start: DtInt2,
    end: DtInt2,
    px: int,
    pz: int,
)
    requires
        d > 0,
        start.x == floor_div(min_x, d),
        start.y == floor_div(min_z, d),
        end.x == ceil_div(max_x, d),
        end.y == ceil_div(max_z, d),
        min_x <= px <= max_x,
        min_z <= pz <= max_z,
        !on_boundary_point(min_x, max_x, d),
        !on_boundary_point(min_z, max_z, d),
    ensures
        exists|c: DtInt2|
            in_tile_range(start, end, c) && tile_covers(c.x as int, px, d) && tile_covers(
                c.y as int,
                pz,
                d,
            ),
{
    lemma_axis_covered(min_x, max_x, d, px);
    lemma_axis_covered(min_z, max_z, d, pz);
    let tx = choose|t: int| floor_div(min_x, d) <= t < ceil_div(max_x, d) && tile_covers(t, px, d);
    let tz = choose|t: int| floor_div(min_z, d) <= t < ceil_div(max_z, d) && tile_covers(t, pz, d);
    let c = DtInt2 { x: tx as i32, y: tz as i32 };
    assert(in_tile_range(start, end, c));
}

/// The footprint of a tile, measured in tile edges with denominator `d`, runs
/// from `c * d` to `(c + 1) * d` on each axis.
pub open spec fn footprint_lo(c: int, d: int) -> int {
    c * d
}

pub open spec fn footprint_hi(c: int, d: int) -> int {
    (c + 1) * d
}

/// Round trip of a tile coordinate: the footprint of tile `c` (as the tile
/// bounding box gives it), fed back to the overlap query, floors and ceils to
/// the rectangle that holds `c` and no other tile.
pub proof fn lemma_tile_box_round_trip(c: DtInt2, d: int, start: DtInt2, end: DtInt2)
    requires
        d > 0,
        start.x == floor_div(footprint_lo(c.x as int, d), d),
        start.y == floor_div(footprint_lo(c.y as int, d), d),
        end.x == ceil_div(footprint_hi(c.x as int, d), d),
        end.y == ceil_div(footprint_hi(c.y as int, d), d),
    ensures
        start == c,
        end.x == c.x + 1,
        end.y == c.y + 1,
        forall|t: DtInt2| in_tile_range(start, end, t) <==> t == c,
{
    lemma_fundamental_div_mod_converse_div(footprint_lo(c.x as int, d), d, c.x as int, 0);
    lemma_fundamental_div_mod_converse_div(footprint_lo(c.y as int, d), d, c.y as int, 0);
    assert(-footprint_hi(c.x as int, d) == (-(c.x + 1)) * d) by (nonlinear_arith);
    assert(-footprint_hi(c.y as int, d) == (-(c.y + 1)) * d) by (nonlinear_arith);
    lemma_fundamental_div_mod_converse_div(-footprint_hi(c.x as int, d), d, -(c.x + 1), 0);
    lemma_fundamental_div_mod_converse_div(-footprint_hi(c.y as int, d), d, -(c.y + 1), 0);
}

/// The other way round: a box whose overlap rectangle (floored minimum
/// `start` to ceiled maximum `end`, in tile edges with denominator `d`) holds
/// tile `c` and no other lies inside the footprint of `c` on both axes.
pub proof fn lemma_single_tile_box_in_footprint(
    min_x: int,
    max_x: int,
    min_z: int,
    max_z: int,
    d: int,
    start: DtInt2,
    end: DtInt2,
    c: DtInt2,
)
    requires
        d > 0,
        start.x == floor_div(min_x, d),
        start.y == floor_div(min_z, d),
        end.x == ceil_div(max_x, d),
        end.y == ceil_div(max_z, d),
        forall|t: DtInt2| in_tile_range(start, end, t) <==> t == c,
    ensures
        start == c,
        end.x == c.x + 1,
        end.y == c.y + 1,
        footprint_lo(c.x as int, d) <= min_x,
        max_x <= footprint_hi(c.x as int, d),
        footprint_lo(c.y as int, d) <= min_z,
        max_z <= footprint_hi(c.y as int, d),
{
    assert(in_tile_range(start, end, c));
    if end.x > c.x + 1 {
        assert(in_tile_range(start, end, DtInt2 { x: (c.x + 1) as i32, y: c.y }));
    }
    if start.x < c.x {
        assert(in_tile_range(start, end, DtInt2 { x: (c.x - 1) as i32, y: c.y }));
    }
    if end.y > c.y + 1 {
        assert(in_tile_range(start, end, DtInt2 { x: c.x, y: (c.y + 1) as i32 }));
    }
    if start.y < c.y {
        assert(in_tile_range(start, end, DtInt2 { x: c.x, y: (c.y - 1) as i32 }));
    }
    lemma_floor_ceil_bounds(min_x, d);
    lemma_floor_ceil_bounds(max_x, d);
    lemma_floor_ceil_bounds(min_z, d);
    lemma_floor_ceil_bounds(max_z, d);
    assert((c.x + 1) * d == c.x * d + d) by (nonlinear_arith);
    assert((c.y + 1) * d == c.y * d + d) by (nonlinear_arith);
}

} // verus!
