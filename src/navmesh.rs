use crate::grid::DtInt2;
use crate::tile::{NavmeshTile, TILE_HEADER_SIZE, i32_at};
use vstd::arithmetic::power2::{lemma2_to64, lemma_pow2_strictly_increases, lemma_pow2_unfold, pow2};
use vstd::prelude::*;

verus! {

/// A fixed-capacity pool of reusable query handles. Handles are taken with
/// `pop` and given back with `push`; the pool is full exactly when no handle
/// is out, which is the signal that the navigation structure may be mutated.
pub struct NavQueryPool<Q> {
    queries: Vec<Q>,
    initialized_size: usize,
}

impl<Q> NavQueryPool<Q> {
    /// The handles currently in the pool, oldest first.
    pub closed spec fn available(&self) -> Seq<Q> {
        self.queries@
    }

    /// The number of handles the pool was created with.
    pub closed spec fn capacity_spec(&self) -> nat {
        self.initialized_size as nat
    }

    /// The pool never holds more handles than it was created with.
    pub closed spec fn wf(&self) -> bool {
        self.queries@.len() <= self.initialized_size
    }

    /// No handle is out.
    pub open spec fn full(&self) -> bool {
        self.available().len() == self.capacity_spec()
    }

    /// A pool holding `queries`, all of them in.
    pub fn new(queries: Vec<Q>) -> (r: Self)
        ensures
            r.wf(),
            r.available() == queries@,
            r.capacity_spec() == queries@.len(),
            r.full(),
    {
        let initialized_size = queries.len();
        NavQueryPool { queries, initialized_size }
    }

    /// All or nothing: a pool of the created handles where every creation
    /// succeeded, else `None` (the handles that were created are dropped).
    pub fn from_created(created: Vec<Option<Q>>) -> (r: Option<Self>)
        ensures
            r is Some <==> forall|i: int| 0 <= i < created@.len() ==> created@[i] is Some,
            r matches Some(pool) ==> {
                &&& pool.wf()
                &&& pool.full()
                &&& pool.capacity_spec() == created@.len()
                &&& pool.available() == created@.map_values(|o: Option<Q>| o->0)
            },
    {
        let ghost orig = created@;
        let mut rest = created;
        let mut queries: Vec<Q> = Vec::new();
        while rest.len() > 0
            invariant
                orig == created@,
                queries@.len() + rest@.len() == orig.len(),
                rest@ == orig.subrange(queries@.len() as int, orig.len() as int),
                queries@ == orig.subrange(0, queries@.len() as int).map_values(
                    |o: Option<Q>| o->0,
                ),
                forall|i: int| 0 <= i < queries@.len() ==> orig[i] is Some,
            decreases rest@.len(),
        {
            let ghost k = queries@.len() as int;
            assert(rest@[0] == orig[k]);
            let item = rest.remove(0);
            match item {
                Some(q) => {
                    queries.push(q);
                    assert(queries@ =~= orig.subrange(0, k + 1).map_values(|o: Option<Q>| o->0));
                    assert(rest@ =~= orig.subrange(k + 1, orig.len() as int));
                },
                None => {
                    assert(!(orig[k] is Some));
                    return None;
                },
            }
        }
        assert(orig.subrange(0, orig.len() as int) =~= orig);
        Some(Self::new(queries))
    }

    /// Whether every handle is in the pool (none is borrowed).
    pub fn is_full(&self) -> (r: bool)
        ensures
            r == self.full(),
    {
        self.queries.len() == self.initialized_size
    }

    /// The number of handles in the pool.
    pub fn len(&self) -> (r: usize)
        ensures
            r == self.available().len(),
    {
        self.queries.len()
    }

    /// The number of handles the pool was created with.
    pub fn capacity(&self) -> (r: usize)
        ensures
            r == self.capacity_spec(),
    {
        self.initialized_size
    }

    /// Drops every handle in the pool.
    pub fn clear(&mut self)
        requires
            old(self).wf(),
        ensures
            final(self).wf(),
            final(self).available().len() == 0,
            final(self).capacity_spec() == old(self).capacity_spec(),
    {
        self.queries.clear();
    }

    /// Takes the oldest handle in the pool, if any.
    pub fn pop(&mut self) -> (r: Option<Q>)
        requires
            old(self).wf(),
        ensures
            final(self).wf(),
            final(self).capacity_spec() == old(self).capacity_spec(),
            old(self).available().len() == 0 ==> r is None && final(self).available() == old(
                self,
            ).available(),
            old(self).available().len() > 0 ==> r == Some(old(self).available()[0])
                && final(self).available() == old(self).available().drop_first(),
    {
        if self.queries.len() == 0 {
            None
        } else {
            let q = self.queries.remove(0);
            assert(self.queries@ =~= old(self).queries@.drop_first());
            Some(q)
        }
    }

    /// Returns a handle to the pool. A pool that is already full does not
    /// take it, and the handle is dropped.
    pub fn push(&mut self, query: Q)
        requires
            old(self).wf(),
        ensures
            final(self).wf(),
            final(self).capacity_spec() == old(self).capacity_spec(),
            !old(self).full() ==> final(self).available() == old(self).available().push(query),
            old(self).full() ==> final(self).available() == old(self).available(),
    {
        if self.queries.len() < self.initialized_size {
            self.queries.push(query);
        }
    }
}

/// Quiescence: a pool with `borrowed` handles out, `0 < borrowed`, is not
/// full, so no mutation goes through; once they are all back it is full.
pub proof fn lemma_borrowed_blocks_mutation<Q>(pool: NavQueryPool<Q>, borrowed: nat)
    requires
        pool.wf(),
        pool.available().len() + borrowed == pool.capacity_spec(),
    ensures
        borrowed > 0 ==> !pool.full(),
        borrowed == 0 ==> pool.full(),
{
}

/// Borrow and return are symmetric: from a full pool `p0` of positive
/// capacity, the pool `p1` that `pop` leaves is not full, and the pool `p2`
/// that `push` of the handle leaves is full again, with the same handles.
pub proof fn lemma_pop_push_restores_full<Q>(p0: NavQueryPool<Q>, p1: NavQueryPool<Q>, p2: NavQueryPool<Q>)
    requires
        p0.wf(),
        p0.full(),
        p0.capacity_spec() > 0,
        p1.capacity_spec() == p0.capacity_spec(),
        p1.available() == p0.available().drop_first(),
        p2.capacity_spec() == p1.capacity_spec(),
        p2.available() == p1.available().push(p0.available()[0]),
    ensures
        !p1.full(),
        p2.full(),
        p2.available().to_multiset() == p0.available().to_multiset(),
{
    let s = p0.available();
    assert(s =~= seq![s[0]] + s.drop_first());
    vstd::seq_lib::lemma_multiset_commutative(seq![s[0]], s.drop_first());
    vstd::seq_lib::lemma_multiset_commutative(s.drop_first(), seq![s[0]]);
    assert(s.drop_first().push(s[0]) =~= s.drop_first() + seq![s[0]]);
}

/// What the native structure must be told after a tile was accepted for
/// loading.
#[derive(Clone, Copy, Debug, PartialEq, Eq, Structural)]
pub enum TileUpdate {
    /// A handle is out of the pool: nothing may change.
    NotQuiescent,
    /// The tile's data is shorter than a tile header.
    Malformed,
    /// Load the tile at `coord`, after unloading the tile already there where
    /// `replaced` is set.
    Load { coord: DtInt2, replaced: bool },
}

/// The loaded tiles of a navigation structure. A coordinate is recorded at
/// most once; mutation is refused unless the query pool is full.
pub struct Navmesh {
    // A vector rather than a hash set: vstd describes a hash set only under a
    // hasher that it knows builds consistent hashers, which Fx's is not shown
    // to be, so uniqueness is kept here as an invariant instead.
    tile_coords: Vec<DtInt2>,
}

impl Navmesh {
    /// The coordinates of the loaded tiles.
    pub closed spec fn loaded(&self) -> Set<DtInt2> {
        Set::new(|c: DtInt2| self.tile_coords@.contains(c))
    }

    /// No coordinate is recorded twice.
    pub closed spec fn wf(&self) -> bool {
        self.tile_coords@.no_duplicates()
    }

    pub fn new() -> (r: Self)
        ensures
            r.wf(),
            r.loaded() == Set::<DtInt2>::empty(),
    {
        let r = Navmesh { tile_coords: Vec::new() };
        assert(r.loaded() =~= Set::<DtInt2>::empty());
        r
    }

    /// The number of loaded tiles.
    pub fn tile_count(&self) -> (r: usize)
        requires
            self.wf(),
        ensures
            r == self.loaded().len(),
    {
        proof {
            self.tile_coords@.unique_seq_to_set();
            assert(self.loaded() =~= self.tile_coords@.to_set());
        }
        self.tile_coords.len()
    }

    fn find_tile(&self, coord: &DtInt2) -> (r: Option<usize>)
        ensures
            match r {
                Some(i) => i < self.tile_coords@.len() && self.tile_coords@[i as int] == *coord,
                None => !self.tile_coords@.contains(*coord),
            },
    {
        let mut i: usize = 0;
        while i < self.tile_coords.len()
            invariant
                i <= self.tile_coords@.len(),
                forall|j: int| 0 <= j < i ==> self.tile_coords@[j] != *coord,
            decreases self.tile_coords@.len() - i,
        {
            if self.tile_coords[i] == *coord {
                return Some(i);
            }
            i = i + 1;
        }
        None
    }

    /// Whether a tile is loaded at `coord`.
    pub fn has_tile(&self, coord: &DtInt2) -> (r: bool)
        ensures
            r == self.loaded().contains(*coord),
    {
        self.find_tile(coord).is_some()
    }

    /// Forgets `coord`, where it is recorded.
    fn forget_tile(&mut self, coord: &DtInt2) -> (r: bool)
        requires
            old(self).wf(),
        ensures
            final(self).wf(),
            r == old(self).loaded().contains(*coord),
            final(self).loaded() == old(self).loaded().remove(*coord),
    {
        match self.find_tile(coord) {
            Some(i) => {
                let ghost before = self.tile_coords@;
                self.tile_coords.remove(i);
                proof {
                    let after = self.tile_coords@;
                    assert(after =~= before.remove(i as int));
                    assert forall|a: int, b: int| 0 <= a < b < after.len() implies after[a]
                        != after[b] by {
                        let a2 = if a < i { a } else { a + 1 };
                        let b2 = if b < i { b } else { b + 1 };
                        assert(after[a] == before[a2] && after[b] == before[b2]);
                    }
                    assert forall|c: DtInt2| after.contains(c) <==> (before.contains(c) && c
                        != *coord) by {
                        if after.contains(c) {
                            let k = choose|k: int| 0 <= k < after.len() && after[k] == c;
                            let k2 = if k < i { k } else { k + 1 };
                            assert(before[k2] == c);
                            assert(k2 != i);
                        }
                        if before.contains(c) && c != *coord {
                            let k = choose|k: int| 0 <= k < before.len() && before[k] == c;
                            assert(k != i);
                            let k2 = if k < i { k } else { k - 1 };
                            assert(after[k2] == c);
                        }
                    }
                    assert(self.loaded() =~= old(self).loaded().remove(*coord));
                }
                true
            },
            None => {
                assert(self.loaded() =~= old(self).loaded().remove(*coord));
                false
            },
        }
    }

    /// Records `tile` as loaded, replacing any tile at its coordinate. Refused
    /// (nothing changes) unless `pool` is full, and for data too short to hold
    /// a header. On success the caller hands the bytes to the engine, after
    /// unloading the previous tile where one was replaced.
    pub fn add_or_replace_tile<Q>(&mut self, pool: &NavQueryPool<Q>, tile: &NavmeshTile) -> (r:
        TileUpdate)
        requires
            old(self).wf(),
        ensures
            final(self).wf(),
            !pool.full() ==> r == TileUpdate::NotQuiescent && final(self).loaded() == old(
                self,
            ).loaded(),
            pool.full() && tile.data@.len() < TILE_HEADER_SIZE ==> r == TileUpdate::Malformed
                && final(self).loaded() == old(self).loaded(),
            pool.full() && tile.data@.len() >= TILE_HEADER_SIZE ==> {
                let c = DtInt2 { x: i32_at(tile.data@, 8) as i32, y: i32_at(tile.data@, 12) as i32 };
                &&& r == TileUpdate::Load { coord: c, replaced: old(self).loaded().contains(c) }
                &&& final(self).loaded() == old(self).loaded().insert(c)
            },
    {
        if !pool.is_full() {
            return TileUpdate::NotQuiescent;
        }
        if tile.data.len() < TILE_HEADER_SIZE {
            return TileUpdate::Malformed;
        }
        let coord = tile.coord();
        let replaced = self.forget_tile(&coord);
        let ghost before = self.tile_coords@;
        proof {
            assert(!self.loaded().contains(coord));
            assert(!before.contains(coord));
            assert forall|c: DtInt2| before.contains(c) <==> (old(self).loaded().contains(c) && c
                != coord) by {
                assert(self.loaded().contains(c) == before.contains(c));
            }
        }
        self.tile_coords.push(coord);
        proof {
            let after = self.tile_coords@;
            assert(after.drop_last() =~= before);
            assert forall|a: int, b: int| 0 <= a < b < after.len() implies after[a] != after[b] by {
                assert(after[a] == before[a]);
                if b == after.len() - 1 {
                    assert(after[b] == coord);
                } else {
                    assert(after[b] == before[b]);
                }
            }
            assert forall|c: DtInt2| after.contains(c) <==> (before.contains(c) || c == coord) by {
                if after.contains(c) {
                    let k = choose|k: int| 0 <= k < after.len() && after[k] == c;
                    if k < before.len() {
                        assert(before[k] == c);
                    }
                }
                if before.contains(c) {
                    let k = choose|k: int| 0 <= k < before.len() && before[k] == c;
                    assert(after[k] == c);
                }
                if c == coord {
                    assert(after[after.len() - 1] == c);
                }
            }
            assert(self.loaded() =~= old(self).loaded().insert(coord));
        }
        TileUpdate::Load { coord, replaced }
    }

    /// Forgets the tile at `coord`. True, and the caller asks the engine to
    /// unload it, only where `pool` is full and a tile is loaded there;
    /// otherwise nothing changes.
    pub fn remove_tile<Q>(&mut self, pool: &NavQueryPool<Q>, coord: &DtInt2) -> (r: bool)
        requires
            old(self).wf(),
        ensures
            final(self).wf(),
            r == (pool.full() && old(self).loaded().contains(*coord)),
            r ==> final(self).loaded() == old(self).loaded().remove(*coord),
            !r ==> final(self).loaded() == old(self).loaded(),
    {
        if !pool.is_full() {
            return false;
        }
        let r = self.forget_tile(coord);
        proof {
            if !r {
                assert(self.loaded() =~= old(self).loaded());
            }
        }
        r
    }

    /// The least power of two at least `i`, for `1 <= i <= 2^30`; zero for
    /// `i <= 0`.
    pub fn ceil_pow2(i: i32) -> (r: i32)
        requires
            i <= 0x4000_0000,
        ensures
            i <= 0 ==> r == 0,
            i >= 1 ==> exists|e: nat| is_ceil_pow2(i as int, r as int, e),
    {
        if i <= 0 {
            return 0;
        }
        let (p, _bits) = Self::ceil_pow2_with_exponent(i);
        p
    }

    /// The number of address bits for a square map `tiles_per_edge` tiles
    /// wide: the exponent of the least power of two at least
    /// `tiles_per_edge * tiles_per_edge`.
    pub fn max_tile_bits(tiles_per_edge: i32) -> (r: i32)
        requires
            1 <= tiles_per_edge <= 0x8000,
        ensures
            0 <= r <= 30,
            is_ceil_pow2(
                tiles_per_edge as int * tiles_per_edge as int,
                pow2(r as nat) as int,
                r as nat,
            ),
    {
        assert(1 <= tiles_per_edge * tiles_per_edge <= 0x4000_0000) by (nonlinear_arith)
            requires
                1 <= tiles_per_edge <= 0x8000,
        ;
        let max_tiles = tiles_per_edge * tiles_per_edge;
        let (_p, bits) = Self::ceil_pow2_with_exponent(max_tiles);
        bits
    }

    fn ceil_pow2_with_exponent(i: i32) -> (r: (i32, i32))
        requires
            1 <= i <= 0x4000_0000,
        ensures
            0 <= r.1 <= 30,
            r.0 == pow2(r.1 as nat),
            is_ceil_pow2(i as int, r.0 as int, r.1 as nat),
    {
        let mut p: i32 = 1;
        let mut e: i32 = 0;
        proof {
            lemma2_to64();
        }
        while p < i
            invariant
                1 <= i <= 0x4000_0000,
                0 <= e <= 30,
                p == pow2(e as nat),
                e == 0 || pow2((e - 1) as nat) < i,
                p <= 0x4000_0000,
            decreases 0x4000_0000 - p,
        {
            proof {
                lemma2_to64();
                if e == 30 {
                    assert(false);
                }
                lemma_pow2_unfold((e + 1) as nat);
                if e + 1 < 30 {
                    lemma_pow2_strictly_increases((e + 1) as nat, 30);
                }
            }
            p = p * 2;
            e = e + 1;
        }
        (p, e)
    }
}

/// `p` is `2^e` and the least power of two at least `i`.
pub open spec fn is_ceil_pow2(i: int, p: int, e: nat) -> bool {
    &&& p == pow2(e)
    &&& i <= p
    &&& (e == 0 || pow2((e - 1) as nat) < i)
}

} // verus!
