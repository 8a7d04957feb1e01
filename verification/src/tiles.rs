//! Uniform tile grid and the spatial binning pass.
//!
//! The viewport is covered by square tiles of [`TILE_SIZE`] device pixels.
//! Binning assigns every prepared sub-primitive to the tiles its clamped
//! bounding box overlaps and produces, per tile, the run of packed indices
//! in paint order, together with an offset/count table of exactly
//! `tiles_x * tiles_y` entries.
//!
//! The edge-exclusion rule: a box whose clamped maximum lies exactly on a
//! tile grid line does not occupy the tile on the far side of that line on
//! that axis (it would share only an edge, covering no area there).

use vstd::arithmetic::mul::lemma_mul_inequality;
use vstd::prelude::*;

use crate::geom::{clamp_i64, min_i64, spec_clamp, Box2i, Vec2i, COORD_LIMIT, TILE_SIZE};
use crate::packed::PackedPrimitiveIndex;

verus! {

/// Largest tile-grid dimension on one axis: `ceil(COORD_LIMIT / TILE_SIZE)`.
pub const DIM_LIMIT: i64 = 2097152;

/// One entry of the per-tile table: the base index of the tile's run inside
/// [`Tiles::primitives`] and the number of consecutive entries in that run.
#[derive(Debug, Default, Clone, Copy, PartialEq, Eq, Structural)]
pub struct OffsetAndCount {
    /// Base index into [`Tiles::primitives`].
    pub offset: u32,
    /// Number of consecutive packed indices in [`Tiles::primitives`].
    pub count: u32,
}

/// A sub-primitive ready for tile assignment: its axis-aligned bounding box
/// in device pixels and its packed index.
#[derive(Debug, Clone, Copy, PartialEq, Eq, Structural)]
pub struct PreparedPrimitive {
    /// Bounding box in device pixels, for tile assignment.
    pub aabb: Box2i,
    /// Packed primitive index.
    pub prim_index: PackedPrimitiveIndex,
}

/// Number of tiles of a grid with the given dimensions.
pub open spec fn spec_tile_count(dims: Vec2i) -> int {
    dims.x * dims.y
}

/// Tile dimension covering `extent` device pixels: `ceil(extent / TILE_SIZE)`.
pub open spec fn spec_tile_dim(extent: int) -> int {
    (extent + TILE_SIZE - 1) / (TILE_SIZE as int)
}

/// First tile index overlapped on one axis: the box minimum, clamped to the
/// viewport, divided by the tile size rounding down.
pub open spec fn spec_tile_lo(v: int, screen: int) -> int {
    spec_clamp(v, 0, screen) / (TILE_SIZE as int)
}

/// Last tile index overlapped on one axis: the box maximum, clamped to the
/// viewport, divided by the tile size rounding up, except that a maximum
/// lying exactly on a tile grid line excludes the tile past that line
/// (edge-exclusion); the result never exceeds the last tile of the grid.
pub open spec fn spec_tile_hi(v: int, screen: int, dim: int) -> int {
    let ts = TILE_SIZE as int;
    let c = spec_clamp(v, 0, screen);
    let h = if c % ts == 0 {
        c / ts - 1
    } else {
        (c + ts - 1) / ts
    };
    if h > dim - 1 {
        dim - 1
    } else {
        h
    }
}

/// Whether the box overlaps the tile with row-major index `t` in a grid of
/// `dims` tiles over a viewport of `screen` device pixels.
pub open spec fn spec_covers(aabb: Box2i, screen: Vec2i, dims: Vec2i, t: int) -> bool {
    let col = t % (dims.x as int);
    let row = t / (dims.x as int);
    &&& spec_tile_lo(aabb.min.x as int, screen.x as int) <= col <= spec_tile_hi(
        aabb.max.x as int,
        screen.x as int,
        dims.x as int,
    )
    &&& spec_tile_lo(aabb.min.y as int, screen.y as int) <= row <= spec_tile_hi(
        aabb.max.y as int,
        screen.y as int,
        dims.y as int,
    )
}

/// The run of tile `t` restricted to the first `n` prepared primitives: the
/// packed indices of those among them that cover `t`, in input order.
pub open spec fn spec_tile_run_prefix(
    prims: Seq<PreparedPrimitive>,
    screen: Vec2i,
    dims: Vec2i,
    t: int,
    n: int,
) -> Seq<PackedPrimitiveIndex>
    decreases n,
{
    if n <= 0 {
        Seq::empty()
    } else {
        spec_tile_run_prefix(prims, screen, dims, t, n - 1) + if spec_covers(
            prims[n - 1].aabb,
            screen,
            dims,
            t,
        ) {
            seq![prims[n - 1].prim_index]
        } else {
            Seq::empty()
        }
    }
}

/// The complete run of tile `t`: the packed indices of all prepared
/// primitives covering `t`, in input (paint) order.
pub open spec fn spec_tile_run(
    prims: Seq<PreparedPrimitive>,
    screen: Vec2i,
    dims: Vec2i,
    t: int,
) -> Seq<PackedPrimitiveIndex> {
    spec_tile_run_prefix(prims, screen, dims, t, prims.len() as int)
}

/// Concatenation of the runs of tiles `0, 1, ..., t - 1` in row-major order.
pub open spec fn spec_runs_concat(
    prims: Seq<PreparedPrimitive>,
    screen: Vec2i,
    dims: Vec2i,
    t: int,
) -> Seq<PackedPrimitiveIndex>
    decreases t,
{
    if t <= 0 {
        Seq::empty()
    } else {
        spec_runs_concat(prims, screen, dims, t - 1) + spec_tile_run(prims, screen, dims, t - 1)
    }
}

/// The offset/count entry of tile `t` when the runs are appended after
/// `base` already-present entries of the tile primitive buffer.
pub open spec fn spec_oc_entry(
    prims: Seq<PreparedPrimitive>,
    screen: Vec2i,
    dims: Vec2i,
    base: int,
    t: int,
) -> OffsetAndCount {
    OffsetAndCount {
        offset: (base + spec_runs_concat(prims, screen, dims, t).len()) as u32,
        count: spec_tile_run(prims, screen, dims, t).len() as u32,
    }
}

/// The full offset/count table of one binning pass: one entry per tile.
pub open spec fn spec_oc_table(
    prims: Seq<PreparedPrimitive>,
    screen: Vec2i,
    dims: Vec2i,
    base: int,
) -> Seq<OffsetAndCount> {
    Seq::new(spec_tile_count(dims) as nat, |t: int| spec_oc_entry(prims, screen, dims, base, t))
}

/// A tile run over the first `n` primitives has at most `n` entries.
pub proof fn lemma_tile_run_prefix_len(
    prims: Seq<PreparedPrimitive>,
    screen: Vec2i,
    dims: Vec2i,
    t: int,
    n: int,
)
    requires
        0 <= n,
    ensures
        spec_tile_run_prefix(prims, screen, dims, t, n).len() <= n,
    decreases n,
{
    if n > 0 {
        lemma_tile_run_prefix_len(prims, screen, dims, t, n - 1);
    }
}

/// The concatenation of the first `t` runs has at most `t * prims.len()`
/// entries.
pub proof fn lemma_runs_concat_len(
    prims: Seq<PreparedPrimitive>,
    screen: Vec2i,
    dims: Vec2i,
    t: int,
)
    requires
        0 <= t,
    ensures
        spec_runs_concat(prims, screen, dims, t).len() <= t * prims.len(),
    decreases t,
{
    if t > 0 {
        lemma_runs_concat_len(prims, screen, dims, t - 1);
        lemma_tile_run_prefix_len(prims, screen, dims, t - 1, prims.len() as int);
        assert((t - 1) * prims.len() + prims.len() == t * prims.len()) by (nonlinear_arith);
    }
}

/// Longer prefixes of a tile run extend shorter ones: lengths grow
/// monotonically and already-placed entries keep their positions.
pub proof fn lemma_tile_run_prefix_extends(
    prims: Seq<PreparedPrimitive>,
    screen: Vec2i,
    dims: Vec2i,
    t: int,
    n: int,
    m: int,
)
    requires
        0 <= n <= m,
    ensures
        spec_tile_run_prefix(prims, screen, dims, t, n).len() <= spec_tile_run_prefix(
            prims,
            screen,
            dims,
            t,
            m,
        ).len(),
        forall|k: int|
            0 <= k < spec_tile_run_prefix(prims, screen, dims, t, n).len() ==> spec_tile_run_prefix(
                prims,
                screen,
                dims,
                t,
                m,
            )[k] == spec_tile_run_prefix(prims, screen, dims, t, n)[k],
    decreases m - n,
{
    if n < m {
        lemma_tile_run_prefix_extends(prims, screen, dims, t, n, m - 1);
    }
}

/// Stability law of the binning pass: if the primitives at positions `i`
/// and `j`, with `i` drawn before `j`, both overlap tile `t`, then the run
/// of tile `t` holds the packed index of `i` strictly before that of `j`.
/// The position of each index inside the run is the number of earlier
/// primitives that also cover `t`.
pub proof fn lemma_binning_stable(
    prims: Seq<PreparedPrimitive>,
    screen: Vec2i,
    dims: Vec2i,
    t: int,
    i: int,
    j: int,
)
    requires
        0 <= i < j < prims.len(),
        spec_covers(prims[i].aabb, screen, dims, t),
        spec_covers(prims[j].aabb, screen, dims, t),
    ensures
        ({
            let run = spec_tile_run(prims, screen, dims, t);
            let pi = spec_tile_run_prefix(prims, screen, dims, t, i).len() as int;
            let pj = spec_tile_run_prefix(prims, screen, dims, t, j).len() as int;
            &&& 0 <= pi < pj < run.len()
            &&& run[pi] == prims[i].prim_index
            &&& run[pj] == prims[j].prim_index
        }),
{
    let run = spec_tile_run(prims, screen, dims, t);
    let pi = spec_tile_run_prefix(prims, screen, dims, t, i).len() as int;
    let pj = spec_tile_run_prefix(prims, screen, dims, t, j).len() as int;
    // prefix i+1 places prims[i].prim_index at position pi
    assert(spec_tile_run_prefix(prims, screen, dims, t, i + 1)[pi] == prims[i].prim_index);
    lemma_tile_run_prefix_extends(prims, screen, dims, t, i + 1, j);
    // prefix j+1 places prims[j].prim_index at position pj
    assert(spec_tile_run_prefix(prims, screen, dims, t, j + 1)[pj] == prims[j].prim_index);
    lemma_tile_run_prefix_extends(prims, screen, dims, t, i + 1, prims.len() as int);
    lemma_tile_run_prefix_extends(prims, screen, dims, t, j + 1, prims.len() as int);
}

/// First overlapped tile index on one axis.
fn tile_axis_lo(v: i64, screen: i64) -> (r: i64)
    requires
        0 <= screen <= COORD_LIMIT,
    ensures
        r == spec_tile_lo(v as int, screen as int),
        0 <= r,
{
    clamp_i64(v, 0, screen) / TILE_SIZE
}

/// Last overlapped tile index on one axis, applying the edge-exclusion rule
/// and never exceeding the last tile of the grid.
fn tile_axis_hi(v: i64, screen: i64, dim: i64) -> (r: i64)
    requires
        0 <= screen <= COORD_LIMIT,
        0 <= dim,
    ensures
        r == spec_tile_hi(v as int, screen as int, dim as int),
        r <= dim - 1,
{
    let c = clamp_i64(v, 0, screen);
    let h = if c % TILE_SIZE == 0 {
        c / TILE_SIZE - 1
    } else {
        (c + TILE_SIZE - 1) / TILE_SIZE
    };
    min_i64(h, dim - 1)
}

/// Whether the box overlaps the tile with row-major index `t`.
fn covers_tile(aabb: Box2i, screen: Vec2i, dims: Vec2i, t: i64) -> (r: bool)
    requires
        screen.in_extent_range(),
        1 <= dims.x,
        0 <= dims.y,
        0 <= t < spec_tile_count(dims),
    ensures
        r == spec_covers(aabb, screen, dims, t as int),
{
    let col = t % dims.x;
    let row = t / dims.x;
    let lo_x = tile_axis_lo(aabb.min.x, screen.x);
    let hi_x = tile_axis_hi(aabb.max.x, screen.x, dims.x);
    let lo_y = tile_axis_lo(aabb.min.y, screen.y);
    let hi_y = tile_axis_hi(aabb.max.y, screen.y, dims.y);
    lo_x <= col && col <= hi_x && lo_y <= row && row <= hi_y
}

/// Per-tile draw data of one drawing surface.
///
/// Owns the flattened per-tile list of packed sub-primitive indices and the
/// per-tile offset/count table produced by the binning pass.
#[derive(Debug)]
pub struct Tiles {
    /// Tile size, in device pixels; set to `TILE_SIZE` on both axes by
    /// [`Tiles::update_size`].
    pub tile_size: Vec2i,
    /// Dimensions of the grid, in number of tiles per axis.
    pub dimensions: Vec2i,
    /// Flattened list of packed indices. The run of a tile starts at its
    /// [`OffsetAndCount::offset`] and holds [`OffsetAndCount::count`]
    /// consecutive entries.
    pub primitives: Vec<PackedPrimitiveIndex>,
    /// Offset and count of primitives per tile, into [`Tiles::primitives`].
    pub offset_and_count: Vec<OffsetAndCount>,
}

impl Default for Tiles {
    /// An empty grid with zero tile size and dimensions.
    fn default() -> (r: Tiles)
        ensures
            r.tile_size == (Vec2i { x: 0, y: 0 }),
            r.dimensions == (Vec2i { x: 0, y: 0 }),
            r.primitives@ == Seq::<PackedPrimitiveIndex>::empty(),
            r.offset_and_count@ == Seq::<OffsetAndCount>::empty(),
    {
        Tiles {
            tile_size: Vec2i { x: 0, y: 0 },
            dimensions: Vec2i { x: 0, y: 0 },
            primitives: Vec::new(),
            offset_and_count: Vec::new(),
        }
    }
}

impl Tiles {
    /// Update the tile data for the current viewport size.
    ///
    /// Sets the tile size to `TILE_SIZE` on both axes, recomputes the grid
    /// dimensions as `ceil(screen_size / TILE_SIZE)` — so that the grid
    /// covers the whole viewport — and clears both backing buffers.
    pub fn update_size(&mut self, screen_size: Vec2i)
        requires
            screen_size.in_extent_range(),
        ensures
            final(self).tile_size == (Vec2i { x: TILE_SIZE, y: TILE_SIZE }),
            final(self).dimensions.x == spec_tile_dim(screen_size.x as int),
            final(self).dimensions.y == spec_tile_dim(screen_size.y as int),
            final(self).dimensions.x * TILE_SIZE >= screen_size.x,
            final(self).dimensions.y * TILE_SIZE >= screen_size.y,
            0 <= final(self).dimensions.x <= DIM_LIMIT,
            0 <= final(self).dimensions.y <= DIM_LIMIT,
            final(self).primitives@ == Seq::<PackedPrimitiveIndex>::empty(),
            final(self).offset_and_count@ == Seq::<OffsetAndCount>::empty(),
    {
        self.tile_size = Vec2i { x: TILE_SIZE, y: TILE_SIZE };
        let dx = (screen_size.x + TILE_SIZE - 1) / TILE_SIZE;
        let dy = (screen_size.y + TILE_SIZE - 1) / TILE_SIZE;
        self.dimensions = Vec2i { x: dx, y: dy };
        self.primitives.clear();
        self.offset_and_count.clear();
        proof {
            assert(0 <= dx * dy <= DIM_LIMIT * DIM_LIMIT) by (nonlinear_arith)
                requires
                    0 <= dx <= DIM_LIMIT,
                    0 <= dy <= DIM_LIMIT,
            ;
        }
        let count: i64 = dx * dy;
        if count <= 0x3FFF_FFFF {
            self.offset_and_count.reserve(count as usize);
        }
    }

    /// Assign the given prepared sub-primitives to tiles.
    ///
    /// Appends, for every tile in row-major order, the run of packed indices
    /// of the sub-primitives overlapping that tile (in input order, which is
    /// paint order) to [`Tiles::primitives`], and one offset/count entry per
    /// tile — exactly `dimensions.x * dimensions.y` entries — to
    /// [`Tiles::offset_and_count`].
    pub fn assign_to_tiles(&mut self, prims: &Vec<PreparedPrimitive>, screen_size: Vec2i)
        requires
            screen_size.in_extent_range(),
            0 <= old(self).dimensions.x <= DIM_LIMIT,
            0 <= old(self).dimensions.y <= DIM_LIMIT,
            old(self).primitives@.len() + prims@.len() * spec_tile_count(old(self).dimensions)
                <= u32::MAX,
        ensures
            final(self).tile_size == old(self).tile_size,
            final(self).dimensions == old(self).dimensions,
            final(self).primitives@ == old(self).primitives@ + spec_runs_concat(
                prims@,
                screen_size,
                old(self).dimensions,
                spec_tile_count(old(self).dimensions),
            ),
            final(self).offset_and_count@ == old(self).offset_and_count@ + spec_oc_table(
                prims@,
                screen_size,
                old(self).dimensions,
                old(self).primitives@.len() as int,
            ),
    {
        let dims = self.dimensions;
        let ghost old_prims = self.primitives@;
        let ghost old_oc = self.offset_and_count@;
        let ghost base = old_prims.len() as int;
        let ghost plen = prims@.len() as int;

        proof {
            assert(dims.x * dims.y <= DIM_LIMIT * DIM_LIMIT) by (nonlinear_arith)
                requires
                    0 <= dims.x <= DIM_LIMIT,
                    0 <= dims.y <= DIM_LIMIT,
            ;
            assert(0 <= dims.x * dims.y) by (nonlinear_arith)
                requires
                    0 <= dims.x,
                    0 <= dims.y,
            ;
        }
        let ntiles: i64 = dims.x * dims.y;

        let mut t: i64 = 0;
        while t < ntiles
            invariant
                screen_size.in_extent_range(),
                0 <= t <= ntiles,
                ntiles == spec_tile_count(dims),
                0 <= dims.x <= DIM_LIMIT,
                0 <= dims.y <= DIM_LIMIT,
                self.dimensions == dims,
                self.tile_size == old(self).tile_size,
                base + plen * ntiles <= u32::MAX,
                plen == prims@.len(),
                base == old_prims.len(),
                self.primitives@ == old_prims + spec_runs_concat(
                    prims@,
                    screen_size,
                    dims,
                    t as int,
                ),
                self.offset_and_count@.len() == old_oc.len() + t,
                forall|k: int|
                    0 <= k < old_oc.len() ==> self.offset_and_count@[k] == old_oc[k],
                forall|k: int|
                    0 <= k < t ==> self.offset_and_count@[old_oc.len() + k] == spec_oc_entry(
                        prims@,
                        screen_size,
                        dims,
                        base,
                        k,
                    ),
            decreases ntiles - t,
        {
            proof {
                if dims.x <= 0 {
                    assert(dims.x * dims.y == 0) by (nonlinear_arith)
                        requires
                            dims.x == 0,
                    ;
                }
                lemma_runs_concat_len(prims@, screen_size, dims, t as int);
                lemma_mul_inequality(t as int, ntiles as int, plen);
                assert(t * plen == plen * t) by (nonlinear_arith);
                assert(ntiles * plen == plen * ntiles) by (nonlinear_arith);
            }
            let offset = self.primitives.len();
            let ghost run_start = self.primitives@;
            let ghost run_start_oc = self.offset_and_count@;

            let mut i: usize = 0;
            while i < prims.len()
                invariant
                    screen_size.in_extent_range(),
                    1 <= dims.x,
                    0 <= dims.y,
                    0 <= t < spec_tile_count(dims),
                    0 <= i <= prims@.len(),
                    self.dimensions == dims,
                    self.tile_size == old(self).tile_size,
                    self.offset_and_count@ == run_start_oc,
                    self.primitives@ == run_start + spec_tile_run_prefix(
                        prims@,
                        screen_size,
                        dims,
                        t as int,
                        i as int,
                    ),
                decreases prims@.len() - i,
            {
                let p = prims[i];
                if covers_tile(p.aabb, screen_size, dims, t) {
                    self.primitives.push(p.prim_index);
                }
                i = i + 1;
            }

            let count = self.primitives.len() - offset;
            proof {
                lemma_tile_run_prefix_len(prims@, screen_size, dims, t as int, plen);
                lemma_mul_inequality(1, ntiles as int, plen);
                assert(1 * plen == plen) by (nonlinear_arith);
                assert(self.primitives@ =~= old_prims + spec_runs_concat(
                    prims@,
                    screen_size,
                    dims,
                    t as int + 1,
                ));
            }
            self.offset_and_count.push(
                OffsetAndCount { offset: offset as u32, count: count as u32 },
            );
            t = t + 1;
        }

        proof {
            assert(self.offset_and_count@ =~= old_oc + spec_oc_table(
                prims@,
                screen_size,
                dims,
                base,
            ));
        }
    }
}

} // verus!
