//! Batching engine: sub-primitive expansion and order-preserving batch
//! merge.
//!
//! The engine consumes the ordered primitive stream, serializes every
//! primitive into the flat slot buffer, expands text into one
//! sub-primitive per resolved glyph, and groups consecutive
//! texture-compatible sub-primitives into batches. An untextured
//! sub-primitive is a wildcard compatible with everything; two different
//! texture identities always force a batch break. Whenever a batch closes,
//! the tile grid bins exactly the sub-primitives accumulated since the
//! previous flush and the batch records the resulting window into the
//! offset/count table.

use vstd::arithmetic::mul::lemma_mul_inequality;
use vstd::prelude::*;

use crate::geom::{Box2i, Vec2i, COORD_LIMIT, SCALE_LIMIT};
use crate::packed::{spec_pack, PackedPrimitiveIndex, PACKED_INDEX_LIMIT};
use crate::primitive::{GpuPrimitiveKind, Primitive, Slot};
use crate::text::{spec_texts_wf, GlyphData, ResolvedText};
use crate::tiles::{
    spec_oc_table, spec_runs_concat, spec_tile_count, OffsetAndCount, PreparedPrimitive, Tiles,
};

verus! {

/// One sub-primitive: the unit of GPU encoding, batching and tiling.
///
/// Non-text primitives have exactly one sub-primitive, identical to the
/// parent. A text primitive expands into one sub-primitive per resolved
/// glyph, each carrying its own bounding box and the identity of the atlas
/// texture holding that glyph.
#[derive(Debug, Clone, Copy)]
pub struct SubPrim {
    /// Texture identity of the sub-primitive, or `None` when untextured.
    /// An untextured sub-primitive batches with anything.
    pub texture: Option<u64>,
    /// Device-space bounding box and packed index, ready for binning.
    pub prepared: PreparedPrimitive,
}

/// A box converted from canvas space to device pixels: translated by `tr`,
/// then uniformly scaled by `s`.
pub open spec fn spec_dev_box(aabb: Box2i, tr: Vec2i, s: i64) -> Box2i {
    Box2i {
        min: Vec2i {
            x: ((aabb.min.x + tr.x) * s) as i64,
            y: ((aabb.min.y + tr.y) * s) as i64,
        },
        max: Vec2i {
            x: ((aabb.max.x + tr.x) * s) as i64,
            y: ((aabb.max.y + tr.y) * s) as i64,
        },
    }
}

/// The device-space box of one glyph: the text origin converted to device
/// pixels, offset by the glyph offset (already in device pixels) and
/// extended by the glyph size.
pub open spec fn spec_glyph_dev_box(rect_min: Vec2i, g: GlyphData, tr: Vec2i, s: i64) -> Box2i {
    let bx = (rect_min.x + tr.x) * s + g.offset.x;
    let by = (rect_min.y + tr.y) * s + g.offset.y;
    Box2i {
        min: Vec2i { x: bx as i64, y: by as i64 },
        max: Vec2i { x: (bx + g.size.x) as i64, y: (by + g.size.y) as i64 },
    }
}

/// Texture identity of the `k`-th sub-primitive of a primitive: the image
/// of a textured rectangle, the atlas of the `k`-th glyph of a text, and
/// `None` (untextured) otherwise.
pub open spec fn spec_sub_texture(p: Primitive, texts: Seq<ResolvedText>, k: int) -> Option<u64> {
    match p {
        Primitive::Rect(r) => r.image,
        Primitive::Text(t) => Some(texts[t.id as int].glyphs@[k].atlas),
        _ => None,
    }
}

/// Device-space bounding box of the `k`-th sub-primitive of a primitive.
pub open spec fn spec_sub_box(p: Primitive, texts: Seq<ResolvedText>, k: int, tr: Vec2i, s: i64) -> Box2i {
    match p {
        Primitive::Text(t) => spec_glyph_dev_box(t.rect.min, texts[t.id as int].glyphs@[k], tr, s),
        _ => spec_dev_box(p.spec_aabb(), tr, s),
    }
}

/// Packed index of the `k`-th sub-primitive of a primitive whose first
/// encoded row is at offset `base`: each sub-primitive advances by the
/// primitive's row count, so it carries its own row offset.
pub open spec fn spec_sub_packed(
    p: Primitive,
    texts: Seq<ResolvedText>,
    base: int,
    k: int,
) -> PackedPrimitiveIndex {
    PackedPrimitiveIndex(
        spec_pack(
            (base + k * p.spec_row_count(texts)) as u32,
            p.spec_gpu_kind().spec_value(),
            p.spec_is_textured(),
            p.spec_is_bordered(),
        ),
    )
}

/// The `k`-th sub-primitive of a primitive whose first encoded row is at
/// offset `base`.
pub open spec fn spec_sub_prim(
    p: Primitive,
    texts: Seq<ResolvedText>,
    base: int,
    tr: Vec2i,
    s: i64,
    k: int,
) -> SubPrim {
    SubPrim {
        texture: spec_sub_texture(p, texts, k),
        prepared: PreparedPrimitive {
            aabb: spec_sub_box(p, texts, k, tr, s),
            prim_index: spec_sub_packed(p, texts, base, k),
        },
    }
}

/// All sub-primitives of a primitive, in order.
pub open spec fn spec_sub_prims(
    p: Primitive,
    texts: Seq<ResolvedText>,
    base: int,
    tr: Vec2i,
    s: i64,
) -> Seq<SubPrim> {
    Seq::new(
        p.spec_sub_count(texts) as nat,
        |k: int| spec_sub_prim(p, texts, base, tr, s, k),
    )
}

/// The flat slot buffer after serializing the first `n` primitives, in
/// input order.
pub open spec fn spec_frame_slots(
    prims: Seq<Primitive>,
    texts: Seq<ResolvedText>,
    tr: Vec2i,
    s: i64,
    n: int,
) -> Seq<Slot>
    decreases n,
{
    if n <= 0 {
        Seq::empty()
    } else {
        spec_frame_slots(prims, texts, tr, s, n - 1) + prims[n - 1].spec_slots(texts, tr, s)
    }
}

/// The flattened sub-primitive stream of the first `n` primitives. Each
/// primitive's sub-primitives carry packed indices based at the buffer
/// offset where that primitive was serialized.
pub open spec fn spec_frame_subs(
    prims: Seq<Primitive>,
    texts: Seq<ResolvedText>,
    tr: Vec2i,
    s: i64,
    n: int,
) -> Seq<SubPrim>
    decreases n,
{
    if n <= 0 {
        Seq::empty()
    } else {
        spec_frame_subs(prims, texts, tr, s, n - 1) + spec_sub_prims(
            prims[n - 1],
            texts,
            spec_frame_slots(prims, texts, tr, s, n - 1).len() as int,
            tr,
            s,
        )
    }
}

/// A batch under construction or completed: its texture identity and its
/// member sub-primitives, in input order.
pub struct BatchModel {
    /// Texture identity shared by the members, or `None` while only
    /// untextured members were seen.
    pub texture: Option<u64>,
    /// The member sub-primitives, in input order.
    pub members: Seq<SubPrim>,
}

/// State of the incremental batching pass: the completed batches and the
/// batch currently being accumulated, if any.
pub struct BatchFold {
    /// Completed batches, in emission order.
    pub done: Seq<BatchModel>,
    /// The batch being accumulated, or `None` before the first
    /// sub-primitive.
    pub cur: Option<BatchModel>,
}

/// Texture compatibility: an untextured identity is a wildcard compatible
/// with everything; two textured identities are compatible only when
/// equal.
pub open spec fn spec_compatible(cur: Option<u64>, tex: Option<u64>) -> bool {
    cur is None || tex is None || cur == tex
}

/// The texture identity of a batch after merging a compatible
/// sub-primitive: a wildcard is lazily fixed to the first non-wildcard
/// identity seen.
pub open spec fn spec_merged_texture(cur: Option<u64>, tex: Option<u64>) -> Option<u64> {
    if cur is None {
        tex
    } else {
        cur
    }
}

/// One step of the batching pass: the next sub-primitive either joins the
/// current batch (when compatible), or closes it and starts a new one.
pub open spec fn spec_batch_step(st: BatchFold, sub: SubPrim) -> BatchFold {
    match st.cur {
        None => BatchFold {
            done: st.done,
            cur: Some(BatchModel { texture: sub.texture, members: seq![sub] }),
        },
        Some(b) => if spec_compatible(b.texture, sub.texture) {
            BatchFold {
                done: st.done,
                cur: Some(
                    BatchModel {
                        texture: spec_merged_texture(b.texture, sub.texture),
                        members: b.members.push(sub),
                    },
                ),
            }
        } else {
            BatchFold {
                done: st.done.push(b),
                cur: Some(BatchModel { texture: sub.texture, members: seq![sub] }),
            }
        },
    }
}

/// The batching state after the first `n` sub-primitives.
pub open spec fn spec_batch_fold(subs: Seq<SubPrim>, n: int) -> BatchFold
    decreases n,
{
    if n <= 0 {
        BatchFold { done: Seq::empty(), cur: None }
    } else {
        spec_batch_step(spec_batch_fold(subs, n - 1), subs[n - 1])
    }
}

/// The emitted batches of a sub-primitive stream: the completed batches,
/// followed by the still-open batch flushed at stream end.
pub open spec fn spec_batches(subs: Seq<SubPrim>) -> Seq<BatchModel> {
    let st = spec_batch_fold(subs, subs.len() as int);
    match st.cur {
        None => st.done,
        Some(b) => st.done.push(b),
    }
}

/// Concatenation of the member lists of the first `n` batches.
pub open spec fn spec_flatten_members(bs: Seq<BatchModel>, n: int) -> Seq<SubPrim>
    decreases n,
{
    if n <= 0 {
        Seq::empty()
    } else {
        spec_flatten_members(bs, n - 1) + bs[n - 1].members
    }
}

/// Appending a batch does not change the flattening of the first `n`.
pub proof fn lemma_flatten_push(bs: Seq<BatchModel>, x: BatchModel, n: int)
    requires
        0 <= n <= bs.len(),
    ensures
        spec_flatten_members(bs.push(x), n) =~= spec_flatten_members(bs, n),
    decreases n,
{
    if n > 0 {
        lemma_flatten_push(bs, x, n - 1);
    }
}

/// The members of a batching state: every sub-primitive of every
/// completed batch, then the members of the open batch.
pub open spec fn spec_fold_members(st: BatchFold) -> Seq<SubPrim> {
    spec_flatten_members(st.done, st.done.len() as int) + match st.cur {
        None => Seq::empty(),
        Some(b) => b.members,
    }
}

/// The batching pass only ever appends: the members of the state after
/// `n` sub-primitives are exactly the first `n` sub-primitives, in order.
pub proof fn lemma_fold_members(subs: Seq<SubPrim>, n: int)
    requires
        0 <= n <= subs.len(),
    ensures
        spec_fold_members(spec_batch_fold(subs, n)) =~= subs.subrange(0, n),
    decreases n,
{
    if n > 0 {
        lemma_fold_members(subs, n - 1);
        let st = spec_batch_fold(subs, n - 1);
        match st.cur {
            None => {},
            Some(b) => {
                if !spec_compatible(b.texture, subs[n - 1].texture) {
                    lemma_flatten_push(st.done, b, st.done.len() as int);
                    assert(spec_flatten_members(st.done.push(b), st.done.len() as int + 1)
                        =~= spec_flatten_members(st.done, st.done.len() as int) + b.members);
                }
            },
        }
    }
}

/// Batch order preservation: concatenating the member lists of all
/// emitted batches, in emission order, reproduces the input sub-primitive
/// stream exactly, each sub-primitive once and in its original position.
pub proof fn lemma_batches_preserve_order(subs: Seq<SubPrim>)
    ensures
        spec_flatten_members(spec_batches(subs), spec_batches(subs).len() as int) =~= subs,
{
    lemma_fold_members(subs, subs.len() as int);
    let st = spec_batch_fold(subs, subs.len() as int);
    match st.cur {
        None => {
            assert(subs.subrange(0, subs.len() as int) =~= subs);
        },
        Some(b) => {
            lemma_flatten_push(st.done, b, st.done.len() as int);
            assert(spec_flatten_members(st.done.push(b), st.done.len() as int + 1)
                =~= spec_flatten_members(st.done, st.done.len() as int) + b.members);
            assert(subs.subrange(0, subs.len() as int) =~= subs);
        },
    }
}

/// Texture wildcard, first half: an untextured sub-primitive never forces
/// a batch break — the step taken on it never closes the current batch.
pub proof fn lemma_untextured_never_breaks(st: BatchFold, sub: SubPrim)
    requires
        sub.texture is None,
    ensures
        spec_batch_step(st, sub).done == st.done,
        spec_batch_step(st, sub).cur is Some,
        st.cur is Some ==> spec_batch_step(st, sub).cur->0.texture == st.cur->0.texture,
{
}

/// Texture wildcard, second half: a sub-primitive whose texture differs
/// from the (fixed, non-wildcard) texture of the current batch always
/// forces a break — the current batch is closed and a new one starts with
/// this sub-primitive as its first member.
pub proof fn lemma_texture_conflict_breaks(st: BatchFold, sub: SubPrim)
    requires
        st.cur is Some,
        st.cur->0.texture is Some,
        sub.texture is Some,
        st.cur->0.texture != sub.texture,
    ensures
        spec_batch_step(st, sub).done == st.done.push(st.cur->0),
        spec_batch_step(st, sub).cur == Some(
            BatchModel { texture: sub.texture, members: seq![sub] },
        ),
{
}

/// After at least one sub-primitive, a batch is always open.
pub proof fn lemma_fold_cur_some(subs: Seq<SubPrim>, n: int)
    requires
        1 <= n,
    ensures
        spec_batch_fold(subs, n).cur is Some,
    decreases n,
{
    if n > 1 {
        lemma_fold_cur_some(subs, n - 1);
    }
}

/// Texture wildcard at the stream level: appending an untextured
/// sub-primitive to a non-empty stream never changes the number of
/// emitted batches — it always joins the open batch.
pub proof fn lemma_untextured_keeps_batch_count(subs: Seq<SubPrim>, sub: SubPrim)
    requires
        sub.texture is None,
        subs.len() > 0,
    ensures
        spec_batches(subs.push(sub)).len() == spec_batches(subs).len(),
{
    lemma_fold_push(subs, sub, subs.len() as int);
    lemma_fold_cur_some(subs, subs.len() as int);
}

/// Texture conflict at the stream level: appending a sub-primitive whose
/// texture differs from the open batch's fixed texture always emits one
/// more batch.
pub proof fn lemma_conflict_adds_batch(subs: Seq<SubPrim>, sub: SubPrim)
    requires
        spec_batch_fold(subs, subs.len() as int).cur is Some,
        spec_batch_fold(subs, subs.len() as int).cur->0.texture is Some,
        sub.texture is Some,
        spec_batch_fold(subs, subs.len() as int).cur->0.texture != sub.texture,
    ensures
        spec_batches(subs.push(sub)).len() == spec_batches(subs).len() + 1,
{
    lemma_fold_push(subs, sub, subs.len() as int);
}

/// Folding a longer stream passes through the same states: appending
/// sub-primitives does not change the state reached after the first `n`.
pub proof fn lemma_fold_push(subs: Seq<SubPrim>, x: SubPrim, n: int)
    requires
        0 <= n <= subs.len(),
    ensures
        spec_batch_fold(subs.push(x), n) == spec_batch_fold(subs, n),
    decreases n,
{
    if n > 0 {
        lemma_fold_push(subs, x, n - 1);
    }
}

/// The prepared (binnable) parts of a member list.
pub open spec fn spec_members_preps(ms: Seq<SubPrim>) -> Seq<PreparedPrimitive> {
    ms.map_values(|m: SubPrim| m.prepared)
}

/// `k` zeroed offset/count entries (the padding written between batch
/// windows), or none when `k <= 0`.
pub open spec fn spec_zero_oc(k: int) -> Seq<OffsetAndCount> {
    Seq::new(
        (if k >= 0 {
            k
        } else {
            0
        }) as nat,
        |i: int| OffsetAndCount { offset: 0, count: 0 },
    )
}

/// `v` rounded up to the next multiple of `a`.
pub open spec fn spec_align_up(v: int, a: int) -> int {
    ((v + a - 1) / a) * a
}

/// Start of the offset/count window of batch `i`: each window holds one
/// entry per tile and starts at the previous window's end rounded up to
/// the buffer-offset alignment `a`.
pub open spec fn spec_oc_offset(i: int, ntiles: int, a: int) -> int
    decreases i,
{
    if i <= 0 {
        0
    } else {
        spec_align_up(spec_oc_offset(i - 1, ntiles, a) + ntiles, a)
    }
}

/// The tile primitive buffer after binning the first `n` batches: the
/// concatenated binning output of each batch's members.
pub open spec fn spec_frame_tile_prims(
    bs: Seq<BatchModel>,
    screen: Vec2i,
    dims: Vec2i,
    n: int,
) -> Seq<PackedPrimitiveIndex>
    decreases n,
{
    if n <= 0 {
        Seq::empty()
    } else {
        spec_frame_tile_prims(bs, screen, dims, n - 1) + spec_runs_concat(
            spec_members_preps(bs[n - 1].members),
            screen,
            dims,
            spec_tile_count(dims),
        )
    }
}

/// The offset/count table after binning the first `n` batches: each
/// batch's window of one entry per tile, preceded by zeroed padding up to
/// its aligned start.
pub open spec fn spec_frame_oc(
    bs: Seq<BatchModel>,
    screen: Vec2i,
    dims: Vec2i,
    a: int,
    n: int,
) -> Seq<OffsetAndCount>
    decreases n,
{
    if n <= 0 {
        Seq::empty()
    } else {
        let prev = spec_frame_oc(bs, screen, dims, a, n - 1);
        let start = spec_oc_offset(n - 1, spec_tile_count(dims), a);
        prev + spec_zero_oc(start - prev.len()) + spec_oc_table(
            spec_members_preps(bs[n - 1].members),
            screen,
            dims,
            spec_frame_tile_prims(bs, screen, dims, n - 1).len() as int,
        )
    }
}

/// The offset/count table with the padding after the last window already
/// written, ready for the next batch.
pub open spec fn spec_frame_oc_padded(
    bs: Seq<BatchModel>,
    screen: Vec2i,
    dims: Vec2i,
    a: int,
    n: int,
) -> Seq<OffsetAndCount> {
    let oc = spec_frame_oc(bs, screen, dims, a, n);
    oc + spec_zero_oc(spec_oc_offset(n, spec_tile_count(dims), a) - oc.len())
}

/// Rounding up to a multiple of `a` moves a non-negative value forward by
/// less than `a`.
pub proof fn lemma_align_up(v: int, a: int)
    requires
        0 <= v,
        1 <= a,
    ensures
        v <= spec_align_up(v, a) < v + a,
{
    vstd::arithmetic::div_mod::lemma_fundamental_div_mod(v + a - 1, a);
    vstd::arithmetic::div_mod::lemma_remainder_lower(v + a - 1, a);
    vstd::arithmetic::div_mod::lemma_remainder_upper(v + a - 1, a);
}

/// Window starts grow by at most `ntiles + a` per batch.
pub proof fn lemma_oc_offset_bound(i: int, ntiles: int, a: int)
    requires
        0 <= i,
        0 <= ntiles,
        1 <= a,
    ensures
        0 <= spec_oc_offset(i, ntiles, a),
        (if i == 0 {
            0int
        } else {
            spec_oc_offset(i - 1, ntiles, a) + ntiles
        }) <= spec_oc_offset(i, ntiles, a) <= i * (ntiles + a),
    decreases i,
{
    if i > 0 {
        lemma_oc_offset_bound(i - 1, ntiles, a);
        lemma_align_up(spec_oc_offset(i - 1, ntiles, a) + ntiles, a);
        assert((i - 1) * (ntiles + a) + (ntiles + a) == i * (ntiles + a)) by (nonlinear_arith);
    }
}

/// Length of the offset/count table after `n` batches: the start of the
/// `n`-th window plus one entry per tile (nothing for zero batches).
pub proof fn lemma_frame_oc_len(bs: Seq<BatchModel>, screen: Vec2i, dims: Vec2i, a: int, n: int)
    requires
        0 <= n,
        0 <= spec_tile_count(dims),
        1 <= a,
    ensures
        spec_frame_oc(bs, screen, dims, a, n).len() == if n == 0 {
            0int
        } else {
            spec_oc_offset(n - 1, spec_tile_count(dims), a) + spec_tile_count(dims)
        },
    decreases n,
{
    let nt = spec_tile_count(dims);
    if n > 0 {
        lemma_frame_oc_len(bs, screen, dims, a, n - 1);
        lemma_oc_offset_bound(n - 1, nt, a);
    }
}

/// The binning output of the first `n` batches holds at most one entry
/// per tile per member sub-primitive.
pub proof fn lemma_frame_tile_prims_len(bs: Seq<BatchModel>, screen: Vec2i, dims: Vec2i, n: int)
    requires
        0 <= n,
        0 <= spec_tile_count(dims),
    ensures
        spec_frame_tile_prims(bs, screen, dims, n).len() <= spec_tile_count(dims)
            * spec_flatten_members(bs, n).len(),
    decreases n,
{
    let nt = spec_tile_count(dims);
    if n > 0 {
        lemma_frame_tile_prims_len(bs, screen, dims, n - 1);
        crate::tiles::lemma_runs_concat_len(
            spec_members_preps(bs[n - 1].members),
            screen,
            dims,
            nt,
        );
        assert(nt * spec_flatten_members(bs, n - 1).len() + nt * bs[n - 1].members.len() == nt * (
        spec_flatten_members(bs, n - 1).len() + bs[n - 1].members.len())) by (nonlinear_arith);
        assert(nt * bs[n - 1].members.len() == bs[n - 1].members.len() * nt) by (nonlinear_arith);
    }
}

/// Appending a batch changes neither the tile primitive buffer nor the
/// offset/count table of the first `n` batches.
pub proof fn lemma_frame_push_agree(
    bs: Seq<BatchModel>,
    x: BatchModel,
    screen: Vec2i,
    dims: Vec2i,
    a: int,
    n: int,
)
    requires
        0 <= n <= bs.len(),
    ensures
        spec_frame_tile_prims(bs.push(x), screen, dims, n) == spec_frame_tile_prims(
            bs,
            screen,
            dims,
            n,
        ),
        spec_frame_oc(bs.push(x), screen, dims, a, n) == spec_frame_oc(bs, screen, dims, a, n),
    decreases n,
{
    if n > 0 {
        lemma_frame_push_agree(bs, x, screen, dims, a, n - 1);
    }
}

/// The sub-primitive stream of a longer primitive prefix extends that of
/// a shorter one.
pub proof fn lemma_frame_subs_len_monotone(
    prims: Seq<Primitive>,
    texts: Seq<ResolvedText>,
    tr: Vec2i,
    s: i64,
    n: int,
    m: int,
)
    requires
        0 <= n <= m,
    ensures
        spec_frame_subs(prims, texts, tr, s, n).len() <= spec_frame_subs(
            prims,
            texts,
            tr,
            s,
            m,
        ).len(),
    decreases m - n,
{
    if n < m {
        lemma_frame_subs_len_monotone(prims, texts, tr, s, n, m - 1);
    }
}

/// The slot buffer of a longer primitive prefix extends that of a shorter
/// one.
pub proof fn lemma_frame_slots_len_monotone(
    prims: Seq<Primitive>,
    texts: Seq<ResolvedText>,
    tr: Vec2i,
    s: i64,
    n: int,
    m: int,
)
    requires
        0 <= n <= m,
    ensures
        spec_frame_slots(prims, texts, tr, s, n).len() <= spec_frame_slots(
            prims,
            texts,
            tr,
            s,
            m,
        ).len(),
    decreases m - n,
{
    if n < m {
        lemma_frame_slots_len_monotone(prims, texts, tr, s, n, m - 1);
    }
}


/// Every primitive of the frame list is well-formed.
pub open spec fn spec_prims_wf(prims: Seq<Primitive>) -> bool {
    forall|i: int| 0 <= i < prims.len() ==> prims[i].wf()
}

/// In every reachable batching state, every batch holds at least one
/// member.
pub proof fn lemma_fold_nonempty(subs: Seq<SubPrim>, n: int)
    requires
        0 <= n,
    ensures
        forall|i: int|
            0 <= i < spec_batch_fold(subs, n).done.len() ==> #[trigger] spec_batch_fold(
                subs,
                n,
            ).done[i].members.len() >= 1,
        spec_batch_fold(subs, n).cur is Some ==> spec_batch_fold(subs, n).cur->0.members.len()
            >= 1,
    decreases n,
{
    if n > 0 {
        lemma_fold_nonempty(subs, n - 1);
    }
}

/// A flattening of batches that each hold at least one member is at least
/// as long as the number of batches.
pub proof fn lemma_flatten_len_ge(bs: Seq<BatchModel>, n: int)
    requires
        0 <= n <= bs.len(),
        forall|i: int| 0 <= i < bs.len() ==> #[trigger] bs[i].members.len() >= 1,
    ensures
        spec_flatten_members(bs, n).len() >= n,
    decreases n,
{
    if n > 0 {
        lemma_flatten_len_ge(bs, n - 1);
    }
}

/// Whether two texture identities can share a batch.
fn compatible(a: Option<u64>, b: Option<u64>) -> (r: bool)
    ensures
        r == spec_compatible(a, b),
{
    match (a, b) {
        (Option::Some(x), Option::Some(y)) => x == y,
        _ => true,
    }
}

/// `v` rounded up to the next multiple of `a`.
fn align_up_u64(v: u64, a: u64) -> (r: u64)
    requires
        1 <= a,
        v + a - 1 <= u64::MAX,
    ensures
        r as int == spec_align_up(v as int, a as int),
        v <= r < v + a,
{
    proof {
        lemma_align_up(v as int, a as int);
    }
    ((v + (a - 1)) / a) * a
}

/// Batch of consecutive texture-compatible sub-primitives, rendered with
/// a single draw call.
///
/// A completed batch records the window of the offset/count table
/// covering its sub-primitives: `oc_count` entries (one per tile)
/// starting at `oc_offset`.
#[derive(Debug, Clone, Copy)]
pub struct PrimitiveBatch {
    /// Texture identity of the batch, or `None` if untextured so far.
    pub image: Option<u64>,
    /// Whether the batch has accumulated any sub-primitive. The invalid
    /// sentinel batch has `started == false` and merges with nothing.
    pub started: bool,
    /// Start of the batch's window in the offset/count table; set when
    /// the batch is flushed.
    pub oc_offset: u32,
    /// Length of the batch's window in the offset/count table; set when
    /// the batch is flushed.
    pub oc_count: u32,
}

impl PrimitiveBatch {
    /// Create a batch with invalid values, that will never merge with
    /// anything. This is the initializing placeholder of the incremental
    /// batching pass.
    pub fn invalid() -> (r: PrimitiveBatch)
        ensures
            r == (PrimitiveBatch { image: None, started: false, oc_offset: 0, oc_count: 0 }),
    {
        PrimitiveBatch { image: None, started: false, oc_offset: 0, oc_count: 0 }
    }

    /// Whether the batch has accumulated no sub-primitive yet.
    pub fn is_empty(&self) -> (r: bool)
        ensures
            r == !self.started,
    {
        !self.started
    }

    /// Try to merge a batch into the current batch.
    ///
    /// Merging succeeds when this batch has already started and the
    /// texture identities are compatible (either is untextured, or both
    /// are equal); a wildcard identity is then lazily fixed to the
    /// other's. Returns `true` if the batch was merged, `false`
    /// otherwise; on failure nothing changes.
    pub fn try_merge(&mut self, other: &PrimitiveBatch) -> (r: bool)
        ensures
            r == (old(self).started && spec_compatible(old(self).image, other.image)),
            r ==> *final(self) == (PrimitiveBatch {
                image: spec_merged_texture(old(self).image, other.image),
                started: old(self).started,
                oc_offset: old(self).oc_offset,
                oc_count: old(self).oc_count,
            }),
            !r ==> *final(self) == *old(self),
    {
        if self.started && compatible(self.image, other.image) {
            if self.image.is_none() {
                self.image = other.image;
            }
            true
        } else {
            false
        }
    }
}

/// Convert a box from canvas space to device pixels.
fn dev_box(aabb: Box2i, tr: Vec2i, s: i64) -> (r: Box2i)
    requires
        -2 * COORD_LIMIT <= aabb.min.x <= 2 * COORD_LIMIT,
        -2 * COORD_LIMIT <= aabb.min.y <= 2 * COORD_LIMIT,
        -2 * COORD_LIMIT <= aabb.max.x <= 2 * COORD_LIMIT,
        -2 * COORD_LIMIT <= aabb.max.y <= 2 * COORD_LIMIT,
        tr.in_range(),
        0 <= s <= SCALE_LIMIT,
    ensures
        r == spec_dev_box(aabb, tr, s),
{
    Box2i {
        min: Vec2i {
            x: crate::primitive::scaled(aabb.min.x + tr.x, s),
            y: crate::primitive::scaled(aabb.min.y + tr.y, s),
        },
        max: Vec2i {
            x: crate::primitive::scaled(aabb.max.x + tr.x, s),
            y: crate::primitive::scaled(aabb.max.y + tr.y, s),
        },
    }
}

/// The `k`-th sub-primitive of a primitive whose first encoded row sits
/// at buffer offset `base`: its texture identity, its device-space
/// bounding box and its packed index.
fn sub_prim_at(
    p: &Primitive,
    texts: &Vec<ResolvedText>,
    base: usize,
    tr: Vec2i,
    s: i64,
    k: usize,
    rows: u32,
) -> (r: SubPrim)
    requires
        p.wf(),
        spec_texts_wf(texts@),
        tr.in_range(),
        1 <= s <= SCALE_LIMIT,
        (k as int) < p.spec_sub_count(texts@),
        rows == p.spec_row_count(texts@),
        base + p.spec_row_count(texts@) * p.spec_sub_count(texts@) <= PACKED_INDEX_LIMIT,
    ensures
        r == spec_sub_prim(*p, texts@, base as int, tr, s, k as int),
{
    proof {
        let rc = p.spec_row_count(texts@);
        let sc = p.spec_sub_count(texts@);
        lemma_mul_inequality(k as int, sc - 1, rc);
        assert((sc - 1) * rc == sc * rc - rc) by (nonlinear_arith);
        assert(sc * rc == rc * sc) by (nonlinear_arith);
        assert(k * rc >= 0) by (nonlinear_arith)
            requires
                k >= 0,
                rc >= 0,
        ;
    }
    let off = base + k * (rows as usize);
    match p {
        Primitive::Line(l) => SubPrim {
            texture: None,
            prepared: PreparedPrimitive {
                aabb: dev_box(l.aabb(), tr, s),
                prim_index: PackedPrimitiveIndex::new(
                    off as u32,
                    GpuPrimitiveKind::Line,
                    false,
                    l.is_bordered(),
                ),
            },
        },
        Primitive::Rect(rc) => SubPrim {
            texture: rc.image,
            prepared: PreparedPrimitive {
                aabb: dev_box(rc.aabb(), tr, s),
                prim_index: PackedPrimitiveIndex::new(
                    off as u32,
                    GpuPrimitiveKind::Rect,
                    rc.is_textured(),
                    rc.is_bordered(),
                ),
            },
        },
        Primitive::Text(t) => {
            let g = texts[t.id as usize].glyphs[k];
            assert(g.wf());
            let bx = crate::primitive::scaled(t.rect.min.x + tr.x, s) + g.offset.x;
            let by = crate::primitive::scaled(t.rect.min.y + tr.y, s) + g.offset.y;
            SubPrim {
                texture: Some(g.atlas),
                prepared: PreparedPrimitive {
                    aabb: Box2i {
                        min: Vec2i { x: bx, y: by },
                        max: Vec2i { x: bx + g.size.x, y: by + g.size.y },
                    },
                    prim_index: PackedPrimitiveIndex::new(
                        off as u32,
                        GpuPrimitiveKind::Glyph,
                        false,
                        false,
                    ),
                },
            }
        },
        Primitive::QuarterPie(q) => SubPrim {
            texture: None,
            prepared: PreparedPrimitive {
                aabb: dev_box(q.aabb(), tr, s),
                prim_index: PackedPrimitiveIndex::new(
                    off as u32,
                    GpuPrimitiveKind::QuarterPie,
                    false,
                    false,
                ),
            },
        },
    }
}


/// Close the current batch: bin its accumulated sub-primitives into the
/// tile grid, append the completed batch with its window into the
/// offset/count table, and, unless this is the final flush of the frame,
/// pad the table up to the alignment for the next window.
#[verifier::rlimit(30)]
fn flush_batch(
    tiles: &mut Tiles,
    batches: &mut Vec<PrimitiveBatch>,
    pending: &Vec<PreparedPrimitive>,
    image: Option<u64>,
    screen_size: Vec2i,
    oc_align: u32,
    pad: bool,
    Ghost(done): Ghost<Seq<BatchModel>>,
    Ghost(cur): Ghost<BatchModel>,
    Ghost(total_subs): Ghost<int>,
)
    requires
        screen_size.in_extent_range(),
        0 <= old(tiles).dimensions.x <= crate::tiles::DIM_LIMIT,
        0 <= old(tiles).dimensions.y <= crate::tiles::DIM_LIMIT,
        1 <= oc_align,
        pending@ == spec_members_preps(cur.members),
        image == cur.texture,
        cur.members.len() >= 1,
        forall|i: int| 0 <= i < done.len() ==> #[trigger] done[i].members.len() >= 1,
        old(tiles).primitives@ == spec_frame_tile_prims(
            done,
            screen_size,
            old(tiles).dimensions,
            done.len() as int,
        ),
        old(tiles).offset_and_count@ == spec_frame_oc_padded(
            done,
            screen_size,
            old(tiles).dimensions,
            oc_align as int,
            done.len() as int,
        ),
        spec_flatten_members(done, done.len() as int).len() + cur.members.len() <= total_subs,
        total_subs * spec_tile_count(old(tiles).dimensions) <= u32::MAX,
        (total_subs + 1) * (spec_tile_count(old(tiles).dimensions) + oc_align) <= u32::MAX,
    ensures
        ({
            let dims = old(tiles).dimensions;
            let nt = spec_tile_count(dims);
            let a = oc_align as int;
            let done2 = done.push(cur);
            let n = done.len() as int + 1;
            &&& final(tiles).dimensions == dims
            &&& final(tiles).tile_size == old(tiles).tile_size
            &&& final(tiles).primitives@ == spec_frame_tile_prims(done2, screen_size, dims, n)
            &&& final(tiles).offset_and_count@ == (if pad {
                spec_frame_oc_padded(done2, screen_size, dims, a, n)
            } else {
                spec_frame_oc(done2, screen_size, dims, a, n)
            })
            &&& final(batches)@ == old(batches)@.push(
                PrimitiveBatch {
                    image,
                    started: true,
                    oc_offset: spec_oc_offset(done.len() as int, nt, a) as u32,
                    oc_count: nt as u32,
                },
            )
        }),
{
    let dims = tiles.dimensions;
    let ghost nt = spec_tile_count(dims);
    let ghost a = oc_align as int;
    let ghost n0 = done.len() as int;
    let ghost done2 = done.push(cur);

    proof {
        assert(0 <= nt <= crate::tiles::DIM_LIMIT * crate::tiles::DIM_LIMIT) by (nonlinear_arith)
            requires
                0 <= dims.x <= crate::tiles::DIM_LIMIT,
                0 <= dims.y <= crate::tiles::DIM_LIMIT,
                nt == dims.x * dims.y,
        ;
        // the number of completed batches is bounded by the sub-primitives seen
        lemma_flatten_len_ge(done, n0);
        assert(n0 + 1 <= total_subs);
        // window starts and table lengths
        lemma_oc_offset_bound(n0, nt, a);
        lemma_oc_offset_bound(n0 + 1, nt, a);
        lemma_frame_oc_len(done, screen_size, dims, a, n0);
        lemma_mul_inequality(n0 + 1, total_subs + 1, nt + a);
        assert((n0 + 1) * (nt + a) >= 0) by (nonlinear_arith)
            requires
                n0 + 1 >= 0,
                nt + a >= 0,
        ;
        // tile primitive buffer stays within u32 offsets
        lemma_frame_tile_prims_len(done, screen_size, dims, n0);
        assert(nt * spec_flatten_members(done, n0).len() + nt * cur.members.len() <= nt
            * total_subs) by (nonlinear_arith)
            requires
                nt >= 0,
                spec_flatten_members(done, n0).len() + cur.members.len() <= total_subs,
        ;
        assert(nt * total_subs == total_subs * nt) by (nonlinear_arith);
        assert(nt * cur.members.len() == cur.members.len() * nt) by (nonlinear_arith);
    }

    let oc_off = tiles.offset_and_count.len();
    tiles.assign_to_tiles(pending, screen_size);
    let ntiles: i64 = dims.x * dims.y;
    batches.push(
        PrimitiveBatch {
            image,
            started: true,
            oc_offset: oc_off as u32,
            oc_count: ntiles as u32,
        },
    );

    proof {
        lemma_frame_push_agree(done, cur, screen_size, dims, a, n0);
        assert(tiles.primitives@ =~= spec_frame_tile_prims(done2, screen_size, dims, n0 + 1));
        assert(tiles.offset_and_count@ =~= spec_frame_oc(done2, screen_size, dims, a, n0 + 1));
        lemma_frame_oc_len(done2, screen_size, dims, a, n0 + 1);
    }

    if pad {
        let target = align_up_u64(oc_off as u64 + ntiles as u64, oc_align as u64);
        proof {
            assert(target as int == spec_oc_offset(n0 + 1, nt, a));
        }
        while (tiles.offset_and_count.len() as u64) < target
            invariant
                tiles.dimensions == dims,
                tiles.tile_size == old(tiles).tile_size,
                tiles.primitives@ == spec_frame_tile_prims(done2, screen_size, dims, n0 + 1),
                spec_frame_oc(done2, screen_size, dims, a, n0 + 1).len()
                    <= tiles.offset_and_count@.len() <= target,
                target as int == spec_oc_offset(n0 + 1, nt, a),
                target <= u32::MAX,
                tiles.offset_and_count@ == spec_frame_oc(done2, screen_size, dims, a, n0 + 1)
                    + spec_zero_oc(
                    tiles.offset_and_count@.len() - spec_frame_oc(
                        done2,
                        screen_size,
                        dims,
                        a,
                        n0 + 1,
                    ).len(),
                ),
            decreases target - tiles.offset_and_count@.len(),
        {
            tiles.offset_and_count.push(OffsetAndCount { offset: 0, count: 0 });
            proof {
                assert(tiles.offset_and_count@ =~= spec_frame_oc(
                    done2,
                    screen_size,
                    dims,
                    a,
                    n0 + 1,
                ) + spec_zero_oc(
                    tiles.offset_and_count@.len() - spec_frame_oc(
                        done2,
                        screen_size,
                        dims,
                        a,
                        n0 + 1,
                    ).len(),
                ));
            }
        }
        proof {
            assert(tiles.offset_and_count@ =~= spec_frame_oc_padded(
                done2,
                screen_size,
                dims,
                a,
                n0 + 1,
            ));
        }
    }
}

/// Prepare one frame of the canvas: serialize the ordered primitive list
/// into the flat slot buffer, expand every primitive into its
/// sub-primitives, group consecutive texture-compatible sub-primitives
/// into batches, and bin each completed batch into the tile grid.
///
/// On return:
/// - `buffer` holds the encoded rows of every primitive, in input order;
/// - `batches` holds one entry per emitted batch, in input order, each
///   with its texture identity and its window (offset and one entry per
///   tile) into the offset/count table;
/// - `tiles` holds the concatenated binning output of all batches.
///
/// A frame with no primitives — or whose texts have no resolved glyphs —
/// emits zero batches, zero tiles with content and an empty table. The
/// three output buffers are cleared first (their capacity is retained
/// across frames).
#[verifier::rlimit(60)]
pub fn prepare_frame(
    prims: &Vec<Primitive>,
    texts: &Vec<ResolvedText>,
    tiles: &mut Tiles,
    buffer: &mut Vec<Slot>,
    batches: &mut Vec<PrimitiveBatch>,
    screen_size: Vec2i,
    tr: Vec2i,
    s: i64,
    oc_align: u32,
)
    requires
        spec_prims_wf(prims@),
        spec_texts_wf(texts@),
        tr.in_range(),
        1 <= s <= SCALE_LIMIT,
        screen_size.in_extent_range(),
        0 <= old(tiles).dimensions.x <= crate::tiles::DIM_LIMIT,
        0 <= old(tiles).dimensions.y <= crate::tiles::DIM_LIMIT,
        1 <= oc_align,
        spec_frame_slots(prims@, texts@, tr, s, prims@.len() as int).len()
            <= PACKED_INDEX_LIMIT,
        spec_frame_subs(prims@, texts@, tr, s, prims@.len() as int).len() * spec_tile_count(
            old(tiles).dimensions,
        ) <= u32::MAX,
        (spec_frame_subs(prims@, texts@, tr, s, prims@.len() as int).len() + 1) * (
        spec_tile_count(old(tiles).dimensions) + oc_align) <= u32::MAX,
    ensures
        ({
            let subs = spec_frame_subs(prims@, texts@, tr, s, prims@.len() as int);
            let bs = spec_batches(subs);
            let dims = old(tiles).dimensions;
            let nt = spec_tile_count(dims);
            let a = oc_align as int;
            &&& final(buffer)@ == spec_frame_slots(prims@, texts@, tr, s, prims@.len() as int)
            &&& final(batches)@.len() == bs.len()
            &&& (forall|i: int|
                0 <= i < bs.len() ==> {
                    &&& (#[trigger] final(batches)@[i]).image == bs[i].texture
                    &&& final(batches)@[i].started
                    &&& final(batches)@[i].oc_offset as int == spec_oc_offset(i, nt, a)
                    &&& final(batches)@[i].oc_count as int == nt
                })
            &&& final(tiles).dimensions == dims
            &&& final(tiles).tile_size == old(tiles).tile_size
            &&& final(tiles).primitives@ == spec_frame_tile_prims(
                bs,
                screen_size,
                dims,
                bs.len() as int,
            )
            &&& final(tiles).offset_and_count@ == spec_frame_oc(
                bs,
                screen_size,
                dims,
                a,
                bs.len() as int,
            )
        }),
{
    let dims = tiles.dimensions;
    let ghost nt = spec_tile_count(dims);
    let ghost a = oc_align as int;
    let ghost all_subs = spec_frame_subs(prims@, texts@, tr, s, prims@.len() as int);
    let ghost total_subs = all_subs.len() as int;
    let ghost total_rows = spec_frame_slots(prims@, texts@, tr, s, prims@.len() as int).len()
        as int;

    tiles.primitives.clear();
    tiles.offset_and_count.clear();
    buffer.clear();
    batches.clear();
    let mut current = PrimitiveBatch::invalid();
    let mut pending: Vec<PreparedPrimitive> = Vec::new();
    let ghost mut subs_done: Seq<SubPrim> = Seq::empty();
    let ghost mut st = BatchFold { done: Seq::empty(), cur: None };

    let mut pi: usize = 0;
    while pi < prims.len()
        invariant
            spec_prims_wf(prims@),
            spec_texts_wf(texts@),
            tr.in_range(),
            1 <= s <= SCALE_LIMIT,
            screen_size.in_extent_range(),
            0 <= dims.x <= crate::tiles::DIM_LIMIT,
            0 <= dims.y <= crate::tiles::DIM_LIMIT,
            1 <= oc_align,
            nt == spec_tile_count(dims),
            a == oc_align as int,
            total_rows == spec_frame_slots(prims@, texts@, tr, s, prims@.len() as int).len(),
            total_rows <= PACKED_INDEX_LIMIT,
            all_subs == spec_frame_subs(prims@, texts@, tr, s, prims@.len() as int),
            total_subs == all_subs.len(),
            total_subs * nt <= u32::MAX,
            (total_subs + 1) * (nt + a) <= u32::MAX,
            0 <= pi <= prims@.len(),
            buffer@ == spec_frame_slots(prims@, texts@, tr, s, pi as int),
            subs_done == spec_frame_subs(prims@, texts@, tr, s, pi as int),
            st == spec_batch_fold(subs_done, subs_done.len() as int),
            current.started == (st.cur is Some),
            st.cur is Some ==> current.image == st.cur->0.texture && pending@
                == spec_members_preps(st.cur->0.members),
            st.cur is None ==> st.done.len() == 0 && pending@.len() == 0,
            batches@.len() == st.done.len(),
            forall|i: int|
                0 <= i < st.done.len() ==> {
                    &&& (#[trigger] batches@[i]).image == st.done[i].texture
                    &&& batches@[i].started
                    &&& batches@[i].oc_offset as int == spec_oc_offset(i, nt, a)
                    &&& batches@[i].oc_count as int == nt
                },
            tiles.dimensions == dims,
            tiles.tile_size == old(tiles).tile_size,
            tiles.primitives@ == spec_frame_tile_prims(
                st.done,
                screen_size,
                dims,
                st.done.len() as int,
            ),
            tiles.offset_and_count@ == spec_frame_oc_padded(
                st.done,
                screen_size,
                dims,
                a,
                st.done.len() as int,
            ),
        decreases prims@.len() - pi,
    {
        let prim = &prims[pi];
        proof {
            assert(spec_prims_wf(prims@));
            assert(prims@[pi as int].wf());
        }
        let base = buffer.len();
        let info = prim.info(texts);
        prim.encode_append(texts, buffer, tr, s);

        proof {
            crate::primitive::lemma_row_count_exact(*prim, texts@, tr, s);
            lemma_frame_slots_len_monotone(prims@, texts@, tr, s, pi as int + 1, prims@.len() as int);
        }

        let nsubs = info.sub_prim_count as usize;
        let mut k: usize = 0;
        while k < nsubs
            invariant
                spec_prims_wf(prims@),
                spec_texts_wf(texts@),
                tr.in_range(),
                1 <= s <= SCALE_LIMIT,
                screen_size.in_extent_range(),
                0 <= dims.x <= crate::tiles::DIM_LIMIT,
                0 <= dims.y <= crate::tiles::DIM_LIMIT,
                1 <= oc_align,
                nt == spec_tile_count(dims),
                a == oc_align as int,
                total_rows == spec_frame_slots(prims@, texts@, tr, s, prims@.len() as int).len(),
                total_rows <= PACKED_INDEX_LIMIT,
                all_subs == spec_frame_subs(prims@, texts@, tr, s, prims@.len() as int),
                total_subs == all_subs.len(),
                total_subs * nt <= u32::MAX,
                (total_subs + 1) * (nt + a) <= u32::MAX,
                0 <= pi < prims@.len(),
                *prim == prims@[pi as int],
                prims@[pi as int].wf(),
                0 <= k <= nsubs,
                nsubs == prims@[pi as int].spec_sub_count(texts@),
                info.row_count == prims@[pi as int].spec_row_count(texts@),
                base == spec_frame_slots(prims@, texts@, tr, s, pi as int).len(),
                base + prims@[pi as int].spec_row_count(texts@) * prims@[pi as int].spec_sub_count(
                    texts@,
                ) <= PACKED_INDEX_LIMIT,
                buffer@ == spec_frame_slots(prims@, texts@, tr, s, pi as int + 1),
                subs_done == spec_frame_subs(prims@, texts@, tr, s, pi as int) + spec_sub_prims(
                    prims@[pi as int],
                    texts@,
                    base as int,
                    tr,
                    s,
                ).subrange(0, k as int),
                st == spec_batch_fold(subs_done, subs_done.len() as int),
                current.started == (st.cur is Some),
                st.cur is Some ==> current.image == st.cur->0.texture && pending@
                    == spec_members_preps(st.cur->0.members),
                st.cur is None ==> st.done.len() == 0 && pending@.len() == 0,
                batches@.len() == st.done.len(),
                forall|i: int|
                    0 <= i < st.done.len() ==> {
                        &&& (#[trigger] batches@[i]).image == st.done[i].texture
                        &&& batches@[i].started
                        &&& batches@[i].oc_offset as int == spec_oc_offset(i, nt, a)
                        &&& batches@[i].oc_count as int == nt
                    },
                tiles.dimensions == dims,
                tiles.tile_size == old(tiles).tile_size,
                tiles.primitives@ == spec_frame_tile_prims(
                    st.done,
                    screen_size,
                    dims,
                    st.done.len() as int,
                ),
                tiles.offset_and_count@ == spec_frame_oc_padded(
                    st.done,
                    screen_size,
                    dims,
                    a,
                    st.done.len() as int,
                ),
            decreases nsubs - k,
        {
            let sub = sub_prim_at(prim, texts, base, tr, s, k, info.row_count);
            let ghost sub_spec = spec_sub_prim(prims@[pi as int], texts@, base as int, tr, s, k as int);

            // the prefix of sub-primitives seen so far stays a prefix of the
            // whole frame's stream
            proof {
                lemma_subs_prefix(prims@, texts@, tr, s, pi as int, base as int, k as int);
            }

            let new_batch = PrimitiveBatch {
                image: sub.texture,
                started: true,
                oc_offset: 0,
                oc_count: 0,
            };
            if current.try_merge(&new_batch) {
                pending.push(sub.prepared);
                proof {
                    let b = st.cur->0;
                    assert(spec_members_preps(b.members.push(sub_spec)) =~= spec_members_preps(
                        b.members,
                    ).push(sub_spec.prepared));
                }
            } else {
                if !current.is_empty() {
                    proof {
                        lemma_fold_nonempty(subs_done, subs_done.len() as int);
                        lemma_fold_members(subs_done, subs_done.len() as int);
                        assert(spec_fold_members(st).len() == spec_flatten_members(
                            st.done,
                            st.done.len() as int,
                        ).len() + st.cur->0.members.len());
                        lemma_frame_subs_len_monotone(prims@, texts@, tr, s, pi as int + 1, prims@.len() as int);
                        assert(subs_done.len() <= total_subs);
                    }
                    proof {
                        lemma_flatten_len_ge(st.done, st.done.len() as int);
                    }
                    flush_batch(
                        tiles,
                        batches,
                        &pending,
                        current.image,
                        screen_size,
                        oc_align,
                        true,
                        Ghost(st.done),
                        Ghost(st.cur->0),
                        Ghost(total_subs),
                    );
                    pending.clear();
                    proof {
                        let n0 = st.done.len() as int;
                        lemma_oc_offset_bound(n0, nt, a);
                        lemma_mul_inequality(n0 + 1, total_subs + 1, nt + a);
                        lemma_mul_inequality(1, total_subs + 1, nt + a);
                        assert((n0 + 1) * (nt + a) >= 0) by (nonlinear_arith)
                            requires
                                n0 + 1 >= 0,
                                nt + a >= 0,
                        ;
                        assert(n0 * (nt + a) <= (n0 + 1) * (nt + a)) by (nonlinear_arith)
                            requires
                                nt + a >= 0,
                        ;
                    }
                }
                current = new_batch;
                pending.push(sub.prepared);
                proof {
                    assert(spec_members_preps(seq![sub_spec]) =~= Seq::<
                        PreparedPrimitive,
                    >::empty().push(sub_spec.prepared));
                }
            }
            proof {
                lemma_fold_push(subs_done, sub_spec, subs_done.len() as int);
                st = spec_batch_step(st, sub_spec);
                subs_done = subs_done.push(sub_spec);
                assert(subs_done =~= spec_frame_subs(prims@, texts@, tr, s, pi as int)
                    + spec_sub_prims(prims@[pi as int], texts@, base as int, tr, s).subrange(
                    0,
                    k as int + 1,
                ));
            }
            k = k + 1;
        }
        proof {
            assert(subs_done =~= spec_frame_subs(prims@, texts@, tr, s, pi as int + 1));
        }
        pi = pi + 1;
    }

    if !current.is_empty() {
        proof {
            lemma_fold_nonempty(subs_done, subs_done.len() as int);
            lemma_fold_members(subs_done, subs_done.len() as int);
            assert(spec_fold_members(st).len() == spec_flatten_members(
                st.done,
                st.done.len() as int,
            ).len() + st.cur->0.members.len());
            lemma_flatten_len_ge(st.done, st.done.len() as int);
        }
        flush_batch(
            tiles,
            batches,
            &pending,
            current.image,
            screen_size,
            oc_align,
            false,
            Ghost(st.done),
            Ghost(st.cur->0),
            Ghost(total_subs),
        );
        pending.clear();
        proof {
            let n0 = st.done.len() as int;
            assert(subs_done == all_subs);
            assert(spec_batches(all_subs) == st.done.push(st.cur->0));
            lemma_oc_offset_bound(n0, nt, a);
            lemma_mul_inequality(n0 + 1, total_subs + 1, nt + a);
            lemma_mul_inequality(1, total_subs + 1, nt + a);
            assert((n0 + 1) * (nt + a) >= 0) by (nonlinear_arith)
                requires
                    n0 + 1 >= 0,
                    nt + a >= 0,
            ;
            assert(n0 * (nt + a) <= (n0 + 1) * (nt + a)) by (nonlinear_arith)
                requires
                    nt + a >= 0,
            ;
        }
    } else {
        proof {
            assert(spec_batches(all_subs) =~= st.done);
            assert(tiles.offset_and_count@ =~= spec_frame_oc(
                st.done,
                screen_size,
                dims,
                a,
                st.done.len() as int,
            ));
        }
    }
}

/// The sub-primitive stream of the first `pi` primitives, extended by the
/// first `k + 1` sub-primitives of primitive `pi`, matches the stream of
/// the first `pi` primitives extended by one more sub-primitive.
proof fn lemma_subs_prefix(
    prims: Seq<Primitive>,
    texts: Seq<ResolvedText>,
    tr: Vec2i,
    s: i64,
    pi: int,
    base: int,
    k: int,
)
    requires
        0 <= pi < prims.len(),
        0 <= k < prims[pi].spec_sub_count(texts),
    ensures
        (spec_frame_subs(prims, texts, tr, s, pi) + spec_sub_prims(
            prims[pi],
            texts,
            base,
            tr,
            s,
        ).subrange(0, k)).push(spec_sub_prim(prims[pi], texts, base, tr, s, k))
            =~= spec_frame_subs(prims, texts, tr, s, pi) + spec_sub_prims(
            prims[pi],
            texts,
            base,
            tr,
            s,
        ).subrange(0, k + 1),
{
}

} // verus!
