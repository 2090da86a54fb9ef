//! Generation of the chunks of the world.
//!
//! A chunk is generated block by block from a sampler. Its boundary is
//! sampled first; where every boundary block is the same, the chunk is
//! taken to be that block throughout.
use crate::vec::{Vec2, Vec3};
use crate::voxel::block::Block;
use crate::voxel::volume::{in_box, VoxelModel};
use vstd::prelude::*;

verus! {

/// The side of a chunk, in blocks.
pub const CHUNK_SIDE: u32 = 32;

/// The highest layer of chunks that holds anything but air.
pub const TOP_CHUNK: i32 = 16;

/// A chunk of one block throughout.
#[derive(Clone, Copy, Debug)]
pub struct HomogeneousData {
    pub size: (u32, u32, u32),
    pub block: Block,
}

/// A chunk: one block throughout, or a block at each position.
pub enum Chunk {
    Homo(HomogeneousData),
    Hetero(VoxelModel<Block>),
}

/// The extent of a chunk.
pub open spec fn chunk_size() -> (u32, u32, u32) {
    (CHUNK_SIDE, CHUNK_SIDE, CHUNK_SIDE)
}

/// The world position of the block at `(x, y, z)` of the chunk at `offs`.
pub open spec fn world_pos(offs: (i32, i32, i32), x: int, y: int, z: int) -> Vec3 {
    Vec3 {
        x: (offs.0 * CHUNK_SIDE + x) as i64,
        y: (offs.1 * CHUNK_SIDE + y) as i64,
        z: (offs.2 * CHUNK_SIDE + z) as i64,
    }
}

/// `(x, y, z)` lies on a face of the chunk.
pub open spec fn on_boundary(x: int, y: int, z: int) -> bool {
    x == 0 || x == CHUNK_SIDE - 1 || y == 0 || y == CHUNK_SIDE - 1 || z == 0 || z == CHUNK_SIDE - 1
}

/// The sampler may give `b` at `p`: for some column data that `column` may
/// give for the column of `p`, `block` may give `b`.
pub open spec fn possible<C, FC: Fn(Vec2) -> C, FB: Fn(Vec3, &C) -> Block>(
    column: FC,
    block: FB,
    p: Vec3,
    b: Block,
) -> bool {
    exists|c: C| call_ensures(column, (Vec2 { x: p.x, y: p.y },), c) && call_ensures(block, (p, &c), b)
}

/// The chunk at `offs` lies above or below the layers that hold anything.
pub open spec fn out_of_range(offs: (i32, i32, i32)) -> bool {
    offs.2 < 0 || offs.2 > TOP_CHUNK
}

/// The block of the chunk at `(x, y, z)` is one the sampler may give there.
pub open spec fn sampled<C, FC: Fn(Vec2) -> C, FB: Fn(Vec3, &C) -> Block>(
    column: FC,
    block: FB,
    offs: (i32, i32, i32),
    m: VoxelModel<Block>,
    x: int,
    y: int,
    z: int,
) -> bool {
    m.voxel(x, y, z) matches Some(b) && possible(column, block, world_pos(offs, x, y, z), b)
}

/// The position of the `t`th block of the faces across x: the faces at
/// x = 0 and x = 31, each row by row, corners and edges left out.
pub open spec fn face_x(t: int) -> (int, int, int) {
    ((t / 900) * 31, (t % 900) / 30 + 1, t % 30 + 1)
}

/// The position of the `t`th block of the faces across y, edges along z
/// left out.
pub open spec fn face_y(t: int) -> (int, int, int) {
    (t / 60, ((t % 60) / 30) * 31, t % 30 + 1)
}

/// The position of the `t`th block of the faces across z.
pub open spec fn face_z(t: int) -> (int, int, int) {
    (t / 64, (t % 64) / 2, (t % 2) * 31)
}

/// The position of the `t`th block of the interior.
pub open spec fn interior(t: int) -> (int, int, int) {
    (t / 900 + 1, (t % 900) / 30 + 1, t % 30 + 1)
}

/// Whether `(x, y, z)` is among the first `n` blocks of the faces across x.
pub open spec fn done_x(n: int, x: int, y: int, z: int) -> bool {
    (x == 0 || x == 31) && 1 <= y <= 30 && 1 <= z <= 30 && (x / 31) * 900 + (y - 1) * 30 + (z - 1) < n
}

pub open spec fn done_y(n: int, x: int, y: int, z: int) -> bool {
    0 <= x <= 31 && (y == 0 || y == 31) && 1 <= z <= 30 && x * 60 + (y / 31) * 30 + (z - 1) < n
}

pub open spec fn done_z(n: int, x: int, y: int, z: int) -> bool {
    0 <= x <= 31 && 0 <= y <= 31 && (z == 0 || z == 31) && x * 64 + y * 2 + z / 31 < n
}

pub open spec fn done_interior(n: int, x: int, y: int, z: int) -> bool {
    1 <= x <= 30 && 1 <= y <= 30 && 1 <= z <= 30 && (x - 1) * 900 + (y - 1) * 30 + (z - 1) < n
}

proof fn lemma_step_x(t: int)
    requires
        0 <= t < 1800,
    ensures
        forall|x: int, y: int, z: int|
            #![trigger done_x(t + 1, x, y, z)]
            done_x(t + 1, x, y, z) <==> (done_x(t, x, y, z) || (x, y, z) == face_x(t)),
        in_box(chunk_size(), face_x(t).0, face_x(t).1, face_x(t).2),
{
    assert forall|x: int, y: int, z: int| done_x(t + 1, x, y, z) <==> (done_x(t, x, y, z) || (x, y, z) == face_x(t)) by {
        if done_x(t + 1, x, y, z) && !done_x(t, x, y, z) {
            assert(x / 31 == 0 || x / 31 == 1);
            assert((x / 31) * 900 + (y - 1) * 30 + (z - 1) == t);
        }
    }
}

proof fn lemma_step_y(t: int)
    requires
        0 <= t < 1920,
    ensures
        forall|x: int, y: int, z: int|
            #![trigger done_y(t + 1, x, y, z)]
            done_y(t + 1, x, y, z) <==> (done_y(t, x, y, z) || (x, y, z) == face_y(t)),
        in_box(chunk_size(), face_y(t).0, face_y(t).1, face_y(t).2),
{
    assert forall|x: int, y: int, z: int| done_y(t + 1, x, y, z) <==> (done_y(t, x, y, z) || (x, y, z) == face_y(t)) by {
        if done_y(t + 1, x, y, z) && !done_y(t, x, y, z) {
            assert(y / 31 == 0 || y / 31 == 1);
            assert(x * 60 + (y / 31) * 30 + (z - 1) == t);
        }
    }
}

proof fn lemma_step_z(t: int)
    requires
        0 <= t < 2048,
    ensures
        forall|x: int, y: int, z: int|
            #![trigger done_z(t + 1, x, y, z)]
            done_z(t + 1, x, y, z) <==> (done_z(t, x, y, z) || (x, y, z) == face_z(t)),
        in_box(chunk_size(), face_z(t).0, face_z(t).1, face_z(t).2),
{
    assert forall|x: int, y: int, z: int| done_z(t + 1, x, y, z) <==> (done_z(t, x, y, z) || (x, y, z) == face_z(t)) by {
        if done_z(t + 1, x, y, z) && !done_z(t, x, y, z) {
            assert(z / 31 == 0 || z / 31 == 1);
            assert(x * 64 + y * 2 + z / 31 == t);
        }
    }
}

proof fn lemma_step_interior(t: int)
    requires
        0 <= t < 27000,
    ensures
        forall|x: int, y: int, z: int|
            #![trigger done_interior(t + 1, x, y, z)]
            done_interior(t + 1, x, y, z) <==> (done_interior(t, x, y, z) || (x, y, z) == interior(t)),
        in_box(chunk_size(), interior(t).0, interior(t).1, interior(t).2),
        !on_boundary(interior(t).0, interior(t).1, interior(t).2),
{
    assert forall|x: int, y: int, z: int| done_interior(t + 1, x, y, z) <==> (done_interior(t, x, y, z) || (x, y, z) == interior(t)) by {
        if done_interior(t + 1, x, y, z) && !done_interior(t, x, y, z) {
            assert((x - 1) * 900 + (y - 1) * 30 + (z - 1) == t);
        }
    }
}

/// Every block on the faces is among those of the three face passes, and
/// every other block of the chunk among those of the interior pass.
proof fn lemma_covered(x: int, y: int, z: int)
    requires
        in_box(chunk_size(), x, y, z),
    ensures
        on_boundary(x, y, z) ==> done_x(1800, x, y, z) || done_y(1920, x, y, z) || done_z(2048, x, y, z),
        !on_boundary(x, y, z) ==> done_interior(27000, x, y, z),
        done_x(1800, x, y, z) || done_y(1920, x, y, z) || done_z(2048, x, y, z) ==> on_boundary(x, y, z),
{
}

/// The homogeneity check after seeing `b`: the first block seen is kept
/// while every later one equals it; a different one ends the check.
pub open spec fn spec_note(state: (bool, Option<Block>), b: Block) -> (bool, Option<Block>) {
    match state {
        (true, None) => (true, Some(b)),
        (true, Some(first)) => if first == b {
            state
        } else {
            (false, None)
        },
        _ => state,
    }
}

/// Samples the block at `(x, y, z)` of the chunk at `offs` into `chunk`,
/// and notes it in the homogeneity check.
fn gen_block<C, FC: Fn(Vec2) -> C, FB: Fn(Vec3, &C) -> Block>(
    offs: (i32, i32, i32),
    column: &FC,
    block: &FB,
    chunk: &mut VoxelModel<Block>,
    state: &mut (bool, Option<Block>),
    x: u32,
    y: u32,
    z: u32,
)
    requires
        in_box(chunk_size(), x as int, y as int, z as int),
        old(chunk).model_size() == chunk_size(),
        forall|p: Vec2| call_requires(*column, (p,)),
        forall|p: Vec3, c: &C| call_requires(*block, (p, c)),
    ensures
        final(chunk).model_size() == chunk_size(),
        final(chunk).voxel(x as int, y as int, z as int) matches Some(b) && possible(
            *column,
            *block,
            world_pos(offs, x as int, y as int, z as int),
            b,
        ) && *final(state) == spec_note(*old(state), b),
        forall|i: int, j: int, k: int|
            !(i == x && j == y && k == z) ==> #[trigger] final(chunk).voxel(i, j, k) == old(chunk).voxel(i, j, k),
{
    let pos = Vec3::new(
        offs.0 as i64 * 32 + x as i64,
        offs.1 as i64 * 32 + y as i64,
        offs.2 as i64 * 32 + z as i64,
    );
    let c = column(pos.xy());
    let b = block(pos, &c);
    assert(pos == world_pos(offs, x as int, y as int, z as int));
    assert(possible(*column, *block, pos, b));
    let next = match *state {
        (true, None) => (true, Some(b)),
        (true, Some(first)) => if first == b {
            *state
        } else {
            (false, None)
        },
        _ => *state,
    };
    *state = next;
    chunk.set_at((x, y, z), b);
}

/// Samples the block at `(x, y, z)` of the chunk at `offs` into `chunk`,
/// with the data `c` of its column.
fn gen_column_block<C, FC: Fn(Vec2) -> C, FB: Fn(Vec3, &C) -> Block>(
    offs: (i32, i32, i32),
    column: &FC,
    c: &C,
    block: &FB,
    chunk: &mut VoxelModel<Block>,
    x: u32,
    y: u32,
    z: u32,
)
    requires
        in_box(chunk_size(), x as int, y as int, z as int),
        old(chunk).model_size() == chunk_size(),
        call_ensures(*column, (Vec2 { x: world_pos(offs, x as int, y as int, 0).x, y: world_pos(offs, x as int, y as int, 0).y },), *c),
        forall|p: Vec3, c: &C| call_requires(*block, (p, c)),
    ensures
        final(chunk).model_size() == chunk_size(),
        sampled(*column, *block, offs, *final(chunk), x as int, y as int, z as int),
        forall|i: int, j: int, k: int|
            !(i == x && j == y && k == z) ==> #[trigger] final(chunk).voxel(i, j, k) == old(chunk).voxel(i, j, k),
{
    let pos = Vec3::new(
        offs.0 as i64 * 32 + x as i64,
        offs.1 as i64 * 32 + y as i64,
        offs.2 as i64 * 32 + z as i64,
    );
    let b = block(pos, c);
    assert(pos == world_pos(offs, x as int, y as int, z as int));
    assert(possible(*column, *block, pos, b));
    chunk.set_at((x, y, z), b);
}

/// The blocks of the first `na`, `nb` and `nc` blocks of the three face
/// passes.
pub open spec fn processed(na: int, nb: int, nc: int, x: int, y: int, z: int) -> bool {
    done_x(na, x, y, z) || done_y(nb, x, y, z) || done_z(nc, x, y, z)
}

/// What holds during the face passes: every block sampled so far holds a
/// block the sampler may give there; while the check has not failed, all of
/// them are its first block; once it has failed, the block at `w` differs
/// from the first one sampled, at `(0, 1, 1)`.
pub open spec fn faces_inv<C, FC: Fn(Vec2) -> C, FB: Fn(Vec3, &C) -> Block>(
    column: FC,
    block: FB,
    offs: (i32, i32, i32),
    chunk: VoxelModel<Block>,
    state: (bool, Option<Block>),
    na: int,
    nb: int,
    nc: int,
    w: (int, int, int),
) -> bool {
    &&& chunk.model_size() == chunk_size()
    &&& forall|x: int, y: int, z: int|
        #[trigger] processed(na, nb, nc, x, y, z) ==> sampled(column, block, offs, chunk, x, y, z)
    &&& state.0 ==> (state.1 is None <==> na + nb + nc == 0)
    &&& state.1 matches Some(b) ==> state.0 && forall|x: int, y: int, z: int|
        #[trigger] processed(na, nb, nc, x, y, z) ==> chunk.voxel(x, y, z) == Some(b)
    &&& !state.0 ==> processed(na, nb, nc, w.0, w.1, w.2) && processed(na, nb, nc, 0, 1, 1)
        && chunk.voxel(w.0, w.1, w.2) != chunk.voxel(0, 1, 1)
}

/// One more face block sampled keeps the face passes' invariant.
proof fn lemma_faces_step<C, FC: Fn(Vec2) -> C, FB: Fn(Vec3, &C) -> Block>(
    column: FC,
    block: FB,
    offs: (i32, i32, i32),
    old_chunk: VoxelModel<Block>,
    new_chunk: VoxelModel<Block>,
    old_state: (bool, Option<Block>),
    new_state: (bool, Option<Block>),
    n: (int, int, int),
    m: (int, int, int),
    q: (int, int, int),
    b: Block,
    w: (int, int, int),
) -> (w2: (int, int, int))
    requires
        faces_inv(column, block, offs, old_chunk, old_state, n.0, n.1, n.2, w),
        0 <= n.0 && 0 <= n.1 && 0 <= n.2,
        n.0 + n.1 + n.2 > 0 ==> processed(n.0, n.1, n.2, 0, 1, 1),
        n.0 + n.1 + n.2 == 0 ==> q == (0int, 1int, 1int),
        !processed(n.0, n.1, n.2, q.0, q.1, q.2),
        m.0 + m.1 + m.2 == n.0 + n.1 + n.2 + 1,
        new_chunk.model_size() == chunk_size(),
        new_chunk.voxel(q.0, q.1, q.2) == Some(b),
        possible(column, block, world_pos(offs, q.0, q.1, q.2), b),
        new_state == spec_note(old_state, b),
        forall|i: int, j: int, k: int|
            !(i == q.0 && j == q.1 && k == q.2) ==> #[trigger] new_chunk.voxel(i, j, k) == old_chunk.voxel(i, j, k),
        forall|i: int, j: int, k: int|
            #[trigger] processed(m.0, m.1, m.2, i, j, k) <==> (processed(n.0, n.1, n.2, i, j, k) || (i, j, k) == q),
    ensures
        faces_inv(column, block, offs, new_chunk, new_state, m.0, m.1, m.2, w2),
{
    assert forall|i: int, j: int, k: int| #[trigger] processed(m.0, m.1, m.2, i, j, k) implies sampled(
        column,
        block,
        offs,
        new_chunk,
        i,
        j,
        k,
    ) by {
        if !((i, j, k) == q) {
            assert(processed(n.0, n.1, n.2, i, j, k));
            assert(new_chunk.voxel(i, j, k) == old_chunk.voxel(i, j, k));
        }
    }
    if new_state.1 is Some {
        let nb = new_state.1->0;
        assert forall|i: int, j: int, k: int| #[trigger] processed(m.0, m.1, m.2, i, j, k) implies new_chunk.voxel(i, j, k)
            == Some(nb) by {
            if !((i, j, k) == q) {
                assert(processed(n.0, n.1, n.2, i, j, k));
                assert(new_chunk.voxel(i, j, k) == old_chunk.voxel(i, j, k));
                if old_state.1 is None {
                    assert(n.0 + n.1 + n.2 == 0);
                    assert(!processed(n.0, n.1, n.2, i, j, k));
                }
            }
        }
    }
    assert(processed(m.0, m.1, m.2, q.0, q.1, q.2));
    assert(processed(m.0, m.1, m.2, 0, 1, 1));
    if old_state.0 && !new_state.0 {
        assert(processed(n.0, n.1, n.2, 0, 1, 1));
        assert(q != (0int, 1int, 1int));
        assert(new_chunk.voxel(0, 1, 1) == old_chunk.voxel(0, 1, 1));
        q
    } else {
        if !old_state.0 {
            assert(processed(m.0, m.1, m.2, w.0, w.1, w.2));
            assert(w != q);
            assert(new_chunk.voxel(w.0, w.1, w.2) == old_chunk.voxel(w.0, w.1, w.2));
            assert(new_chunk.voxel(0, 1, 1) == old_chunk.voxel(0, 1, 1));
        }
        w
    }
}

proof fn lemma_interior_index(u: int, k: int)
    requires
        0 <= u < 900,
        0 <= k < 30,
    ensures
        interior(u * 30 + k) == (u / 30 + 1, u % 30 + 1, k + 1),
        0 <= u * 30 + k < 27000,
        u * 30 + k + 1 == u * 30 + (k + 1),
{
    assert((u * 30 + k) / 900 == u / 30) by (nonlinear_arith)
        requires
            0 <= u < 900,
            0 <= k < 30,
    ;
    assert(((u * 30 + k) % 900) / 30 == u % 30) by (nonlinear_arith)
        requires
            0 <= u < 900,
            0 <= k < 30,
    ;
    assert((u * 30 + k) % 30 == k) by (nonlinear_arith)
        requires
            0 <= u < 900,
            0 <= k < 30,
    ;
}

/// What `gen_chunk` gives for the chunk at `offs`: air out of the layers
/// that hold anything; else either one block whose every boundary cell the
/// samplers may give, or every cell sampled, with two boundary cells that
/// differ.
pub open spec fn spec_chunk_result<C, FC: Fn(Vec2) -> C, FB: Fn(Vec3, &C) -> Block>(
    column: FC,
    block: FB,
    offs: (i32, i32, i32),
    r: Chunk,
) -> bool {
    &&& out_of_range(offs) ==> (r matches Chunk::Homo(h) && h.size == chunk_size() && h.block
            == Block::spec_air())
    &&& !out_of_range(offs) ==> match r {
            Chunk::Homo(h) => {
                &&& h.size == chunk_size()
                &&& forall|x: int, y: int, z: int|
                    in_box(chunk_size(), x, y, z) && on_boundary(x, y, z) ==> possible(
                        column,
                        block,
                        #[trigger] world_pos(offs, x, y, z),
                        h.block,
                    )
            },
            Chunk::Hetero(m) => {
                &&& m.model_size() == chunk_size()
                &&& forall|x: int, y: int, z: int|
                    in_box(chunk_size(), x, y, z) ==> #[trigger] sampled(column, block, offs, m, x, y, z)
                &&& exists|x1: int, y1: int, z1: int, x2: int, y2: int, z2: int|
                    #![trigger m.voxel(x1, y1, z1), m.voxel(x2, y2, z2)]
                    in_box(chunk_size(), x1, y1, z1) && on_boundary(x1, y1, z1) && in_box(
                        chunk_size(),
                        x2,
                        y2,
                        z2,
                    ) && on_boundary(x2, y2, z2) && m.voxel(x1, y1, z1) != m.voxel(x2, y2, z2)
            },
        }
}

/// The samplers may give `b` at every boundary cell of the chunk at `offs`.
pub open spec fn uniform_boundary<C, FC: Fn(Vec2) -> C, FB: Fn(Vec3, &C) -> Block>(
    column: FC,
    block: FB,
    offs: (i32, i32, i32),
    b: Block,
) -> bool {
    forall|x: int, y: int, z: int|
        in_box(chunk_size(), x, y, z) && on_boundary(x, y, z) ==> possible(
            column,
            block,
            #[trigger] world_pos(offs, x, y, z),
            b,
        )
}

/// Each sampler gives one output for each input.
pub open spec fn deterministic<C, FC: Fn(Vec2) -> C, FB: Fn(Vec3, &C) -> Block>(column: FC, block: FB) -> bool {
    &&& forall|q: Vec2, c1: C, c2: C|
        #![trigger call_ensures(column, (q,), c1), call_ensures(column, (q,), c2)]
        call_ensures(column, (q,), c1) && call_ensures(column, (q,), c2) ==> c1 == c2
    &&& forall|p: Vec3, c: C, b1: Block, b2: Block|
        #![trigger call_ensures(block, (p, &c), b1), call_ensures(block, (p, &c), b2)]
        call_ensures(block, (p, &c), b1) && call_ensures(block, (p, &c), b2) ==> b1 == b2
}

/// Deterministic samplers give at most one block at each position.
proof fn lemma_possible_unique<C, FC: Fn(Vec2) -> C, FB: Fn(Vec3, &C) -> Block>(
    column: FC,
    block: FB,
    p: Vec3,
    b1: Block,
    b2: Block,
)
    requires
        deterministic(column, block),
        possible(column, block, p, b1),
        possible(column, block, p, b2),
    ensures
        b1 == b2,
{
    let c1 = choose|c: C| call_ensures(column, (Vec2 { x: p.x, y: p.y },), c) && call_ensures(block, (p, &c), b1);
    let c2 = choose|c: C| call_ensures(column, (Vec2 { x: p.x, y: p.y },), c) && call_ensures(block, (p, &c), b2);
    assert(c1 == c2);
    assert(call_ensures(block, (p, &c1), b2));
}

/// With samplers that give one block at each position, the chunk in the
/// layers that hold anything is one block exactly when every boundary cell
/// samples to that block; a uniform chunk's block is what every boundary
/// cell samples to, and a mixed chunk holds at every cell what it samples to.
pub proof fn lemma_chunk_follows_boundary<C, FC: Fn(Vec2) -> C, FB: Fn(Vec3, &C) -> Block>(
    column: FC,
    block: FB,
    offs: (i32, i32, i32),
    r: Chunk,
)
    requires
        spec_chunk_result(column, block, offs, r),
        !out_of_range(offs),
        deterministic(column, block),
    ensures
        r is Homo <==> exists|b: Block| #[trigger] uniform_boundary(column, block, offs, b),
        r matches Chunk::Homo(h) ==> forall|x: int, y: int, z: int, b: Block|
            in_box(chunk_size(), x, y, z) && on_boundary(x, y, z) && #[trigger] possible(
                column,
                block,
                world_pos(offs, x, y, z),
                b,
            ) ==> b == h.block,
        r matches Chunk::Hetero(m) ==> forall|x: int, y: int, z: int, b: Block|
            in_box(chunk_size(), x, y, z) && #[trigger] possible(column, block, world_pos(offs, x, y, z), b)
                ==> m.voxel(x, y, z) == Some(b),
{
    match r {
        Chunk::Homo(h) => {
            assert(uniform_boundary(column, block, offs, h.block));
            assert forall|x: int, y: int, z: int, b: Block|
                in_box(chunk_size(), x, y, z) && on_boundary(x, y, z) && #[trigger] possible(
                    column,
                    block,
                    world_pos(offs, x, y, z),
                    b,
                ) implies b == h.block by {
                lemma_possible_unique(column, block, world_pos(offs, x, y, z), b, h.block);
            }
        },
        Chunk::Hetero(m) => {
            assert forall|x: int, y: int, z: int, b: Block|
                in_box(chunk_size(), x, y, z) && #[trigger] possible(column, block, world_pos(offs, x, y, z), b)
                implies m.voxel(x, y, z) == Some(b) by {
                assert(sampled(column, block, offs, m, x, y, z));
                lemma_possible_unique(column, block, world_pos(offs, x, y, z), b, m.voxel(x, y, z)->0);
            }
            if exists|b: Block| #[trigger] uniform_boundary(column, block, offs, b) {
                let b = choose|b: Block| #[trigger] uniform_boundary(column, block, offs, b);
                let (x1, y1, z1, x2, y2, z2) = choose|x1: int, y1: int, z1: int, x2: int, y2: int, z2: int|
                    #![trigger m.voxel(x1, y1, z1), m.voxel(x2, y2, z2)]
                    in_box(chunk_size(), x1, y1, z1) && on_boundary(x1, y1, z1) && in_box(
                        chunk_size(),
                        x2,
                        y2,
                        z2,
                    ) && on_boundary(x2, y2, z2) && m.voxel(x1, y1, z1) != m.voxel(x2, y2, z2);
                assert(possible(column, block, world_pos(offs, x1, y1, z1), b));
                assert(possible(column, block, world_pos(offs, x2, y2, z2), b));
                assert(m.voxel(x1, y1, z1) == Some(b));
                assert(m.voxel(x2, y2, z2) == Some(b));
            }
        },
    }
}

/// The world: where chunks come from.
pub struct World;

impl World {
    /// The chunk at `offs`. Out of the layers that hold anything it is air.
    /// Otherwise its faces are sampled first: when every face block is the
    /// same, the chunk is that block throughout; else the rest is sampled too,
    /// column by column.
#[verifier::spinoff_prover]
    pub fn gen_chunk<C, FC: Fn(Vec2) -> C, FB: Fn(Vec3, &C) -> Block>(
        offs: (i32, i32, i32),
        column: &FC,
        block: &FB,
    ) -> (r: Chunk)
        requires
            forall|p: Vec2| call_requires(*column, (p,)),
            forall|p: Vec3, c: &C| call_requires(*block, (p, c)),
        ensures
            spec_chunk_result(*column, *block, offs, r),
    {
        if offs.2 < 0 || offs.2 > TOP_CHUNK {
            return Chunk::Homo(HomogeneousData { size: (CHUNK_SIDE, CHUNK_SIDE, CHUNK_SIDE), block: Block::air() });
        }
        let mut chunk = VoxelModel::filled((CHUNK_SIDE, CHUNK_SIDE, CHUNK_SIDE), Block::air());
        let mut state: (bool, Option<Block>) = (true, None);
        let ghost mut w: (int, int, int) = (0, 1, 1);
        let mut t: u32 = 0;
        while t < 1800
            invariant
                t <= 1800,
                forall|p: Vec2| call_requires(*column, (p,)),
                forall|p: Vec3, c: &C| call_requires(*block, (p, c)),
                faces_inv(*column, *block, offs, chunk, state, t as int, 0, 0, w),
            decreases 1800 - t,
        {
            proof {
                lemma_step_x(t as int);
            }
            let ghost (old_chunk, old_state) = (chunk, state);
            let (x, y, z) = ((t / 900) * 31, (t % 900) / 30 + 1, t % 30 + 1);
            gen_block(offs, column, block, &mut chunk, &mut state, x, y, z);
            proof {
                let b = chunk.voxel(x as int, y as int, z as int)->0;
                assert forall|i: int, j: int, k: int| #[trigger] processed(t + 1, 0, 0, i, j, k) <==> (processed(t as int, 0, 0, i, j, k) || (i, j, k) == (x as int, y as int, z as int)) by {
                    assert(done_x(t + 1, i, j, k) <==> (done_x(t as int, i, j, k) || (i, j, k) == face_x(t as int)));
                }
                assert(!done_x(t as int, x as int, y as int, z as int));
                assert(t > 0 ==> done_x(t as int, 0, 1, 1));
                w = lemma_faces_step(*column, *block, offs, old_chunk, chunk, old_state, state, (t as int, 0, 0), (t + 1, 0, 0), (x as int, y as int, z as int), b, w);
            }
            t += 1;
        }
        let mut t: u32 = 0;
        while t < 1920
            invariant
                t <= 1920,
                forall|p: Vec2| call_requires(*column, (p,)),
                forall|p: Vec3, c: &C| call_requires(*block, (p, c)),
                faces_inv(*column, *block, offs, chunk, state, 1800, t as int, 0, w),
            decreases 1920 - t,
        {
            proof {
                lemma_step_y(t as int);
            }
            let ghost (old_chunk, old_state) = (chunk, state);
            let (x, y, z) = (t / 60, ((t % 60) / 30) * 31, t % 30 + 1);
            gen_block(offs, column, block, &mut chunk, &mut state, x, y, z);
            proof {
                let b = chunk.voxel(x as int, y as int, z as int)->0;
                assert forall|i: int, j: int, k: int| #[trigger] processed(1800, t + 1, 0, i, j, k) <==> (processed(1800, t as int, 0, i, j, k) || (i, j, k) == (x as int, y as int, z as int)) by {
                    assert(done_y(t + 1, i, j, k) <==> (done_y(t as int, i, j, k) || (i, j, k) == face_y(t as int)));
                    if (i, j, k) == (x as int, y as int, z as int) {
                        assert(!done_x(1800, i, j, k));
                    }
                }
                assert(!done_x(1800, x as int, y as int, z as int));
                assert(!done_y(t as int, x as int, y as int, z as int));
                assert(done_x(1800, 0, 1, 1));
                w = lemma_faces_step(*column, *block, offs, old_chunk, chunk, old_state, state, (1800, t as int, 0), (1800, t + 1, 0), (x as int, y as int, z as int), b, w);
            }
            t += 1;
        }
        let mut t: u32 = 0;
        while t < 2048
            invariant
                t <= 2048,
                forall|p: Vec2| call_requires(*column, (p,)),
                forall|p: Vec3, c: &C| call_requires(*block, (p, c)),
                faces_inv(*column, *block, offs, chunk, state, 1800, 1920, t as int, w),
            decreases 2048 - t,
        {
            proof {
                lemma_step_z(t as int);
            }
            let ghost (old_chunk, old_state) = (chunk, state);
            let (x, y, z) = (t / 64, (t % 64) / 2, (t % 2) * 31);
            gen_block(offs, column, block, &mut chunk, &mut state, x, y, z);
            proof {
                let b = chunk.voxel(x as int, y as int, z as int)->0;
                assert forall|i: int, j: int, k: int| #[trigger] processed(1800, 1920, t + 1, i, j, k) <==> (processed(1800, 1920, t as int, i, j, k) || (i, j, k) == (x as int, y as int, z as int)) by {
                    assert(done_z(t + 1, i, j, k) <==> (done_z(t as int, i, j, k) || (i, j, k) == face_z(t as int)));
                    if (i, j, k) == (x as int, y as int, z as int) {
                        assert(!done_x(1800, i, j, k));
                        assert(!done_y(1920, i, j, k));
                    }
                }
                assert(!done_x(1800, x as int, y as int, z as int));
                assert(!done_y(1920, x as int, y as int, z as int));
                assert(!done_z(t as int, x as int, y as int, z as int));
                assert(done_x(1800, 0, 1, 1));
                w = lemma_faces_step(*column, *block, offs, old_chunk, chunk, old_state, state, (1800, 1920, t as int), (1800, 1920, t + 1), (x as int, y as int, z as int), b, w);
            }
            t += 1;
        }
        match state {
            (true, Some(b)) => {
                proof {
                    assert forall|x: int, y: int, z: int|
                        in_box(chunk_size(), x, y, z) && on_boundary(x, y, z) implies possible(
                            *column,
                            *block,
                            #[trigger] world_pos(offs, x, y, z),
                            b,
                        ) by {
                        lemma_covered(x, y, z);
                        assert(processed(1800, 1920, 2048, x, y, z));
                    }
                }
                return Chunk::Homo(HomogeneousData { size: (CHUNK_SIDE, CHUNK_SIDE, CHUNK_SIDE), block: b });
            },
            _ => {},
        }
        assert(!state.0);
        let ghost faces = chunk;
        let mut u: u32 = 0;
        while u < 900
            invariant
                u <= 900,
                forall|p: Vec2| call_requires(*column, (p,)),
                forall|p: Vec3, c: &C| call_requires(*block, (p, c)),
                chunk.model_size() == chunk_size(),
                forall|x: int, y: int, z: int|
                    #[trigger] processed(1800, 1920, 2048, x, y, z) ==> sampled(*column, *block, offs, chunk, x, y, z),
                forall|x: int, y: int, z: int|
                    #[trigger] done_interior(u * 30, x, y, z) ==> sampled(*column, *block, offs, chunk, x, y, z),
                forall|x: int, y: int, z: int| on_boundary(x, y, z) ==> #[trigger] chunk.voxel(x, y, z) == faces.voxel(x, y, z),
            decreases 900 - u,
        {
            let x = u / 30 + 1;
            let y = u % 30 + 1;
            let pos2d = Vec2::new(offs.0 as i64 * 32 + x as i64, offs.1 as i64 * 32 + y as i64);
            let c = column(pos2d);
            let mut z: u32 = 1;
            while z < 31
                invariant
                    1 <= z <= 31,
                    u < 900,
                    x == u / 30 + 1,
                    y == u % 30 + 1,
                    call_ensures(*column, (Vec2 { x: world_pos(offs, x as int, y as int, 0).x, y: world_pos(offs, x as int, y as int, 0).y },), c),
                    forall|p: Vec3, c: &C| call_requires(*block, (p, c)),
                    chunk.model_size() == chunk_size(),
                    forall|i: int, j: int, k: int|
                        #[trigger] processed(1800, 1920, 2048, i, j, k) ==> sampled(*column, *block, offs, chunk, i, j, k),
                    forall|i: int, j: int, k: int|
                        #[trigger] done_interior(u * 30 + (z - 1), i, j, k) ==> sampled(*column, *block, offs, chunk, i, j, k),
                    forall|i: int, j: int, k: int| on_boundary(i, j, k) ==> #[trigger] chunk.voxel(i, j, k) == faces.voxel(i, j, k),
                decreases 31 - z,
            {
                proof {
                    lemma_interior_index(u as int, z - 1);
                    lemma_step_interior(u * 30 + (z - 1));
                }
                gen_column_block(offs, column, &c, block, &mut chunk, x, y, z);
                proof {
                    assert forall|i: int, j: int, k: int|
                        #[trigger] processed(1800, 1920, 2048, i, j, k) implies sampled(*column, *block, offs, chunk, i, j, k) by {
                        lemma_covered(i, j, k);
                    }
                }
                z += 1;
            }
            assert((u + 1) * 30 == u * 30 + 30);
            assert forall|i: int, j: int, k: int| #[trigger] done_interior((u + 1) * 30, i, j, k) implies sampled(
                *column,
                *block,
                offs,
                chunk,
                i,
                j,
                k,
            ) by {
                assert(done_interior(u * 30 + (z - 1), i, j, k));
            }
            u += 1;
        }
        assert(u * 30 == 27000);
        proof {
            assert(processed(1800, 1920, 2048, w.0, w.1, w.2));
            assert(processed(1800, 1920, 2048, 0, 1, 1));
            lemma_covered(w.0, w.1, w.2);
            lemma_covered(0, 1, 1);
            assert(chunk.voxel(w.0, w.1, w.2) == faces.voxel(w.0, w.1, w.2));
            assert(chunk.voxel(0, 1, 1) == faces.voxel(0, 1, 1));
            assert forall|x: int, y: int, z: int| in_box(chunk_size(), x, y, z) implies #[trigger] sampled(*column, *block, offs, chunk, x, y, z) by {
                lemma_covered(x, y, z);
                if on_boundary(x, y, z) {
                    assert(processed(1800, 1920, 2048, x, y, z));
                } else {
                    assert(done_interior(27000, x, y, z));
                }
            }
        }
        Chunk::Hetero(chunk)
    }
}

} // verus!
