//! Placement of structures on a jittered grid of cells.
//!
//! Space is cut into square cells of side `freq`. Each cell holds one
//! candidate point, displaced from the cell centre by a pseudo-random
//! offset of at most `warp`. A position belongs to the nearest candidate
//! among the nine cells around it.
use crate::vec::{fits_i64, Vec2};
use crate::world::gen::Gen;
use vstd::prelude::*;

verus! {

/// The size of the `u64` range.
pub open spec fn u64_range() -> int {
    0x1_0000_0000_0000_0000
}

/// `v` reduced modulo the `u64` range, as `u64` arithmetic that wraps computes it.
pub open spec fn wrap(v: int) -> u64 {
    (v % u64_range()) as u64
}

pub open spec fn abs(v: int) -> int {
    if v < 0 {
        -v
    } else {
        v
    }
}

pub open spec fn spec_dist_by_euc(p: Vec2) -> int {
    p.x * p.x + p.y * p.y
}

pub open spec fn spec_dist_by_axis(p: Vec2) -> int {
    let ax = abs(p.x as int);
    let ay = abs(p.y as int);
    if ax >= ay {
        ax
    } else {
        ay
    }
}

/// The squared Euclidean length of `p`.
pub fn dist_by_euc(p: Vec2) -> (r: i64)
    requires
        spec_dist_by_euc(p) <= i64::MAX,
    ensures
        r == spec_dist_by_euc(p),
{
    assert(p.x * p.x >= 0 && p.y * p.y >= 0) by (nonlinear_arith);
    p.x * p.x + p.y * p.y
}

/// The largest absolute component of `p` (the Chebyshev length).
pub fn dist_by_axis(p: Vec2) -> (r: i64)
    requires
        p.x != i64::MIN,
        p.y != i64::MIN,
    ensures
        r == spec_dist_by_axis(p),
{
    let ax = if p.x < 0 {
        -p.x
    } else {
        p.x
    };
    let ay = if p.y < 0 {
        -p.y
    } else {
        p.y
    };
    if ax >= ay {
        ax
    } else {
        ay
    }
}

/// The distance function that a structure generator measures with.
#[derive(Clone, Copy, PartialEq, Eq, Structural, Debug)]
pub enum DistFn {
    /// `dist_by_euc`
    Euclidean,
    /// `dist_by_axis`
    Axis,
}

impl DistFn {
    pub open spec fn applies(self, p: Vec2) -> bool {
        match self {
            DistFn::Euclidean => spec_dist_by_euc(p) <= i64::MAX,
            DistFn::Axis => p.x != i64::MIN && p.y != i64::MIN,
        }
    }

    pub open spec fn spec_apply(self, p: Vec2) -> int {
        match self {
            DistFn::Euclidean => spec_dist_by_euc(p),
            DistFn::Axis => spec_dist_by_axis(p),
        }
    }

    pub fn apply(self, p: Vec2) -> (r: i64)
        requires
            self.applies(p),
        ensures
            r == self.spec_apply(p),
    {
        match self {
            DistFn::Euclidean => dist_by_euc(p),
            DistFn::Axis => dist_by_axis(p),
        }
    }
}

/// The pseudo-random number that `throw_dice` gives at `pos`: the
/// arithmetic below, each step taken modulo 2^64.
pub open spec fn spec_dice(pos: Vec2) -> u64 {
    let a = wrap(wrap(wrap((pos.x as u64) + 3232782181) * 1103515245) + 12343);
    let n = 327387278322u64 ^ a;
    let s = wrap(n + wrap((pos.y as u64) + 23728323237));
    327387278321u64 ^ wrap(wrap(s * 1103515245) + 12541)
}

proof fn lemma_wrapping_add(x: u64, y: u64)
    ensures
        x.wrapping_add(y) == wrap(x + y),
{
    if x + y > u64::MAX {
        assert((x + y) % u64_range() == x + y - u64_range());
    } else {
        assert((x + y) % u64_range() == x + y);
    }
}

pub struct StructureGen {
    freq: u64,
    warp: u64,
    seed: u32,
    dist_func: DistFn,
}

impl StructureGen {
    /// The side of a cell.
    pub closed spec fn freq(&self) -> u64 {
        self.freq
    }

    /// The range of a candidate's displacement from its cell's centre.
    pub closed spec fn warp(&self) -> u64 {
        self.warp
    }

    pub closed spec fn seed(&self) -> u32 {
        self.seed
    }

    pub closed spec fn dist_func(&self) -> DistFn {
        self.dist_func
    }

    pub fn new(freq: u64, warp: u64, seed: u32, dist_func: DistFn) -> (r: Self)
        ensures
            r.freq() == freq,
            r.warp() == warp,
            r.seed() == seed,
            r.dist_func() == dist_func,
    {
        Self { freq, warp, seed, dist_func }
    }

    /// A pseudo-random number for `pos`. Neither the generator's seed nor
    /// `seed` takes part in it: the same position always gives the same number.
    pub fn throw_dice(&self, pos: Vec2, seed: u32) -> (r: u64)
        ensures
            r == spec_dice(pos),
    {
        let a0 = (pos.x as u64).wrapping_add(3232782181);
        let a1 = a0.wrapping_mul(1103515245);
        let a = a1.wrapping_add(12343);
        let n = 327387278322u64 ^ a;
        let b = (pos.y as u64).wrapping_add(23728323237);
        let s = n.wrapping_add(b);
        let m = s.wrapping_mul(1103515245);
        let t = m.wrapping_add(12541);
        proof {
            lemma_wrapping_add(pos.x as u64, 3232782181);
            lemma_wrapping_add(a1, 12343);
            lemma_wrapping_add(pos.y as u64, 23728323237);
            lemma_wrapping_add(n, b);
            lemma_wrapping_add(m, 12541);
        }
        327387278321u64 ^ t
    }

    /// The generator's parameters are usable: cells have a positive side,
    /// and side and warp are values of `i64`.
    pub open spec fn params_ok(&self) -> bool {
        &&& 0 < self.freq()
        &&& self.freq() <= i64::MAX
        &&& self.warp() <= i64::MAX
    }

    /// The displacement of the candidate of cell `c` from the cell's centre
    /// (the same along both axes, since the dice does not depend on its seed).
    pub open spec fn spec_offset(&self, c: Vec2) -> int {
        if self.warp() > 0 {
            (spec_dice(c) % self.warp()) as int - (self.warp() / 2) as int
        } else {
            0
        }
    }

    /// The candidate's coordinate along one axis, for a cell coordinate `c`.
    pub open spec fn spec_cell_axis(&self, c: int, off: int) -> int {
        c * self.freq() + self.freq() / 2 + off
    }

    /// Every step of computing the candidate of cell `c` fits in `i64`.
    pub open spec fn cell_pos_fits(&self, c: Vec2) -> bool {
        let f = self.freq() as int;
        let off = self.spec_offset(c);
        &&& fits_i64(c.x * f)
        &&& fits_i64(c.x * f + f / 2)
        &&& fits_i64(c.x * f + f / 2 + off)
        &&& fits_i64(c.y * f)
        &&& fits_i64(c.y * f + f / 2)
        &&& fits_i64(c.y * f + f / 2 + off)
    }

    /// The candidate point of cell `c`.
    pub open spec fn spec_cell_pos(&self, c: Vec2) -> Vec2 {
        let off = self.spec_offset(c);
        Vec2 {
            x: self.spec_cell_axis(c.x as int, off) as i64,
            y: self.spec_cell_axis(c.y as int, off) as i64,
        }
    }

    fn cell_pos(&self, c: Vec2) -> (r: Vec2)
        requires
            self.params_ok(),
            self.cell_pos_fits(c),
        ensures
            r == self.spec_cell_pos(c),
    {
        let f = self.freq as i64;
        let (ox, oy) = if self.warp > 0 {
            let dx = self.throw_dice(c, 1337) % self.warp;
            let dy = self.throw_dice(c, 1338) % self.warp;
            ((dx as i64) - (self.warp as i64) / 2, (dy as i64) - (self.warp as i64) / 2)
        } else {
            (0i64, 0i64)
        };
        let x = c.x * f + f / 2 + ox;
        let y = c.y * f + f / 2 + oy;
        Vec2 { x, y }
    }

    /// The cell that holds `pos`.
    pub open spec fn spec_cell_coord(&self, pos: Vec2) -> Vec2 {
        Vec2 { x: ((pos.x as int) / (self.freq() as int)) as i64, y: ((pos.y as int) / (self.freq() as int)) as i64 }
    }

    /// The `k`th of the nine cells around `pos`, row by row.
    pub open spec fn spec_neighbour(&self, pos: Vec2, k: int) -> Vec2 {
        let cc = self.spec_cell_coord(pos);
        Vec2 { x: (cc.x + (k / 3 - 1)) as i64, y: (cc.y + (k % 3 - 1)) as i64 }
    }

    /// The candidate point of the `k`th cell around `pos`.
    pub open spec fn spec_candidate(&self, pos: Vec2, k: int) -> Vec2 {
        self.spec_cell_pos(self.spec_neighbour(pos, k))
    }

    /// The offset from `pos` to the `k`th candidate.
    pub open spec fn spec_candidate_rel(&self, pos: Vec2, k: int) -> Vec2 {
        let cp = self.spec_candidate(pos, k);
        Vec2 { x: (cp.x - pos.x) as i64, y: (cp.y - pos.y) as i64 }
    }

    /// The distance from `pos` to the `k`th candidate.
    pub open spec fn spec_candidate_dist(&self, pos: Vec2, k: int) -> int {
        self.dist_func().spec_apply(self.spec_candidate_rel(pos, k))
    }

    /// Every step of measuring the `k`th candidate of `pos` fits in `i64`.
    pub open spec fn candidate_fits(&self, pos: Vec2, k: int) -> bool {
        let cc = self.spec_cell_coord(pos);
        let c = self.spec_neighbour(pos, k);
        let cp = self.spec_cell_pos(c);
        &&& fits_i64(cc.x + (k / 3 - 1))
        &&& fits_i64(cc.y + (k % 3 - 1))
        &&& self.cell_pos_fits(c)
        &&& fits_i64(cp.x - pos.x)
        &&& fits_i64(cp.y - pos.y)
        &&& self.dist_func().applies(self.spec_candidate_rel(pos, k))
    }

    /// `pos` can be sampled: the parameters are usable and all nine
    /// candidates can be measured.
    pub open spec fn sample_ok(&self, pos: Vec2) -> bool {
        &&& self.params_ok()
        &&& forall|k: int| 0 <= k < 9 ==> #[trigger] self.candidate_fits(pos, k)
    }

    /// The nearest of the first `n` candidates, with its distance; the cell
    /// of `pos` itself at distance `i64::MAX` where none is nearer than that.
    /// Of candidates at equal distance the first one wins.
    pub open spec fn spec_scan(&self, pos: Vec2, n: nat) -> (Vec2, int)
        decreases n,
    {
        if n == 0 {
            (self.spec_cell_coord(pos), i64::MAX as int)
        } else {
            let prev = self.spec_scan(pos, (n - 1) as nat);
            let d = self.spec_candidate_dist(pos, n - 1);
            if d < prev.1 {
                (self.spec_candidate(pos, n - 1), d)
            } else {
                prev
            }
        }
    }

    /// The point that `pos` is assigned to.
    pub open spec fn spec_nearest(&self, pos: Vec2) -> Vec2 {
        self.spec_scan(pos, 9).0
    }

    fn cell_coord(&self, pos: Vec2) -> (r: Vec2)
        requires
            self.params_ok(),
        ensures
            r == self.spec_cell_coord(pos),
    {
        let f = self.freq as i64;
        let x = match pos.x.checked_div_euclid(f) {
            Some(q) => q,
            None => pos.x,
        };
        let y = match pos.y.checked_div_euclid(f) {
            Some(q) => q,
            None => pos.y,
        };
        proof {
            assert(f >= 1);
            assert(i64::MIN <= (pos.x as int) / (f as int) <= i64::MAX) by (nonlinear_arith)
                requires
                    f >= 1,
                    i64::MIN <= pos.x <= i64::MAX,
            ;
            assert(i64::MIN <= (pos.y as int) / (f as int) <= i64::MAX) by (nonlinear_arith)
                requires
                    f >= 1,
                    i64::MIN <= pos.y <= i64::MAX,
            ;
        }
        Vec2 { x, y }
    }

    /// The point that `pos` is assigned to: the nearest of the candidates of
    /// the nine cells around it.
    pub fn nearest(&self, pos: Vec2) -> (r: Vec2)
        requires
            self.sample_ok(pos),
        ensures
            r == self.spec_nearest(pos),
    {
        let cc = self.cell_coord(pos);
        let mut best = cc;
        let mut best_dist: i64 = i64::MAX;
        let mut k: i64 = 0;
        while k < 9
            invariant
                0 <= k <= 9,
                self.sample_ok(pos),
                cc == self.spec_cell_coord(pos),
                (best, best_dist as int) == self.spec_scan(pos, k as nat),
            decreases 9 - k,
        {
            assert(self.candidate_fits(pos, k as int));
            let c = Vec2::new(cc.x + (k / 3 - 1), cc.y + (k % 3 - 1));
            let cp = self.cell_pos(c);
            let d = self.dist_func.apply(cp.sub(pos));
            if d < best_dist {
                best = cp;
                best_dist = d;
            }
            k += 1;
        }
        best
    }

    /// The candidate point of the `k`th of the nine cells around `pos`.
    pub fn candidate(&self, pos: Vec2, k: i64) -> (r: Vec2)
        requires
            self.sample_ok(pos),
            0 <= k < 9,
        ensures
            r == self.spec_candidate(pos, k as int),
    {
        assert(self.candidate_fits(pos, k as int));
        let cc = self.cell_coord(pos);
        let c = Vec2::new(cc.x + (k / 3 - 1), cc.y + (k % 3 - 1));
        self.cell_pos(c)
    }

    /// Samples `f` at the point that `pos` is assigned to.
    pub fn sample<S, T, F>(&self, pos: Vec2, supplement: &(&S, F)) -> (r: T) where
        F: Fn(&StructureGen, Vec2, &S) -> T,
        requires
            self.sample_ok(pos),
            call_requires(supplement.1, (self, self.spec_nearest(pos), supplement.0)),
        ensures
            call_ensures(supplement.1, (self, self.spec_nearest(pos), supplement.0), r),
    {
        let p = self.nearest(pos);
        (supplement.1)(self, p, supplement.0)
    }
}

impl<'a, S, T, F> Gen<(&'a S, F)> for StructureGen where F: Fn(&StructureGen, Vec2, &S) -> T {
    type In = Vec2;

    type Out = T;

    open spec fn sample_requires(&self, i: Vec2, supplement: (&'a S, F)) -> bool {
        &&& self.sample_ok(i)
        &&& call_requires(supplement.1, (self, self.spec_nearest(i), supplement.0))
    }

    open spec fn sample_ensures(&self, i: Vec2, supplement: (&'a S, F), o: T) -> bool {
        call_ensures(supplement.1, (self, self.spec_nearest(i), supplement.0), o)
    }

    fn sample(&self, i: Vec2, supplement: &(&'a S, F)) -> (o: T) {
        StructureGen::sample(self, i, supplement)
    }
}

/// Of the nine candidates around `pos`, none is nearer than the one
/// `pos` is assigned to; and unless every candidate lies at distance
/// `i64::MAX` or more, the assigned point is one of the candidates.
pub proof fn lemma_nearest_is_closest(g: StructureGen, pos: Vec2)
    requires
        g.sample_ok(pos),
    ensures
        forall|k: int| 0 <= k < 9 ==> g.spec_scan(pos, 9).1 <= #[trigger] g.spec_candidate_dist(pos, k),
        g.spec_scan(pos, 9).1 < i64::MAX ==> exists|k: int|
            0 <= k < 9 && g.spec_nearest(pos) == #[trigger] g.spec_candidate(pos, k)
                && g.spec_scan(pos, 9).1 == g.spec_candidate_dist(pos, k),
{
    lemma_scan(g, pos, 9);
}

proof fn lemma_scan(g: StructureGen, pos: Vec2, n: nat)
    ensures
        forall|k: int| 0 <= k < n ==> g.spec_scan(pos, n).1 <= #[trigger] g.spec_candidate_dist(pos, k),
        g.spec_scan(pos, n).1 <= i64::MAX,
        g.spec_scan(pos, n).1 < i64::MAX ==> exists|k: int|
            0 <= k < n && g.spec_scan(pos, n).0 == #[trigger] g.spec_candidate(pos, k)
                && g.spec_scan(pos, n).1 == g.spec_candidate_dist(pos, k),
    decreases n,
{
    if n > 0 {
        lemma_scan(g, pos, (n - 1) as nat);
        let prev = g.spec_scan(pos, (n - 1) as nat);
        let d = g.spec_candidate_dist(pos, n - 1);
        if d < prev.1 {
            assert(g.spec_scan(pos, n).0 == g.spec_candidate(pos, n - 1));
        } else {
            if prev.1 < i64::MAX {
                let k = choose|k: int|
                    0 <= k < n - 1 && prev.0 == #[trigger] g.spec_candidate(pos, k) && prev.1
                        == g.spec_candidate_dist(pos, k);
                assert(0 <= k < n && g.spec_scan(pos, n).0 == g.spec_candidate(pos, k));
            }
        }
    }
}

/// The grid sizes that the world's generators use: a cell side of at most
/// 2^16 and a warp of at most 2^16.
pub open spec fn modest(g: StructureGen) -> bool {
    &&& 0 < g.freq() <= 0x1_0000
    &&& g.warp() <= 0x1_0000
}

/// A position at least 2^20 away from the ends of the range of `i64`, so
/// that the cells around it and their candidates can be computed.
pub open spec fn within_reach(pos: Vec2) -> bool {
    -0x7FFF_FFFF_FFF0_0000 <= pos.x <= 0x7FFF_FFFF_FFF0_0000 && -0x7FFF_FFFF_FFF0_0000 <= pos.y
        <= 0x7FFF_FFFF_FFF0_0000
}

/// How far, along each axis, a candidate can lie from the position it is a
/// candidate for.
pub open spec fn reach(g: StructureGen) -> int {
    3 * g.freq() + g.warp()
}

proof fn lemma_offset_range(g: StructureGen, c: Vec2)
    requires
        modest(g),
    ensures
        -(g.warp() as int) <= g.spec_offset(c) <= g.warp(),
{
    if g.warp() > 0 {
        let d = spec_dice(c);
        assert(d % g.warp() < g.warp());
    }
}

proof fn lemma_axis_near(f: int, w: int, p: int, dk: int, off: int)
    requires
        1 <= f <= 0x1_0000,
        0 <= w <= 0x1_0000,
        -0x7FFF_FFFF_FFF0_0000 <= p <= 0x7FFF_FFFF_FFF0_0000,
        -1 <= dk <= 1,
        -w <= off <= w,
    ensures
        -0x7FFF_FFFF_FFF0_0000 - 1 <= p / f <= 0x7FFF_FFFF_FFF0_0000,
        fits_i64(p / f + dk),
        fits_i64((p / f + dk) * f),
        fits_i64((p / f + dk) * f + f / 2),
        fits_i64((p / f + dk) * f + f / 2 + off),
        -(3 * f + w) <= (p / f + dk) * f + f / 2 + off - p <= 3 * f + w,
{
    let q = p / f;
    let r = p % f;
    vstd::arithmetic::div_mod::lemma_fundamental_div_mod(p, f);
    vstd::arithmetic::div_mod::lemma_mod_bound(p, f);
    assert(p == f * q + r);
    assert(-0x7FFF_FFFF_FFF0_0000 - 1 <= q <= 0x7FFF_FFFF_FFF0_0000) by (nonlinear_arith)
        requires
            p == f * q + r,
            0 <= r < f,
            1 <= f,
            -0x7FFF_FFFF_FFF0_0000 <= p <= 0x7FFF_FFFF_FFF0_0000,
    ;
    assert((q + dk) * f == p - r + dk * f) by (nonlinear_arith)
        requires
            p == f * q + r,
    ;
    assert(-f <= dk * f <= f) by (nonlinear_arith)
        requires
            -1 <= dk <= 1,
            1 <= f,
    ;
}

#[verifier::spinoff_prover]
proof fn lemma_candidate_near(g: StructureGen, pos: Vec2, k: int)
    requires
        modest(g),
        within_reach(pos),
        0 <= k < 9,
    ensures
        g.candidate_fits(pos, k),
        -reach(g) <= g.spec_candidate(pos, k).x - pos.x <= reach(g),
        -reach(g) <= g.spec_candidate(pos, k).y - pos.y <= reach(g),
{
    let f = g.freq() as int;
    let w = g.warp() as int;
    let dx = k / 3 - 1;
    let dy = k % 3 - 1;
    assert(-1 <= dx <= 1 && -1 <= dy <= 1);
    let c = g.spec_neighbour(pos, k);
    lemma_offset_range(g, c);
    let off = g.spec_offset(c);
    lemma_axis_near(f, w, pos.x as int, dx, off);
    lemma_axis_near(f, w, pos.y as int, dy, off);
    let cc = g.spec_cell_coord(pos);
    assert(cc.x == (pos.x as int) / f && cc.y == (pos.y as int) / f);
    assert(c.x == (pos.x as int) / f + dx && c.y == (pos.y as int) / f + dy);
    assert(g.cell_pos_fits(c));
    let cp = g.spec_cell_pos(c);
    assert(cp.x == ((pos.x as int) / f + dx) * f + f / 2 + off);
    assert(cp.y == ((pos.y as int) / f + dy) * f + f / 2 + off);
    let rel = g.spec_candidate_rel(pos, k);
    assert(-0x4_0000 <= rel.x <= 0x4_0000 && -0x4_0000 <= rel.y <= 0x4_0000);
    assert(rel.x * rel.x <= 0x4_0000 * 0x4_0000) by (nonlinear_arith)
        requires
            -0x4_0000 <= rel.x <= 0x4_0000,
    ;
    assert(rel.y * rel.y <= 0x4_0000 * 0x4_0000) by (nonlinear_arith)
        requires
            -0x4_0000 <= rel.y <= 0x4_0000,
    ;
    assert(g.dist_func().applies(rel));
}

/// With a modest grid and a position within reach, every candidate can be
/// measured, and each lies within `reach(g)` of the position along each axis.
pub proof fn lemma_candidates_near(g: StructureGen, pos: Vec2)
    requires
        modest(g),
        within_reach(pos),
    ensures
        g.sample_ok(pos),
        forall|k: int|
            0 <= k < 9 ==> -reach(g) <= #[trigger] g.spec_candidate(pos, k).x - pos.x <= reach(g)
                && -reach(g) <= g.spec_candidate(pos, k).y - pos.y <= reach(g),
{
    assert forall|k: int| 0 <= k < 9 implies #[trigger] g.candidate_fits(pos, k) by {
        lemma_candidate_near(g, pos, k);
    }
    assert forall|k: int| 0 <= k < 9 implies -reach(g) <= #[trigger] g.spec_candidate(pos, k).x
        - pos.x <= reach(g) && -reach(g) <= g.spec_candidate(pos, k).y - pos.y <= reach(g) by {
        lemma_candidate_near(g, pos, k);
    }
}

/// With a modest grid and a position within reach, the point the position
/// is assigned to lies within `reach(g)` of it along each axis.
pub proof fn lemma_nearest_near(g: StructureGen, pos: Vec2)
    requires
        modest(g),
        within_reach(pos),
    ensures
        g.sample_ok(pos),
        -reach(g) <= g.spec_nearest(pos).x - pos.x <= reach(g),
        -reach(g) <= g.spec_nearest(pos).y - pos.y <= reach(g),
{
    lemma_candidates_near(g, pos);
    lemma_nearest_is_closest(g, pos);
    let rel = g.spec_candidate_rel(pos, 0);
    assert(g.spec_candidate(pos, 0) == g.spec_candidate(pos, 0));
    assert(rel.x * rel.x <= 0x4_0000 * 0x4_0000) by (nonlinear_arith)
        requires
            -0x4_0000 <= rel.x <= 0x4_0000,
    ;
    assert(rel.y * rel.y <= 0x4_0000 * 0x4_0000) by (nonlinear_arith)
        requires
            -0x4_0000 <= rel.y <= 0x4_0000,
    ;
    assert(g.spec_candidate_dist(pos, 0) < i64::MAX);
}

} // verus!
