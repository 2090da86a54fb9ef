//! Meshes of voxel volumes.
//!
//! A mesh is built in grid coordinates: a vertex position counts voxels
//! from the volume's corner. Every visible face of an occupied voxel becomes
//! a quad whose corners are shaded by ambient occlusion.
use crate::vec::Vec3;
use crate::voxel::block::{MaterialKind, RenderMaterial};
use crate::voxel::volume::{RenderVolume, RenderVoxel};
use vstd::prelude::*;

verus! {

/// The axis direction a face looks toward.
#[derive(Clone, Copy, Debug, PartialEq, Eq, Structural)]
pub enum NormalDirection {
    PlusX,
    MinusX,
    PlusY,
    MinusY,
    PlusZ,
    MinusZ,
}

/// The direction of the first nonzero component of `v`, by its sign.
pub open spec fn spec_normal(v: Vec3) -> NormalDirection {
    if v.x != 0 {
        if v.x > 0 {
            NormalDirection::PlusX
        } else {
            NormalDirection::MinusX
        }
    } else if v.y != 0 {
        if v.y > 0 {
            NormalDirection::PlusY
        } else {
            NormalDirection::MinusY
        }
    } else if v.z > 0 {
        NormalDirection::PlusZ
    } else {
        NormalDirection::MinusZ
    }
}

/// The number a vertex carries for a direction.
pub open spec fn spec_normal_id(n: NormalDirection) -> u8 {
    match n {
        NormalDirection::PlusX => 0,
        NormalDirection::MinusX => 1,
        NormalDirection::PlusY => 2,
        NormalDirection::MinusY => 3,
        NormalDirection::PlusZ => 4,
        NormalDirection::MinusZ => 5,
    }
}

impl NormalDirection {
    /// The direction of a nonzero vector: that of its first nonzero
    /// component, by its sign.
    pub fn from(vec: Vec3) -> (r: Self)
        requires
            vec.x != 0 || vec.y != 0 || vec.z != 0,
        ensures
            r == spec_normal(vec),
    {
        if vec.x != 0 {
            if vec.x > 0 {
                NormalDirection::PlusX
            } else {
                NormalDirection::MinusX
            }
        } else if vec.y != 0 {
            if vec.y > 0 {
                NormalDirection::PlusY
            } else {
                NormalDirection::MinusY
            }
        } else if vec.z > 0 {
            NormalDirection::PlusZ
        } else {
            NormalDirection::MinusZ
        }
    }
}

impl From<NormalDirection> for u8 {
    fn from(norm: NormalDirection) -> (r: u8) {
        match norm {
            NormalDirection::PlusX => 0,
            NormalDirection::MinusX => 1,
            NormalDirection::PlusY => 2,
            NormalDirection::MinusY => 3,
            NormalDirection::PlusZ => 4,
            NormalDirection::MinusZ => 5,
        }
    }
}

impl vstd::std_specs::convert::FromSpecImpl<NormalDirection> for u8 {
    open spec fn obeys_from_spec() -> bool {
        true
    }

    open spec fn from_spec(norm: NormalDirection) -> u8 {
        spec_normal_id(norm)
    }
}

/// The attribute word of a vertex: colour in bits 0 to 15, ambient
/// occlusion (its low four bits) in bits 16 to 19, direction in bits 20 to
/// 23 and material in bits 24 to 31.
pub open spec fn spec_attrib(norm: NormalDirection, ao: u8, col: u16, mat: u8) -> u32 {
    (col as int + (ao as int % 16) * 0x1_0000 + spec_normal_id(norm) as int * 0x10_0000 + mat as int
        * 0x100_0000) as u32
}

/// The attribute word gives back what it was packed from: the colour, the
/// occlusion (its low four bits), the direction and the material.
pub proof fn lemma_attrib_fields(norm: NormalDirection, ao: u8, col: u16, mat: u8)
    ensures
        spec_attrib(norm, ao, col, mat) & 0xFFFF == col,
        (spec_attrib(norm, ao, col, mat) >> 16u32) & 0xF == ao % 16,
        (spec_attrib(norm, ao, col, mat) >> 20u32) & 0xF == spec_normal_id(norm),
        spec_attrib(norm, ao, col, mat) >> 24u32 == mat,
{
    let a = spec_attrib(norm, ao, col, mat);
    let c = col as u32;
    let o = (ao % 16) as u32;
    let n = spec_normal_id(norm) as u32;
    let m = mat as u32;
    assert(a == c + o * 0x1_0000 + n * 0x10_0000 + m * 0x100_0000);
    assert(a & 0xFFFF == c && (a >> 16u32) & 0xF == o && (a >> 20u32) & 0xF == n && a >> 24u32 == m)
        by (bit_vector)
        requires
            a == c + o * 0x1_0000 + n * 0x10_0000 + m * 0x100_0000,
            c < 0x1_0000,
            o < 16,
            n < 16,
            m < 0x100,
    ;
}

/// A corner of a face: its position on the grid and its attributes.
#[derive(Clone, Copy, Debug, PartialEq, Eq, Structural)]
pub struct Vertex {
    pub pos: Vec3,
    pub attrib: u32,
}

impl Vertex {
    pub fn new(pos: Vec3, norm: NormalDirection, ao: u8, col: u16, mat: u8) -> (r: Vertex)
        ensures
            r.pos == pos,
            r.attrib == spec_attrib(norm, ao, col, mat),
    {
        let n: u8 = u8::from(norm);
        let c = col as u32;
        let a = ao as u32;
        let nn = n as u32;
        let m = mat as u32;
        let attrib: u32 = 0x00000000;
        let attrib = attrib | (c & 0xFFFF) << 0;
        let attrib = attrib | (a & 0x0F) << 16;
        let attrib = attrib | (nn & 0x0F) << 20;
        let attrib = attrib | (m & 0xFF) << 24;
        assert(n == spec_normal_id(norm));
        assert(((0u32 | (c & 0xFFFF) << 0) | (a & 0x0F) << 16 | (nn & 0x0F) << 20 | (m & 0xFF) << 24)
            == c + (a % 16) * 0x1_0000 + nn * 0x10_0000 + m * 0x100_0000) by (bit_vector)
            requires
                c < 0x1_0000,
                a < 0x100,
                nn < 6,
                m < 0x100,
        ;
        Vertex { pos, attrib }
    }

    /// This vertex moved by `off` on the grid.
    pub fn with_offset(&self, off: Vec3) -> (r: Vertex)
        requires
            sum_fits(self.pos, off),
        ensures
            r == spec_translate(*self, off),
    {
        Vertex {
            pos: Vec3 { x: self.pos.x + off.x, y: self.pos.y + off.y, z: self.pos.z + off.z },
            attrib: self.attrib,
        }
    }
}

/// Each component of `a + b` is a value of `i64`.
pub open spec fn sum_fits(a: Vec3, b: Vec3) -> bool {
    &&& i64::MIN <= a.x + b.x <= i64::MAX
    &&& i64::MIN <= a.y + b.y <= i64::MAX
    &&& i64::MIN <= a.z + b.z <= i64::MAX
}

/// Each component of `v` lies within 2^40 of zero.
pub open spec fn small(v: Vec3) -> bool {
    -0x100_0000_0000 <= v.x <= 0x100_0000_0000 && -0x100_0000_0000 <= v.y <= 0x100_0000_0000
        && -0x100_0000_0000 <= v.z <= 0x100_0000_0000
}

pub open spec fn vadd(a: Vec3, b: Vec3) -> Vec3 {
    Vec3 { x: (a.x + b.x) as i64, y: (a.y + b.y) as i64, z: (a.z + b.z) as i64 }
}

pub open spec fn spec_translate(v: Vertex, off: Vec3) -> Vertex {
    Vertex { pos: vadd(v.pos, off), attrib: v.attrib }
}

/// A triangle.
#[derive(Clone, Copy, Debug)]
pub struct Poly {
    verts: [Vertex; 3],
}

impl Poly {
    pub closed spec fn spec_verts(&self) -> Seq<Vertex> {
        self.verts@
    }

    pub fn new(v0: Vertex, v1: Vertex, v2: Vertex) -> (r: Poly)
        ensures
            r.spec_verts() == seq![v0, v1, v2],
    {
        Poly { verts: [v0, v1, v2] }
    }
}

/// A four-cornered face.
#[derive(Clone, Copy, Debug)]
pub struct Quad {
    verts: [Vertex; 4],
}

/// The six corners of the two triangles that draw a quad.
pub open spec fn spec_quad_tris(q: Seq<Vertex>) -> Seq<Vertex> {
    seq![q[0], q[1], q[2], q[2], q[3], q[0]]
}

impl Quad {
    pub closed spec fn spec_verts(&self) -> Seq<Vertex> {
        self.verts@
    }

    pub fn new(v0: Vertex, v1: Vertex, v2: Vertex, v3: Vertex) -> (r: Quad)
        ensures
            r.spec_verts() == seq![v0, v1, v2, v3],
    {
        Quad { verts: [v0, v1, v2, v3] }
    }

    /// A flat quad of one colour and material, with its corners at `p0` to `p3`.
    pub fn flat_with_color(
        p0: Vec3,
        p1: Vec3,
        p2: Vec3,
        p3: Vec3,
        norm: NormalDirection,
        ao: u8,
        col: u16,
        mat: u8,
    ) -> (r: Quad)
        ensures
            r.spec_verts() == seq![p0, p1, p2, p3].map_values(
                |p: Vec3| Vertex { pos: p, attrib: spec_attrib(norm, ao, col, mat) },
            ),
    {
        let r = Quad {
            verts: [
                Vertex::new(p0, norm, ao, col, mat),
                Vertex::new(p1, norm, ao, col, mat),
                Vertex::new(p2, norm, ao, col, mat),
                Vertex::new(p3, norm, ao, col, mat),
            ],
        };
        assert(r.spec_verts() =~= seq![p0, p1, p2, p3].map_values(
            |p: Vec3| Vertex { pos: p, attrib: spec_attrib(norm, ao, col, mat) },
        ));
        r
    }

    /// This quad moved by `off` on the grid.
    pub fn with_offset(&self, off: Vec3) -> (r: Quad)
        requires
            forall|i: int| 0 <= i < 4 ==> sum_fits(#[trigger] self.spec_verts()[i].pos, off),
        ensures
            r.spec_verts() == self.spec_verts().map_values(|v: Vertex| spec_translate(v, off)),
    {
        assert(sum_fits(self.spec_verts()[0].pos, off) && sum_fits(self.spec_verts()[1].pos, off));
        assert(sum_fits(self.spec_verts()[2].pos, off) && sum_fits(self.spec_verts()[3].pos, off));
        let r = Quad {
            verts: [
                self.verts[0].with_offset(off),
                self.verts[1].with_offset(off),
                self.verts[2].with_offset(off),
                self.verts[3].with_offset(off),
            ],
        };
        assert(r.spec_verts() =~= self.spec_verts().map_values(|v: Vertex| spec_translate(v, off)));
        r
    }
}

/// A list of triangles, three vertices each.
pub struct Mesh {
    verts: Vec<Vertex>,
}

impl Mesh {
    pub closed spec fn spec_verts(&self) -> Seq<Vertex> {
        self.verts@
    }

    pub fn new() -> (r: Mesh)
        ensures
            r.spec_verts() == Seq::<Vertex>::empty(),
    {
        Mesh { verts: Vec::new() }
    }

    /// The number of vertices, as a `u32` (wrapping past `u32::MAX`).
    pub fn vert_count(&self) -> (r: u32)
        ensures
            r == self.spec_verts().len() as u32,
    {
        self.verts.len() as u32
    }

    pub fn vertices(&self) -> (r: &Vec<Vertex>)
        ensures
            r@ == self.spec_verts(),
    {
        &self.verts
    }

    pub fn add(&mut self, verts: &[Vertex])
        ensures
            final(self).spec_verts() == old(self).spec_verts() + verts@,
    {
        self.verts.extend_from_slice(verts);
        assert(self.verts@ =~= old(self).verts@ + verts@);
    }

    pub fn add_polys(&mut self, polys: &[Poly])
        ensures
            final(self).spec_verts() == old(self).spec_verts() + spec_polys_verts(polys@),
    {
        let mut i: usize = 0;
        while i < polys.len()
            invariant
                i <= polys@.len(),
                self.spec_verts() == old(self).spec_verts() + spec_polys_verts(polys@.take(i as int)),
            decreases polys@.len() - i,
        {
            let p = polys[i];
            self.add(&p.verts);
            assert(polys@.take(i + 1).drop_last() =~= polys@.take(i as int));
            assert(self.spec_verts() =~= old(self).spec_verts() + spec_polys_verts(
                polys@.take(i + 1),
            ));
            i += 1;
        }
        assert(polys@.take(polys@.len() as int) =~= polys@);
    }

    /// Adds each quad as two triangles.
    pub fn add_quads(&mut self, quads: &[Quad])
        ensures
            final(self).spec_verts() == old(self).spec_verts() + spec_quads_tris(quads@),
    {
        let mut i: usize = 0;
        while i < quads.len()
            invariant
                i <= quads@.len(),
                self.spec_verts() == old(self).spec_verts() + spec_quads_tris(quads@.take(i as int)),
            decreases quads@.len() - i,
        {
            let q = quads[i];
            let tris = [q.verts[0], q.verts[1], q.verts[2], q.verts[2], q.verts[3], q.verts[0]];
            self.add(&tris);
            assert(tris@ =~= spec_quad_tris(q.spec_verts()));
            assert(quads@.take(i + 1).drop_last() =~= quads@.take(i as int));
            assert(self.spec_verts() =~= old(self).spec_verts() + spec_quads_tris(
                quads@.take(i + 1),
            ));
            i += 1;
        }
        assert(quads@.take(quads@.len() as int) =~= quads@);
    }
}

/// The vertices of a list of triangles, in order.
pub open spec fn spec_polys_verts(polys: Seq<Poly>) -> Seq<Vertex>
    decreases polys.len(),
{
    if polys.len() == 0 {
        Seq::empty()
    } else {
        spec_polys_verts(polys.drop_last()) + polys.last().spec_verts()
    }
}

/// A single quad draws as its two triangles.
pub proof fn lemma_quads_tris_one(q: Quad)
    ensures
        spec_quads_tris(seq![q]) == spec_quad_tris(q.spec_verts()),
{
    let s = seq![q];
    assert(s.drop_last() =~= Seq::<Quad>::empty());
    assert(spec_quads_tris(s.drop_last()) == Seq::<Vertex>::empty());
    assert(s.last() == q);
    assert(spec_quads_tris(s) == spec_quads_tris(s.drop_last()) + spec_quad_tris(q.spec_verts()));
    assert(spec_quads_tris(s) =~= spec_quad_tris(q.spec_verts()));
}

/// The vertices of a list of quads, two triangles each, in order.
pub open spec fn spec_quads_tris(quads: Seq<Quad>) -> Seq<Vertex>
    decreases quads.len(),
{
    if quads.len() == 0 {
        Seq::empty()
    } else {
        spec_quads_tris(quads.drop_last()) + spec_quad_tris(quads.last().spec_verts())
    }
}

} // verus!
