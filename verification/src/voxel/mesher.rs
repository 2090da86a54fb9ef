//! Building the meshes of a volume, one per kind of material.
use crate::vec::Vec3;
use crate::voxel::block::MaterialKind;
use crate::voxel::mesh::{
    small,
    spec_attrib,
    spec_normal,
    spec_quad_tris,
    spec_quads_tris,
    lemma_quads_tris_one,
    spec_translate,
    vadd,
    Mesh,
    NormalDirection,
    Quad,
    Vertex,
};
use crate::voxel::volume::{in_box, RenderVolume, RenderVoxel};
use fnv::FnvHasher;
use indexmap::IndexMap;
use std::hash::BuildHasherDefault;
use vstd::prelude::*;

verus! {

pub open spec fn v3(x: int, y: int, z: int) -> Vec3 {
    Vec3 { x: x as i64, y: y as i64, z: z as i64 }
}

/// The positions, relative to a corner, of the four voxels that shade it on
/// a face looking along `dir`.
pub open spec fn spec_ao_offsets(dir: Vec3) -> Seq<Vec3> {
    if dir.x == 0 {
        if dir.y == 0 {
            seq![v3(0, 0, 0), v3(-1, 0, 0), v3(0, -1, 0), v3(-1, -1, 0)]
        } else {
            seq![v3(0, 0, 0), v3(-1, 0, 0), v3(0, 0, -1), v3(-1, 0, -1)]
        }
    } else {
        seq![v3(0, 0, 0), v3(0, -1, 0), v3(0, 0, -1), v3(0, -1, -1)]
    }
}

/// Whether the voxel read at `p` is opaque. The volume is read at the
/// position with each component cut to 16 bits; outside the volume the
/// empty voxel is read.
pub open spec fn spec_opaque_at<V: RenderVolume>(vol: &V, p: Vec3) -> bool {
    match vol.spec_at((p.x as u16) as int, (p.y as u16) as int, (p.z as u16) as int) {
        Some(v) => v.spec_is_opaque(),
        None => V::VoxelType::spec_empty().spec_is_opaque(),
    }
}

pub open spec fn spec_open_at<V: RenderVolume>(vol: &V, p: Vec3) -> int {
    if spec_opaque_at(vol, p) {
        0
    } else {
        1
    }
}

/// The ambient occlusion of a corner at `pos` of a face looking along `dir`:
/// how many of the four voxels that shade it are not opaque.
pub open spec fn spec_ao_at<V: RenderVolume>(vol: &V, pos: Vec3, dir: Vec3) -> int {
    let o = spec_ao_offsets(dir);
    spec_open_at(vol, vadd(pos, o[0])) + spec_open_at(vol, vadd(pos, o[1])) + spec_open_at(
        vol,
        vadd(pos, o[2]),
    ) + spec_open_at(vol, vadd(pos, o[3]))
}

/// A corner's occlusion counts four voxels: it lies between 0 and 4.
pub proof fn lemma_ao_range<V: RenderVolume>(vol: &V, pos: Vec3, dir: Vec3)
    ensures
        0 <= spec_ao_at(vol, pos, dir) <= 4,
{
}

pub fn get_ao_at<V: RenderVolume>(vol: &V, pos: Vec3, dir: Vec3) -> (r: u8)
    requires
        pos.x > i64::MIN && pos.y > i64::MIN && pos.z > i64::MIN,
    ensures
        r == spec_ao_at(vol, pos, dir),
{
    let vecs = if dir.x == 0 {
        if dir.y == 0 {
            [
                Vec3::new(0, 0, 0),
                Vec3::new(-1, 0, 0),
                Vec3::new(0, -1, 0),
                Vec3::new(-1, -1, 0),
            ]
        } else {
            [
                Vec3::new(0, 0, 0),
                Vec3::new(-1, 0, 0),
                Vec3::new(0, 0, -1),
                Vec3::new(-1, 0, -1),
            ]
        }
    } else {
        [
            Vec3::new(0, 0, 0),
            Vec3::new(0, -1, 0),
            Vec3::new(0, 0, -1),
            Vec3::new(0, -1, -1),
        ]
    };
    assert(vecs@ == spec_ao_offsets(dir));
    let mut acc: u8 = 0;
    let mut j: usize = 0;
    while j < 4
        invariant
            j <= 4,
            pos.x > i64::MIN && pos.y > i64::MIN && pos.z > i64::MIN,
            vecs@ == spec_ao_offsets(dir),
            acc == spec_ao_prefix(vol, pos, dir, j as int),
            acc <= j,
        decreases 4 - j,
    {
        let v = vecs[j];
        assert(-1 <= v.x <= 0 && -1 <= v.y <= 0 && -1 <= v.z <= 0);
        let p = Vec3::new(pos.x + v.x, pos.y + v.y, pos.z + v.z);
        let read = vol.at_conv(Vec3::new((p.x as u16) as i64, (p.y as u16) as i64, (p.z as u16) as i64));
        let opaque = match read {
            Some(vox) => vox.is_opaque(),
            None => V::VoxelType::empty().is_opaque(),
        };
        acc = acc + if opaque {
            0
        } else {
            1
        };
        j += 1;
    }
    proof {
        reveal_with_fuel(spec_ao_prefix, 5);
    }
    acc
}

/// The occlusion summed over the first `n` shading voxels.
pub open spec fn spec_ao_prefix<V: RenderVolume>(vol: &V, pos: Vec3, dir: Vec3, n: int) -> int
    decreases n,
{
    if n <= 0 {
        0
    } else {
        spec_ao_prefix(vol, pos, dir, n - 1) + spec_open_at(vol, vadd(pos, spec_ao_offsets(dir)[n - 1]))
    }
}

/// The corners of a face spanned by `x_unit` and `y_unit`: `0`, `x_unit`,
/// `x_unit + y_unit` and `y_unit`.
pub open spec fn spec_units(x_unit: Vec3, y_unit: Vec3) -> Seq<Vec3> {
    seq![v3(0, 0, 0), x_unit, vadd(x_unit, y_unit), y_unit]
}

/// A quad with corners at `units` shaded by the occlusions `ao`, looking
/// toward `n`. It is split along the diagonal whose corners are the less
/// occluded.
pub open spec fn spec_shaded_quad(units: Seq<Vec3>, ao: Seq<int>, n: NormalDirection, col: u16, mat: u8) -> Seq<
    Vertex,
> {
    let vs = Seq::new(4, |j: int| Vertex { pos: units[j], attrib: spec_attrib(n, ao[j] as u8, col, mat) });
    if ao[0] + ao[2] > ao[1] + ao[3] {
        vs
    } else {
        seq![vs[1], vs[2], vs[3], vs[0]]
    }
}

/// The quad of the face at `pos` spanned by `x_unit` and `y_unit` and looking
/// along `z_unit`, each corner shaded by its occlusion.
#[verifier::opaque]
pub open spec fn spec_ao_quad<V: RenderVolume>(
    vol: &V,
    pos: Vec3,
    x_unit: Vec3,
    y_unit: Vec3,
    z_unit: Vec3,
    col: u16,
    mat: u8,
) -> Seq<Vertex> {
    let units = spec_units(x_unit, y_unit);
    let ao = Seq::new(4, |j: int| spec_ao_at(vol, vadd(pos, units[j]), z_unit));
    spec_shaded_quad(units, ao, spec_normal(z_unit), col, mat)
}

proof fn lemma_ao_quad<V: RenderVolume>(
    vol: &V,
    pos: Vec3,
    x_unit: Vec3,
    y_unit: Vec3,
    z_unit: Vec3,
    col: u16,
    mat: u8,
    ao: Seq<int>,
)
    requires
        ao.len() == 4,
        forall|j: int| 0 <= j < 4 ==> ao[j] == spec_ao_at(vol, vadd(pos, #[trigger] spec_units(x_unit, y_unit)[j]), z_unit),
    ensures
        spec_ao_quad(vol, pos, x_unit, y_unit, z_unit, col, mat) == spec_shaded_quad(
            spec_units(x_unit, y_unit),
            ao,
            spec_normal(z_unit),
            col,
            mat,
        ),
{
    reveal(spec_ao_quad);
    let units = spec_units(x_unit, y_unit);
    assert(Seq::new(4, |j: int| spec_ao_at(vol, vadd(pos, units[j]), z_unit)) =~= ao);
}

/// Each component of `v` is -1, 0 or 1.
pub open spec fn unit_like(v: Vec3) -> bool {
    -1 <= v.x <= 1 && -1 <= v.y <= 1 && -1 <= v.z <= 1
}

/// `p + u` lies in `i64`, above its least value.
pub open spec fn corner_fits(p: Vec3, u: Vec3) -> bool {
    &&& i64::MIN < p.x + u.x <= i64::MAX
    &&& i64::MIN < p.y + u.y <= i64::MAX
    &&& i64::MIN < p.z + u.z <= i64::MAX
}

/// Every corner of the face at `p` spanned by `x_unit` and `y_unit` can be
/// computed, and so can the voxels that shade it.
pub open spec fn corners_fit(p: Vec3, x_unit: Vec3, y_unit: Vec3) -> bool {
    &&& corner_fits(p, v3(0, 0, 0))
    &&& corner_fits(p, x_unit)
    &&& corner_fits(p, y_unit)
    &&& corner_fits(p, Vec3 { x: (x_unit.x + y_unit.x) as i64, y: (x_unit.y + y_unit.y) as i64, z: (x_unit.z + y_unit.z) as i64 })
}

/// The quad of the face at `pos` spanned by `x_unit` and `y_unit` and
/// looking along `z_unit`, each corner shaded by its occlusion and split
/// along the diagonal whose corners are the less occluded.
pub fn get_ao_quad<V: RenderVolume>(
    vol: &V,
    pos: Vec3,
    x_unit: Vec3,
    y_unit: Vec3,
    z_unit: Vec3,
    col: u16,
    mat: u8,
) -> (r: Quad)
    requires
        corners_fit(pos, x_unit, y_unit),
        unit_like(x_unit),
        unit_like(y_unit),
        z_unit.x != 0 || z_unit.y != 0 || z_unit.z != 0,
    ensures
        r.spec_verts() == spec_ao_quad(vol, pos, x_unit, y_unit, z_unit, col, mat),
        forall|i: int| 0 <= i < 4 ==> small(#[trigger] r.spec_verts()[i].pos),
{
    let u0 = Vec3::new(0, 0, 0);
    let u2 = Vec3::new(x_unit.x + y_unit.x, x_unit.y + y_unit.y, x_unit.z + y_unit.z);
    let ghost units = spec_units(x_unit, y_unit);
    assert(units[0] == u0 && units[1] == x_unit && units[2] == u2 && units[3] == y_unit);
    let a0 = get_ao_at(vol, pos, z_unit);
    assert(vadd(pos, u0) == pos);
    let a1 = get_ao_at(vol, Vec3::new(pos.x + x_unit.x, pos.y + x_unit.y, pos.z + x_unit.z), z_unit);
    let a2 = get_ao_at(vol, Vec3::new(pos.x + u2.x, pos.y + u2.y, pos.z + u2.z), z_unit);
    let a3 = get_ao_at(vol, Vec3::new(pos.x + y_unit.x, pos.y + y_unit.y, pos.z + y_unit.z), z_unit);
    let ghost ao = seq![a0 as int, a1 as int, a2 as int, a3 as int];
    proof {
        lemma_ao_quad(vol, pos, x_unit, y_unit, z_unit, col, mat, ao);
    }
    let norm = NormalDirection::from(z_unit);
    let v0 = Vertex::new(u0, norm, a0, col, mat);
    let v1 = Vertex::new(x_unit, norm, a1, col, mat);
    let v2 = Vertex::new(u2, norm, a2, col, mat);
    let v3 = Vertex::new(y_unit, norm, a3, col, mat);
    let r = if (a0 as u16) + (a2 as u16) > (a1 as u16) + (a3 as u16) {
        Quad::new(v0, v1, v2, v3)
    } else {
        Quad::new(v1, v2, v3, v0)
    };
    proof {
        lemma_shaded_quad(units, ao, norm, col, mat, v0, v1, v2, v3);
    }
    r
}

proof fn lemma_shaded_quad(
    units: Seq<Vec3>,
    ao: Seq<int>,
    n: NormalDirection,
    col: u16,
    mat: u8,
    v0: Vertex,
    v1: Vertex,
    v2: Vertex,
    v3: Vertex,
)
    requires
        units.len() == 4,
        ao.len() == 4,
        v0 == (Vertex { pos: units[0], attrib: spec_attrib(n, ao[0] as u8, col, mat) }),
        v1 == (Vertex { pos: units[1], attrib: spec_attrib(n, ao[1] as u8, col, mat) }),
        v2 == (Vertex { pos: units[2], attrib: spec_attrib(n, ao[2] as u8, col, mat) }),
        v3 == (Vertex { pos: units[3], attrib: spec_attrib(n, ao[3] as u8, col, mat) }),
    ensures
        spec_shaded_quad(units, ao, n, col, mat) == if ao[0] + ao[2] > ao[1] + ao[3] {
            seq![v0, v1, v2, v3]
        } else {
            seq![v1, v2, v3, v0]
        },
{
    let vs = Seq::new(4, |j: int| Vertex { pos: units[j], attrib: spec_attrib(n, ao[j] as u8, col, mat) });
    assert(vs =~= seq![v0, v1, v2, v3]);
}

/// One of the six faces of a voxel: the neighbour it looks at, the two
/// directions that span it, the direction it looks along, and where its
/// corner lies relative to the voxel.
#[derive(Clone, Copy, Debug, PartialEq, Eq, Structural)]
pub struct Face {
    pub nb: Vec3,
    pub x_unit: Vec3,
    pub y_unit: Vec3,
    pub z_unit: Vec3,
    pub shift: Vec3,
}

/// The faces in the order they are drawn: +x, -x, +y, -y, +z, -z.
pub open spec fn spec_faces() -> Seq<Face> {
    seq![
        Face { nb: v3(1, 0, 0), x_unit: v3(0, 1, 0), y_unit: v3(0, 0, 1), z_unit: v3(1, 0, 0), shift: v3(1, 0, 0) },
        Face { nb: v3(-1, 0, 0), x_unit: v3(0, 0, 1), y_unit: v3(0, 1, 0), z_unit: v3(-1, 0, 0), shift: v3(0, 0, 0) },
        Face { nb: v3(0, 1, 0), x_unit: v3(0, 0, 1), y_unit: v3(1, 0, 0), z_unit: v3(0, 1, 0), shift: v3(0, 1, 0) },
        Face { nb: v3(0, -1, 0), x_unit: v3(1, 0, 0), y_unit: v3(0, 0, 1), z_unit: v3(0, -1, 0), shift: v3(0, 0, 0) },
        Face { nb: v3(0, 0, 1), x_unit: v3(1, 0, 0), y_unit: v3(0, 1, 0), z_unit: v3(0, 0, 1), shift: v3(0, 0, 1) },
        Face { nb: v3(0, 0, -1), x_unit: v3(0, 1, 0), y_unit: v3(1, 0, 0), z_unit: v3(0, 0, -1), shift: v3(0, 0, 0) },
    ]
}

fn faces() -> (r: [Face; 6])
    ensures
        r@ == spec_faces(),
{
    let r = [
        Face { nb: Vec3::new(1, 0, 0), x_unit: Vec3::new(0, 1, 0), y_unit: Vec3::new(0, 0, 1), z_unit: Vec3::new(1, 0, 0), shift: Vec3::new(1, 0, 0) },
        Face { nb: Vec3::new(-1, 0, 0), x_unit: Vec3::new(0, 0, 1), y_unit: Vec3::new(0, 1, 0), z_unit: Vec3::new(-1, 0, 0), shift: Vec3::new(0, 0, 0) },
        Face { nb: Vec3::new(0, 1, 0), x_unit: Vec3::new(0, 0, 1), y_unit: Vec3::new(1, 0, 0), z_unit: Vec3::new(0, 1, 0), shift: Vec3::new(0, 1, 0) },
        Face { nb: Vec3::new(0, -1, 0), x_unit: Vec3::new(1, 0, 0), y_unit: Vec3::new(0, 0, 1), z_unit: Vec3::new(0, -1, 0), shift: Vec3::new(0, 0, 0) },
        Face { nb: Vec3::new(0, 0, 1), x_unit: Vec3::new(1, 0, 0), y_unit: Vec3::new(0, 1, 0), z_unit: Vec3::new(0, 0, 1), shift: Vec3::new(0, 0, 1) },
        Face { nb: Vec3::new(0, 0, -1), x_unit: Vec3::new(0, 1, 0), y_unit: Vec3::new(1, 0, 0), z_unit: Vec3::new(0, 0, -1), shift: Vec3::new(0, 0, 0) },
    ];
    assert(r@ =~= spec_faces());
    r
}

/// Whether the face of a voxel (opaque or not) toward a neighbour is drawn:
/// always at the edge of the volume, else as the neighbour decides.
pub open spec fn spec_face_drawn<V: RenderVolume>(vol: &V, n: Vec3, opaque: bool) -> bool {
    match vol.spec_at(n.x as int, n.y as int, n.z as int) {
        Some(w) => !w.spec_is_occupied() || (!w.spec_is_opaque() && opaque),
        None => true,
    }
}

/// The triangles of one face of the voxel `vox` at `p`: none when the face
/// is hidden, else the occlusion-shaded quad of the face moved to the voxel.
pub open spec fn spec_face_tris<V: RenderVolume>(
    vol: &V,
    p: Vec3,
    vox: V::VoxelType,
    f: Face,
) -> Seq<Vertex> {
    let n = vadd(p, f.nb);
    if spec_face_drawn(vol, n, vox.spec_is_opaque()) {
        spec_quad_tris(
            spec_ao_quad(
                vol,
                n,
                f.x_unit,
                f.y_unit,
                f.z_unit,
                vox.spec_palette(),
                vox.spec_mat().mat,
            ).map_values(|v: Vertex| spec_translate(v, vadd(p, f.shift))),
        )
    } else {
        Seq::empty()
    }
}

/// The triangles of the first `k` faces of the voxel `vox` at `p`.
pub open spec fn spec_faces_tris<V: RenderVolume>(vol: &V, p: Vec3, vox: V::VoxelType, k: int) -> Seq<
    Vertex,
>
    decreases k,
{
    if k <= 0 {
        Seq::empty()
    } else {
        spec_faces_tris(vol, p, vox, k - 1) + spec_face_tris(vol, p, vox, spec_faces()[k - 1])
    }
}

/// The triangles a voxel adds: those of its six faces when it is occupied.
pub open spec fn spec_voxel_tris<V: RenderVolume>(vol: &V, p: Vec3, vox: V::VoxelType) -> Seq<
    Vertex,
> {
    if vox.spec_is_occupied() {
        spec_faces_tris(vol, p, vox, 6)
    } else {
        Seq::empty()
    }
}

/// A list of meshes by kind, each kind at most once.
pub type MeshList = Seq<(MaterialKind, Seq<Vertex>)>;

/// Where `kind` stands in `m`, or the length of `m` when it is absent.
pub open spec fn spec_kind_index(m: MeshList, kind: MaterialKind) -> int
    decreases m.len(),
{
    if m.len() == 0 {
        0
    } else if spec_kind_index(m.drop_last(), kind) < m.len() - 1 {
        spec_kind_index(m.drop_last(), kind)
    } else if m.last().0 == kind {
        m.len() - 1
    } else {
        m.len() as int
    }
}

/// `m` with `verts` added to the mesh of `kind`; a kind not yet met gets a
/// mesh of its own at the end.
pub open spec fn spec_add_to_kind(m: MeshList, kind: MaterialKind, verts: Seq<Vertex>) -> MeshList {
    let i = spec_kind_index(m, kind);
    if i < m.len() {
        m.update(i, (kind, m[i].1 + verts))
    } else {
        m.push((kind, verts))
    }
}

/// What meshing the voxel at `(x, y, z)` does to `m`.
pub open spec fn spec_mesh_voxel<V: RenderVolume>(vol: &V, m: MeshList, x: int, y: int, z: int) -> MeshList {
    let vox = vol.spec_at(x, y, z).unwrap();
    spec_add_to_kind(m, vox.spec_mat().kind, spec_voxel_tris(vol, v3(x, y, z), vox))
}

/// `m` after meshing the voxels at `(x, y, 0)` to `(x, y, n - 1)`.
pub open spec fn spec_mesh_column<V: RenderVolume>(vol: &V, m: MeshList, x: int, y: int, n: int) -> MeshList
    decreases n,
{
    if n <= 0 {
        m
    } else {
        spec_mesh_voxel(vol, spec_mesh_column(vol, m, x, y, n - 1), x, y, n - 1)
    }
}

/// `m` after meshing the columns at `(x, 0)` to `(x, n - 1)`.
pub open spec fn spec_mesh_slice<V: RenderVolume>(vol: &V, m: MeshList, x: int, n: int) -> MeshList
    decreases n,
{
    if n <= 0 {
        m
    } else {
        spec_mesh_column(vol, spec_mesh_slice(vol, m, x, n - 1), x, n - 1, vol.spec_size().2 as int)
    }
}

/// `m` after meshing the slices at `0` to `n - 1`.
pub open spec fn spec_mesh_slices<V: RenderVolume>(vol: &V, m: MeshList, n: int) -> MeshList
    decreases n,
{
    if n <= 0 {
        m
    } else {
        spec_mesh_slice(vol, spec_mesh_slices(vol, m, n - 1), n - 1, vol.spec_size().1 as int)
    }
}

/// The meshes of a whole volume, meshed along x, then y, then z.
pub open spec fn spec_volume_meshes<V: RenderVolume>(vol: &V) -> MeshList {
    spec_mesh_slices(vol, Seq::empty(), vol.spec_size().0 as int)
}

/// Every position of the box of `vol` holds a voxel.
pub open spec fn volume_filled<V: RenderVolume>(vol: &V) -> bool {
    forall|x: int, y: int, z: int|
        in_box(vol.spec_size(), x, y, z) ==> #[trigger] vol.spec_at(x, y, z) is Some
}

#[verifier::external_type_specification]
#[verifier::external_body]
#[verifier::reject_recursive_types(K)]
#[verifier::reject_recursive_types(V)]
#[verifier::reject_recursive_types(S)]
pub struct ExIndexMap<K, V, S>(IndexMap<K, V, S>);

#[verifier::external_type_specification]
#[verifier::external_body]
#[verifier::reject_recursive_types(H)]
pub struct ExBuildHasherDefault<H>(BuildHasherDefault<H>);

#[verifier::external_type_specification]
#[verifier::external_body]
pub struct ExFnvHasher(FnvHasher);

/// The number a kind of material is stored under.
pub open spec fn kind_code(k: MaterialKind) -> u8 {
    match k {
        MaterialKind::Empty => 0,
        MaterialKind::Solid => 1,
        MaterialKind::Translucent => 2,
        MaterialKind::Water => 3,
    }
}

/// The kind of material stored under `c`, for `c` below 4.
pub open spec fn code_kind(c: u8) -> MaterialKind {
    if c == 0 {
        MaterialKind::Empty
    } else if c == 1 {
        MaterialKind::Solid
    } else if c == 2 {
        MaterialKind::Translucent
    } else {
        MaterialKind::Water
    }
}

fn material_code(k: MaterialKind) -> (r: u8)
    ensures
        r == kind_code(k),
{
    match k {
        MaterialKind::Empty => 0,
        MaterialKind::Solid => 1,
        MaterialKind::Translucent => 2,
        MaterialKind::Water => 3,
    }
}

fn code_material(c: u8) -> (r: MaterialKind)
    ensures
        r == code_kind(c),
{
    if c == 0 {
        MaterialKind::Empty
    } else if c == 1 {
        MaterialKind::Solid
    } else if c == 2 {
        MaterialKind::Translucent
    } else {
        MaterialKind::Water
    }
}

/// Entries of meshes stored under numbers.
pub type CodedMeshList = Seq<(u8, Seq<Vertex>)>;

/// Where the key `c` stands in `e`, or the length of `e` when it is absent.
pub open spec fn spec_code_index(e: CodedMeshList, c: u8) -> int
    decreases e.len(),
{
    if e.len() == 0 {
        0
    } else if spec_code_index(e.drop_last(), c) < e.len() - 1 {
        spec_code_index(e.drop_last(), c)
    } else if e.last().0 == c {
        e.len() - 1
    } else {
        e.len() as int
    }
}

/// The entries of `e` with their numbers read as kinds.
pub open spec fn decoded(e: CodedMeshList) -> MeshList {
    Seq::new(e.len(), |j: int| (code_kind(e[j].0), e[j].1))
}

/// Every key of `e` is the number of a kind.
pub open spec fn codes_ok(e: CodedMeshList) -> bool {
    forall|j: int| 0 <= j < e.len() ==> #[trigger] e[j].0 < 4
}

proof fn lemma_code_kind(k: MaterialKind, c: u8)
    requires
        c < 4,
    ensures
        kind_code(code_kind(c)) == c,
        (code_kind(c) == k) == (c == kind_code(k)),
{
}

/// Finding a kind among the decoded entries is finding its number among
/// the entries.
proof fn lemma_code_index(e: CodedMeshList, k: MaterialKind)
    requires
        codes_ok(e),
    ensures
        spec_kind_index(decoded(e), k) == spec_code_index(e, kind_code(k)),
    decreases e.len(),
{
    if e.len() > 0 {
        assert(decoded(e).drop_last() =~= decoded(e.drop_last()));
        lemma_code_index(e.drop_last(), k);
        lemma_code_kind(k, e.last().0);
    }
}

/// What an insertion-ordered map of meshes holds: its keys and their
/// meshes' vertices, in the order the map keeps them.
pub uninterp spec fn mesh_index_map_entries(m: IndexMap<u8, Mesh, BuildHasherDefault<FnvHasher>>) -> CodedMeshList;

/// Calls `IndexMap::with_capacity_and_hasher` with room for four keys and
/// the FNV hasher; the new map is empty.
#[verifier::external_body]
fn new_mesh_index_map() -> (r: IndexMap<u8, Mesh, BuildHasherDefault<FnvHasher>>)
    ensures
        mesh_index_map_entries(r) == Seq::<(u8, Seq<Vertex>)>::empty(),
{
    IndexMap::with_capacity_and_hasher(4, BuildHasherDefault::default())
}

/// Calls `IndexMap::len`: the number of entries.
#[verifier::external_body]
fn mesh_index_map_len(m: &IndexMap<u8, Mesh, BuildHasherDefault<FnvHasher>>) -> (r: usize)
    ensures
        r == mesh_index_map_entries(*m).len(),
{
    m.len()
}

/// Calls `IndexMap::get_index`: the key and mesh of the `i`th entry, where
/// there is one.
#[verifier::external_body]
fn mesh_index_map_get_index(m: &IndexMap<u8, Mesh, BuildHasherDefault<FnvHasher>>, i: usize) -> (r: Option<(&u8, &Mesh)>)
    ensures
        r is Some <==> i < mesh_index_map_entries(*m).len(),
        r matches Some(p) ==> *p.0 == mesh_index_map_entries(*m)[i as int].0 && p.1.spec_verts()
            == mesh_index_map_entries(*m)[i as int].1,
{
    m.get_index(i)
}

/// Calls `IndexMap::entry` and `Entry::or_insert`: the mesh under `key`,
/// which is `default`, put at the end of the map, where the map has none.
/// The map's keys are distinct, so the entry found is the first with
/// `key`; what is written through the result becomes that entry's mesh.
#[verifier::external_body]
fn mesh_index_map_entry(
    m: &mut IndexMap<u8, Mesh, BuildHasherDefault<FnvHasher>>,
    key: u8,
    default: Mesh,
) -> (r: &mut Mesh)
    ensures
        ({
            let before = mesh_index_map_entries(*old(m));
            let i = spec_code_index(before, key);
            if i < before.len() {
                &&& r.spec_verts() == before[i].1
                &&& mesh_index_map_entries(*final(m)) == before.update(i, (key, final(r).spec_verts()))
            } else {
                &&& r.spec_verts() == default.spec_verts()
                &&& mesh_index_map_entries(*final(m)) == before.push((key, final(r).spec_verts()))
            }
        }),
{
    m.entry(key).or_insert(default)
}

/// Meshes by kind of material, each kind once, in the order the kinds were
/// first met. Each kind is stored under its number.
pub struct MeshMap {
    map: IndexMap<u8, Mesh, BuildHasherDefault<FnvHasher>>,
}

impl View for MeshMap {
    type V = MeshList;

    closed spec fn view(&self) -> MeshList {
        decoded(mesh_index_map_entries(self.map))
    }
}

impl MeshMap {
    /// Every key is the number of a kind.
    #[verifier::type_invariant]
    spec fn keys_ok(&self) -> bool {
        codes_ok(mesh_index_map_entries(self.map))
    }

    pub fn new() -> (r: MeshMap)
        ensures
            r@ == Seq::<(MaterialKind, Seq<Vertex>)>::empty(),
    {
        let r = MeshMap { map: new_mesh_index_map() };
        assert(r@ =~= Seq::<(MaterialKind, Seq<Vertex>)>::empty());
        r
    }

    pub fn len(&self) -> (r: usize)
        ensures
            r == self@.len(),
    {
        mesh_index_map_len(&self.map)
    }

    /// The kind of the `i`th mesh.
    pub fn kind(&self, i: usize) -> (r: MaterialKind)
        requires
            i < self@.len(),
        ensures
            r == self@[i as int].0,
    {
        let (k, _) = mesh_index_map_get_index(&self.map, i).unwrap();
        code_material(*k)
    }

    /// The `i`th mesh.
    pub fn mesh(&self, i: usize) -> (r: &Mesh)
        requires
            i < self@.len(),
        ensures
            r.spec_verts() == self@[i as int].1,
    {
        let (_, m) = mesh_index_map_get_index(&self.map, i).unwrap();
        m
    }
    /// Where `kind` stands; the length when it is absent.
    pub fn index_of(&self, kind: MaterialKind) -> (r: usize)
        ensures
            r == spec_kind_index(self@, kind),
    {
        let n = self.len();
        let mut i: usize = 0;
        while i < n
            invariant
                i <= n,
                n == self@.len(),
                forall|j: int| 0 <= j < i ==> self@[j].0 != kind,
            decreases n - i,
        {
            if self.kind(i) == kind {
                proof {
                    lemma_kind_index_first(self@, kind, i as int);
                }
                return i;
            }
            i += 1;
        }
        proof {
            lemma_kind_index_absent(self@, kind);
        }
        i
    }

    /// The mesh of `kind`, if it has one.
    pub fn get(&self, kind: MaterialKind) -> (r: Option<&Mesh>)
        ensures
            match r {
                Some(m) => spec_kind_index(self@, kind) < self@.len() && m.spec_verts()
                    == self@[spec_kind_index(self@, kind)].1,
                None => spec_kind_index(self@, kind) == self@.len(),
            },
    {
        proof {
            lemma_kind_index_bound(self@, kind);
        }
        let i = self.index_of(kind);
        if i < self.len() {
            Some(self.mesh(i))
        } else {
            None
        }
    }

    /// The positions of the meshes worth drawing, in order: those whose
    /// vertex count, as a `u32`, is not zero.
    pub fn drawable(&self) -> (r: Vec<usize>)
        ensures
            forall|a: int, b: int| 0 <= a < b < r@.len() ==> r@[a] < r@[b],
            forall|a: int| 0 <= a < r@.len() ==> #[trigger] r@[a] < self@.len() && (self@[r@[a] as int].1.len() as u32) > 0,
            forall|i: int| 0 <= i < self@.len() && (self@[i].1.len() as u32) > 0 ==> r@.contains(i as usize),
    {
        let n = self.len();
        let mut r: Vec<usize> = Vec::new();
        let mut i: usize = 0;
        while i < n
            invariant
                i <= n,
                n == self@.len(),
                forall|a: int, b: int| 0 <= a < b < r@.len() ==> r@[a] < r@[b],
                forall|a: int| 0 <= a < r@.len() ==> #[trigger] r@[a] < i && (self@[r@[a] as int].1.len() as u32) > 0,
                forall|j: int| 0 <= j < i && (self@[j].1.len() as u32) > 0 ==> r@.contains(j as usize),
            decreases n - i,
        {
            if self.mesh(i).vert_count() > 0 {
                let ghost before = r@;
                r.push(i);
                assert forall|j: int| 0 <= j < i + 1 && (self@[j].1.len() as u32) > 0 implies r@.contains(j as usize) by {
                    if j < i {
                        let k = choose|k: int| 0 <= k < before.len() && before[k] == j as usize;
                        assert(r@[k] == j as usize);
                    } else {
                        assert(r@[r@.len() - 1] == i);
                    }
                }
            }
            i += 1;
        }
        r
    }

    /// Adds `quads` to the mesh of `kind`, giving the kind an empty mesh
    /// first if it has none.
    pub fn add_quads(&mut self, kind: MaterialKind, quads: &[Quad])
        ensures
            final(self)@ == spec_add_to_kind(old(self)@, kind, spec_quads_tris(quads@)),
    {
        proof {
            use_type_invariant(&*self);
        }
        let ghost before = mesh_index_map_entries(self.map);
        let code = material_code(kind);
        let mut taken = MeshMap { map: new_mesh_index_map() };
        std::mem::swap(&mut taken, self);
        let MeshMap { mut map } = taken;
        let m = mesh_index_map_entry(&mut map, code, Mesh::new());
        m.add_quads(quads);
        proof {
            lemma_code_index(before, kind);
            lemma_code_kind(kind, code);
            lemma_kind_index_bound(decoded(before), kind);
            let after = mesh_index_map_entries(map);
            let i = spec_code_index(before, code);
            if i < before.len() {
                assert(decoded(after) =~= decoded(before).update(
                    i,
                    (kind, decoded(before)[i].1 + spec_quads_tris(quads@)),
                ));
            } else {
                assert(decoded(after) =~= decoded(before).push((kind, spec_quads_tris(quads@))));
            }
            assert(codes_ok(after));
        }
        *self = MeshMap { map };
    }
}

proof fn lemma_kind_index_bound(m: MeshList, kind: MaterialKind)
    ensures
        0 <= spec_kind_index(m, kind) <= m.len(),
    decreases m.len(),
{
    if m.len() > 0 {
        lemma_kind_index_bound(m.drop_last(), kind);
    }
}

proof fn lemma_kind_index_found(m: MeshList, kind: MaterialKind)
    requires
        spec_kind_index(m, kind) < m.len(),
    ensures
        m[spec_kind_index(m, kind)].0 == kind,
    decreases m.len(),
{
    if m.len() > 0 {
        lemma_kind_index_bound(m.drop_last(), kind);
        if spec_kind_index(m.drop_last(), kind) < m.len() - 1 {
            lemma_kind_index_found(m.drop_last(), kind);
        }
    }
}

proof fn lemma_kind_index_first(m: MeshList, kind: MaterialKind, i: int)
    requires
        0 <= i < m.len(),
        m[i].0 == kind,
        forall|j: int| 0 <= j < i ==> m[j].0 != kind,
    ensures
        spec_kind_index(m, kind) == i,
    decreases m.len(),
{
    lemma_kind_index_bound(m.drop_last(), kind);
    if i < m.len() - 1 {
        lemma_kind_index_first(m.drop_last(), kind, i);
    } else {
        lemma_kind_index_absent(m.drop_last(), kind);
    }
}

proof fn lemma_kind_index_absent(m: MeshList, kind: MaterialKind)
    requires
        forall|j: int| 0 <= j < m.len() ==> m[j].0 != kind,
    ensures
        spec_kind_index(m, kind) == m.len(),
    decreases m.len(),
{
    if m.len() > 0 {
        lemma_kind_index_absent(m.drop_last(), kind);
    }
}

proof fn lemma_kind_index_before(m: MeshList, kind: MaterialKind, j: int)
    requires
        0 <= j < spec_kind_index(m, kind),
    ensures
        m[j].0 != kind,
    decreases m.len(),
{
    lemma_kind_index_bound(m, kind);
    lemma_kind_index_bound(m.drop_last(), kind);
    if j < m.len() - 1 {
        lemma_kind_index_before(m.drop_last(), kind, j);
    }
}

/// Adding to the mesh of a kind twice adds both, one after the other.
proof fn lemma_add_to_kind_twice(m: MeshList, kind: MaterialKind, a: Seq<Vertex>, b: Seq<Vertex>)
    ensures
        spec_add_to_kind(spec_add_to_kind(m, kind, a), kind, b) == spec_add_to_kind(m, kind, a + b),
{
    let i = spec_kind_index(m, kind);
    let m1 = spec_add_to_kind(m, kind, a);
    lemma_kind_index_bound(m, kind);
    assert forall|j: int| 0 <= j < i implies #[trigger] m1[j].0 != kind by {
        lemma_kind_index_before(m, kind, j);
    }
    lemma_kind_index_first(m1, kind, i);
    assert(m1[i].1 + b =~= (if i < m.len() { m[i].1 } else { Seq::empty() }) + (a + b));
    if i < m.len() {
        assert(spec_add_to_kind(m1, kind, b) =~= spec_add_to_kind(m, kind, a + b));
    } else {
        assert(spec_add_to_kind(m1, kind, b) =~= spec_add_to_kind(m, kind, a + b));
    }
}

/// Meshes the voxel at `(x, y, z)` into `map`.
#[verifier::spinoff_prover]
fn mesh_voxel<V: RenderVolume>(vol: &V, map: &mut MeshMap, fs: &[Face; 6], x: i64, y: i64, z: i64)
    requires
        0 <= x <= u32::MAX,
        0 <= y <= u32::MAX,
        0 <= z <= u32::MAX,
        vol.spec_at(x as int, y as int, z as int) is Some,
        fs@ == spec_faces(),
    ensures
        final(map)@ == spec_mesh_voxel(vol, old(map)@, x as int, y as int, z as int),
{
    let p = Vec3::new(x, y, z);
    let vox = vol.at_conv(p).unwrap();
    let col = vox.get_palette();
    let render_mat = vox.get_mat();
    let mat = render_mat.mat();
    let kind = render_mat.kind();
    let no_quads: [Quad; 0] = [];
    map.add_quads(kind, &no_quads);
    assert(spec_quads_tris(no_quads@) =~= Seq::<Vertex>::empty());
    if vox.is_occupied() {
        let opaque = vox.is_opaque();
        let mut k: usize = 0;
        while k < 6
            invariant
                k <= 6,
                0 <= x <= u32::MAX,
                0 <= y <= u32::MAX,
                0 <= z <= u32::MAX,
                p == v3(x as int, y as int, z as int),
                fs@ == spec_faces(),
                vol.spec_at(x as int, y as int, z as int) == Some(vox),
                col == vox.spec_palette(),
                mat == vox.spec_mat().mat,
                kind == vox.spec_mat().kind,
                opaque == vox.spec_is_opaque(),
                map@ == spec_add_to_kind(old(map)@, kind, spec_faces_tris(vol, p, vox, k as int)),
            decreases 6 - k,
        {
            let f = fs[k];
            assert(f == spec_faces()[k as int]);
            let ghost before = map@;
            mesh_face(vol, map, p, vox, f);
            proof {
                if spec_face_drawn(vol, vadd(p, f.nb), vox.spec_is_opaque()) {
                    lemma_add_to_kind_twice(
                        old(map)@,
                        kind,
                        spec_faces_tris(vol, p, vox, k as int),
                        spec_face_tris(vol, p, vox, f),
                    );
                } else {
                    assert(spec_faces_tris(vol, p, vox, k + 1) =~= spec_faces_tris(
                        vol,
                        p,
                        vox,
                        k as int,
                    ));
                }
            }
            k += 1;
        }
    }
}

/// Meshes one face of the occupied voxel `vox` at `p` into `map`.
#[verifier::spinoff_prover]
fn mesh_face<V: RenderVolume>(vol: &V, map: &mut MeshMap, p: Vec3, vox: V::VoxelType, f: Face)
    requires
        0 <= p.x <= u32::MAX,
        0 <= p.y <= u32::MAX,
        0 <= p.z <= u32::MAX,
        spec_faces().contains(f),
    ensures
        final(map)@ == if spec_face_drawn(vol, vadd(p, f.nb), vox.spec_is_opaque()) {
            spec_add_to_kind(old(map)@, vox.spec_mat().kind, spec_face_tris(vol, p, vox, f))
        } else {
            old(map)@
        },
{
    let n = Vec3::new(p.x + f.nb.x, p.y + f.nb.y, p.z + f.nb.z);
    let opaque = vox.is_opaque();
    let drawn = match vol.at_conv(n) {
        Some(w) => w.should_add(opaque),
        None => true,
    };
    if drawn {
        let render_mat = vox.get_mat();
        let q = get_ao_quad(vol, n, f.x_unit, f.y_unit, f.z_unit, vox.get_palette(), render_mat.mat());
        let off = Vec3::new(p.x + f.shift.x, p.y + f.shift.y, p.z + f.shift.z);
        let moved = q.with_offset(off);
        let one = [moved];
        map.add_quads(render_mat.kind(), &one);
        assert(one@ =~= seq![moved]);
        proof {
            lemma_quads_tris_one(moved);
        }
        assert(n == vadd(p, f.nb));
        assert(off == vadd(p, f.shift));
        assert(moved.spec_verts() == spec_ao_quad(
            vol,
            n,
            f.x_unit,
            f.y_unit,
            f.z_unit,
            vox.spec_palette(),
            vox.spec_mat().mat,
        ).map_values(|v: Vertex| spec_translate(v, off)));
        assert(spec_quads_tris(one@) == spec_quad_tris(moved.spec_verts()));
        assert(spec_quads_tris(one@) =~= spec_face_tris(vol, p, vox, f));
    }
}

impl Mesh {
    /// The meshes of a volume by kind of material, built voxel by voxel
    /// along x, then y, then z. Every voxel's kind gets a mesh, even when
    /// the voxel adds nothing to it.
    pub fn from<V: RenderVolume>(vol: &V) -> (r: MeshMap)
        requires
            volume_filled(vol),
        ensures
            r@ == spec_volume_meshes(vol),
    {
        let size = vol.size();
        let fs = faces();
        let mut map = MeshMap::new();
        let mut x: u32 = 0;
        while x < size.0
            invariant
                x <= size.0,
                size == vol.spec_size(),
                volume_filled(vol),
                fs@ == spec_faces(),
                map@ == spec_mesh_slices(vol, Seq::empty(), x as int),
            decreases size.0 - x,
        {
            let ghost m0 = map@;
            let mut y: u32 = 0;
            while y < size.1
                invariant
                    x < size.0,
                    y <= size.1,
                    size == vol.spec_size(),
                    volume_filled(vol),
                    fs@ == spec_faces(),
                    map@ == spec_mesh_slice(vol, m0, x as int, y as int),
                decreases size.1 - y,
            {
                let ghost m1 = map@;
                let mut z: u32 = 0;
                while z < size.2
                    invariant
                        x < size.0,
                        y < size.1,
                        z <= size.2,
                        size == vol.spec_size(),
                        volume_filled(vol),
                        fs@ == spec_faces(),
                        map@ == spec_mesh_column(vol, m1, x as int, y as int, z as int),
                    decreases size.2 - z,
                {
                    assert(vol.spec_at(x as int, y as int, z as int) is Some);
                    mesh_voxel(vol, &mut map, &fs, x as i64, y as i64, z as i64);
                    z += 1;
                }
                y += 1;
            }
            x += 1;
        }
        map
    }
}

/// No kind has two meshes in `m`.
pub open spec fn kinds_distinct(m: MeshList) -> bool {
    forall|i: int, j: int| 0 <= i < j < m.len() ==> #[trigger] m[i].0 != #[trigger] m[j].0
}

/// Every mesh of `m` is a whole number of quads, six vertices each.
pub open spec fn whole_quads(m: MeshList) -> bool {
    forall|i: int| 0 <= i < m.len() ==> (#[trigger] m[i]).1.len() % 6 == 0
}

proof fn lemma_add_to_kind_keeps(m: MeshList, kind: MaterialKind, verts: Seq<Vertex>)
    requires
        kinds_distinct(m),
        whole_quads(m),
        verts.len() % 6 == 0,
    ensures
        kinds_distinct(spec_add_to_kind(m, kind, verts)),
        whole_quads(spec_add_to_kind(m, kind, verts)),
{
    lemma_kind_index_bound(m, kind);
    let i = spec_kind_index(m, kind);
    let r = spec_add_to_kind(m, kind, verts);
    if i < m.len() {
        lemma_kind_index_found(m, kind);
        assert forall|a: int| 0 <= a < r.len() implies (#[trigger] r[a]).1.len() % 6 == 0 by {
            if a == i {
                assert(r[a].1 == m[i].1 + verts);
                assert(m[i].1.len() % 6 == 0);
            } else {
                assert(r[a] == m[a]);
            }
        }
    } else {
        assert forall|j: int| 0 <= j < m.len() implies m[j].0 != kind by {
            lemma_kind_index_before(m, kind, j);
        }
        assert forall|a: int, b: int| 0 <= a < b < r.len() implies #[trigger] r[a].0 != #[trigger] r[b].0 by {
            if b == m.len() {
                assert(r[a] == m[a]);
            } else {
                assert(r[a] == m[a] && r[b] == m[b]);
            }
        }
        assert forall|a: int| 0 <= a < r.len() implies (#[trigger] r[a]).1.len() % 6 == 0 by {
            if a < m.len() {
                assert(r[a] == m[a]);
            }
        }
    }
}

#[verifier::spinoff_prover]
proof fn lemma_face_tris_len<V: RenderVolume>(vol: &V, p: Vec3, vox: V::VoxelType, f: Face)
    ensures
        spec_face_tris(vol, p, vox, f).len() == 0 || spec_face_tris(vol, p, vox, f).len() == 6,
{
}

#[verifier::spinoff_prover]
proof fn lemma_faces_tris_whole<V: RenderVolume>(vol: &V, p: Vec3, vox: V::VoxelType, k: int)
    ensures
        spec_faces_tris(vol, p, vox, k).len() % 6 == 0,
    decreases k,
{
    if k > 0 {
        lemma_faces_tris_whole(vol, p, vox, k - 1);
        let f = spec_faces()[k - 1];
        let a = spec_faces_tris(vol, p, vox, k - 1).len();
        let b = spec_face_tris(vol, p, vox, f).len();
        lemma_face_tris_len(vol, p, vox, f);
        assert((a + b) % 6 == 0) by (nonlinear_arith)
            requires
                a % 6 == 0,
                b == 0 || b == 6,
                a >= 0,
        ;
    }
}

proof fn lemma_column_keeps<V: RenderVolume>(vol: &V, m: MeshList, x: int, y: int, n: int)
    requires
        kinds_distinct(m),
        whole_quads(m),
    ensures
        kinds_distinct(spec_mesh_column(vol, m, x, y, n)),
        whole_quads(spec_mesh_column(vol, m, x, y, n)),
    decreases n,
{
    if n > 0 {
        lemma_column_keeps(vol, m, x, y, n - 1);
        let prev = spec_mesh_column(vol, m, x, y, n - 1);
        let vox = vol.spec_at(x, y, n - 1).unwrap();
        lemma_faces_tris_whole(vol, v3(x, y, n - 1), vox, 6);
        lemma_add_to_kind_keeps(prev, vox.spec_mat().kind, spec_voxel_tris(vol, v3(x, y, n - 1), vox));
    }
}

proof fn lemma_slice_keeps<V: RenderVolume>(vol: &V, m: MeshList, x: int, n: int)
    requires
        kinds_distinct(m),
        whole_quads(m),
    ensures
        kinds_distinct(spec_mesh_slice(vol, m, x, n)),
        whole_quads(spec_mesh_slice(vol, m, x, n)),
    decreases n,
{
    if n > 0 {
        lemma_slice_keeps(vol, m, x, n - 1);
        lemma_column_keeps(vol, spec_mesh_slice(vol, m, x, n - 1), x, n - 1, vol.spec_size().2 as int);
    }
}

proof fn lemma_slices_keep<V: RenderVolume>(vol: &V, m: MeshList, n: int)
    requires
        kinds_distinct(m),
        whole_quads(m),
    ensures
        kinds_distinct(spec_mesh_slices(vol, m, n)),
        whole_quads(spec_mesh_slices(vol, m, n)),
    decreases n,
{
    if n > 0 {
        lemma_slices_keep(vol, m, n - 1);
        lemma_slice_keeps(vol, spec_mesh_slices(vol, m, n - 1), n - 1, vol.spec_size().1 as int);
    }
}

/// The meshes of a volume have one mesh per kind of material, and each
/// mesh is made of whole quads, two triangles of three vertices each.
pub proof fn lemma_volume_meshes_well_formed<V: RenderVolume>(vol: &V)
    ensures
        kinds_distinct(spec_volume_meshes(vol)),
        whole_quads(spec_volume_meshes(vol)),
{
    lemma_slices_keep(vol, Seq::empty(), vol.spec_size().0 as int);
}

} // verus!
