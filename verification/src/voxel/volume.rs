//! Volumes of voxels: what a mesh is built from.
use crate::vec::Vec3;
use crate::voxel::block::{
    spec_material_id,
    Block,
    BlockMat,
    Cell,
    CellMaterial,
    Material,
    MaterialKind,
    RenderMaterial,
};
use vstd::prelude::*;

verus! {

/// A voxel that can be drawn.
pub trait RenderVoxel: Sized + Copy {
    spec fn spec_palette(&self) -> u16;

    spec fn spec_mat(&self) -> RenderMaterial;

    spec fn spec_is_opaque(&self) -> bool;

    spec fn spec_is_occupied(&self) -> bool;

    /// The voxel that stands for the space outside a volume.
    spec fn spec_empty() -> Self;

    fn empty() -> (r: Self)
        ensures
            r == Self::spec_empty(),
    ;

    fn get_palette(&self) -> (r: u16)
        ensures
            r == self.spec_palette(),
    ;

    fn get_mat(&self) -> (r: RenderMaterial)
        ensures
            r == self.spec_mat(),
    ;

    fn is_opaque(&self) -> (r: bool)
        ensures
            r == self.spec_is_opaque(),
    ;

    fn is_occupied(&self) -> (r: bool)
        ensures
            r == self.spec_is_occupied(),
    ;

    /// Whether a face of a neighbour (opaque or not) that touches this voxel
    /// is drawn: when this voxel is unoccupied, or is see-through and the
    /// neighbour is not.
    fn should_add(&self, other_opaque: bool) -> (r: bool)
        ensures
            r == (!self.spec_is_occupied() || (!self.spec_is_opaque() && other_opaque)),
    {
        !self.is_occupied() || (!self.is_opaque() && other_opaque)
    }
}

/// A box of voxels, addressed by integer positions.
pub trait RenderVolume {
    type VoxelType: RenderVoxel;

    /// The extent of the volume along each axis.
    spec fn spec_size(&self) -> (u32, u32, u32);

    /// The voxel at a position; `None` outside the volume.
    spec fn spec_at(&self, x: int, y: int, z: int) -> Option<Self::VoxelType>;

    fn size(&self) -> (r: (u32, u32, u32))
        ensures
            r == self.spec_size(),
    ;

    fn at_conv(&self, pos: Vec3) -> (r: Option<Self::VoxelType>)
        ensures
            r == self.spec_at(pos.x as int, pos.y as int, pos.z as int),
    ;
}

/// `(x, y, z)` lies inside a box of extent `size`.
pub open spec fn in_box(size: (u32, u32, u32), x: int, y: int, z: int) -> bool {
    0 <= x < size.0 && 0 <= y < size.1 && 0 <= z < size.2
}

/// The number of voxels in a box of extent `size`.
pub open spec fn box_volume(size: (u32, u32, u32)) -> int {
    size.0 * size.1 * size.2
}

/// Where the voxel at `(x, y, z)` is kept in a box of extent `size`.
pub open spec fn box_index(size: (u32, u32, u32), x: int, y: int, z: int) -> int {
    (x * size.1 + y) * size.2 + z
}

proof fn lemma_box_index(size: (u32, u32, u32), x: int, y: int, z: int)
    requires
        in_box(size, x, y, z),
    ensures
        0 <= x * size.1,
        x * size.1 <= x * size.1 + y,
        x * size.1 + y <= (x * size.1 + y) * size.2,
        (x * size.1 + y) * size.2 <= box_index(size, x, y, z),
        0 <= box_index(size, x, y, z) < box_volume(size),
{
    let sy = size.1 as int;
    let sz = size.2 as int;
    assert(0 <= x * sy) by (nonlinear_arith)
        requires
            0 <= x,
            0 <= sy,
    ;
    assert(0 <= x * sy + y) by (nonlinear_arith)
        requires
            0 <= x,
            0 <= y,
            0 <= sy,
    ;
    assert(x * sy + y < (x + 1) * sy) by (nonlinear_arith)
        requires
            y < sy,
    ;
    assert((x + 1) * sy <= size.0 * sy) by (nonlinear_arith)
        requires
            x + 1 <= size.0,
            0 <= sy,
    ;
    assert(x * sy + y <= (x * sy + y) * sz) by (nonlinear_arith)
        requires
            0 <= x * sy + y,
            1 <= sz,
    ;
    assert((x * sy + y) * sz + z < (x * sy + y + 1) * sz) by (nonlinear_arith)
        requires
            z < sz,
    ;
    assert((x * sy + y + 1) * sz <= size.0 * sy * sz) by (nonlinear_arith)
        requires
            x * sy + y + 1 <= size.0 * sy,
            0 <= sz,
    ;
}

/// A volume that holds a voxel at every position of its box.
pub struct VoxelModel<V> {
    size: (u32, u32, u32),
    voxels: Vec<V>,
}

impl<V> VoxelModel<V> {
    #[verifier::type_invariant]
    spec fn wf(&self) -> bool {
        &&& self.voxels@.len() == box_volume(self.size)
        &&& box_volume(self.size) <= usize::MAX
    }

    pub closed spec fn model_size(&self) -> (u32, u32, u32) {
        self.size
    }

    /// The voxel at `(x, y, z)`; `None` outside the box.
    pub closed spec fn voxel(&self, x: int, y: int, z: int) -> Option<V> {
        if in_box(self.size, x, y, z) {
            Some(self.voxels@[box_index(self.size, x, y, z)])
        } else {
            None
        }
    }
}

impl<V> VoxelModel<V> {
    /// Inside its box a model holds a voxel at every position.
    pub proof fn lemma_inside(&self, x: int, y: int, z: int)
        requires
            in_box(self.model_size(), x, y, z),
        ensures
            self.voxel(x, y, z) is Some,
    {
    }

    /// Outside its box a model holds nothing.
    pub proof fn lemma_outside(&self, x: int, y: int, z: int)
        requires
            !in_box(self.model_size(), x, y, z),
        ensures
            self.voxel(x, y, z) is None,
    {
    }
}

impl<V: Copy> VoxelModel<V> {
    /// A box of extent `size` with `v` everywhere.
    pub fn filled(size: (u32, u32, u32), v: V) -> (r: Self)
        requires
            box_volume(size) <= usize::MAX,
        ensures
            r.model_size() == size,
            forall|x: int, y: int, z: int|
                in_box(size, x, y, z) ==> #[trigger] r.voxel(x, y, z) == Some(v),
    {
        assert(0 <= size.0 * size.1 * size.2) by (nonlinear_arith);
        let n: usize = if size.2 == 0 || size.1 == 0 {
            0
        } else {
            assert(size.0 * size.1 <= size.0 * size.1 * size.2) by (nonlinear_arith)
                requires
                    size.2 >= 1,
                    size.0 >= 0,
                    size.1 >= 0,
            ;
            (size.0 as usize) * (size.1 as usize) * (size.2 as usize)
        };
        assert(n == box_volume(size)) by (nonlinear_arith)
            requires
                n == (if size.2 == 0 || size.1 == 0 { 0 } else { size.0 * size.1 * size.2 }),
        ;
        let mut voxels: Vec<V> = Vec::new();
        let mut i: usize = 0;
        while i < n
            invariant
                i <= n,
                voxels@.len() == i,
                forall|j: int| 0 <= j < i ==> voxels@[j] == v,
            decreases n - i,
        {
            voxels.push(v);
            i += 1;
        }
        let r = VoxelModel { size, voxels };
        assert forall|x: int, y: int, z: int| in_box(size, x, y, z) implies #[trigger] r.voxel(
            x,
            y,
            z,
        ) == Some(v) by {
            lemma_box_index(size, x, y, z);
        }
        r
    }

    pub fn size(&self) -> (r: (u32, u32, u32))
        ensures
            r == self.model_size(),
    {
        self.size
    }

    /// The voxel at `pos`; `None` outside the box.
    pub fn at(&self, pos: (u32, u32, u32)) -> (r: Option<V>)
        ensures
            r == self.voxel(pos.0 as int, pos.1 as int, pos.2 as int),
    {
        proof {
            use_type_invariant(self);
        }
        if pos.0 < self.size.0 && pos.1 < self.size.1 && pos.2 < self.size.2 {
            proof {
                lemma_box_index(self.size, pos.0 as int, pos.1 as int, pos.2 as int);
            }
            let idx = ((pos.0 as usize) * (self.size.1 as usize) + (pos.1 as usize)) * (
            self.size.2 as usize) + (pos.2 as usize);
            Some(self.voxels[idx])
        } else {
            None
        }
    }

    /// Puts `v` at `pos`; a position outside the box changes nothing.
    pub fn set_at(&mut self, pos: (u32, u32, u32), v: V)
        ensures
            final(self).model_size() == old(self).model_size(),
            forall|x: int, y: int, z: int|
                #[trigger] final(self).voxel(x, y, z) == if x == pos.0 && y == pos.1 && z
                    == pos.2 && in_box(old(self).model_size(), x, y, z) {
                    Some(v)
                } else {
                    old(self).voxel(x, y, z)
                },
    {
        proof {
            use_type_invariant(&*self);
        }
        if pos.0 < self.size.0 && pos.1 < self.size.1 && pos.2 < self.size.2 {
            let len = self.voxels.len();
            proof {
                lemma_box_index(self.size, pos.0 as int, pos.1 as int, pos.2 as int);
            }
            let idx = ((pos.0 as usize) * (self.size.1 as usize) + (pos.1 as usize)) * (
            self.size.2 as usize) + (pos.2 as usize);
            let ghost before = *self;
            let mut taken = VoxelModel { size: (0, 0, 0), voxels: Vec::new() };
            std::mem::swap(&mut taken, self);
            let VoxelModel { size, mut voxels } = taken;
            voxels.set(idx, v);
            *self = VoxelModel { size, voxels };
            proof {
                assert forall|x: int, y: int, z: int|
                    #[trigger] self.voxel(x, y, z) == if x == pos.0 && y == pos.1 && z == pos.2
                        && in_box(before.model_size(), x, y, z) {
                        Some(v)
                    } else {
                        before.voxel(x, y, z)
                    } by {
                    if in_box(self.size, x, y, z) {
                        lemma_box_index(self.size, x, y, z);
                        if !(x == pos.0 && y == pos.1 && z == pos.2) {
                            lemma_box_index_injective(self.size, x, y, z, pos.0 as int, pos.1 as int, pos.2 as int);
                        }
                    }
                }
            }
        }
    }
}

proof fn lemma_box_index_injective(
    size: (u32, u32, u32),
    x1: int,
    y1: int,
    z1: int,
    x2: int,
    y2: int,
    z2: int,
)
    requires
        in_box(size, x1, y1, z1),
        in_box(size, x2, y2, z2),
        !(x1 == x2 && y1 == y2 && z1 == z2),
    ensures
        box_index(size, x1, y1, z1) != box_index(size, x2, y2, z2),
{
    let sy = size.1 as int;
    let sz = size.2 as int;
    let a1 = x1 * sy + y1;
    let a2 = x2 * sy + y2;
    if a1 == a2 {
        if x1 != x2 {
            assert(false) by (nonlinear_arith)
                requires
                    x1 * sy + y1 == x2 * sy + y2,
                    x1 != x2,
                    0 <= y1 < sy,
                    0 <= y2 < sy,
            ;
        }
    } else {
        assert(a1 * sz + z1 != a2 * sz + z2) by (nonlinear_arith)
            requires
                a1 != a2,
                0 <= z1 < sz,
                0 <= z2 < sz,
        ;
    }
}

impl<V: RenderVoxel> RenderVolume for VoxelModel<V> {
    type VoxelType = V;

    open spec fn spec_size(&self) -> (u32, u32, u32) {
        self.model_size()
    }

    open spec fn spec_at(&self, x: int, y: int, z: int) -> Option<V> {
        self.voxel(x, y, z)
    }

    fn size(&self) -> (r: (u32, u32, u32)) {
        VoxelModel::size(self)
    }

    fn at_conv(&self, pos: Vec3) -> (r: Option<V>) {
        if 0 <= pos.x && pos.x <= u32::MAX as i64 && 0 <= pos.y && pos.y <= u32::MAX as i64 && 0
            <= pos.z && pos.z <= u32::MAX as i64 {
            self.at((pos.x as u32, pos.y as u32, pos.z as u32))
        } else {
            proof {
                use_type_invariant(self);
            }
            None
        }
    }
}

impl RenderVoxel for Block {
    open spec fn spec_palette(&self) -> u16 {
        (self.mat.grad as int * 256 + self.mat.index as int) as u16
    }

    open spec fn spec_mat(&self) -> RenderMaterial {
        if self.mat == (BlockMat { grad: 0x80, index: 3 }) {
            RenderMaterial { mat: spec_material_id(Material::Water), kind: MaterialKind::Water }
        } else {
            RenderMaterial {
                mat: spec_material_id(Material::MatteSmooth),
                kind: MaterialKind::Solid,
            }
        }
    }

    open spec fn spec_is_opaque(&self) -> bool {
        *self != Block::spec_water() && *self != Block::spec_air()
    }

    open spec fn spec_is_occupied(&self) -> bool {
        *self != Block::spec_air()
    }

    open spec fn spec_empty() -> Block {
        Block::spec_air()
    }

    fn empty() -> (r: Block) {
        Block::air()
    }

    fn get_palette(&self) -> (r: u16) {
        self.material().get_palette()
    }

    fn get_mat(&self) -> (r: RenderMaterial) {
        let m = self.material();
        if m.grad == 0x80 && m.index == 3 {
            RenderMaterial::new(Material::Water.id(), MaterialKind::Water)
        } else {
            RenderMaterial::new(Material::MatteSmooth.id(), MaterialKind::Solid)
        }
    }

    fn is_opaque(&self) -> (r: bool) {
        *self != Block::water() && *self != Block::air()
    }

    fn is_occupied(&self) -> (r: bool) {
        *self != Block::air()
    }
}

impl RenderVoxel for Cell {
    open spec fn spec_palette(&self) -> u16 {
        match self.mat {
            CellMaterial::Empty => 0,
            CellMaterial::GlossySmooth(c) => c as u16,
            CellMaterial::GlossyRough(c) => c as u16,
            CellMaterial::MatteSmooth(c) => c as u16,
            CellMaterial::MatteRough(c) => c as u16,
            CellMaterial::MetallicSmooth(c) => c as u16,
            CellMaterial::MetallicRough(c) => c as u16,
        }
    }

    open spec fn spec_mat(&self) -> RenderMaterial {
        match self.mat {
            CellMaterial::Empty => RenderMaterial { mat: 0, kind: MaterialKind::Empty },
            _ => RenderMaterial { mat: 0, kind: MaterialKind::Solid },
        }
    }

    open spec fn spec_is_opaque(&self) -> bool {
        self.spec_mat().spec_is_opaque()
    }

    open spec fn spec_is_occupied(&self) -> bool {
        self.spec_mat().spec_is_opaque()
    }

    open spec fn spec_empty() -> Cell {
        Cell { mat: CellMaterial::Empty }
    }

    fn empty() -> (r: Cell) {
        Cell { mat: CellMaterial::Empty }
    }

    fn get_palette(&self) -> (r: u16) {
        match self.material() {
            CellMaterial::Empty => 0,
            CellMaterial::GlossySmooth(c)
            | CellMaterial::GlossyRough(c)
            | CellMaterial::MatteSmooth(c)
            | CellMaterial::MatteRough(c)
            | CellMaterial::MetallicSmooth(c)
            | CellMaterial::MetallicRough(c) => c as u16,
        }
    }

    fn get_mat(&self) -> (r: RenderMaterial) {
        match self.material() {
            CellMaterial::Empty => RenderMaterial::new(0, MaterialKind::Empty),
            CellMaterial::GlossySmooth(_) => RenderMaterial::new(0, MaterialKind::Solid),
            CellMaterial::GlossyRough(_) => RenderMaterial::new(0, MaterialKind::Solid),
            CellMaterial::MatteSmooth(_) => RenderMaterial::new(0, MaterialKind::Solid),
            CellMaterial::MatteRough(_) => RenderMaterial::new(0, MaterialKind::Solid),
            CellMaterial::MetallicSmooth(_) => RenderMaterial::new(0, MaterialKind::Solid),
            CellMaterial::MetallicRough(_) => RenderMaterial::new(0, MaterialKind::Solid),
        }
    }

    fn is_opaque(&self) -> (r: bool) {
        self.get_mat().is_opaque()
    }

    fn is_occupied(&self) -> (r: bool) {
        self.get_mat().is_opaque()
    }
}

/// Every cell of a figure with a material is solid: it is drawn in the
/// solid pass, fills its place and hides what lies behind it; only an
/// empty cell is of the empty kind, fills nothing and hides nothing.
pub proof fn lemma_cell_solid_unless_empty(c: Cell)
    ensures
        !(c.mat is Empty) ==> <Cell as RenderVoxel>::spec_mat(&c).kind == MaterialKind::Solid
            && <Cell as RenderVoxel>::spec_is_occupied(&c) && <Cell as RenderVoxel>::spec_is_opaque(&c),
        c.mat is Empty ==> <Cell as RenderVoxel>::spec_mat(&c).kind == MaterialKind::Empty
            && !<Cell as RenderVoxel>::spec_is_occupied(&c) && !<Cell as RenderVoxel>::spec_is_opaque(&c),
{
}

/// A cell with a material is drawn in the colour its material carries; an
/// empty cell in colour 0.
pub proof fn lemma_cell_colour(c: Cell, col: u8)
    ensures
        (c.mat == CellMaterial::GlossySmooth(col) || c.mat == CellMaterial::GlossyRough(col) || c.mat
            == CellMaterial::MatteSmooth(col) || c.mat == CellMaterial::MatteRough(col) || c.mat
            == CellMaterial::MetallicSmooth(col) || c.mat == CellMaterial::MetallicRough(col))
            ==> <Cell as RenderVoxel>::spec_palette(&c) == col as u16,
        c.mat is Empty ==> <Cell as RenderVoxel>::spec_palette(&c) == 0,
{
}

/// Water (gradient 0x80, index 3) is drawn in the water pass, fills its
/// place and hides nothing; air (gradient 0, index 0) fills nothing and
/// hides nothing; every other block is solid: drawn in the solid pass,
/// filling its place and hiding what lies behind it.
pub proof fn lemma_block_kinds(b: Block)
    ensures
        b.mat == (BlockMat { grad: 0x80, index: 3 }) ==> <Block as RenderVoxel>::spec_mat(&b).kind
            == MaterialKind::Water && <Block as RenderVoxel>::spec_is_occupied(&b)
            && !<Block as RenderVoxel>::spec_is_opaque(&b),
        b.mat == (BlockMat { grad: 0, index: 0 }) ==> !<Block as RenderVoxel>::spec_is_occupied(&b)
            && !<Block as RenderVoxel>::spec_is_opaque(&b),
        b.mat != (BlockMat { grad: 0x80, index: 3 }) && b.mat != (BlockMat { grad: 0, index: 0 }) ==> <Block as RenderVoxel>::spec_mat(&b).kind
            == MaterialKind::Solid && <Block as RenderVoxel>::spec_is_occupied(&b)
            && <Block as RenderVoxel>::spec_is_opaque(&b),
{
}

} // verus!
