//! Blocks, cells and the materials they are drawn with.
//!
//! A block is a palette index with a gradient byte. The named blocks below
//! are this crate's palette.
use vstd::prelude::*;

verus! {

/// The material of a block: a gradient and a palette index.
#[derive(Clone, Copy, Debug, PartialEq, Eq, Structural)]
pub struct BlockMat {
    pub grad: u8,
    pub index: u8,
}

impl BlockMat {
    pub fn index(&self) -> (r: u8)
        ensures
            r == self.index,
    {
        self.index
    }

    /// The colour that the block is drawn with: gradient in the high byte,
    /// palette index in the low byte.
    pub fn get_palette(&self) -> (r: u16)
        ensures
            r == self.grad as int * 256 + self.index as int,
    {
        (self.grad as u16) * 256 + (self.index as u16)
    }
}

/// The first colour of the gradient that leaves are drawn with.
pub const GRAD2_A_LEAF0: u8 = 16;

/// The second colour of the gradient that leaves are drawn with.
pub const GRAD2_B_LEAF1: u8 = 17;

/// A block of the terrain.
#[derive(Clone, Copy, Debug, PartialEq, Eq, Structural)]
pub struct Block {
    pub mat: BlockMat,
}

impl Block {
    pub open spec fn spec_air() -> Block {
        Block { mat: BlockMat { grad: 0, index: 0 } }
    }

    #[verifier::when_used_as_spec(spec_air)]
    pub fn air() -> (r: Block)
        ensures
            r == Self::spec_air(),
    {
        Block { mat: BlockMat { grad: 0, index: 0 } }
    }

    pub open spec fn spec_water() -> Block {
        Block { mat: BlockMat { grad: 0x80, index: 3 } }
    }

    #[verifier::when_used_as_spec(spec_water)]
    pub fn water() -> (r: Block)
        ensures
            r == Self::spec_water(),
    {
        Block { mat: BlockMat { grad: 0x80, index: 3 } }
    }

    pub open spec fn spec_stone() -> Block {
        Block { mat: BlockMat { grad: 0, index: 1 } }
    }

    #[verifier::when_used_as_spec(spec_stone)]
    pub fn stone() -> (r: Block)
        ensures
            r == Self::spec_stone(),
    {
        Block { mat: BlockMat { grad: 0, index: 1 } }
    }

    pub open spec fn spec_sand() -> Block {
        Block { mat: BlockMat { grad: 0, index: 4 } }
    }

    #[verifier::when_used_as_spec(spec_sand)]
    pub fn sand() -> (r: Block)
        ensures
            r == Self::spec_sand(),
    {
        Block { mat: BlockMat { grad: 0, index: 4 } }
    }

    /// The block at position `x` of the two-colour gradient that starts at
    /// palette index `a`. This palette keeps the end colour `b` next to `a`,
    /// so the block records only the start and the position.
    pub fn gradient2(a: u8, b: u8, x: u8) -> (r: Block)
        ensures
            r == (Block { mat: BlockMat { grad: x, index: a } }),
    {
        Block { mat: BlockMat { grad: x, index: a } }
    }

    /// The block with palette index `index` and no gradient.
    pub fn from_byte(index: u8) -> (r: Block)
        ensures
            r == (Block { mat: BlockMat { grad: 0, index } }),
    {
        Block { mat: BlockMat { grad: 0, index } }
    }

    pub fn material(&self) -> (r: BlockMat)
        ensures
            r == self.mat,
    {
        self.mat
    }
}

/// The kinds of material, in the order they are drawn.
#[derive(Clone, Copy, Debug, PartialEq, Eq, Structural)]
pub enum MaterialKind {
    Empty,
    Solid,
    Translucent,
    Water,
}

/// The shading a material is drawn with.
#[derive(Clone, Copy, Debug, PartialEq, Eq, Structural)]
pub enum Material {
    MatteSmooth,
    Water,
}

impl Material {
    /// The number a vertex carries for this material.
    pub fn id(self) -> (r: u8)
        ensures
            r == spec_material_id(self),
    {
        match self {
            Material::MatteSmooth => 0,
            Material::Water => 1,
        }
    }
}

pub open spec fn spec_material_id(m: Material) -> u8 {
    match m {
        Material::MatteSmooth => 0,
        Material::Water => 1,
    }
}

/// The material of a voxel: its shading number and its kind.
#[derive(Clone, Copy, Debug, PartialEq, Eq, Structural)]
pub struct RenderMaterial {
    pub mat: u8,
    pub kind: MaterialKind,
}

impl RenderMaterial {
    pub fn new(mat: u8, kind: MaterialKind) -> (r: Self)
        ensures
            r.mat == mat,
            r.kind == kind,
    {
        RenderMaterial { mat, kind }
    }

    pub fn mat(&self) -> (r: u8)
        ensures
            r == self.mat,
    {
        self.mat
    }

    pub fn kind(&self) -> (r: MaterialKind)
        ensures
            r == self.kind,
    {
        self.kind
    }

    /// Whether nothing behind the material shows through it.
    pub open spec fn spec_is_opaque(&self) -> bool {
        self.kind == MaterialKind::Solid
    }

    pub fn is_opaque(&self) -> (r: bool)
        ensures
            r == self.spec_is_opaque(),
    {
        self.kind == MaterialKind::Solid
    }
}

/// The material of a cell of a figure.
#[derive(Clone, Copy, Debug, PartialEq, Eq, Structural)]
pub enum CellMaterial {
    Empty,
    GlossySmooth(u8),
    GlossyRough(u8),
    MatteSmooth(u8),
    MatteRough(u8),
    MetallicSmooth(u8),
    MetallicRough(u8),
}

/// A cell of a figure (a character or object model).
#[derive(Clone, Copy, Debug, PartialEq, Eq, Structural)]
pub struct Cell {
    pub mat: CellMaterial,
}

impl Cell {
    pub fn material(&self) -> (r: CellMaterial)
        ensures
            r == self.mat,
    {
        self.mat
    }
}

} // verus!
