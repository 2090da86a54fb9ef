//! Models read from MagicaVoxel `.vox` files.
use crate::voxel::block::{Block, BlockMat};
use crate::voxel::volume::{box_volume, in_box, VoxelModel};
use vstd::prelude::*;

verus! {

/// A voxel of a `.vox` model: its position and its palette index.
#[derive(Clone, Copy, Debug, PartialEq, Eq, Structural)]
pub struct VoxVoxel {
    pub x: u8,
    pub y: u8,
    pub z: u8,
    pub i: u8,
}

/// A model of a `.vox` file: its extent and its voxels, in file order.
pub struct VoxModelData {
    pub size: (u32, u32, u32),
    pub voxels: Vec<VoxVoxel>,
}

/// The models of a `.vox` file.
pub struct VoxData {
    pub models: Vec<VoxModelData>,
}

/// A model as plain values: its extent and its voxels.
pub type VoxModelView = ((u32, u32, u32), Seq<VoxVoxel>);

impl View for VoxData {
    type V = Seq<VoxModelView>;

    open spec fn view(&self) -> Seq<VoxModelView> {
        self.models@.map_values(|m: VoxModelData| (m.size, m.voxels@))
    }
}

/// The models that `dot_vox` reads from the bytes of a `.vox` file, or
/// `None` where it finds them not to be one.
pub uninterp spec fn vox_file_models(bytes: Seq<u8>) -> Option<Seq<VoxModelView>>;

/// Reads the bytes of a `.vox` file with `dot_vox::load_bytes`.
///
/// The models it finds are named by `vox_file_models`, each model given
/// as its size and its voxels in the order `dot_vox` lists them; on a
/// failure `dot_vox` answers with the message below.
#[verifier::external_body]
pub fn load_vox_bytes(bytes: &[u8]) -> (r: Result<VoxData, &'static str>)
    ensures
        match r {
            Ok(d) => vox_file_models(bytes@) == Some(d@),
            Err(e) => vox_file_models(bytes@) is None && e@ == "Not a valid MagicaVoxel .vox file"@,
        },
{
    let data = dot_vox::load_bytes(bytes)?;
    let models = data.models.iter().map(|m| VoxModelData {
        size: (m.size.x, m.size.y, m.size.z),
        voxels: m.voxels.iter().map(|v| VoxVoxel { x: v.x, y: v.y, z: v.z, i: v.i }).collect(),
    }).collect();
    Ok(VoxData { models })
}

/// The palette index of the voxel placed last at `(x, y, z)` by the first
/// `n` voxels of `vs`, if any of them lies there.
pub open spec fn spec_last_at(vs: Seq<VoxVoxel>, x: int, y: int, z: int, n: int) -> Option<u8>
    decreases n,
{
    if n <= 0 {
        None
    } else if vs[n - 1].x == x && vs[n - 1].y == y && vs[n - 1].z == z {
        Some(vs[n - 1].i)
    } else {
        spec_last_at(vs, x, y, z, n - 1)
    }
}

/// The terrain block of palette index `i`: the indices of the file's
/// markers (7 to 9, and 224 and up) leave air.
pub open spec fn spec_terrain_block(i: u8) -> Block {
    if (7 <= i <= 9) || 224 <= i {
        Block::spec_air()
    } else {
        Block { mat: BlockMat { grad: 0, index: i } }
    }
}

/// The block of palette index `i`, as a figure takes it.
pub open spec fn spec_figure_block(i: u8) -> Block {
    Block { mat: BlockMat { grad: 0, index: i } }
}

/// `m` is the model of extent `size` made by placing `vs` in order into
/// air, each palette index turned into a block by `terrain` (else by the
/// figure's reading); voxels outside the extent are dropped.
pub open spec fn placed(m: VoxelModel<Block>, size: (u32, u32, u32), vs: Seq<VoxVoxel>, n: int, terrain: bool) -> bool {
    &&& m.model_size() == size
    &&& forall|x: int, y: int, z: int|
        in_box(size, x, y, z) ==> #[trigger] m.voxel(x, y, z) == Some(
            match spec_last_at(vs, x, y, z, n) {
                Some(i) => if terrain {
                    spec_terrain_block(i)
                } else {
                    spec_figure_block(i)
                },
                None => Block::spec_air(),
            },
        )
}

/// Places `vs` in order into air of extent `size`.
fn place(size: (u32, u32, u32), vs: &Vec<VoxVoxel>, terrain: bool) -> (r: VoxelModel<Block>)
    requires
        box_volume(size) <= usize::MAX,
    ensures
        placed(r, size, vs@, vs@.len() as int, terrain),
{
    let mut m = VoxelModel::filled(size, Block::air());
    let mut k: usize = 0;
    while k < vs.len()
        invariant
            k <= vs@.len(),
            placed(m, size, vs@, k as int, terrain),
        decreases vs@.len() - k,
    {
        let v = vs[k];
        let b = if terrain {
            if (7 <= v.i && v.i <= 9) || 224 <= v.i {
                Block::air()
            } else {
                Block::from_byte(v.i)
            }
        } else {
            Block::from_byte(v.i)
        };
        m.set_at((v.x as u32, v.y as u32, v.z as u32), b);
        k += 1;
    }
    m
}

/// The terrain model of a `.vox` file: its first model, with the markers'
/// voxels left as air; a file without models gives an empty model.
pub fn dot_vox_to_hetero(vox: &VoxData) -> (r: VoxelModel<Block>)
    requires
        vox@.len() > 0 ==> box_volume(vox@[0].0) <= usize::MAX,
    ensures
        vox@.len() > 0 ==> placed(r, vox@[0].0, vox@[0].1, vox@[0].1.len() as int, true),
        vox@.len() == 0 ==> r.model_size() == (0u32, 0u32, 0u32),
{
    if vox.models.len() > 0 {
        let model = &vox.models[0];
        place(model.size, &model.voxels, true)
    } else {
        VoxelModel::filled((0, 0, 0), Block::air())
    }
}

/// The figure of a `.vox` file: its first model, every voxel kept.
pub fn vox_to_figure(vox: &VoxData) -> (r: VoxelModel<Block>)
    requires
        vox@.len() > 0,
        box_volume(vox@[0].0) <= usize::MAX,
    ensures
        placed(r, vox@[0].0, vox@[0].1, vox@[0].1.len() as int, false),
{
    let model = &vox.models[0];
    place(model.size, &model.voxels, false)
}

/// The terrain model read from the bytes of a `.vox` file; `None` where
/// they are not one, or where its first model is too large to hold.
pub fn terrain_model_from_bytes(bytes: &[u8]) -> (r: Option<VoxelModel<Block>>)
    ensures
        match vox_file_models(bytes@) {
            None => r is None,
            Some(ms) => if ms.len() > 0 && box_volume(ms[0].0) > usize::MAX {
                r is None
            } else {
                r matches Some(m) && (ms.len() > 0 ==> placed(m, ms[0].0, ms[0].1, ms[0].1.len() as int, true))
                    && (ms.len() == 0 ==> m.model_size() == (0u32, 0u32, 0u32))
            },
        },
{
    match load_vox_bytes(bytes) {
        Ok(vox) => {
            if vox.models.len() > 0 {
                let s = vox.models[0].size;
                if !fits_box(s) {
                    return None;
                }
            }
            Some(dot_vox_to_hetero(&vox))
        },
        Err(_) => None,
    }
}

/// The figure read from the bytes of a `.vox` file; `None` where they are
/// not one, where it has no model, or where its first model is too large
/// to hold.
pub fn figure_from_bytes(bytes: &[u8]) -> (r: Option<VoxelModel<Block>>)
    ensures
        match vox_file_models(bytes@) {
            None => r is None,
            Some(ms) => if ms.len() == 0 || box_volume(ms[0].0) > usize::MAX {
                r is None
            } else {
                r matches Some(m) && placed(m, ms[0].0, ms[0].1, ms[0].1.len() as int, false)
            },
        },
{
    match load_vox_bytes(bytes) {
        Ok(vox) => {
            if vox.models.len() == 0 || !fits_box(vox.models[0].size) {
                None
            } else {
                Some(vox_to_figure(&vox))
            }
        },
        Err(_) => None,
    }
}

/// Whether a box of extent `size` can be held: its volume fits in `usize`.
pub fn fits_box(size: (u32, u32, u32)) -> (r: bool)
    ensures
        r == (box_volume(size) <= usize::MAX),
{
    let x = size.0 as u128;
    let y = size.1 as u128;
    let z = size.2 as u128;
    assert(x * y <= 0xffff_ffff * 0xffff_ffff) by (nonlinear_arith)
        requires
            x <= 0xffff_ffff,
            y <= 0xffff_ffff,
    ;
    let a = x * y;
    assert(a * z <= 0xffff_ffff * 0xffff_ffff * 0xffff_ffff) by (nonlinear_arith)
        requires
            a <= 0xffff_ffff * 0xffff_ffff,
            z <= 0xffff_ffff,
    ;
    let b = a * z;
    assert(b == box_volume(size)) by (nonlinear_arith)
        requires
            a == size.0 * size.1,
            b == a * size.2,
    ;
    b <= usize::MAX as u128
}

} // verus!
