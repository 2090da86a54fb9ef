//! Towns, pyramids, forests and rocks laid over the terrain.
//!
//! Two jittered grids place structures. The coarse one picks, for each
//! region, what kind of place it is (a town, a pyramid, a forest or
//! nothing); the fine one picks, for each plot, what stands on it (a house,
//! a park, a tree, a rock or a pyramid). What the terrain is like at a point
//! reaches these choices as a few plain facts.
use crate::vec::{Vec2, Vec3};
use crate::voxel::block::{Block, BlockMat, GRAD2_A_LEAF0, GRAD2_B_LEAF1};
use crate::voxel::volume::VoxelModel;
use crate::world::cachegen::CacheGen;
use crate::world::gen::Gen;
use crate::world::structure::{
    lemma_candidates_near,
    lemma_nearest_near,
    modest,
    reach,
    spec_dice,
    within_reach,
    DistFn,
    StructureGen,
};
use vstd::prelude::*;

verus! {

/// The group of house models.
pub const IDX_BUILDINGS: usize = 0;

/// The group of trees of temperate forests.
pub const IDX_TREES_TEMPERATE: usize = 1;

/// The group of trees of tropical forests.
pub const IDX_TREES_TROPICAL: usize = 2;

/// What the town layer puts at a position: a block for the ground surface
/// and a block for the position itself, each only where it has one.
#[derive(Clone, Copy, Debug, PartialEq, Eq, Structural)]
pub struct Out {
    pub surface: Option<Block>,
    pub block: Option<Block>,
}

#[derive(Clone, Copy, Debug, PartialEq, Eq, Structural)]
pub enum ForestKind {
    Tropical,
    Temperate,
    Taiga,
    Desert,
}

/// What kind of place a region is.
#[derive(Clone, Copy, Debug, PartialEq, Eq, Structural)]
pub enum CityResult {
    Town,
    Pyramid { height: u64, z: i64 },
    Forest { kind: ForestKind, density: u64 },
    /// Nothing in particular.
    Empty,
}

/// A model of a group of the model library.
#[derive(Clone, Copy, Debug, PartialEq, Eq, Structural)]
pub struct ModelRef {
    pub group: usize,
    pub index: usize,
}

/// What stands on a plot.
#[derive(Clone, Copy, Debug, PartialEq, Eq, Structural)]
pub enum BuildingResult {
    /// A house model, turned so that its axes run along `unit_x` and `unit_y`.
    House { model: ModelRef, unit_x: Vec2, unit_y: Vec2 },
    Park,
    /// A tree model, its leaves drawn with `leaf_block`, shrunk by
    /// `scale_inv / 256`.
    Tree { model: ModelRef, leaf_block: Block, scale_inv: u64, unit_x: Vec2, unit_y: Vec2 },
    Rock,
    Pyramid { height: u64 },
    /// Nothing.
    Empty,
}

/// A region's point and what kind of place it is.
pub type CityGenOut = (Vec2, CityResult);

/// A plot's base and what stands on it.
pub type BuildingGenOut = (Vec3, BuildingResult);

/// What the town layer knows of a column: the plot the column belongs to,
/// and the plots of the nine cells around it.
pub type InvariantZ = (BuildingGenOut, [BuildingGenOut; 9]);

/// What the choice of a region's kind reads of the terrain at its point.
#[derive(Clone, Copy, Debug, PartialEq, Eq, Structural)]
pub struct CityTerrain {
    /// Dry, above the sea and low: a site for a town.
    pub town_site: bool,
    /// Hot, above the sea, not too dry and low: a site for a pyramid.
    pub pyramid_site: bool,
    /// Wet enough for a forest.
    pub forest_site: bool,
    /// Warm enough for a tropical forest.
    pub warm: bool,
    /// Cold enough for taiga.
    pub cold: bool,
    /// The altitude of the ground.
    pub z_alt: i32,
}

/// What the choice of a plot's use reads of the terrain at the plot.
#[derive(Clone, Copy, Debug, PartialEq, Eq, Structural)]
pub struct BuildingTerrain {
    /// Dry land above the sea: a house or a forest tree can stand here.
    pub building_site: bool,
    /// Cool and fairly dry land above the sea: a lone tree can grow here.
    pub wild_tree_site: bool,
    /// The altitude of the ground.
    pub z_alt: i32,
    /// Where along the leaf gradient the leaves of a tree here lie.
    pub leaf_shade: u8,
}

/// The models that towns and forests are built from, in three groups.
pub struct TownModels {
    pub buildings: Vec<VoxelModel<Block>>,
    pub trees_temperate: Vec<VoxelModel<Block>>,
    pub trees_tropical: Vec<VoxelModel<Block>>,
}

impl TownModels {
    /// The models of group `g`.
    pub open spec fn group(&self, g: int) -> Seq<VoxelModel<Block>> {
        if g == IDX_BUILDINGS {
            self.buildings@
        } else if g == IDX_TREES_TEMPERATE {
            self.trees_temperate@
        } else {
            self.trees_tropical@
        }
    }

    /// Every group holds a model.
    pub open spec fn complete(&self) -> bool {
        &&& self.buildings@.len() > 0
        &&& self.trees_temperate@.len() > 0
        &&& self.trees_tropical@.len() > 0
    }

    /// `m` names a model of this library.
    pub open spec fn holds(&self, m: ModelRef) -> bool {
        m.group < 3 && m.index < self.group(m.group as int).len()
    }

    pub open spec fn spec_model(&self, m: ModelRef) -> VoxelModel<Block> {
        self.group(m.group as int)[m.index as int]
    }

    /// Whether every group holds a model.
    pub fn is_complete(&self) -> (r: bool)
        ensures
            r == self.complete(),
    {
        self.buildings.len() > 0 && self.trees_temperate.len() > 0 && self.trees_tropical.len() > 0
    }

    pub fn group_len(&self, g: usize) -> (r: usize)
        requires
            g < 3,
        ensures
            r == self.group(g as int).len(),
    {
        if g == IDX_BUILDINGS {
            self.buildings.len()
        } else if g == IDX_TREES_TEMPERATE {
            self.trees_temperate.len()
        } else {
            self.trees_tropical.len()
        }
    }

    pub fn model(&self, m: ModelRef) -> (r: &VoxelModel<Block>)
        requires
            self.holds(m),
        ensures
            *r == self.spec_model(m),
    {
        if m.group == IDX_BUILDINGS {
            &self.buildings[m.index]
        } else if m.group == IDX_TREES_TEMPERATE {
            &self.trees_temperate[m.index]
        } else {
            &self.trees_tropical[m.index]
        }
    }
}

/// The kind of forest that grows where the terrain is `t`.
pub open spec fn spec_forest_kind(t: CityTerrain) -> ForestKind {
    if t.warm {
        ForestKind::Tropical
    } else if t.cold {
        ForestKind::Taiga
    } else {
        ForestKind::Temperate
    }
}

/// The kind of place the region whose point is `pos` is, on terrain `t`.
pub open spec fn spec_gen_city(pos: Vec2, t: CityTerrain) -> CityGenOut {
    let d = spec_dice(pos);
    (
        pos,
        if t.town_site && d & 0xFF < 26 {
            CityResult::Town
        } else if t.pyramid_site && d & 0xFF < 26 {
            CityResult::Pyramid { height: (64 + d % 64) as u64, z: t.z_alt as i64 }
        } else if t.forest_site && d & 0xFF < 128 {
            CityResult::Forest { kind: spec_forest_kind(t), density: (50 + d % 206) as u64 }
        } else {
            CityResult::Empty
        },
    )
}

/// Chooses what kind of place the region whose point is `pos` is: a town,
/// a pyramid, a forest or nothing, by the terrain there and the dice.
pub fn gen_city(sg: &StructureGen, pos: Vec2, t: &CityTerrain) -> (r: CityGenOut)
    ensures
        r == spec_gen_city(pos, *t),
{
    (
        pos,
        if t.town_site && sg.throw_dice(pos, 0) & 0xFF < 26 {
            CityResult::Town
        } else if t.pyramid_site && sg.throw_dice(pos, 1) & 0xFF < 26 {
            CityResult::Pyramid { height: 64 + sg.throw_dice(pos, 0) % 64, z: t.z_alt as i64 }
        } else if t.forest_site && sg.throw_dice(pos, 0) & 0xFF < 128 {
            CityResult::Forest {
                kind: if t.warm {
                    ForestKind::Tropical
                } else if t.cold {
                    ForestKind::Taiga
                } else {
                    ForestKind::Temperate
                },
                density: 50 + sg.throw_dice(pos, 0) % 206,
            }
        } else {
            CityResult::Empty
        },
    )
}

/// A unit step along the x axis, backward when bit 1 of `d` is set.
pub open spec fn spec_unit_x(d: u64) -> Vec2 {
    Vec2 { x: if d & 2 == 0 { 1i64 } else { -1i64 }, y: 0 }
}

/// A unit step along the y axis, backward when bit 1 of `d` is set.
pub open spec fn spec_unit_y(d: u64) -> Vec2 {
    Vec2 { x: 0, y: if d & 2 == 0 { 1i64 } else { -1i64 } }
}

fn unit_x(d: u64) -> (r: Vec2)
    ensures
        r == spec_unit_x(d),
{
    Vec2 { x: if d & 2 == 0 { 1 } else { -1 }, y: 0 }
}

fn unit_y(d: u64) -> (r: Vec2)
    ensures
        r == spec_unit_y(d),
{
    Vec2 { x: 0, y: if d & 2 == 0 { 1 } else { -1 } }
}

/// The block leaves are drawn with at shade `shade`.
pub open spec fn spec_leaf_block(shade: u8) -> Block {
    Block { mat: BlockMat { grad: shade, index: GRAD2_A_LEAF0 } }
}

/// The model of group `g` that the dice `d` picks.
pub open spec fn spec_pick(models: &TownModels, g: usize, d: u64) -> ModelRef {
    ModelRef { group: g, index: ((d as usize) as int % (models.group(g as int).len() as int)) as usize }
}

/// A tree of group `g` for dice `d`, with leaves of shade `shade`.
pub open spec fn spec_tree(models: &TownModels, g: usize, d: u64, shade: u8) -> BuildingResult {
    BuildingResult::Tree {
        model: spec_pick(models, g, d),
        leaf_block: spec_leaf_block(shade),
        scale_inv: (256 + d % 256) as u64,
        unit_x: spec_unit_x(d),
        unit_y: spec_unit_y(d),
    }
}

/// What stands on the plot whose point is `pos`, on terrain `t`, in the
/// region `city`.
pub open spec fn spec_gen_building(
    models: &TownModels,
    pos: Vec2,
    t: BuildingTerrain,
    city: CityGenOut,
) -> BuildingGenOut {
    let d = spec_dice(pos);
    match city.1 {
        CityResult::Town => (
            Vec3 { x: pos.x, y: pos.y, z: (t.z_alt as i64 - 8) as i64 },
            if t.building_site && d % 256 < 128 {
                BuildingResult::House {
                    model: spec_pick(models, IDX_BUILDINGS, d),
                    unit_x: spec_unit_x(d),
                    unit_y: spec_unit_y(d),
                }
            } else {
                BuildingResult::Park
            },
        ),
        CityResult::Pyramid { height, z } => (
            Vec3 { x: city.0.x, y: city.0.y, z },
            BuildingResult::Pyramid { height },
        ),
        CityResult::Forest { kind, density } => (
            Vec3 { x: pos.x, y: pos.y, z: (t.z_alt as i64 - 1) as i64 },
            if t.building_site && d % 256 < density {
                spec_tree(
                    models,
                    if kind == ForestKind::Tropical {
                        IDX_TREES_TROPICAL
                    } else {
                        IDX_TREES_TEMPERATE
                    },
                    d,
                    t.leaf_shade,
                )
            } else {
                BuildingResult::Empty
            },
        ),
        CityResult::Empty => if d % 50 < 3 {
            (Vec3 { x: pos.x, y: pos.y, z: t.z_alt as i64 }, BuildingResult::Rock)
        } else if d & 0xFF < 150 && t.wild_tree_site {
            (
                Vec3 { x: pos.x, y: pos.y, z: (t.z_alt as i64 - 1) as i64 },
                spec_tree(models, IDX_TREES_TEMPERATE, d, t.leaf_shade),
            )
        } else {
            (Vec3 { x: pos.x, y: pos.y, z: (t.z_alt as i64 - 8) as i64 }, BuildingResult::Empty)
        },
    }
}

/// The group of models that the plot whose point is `pos`, on terrain `t`
/// in the region `city`, picks a model from, where it picks one.
pub open spec fn spec_picked_group(pos: Vec2, t: BuildingTerrain, city: CityGenOut) -> Option<usize> {
    let d = spec_dice(pos);
    match city.1 {
        CityResult::Town => if t.building_site && d % 256 < 128 {
            Some(IDX_BUILDINGS)
        } else {
            None
        },
        CityResult::Pyramid { .. } => None,
        CityResult::Forest { kind, density } => if t.building_site && d % 256 < density {
            Some(
                if kind == ForestKind::Tropical {
                    IDX_TREES_TROPICAL
                } else {
                    IDX_TREES_TEMPERATE
                },
            )
        } else {
            None
        },
        CityResult::Empty => if d % 50 < 3 {
            None
        } else if d & 0xFF < 150 && t.wild_tree_site {
            Some(IDX_TREES_TEMPERATE)
        } else {
            None
        },
    }
}

/// The plot whose point is `pos` can be built from `models`: the group it
/// picks a model from, if any, holds one.
pub open spec fn can_build(models: &TownModels, pos: Vec2, t: BuildingTerrain, city: CityGenOut) -> bool {
    match spec_picked_group(pos, t, city) {
        Some(g) => models.group(g as int).len() > 0,
        None => true,
    }
}

/// Chooses what stands on the plot whose point is `pos`: in a town a house
/// or a park, in a forest a tree or nothing, on a pyramid's region the
/// pyramid, elsewhere now and then a rock or a lone tree.
#[verifier::spinoff_prover]
pub fn gen_building(
    models: &TownModels,
    sg: &StructureGen,
    pos: Vec2,
    t: &BuildingTerrain,
    city: CityGenOut,
) -> (r: BuildingGenOut)
    requires
        can_build(models, pos, *t, city),
    ensures
        r == spec_gen_building(models, pos, *t, city),
{
    match city.1 {
        CityResult::Town => (
            Vec3::new(pos.x, pos.y, t.z_alt as i64 - 8),
            if t.building_site && sg.throw_dice(pos, 0) % 256 < 128 {
                BuildingResult::House {
                    model: ModelRef {
                        group: IDX_BUILDINGS,
                        index: (sg.throw_dice(pos, 1) as usize) % models.group_len(IDX_BUILDINGS),
                    },
                    unit_x: unit_x(sg.throw_dice(pos, 2)),
                    unit_y: unit_y(sg.throw_dice(pos, 3)),
                }
            } else {
                BuildingResult::Park
            },
        ),
        CityResult::Pyramid { height, z } => (
            Vec3::new(city.0.x, city.0.y, z),
            BuildingResult::Pyramid { height },
        ),
        CityResult::Forest { kind, density } => (
            Vec3::new(pos.x, pos.y, t.z_alt as i64 - 1),
            if t.building_site && sg.throw_dice(pos, 1) % 256 < density {
                let g = match kind {
                    ForestKind::Temperate => IDX_TREES_TEMPERATE,
                    ForestKind::Tropical => IDX_TREES_TROPICAL,
                    _ => IDX_TREES_TEMPERATE,
                };
                BuildingResult::Tree {
                    model: ModelRef {
                        group: g,
                        index: (sg.throw_dice(pos, 2) as usize) % models.group_len(g),
                    },
                    leaf_block: Block::gradient2(GRAD2_A_LEAF0, GRAD2_B_LEAF1, t.leaf_shade),
                    scale_inv: 256 + sg.throw_dice(pos, 3) % 256,
                    unit_x: unit_x(sg.throw_dice(pos, 4)),
                    unit_y: unit_y(sg.throw_dice(pos, 5)),
                }
            } else {
                BuildingResult::Empty
            },
        ),
        CityResult::Empty => {
            if sg.throw_dice(pos, 0) % 50 < 3 {
                (Vec3::new(pos.x, pos.y, t.z_alt as i64), BuildingResult::Rock)
            } else if sg.throw_dice(pos, 0) & 0xFF < 150 && t.wild_tree_site {
                (
                    Vec3::new(pos.x, pos.y, t.z_alt as i64 - 1),
                    BuildingResult::Tree {
                        model: ModelRef {
                            group: IDX_TREES_TEMPERATE,
                            index: (sg.throw_dice(pos, 1) as usize) % models.group_len(
                                IDX_TREES_TEMPERATE,
                            ),
                        },
                        leaf_block: Block::gradient2(GRAD2_A_LEAF0, GRAD2_B_LEAF1, t.leaf_shade),
                        scale_inv: 256 + sg.throw_dice(pos, 3) % 256,
                        unit_x: unit_x(sg.throw_dice(pos, 2)),
                        unit_y: unit_y(sg.throw_dice(pos, 2)),
                    },
                )
            } else {
                (Vec3::new(pos.x, pos.y, t.z_alt as i64 - 8), BuildingResult::Empty)
            }
        },
    }
}

/// `a / b` rounded toward zero, as Rust's `/` on integers does.
pub open spec fn tdiv(a: int, b: int) -> int {
    if a >= 0 {
        a / b
    } else {
        -((-a) / b)
    }
}

/// The remainder that goes with `tdiv`, as Rust's `%` on integers gives it.
pub open spec fn trem(a: int, b: int) -> int {
    a - b * tdiv(a, b)
}

/// Each component of `u` is -1, 0 or 1.
pub open spec fn unit_ok(u: Vec2) -> bool {
    -1 <= u.x <= 1 && -1 <= u.y <= 1
}

/// A plot as the placement makes it: its model in the library, its axes
/// unit steps, its scale moderate.
pub open spec fn building_ok(models: &TownModels, b: BuildingGenOut) -> bool {
    match b.1 {
        BuildingResult::House { model, unit_x, unit_y } => models.holds(model) && unit_ok(unit_x)
            && unit_ok(unit_y),
        BuildingResult::Tree { model, scale_inv, unit_x, unit_y, .. } => models.holds(model)
            && scale_inv <= 0x1_0000 && unit_ok(unit_x) && unit_ok(unit_y),
        _ => true,
    }
}

/// The position in a model, turned by `ux` and `uy`, of the offset
/// `(rx, ry)` from the model's base.
pub open spec fn turned(ux: Vec2, uy: Vec2, rx: int, ry: int) -> (int, int) {
    (ux.x * rx + uy.x * ry, ux.y * rx + uy.y * ry)
}

/// The block of the house model `m` based at `base` that covers `pos`:
/// the model is centred on its base and turned by `ux` and `uy`.
pub open spec fn spec_house_block(
    m: VoxelModel<Block>,
    pos: Vec3,
    base: Vec3,
    ux: Vec2,
    uy: Vec2,
) -> Option<Block> {
    let s = m.model_size();
    let w = turned(ux, uy, pos.x - base.x, pos.y - base.y);
    m.voxel(
        ((w.0 + s.0 / 2) as u32) as int,
        ((w.1 + s.1 / 2) as u32) as int,
        ((pos.z - base.z) as u32) as int,
    )
}

/// The block of the tree model `m` based at `base` that covers `pos`: the
/// model is shrunk by `scale_inv / 256`, centred and turned; its leaves
/// (index 15) take `leaf`, its other blocks lose their gradient.
pub open spec fn spec_tree_block(
    m: VoxelModel<Block>,
    pos: Vec3,
    base: Vec3,
    leaf: Block,
    scale_inv: u64,
    ux: Vec2,
    uy: Vec2,
) -> Option<Block> {
    let s = m.model_size();
    let w = turned(ux, uy, pos.x - base.x, pos.y - base.y);
    let vx = tdiv(w.0 * scale_inv, 256) + s.0 / 2;
    let vy = tdiv(w.1 * scale_inv, 256) + s.1 / 2;
    let vz = tdiv((pos.z - base.z) * scale_inv, 256);
    match m.voxel((vx as u32) as int, (vy as u32) as int, (vz as u32) as int) {
        Some(b) => Some(
            if b.mat.index == 15 {
                leaf
            } else {
                Block { mat: BlockMat { grad: 0, index: b.mat.index } }
            },
        ),
        None => None,
    }
}

/// `pos` lies within distance 8 of the centre of a rock at `base`.
pub open spec fn spec_rock_hit(pos: Vec3, base: Vec3) -> bool {
    let dx = pos.x - base.x;
    let dy = pos.y - base.y;
    let dz = pos.z - base.z;
    dx * dx + dy * dy + dz * dz < 64
}

/// The larger of the absolute values of `a` and `b`.
pub open spec fn max_abs(a: int, b: int) -> int {
    let x = if a < 0 { -a } else { a };
    let y = if b < 0 { -b } else { b };
    if x >= y { x } else { y }
}

/// The smaller of the absolute values of `a` and `b`.
pub open spec fn min_abs(a: int, b: int) -> int {
    let x = if a < 0 { -a } else { a };
    let y = if b < 0 { -b } else { b };
    if x <= y { x } else { y }
}

/// How far into a tunnel cell of side `s` the bore reaches: seven blocks
/// across a tunnel, all but the last block along it.
pub open spec fn bore_limit(s: int) -> int {
    if s == 24 {
        7
    } else {
        s - 1
    }
}

/// A tunnel through a pyramid: the cells of `sx` by `sy` by `sz` blocks
/// (counted from `t`) whose dice is even are bored up to `bore_limit`
/// along each axis. The dice is that of the cell's x and y.
pub open spec fn spec_tunnel(t: Vec3, sx: int, sy: int, sz: int) -> bool {
    &&& spec_dice(Vec2 { x: tdiv(t.x as int, sx) as i64, y: tdiv(t.y as int, sy) as i64 }) % 2 == 0
    &&& trem(t.x as int, sx) < bore_limit(sx)
    &&& trem(t.y as int, sy) < bore_limit(sy)
    &&& trem(t.z as int, sz) < bore_limit(sz)
}

/// `t` lies in one of the three kinds of tunnel, along x, along y or
/// upward.
pub open spec fn spec_bored(t: Vec3) -> bool {
    spec_tunnel(t, 96, 24, 24) || spec_tunnel(t, 24, 96, 24) || spec_tunnel(t, 24, 24, 48)
}

/// `pos` is sand of the pyramid of `height` based at `base`: under its
/// sloped top, off its cross of walkways, and outside its tunnels.
pub open spec fn spec_pyramid_hit(pos: Vec3, base: Vec3, height: u64) -> bool {
    let rx = pos.x - base.x;
    let ry = pos.y - base.y;
    let h = base.z + height - max_abs(rx, ry);
    let t = Vec3 { x: (pos.x + 2) as i64, y: (pos.y + 2) as i64, z: (pos.z + 2) as i64 };
    &&& pos.z < h
    &&& !(min_abs(rx, ry) < 2 && trem(pos.z as int, 25) < 4)
    &&& !(pos.z < h - 6 && spec_bored(t))
}

/// The tunnel cell of `t` along `(sx, sy, sz)` is bored up to `(lx, ly, lz)`:
/// the dice of its x and y cell is even and `t` lies within the limits.
pub open spec fn shaft(t: Vec3, sx: int, sy: int, sz: int, lx: int, ly: int, lz: int) -> bool {
    &&& spec_dice(Vec2 { x: tdiv(t.x as int, sx) as i64, y: tdiv(t.y as int, sy) as i64 }) % 2 == 0
    &&& trem(t.x as int, sx) < lx
    &&& trem(t.y as int, sy) < ly
    &&& trem(t.z as int, sz) < lz
}

/// A pyramid of `height` based at `base` is sand at `pos` exactly when
/// `pos` is under its sloped top (the top falls by one for each step away
/// from the base along the farther axis), not on its walkways (within one
/// step of the base's axes, at every 25 levels the first four), and not
/// bored out: deeper than six under the top, the position moved by two
/// along every axis must not lie in a tunnel along x (cells 96 by 24 by 24,
/// bored 95 by 7 by 7), along y (24 by 96 by 24, bored 7 by 95 by 7) or
/// upward (24 by 24 by 48, bored 7 by 7 by 47).
pub proof fn lemma_pyramid_sand(pos: Vec3, base: Vec3, height: u64)
    ensures
        ({
            let rx = pos.x - base.x;
            let ry = pos.y - base.y;
            let ax = if rx < 0 { -rx } else { rx };
            let ay = if ry < 0 { -ry } else { ry };
            let top = base.z + height - (if ax >= ay { ax } else { ay });
            let t = Vec3 { x: (pos.x + 2) as i64, y: (pos.y + 2) as i64, z: (pos.z + 2) as i64 };
            let walkway = (if ax <= ay { ax } else { ay }) < 2 && trem(pos.z as int, 25) < 4;
            let bored = shaft(t, 96, 24, 24, 95, 7, 7) || shaft(t, 24, 96, 24, 7, 95, 7) || shaft(
                t,
                24,
                24,
                48,
                7,
                7,
                47,
            );
            spec_pyramid_hit(pos, base, height) <==> (pos.z < top && !walkway && !(pos.z < top - 6
                && bored))
        }),
{
}

/// The block at `pos` after the plot `b` has had its say, `prev` before.
pub open spec fn spec_apply_building(
    models: &TownModels,
    pos: Vec3,
    prev: Option<Block>,
    b: BuildingGenOut,
) -> Option<Block> {
    match b.1 {
        BuildingResult::House { model, unit_x, unit_y } => spec_house_block(
            models.spec_model(model),
            pos,
            b.0,
            unit_x,
            unit_y,
        ),
        BuildingResult::Rock => if spec_rock_hit(pos, b.0) {
            Some(Block::spec_stone())
        } else {
            prev
        },
        BuildingResult::Tree { model, leaf_block, scale_inv, unit_x, unit_y } => spec_tree_block(
            models.spec_model(model),
            pos,
            b.0,
            leaf_block,
            scale_inv,
            unit_x,
            unit_y,
        ),
        BuildingResult::Pyramid { height } => if spec_pyramid_hit(pos, b.0, height) {
            Some(Block::spec_sand())
        } else {
            prev
        },
        _ => prev,
    }
}

/// `b` is a block other than air.
pub open spec fn solid(b: Option<Block>) -> bool {
    b matches Some(x) && x != Block::spec_air()
}

/// The block at `pos` after the first `n` plots of `bs`, in order, have had
/// their say; once one has put a block other than air there, the later ones
/// are not asked.
pub open spec fn spec_scan_buildings(
    models: &TownModels,
    pos: Vec3,
    bs: Seq<BuildingGenOut>,
    n: nat,
) -> Option<Block>
    decreases n,
{
    if n == 0 {
        None
    } else {
        let prev = spec_scan_buildings(models, pos, bs, (n - 1) as nat);
        if solid(prev) {
            prev
        } else {
            spec_apply_building(models, pos, prev, bs[n - 1])
        }
    }
}

/// Once a plot has put a block other than air at a position, the plots
/// after it do not change it.
pub proof fn lemma_first_solid_wins(
    models: &TownModels,
    pos: Vec3,
    bs: Seq<BuildingGenOut>,
    k: nat,
    n: nat,
)
    requires
        k <= n,
        solid(spec_scan_buildings(models, pos, bs, k)),
    ensures
        spec_scan_buildings(models, pos, bs, n) == spec_scan_buildings(models, pos, bs, k),
    decreases n,
{
    if n > k {
        lemma_first_solid_wins(models, pos, bs, k, (n - 1) as nat);
    }
}

/// A rock puts stone (index 1, gradient 0) at every position whose squared
/// distance from its base is below 64, and leaves every other position as
/// it was.
pub proof fn lemma_rock_stone(models: &TownModels, pos: Vec3, prev: Option<Block>, base: Vec3)
    ensures
        ({
            let dx = pos.x - base.x;
            let dy = pos.y - base.y;
            let dz = pos.z - base.z;
            spec_apply_building(models, pos, prev, (base, BuildingResult::Rock)) == if dx * dx + dy * dy
                + dz * dz < 64 {
                Some(Block { mat: BlockMat { grad: 0, index: 1 } })
            } else {
                prev
            }
        }),
{
}

/// Only a house lays a path: where the column lies farther than 10 from the
/// house's base (squared distance above 100), the surface is one of the
/// path blocks 109 to 113, picked by the column's dice; nearer, or for any
/// other plot, there is no surface block.
pub proof fn lemma_path_surface(pos: Vec3, b: BuildingGenOut)
    ensures
        ({
            let rx = pos.x - b.0.x;
            let ry = pos.y - b.0.y;
            let d = spec_dice(Vec2 { x: pos.x, y: pos.y });
            &&& spec_surface(pos, b) is Some <==> (b.1 is House && rx * rx + ry * ry > 100)
            &&& spec_surface(pos, b) matches Some(x) ==> x.mat.grad == 0 && 109 <= x.mat.index <= 113
                && x.mat.index == 109 + d % 5
        }),
{
    let d = spec_dice(Vec2 { x: pos.x, y: pos.y });
    assert(d % 5 < 5);
}

/// The path around a house: farther than 10 from the house's base, the
/// surface is one of five path blocks, picked by the dice of the column.
pub open spec fn spec_surface(pos: Vec3, b: BuildingGenOut) -> Option<Block> {
    match b.1 {
        BuildingResult::House { .. } => {
            let rx = pos.x - b.0.x;
            let ry = pos.y - b.0.y;
            if rx * rx + ry * ry > 100 {
                Some(
                    Block {
                        mat: BlockMat {
                            grad: 0,
                            index: (109 + spec_dice(Vec2 { x: pos.x, y: pos.y }) % 5) as u8,
                        },
                    },
                )
            } else {
                None
            }
        },
        _ => None,
    }
}

/// What the town layer puts at `pos`, knowing the plots around its column.
pub open spec fn spec_town_sample(models: &TownModels, pos: Vec3, inv: InvariantZ) -> Out {
    Out { surface: spec_surface(pos, inv.0), block: spec_scan_buildings(models, pos, inv.1@, 9) }
}

/// The plots of `inv` are all as the placement makes them.
pub open spec fn invariant_ok(models: &TownModels, inv: InvariantZ) -> bool {
    &&& building_ok(models, inv.0)
    &&& forall|k: int| 0 <= k < 9 ==> building_ok(models, #[trigger] inv.1@[k])
}

proof fn lemma_unit_mul(a: i64, r: int)
    requires
        -1 <= a <= 1,
    ensures
        a * r == if a == 0 { 0 } else if a == 1 { r } else { -r },
{
    if a == 0 {
        assert(a * r == 0);
    } else if a == 1 {
        assert(a * r == r);
    } else {
        assert(a == -1);
        assert(a * r == -r);
    }
}

/// The offset `(rx, ry)` turned by `ux` and `uy`.
fn turn(ux: Vec2, uy: Vec2, rx: i128, ry: i128) -> (r: (i128, i128))
    requires
        unit_ok(ux),
        unit_ok(uy),
        -0x1_0000_0000_0000_0000 <= rx <= 0x1_0000_0000_0000_0000,
        -0x1_0000_0000_0000_0000 <= ry <= 0x1_0000_0000_0000_0000,
    ensures
        (r.0 as int, r.1 as int) == turned(ux, uy, rx as int, ry as int),
        -0x2_0000_0000_0000_0000 <= r.0 <= 0x2_0000_0000_0000_0000,
        -0x2_0000_0000_0000_0000 <= r.1 <= 0x2_0000_0000_0000_0000,
{
    proof {
        lemma_unit_mul(ux.x, rx as int);
        lemma_unit_mul(uy.x, ry as int);
        lemma_unit_mul(ux.y, rx as int);
        lemma_unit_mul(uy.y, ry as int);
    }
    ((ux.x as i128) * rx + (uy.x as i128) * ry, (ux.y as i128) * rx + (uy.y as i128) * ry)
}

/// `a - b`, which always fits in `i128`.
fn diff(a: i64, b: i64) -> (r: i128)
    ensures
        r == a - b,
{
    a as i128 - b as i128
}

fn house_block(m: &VoxelModel<Block>, pos: Vec3, base: Vec3, ux: Vec2, uy: Vec2) -> (r: Option<Block>)
    requires
        unit_ok(ux),
        unit_ok(uy),
    ensures
        r == spec_house_block(*m, pos, base, ux, uy),
{
    let s = m.size();
    let w = turn(ux, uy, diff(pos.x, base.x), diff(pos.y, base.y));
    let vx = w.0 + (s.0 / 2) as i128;
    let vy = w.1 + (s.1 / 2) as i128;
    let vz = diff(pos.z, base.z);
    m.at((vx as u32, vy as u32, vz as u32))
}

#[verifier::spinoff_prover]
fn tree_block(
    m: &VoxelModel<Block>,
    pos: Vec3,
    base: Vec3,
    leaf: Block,
    scale_inv: u64,
    ux: Vec2,
    uy: Vec2,
) -> (r: Option<Block>)
    requires
        unit_ok(ux),
        unit_ok(uy),
        scale_inv <= 0x1_0000,
    ensures
        r == spec_tree_block(*m, pos, base, leaf, scale_inv, ux, uy),
{
    let s = m.size();
    let w = turn(ux, uy, diff(pos.x, base.x), diff(pos.y, base.y));
    let k = scale_inv as i128;
    let dz = diff(pos.z, base.z);
    assert(-0x2_0000_0000_0000_0000 * 0x1_0000 <= w.0 * k <= 0x2_0000_0000_0000_0000 * 0x1_0000)
        by (nonlinear_arith)
        requires
            -0x2_0000_0000_0000_0000 <= w.0 <= 0x2_0000_0000_0000_0000,
            0 <= k <= 0x1_0000,
    ;
    assert(-0x2_0000_0000_0000_0000 * 0x1_0000 <= w.1 * k <= 0x2_0000_0000_0000_0000 * 0x1_0000)
        by (nonlinear_arith)
        requires
            -0x2_0000_0000_0000_0000 <= w.1 <= 0x2_0000_0000_0000_0000,
            0 <= k <= 0x1_0000,
    ;
    assert(-0x2_0000_0000_0000_0000 * 0x1_0000 <= dz * k <= 0x2_0000_0000_0000_0000 * 0x1_0000)
        by (nonlinear_arith)
        requires
            -0x2_0000_0000_0000_0000 <= dz <= 0x2_0000_0000_0000_0000,
            0 <= k <= 0x1_0000,
    ;
    let vx = (w.0 * k) / 256 + (s.0 / 2) as i128;
    let vy = (w.1 * k) / 256 + (s.1 / 2) as i128;
    let vz = (dz * k) / 256;
    match m.at((vx as u32, vy as u32, vz as u32)) {
        Some(b) => {
            let i = b.material().index();
            if i == 15 {
                Some(leaf)
            } else {
                Some(Block::from_byte(i))
            }
        },
        None => None,
    }
}

/// A square is never negative, and is at least `k * k` once the value is
/// at least `k` away from zero.
proof fn lemma_square_bound(d: int, k: int)
    requires
        k >= 0,
    ensures
        d * d >= 0,
        (d >= k || d <= -k) ==> d * d >= k * k,
{
    assert(d * d >= 0) by (nonlinear_arith);
    if d >= k {
        assert(d * d >= k * k) by (nonlinear_arith)
            requires
                d >= k,
                k >= 0,
        ;
    } else if d <= -k {
        assert(d * d >= k * k) by (nonlinear_arith)
            requires
                d <= -k,
                k >= 0,
        ;
    }
}

fn rock_hit(pos: Vec3, base: Vec3) -> (r: bool)
    ensures
        r == spec_rock_hit(pos, base),
{
    let dx = diff(pos.x, base.x);
    let dy = diff(pos.y, base.y);
    let dz = diff(pos.z, base.z);
    proof {
        lemma_square_bound(dx as int, 8);
        lemma_square_bound(dy as int, 8);
        lemma_square_bound(dz as int, 8);
    }
    if dx <= -8 || dx >= 8 || dy <= -8 || dy >= 8 || dz <= -8 || dz >= 8 {
        return false;
    }
    assert(dx * dx <= 64 && dy * dy <= 64 && dz * dz <= 64) by (nonlinear_arith)
        requires
            -8 < dx < 8,
            -8 < dy < 8,
            -8 < dz < 8,
    ;
    dx * dx + dy * dy + dz * dz < 64
}

fn tunnel(sg: &StructureGen, t: Vec3, sx: i64, sy: i64, sz: i64) -> (r: bool)
    requires
        sx == 24 || sx == 96,
        sy == 24 || sy == 96,
        sz == 24 || sz == 48,
    ensures
        r == spec_tunnel(t, sx as int, sy as int, sz as int),
{
    let cell = Vec2::new(t.x / sx, t.y / sy);
    let lx: i64 = if sx == 24 { 7 } else { sx - 1 };
    let ly: i64 = if sy == 24 { 7 } else { sy - 1 };
    let lz: i64 = if sz == 24 { 7 } else { sz - 1 };
    sg.throw_dice(cell, 0) % 2 == 0 && t.x % sx < lx && t.y % sy < ly && t.z % sz < lz
}

fn bored(sg: &StructureGen, t: Vec3) -> (r: bool)
    ensures
        r == spec_bored(t),
{
    tunnel(sg, t, 96, 24, 24) || tunnel(sg, t, 24, 96, 24) || tunnel(sg, t, 24, 24, 48)
}

#[verifier::spinoff_prover]
fn pyramid_hit(sg: &StructureGen, pos: Vec3, base: Vec3, height: u64) -> (r: bool)
    ensures
        r == spec_pyramid_hit(pos, base, height),
{
    let rx = diff(pos.x, base.x);
    let ry = diff(pos.y, base.y);
    let ax = if rx < 0 {
        -rx
    } else {
        rx
    };
    let ay = if ry < 0 {
        -ry
    } else {
        ry
    };
    let far = if ax >= ay {
        ax
    } else {
        ay
    };
    let near = if ax <= ay {
        ax
    } else {
        ay
    };
    let h = base.z as i128 + height as i128 - far;
    let t = Vec3::new((pos.x as i128 + 2) as i64, (pos.y as i128 + 2) as i64, (pos.z as i128 + 2) as i64);
    let bored = bored(sg, t);
    (pos.z as i128) < h && !(near < 2 && pos.z % 25 < 4) && !((pos.z as i128) < h - 6 && bored)
}

/// The block at `pos` after the plot `b` has had its say, `prev` before.
fn apply_building(
    models: &TownModels,
    sg: &StructureGen,
    pos: Vec3,
    prev: Option<Block>,
    b: BuildingGenOut,
) -> (r: Option<Block>)
    requires
        building_ok(models, b),
    ensures
        r == spec_apply_building(models, pos, prev, b),
{
    match b.1 {
        BuildingResult::House { model, unit_x, unit_y } => house_block(
            models.model(model),
            pos,
            b.0,
            unit_x,
            unit_y,
        ),
        BuildingResult::Rock => if rock_hit(pos, b.0) {
            Some(Block::stone())
        } else {
            prev
        },
        BuildingResult::Tree { model, leaf_block, scale_inv, unit_x, unit_y } => tree_block(
            models.model(model),
            pos,
            b.0,
            leaf_block,
            scale_inv,
            unit_x,
            unit_y,
        ),
        BuildingResult::Pyramid { height } => if pyramid_hit(sg, pos, b.0, height) {
            Some(Block::sand())
        } else {
            prev
        },
        _ => prev,
    }
}

/// What the town layer puts at `pos`, knowing the plots around its column.
#[verifier::spinoff_prover]
pub fn sample_town(models: &TownModels, sg: &StructureGen, pos: Vec3, inv: &InvariantZ) -> (r: Out)
    requires
        invariant_ok(models, *inv),
    ensures
        r == spec_town_sample(models, pos, *inv),
{
    let mut block: Option<Block> = None;
    let mut k: usize = 0;
    while k < 9
        invariant
            k <= 9,
            invariant_ok(models, *inv),
            block == spec_scan_buildings(models, pos, inv.1@, k as nat),
        decreases 9 - k,
    {
        let found = match block {
            Some(b) => b != Block::air(),
            None => false,
        };
        if !found {
            assert(building_ok(models, inv.1@[k as int]));
            block = apply_building(models, sg, pos, block, inv.1[k]);
        }
        k += 1;
    }
    let surface = match inv.0.1 {
        BuildingResult::House { .. } => {
            let rx = diff(pos.x, inv.0.0.x);
            let ry = diff(pos.y, inv.0.0.y);
            proof {
                lemma_square_bound(rx as int, 11);
                lemma_square_bound(ry as int, 11);
            }
            let far = rx <= -11 || rx >= 11 || ry <= -11 || ry >= 11;
            if !far {
                assert(rx * rx <= 100 && ry * ry <= 100) by (nonlinear_arith)
                    requires
                        -11 < rx < 11,
                        -11 < ry < 11,
                ;
            }
            if far || rx * rx + ry * ry > 10 * 10 {
                let d = sg.throw_dice(pos.xy(), 0) % 5;
                Some(Block::from_byte((109 + d) as u8))
            } else {
                None
            }
        },
        _ => None,
    };
    Out { surface, block }
}


/// `b` is what stands on the plot whose point is `p`, for terrain that
/// `building_terrain` may give at `p` and that `city_terrain` may give at
/// the point of the region of `p`.
pub open spec fn spec_plot_at<CT: Fn(Vec2) -> CityTerrain, BT: Fn(Vec2) -> BuildingTerrain>(
    models: &TownModels,
    city_grid: StructureGen,
    city_terrain: CT,
    building_terrain: BT,
    p: Vec2,
    b: BuildingGenOut,
) -> bool {
    exists|bt: BuildingTerrain, ct: CityTerrain|
        #![trigger call_ensures(building_terrain, (p,), bt), call_ensures(city_terrain, (city_grid.spec_nearest(p),), ct)]
        call_ensures(building_terrain, (p,), bt) && call_ensures(
            city_terrain,
            (city_grid.spec_nearest(p),),
            ct,
        ) && b == spec_gen_building(models, p, bt, spec_gen_city(city_grid.spec_nearest(p), ct))
}

/// `inv` holds the plot that `pos` belongs to and the plots of the nine
/// cells around it, each for the terrain the two samplers give.
pub open spec fn spec_plots_around<CT: Fn(Vec2) -> CityTerrain, BT: Fn(Vec2) -> BuildingTerrain>(
    models: &TownModels,
    city_grid: StructureGen,
    plot_grid: StructureGen,
    city_terrain: CT,
    building_terrain: BT,
    pos: Vec2,
    inv: InvariantZ,
) -> bool {
    &&& spec_plot_at(models, city_grid, city_terrain, building_terrain, plot_grid.spec_nearest(pos), inv.0)
    &&& forall|k: int|
        0 <= k < 9 ==> spec_plot_at(
            models,
            city_grid,
            city_terrain,
            building_terrain,
            plot_grid.spec_candidate(pos, k),
            #[trigger] inv.1@[k],
        )
}

/// Whatever terrain the samplers give, the plot whose point is `p` can be
/// built from `models`.
pub open spec fn plot_buildable<CT: Fn(Vec2) -> CityTerrain, BT: Fn(Vec2) -> BuildingTerrain>(
    models: &TownModels,
    city_grid: StructureGen,
    city_terrain: CT,
    building_terrain: BT,
    p: Vec2,
) -> bool {
    forall|bt: BuildingTerrain, ct: CityTerrain|
        #![trigger call_ensures(building_terrain, (p,), bt), call_ensures(city_terrain, (city_grid.spec_nearest(p),), ct)]
        call_ensures(building_terrain, (p,), bt) && call_ensures(
            city_terrain,
            (city_grid.spec_nearest(p),),
            ct,
        ) ==> can_build(models, p, bt, spec_gen_city(city_grid.spec_nearest(p), ct))
}

/// The plot of `pos` and the plots of the nine cells around it can all be
/// built from `models`.
pub open spec fn plots_buildable<CT: Fn(Vec2) -> CityTerrain, BT: Fn(Vec2) -> BuildingTerrain>(
    models: &TownModels,
    city_grid: StructureGen,
    plot_grid: StructureGen,
    city_terrain: CT,
    building_terrain: BT,
    pos: Vec2,
) -> bool {
    &&& plot_buildable(models, city_grid, city_terrain, building_terrain, plot_grid.spec_nearest(pos))
    &&& forall|k: int|
        0 <= k < 9 ==> #[trigger] plot_buildable(
            models,
            city_grid,
            city_terrain,
            building_terrain,
            plot_grid.spec_candidate(pos, k),
        )
}

/// A library whose every group holds a model builds every plot.
pub proof fn lemma_complete_buildable<CT: Fn(Vec2) -> CityTerrain, BT: Fn(Vec2) -> BuildingTerrain>(
    models: &TownModels,
    city_grid: StructureGen,
    plot_grid: StructureGen,
    city_terrain: CT,
    building_terrain: BT,
    pos: Vec2,
)
    requires
        models.complete(),
    ensures
        plots_buildable(models, city_grid, plot_grid, city_terrain, building_terrain, pos),
{
}

/// A column the town layer can handle: at least 2^21 away from the ends of
/// the range of `i64`, so that the plots and regions around it can be
/// found.
pub open spec fn town_reach(pos: Vec2) -> bool {
    -0x7FFF_FFFF_FFE0_0000 <= pos.x <= 0x7FFF_FFFF_FFE0_0000 && -0x7FFF_FFFF_FFE0_0000 <= pos.y
        <= 0x7FFF_FFFF_FFE0_0000
}

/// Whether the town layer can handle the column at `pos`.
pub fn column_in_reach(pos: Vec2) -> (r: bool)
    ensures
        r == town_reach(pos),
{
    -0x7FFF_FFFF_FFE0_0000 <= pos.x && pos.x <= 0x7FFF_FFFF_FFE0_0000 && -0x7FFF_FFFF_FFE0_0000
        <= pos.y && pos.y <= 0x7FFF_FFFF_FFE0_0000
}

proof fn lemma_pick_ok(models: &TownModels, g: usize, d: u64)
    requires
        g < 3,
        models.group(g as int).len() > 0,
    ensures
        models.holds(spec_pick(models, g, d)),
{
    let n = models.group(g as int).len() as int;
    assert((d as usize) as int % n < n);
}

/// A plot that can be built is as the placement makes it.
#[verifier::spinoff_prover]
proof fn lemma_building_ok(models: &TownModels, p: Vec2, bt: BuildingTerrain, city: CityGenOut)
    requires
        can_build(models, p, bt, city),
    ensures
        building_ok(models, spec_gen_building(models, p, bt, city)),
{
    let d = spec_dice(p);
    assert(d % 256 < 256);
    match spec_picked_group(p, bt, city) {
        Some(g) => lemma_pick_ok(models, g, d),
        None => {},
    }
}

/// Finds what stands on the plot whose point is `p`: the region's point
/// and kind from the region grid and the terrain there, then the plot's use
/// from the terrain at `p`.
fn plot_at<CT: Fn(Vec2) -> CityTerrain, BT: Fn(Vec2) -> BuildingTerrain>(
    models: &TownModels,
    city_grid: &StructureGen,
    plot_grid: &StructureGen,
    city_terrain: &CT,
    building_terrain: &BT,
    p: Vec2,
) -> (r: BuildingGenOut)
    requires
        modest(*city_grid),
        within_reach(p),
        forall|q: Vec2| call_requires(*city_terrain, (q,)),
        forall|q: Vec2| call_requires(*building_terrain, (q,)),
        plot_buildable(models, *city_grid, *city_terrain, *building_terrain, p),
    ensures
        spec_plot_at(models, *city_grid, *city_terrain, *building_terrain, p, r),
        building_ok(models, r),
{
    proof {
        lemma_nearest_near(*city_grid, p);
    }
    let cn = city_grid.nearest(p);
    let ct = city_terrain(cn);
    let city = gen_city(city_grid, cn, &ct);
    let bt = building_terrain(p);
    assert(can_build(models, p, bt, spec_gen_city(city_grid.spec_nearest(p), ct)));
    let r = gen_building(models, plot_grid, p, &bt, city);
    proof {
        lemma_building_ok(models, p, bt, city);
    }
    assert(r == spec_gen_building(models, p, bt, spec_gen_city(city_grid.spec_nearest(p), ct)));
    r
}

/// The plot that `pos` belongs to, and the plots of the nine cells around
/// it, for the terrain that `city_terrain` and `building_terrain` give.
#[verifier::spinoff_prover]
pub fn plots_around<CT: Fn(Vec2) -> CityTerrain, BT: Fn(Vec2) -> BuildingTerrain>(
    models: &TownModels,
    city_grid: &StructureGen,
    plot_grid: &StructureGen,
    city_terrain: &CT,
    building_terrain: &BT,
    pos: Vec2,
) -> (r: InvariantZ)
    requires
        modest(*city_grid),
        modest(*plot_grid),
        town_reach(pos),
        forall|q: Vec2| call_requires(*city_terrain, (q,)),
        forall|q: Vec2| call_requires(*building_terrain, (q,)),
        plots_buildable(models, *city_grid, *plot_grid, *city_terrain, *building_terrain, pos),
    ensures
        spec_plots_around(models, *city_grid, *plot_grid, *city_terrain, *building_terrain, pos, r),
        invariant_ok(models, r),
{
    proof {
        lemma_nearest_near(*plot_grid, pos);
        lemma_candidates_near(*plot_grid, pos);
    }
    let n = plot_grid.nearest(pos);
    let first = plot_at(models, city_grid, plot_grid, city_terrain, building_terrain, n);
    let mut around: [BuildingGenOut; 9] = [first; 9];
    let mut k: usize = 0;
    while k < 9
        invariant
            k <= 9,
            modest(*city_grid),
            modest(*plot_grid),
            town_reach(pos),
            plot_grid.sample_ok(pos),
            forall|q: Vec2| call_requires(*city_terrain, (q,)),
            forall|q: Vec2| call_requires(*building_terrain, (q,)),
            plots_buildable(models, *city_grid, *plot_grid, *city_terrain, *building_terrain, pos),
            forall|j: int|
                0 <= j < 9 ==> -reach(*plot_grid) <= #[trigger] plot_grid.spec_candidate(pos, j).x
                    - pos.x <= reach(*plot_grid) && -reach(*plot_grid) <= plot_grid.spec_candidate(
                    pos,
                    j,
                ).y - pos.y <= reach(*plot_grid),
            forall|j: int|
                0 <= j < k ==> spec_plot_at(
                    models,
                    *city_grid,
                    *city_terrain,
                    *building_terrain,
                    plot_grid.spec_candidate(pos, j),
                    #[trigger] around@[j],
                ),
            forall|j: int| 0 <= j < k ==> building_ok(models, #[trigger] around@[j]),
        decreases 9 - k,
    {
        let c = plot_grid.candidate(pos, k as i64);
        assert(c == plot_grid.spec_candidate(pos, k as int));
        assert(plot_buildable(models, *city_grid, *city_terrain, *building_terrain, plot_grid.spec_candidate(pos, k as int)));
        let b = plot_at(models, city_grid, plot_grid, city_terrain, building_terrain, c);
        around[k] = b;
        k += 1;
    }
    (first, around)
}

/// The plot grid, read together with the region grid and the terrain.
pub struct PlotGen<CT, BT> {
    pub city_grid: StructureGen,
    pub plot_grid: StructureGen,
    pub city_terrain: CT,
    pub building_terrain: BT,
}

impl<'a, CT: Fn(Vec2) -> CityTerrain, BT: Fn(Vec2) -> BuildingTerrain> Gen<&'a TownModels> for PlotGen<CT, BT> {
    type In = Vec2;

    type Out = InvariantZ;

    open spec fn sample_requires(&self, i: Vec2, models: &'a TownModels) -> bool {
        &&& modest(self.city_grid)
        &&& modest(self.plot_grid)
        &&& town_reach(i)
        &&& forall|q: Vec2| call_requires(self.city_terrain, (q,))
        &&& forall|q: Vec2| call_requires(self.building_terrain, (q,))
        &&& plots_buildable(models, self.city_grid, self.plot_grid, self.city_terrain, self.building_terrain, i)
    }

    open spec fn sample_ensures(&self, i: Vec2, models: &'a TownModels, o: InvariantZ) -> bool {
        &&& spec_plots_around(models, self.city_grid, self.plot_grid, self.city_terrain, self.building_terrain, i, o)
        &&& invariant_ok(models, o)
    }

    fn sample(&self, i: Vec2, models: &&'a TownModels) -> (o: InvariantZ) {
        plots_around(*models, &self.city_grid, &self.plot_grid, &self.city_terrain, &self.building_terrain, i)
    }
}

/// The town layer: its model library, the terrain samplers it reads, and a
/// cache of the plots around the columns it was asked about.
pub struct TownGen<CT, BT> {
    building_gen: CacheGen<PlotGen<CT, BT>, Vec2, InvariantZ>,
    models: TownModels,
}

impl<CT: Fn(Vec2) -> CityTerrain, BT: Fn(Vec2) -> BuildingTerrain> TownGen<CT, BT> {
    pub closed spec fn spec_models(&self) -> &TownModels {
        &self.models
    }

    /// The region grid.
    pub closed spec fn city_grid(&self) -> StructureGen {
        self.building_gen.generator().city_grid
    }

    /// The plot grid.
    pub closed spec fn plot_grid(&self) -> StructureGen {
        self.building_gen.generator().plot_grid
    }

    /// The terrain at the point of a region.
    pub closed spec fn city_terrain(&self) -> CT {
        self.building_gen.generator().city_terrain
    }

    /// The terrain at the point of a plot.
    pub closed spec fn building_terrain(&self) -> BT {
        self.building_gen.generator().building_terrain
    }

    /// The grids are modest, the samplers can be asked anywhere, and every
    /// cached entry holds the plots around its column.
    pub closed spec fn wf(&self) -> bool {
        &&& modest(self.city_grid())
        &&& modest(self.plot_grid())
        &&& forall|q: Vec2| call_requires(self.city_terrain(), (q,))
        &&& forall|q: Vec2| call_requires(self.building_terrain(), (q,))
        &&& self.building_gen.entries().len() > 0
        &&& forall|j: int|
            0 <= j < self.building_gen.entries().len() ==> match #[trigger] self.building_gen.entries()[j] {
                Some((k, o)) => spec_plots_around(
                    &self.models,
                    self.city_grid(),
                    self.plot_grid(),
                    self.city_terrain(),
                    self.building_terrain(),
                    k,
                    o,
                ) && invariant_ok(&self.models, o),
                None => true,
            }
    }

    /// A town layer over `models` and the two terrain samplers: regions of
    /// 350 blocks warped by up to 256 and plots of 24 blocks warped by up to
    /// 12, both measured by Euclidean distance, with a cache of 4096 entries.
    pub fn new(
        models: TownModels,
        city_seed: u32,
        building_seed: u32,
        city_terrain: CT,
        building_terrain: BT,
    ) -> (r: Self)
        requires
            forall|q: Vec2| call_requires(city_terrain, (q,)),
            forall|q: Vec2| call_requires(building_terrain, (q,)),
        ensures
            r.wf(),
            *r.spec_models() == models,
            r.city_terrain() == city_terrain,
            r.building_terrain() == building_terrain,
            r.city_grid().freq() == 350 && r.city_grid().warp() == 256,
            r.city_grid().seed() == city_seed && r.city_grid().dist_func() == DistFn::Euclidean,
            r.plot_grid().freq() == 24 && r.plot_grid().warp() == 12,
            r.plot_grid().seed() == building_seed && r.plot_grid().dist_func() == DistFn::Euclidean,
    {
        let gen = PlotGen {
            city_grid: StructureGen::new(350, 256, city_seed, DistFn::Euclidean),
            plot_grid: StructureGen::new(24, 12, building_seed, DistFn::Euclidean),
            city_terrain,
            building_terrain,
        };
        TownGen { building_gen: CacheGen::new(gen, 4096), models }
    }

    /// The plots around the column at `pos`, from the cache where it holds
    /// them, else found afresh from the terrain samplers and cached.
    pub fn get_invariant_z(&mut self, pos: Vec2) -> (r: InvariantZ)
        requires
            old(self).wf(),
            town_reach(pos),
            plots_buildable(
                old(self).spec_models(),
                old(self).city_grid(),
                old(self).plot_grid(),
                old(self).city_terrain(),
                old(self).building_terrain(),
                pos,
            ),
        ensures
            final(self).wf(),
            final(self).spec_models() == old(self).spec_models(),
            final(self).city_grid() == old(self).city_grid(),
            final(self).plot_grid() == old(self).plot_grid(),
            final(self).city_terrain() == old(self).city_terrain(),
            final(self).building_terrain() == old(self).building_terrain(),
            spec_plots_around(
                final(self).spec_models(),
                final(self).city_grid(),
                final(self).plot_grid(),
                final(self).city_terrain(),
                final(self).building_terrain(),
                pos,
                r,
            ),
            invariant_ok(final(self).spec_models(), r),
    {
        proof {
            assert(self.building_gen.consistent(&self.models));
        }
        self.building_gen.sample(pos, &&self.models)
    }

    /// What the town layer puts at `pos`, knowing the plots around its
    /// column.
    pub fn sample(&self, pos: Vec3, inv: &InvariantZ) -> (r: Out)
        requires
            invariant_ok(self.spec_models(), *inv),
        ensures
            r == spec_town_sample(self.spec_models(), pos, *inv),
    {
        sample_town(&self.models, &self.building_gen.internal().plot_grid, pos, inv)
    }
}

impl<CT: Fn(Vec2) -> CityTerrain, BT: Fn(Vec2) -> BuildingTerrain> Gen<InvariantZ> for TownGen<CT, BT> {
    type In = Vec3;

    type Out = Out;

    open spec fn sample_requires(&self, i: Vec3, supplement: InvariantZ) -> bool {
        invariant_ok(self.spec_models(), supplement)
    }

    open spec fn sample_ensures(&self, i: Vec3, supplement: InvariantZ, o: Out) -> bool {
        o == spec_town_sample(self.spec_models(), i, supplement)
    }

    fn sample(&self, i: Vec3, supplement: &InvariantZ) -> (o: Out) {
        TownGen::sample(self, i, supplement)
    }
}

} // verus!
