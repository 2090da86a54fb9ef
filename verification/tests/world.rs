use veloren::vec::{Vec2, Vec3};
use veloren::voxel::block::Block;
use veloren::voxel::volume::VoxelModel;
use veloren::world::cachegen::CacheGen;
use veloren::world::chunk::{Chunk, World};
use veloren::world::structure::{dist_by_axis, dist_by_euc, DistFn, StructureGen};
use veloren::world::town::{
    column_in_reach, gen_building, gen_city, plots_around, BuildingGenOut, BuildingResult, BuildingTerrain, CityResult,
    CityTerrain, ForestKind, InvariantZ, ModelRef, TownGen, TownModels,
};

#[test]
fn distances() {
    assert_eq!(dist_by_euc(Vec2::new(3, -4)), 25);
    assert_eq!(dist_by_axis(Vec2::new(3, -4)), 4);
    assert_eq!(dist_by_axis(Vec2::new(-7, 2)), 7);
    assert_eq!(DistFn::Euclidean.apply(Vec2::new(1, 2)), 5);
    assert_eq!(DistFn::Axis.apply(Vec2::new(1, 2)), 2);
}

#[test]
fn dice_values_are_fixed_and_ignore_seeds() {
    let g = StructureGen::new(64, 48, 7, DistFn::Axis);
    let h = StructureGen::new(24, 12, 99, DistFn::Euclidean);
    assert_eq!(g.throw_dice(Vec2::new(0, 0), 0), 10722231434472433585);
    assert_eq!(g.throw_dice(Vec2::new(100, -100), 0), 3656206948112017377);
    assert_eq!(g.throw_dice(Vec2::new(5, 7), 1337), 16487405700185211385);
    assert_eq!(g.throw_dice(Vec2::new(-3, 2), 0), h.throw_dice(Vec2::new(-3, 2), 5));
}

#[test]
fn nearest_is_the_closest_candidate() {
    for (df, pos) in [
        (DistFn::Axis, Vec2::new(100, -100)),
        (DistFn::Euclidean, Vec2::new(-35, 17)),
        (DistFn::Euclidean, Vec2::new(1000, 2000)),
    ] {
        let g = StructureGen::new(64, 48, 7, df);
        let n = g.nearest(pos);
        let mut best = i64::MAX;
        let mut found = false;
        for k in 0..9 {
            let c = g.candidate(pos, k);
            let d = match df {
                DistFn::Euclidean => dist_by_euc(c.sub(pos)),
                DistFn::Axis => dist_by_axis(c.sub(pos)),
            };
            if d < best {
                best = d;
            }
            if c == n {
                found = true;
            }
        }
        assert!(found);
        let dn = match df {
            DistFn::Euclidean => dist_by_euc(n.sub(pos)),
            DistFn::Axis => dist_by_axis(n.sub(pos)),
        };
        assert_eq!(dn, best);
    }
}

#[test]
fn structure_sample_applies_the_function_at_the_nearest_point() {
    let g = StructureGen::new(24, 12, 3, DistFn::Euclidean);
    let pos = Vec2::new(40, -8);
    let f = |_: &StructureGen, p: Vec2, add: &i64| p.x + p.y + *add;
    let r = g.sample(pos, &(&10i64, f));
    let n = g.nearest(pos);
    assert_eq!(r, n.x + n.y + 10);
}

#[test]
fn cache_gives_back_what_it_sampled() {
    let g = StructureGen::new(24, 12, 3, DistFn::Euclidean);
    let mut cache: CacheGen<StructureGen, Vec2, Vec2> = CacheGen::new(StructureGen::new(24, 12, 3, DistFn::Euclidean), 16);
    let f = |_: &StructureGen, p: Vec2, _: &()| p;
    let a = cache.sample(Vec2::new(100, 50), &(&(), f));
    let b = cache.sample(Vec2::new(100, 50), &(&(), f));
    assert_eq!(a, b);
    assert_eq!(a, g.nearest(Vec2::new(100, 50)));
    for x in 0..40 {
        let p = Vec2::new(x * 7, -x * 3);
        assert_eq!(cache.sample(p, &(&(), f)), g.nearest(p));
    }
    assert_eq!(cache.internal().nearest(Vec2::new(1, 1)), g.nearest(Vec2::new(1, 1)));
}

fn cube(side: u32, b: Block) -> VoxelModel<Block> {
    VoxelModel::filled((side, side, side), b)
}

fn models() -> TownModels {
    let mut house = cube(4, Block::air());
    house.set_at((2, 2, 0), Block::from_byte(7));
    house.set_at((3, 2, 1), Block::from_byte(8));
    let mut tree = cube(4, Block::air());
    tree.set_at((2, 2, 3), Block::from_byte(15));
    tree.set_at((2, 2, 0), Block::from_byte(12));
    TownModels {
        buildings: vec![house, cube(2, Block::stone())],
        trees_temperate: vec![tree],
        trees_tropical: vec![cube(2, Block::from_byte(15)), cube(2, Block::from_byte(15)), cube(2, Block::sand())],
    }
}

fn terrain(z: i32) -> CityTerrain {
    CityTerrain { town_site: false, pyramid_site: false, forest_site: false, warm: false, cold: false, z_alt: z }
}

#[test]
fn city_kinds_follow_terrain_and_dice() {
    let g = StructureGen::new(350, 256, 1, DistFn::Euclidean);
    // dice at (0, 4) has low byte 5
    let p = Vec2::new(0, 4);
    let t = CityTerrain { town_site: true, ..terrain(130) };
    assert_eq!(gen_city(&g, p, &t), (p, CityResult::Town));
    let t = CityTerrain { pyramid_site: true, ..terrain(130) };
    assert_eq!(gen_city(&g, p, &t), (p, CityResult::Pyramid { height: 69, z: 130 }));
    // dice at (0, 1) has low byte 92 and gives density 134
    let q = Vec2::new(0, 1);
    let t = CityTerrain { town_site: true, forest_site: true, warm: true, ..terrain(10) };
    assert_eq!(gen_city(&g, q, &t), (q, CityResult::Forest { kind: ForestKind::Tropical, density: 134 }));
    let t = CityTerrain { forest_site: true, cold: true, ..terrain(10) };
    assert_eq!(gen_city(&g, q, &t), (q, CityResult::Forest { kind: ForestKind::Taiga, density: 134 }));
    let t = CityTerrain { forest_site: true, ..terrain(10) };
    assert_eq!(gen_city(&g, q, &t), (q, CityResult::Forest { kind: ForestKind::Temperate, density: 134 }));
    assert_eq!(gen_city(&g, Vec2::new(0, 0), &CityTerrain { forest_site: true, ..terrain(10) }), (Vec2::new(0, 0), CityResult::Empty));
}

#[test]
fn plots_follow_their_region() {
    let m = models();
    let g = StructureGen::new(24, 12, 2, DistFn::Euclidean);
    let site = BuildingTerrain { building_site: true, wild_tree_site: false, z_alt: 120, leaf_shade: 9 };
    let bare = BuildingTerrain { building_site: false, wild_tree_site: false, z_alt: 120, leaf_shade: 9 };
    let p = Vec2::new(0, 4);
    let d = g.throw_dice(p, 0);
    let r = gen_building(&m, &g, p, &site, (Vec2::new(9, 9), CityResult::Town));
    assert_eq!(r, (Vec3::new(0, 4, 112), BuildingResult::House {
        model: ModelRef { group: 0, index: (d % 2) as usize },
        unit_x: Vec2::new(1, 0),
        unit_y: Vec2::new(0, 1),
    }));
    let r = gen_building(&m, &g, p, &bare, (Vec2::new(9, 9), CityResult::Town));
    assert_eq!(r, (Vec3::new(0, 4, 112), BuildingResult::Park));
    let r = gen_building(&m, &g, p, &bare, (Vec2::new(9, 9), CityResult::Pyramid { height: 70, z: 140 }));
    assert_eq!(r, (Vec3::new(9, 9, 140), BuildingResult::Pyramid { height: 70 }));
    let q = Vec2::new(0, 1);
    let dq = g.throw_dice(q, 0);
    let r = gen_building(&m, &g, q, &site, (Vec2::new(9, 9), CityResult::Forest { kind: ForestKind::Tropical, density: 134 }));
    assert_eq!(r, (Vec3::new(0, 1, 119), BuildingResult::Tree {
        model: ModelRef { group: 2, index: (dq % 3) as usize },
        leaf_block: Block::gradient2(16, 17, 9),
        scale_inv: 256 + 92,
        unit_x: Vec2::new(1, 0),
        unit_y: Vec2::new(0, 1),
    }));
    let r = gen_building(&m, &g, q, &site, (Vec2::new(9, 9), CityResult::Forest { kind: ForestKind::Temperate, density: 50 }));
    assert_eq!(r, (Vec3::new(0, 1, 119), BuildingResult::Empty));
    // dice at (2, 0) leaves a rock
    let r = gen_building(&m, &g, Vec2::new(2, 0), &bare, (Vec2::new(9, 9), CityResult::Empty));
    assert_eq!(r, (Vec3::new(2, 0, 120), BuildingResult::Rock));
    let wild = BuildingTerrain { wild_tree_site: true, ..bare };
    let r = gen_building(&m, &g, q, &wild, (Vec2::new(9, 9), CityResult::Empty));
    assert!(matches!(r, (Vec3 { x: 0, y: 1, z: 119 }, BuildingResult::Tree { model: ModelRef { group: 1, index: 0 }, scale_inv: 348, .. })));
    let r = gen_building(&m, &g, Vec2::new(0, 0), &bare, (Vec2::new(9, 9), CityResult::Empty));
    assert_eq!(r, (Vec3::new(0, 0, 112), BuildingResult::Empty));
}

fn empty_plot() -> BuildingGenOut {
    (Vec3::new(0, 0, 0), BuildingResult::Empty)
}

fn inv_with(first: BuildingGenOut, around: &[BuildingGenOut]) -> InvariantZ {
    let mut all = [empty_plot(); 9];
    for (k, b) in around.iter().enumerate() {
        all[k] = *b;
    }
    (first, all)
}

fn flat_city(_pos: Vec2) -> CityTerrain {
    terrain(100)
}

fn flat_building(_pos: Vec2) -> BuildingTerrain {
    BuildingTerrain { building_site: false, wild_tree_site: false, z_alt: 100, leaf_shade: 0 }
}

#[test]
fn town_blocks_from_plots() {
    let mut town = TownGen::new(models(), 1, 2, flat_city, flat_building);
    let rock = (Vec3::new(0, 0, 0), BuildingResult::Rock);
    let inv = inv_with(empty_plot(), &[rock]);
    assert_eq!(town.sample(Vec3::new(1, 1, 1), &inv).block, Some(Block::stone()));
    assert_eq!(town.sample(Vec3::new(10, 0, 0), &inv).block, None);
    let house = (Vec3::new(10, 10, 50), BuildingResult::House {
        model: ModelRef { group: 0, index: 0 },
        unit_x: Vec2::new(1, 0),
        unit_y: Vec2::new(0, 1),
    });
    let inv = inv_with(house, &[house]);
    let out = town.sample(Vec3::new(10, 10, 50), &inv);
    assert_eq!(out.block, Some(Block::from_byte(7)));
    assert_eq!(out.surface, None);
    assert_eq!(town.sample(Vec3::new(11, 10, 51), &inv).block, Some(Block::from_byte(8)));
    assert_eq!(town.sample(Vec3::new(11, 10, 50), &inv).block, Some(Block::air()));
    assert_eq!(town.sample(Vec3::new(30, 10, 50), &inv).block, None);
    let far = town.sample(Vec3::new(30, 10, 50), &inv).surface;
    let d = StructureGen::new(24, 12, 0, DistFn::Euclidean).throw_dice(Vec2::new(30, 10), 0);
    assert_eq!(far, Some(Block::from_byte(109 + (d % 5) as u8)));
    let turned = (Vec3::new(10, 10, 50), BuildingResult::House {
        model: ModelRef { group: 0, index: 0 },
        unit_x: Vec2::new(-1, 0),
        unit_y: Vec2::new(0, -1),
    });
    let inv = inv_with(empty_plot(), &[turned]);
    assert_eq!(town.sample(Vec3::new(9, 10, 51), &inv).block, Some(Block::from_byte(8)));
    let tree = (Vec3::new(0, 0, 10), BuildingResult::Tree {
        model: ModelRef { group: 1, index: 0 },
        leaf_block: Block::gradient2(16, 17, 3),
        scale_inv: 256,
        unit_x: Vec2::new(1, 0),
        unit_y: Vec2::new(0, 1),
    });
    let inv = inv_with(empty_plot(), &[tree]);
    assert_eq!(town.sample(Vec3::new(0, 0, 13), &inv).block, Some(Block::gradient2(16, 17, 3)));
    assert_eq!(town.sample(Vec3::new(0, 0, 10), &inv).block, Some(Block::from_byte(12)));
    let pyramid = (Vec3::new(0, 0, 100), BuildingResult::Pyramid { height: 10 });
    let inv = inv_with(empty_plot(), &[pyramid]);
    assert_eq!(town.sample(Vec3::new(5, 5, 104), &inv).block, Some(Block::sand()));
    assert_eq!(town.sample(Vec3::new(5, 5, 106), &inv).block, None);
    assert_eq!(town.sample(Vec3::new(1, 5, 100), &inv).block, None);
    let first_wins = inv_with(empty_plot(), &[rock, pyramid]);
    assert_eq!(town.sample(Vec3::new(1, 1, 1), &first_wins).block, Some(Block::stone()));
    let a = town.get_invariant_z(Vec2::new(300, -200));
    let b = town.get_invariant_z(Vec2::new(300, -200));
    assert_eq!(a, b);
    assert!(a.1.iter().any(|p| p.0.x == a.0 .0.x && p.0.y == a.0 .0.y));
}

#[test]
fn plots_around_a_column() {
    let m = models();
    let cg = StructureGen::new(350, 256, 1, DistFn::Euclidean);
    let pg = StructureGen::new(24, 12, 2, DistFn::Euclidean);
    let pos = Vec2::new(57, 91);
    let inv = plots_around(&m, &cg, &pg, &flat_city, &flat_building, pos);
    let n = pg.nearest(pos);
    assert_eq!((inv.0 .0.x, inv.0 .0.y), (n.x, n.y));
    for k in 0..9 {
        let c = pg.candidate(pos, k);
        assert_eq!((inv.1[k as usize].0.x, inv.1[k as usize].0.y), (c.x, c.y));
    }
}

#[test]
fn chunks_from_samplers() {
    let column = |p: Vec2| p.x;
    let low = |p: Vec3, _c: &i64| if p.z < 40 { Block::stone() } else { Block::air() };
    match World::gen_chunk((0, 0, -1), &column, &low) {
        Chunk::Homo(h) => {
            assert_eq!(h.block, Block::air());
            assert_eq!(h.size, (32, 32, 32));
        },
        Chunk::Hetero(_) => panic!("a chunk below the world is air"),
    }
    match World::gen_chunk((0, 0, 17), &column, &low) {
        Chunk::Homo(h) => assert_eq!(h.block, Block::air()),
        Chunk::Hetero(_) => panic!("a chunk above the world is air"),
    }
    match World::gen_chunk((3, -2, 0), &column, &low) {
        Chunk::Homo(h) => assert_eq!(h.block, Block::stone()),
        Chunk::Hetero(_) => panic!("a chunk of stone throughout is homogeneous"),
    }
    match World::gen_chunk((0, 0, 1), &column, &low) {
        Chunk::Homo(_) => panic!("a chunk crossing the ground is not homogeneous"),
        Chunk::Hetero(m) => {
            assert_eq!(m.size(), (32, 32, 32));
            assert_eq!(m.at((5, 5, 7)), Some(Block::stone()));
            assert_eq!(m.at((5, 5, 8)), Some(Block::air()));
            assert_eq!(m.at((0, 31, 0)), Some(Block::stone()));
            assert_eq!(m.at((31, 0, 31)), Some(Block::air()));
        },
    }
    let by_column = |p: Vec3, c: &i64| if *c == 20 && p.z == 40 { Block::water() } else { Block::air() };
    match World::gen_chunk((0, 0, 1), &column, &by_column) {
        Chunk::Homo(h) => panic!("unexpected {:?}", h),
        Chunk::Hetero(m) => {
            assert_eq!(m.at((20, 3, 8)), Some(Block::water()));
            assert_eq!(m.at((21, 3, 8)), Some(Block::air()));
        },
    }
}

#[test]
fn reach_of_the_town_layer() {
    assert!(column_in_reach(Vec2::new(0x7FFF_FFFF_FFE0_0000, -0x7FFF_FFFF_FFE0_0000)));
    assert!(!column_in_reach(Vec2::new(0x7FFF_FFFF_FFE0_0001, 0)));
    assert!(!column_in_reach(Vec2::new(0, i64::MIN)));
}

#[test]
fn plots_follow_the_terrain() {
    let m = models();
    let cg = StructureGen::new(350, 256, 1, DistFn::Euclidean);
    let pg = StructureGen::new(24, 12, 2, DistFn::Euclidean);
    let pos = Vec2::new(57, 91);
    let low = |_p: Vec2| BuildingTerrain { building_site: false, wild_tree_site: false, z_alt: 10, leaf_shade: 0 };
    let inv = plots_around(&m, &cg, &pg, &flat_city, &low, pos);
    let flat = plots_around(&m, &cg, &pg, &flat_city, &flat_building, pos);
    assert_ne!(inv.0 .0.z, flat.0 .0.z);
    assert_eq!(inv.0 .0.z + 90, flat.0 .0.z);
}

#[test]
fn town_samples_far_from_the_origin() {
    let town = TownGen::new(models(), 1, 2, flat_city, flat_building);
    let far = i64::MAX - 3;
    let rock = (Vec3::new(far, far, far), BuildingResult::Rock);
    let inv = inv_with(empty_plot(), &[rock]);
    assert_eq!(town.sample(Vec3::new(far - 1, far, far), &inv).block, Some(Block::stone()));
    assert_eq!(town.sample(Vec3::new(i64::MIN, far, far), &inv).block, None);
    let house = (Vec3::new(-far, 0, 0), BuildingResult::House {
        model: ModelRef { group: 0, index: 0 },
        unit_x: Vec2::new(1, 0),
        unit_y: Vec2::new(0, 1),
    });
    let inv = inv_with(house, &[]);
    assert!(town.sample(Vec3::new(far, 0, 0), &inv).surface.is_some());
    assert_eq!(town.sample(Vec3::new(-far, 5, 0), &inv).surface, None);
}

#[test]
fn a_library_needs_every_group() {
    assert!(models().is_complete());
    let mut m = models();
    m.trees_tropical.clear();
    assert!(!m.is_complete());
}
