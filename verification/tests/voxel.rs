use veloren::vec::Vec3;
use veloren::voxel::block::{Block, Cell, CellMaterial, MaterialKind};
use veloren::voxel::mesh::{Mesh, NormalDirection, Poly, Quad, Vertex};
use veloren::voxel::mesher::get_ao_at;
use veloren::voxel::volume::{RenderVoxel, VoxelModel};
use veloren::voxel::vox::{dot_vox_to_hetero, figure_from_bytes, fits_box, terrain_model_from_bytes, vox_to_figure, VoxData, VoxModelData, VoxVoxel};

fn attrib(norm: u32, ao: u32, col: u32, mat: u32) -> u32 {
    col | (ao & 0xF) << 16 | norm << 20 | mat << 24
}

#[test]
fn vertex_attributes_pack_their_fields() {
    let v = Vertex::new(Vec3::new(1, 2, 3), NormalDirection::PlusZ, 3, 0x1234, 7);
    assert_eq!(v.attrib, attrib(4, 3, 0x1234, 7));
    assert_eq!(v.pos, Vec3::new(1, 2, 3));
    let v = Vertex::new(Vec3::new(0, 0, 0), NormalDirection::MinusX, 0x13, 0xFFFF, 0xFF);
    assert_eq!(v.attrib, attrib(1, 3, 0xFFFF, 0xFF));
    assert_eq!(v.attrib & 0xFFFF, 0xFFFF);
    assert_eq!(v.attrib >> 24, 0xFF);
}

#[test]
fn normals_of_vectors() {
    assert_eq!(NormalDirection::from(Vec3::new(0, 0, -5)), NormalDirection::MinusZ);
    assert_eq!(NormalDirection::from(Vec3::new(0, 2, 1)), NormalDirection::PlusY);
    assert_eq!(NormalDirection::from(Vec3::new(-1, 7, 0)), NormalDirection::MinusX);
    assert_eq!(u8::from(NormalDirection::PlusX), 0);
    assert_eq!(u8::from(NormalDirection::MinusY), 3);
    assert_eq!(u8::from(NormalDirection::MinusZ), 5);
}

#[test]
fn quads_become_two_triangles() {
    let a = Vertex::new(Vec3::new(0, 0, 0), NormalDirection::PlusZ, 0, 1, 0);
    let b = Vertex::new(Vec3::new(1, 0, 0), NormalDirection::PlusZ, 0, 1, 0);
    let c = Vertex::new(Vec3::new(1, 1, 0), NormalDirection::PlusZ, 0, 1, 0);
    let d = Vertex::new(Vec3::new(0, 1, 0), NormalDirection::PlusZ, 0, 1, 0);
    let mut mesh = Mesh::new();
    assert_eq!(mesh.vert_count(), 0);
    mesh.add_quads(&[Quad::new(a, b, c, d)]);
    assert_eq!(mesh.vertices(), &vec![a, b, c, c, d, a]);
    mesh.add_polys(&[Poly::new(a, b, c)]);
    assert_eq!(mesh.vert_count(), 9);
    mesh.add(&[d]);
    assert_eq!(mesh.vertices()[9], d);
    let moved = Quad::new(a, b, c, d).with_offset(Vec3::new(5, 6, 7));
    let mut m2 = Mesh::new();
    m2.add_quads(&[moved]);
    assert_eq!(m2.vertices()[0].pos, Vec3::new(5, 6, 7));
    assert_eq!(m2.vertices()[2].pos, Vec3::new(6, 7, 7));
    let flat = Quad::flat_with_color(a.pos, b.pos, c.pos, d.pos, NormalDirection::PlusZ, 0, 1, 0);
    let mut m3 = Mesh::new();
    m3.add_quads(&[flat]);
    assert_eq!(m3.vertices(), &vec![a, b, c, c, d, a]);
}

fn count(map: &veloren::voxel::mesher::MeshMap, kind: MaterialKind) -> Option<u32> {
    map.get(kind).map(|m| m.vert_count())
}

#[test]
fn a_lone_block_has_six_faces() {
    let vol = VoxelModel::filled((1, 1, 1), Block::stone());
    let map = Mesh::from(&vol);
    assert_eq!(map.len(), 1);
    assert_eq!(map.kind(0), MaterialKind::Solid);
    assert_eq!(count(&map, MaterialKind::Solid), Some(36));
    for v in map.mesh(0).vertices() {
        assert!((v.attrib >> 16) & 0xF <= 4);
        assert!(v.pos.x >= 0 && v.pos.x <= 1 && v.pos.y >= 0 && v.pos.y <= 1 && v.pos.z >= 0 && v.pos.z <= 1);
    }
    assert_eq!(map.drawable(), vec![0]);
}

#[test]
fn touching_faces_are_hidden() {
    let vol = VoxelModel::filled((2, 1, 1), Block::stone());
    let map = Mesh::from(&vol);
    assert_eq!(count(&map, MaterialKind::Solid), Some(60));
    let mut vol = VoxelModel::filled((2, 1, 1), Block::stone());
    vol.set_at((1, 0, 0), Block::water());
    let map = Mesh::from(&vol);
    assert_eq!(map.len(), 2);
    assert_eq!(map.kind(0), MaterialKind::Solid);
    assert_eq!(map.kind(1), MaterialKind::Water);
    assert_eq!(count(&map, MaterialKind::Solid), Some(36));
    assert_eq!(count(&map, MaterialKind::Water), Some(30));
    assert_eq!(count(&map, MaterialKind::Empty), None);
}

#[test]
fn empty_cells_get_a_mesh_but_no_faces() {
    let mut vol = VoxelModel::filled((2, 2, 2), Cell { mat: CellMaterial::Empty });
    vol.set_at((0, 0, 0), Cell { mat: CellMaterial::MatteSmooth(9) });
    let map = Mesh::from(&vol);
    assert_eq!(map.len(), 2);
    assert_eq!(map.kind(0), MaterialKind::Solid);
    assert_eq!(map.kind(1), MaterialKind::Empty);
    assert_eq!(count(&map, MaterialKind::Solid), Some(36));
    assert_eq!(count(&map, MaterialKind::Empty), Some(0));
    assert_eq!(map.drawable(), vec![0]);
    assert_eq!(map.mesh(0).vertices()[0].attrib & 0xFFFF, 9);
}

#[test]
fn occlusion_counts_open_neighbours() {
    let vol = VoxelModel::filled((2, 2, 2), Block::stone());
    assert_eq!(get_ao_at(&vol, Vec3::new(1, 1, 1), Vec3::new(0, 0, 1)), 0);
    assert_eq!(get_ao_at(&vol, Vec3::new(0, 0, 1), Vec3::new(0, 0, 1)), 3);
    assert_eq!(get_ao_at(&vol, Vec3::new(1, 1, 2), Vec3::new(0, 0, 1)), 4);
    let air = VoxelModel::filled((2, 2, 2), Block::air());
    assert_eq!(get_ao_at(&air, Vec3::new(1, 1, 1), Vec3::new(1, 0, 0)), 4);
}

#[test]
fn block_render_properties() {
    assert!(Block::stone().is_opaque() && Block::stone().is_occupied());
    assert!(!Block::water().is_opaque() && Block::water().is_occupied());
    assert!(!Block::air().is_opaque() && !Block::air().is_occupied());
    assert_eq!(Block::water().get_mat().kind(), MaterialKind::Water);
    assert_eq!(Block::from_byte(5).get_palette(), 5);
    assert_eq!(Block::gradient2(16, 17, 2).get_palette(), 2 * 256 + 16);
    assert!(Block::air().should_add(true));
    assert!(Block::water().should_add(true));
    assert!(!Block::water().should_add(false));
    assert!(!Block::stone().should_add(true));
}

fn vox(size: (u32, u32, u32), voxels: &[(u8, u8, u8, u8)]) -> VoxData {
    VoxData {
        models: vec![VoxModelData {
            size,
            voxels: voxels.iter().map(|&(x, y, z, i)| VoxVoxel { x, y, z, i }).collect(),
        }],
    }
}

#[test]
fn vox_models_become_terrain_models() {
    let data = vox((3, 3, 3), &[(0, 0, 0, 5), (1, 0, 0, 8), (2, 0, 0, 230), (0, 1, 0, 5), (0, 1, 0, 6), (9, 9, 9, 5)]);
    let m = dot_vox_to_hetero(&data);
    assert_eq!(m.size(), (3, 3, 3));
    assert_eq!(m.at((0, 0, 0)), Some(Block::from_byte(5)));
    assert_eq!(m.at((1, 0, 0)), Some(Block::air()));
    assert_eq!(m.at((2, 0, 0)), Some(Block::air()));
    assert_eq!(m.at((0, 1, 0)), Some(Block::from_byte(6)));
    assert_eq!(m.at((2, 2, 2)), Some(Block::air()));
    let f = vox_to_figure(&data);
    assert_eq!(f.at((1, 0, 0)), Some(Block::from_byte(8)));
    assert_eq!(f.at((2, 0, 0)), Some(Block::from_byte(230)));
    let none = dot_vox_to_hetero(&VoxData { models: vec![] });
    assert_eq!(none.size(), (0, 0, 0));
    assert!(fits_box((256, 256, 256)));
    assert!(!fits_box((u32::MAX, u32::MAX, 2)) || usize::MAX as u128 >= (u32::MAX as u128) * (u32::MAX as u128) * 2);
}

fn chunk(id: &[u8; 4], content: &[u8]) -> Vec<u8> {
    let mut v = id.to_vec();
    v.extend_from_slice(&(content.len() as u32).to_le_bytes());
    v.extend_from_slice(&0u32.to_le_bytes());
    v.extend_from_slice(content);
    v
}

fn vox_file(size: (u32, u32, u32), voxels: &[(u8, u8, u8, u8)]) -> Vec<u8> {
    let mut sz = Vec::new();
    sz.extend_from_slice(&size.0.to_le_bytes());
    sz.extend_from_slice(&size.1.to_le_bytes());
    sz.extend_from_slice(&size.2.to_le_bytes());
    let mut xyzi = (voxels.len() as u32).to_le_bytes().to_vec();
    for &(x, y, z, i) in voxels {
        xyzi.extend_from_slice(&[x, y, z, i]);
    }
    let mut children = chunk(b"SIZE", &sz);
    children.extend(chunk(b"XYZI", &xyzi));
    let mut file = b"VOX ".to_vec();
    file.extend_from_slice(&150u32.to_le_bytes());
    file.extend_from_slice(b"MAIN");
    file.extend_from_slice(&0u32.to_le_bytes());
    file.extend_from_slice(&(children.len() as u32).to_le_bytes());
    file.extend(children);
    file
}

#[test]
fn vox_files_are_read() {
    // the file stores palette indices one above the ones read
    let bytes = vox_file((2, 1, 1), &[(0, 0, 0, 6), (1, 0, 0, 9)]);
    let m = terrain_model_from_bytes(&bytes).expect("a valid file");
    assert_eq!(m.size(), (2, 1, 1));
    assert_eq!(m.at((0, 0, 0)), Some(Block::from_byte(5)));
    assert_eq!(m.at((1, 0, 0)), Some(Block::air()));
    assert!(terrain_model_from_bytes(b"not a vox file").is_none());
    assert!(terrain_model_from_bytes(&[]).is_none());
}

#[test]
fn figure_files_are_read() {
    let bytes = vox_file((2, 2, 1), &[(1, 1, 0, 9), (0, 0, 0, 231)]);
    let f = figure_from_bytes(&bytes).expect("a valid file");
    assert_eq!(f.size(), (2, 2, 1));
    assert_eq!(f.at((1, 1, 0)), Some(Block::from_byte(8)));
    assert_eq!(f.at((0, 0, 0)), Some(Block::from_byte(230)));
    assert_eq!(f.at((1, 0, 0)), Some(Block::air()));
    assert!(figure_from_bytes(b"VOX nonsense").is_none());
}
