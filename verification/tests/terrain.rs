use faithful::terrain::{LandscapeMesh, Shape, LAND_SIZE, LAND_VERTICES};

fn base_heights() -> [[u16; 128]; 128] {
    let mut h = [[0u16; 128]; 128];
    for y in 0..128 {
        for x in 0..128 {
            h[y][x] = ((x * 7 + y * 13) % 100 + 50) as u16;
        }
    }
    h
}

fn checks(m: &LandscapeMesh) -> (u64, u64) {
    let h = m.heights();
    let mut s = 0u64;
    let mut ws = 0u64;
    for y in 0..128 {
        for x in 0..128 {
            s += h[y][x] as u64;
            ws += ((y * 128 + x) as u64) * h[y][x] as u64;
        }
    }
    (s, ws)
}

fn mask(bits: &[u8]) -> [u8; 40] {
    let mut m = [0u8; 40];
    m[..bits.len()].copy_from_slice(bits);
    m
}

#[test]
fn new_landscape_is_flat_and_meshed() {
    let m = LandscapeMesh::new();
    assert_eq!(m.width(), LAND_SIZE);
    assert_eq!(checks(&m), (0, 0));
    assert_eq!(m.get_shift_vector(), [0, 0, 0, 0]);
}

#[test]
fn height_access_wraps() {
    let mut m = LandscapeMesh::new();
    m.set_height_at(130, 2, 7);
    assert_eq!(m.height_at(2, 2), 7);
    assert_eq!(m.height_at(2, 130), 7);
    assert_eq!(m.height_at(3, 2), 0);
}

#[test]
fn gpu_heights_are_row_major() {
    let mut m = LandscapeMesh::new();
    m.set_heights(&base_heights());
    let v = m.heights_to_gpu_vec();
    assert_eq!(v.len(), 128 * 128);
    assert_eq!(v[3 * 128 + 5], ((5 * 7 + 3 * 13) % 100 + 50) as u32);
}

#[test]
fn shifts_wrap_both_ways() {
    let mut m = LandscapeMesh::new();
    assert_eq!(m.shift_x(-1), 127);
    assert_eq!(m.shift_x(129), 0);
    assert_eq!(m.shift_y(-300), 84);
    assert_eq!(m.shift_y(300), 0);
    m.set_shift(130, 5);
    assert_eq!(m.get_shift_vector(), [2, 5, 0, 0]);
}

#[test]
fn mesh_vertices_cover_cells() {
    let v = faithful::terrain::gen_mesh();
    assert_eq!(v.len(), LAND_VERTICES);
    assert_eq!(&v[0..6], &[(0, 0), (0, 1), (1, 0), (1, 1), (0, 1), (1, 0)]);
    let k = (2 * 128 + 3) * 6;
    assert_eq!(&v[k..k + 6], &[(2, 3), (2, 4), (3, 3), (3, 4), (2, 4), (3, 3)]);
    let last_col = (5 * 128 + 127) * 6;
    assert_eq!(v[last_col], (0, 0));
}

#[test]
fn flatten_with_average() {
    let mut m = LandscapeMesh::new();
    m.set_heights(&base_heights());
    let shape = Shape { width: 3, height: 2, origin_x: 1, origin_z: 1, cell_mask: mask(&[1, 1, 1, 1, 0, 1]) };
    m.flatten_building_footprint(10, 20, &shape, true);
    assert_eq!(m.height_at(9, 19), 82);
    assert_eq!(checks(&m), (1630161, 13353302762));
}

#[test]
fn flatten_to_lowest() {
    let mut m = LandscapeMesh::new();
    m.set_heights(&base_heights());
    let shape = Shape { width: 3, height: 2, origin_x: 1, origin_z: 1, cell_mask: mask(&[1, 1, 1, 1, 0, 1]) };
    m.flatten_building_footprint(10, 20, &shape, false);
    assert_eq!(m.height_at(9, 19), 60);
    assert_eq!(checks(&m), (1629883, 13352589594));
}

#[test]
fn flatten_wraps_across_the_edge() {
    let mut m = LandscapeMesh::new();
    m.set_heights(&base_heights());
    let shape = Shape { width: 2, height: 2, origin_x: 0, origin_z: 0, cell_mask: mask(&[1, 1, 1, 1]) };
    m.flatten_building_footprint(0, 127, &shape, true);
    assert_eq!(m.height_at(0, 127), 73);
    assert_eq!(checks(&m), (1630154, 13352186688));
}

#[test]
fn flatten_empty_footprint_changes_nothing() {
    let mut m = LandscapeMesh::new();
    m.set_heights(&base_heights());
    let before = checks(&m);
    let shape = Shape { width: 2, height: 2, origin_x: 0, origin_z: 0, cell_mask: [0u8; 40] };
    m.flatten_building_footprint(5, 5, &shape, true);
    assert_eq!(checks(&m), before);
    let flat = Shape { width: 0, height: 2, origin_x: 0, origin_z: 0, cell_mask: [1u8; 40] };
    m.flatten_building_footprint(5, 5, &flat, true);
    assert_eq!(checks(&m), before);
}

#[test]
fn flattened_height_is_at_least_one() {
    let mut m = LandscapeMesh::new();
    let shape = Shape { width: 1, height: 1, origin_x: 0, origin_z: 0, cell_mask: mask(&[1]) };
    m.flatten_building_footprint(40, 40, &shape, false);
    assert_eq!(m.height_at(40, 40), 1);
}
