use emarfcore::handle::{HandleError, HandleTable, NULL_HANDLE};
use emarfcore::mesh::{
    face_buffer, free_faces, free_polygon_mesh, free_vertices, get_face_count, get_faces,
    get_vertex_count, get_vertices, store_mesh, vertex_buffer,
};
use emarfcore::point::{construct_point3, point3_free, point3_get_x};
use emarfcore::resource::{Resource, ResourceKind};
use truck_meshalgo::tessellation::{MeshableShape, MeshedShape};
use truck_modeling::{builder, Point3, Vector3};
use truck_polymesh::PolygonMesh;

fn cube(size: f64) -> PolygonMesh {
    let vertex = builder::vertex(Point3::new(0.0, 0.0, 0.0));
    let edge = builder::tsweep(&vertex, size * Vector3::unit_z());
    let face = builder::tsweep(&edge, size * Vector3::unit_x());
    let solid = builder::tsweep(&face, size * Vector3::unit_y());
    solid.triangulation(0.01).to_polygon()
}

fn live_handles(reg: &HandleTable<Resource>) -> Vec<isize> {
    (1..=reg.issued_count() as isize).filter(|&h| reg.contains(h)).collect()
}

#[test]
fn cube_counts_match_baseline() {
    let mut reg = HandleTable::new();
    let h = store_mesh(&mut reg, cube(2.0));
    assert_eq!(get_vertex_count(&reg, h), 24);
    assert_eq!(get_face_count(&reg, h), 12);
}

#[test]
fn cube_counts_fit_a_triangulated_cube() {
    let mut reg = HandleTable::new();
    for size in [0.5, 1.0, 3.0, 10.0] {
        let h = store_mesh(&mut reg, cube(size));
        let faces = get_face_count(&reg, h);
        assert!(faces >= 12);
        assert_eq!(faces % 2, 0);
        assert!(get_vertex_count(&reg, h) >= 8);
    }
}

#[test]
fn exported_lengths_are_three_per_item() {
    let mut reg = HandleTable::new();
    let h = store_mesh(&mut reg, cube(2.0));
    let nv = get_vertex_count(&reg, h) as usize;
    let nf = get_face_count(&reg, h) as usize;
    let vb = get_vertices(&mut reg, h);
    let fb = get_faces(&mut reg, h);
    let vs = vertex_buffer(&reg, vb).unwrap();
    let fs = face_buffer(&reg, fb).unwrap();
    assert_eq!(vs.len(), 3 * nv);
    assert_eq!(fs.len(), 3 * nf);
    assert!(fs.iter().all(|&i| 0 <= i && (i as usize) < nv));
}

#[test]
fn exported_positions_are_the_mesh_positions() {
    let mesh = cube(2.0);
    let expected: Vec<u64> = mesh
        .positions()
        .iter()
        .flat_map(|p| [p.x.to_bits(), p.y.to_bits(), p.z.to_bits()])
        .collect();
    let mut reg = HandleTable::new();
    let h = store_mesh(&mut reg, mesh);
    let vb = get_vertices(&mut reg, h);
    let vs = vertex_buffer(&reg, vb).unwrap();
    assert_eq!(vs, &expected);
    let coords: Vec<f64> = vs.iter().map(|&b| f64::from_bits(b)).collect();
    assert!(coords.iter().all(|&c| c == 0.0 || c == 2.0));
    assert!(coords.iter().any(|&c| c == 2.0));
}

#[test]
fn exported_faces_are_the_mesh_triangles() {
    let mesh = cube(2.0);
    let expected: Vec<i32> = mesh
        .tri_faces()
        .iter()
        .flat_map(|f| [f[0].pos as i32, f[1].pos as i32, f[2].pos as i32])
        .collect();
    let mut reg = HandleTable::new();
    let h = store_mesh(&mut reg, mesh);
    let fb = get_faces(&mut reg, h);
    let fs = face_buffer(&reg, fb).unwrap();
    assert_eq!(fs, &expected);
    assert!(fs.iter().any(|&i| i != 0));
}

#[test]
fn dead_mesh_handle_gives_nothing() {
    let mut reg = HandleTable::new();
    let h = store_mesh(&mut reg, cube(1.0));
    assert_eq!(get_vertex_count(&reg, NULL_HANDLE), 0);
    assert_eq!(get_face_count(&reg, NULL_HANDLE), 0);
    assert_eq!(get_vertices(&mut reg, NULL_HANDLE), NULL_HANDLE);
    assert_eq!(get_faces(&mut reg, NULL_HANDLE), NULL_HANDLE);
    assert_eq!(free_polygon_mesh(&mut reg, h), Ok(()));
    assert_eq!(get_vertex_count(&reg, h), 0);
    assert_eq!(get_faces(&mut reg, h), NULL_HANDLE);
    assert_eq!(reg.issued_count(), 1);
    assert_eq!(free_polygon_mesh(&mut reg, h), Err(HandleError::Released));
    assert_eq!(free_polygon_mesh(&mut reg, NULL_HANDLE), Ok(()));
}

#[test]
fn buffers_outlive_their_mesh_in_any_order() {
    let orders = [[0, 1, 2], [0, 2, 1], [1, 0, 2], [1, 2, 0], [2, 0, 1], [2, 1, 0]];
    for order in orders {
        let mut reg = HandleTable::new();
        let keep = construct_point3(&mut reg, 7, 8, 9);
        let before = live_handles(&reg);
        let h = store_mesh(&mut reg, cube(2.0));
        let vb = get_vertices(&mut reg, h);
        let fb = get_faces(&mut reg, h);
        let vcopy = vertex_buffer(&reg, vb).unwrap().clone();
        let fcopy = face_buffer(&reg, fb).unwrap().clone();
        for step in order {
            match step {
                0 => assert_eq!(free_polygon_mesh(&mut reg, h), Ok(())),
                1 => assert_eq!(free_vertices(&mut reg, vb), Ok(())),
                _ => assert_eq!(free_faces(&mut reg, fb), Ok(())),
            }
            if reg.contains(vb) {
                assert_eq!(vertex_buffer(&reg, vb), Some(&vcopy));
            }
            if reg.contains(fb) {
                assert_eq!(face_buffer(&reg, fb), Some(&fcopy));
            }
        }
        assert_eq!(free_vertices(&mut reg, vb), Err(HandleError::Released));
        assert_eq!(free_faces(&mut reg, fb), Err(HandleError::Released));
        assert_eq!(free_polygon_mesh(&mut reg, h), Err(HandleError::Released));
        assert_eq!(live_handles(&reg), before);
        assert_eq!(point3_get_x(&reg, keep), 7);
    }
}

#[test]
fn handles_are_unique_across_kinds() {
    let mut reg = HandleTable::new();
    let p = construct_point3(&mut reg, 1, 2, 3);
    let m = store_mesh(&mut reg, cube(1.0));
    let vb = get_vertices(&mut reg, m);
    let fb = get_faces(&mut reg, m);
    let q = construct_point3(&mut reg, 4, 5, 6);
    let all = [p, m, vb, fb, q];
    for i in 0..all.len() {
        assert_ne!(all[i], NULL_HANDLE);
        for j in 0..i {
            assert_ne!(all[i], all[j]);
        }
    }
    assert_eq!(reg.get(m).map(|r| r.kind()), Some(ResourceKind::Mesh));
    assert_eq!(reg.get(vb).map(|r| r.kind()), Some(ResourceKind::Positions));
    assert_eq!(reg.get(fb).map(|r| r.kind()), Some(ResourceKind::Indices));
    assert_eq!(reg.get(q).map(|r| r.kind()), Some(ResourceKind::Point));
}

#[test]
fn release_with_another_kind_is_refused() {
    let mut reg = HandleTable::new();
    let m = store_mesh(&mut reg, cube(1.0));
    let p = construct_point3(&mut reg, 1, 2, 3);
    let fb = get_faces(&mut reg, m);
    assert_eq!(point3_free(&mut reg, m), Err(HandleError::WrongKind));
    assert_eq!(free_polygon_mesh(&mut reg, p), Err(HandleError::WrongKind));
    assert_eq!(free_vertices(&mut reg, fb), Err(HandleError::WrongKind));
    assert_eq!(free_faces(&mut reg, m), Err(HandleError::WrongKind));
    assert_eq!(get_vertex_count(&reg, p), 0);
    assert_eq!(point3_get_x(&reg, m), 0);
    assert!(reg.contains(m) && reg.contains(p) && reg.contains(fb));
    assert_eq!(point3_get_x(&reg, p), 1);
    assert!(get_face_count(&reg, m) > 0);
}
