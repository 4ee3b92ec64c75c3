use glam::Vec3A;
use render_core::mesh::{turn_mesh_into_pure_vertex_list, CpuMesh, Vertex};
use render_core::obj::{load_sponza, parse_obj_file};

fn scalar(token: &[u8]) -> Option<f32> {
    std::str::from_utf8(token).ok()?.parse::<f32>().ok()
}

fn face_normal(a: [f32; 3], b: [f32; 3], c: [f32; 3]) -> [f32; 3] {
    let (a, b, c) = (Vec3A::from_array(a), Vec3A::from_array(b), Vec3A::from_array(c));
    (b - a).cross(c - a).normalize().to_array()
}

fn cross_i(a: [i64; 3], b: [i64; 3], c: [i64; 3]) -> [i64; 3] {
    let e1 = [b[0] - a[0], b[1] - a[1], b[2] - a[2]];
    let e2 = [c[0] - a[0], c[1] - a[1], c[2] - a[2]];
    [
        e1[1] * e2[2] - e1[2] * e2[1],
        e1[2] * e2[0] - e1[0] * e2[2],
        e1[0] * e2[1] - e1[1] * e2[0],
    ]
}

fn bits(vertices: &[Vertex<[f32; 3]>]) -> Vec<u32> {
    vertices
        .iter()
        .flat_map(|v| v.pos.iter().chain(v.normal.iter()).map(|x| x.to_bits()).collect::<Vec<u32>>())
        .collect()
}

#[test]
fn triangle_text_flattens_to_three_vertices_with_normal_plus_z() {
    let mesh = parse_obj_file(b"v 0 0 0\nv 1 0 0\nv 0 1 0\nf 1 2 3\n", 0.0f32, scalar);
    assert!(mesh.check_indices());
    let out = turn_mesh_into_pure_vertex_list(mesh, face_normal);
    assert_eq!(out.len(), 3);
    assert_eq!(out[0].pos, [0.0, 0.0, 0.0]);
    assert_eq!(out[1].pos, [1.0, 0.0, 0.0]);
    assert_eq!(out[2].pos, [0.0, 1.0, 0.0]);
    for vertex in &out {
        assert_eq!(vertex.normal, [0.0, 0.0, 1.0]);
    }
}

#[test]
fn reversed_winding_turns_the_normal_round() {
    let mesh = parse_obj_file(b"v 0 0 0\nv 1 0 0\nv 0 1 0\nf 3 2 1\n", 0.0f32, scalar);
    let out = turn_mesh_into_pure_vertex_list(mesh, face_normal);
    for vertex in &out {
        assert_eq!(vertex.normal, [0.0, 0.0, -1.0]);
    }
}

#[test]
fn quad_text_flattens_to_six_vertices_in_two_triangles() {
    let text = b"v 0 0 0\nv 1 0 0\nv 1 1 0\nv 0 1 0\nf 1 2 3 4\n";
    let mesh = parse_obj_file(text, 0.0f32, scalar);
    let out = turn_mesh_into_pure_vertex_list(mesh, face_normal);
    assert_eq!(out.len(), 6);
    let positions: Vec<[f32; 3]> = out.iter().map(|v| v.pos).collect();
    assert_eq!(
        positions,
        vec![
            [0.0, 0.0, 0.0],
            [1.0, 0.0, 0.0],
            [1.0, 1.0, 0.0],
            [1.0, 1.0, 0.0],
            [0.0, 1.0, 0.0],
            [0.0, 0.0, 0.0],
        ]
    );
    for vertex in &out {
        assert_eq!(vertex.normal, [0.0, 0.0, 1.0]);
    }
}

#[test]
fn normals_have_unit_length() {
    let text = b"v 0.3 -2 7\nv 4 1.5 -3\nv -6 2 0.25\nv 1 1 1\nf 1 2 3\nf 2 4 3\nf 4 1 2\n";
    let mesh = parse_obj_file(text, 0.0f32, scalar);
    let out = turn_mesh_into_pure_vertex_list(mesh, face_normal);
    assert_eq!(out.len(), 9);
    for vertex in &out {
        let n = vertex.normal;
        let length = (n[0] * n[0] + n[1] * n[1] + n[2] * n[2]).sqrt();
        assert!((length - 1.0).abs() < 1e-4, "length {}", length);
    }
}

#[test]
fn each_triangle_gets_the_normal_of_its_own_corners_in_order() {
    let mesh = CpuMesh {
        vertices: vec![[0i64, 0, 0], [2, 0, 0], [0, 3, 0], [0, 0, 5]],
        indices: vec![0, 1, 2, 0, 2, 3, 3, 1, 0],
    };
    let out = turn_mesh_into_pure_vertex_list(mesh, cross_i);
    assert_eq!(out.len(), 9);
    let positions: Vec<[i64; 3]> = out.iter().map(|v| v.pos).collect();
    assert_eq!(
        positions,
        vec![
            [0, 0, 0],
            [2, 0, 0],
            [0, 3, 0],
            [0, 0, 0],
            [0, 3, 0],
            [0, 0, 5],
            [0, 0, 5],
            [2, 0, 0],
            [0, 0, 0],
        ]
    );
    let normals: Vec<[i64; 3]> = out.iter().map(|v| v.normal).collect();
    assert_eq!(&normals[0..3], &[[0, 0, 6]; 3]);
    assert_eq!(&normals[3..6], &[[15, 0, 0]; 3]);
    assert_eq!(&normals[6..9], &[[0, 10, 0]; 3]);
}

#[test]
fn indices_left_over_at_the_end_form_no_triangle() {
    let mesh = CpuMesh { vertices: vec![[0i64, 0, 0], [1, 0, 0], [0, 1, 0]], indices: vec![0, 1, 2, 2, 1] };
    let out = turn_mesh_into_pure_vertex_list(mesh, cross_i);
    assert_eq!(out.len(), 3);
    let mesh = CpuMesh { vertices: vec![[0i64, 0, 0]], indices: vec![0, 0] };
    assert!(turn_mesh_into_pure_vertex_list(mesh, cross_i).is_empty());
}

#[test]
fn empty_mesh_flattens_to_nothing() {
    let mesh: CpuMesh<[f32; 3]> = CpuMesh { vertices: vec![], indices: vec![] };
    assert!(mesh.check_indices());
    assert!(turn_mesh_into_pure_vertex_list(mesh, face_normal).is_empty());
}

#[test]
fn the_normal_function_is_called_once_for_each_triangle() {
    let calls = std::cell::Cell::new(0usize);
    let mesh = CpuMesh { vertices: vec![[0i64, 0, 0], [1, 0, 0], [0, 1, 0]], indices: vec![0, 1, 2, 2, 1, 0] };
    let out = turn_mesh_into_pure_vertex_list(mesh, |a, b, c| {
        calls.set(calls.get() + 1);
        cross_i(a, b, c)
    });
    assert_eq!(out.len(), 6);
    assert_eq!(calls.get(), 2);
}

#[test]
fn flattening_twice_gives_the_same_bytes() {
    let text = b"v 0.1 0.2 0.3\nv 1 0 0\nv 1 1 0.7\nv 0 1 0\nf 1 2 3 4\nf 4 2 1\n";
    let first = turn_mesh_into_pure_vertex_list(parse_obj_file(text, 0.0f32, scalar), face_normal);
    let second = turn_mesh_into_pure_vertex_list(parse_obj_file(text, 0.0f32, scalar), face_normal);
    assert_eq!(first.len(), 9);
    assert_eq!(bits(&first), bits(&second));
    let mesh = parse_obj_file(text, 0.0f32, scalar);
    let again = mesh.clone();
    let third = turn_mesh_into_pure_vertex_list(mesh, face_normal);
    let fourth = turn_mesh_into_pure_vertex_list(again, face_normal);
    assert_eq!(bits(&third), bits(&fourth));
    assert_eq!(bits(&first), bits(&third));
}

#[test]
fn check_indices_finds_an_index_out_of_range() {
    let good = CpuMesh { vertices: vec![[0i64; 3]; 3], indices: vec![0, 1, 2, 2, 2, 2] };
    assert!(good.check_indices());
    let bad = CpuMesh { vertices: vec![[0i64; 3]; 3], indices: vec![0, 1, 3] };
    assert!(!bad.check_indices());
    let none = CpuMesh { vertices: Vec::<[i64; 3]>::new(), indices: vec![0] };
    assert!(!none.check_indices());
}

#[test]
fn load_gives_the_flat_list_of_a_sound_text() {
    let out = load_sponza(b"v 0 0 0\nv 1 0 0\nv 0 1 0\nf 1 2 3\n", 0.0f32, scalar, face_normal);
    let out = out.expect("every face names a declared position");
    assert_eq!(out.len(), 3);
    assert_eq!(out[1].pos, [1.0, 0.0, 0.0]);
    assert_eq!(out[2].normal, [0.0, 0.0, 1.0]);
}

#[test]
fn load_refuses_a_face_that_names_no_declared_position() {
    assert!(load_sponza(b"v 0 0 0\nv 1 0 0\nf 1 2 3\n", 0.0f32, scalar, face_normal).is_none());
}

#[test]
fn load_of_an_empty_text_is_an_empty_list() {
    let out = load_sponza(b"", 0.0f32, scalar, face_normal);
    assert_eq!(out.map(|v| v.len()), Some(0));
}
