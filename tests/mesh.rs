use wgpu_scene::mesh::{
    build_topology, corner_counts, gather_vertices, resolve_material, split_triangles, vertex_count, MeshError,
    Triangle, VertexAttributes,
};

fn tri(a: usize, b: usize, c: usize) -> Triangle {
    Triangle { a, b, c }
}

#[test]
fn unit_quad_topology() {
    let indices: Vec<u32> = vec![0, 1, 2, 0, 2, 3];
    let topo = build_topology(&indices, 12, 8, 12).unwrap();
    assert_eq!(topo.vertex_count, 4);
    assert_eq!(topo.triangles, vec![tri(0, 1, 2), tri(0, 2, 3)]);
    assert_eq!(topo.corner_counts, vec![2, 1, 2, 1]);
}

#[test]
fn split_groups_in_threes() {
    let indices: Vec<u32> = vec![2, 1, 0, 3, 4, 5];
    assert_eq!(
        split_triangles(&indices, 6),
        Ok(vec![tri(2, 1, 0), tri(3, 4, 5)])
    );
    assert_eq!(split_triangles(&Vec::new(), 0), Ok(Vec::new()));
}

#[test]
fn split_rejects_partial_triangle() {
    let indices: Vec<u32> = vec![0, 1, 2, 0];
    assert_eq!(
        split_triangles(&indices, 3),
        Err(MeshError::PartialTriangle { len: 4 })
    );
}

#[test]
fn split_rejects_first_index_out_of_range() {
    let indices: Vec<u32> = vec![0, 1, 2, 0, 7, 9];
    assert_eq!(
        split_triangles(&indices, 3),
        Err(MeshError::IndexOutOfRange { position: 4, index: 7 })
    );
}

#[test]
fn counts_for_shared_vertex() {
    // a fan of three triangles around vertex 0
    let tris = vec![tri(0, 1, 2), tri(0, 2, 3), tri(0, 3, 4)];
    assert_eq!(corner_counts(&tris, 6), vec![3, 1, 2, 2, 1, 0]);
}

#[test]
fn counts_repeated_corner_twice() {
    let tris = vec![tri(1, 1, 0)];
    assert_eq!(corner_counts(&tris, 2), vec![1, 2]);
}

#[test]
fn vertex_count_checks_attributes() {
    assert_eq!(vertex_count(12, 8, 12), Ok(4));
    assert_eq!(vertex_count(13, 8, 12), Ok(4));
    assert_eq!(
        vertex_count(12, 6, 12),
        Err(MeshError::MissingTexCoords { vertices: 4, len: 6 })
    );
    assert_eq!(
        vertex_count(12, 8, 11),
        Err(MeshError::MissingNormals { vertices: 4, len: 11 })
    );
    assert_eq!(vertex_count(0, 0, 0), Ok(0));
}

#[test]
fn build_topology_reports_attribute_error_first() {
    let indices: Vec<u32> = vec![0, 1];
    assert_eq!(
        build_topology(&indices, 9, 0, 9).err(),
        Some(MeshError::MissingTexCoords { vertices: 3, len: 0 })
    );
    assert_eq!(
        build_topology(&indices, 9, 6, 9).err(),
        Some(MeshError::PartialTriangle { len: 2 })
    );
}

#[test]
fn material_defaults_to_zero() {
    assert_eq!(resolve_material(None, 0), Ok(0));
    assert_eq!(resolve_material(Some(2), 3), Ok(2));
    assert_eq!(
        resolve_material(Some(3), 3),
        Err(MeshError::MaterialOutOfRange { material: 3, count: 3 })
    );
}

#[test]
fn gather_reads_each_vertex() {
    let positions: Vec<f32> = vec![0.0, 1.0, 2.0, 3.0, 4.0, 5.0, 9.0];
    let texcoords: Vec<f32> = vec![0.5, 0.25, 0.75, 1.0];
    let normals: Vec<f32> = vec![0.0, 0.0, 1.0, 0.0, 1.0, 0.0];
    let v = gather_vertices(&positions, &texcoords, &normals).unwrap();
    assert_eq!(
        v,
        vec![
            VertexAttributes {
                position: (0.0, 1.0, 2.0),
                tex_coords: (0.5, 0.25),
                normal: (0.0, 0.0, 1.0),
            },
            VertexAttributes {
                position: (3.0, 4.0, 5.0),
                tex_coords: (0.75, 1.0),
                normal: (0.0, 1.0, 0.0),
            },
        ]
    );
}

#[test]
fn gather_rejects_short_lists() {
    let positions: Vec<u8> = vec![1, 2, 3, 4, 5, 6];
    let short: Vec<u8> = vec![1, 2, 3];
    let normals: Vec<u8> = vec![0; 6];
    assert_eq!(
        gather_vertices(&positions, &short, &normals),
        Err(MeshError::MissingTexCoords { vertices: 2, len: 3 })
    );
    assert_eq!(
        gather_vertices(&positions, &vec![0; 4], &short),
        Err(MeshError::MissingNormals { vertices: 2, len: 3 })
    );
}
