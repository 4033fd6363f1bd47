use rust_game_engine::mesh::{
    create_vertices_for_quads, index_bytes, push_quad, quads_per_side, vertex_attr_array, Corner,
    Vertex, VertexAttribute, VertexFormat, VertexStepMode,
};

/// Grid-line column and row of a vertex: its cell plus its corner's offset.
fn lattice(vertex: &Vertex) -> (i64, i64) {
    let (dx, dy) = match vertex.corner {
        Corner::BottomLeft => (0, 0),
        Corner::BottomRight => (1, 0),
        Corner::TopRight => (1, 1),
        Corner::TopLeft => (0, 1),
    };
    (vertex.cell_x as i64 + dx, vertex.cell_y as i64 + dy)
}

/// Clip-space position and texture coordinates of a vertex on a grid of `q`
/// quads per side when the quad count is the perfect square `q * q`: column
/// `c` at `-1 + 2c/q`, texture u `c/q`, texture v `(q - r)/q`.
fn clip_and_uv(vertex: &Vertex, q: u32) -> ([f32; 3], [f32; 2]) {
    let (column, row) = lattice(vertex);
    let q = q as f32;
    (
        [-1.0 + 2.0 * column as f32 / q, -1.0 + 2.0 * row as f32 / q, 0.0],
        [column as f32 / q, (q - row as f32) / q],
    )
}

#[test]
fn test_create_vertices_for_quads() {
    // given
    let expected_vertices: &[([f32; 3], [f32; 2])] = &[
        // bottom-left
        ([-1.0, -1.0, 0.0], [0.0, 1.0]),
        // bottom-right
        ([1.0, -1.0, 0.0], [1.0, 1.0]),
        // top-right
        ([1.0, 1.0, 0.0], [1.0, 0.0]),
        // top-left
        ([-1.0, 1.0, 0.0], [0.0, 0.0]),
    ];
    let expected_indices: &[u16] = &[0, 1, 2, 0, 2, 3];

    // when
    let (vertices, indices) = create_vertices_for_quads(1);

    // then
    let q = quads_per_side(1);
    let mapped: Vec<([f32; 3], [f32; 2])> = vertices.iter().map(|v| clip_and_uv(v, q)).collect();
    assert_eq!(mapped, expected_vertices);
    assert_eq!(indices, expected_indices);
    assert_eq!(
        vertices,
        vec![
            Vertex { cell_x: 0, cell_y: 0, corner: Corner::BottomLeft },
            Vertex { cell_x: 0, cell_y: 0, corner: Corner::BottomRight },
            Vertex { cell_x: 0, cell_y: 0, corner: Corner::TopRight },
            Vertex { cell_x: 0, cell_y: 0, corner: Corner::TopLeft },
        ]
    );
}

#[test]
fn quads_per_side_of_small_counts() {
    assert_eq!(quads_per_side(0), 0);
    assert_eq!(quads_per_side(-7), 0);
    assert_eq!(quads_per_side(1), 1);
    assert_eq!(quads_per_side(3), 1);
    assert_eq!(quads_per_side(4), 2);
    assert_eq!(quads_per_side(5), 2);
    assert_eq!(quads_per_side(16), 4);
    assert_eq!(quads_per_side(i32::MAX), 46340);
}

/// The renderer's own float computation of the quads per side.
fn float_quads_per_side(n: i32) -> u32 {
    (n as f32).sqrt() as i32 as u32
}

#[test]
fn quads_per_side_follows_float_rounding_above_two_to_the_24() {
    // 16793603 rounds to the float 16793604 = 4098 * 4098.
    assert_eq!(quads_per_side(16_793_603), 4098);
    assert_eq!(float_quads_per_side(16_793_603), 4098);
    assert_eq!(quads_per_side(16_777_217), 4096);
}

#[test]
fn quads_per_side_agrees_with_float_square_root() {
    for n in -10..200_000 {
        assert_eq!(quads_per_side(n), float_quads_per_side(n), "n = {n}");
    }
    let mut k: i64 = 1;
    while k <= 46341 {
        let square = k * k;
        let low = (square - 300).max(1);
        let high = (square + 300).min(i32::MAX as i64);
        for n in low..=high {
            let n = n as i32;
            assert_eq!(quads_per_side(n), float_quads_per_side(n), "n = {n}");
        }
        k += if k < 5000 { 7 } else { 1 };
    }
    let mut n: i64 = 1;
    while n <= i32::MAX as i64 {
        assert_eq!(quads_per_side(n as i32), float_quads_per_side(n as i32), "n = {n}");
        n = n * 3 / 2 + 1;
    }
}

#[test]
fn push_quad_keeps_indices_within_the_vertices() {
    let mut vertices = vec![Vertex { cell_x: 0, cell_y: 0, corner: Corner::TopLeft }; 8];
    let mut indices: Vec<u16> = vec![0, 7];
    push_quad(&mut vertices, &mut indices, 5, 6);
    assert_eq!(vertices.len(), 12);
    assert_eq!(vertices[9], Vertex { cell_x: 5, cell_y: 6, corner: Corner::BottomRight });
    assert_eq!(indices, vec![0, 7, 8, 9, 10, 8, 10, 11]);
    assert!(indices.iter().all(|&i| (i as usize) < vertices.len()));
}

#[test]
fn no_quads_for_non_positive_counts() {
    let (vertices, indices) = create_vertices_for_quads(0);
    assert!(vertices.is_empty() && indices.is_empty());
    let (vertices, indices) = create_vertices_for_quads(-3);
    assert!(vertices.is_empty() && indices.is_empty());
}

#[test]
fn four_quads_cover_a_two_by_two_grid_row_by_row() {
    let (vertices, indices) = create_vertices_for_quads(4);
    assert_eq!(vertices.len(), 16);
    assert_eq!(
        indices,
        vec![0, 1, 2, 0, 2, 3, 4, 5, 6, 4, 6, 7, 8, 9, 10, 8, 10, 11, 12, 13, 14, 12, 14, 15]
    );
    let cells: Vec<(u32, u32)> = vertices.iter().step_by(4).map(|v| (v.cell_x, v.cell_y)).collect();
    assert_eq!(cells, vec![(0, 0), (1, 0), (0, 1), (1, 1)]);
    assert_eq!(vertices[6], Vertex { cell_x: 1, cell_y: 0, corner: Corner::TopRight });
    assert_eq!(lattice(&vertices[6]), (2, 1));
}

#[test]
fn a_non_square_count_rounds_down_to_a_square_grid() {
    let (vertices, indices) = create_vertices_for_quads(8);
    assert_eq!(vertices.len(), 16);
    assert_eq!(indices.len(), 24);
}

#[test]
fn every_index_names_a_vertex_and_triangles_run_counter_clockwise() {
    let (vertices, indices) = create_vertices_for_quads(9);
    assert!(indices.iter().all(|&i| (i as usize) < vertices.len()));
    for triangle in indices.chunks(3) {
        let a = lattice(&vertices[triangle[0] as usize]);
        let b = lattice(&vertices[triangle[1] as usize]);
        let c = lattice(&vertices[triangle[2] as usize]);
        let orientation = (b.0 - a.0) * (c.1 - a.1) - (b.1 - a.1) * (c.0 - a.0);
        assert!(orientation > 0);
    }
}

#[test]
fn indices_wrap_to_sixteen_bits_past_65536_vertices() {
    // 129 * 129 quads need 66564 vertices.
    let (vertices, indices) = create_vertices_for_quads(129 * 129);
    assert_eq!(vertices.len(), 66564);
    assert_eq!(indices.len(), 6 * 16641);
    assert_eq!(&indices[6 * 16383..6 * 16383 + 6], &[65532, 65533, 65534, 65532, 65534, 65535]);
    assert_eq!(&indices[6 * 16384..6 * 16384 + 6], &[0, 1, 2, 0, 2, 3]);
    assert!(indices.iter().all(|&i| (i as usize) < vertices.len()));
}

#[test]
fn vertex_layout_packs_position_then_texture_coordinates() {
    let layout = Vertex::desc();
    assert_eq!(layout.array_stride, 20);
    assert_eq!(layout.step_mode, VertexStepMode::Vertex);
    assert_eq!(
        layout.attributes,
        vec![
            VertexAttribute { format: VertexFormat::Float32x3, offset: 0, shader_location: 0 },
            VertexAttribute { format: VertexFormat::Float32x2, offset: 12, shader_location: 1 },
        ]
    );
}

#[test]
fn attribute_offsets_are_running_sums_of_sizes() {
    let attributes = vertex_attr_array(&[
        (3, VertexFormat::Float32x2),
        (1, VertexFormat::Float32x2),
        (7, VertexFormat::Float32x3),
        (0, VertexFormat::Float32x2),
    ]);
    let offsets: Vec<u64> = attributes.iter().map(|a| a.offset).collect();
    let locations: Vec<u32> = attributes.iter().map(|a| a.shader_location).collect();
    assert_eq!(offsets, vec![0, 8, 16, 28]);
    assert_eq!(locations, vec![3, 1, 7, 0]);
    assert_eq!(VertexFormat::Float32x3.size(), 12);
    assert!(vertex_attr_array(&[]).is_empty());
}

#[test]
fn index_bytes_are_the_indices_in_memory_order() {
    let indices: Vec<u16> = vec![1, 0x0203, 0xfffe];
    let bytes = index_bytes(&indices);
    let expected: Vec<u8> = indices.iter().flat_map(|i| i.to_ne_bytes()).collect();
    assert_eq!(bytes, expected.as_slice());
    assert_eq!(bytes.len(), 6);
}
