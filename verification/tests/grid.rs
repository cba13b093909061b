use gridwave::mesh::{create_grid, GridVertex};

fn expected_count(w: u64, d: u64) -> u64 {
    w * d + (d - 1) * 2 + w * d + (w - 1) * 2
}

#[test]
fn count_follows_closed_formula() {
    for &(w, d) in &[(1u32, 1u32), (1, 5), (5, 1), (2, 3), (3, 2), (7, 7), (16, 9)] {
        let m = create_grid(w, d);
        assert_eq!(m.vertex_count() as u64, expected_count(w as u64, d as u64));
        assert_eq!(m.width, w);
        assert_eq!(m.depth, d);
    }
}

#[test]
fn default_grid_has_9876_vertices() {
    let m = create_grid(80, 60);
    assert_eq!(m.vertex_count(), 4800 + 118 + 4800 + 158);
    assert_eq!(m.vertex_count(), 9876);
}

#[test]
fn generator_is_idempotent() {
    let a = create_grid(80, 60);
    let b = create_grid(80, 60);
    assert_eq!(a.vertices, b.vertices);
}

#[test]
fn generator_output_is_bit_identical_as_floats() {
    // Converting the lattice to floating point with the renderer's formula
    // must give bit-identical buffers across calls.
    let to_f32 = |m: &gridwave::mesh::GridMesh| -> Vec<[u32; 3]> {
        m.vertices
            .iter()
            .map(|v| {
                let x = v.xi as f32 * 2.0 / m.width as f32 - 1.0;
                let z = v.zi as f32 * 2.0 / m.depth as f32 - 1.0;
                [x.to_bits(), 0.0f32.to_bits(), z.to_bits()]
            })
            .collect()
    };
    let a = to_f32(&create_grid(80, 60));
    let b = to_f32(&create_grid(80, 60));
    assert_eq!(a, b);
}

#[test]
fn horizontal_pass_layout_small_grid() {
    // width 4, depth 3: rows of 4, connectors between rows.
    let m = create_grid(4, 3);
    let v = &m.vertices;
    // Row 0.
    assert_eq!(v[0], GridVertex { xi: 0, zi: 0 });
    assert_eq!(v[1], GridVertex { xi: 1, zi: 0 });
    assert_eq!(v[2], GridVertex { xi: 2, zi: 0 });
    assert_eq!(v[3], GridVertex { xi: 3, zi: 0 });
    // Connector: end of row 0 boundary, start of row 1.
    assert_eq!(v[4], GridVertex { xi: 4, zi: 0 });
    assert_eq!(v[5], GridVertex { xi: 0, zi: 1 });
    // Row 1 starts at 6 == 1 * (width + 2).
    assert_eq!(v[6], GridVertex { xi: 0, zi: 1 });
    // Last row has no trailing connector: horizontal pass length.
    let hlen = 4 * 3 + 2 * 2;
    // Vertical pass: column 0 front to back.
    assert_eq!(v[hlen], GridVertex { xi: 0, zi: 0 });
    assert_eq!(v[hlen + 1], GridVertex { xi: 0, zi: 1 });
    assert_eq!(v[hlen + 2], GridVertex { xi: 0, zi: 2 });
    // Column connector: boundary of column 0, start of column 1.
    assert_eq!(v[hlen + 3], GridVertex { xi: 0, zi: 3 });
    assert_eq!(v[hlen + 4], GridVertex { xi: 1, zi: 0 });
}

#[test]
fn connectors_land_exactly_on_the_boundary() {
    // The renderer's conversion sends lattice index `width` to exactly
    // +1.0 and index 0 to exactly -1.0, bit for bit.
    let m = create_grid(80, 60);
    let x_of = |xi: u32| xi as f32 * 2.0 / m.width as f32 - 1.0;
    let z_of = |zi: u32| zi as f32 * 2.0 / m.depth as f32 - 1.0;
    // Connector pair after row 0: indices width and width + 1.
    let a = m.vertices[80];
    let b = m.vertices[81];
    assert_eq!(x_of(a.xi).to_bits(), 1.0f32.to_bits());
    assert_eq!(z_of(a.zi).to_bits(), (-1.0f32).to_bits());
    assert_eq!(x_of(b.xi).to_bits(), (-1.0f32).to_bits());
    assert_eq!(b.zi, 1);
}

#[test]
fn rows_and_columns_step_one_lattice_unit() {
    // Within every row (resp. column), consecutive non-connector vertices
    // differ by one lattice step along one axis and zero along the other:
    // 2/width (resp. 2/depth) in world units.
    let (w, d) = (5usize, 4usize);
    let m = create_grid(w as u32, d as u32);
    let v = &m.vertices;
    for r in 0..d {
        for i in 0..w - 1 {
            let k = r * (w + 2) + i;
            assert_eq!(v[k + 1].xi, v[k].xi + 1);
            assert_eq!(v[k + 1].zi, v[k].zi);
            assert_eq!(v[k].zi as usize, r);
        }
    }
    let base = w * d + 2 * (d - 1);
    for c in 0..w {
        for j in 0..d - 1 {
            let k = base + c * (d + 2) + j;
            assert_eq!(v[k + 1].zi, v[k].zi + 1);
            assert_eq!(v[k + 1].xi, v[k].xi);
            assert_eq!(v[k].xi as usize, c);
        }
    }
}

#[test]
fn degenerate_sizes_have_no_interior_segments() {
    let m = create_grid(1, 1);
    // One row vertex plus one column vertex, no connectors.
    assert_eq!(m.vertex_count(), 2);
    assert_eq!(m.vertices[0], GridVertex { xi: 0, zi: 0 });
    assert_eq!(m.vertices[1], GridVertex { xi: 0, zi: 0 });
}
