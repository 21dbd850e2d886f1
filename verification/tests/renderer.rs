use bog::encode::index_bytes;
use bog::encode::vertex_bytes;
use bog::Color;
use bog::Quad;
use bog::Renderer;
use bog::Vertex;

fn le(x: u32) -> [u8; 4] {
    x.to_le_bytes()
}

fn vertex_le(x: u32, y: u32, c: Color) -> Vec<u8> {
    let mut out: Vec<u8> = Vec::new();
    out.extend_from_slice(&le(x));
    out.extend_from_slice(&le(y));
    out.extend_from_slice(&le(c.r));
    out.extend_from_slice(&le(c.g));
    out.extend_from_slice(&le(c.b));
    out
}

fn pattern_le(base: u32) -> Vec<u8> {
    let mut out: Vec<u8> = Vec::new();
    for i in [0u32, 1, 2, 2, 1, 3] {
        out.extend_from_slice(&le(base + i));
    }
    out
}

#[test]
fn empty_batch() {
    let r = Renderer::start();
    let (vb, ib, n) = r.finish();
    assert_eq!(vb, Vec::<u8>::new());
    assert_eq!(ib, Vec::<u8>::new());
    assert_eq!(n, 0);
}

#[test]
fn quad_constants() {
    assert_eq!(Quad::num_indices(), 6);
    assert_eq!(Quad::num_vertices(), 4);
    assert_eq!(Quad::indices_u16(), [0u16, 1, 2, 2, 1, 3]);
    assert_eq!(Quad::indices_u32(), [0u32, 1, 2, 2, 1, 3]);
}

#[test]
fn push_with_color_order() {
    let q = Quad::new(10, 20, 30, 40);
    let c = Color { r: 7, g: 8, b: 9 };
    let mut out: Vec<Vertex> = Vec::new();
    q.push_with_color(c, &mut out);
    assert_eq!(
        out,
        vec![
            Vertex { x: 10, y: 20, r: 7, g: 8, b: 9 },
            Vertex { x: 30, y: 20, r: 7, g: 8, b: 9 },
            Vertex { x: 10, y: 40, r: 7, g: 8, b: 9 },
            Vertex { x: 30, y: 40, r: 7, g: 8, b: 9 },
        ]
    );
}

#[test]
fn single_quad_batch() {
    // The demo scene: a quad positioned at (0.1, 0.2) with size (0.5, 0.3),
    // coloured (0.5, 0.3, 0.7), carried as float bit patterns.
    let x0: u32 = 0.1f32.to_bits();
    let y0: u32 = 0.2f32.to_bits();
    let x1: u32 = (0.1f32 + 0.5f32).to_bits();
    let y1: u32 = (0.2f32 + 0.3f32).to_bits();
    let c = Color { r: 0.5f32.to_bits(), g: 0.3f32.to_bits(), b: 0.7f32.to_bits() };

    let mut r = Renderer::start();
    r.add_quad(&Quad::new(x0, y0, x1, y1), c);
    let (vb, ib, n) = r.finish();

    assert_eq!(n, 6);
    assert_eq!(ib, pattern_le(0));

    let mut expected: Vec<u8> = Vec::new();
    expected.extend(vertex_le(x0, y0, c));
    expected.extend(vertex_le(x1, y0, c));
    expected.extend(vertex_le(x0, y1, c));
    expected.extend(vertex_le(x1, y1, c));
    assert_eq!(vb, expected);
}

#[test]
fn two_quad_batch() {
    let a = Quad::new(1, 2, 3, 4);
    let b = Quad::new(5, 6, 7, 8);
    let c = Color { r: 9, g: 10, b: 11 };

    let mut r = Renderer::start();
    r.add_quads(&[a, b], c);
    let (vb, ib, n) = r.finish();

    assert_eq!(n, 12);
    // The second quad's indices are shifted by its base vertex, 4.
    let mut expected_ib: Vec<u8> = pattern_le(0);
    expected_ib.extend(pattern_le(4));
    assert_eq!(ib, expected_ib);

    let mut expected_vb: Vec<u8> = Vec::new();
    expected_vb.extend(vertex_le(1, 2, c));
    expected_vb.extend(vertex_le(3, 2, c));
    expected_vb.extend(vertex_le(1, 4, c));
    expected_vb.extend(vertex_le(3, 4, c));
    expected_vb.extend(vertex_le(5, 6, c));
    expected_vb.extend(vertex_le(7, 6, c));
    expected_vb.extend(vertex_le(5, 8, c));
    expected_vb.extend(vertex_le(7, 8, c));
    assert_eq!(vb, expected_vb);
}

#[test]
fn add_quads_matches_repeated_add_quad() {
    let quads = [Quad::new(1, 1, 2, 2), Quad::new(3, 3, 4, 4), Quad::new(5, 5, 6, 6)];
    let c = Color { r: 0, g: 1, b: 2 };

    let mut batched = Renderer::start();
    batched.add_quads(&quads, c);

    let mut one_by_one = Renderer::start();
    for q in &quads {
        one_by_one.add_quad(q, c);
    }

    assert_eq!(batched.finish(), one_by_one.finish());
}

#[test]
fn index_values_stay_below_vertex_count() {
    let quads = [Quad::new(1, 1, 2, 2), Quad::new(3, 3, 4, 4), Quad::new(5, 5, 6, 6)];
    let c = Color { r: 0, g: 0, b: 0 };
    let mut r = Renderer::start();
    r.add_quads(&quads, c);
    let (vb, ib, n) = r.finish();

    let num_vertices: u32 = (vb.len() / 20) as u32;
    assert_eq!(num_vertices, 12);
    assert_eq!(n as usize * 4, ib.len());
    let decoded: Vec<u32> = ib
        .chunks(4)
        .map(|chunk| u32::from_le_bytes([chunk[0], chunk[1], chunk[2], chunk[3]]))
        .collect();
    for idx in &decoded {
        assert!(*idx < num_vertices);
    }
    // Quad k's six indices are the fixed pattern shifted by its base
    // vertex 4 k.
    assert_eq!(
        decoded,
        vec![0u32, 1, 2, 2, 1, 3, 4, 5, 6, 6, 5, 7, 8, 9, 10, 10, 9, 11]
    );
}

#[test]
fn index_bytes_little_endian() {
    let is: Vec<u32> = vec![0x11223344];
    let out = index_bytes(&is);
    assert_eq!(out, vec![0x44u8, 0x33, 0x22, 0x11]);
}

#[test]
fn vertex_bytes_little_endian() {
    let vs: Vec<Vertex> = vec![Vertex { x: 1, y: 0x0100, r: 2, g: 3, b: 0xdeadbeef }];
    let out = vertex_bytes(&vs);
    let mut expected: Vec<u8> = Vec::new();
    for w in [1u32, 0x0100, 2, 3, 0xdeadbeef] {
        expected.extend_from_slice(&w.to_le_bytes());
    }
    assert_eq!(out, expected);
}
