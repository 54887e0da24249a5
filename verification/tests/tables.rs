use gpui3d::instance::{INSTANCE_SIZE, SELECTED, SPIN, ground, words_of};
use gpui3d::mesh::{cube_indices, cube_mesh, cube_vertices, flatten_vertices};
use gpui3d::pipeline::{
    FrameUniforms, TexelFormat, UniformUse, VertexFormat, cube_pipeline, depth_texture, instance_layout,
    matrix_bytes, pack, scene_pipeline, vertex_layout,
};

const VERTICES: [[f32; 6]; 24] = [
    [-0.5, -0.5, 0.5, 0.95, 0.30, 0.30], [0.5, -0.5, 0.5, 0.95, 0.30, 0.30],
    [0.5, 0.5, 0.5, 1.00, 0.55, 0.55], [-0.5, 0.5, 0.5, 1.00, 0.55, 0.55],
    [0.5, -0.5, -0.5, 0.25, 0.75, 0.35], [-0.5, -0.5, -0.5, 0.25, 0.75, 0.35],
    [-0.5, 0.5, -0.5, 0.50, 0.95, 0.55], [0.5, 0.5, -0.5, 0.50, 0.95, 0.55],
    [-0.5, -0.5, -0.5, 0.25, 0.40, 0.95], [-0.5, -0.5, 0.5, 0.25, 0.40, 0.95],
    [-0.5, 0.5, 0.5, 0.50, 0.65, 1.00], [-0.5, 0.5, -0.5, 0.50, 0.65, 1.00],
    [0.5, -0.5, 0.5, 0.95, 0.80, 0.20], [0.5, -0.5, -0.5, 0.95, 0.80, 0.20],
    [0.5, 0.5, -0.5, 1.00, 0.92, 0.50], [0.5, 0.5, 0.5, 1.00, 0.92, 0.50],
    [-0.5, 0.5, 0.5, 0.20, 0.85, 0.90], [0.5, 0.5, 0.5, 0.20, 0.85, 0.90],
    [0.5, 0.5, -0.5, 0.50, 1.00, 1.00], [-0.5, 0.5, -0.5, 0.50, 1.00, 1.00],
    [-0.5, -0.5, -0.5, 0.85, 0.30, 0.90], [0.5, -0.5, -0.5, 0.85, 0.30, 0.90],
    [0.5, -0.5, 0.5, 1.00, 0.55, 1.00], [-0.5, -0.5, 0.5, 1.00, 0.55, 1.00],
];

const INDICES: [u16; 36] = [
    0, 1, 2, 0, 2, 3, 4, 5, 6, 4, 6, 7, 8, 9, 10, 8, 10, 11, 12, 13, 14, 12, 14, 15, 16, 17, 18, 16, 18, 19, 20, 21,
    22, 20, 22, 23,
];

fn floats(words: &[u32]) -> Vec<f32> {
    words.iter().map(|w| f32::from_bits(*w)).collect()
}

#[test]
fn cube_of_the_demo() {
    let vertices = cube_vertices();
    assert_eq!(vertices.len(), 24);
    for (vertex, want) in vertices.iter().zip(VERTICES) {
        assert_eq!(floats(vertex), want);
    }
    assert_eq!(cube_indices(), INDICES);
}

#[test]
fn cube_of_the_editor() {
    let faces: [([f32; 3], [f32; 3], [f32; 3]); 6] = [
        ([0., 0., 1.], [1., 0., 0.], [0., 1., 0.]),
        ([0., 0., -1.], [-1., 0., 0.], [0., 1., 0.]),
        ([1., 0., 0.], [0., 0., -1.], [0., 1., 0.]),
        ([-1., 0., 0.], [0., 0., 1.], [0., 1., 0.]),
        ([0., 1., 0.], [1., 0., 0.], [0., 0., -1.]),
        ([0., -1., 0.], [1., 0., 0.], [0., 0., 1.]),
    ];
    let mut want: Vec<Vec<f32>> = Vec::new();
    for (normal, u, v) in faces {
        for (su, sv) in [(-1., -1.), (1., -1.), (1., 1.), (-1., 1.)] {
            let p = |i: usize| 0.5 * (normal[i] + su * u[i] + sv * v[i]);
            want.push(vec![p(0), p(1), p(2), normal[0], normal[1], normal[2]]);
        }
    }
    let (vertices, indices) = cube_mesh();
    let got: Vec<Vec<f32>> = vertices.iter().map(|vertex| floats(vertex)).collect();
    assert_eq!(got, want);
    assert_eq!(indices, INDICES);
    assert_eq!(flatten_vertices(&vertices).len(), 144);
    assert_eq!(flatten_vertices(&vertices)[6..12], vertices[1]);
}

#[test]
fn triangles_face_outward() {
    for vertices in [cube_vertices(), cube_mesh().0] {
        for triangle in cube_indices().chunks(3) {
            let corner = |k: usize| {
                let v = floats(&vertices[triangle[k] as usize][..3]);
                glam::Vec3::new(v[0], v[1], v[2])
            };
            let (a, b, c) = (corner(0), corner(1), corner(2));
            let normal = (b - a).cross(c - a);
            assert!(normal.dot(a) > 0.0);
        }
    }
}

#[test]
fn ground_and_flags() {
    let ground = ground();
    let triple = |t: gpui3d::instance::Triple| floats(&[t.x.bits, t.y.bits, t.z.bits]);
    assert_eq!(triple(ground.position), [0.0, -0.52, 0.0]);
    assert_eq!(triple(ground.scale), [14.0, 0.04, 14.0]);
    assert_eq!(triple(ground.color), [0.93, 0.94, 0.96]);
    assert_eq!(ground.flags, 0);
    assert_eq!((SPIN, SELECTED), (1, 2));
    let words = words_of(&vec![ground, ground]);
    assert_eq!(4 * words.len(), 2 * INSTANCE_SIZE);
    assert_eq!(words[..10], words[10..]);
    assert_eq!(words[1], (-0.52f32).to_bits());
    assert_eq!(words[4], 0.04f32.to_bits());
    assert_eq!(words[8], 0.96f32.to_bits());
}

#[test]
fn attributes_are_packed() {
    let vertex = vertex_layout();
    assert_eq!((vertex.stride, vertex.per_instance), (24, false));
    let offsets: Vec<(u32, u32)> = vertex.attributes.iter().map(|a| (a.location, a.offset)).collect();
    assert_eq!(offsets, [(0, 0), (1, 12)]);
    let instance = instance_layout();
    assert_eq!((instance.stride, instance.per_instance), (40, true));
    let offsets: Vec<(u32, u32)> = instance.attributes.iter().map(|a| (a.location, a.offset)).collect();
    assert_eq!(offsets, [(2, 0), (3, 12), (4, 24), (5, 36)]);
    assert_eq!(instance.attributes[3].format, VertexFormat::Uint32);
    assert_eq!(pack(7, &Vec::new(), false).stride, 0);
}

#[test]
fn pipelines_of_both_engines() {
    let cube = cube_pipeline();
    assert_eq!((cube.layouts.len(), cube.uniform_size), (1, 64));
    assert_eq!(cube.uniform_use, UniformUse::Vertex);
    assert_eq!((cube.color, cube.depth), (TexelFormat::Bgra8UnormSrgb, TexelFormat::Depth32Float));
    let scene = scene_pipeline();
    assert_eq!((scene.layouts.len(), scene.uniform_size), (2, 96));
    assert_eq!(scene.uniform_use, UniformUse::VertexAndFragment);
    let depth = depth_texture(640, 480);
    assert_eq!((depth.width, depth.height, depth.layers, depth.samples), (640, 480, 1, 1));
    assert!(depth.transient);
}

#[test]
fn uniforms_are_laid_out_for_the_shader() {
    let matrix: [u32; 16] = std::array::from_fn(|i| (i as f32 * 0.5).to_bits());
    let want: Vec<u8> = matrix.iter().flat_map(|w| w.to_ne_bytes()).collect();
    assert_eq!(matrix_bytes(&matrix), want);
    let light: [u32; 4] = [1, 2, 3, 4];
    let bytes = FrameUniforms { view_proj: matrix, light_dir: light, time: 1.25f32.to_bits() }.bytes();
    assert_eq!(bytes.len(), 96);
    assert_eq!(bytes[..64], want);
    assert_eq!(bytes[64..68], 1u32.to_ne_bytes());
    assert_eq!(bytes[80..84], 1.25f32.to_ne_bytes());
    assert_eq!(bytes[84..], [0; 12]);
}
