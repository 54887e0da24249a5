//! The unit cube, four vertices per face so that faces do not share normals or colours.
use vstd::prelude::*;

verus! {

/// A vector with integer components.
#[derive(Clone, Copy, Debug, PartialEq, Eq, Structural)]
pub struct Int3 {
    pub x: i32,
    pub y: i32,
    pub z: i32,
}

/// The axes of a face: the outward normal, and the directions of its two sides.
#[derive(Clone, Copy, Debug, PartialEq, Eq, Structural)]
pub struct Face {
    pub normal: Int3,
    pub u: Int3,
    pub v: Int3,
}

/// Face `f` of the cube: front, back, right, left, top, bottom.
pub open spec fn cube_face(f: int) -> Face {
    if f == 0 {
        Face {
            normal: Int3 { x: 0, y: 0, z: 1 },
            u: Int3 { x: 1, y: 0, z: 0 },
            v: Int3 { x: 0, y: 1, z: 0 },
        }
    } else if f == 1 {
        Face {
            normal: Int3 { x: 0, y: 0, z: (-1) as i32 },
            u: Int3 { x: (-1) as i32, y: 0, z: 0 },
            v: Int3 { x: 0, y: 1, z: 0 },
        }
    } else if f == 2 {
        Face {
            normal: Int3 { x: 1, y: 0, z: 0 },
            u: Int3 { x: 0, y: 0, z: (-1) as i32 },
            v: Int3 { x: 0, y: 1, z: 0 },
        }
    } else if f == 3 {
        Face {
            normal: Int3 { x: (-1) as i32, y: 0, z: 0 },
            u: Int3 { x: 0, y: 0, z: 1 },
            v: Int3 { x: 0, y: 1, z: 0 },
        }
    } else if f == 4 {
        Face {
            normal: Int3 { x: 0, y: 1, z: 0 },
            u: Int3 { x: 1, y: 0, z: 0 },
            v: Int3 { x: 0, y: 0, z: (-1) as i32 },
        }
    } else {
        Face {
            normal: Int3 { x: 0, y: (-1) as i32, z: 0 },
            u: Int3 { x: 1, y: 0, z: 0 },
            v: Int3 { x: 0, y: 0, z: 1 },
        }
    }
}

/// `k`, or its opposite on the far side.
pub open spec fn sided(k: i32, near: bool) -> int {
    if near {
        k as int
    } else {
        -k
    }
}

/// Where corner `c` of a face lies, in half units: the cube has side one, and the corners go
/// round the face.
pub open spec fn corner(face: Face, c: int) -> (int, int, int) {
    let right = c == 1 || c == 2;
    let upper = c >= 2;
    (
        face.normal.x + sided(face.u.x, right) + sided(face.v.x, upper),
        face.normal.y + sided(face.u.y, right) + sided(face.v.y, upper),
        face.normal.z + sided(face.u.z, right) + sided(face.v.z, upper),
    )
}

/// The bit pattern of the float that is `k` halves, for `k` one or minus one.
pub open spec fn half(k: int) -> u32 {
    if k > 0 {
        0x3f00_0000
    } else {
        0xbf00_0000
    }
}

/// The bit pattern of the float `k`, for `k` from minus one to one.
pub open spec fn unit(k: int) -> u32 {
    if k > 0 {
        0x3f80_0000
    } else if k < 0 {
        0xbf80_0000
    } else {
        0
    }
}

/// Vertex `c` of a face: its position, and the normal of the face.
pub open spec fn lit_vertex(face: Face, c: int) -> Seq<u32> {
    let p = corner(face, c);
    seq![
        half(p.0),
        half(p.1),
        half(p.2),
        unit(face.normal.x as int),
        unit(face.normal.y as int),
        unit(face.normal.z as int),
    ]
}

/// The corner of its face that index number `k` names: two triangles, 0 1 2 and 0 2 3.
pub open spec fn triangle_corner(k: int) -> int {
    if k == 0 || k == 3 {
        0
    } else if k == 1 {
        1
    } else if k == 2 || k == 4 {
        2
    } else {
        3
    }
}

/// Index number `i` of the cube: six for each face.
pub open spec fn cube_index(i: int) -> int {
    4 * (i / 6) + triangle_corner(i % 6)
}

/// The indices of `faces` faces.
pub open spec fn face_indices(faces: int) -> Seq<u16> {
    Seq::new((6 * faces) as nat, |i: int| cube_index(i) as u16)
}

/// Face `f` of the cube.
fn face(f: usize) -> (r: Face)
    requires
        f < 6,
    ensures
        r == cube_face(f as int),
{
    if f == 0 {
        Face {
            normal: Int3 { x: 0, y: 0, z: 1 },
            u: Int3 { x: 1, y: 0, z: 0 },
            v: Int3 { x: 0, y: 1, z: 0 },
        }
    } else if f == 1 {
        Face {
            normal: Int3 { x: 0, y: 0, z: -1 },
            u: Int3 { x: -1, y: 0, z: 0 },
            v: Int3 { x: 0, y: 1, z: 0 },
        }
    } else if f == 2 {
        Face {
            normal: Int3 { x: 1, y: 0, z: 0 },
            u: Int3 { x: 0, y: 0, z: -1 },
            v: Int3 { x: 0, y: 1, z: 0 },
        }
    } else if f == 3 {
        Face {
            normal: Int3 { x: -1, y: 0, z: 0 },
            u: Int3 { x: 0, y: 0, z: 1 },
            v: Int3 { x: 0, y: 1, z: 0 },
        }
    } else if f == 4 {
        Face {
            normal: Int3 { x: 0, y: 1, z: 0 },
            u: Int3 { x: 1, y: 0, z: 0 },
            v: Int3 { x: 0, y: 0, z: -1 },
        }
    } else {
        Face {
            normal: Int3 { x: 0, y: -1, z: 0 },
            u: Int3 { x: 1, y: 0, z: 0 },
            v: Int3 { x: 0, y: 0, z: 1 },
        }
    }
}

/// The bit pattern of one component of a corner.
fn half_bits(normal: i32, u: i32, v: i32, c: usize) -> (r: u32)
    requires
        -1 <= normal <= 1,
        -1 <= u <= 1,
        -1 <= v <= 1,
        c < 4,
    ensures
        r == half(normal + sided(u, c == 1 || c == 2) + sided(v, c >= 2)),
{
    let along_u: i32 = if c == 0 || c == 3 {
        -u
    } else {
        u
    };
    let along_v: i32 = if c < 2 {
        -v
    } else {
        v
    };
    if normal + along_u + along_v > 0 {
        0x3f00_0000
    } else {
        0xbf00_0000
    }
}

/// The bit pattern of one component of a normal.
fn unit_bits(k: i32) -> (r: u32)
    ensures
        r == unit(k as int),
{
    if k > 0 {
        0x3f80_0000
    } else if k < 0 {
        0xbf80_0000
    } else {
        0
    }
}

/// Appends the six indices of the face that follows `faces` faces.
fn push_face_indices(indices: &mut Vec<u16>, faces: usize)
    requires
        faces < 6,
        old(indices)@ == face_indices(faces as int),
    ensures
        final(indices)@ == face_indices(faces + 1),
{
    let base: u16 = 4 * faces as u16;
    indices.push(base);
    indices.push(base + 1);
    indices.push(base + 2);
    indices.push(base);
    indices.push(base + 2);
    indices.push(base + 3);
    assert(indices@ =~= face_indices(faces + 1));
}

/// The unit cube of the scene editor: positions and normals of its vertices, six words each, and
/// its triangles.
pub fn cube_mesh() -> (r: (Vec<[u32; 6]>, Vec<u16>))
    ensures
        r.0.len() == 24,
        forall|i: int|
            0 <= i < 24 ==> (#[trigger] r.0@[i])@ == lit_vertex(cube_face(i / 4), i % 4),
        r.1@ == face_indices(6),
{
    let mut vertices: Vec<[u32; 6]> = Vec::new();
    let mut indices: Vec<u16> = Vec::new();
    assert(indices@ =~= face_indices(0));
    let mut f: usize = 0;
    while f < 6
        invariant
            f <= 6,
            vertices.len() == 4 * f,
            forall|i: int|
                0 <= i < 4 * f ==> (#[trigger] vertices@[i])@ == lit_vertex(
                    cube_face(i / 4),
                    i % 4,
                ),
            indices@ == face_indices(f as int),
        decreases 6 - f,
    {
        let side = face(f);
        let mut c: usize = 0;
        while c < 4
            invariant
                c <= 4,
                f < 6,
                side == cube_face(f as int),
                vertices.len() == 4 * f + c,
                forall|i: int|
                    0 <= i < 4 * f + c ==> (#[trigger] vertices@[i])@ == lit_vertex(
                        cube_face(i / 4),
                        i % 4,
                    ),
            decreases 4 - c,
        {
            let vertex: [u32; 6] = [
                half_bits(side.normal.x, side.u.x, side.v.x, c),
                half_bits(side.normal.y, side.u.y, side.v.y, c),
                half_bits(side.normal.z, side.u.z, side.v.z, c),
                unit_bits(side.normal.x),
                unit_bits(side.normal.y),
                unit_bits(side.normal.z),
            ];
            assert(vertex@ =~= lit_vertex(side, c as int));
            vertices.push(vertex);
            assert((4 * f + c) / 4 == f && (4 * f + c) % 4 == c as int);
            c += 1;
        }
        push_face_indices(&mut indices, f);
        f += 1;
    }
    (vertices, indices)
}

/// The triangles of the demo's cube.
pub fn cube_indices() -> (r: Vec<u16>)
    ensures
        r@ == face_indices(6),
        r.len() == 36,
{
    let mut indices: Vec<u16> = Vec::new();
    assert(indices@ =~= face_indices(0));
    let mut f: usize = 0;
    while f < 6
        invariant
            f <= 6,
            indices@ == face_indices(f as int),
        decreases 6 - f,
    {
        push_face_indices(&mut indices, f);
        f += 1;
    }
    indices
}

/// Which face of the cube the demo draws in place `f`: it has left before right.
pub open spec fn demo_face(f: int) -> Face {
    if f == 2 {
        cube_face(3)
    } else if f == 3 {
        cube_face(2)
    } else {
        cube_face(f)
    }
}

/// The colour of the demo's face `f` along its lower edge or, if `upper`, along its upper edge,
/// as the bit patterns of red, green and blue.
pub open spec fn demo_color(f: int, upper: bool) -> (u32, u32, u32) {
    if f == 0 {
        if upper {
            (0x3f80_0000, 0x3f0c_cccd, 0x3f0c_cccd)
        } else {
            (0x3f73_3333, 0x3e99_999a, 0x3e99_999a)
        }
    } else if f == 1 {
        if upper {
            (0x3f00_0000, 0x3f73_3333, 0x3f0c_cccd)
        } else {
            (0x3e80_0000, 0x3f40_0000, 0x3eb3_3333)
        }
    } else if f == 2 {
        if upper {
            (0x3f00_0000, 0x3f26_6666, 0x3f80_0000)
        } else {
            (0x3e80_0000, 0x3ecc_cccd, 0x3f73_3333)
        }
    } else if f == 3 {
        if upper {
            (0x3f80_0000, 0x3f6b_851f, 0x3f00_0000)
        } else {
            (0x3f73_3333, 0x3f4c_cccd, 0x3e4c_cccd)
        }
    } else if f == 4 {
        if upper {
            (0x3f00_0000, 0x3f80_0000, 0x3f80_0000)
        } else {
            (0x3e4c_cccd, 0x3f59_999a, 0x3f66_6666)
        }
    } else {
        if upper {
            (0x3f80_0000, 0x3f0c_cccd, 0x3f80_0000)
        } else {
            (0x3f59_999a, 0x3e99_999a, 0x3f66_6666)
        }
    }
}

/// Vertex `c` of the demo's face `f`: its position and its colour.
pub open spec fn coloured_vertex(f: int, c: int) -> Seq<u32> {
    let p = corner(demo_face(f), c);
    let rgb = demo_color(f, c >= 2);
    seq![half(p.0), half(p.1), half(p.2), rgb.0, rgb.1, rgb.2]
}

/// The colour of the demo's face `f` along one of its edges.
fn face_color(f: usize, upper: bool) -> (r: (u32, u32, u32))
    requires
        f < 6,
    ensures
        r == demo_color(f as int, upper),
{
    if f == 0 {
        if upper {
            (0x3f80_0000, 0x3f0c_cccd, 0x3f0c_cccd)
        } else {
            (0x3f73_3333, 0x3e99_999a, 0x3e99_999a)
        }
    } else if f == 1 {
        if upper {
            (0x3f00_0000, 0x3f73_3333, 0x3f0c_cccd)
        } else {
            (0x3e80_0000, 0x3f40_0000, 0x3eb3_3333)
        }
    } else if f == 2 {
        if upper {
            (0x3f00_0000, 0x3f26_6666, 0x3f80_0000)
        } else {
            (0x3e80_0000, 0x3ecc_cccd, 0x3f73_3333)
        }
    } else if f == 3 {
        if upper {
            (0x3f80_0000, 0x3f6b_851f, 0x3f00_0000)
        } else {
            (0x3f73_3333, 0x3f4c_cccd, 0x3e4c_cccd)
        }
    } else if f == 4 {
        if upper {
            (0x3f00_0000, 0x3f80_0000, 0x3f80_0000)
        } else {
            (0x3e4c_cccd, 0x3f59_999a, 0x3f66_6666)
        }
    } else {
        if upper {
            (0x3f80_0000, 0x3f0c_cccd, 0x3f80_0000)
        } else {
            (0x3f59_999a, 0x3e99_999a, 0x3f66_6666)
        }
    }
}

/// The vertices of the demo's cube: position and colour, six words each.
pub fn cube_vertices() -> (r: Vec<[u32; 6]>)
    ensures
        r.len() == 24,
        forall|i: int| 0 <= i < 24 ==> (#[trigger] r@[i])@ == coloured_vertex(i / 4, i % 4),
{
    let mut vertices: Vec<[u32; 6]> = Vec::new();
    let mut i: usize = 0;
    while i < 24
        invariant
            i <= 24,
            vertices.len() == i,
            forall|j: int|
                0 <= j < i ==> (#[trigger] vertices@[j])@ == coloured_vertex(j / 4, j % 4),
        decreases 24 - i,
    {
        let f: usize = i / 4;
        let c: usize = i % 4;
        let side = face(
            if f == 2 {
                3
            } else if f == 3 {
                2
            } else {
                f
            },
        );
        let (red, green, blue): (u32, u32, u32) = face_color(f, c >= 2);
        let vertex: [u32; 6] = [
            half_bits(side.normal.x, side.u.x, side.v.x, c),
            half_bits(side.normal.y, side.u.y, side.v.y, c),
            half_bits(side.normal.z, side.u.z, side.v.z, c),
            red,
            green,
            blue,
        ];
        assert(vertex@ =~= coloured_vertex(f as int, c as int));
        vertices.push(vertex);
        i += 1;
    }
    vertices
}

/// The words of a vertex buffer: those of its vertices, in order.
pub open spec fn vertex_words(vertices: Seq<[u32; 6]>) -> Seq<u32> {
    Seq::new(6 * vertices.len(), |i: int| vertices[i / 6]@[i % 6])
}

/// The words of a vertex buffer.
pub fn flatten_vertices(vertices: &Vec<[u32; 6]>) -> (r: Vec<u32>)
    requires
        6 * vertices.len() <= usize::MAX,
    ensures
        r@ == vertex_words(vertices@),
{
    let mut words: Vec<u32> = Vec::new();
    let mut i: usize = 0;
    while i < vertices.len()
        invariant
            i <= vertices.len(),
            6 * vertices.len() <= usize::MAX,
            words.len() == 6 * i,
            forall|j: int|
                0 <= j < 6 * i ==> #[trigger] words@[j] == vertices@[j / 6]@[j % 6],
        decreases vertices.len() - i,
    {
        let vertex: [u32; 6] = vertices[i];
        let mut k: usize = 0;
        while k < 6
            invariant
                k <= 6,
                i < vertices.len(),
                vertex == vertices@[i as int],
                6 * vertices.len() <= usize::MAX,
                words.len() == 6 * i + k,
                forall|j: int|
                    0 <= j < 6 * i + k ==> #[trigger] words@[j] == vertices@[j / 6]@[j % 6],
            decreases 6 - k,
        {
            assert((6 * i + k) / 6 == i as int && (6 * i + k) % 6 == k as int);
            words.push(vertex[k]);
            k += 1;
        }
        i += 1;
    }
    assert(words@ =~= vertex_words(vertices@));
    words
}

/// The cross product.
pub open spec fn cross(a: (int, int, int), b: (int, int, int)) -> (int, int, int) {
    (a.1 * b.2 - a.2 * b.1, a.2 * b.0 - a.0 * b.2, a.0 * b.1 - a.1 * b.0)
}

/// The vector from `a` to `b`.
pub open spec fn to(a: (int, int, int), b: (int, int, int)) -> (int, int, int) {
    (b.0 - a.0, b.1 - a.1, b.2 - a.2)
}

/// Every index names a vertex, and the three of a triangle name corners of one face.
pub proof fn law_indices_name_vertices(t: int)
    requires
        0 <= t < 12,
    ensures
        forall|k: int|
            0 <= k < 3 ==> 0 <= #[trigger] face_indices(6)[3 * t + k] < 24 && face_indices(6)[3 * t
                + k] / 4 == t / 2,
{
    assert forall|k: int| 0 <= k < 3 implies 0 <= #[trigger] face_indices(6)[3 * t + k] < 24
        && face_indices(6)[3 * t + k] / 4 == t / 2 by {
        assert((3 * t + k) / 6 == t / 2);
    }
}

/// The product of two components of a cube's sides and diagonals.
proof fn lemma_product_of_sides(a: int, b: int)
    by (nonlinear_arith)
    requires
        a == -2 || a == 0 || a == 2,
        b == -2 || b == 0 || b == 2,
    ensures
        a * b == if a == 0 || b == 0 {
            0int
        } else if a == b {
            4int
        } else {
            -4int
        },
{
}

/// From corner 0 of a face, the turn from corner `b` to the next one is along the normal.
proof fn lemma_corners_turn_left(f: Face, b: int, c: int)
    requires
        b == 1 || b == 2,
        c == b + 1,
        exists|k: int| 0 <= k < 6 && f == #[trigger] cube_face(k),
    ensures
        cross(to(corner(f, 0), corner(f, b)), to(corner(f, 0), corner(f, c))) == (
            4 * f.normal.x,
            4 * f.normal.y,
            4 * f.normal.z,
        ),
{
    let k = choose|k: int| 0 <= k < 6 && f == #[trigger] cube_face(k);
    let p = to(corner(f, 0), corner(f, b));
    let q = to(corner(f, 0), corner(f, c));
    lemma_product_of_sides(p.1, q.2);
    lemma_product_of_sides(p.2, q.1);
    lemma_product_of_sides(p.2, q.0);
    lemma_product_of_sides(p.0, q.2);
    lemma_product_of_sides(p.0, q.1);
    lemma_product_of_sides(p.1, q.0);
}

/// Every triangle of a cube goes counter-clockwise seen from outside, so that culling back faces
/// leaves the outside: the cross product of its sides is along the outward normal. This holds of
/// the scene editor's cube, and of the demo's cube with its own order of faces.
pub proof fn law_triangles_face_outward(t: int, demo: bool)
    requires
        0 <= t < 12,
    ensures
        ({
            let f = if demo {
                demo_face(t / 2)
            } else {
                cube_face(t / 2)
            };
            let a = corner(f, face_indices(6)[3 * t] as int % 4);
            let b = corner(f, face_indices(6)[3 * t + 1] as int % 4);
            let c = corner(f, face_indices(6)[3 * t + 2] as int % 4);
            cross(to(a, b), to(a, c)) == (
                4 * f.normal.x,
                4 * f.normal.y,
                4 * f.normal.z,
            )
        }),
{
    let f = if demo {
        demo_face(t / 2)
    } else {
        cube_face(t / 2)
    };
    let i = 3 * t;
    assert(i / 6 == t / 2 && (i + 1) / 6 == t / 2 && (i + 2) / 6 == t / 2);
    assert(i % 6 == 3 * (t % 2) && (i + 1) % 6 == 3 * (t % 2) + 1 && (i + 2) % 6 == 3 * (t % 2)
        + 2);
    assert(face_indices(6)[i] % 4 == 0);
    if t % 2 == 0 {
        assert(face_indices(6)[i + 1] % 4 == 1);
        assert(face_indices(6)[i + 2] % 4 == 2);
        lemma_corners_turn_left(f, 1, 2);
    } else {
        assert(face_indices(6)[i + 1] % 4 == 2);
        assert(face_indices(6)[i + 2] % 4 == 3);
        lemma_corners_turn_left(f, 2, 3);
    }
}

/// Every vertex is a corner of the cube of side one around the origin: each coordinate is plus or
/// minus a half, and the one along the normal is on the normal's side.
pub proof fn law_vertices_are_cube_corners(f: int, c: int)
    requires
        0 <= f < 6,
        0 <= c < 4,
    ensures
        ({
            let p = corner(cube_face(f), c);
            let n = cube_face(f).normal;
            &&& p.0 == 1 || p.0 == -1
            &&& p.1 == 1 || p.1 == -1
            &&& p.2 == 1 || p.2 == -1
            &&& n.x != 0 ==> p.0 == n.x
            &&& n.y != 0 ==> p.1 == n.y
            &&& n.z != 0 ==> p.2 == n.z
        }),
{
}

/// The editor's mesh is a cube of side one around the origin, four vertices a side: each
/// coordinate is plus or minus a half, the normal is a unit along one axis, and the side lies at
/// the end of that axis that the normal points to. All vertices of a side have its normal, and no
/// two vertices are the same.
pub proof fn law_mesh_is_a_cube(r: (Vec<[u32; 6]>, Vec<u16>), i: int, j: int, k: int)
    requires
        call_ensures(cube_mesh, (), r),
        0 <= i < 24,
        0 <= j < 24,
        0 <= k < 3,
    ensures
        r.0.len() == 24,
        r.1.len() == 36,
        ({
            let (a, b) = (r.0@[i]@, r.0@[j]@);
            let ends = |w: u32| w == 0x3f80_0000u32 || w == 0xbf80_0000u32;
            &&& a[k] == 0x3f00_0000 || a[k] == 0xbf00_0000
            &&& a[3 + k] == 0 || ends(a[3 + k])
            &&& a[3 + k] == 0x3f80_0000 ==> a[k] == 0x3f00_0000
            &&& a[3 + k] == 0xbf80_0000 ==> a[k] == 0xbf00_0000
            &&& (ends(a[3]) && a[4] == 0 && a[5] == 0) || (a[3] == 0 && ends(a[4]) && a[5] == 0) || (
            a[3] == 0 && a[4] == 0 && ends(a[5]))
            &&& i / 4 == j / 4 <==> a.skip(3) == b.skip(3)
            &&& i == j <==> a == b
        }),
{
    let (a, b) = (r.0@[i]@, r.0@[j]@);
    assert(a == lit_vertex(cube_face(i / 4), i % 4));
    assert(b == lit_vertex(cube_face(j / 4), j % 4));
    assert(a.skip(3)[0] == a[3] && a.skip(3)[1] == a[4] && a.skip(3)[2] == a[5]);
    assert(b.skip(3)[0] == b[3] && b.skip(3)[1] == b[4] && b.skip(3)[2] == b[5]);
    if i / 4 == j / 4 {
        assert(a.skip(3) =~= b.skip(3));
    }
}

/// The two triangles of a side of either cube name its four vertices, with one diagonal in common,
/// and no vertex of another side.
pub proof fn law_two_triangles_make_a_side(
    mesh: (Vec<[u32; 6]>, Vec<u16>),
    indices: Vec<u16>,
    f: int,
)
    requires
        call_ensures(cube_mesh, (), mesh),
        call_ensures(cube_indices, (), indices),
        0 <= f < 6,
    ensures
        indices@ == mesh.1@,
        indices.len() == 36,
        indices@[6 * f] == 4 * f,
        indices@[6 * f + 1] == 4 * f + 1,
        indices@[6 * f + 2] == 4 * f + 2,
        indices@[6 * f + 3] == 4 * f,
        indices@[6 * f + 4] == 4 * f + 2,
        indices@[6 * f + 5] == 4 * f + 3,
{
    assert(forall|k: int| 0 <= k < 6 ==> #[trigger] ((6 * f + k) / 6) == f && (6 * f + k) % 6 == k);
    assert((6 * f + 0) / 6 == f && (6 * f + 1) / 6 == f && (6 * f + 2) / 6 == f);
    assert((6 * f + 3) / 6 == f && (6 * f + 4) / 6 == f && (6 * f + 5) / 6 == f);
}

/// The demo's cube has its corners where the editor's has them, but that the left and the right
/// side are in each other's place.
pub proof fn law_demo_cube_has_same_corners(
    demo: Vec<[u32; 6]>,
    mesh: (Vec<[u32; 6]>, Vec<u16>),
    f: int,
    c: int,
    k: int,
)
    requires
        call_ensures(cube_vertices, (), demo),
        call_ensures(cube_mesh, (), mesh),
        0 <= f < 6,
        0 <= c < 4,
        0 <= k < 3,
    ensures
        demo.len() == 24,
        f != 2 && f != 3 ==> demo@[4 * f + c]@[k] == mesh.0@[4 * f + c]@[k],
        f == 2 || f == 3 ==> demo@[4 * f + c]@[k] == mesh.0@[4 * (5 - f) + c]@[k],
{
    let side = if f == 2 || f == 3 {
        5 - f
    } else {
        f
    };
    assert((4 * f + c) / 4 == f && (4 * f + c) % 4 == c);
    assert((4 * side + c) / 4 == side && (4 * side + c) % 4 == c);
    assert(demo@[4 * f + c]@ == coloured_vertex(f, c));
    assert(mesh.0@[4 * side + c]@ == lit_vertex(cube_face(side), c));
}

/// Each side of the demo's cube has one colour along its lower edge and a lighter one along its
/// upper edge, and no two sides share their lower colour.
pub proof fn law_demo_sides_are_shaded(demo: Vec<[u32; 6]>, f: int, g: int, k: int)
    requires
        call_ensures(cube_vertices, (), demo),
        0 <= f < 6,
        0 <= g < 6,
        3 <= k < 6,
    ensures
        demo@[4 * f]@[k] == demo@[4 * f + 1]@[k],
        demo@[4 * f + 2]@[k] == demo@[4 * f + 3]@[k],
        demo@[4 * f]@[k] < demo@[4 * f + 2]@[k],
        f != g ==> demo@[4 * f]@[3] != demo@[4 * g]@[3] || demo@[4 * f]@[4] != demo@[4 * g]@[4]
            || demo@[4 * f]@[5] != demo@[4 * g]@[5],
{
    lemma_demo_vertex(demo, f, 0);
    lemma_demo_vertex(demo, f, 1);
    lemma_demo_vertex(demo, f, 2);
    lemma_demo_vertex(demo, f, 3);
    lemma_demo_vertex(demo, g, 0);
}

/// The vertex of a corner of the demo's cube.
proof fn lemma_demo_vertex(demo: Vec<[u32; 6]>, f: int, c: int)
    requires
        call_ensures(cube_vertices, (), demo),
        0 <= f < 6,
        0 <= c < 4,
    ensures
        demo@[4 * f + c]@[3] == demo_color(f, c >= 2).0,
        demo@[4 * f + c]@[4] == demo_color(f, c >= 2).1,
        demo@[4 * f + c]@[5] == demo_color(f, c >= 2).2,
{
    assert((4 * f + c) / 4 == f && (4 * f + c) % 4 == c);
    assert(demo@[4 * f + c]@ == coloured_vertex(f, c));
}

} // verus!
