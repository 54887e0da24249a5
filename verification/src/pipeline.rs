//! How the engines set the GPU up: what their shaders read, and how triangles become pixels.
use crate::bytes::buffer_bytes;
#[allow(unused_imports)]
use crate::bytes::{law_bytes_spell_words, spelled, word_bytes};
#[allow(unused_imports)]
use crate::instance::{INSTANCE_SIZE, Instance, stands_at, words_of};
#[allow(unused_imports)]
use crate::mesh::{flatten_vertices, vertex_words};
use vstd::prelude::*;

verus! {

/// What an attribute of a vertex is made of.
#[derive(Clone, Copy, Debug, PartialEq, Eq, Structural)]
pub enum VertexFormat {
    Float32x3,
    Uint32,
}

/// How many bytes an attribute takes.
pub open spec fn format_size(format: VertexFormat) -> int {
    match format {
        VertexFormat::Float32x3 => 12,
        VertexFormat::Uint32 => 4,
    }
}

/// An attribute of a vertex: where the shader reads it, and where it is in the buffer.
#[derive(Clone, Copy, Debug, PartialEq, Eq, Structural)]
pub struct VertexAttribute {
    pub location: u32,
    pub format: VertexFormat,
    pub offset: u32,
}

/// The layout of a buffer that the vertex shader reads.
pub struct VertexLayout {
    /// How many bytes there are from one item to the next.
    pub stride: u32,
    /// The buffer steps with the instances, and not with the vertices.
    pub per_instance: bool,
    pub attributes: Vec<VertexAttribute>,
}

/// How many bytes the first `k` attributes take.
pub open spec fn offset_of(formats: Seq<VertexFormat>, k: int) -> int
    decreases k,
{
    if k <= 0 {
        0
    } else {
        offset_of(formats, k - 1) + format_size(formats[k - 1])
    }
}

/// The layout has these formats one after the other, from location `first` on.
pub open spec fn packs(
    layout: VertexLayout,
    first: int,
    formats: Seq<VertexFormat>,
    per_instance: bool,
) -> bool {
    &&& layout.stride == offset_of(formats, formats.len() as int)
    &&& layout.per_instance == per_instance
    &&& layout.attributes.len() == formats.len()
    &&& forall|k: int|
        0 <= k < formats.len() ==> {
            let attribute = #[trigger] layout.attributes@[k];
            &&& attribute.location == first + k
            &&& attribute.format == formats[k]
            &&& attribute.offset == offset_of(formats, k)
        }
}

/// Attributes take at most twelve bytes each.
proof fn lemma_offset_bounds(formats: Seq<VertexFormat>, k: int)
    requires
        0 <= k <= formats.len(),
    ensures
        0 <= offset_of(formats, k) <= 12 * k,
    decreases k,
{
    if k > 0 {
        lemma_offset_bounds(formats, k - 1);
    }
}

/// Lays attributes out one after the other, from location `first` on.
pub fn pack(first: u32, formats: &Vec<VertexFormat>, per_instance: bool) -> (r: VertexLayout)
    requires
        first + formats.len() <= u32::MAX,
        12 * formats.len() <= u32::MAX,
    ensures
        packs(r, first as int, formats@, per_instance),
{
    let mut attributes: Vec<VertexAttribute> = Vec::new();
    let mut offset: u32 = 0;
    let mut k: usize = 0;
    while k < formats.len()
        invariant
            k <= formats.len(),
            first + formats.len() <= u32::MAX,
            12 * formats.len() <= u32::MAX,
            offset == offset_of(formats@, k as int),
            attributes.len() == k,
            forall|j: int|
                0 <= j < k ==> {
                    let attribute = #[trigger] attributes@[j];
                    &&& attribute.location == first + j
                    &&& attribute.format == formats@[j]
                    &&& attribute.offset == offset_of(formats@, j)
                },
        decreases formats.len() - k,
    {
        proof {
            lemma_offset_bounds(formats@, k as int);
        }
        let format = formats[k];
        attributes.push(VertexAttribute { location: first + k as u32, format, offset });
        let size: u32 = match format {
            VertexFormat::Float32x3 => 12,
            VertexFormat::Uint32 => 4,
        };
        offset += size;
        k += 1;
    }
    VertexLayout { stride: offset, per_instance, attributes }
}

/// Attributes that are packed do not overlap, leave no gap, and end where the next item starts.
pub proof fn law_packed_attributes_tile(
    layout: VertexLayout,
    first: int,
    formats: Seq<VertexFormat>,
    per_instance: bool,
    k: int,
)
    requires
        packs(layout, first, formats, per_instance),
        0 <= k < formats.len(),
    ensures
        layout.attributes@[0].offset == 0,
        k + 1 < formats.len() ==> layout.attributes@[k].offset + format_size(formats[k])
            == layout.attributes@[k + 1].offset,
        k + 1 == formats.len() ==> layout.attributes@[k].offset + format_size(formats[k])
            == layout.stride,
{
    assert(layout.attributes@[k].offset == offset_of(formats, k));
    assert(offset_of(formats, 0) == 0);
    assert(offset_of(formats, k + 1) == offset_of(formats, k) + format_size(formats[k]));
}

/// What a vertex is made of: its position, and its colour or normal.
pub open spec fn vertex_formats() -> Seq<VertexFormat> {
    seq![VertexFormat::Float32x3, VertexFormat::Float32x3]
}

/// What an instance is made of: position, scale, colour, flags.
pub open spec fn instance_formats() -> Seq<VertexFormat> {
    seq![
        VertexFormat::Float32x3,
        VertexFormat::Float32x3,
        VertexFormat::Float32x3,
        VertexFormat::Uint32,
    ]
}

/// The layout of a vertex buffer: 24 bytes a vertex.
pub fn vertex_layout() -> (r: VertexLayout)
    ensures
        packs(r, 0, vertex_formats(), false),
        r.stride == 24,
        r.attributes.len() == 2,
        r.attributes@[0] == (VertexAttribute {
            location: 0,
            format: VertexFormat::Float32x3,
            offset: 0,
        }),
        r.attributes@[1] == (VertexAttribute {
            location: 1,
            format: VertexFormat::Float32x3,
            offset: 12,
        }),
{
    let formats: Vec<VertexFormat> = vec![VertexFormat::Float32x3, VertexFormat::Float32x3];
    assert(formats@ =~= vertex_formats());
    let r = pack(0, &formats, false);
    proof {
        reveal_with_fuel(offset_of, 3);
        assert(r.attributes@[0].location == 0 && r.attributes@[1].location == 1);
    }
    r
}

/// The layout of an instance buffer: as many bytes an instance as its words take, and the
/// attributes where those words are.
pub fn instance_layout() -> (r: VertexLayout)
    ensures
        packs(r, 2, instance_formats(), true),
        r.stride == INSTANCE_SIZE,
        r.attributes.len() == 4,
        r.attributes@[0] == (VertexAttribute {
            location: 2,
            format: VertexFormat::Float32x3,
            offset: 0,
        }),
        r.attributes@[1] == (VertexAttribute {
            location: 3,
            format: VertexFormat::Float32x3,
            offset: 12,
        }),
        r.attributes@[2] == (VertexAttribute {
            location: 4,
            format: VertexFormat::Float32x3,
            offset: 24,
        }),
        r.attributes@[3] == (VertexAttribute {
            location: 5,
            format: VertexFormat::Uint32,
            offset: 36,
        }),
{
    let formats: Vec<VertexFormat> = vec![
        VertexFormat::Float32x3,
        VertexFormat::Float32x3,
        VertexFormat::Float32x3,
        VertexFormat::Uint32,
    ];
    assert(formats@ =~= instance_formats());
    let r = pack(2, &formats, true);
    proof {
        reveal_with_fuel(offset_of, 5);
        assert(r.attributes@[0].location == 2 && r.attributes@[1].location == 3);
        assert(r.attributes@[2].location == 4 && r.attributes@[3].location == 5);
    }
    r
}

/// What a pixel or a depth value is made of.
#[derive(Clone, Copy, Debug, PartialEq, Eq, Structural)]
pub enum TexelFormat {
    /// Blue, green, red and alpha in a byte each, in the sRGB scale.
    Bgra8UnormSrgb,
    Depth32Float,
}

/// Which faces are not drawn.
#[derive(Clone, Copy, Debug, PartialEq, Eq, Structural)]
pub enum Culling {
    Back,
}

/// Which way round the corners of a front face go.
#[derive(Clone, Copy, Debug, PartialEq, Eq, Structural)]
pub enum Winding {
    CounterClockwise,
}

/// Which of two fragments at a pixel stays.
#[derive(Clone, Copy, Debug, PartialEq, Eq, Structural)]
pub enum DepthTest {
    /// The one with the smaller depth.
    Less,
}

/// Which shaders read the uniforms.
#[derive(Clone, Copy, Debug, PartialEq, Eq, Structural)]
pub enum UniformUse {
    Vertex,
    VertexAndFragment,
}

/// How an engine draws.
pub struct PipelineDesc {
    pub layouts: Vec<VertexLayout>,
    pub color: TexelFormat,
    pub depth: TexelFormat,
    pub culling: Culling,
    pub winding: Winding,
    pub depth_test: DepthTest,
    pub depth_write: bool,
    /// How many bytes of uniforms there are.
    pub uniform_size: u32,
    pub uniform_use: UniformUse,
}

/// What both engines do alike: triangles that face away are dropped, the nearest one stays, and
/// pixels are written in sRGB.
pub open spec fn draws_nearest_front(desc: PipelineDesc) -> bool {
    &&& desc.color == TexelFormat::Bgra8UnormSrgb
    &&& desc.depth == TexelFormat::Depth32Float
    &&& desc.culling == Culling::Back
    &&& desc.winding == Winding::CounterClockwise
    &&& desc.depth_test == DepthTest::Less
    &&& desc.depth_write
}

/// How the demo draws its cube: one vertex buffer, and a matrix for the vertex shader.
pub fn cube_pipeline() -> (r: PipelineDesc)
    ensures
        draws_nearest_front(r),
        r.layouts.len() == 1,
        packs(r.layouts@[0], 0, vertex_formats(), false),
        r.layouts@[0].stride == 24,
        r.uniform_size == 64,
        r.uniform_use == UniformUse::Vertex,
{
    let mut layouts: Vec<VertexLayout> = Vec::new();
    layouts.push(vertex_layout());
    PipelineDesc {
        layouts,
        color: TexelFormat::Bgra8UnormSrgb,
        depth: TexelFormat::Depth32Float,
        culling: Culling::Back,
        winding: Winding::CounterClockwise,
        depth_test: DepthTest::Less,
        depth_write: true,
        uniform_size: 64,
        uniform_use: UniformUse::Vertex,
    }
}

/// How the editor draws its scene: the cube, once for each instance, lit.
pub fn scene_pipeline() -> (r: PipelineDesc)
    ensures
        draws_nearest_front(r),
        r.layouts.len() == 2,
        packs(r.layouts@[0], 0, vertex_formats(), false),
        packs(r.layouts@[1], 2, instance_formats(), true),
        r.layouts@[0].stride == 24,
        r.layouts@[1].stride == INSTANCE_SIZE,
        r.uniform_size == 96,
        r.uniform_use == UniformUse::VertexAndFragment,
{
    let mut layouts: Vec<VertexLayout> = Vec::new();
    layouts.push(vertex_layout());
    layouts.push(instance_layout());
    PipelineDesc {
        layouts,
        color: TexelFormat::Bgra8UnormSrgb,
        depth: TexelFormat::Depth32Float,
        culling: Culling::Back,
        winding: Winding::CounterClockwise,
        depth_test: DepthTest::Less,
        depth_write: true,
        uniform_size: 96,
        uniform_use: UniformUse::VertexAndFragment,
    }
}

/// A texture to make.
#[derive(Clone, Copy, Debug, PartialEq, Eq, Structural)]
pub struct TextureDesc {
    pub width: u32,
    pub height: u32,
    pub layers: u32,
    pub mip_levels: u32,
    pub samples: u32,
    pub format: TexelFormat,
    /// It is drawn into, and never read or kept after the frame.
    pub transient: bool,
}

/// The depth buffer for a surface of a size: one plain image, which lives for a frame.
pub fn depth_texture(width: u32, height: u32) -> (r: TextureDesc)
    ensures
        r == (TextureDesc {
            width,
            height,
            layers: 1,
            mip_levels: 1,
            samples: 1,
            format: TexelFormat::Depth32Float,
            transient: true,
        }),
{
    TextureDesc {
        width,
        height,
        layers: 1,
        mip_levels: 1,
        samples: 1,
        format: TexelFormat::Depth32Float,
        transient: true,
    }
}

/// The uniforms of the demo: the matrix that takes the cube to the screen, column by column.
pub fn matrix_bytes(matrix: &[u32; 16]) -> (r: Vec<u8>)
    ensures
        r.len() == 64,
        r@ == word_bytes(matrix@, false) || r@ == word_bytes(matrix@, true),
{
    let mut words: Vec<u32> = Vec::new();
    let mut i: usize = 0;
    while i < 16
        invariant
            i <= 16,
            words@ == matrix@.take(i as int),
        decreases 16 - i,
    {
        words.push(matrix[i]);
        assert(words@ =~= matrix@.take(i + 1));
        i += 1;
    }
    assert(matrix@.take(16) =~= matrix@);
    buffer_bytes(&words)
}

/// The uniforms of the editor.
#[derive(Clone, Copy, Debug)]
pub struct FrameUniforms {
    /// The matrix that takes the scene to the screen, column by column.
    pub view_proj: [u32; 16],
    /// The direction of the light, of length one, and a zero.
    pub light_dir: [u32; 4],
    pub time: u32,
}

impl FrameUniforms {
    /// The words of the uniforms; three zeros fill up the last row of four.
    pub open spec fn words(self) -> Seq<u32> {
        self.view_proj@ + self.light_dir@ + seq![self.time, 0, 0, 0]
    }

    /// The bytes of the uniforms.
    pub fn bytes(&self) -> (r: Vec<u8>)
        ensures
            r.len() == 96,
            r@ == word_bytes(self.words(), false) || r@ == word_bytes(self.words(), true),
    {
        let mut words: Vec<u32> = Vec::new();
        let mut i: usize = 0;
        while i < 16
            invariant
                i <= 16,
                words@ == self.view_proj@.take(i as int),
            decreases 16 - i,
        {
            words.push(self.view_proj[i]);
            assert(words@ =~= self.view_proj@.take(i + 1));
            i += 1;
        }
        words.push(self.light_dir[0]);
        words.push(self.light_dir[1]);
        words.push(self.light_dir[2]);
        words.push(self.light_dir[3]);
        words.push(self.time);
        words.push(0);
        words.push(0);
        words.push(0);
        assert(words@ =~= self.words());
        buffer_bytes(&words)
    }
}

/// Attributes that are packed come in the order of their formats at consecutive locations, the
/// first at the start and each one right after the one before it: three floats take twelve bytes,
/// an integer four. The next item starts right after the last one.
pub proof fn law_packing_leaves_no_gap(
    first: u32,
    formats: Vec<VertexFormat>,
    per_instance: bool,
    layout: VertexLayout,
    k: int,
)
    requires
        first + formats.len() <= u32::MAX,
        12 * formats.len() <= u32::MAX,
        call_ensures(pack, (first, &formats, per_instance), layout),
        0 <= k < formats.len(),
    ensures
        layout.per_instance == per_instance,
        layout.attributes.len() == formats.len(),
        layout.attributes@[k].location == first + k,
        layout.attributes@[k].format == formats@[k],
        layout.attributes@[0].offset == 0,
        ({
            let end = if k + 1 < formats.len() {
                layout.attributes@[k + 1].offset
            } else {
                layout.stride
            };
            end - layout.attributes@[k].offset == if formats@[k] is Uint32 {
                4int
            } else {
                12
            }
        }),
{
    law_packed_attributes_tile(layout, first as int, formats@, per_instance, k);
}

/// The words from `at` on that an attribute takes.
pub open spec fn taken(words: Seq<u32>, at: int, format: VertexFormat) -> Seq<u32> {
    words.subrange(
        at,
        at + if format is Uint32 {
            1int
        } else {
            3
        },
    )
}

/// The place of a part of an instance in a buffer of words.
proof fn lemma_place(stride: u32, i: int, offset: int)
    requires
        stride == 40,
        offset % 4 == 0,
    ensures
        (stride * i + offset) / 4 == 10 * i + offset / 4,
{
    assert(stride * i == 40 * i) by (nonlinear_arith)
        requires
            stride == 40,
    ;
}

/// The shader finds each part of an instance where the instance buffer has it: attribute by
/// attribute, the words at its offset are those of the position, the scale, the colour and the
/// flags, and the next instance starts one stride on.
pub proof fn law_shader_finds_instance(
    layout: VertexLayout,
    instances: Vec<Instance>,
    words: Vec<u32>,
    i: int,
    k: int,
)
    requires
        call_ensures(instance_layout, (), layout),
        10 * instances.len() <= usize::MAX,
        call_ensures(words_of, (&instances,), words),
        0 <= i < instances.len(),
        0 <= k < 4,
    ensures
        layout.per_instance,
        layout.attributes.len() == 4,
        layout.attributes@[k].location == 2 + k,
        layout.attributes@[k].format is Uint32 <==> k == 3,
        ({
            let (at, instance) = (layout.attributes@[k], instances@[i]);
            taken(words@, (layout.stride * i + at.offset) / 4, at.format) == if k == 0 {
                seq![instance.position.x.bits, instance.position.y.bits, instance.position.z.bits]
            } else if k == 1 {
                seq![instance.scale.x.bits, instance.scale.y.bits, instance.scale.z.bits]
            } else if k == 2 {
                seq![instance.color.x.bits, instance.color.y.bits, instance.color.z.bits]
            } else {
                seq![instance.flags]
            }
        }),
        4 * words.len() == layout.stride * instances.len(),
{
    assert(layout.stride == 40);
    lemma_place(layout.stride, i, layout.attributes@[k].offset as int);
    assert(layout.stride * instances.len() == 40 * instances.len()) by (nonlinear_arith)
        requires
            layout.stride == 40,
    ;
    assert(stands_at(words@, i, instances@[i]));
}

/// The shader finds each part of a vertex where the vertex buffer has it: its first three words at
/// the offset of the first attribute, the other three at that of the second, and the next vertex
/// starts one stride on.
pub proof fn law_shader_finds_vertex(
    layout: VertexLayout,
    vertices: Vec<[u32; 6]>,
    words: Vec<u32>,
    i: int,
    k: int,
    c: int,
)
    requires
        call_ensures(vertex_layout, (), layout),
        6 * vertices.len() <= usize::MAX,
        call_ensures(flatten_vertices, (&vertices,), words),
        0 <= i < vertices.len(),
        0 <= k < 2,
        0 <= c < 3,
    ensures
        !layout.per_instance,
        layout.attributes.len() == 2,
        layout.attributes@[k].location == k,
        layout.attributes@[k].format is Float32x3,
        words@[(layout.stride * i + layout.attributes@[k].offset) / 4 + c] == vertices@[i]@[3 * k
            + c],
        4 * words.len() == layout.stride * vertices.len(),
{
    assert(layout.stride * i == 24 * i) by (nonlinear_arith)
        requires
            layout.stride == 24,
    ;
    assert(layout.stride * vertices.len() == 24 * vertices.len()) by (nonlinear_arith)
        requires
            layout.stride == 24,
    ;
    let j = 6 * i + 3 * k + c;
    assert((24 * i + 12 * k) / 4 + c == j);
    assert(layout.attributes@[k].offset == 12 * k);
    assert(j / 6 == i && j % 6 == 3 * k + c);
    assert(vertex_words(vertices@)[j] == vertices@[i]@[3 * k + c]);
}

/// The uniforms of the demo are the sixteen numbers of its matrix, in order.
pub proof fn law_matrix_goes_in_order(matrix: [u32; 16], bytes: Vec<u8>)
    requires
        call_ensures(matrix_bytes, (&matrix,), bytes),
    ensures
        bytes.len() == 64,
        spelled(bytes@, matrix@, false) || spelled(bytes@, matrix@, true),
{
    law_bytes_spell_words(matrix@, false);
    law_bytes_spell_words(matrix@, true);
}

/// The uniforms of the editor are the matrix, the light, the time, and zeros that fill them up to a
/// whole number of rows of sixteen bytes.
pub proof fn law_uniforms_go_in_order(uniforms: FrameUniforms, bytes: Vec<u8>, words: Seq<u32>)
    requires
        call_ensures(FrameUniforms::bytes, (&uniforms,), bytes),
        words.len() == 24,
        forall|k: int| 0 <= k < 16 ==> #[trigger] words[k] == uniforms.view_proj@[k],
        forall|k: int| 16 <= k < 20 ==> #[trigger] words[k] == uniforms.light_dir@[k - 16],
        words[20] == uniforms.time,
        words[21] == 0 && words[22] == 0 && words[23] == 0,
    ensures
        bytes.len() == 96,
        spelled(bytes@, words, false) || spelled(bytes@, words, true),
{
    assert(words =~= uniforms.words());
    law_bytes_spell_words(words, false);
    law_bytes_spell_words(words, true);
}

/// Each pipeline reads exactly the buffers that are made for it, and keeps the fragment that is
/// nearest of the triangles that face the camera. A depth buffer has the size of its surface.
pub proof fn law_pipelines_fit_their_buffers(
    cube: PipelineDesc,
    scene: PipelineDesc,
    matrix: [u32; 16],
    matrix_buffer: Vec<u8>,
    uniforms: FrameUniforms,
    uniform_bytes: Vec<u8>,
    width: u32,
    height: u32,
    depth: TextureDesc,
)
    requires
        call_ensures(cube_pipeline, (), cube),
        call_ensures(scene_pipeline, (), scene),
        call_ensures(matrix_bytes, (&matrix,), matrix_buffer),
        call_ensures(FrameUniforms::bytes, (&uniforms,), uniform_bytes),
        call_ensures(depth_texture, (width, height), depth),
    ensures
        cube.uniform_size == matrix_buffer.len(),
        scene.uniform_size == uniform_bytes.len(),
        cube.layouts.len() == 1 && scene.layouts.len() == 2,
        cube.layouts@[0].stride == 24 && scene.layouts@[0].stride == 24,
        scene.layouts@[1].stride == 40,
        !cube.layouts@[0].per_instance && !scene.layouts@[0].per_instance,
        scene.layouts@[1].per_instance,
        cube.depth_test == DepthTest::Less && scene.depth_test == DepthTest::Less,
        cube.depth_write && scene.depth_write,
        cube.depth == depth.format && scene.depth == depth.format,
        cube.color == scene.color,
        cube.uniform_use is Vertex && scene.uniform_use is VertexAndFragment,
        depth.width == width && depth.height == height,
        depth.samples == 1 && depth.layers == 1 && depth.mip_levels == 1,
        depth.transient,
{
}

} // verus!
