//! A compiled frame and the bytes that it is handed to the GPU as. Floating
//! point numbers are held as the 32-bit words that represent them.

use vstd::prelude::*;
use vstd::endian::*;

verus! {

/// The bytes of a word in memory.
pub open spec fn word_bytes(word: u32, endian: Endian) -> Seq<u8> {
    let b0 = (word % 256) as u8;
    let b1 = (word / 256 % 256) as u8;
    let b2 = (word / 65536 % 256) as u8;
    let b3 = (word / 16777216) as u8;
    match endian {
        Endian::Little => seq![b0, b1, b2, b3],
        Endian::Big => seq![b3, b2, b1, b0],
    }
}

/// The bytes of consecutive words in the memory of the machine that runs this.
pub open spec fn words_bytes(words: Seq<u32>) -> Seq<u8> {
    Seq::new(4 * words.len(), |i: int| word_bytes(words[i / 4], endianness())[i % 4])
}

/// Calls `bytemuck::cast_slice` from `u32` to `u8`, which reads the memory of
/// the words as bytes, in the byte order of the machine, and copies the bytes
/// out.
#[verifier::external_body]
fn cast_words(words: &[u32]) -> (bytes: Vec<u8>)
    ensures
        bytes@ == words_bytes(words@),
{
    bytemuck::cast_slice::<u32, u8>(words).to_vec()
}

/// Calls `bytemuck::bytes_of` on four columns of four words, which reads their
/// memory as bytes, in the byte order of the machine, and copies the bytes
/// out.
#[verifier::external_body]
fn bytes_of_columns(columns: &[[u32; 4]; 4]) -> (bytes: Vec<u8>)
    ensures
        bytes@ == words_bytes(column_words(*columns)),
{
    bytemuck::bytes_of(columns).to_vec()
}

/// How the values of a vertex attribute are encoded.
#[derive(Debug, Clone, Copy, PartialEq, Eq, Structural)]
pub enum VertexFormat {
    Float32x2,
    Float32x4,
}

impl VertexFormat {
    /// The number of bytes in a value of this format.
    pub open spec fn size(self) -> nat {
        match self {
            VertexFormat::Float32x2 => 8,
            VertexFormat::Float32x4 => 16,
        }
    }
}

/// Whether a buffer advances with each vertex or with each instance.
#[derive(Debug, Clone, Copy, PartialEq, Eq, Structural)]
pub enum VertexStepMode {
    Vertex,
    Instance,
}

/// Where an attribute lies in a vertex, and where the shader finds it.
#[derive(Debug, Clone, Copy, PartialEq, Eq, Structural)]
pub struct VertexAttribute {
    pub offset: u64,
    pub shader_location: u32,
    pub format: VertexFormat,
}

/// How vertices lie in a vertex buffer.
#[derive(Debug, PartialEq, Eq)]
pub struct VertexBufferLayout {
    pub array_stride: u64,
    pub step_mode: VertexStepMode,
    pub attributes: Vec<VertexAttribute>,
}

/// A vertex as the GPU reads it: a position in two and a colour in four
/// floating point numbers.
#[derive(Debug, Clone, Copy, PartialEq, Eq)]
pub struct GpuVertex {
    pub position: [u32; 2],
    pub color: [u32; 4],
}

/// Where the position lies in a vertex.
pub open spec fn position_attribute() -> VertexAttribute {
    VertexAttribute { offset: 0, shader_location: 0, format: VertexFormat::Float32x2 }
}

/// Where the colour lies in a vertex.
pub open spec fn color_attribute() -> VertexAttribute {
    VertexAttribute { offset: 8, shader_location: 1, format: VertexFormat::Float32x4 }
}

impl GpuVertex {
    /// The words of a vertex in memory order.
    pub open spec fn words(self) -> Seq<u32> {
        self.position@ + self.color@
    }

    /// Describes a buffer of vertices to the GPU.
    pub fn desc() -> (layout: VertexBufferLayout)
        ensures
            layout.array_stride == 24,
            layout.step_mode == VertexStepMode::Vertex,
            layout.attributes@ == seq![position_attribute(), color_attribute()],
            layout.attributes@.len() == 2,
            layout.attributes@[0] == (VertexAttribute {
                offset: 0,
                shader_location: 0,
                format: VertexFormat::Float32x2,
            }),
            layout.attributes@[1] == (VertexAttribute {
                offset: 8,
                shader_location: 1,
                format: VertexFormat::Float32x4,
            }),
    {
        let position = VertexAttribute {
            offset: 0,
            shader_location: 0,
            format: VertexFormat::Float32x2,
        };
        let color = VertexAttribute {
            offset: 8,
            shader_location: 1,
            format: VertexFormat::Float32x4,
        };
        VertexBufferLayout {
            array_stride: 24,
            step_mode: VertexStepMode::Vertex,
            attributes: vec![position, color],
        }
    }
}

/// The words of vertices that follow one another.
pub open spec fn vertex_words(vertices: Seq<GpuVertex>) -> Seq<u32> {
    Seq::new(6 * vertices.len(), |i: int| vertices[i / 6].words()[i % 6])
}

/// The box that a frame fills, by two opposite corners.
#[derive(Debug, Clone, Copy, PartialEq, Eq)]
pub struct Bounds {
    pub min: [u32; 2],
    pub max: [u32; 2],
}

/// A compiled frame: triangles over vertices, each given by three indices.
#[derive(Debug, PartialEq, Eq)]
pub struct Frame {
    pub vertices: Vec<GpuVertex>,
    pub indices: Vec<u32>,
    pub bounds: Bounds,
}

impl Frame {
    /// The contents of the vertex buffer.
    pub fn vertex_bytes(&self) -> (bytes: Vec<u8>)
        ensures
            bytes@ == words_bytes(vertex_words(self.vertices@)),
    {
        let mut words: Vec<u32> = Vec::new();
        let mut i: usize = 0;
        while i < self.vertices.len()
            invariant
                i <= self.vertices@.len(),
                words@ == vertex_words(self.vertices@.take(i as int)),
            decreases self.vertices@.len() - i,
        {
            let vertex = self.vertices[i];
            words.push(vertex.position[0]);
            words.push(vertex.position[1]);
            words.push(vertex.color[0]);
            words.push(vertex.color[1]);
            words.push(vertex.color[2]);
            words.push(vertex.color[3]);
            i = i + 1;
            assert(words@ =~= vertex_words(self.vertices@.take(i as int)));
        }
        assert(self.vertices@.take(i as int) =~= self.vertices@);
        cast_words(words.as_slice())
    }

    /// The contents of the index buffer.
    pub fn index_bytes(&self) -> (bytes: Vec<u8>)
        ensures
            bytes@ == words_bytes(self.indices@),
    {
        cast_words(self.indices.as_slice())
    }

    /// How many indices are drawn. The count is kept in 32 bits, and wraps
    /// around where there are more indices than that.
    pub fn index_count(&self) -> (count: u32)
        ensures
            count == self.indices@.len() % 0x1_0000_0000,
    {
        let len: u64 = self.indices.len() as u64;
        assert(len as u32 == len % 0x1_0000_0000) by (bit_vector);
        len as u32
    }
}

/// The words of a matrix, column after column.
pub open spec fn column_words(columns: [[u32; 4]; 4]) -> Seq<u32> {
    Seq::new(16, |i: int| columns@[i / 4]@[i % 4])
}

/// What the vertex shader reads besides the vertices: the matrix from the
/// coordinates of the frame to those of the screen, by columns.
#[derive(Debug, Clone, Copy, PartialEq, Eq)]
pub struct Uniforms {
    pub transform: [[u32; 4]; 4],
}

impl Uniforms {
    /// The contents of the uniform buffer.
    pub fn bytes(&self) -> (bytes: Vec<u8>)
        ensures
            bytes@ == words_bytes(column_words(self.transform)),
    {
        bytes_of_columns(&self.transform)
    }
}

/// The vertex buffer is what its description says: in the slot of each vertex,
/// one stride long, the bytes at the offset of the position are those of its
/// position, and the bytes at the offset of the colour those of its colour.
pub proof fn law_vertex_buffer_matches_description(vertices: Seq<GpuVertex>, i: int)
    requires
        0 <= i < vertices.len(),
    ensures
        words_bytes(vertex_words(vertices)).len() == 24 * vertices.len(),
        words_bytes(vertex_words(vertices)).subrange(
            24 * i + position_attribute().offset,
            24 * i + position_attribute().offset + position_attribute().format.size(),
        ) == words_bytes(vertices[i].position@),
        words_bytes(vertex_words(vertices)).subrange(
            24 * i + color_attribute().offset,
            24 * i + color_attribute().offset + color_attribute().format.size(),
        ) == words_bytes(vertices[i].color@),
{
    let all = words_bytes(vertex_words(vertices));
    assert(all.subrange(24 * i, 24 * i + 8) =~= words_bytes(vertices[i].position@));
    assert(all.subrange(24 * i + 8, 24 * i + 24) =~= words_bytes(vertices[i].color@));
}

/// The bytes of a word give the word back: the least significant byte comes first
/// on a little-endian machine, and last on a big-endian one.
pub proof fn law_word_reads_back(word: u32)
    ensures
        ({
            let little = word_bytes(word, Endian::Little);
            let big = word_bytes(word, Endian::Big);
            &&& little.len() == 4 && big.len() == 4
            &&& word == little[0] + 256 * little[1] + 65536 * little[2] + 16777216 * little[3]
            &&& word == 16777216 * big[0] + 65536 * big[1] + 256 * big[2] + big[3]
        }),
{
}

/// Words lie in memory one after another, four bytes each.
pub proof fn law_words_lie_in_order(words: Seq<u32>, i: int)
    requires
        0 <= i < words.len(),
    ensures
        words_bytes(words).len() == 4 * words.len(),
        words_bytes(words).subrange(4 * i, 4 * i + 4) == word_bytes(words[i], endianness()),
{
    assert(words_bytes(words).subrange(4 * i, 4 * i + 4) =~= word_bytes(words[i], endianness()));
}

/// Vertices lie one after another, six words each: first the position, and then
/// the colour.
pub proof fn law_vertices_lie_in_order(vertices: Seq<GpuVertex>, i: int)
    requires
        0 <= i < vertices.len(),
    ensures
        vertex_words(vertices).len() == 6 * vertices.len(),
        vertex_words(vertices)[6 * i] == vertices[i].position[0],
        vertex_words(vertices)[6 * i + 1] == vertices[i].position[1],
        vertex_words(vertices)[6 * i + 2] == vertices[i].color[0],
        vertex_words(vertices)[6 * i + 3] == vertices[i].color[1],
        vertex_words(vertices)[6 * i + 4] == vertices[i].color[2],
        vertex_words(vertices)[6 * i + 5] == vertices[i].color[3],
{
}

/// The matrix lies by columns: four words of the first, then of the next.
pub proof fn law_columns_lie_in_order(columns: [[u32; 4]; 4], column: int, row: int)
    requires
        0 <= column < 4,
        0 <= row < 4,
    ensures
        column_words(columns).len() == 16,
        column_words(columns)[4 * column + row] == columns[column][row],
{
}

} // verus!
