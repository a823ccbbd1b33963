//! The drawable mesh and the layout of its vertices in GPU memory.
//!
//! Every single-precision component is held by its IEEE-754 bit pattern, so
//! that the bytes of a buffer are fixed by integers alone.

use vstd::prelude::*;
use crate::bits::HALF;

verus! {

/// One vertex: a position and a colour, three single-precision components each,
/// held by their bit patterns.
#[derive(Clone, Copy, Debug, PartialEq, Eq)]
pub struct Vertex {
    pub position: [u32; 3],
    pub color: [u32; 3],
}

/// The six components of a vertex in the order in which they lie in memory.
pub open spec fn vertex_words(v: Vertex) -> Seq<u32> {
    v.position@ + v.color@
}

/// The colour of every corner: red 0.5, green 0.0, blue 0.5.
pub open spec fn purple() -> [u32; 3] {
    [HALF, 0u32, HALF]
}

/// The five corners of the pentagon, counter-clockwise from the top, all in the
/// plane z = 0:
/// (-0.0868241, 0.49240386), (-0.49513406, 0.06958647),
/// (-0.21918549, -0.44939706), (0.35966998, -0.3473291) and
/// (0.44147372, 0.2347359).
pub open spec fn pentagon_vertices() -> Seq<Vertex> {
    seq![
        Vertex { position: [0xbdb1_d0d5u32, 0x3efc_1c5cu32, 0u32], color: purple() },
        Vertex { position: [0xbefd_8236u32, 0x3d8e_835au32, 0u32], color: purple() },
        Vertex { position: [0xbe60_7229u32, 0xbee6_175fu32, 0u32], color: purple() },
        Vertex { position: [0x3eb8_26aau32, 0xbeb1_d51fu32, 0u32], color: purple() },
        Vertex { position: [0x3ee2_08d8u32, 0x3e70_5e9cu32, 0u32], color: purple() },
    ]
}

/// The triangle fan over the pentagon: three triangles, nine indices.
pub open spec fn pentagon_indices() -> Seq<u16> {
    seq![0u16, 1u16, 4u16, 1u16, 2u16, 4u16, 2u16, 3u16, 4u16]
}

/// How often the vertex buffer advances: once per vertex or once per instance.
#[derive(Clone, Copy, Debug, PartialEq, Eq, Structural)]
pub enum VertexStepMode {
    Vertex,
    Instance,
}

/// The type of one vertex attribute as the shader reads it.
#[derive(Clone, Copy, Debug, PartialEq, Eq, Structural)]
pub enum VertexFormat {
    /// Three single-precision components.
    Float32x3,
}

impl VertexFormat {
    /// The bytes that one attribute of this format takes.
    pub open spec fn spec_size(self) -> u64 {
        match self {
            VertexFormat::Float32x3 => 12,
        }
    }

    pub fn size(self) -> (r: u64)
        ensures
            r == self.spec_size(),
    {
        match self {
            VertexFormat::Float32x3 => 12,
        }
    }
}

/// One attribute of a vertex: where it starts within the vertex, the shader
/// location that reads it, and its format.
#[derive(Clone, Copy, Debug, PartialEq, Eq, Structural)]
pub struct VertexAttribute {
    pub offset: u64,
    pub shader_location: u32,
    pub format: VertexFormat,
}

/// How the vertices lie in the vertex buffer.
#[derive(Clone, Debug, PartialEq, Eq)]
pub struct VertexBufferLayout {
    pub array_stride: u64,
    pub step_mode: VertexStepMode,
    pub attributes: Vec<VertexAttribute>,
}

impl VertexBufferLayout {
    /// The attributes follow one another without padding, the first at offset 0,
    /// attribute `i` is read at shader location `i`, and the stride is the end of
    /// the last attribute.
    pub open spec fn packed(&self) -> bool {
        let a = self.attributes@;
        &&& a.len() > 0
        &&& a[0].offset == 0
        &&& forall|i: int|
            0 < i < a.len() ==> (#[trigger] a[i]).offset == a[i - 1].offset + a[i - 1].format.spec_size()
        &&& forall|i: int| 0 <= i < a.len() ==> (#[trigger] a[i]).shader_location == i
        &&& self.array_stride == a[a.len() - 1].offset + a[a.len() - 1].format.spec_size()
    }
}

/// The attributes of a vertex: the position at offset 0 and location 0, the
/// colour directly behind it at location 1.
pub open spec fn vertex_attributes() -> Seq<VertexAttribute> {
    seq![
        VertexAttribute { offset: 0, shader_location: 0, format: VertexFormat::Float32x3 },
        VertexAttribute { offset: 12, shader_location: 1, format: VertexFormat::Float32x3 },
    ]
}

impl Vertex {
    /// The bytes of one vertex: six components of four bytes.
    pub open spec fn spec_stride() -> u64 {
        24
    }

    /// The layout that the shader expects: a stride of 24 bytes, stepped per
    /// vertex, with the two attributes of `vertex_attributes`.
    pub fn desc() -> (r: VertexBufferLayout)
        ensures
            r.array_stride == Vertex::spec_stride(),
            r.step_mode == VertexStepMode::Vertex,
            r.attributes@ == vertex_attributes(),
            r.packed(),
    {
        let format = VertexFormat::Float32x3;
        let position = VertexAttribute { offset: 0, shader_location: 0, format };
        let color = VertexAttribute { offset: position.offset + format.size(), shader_location: 1, format };
        let array_stride: u64 = color.offset + format.size();
        let attributes = vec![position, color];
        VertexBufferLayout { array_stride, step_mode: VertexStepMode::Vertex, attributes }
    }

    /// The six components in memory order, position first.
    pub fn words(&self) -> (r: [u32; 6])
        ensures
            r@ == vertex_words(*self),
    {
        let r: [u32; 6] = [
            self.position[0],
            self.position[1],
            self.position[2],
            self.color[0],
            self.color[1],
            self.color[2],
        ];
        assert(r@ =~= vertex_words(*self));
        r
    }
}

/// The components of all vertices, one vertex after the other.
pub open spec fn flat_words(vertices: Seq<Vertex>) -> Seq<u32> {
    Seq::new(6 * vertices.len(), |j: int| vertex_words(vertices[j / 6])[j % 6])
}

/// The value of two bytes, the less significant one first.
pub open spec fn word16(lo: u8, hi: u8) -> int {
    lo as int + 256 * (hi as int)
}

/// The value of four bytes, the least significant one first.
pub open spec fn word32(b0: u8, b1: u8, b2: u8, b3: u8) -> int {
    b0 as int + 256 * (b1 as int) + 65536 * (b2 as int) + 16777216 * (b3 as int)
}

/// `bytes` holds `words` one after the other, two bytes each, every word with its
/// low byte first (`little`) or every word with its high byte first.
pub open spec fn holds_words16(bytes: Seq<u8>, words: Seq<u16>, little: bool) -> bool {
    &&& bytes.len() == 2 * words.len()
    &&& forall|i: int|
        0 <= i < words.len() ==> (#[trigger] words[i]) as int == if little {
            word16(bytes[2 * i], bytes[2 * i + 1])
        } else {
            word16(bytes[2 * i + 1], bytes[2 * i])
        }
}

/// `bytes` holds `words` one after the other, four bytes each, every word with
/// its lowest byte first (`little`) or every word with its highest byte first.
pub open spec fn holds_words32(bytes: Seq<u8>, words: Seq<u32>, little: bool) -> bool {
    &&& bytes.len() == 4 * words.len()
    &&& forall|i: int|
        0 <= i < words.len() ==> (#[trigger] words[i]) as int == if little {
            word32(bytes[4 * i], bytes[4 * i + 1], bytes[4 * i + 2], bytes[4 * i + 3])
        } else {
            word32(bytes[4 * i + 3], bytes[4 * i + 2], bytes[4 * i + 1], bytes[4 * i])
        }
}

/// `bytemuck::cast_slice` from `u16` to `u8`: the memory of the slice, read byte
/// by byte. Trusted: the result has two bytes for each word, and they hold the
/// word in the byte order of the machine, which is the same for all words. The
/// cast cannot fail, since `u8` has alignment 1 and size 1.
#[verifier::external_body]
fn bytes_of_u16(words: &Vec<u16>) -> (bytes: Vec<u8>)
    ensures
        holds_words16(bytes@, words@, true) || holds_words16(bytes@, words@, false),
{
    bytemuck::cast_slice::<u16, u8>(words.as_slice()).to_vec()
}

/// `bytemuck::cast_slice` from `u32` to `u8`: the memory of the slice, read byte
/// by byte. Trusted: the result has four bytes for each word, and they hold the
/// word in the byte order of the machine, which is the same for all words. The
/// cast cannot fail, since `u8` has alignment 1 and size 1.
#[verifier::external_body]
fn bytes_of_u32(words: &Vec<u32>) -> (bytes: Vec<u8>)
    ensures
        holds_words32(bytes@, words@, true) || holds_words32(bytes@, words@, false),
{
    bytemuck::cast_slice::<u32, u8>(words.as_slice()).to_vec()
}

/// A mesh: vertices, and indices that name vertices by their place.
#[derive(Clone, Debug, PartialEq, Eq)]
pub struct Mesh {
    pub vertices: Vec<Vertex>,
    pub indices: Vec<u16>,
}

/// Every index names a vertex.
pub open spec fn indices_in_range(indices: Seq<u16>, vertex_count: int) -> bool {
    forall|i: int| 0 <= i < indices.len() ==> (#[trigger] indices[i]) < vertex_count
}

impl Mesh {
    /// Every index names a vertex, and the number of indices fits a draw call.
    pub open spec fn wf(&self) -> bool {
        &&& indices_in_range(self.indices@, self.vertices@.len() as int)
        &&& self.indices@.len() <= u32::MAX
    }

    /// A mesh of the given vertices and indices, if every index names a vertex
    /// and the indices fit one draw call; `None` otherwise.
    pub fn new(vertices: Vec<Vertex>, indices: Vec<u16>) -> (r: Option<Mesh>)
        ensures
            r.is_some() <==> indices_in_range(indices@, vertices@.len() as int) && indices@.len()
                <= u32::MAX,
            r.is_some() ==> r.unwrap().vertices@ == vertices@ && r.unwrap().indices@ == indices@
                && r.unwrap().wf(),
    {
        if indices.len() > 0xffff_ffff {
            return None;
        }
        let mut i: usize = 0;
        while i < indices.len()
            invariant
                i <= indices@.len(),
                forall|j: int| 0 <= j < i ==> (#[trigger] indices@[j]) < vertices@.len(),
            decreases indices@.len() - i,
        {
            let index: u16 = indices[i];
            if index as usize >= vertices.len() {
                return None;
            }
            i += 1;
        }
        Some(Mesh { vertices, indices })
    }

    /// The pentagon: five vertices and the nine indices of its triangle fan.
    pub fn pentagon() -> (r: Mesh)
        ensures
            r.vertices@ == pentagon_vertices(),
            r.indices@ == pentagon_indices(),
            r.wf(),
    {
        let purple: [u32; 3] = [HALF, 0u32, HALF];
        let vertices = vec![
            Vertex { position: [0xbdb1_d0d5u32, 0x3efc_1c5cu32, 0u32], color: purple },
            Vertex { position: [0xbefd_8236u32, 0x3d8e_835au32, 0u32], color: purple },
            Vertex { position: [0xbe60_7229u32, 0xbee6_175fu32, 0u32], color: purple },
            Vertex { position: [0x3eb8_26aau32, 0xbeb1_d51fu32, 0u32], color: purple },
            Vertex { position: [0x3ee2_08d8u32, 0x3e70_5e9cu32, 0u32], color: purple },
        ];
        let indices: Vec<u16> = vec![0u16, 1u16, 4u16, 1u16, 2u16, 4u16, 2u16, 3u16, 4u16];
        proof {
            lemma_pentagon_indices_in_range();
        }
        Mesh { vertices, indices }
    }

    /// The number of indices that one draw covers.
    pub fn index_count(&self) -> (r: u32)
        requires
            self.wf(),
        ensures
            r == self.indices@.len(),
    {
        self.indices.len() as u32
    }

    /// The contents of the index buffer: the indices in order, two bytes each, in
    /// the byte order of the machine.
    pub fn index_bytes(&self) -> (bytes: Vec<u8>)
        ensures
            holds_words16(bytes@, self.indices@, true) || holds_words16(
                bytes@,
                self.indices@,
                false,
            ),
    {
        bytes_of_u16(&self.indices)
    }

    /// The contents of the vertex buffer: the vertices in order, each as its six
    /// components of four bytes, with no padding, in the byte order of the
    /// machine.
    pub fn vertex_bytes(&self) -> (bytes: Vec<u8>)
        ensures
            holds_words32(bytes@, flat_words(self.vertices@), true) || holds_words32(
                bytes@,
                flat_words(self.vertices@),
                false,
            ),
            bytes@.len() == Vertex::spec_stride() * self.vertices@.len(),
    {
        let mut words: Vec<u32> = Vec::new();
        let mut i: usize = 0;
        while i < self.vertices.len()
            invariant
                i <= self.vertices@.len(),
                words@ =~= flat_words(self.vertices@.take(i as int)),
            decreases self.vertices@.len() - i,
        {
            let w: [u32; 6] = self.vertices[i].words();
            let ghost before = words@;
            words.push(w[0]);
            words.push(w[1]);
            words.push(w[2]);
            words.push(w[3]);
            words.push(w[4]);
            words.push(w[5]);
            proof {
                let next = self.vertices@.take(i as int + 1);
                let prev = self.vertices@.take(i as int);
                assert forall|j: int| 0 <= j < 6 * (i + 1) implies words@[j] == flat_words(next)[j] by {
                    if j < 6 * i {
                        assert(words@[j] == before[j]);
                        assert(prev[j / 6] == next[j / 6]);
                    } else {
                        assert(j / 6 == i as int);
                        assert(next[i as int] == self.vertices@[i as int]);
                    }
                }
                assert(words@ =~= flat_words(next));
            }
            i += 1;
        }
        assert(self.vertices@.take(i as int) =~= self.vertices@);
        bytes_of_u32(&words)
    }
}

/// In the pentagon every index names one of the five vertices, and one draw
/// covers exactly nine indices.
pub proof fn lemma_pentagon_indices_in_range()
    ensures
        pentagon_vertices().len() == 5,
        pentagon_indices().len() == 9,
        indices_in_range(pentagon_indices(), 5),
        forall|i: int| 0 <= i < 9 ==> (#[trigger] pentagon_indices()[i]) < 5,
{
}

} // verus!
