//! The vertex format: the record that the tessellator's output is turned
//! into, the order in which its scalars are laid out in memory, and the
//! attribute declaration that tells the pipeline how to read them.
//!
//! The record and the declaration are defined side by side, and
//! [`lemma_layout_matches_words`] ties the one to the other.

use vstd::prelude::*;

verus! {

/// Number of interpolated attributes a vertex is made from: red, green,
/// blue and depth.
pub const ATTRIBUTE_COUNT: usize = 4;

/// Number of 32-bit scalars in one vertex.
pub const WORDS_PER_VERTEX: usize = 6;

/// Number of bytes in one scalar.
pub const WORD_SIZE: u64 = 4;

/// A vertex as the pipeline reads it. Every scalar is a single-precision
/// IEEE 754 number, held as its 32-bit pattern.
#[derive(Copy, Clone, Debug, PartialEq, Eq)]
pub struct Vertex {
    pub position: [u32; 2],
    pub color: [u32; 3],
    pub z: u32,
}

/// The scalar types a vertex attribute can have.
#[derive(Copy, Clone, Debug, PartialEq, Eq)]
pub enum AttributeFormat {
    /// One scalar.
    Float32,
    /// Two scalars.
    Float32x2,
    /// Three scalars.
    Float32x3,
}

/// One input of the vertex stage: where in the vertex it starts, what it
/// holds and which shader location receives it.
#[derive(Copy, Clone, Debug, PartialEq, Eq)]
pub struct VertexAttribute {
    pub format: AttributeFormat,
    pub offset: u64,
    pub shader_location: u32,
}

/// How often the pipeline moves on to the next element of a vertex buffer.
#[derive(Copy, Clone, Debug, PartialEq, Eq)]
pub enum StepMode {
    /// Once for every vertex.
    Vertex,
    /// Once for every instance.
    Instance,
}

/// How the pipeline steps through the vertex buffer: one element every
/// `array_stride` bytes, moved on to as `step_mode` says and read through
/// `attributes`.
#[derive(Debug, PartialEq, Eq)]
pub struct VertexLayout {
    pub array_stride: u64,
    pub step_mode: StepMode,
    pub attributes: Vec<VertexAttribute>,
}

impl AttributeFormat {
    /// Number of scalars in a value of this format.
    pub open spec fn components(self) -> nat {
        match self {
            AttributeFormat::Float32 => 1,
            AttributeFormat::Float32x2 => 2,
            AttributeFormat::Float32x3 => 3,
        }
    }

    /// Number of bytes in a value of this format.
    pub fn size(self) -> (bytes: u64)
        ensures
            bytes == WORD_SIZE * self.components(),
    {
        match self {
            AttributeFormat::Float32 => WORD_SIZE,
            AttributeFormat::Float32x2 => 2 * WORD_SIZE,
            AttributeFormat::Float32x3 => 3 * WORD_SIZE,
        }
    }
}

impl VertexAttribute {
    /// The scalars of `words` that this attribute reads, `words` being the
    /// scalars of one vertex.
    pub open spec fn read(self, words: Seq<u32>) -> Seq<u32> {
        let first = (self.offset / WORD_SIZE) as int;
        words.subrange(first, first + self.format.components())
    }
}

impl Vertex {
    /// The scalars of the vertex in memory order.
    pub open spec fn words(self) -> Seq<u32> {
        self.position@ + self.color@ + seq![self.z]
    }

    /// The attribute declaration of a vertex: position, color and depth,
    /// packed in that order, at shader locations 0, 1 and 2.
    pub open spec fn attributes() -> Seq<VertexAttribute> {
        seq![
            VertexAttribute { format: AttributeFormat::Float32x2, offset: 0, shader_location: 0 },
            VertexAttribute { format: AttributeFormat::Float32x3, offset: 8, shader_location: 1 },
            VertexAttribute { format: AttributeFormat::Float32, offset: 20, shader_location: 2 },
        ]
    }

    /// Declares the vertex to the pipeline: one vertex for every stride,
    /// stepped through vertex by vertex.
    pub fn layout() -> (layout: VertexLayout)
        ensures
            layout.array_stride == WORD_SIZE * WORDS_PER_VERTEX,
            layout.step_mode == StepMode::Vertex,
            layout.attributes@ == Vertex::attributes(),
    {
        let formats: [AttributeFormat; 3] = [
            AttributeFormat::Float32x2,
            AttributeFormat::Float32x3,
            AttributeFormat::Float32,
        ];
        let mut attributes: Vec<VertexAttribute> = Vec::new();
        let mut offset: u64 = 0;
        let mut location: u32 = 0;
        while location < 3
            invariant
                location <= 3,
                formats@ == seq![
                    AttributeFormat::Float32x2,
                    AttributeFormat::Float32x3,
                    AttributeFormat::Float32,
                ],
                attributes@ == Vertex::attributes().subrange(0, location as int),
                offset == (if location == 0 {
                    0int
                } else if location == 1 {
                    8
                } else if location == 2 {
                    20
                } else {
                    24
                }),
            decreases 3 - location,
        {
            let format: AttributeFormat = formats[location as usize];
            attributes.push(VertexAttribute { format, offset, shader_location: location });
            offset = offset + format.size();
            location = location + 1;
        }
        assert(attributes@ == Vertex::attributes());
        VertexLayout { array_stride: offset, step_mode: StepMode::Vertex, attributes }
    }
}

/// Builds vertices from what the tessellator hands out for each of them.
#[derive(Copy, Clone, Debug)]
pub struct VertexConstructor;

impl VertexConstructor {
    /// The vertex at `position` whose color is the first three of
    /// `attributes` and whose depth is the fourth.
    pub fn new_vertex(&self, position: [u32; 2], attributes: &[u32]) -> (vertex: Vertex)
        requires
            attributes@.len() == ATTRIBUTE_COUNT,
        ensures
            vertex.position == position,
            vertex.color@ == attributes@.subrange(0, 3),
            vertex.z == attributes@[3],
    {
        let vertex = Vertex {
            position,
            color: [attributes[0], attributes[1], attributes[2]],
            z: attributes[3],
        };
        assert(vertex.color@ =~= attributes@.subrange(0, 3));
        vertex
    }
}

impl VertexConstructor {
    /// The vertex that [`VertexConstructor::new_vertex`] builds, where
    /// `attributes` holds as many attributes as a vertex is made from;
    /// nothing where it holds fewer or more.
    pub fn try_new_vertex(&self, position: [u32; 2], attributes: &[u32]) -> (vertex: Option<Vertex>)
        ensures
            vertex is Some <==> attributes@.len() == ATTRIBUTE_COUNT,
            vertex matches Some(built) ==> {
                &&& built.position == position
                &&& built.color@ == attributes@.subrange(0, 3)
                &&& built.z == attributes@[3]
            },
    {
        if attributes.len() == ATTRIBUTE_COUNT {
            Some(self.new_vertex(position, attributes))
        } else {
            None
        }
    }
}

/// The scalars of a run of vertices, vertex after vertex.
pub open spec fn vertex_words(vertices: Seq<Vertex>) -> Seq<u32> {
    Seq::new(
        vertices.len() * WORDS_PER_VERTEX as nat,
        |k: int| vertices[k / WORDS_PER_VERTEX as int].words()[k % WORDS_PER_VERTEX as int],
    )
}

/// Lays the scalars of `vertices` out in memory order.
pub fn pack_vertices(vertices: &[Vertex]) -> (words: Vec<u32>)
    ensures
        words@ == vertex_words(vertices@),
{
    let mut words: Vec<u32> = Vec::new();
    let mut i: usize = 0;
    while i < vertices.len()
        invariant
            i <= vertices.len(),
            words@ == vertex_words(vertices@.subrange(0, i as int)),
        decreases vertices.len() - i,
    {
        let vertex: Vertex = vertices[i];
        let ghost before = words@;
        words.push(vertex.position[0]);
        words.push(vertex.position[1]);
        words.push(vertex.color[0]);
        words.push(vertex.color[1]);
        words.push(vertex.color[2]);
        words.push(vertex.z);
        proof {
            let taken = vertices@.subrange(0, i as int);
            let next = vertices@.subrange(0, i + 1);
            assert(words@ == before + vertex.words());
            assert forall|k: int| 0 <= k < words@.len() implies words@[k] == vertex_words(next)[k] by {
                if k < before.len() {
                    assert(next[k / 6] == taken[k / 6]);
                } else {
                    assert(k / 6 == i);
                    assert(next[k / 6] == vertex);
                }
            }
            assert(words@ =~= vertex_words(next));
        }
        i = i + 1;
    }
    assert(vertices@.subrange(0, i as int) == vertices@);
    words
}

/// The attribute declaration and the memory order of a vertex agree: the
/// attributes follow one another without a gap from the first byte to the
/// stride, and each reads the scalars of the field it stands for.
pub proof fn lemma_layout_matches_words(vertex: Vertex)
    ensures
        vertex.words().len() == WORDS_PER_VERTEX,
        Vertex::attributes()[0].offset == 0,
        forall|i: int|
            0 <= i < 2 ==> (#[trigger] Vertex::attributes()[i]).offset + WORD_SIZE
                * Vertex::attributes()[i].format.components() == Vertex::attributes()[i + 1].offset,
        Vertex::attributes()[2].offset + WORD_SIZE * Vertex::attributes()[2].format.components()
            == WORD_SIZE * WORDS_PER_VERTEX,
        Vertex::attributes()[0].read(vertex.words()) == vertex.position@,
        Vertex::attributes()[1].read(vertex.words()) == vertex.color@,
        Vertex::attributes()[2].read(vertex.words()) == seq![vertex.z],
{
    assert(Vertex::attributes()[0].read(vertex.words()) =~= vertex.position@);
    assert(Vertex::attributes()[1].read(vertex.words()) =~= vertex.color@);
    assert(Vertex::attributes()[2].read(vertex.words()) =~= seq![vertex.z]);
}

} // verus!
