//! The renderer: the geometry of the current frame, the batch entries that
//! divide it among the shapes, and the capacities of the two GPU buffers
//! that receive it.
//!
//! The renderer owns no device object. `prepare` says what has to be
//! written to the vertex and index buffers, and `render` what has to be
//! recorded into the render pass; whoever holds the device carries both
//! out.

use crate::batch::{
    covers, lemma_cover_is_partition, lemma_entries_within, record, BatchEntry, PrepareError,
    MAX_INDEX_COUNT,
};
use crate::buffer::{
    is_buffer_size, is_least_buffer_size, next_copy_buffer_size, plan_write, BufferWrite,
    COPY_ALIGNMENT, INITIAL_CAPACITY,
};
use crate::bytes::{
    big_endian, index_values, indices_as_bytes, lemma_memory_image_len, little_endian,
    word_values, words_as_bytes,
};
use crate::tessellation::{
    tessellate_shape, Bound, FillSettings, GeometryFault, Shape, MAX_VERTEX_COUNT,
};
use crate::vertex::{pack_vertices, vertex_words, Vertex, WORDS_PER_VERTEX, WORD_SIZE};
use lyon_tessellation::{FillTessellator, VertexBuffers};
use vstd::arithmetic::power2::is_pow2;
use vstd::prelude::*;

verus! {

/// Number of bytes in one index.
pub const INDEX_SIZE: u64 = 2;

/// Tessellates the shapes of a frame and plans the uploads and draws that
/// show them.
pub struct LyonRenderer {
    vertex_buffer_size: u64,
    index_buffer_size: u64,
    lyon_buffers: VertexBuffers<Vertex, u16>,
    shape_buffer: Vec<BatchEntry>,
}

/// What a renderer holds, as plain values.
pub ghost struct RendererState {
    /// Capacity of the vertex buffer, in bytes.
    pub vertex_capacity: u64,
    /// Capacity of the index buffer, in bytes.
    pub index_capacity: u64,
    /// The vertices of the current frame.
    pub vertices: Seq<Vertex>,
    /// The indices of the current frame.
    pub indices: Seq<u16>,
    /// One entry for each shape of the current frame, in the order in which
    /// the shapes were handed in.
    pub batches: Seq<BatchEntry>,
}

/// The writes one frame asks for, one for each buffer.
#[derive(Debug, PartialEq, Eq)]
pub struct FrameUpload {
    pub vertex: BufferWrite,
    pub index: BufferWrite,
}

/// One command for the render pass.
#[derive(Copy, Clone, Debug, PartialEq, Eq)]
pub enum RenderCommand {
    /// Bind the pipeline.
    SetPipeline,
    /// Bind the whole vertex buffer to `slot`.
    SetVertexBuffer { slot: u32 },
    /// Bind the whole index buffer, as 16-bit indices.
    SetIndexBuffer,
    /// Clip what follows to the rectangle.
    SetScissorRect { x: u32, y: u32, width: u32, height: u32 },
    /// Draw the indices `first_index..end_index`, for the instances
    /// `first_instance..end_instance`.
    DrawIndexed {
        first_index: u32,
        end_index: u32,
        base_vertex: i32,
        first_instance: u32,
        end_instance: u32,
    },
}

/// The command that clips to the rectangle of `entry`.
pub open spec fn scissor_of(entry: BatchEntry) -> RenderCommand {
    RenderCommand::SetScissorRect {
        x: entry.clip_rect.0,
        y: entry.clip_rect.1,
        width: entry.clip_rect.2,
        height: entry.clip_rect.3,
    }
}

/// The command that draws the indices of `entry`, once.
pub open spec fn draw_of(entry: BatchEntry) -> RenderCommand {
    RenderCommand::DrawIndexed {
        first_index: entry.start_index as u32,
        end_index: entry.end_index as u32,
        base_vertex: 0,
        first_instance: 0,
        end_instance: 1,
    }
}

impl RendererState {
    /// A renderer that has prepared nothing yet.
    pub open spec fn initial() -> RendererState {
        RendererState {
            vertex_capacity: INITIAL_CAPACITY,
            index_capacity: INITIAL_CAPACITY,
            vertices: Seq::empty(),
            indices: Seq::empty(),
            batches: Seq::empty(),
        }
    }

    /// Whether the frame holds anything to draw.
    pub open spec fn has_geometry(self) -> bool {
        self.vertices.len() > 0 && self.indices.len() > 0
    }

    /// Number of bytes the vertices of the frame take up.
    pub open spec fn vertex_bytes(self) -> int {
        self.vertices.len() * WORDS_PER_VERTEX * WORD_SIZE
    }

    /// Number of bytes the indices of the frame take up.
    pub open spec fn index_bytes(self) -> int {
        self.indices.len() * INDEX_SIZE
    }

    /// What holds of every renderer: the capacities are buffer sizes, the
    /// geometry is within reach of 16-bit indices, the batch entries cover
    /// the indices, and geometry that is to be drawn fits the buffers.
    pub open spec fn wf(self) -> bool {
        &&& is_buffer_size(self.vertex_capacity as int)
        &&& is_buffer_size(self.index_capacity as int)
        &&& self.vertices.len() <= MAX_VERTEX_COUNT
        &&& self.indices.len() <= MAX_INDEX_COUNT
        &&& covers(self.batches, self.indices.len() as int)
        &&& self.has_geometry() ==> {
            &&& self.vertex_bytes() <= self.vertex_capacity
            &&& self.index_bytes() <= self.index_capacity
        }
    }

    /// The same renderer without its frame.
    pub open spec fn cleared(self) -> RendererState {
        RendererState {
            vertices: Seq::empty(),
            indices: Seq::empty(),
            batches: Seq::empty(),
            ..self
        }
    }

    /// The commands that draw the frame: none where there is nothing to
    /// draw; else the three bindings, then for each batch entry its clip
    /// rectangle and its draw.
    pub open spec fn render_commands(self) -> Seq<RenderCommand> {
        if self.has_geometry() {
            seq![
                RenderCommand::SetPipeline,
                RenderCommand::SetVertexBuffer { slot: 0 },
                RenderCommand::SetIndexBuffer,
            ] + Seq::new(
                2 * self.batches.len(),
                |k: int|
                    if k % 2 == 0 {
                        scissor_of(self.batches[k / 2])
                    } else {
                        draw_of(self.batches[k / 2])
                    },
            )
        } else {
            Seq::empty()
        }
    }
}

impl PrepareError {
    /// Position of the shape that could not be taken in.
    pub open spec fn shape(self) -> usize {
        match self {
            PrepareError::Geometry { shape, .. } => shape,
            PrepareError::IndexOverflow { shape } => shape,
        }
    }
}

/// How `prepare` relates the renderer before it, the settings, the shapes,
/// the renderer after it and what it returns.
pub open spec fn prepared(
    before: RendererState,
    settings: FillSettings,
    shapes: Seq<Shape>,
    after: RendererState,
    result: Result<FrameUpload, PrepareError>,
) -> bool {
    &&& after.wf()
    &&& after.vertex_capacity >= before.vertex_capacity
    &&& after.index_capacity >= before.index_capacity
    &&& shapes.len() == 0 ==> result is Ok
    &&& shapes.len() > 0 && !FillSettings::is_tolerance(settings.tolerance) ==> result == Err::<
        FrameUpload,
        PrepareError,
    >(PrepareError::Geometry { shape: 0, fault: GeometryFault::ToleranceIsNaN })
    &&& (result matches Err(PrepareError::Geometry { fault, .. }) && fault
        == GeometryFault::ToleranceIsNaN) ==> shapes.len() > 0 && !FillSettings::is_tolerance(
        settings.tolerance,
    )
    &&& match result {
        Ok(upload) => {
            &&& after.batches.len() == shapes.len()
            &&& forall|i: int|
                0 <= i < shapes.len() ==> (#[trigger] after.batches[i]).clip_rect == shapes[i].bound
            &&& if after.has_geometry() {
                &&& upload.vertex.is_plan_for_image(
                    before.vertex_capacity,
                    word_values(vertex_words(after.vertices)),
                    WORD_SIZE as nat,
                )
                &&& upload.index.is_plan_for_image(
                    before.index_capacity,
                    index_values(after.indices),
                    INDEX_SIZE as nat,
                )
                &&& after.vertex_capacity == upload.vertex.capacity_after(before.vertex_capacity)
                &&& after.index_capacity == upload.index.capacity_after(before.index_capacity)
            } else {
                &&& upload.vertex is Untouched
                &&& upload.index is Untouched
                &&& after.vertex_capacity == before.vertex_capacity
                &&& after.index_capacity == before.index_capacity
            }
        },
        Err(error) => {
            &&& after == before.cleared()
            &&& error.shape() < shapes.len()
        },
    }
}

impl View for LyonRenderer {
    type V = RendererState;

    closed spec fn view(&self) -> RendererState {
        RendererState {
            vertex_capacity: self.vertex_buffer_size,
            index_capacity: self.index_buffer_size,
            vertices: self.lyon_buffers.vertices@,
            indices: self.lyon_buffers.indices@,
            batches: self.shape_buffer@,
        }
    }
}

impl LyonRenderer {
    /// A renderer with no frame, for two buffers of the initial capacity.
    pub fn new() -> (renderer: LyonRenderer)
        ensures
            renderer@ == RendererState::initial(),
            renderer@.wf(),
    {
        proof {
            lemma_initial_capacity_is_buffer_size();
        }
        let vertex_buffer_size: u64 = next_copy_buffer_size(INITIAL_CAPACITY);
        let index_buffer_size: u64 = next_copy_buffer_size(INITIAL_CAPACITY);
        let lyon_buffers: VertexBuffers<Vertex, u16> = VertexBuffers::new();
        LyonRenderer {
            vertex_buffer_size,
            index_buffer_size,
            lyon_buffers,
            shape_buffer: Vec::new(),
        }
    }

    /// Capacity of the vertex buffer, in bytes.
    pub fn vertex_buffer_size(&self) -> (size: u64)
        ensures
            size == self@.vertex_capacity,
    {
        self.vertex_buffer_size
    }

    /// Capacity of the index buffer, in bytes.
    pub fn index_buffer_size(&self) -> (size: u64)
        ensures
            size == self@.index_capacity,
    {
        self.index_buffer_size
    }

    /// The vertices of the current frame.
    pub fn vertices(&self) -> (vertices: &Vec<Vertex>)
        ensures
            vertices@ == self@.vertices,
    {
        &self.lyon_buffers.vertices
    }

    /// The indices of the current frame.
    pub fn indices(&self) -> (indices: &Vec<u16>)
        ensures
            indices@ == self@.indices,
    {
        &self.lyon_buffers.indices
    }

    /// The batch entries of the current frame.
    pub fn batches(&self) -> (batches: &Vec<BatchEntry>)
        ensures
            batches@ == self@.batches,
    {
        &self.shape_buffer
    }

    /// Replaces the frame by the tessellation of `shapes`, in their order,
    /// and says what has to be written to the two buffers.
    ///
    /// Each shape gets the batch entry that spans the indices it added. The
    /// frame is dropped as a whole, and the error returned, as soon as a
    /// shape is refused or the indices pass [`MAX_INDEX_COUNT`]; with a
    /// tolerance that is no positive, finite number the first shape is
    /// refused. A frame without vertices or without indices leaves both
    /// buffers untouched.
    pub fn prepare(&mut self, settings: &FillSettings, shapes: Vec<Shape>) -> (result: Result<
        FrameUpload,
        PrepareError,
    >)
        requires
            old(self)@.wf(),
        ensures
            prepared(old(self)@, *settings, shapes@, final(self)@, result),
    {
        self.lyon_buffers.clear();
        self.shape_buffer.clear();
        if shapes.len() > 0 && !settings.has_tolerance() {
            proof {
                assert(self@ =~= old(self)@.cleared());
            }
            return Err(PrepareError::Geometry { shape: 0, fault: GeometryFault::ToleranceIsNaN });
        }
        let mut tessellator: FillTessellator = FillTessellator::new();
        let mut i: usize = 0;
        while i < shapes.len()
            invariant
                i <= shapes.len(),
                old(self)@.wf(),
                shapes.len() > 0 ==> FillSettings::is_tolerance(settings.tolerance),
                self@.vertex_capacity == old(self)@.vertex_capacity,
                self@.index_capacity == old(self)@.index_capacity,
                self@.batches.len() == i,
                forall|j: int| 0 <= j < i ==> (#[trigger] self@.batches[j]).clip_rect == shapes@[j].bound,
                covers(self@.batches, self@.indices.len() as int),
                self@.vertices.len() <= MAX_VERTEX_COUNT,
                self@.indices.len() <= MAX_INDEX_COUNT,
            decreases shapes.len() - i,
        {
            let shape: &Shape = &shapes[i];
            let outcome = tessellate_shape(&mut tessellator, &mut self.lyon_buffers, shape, settings);
            let index_count: usize = self.lyon_buffers.indices.len();
            match record(&mut self.shape_buffer, outcome, index_count, shape.bound) {
                Err(error) => {
                    self.lyon_buffers.clear();
                    self.shape_buffer.clear();
                    proof {
                        assert(self@ =~= old(self)@.cleared());
                    }
                    return Err(error);
                },
                Ok(()) => {},
            }
            i = i + 1;
        }
        if self.lyon_buffers.vertices.is_empty() || self.lyon_buffers.indices.is_empty() {
            return Ok(FrameUpload { vertex: BufferWrite::Untouched, index: BufferWrite::Untouched });
        }
        let words: Vec<u32> = pack_vertices(self.lyon_buffers.vertices.as_slice());
        let vertex_bytes: &[u8] = words_as_bytes(words.as_slice());
        let index_bytes: &[u8] = indices_as_bytes(self.lyon_buffers.indices.as_slice());
        proof {
            lemma_memory_image_len(vertex_bytes@, word_values(words@), WORD_SIZE as nat);
            lemma_memory_image_len(index_bytes@, index_values(self@.indices), INDEX_SIZE as nat);
        }
        let vertex: BufferWrite = plan_write(self.vertex_buffer_size, vertex_bytes);
        let index: BufferWrite = plan_write(self.index_buffer_size, index_bytes);
        self.vertex_buffer_size = vertex.capacity_after(self.vertex_buffer_size);
        self.index_buffer_size = index.capacity_after(self.index_buffer_size);
        Ok(FrameUpload { vertex, index })
    }

    /// The commands that draw the current frame into a render pass.
    pub fn render(&self) -> (commands: Vec<RenderCommand>)
        requires
            self@.wf(),
        ensures
            commands@ == self@.render_commands(),
    {
        let mut commands: Vec<RenderCommand> = Vec::new();
        if self.lyon_buffers.vertices.is_empty() || self.lyon_buffers.indices.is_empty() {
            return commands;
        }
        commands.push(RenderCommand::SetPipeline);
        commands.push(RenderCommand::SetVertexBuffer { slot: 0 });
        commands.push(RenderCommand::SetIndexBuffer);
        let ghost bindings = commands@;
        let mut i: usize = 0;
        while i < self.shape_buffer.len()
            invariant
                self@.wf(),
                i <= self.shape_buffer.len(),
                bindings.len() == 3,
                commands@ == bindings + Seq::new(
                    2 * (i as nat),
                    |k: int|
                        if k % 2 == 0 {
                            scissor_of(self.shape_buffer@[k / 2])
                        } else {
                            draw_of(self.shape_buffer@[k / 2])
                        },
                ),
            decreases self.shape_buffer.len() - i,
        {
            let entry: BatchEntry = self.shape_buffer[i];
            let bound: Bound = entry.clip_rect;
            proof {
                lemma_entries_within(self.shape_buffer@, i as int);
            }
            assert(entry.start_index <= entry.end_index <= MAX_INDEX_COUNT);
            commands.push(
                RenderCommand::SetScissorRect { x: bound.0, y: bound.1, width: bound.2, height: bound.3 },
            );
            commands.push(
                RenderCommand::DrawIndexed {
                    first_index: entry.start_index as u32,
                    end_index: entry.end_index as u32,
                    base_vertex: 0,
                    first_instance: 0,
                    end_instance: 1,
                },
            );
            i = i + 1;
        }
        commands
    }
}

/// Whether one call of `prepare` can take a renderer from `before` to
/// `after`.
pub open spec fn follows(before: RendererState, after: RendererState) -> bool {
    exists|settings: FillSettings, shapes: Seq<Shape>, result: Result<FrameUpload, PrepareError>|
        #[trigger] prepared(before, settings, shapes, after, result)
}

/// A new renderer is well formed.
pub proof fn lemma_initial_wf()
    ensures
        RendererState::initial().wf(),
{
    lemma_initial_capacity_is_buffer_size();
}

/// However many frames are prepared one after the other, both capacities
/// stay powers of two and multiples of the copy alignment, and neither is
/// ever smaller in a later frame than in an earlier one.
pub proof fn lemma_capacities_never_shrink(frames: Seq<RendererState>, i: int, j: int)
    requires
        frames.len() > 0,
        frames[0].wf(),
        forall|k: int| 0 <= k < frames.len() - 1 ==> follows(#[trigger] frames[k], frames[k + 1]),
        0 <= i <= j < frames.len(),
    ensures
        is_pow2(frames[j].vertex_capacity as int),
        is_pow2(frames[j].index_capacity as int),
        frames[j].vertex_capacity % COPY_ALIGNMENT == 0,
        frames[j].index_capacity % COPY_ALIGNMENT == 0,
        frames[i].vertex_capacity <= frames[j].vertex_capacity,
        frames[i].index_capacity <= frames[j].index_capacity,
    decreases j,
{
    if j > 0 {
        assert(follows(frames[j - 1], frames[j]));
        if i < j {
            lemma_capacities_never_shrink(frames, i, j - 1);
        }
    }
}

/// The batch entries of a prepared frame stand for its shapes, one for
/// each and in their order, and divide the indices of the frame among
/// them: every index belongs to the entry of one shape and of no other.
pub proof fn lemma_batches_partition_indices(
    before: RendererState,
    settings: FillSettings,
    shapes: Seq<Shape>,
    after: RendererState,
    upload: FrameUpload,
    k: int,
)
    requires
        prepared(before, settings, shapes, after, Ok(upload)),
        0 <= k < after.indices.len(),
    ensures
        after.batches.len() == shapes.len(),
        covers(after.batches, after.indices.len() as int),
        exists|i: int| 0 <= i < shapes.len() && (#[trigger] after.batches[i]).contains(k),
        forall|i: int, j: int|
            0 <= i < shapes.len() && 0 <= j < shapes.len() && (#[trigger] after.batches[i]).contains(
                k,
            ) && (#[trigger] after.batches[j]).contains(k) ==> i == j,
{
    lemma_cover_is_partition(after.batches, after.indices.len() as int, k);
}

/// A renderer that has prepared nothing draws nothing.
pub proof fn lemma_new_renderer_draws_nothing()
    ensures
        RendererState::initial().render_commands() == Seq::<RenderCommand>::empty(),
{
}

/// After a frame without shapes nothing is drawn, and nothing uploaded.
pub proof fn lemma_empty_frame_draws_nothing(
    before: RendererState,
    settings: FillSettings,
    shapes: Seq<Shape>,
    after: RendererState,
    result: Result<FrameUpload, PrepareError>,
)
    requires
        prepared(before, settings, shapes, after, result),
        shapes.len() == 0,
    ensures
        result matches Ok(upload) && upload.vertex is Untouched && upload.index is Untouched,
        after.render_commands() == Seq::<RenderCommand>::empty(),
{
}

/// Preparing the geometry of the frame before once more overwrites both
/// buffers where they are: nothing is reallocated and the capacities stay
/// as the earlier frame left them.
pub proof fn lemma_same_geometry_is_overwritten(
    first: RendererState,
    settings: FillSettings,
    shapes: Seq<Shape>,
    second: RendererState,
    upload: FrameUpload,
    settings_again: FillSettings,
    shapes_again: Seq<Shape>,
    third: RendererState,
    upload_again: FrameUpload,
)
    requires
        prepared(first, settings, shapes, second, Ok(upload)),
        prepared(second, settings_again, shapes_again, third, Ok(upload_again)),
        second.has_geometry(),
        third.vertices == second.vertices,
        third.indices == second.indices,
    ensures
        upload_again.vertex is InPlace,
        upload_again.index is InPlace,
        third.vertex_capacity == second.vertex_capacity,
        third.index_capacity == second.index_capacity,
{
    let words = word_values(vertex_words(third.vertices));
    let indices = index_values(third.indices);
    lemma_memory_image_len(little_endian(words, WORD_SIZE as nat), words, WORD_SIZE as nat);
    lemma_memory_image_len(big_endian(words, WORD_SIZE as nat), words, WORD_SIZE as nat);
    lemma_memory_image_len(little_endian(indices, INDEX_SIZE as nat), indices, INDEX_SIZE as nat);
    lemma_memory_image_len(big_endian(indices, INDEX_SIZE as nat), indices, INDEX_SIZE as nat);
}

/// A buffer that the geometry of a frame has outgrown is never written to:
/// the frame asks for a new buffer of the least size that holds the
/// geometry, and that size is the capacity from then on. A buffer that
/// holds the geometry is written in place.
pub proof fn lemma_outgrown_buffers_are_replaced(
    before: RendererState,
    settings: FillSettings,
    shapes: Seq<Shape>,
    after: RendererState,
    upload: FrameUpload,
)
    requires
        prepared(before, settings, shapes, after, Ok(upload)),
        after.has_geometry(),
    ensures
        after.vertex_bytes() > before.vertex_capacity ==> (upload.vertex matches BufferWrite::Replace {
            size,
            contents,
        } && is_least_buffer_size(size as int, after.vertex_bytes()) && contents@.len()
            == after.vertex_bytes() && after.vertex_capacity == size),
        after.vertex_bytes() <= before.vertex_capacity ==> upload.vertex is InPlace,
        after.index_bytes() > before.index_capacity ==> (upload.index matches BufferWrite::Replace {
            size,
            contents,
        } && is_least_buffer_size(size as int, after.index_bytes()) && contents@.len()
            == after.index_bytes() && after.index_capacity == size),
        after.index_bytes() <= before.index_capacity ==> upload.index is InPlace,
{
    let words = word_values(vertex_words(after.vertices));
    let indices = index_values(after.indices);
    lemma_memory_image_len(little_endian(words, WORD_SIZE as nat), words, WORD_SIZE as nat);
    lemma_memory_image_len(big_endian(words, WORD_SIZE as nat), words, WORD_SIZE as nat);
    lemma_memory_image_len(little_endian(indices, INDEX_SIZE as nat), indices, INDEX_SIZE as nat);
    lemma_memory_image_len(big_endian(indices, INDEX_SIZE as nat), indices, INDEX_SIZE as nat);
}

/// In a frame that is drawn, the commands after the three bindings come
/// in pairs, one pair for each batch entry and in their order: the clip
/// rectangle of the entry, then one draw of exactly its indices.
pub proof fn lemma_draws_follow_batches(state: RendererState, i: int)
    requires
        state.wf(),
        state.has_geometry(),
        0 <= i < state.batches.len(),
    ensures
        state.render_commands().len() == 3 + 2 * state.batches.len(),
        state.render_commands()[3 + 2 * i] == scissor_of(state.batches[i]),
        state.render_commands()[3 + 2 * i + 1] == (RenderCommand::DrawIndexed {
            first_index: state.batches[i].start_index as u32,
            end_index: state.batches[i].end_index as u32,
            base_vertex: 0,
            first_instance: 0,
            end_instance: 1,
        }),
        state.batches[i].start_index as u32 == state.batches[i].start_index,
        state.batches[i].end_index as u32 == state.batches[i].end_index,
        state.batches[i].end_index <= state.indices.len(),
{
    lemma_command_pairs(state, i);
    lemma_entries_within(state.batches, i);
}

/// Where the scissor and the draw of a batch entry stand among the
/// commands of a frame.
proof fn lemma_command_pairs(state: RendererState, i: int)
    requires
        state.has_geometry(),
        0 <= i < state.batches.len(),
    ensures
        state.render_commands().len() == 3 + 2 * state.batches.len(),
        state.render_commands()[3 + 2 * i] == scissor_of(state.batches[i]),
        state.render_commands()[3 + 2 * i + 1] == draw_of(state.batches[i]),
{
    let commands = state.render_commands();
    let pairs = Seq::new(
        2 * state.batches.len(),
        |k: int|
            if k % 2 == 0 {
                scissor_of(state.batches[k / 2])
            } else {
                draw_of(state.batches[k / 2])
            },
    );
    assert((2 * i) % 2 == 0 && (2 * i) / 2 == i);
    assert((2 * i + 1) % 2 == 1 && (2 * i + 1) / 2 == i);
    assert(commands.len() == 3 + pairs.len());
    assert(commands[3 + 2 * i] == pairs[2 * i]);
    assert(commands[3 + 2 * i + 1] == pairs[2 * i + 1]);
}

proof fn lemma_initial_capacity_is_buffer_size()
    ensures
        is_buffer_size(INITIAL_CAPACITY as int),
{
    reveal_with_fuel(is_pow2, 13);
}

} // verus!
