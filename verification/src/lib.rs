//! Tessellates 2D vector shapes into one shared triangle mesh and plans how
//! that mesh reaches the GPU: which bytes go to the vertex and index
//! buffers, when a buffer has to give way to a larger one, and which clipped
//! draws show the shapes.

pub mod batch;
pub mod buffer;
pub mod bytes;
pub mod path;
pub mod renderer;
pub mod tessellation;
pub mod vertex;

pub use batch::{BatchEntry, PrepareError};
pub use buffer::BufferWrite;
pub use renderer::{FrameUpload, LyonRenderer, RenderCommand};
pub use path::{PathBuilder, PathCommand};
pub use tessellation::{Bound, FillSettings, GeometryFault, GeometrySource, Shape};
pub use vertex::{Vertex, VertexConstructor};
