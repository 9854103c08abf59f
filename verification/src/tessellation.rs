//! The link to the fill tessellator: what a shape is, how its path is
//! handed over and turned into triangles in the shared geometry buffers,
//! and how refusals are reported.

use crate::batch::MAX_INDEX_COUNT;
use crate::path::{
    check_path, command_fault, has_curve, holds_curve, is_open, lemma_path_fault_kinds, path_fault,
    path_fault_from, point_fault, PathBuilder, PathCommand,
};
use crate::vertex::{Vertex, VertexConstructor, ATTRIBUTE_COUNT};
use lyon_tessellation::math::point;
use lyon_tessellation::path::path::BuilderWithAttributes;
use lyon_tessellation::path::Path;
use lyon_tessellation::{
    BuffersBuilder, FillOptions, FillRule, FillTessellator, FillVertex, GeometryBuilderError,
    InternalError, Orientation, TessellationError, UnsupportedParamater, VertexBuffers,
};
use vstd::prelude::*;

verus! {

/// A clip rectangle in device pixels: x, y, width, height.
pub type Bound = (u32, u32, u32, u32);

/// Most vertices the geometry buffers can hold: every one of them has to be
/// reachable through a 16-bit index.
pub const MAX_VERTEX_COUNT: usize = 65536;

/// Bit pattern of the tolerance a fill has unless told otherwise, one
/// tenth.
pub const DEFAULT_TOLERANCE: u32 = 0x3dcc_cccd;

/// Bit pattern of the finest tolerance to which the tessellator flattens a
/// curve, about a hundred-millionth.
pub const MIN_CURVE_TOLERANCE: u32 = 0x322b_cc76;

#[verifier::external_type_specification]
#[verifier::external_body]
pub struct ExFillTessellator(FillTessellator);

#[verifier::external_type_specification]
#[verifier::external_body]
pub struct ExBuilderWithAttributes(BuilderWithAttributes);

#[verifier::external_type_specification]
#[verifier::external_body]
pub struct ExPath(Path);

#[verifier::external_type_specification]
pub struct ExFillRule(FillRule);

#[verifier::external_type_specification]
pub struct ExOrientation(Orientation);

#[verifier::external_type_specification]
#[verifier::reject_recursive_types(OutputVertex)]
#[verifier::reject_recursive_types(OutputIndex)]
pub struct ExVertexBuffers<OutputVertex, OutputIndex>(VertexBuffers<OutputVertex, OutputIndex>);

#[verifier::external_type_specification]
pub struct ExTessellationError(TessellationError);

#[verifier::external_type_specification]
pub struct ExUnsupportedParamater(UnsupportedParamater);

#[verifier::external_type_specification]
pub struct ExGeometryBuilderError(GeometryBuilderError);

#[verifier::external_type_specification]
pub struct ExInternalError(InternalError);

/// The commands a path builder of lyon has been given, in their order.
pub uninterp spec fn builder_commands(builder: BuilderWithAttributes) -> Seq<PathCommand>;

/// The number of attributes a path builder of lyon takes with each point.
pub uninterp spec fn builder_attribute_count(builder: BuilderWithAttributes) -> nat;

/// The commands a path of lyon is made of, in their order.
pub uninterp spec fn path_commands(path: Path) -> Seq<PathCommand>;

/// The number of attributes each point of a path of lyon carries.
pub uninterp spec fn path_attribute_count(path: Path) -> nat;

/// `FillTessellator::new` makes a tessellator that is ready to run. Nothing
/// is stated of it: every run starts from a tessellator that has been reset.
pub assume_specification[ FillTessellator::new ]() -> (tessellator: FillTessellator)
;

/// `VertexBuffers::new` makes a pair of empty buffers.
pub assume_specification<OutputVertex, OutputIndex>[ VertexBuffers::<
    OutputVertex,
    OutputIndex,
>::new ]() -> (buffers: VertexBuffers<OutputVertex, OutputIndex>)
    ensures
        buffers.vertices@ == Seq::<OutputVertex>::empty(),
        buffers.indices@ == Seq::<OutputIndex>::empty(),
;

/// `VertexBuffers::clear` empties both buffers.
pub assume_specification<OutputVertex, OutputIndex>[ VertexBuffers::<
    OutputVertex,
    OutputIndex,
>::clear ](buffers: &mut VertexBuffers<OutputVertex, OutputIndex>)
    ensures
        final(buffers).vertices@ == Seq::<OutputVertex>::empty(),
        final(buffers).indices@ == Seq::<OutputIndex>::empty(),
;

/// `Path::builder_with_attributes` makes an empty path builder that takes
/// `num_attributes` attributes with each point.
pub assume_specification[ Path::builder_with_attributes ](num_attributes: usize) -> (builder:
    BuilderWithAttributes)
    ensures
        builder_commands(builder) == Seq::<PathCommand>::empty(),
        builder_attribute_count(builder) == num_attributes,
;

/// `BuilderWithAttributes::end` ends the open sub-path. With its debug
/// assertions the builder stops the program where no sub-path is open.
pub assume_specification[ BuilderWithAttributes::end ](
    builder: &mut BuilderWithAttributes,
    close: bool,
)
    requires
        is_open(builder_commands(*old(builder))),
    ensures
        builder_commands(*final(builder)) == builder_commands(*old(builder)).push(
            PathCommand::End { close },
        ),
        builder_attribute_count(*final(builder)) == builder_attribute_count(*old(builder)),
;

/// `BuilderWithAttributes::build` hands out the path that the builder was
/// given. With its debug assertions the builder stops the program where a
/// sub-path is still open.
pub assume_specification[ BuilderWithAttributes::build ](builder: BuilderWithAttributes) -> (path:
    Path)
    requires
        !is_open(builder_commands(builder)),
    ensures
        path_commands(path) == builder_commands(builder),
        path_attribute_count(path) == builder_attribute_count(builder),
;

/// Opens a sub-path through `BuilderWithAttributes::begin`. The builder
/// stops the program where it is handed another number of attributes than
/// it was made for and, with its debug assertions, where a sub-path is
/// open already or a coordinate is not finite.
#[verifier::external_body]
fn path_begin(builder: &mut BuilderWithAttributes, at: [u32; 2], attributes: [u32; 4])
    requires
        !is_open(builder_commands(*old(builder))),
        builder_attribute_count(*old(builder)) == 4,
        point_fault(at) is None,
    ensures
        builder_commands(*final(builder)) == builder_commands(*old(builder)).push(
            PathCommand::Begin { at, attributes },
        ),
        builder_attribute_count(*final(builder)) == builder_attribute_count(*old(builder)),
{
    builder.begin(point(bytemuck::cast(at[0]), bytemuck::cast(at[1])), &bytemuck::cast::<[u32; 4], [_; 4]>(attributes));
}

/// Adds a straight edge through `BuilderWithAttributes::line_to`. The
/// builder stops the program where it is handed another number of
/// attributes than it was made for and, with its debug assertions, where no
/// sub-path is open or a coordinate is not finite.
#[verifier::external_body]
fn path_line_to(builder: &mut BuilderWithAttributes, to: [u32; 2], attributes: [u32; 4])
    requires
        is_open(builder_commands(*old(builder))),
        builder_attribute_count(*old(builder)) == 4,
        point_fault(to) is None,
    ensures
        builder_commands(*final(builder)) == builder_commands(*old(builder)).push(
            PathCommand::LineTo { to, attributes },
        ),
        builder_attribute_count(*final(builder)) == builder_attribute_count(*old(builder)),
{
    builder.line_to(point(bytemuck::cast(to[0]), bytemuck::cast(to[1])), &bytemuck::cast::<[u32; 4], [_; 4]>(attributes));
}

/// Adds a quadratic curve through `BuilderWithAttributes::quadratic_bezier_to`,
/// under the same conditions as an edge.
#[verifier::external_body]
fn path_quadratic_to(
    builder: &mut BuilderWithAttributes,
    ctrl: [u32; 2],
    to: [u32; 2],
    attributes: [u32; 4],
)
    requires
        is_open(builder_commands(*old(builder))),
        builder_attribute_count(*old(builder)) == 4,
        point_fault(ctrl) is None,
        point_fault(to) is None,
    ensures
        builder_commands(*final(builder)) == builder_commands(*old(builder)).push(
            PathCommand::QuadraticTo { ctrl, to, attributes },
        ),
        builder_attribute_count(*final(builder)) == builder_attribute_count(*old(builder)),
{
    builder.quadratic_bezier_to(
        point(bytemuck::cast(ctrl[0]), bytemuck::cast(ctrl[1])),
        point(bytemuck::cast(to[0]), bytemuck::cast(to[1])),
        &bytemuck::cast::<[u32; 4], [_; 4]>(attributes),
    );
}

/// Adds a cubic curve through `BuilderWithAttributes::cubic_bezier_to`,
/// under the same conditions as an edge.
#[verifier::external_body]
fn path_cubic_to(
    builder: &mut BuilderWithAttributes,
    ctrl1: [u32; 2],
    ctrl2: [u32; 2],
    to: [u32; 2],
    attributes: [u32; 4],
)
    requires
        is_open(builder_commands(*old(builder))),
        builder_attribute_count(*old(builder)) == 4,
        point_fault(ctrl1) is None,
        point_fault(ctrl2) is None,
        point_fault(to) is None,
    ensures
        builder_commands(*final(builder)) == builder_commands(*old(builder)).push(
            PathCommand::CubicTo { ctrl1, ctrl2, to, attributes },
        ),
        builder_attribute_count(*final(builder)) == builder_attribute_count(*old(builder)),
{
    builder.cubic_bezier_to(
        point(bytemuck::cast(ctrl1[0]), bytemuck::cast(ctrl1[1])),
        point(bytemuck::cast(ctrl2[0]), bytemuck::cast(ctrl2[1])),
        point(bytemuck::cast(to[0]), bytemuck::cast(to[1])),
        &bytemuck::cast::<[u32; 4], [_; 4]>(attributes),
    );
}

/// How a fill is tessellated. Crossing edges are always dealt with.
#[derive(Copy, Clone, Debug, PartialEq)]
pub struct FillSettings {
    /// Bit pattern of the largest distance, a single-precision number, that
    /// the triangles may stray from a curve.
    pub tolerance: u32,
    /// Which parts of a path that crosses itself count as inside.
    pub fill_rule: FillRule,
    /// The direction in which the tessellator sweeps over the path.
    pub sweep_orientation: Orientation,
}

impl FillSettings {
    /// Whether `bits` is a tolerance the tessellator can work with: a
    /// positive, finite number.
    pub open spec fn is_tolerance(bits: u32) -> bool {
        0 < bits < 0x7f80_0000
    }

    /// The settings of a fill that is told nothing else.
    pub fn new() -> (settings: FillSettings)
        ensures
            settings.tolerance == DEFAULT_TOLERANCE,
            settings.fill_rule == FillRule::EvenOdd,
            settings.sweep_orientation == Orientation::Vertical,
            FillSettings::is_tolerance(settings.tolerance),
    {
        FillSettings {
            tolerance: DEFAULT_TOLERANCE,
            fill_rule: FillRule::EvenOdd,
            sweep_orientation: Orientation::Vertical,
        }
    }

    /// Whether the tolerance is one the tessellator can work with.
    pub fn has_tolerance(&self) -> (b: bool)
        ensures
            b == FillSettings::is_tolerance(self.tolerance),
    {
        0 < self.tolerance && self.tolerance < 0x7f80_0000
    }
}

/// Something that can describe its outline.
pub trait GeometrySource {
    /// Writes the path, or paths, of the shape to `builder`.
    fn emit(&self, builder: &mut PathBuilder);
}

/// One shape of a frame: its outline and the rectangle it is clipped to.
pub struct Shape {
    pub constructor: Box<dyn GeometrySource>,
    pub bound: Bound,
}

/// Why a shape was refused.
#[derive(Copy, Clone, Debug, PartialEq, Eq)]
pub enum GeometryFault {
    /// A point of the path has a coordinate that is not a number.
    PositionIsNaN,
    /// A point of the path has an infinite coordinate.
    PositionIsInfinite,
    /// The commands of the path are out of order: a sub-path is begun
    /// inside another, something comes before a sub-path is begun, or a
    /// sub-path is never ended.
    MalformedPath,
    /// The tolerance of the fill is not a positive, finite number.
    ToleranceIsNaN,
    /// The path holds a curve, and the tolerance of the fill is finer than
    /// [`MIN_CURVE_TOLERANCE`].
    ToleranceTooSmall,
    /// The geometry buffers were handed a vertex they cannot take.
    InvalidVertex,
    /// The shape needs a vertex beyond the reach of a 16-bit index.
    TooManyVertices,
    /// The tessellator gave up on the path.
    Internal,
}

impl GeometryFault {
    /// The fault that stands for a tessellator error.
    pub open spec fn of(error: TessellationError) -> GeometryFault {
        match error {
            TessellationError::UnsupportedParamater(UnsupportedParamater::PositionIsNaN) => {
                GeometryFault::PositionIsNaN
            },
            TessellationError::UnsupportedParamater(UnsupportedParamater::ToleranceIsNaN) => {
                GeometryFault::ToleranceIsNaN
            },
            TessellationError::GeometryBuilder(GeometryBuilderError::InvalidVertex) => {
                GeometryFault::InvalidVertex
            },
            TessellationError::GeometryBuilder(GeometryBuilderError::TooManyVertices) => {
                GeometryFault::TooManyVertices
            },
            TessellationError::Internal(_) => GeometryFault::Internal,
        }
    }

    /// Names the fault behind a tessellator error.
    pub fn from_error(error: &TessellationError) -> (fault: GeometryFault)
        ensures
            fault == GeometryFault::of(*error),
    {
        match error {
            TessellationError::UnsupportedParamater(UnsupportedParamater::PositionIsNaN) => {
                GeometryFault::PositionIsNaN
            },
            TessellationError::UnsupportedParamater(UnsupportedParamater::ToleranceIsNaN) => {
                GeometryFault::ToleranceIsNaN
            },
            TessellationError::GeometryBuilder(GeometryBuilderError::InvalidVertex) => {
                GeometryFault::InvalidVertex
            },
            TessellationError::GeometryBuilder(GeometryBuilderError::TooManyVertices) => {
                GeometryFault::TooManyVertices
            },
            TessellationError::Internal(_) => GeometryFault::Internal,
        }
    }
}

/// Hands a path that keeps the rules to lyon, command by command.
pub fn build_path(commands: &[PathCommand]) -> (path: Path)
    requires
        path_fault(commands@) is None,
    ensures
        path_commands(path) == commands@,
        path_attribute_count(path) == ATTRIBUTE_COUNT,
{
    let mut builder: BuilderWithAttributes = Path::builder_with_attributes(ATTRIBUTE_COUNT);
    let mut i: usize = 0;
    while i < commands.len()
        invariant
            i <= commands.len(),
            builder_commands(builder) == commands@.take(i as int),
            builder_attribute_count(builder) == ATTRIBUTE_COUNT,
            path_fault_from(commands@, i as int, is_open(commands@.take(i as int))) is None,
        decreases commands.len() - i,
    {
        let ghost open = is_open(commands@.take(i as int));
        assert(command_fault(commands@[i as int], open) is None);
        match commands[i] {
            PathCommand::Begin { at, attributes } => path_begin(&mut builder, at, attributes),
            PathCommand::LineTo { to, attributes } => path_line_to(&mut builder, to, attributes),
            PathCommand::QuadraticTo { ctrl, to, attributes } => path_quadratic_to(
                &mut builder,
                ctrl,
                to,
                attributes,
            ),
            PathCommand::CubicTo { ctrl1, ctrl2, to, attributes } => path_cubic_to(
                &mut builder,
                ctrl1,
                ctrl2,
                to,
                attributes,
            ),
            PathCommand::End { close } => builder.end(close),
        }
        proof {
            assert(commands@.take(i + 1) == commands@.take(i as int).push(commands@[i as int]));
        }
        i = i + 1;
    }
    assert(commands@.take(i as int) == commands@);
    builder.build()
}

/// Tessellates the fill of `path` into `buffers`, through lyon's
/// `FillTessellator::tessellate_with_ids`, with a `BuffersBuilder` over
/// `buffers` as the output and fill options made from `settings` that leave
/// the handling of crossing edges switched on.
///
/// What the tessellator produces depends on floating-point arithmetic, so
/// the contract states only what the `BuffersBuilder` guarantees of every
/// run: geometry is appended behind what is already there; a run that fails
/// takes back everything it appended; and no vertex is stored that a 16-bit
/// index could not reach. The tessellator complains of the tolerance only
/// where it is no positive number, which is ruled out here. Each vertex is
/// built by [`VertexConstructor::new_vertex`] from the attributes of the
/// path.
///
/// With its debug assertions the tessellator stops the program where it is
/// to flatten a curve to a tolerance finer than [`MIN_CURVE_TOLERANCE`].
#[verifier::external_body]
pub(crate) fn tessellate_path(
    tessellator: &mut FillTessellator,
    buffers: &mut VertexBuffers<Vertex, u16>,
    path: &Path,
    settings: &FillSettings,
) -> (outcome: Result<(), TessellationError>)
    requires
        path_fault(path_commands(*path)) is None,
        path_attribute_count(*path) == ATTRIBUTE_COUNT,
        FillSettings::is_tolerance(settings.tolerance),
        has_curve(path_commands(*path)) ==> settings.tolerance >= MIN_CURVE_TOLERANCE,
        old(buffers).vertices@.len() <= MAX_VERTEX_COUNT,
        old(buffers).indices@.len() <= MAX_INDEX_COUNT,
    ensures
        outcome is Ok ==> old(buffers).vertices@.is_prefix_of(final(buffers).vertices@),
        outcome is Ok ==> old(buffers).indices@.is_prefix_of(final(buffers).indices@),
        outcome is Err ==> final(buffers).vertices@ == old(buffers).vertices@,
        outcome is Err ==> final(buffers).indices@ == old(buffers).indices@,
        final(buffers).vertices@.len() <= MAX_VERTEX_COUNT,
        outcome matches Err(error) ==> GeometryFault::of(error) != GeometryFault::ToleranceIsNaN,
{
    let options = FillOptions::tolerance(bytemuck::cast(settings.tolerance))
        .with_fill_rule(settings.fill_rule)
        .with_sweep_orientation(settings.sweep_orientation);
    let mut output = BuffersBuilder::new(buffers, |mut vertex: FillVertex| {
        let attributes: Vec<u32> =
            vertex.interpolated_attributes().iter().map(|a| a.to_bits()).collect();
        VertexConstructor.new_vertex(vertex.position().to_array().map(|c| c.to_bits()), &attributes)
    });
    tessellator.tessellate_with_ids(path.id_iter(), path, Some(path), &options, &mut output)
}

/// What is wrong with a shape before the tessellator is asked, if
/// anything: the fault of its path, else a tolerance too fine for its
/// curves.
pub open spec fn shape_fault(commands: Seq<PathCommand>, settings: FillSettings) -> Option<
    GeometryFault,
> {
    if path_fault(commands) is Some {
        path_fault(commands)
    } else if has_curve(commands) && settings.tolerance < MIN_CURVE_TOLERANCE {
        Some(GeometryFault::ToleranceTooSmall)
    } else {
        None
    }
}

/// Tessellates the fill of the path that `commands` describe into
/// `buffers`. A shape with a fault of its own is refused with that fault
/// before the tessellator sees it; the tessellator may refuse any other,
/// and only then is the error one of the tessellator's. Geometry is
/// appended behind what is already there, and a refusal leaves the buffers
/// as they were.
pub fn tessellate_commands(
    tessellator: &mut FillTessellator,
    buffers: &mut VertexBuffers<Vertex, u16>,
    commands: &[PathCommand],
    settings: &FillSettings,
) -> (outcome: Result<(), GeometryFault>)
    requires
        FillSettings::is_tolerance(settings.tolerance),
        old(buffers).vertices@.len() <= MAX_VERTEX_COUNT,
        old(buffers).indices@.len() <= MAX_INDEX_COUNT,
    ensures
        shape_fault(commands@, *settings) matches Some(fault) ==> outcome == Err::<
            (),
            GeometryFault,
        >(fault),
        outcome matches Err(fault) ==> shape_fault(commands@, *settings) == Some(fault) || (
        shape_fault(commands@, *settings) is None && exists|error: TessellationError|
            fault == #[trigger] GeometryFault::of(error)),
        outcome != Err::<(), GeometryFault>(GeometryFault::ToleranceIsNaN),
        outcome is Ok ==> old(buffers).vertices@.is_prefix_of(final(buffers).vertices@),
        outcome is Ok ==> old(buffers).indices@.is_prefix_of(final(buffers).indices@),
        outcome is Err ==> final(buffers).vertices@ == old(buffers).vertices@,
        outcome is Err ==> final(buffers).indices@ == old(buffers).indices@,
        final(buffers).vertices@.len() <= MAX_VERTEX_COUNT,
{
    proof {
        lemma_path_fault_kinds(commands@, 0, false);
    }
    match check_path(commands) {
        Some(fault) => Err(fault),
        None => {
            if settings.tolerance < MIN_CURVE_TOLERANCE && holds_curve(commands) {
                return Err(GeometryFault::ToleranceTooSmall);
            }
            let path: Path = build_path(commands);
            match tessellate_path(tessellator, buffers, &path, settings) {
                Ok(()) => Ok(()),
                Err(error) => {
                    let fault: GeometryFault = GeometryFault::from_error(&error);
                    assert(fault == GeometryFault::of(error));
                    Err(fault)
                },
            }
        },
    }
}

/// Tessellates the fill of `shape` into `buffers`: lets the shape write its
/// path and hands the commands to [`tessellate_commands`].
pub fn tessellate_shape(
    tessellator: &mut FillTessellator,
    buffers: &mut VertexBuffers<Vertex, u16>,
    shape: &Shape,
    settings: &FillSettings,
) -> (outcome: Result<(), GeometryFault>)
    requires
        FillSettings::is_tolerance(settings.tolerance),
        old(buffers).vertices@.len() <= MAX_VERTEX_COUNT,
        old(buffers).indices@.len() <= MAX_INDEX_COUNT,
    ensures
        outcome != Err::<(), GeometryFault>(GeometryFault::ToleranceIsNaN),
        outcome is Ok ==> old(buffers).vertices@.is_prefix_of(final(buffers).vertices@),
        outcome is Ok ==> old(buffers).indices@.is_prefix_of(final(buffers).indices@),
        outcome is Err ==> final(buffers).vertices@ == old(buffers).vertices@,
        outcome is Err ==> final(buffers).indices@ == old(buffers).indices@,
        final(buffers).vertices@.len() <= MAX_VERTEX_COUNT,
{
    let mut builder: PathBuilder = PathBuilder::new();
    shape.constructor.emit(&mut builder);
    tessellate_commands(tessellator, buffers, builder.commands().as_slice(), settings)
}

} // verus!
