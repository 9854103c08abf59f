//! Paths: the commands that describe the outline of a shape, the builder
//! that a shape writes them to, and the rules a run of commands has to keep
//! before the tessellator is given it.
//!
//! Every coordinate and every attribute is a single-precision IEEE 754
//! number, held as its 32-bit pattern.

use crate::tessellation::GeometryFault;
use vstd::prelude::*;

verus! {

/// Bit pattern of positive infinity; every larger magnitude is not a number.
pub const INFINITY_BITS: u32 = 0x7f80_0000;

/// What is left of a bit pattern once the sign is taken away.
pub const MAGNITUDE_MODULUS: u32 = 0x8000_0000;

/// One step of an outline. A point carries four attributes: red, green,
/// blue and depth.
#[derive(Copy, Clone, Debug, PartialEq, Eq)]
pub enum PathCommand {
    /// Opens a sub-path at `at`.
    Begin { at: [u32; 2], attributes: [u32; 4] },
    /// A straight edge to `to`.
    LineTo { to: [u32; 2], attributes: [u32; 4] },
    /// A quadratic curve to `to`, bent towards `ctrl`.
    QuadraticTo { ctrl: [u32; 2], to: [u32; 2], attributes: [u32; 4] },
    /// A cubic curve to `to`, bent towards `ctrl1` and `ctrl2`.
    CubicTo { ctrl1: [u32; 2], ctrl2: [u32; 2], to: [u32; 2], attributes: [u32; 4] },
    /// Ends the open sub-path, with an edge back to its start if `close`.
    End { close: bool },
}

/// What is wrong with a coordinate, if anything: it has to be a finite
/// number.
pub open spec fn scalar_fault(bits: u32) -> Option<GeometryFault> {
    let magnitude = bits % MAGNITUDE_MODULUS;
    if magnitude > INFINITY_BITS {
        Some(GeometryFault::PositionIsNaN)
    } else if magnitude == INFINITY_BITS {
        Some(GeometryFault::PositionIsInfinite)
    } else {
        None
    }
}

/// The first of two findings.
pub open spec fn first_fault(first: Option<GeometryFault>, second: Option<GeometryFault>) -> Option<
    GeometryFault,
> {
    if first is Some {
        first
    } else {
        second
    }
}

/// What is wrong with a point, if anything: the fault of its x, else that
/// of its y.
pub open spec fn point_fault(point: [u32; 2]) -> Option<GeometryFault> {
    first_fault(scalar_fault(point[0]), scalar_fault(point[1]))
}

/// Whether a sub-path is open after `commands`: there is a last command
/// and it is not an end.
pub open spec fn is_open(commands: Seq<PathCommand>) -> bool {
    commands.len() > 0 && !(commands.last() is End)
}

/// What is wrong with `command` where it comes with a sub-path open, or
/// with none open: a sub-path is begun only while none is open, everything
/// else needs one, and every point is finite.
pub open spec fn command_fault(command: PathCommand, open: bool) -> Option<GeometryFault> {
    match command {
        PathCommand::Begin { at, .. } => if open {
            Some(GeometryFault::MalformedPath)
        } else {
            point_fault(at)
        },
        PathCommand::LineTo { to, .. } => if !open {
            Some(GeometryFault::MalformedPath)
        } else {
            point_fault(to)
        },
        PathCommand::QuadraticTo { ctrl, to, .. } => if !open {
            Some(GeometryFault::MalformedPath)
        } else {
            first_fault(point_fault(ctrl), point_fault(to))
        },
        PathCommand::CubicTo { ctrl1, ctrl2, to, .. } => if !open {
            Some(GeometryFault::MalformedPath)
        } else {
            first_fault(point_fault(ctrl1), first_fault(point_fault(ctrl2), point_fault(to)))
        },
        PathCommand::End { .. } => if !open {
            Some(GeometryFault::MalformedPath)
        } else {
            None
        },
    }
}

/// The fault of the commands from position `from` on, `open` saying
/// whether a sub-path is open there: the fault of the first command that
/// has one, else that of a sub-path left open at the end.
pub open spec fn path_fault_from(commands: Seq<PathCommand>, from: int, open: bool) -> Option<
    GeometryFault,
>
    decreases commands.len() - from,
{
    if from < 0 || from >= commands.len() {
        if open {
            Some(GeometryFault::MalformedPath)
        } else {
            None
        }
    } else if command_fault(commands[from], open) is Some {
        command_fault(commands[from], open)
    } else {
        path_fault_from(commands, from + 1, !(commands[from] is End))
    }
}

/// What is wrong with a path, if anything.
pub open spec fn path_fault(commands: Seq<PathCommand>) -> Option<GeometryFault> {
    path_fault_from(commands, 0, false)
}

/// Whether `commands` holds a curve.
pub open spec fn has_curve(commands: Seq<PathCommand>) -> bool {
    exists|i: int|
        0 <= i < commands.len() && ((#[trigger] commands[i]) is QuadraticTo || commands[i] is CubicTo)
}

/// The faults a path can have are those of its positions and of the order
/// of its commands, and no others.
pub proof fn lemma_path_fault_kinds(commands: Seq<PathCommand>, from: int, open: bool)
    ensures
        path_fault_from(commands, from, open) matches Some(fault) ==> fault
            == GeometryFault::PositionIsNaN || fault == GeometryFault::PositionIsInfinite || fault
            == GeometryFault::MalformedPath,
    decreases commands.len() - from,
{
    if 0 <= from < commands.len() && command_fault(commands[from], open) is None {
        lemma_path_fault_kinds(commands, from + 1, !(commands[from] is End));
    }
}

/// Whether `commands` holds a curve.
pub fn holds_curve(commands: &[PathCommand]) -> (b: bool)
    ensures
        b == has_curve(commands@),
{
    let mut i: usize = 0;
    while i < commands.len()
        invariant
            i <= commands.len(),
            forall|j: int|
                0 <= j < i ==> !((#[trigger] commands@[j]) is QuadraticTo || commands@[j] is CubicTo),
        decreases commands.len() - i,
    {
        match commands[i] {
            PathCommand::QuadraticTo { .. } => {
                return true;
            },
            PathCommand::CubicTo { .. } => {
                return true;
            },
            _ => {},
        }
        i = i + 1;
    }
    false
}

/// What is wrong with a coordinate, if anything.
pub fn check_scalar(bits: u32) -> (fault: Option<GeometryFault>)
    ensures
        fault == scalar_fault(bits),
{
    let magnitude: u32 = bits % MAGNITUDE_MODULUS;
    if magnitude > INFINITY_BITS {
        Some(GeometryFault::PositionIsNaN)
    } else if magnitude == INFINITY_BITS {
        Some(GeometryFault::PositionIsInfinite)
    } else {
        None
    }
}

/// What is wrong with a point, if anything.
pub fn check_point(point: &[u32; 2]) -> (fault: Option<GeometryFault>)
    ensures
        fault == point_fault(*point),
{
    match check_scalar(point[0]) {
        Some(fault) => Some(fault),
        None => check_scalar(point[1]),
    }
}

/// What is wrong with `command`, if anything, where it comes with a
/// sub-path open, or with none open.
pub fn check_command(command: &PathCommand, open: bool) -> (fault: Option<GeometryFault>)
    ensures
        fault == command_fault(*command, open),
{
    match command {
        PathCommand::Begin { at, .. } => {
            if open {
                Some(GeometryFault::MalformedPath)
            } else {
                check_point(at)
            }
        },
        PathCommand::LineTo { to, .. } => {
            if !open {
                Some(GeometryFault::MalformedPath)
            } else {
                check_point(to)
            }
        },
        PathCommand::QuadraticTo { ctrl, to, .. } => {
            if !open {
                Some(GeometryFault::MalformedPath)
            } else {
                match check_point(ctrl) {
                    Some(fault) => Some(fault),
                    None => check_point(to),
                }
            }
        },
        PathCommand::CubicTo { ctrl1, ctrl2, to, .. } => {
            if !open {
                Some(GeometryFault::MalformedPath)
            } else {
                match check_point(ctrl1) {
                    Some(fault) => Some(fault),
                    None => match check_point(ctrl2) {
                        Some(fault) => Some(fault),
                        None => check_point(to),
                    },
                }
            }
        },
        PathCommand::End { .. } => {
            if !open {
                Some(GeometryFault::MalformedPath)
            } else {
                None
            }
        },
    }
}

/// What is wrong with a path, if anything.
pub fn check_path(commands: &[PathCommand]) -> (fault: Option<GeometryFault>)
    ensures
        fault == path_fault(commands@),
{
    let mut open: bool = false;
    let mut i: usize = 0;
    while i < commands.len()
        invariant
            i <= commands.len(),
            path_fault(commands@) == path_fault_from(commands@, i as int, open),
        decreases commands.len() - i,
    {
        match check_command(&commands[i], open) {
            Some(fault) => {
                return Some(fault);
            },
            None => {},
        }
        open =
        match commands[i] {
            PathCommand::End { .. } => false,
            _ => true,
        };
        i = i + 1;
    }
    if open {
        Some(GeometryFault::MalformedPath)
    } else {
        None
    }
}

/// What a shape writes its outline to. The builder takes every command
/// down as it comes; whether the commands make a path is found out by
/// [`check_path`] once the shape is done.
pub struct PathBuilder {
    commands: Vec<PathCommand>,
}

impl View for PathBuilder {
    type V = Seq<PathCommand>;

    closed spec fn view(&self) -> Seq<PathCommand> {
        self.commands@
    }
}

impl PathBuilder {
    /// A builder that holds no command.
    pub fn new() -> (builder: PathBuilder)
        ensures
            builder@ == Seq::<PathCommand>::empty(),
    {
        PathBuilder { commands: Vec::new() }
    }

    /// Opens a sub-path at `at`.
    pub fn begin(&mut self, at: [u32; 2], attributes: [u32; 4])
        ensures
            final(self)@ == old(self)@.push(PathCommand::Begin { at, attributes }),
    {
        self.commands.push(PathCommand::Begin { at, attributes });
    }

    /// Adds a straight edge to `to`.
    pub fn line_to(&mut self, to: [u32; 2], attributes: [u32; 4])
        ensures
            final(self)@ == old(self)@.push(PathCommand::LineTo { to, attributes }),
    {
        self.commands.push(PathCommand::LineTo { to, attributes });
    }

    /// Adds a quadratic curve to `to`, bent towards `ctrl`.
    pub fn quadratic_bezier_to(&mut self, ctrl: [u32; 2], to: [u32; 2], attributes: [u32; 4])
        ensures
            final(self)@ == old(self)@.push(PathCommand::QuadraticTo { ctrl, to, attributes }),
    {
        self.commands.push(PathCommand::QuadraticTo { ctrl, to, attributes });
    }

    /// Adds a cubic curve to `to`, bent towards `ctrl1` and `ctrl2`.
    pub fn cubic_bezier_to(
        &mut self,
        ctrl1: [u32; 2],
        ctrl2: [u32; 2],
        to: [u32; 2],
        attributes: [u32; 4],
    )
        ensures
            final(self)@ == old(self)@.push(PathCommand::CubicTo { ctrl1, ctrl2, to, attributes }),
    {
        self.commands.push(PathCommand::CubicTo { ctrl1, ctrl2, to, attributes });
    }

    /// Ends the open sub-path, with an edge back to its start if `close`.
    pub fn end(&mut self, close: bool)
        ensures
            final(self)@ == old(self)@.push(PathCommand::End { close }),
    {
        self.commands.push(PathCommand::End { close });
    }

    /// The commands taken down so far.
    pub fn commands(&self) -> (commands: &Vec<PathCommand>)
        ensures
            commands@ == self@,
    {
        &self.commands
    }
}

} // verus!
