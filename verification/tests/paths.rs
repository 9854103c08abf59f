use lyon_renderer::path::{check_command, check_path, check_point, check_scalar, holds_curve};
use lyon_renderer::tessellation::{build_path, tessellate_commands, MIN_CURVE_TOLERANCE};
use lyon_renderer::{FillSettings, GeometryFault, PathBuilder, PathCommand, Vertex};
use lyon_tessellation::path::{AttributeStore, Event};
use lyon_tessellation::{FillTessellator, VertexBuffers};

const WHITE: [u32; 4] = [0x3f80_0000; 4];

fn p(x: f32, y: f32) -> [u32; 2] {
    [x.to_bits(), y.to_bits()]
}

fn square() -> Vec<PathCommand> {
    vec![
        PathCommand::Begin { at: p(0.0, 0.0), attributes: WHITE },
        PathCommand::LineTo { to: p(4.0, 0.0), attributes: WHITE },
        PathCommand::LineTo { to: p(4.0, 4.0), attributes: WHITE },
        PathCommand::LineTo { to: p(0.0, 4.0), attributes: WHITE },
        PathCommand::End { close: true },
    ]
}

#[test]
fn finite_numbers_are_coordinates() {
    for value in [0.0f32, -0.0, 1.5, -1.5, f32::MAX, f32::MIN, f32::MIN_POSITIVE, 1e-45] {
        assert_eq!(check_scalar(value.to_bits()), None);
    }
}

#[test]
fn what_is_not_a_number_is_no_coordinate() {
    assert_eq!(check_scalar(f32::NAN.to_bits()), Some(GeometryFault::PositionIsNaN));
    assert_eq!(check_scalar((-f32::NAN).to_bits()), Some(GeometryFault::PositionIsNaN));
    assert_eq!(check_scalar(0x7f80_0001), Some(GeometryFault::PositionIsNaN));
    assert_eq!(check_scalar(0xffff_ffff), Some(GeometryFault::PositionIsNaN));
}

#[test]
fn infinity_is_no_coordinate() {
    assert_eq!(check_scalar(f32::INFINITY.to_bits()), Some(GeometryFault::PositionIsInfinite));
    assert_eq!(check_scalar(f32::NEG_INFINITY.to_bits()), Some(GeometryFault::PositionIsInfinite));
    assert_eq!(check_scalar(0x7f7f_ffff), None);
}

#[test]
fn the_fault_of_a_point_is_that_of_its_first_bad_coordinate() {
    assert_eq!(check_point(&p(1.0, 2.0)), None);
    assert_eq!(check_point(&p(f32::NAN, 2.0)), Some(GeometryFault::PositionIsNaN));
    assert_eq!(check_point(&p(1.0, f32::INFINITY)), Some(GeometryFault::PositionIsInfinite));
    assert_eq!(check_point(&p(f32::INFINITY, f32::NAN)), Some(GeometryFault::PositionIsInfinite));
    assert_eq!(check_point(&p(f32::NAN, f32::INFINITY)), Some(GeometryFault::PositionIsNaN));
}

#[test]
fn a_sub_path_is_begun_only_while_none_is_open() {
    let begin = PathCommand::Begin { at: p(0.0, 0.0), attributes: WHITE };
    assert_eq!(check_command(&begin, false), None);
    assert_eq!(check_command(&begin, true), Some(GeometryFault::MalformedPath));
}

#[test]
fn edges_and_ends_need_an_open_sub_path() {
    let rest = [
        PathCommand::LineTo { to: p(1.0, 1.0), attributes: WHITE },
        PathCommand::QuadraticTo { ctrl: p(1.0, 0.0), to: p(1.0, 1.0), attributes: WHITE },
        PathCommand::CubicTo {
            ctrl1: p(1.0, 0.0),
            ctrl2: p(2.0, 0.0),
            to: p(1.0, 1.0),
            attributes: WHITE,
        },
        PathCommand::End { close: false },
    ];
    for command in rest {
        assert_eq!(check_command(&command, true), None);
        assert_eq!(check_command(&command, false), Some(GeometryFault::MalformedPath));
    }
}

#[test]
fn the_order_is_looked_at_before_the_points() {
    let begin = PathCommand::Begin { at: p(f32::NAN, 0.0), attributes: WHITE };
    assert_eq!(check_command(&begin, true), Some(GeometryFault::MalformedPath));
    assert_eq!(check_command(&begin, false), Some(GeometryFault::PositionIsNaN));
}

#[test]
fn control_points_are_looked_at_too() {
    let quadratic =
        PathCommand::QuadraticTo { ctrl: p(f32::INFINITY, 0.0), to: p(1.0, 1.0), attributes: WHITE };
    assert_eq!(check_command(&quadratic, true), Some(GeometryFault::PositionIsInfinite));
    let cubic = PathCommand::CubicTo {
        ctrl1: p(0.0, 0.0),
        ctrl2: p(0.0, f32::NAN),
        to: p(f32::INFINITY, 1.0),
        attributes: WHITE,
    };
    assert_eq!(check_command(&cubic, true), Some(GeometryFault::PositionIsNaN));
}

#[test]
fn paths_that_keep_the_rules() {
    assert_eq!(check_path(&[]), None);
    assert_eq!(check_path(&square()), None);
    let mut twice = square();
    twice.extend(square());
    assert_eq!(check_path(&twice), None);
    assert_eq!(
        check_path(&[
            PathCommand::Begin { at: p(0.0, 0.0), attributes: WHITE },
            PathCommand::End { close: false },
        ]),
        None
    );
}

#[test]
fn a_sub_path_left_open_is_a_fault() {
    let mut open = square();
    open.pop();
    assert_eq!(check_path(&open), Some(GeometryFault::MalformedPath));
    assert_eq!(
        check_path(&[PathCommand::Begin { at: p(0.0, 0.0), attributes: WHITE }]),
        Some(GeometryFault::MalformedPath)
    );
}

#[test]
fn the_first_fault_of_a_path_is_reported() {
    let mut path = square();
    path[2] = PathCommand::LineTo { to: p(f32::INFINITY, 4.0), attributes: WHITE };
    path.push(PathCommand::End { close: true });
    assert_eq!(check_path(&path), Some(GeometryFault::PositionIsInfinite));

    let mut path = square();
    path.insert(0, PathCommand::End { close: true });
    path[3] = PathCommand::LineTo { to: p(f32::NAN, 4.0), attributes: WHITE };
    assert_eq!(check_path(&path), Some(GeometryFault::MalformedPath));
}

#[test]
fn the_builder_takes_down_what_it_is_told() {
    let mut builder = PathBuilder::new();
    assert!(builder.commands().is_empty());
    builder.begin(p(0.0, 0.0), WHITE);
    builder.line_to(p(1.0, 0.0), WHITE);
    builder.quadratic_bezier_to(p(2.0, 0.0), p(2.0, 1.0), WHITE);
    builder.cubic_bezier_to(p(2.0, 2.0), p(1.0, 2.0), p(0.0, 2.0), WHITE);
    builder.end(false);
    builder.end(true);
    assert_eq!(
        builder.commands(),
        &vec![
            PathCommand::Begin { at: p(0.0, 0.0), attributes: WHITE },
            PathCommand::LineTo { to: p(1.0, 0.0), attributes: WHITE },
            PathCommand::QuadraticTo { ctrl: p(2.0, 0.0), to: p(2.0, 1.0), attributes: WHITE },
            PathCommand::CubicTo {
                ctrl1: p(2.0, 2.0),
                ctrl2: p(1.0, 2.0),
                to: p(0.0, 2.0),
                attributes: WHITE
            },
            PathCommand::End { close: false },
            PathCommand::End { close: true },
        ]
    );
}

#[test]
fn build_path_hands_every_command_on() {
    let path = build_path(&[
        PathCommand::Begin { at: p(1.0, 2.0), attributes: WHITE },
        PathCommand::LineTo { to: p(3.0, 4.0), attributes: WHITE },
        PathCommand::QuadraticTo { ctrl: p(5.0, 6.0), to: p(7.0, 8.0), attributes: WHITE },
        PathCommand::CubicTo {
            ctrl1: p(9.0, 10.0),
            ctrl2: p(11.0, 12.0),
            to: p(13.0, 14.0),
            attributes: WHITE,
        },
        PathCommand::End { close: true },
        PathCommand::Begin { at: p(0.0, 0.0), attributes: WHITE },
        PathCommand::End { close: false },
    ]);
    assert_eq!(path.num_attributes(), 4);
    let events: Vec<String> = path
        .iter()
        .map(|event| match event {
            Event::Begin { at } => format!("begin {} {}", at.x, at.y),
            Event::Line { from, to } => format!("line {} {} {} {}", from.x, from.y, to.x, to.y),
            Event::Quadratic { ctrl, to, .. } => {
                format!("quadratic {} {} {} {}", ctrl.x, ctrl.y, to.x, to.y)
            }
            Event::Cubic { ctrl1, ctrl2, to, .. } => {
                format!("cubic {} {} {} {} {} {}", ctrl1.x, ctrl1.y, ctrl2.x, ctrl2.y, to.x, to.y)
            }
            Event::End { close, .. } => format!("end {}", close),
        })
        .collect();
    assert_eq!(
        events,
        vec![
            "begin 1 2",
            "line 1 2 3 4",
            "quadratic 5 6 7 8",
            "cubic 9 10 11 12 13 14",
            "end true",
            "begin 0 0",
            "end false",
        ]
    );
}

#[test]
fn build_path_of_nothing_is_empty() {
    let path = build_path(&[]);
    assert_eq!(path.iter().count(), 0);
}

#[test]
fn a_square_is_two_triangles() {
    let mut tessellator = FillTessellator::new();
    let mut buffers: VertexBuffers<Vertex, u16> = VertexBuffers::new();
    let outcome =
        tessellate_commands(&mut tessellator, &mut buffers, &square(), &FillSettings::new());
    assert_eq!(outcome, Ok(()));
    assert_eq!(buffers.vertices.len(), 4);
    assert_eq!(buffers.indices.len(), 6);
    assert!(buffers.vertices.iter().all(|v| v.color == [0x3f80_0000; 3] && v.z == 0x3f80_0000));
}

#[test]
fn geometry_is_appended_behind_what_is_there() {
    let mut tessellator = FillTessellator::new();
    let mut buffers: VertexBuffers<Vertex, u16> = VertexBuffers::new();
    tessellate_commands(&mut tessellator, &mut buffers, &square(), &FillSettings::new()).unwrap();
    let vertices = buffers.vertices.clone();
    let indices = buffers.indices.clone();
    tessellate_commands(&mut tessellator, &mut buffers, &square(), &FillSettings::new()).unwrap();
    assert_eq!(buffers.vertices.len(), 8);
    assert_eq!(buffers.indices.len(), 12);
    assert_eq!(&buffers.vertices[..4], &vertices[..]);
    assert_eq!(&buffers.indices[..6], &indices[..]);
    assert!(buffers.indices[6..].iter().all(|i| (4..8).contains(i)));
}

#[test]
fn a_refused_path_leaves_the_buffers_as_they_were() {
    let mut tessellator = FillTessellator::new();
    let mut buffers: VertexBuffers<Vertex, u16> = VertexBuffers::new();
    tessellate_commands(&mut tessellator, &mut buffers, &square(), &FillSettings::new()).unwrap();
    let vertices = buffers.vertices.clone();
    let indices = buffers.indices.clone();

    let mut open = square();
    open.pop();
    assert_eq!(
        tessellate_commands(&mut tessellator, &mut buffers, &open, &FillSettings::new()),
        Err(GeometryFault::MalformedPath)
    );
    let mut bent = square();
    bent[1] = PathCommand::LineTo { to: p(f32::NAN, 0.0), attributes: WHITE };
    assert_eq!(
        tessellate_commands(&mut tessellator, &mut buffers, &bent, &FillSettings::new()),
        Err(GeometryFault::PositionIsNaN)
    );
    assert_eq!(buffers.vertices, vertices);
    assert_eq!(buffers.indices, indices);

    tessellate_commands(&mut tessellator, &mut buffers, &square(), &FillSettings::new()).unwrap();
    assert_eq!(buffers.vertices.len(), 8);
}

#[test]
fn attributes_are_interpolated_along_the_path() {
    let mut tessellator = FillTessellator::new();
    let mut buffers: VertexBuffers<Vertex, u16> = VertexBuffers::new();
    let red = [1.0f32, 0.0, 0.0, 0.25].map(f32::to_bits);
    let blue = [0.0f32, 0.0, 1.0, 0.75].map(f32::to_bits);
    let path = [
        PathCommand::Begin { at: p(0.0, 0.0), attributes: red },
        PathCommand::LineTo { to: p(4.0, 0.0), attributes: blue },
        PathCommand::LineTo { to: p(0.0, 4.0), attributes: red },
        PathCommand::End { close: true },
    ];
    tessellate_commands(&mut tessellator, &mut buffers, &path, &FillSettings::new()).unwrap();
    assert_eq!(buffers.vertices.len(), 3);
    for vertex in &buffers.vertices {
        let at = (f32::from_bits(vertex.position[0]), f32::from_bits(vertex.position[1]));
        let expected = if at == (4.0, 0.0) { blue } else { red };
        assert_eq!(vertex.color, [expected[0], expected[1], expected[2]]);
        assert_eq!(vertex.z, expected[3]);
    }
}

fn curved() -> Vec<PathCommand> {
    vec![
        PathCommand::Begin { at: p(0.0, 0.0), attributes: WHITE },
        PathCommand::CubicTo {
            ctrl1: p(1.0, -2.0),
            ctrl2: p(3.0, -2.0),
            to: p(4.0, 0.0),
            attributes: WHITE,
        },
        PathCommand::End { close: true },
    ]
}

#[test]
fn curves_are_found_wherever_they_stand() {
    assert!(!holds_curve(&[]));
    assert!(!holds_curve(&square()));
    assert!(holds_curve(&curved()));
    let mut last = square();
    last.insert(4, PathCommand::QuadraticTo { ctrl: p(0.0, 2.0), to: p(0.0, 0.0), attributes: WHITE });
    assert!(holds_curve(&last));
    assert!(holds_curve(&[PathCommand::QuadraticTo {
        ctrl: p(0.0, 2.0),
        to: p(0.0, 0.0),
        attributes: WHITE
    }]));
}

#[test]
fn the_finest_tolerance_for_curves_is_a_hundred_millionth() {
    let epsilon = 1e-4f32;
    assert_eq!(MIN_CURVE_TOLERANCE, (epsilon * epsilon).to_bits());
}

#[test]
fn a_curve_needs_a_tolerance_it_can_be_flattened_to() {
    let mut tessellator = FillTessellator::new();
    let mut buffers: VertexBuffers<Vertex, u16> = VertexBuffers::new();
    let fine = FillSettings { tolerance: 1e-9f32.to_bits(), ..FillSettings::new() };
    assert_eq!(
        tessellate_commands(&mut tessellator, &mut buffers, &curved(), &fine),
        Err(GeometryFault::ToleranceTooSmall)
    );
    assert!(buffers.vertices.is_empty() && buffers.indices.is_empty());
    assert_eq!(tessellate_commands(&mut tessellator, &mut buffers, &square(), &fine), Ok(()));
    assert_eq!(buffers.indices.len(), 6);
    let least = FillSettings { tolerance: MIN_CURVE_TOLERANCE, ..FillSettings::new() };
    assert_eq!(tessellate_commands(&mut tessellator, &mut buffers, &curved(), &least), Ok(()));
    assert!(buffers.indices.len() > 6);
}

#[test]
fn the_fault_of_a_path_comes_before_that_of_the_tolerance() {
    let mut tessellator = FillTessellator::new();
    let mut buffers: VertexBuffers<Vertex, u16> = VertexBuffers::new();
    let fine = FillSettings { tolerance: 1e-9f32.to_bits(), ..FillSettings::new() };
    let mut open = curved();
    open.pop();
    assert_eq!(
        tessellate_commands(&mut tessellator, &mut buffers, &open, &fine),
        Err(GeometryFault::MalformedPath)
    );
    let mut bent = curved();
    bent[1] = PathCommand::QuadraticTo { ctrl: p(f32::NAN, 0.0), to: p(1.0, 1.0), attributes: WHITE };
    assert_eq!(
        tessellate_commands(&mut tessellator, &mut buffers, &bent, &fine),
        Err(GeometryFault::PositionIsNaN)
    );
}
