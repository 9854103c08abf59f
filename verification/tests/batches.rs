use lyon_renderer::batch::{record, MAX_INDEX_COUNT};
use lyon_renderer::{BatchEntry, Bound, GeometryFault, PrepareError};
use lyon_tessellation::{
    GeometryBuilderError, InternalError, TessellationError, UnsupportedParamater,
};

const BOUND1: Bound = (0, 0, 640, 480);
const BOUND2: Bound = (16, 32, 64, 128);

#[test]
fn six_then_three_indices_give_two_entries_end_to_end() {
    let mut entries = Vec::new();
    assert_eq!(record(&mut entries, Ok(()), 6, BOUND1), Ok(()));
    assert_eq!(record(&mut entries, Ok(()), 9, BOUND2), Ok(()));
    assert_eq!(
        entries,
        vec![
            BatchEntry { start_index: 0, end_index: 6, clip_rect: BOUND1 },
            BatchEntry { start_index: 6, end_index: 9, clip_rect: BOUND2 },
        ]
    );
}

#[test]
fn a_shape_without_indices_gets_an_empty_entry() {
    let mut entries = Vec::new();
    assert_eq!(record(&mut entries, Ok(()), 0, BOUND1), Ok(()));
    assert_eq!(record(&mut entries, Ok(()), 12, BOUND2), Ok(()));
    assert_eq!(record(&mut entries, Ok(()), 12, BOUND1), Ok(()));
    assert_eq!(
        entries,
        vec![
            BatchEntry { start_index: 0, end_index: 0, clip_rect: BOUND1 },
            BatchEntry { start_index: 0, end_index: 12, clip_rect: BOUND2 },
            BatchEntry { start_index: 12, end_index: 12, clip_rect: BOUND1 },
        ]
    );
}

#[test]
fn a_refused_shape_is_reported_with_its_position() {
    let mut entries = Vec::new();
    assert_eq!(record(&mut entries, Ok(()), 6, BOUND1), Ok(()));
    let refused = Err(GeometryFault::TooManyVertices);
    assert_eq!(
        record(&mut entries, refused, 6, BOUND2),
        Err(PrepareError::Geometry { shape: 1, fault: GeometryFault::TooManyVertices })
    );
    assert_eq!(entries, vec![BatchEntry { start_index: 0, end_index: 6, clip_rect: BOUND1 }]);
}

#[test]
fn every_tessellator_error_has_its_fault() {
    let cases = [
        (
            TessellationError::UnsupportedParamater(UnsupportedParamater::PositionIsNaN),
            GeometryFault::PositionIsNaN,
        ),
        (
            TessellationError::UnsupportedParamater(UnsupportedParamater::ToleranceIsNaN),
            GeometryFault::ToleranceIsNaN,
        ),
        (
            TessellationError::GeometryBuilder(GeometryBuilderError::InvalidVertex),
            GeometryFault::InvalidVertex,
        ),
        (
            TessellationError::GeometryBuilder(GeometryBuilderError::TooManyVertices),
            GeometryFault::TooManyVertices,
        ),
        (
            TessellationError::Internal(InternalError::IncorrectActiveEdgeOrder(3)),
            GeometryFault::Internal,
        ),
        (
            TessellationError::Internal(InternalError::InsufficientNumberOfSpans),
            GeometryFault::Internal,
        ),
        (
            TessellationError::Internal(InternalError::InsufficientNumberOfEdges),
            GeometryFault::Internal,
        ),
        (TessellationError::Internal(InternalError::MergeVertexOutside), GeometryFault::Internal),
        (
            TessellationError::Internal(InternalError::InvalidNumberOfEdgesBelowVertex),
            GeometryFault::Internal,
        ),
        (TessellationError::Internal(InternalError::ErrorCode(1)), GeometryFault::Internal),
    ];
    for (error, fault) in cases {
        assert_eq!(GeometryFault::from_error(&error), fault);
    }
}

#[test]
fn every_fault_is_reported_as_it_came() {
    let faults = [
        GeometryFault::PositionIsNaN,
        GeometryFault::PositionIsInfinite,
        GeometryFault::MalformedPath,
        GeometryFault::ToleranceIsNaN,
        GeometryFault::ToleranceTooSmall,
        GeometryFault::InvalidVertex,
        GeometryFault::TooManyVertices,
        GeometryFault::Internal,
    ];
    for fault in faults {
        let mut entries = Vec::new();
        assert_eq!(
            record(&mut entries, Err(fault), 0, BOUND1),
            Err(PrepareError::Geometry { shape: 0, fault })
        );
        assert!(entries.is_empty());
    }
}

#[test]
fn the_last_index_a_frame_can_hold_is_taken() {
    assert_eq!(MAX_INDEX_COUNT, 65535);
    let mut entries = Vec::new();
    assert_eq!(record(&mut entries, Ok(()), 65535, BOUND1), Ok(()));
    assert_eq!(entries, vec![BatchEntry { start_index: 0, end_index: 65535, clip_rect: BOUND1 }]);
}

#[test]
fn one_index_too_many_is_an_overflow() {
    let mut entries = Vec::new();
    assert_eq!(record(&mut entries, Ok(()), 65532, BOUND1), Ok(()));
    assert_eq!(
        record(&mut entries, Ok(()), 65536, BOUND2),
        Err(PrepareError::IndexOverflow { shape: 1 })
    );
    assert_eq!(entries, vec![BatchEntry { start_index: 0, end_index: 65532, clip_rect: BOUND1 }]);
}
