use model_merge::error::ModelError;
use model_merge::projections::{adapt_tensor, interpolate, truncate, zero_pad, DimChange, Projection};

fn message(r: Result<Projection, ModelError>) -> String {
    match r {
        Err(ModelError::CandleError(m)) => m,
        other => panic!("expected a tensor error, got {:?}", other),
    }
}

fn changes(r: Result<Projection, ModelError>) -> Vec<DimChange> {
    match r {
        Ok(Projection::Resize(c)) => c,
        other => panic!("expected a resize, got {:?}", other),
    }
}

#[test]
fn equal_shapes_are_kept_by_every_strategy() {
    for strategy in ["zero_padding", "truncation", "interpolation"] {
        assert!(matches!(adapt_tensor(&[4, 8], &[4, 8], strategy), Ok(Projection::Keep)));
        assert!(matches!(adapt_tensor(&[], &[], strategy), Ok(Projection::Keep)));
    }
}

#[test]
fn rank_mismatch_is_an_error_for_every_strategy() {
    for strategy in ["zero_padding", "truncation", "interpolation"] {
        assert_eq!(
            message(adapt_tensor(&[4, 8], &[4, 8, 2], strategy)),
            "Shape rank mismatch: source has 2 dims, target has 3"
        );
    }
    assert_eq!(
        message(zero_pad(&[3], &[])),
        "Shape rank mismatch: source has 1 dims, target has 0"
    );
}

#[test]
fn unknown_strategy_is_named_in_the_error() {
    assert_eq!(message(adapt_tensor(&[4], &[4], "stretch")), "Unknown projection strategy: stretch");
    assert_eq!(message(adapt_tensor(&[4], &[5, 6], "")), "Unknown projection strategy: ");
}

#[test]
fn zero_padding_fills_each_shorter_dimension() {
    assert_eq!(
        changes(zero_pad(&[2, 3, 5], &[4, 3, 9])),
        vec![
            DimChange { keep: 2, pad: 2 },
            DimChange { keep: 3, pad: 0 },
            DimChange { keep: 5, pad: 4 },
        ]
    );
}

#[test]
fn zero_padding_refuses_the_first_longer_dimension() {
    assert_eq!(
        message(zero_pad(&[2, 7, 9], &[4, 3, 1])),
        "Cannot zero-pad: source dim 1 (7) > target (3)"
    );
    assert_eq!(
        message(adapt_tensor(&[10], &[0], "zero_padding")),
        "Cannot zero-pad: source dim 0 (10) > target (0)"
    );
}

#[test]
fn truncation_cuts_longer_dimensions_and_leaves_shorter_ones() {
    assert_eq!(
        changes(truncate(&[6, 2, 4], &[3, 5, 4])),
        vec![
            DimChange { keep: 3, pad: 0 },
            DimChange { keep: 2, pad: 0 },
            DimChange { keep: 4, pad: 0 },
        ]
    );
}

#[test]
fn interpolation_of_a_vector_is_linear() {
    assert!(matches!(interpolate(&[4], &[9]), Ok(Projection::Linear { target_len: 9 })));
    assert!(matches!(interpolate(&[4], &[0]), Ok(Projection::Linear { target_len: 0 })));
}

#[test]
fn interpolation_of_a_matrix_takes_nearest_neighbours() {
    assert!(matches!(
        adapt_tensor(&[4, 6], &[2, 12], "interpolation"),
        Ok(Projection::Nearest { rows: 2, cols: 12 })
    ));
}

#[test]
fn interpolation_of_higher_ranks_cuts_then_fills() {
    assert_eq!(
        changes(interpolate(&[2, 6, 4], &[5, 3, 4])),
        vec![
            DimChange { keep: 2, pad: 3 },
            DimChange { keep: 3, pad: 0 },
            DimChange { keep: 4, pad: 0 },
        ]
    );
    assert_eq!(message(interpolate(&[2, 6, 4], &[5, 0, 4])), "Invalid target shape");
}
