use catboost::{
    can_score, replay, step, validate_batch, BatchShape, CallContext, CatBoostError, Event,
    HandleAction, Phase, ShapeError,
};

#[test]
fn lib_load_model() {
}

fn invalid(reason: ShapeError) -> CatBoostError {
    CatBoostError::InvalidInput { reason }
}

#[test]
fn check_return_value_success_is_ok() {
    let r = CatBoostError::check_return_value(true, CallContext::Load, String::from("ignored"));
    assert_eq!(r, Ok(()));
}

#[test]
fn check_return_value_load_failure_keeps_message() {
    let r = CatBoostError::check_return_value(false, CallContext::Load, String::from("bad model file"));
    assert_eq!(r, Err(CatBoostError::Load { message: String::from("bad model file") }));
    assert_eq!(r.unwrap_err().description(), "bad model file");
}

#[test]
fn check_return_value_prediction_failure_keeps_message() {
    let r = CatBoostError::check_return_value(
        false,
        CallContext::Prediction,
        String::from("Incorrect cat features count"),
    );
    let e = r.unwrap_err();
    assert_eq!(e, CatBoostError::Prediction { message: String::from("Incorrect cat features count") });
    assert!(!e.is_invalid_input());
}

#[test]
fn scenario_batch_is_accepted() {
    // three rows of three floats and one categorical value, single-dimension model
    let r = validate_batch(&vec![3, 3, 3], &vec![1, 1, 1], 3, 1, 1);
    assert_eq!(r, Ok(BatchShape { rows: 3, float_width: 3, cat_width: 1, output_len: 3 }));
}

#[test]
fn output_len_counts_dimensions() {
    let r = validate_batch(&vec![2, 2], &vec![0, 0], 2, 0, 3);
    assert_eq!(r, Ok(BatchShape { rows: 2, float_width: 2, cat_width: 0, output_len: 6 }));
}

#[test]
fn row_count_mismatch_is_invalid_input() {
    let r = validate_batch(&vec![3, 3, 3], &vec![1, 1], 3, 1, 1);
    let e = r.unwrap_err();
    assert!(e.is_invalid_input());
    assert_eq!(e, invalid(ShapeError::RowCountMismatch { float_rows: 3, cat_rows: 2 }));
}

#[test]
fn empty_batch_is_invalid_input() {
    let r = validate_batch(&vec![], &vec![], 3, 1, 1);
    assert_eq!(r, Err(invalid(ShapeError::EmptyBatch)));
}

#[test]
fn unequal_float_widths_are_invalid_input() {
    let r = validate_batch(&vec![3, 2, 3], &vec![1, 1, 1], 3, 1, 1);
    assert_eq!(r, Err(invalid(ShapeError::FloatWidthMismatch { row: 1, width: 2, expected: 3 })));
}

#[test]
fn float_width_differing_from_model_is_invalid_input() {
    // uniform rows, but not the model's float-feature count
    let r = validate_batch(&vec![4, 4], &vec![1, 1], 3, 1, 1);
    assert_eq!(r, Err(invalid(ShapeError::FloatWidthMismatch { row: 0, width: 4, expected: 3 })));
}

#[test]
fn cat_width_mismatch_is_invalid_input() {
    let r = validate_batch(&vec![3, 3, 3], &vec![1, 1, 2], 3, 1, 1);
    assert_eq!(r, Err(invalid(ShapeError::CatWidthMismatch { row: 2, width: 2, expected: 1 })));
}

#[test]
fn row_count_checked_before_widths() {
    let r = validate_batch(&vec![5], &vec![], 3, 1, 1);
    assert_eq!(r, Err(invalid(ShapeError::RowCountMismatch { float_rows: 1, cat_rows: 0 })));
}

#[test]
fn oversized_output_is_invalid_input() {
    let r = validate_batch(&vec![1, 1], &vec![0, 0], 1, 0, usize::MAX);
    assert_eq!(r, Err(invalid(ShapeError::OutputTooLarge { rows: 2, dimensions: usize::MAX })));
}

#[test]
fn invalid_input_description_names_the_problem() {
    let e = invalid(ShapeError::EmptyBatch);
    assert_eq!(e.description(), "the feature batch has no rows");
    assert_eq!(
        ShapeError::RowCountMismatch { float_rows: 1, cat_rows: 2 }.summary(),
        "float and categorical tables differ in row count"
    );
}

#[test]
fn step_transitions() {
    assert_eq!(step(Phase::Unallocated, Event::Construct), (Phase::Created, HandleAction::AllocateHandle));
    assert_eq!(
        step(Phase::Created, Event::LoadFinished { succeeded: true }),
        (Phase::Loaded, HandleAction::Nothing)
    );
    assert_eq!(
        step(Phase::Created, Event::LoadFinished { succeeded: false }),
        (Phase::Released, HandleAction::ReleaseHandle)
    );
    assert_eq!(step(Phase::Loaded, Event::Destroy), (Phase::Released, HandleAction::ReleaseHandle));
    assert_eq!(step(Phase::Released, Event::Destroy), (Phase::Released, HandleAction::Nothing));
    assert_eq!(step(Phase::Loaded, Event::Construct), (Phase::Loaded, HandleAction::Nothing));
}

#[test]
fn only_loaded_instances_score() {
    assert!(can_score(Phase::Loaded));
    assert!(!can_score(Phase::Created));
    assert!(!can_score(Phase::Released));
    assert!(!can_score(Phase::Unallocated));
}

#[test]
fn failed_load_then_destroy_releases_once() {
    let h = replay(&vec![Event::Construct, Event::LoadFinished { succeeded: false }, Event::Destroy]);
    assert_eq!(h.phase, Phase::Released);
    assert_eq!(h.allocated, 1);
    assert_eq!(h.released, 1);
}

#[test]
fn loaded_instance_holds_handle_until_destroyed() {
    let h = replay(&vec![Event::Construct, Event::LoadFinished { succeeded: true }]);
    assert_eq!(h.phase, Phase::Loaded);
    assert_eq!((h.allocated, h.released), (1, 0));
    let h = replay(&vec![Event::Construct, Event::LoadFinished { succeeded: true }, Event::Destroy, Event::Destroy]);
    assert_eq!((h.allocated, h.released), (1, 1));
}

#[test]
fn many_instances_leave_no_handle() {
    let mut allocated: usize = 0;
    let mut released: usize = 0;
    for k in 0..1000usize {
        let succeeded = k % 3 != 0;
        let h = replay(&vec![Event::Construct, Event::LoadFinished { succeeded }, Event::Destroy]);
        allocated += h.allocated;
        released += h.released;
    }
    assert_eq!(allocated, 1000);
    assert_eq!(released, 1000);
}
