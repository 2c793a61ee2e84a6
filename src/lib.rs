//! Verified decision logic of a binding to a native gradient-boosted tree
//! scoring engine: how engine status codes become typed errors, which feature
//! batches may be handed to the engine, and when a native model handle is
//! allocated and released.
mod batch;
mod error;
mod lifecycle;

pub use crate::batch::{batch_fits, row_fits, rows_fit_before, validate_batch, BatchShape};
pub use crate::error::{native_error, CallContext, CatBoostError, CatBoostResult, ShapeError};
pub use crate::lifecycle::{
    can_score, lemma_handle_released_exactly_once, lemma_history_counts,
    lemma_instances_leave_no_handle, replay, run, step, step_spec, totals, Event, HandleAction,
    HandleHistory, Phase,
};
