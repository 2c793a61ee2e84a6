use vstd::prelude::*;

use crate::error::{CatBoostError, CatBoostResult, ShapeError};

verus! {

/// The layout of a batch that may be handed to the scoring engine: its row
/// count, the per-row widths the engine will read (the model's declared
/// feature counts), and the length of the prediction buffer.
#[derive(Debug, Clone, Copy, PartialEq, Eq, Structural)]
pub struct BatchShape {
    pub rows: usize,
    pub float_width: usize,
    pub cat_width: usize,
    pub output_len: usize,
}

/// Row `i` has exactly the model's float and categorical feature counts.
pub open spec fn row_fits(
    float_widths: Seq<usize>,
    cat_widths: Seq<usize>,
    float_count: usize,
    cat_count: usize,
    i: int,
) -> bool {
    float_widths[i] == float_count && cat_widths[i] == cat_count
}

/// Every row before `n` fits the model.
pub open spec fn rows_fit_before(
    float_widths: Seq<usize>,
    cat_widths: Seq<usize>,
    float_count: usize,
    cat_count: usize,
    n: int,
) -> bool {
    forall|i: int| 0 <= i < n ==> #[trigger] row_fits(float_widths, cat_widths, float_count, cat_count, i)
}

/// A batch is well formed for a model when both tables have the same,
/// non-zero number of rows and every row has the model's feature counts.
pub open spec fn batch_fits(
    float_widths: Seq<usize>,
    cat_widths: Seq<usize>,
    float_count: usize,
    cat_count: usize,
) -> bool {
    &&& float_widths.len() == cat_widths.len()
    &&& float_widths.len() > 0
    &&& rows_fit_before(float_widths, cat_widths, float_count, cat_count, float_widths.len() as int)
}

/// Checks a batch, given the width of each float row and of each categorical
/// row, against the model's feature counts and output dimensions, before any
/// engine call. A malformed batch gives `InvalidInput` with the reason: row
/// counts are compared first, then emptiness, then rows in order (float width
/// before categorical width), and the first problem is reported.
pub fn validate_batch(
    float_widths: &Vec<usize>,
    cat_widths: &Vec<usize>,
    float_count: usize,
    cat_count: usize,
    dimensions: usize,
) -> (r: CatBoostResult<BatchShape>)
    ensures
        (batch_fits(float_widths@, cat_widths@, float_count, cat_count)
            && float_widths@.len() * dimensions <= usize::MAX) ==> r is Ok,
        (match r {
            Ok(shape) => {
                &&& batch_fits(float_widths@, cat_widths@, float_count, cat_count)
                &&& shape == (BatchShape {
                    rows: float_widths@.len() as usize,
                    float_width: float_count,
                    cat_width: cat_count,
                    output_len: (float_widths@.len() * dimensions) as usize,
                })
                &&& float_widths@.len() * dimensions <= usize::MAX
            },
            Err(CatBoostError::InvalidInput { reason: ShapeError::RowCountMismatch { float_rows, cat_rows } }) => {
                &&& float_widths@.len() != cat_widths@.len()
                &&& float_rows == float_widths@.len()
                &&& cat_rows == cat_widths@.len()
            },
            Err(CatBoostError::InvalidInput { reason: ShapeError::EmptyBatch }) => float_widths@.len() == 0 && cat_widths@.len() == 0,
            Err(CatBoostError::InvalidInput { reason: ShapeError::FloatWidthMismatch { row, width, expected } }) => {
                &&& float_widths@.len() == cat_widths@.len()
                &&& row < float_widths@.len()
                &&& rows_fit_before(float_widths@, cat_widths@, float_count, cat_count, row as int)
                &&& float_widths@[row as int] != float_count
                &&& width == float_widths@[row as int]
                &&& expected == float_count
            },
            Err(CatBoostError::InvalidInput { reason: ShapeError::CatWidthMismatch { row, width, expected } }) => {
                &&& float_widths@.len() == cat_widths@.len()
                &&& row < float_widths@.len()
                &&& rows_fit_before(float_widths@, cat_widths@, float_count, cat_count, row as int)
                &&& float_widths@[row as int] == float_count
                &&& cat_widths@[row as int] != cat_count
                &&& width == cat_widths@[row as int]
                &&& expected == cat_count
            },
            Err(CatBoostError::InvalidInput { reason: ShapeError::OutputTooLarge { rows, dimensions: dims } }) => {
                &&& batch_fits(float_widths@, cat_widths@, float_count, cat_count)
                &&& rows == float_widths@.len()
                &&& dims == dimensions
                &&& float_widths@.len() * dimensions > usize::MAX
            },
            Err(CatBoostError::Load { .. }) | Err(CatBoostError::Prediction { .. }) => false,
        }),
{
    let rows = float_widths.len();
    if rows != cat_widths.len() {
        return Err(
            CatBoostError::InvalidInput {
                reason: ShapeError::RowCountMismatch { float_rows: rows, cat_rows: cat_widths.len() },
            },
        );
    }
    if rows == 0 {
        return Err(CatBoostError::InvalidInput { reason: ShapeError::EmptyBatch });
    }
    let mut i: usize = 0;
    while i < rows
        invariant
            rows == float_widths@.len(),
            rows == cat_widths@.len(),
            i <= rows,
            rows_fit_before(float_widths@, cat_widths@, float_count, cat_count, i as int),
        decreases rows - i,
    {
        if float_widths[i] != float_count {
            assert(!row_fits(float_widths@, cat_widths@, float_count, cat_count, i as int));
            let reason = ShapeError::FloatWidthMismatch {
                row: i,
                width: float_widths[i],
                expected: float_count,
            };
            return Err(CatBoostError::InvalidInput { reason });
        }
        if cat_widths[i] != cat_count {
            assert(!row_fits(float_widths@, cat_widths@, float_count, cat_count, i as int));
            let reason = ShapeError::CatWidthMismatch {
                row: i,
                width: cat_widths[i],
                expected: cat_count,
            };
            return Err(CatBoostError::InvalidInput { reason });
        }
        assert(row_fits(float_widths@, cat_widths@, float_count, cat_count, i as int));
        i = i + 1;
    }
    match rows.checked_mul(dimensions) {
        Some(output_len) => Ok(BatchShape { rows, float_width: float_count, cat_width: cat_count, output_len }),
        None => Err(CatBoostError::InvalidInput { reason: ShapeError::OutputTooLarge { rows, dimensions } }),
    }
}

} // verus!
