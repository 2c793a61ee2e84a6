use vstd::prelude::*;

verus! {

/// Why a feature batch was refused before any call into the scoring engine.
#[derive(Debug, Clone, Copy, PartialEq, Eq, Structural)]
pub enum ShapeError {
    /// The batch has no rows.
    EmptyBatch,
    /// The float table and the categorical table differ in their number of rows.
    RowCountMismatch { float_rows: usize, cat_rows: usize },
    /// A float row does not have the model's float-feature count.
    FloatWidthMismatch { row: usize, width: usize, expected: usize },
    /// A categorical row does not have the model's categorical-feature count.
    CatWidthMismatch { row: usize, width: usize, expected: usize },
    /// The output buffer (rows times output dimensions) would not fit in memory.
    OutputTooLarge { rows: usize, dimensions: usize },
}

/// Which kind of engine call a status code came from.
#[derive(Debug, Clone, Copy, PartialEq, Eq, Structural)]
pub enum CallContext {
    Load,
    Prediction,
}

/// Errors of the binding. A failed engine call carries the engine's own
/// diagnostic text verbatim; a malformed batch is refused before the engine
/// is called.
#[derive(Debug, Clone, PartialEq, Eq)]
pub enum CatBoostError {
    /// Loading a model into a handle failed.
    Load { message: String },
    /// Scoring a batch failed inside the engine.
    Prediction { message: String },
    /// The batch does not have the shape the model expects.
    InvalidInput { reason: ShapeError },
}

pub type CatBoostResult<T> = Result<T, CatBoostError>;

impl ShapeError {
    /// A short sentence naming the kind of shape problem.
    pub fn summary(&self) -> (r: &'static str)
        ensures
            r@ == self.summary_spec(),
    {
        match self {
            ShapeError::EmptyBatch => "the feature batch has no rows",
            ShapeError::RowCountMismatch { .. } => "float and categorical tables differ in row count",
            ShapeError::FloatWidthMismatch { .. } => "a float row does not match the model's float-feature count",
            ShapeError::CatWidthMismatch { .. } => "a categorical row does not match the model's categorical-feature count",
            ShapeError::OutputTooLarge { .. } => "the prediction buffer for this batch would not fit in memory",
        }
    }

    pub open spec fn summary_spec(&self) -> Seq<char> {
        match self {
            ShapeError::EmptyBatch => "the feature batch has no rows"@,
            ShapeError::RowCountMismatch { .. } => "float and categorical tables differ in row count"@,
            ShapeError::FloatWidthMismatch { .. } => "a float row does not match the model's float-feature count"@,
            ShapeError::CatWidthMismatch { .. } => "a categorical row does not match the model's categorical-feature count"@,
            ShapeError::OutputTooLarge { .. } => "the prediction buffer for this batch would not fit in memory"@,
        }
    }
}

impl CatBoostError {
    /// The error that a failed engine call of the given kind surfaces as,
    /// carrying the engine's diagnostic text unchanged.
    pub fn from_native(context: CallContext, message: String) -> (r: CatBoostError)
        ensures
            r == native_error(context, message),
    {
        match context {
            CallContext::Load => CatBoostError::Load { message },
            CallContext::Prediction => CatBoostError::Prediction { message },
        }
    }

    /// Translates the engine's status convention: a call that reported
    /// success gives `Ok(())`; one that reported failure gives the error of
    /// its kind with the engine's last diagnostic text.
    pub fn check_return_value(succeeded: bool, context: CallContext, last_error: String) -> (r:
        CatBoostResult<()>)
        ensures
            succeeded ==> r == Ok::<(), CatBoostError>(()),
            !succeeded ==> r == Err::<(), CatBoostError>(native_error(context, last_error)),
    {
        if succeeded {
            Ok(())
        } else {
            Err(CatBoostError::from_native(context, last_error))
        }
    }

    /// Whether the error was raised before any engine call, for a malformed batch.
    pub fn is_invalid_input(&self) -> (r: bool)
        ensures
            r == (self is InvalidInput),
    {
        match self {
            CatBoostError::InvalidInput { .. } => true,
            _ => false,
        }
    }

    /// Human-readable text of the error: the engine's diagnostic text for a
    /// failed engine call, a description of the problem for a malformed batch.
    pub fn description(&self) -> (r: String)
        ensures
            r@ == self.description_spec(),
    {
        match self {
            CatBoostError::Load { message } => message.clone(),
            CatBoostError::Prediction { message } => message.clone(),
            CatBoostError::InvalidInput { reason } => String::from_str(reason.summary()),
        }
    }

    pub open spec fn description_spec(&self) -> Seq<char> {
        match self {
            CatBoostError::Load { message } => message@,
            CatBoostError::Prediction { message } => message@,
            CatBoostError::InvalidInput { reason } => reason.summary_spec(),
        }
    }
}

/// The error that a failed engine call of the given kind surfaces as.
pub open spec fn native_error(context: CallContext, message: String) -> CatBoostError {
    match context {
        CallContext::Load => CatBoostError::Load { message },
        CallContext::Prediction => CatBoostError::Prediction { message },
    }
}

} // verus!
