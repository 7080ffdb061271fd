use vstd::prelude::*;

use crate::error::AppError;
use crate::flags::dtos::EvaluationResult;
use crate::flags::model::{EvaluationContext, Flag};

verus! {

/// The answer to a flag check: the key asked for and the flag's decision for the context.
pub fn check_flag(key: String, flag: &Flag, context: &EvaluationContext) -> (answer: EvaluationResult)
    ensures
        answer.key == key,
        answer.result == flag.decision(context),
{
    let result = flag.evaluate(context);
    EvaluationResult { key, result }
}

/// The flag a lookup found, or a `NotAvailableError` naming the key when there is none.
pub fn require_flag(key: String, found: Option<Flag>) -> (flag: Result<Flag, AppError>)
    ensures
        match found {
            Some(f) => flag == Ok::<Flag, AppError>(f),
            None => flag == Err::<Flag, AppError>(AppError::NotAvailableError(key)),
        },
{
    match found {
        Some(f) => Ok(f),
        None => Err(AppError::NotAvailableError(key)),
    }
}

} // verus!
