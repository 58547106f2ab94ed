use vstd::prelude::*;

use crate::error::AppError;

verus! {

/// Check the one mandatory piece of configuration: the environment-provided
/// path of the galaxy initialization file, handed in as read (or not found)
/// by the caller.
///
/// A missing value is a configuration error, fatal before the loop ever
/// runs; a present value is returned unchanged.
pub fn resolve_init_path(path: Option<String>) -> (r: Result<String, AppError>)
    ensures
        path is None ==> r == Result::<String, AppError>::Err(AppError::Config),
        path matches Some(p) ==> r == Result::<String, AppError>::Ok(p),
{
    match path {
        None => Err(AppError::Config),
        Some(p) => Ok(p),
    }
}

} // verus!
