//! Small helpers shared by the request handlers.

use vstd::prelude::*;

pub mod encode;
pub mod path;
pub mod text;
pub mod web;

verus! {

/// Wraps a value as the error side of a result that carries no success value.
pub fn w_err<T>(t: T) -> (r: Result<(), T>)
    ensures
        r == Err::<(), T>(t),
{
    Err(t)
}

/// Wraps a value as the success side of a result that carries no error value.
pub fn w_ok<T>(t: T) -> (r: Result<T, ()>)
    ensures
        r == Ok::<T, ()>(t),
{
    Ok(t)
}

} // verus!
