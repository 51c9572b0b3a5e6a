//! Outcomes of calls into the CUDA driver.

use vstd::prelude::*;

use crate::error::{ErrorView, GpuError};
use crate::error;
use crate::text::join2;

verus! {

/// How a call into the driver ended. The driver is loaded at the first call;
/// where it cannot be, the call does not return normally.
pub enum CallOutcome<T> {
    Done(T),
    /// The driver's error text.
    Failed(String),
    /// The driver could not be loaded.
    NotLoadable,
}

/// What the caller of a driver call gets: a failure is an error of the library
/// `lib` whose text starts with `prefix`, and a missing driver cannot be
/// recovered from.
pub open spec fn answer<T>(
    lib: Seq<char>,
    prefix: Seq<char>,
    missing: Seq<char>,
    outcome: CallOutcome<T>,
) -> Result<T, ErrorView> {
    match outcome {
        CallOutcome::Done(v) => Ok(v),
        CallOutcome::Failed(text) => Err(ErrorView::LibraryError { lib, msg: prefix + text@ }),
        CallOutcome::NotLoadable => Err(ErrorView::Unrecoverable(missing)),
    }
}

/// What the caller of a driver call gets.
pub fn driver_reply<T>(
    lib: &'static str,
    prefix: &str,
    missing: &str,
    outcome: CallOutcome<T>,
) -> (r: Result<T, GpuError>)
    ensures
        error::outcome(r) == answer(lib@, prefix@, missing@, outcome),
{
    match outcome {
        CallOutcome::Done(v) => Ok(v),
        CallOutcome::Failed(text) => Err(
            GpuError::LibraryError { lib, msg: join2(prefix, text.as_str()) },
        ),
        CallOutcome::NotLoadable => Err(GpuError::unrecoverable(missing)),
    }
}

/// A call that the driver carried out is answered with what it gave. The text of a
/// failure ends with the driver's own words, and a missing driver is an error of
/// another kind than a failure.
pub proof fn law_answers<T>(
    lib: Seq<char>,
    prefix: Seq<char>,
    missing: Seq<char>,
    outcome: CallOutcome<T>,
)
    ensures
        match outcome {
            CallOutcome::Done(v) => answer(lib, prefix, missing, outcome) == Ok::<T, ErrorView>(v),
            CallOutcome::Failed(text) => answer(lib, prefix, missing, outcome) matches Err(e) && (
            e matches ErrorView::LibraryError { lib: of, msg } && of == lib && msg == prefix
                + text@),
            CallOutcome::NotLoadable => answer(lib, prefix, missing, outcome) matches Err(e) && (
            e matches ErrorView::Unrecoverable(why) && why == missing),
        },
{
}

} // verus!
