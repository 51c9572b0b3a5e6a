//! What a typed request answers to the actor.

use vstd::prelude::*;

use crate::error::{ErrorView, GpuError};
use crate::error;
use crate::kernel::cudnn::LIB;

verus! {

/// A request that the cuDNN actor can route: its names for telemetry, and its
/// answer.
pub trait CudnnDispatch {
    /// Short name of the element type.
    fn dtype_name(&self) -> (s: &'static str);

    /// Name of the operation.
    fn op_kind(&self) -> (s: &'static str);

    /// The answer to the request's caller.
    fn dispatch(&self) -> (r: Result<(), GpuError>);
}

/// Answer of an operation that has no launch path yet.
pub open spec fn unavailable(msg: Seq<char>) -> Result<(), ErrorView> {
    Err(ErrorView::LibraryError { lib: LIB@, msg })
}

pub(crate) fn not_available(msg: &str) -> (r: Result<(), GpuError>)
    ensures
        error::outcome(r) == unavailable(msg@),
{
    Err(GpuError::lib(LIB, msg))
}

/// An operation without a launch path is answered with an error of the library, in
/// the operation's own words.
pub proof fn law_unavailable_in_its_own_words(msg: Seq<char>)
    ensures
        unavailable(msg) == Err::<(), ErrorView>(
            (ErrorView::LibraryError { lib: "cudnn"@, msg }),
        ),
{
}

} // verus!
