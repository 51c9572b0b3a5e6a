//! Update of an instantiated graph in place.

use vstd::prelude::*;
use vstd::std_specs::convert::FromSpecImpl;

use crate::error::{ErrorView, GpuError};
use crate::error;
use crate::graph::LIB;
use crate::text::join2;

verus! {

/// What an update came to.
#[derive(Debug, Clone, Copy, PartialEq, Eq, Structural)]
pub enum GraphExecUpdateOutcome {
    Success,
    /// The graphs do not line up; the caller instantiates anew.
    TopologyChanged,
    /// The driver could not say.
    Other,
}

/// The driver's code of success.
pub const CUDA_SUCCESS: u32 = 0;

/// The driver's code of an update that it refused.
pub const CUDA_ERROR_GRAPH_EXEC_UPDATE_FAILURE: u32 = 910;

/// The outcome of the driver's update result.
pub open spec fn classify(result: u32) -> GraphExecUpdateOutcome {
    if result == 0 {
        GraphExecUpdateOutcome::Success
    } else if 2 <= result <= 8 {
        GraphExecUpdateOutcome::TopologyChanged
    } else {
        GraphExecUpdateOutcome::Other
    }
}

impl From<u32> for GraphExecUpdateOutcome {
    fn from(result: u32) -> (o: GraphExecUpdateOutcome) {
        if result == 0 {
            GraphExecUpdateOutcome::Success
        } else if 2 <= result && result <= 8 {
            GraphExecUpdateOutcome::TopologyChanged
        } else {
            GraphExecUpdateOutcome::Other
        }
    }
}

impl FromSpecImpl<u32> for GraphExecUpdateOutcome {
    open spec fn obeys_from_spec() -> bool {
        true
    }

    open spec fn from_spec(result: u32) -> GraphExecUpdateOutcome {
        classify(result)
    }
}

/// What the driver's update call gave: its status with the status's text, and
/// its update result.
pub struct UpdateStatus {
    pub status: u32,
    pub text: String,
    pub result: u32,
}

/// The outcome of an update, from what the driver gave; `None` where it could
/// not be loaded.
pub fn exec_update(given: Option<UpdateStatus>) -> (r: Result<GraphExecUpdateOutcome, GpuError>)
    ensures
        error::outcome(r) == match given {
            None => Err(ErrorView::Unrecoverable("exec_update: CUDA driver not loadable"@)),
            Some(u) => if u.status == CUDA_SUCCESS {
                Ok(classify(u.result))
            } else if u.status == CUDA_ERROR_GRAPH_EXEC_UPDATE_FAILURE {
                Ok(GraphExecUpdateOutcome::TopologyChanged)
            } else {
                Err(
                    ErrorView::LibraryError {
                        lib: LIB@,
                        msg: "cuGraphExecUpdate_v2: "@ + u.text@,
                    },
                )
            },
        },
{
    match given {
        None => Err(GpuError::unrecoverable("exec_update: CUDA driver not loadable")),
        Some(u) => {
            if u.status == CUDA_SUCCESS {
                Ok(GraphExecUpdateOutcome::from(u.result))
            } else if u.status == CUDA_ERROR_GRAPH_EXEC_UPDATE_FAILURE {
                Ok(GraphExecUpdateOutcome::TopologyChanged)
            } else {
                Err(
                    GpuError::LibraryError {
                        lib: LIB,
                        msg: join2("cuGraphExecUpdate_v2: ", u.text.as_str()),
                    },
                )
            }
        },
    }
}

/// The driver's zero is success, its results about the graphs' shape mean that the
/// graph is to be instantiated anew, and of the rest nothing is known.
pub proof fn law_update_results(result: u32)
    ensures
        classify(result) is Success <==> result == 0,
        classify(result) is TopologyChanged <==> 1 < result < 9,
        classify(result) is Other <==> result == 1 || result >= 9,
{
}

/// An update that the driver refused is never an error of the caller's, and only
/// one that it carried out can be a success.
pub proof fn law_update_answers(u: UpdateStatus, r: Result<GraphExecUpdateOutcome, GpuError>)
    requires
        call_ensures(exec_update, (Some(u),), r),
    ensures
        r matches Ok(GraphExecUpdateOutcome::Success) ==> u.status == 0 && u.result == 0,
        u.status == 910 ==> r == Ok::<GraphExecUpdateOutcome, GpuError>(
            GraphExecUpdateOutcome::TopologyChanged,
        ),
        u.status != 0 && u.status != 910 ==> r is Err,
{
}

} // verus!
