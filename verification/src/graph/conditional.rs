//! Conditional nodes of graphs.

use vstd::prelude::*;

use crate::error::{ErrorView, GpuError};
use crate::error;
use crate::graph::LIB;
use crate::text::join3;

verus! {

/// How often the inner graph of a node runs.
#[derive(Debug, Clone, Copy, PartialEq, Eq, Structural)]
pub enum ConditionalKind {
    /// Once, where the condition's value is not zero.
    If,
    /// As long as the condition's value is not zero.
    While,
}

/// The driver's code of a call that it does not support.
pub const CUDA_ERROR_NOT_SUPPORTED: u32 = 801;

impl ConditionalKind {
    /// Number of the kind in the driver's interface.
    pub open spec fn spec_raw(self) -> u32 {
        match self {
            ConditionalKind::If => 0,
            ConditionalKind::While => 1,
        }
    }

    /// Number of the kind in the driver's interface.
    pub fn raw(self) -> (n: u32)
        ensures
            n == self.spec_raw(),
    {
        match self {
            ConditionalKind::If => 0,
            ConditionalKind::While => 1,
        }
    }
}

/// A node that runs its inner graph at most once.
#[derive(Debug, Clone, Copy, PartialEq, Eq, Structural)]
pub struct IfNodeDescriptor {
    pub default_value: u32,
}

/// A node that runs its inner graph repeatedly.
#[derive(Debug, Clone, Copy, PartialEq, Eq, Structural)]
pub struct WhileNodeDescriptor {
    pub default_value: u32,
}

/// Arguments of the driver call that adds a conditional node. The driver
/// writes the inner graph to `inner_graph_out`.
#[derive(Debug, Clone, Copy, PartialEq, Eq, Structural)]
pub struct ConditionalNodeParams {
    pub handle: u64,
    pub kind: u32,
    pub size: u32,
    pub inner_graph_out: u64,
    pub context: u64,
}

/// Arguments of the driver call that adds a node of this kind.
pub fn build_params(
    kind: ConditionalKind,
    handle: u64,
    context: u64,
    inner_graph_out: u64,
) -> (p: ConditionalNodeParams)
    ensures
        p == (ConditionalNodeParams {
            handle,
            kind: kind.spec_raw(),
            size: 1,
            inner_graph_out,
            context,
        }),
{
    ConditionalNodeParams { handle, kind: kind.raw(), size: 1, inner_graph_out, context }
}

/// Whether the driver has conditional nodes, from the code that it returned to
/// a call with empty arguments. Any code but that of an unsupported call means
/// that it has them.
pub fn driver_supports_conditional(code: Option<u32>) -> (r: Result<bool, GpuError>)
    ensures
        error::outcome(r) == match code {
            Some(c) => Ok(c != CUDA_ERROR_NOT_SUPPORTED),
            None => Err(
                ErrorView::Unrecoverable("conditional probe: CUDA driver not loadable"@),
            ),
        },
{
    match code {
        Some(c) => Ok(c != CUDA_ERROR_NOT_SUPPORTED),
        None => Err(GpuError::unrecoverable("conditional probe: CUDA driver not loadable")),
    }
}

/// The answer of a driver call, from its status: success, or the status's
/// text.
pub fn check(status: Result<(), String>, op: &str) -> (r: Result<(), GpuError>)
    ensures
        error::outcome(r) == match status {
            Ok(_) => Ok(()),
            Err(text) => Err(
                ErrorView::LibraryError { lib: LIB@, msg: op@ + ": "@ + text@ },
            ),
        },
{
    match status {
        Ok(_) => Ok(()),
        Err(text) => Err(
            GpuError::LibraryError { lib: LIB, msg: join3(op, ": ", text.as_str()) },
        ),
    }
}

/// The two kinds of node have the driver's numbers, and are told apart by them.
pub proof fn law_kinds_are_told_apart(a: ConditionalKind, b: ConditionalKind)
    ensures
        a.spec_raw() == b.spec_raw() <==> a == b,
        ConditionalKind::If.spec_raw() == 0,
        ConditionalKind::While.spec_raw() == 1,
{
}

} // verus!
