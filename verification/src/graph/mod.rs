//! `GraphActor`: record a script of operations once, replay it many times.
//!
//! The runtime captures a stream while the script's operations are recorded on
//! it ([`capture::RecordRun`] says what to do next), and the captured graph is
//! launched as a whole. Graphs, streams and library handles are handles of the
//! runtime.

pub mod actor;
pub mod capture;
pub mod child;
pub mod conditional;
pub mod dot;
pub mod exec_update;
pub mod record;

pub use actor::{GraphAction, GraphActor, GraphMsg};
pub use child::ChildGraphOp;
pub use dot::DotFlags;
pub use exec_update::{exec_update, GraphExecUpdateOutcome};
pub use record::fft_r2c::FftR2COp;
pub use record::memcpy::MemcpyOp;
pub use record::rng_fill_uniform::RngFillUniformOp;
pub use record::sgemm::SgemmOp;

use vstd::prelude::*;

use crate::device::DeviceState;
use crate::dtype::{C32, F32};
use crate::error::{ErrorView, GpuError};
use crate::error;
use crate::gpu_ref::{GpuRef, MemoryTable};

verus! {

/// Library tag of the actor's errors.
pub const LIB: &'static str = "graph";

/// The driver's handles of a captured graph.
#[derive(Debug, Clone, Copy, PartialEq, Eq, Structural)]
pub struct CapturedGraph {
    pub graph: u64,
    pub instance: u64,
}

/// A graph that was captured while the device had a certain generation.
#[derive(Debug, Clone, Copy, PartialEq, Eq, Structural)]
pub struct GraphHandle {
    graph: Option<CapturedGraph>,
    generation: u64,
}

impl GraphHandle {
    /// The captured graph; a synthetic handle has none.
    pub closed spec fn spec_graph(self) -> Option<CapturedGraph> {
        self.graph
    }

    /// Generation of the device at the time of the capture.
    pub closed spec fn spec_generation(self) -> u64 {
        self.generation
    }

    /// Handle of a graph that was captured just now.
    pub fn from_graph(graph: CapturedGraph, state: &DeviceState) -> (h: GraphHandle)
        ensures
            h.spec_graph() == Some(graph),
            h.spec_generation() == state.generation,
    {
        GraphHandle { graph: Some(graph), generation: state.generation }
    }

    /// Generation of the device at the time of the capture.
    pub fn generation(&self) -> (g: u64)
        ensures
            g == self.spec_generation(),
    {
        self.generation
    }

    /// The driver's graph; zero for a synthetic handle.
    pub fn cu_graph(&self) -> (g: u64)
        ensures
            g == match self.spec_graph() {
                Some(c) => c.graph,
                None => 0,
            },
    {
        match self.graph {
            Some(c) => c.graph,
            None => 0,
        }
    }

    /// The driver's instantiated graph; zero for a synthetic handle.
    pub fn cu_graph_exec(&self) -> (g: u64)
        ensures
            g == match self.spec_graph() {
                Some(c) => c.instance,
                None => 0,
            },
    {
        match self.graph {
            Some(c) => c.instance,
            None => 0,
        }
    }

    /// The captured graph; a synthetic handle has none.
    pub fn captured(&self) -> (g: Option<CapturedGraph>)
        ensures
            g == self.spec_graph(),
    {
        self.graph
    }

    /// Handle without a graph.
    pub fn synthetic_for_tests() -> (h: GraphHandle)
        ensures
            h.spec_graph() is None,
            h.spec_generation() == 0,
    {
        GraphHandle { graph: None, generation: 0 }
    }
}

/// What an operation can record with: the captured stream, and the library
/// handles that the actor has.
#[derive(Debug, Clone, Copy, PartialEq, Eq, Structural)]
pub struct GraphRecordCtx {
    pub stream: Option<u64>,
    pub blas: Option<u64>,
    pub rng: Option<u64>,
    pub fft: Option<u64>,
    /// The graph that child nodes are added to.
    pub parent_graph: Option<u64>,
}

impl GraphRecordCtx {
    /// The captured stream, or the error where there is none.
    pub open spec fn needed_stream(self) -> Result<u64, ErrorView> {
        match self.stream {
            Some(s) => Ok(s),
            None => Err(
                ErrorView::Unrecoverable("GraphRecordCtx: no captured stream available"@),
            ),
        }
    }

    /// The captured stream, or the error where there is none.
    pub fn require_stream(&self) -> (r: Result<u64, GpuError>)
        ensures
            error::outcome(r) == self.needed_stream(),
    {
        match self.stream {
            Some(s) => Ok(s),
            None => Err(GpuError::unrecoverable("GraphRecordCtx: no captured stream available")),
        }
    }

    /// The graph that child nodes are added to; zero where there is none.
    pub open spec fn parent(self) -> u64 {
        match self.parent_graph {
            Some(g) => g,
            None => 0,
        }
    }

    /// The graph that child nodes are added to; zero where there is none.
    pub fn parent_graph(&self) -> (g: u64)
        ensures
            g == self.parent(),
    {
        match self.parent_graph {
            Some(g) => g,
            None => 0,
        }
    }
}

/// A parent graph, and possibly a stream, to make a record context of where
/// no actor is at hand.
#[derive(Debug, Clone, Copy, PartialEq, Eq, Structural)]
pub struct MockGraphRecordCtx {
    pub parent_graph: u64,
    pub stream: Option<u64>,
}

impl MockGraphRecordCtx {
    /// With a parent graph alone.
    pub fn new(parent_graph: u64) -> (m: MockGraphRecordCtx)
        ensures
            m == (MockGraphRecordCtx { parent_graph, stream: None }),
    {
        MockGraphRecordCtx { parent_graph, stream: None }
    }

    /// With a captured stream as well.
    pub fn with_stream(self, stream: u64) -> (m: MockGraphRecordCtx)
        ensures
            m == (MockGraphRecordCtx { stream: Some(stream), ..self }),
    {
        MockGraphRecordCtx { parent_graph: self.parent_graph, stream: Some(stream) }
    }

    pub fn parent_graph(&self) -> (g: u64)
        ensures
            g == self.parent_graph,
    {
        self.parent_graph
    }

    pub fn stream(&self) -> (s: Option<u64>)
        ensures
            s == self.stream,
    {
        self.stream
    }

    /// The record context; it has no library handles.
    pub fn as_ctx(&self) -> (c: GraphRecordCtx)
        ensures
            c == (GraphRecordCtx {
                stream: self.stream,
                blas: None,
                rng: None,
                fft: None,
                parent_graph: Some(self.parent_graph),
            }),
    {
        GraphRecordCtx {
            stream: self.stream,
            blas: None,
            rng: None,
            fft: None,
            parent_graph: Some(self.parent_graph),
        }
    }
}

/// Arguments of a recorded matrix product.
pub struct SgemmArgs {
    pub a: GpuRef<F32>,
    pub b: GpuRef<F32>,
    pub c: GpuRef<F32>,
    pub m: i32,
    pub n: i32,
    pub k: i32,
    pub alpha: F32,
    pub beta: F32,
}

/// Outside work that records one operation.
#[allow(inconsistent_fields)]
pub enum RecordCall {
    /// Nothing is left to do.
    Nothing,
    Sgemm { stream: u64, blas: u64, args: SgemmArgs },
    Memcpy { stream: u64, src: GpuRef<F32>, dst: GpuRef<F32> },
    RngFillUniform { stream: u64, rng: u64, dst: GpuRef<F32> },
    FftR2C { stream: u64, plan: u64, src: GpuRef<F32>, dst: GpuRef<C32> },
    AddChildGraph { parent: u64, child: u64 },
}

/// An operation of a script. It is recorded once; what it gives is the outside
/// work to do, or the error that ends the recording.
pub trait GraphOp {
    fn record(&mut self, ctx: &GraphRecordCtx) -> (r: Result<RecordCall, GpuError>);

    /// Name for telemetry.
    fn op_name(&self) -> (s: &'static str)
        default_ensures
            s@ == "graph_op"@,
    {
        "graph_op"
    }
}

/// An operation that carries its own request and is recorded from it.
pub trait GraphOpRecord {
    fn record(&self, ctx: &GraphRecordCtx, mem: &MemoryTable) -> (r: Result<RecordCall, GpuError>);
}

/// The operations of the older surface.
pub enum GraphOpLegacy {
    Sgemm(SgemmOp),
    Memcpy(MemcpyOp),
    RngFillUniform(RngFillUniformOp),
    FftR2C(FftR2COp),
}

impl GraphOp for GraphOpLegacy {
    fn record(&mut self, ctx: &GraphRecordCtx) -> (r: Result<RecordCall, GpuError>)
        ensures
            match *old(self) {
                GraphOpLegacy::Sgemm(op) => error::outcome(r) == op.recording(*ctx)
                    && *final(self) == GraphOpLegacy::Sgemm(op.after(*ctx)),
                GraphOpLegacy::Memcpy(op) => error::outcome(r) == op.recording(*ctx)
                    && *final(self) == GraphOpLegacy::Memcpy(op.after(*ctx)),
                GraphOpLegacy::RngFillUniform(op) => error::outcome(r) == op.recording(*ctx)
                    && *final(self) == GraphOpLegacy::RngFillUniform(op.after(*ctx)),
                GraphOpLegacy::FftR2C(op) => error::outcome(r) == op.recording(*ctx)
                    && *final(self) == GraphOpLegacy::FftR2C(op.after(*ctx)),
            },
    {
        match self {
            GraphOpLegacy::Sgemm(op) => op.record(ctx),
            GraphOpLegacy::Memcpy(op) => op.record(ctx),
            GraphOpLegacy::RngFillUniform(op) => op.record(ctx),
            GraphOpLegacy::FftR2C(op) => op.record(ctx),
        }
    }

    fn op_name(&self) -> (s: &'static str)
        ensures
            s@ == match *self {
                GraphOpLegacy::Sgemm(_) => "graph::sgemm"@,
                GraphOpLegacy::Memcpy(_) => "graph::memcpy"@,
                GraphOpLegacy::RngFillUniform(_) => "graph::rng_fill_uniform"@,
                GraphOpLegacy::FftR2C(_) => "graph::fft_r2c"@,
            },
    {
        match self {
            GraphOpLegacy::Sgemm(op) => op.op_name(),
            GraphOpLegacy::Memcpy(op) => op.op_name(),
            GraphOpLegacy::RngFillUniform(op) => op.op_name(),
            GraphOpLegacy::FftR2C(op) => op.op_name(),
        }
    }
}

} // verus!
