//! Barrier counts of asynchronous copy pipelines.

use vstd::prelude::*;

verus! {

/// Arrivals on the barrier of a pipeline with this many stages: the producer's
/// and the consumer's in each stage.
pub fn mbarrier_arrival_count(stages: u32) -> (n: u32)
    requires
        2 * stages <= u32::MAX,
    ensures
        n == 2 * stages,
{
    stages * 2
}

/// Number of buffers of a pipeline.
#[derive(Debug, Clone, Copy, PartialEq, Eq, Structural)]
pub enum PipelineStages {
    Double,
    Triple,
    Quad,
}

impl PipelineStages {
    /// Number of buffers of a pipeline.
    pub open spec fn spec_count(self) -> u32 {
        match self {
            PipelineStages::Double => 2,
            PipelineStages::Triple => 3,
            PipelineStages::Quad => 4,
        }
    }

    /// Number of buffers of a pipeline.
    pub fn count(self) -> (n: u32)
        ensures
            n == self.spec_count(),
    {
        match self {
            PipelineStages::Double => 2,
            PipelineStages::Triple => 3,
            PipelineStages::Quad => 4,
        }
    }
}

/// A pipeline has the number of buffers that its name says.
pub proof fn law_pipeline_stages()
    ensures
        PipelineStages::Double.spec_count() == 2,
        PipelineStages::Triple.spec_count() == 3,
        PipelineStages::Quad.spec_count() == 4,
{
}

} // verus!
