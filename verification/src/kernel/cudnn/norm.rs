//! Normalisations and their gradients.

use vstd::prelude::*;
use vstd::slice::slice_to_vec;

use crate::dtype::{CudnnSupported, F64};
use crate::error;
use crate::error::GpuError;
use crate::gpu_ref::GpuRef;
use crate::kernel::cudnn::conv;
use crate::kernel::cudnn::conv::dtype_tag;
use crate::kernel::cudnn::dispatch;
use crate::kernel::cudnn::dispatch::{not_available, CudnnDispatch};
use crate::kernel::cudnn::graph;
use crate::kernel::cudnn::graph::{
    GraphView, NormMode, NormPhase, OpSpec, OpView, OperationGraphSpec,
};
use crate::kernel::cudnn::tensor;
use crate::kernel::cudnn::tensor::{DtypeTag, TensorLayout, TensorSpec, TensorView};

verus! {

/// Dimensions of a normalisation's scale and bias.
pub open spec fn channel_dims(c: i64) -> Seq<i64> {
    seq![1i64, c, 1, 1]
}

proof fn lemma_channel_packable(c: i64, layout: TensorLayout)
    ensures
        tensor::packable(channel_dims(c), layout),
{
    conv::lemma_bias_packable(channel_dims(c), layout);
    assert(conv::spec_bias_dims(channel_dims(c)) =~= channel_dims(c));
}

fn per_channel(c: i64) -> (d: Vec<i64>)
    ensures
        d@ == channel_dims(c),
{
    let d = vec![1, c, 1, 1];
    assert(d@ =~= channel_dims(c));
    d
}

/// Graph of a normalisation.
pub open spec fn norm_fwd_graph(
    mode: NormMode,
    phase: NormPhase,
    dtype: DtypeTag,
    dims: Seq<i64>,
    layout: TensorLayout,
    epsilon: F64,
    exp_avg_factor: F64,
) -> GraphView {
    GraphView::empty("norm_fwd"@).with_tensor(
        TensorView::packed(1, dtype, dims, layout),
    ).with_tensor(
        TensorView::packed(2, dtype, channel_dims(dims[1]), layout),
    ).with_tensor(
        TensorView::packed(3, dtype, channel_dims(dims[1]), layout),
    ).with_tensor(
        TensorView::packed(4, dtype, dims, layout),
    ).with_op(
        OpView::NormFwd {
            mode,
            phase,
            x: 1,
            scale: 2,
            bias: 3,
            mean: None,
            var: None,
            y: 4,
            compute_dtype: dtype,
            epsilon,
            exp_avg_factor,
        },
    )
}

/// Graph of a normalisation.
pub fn build_norm_fwd_graph(
    mode: NormMode,
    phase: NormPhase,
    dtype: DtypeTag,
    dims: &[i64],
    layout: TensorLayout,
    epsilon: F64,
    exp_avg_factor: F64,
) -> (g: OperationGraphSpec)
    requires
        dims.len() >= 2,
        tensor::packable(dims@, layout),
    ensures
        g@ == norm_fwd_graph(mode, phase, dtype, dims@, layout, epsilon, exp_avg_factor),
{
    let c: i64 = dims[1];
    proof {
        lemma_channel_packable(c, layout);
    }
    let mut g = OperationGraphSpec::new("norm_fwd");
    let x = g.add_tensor(TensorSpec::new(1, dtype, slice_to_vec(dims), layout));
    let scale = g.add_tensor(TensorSpec::new(2, dtype, per_channel(c), layout));
    let bias = g.add_tensor(TensorSpec::new(3, dtype, per_channel(c), layout));
    let y = g.add_tensor(TensorSpec::new(4, dtype, slice_to_vec(dims), layout));
    g.add_op(
        OpSpec::NormFwd {
            mode,
            phase,
            x,
            scale,
            bias,
            mean: None,
            var: None,
            y,
            compute_dtype: dtype,
            epsilon,
            exp_avg_factor,
        },
    );
    g
}

/// Normalisation over the batch, with running statistics.
pub struct BatchNormRequest<T: CudnnSupported> {
    pub phase: NormPhase,
    pub x: GpuRef<T>,
    pub y: GpuRef<T>,
    pub scale: GpuRef<T>,
    pub bias: GpuRef<T>,
    pub running_mean: Option<GpuRef<T>>,
    pub running_var: Option<GpuRef<T>>,
    pub saved_mean: Option<GpuRef<T>>,
    pub saved_var: Option<GpuRef<T>>,
    pub dims: Vec<i64>,
    pub layout: TensorLayout,
    pub epsilon: F64,
    pub exp_avg_factor: F64,
    pub reply: u64,
}

impl<T: CudnnSupported> BatchNormRequest<T> {
    /// Graph of the request.
    pub fn graph_spec(&self) -> (g: OperationGraphSpec)
        requires
            conv::spec_tag(T::spec_element()) is Some,
            self.dims.len() >= 2,
            tensor::packable(self.dims@, self.layout),
        ensures
            g@ == norm_fwd_graph(
                NormMode::BatchNorm,
                self.phase,
                conv::spec_tag(T::spec_element())->0,
                self.dims@,
                self.layout,
                self.epsilon,
                self.exp_avg_factor,
            ),
    {
        build_norm_fwd_graph(
            NormMode::BatchNorm,
            self.phase,
            dtype_tag::<T>(),
            self.dims.as_slice(),
            self.layout,
            self.epsilon,
            self.exp_avg_factor,
        )
    }
}

impl<T: CudnnSupported> CudnnDispatch for BatchNormRequest<T> {
    fn dtype_name(&self) -> (s: &'static str)
        ensures
            s@ == T::spec_element().spec_name(),
    {
        T::name()
    }

    fn op_kind(&self) -> (s: &'static str)
        ensures
            s@ == "batchnorm"@,
    {
        "batchnorm"
    }

    fn dispatch(&self) -> (r: Result<(), GpuError>)
        ensures
            error::outcome(r) == dispatch::unavailable(
                "BatchNormRequest dispatch requires the v9 frontend graph builder; skeleton entry point only"@,
            ),
    {
        not_available(
            "BatchNormRequest dispatch requires the v9 frontend graph builder; skeleton entry point only",
        )
    }
}

/// Normalisation over the trailing axes.
pub struct LayerNormRequest<T: CudnnSupported> {
    pub x: GpuRef<T>,
    pub y: GpuRef<T>,
    pub scale: GpuRef<T>,
    pub bias: GpuRef<T>,
    pub saved_mean: Option<GpuRef<T>>,
    pub saved_var: Option<GpuRef<T>>,
    pub dims: Vec<i64>,
    pub norm_axes: Vec<i64>,
    pub layout: TensorLayout,
    pub epsilon: F64,
    pub reply: u64,
}

impl<T: CudnnSupported> LayerNormRequest<T> {
    /// Graph of the request.
    pub fn graph_spec(&self) -> (g: OperationGraphSpec)
        requires
            conv::spec_tag(T::spec_element()) is Some,
            self.dims.len() >= 2,
            tensor::packable(self.dims@, self.layout),
        ensures
            g@ == norm_fwd_graph(
                NormMode::LayerNorm,
                NormPhase::Training,
                conv::spec_tag(T::spec_element())->0,
                self.dims@,
                self.layout,
                self.epsilon,
                F64(0),
            ),
    {
        build_norm_fwd_graph(
            NormMode::LayerNorm,
            NormPhase::Training,
            dtype_tag::<T>(),
            self.dims.as_slice(),
            self.layout,
            self.epsilon,
            F64(0),
        )
    }
}

impl<T: CudnnSupported> CudnnDispatch for LayerNormRequest<T> {
    fn dtype_name(&self) -> (s: &'static str)
        ensures
            s@ == T::spec_element().spec_name(),
    {
        T::name()
    }

    fn op_kind(&self) -> (s: &'static str)
        ensures
            s@ == "layernorm"@,
    {
        "layernorm"
    }

    fn dispatch(&self) -> (r: Result<(), GpuError>)
        ensures
            error::outcome(r) == dispatch::unavailable(
                "LayerNormRequest dispatch requires the v9 frontend graph builder; skeleton entry point only"@,
            ),
    {
        not_available(
            "LayerNormRequest dispatch requires the v9 frontend graph builder; skeleton entry point only",
        )
    }
}

/// Normalisation per sample and channel.
pub struct InstanceNormRequest<T: CudnnSupported> {
    pub x: GpuRef<T>,
    pub y: GpuRef<T>,
    pub scale: GpuRef<T>,
    pub bias: GpuRef<T>,
    pub saved_mean: Option<GpuRef<T>>,
    pub saved_var: Option<GpuRef<T>>,
    pub dims: Vec<i64>,
    pub layout: TensorLayout,
    pub epsilon: F64,
    pub reply: u64,
}

impl<T: CudnnSupported> InstanceNormRequest<T> {
    /// Graph of the request.
    pub fn graph_spec(&self) -> (g: OperationGraphSpec)
        requires
            conv::spec_tag(T::spec_element()) is Some,
            self.dims.len() >= 2,
            tensor::packable(self.dims@, self.layout),
        ensures
            g@ == norm_fwd_graph(
                NormMode::InstanceNorm,
                NormPhase::Training,
                conv::spec_tag(T::spec_element())->0,
                self.dims@,
                self.layout,
                self.epsilon,
                F64(0),
            ),
    {
        build_norm_fwd_graph(
            NormMode::InstanceNorm,
            NormPhase::Training,
            dtype_tag::<T>(),
            self.dims.as_slice(),
            self.layout,
            self.epsilon,
            F64(0),
        )
    }
}

impl<T: CudnnSupported> CudnnDispatch for InstanceNormRequest<T> {
    fn dtype_name(&self) -> (s: &'static str)
        ensures
            s@ == T::spec_element().spec_name(),
    {
        T::name()
    }

    fn op_kind(&self) -> (s: &'static str)
        ensures
            s@ == "instancenorm"@,
    {
        "instancenorm"
    }

    fn dispatch(&self) -> (r: Result<(), GpuError>)
        ensures
            error::outcome(r) == dispatch::unavailable(
                "InstanceNormRequest dispatch requires the v9 frontend graph builder; skeleton entry point only"@,
            ),
    {
        not_available(
            "InstanceNormRequest dispatch requires the v9 frontend graph builder; skeleton entry point only",
        )
    }
}

/// Normalisation per sample and group of channels.
pub struct GroupNormRequest<T: CudnnSupported> {
    pub x: GpuRef<T>,
    pub y: GpuRef<T>,
    pub scale: GpuRef<T>,
    pub bias: GpuRef<T>,
    pub saved_mean: Option<GpuRef<T>>,
    pub saved_var: Option<GpuRef<T>>,
    pub dims: Vec<i64>,
    pub groups: u32,
    pub layout: TensorLayout,
    pub epsilon: F64,
    pub reply: u64,
}

impl<T: CudnnSupported> CudnnDispatch for GroupNormRequest<T> {
    fn dtype_name(&self) -> (s: &'static str)
        ensures
            s@ == T::spec_element().spec_name(),
    {
        T::name()
    }

    fn op_kind(&self) -> (s: &'static str)
        ensures
            s@ == "groupnorm"@,
    {
        "groupnorm"
    }

    fn dispatch(&self) -> (r: Result<(), GpuError>)
        ensures
            error::outcome(r) == dispatch::unavailable(
                "GroupNormRequest dispatch requires the v9 frontend graph builder; skeleton entry point only"@,
            ),
    {
        not_available(
            "GroupNormRequest dispatch requires the v9 frontend graph builder; skeleton entry point only",
        )
    }
}

/// Gradients of a normalisation.
pub struct NormBwdRequest<T: CudnnSupported> {
    pub mode: NormMode,
    pub x: GpuRef<T>,
    pub dy: GpuRef<T>,
    pub scale: GpuRef<T>,
    pub mean: GpuRef<T>,
    pub var: GpuRef<T>,
    pub dx: GpuRef<T>,
    pub dscale: GpuRef<T>,
    pub dbias: GpuRef<T>,
    pub dims: Vec<i64>,
    pub layout: TensorLayout,
    pub epsilon: F64,
    pub reply: u64,
}

impl<T: CudnnSupported> CudnnDispatch for NormBwdRequest<T> {
    fn dtype_name(&self) -> (s: &'static str)
        ensures
            s@ == T::spec_element().spec_name(),
    {
        T::name()
    }

    fn op_kind(&self) -> (s: &'static str)
        ensures
            s@ == match self.mode {
                NormMode::BatchNorm => "batchnorm_bwd"@,
                NormMode::LayerNorm => "layernorm_bwd"@,
                NormMode::InstanceNorm => "instancenorm_bwd"@,
                NormMode::GroupNorm => "groupnorm_bwd"@,
                NormMode::RmsNorm => "rmsnorm_bwd"@,
            },
    {
        match self.mode {
            NormMode::BatchNorm => "batchnorm_bwd",
            NormMode::LayerNorm => "layernorm_bwd",
            NormMode::InstanceNorm => "instancenorm_bwd",
            NormMode::GroupNorm => "groupnorm_bwd",
            NormMode::RmsNorm => "rmsnorm_bwd",
        }
    }

    fn dispatch(&self) -> (r: Result<(), GpuError>)
        ensures
            error::outcome(r) == dispatch::unavailable(
                "NormBwdRequest dispatch requires the v9 frontend graph builder; skeleton entry point only"@,
            ),
    {
        not_available(
            "NormBwdRequest dispatch requires the v9 frontend graph builder; skeleton entry point only",
        )
    }
}

/// Every tensor that the operation of a normalisation's graph names is one of
/// the graph's own.
pub proof fn law_norm_graph_names_own_tensors(
    mode: NormMode,
    phase: NormPhase,
    dtype: DtypeTag,
    dims: Seq<i64>,
    layout: TensorLayout,
    epsilon: F64,
    exp_avg_factor: F64,
)
    ensures
        norm_fwd_graph(
            mode,
            phase,
            dtype,
            dims,
            layout,
            epsilon,
            exp_avg_factor,
        ).names_own_tensors(),
{
    let g = norm_fwd_graph(mode, phase, dtype, dims, layout, epsilon, exp_avg_factor);
    assert(g.tensors[0].uid == 1 && g.tensors[1].uid == 2);
    assert(g.tensors[2].uid == 3 && g.tensors[3].uid == 4);
}

/// The graph of a normalisation reads its input, its scale and its bias and writes
/// an output of the input's dimensions. Scale and bias have one value per channel.
/// Running statistics are not part of the graph.
pub proof fn law_norm_fwd_graph(
    mode: NormMode,
    phase: NormPhase,
    dtype: DtypeTag,
    dims: Seq<i64>,
    layout: TensorLayout,
    epsilon: F64,
    exp_avg_factor: F64,
)
    ensures
        ({
            let g = norm_fwd_graph(mode, phase, dtype, dims, layout, epsilon, exp_avg_factor);
            let per_channel = seq![1i64, dims[1], 1, 1];
            &&& g.name == "norm_fwd"@
            &&& g.tensors.len() == 4
            &&& graph::lists_tensor(g, 0, dtype, dims, layout, false)
            &&& graph::lists_tensor(g, 1, dtype, per_channel, layout, false)
            &&& graph::lists_tensor(g, 2, dtype, per_channel, layout, false)
            &&& graph::lists_tensor(g, 3, dtype, dims, layout, false)
            &&& g.ops.len() == 1
            &&& g.ops[0] matches OpView::NormFwd {
                mode: of,
                phase: at,
                x,
                scale,
                bias,
                mean,
                var,
                y,
                compute_dtype,
                epsilon: eps,
                exp_avg_factor: factor,
            } && {
                &&& of == mode
                &&& at == phase
                &&& x == g.tensors[0].uid
                &&& scale == g.tensors[1].uid
                &&& bias == g.tensors[2].uid
                &&& y == g.tensors[3].uid
                &&& mean is None && var is None
                &&& compute_dtype == dtype
                &&& eps == epsilon
                &&& factor == exp_avg_factor
            }
        }),
{
}

} // verus!
