//! Activation, softmax, dropout and local response normalisation.

use vstd::prelude::*;
use vstd::slice::slice_to_vec;

use crate::dtype::{CudnnSupported, F32, F64};
use crate::error;
use crate::error::GpuError;
use crate::gpu_ref::GpuRef;
use crate::kernel::blas::Scalar;
use crate::kernel::cudnn::conv;
use crate::kernel::cudnn::conv::dtype_tag;
use crate::kernel::cudnn::dispatch;
use crate::kernel::cudnn::dispatch::{not_available, CudnnDispatch};
use crate::kernel::cudnn::graph;
use crate::kernel::cudnn::graph::{GraphView, OpSpec, OpView, OperationGraphSpec, PointwiseMode};
use crate::kernel::cudnn::tensor;
use crate::kernel::cudnn::tensor::{DtypeTag, TensorLayout, TensorSpec, TensorView};

verus! {

/// Activation function.
#[derive(Debug, Clone, Copy, PartialEq, Eq, Hash, Structural)]
pub enum ActivationKind {
    Relu,
    Sigmoid,
    Tanh,
    Gelu,
    GeluApprox,
    Swish,
    Elu,
    Softplus,
    Identity,
}

/// `cudnnActivationMode_t`, as far as activations map to it.
#[derive(Debug, Clone, Copy, PartialEq, Eq, Hash, Structural)]
pub enum CudnnActivationMode {
    Sigmoid,
    Relu,
    Tanh,
    Elu,
    Swish,
}

impl ActivationKind {
    /// The elementwise operation of the activation.
    pub open spec fn spec_pointwise_mode(self) -> PointwiseMode {
        match self {
            ActivationKind::Relu => PointwiseMode::Relu,
            ActivationKind::Sigmoid => PointwiseMode::Sigmoid,
            ActivationKind::Tanh => PointwiseMode::Tanh,
            ActivationKind::Gelu => PointwiseMode::Gelu,
            ActivationKind::GeluApprox => PointwiseMode::GeluApprox,
            ActivationKind::Swish => PointwiseMode::Swish,
            ActivationKind::Elu => PointwiseMode::Elu,
            ActivationKind::Softplus => PointwiseMode::Softplus,
            ActivationKind::Identity => PointwiseMode::Identity,
        }
    }

    /// The elementwise operation of the activation.
    pub fn pointwise_mode(self) -> (m: PointwiseMode)
        ensures
            m == self.spec_pointwise_mode(),
    {
        match self {
            ActivationKind::Relu => PointwiseMode::Relu,
            ActivationKind::Sigmoid => PointwiseMode::Sigmoid,
            ActivationKind::Tanh => PointwiseMode::Tanh,
            ActivationKind::Gelu => PointwiseMode::Gelu,
            ActivationKind::GeluApprox => PointwiseMode::GeluApprox,
            ActivationKind::Swish => PointwiseMode::Swish,
            ActivationKind::Elu => PointwiseMode::Elu,
            ActivationKind::Softplus => PointwiseMode::Softplus,
            ActivationKind::Identity => PointwiseMode::Identity,
        }
    }

    /// The activation mode of the older API. What it does not have falls back
    /// to the rectifier.
    pub open spec fn spec_legacy_mode(self) -> CudnnActivationMode {
        match self {
            ActivationKind::Relu => CudnnActivationMode::Relu,
            ActivationKind::Sigmoid => CudnnActivationMode::Sigmoid,
            ActivationKind::Tanh => CudnnActivationMode::Tanh,
            ActivationKind::Gelu => CudnnActivationMode::Relu,
            ActivationKind::GeluApprox => CudnnActivationMode::Relu,
            ActivationKind::Swish => CudnnActivationMode::Swish,
            ActivationKind::Elu => CudnnActivationMode::Elu,
            ActivationKind::Softplus => CudnnActivationMode::Relu,
            ActivationKind::Identity => CudnnActivationMode::Relu,
        }
    }

    /// The activation mode of the older API. What it does not have falls back
    /// to the rectifier.
    pub fn cudnn_legacy_mode(self) -> (m: CudnnActivationMode)
        ensures
            m == self.spec_legacy_mode(),
    {
        match self {
            ActivationKind::Relu => CudnnActivationMode::Relu,
            ActivationKind::Sigmoid => CudnnActivationMode::Sigmoid,
            ActivationKind::Tanh => CudnnActivationMode::Tanh,
            ActivationKind::Gelu => CudnnActivationMode::Relu,
            ActivationKind::GeluApprox => CudnnActivationMode::Relu,
            ActivationKind::Swish => CudnnActivationMode::Swish,
            ActivationKind::Elu => CudnnActivationMode::Elu,
            ActivationKind::Softplus => CudnnActivationMode::Relu,
            ActivationKind::Identity => CudnnActivationMode::Relu,
        }
    }
}

/// Activation of a tensor.
pub struct ActivationFwdRequest<T: CudnnSupported> {
    pub kind: ActivationKind,
    pub x: GpuRef<T>,
    pub y: GpuRef<T>,
    pub dims: Vec<i64>,
    pub layout: TensorLayout,
    pub alpha: Scalar,
    pub beta: Scalar,
    pub reply: u64,
}

/// Graph of an activation.
pub open spec fn activation_graph(
    dtype: DtypeTag,
    dims: Seq<i64>,
    layout: TensorLayout,
    kind: ActivationKind,
) -> GraphView {
    GraphView::empty("activation_fwd"@).with_tensor(
        TensorView::packed(1, dtype, dims, layout),
    ).with_tensor(TensorView::packed(2, dtype, dims, layout)).with_op(
        OpView::Pointwise {
            mode: kind.spec_pointwise_mode(),
            x: 1,
            b: None,
            y: 2,
            compute_dtype: dtype,
            alpha1: F64(F64::ONE_BITS),
            alpha2: F64(0),
        },
    )
}

/// Graph of an activation.
pub fn build_activation_fwd_graph(
    dtype: DtypeTag,
    dims: &[i64],
    layout: TensorLayout,
    kind: ActivationKind,
) -> (g: OperationGraphSpec)
    requires
        tensor::packable(dims@, layout),
    ensures
        g@ == activation_graph(dtype, dims@, layout, kind),
{
    let mut g = OperationGraphSpec::new("activation_fwd");
    let x = g.add_tensor(TensorSpec::new(1, dtype, slice_to_vec(dims), layout));
    let y = g.add_tensor(TensorSpec::new(2, dtype, slice_to_vec(dims), layout));
    g.add_op(
        OpSpec::Pointwise {
            mode: kind.pointwise_mode(),
            x,
            b: None,
            y,
            compute_dtype: dtype,
            alpha1: F64(F64::ONE_BITS),
            alpha2: F64(0),
        },
    );
    g
}

impl<T: CudnnSupported> ActivationFwdRequest<T> {
    /// Graph of the request.
    pub fn graph_spec(&self) -> (g: OperationGraphSpec)
        requires
            conv::spec_tag(T::spec_element()) is Some,
            tensor::packable(self.dims@, self.layout),
        ensures
            g@ == activation_graph(
                conv::spec_tag(T::spec_element())->0,
                self.dims@,
                self.layout,
                self.kind,
            ),
    {
        build_activation_fwd_graph(
            dtype_tag::<T>(),
            self.dims.as_slice(),
            self.layout,
            self.kind,
        )
    }
}

impl<T: CudnnSupported> CudnnDispatch for ActivationFwdRequest<T> {
    fn dtype_name(&self) -> (s: &'static str)
        ensures
            s@ == T::spec_element().spec_name(),
    {
        T::name()
    }

    fn op_kind(&self) -> (s: &'static str)
        ensures
            s@ == "activation_fwd"@,
    {
        "activation_fwd"
    }

    fn dispatch(&self) -> (r: Result<(), GpuError>)
        ensures
            error::outcome(r) == dispatch::unavailable(
                "ActivationFwdRequest dispatch requires the v9 frontend graph builder; skeleton entry point only"@,
            ),
    {
        not_available(
            "ActivationFwdRequest dispatch requires the v9 frontend graph builder; skeleton entry point only",
        )
    }
}

/// What a softmax runs over.
#[derive(Debug, Clone, Copy, PartialEq, Eq, Hash, Structural)]
pub enum SoftmaxMode {
    Instance,
    Channel,
}

/// Softmax of a tensor.
pub struct SoftmaxFwdRequest<T: CudnnSupported> {
    pub mode: SoftmaxMode,
    pub x: GpuRef<T>,
    pub y: GpuRef<T>,
    pub dims: Vec<i64>,
    pub layout: TensorLayout,
    pub alpha: Scalar,
    pub beta: Scalar,
    pub reply: u64,
}

impl<T: CudnnSupported> CudnnDispatch for SoftmaxFwdRequest<T> {
    fn dtype_name(&self) -> (s: &'static str)
        ensures
            s@ == T::spec_element().spec_name(),
    {
        T::name()
    }

    fn op_kind(&self) -> (s: &'static str)
        ensures
            s@ == "softmax_fwd"@,
    {
        "softmax_fwd"
    }

    fn dispatch(&self) -> (r: Result<(), GpuError>)
        ensures
            error::outcome(r) == dispatch::unavailable(
                "SoftmaxFwdRequest dispatch requires the v9 frontend graph builder; skeleton entry point only"@,
            ),
    {
        not_available(
            "SoftmaxFwdRequest dispatch requires the v9 frontend graph builder; skeleton entry point only",
        )
    }
}

/// Dropout: `y = x * mask / (1 - p)`, with the mask kept for the gradient.
pub struct DropoutFwdRequest<T: CudnnSupported> {
    pub x: GpuRef<T>,
    pub y: GpuRef<T>,
    pub mask: GpuRef<u8>,
    pub dims: Vec<i64>,
    pub layout: TensorLayout,
    pub probability: F32,
    pub seed: u64,
    pub reply: u64,
}

impl<T: CudnnSupported> CudnnDispatch for DropoutFwdRequest<T> {
    fn dtype_name(&self) -> (s: &'static str)
        ensures
            s@ == T::spec_element().spec_name(),
    {
        T::name()
    }

    fn op_kind(&self) -> (s: &'static str)
        ensures
            s@ == "dropout_fwd"@,
    {
        "dropout_fwd"
    }

    fn dispatch(&self) -> (r: Result<(), GpuError>)
        ensures
            error::outcome(r) == dispatch::unavailable(
                "DropoutFwdRequest dispatch requires the v9 frontend graph builder; skeleton entry point only"@,
            ),
    {
        not_available(
            "DropoutFwdRequest dispatch requires the v9 frontend graph builder; skeleton entry point only",
        )
    }
}

/// Parameters of a local response normalisation. The factors are in
/// millionths.
#[derive(Debug, Clone, Copy, PartialEq, Eq, Hash, Structural)]
pub struct LrnParams {
    pub n: u32,
    pub alpha_milli: i64,
    pub beta_milli: i64,
    pub k_milli: i64,
}

impl LrnParams {
    /// Parameters over a window of `n` channels, the others in millionths.
    pub fn new(n: u32, alpha_milli: i64, beta_milli: i64, k_milli: i64) -> (p: LrnParams)
        ensures
            p == (LrnParams { n, alpha_milli, beta_milli, k_milli }),
    {
        LrnParams { n, alpha_milli, beta_milli, k_milli }
    }
}

/// Local response normalisation of a tensor.
pub struct LrnFwdRequest<T: CudnnSupported> {
    pub x: GpuRef<T>,
    pub y: GpuRef<T>,
    pub dims: Vec<i64>,
    pub layout: TensorLayout,
    pub params: LrnParams,
    pub alpha: Scalar,
    pub beta: Scalar,
    pub reply: u64,
}

impl<T: CudnnSupported> CudnnDispatch for LrnFwdRequest<T> {
    fn dtype_name(&self) -> (s: &'static str)
        ensures
            s@ == T::spec_element().spec_name(),
    {
        T::name()
    }

    fn op_kind(&self) -> (s: &'static str)
        ensures
            s@ == "lrn_fwd"@,
    {
        "lrn_fwd"
    }

    fn dispatch(&self) -> (r: Result<(), GpuError>)
        ensures
            error::outcome(r) == dispatch::unavailable(
                "LrnFwdRequest dispatch requires the v9 frontend graph builder; skeleton entry point only"@,
            ),
    {
        not_available(
            "LrnFwdRequest dispatch requires the v9 frontend graph builder; skeleton entry point only",
        )
    }
}

/// Both tensors that the operation of an activation's graph names are the
/// graph's own.
pub proof fn law_activation_graph_names_own_tensors(
    dtype: DtypeTag,
    dims: Seq<i64>,
    layout: TensorLayout,
    kind: ActivationKind,
)
    ensures
        activation_graph(dtype, dims, layout, kind).names_own_tensors(),
{
    let g = activation_graph(dtype, dims, layout, kind);
    assert(g.tensors[0].uid == 1 && g.tensors[1].uid == 2);
}

/// The graph of an activation applies the activation's own elementwise operation to
/// its input and writes its output, both with the dimensions that were given.
pub proof fn law_activation_graph(
    dtype: DtypeTag,
    dims: Seq<i64>,
    layout: TensorLayout,
    kind: ActivationKind,
)
    ensures
        ({
            let g = activation_graph(dtype, dims, layout, kind);
            &&& g.name == "activation_fwd"@
            &&& g.tensors.len() == 2
            &&& graph::lists_tensor(g, 0, dtype, dims, layout, false)
            &&& graph::lists_tensor(g, 1, dtype, dims, layout, false)
            &&& g.ops.len() == 1
            &&& g.ops[0] matches OpView::Pointwise {
                mode,
                x,
                b,
                y,
                compute_dtype,
                alpha1,
                alpha2,
            } && {
                &&& mode == kind.spec_pointwise_mode()
                &&& x == g.tensors[0].uid
                &&& b is None
                &&& y == g.tensors[1].uid
                &&& compute_dtype == dtype
                &&& alpha1.0 == 0x3ff0_0000_0000_0000
                &&& alpha2.0 == 0
            }
        }),
{
}

/// Every activation is the elementwise operation of its own name, so no two
/// activations are the same operation.
pub proof fn law_activation_modes(a: ActivationKind, b: ActivationKind)
    ensures
        a.spec_pointwise_mode() == b.spec_pointwise_mode() <==> a == b,
        a is Relu ==> a.spec_pointwise_mode() is Relu && a.spec_legacy_mode() is Relu,
        a is Sigmoid ==> a.spec_pointwise_mode() is Sigmoid && a.spec_legacy_mode() is Sigmoid,
        a is Tanh ==> a.spec_pointwise_mode() is Tanh && a.spec_legacy_mode() is Tanh,
        a is Gelu ==> a.spec_pointwise_mode() is Gelu && a.spec_legacy_mode() is Relu,
        a is GeluApprox ==> a.spec_pointwise_mode() is GeluApprox && a.spec_legacy_mode() is Relu,
        a is Swish ==> a.spec_pointwise_mode() is Swish && a.spec_legacy_mode() is Swish,
        a is Elu ==> a.spec_pointwise_mode() is Elu && a.spec_legacy_mode() is Elu,
        a is Softplus ==> a.spec_pointwise_mode() is Softplus && a.spec_legacy_mode() is Relu,
        a is Identity ==> a.spec_pointwise_mode() is Identity && a.spec_legacy_mode() is Relu,
{
}

} // verus!
