//! Pooling and its gradient.

use vstd::prelude::*;
use vstd::slice::slice_to_vec;

use crate::dtype::CudnnSupported;
use crate::error;
use crate::error::GpuError;
use crate::gpu_ref::GpuRef;
use crate::kernel::blas::Scalar;
use crate::kernel::cudnn::conv;
use crate::kernel::cudnn::conv::dtype_tag;
use crate::kernel::cudnn::dispatch;
use crate::kernel::cudnn::dispatch::{not_available, CudnnDispatch};
use crate::kernel::cudnn::graph;
use crate::kernel::cudnn::graph::{GraphView, OpSpec, OpView, OperationGraphSpec, PoolKind};
use crate::kernel::cudnn::tensor;
use crate::kernel::cudnn::tensor::{DtypeTag, TensorLayout, TensorSpec, TensorView};

verus! {

/// What a pooling takes of its window.
#[derive(Debug, Clone, Copy, PartialEq, Eq, Hash, Structural)]
pub enum PoolMode {
    Max,
    Avg,
    AvgExcludePadding,
}

impl PoolMode {
    /// The pooling.
    pub open spec fn spec_fwd(self) -> PoolKind {
        match self {
            PoolMode::Max => PoolKind::MaxFwd,
            PoolMode::Avg | PoolMode::AvgExcludePadding => PoolKind::AvgFwd,
        }
    }

    /// Its gradient.
    pub open spec fn spec_bwd(self) -> PoolKind {
        match self {
            PoolMode::Max => PoolKind::MaxBwd,
            PoolMode::Avg | PoolMode::AvgExcludePadding => PoolKind::AvgBwd,
        }
    }

    /// The pooling.
    pub fn fwd(self) -> (k: PoolKind)
        ensures
            k == self.spec_fwd(),
    {
        match self {
            PoolMode::Max => PoolKind::MaxFwd,
            PoolMode::Avg | PoolMode::AvgExcludePadding => PoolKind::AvgFwd,
        }
    }

    /// Its gradient.
    pub fn bwd(self) -> (k: PoolKind)
        ensures
            k == self.spec_bwd(),
    {
        match self {
            PoolMode::Max => PoolKind::MaxBwd,
            PoolMode::Avg | PoolMode::AvgExcludePadding => PoolKind::AvgBwd,
        }
    }
}

/// Shape of a pooling, one entry per spatial dimension.
#[derive(Debug, Clone, PartialEq, Eq, Hash)]
pub struct PoolParams {
    pub mode: PoolMode,
    pub window: Vec<i64>,
    pub pre_padding: Vec<i64>,
    pub post_padding: Vec<i64>,
    pub stride: Vec<i64>,
}

impl PoolParams {
    /// Pooling in two dimensions, the same in both.
    pub fn pool_2d(mode: PoolMode, kernel: i64, stride: i64, padding: i64) -> (p: PoolParams)
        ensures
            p.mode == mode,
            p.window@ == seq![kernel, kernel],
            p.pre_padding@ == seq![padding, padding],
            p.post_padding@ == seq![padding, padding],
            p.stride@ == seq![stride, stride],
    {
        let p = PoolParams {
            mode,
            window: vec![kernel, kernel],
            pre_padding: vec![padding, padding],
            post_padding: vec![padding, padding],
            stride: vec![stride, stride],
        };
        assert(p.window@ =~= seq![kernel, kernel]);
        assert(p.pre_padding@ =~= seq![padding, padding]);
        assert(p.post_padding@ =~= seq![padding, padding]);
        assert(p.stride@ =~= seq![stride, stride]);
        p
    }
}

/// Graph of a pooling.
pub open spec fn pool_fwd_graph(
    dtype: DtypeTag,
    x_dims: Seq<i64>,
    y_dims: Seq<i64>,
    layout: TensorLayout,
    p: PoolParams,
) -> GraphView {
    GraphView::empty("pool_fwd"@).with_tensor(
        TensorView::packed(1, dtype, x_dims, layout),
    ).with_tensor(
        TensorView::packed(2, dtype, y_dims, layout),
    ).with_op(
        OpView::PoolFwd {
            kind: p.mode.spec_fwd(),
            x: 1,
            y: 2,
            window: p.window@,
            pre_padding: p.pre_padding@,
            post_padding: p.post_padding@,
            stride: p.stride@,
            compute_dtype: dtype,
        },
    )
}

/// Graph of a pooling.
pub fn build_pool_fwd_graph(
    dtype: DtypeTag,
    x_dims: &[i64],
    y_dims: &[i64],
    layout: TensorLayout,
    p: &PoolParams,
) -> (g: OperationGraphSpec)
    requires
        tensor::packable(x_dims@, layout),
        tensor::packable(y_dims@, layout),
    ensures
        g@ == pool_fwd_graph(dtype, x_dims@, y_dims@, layout, *p),
{
    let mut g = OperationGraphSpec::new("pool_fwd");
    let x = g.add_tensor(TensorSpec::new(1, dtype, slice_to_vec(x_dims), layout));
    let y = g.add_tensor(TensorSpec::new(2, dtype, slice_to_vec(y_dims), layout));
    g.add_op(
        OpSpec::PoolFwd {
            kind: p.mode.fwd(),
            x,
            y,
            window: slice_to_vec(p.window.as_slice()),
            pre_padding: slice_to_vec(p.pre_padding.as_slice()),
            post_padding: slice_to_vec(p.post_padding.as_slice()),
            stride: slice_to_vec(p.stride.as_slice()),
            compute_dtype: dtype,
        },
    );
    g
}

/// Graph of the gradient of a pooling's input.
pub open spec fn pool_bwd_graph(
    dtype: DtypeTag,
    x_dims: Seq<i64>,
    y_dims: Seq<i64>,
    layout: TensorLayout,
    p: PoolParams,
) -> GraphView {
    GraphView::empty("pool_bwd"@).with_tensor(
        TensorView::packed(1, dtype, x_dims, layout),
    ).with_tensor(
        TensorView::packed(2, dtype, y_dims, layout),
    ).with_tensor(
        TensorView::packed(3, dtype, y_dims, layout),
    ).with_tensor(
        TensorView::packed(4, dtype, x_dims, layout),
    ).with_op(
        OpView::PoolBwd {
            kind: p.mode.spec_bwd(),
            x: 1,
            y: 2,
            dy: 3,
            dx: 4,
            window: p.window@,
            pre_padding: p.pre_padding@,
            post_padding: p.post_padding@,
            stride: p.stride@,
            compute_dtype: dtype,
        },
    )
}

/// Graph of the gradient of a pooling's input.
pub fn build_pool_bwd_graph(
    dtype: DtypeTag,
    x_dims: &[i64],
    y_dims: &[i64],
    layout: TensorLayout,
    p: &PoolParams,
) -> (g: OperationGraphSpec)
    requires
        tensor::packable(x_dims@, layout),
        tensor::packable(y_dims@, layout),
    ensures
        g@ == pool_bwd_graph(dtype, x_dims@, y_dims@, layout, *p),
{
    let mut g = OperationGraphSpec::new("pool_bwd");
    let x = g.add_tensor(TensorSpec::new(1, dtype, slice_to_vec(x_dims), layout));
    let y = g.add_tensor(TensorSpec::new(2, dtype, slice_to_vec(y_dims), layout));
    let dy = g.add_tensor(TensorSpec::new(3, dtype, slice_to_vec(y_dims), layout));
    let dx = g.add_tensor(TensorSpec::new(4, dtype, slice_to_vec(x_dims), layout));
    g.add_op(
        OpSpec::PoolBwd {
            kind: p.mode.bwd(),
            x,
            y,
            dy,
            dx,
            window: slice_to_vec(p.window.as_slice()),
            pre_padding: slice_to_vec(p.pre_padding.as_slice()),
            post_padding: slice_to_vec(p.post_padding.as_slice()),
            stride: slice_to_vec(p.stride.as_slice()),
            compute_dtype: dtype,
        },
    );
    g
}

/// Pooling.
pub struct PoolFwdRequest<T: CudnnSupported> {
    pub x: GpuRef<T>,
    pub y: GpuRef<T>,
    pub x_dims: Vec<i64>,
    pub y_dims: Vec<i64>,
    pub layout: TensorLayout,
    pub params: PoolParams,
    pub alpha: Scalar,
    pub beta: Scalar,
    pub reply: u64,
}

impl<T: CudnnSupported> PoolFwdRequest<T> {
    /// Graph of the request.
    pub fn graph_spec(&self) -> (g: OperationGraphSpec)
        requires
            conv::spec_tag(T::spec_element()) is Some,
            tensor::packable(self.x_dims@, self.layout),
            tensor::packable(self.y_dims@, self.layout),
        ensures
            g@ == pool_fwd_graph(
                conv::spec_tag(T::spec_element())->0,
                self.x_dims@,
                self.y_dims@,
                self.layout,
                self.params,
            ),
    {
        build_pool_fwd_graph(
            dtype_tag::<T>(),
            self.x_dims.as_slice(),
            self.y_dims.as_slice(),
            self.layout,
            &self.params,
        )
    }
}

impl<T: CudnnSupported> CudnnDispatch for PoolFwdRequest<T> {
    fn dtype_name(&self) -> (s: &'static str)
        ensures
            s@ == T::spec_element().spec_name(),
    {
        T::name()
    }

    fn op_kind(&self) -> (s: &'static str)
        ensures
            s@ == "pool_fwd"@,
    {
        "pool_fwd"
    }

    fn dispatch(&self) -> (r: Result<(), GpuError>)
        ensures
            error::outcome(r) == dispatch::unavailable(
                "PoolFwdRequest dispatch requires the v9 frontend graph builder; skeleton entry point only"@,
            ),
    {
        not_available(
            "PoolFwdRequest dispatch requires the v9 frontend graph builder; skeleton entry point only",
        )
    }
}

/// Gradient of a pooling's input.
pub struct PoolBwdRequest<T: CudnnSupported> {
    pub x: GpuRef<T>,
    pub y: GpuRef<T>,
    pub dy: GpuRef<T>,
    pub dx: GpuRef<T>,
    pub x_dims: Vec<i64>,
    pub y_dims: Vec<i64>,
    pub layout: TensorLayout,
    pub params: PoolParams,
    pub alpha: Scalar,
    pub beta: Scalar,
    pub reply: u64,
}

impl<T: CudnnSupported> PoolBwdRequest<T> {
    /// Graph of the request.
    pub fn graph_spec(&self) -> (g: OperationGraphSpec)
        requires
            conv::spec_tag(T::spec_element()) is Some,
            tensor::packable(self.x_dims@, self.layout),
            tensor::packable(self.y_dims@, self.layout),
        ensures
            g@ == pool_bwd_graph(
                conv::spec_tag(T::spec_element())->0,
                self.x_dims@,
                self.y_dims@,
                self.layout,
                self.params,
            ),
    {
        build_pool_bwd_graph(
            dtype_tag::<T>(),
            self.x_dims.as_slice(),
            self.y_dims.as_slice(),
            self.layout,
            &self.params,
        )
    }
}

impl<T: CudnnSupported> CudnnDispatch for PoolBwdRequest<T> {
    fn dtype_name(&self) -> (s: &'static str)
        ensures
            s@ == T::spec_element().spec_name(),
    {
        T::name()
    }

    fn op_kind(&self) -> (s: &'static str)
        ensures
            s@ == "pool_bwd"@,
    {
        "pool_bwd"
    }

    fn dispatch(&self) -> (r: Result<(), GpuError>)
        ensures
            error::outcome(r) == dispatch::unavailable(
                "PoolBwdRequest dispatch requires the v9 frontend graph builder; skeleton entry point only"@,
            ),
    {
        not_available(
            "PoolBwdRequest dispatch requires the v9 frontend graph builder; skeleton entry point only",
        )
    }
}

/// Every tensor that the operation of a pooling's graphs names is one of the
/// graph's own.
pub proof fn law_pool_graphs_name_own_tensors(
    dtype: DtypeTag,
    x_dims: Seq<i64>,
    y_dims: Seq<i64>,
    layout: TensorLayout,
    p: PoolParams,
)
    ensures
        pool_fwd_graph(dtype, x_dims, y_dims, layout, p).names_own_tensors(),
        pool_bwd_graph(dtype, x_dims, y_dims, layout, p).names_own_tensors(),
{
    let f = pool_fwd_graph(dtype, x_dims, y_dims, layout, p);
    assert(f.tensors[0].uid == 1 && f.tensors[1].uid == 2);
    let b = pool_bwd_graph(dtype, x_dims, y_dims, layout, p);
    assert(b.tensors[0].uid == 1 && b.tensors[1].uid == 2);
    assert(b.tensors[2].uid == 3 && b.tensors[3].uid == 4);
}

/// The graph of a pooling reads its input and writes its output, each with the
/// dimensions that were given for it, and carries the window over as it is.
pub proof fn law_pool_fwd_graph(
    dtype: DtypeTag,
    x_dims: Seq<i64>,
    y_dims: Seq<i64>,
    layout: TensorLayout,
    p: PoolParams,
)
    ensures
        ({
            let g = pool_fwd_graph(dtype, x_dims, y_dims, layout, p);
            &&& g.name == "pool_fwd"@
            &&& g.tensors.len() == 2
            &&& graph::lists_tensor(g, 0, dtype, x_dims, layout, false)
            &&& graph::lists_tensor(g, 1, dtype, y_dims, layout, false)
            &&& g.ops.len() == 1
            &&& g.ops[0] matches OpView::PoolFwd {
                kind,
                x,
                y,
                window,
                pre_padding,
                post_padding,
                stride,
                compute_dtype,
            } && {
                &&& kind is MaxFwd <==> p.mode is Max
                &&& kind is AvgFwd <==> !(p.mode is Max)
                &&& x == g.tensors[0].uid
                &&& y == g.tensors[1].uid
                &&& window == p.window@
                &&& pre_padding == p.pre_padding@
                &&& post_padding == p.post_padding@
                &&& stride == p.stride@
                &&& compute_dtype == dtype
            }
        }),
{
}

/// The graph of a pooling's gradient reads the input, the output and the output's
/// gradient and writes the input's gradient. A gradient has the dimensions of what
/// it is the gradient of.
pub proof fn law_pool_bwd_graph(
    dtype: DtypeTag,
    x_dims: Seq<i64>,
    y_dims: Seq<i64>,
    layout: TensorLayout,
    p: PoolParams,
)
    ensures
        ({
            let g = pool_bwd_graph(dtype, x_dims, y_dims, layout, p);
            &&& g.name == "pool_bwd"@
            &&& g.tensors.len() == 4
            &&& graph::lists_tensor(g, 0, dtype, x_dims, layout, false)
            &&& graph::lists_tensor(g, 1, dtype, y_dims, layout, false)
            &&& graph::lists_tensor(g, 2, dtype, y_dims, layout, false)
            &&& graph::lists_tensor(g, 3, dtype, x_dims, layout, false)
            &&& g.ops.len() == 1
            &&& g.ops[0] matches OpView::PoolBwd {
                kind,
                dy,
                x,
                y,
                dx,
                window,
                pre_padding,
                post_padding,
                stride,
                compute_dtype,
            } && {
                &&& kind is MaxBwd <==> p.mode is Max
                &&& kind is AvgBwd <==> !(p.mode is Max)
                &&& x == g.tensors[0].uid
                &&& y == g.tensors[1].uid
                &&& dy == g.tensors[2].uid
                &&& dx == g.tensors[3].uid
                &&& window == p.window@
                &&& pre_padding == p.pre_padding@
                &&& post_padding == p.post_padding@
                &&& stride == p.stride@
                &&& compute_dtype == dtype
            }
        }),
{
}

} // verus!
