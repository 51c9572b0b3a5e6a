//! Convolutions and their gradients.

use vstd::prelude::*;
use vstd::slice::slice_to_vec;

use crate::dtype::{CudnnSupported, Element, F64};
use crate::error;
use crate::error::GpuError;
use crate::gpu_ref::GpuRef;
use crate::kernel::blas::Scalar;
use crate::kernel::cudnn::activation::ActivationKind;
use crate::kernel::cudnn::dispatch;
use crate::kernel::cudnn::dispatch::{not_available, CudnnDispatch};
use crate::kernel::cudnn::graph;
use crate::kernel::cudnn::graph::{GraphView, OpSpec, OpView, OperationGraphSpec, PointwiseMode};
use crate::kernel::cudnn::tensor;
use crate::kernel::cudnn::tensor::{DtypeTag, TensorLayout, TensorSpec, TensorView};

verus! {

/// Shape parameters of a convolution, one entry per spatial dimension.
#[derive(Debug, Clone, PartialEq, Eq, Hash)]
pub struct ConvDescParams {
    /// Number of spatial dimensions: one, two or three.
    pub spatial_dims: usize,
    pub pre_padding: Vec<i64>,
    pub post_padding: Vec<i64>,
    pub stride: Vec<i64>,
    pub dilation: Vec<i64>,
    /// Number of groups, at least one.
    pub groups: i64,
}

impl ConvDescParams {
    /// The same padding, stride and dilation in each of `n` dimensions.
    pub open spec fn symmetric(
        &self,
        n: nat,
        pad: i64,
        stride: i64,
        dilation: i64,
    ) -> bool {
        &&& self.spatial_dims == n
        &&& self.pre_padding@ == Seq::new(n, |i: int| pad)
        &&& self.post_padding@ == Seq::new(n, |i: int| pad)
        &&& self.stride@ == Seq::new(n, |i: int| stride)
        &&& self.dilation@ == Seq::new(n, |i: int| dilation)
    }

    /// Symmetric convolution in two dimensions.
    pub fn symmetric_2d(pad: i64, stride: i64, dilation: i64) -> (p: ConvDescParams)
        ensures
            p.symmetric(2, pad, stride, dilation),
            p.groups == 1,
    {
        let p = ConvDescParams {
            spatial_dims: 2,
            pre_padding: vec![pad, pad],
            post_padding: vec![pad, pad],
            stride: vec![stride, stride],
            dilation: vec![dilation, dilation],
            groups: 1,
        };
        assert(p.pre_padding@ =~= Seq::new(2, |i: int| pad));
        assert(p.post_padding@ =~= Seq::new(2, |i: int| pad));
        assert(p.stride@ =~= Seq::new(2, |i: int| stride));
        assert(p.dilation@ =~= Seq::new(2, |i: int| dilation));
        p
    }

    /// Symmetric convolution in one dimension.
    pub fn symmetric_1d(pad: i64, stride: i64, dilation: i64) -> (p: ConvDescParams)
        ensures
            p.symmetric(1, pad, stride, dilation),
            p.groups == 1,
    {
        let p = ConvDescParams {
            spatial_dims: 1,
            pre_padding: vec![pad],
            post_padding: vec![pad],
            stride: vec![stride],
            dilation: vec![dilation],
            groups: 1,
        };
        assert(p.pre_padding@ =~= Seq::new(1, |i: int| pad));
        assert(p.post_padding@ =~= Seq::new(1, |i: int| pad));
        assert(p.stride@ =~= Seq::new(1, |i: int| stride));
        assert(p.dilation@ =~= Seq::new(1, |i: int| dilation));
        p
    }

    /// Symmetric convolution in three dimensions.
    pub fn symmetric_3d(pad: i64, stride: i64, dilation: i64) -> (p: ConvDescParams)
        ensures
            p.symmetric(3, pad, stride, dilation),
            p.groups == 1,
    {
        let p = ConvDescParams {
            spatial_dims: 3,
            pre_padding: vec![pad, pad, pad],
            post_padding: vec![pad, pad, pad],
            stride: vec![stride, stride, stride],
            dilation: vec![dilation, dilation, dilation],
            groups: 1,
        };
        assert(p.pre_padding@ =~= Seq::new(3, |i: int| pad));
        assert(p.post_padding@ =~= Seq::new(3, |i: int| pad));
        assert(p.stride@ =~= Seq::new(3, |i: int| stride));
        assert(p.dilation@ =~= Seq::new(3, |i: int| dilation));
        p
    }

    /// The convolution with this many groups.
    pub fn with_groups(self, g: i64) -> (p: ConvDescParams)
        ensures
            p == (ConvDescParams { groups: g, ..self }),
    {
        let mut p = self;
        p.groups = g;
        p
    }
}

/// What is fused behind a convolution.
#[derive(Debug, Clone, Copy, PartialEq, Eq, Structural)]
pub enum EpilogueKind {
    /// Nothing.
    Bare,
    /// Bias, the same at every spatial position.
    Bias,
    /// Bias, then an activation.
    BiasActivation(ActivationKind),
}

/// Tag of an element type that graphs can carry.
pub open spec fn spec_tag(e: Element) -> Option<DtypeTag> {
    match e {
        Element::F32 => Some(DtypeTag::F32),
        Element::F64 => Some(DtypeTag::F64),
        Element::F16 => Some(DtypeTag::F16),
        Element::Bf16 => Some(DtypeTag::Bf16),
        Element::I8 => Some(DtypeTag::I8),
        _ => None,
    }
}

/// Tag of an element type that graphs can carry.
pub fn dtype_tag<T: CudnnSupported>() -> (d: DtypeTag)
    requires
        spec_tag(T::spec_element()) is Some,
    ensures
        Some(d) == spec_tag(T::spec_element()),
{
    match T::element() {
        Element::F64 => DtypeTag::F64,
        Element::F16 => DtypeTag::F16,
        Element::Bf16 => DtypeTag::Bf16,
        Element::I8 => DtypeTag::I8,
        _ => DtypeTag::F32,
    }
}

/// Dimensions of a bias that is the same everywhere but across channels.
pub open spec fn spec_bias_dims(y_dims: Seq<i64>) -> Seq<i64> {
    Seq::new(
        y_dims.len(),
        |i: int|
            if i == 1 {
                y_dims[1]
            } else {
                1
            },
    )
}

/// Dimensions of a bias that is the same everywhere but across channels.
pub fn bias_dims(y_dims: &[i64]) -> (d: Vec<i64>)
    ensures
        d@ == spec_bias_dims(y_dims@),
{
    let mut out: Vec<i64> = Vec::new();
    let mut i: usize = 0;
    while i < y_dims.len()
        invariant
            i <= y_dims.len(),
            out@ == spec_bias_dims(y_dims@).take(i as int),
        decreases y_dims.len() - i,
    {
        if i == 1 {
            out.push(y_dims[1]);
        } else {
            out.push(1);
        }
        i = i + 1;
        assert(out@ =~= spec_bias_dims(y_dims@).take(i as int));
    }
    assert(spec_bias_dims(y_dims@).take(i as int) =~= spec_bias_dims(y_dims@));
    out
}

proof fn lemma_ones(dims: Seq<i64>, i: int)
    requires
        0 <= i,
        forall|j: int| i <= j < dims.len() ==> dims[j] == 1,
    ensures
        tensor::product_from(dims, i) == 1,
    decreases dims.len() - i,
{
    if i < dims.len() {
        lemma_ones(dims, i + 1);
    }
}

/// A bias has packed strides wherever a tensor of its rank can have them.
pub proof fn lemma_bias_packable(y_dims: Seq<i64>, layout: TensorLayout)
    requires
        layout == TensorLayout::NhwcPacked ==> y_dims.len() == 0 || y_dims.len() >= 3,
    ensures
        tensor::packable(spec_bias_dims(y_dims), layout),
{
    let dims = spec_bias_dims(y_dims);
    assert forall|i: int| 0 <= i < dims.len() implies i64::MIN <= #[trigger] tensor::stride(
        dims,
        layout,
        i,
    ) <= i64::MAX by {
        lemma_ones(dims, 2);
        if i >= 1 {
            lemma_ones(dims, i + 1);
        } else if dims.len() >= 2 {
            assert(tensor::product_from(dims, 1) == dims[1] * tensor::product_from(dims, 2));
        } else {
            assert(tensor::product_from(dims, 1) == 1);
        }
    }
}

/// The graph with a bias behind its third tensor.
pub open spec fn with_bias(
    g: GraphView,
    dtype: DtypeTag,
    y_dims: Seq<i64>,
    layout: TensorLayout,
) -> GraphView {
    g.with_tensor(TensorView::packed(4, dtype, spec_bias_dims(y_dims), layout)).with_tensor(
        TensorView::packed(5, dtype, y_dims, layout),
    ).with_op(
        OpView::Pointwise {
            mode: PointwiseMode::Add,
            x: 3,
            b: Some(4),
            y: 5,
            compute_dtype: dtype,
            alpha1: F64(F64::ONE_BITS),
            alpha2: F64(F64::ONE_BITS),
        },
    )
}

/// Graph of a convolution with what is fused behind it.
pub open spec fn conv_fwd_graph(
    dtype: DtypeTag,
    x_dims: Seq<i64>,
    w_dims: Seq<i64>,
    y_dims: Seq<i64>,
    conv: ConvDescParams,
    layout: TensorLayout,
    epilogue: EpilogueKind,
) -> GraphView {
    let bare = bare_conv_graph(dtype, x_dims, w_dims, y_dims, conv, layout);
    match epilogue {
        EpilogueKind::Bare => bare,
        EpilogueKind::Bias => with_bias(bare, dtype, y_dims, layout),
        EpilogueKind::BiasActivation(act) => with_bias(bare, dtype, y_dims, layout).with_tensor(
            TensorView::packed(6, dtype, y_dims, layout),
        ).with_op(
            OpView::Pointwise {
                mode: act.spec_pointwise_mode(),
                x: 5,
                b: None,
                y: 6,
                compute_dtype: dtype,
                alpha1: F64(F64::ONE_BITS),
                alpha2: F64(0),
            },
        ),
    }
}

/// Graph of a convolution.
pub open spec fn bare_conv_graph(
    dtype: DtypeTag,
    x_dims: Seq<i64>,
    w_dims: Seq<i64>,
    y_dims: Seq<i64>,
    conv: ConvDescParams,
    layout: TensorLayout,
) -> GraphView {
    GraphView::empty("conv_fwd"@).with_tensor(
        TensorView::packed(1, dtype, x_dims, layout),
    ).with_tensor(
        TensorView::packed(2, dtype, w_dims, layout),
    ).with_tensor(
        TensorView::packed(3, dtype, y_dims, layout),
    ).with_op(
        OpView::ConvFwd {
            x: 1,
            w: 2,
            y: 3,
            spatial_dims: conv.spatial_dims,
            pre_padding: conv.pre_padding@,
            post_padding: conv.post_padding@,
            stride: conv.stride@,
            dilation: conv.dilation@,
            compute_dtype: dtype,
            alpha: F64(F64::ONE_BITS),
            beta: F64(0),
        },
    )
}

/// Graph of a convolution.
pub fn build_conv_fwd_graph(
    dtype: DtypeTag,
    x_dims: &[i64],
    w_dims: &[i64],
    y_dims: &[i64],
    conv: &ConvDescParams,
    layout: TensorLayout,
    epilogue: EpilogueKind,
) -> (g: OperationGraphSpec)
    requires
        tensor::packable(x_dims@, layout),
        tensor::packable(w_dims@, layout),
        tensor::packable(y_dims@, layout),
    ensures
        g@ == conv_fwd_graph(dtype, x_dims@, w_dims@, y_dims@, *conv, layout, epilogue),
{
    let mut g = OperationGraphSpec::new("conv_fwd");
    let x = g.add_tensor(TensorSpec::new(1, dtype, slice_to_vec(x_dims), layout));
    let w = g.add_tensor(TensorSpec::new(2, dtype, slice_to_vec(w_dims), layout));
    let y = g.add_tensor(TensorSpec::new(3, dtype, slice_to_vec(y_dims), layout));
    g.add_op(
        OpSpec::ConvFwd {
            x,
            w,
            y,
            spatial_dims: conv.spatial_dims,
            pre_padding: slice_to_vec(conv.pre_padding.as_slice()),
            post_padding: slice_to_vec(conv.post_padding.as_slice()),
            stride: slice_to_vec(conv.stride.as_slice()),
            dilation: slice_to_vec(conv.dilation.as_slice()),
            compute_dtype: dtype,
            alpha: F64(F64::ONE_BITS),
            beta: F64(0),
        },
    );
    proof {
        lemma_bias_packable(y_dims@, layout);
    }
    match epilogue {
        EpilogueKind::Bare => {},
        EpilogueKind::Bias => {
            let b = g.add_tensor(TensorSpec::new(4, dtype, bias_dims(y_dims), layout));
            let yb = g.add_tensor(TensorSpec::new(5, dtype, slice_to_vec(y_dims), layout));
            g.add_op(
                OpSpec::Pointwise {
                    mode: PointwiseMode::Add,
                    x: y,
                    b: Some(b),
                    y: yb,
                    compute_dtype: dtype,
                    alpha1: F64(F64::ONE_BITS),
                    alpha2: F64(F64::ONE_BITS),
                },
            );
        },
        EpilogueKind::BiasActivation(act) => {
            let b = g.add_tensor(TensorSpec::new(4, dtype, bias_dims(y_dims), layout));
            let yb = g.add_tensor(TensorSpec::new(5, dtype, slice_to_vec(y_dims), layout));
            g.add_op(
                OpSpec::Pointwise {
                    mode: PointwiseMode::Add,
                    x: y,
                    b: Some(b),
                    y: yb,
                    compute_dtype: dtype,
                    alpha1: F64(F64::ONE_BITS),
                    alpha2: F64(F64::ONE_BITS),
                },
            );
            let out = g.add_tensor(TensorSpec::new(6, dtype, slice_to_vec(y_dims), layout));
            g.add_op(
                OpSpec::Pointwise {
                    mode: act.pointwise_mode(),
                    x: yb,
                    b: None,
                    y: out,
                    compute_dtype: dtype,
                    alpha1: F64(F64::ONE_BITS),
                    alpha2: F64(0),
                },
            );
        },
    }
    g
}

/// Graph of the gradient of a convolution's input.
pub open spec fn conv_bwd_data_graph(
    dtype: DtypeTag,
    dy_dims: Seq<i64>,
    w_dims: Seq<i64>,
    dx_dims: Seq<i64>,
    conv: ConvDescParams,
    layout: TensorLayout,
) -> GraphView {
    GraphView::empty("conv_bwd_data"@).with_tensor(
        TensorView::packed(1, dtype, dy_dims, layout),
    ).with_tensor(
        TensorView::packed(2, dtype, w_dims, layout),
    ).with_tensor(
        TensorView::packed(3, dtype, dx_dims, layout),
    ).with_op(
        OpView::ConvBwdData {
            dy: 1,
            w: 2,
            dx: 3,
            spatial_dims: conv.spatial_dims,
            pre_padding: conv.pre_padding@,
            post_padding: conv.post_padding@,
            stride: conv.stride@,
            dilation: conv.dilation@,
            compute_dtype: dtype,
            alpha: F64(F64::ONE_BITS),
            beta: F64(0),
        },
    )
}

/// Graph of the gradient of a convolution's input.
pub fn build_conv_bwd_data_graph(
    dtype: DtypeTag,
    dy_dims: &[i64],
    w_dims: &[i64],
    dx_dims: &[i64],
    conv: &ConvDescParams,
    layout: TensorLayout,
) -> (g: OperationGraphSpec)
    requires
        tensor::packable(dy_dims@, layout),
        tensor::packable(w_dims@, layout),
        tensor::packable(dx_dims@, layout),
    ensures
        g@ == conv_bwd_data_graph(dtype, dy_dims@, w_dims@, dx_dims@, *conv, layout),
{
    let mut g = OperationGraphSpec::new("conv_bwd_data");
    let dy = g.add_tensor(TensorSpec::new(1, dtype, slice_to_vec(dy_dims), layout));
    let w = g.add_tensor(TensorSpec::new(2, dtype, slice_to_vec(w_dims), layout));
    let dx = g.add_tensor(TensorSpec::new(3, dtype, slice_to_vec(dx_dims), layout));
    g.add_op(
        OpSpec::ConvBwdData {
            dy,
            w,
            dx,
            spatial_dims: conv.spatial_dims,
            pre_padding: slice_to_vec(conv.pre_padding.as_slice()),
            post_padding: slice_to_vec(conv.post_padding.as_slice()),
            stride: slice_to_vec(conv.stride.as_slice()),
            dilation: slice_to_vec(conv.dilation.as_slice()),
            compute_dtype: dtype,
            alpha: F64(F64::ONE_BITS),
            beta: F64(0),
        },
    );
    g
}

/// Graph of the gradient of a convolution's filter.
pub open spec fn conv_bwd_filter_graph(
    dtype: DtypeTag,
    x_dims: Seq<i64>,
    dy_dims: Seq<i64>,
    dw_dims: Seq<i64>,
    conv: ConvDescParams,
    layout: TensorLayout,
) -> GraphView {
    GraphView::empty("conv_bwd_filter"@).with_tensor(
        TensorView::packed(1, dtype, x_dims, layout),
    ).with_tensor(
        TensorView::packed(2, dtype, dy_dims, layout),
    ).with_tensor(
        TensorView::packed(3, dtype, dw_dims, layout),
    ).with_op(
        OpView::ConvBwdFilter {
            x: 1,
            dy: 2,
            dw: 3,
            spatial_dims: conv.spatial_dims,
            pre_padding: conv.pre_padding@,
            post_padding: conv.post_padding@,
            stride: conv.stride@,
            dilation: conv.dilation@,
            compute_dtype: dtype,
            alpha: F64(F64::ONE_BITS),
            beta: F64(0),
        },
    )
}

/// Graph of the gradient of a convolution's filter.
pub fn build_conv_bwd_filter_graph(
    dtype: DtypeTag,
    x_dims: &[i64],
    dy_dims: &[i64],
    dw_dims: &[i64],
    conv: &ConvDescParams,
    layout: TensorLayout,
) -> (g: OperationGraphSpec)
    requires
        tensor::packable(x_dims@, layout),
        tensor::packable(dy_dims@, layout),
        tensor::packable(dw_dims@, layout),
    ensures
        g@ == conv_bwd_filter_graph(dtype, x_dims@, dy_dims@, dw_dims@, *conv, layout),
{
    let mut g = OperationGraphSpec::new("conv_bwd_filter");
    let x = g.add_tensor(TensorSpec::new(1, dtype, slice_to_vec(x_dims), layout));
    let dy = g.add_tensor(TensorSpec::new(2, dtype, slice_to_vec(dy_dims), layout));
    let dw = g.add_tensor(TensorSpec::new(3, dtype, slice_to_vec(dw_dims), layout));
    g.add_op(
        OpSpec::ConvBwdFilter {
            x,
            dy,
            dw,
            spatial_dims: conv.spatial_dims,
            pre_padding: slice_to_vec(conv.pre_padding.as_slice()),
            post_padding: slice_to_vec(conv.post_padding.as_slice()),
            stride: slice_to_vec(conv.stride.as_slice()),
            dilation: slice_to_vec(conv.dilation.as_slice()),
            compute_dtype: dtype,
            alpha: F64(F64::ONE_BITS),
            beta: F64(0),
        },
    );
    g
}

/// Convolution: `y = alpha * conv(x, w) + beta * y`, with an optional bias and
/// activation behind it.
pub struct ConvFwdRequest<T: CudnnSupported> {
    pub x: GpuRef<T>,
    pub x_dims: Vec<i64>,
    pub w: GpuRef<T>,
    pub w_dims: Vec<i64>,
    pub y: GpuRef<T>,
    pub y_dims: Vec<i64>,
    pub bias: Option<GpuRef<T>>,
    pub conv: ConvDescParams,
    pub layout: TensorLayout,
    pub epilogue: EpilogueKind,
    pub alpha: Scalar,
    pub beta: Scalar,
    pub reply: u64,
}

impl<T: CudnnSupported> ConvFwdRequest<T> {
    /// Graph of the request.
    pub fn graph_spec(&self) -> (g: OperationGraphSpec)
        requires
            spec_tag(T::spec_element()) is Some,
            tensor::packable(self.x_dims@, self.layout),
            tensor::packable(self.w_dims@, self.layout),
            tensor::packable(self.y_dims@, self.layout),
        ensures
            g@ == conv_fwd_graph(
                spec_tag(T::spec_element())->0,
                self.x_dims@,
                self.w_dims@,
                self.y_dims@,
                self.conv,
                self.layout,
                self.epilogue,
            ),
    {
        build_conv_fwd_graph(
            dtype_tag::<T>(),
            self.x_dims.as_slice(),
            self.w_dims.as_slice(),
            self.y_dims.as_slice(),
            &self.conv,
            self.layout,
            self.epilogue,
        )
    }
}

impl<T: CudnnSupported> CudnnDispatch for ConvFwdRequest<T> {
    fn dtype_name(&self) -> (s: &'static str)
        ensures
            s@ == T::spec_element().spec_name(),
    {
        T::name()
    }

    fn op_kind(&self) -> (s: &'static str)
        ensures
            s@ == "conv_fwd"@,
    {
        "conv_fwd"
    }

    fn dispatch(&self) -> (r: Result<(), GpuError>)
        ensures
            error::outcome(r) == dispatch::unavailable(
                "ConvFwdRequest dispatch requires the v9 frontend graph builder (cudnnBackendCreateDescriptor path); skeleton entry point only"@,
            ),
    {
        not_available(
            "ConvFwdRequest dispatch requires the v9 frontend graph builder (cudnnBackendCreateDescriptor path); skeleton entry point only",
        )
    }
}

/// Gradient of a convolution's input:
/// `dx = alpha * conv_bwd_data(w, dy) + beta * dx`.
pub struct ConvBwdDataRequest<T: CudnnSupported> {
    pub dy: GpuRef<T>,
    pub dy_dims: Vec<i64>,
    pub w: GpuRef<T>,
    pub w_dims: Vec<i64>,
    pub dx: GpuRef<T>,
    pub dx_dims: Vec<i64>,
    pub conv: ConvDescParams,
    pub layout: TensorLayout,
    pub alpha: Scalar,
    pub beta: Scalar,
    pub reply: u64,
}

impl<T: CudnnSupported> ConvBwdDataRequest<T> {
    /// Graph of the request.
    pub fn graph_spec(&self) -> (g: OperationGraphSpec)
        requires
            spec_tag(T::spec_element()) is Some,
            tensor::packable(self.dy_dims@, self.layout),
            tensor::packable(self.w_dims@, self.layout),
            tensor::packable(self.dx_dims@, self.layout),
        ensures
            g@ == conv_bwd_data_graph(
                spec_tag(T::spec_element())->0,
                self.dy_dims@,
                self.w_dims@,
                self.dx_dims@,
                self.conv,
                self.layout,
            ),
    {
        build_conv_bwd_data_graph(
            dtype_tag::<T>(),
            self.dy_dims.as_slice(),
            self.w_dims.as_slice(),
            self.dx_dims.as_slice(),
            &self.conv,
            self.layout,
        )
    }
}

impl<T: CudnnSupported> CudnnDispatch for ConvBwdDataRequest<T> {
    fn dtype_name(&self) -> (s: &'static str)
        ensures
            s@ == T::spec_element().spec_name(),
    {
        T::name()
    }

    fn op_kind(&self) -> (s: &'static str)
        ensures
            s@ == "conv_bwd_data"@,
    {
        "conv_bwd_data"
    }

    fn dispatch(&self) -> (r: Result<(), GpuError>)
        ensures
            error::outcome(r) == dispatch::unavailable(
                "ConvBwdDataRequest dispatch requires the v9 frontend graph builder; skeleton entry point only"@,
            ),
    {
        not_available(
            "ConvBwdDataRequest dispatch requires the v9 frontend graph builder; skeleton entry point only",
        )
    }
}

/// Gradient of a convolution's filter:
/// `dw = alpha * conv_bwd_filter(x, dy) + beta * dw`.
pub struct ConvBwdFilterRequest<T: CudnnSupported> {
    pub x: GpuRef<T>,
    pub x_dims: Vec<i64>,
    pub dy: GpuRef<T>,
    pub dy_dims: Vec<i64>,
    pub dw: GpuRef<T>,
    pub dw_dims: Vec<i64>,
    pub conv: ConvDescParams,
    pub layout: TensorLayout,
    pub alpha: Scalar,
    pub beta: Scalar,
    pub reply: u64,
}

impl<T: CudnnSupported> ConvBwdFilterRequest<T> {
    /// Graph of the request.
    pub fn graph_spec(&self) -> (g: OperationGraphSpec)
        requires
            spec_tag(T::spec_element()) is Some,
            tensor::packable(self.x_dims@, self.layout),
            tensor::packable(self.dy_dims@, self.layout),
            tensor::packable(self.dw_dims@, self.layout),
        ensures
            g@ == conv_bwd_filter_graph(
                spec_tag(T::spec_element())->0,
                self.x_dims@,
                self.dy_dims@,
                self.dw_dims@,
                self.conv,
                self.layout,
            ),
    {
        build_conv_bwd_filter_graph(
            dtype_tag::<T>(),
            self.x_dims.as_slice(),
            self.dy_dims.as_slice(),
            self.dw_dims.as_slice(),
            &self.conv,
            self.layout,
        )
    }
}

impl<T: CudnnSupported> CudnnDispatch for ConvBwdFilterRequest<T> {
    fn dtype_name(&self) -> (s: &'static str)
        ensures
            s@ == T::spec_element().spec_name(),
    {
        T::name()
    }

    fn op_kind(&self) -> (s: &'static str)
        ensures
            s@ == "conv_bwd_filter"@,
    {
        "conv_bwd_filter"
    }

    fn dispatch(&self) -> (r: Result<(), GpuError>)
        ensures
            error::outcome(r) == dispatch::unavailable(
                "ConvBwdFilterRequest dispatch requires the v9 frontend graph builder; skeleton entry point only"@,
            ),
    {
        not_available(
            "ConvBwdFilterRequest dispatch requires the v9 frontend graph builder; skeleton entry point only",
        )
    }
}

/// Every tensor that an operation of a convolution's graphs names is one of the
/// graph's own.
pub proof fn law_conv_graphs_name_own_tensors(
    dtype: DtypeTag,
    a_dims: Seq<i64>,
    b_dims: Seq<i64>,
    c_dims: Seq<i64>,
    conv: ConvDescParams,
    layout: TensorLayout,
    epilogue: EpilogueKind,
)
    ensures
        conv_fwd_graph(
            dtype,
            a_dims,
            b_dims,
            c_dims,
            conv,
            layout,
            epilogue,
        ).names_own_tensors(),
        conv_bwd_data_graph(dtype, a_dims, b_dims, c_dims, conv, layout).names_own_tensors(),
        conv_bwd_filter_graph(dtype, a_dims, b_dims, c_dims, conv, layout).names_own_tensors(),
{
    let f = conv_fwd_graph(dtype, a_dims, b_dims, c_dims, conv, layout, epilogue);
    assert(f.tensors[0].uid == 1 && f.tensors[1].uid == 2 && f.tensors[2].uid == 3);
    if epilogue != EpilogueKind::Bare {
        assert(f.tensors[3].uid == 4 && f.tensors[4].uid == 5);
    }
    if epilogue is BiasActivation {
        assert(f.tensors[5].uid == 6);
    }
    let d = conv_bwd_data_graph(dtype, a_dims, b_dims, c_dims, conv, layout);
    assert(d.tensors[0].uid == 1 && d.tensors[1].uid == 2 && d.tensors[2].uid == 3);
    let w = conv_bwd_filter_graph(dtype, a_dims, b_dims, c_dims, conv, layout);
    assert(w.tensors[0].uid == 1 && w.tensors[1].uid == 2 && w.tensors[2].uid == 3);
}

/// The graph of a convolution reads its input and its filter and writes its output,
/// each with the dimensions that were given for it, and carries the shape
/// parameters over one by one.
pub proof fn law_conv_fwd_graph(
    dtype: DtypeTag,
    x_dims: Seq<i64>,
    w_dims: Seq<i64>,
    y_dims: Seq<i64>,
    conv: ConvDescParams,
    layout: TensorLayout,
)
    ensures
        ({
            let g = bare_conv_graph(dtype, x_dims, w_dims, y_dims, conv, layout);
            &&& g.name == "conv_fwd"@
            &&& g.tensors.len() == 3
            &&& graph::lists_tensor(g, 0, dtype, x_dims, layout, false)
            &&& graph::lists_tensor(g, 1, dtype, w_dims, layout, false)
            &&& graph::lists_tensor(g, 2, dtype, y_dims, layout, false)
            &&& g.ops.len() == 1
            &&& g.ops[0] matches OpView::ConvFwd {
                x,
                w,
                y,
                spatial_dims,
                pre_padding,
                post_padding,
                stride,
                dilation,
                compute_dtype,
                alpha,
                beta,
            } && {
                &&& x == g.tensors[0].uid
                &&& w == g.tensors[1].uid
                &&& y == g.tensors[2].uid
                &&& spatial_dims == conv.spatial_dims
                &&& pre_padding == conv.pre_padding@
                &&& post_padding == conv.post_padding@
                &&& stride == conv.stride@
                &&& dilation == conv.dilation@
                &&& compute_dtype == dtype
                &&& alpha.0 == 0x3ff0_0000_0000_0000
                &&& beta.0 == 0
            }
        }),
{
}

/// The graph of the gradient of a convolution's input reads the output's gradient and
/// the filter and writes the input's gradient, each with the dimensions that were
/// given for it.
pub proof fn law_conv_bwd_data_graph(
    dtype: DtypeTag,
    dy_dims: Seq<i64>,
    w_dims: Seq<i64>,
    dx_dims: Seq<i64>,
    conv: ConvDescParams,
    layout: TensorLayout,
)
    ensures
        ({
            let g = conv_bwd_data_graph(dtype, dy_dims, w_dims, dx_dims, conv, layout);
            &&& g.name == "conv_bwd_data"@
            &&& g.tensors.len() == 3
            &&& graph::lists_tensor(g, 0, dtype, dy_dims, layout, false)
            &&& graph::lists_tensor(g, 1, dtype, w_dims, layout, false)
            &&& graph::lists_tensor(g, 2, dtype, dx_dims, layout, false)
            &&& g.ops.len() == 1
            &&& g.ops[0] matches OpView::ConvBwdData {
                dy,
                w,
                dx,
                spatial_dims,
                pre_padding,
                post_padding,
                stride,
                dilation,
                compute_dtype,
                alpha,
                beta,
            } && {
                &&& dy == g.tensors[0].uid
                &&& w == g.tensors[1].uid
                &&& dx == g.tensors[2].uid
                &&& spatial_dims == conv.spatial_dims
                &&& pre_padding == conv.pre_padding@
                &&& post_padding == conv.post_padding@
                &&& stride == conv.stride@
                &&& dilation == conv.dilation@
                &&& compute_dtype == dtype
                &&& alpha.0 == 0x3ff0_0000_0000_0000
                &&& beta.0 == 0
            }
        }),
{
}

/// The graph of the gradient of a convolution's filter reads the input and the
/// output's gradient and writes the filter's gradient, each with the dimensions
/// that were given for it.
pub proof fn law_conv_bwd_filter_graph(
    dtype: DtypeTag,
    x_dims: Seq<i64>,
    dy_dims: Seq<i64>,
    dw_dims: Seq<i64>,
    conv: ConvDescParams,
    layout: TensorLayout,
)
    ensures
        ({
            let g = conv_bwd_filter_graph(dtype, x_dims, dy_dims, dw_dims, conv, layout);
            &&& g.name == "conv_bwd_filter"@
            &&& g.tensors.len() == 3
            &&& graph::lists_tensor(g, 0, dtype, x_dims, layout, false)
            &&& graph::lists_tensor(g, 1, dtype, dy_dims, layout, false)
            &&& graph::lists_tensor(g, 2, dtype, dw_dims, layout, false)
            &&& g.ops.len() == 1
            &&& g.ops[0] matches OpView::ConvBwdFilter {
                x,
                dy,
                dw,
                spatial_dims,
                pre_padding,
                post_padding,
                stride,
                dilation,
                compute_dtype,
                alpha,
                beta,
            } && {
                &&& x == g.tensors[0].uid
                &&& dy == g.tensors[1].uid
                &&& dw == g.tensors[2].uid
                &&& spatial_dims == conv.spatial_dims
                &&& pre_padding == conv.pre_padding@
                &&& post_padding == conv.post_padding@
                &&& stride == conv.stride@
                &&& dilation == conv.dilation@
                &&& compute_dtype == dtype
                &&& alpha.0 == 0x3ff0_0000_0000_0000
                &&& beta.0 == 0
            }
        }),
{
}

/// Behind a convolution with an epilogue its output is added to a bias that has one
/// value per channel, and then activated where the epilogue says so. What a
/// convolution without an epilogue has is all there as it was.
pub proof fn law_conv_epilogue_graph(
    dtype: DtypeTag,
    x_dims: Seq<i64>,
    w_dims: Seq<i64>,
    y_dims: Seq<i64>,
    conv: ConvDescParams,
    layout: TensorLayout,
    epilogue: EpilogueKind,
)
    ensures
        ({
            let bare = bare_conv_graph(dtype, x_dims, w_dims, y_dims, conv, layout);
            let g = conv_fwd_graph(dtype, x_dims, w_dims, y_dims, conv, layout, epilogue);
            &&& g.name == bare.name
            &&& epilogue is Bare ==> g == bare
            &&& bare.tensors.is_prefix_of(g.tensors)
            &&& bare.ops.is_prefix_of(g.ops)
            &&& !(epilogue is Bare) ==> {
                &&& graph::lists_tensor(g, 3, dtype, spec_bias_dims(y_dims), layout, false)
                &&& graph::lists_tensor(g, 4, dtype, y_dims, layout, false)
                &&& g.ops[1] matches OpView::Pointwise {
                    mode,
                    x,
                    b,
                    y,
                    compute_dtype,
                    alpha1,
                    alpha2,
                } && {
                    &&& mode == PointwiseMode::Add
                    &&& x == g.tensors[2].uid
                    &&& b == Some(g.tensors[3].uid)
                    &&& y == g.tensors[4].uid
                    &&& compute_dtype == dtype
                    &&& alpha1.0 == 0x3ff0_0000_0000_0000
                    &&& alpha2.0 == 0x3ff0_0000_0000_0000
                }
            }
            &&& epilogue is Bias ==> g.tensors.len() == 5 && g.ops.len() == 2
            &&& epilogue matches EpilogueKind::BiasActivation(act) ==> {
                &&& g.tensors.len() == 6
                &&& g.ops.len() == 3
                &&& graph::lists_tensor(g, 5, dtype, y_dims, layout, false)
                &&& g.ops[2] matches OpView::Pointwise {
                    mode,
                    x,
                    b,
                    y,
                    compute_dtype,
                    alpha1,
                    alpha2,
                } && {
                    &&& mode == act.spec_pointwise_mode()
                    &&& x == g.tensors[4].uid
                    &&& b is None
                    &&& y == g.tensors[5].uid
                    &&& compute_dtype == dtype
                    &&& alpha1.0 == 0x3ff0_0000_0000_0000
                    &&& alpha2.0 == 0
                }
            }
        }),
{
}

/// A bias has the rank of the output, its number of channels, and the extent one
/// everywhere else.
pub proof fn law_bias_dims(y_dims: Seq<i64>)
    ensures
        spec_bias_dims(y_dims).len() == y_dims.len(),
        y_dims.len() > 1 ==> spec_bias_dims(y_dims)[1] == y_dims[1],
        forall|i: int|
            0 <= i < y_dims.len() && i != 1 ==> #[trigger] spec_bias_dims(y_dims)[i] == 1,
{
}

/// The tag of an element type has the element's name and its cuDNN type.
pub proof fn law_tag_is_of_its_element(e: Element)
    ensures
        spec_tag(e) matches Some(tag) ==> tag.spec_name() == e.spec_name() && e.spec_cudnn()
            == Some(tag.spec_cudnn()),
        spec_tag(e) is Some <==> e == Element::F32 || e == Element::F64 || e == Element::F16 || e
            == Element::Bf16 || e == Element::I8,
{
}

/// A symmetric convolution has its padding on both sides, its stride and its
/// dilation in each of its dimensions, each under its own name.
pub proof fn law_symmetric_convolution(
    p: ConvDescParams,
    n: nat,
    pad: i64,
    stride: i64,
    dilation: i64,
    i: int,
)
    requires
        p.symmetric(n, pad, stride, dilation),
        0 <= i < n,
    ensures
        p.spatial_dims == n,
        p.pre_padding.len() == n && p.pre_padding[i] == pad,
        p.post_padding.len() == n && p.post_padding[i] == pad,
        p.stride.len() == n && p.stride[i] == stride,
        p.dilation.len() == n && p.dilation[i] == dilation,
{
}

} // verus!
