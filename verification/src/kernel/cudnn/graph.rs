//! Operation graphs of the cuDNN frontend.
//!
//! A graph is a list of tensors and a list of operations that refer to the
//! tensors by their ids. Building one takes no GPU. Its signature keys the
//! cached execution plan, see [`crate::kernel::cudnn::plan_cache`].

use std::collections::hash_map::DefaultHasher;
use std::hash::Hasher;

use vstd::prelude::*;
use vstd::std_specs::hash::*;
use vstd::string::*;

use crate::dtype::F64;
use crate::error::{ErrorView, GpuError};
use crate::error;
use crate::kernel::cudnn::signature;
use crate::kernel::cudnn::signature::{write_fields, write_word, Field, FieldRef, FieldKind};
use crate::kernel::cudnn::tensor;
use crate::kernel::cudnn::tensor::{DtypeTag, TensorLayout, TensorSpec, TensorView};
use crate::kernel::cudnn::LIB;

verus! {

/// Elementwise operation.
#[derive(Debug, Clone, Copy, PartialEq, Eq, Hash, Structural)]
pub enum PointwiseMode {
    Relu,
    Sigmoid,
    Tanh,
    Gelu,
    GeluApprox,
    Swish,
    Elu,
    Softplus,
    Identity,
    Add,
    Mul,
    Sub,
    Div,
    Min,
    Max,
    Sqrt,
    Rsqrt,
    Exp,
    Log,
    Neg,
    Abs,
}

impl PointwiseMode {
    /// Position of the variant in its declaration.
    pub open spec fn spec_code(self) -> u64 {
        match self {
            PointwiseMode::Relu => 0,
            PointwiseMode::Sigmoid => 1,
            PointwiseMode::Tanh => 2,
            PointwiseMode::Gelu => 3,
            PointwiseMode::GeluApprox => 4,
            PointwiseMode::Swish => 5,
            PointwiseMode::Elu => 6,
            PointwiseMode::Softplus => 7,
            PointwiseMode::Identity => 8,
            PointwiseMode::Add => 9,
            PointwiseMode::Mul => 10,
            PointwiseMode::Sub => 11,
            PointwiseMode::Div => 12,
            PointwiseMode::Min => 13,
            PointwiseMode::Max => 14,
            PointwiseMode::Sqrt => 15,
            PointwiseMode::Rsqrt => 16,
            PointwiseMode::Exp => 17,
            PointwiseMode::Log => 18,
            PointwiseMode::Neg => 19,
            PointwiseMode::Abs => 20,
        }
    }

    fn code(self) -> (c: u64)
        ensures
            c == self.spec_code(),
    {
        match self {
            PointwiseMode::Relu => 0,
            PointwiseMode::Sigmoid => 1,
            PointwiseMode::Tanh => 2,
            PointwiseMode::Gelu => 3,
            PointwiseMode::GeluApprox => 4,
            PointwiseMode::Swish => 5,
            PointwiseMode::Elu => 6,
            PointwiseMode::Softplus => 7,
            PointwiseMode::Identity => 8,
            PointwiseMode::Add => 9,
            PointwiseMode::Mul => 10,
            PointwiseMode::Sub => 11,
            PointwiseMode::Div => 12,
            PointwiseMode::Min => 13,
            PointwiseMode::Max => 14,
            PointwiseMode::Sqrt => 15,
            PointwiseMode::Rsqrt => 16,
            PointwiseMode::Exp => 17,
            PointwiseMode::Log => 18,
            PointwiseMode::Neg => 19,
            PointwiseMode::Abs => 20,
        }
    }
}

/// Pooling, by what it takes of its window and in which direction.
#[derive(Debug, Clone, Copy, PartialEq, Eq, Hash, Structural)]
pub enum PoolKind {
    MaxFwd,
    AvgFwd,
    MaxBwd,
    AvgBwd,
}

impl PoolKind {
    /// Position of the variant in its declaration.
    pub open spec fn spec_code(self) -> u64 {
        match self {
            PoolKind::MaxFwd => 0,
            PoolKind::AvgFwd => 1,
            PoolKind::MaxBwd => 2,
            PoolKind::AvgBwd => 3,
        }
    }

    fn code(self) -> (c: u64)
        ensures
            c == self.spec_code(),
    {
        match self {
            PoolKind::MaxFwd => 0,
            PoolKind::AvgFwd => 1,
            PoolKind::MaxBwd => 2,
            PoolKind::AvgBwd => 3,
        }
    }
}

/// What a normalisation runs over.
#[derive(Debug, Clone, Copy, PartialEq, Eq, Hash, Structural)]
pub enum NormMode {
    BatchNorm,
    LayerNorm,
    InstanceNorm,
    GroupNorm,
    RmsNorm,
}

impl NormMode {
    /// Position of the variant in its declaration.
    pub open spec fn spec_code(self) -> u64 {
        match self {
            NormMode::BatchNorm => 0,
            NormMode::LayerNorm => 1,
            NormMode::InstanceNorm => 2,
            NormMode::GroupNorm => 3,
            NormMode::RmsNorm => 4,
        }
    }

    fn code(self) -> (c: u64)
        ensures
            c == self.spec_code(),
    {
        match self {
            NormMode::BatchNorm => 0,
            NormMode::LayerNorm => 1,
            NormMode::InstanceNorm => 2,
            NormMode::GroupNorm => 3,
            NormMode::RmsNorm => 4,
        }
    }
}

/// What a normalisation is for.
#[derive(Debug, Clone, Copy, PartialEq, Eq, Hash, Structural)]
pub enum NormPhase {
    Inference,
    Training,
    PersistentTraining,
}

impl NormPhase {
    /// Position of the variant in its declaration.
    pub open spec fn spec_code(self) -> u64 {
        match self {
            NormPhase::Inference => 0,
            NormPhase::Training => 1,
            NormPhase::PersistentTraining => 2,
        }
    }

    fn code(self) -> (c: u64)
        ensures
            c == self.spec_code(),
    {
        match self {
            NormPhase::Inference => 0,
            NormPhase::Training => 1,
            NormPhase::PersistentTraining => 2,
        }
    }
}

/// What a reduction computes.
#[derive(Debug, Clone, Copy, PartialEq, Eq, Hash, Structural)]
pub enum ReduceOp {
    Add,
    Mul,
    Min,
    Max,
    Mean,
    Norm1,
    Norm2,
}

impl ReduceOp {
    /// Position of the variant in its declaration.
    pub open spec fn spec_code(self) -> u64 {
        match self {
            ReduceOp::Add => 0,
            ReduceOp::Mul => 1,
            ReduceOp::Min => 2,
            ReduceOp::Max => 3,
            ReduceOp::Mean => 4,
            ReduceOp::Norm1 => 5,
            ReduceOp::Norm2 => 6,
        }
    }

    fn code(self) -> (c: u64)
        ensures
            c == self.spec_code(),
    {
        match self {
            ReduceOp::Add => 0,
            ReduceOp::Mul => 1,
            ReduceOp::Min => 2,
            ReduceOp::Max => 3,
            ReduceOp::Mean => 4,
            ReduceOp::Norm1 => 5,
            ReduceOp::Norm2 => 6,
        }
    }
}

/// One operation of a graph. Operands are tensor ids; factors are given by
/// their bit patterns.
#[derive(Debug, Clone)]
#[allow(inconsistent_fields)]
pub enum OpSpec {
    /// Convolution: `y = conv(x, w)`.
    ConvFwd {
        x: i64,
        w: i64,
        y: i64,
        spatial_dims: usize,
        pre_padding: Vec<i64>,
        post_padding: Vec<i64>,
        stride: Vec<i64>,
        dilation: Vec<i64>,
        compute_dtype: DtypeTag,
        alpha: F64,
        beta: F64,
    },
    /// Gradient of a convolution's input: `dx = conv_bwd_data(w, dy)`.
    ConvBwdData {
        dy: i64,
        w: i64,
        dx: i64,
        spatial_dims: usize,
        pre_padding: Vec<i64>,
        post_padding: Vec<i64>,
        stride: Vec<i64>,
        dilation: Vec<i64>,
        compute_dtype: DtypeTag,
        alpha: F64,
        beta: F64,
    },
    /// Gradient of a convolution's filter: `dw = conv_bwd_filter(x, dy)`.
    ConvBwdFilter {
        x: i64,
        dy: i64,
        dw: i64,
        spatial_dims: usize,
        pre_padding: Vec<i64>,
        post_padding: Vec<i64>,
        stride: Vec<i64>,
        dilation: Vec<i64>,
        compute_dtype: DtypeTag,
        alpha: F64,
        beta: F64,
    },
    /// Elementwise operation, with a second operand or without.
    Pointwise {
        mode: PointwiseMode,
        x: i64,
        b: Option<i64>,
        y: i64,
        compute_dtype: DtypeTag,
        alpha1: F64,
        alpha2: F64,
    },
    /// Pooling.
    PoolFwd {
        kind: PoolKind,
        x: i64,
        y: i64,
        window: Vec<i64>,
        pre_padding: Vec<i64>,
        post_padding: Vec<i64>,
        stride: Vec<i64>,
        compute_dtype: DtypeTag,
    },
    /// Gradient of a pooling's input.
    PoolBwd {
        kind: PoolKind,
        dy: i64,
        x: i64,
        y: i64,
        dx: i64,
        window: Vec<i64>,
        pre_padding: Vec<i64>,
        post_padding: Vec<i64>,
        stride: Vec<i64>,
        compute_dtype: DtypeTag,
    },
    /// Normalisation.
    NormFwd {
        mode: NormMode,
        phase: NormPhase,
        x: i64,
        scale: i64,
        bias: i64,
        mean: Option<i64>,
        var: Option<i64>,
        y: i64,
        compute_dtype: DtypeTag,
        epsilon: F64,
        exp_avg_factor: F64,
    },
    /// Gradients of a normalisation.
    NormBwd {
        mode: NormMode,
        x: i64,
        dy: i64,
        scale: i64,
        mean: i64,
        var: i64,
        dx: i64,
        dscale: i64,
        dbias: i64,
        compute_dtype: DtypeTag,
    },
    /// Matrix product.
    Matmul {
        a: i64,
        b: i64,
        c: i64,
        compute_dtype: DtypeTag,
    },
    /// Reduction.
    Reduce {
        op: ReduceOp,
        x: i64,
        y: i64,
        compute_dtype: DtypeTag,
    },
    /// Change of shape without a copy.
    Reshape {
        x: i64,
        y: i64,
    },
}

/// [`OpSpec`] with its lists taken as sequences.
#[verifier::ext_equal]
#[allow(inconsistent_fields)]
pub enum OpView {
    ConvFwd {
        x: i64,
        w: i64,
        y: i64,
        spatial_dims: usize,
        pre_padding: Seq<i64>,
        post_padding: Seq<i64>,
        stride: Seq<i64>,
        dilation: Seq<i64>,
        compute_dtype: DtypeTag,
        alpha: F64,
        beta: F64,
    },
    ConvBwdData {
        dy: i64,
        w: i64,
        dx: i64,
        spatial_dims: usize,
        pre_padding: Seq<i64>,
        post_padding: Seq<i64>,
        stride: Seq<i64>,
        dilation: Seq<i64>,
        compute_dtype: DtypeTag,
        alpha: F64,
        beta: F64,
    },
    ConvBwdFilter {
        x: i64,
        dy: i64,
        dw: i64,
        spatial_dims: usize,
        pre_padding: Seq<i64>,
        post_padding: Seq<i64>,
        stride: Seq<i64>,
        dilation: Seq<i64>,
        compute_dtype: DtypeTag,
        alpha: F64,
        beta: F64,
    },
    Pointwise {
        mode: PointwiseMode,
        x: i64,
        b: Option<i64>,
        y: i64,
        compute_dtype: DtypeTag,
        alpha1: F64,
        alpha2: F64,
    },
    PoolFwd {
        kind: PoolKind,
        x: i64,
        y: i64,
        window: Seq<i64>,
        pre_padding: Seq<i64>,
        post_padding: Seq<i64>,
        stride: Seq<i64>,
        compute_dtype: DtypeTag,
    },
    PoolBwd {
        kind: PoolKind,
        dy: i64,
        x: i64,
        y: i64,
        dx: i64,
        window: Seq<i64>,
        pre_padding: Seq<i64>,
        post_padding: Seq<i64>,
        stride: Seq<i64>,
        compute_dtype: DtypeTag,
    },
    NormFwd {
        mode: NormMode,
        phase: NormPhase,
        x: i64,
        scale: i64,
        bias: i64,
        mean: Option<i64>,
        var: Option<i64>,
        y: i64,
        compute_dtype: DtypeTag,
        epsilon: F64,
        exp_avg_factor: F64,
    },
    NormBwd {
        mode: NormMode,
        x: i64,
        dy: i64,
        scale: i64,
        mean: i64,
        var: i64,
        dx: i64,
        dscale: i64,
        dbias: i64,
        compute_dtype: DtypeTag,
    },
    Matmul {
        a: i64,
        b: i64,
        c: i64,
        compute_dtype: DtypeTag,
    },
    Reduce {
        op: ReduceOp,
        x: i64,
        y: i64,
        compute_dtype: DtypeTag,
    },
    Reshape {
        x: i64,
        y: i64,
    },
}

impl OpView {
    /// The operation names the tensor with this id.
    pub open spec fn names(self, id: i64) -> bool {
        match self {
            OpView::ConvFwd { x, w, y, .. } => id == x || id == w || id == y,
            OpView::ConvBwdData { dy, w, dx, .. } => id == dy || id == w || id == dx,
            OpView::ConvBwdFilter { x, dy, dw, .. } => id == x || id == dy || id == dw,
            OpView::Pointwise { x, b, y, .. } => id == x || b == Some(id) || id == y,
            OpView::PoolFwd { x, y, .. } => id == x || id == y,
            OpView::PoolBwd { dy, x, y, dx, .. } => id == dy || id == x || id == y || id == dx,
            OpView::NormFwd { x, scale, bias, mean, var, y, .. } => id == x || id == scale || id
                == bias || mean == Some(id) || var == Some(id) || id == y,
            OpView::NormBwd { x, dy, scale, mean, var, dx, dscale, dbias, .. } => id == x || id
                == dy || id == scale || id == mean || id == var || id == dx || id == dscale || id
                == dbias,
            OpView::Matmul { a, b, c, .. } => id == a || id == b || id == c,
            OpView::Reduce { x, y, .. } => id == x || id == y,
            OpView::Reshape { x, y } => id == x || id == y,
        }
    }
}

impl View for OpSpec {
    type V = OpView;

    open spec fn view(&self) -> OpView {
        match self {
            OpSpec::ConvFwd {
                x,
                w,
                y,
                spatial_dims,
                pre_padding,
                post_padding,
                stride,
                dilation,
                compute_dtype,
                alpha,
                beta,
            } => OpView::ConvFwd {
                x: *x,
                w: *w,
                y: *y,
                spatial_dims: *spatial_dims,
                pre_padding: pre_padding@,
                post_padding: post_padding@,
                stride: stride@,
                dilation: dilation@,
                compute_dtype: *compute_dtype,
                alpha: *alpha,
                beta: *beta,
            },
            OpSpec::ConvBwdData {
                dy,
                w,
                dx,
                spatial_dims,
                pre_padding,
                post_padding,
                stride,
                dilation,
                compute_dtype,
                alpha,
                beta,
            } => OpView::ConvBwdData {
                dy: *dy,
                w: *w,
                dx: *dx,
                spatial_dims: *spatial_dims,
                pre_padding: pre_padding@,
                post_padding: post_padding@,
                stride: stride@,
                dilation: dilation@,
                compute_dtype: *compute_dtype,
                alpha: *alpha,
                beta: *beta,
            },
            OpSpec::ConvBwdFilter {
                x,
                dy,
                dw,
                spatial_dims,
                pre_padding,
                post_padding,
                stride,
                dilation,
                compute_dtype,
                alpha,
                beta,
            } => OpView::ConvBwdFilter {
                x: *x,
                dy: *dy,
                dw: *dw,
                spatial_dims: *spatial_dims,
                pre_padding: pre_padding@,
                post_padding: post_padding@,
                stride: stride@,
                dilation: dilation@,
                compute_dtype: *compute_dtype,
                alpha: *alpha,
                beta: *beta,
            },
            OpSpec::Pointwise {
                mode,
                x,
                b,
                y,
                compute_dtype,
                alpha1,
                alpha2,
            } => OpView::Pointwise {
                mode: *mode,
                x: *x,
                b: *b,
                y: *y,
                compute_dtype: *compute_dtype,
                alpha1: *alpha1,
                alpha2: *alpha2,
            },
            OpSpec::PoolFwd {
                kind,
                x,
                y,
                window,
                pre_padding,
                post_padding,
                stride,
                compute_dtype,
            } => OpView::PoolFwd {
                kind: *kind,
                x: *x,
                y: *y,
                window: window@,
                pre_padding: pre_padding@,
                post_padding: post_padding@,
                stride: stride@,
                compute_dtype: *compute_dtype,
            },
            OpSpec::PoolBwd {
                kind,
                dy,
                x,
                y,
                dx,
                window,
                pre_padding,
                post_padding,
                stride,
                compute_dtype,
            } => OpView::PoolBwd {
                kind: *kind,
                dy: *dy,
                x: *x,
                y: *y,
                dx: *dx,
                window: window@,
                pre_padding: pre_padding@,
                post_padding: post_padding@,
                stride: stride@,
                compute_dtype: *compute_dtype,
            },
            OpSpec::NormFwd {
                mode,
                phase,
                x,
                scale,
                bias,
                mean,
                var,
                y,
                compute_dtype,
                epsilon,
                exp_avg_factor,
            } => OpView::NormFwd {
                mode: *mode,
                phase: *phase,
                x: *x,
                scale: *scale,
                bias: *bias,
                mean: *mean,
                var: *var,
                y: *y,
                compute_dtype: *compute_dtype,
                epsilon: *epsilon,
                exp_avg_factor: *exp_avg_factor,
            },
            OpSpec::NormBwd {
                mode,
                x,
                dy,
                scale,
                mean,
                var,
                dx,
                dscale,
                dbias,
                compute_dtype,
            } => OpView::NormBwd {
                mode: *mode,
                x: *x,
                dy: *dy,
                scale: *scale,
                mean: *mean,
                var: *var,
                dx: *dx,
                dscale: *dscale,
                dbias: *dbias,
                compute_dtype: *compute_dtype,
            },
            OpSpec::Matmul {
                a,
                b,
                c,
                compute_dtype,
            } => OpView::Matmul {
                a: *a,
                b: *b,
                c: *c,
                compute_dtype: *compute_dtype,
            },
            OpSpec::Reduce {
                op,
                x,
                y,
                compute_dtype,
            } => OpView::Reduce {
                op: *op,
                x: *x,
                y: *y,
                compute_dtype: *compute_dtype,
            },
            OpSpec::Reshape {
                x,
                y,
            } => OpView::Reshape {
                x: *x,
                y: *y,
            },
        }
    }
}

impl OpView {
    /// What the signature takes of the operation, in order: a number for its
    /// kind, then its arguments.
    pub open spec fn fields(self) -> Seq<Field> {
        match self {
            OpView::ConvFwd {
                x,
                w,
                y,
                spatial_dims,
                pre_padding,
                post_padding,
                stride,
                dilation,
                compute_dtype,
                alpha,
                beta,
            } => seq![
                Field::Byte(0),
                Field::Word(x as u64),
                Field::Word(w as u64),
                Field::Word(y as u64),
                Field::Word(spatial_dims as u64),
                Field::Ints(pre_padding),
                Field::Ints(post_padding),
                Field::Ints(stride),
                Field::Ints(dilation),
                Field::Word(compute_dtype.spec_code()),
                Field::Word(alpha.0),
                Field::Word(beta.0),
            ],
            OpView::ConvBwdData {
                dy,
                w,
                dx,
                spatial_dims,
                pre_padding,
                post_padding,
                stride,
                dilation,
                compute_dtype,
                alpha,
                beta,
            } => seq![
                Field::Byte(1),
                Field::Word(dy as u64),
                Field::Word(w as u64),
                Field::Word(dx as u64),
                Field::Word(spatial_dims as u64),
                Field::Ints(pre_padding),
                Field::Ints(post_padding),
                Field::Ints(stride),
                Field::Ints(dilation),
                Field::Word(compute_dtype.spec_code()),
                Field::Word(alpha.0),
                Field::Word(beta.0),
            ],
            OpView::ConvBwdFilter {
                x,
                dy,
                dw,
                spatial_dims,
                pre_padding,
                post_padding,
                stride,
                dilation,
                compute_dtype,
                alpha,
                beta,
            } => seq![
                Field::Byte(2),
                Field::Word(x as u64),
                Field::Word(dy as u64),
                Field::Word(dw as u64),
                Field::Word(spatial_dims as u64),
                Field::Ints(pre_padding),
                Field::Ints(post_padding),
                Field::Ints(stride),
                Field::Ints(dilation),
                Field::Word(compute_dtype.spec_code()),
                Field::Word(alpha.0),
                Field::Word(beta.0),
            ],
            OpView::Pointwise {
                mode,
                x,
                b,
                y,
                compute_dtype,
                alpha1,
                alpha2,
            } => seq![
                Field::Byte(3),
                Field::Word(mode.spec_code()),
                Field::Word(x as u64),
                Field::Maybe(b),
                Field::Word(y as u64),
                Field::Word(compute_dtype.spec_code()),
                Field::Word(alpha1.0),
                Field::Word(alpha2.0),
            ],
            OpView::PoolFwd {
                kind,
                x,
                y,
                window,
                pre_padding,
                post_padding,
                stride,
                compute_dtype,
            } => seq![
                Field::Byte(4),
                Field::Word(kind.spec_code()),
                Field::Word(x as u64),
                Field::Word(y as u64),
                Field::Ints(window),
                Field::Ints(pre_padding),
                Field::Ints(post_padding),
                Field::Ints(stride),
                Field::Word(compute_dtype.spec_code()),
            ],
            OpView::PoolBwd {
                kind,
                dy,
                x,
                y,
                dx,
                window,
                pre_padding,
                post_padding,
                stride,
                compute_dtype,
            } => seq![
                Field::Byte(5),
                Field::Word(kind.spec_code()),
                Field::Word(dy as u64),
                Field::Word(x as u64),
                Field::Word(y as u64),
                Field::Word(dx as u64),
                Field::Ints(window),
                Field::Ints(pre_padding),
                Field::Ints(post_padding),
                Field::Ints(stride),
                Field::Word(compute_dtype.spec_code()),
            ],
            OpView::NormFwd {
                mode,
                phase,
                x,
                scale,
                bias,
                mean,
                var,
                y,
                compute_dtype,
                epsilon,
                exp_avg_factor,
            } => seq![
                Field::Byte(6),
                Field::Word(mode.spec_code()),
                Field::Word(phase.spec_code()),
                Field::Word(x as u64),
                Field::Word(scale as u64),
                Field::Word(bias as u64),
                Field::Maybe(mean),
                Field::Maybe(var),
                Field::Word(y as u64),
                Field::Word(compute_dtype.spec_code()),
                Field::Word(epsilon.0),
                Field::Word(exp_avg_factor.0),
            ],
            OpView::NormBwd {
                mode,
                x,
                dy,
                scale,
                mean,
                var,
                dx,
                dscale,
                dbias,
                compute_dtype,
            } => seq![
                Field::Byte(7),
                Field::Word(mode.spec_code()),
                Field::Word(x as u64),
                Field::Word(dy as u64),
                Field::Word(scale as u64),
                Field::Word(mean as u64),
                Field::Word(var as u64),
                Field::Word(dx as u64),
                Field::Word(dscale as u64),
                Field::Word(dbias as u64),
                Field::Word(compute_dtype.spec_code()),
            ],
            OpView::Matmul {
                a,
                b,
                c,
                compute_dtype,
            } => seq![
                Field::Byte(8),
                Field::Word(a as u64),
                Field::Word(b as u64),
                Field::Word(c as u64),
                Field::Word(compute_dtype.spec_code()),
            ],
            OpView::Reduce {
                op,
                x,
                y,
                compute_dtype,
            } => seq![
                Field::Byte(9),
                Field::Word(op.spec_code()),
                Field::Word(x as u64),
                Field::Word(y as u64),
                Field::Word(compute_dtype.spec_code()),
            ],
            OpView::Reshape {
                x,
                y,
            } => seq![
                Field::Byte(10),
                Field::Word(x as u64),
                Field::Word(y as u64),
            ],
        }
    }

    /// Every list of the operation has a length of machine size.
    pub open spec fn lengths_fit(self) -> bool {
        match self {
            OpView::ConvFwd { pre_padding, post_padding, stride, dilation, .. } => {
                &&& pre_padding.len() <= u64::MAX
                &&& post_padding.len() <= u64::MAX
                &&& stride.len() <= u64::MAX
                &&& dilation.len() <= u64::MAX
            },
            OpView::ConvBwdData { pre_padding, post_padding, stride, dilation, .. } => {
                &&& pre_padding.len() <= u64::MAX
                &&& post_padding.len() <= u64::MAX
                &&& stride.len() <= u64::MAX
                &&& dilation.len() <= u64::MAX
            },
            OpView::ConvBwdFilter { pre_padding, post_padding, stride, dilation, .. } => {
                &&& pre_padding.len() <= u64::MAX
                &&& post_padding.len() <= u64::MAX
                &&& stride.len() <= u64::MAX
                &&& dilation.len() <= u64::MAX
            },
            OpView::PoolFwd { window, pre_padding, post_padding, stride, .. } => {
                &&& window.len() <= u64::MAX
                &&& pre_padding.len() <= u64::MAX
                &&& post_padding.len() <= u64::MAX
                &&& stride.len() <= u64::MAX
            },
            OpView::PoolBwd { window, pre_padding, post_padding, stride, .. } => {
                &&& window.len() <= u64::MAX
                &&& pre_padding.len() <= u64::MAX
                &&& post_padding.len() <= u64::MAX
                &&& stride.len() <= u64::MAX
            },
            _ => true,
        }
    }
}

impl OpSpec {
    fn fields(&self) -> (r: Vec<FieldRef<'_>>)
        ensures
            signature::field_views(r@) == self@.fields(),
    {
        let r = match self {
            OpSpec::ConvFwd {
                x,
                w,
                y,
                spatial_dims,
                pre_padding,
                post_padding,
                stride,
                dilation,
                compute_dtype,
                alpha,
                beta,
            } => vec![
                FieldRef::Byte(0),
                FieldRef::Word(*x as u64),
                FieldRef::Word(*w as u64),
                FieldRef::Word(*y as u64),
                FieldRef::Word(*spatial_dims as u64),
                FieldRef::Ints(pre_padding),
                FieldRef::Ints(post_padding),
                FieldRef::Ints(stride),
                FieldRef::Ints(dilation),
                FieldRef::Word(compute_dtype.code()),
                FieldRef::Word(alpha.0),
                FieldRef::Word(beta.0),
            ],
            OpSpec::ConvBwdData {
                dy,
                w,
                dx,
                spatial_dims,
                pre_padding,
                post_padding,
                stride,
                dilation,
                compute_dtype,
                alpha,
                beta,
            } => vec![
                FieldRef::Byte(1),
                FieldRef::Word(*dy as u64),
                FieldRef::Word(*w as u64),
                FieldRef::Word(*dx as u64),
                FieldRef::Word(*spatial_dims as u64),
                FieldRef::Ints(pre_padding),
                FieldRef::Ints(post_padding),
                FieldRef::Ints(stride),
                FieldRef::Ints(dilation),
                FieldRef::Word(compute_dtype.code()),
                FieldRef::Word(alpha.0),
                FieldRef::Word(beta.0),
            ],
            OpSpec::ConvBwdFilter {
                x,
                dy,
                dw,
                spatial_dims,
                pre_padding,
                post_padding,
                stride,
                dilation,
                compute_dtype,
                alpha,
                beta,
            } => vec![
                FieldRef::Byte(2),
                FieldRef::Word(*x as u64),
                FieldRef::Word(*dy as u64),
                FieldRef::Word(*dw as u64),
                FieldRef::Word(*spatial_dims as u64),
                FieldRef::Ints(pre_padding),
                FieldRef::Ints(post_padding),
                FieldRef::Ints(stride),
                FieldRef::Ints(dilation),
                FieldRef::Word(compute_dtype.code()),
                FieldRef::Word(alpha.0),
                FieldRef::Word(beta.0),
            ],
            OpSpec::Pointwise {
                mode,
                x,
                b,
                y,
                compute_dtype,
                alpha1,
                alpha2,
            } => vec![
                FieldRef::Byte(3),
                FieldRef::Word(mode.code()),
                FieldRef::Word(*x as u64),
                FieldRef::Maybe(*b),
                FieldRef::Word(*y as u64),
                FieldRef::Word(compute_dtype.code()),
                FieldRef::Word(alpha1.0),
                FieldRef::Word(alpha2.0),
            ],
            OpSpec::PoolFwd {
                kind,
                x,
                y,
                window,
                pre_padding,
                post_padding,
                stride,
                compute_dtype,
            } => vec![
                FieldRef::Byte(4),
                FieldRef::Word(kind.code()),
                FieldRef::Word(*x as u64),
                FieldRef::Word(*y as u64),
                FieldRef::Ints(window),
                FieldRef::Ints(pre_padding),
                FieldRef::Ints(post_padding),
                FieldRef::Ints(stride),
                FieldRef::Word(compute_dtype.code()),
            ],
            OpSpec::PoolBwd {
                kind,
                dy,
                x,
                y,
                dx,
                window,
                pre_padding,
                post_padding,
                stride,
                compute_dtype,
            } => vec![
                FieldRef::Byte(5),
                FieldRef::Word(kind.code()),
                FieldRef::Word(*dy as u64),
                FieldRef::Word(*x as u64),
                FieldRef::Word(*y as u64),
                FieldRef::Word(*dx as u64),
                FieldRef::Ints(window),
                FieldRef::Ints(pre_padding),
                FieldRef::Ints(post_padding),
                FieldRef::Ints(stride),
                FieldRef::Word(compute_dtype.code()),
            ],
            OpSpec::NormFwd {
                mode,
                phase,
                x,
                scale,
                bias,
                mean,
                var,
                y,
                compute_dtype,
                epsilon,
                exp_avg_factor,
            } => vec![
                FieldRef::Byte(6),
                FieldRef::Word(mode.code()),
                FieldRef::Word(phase.code()),
                FieldRef::Word(*x as u64),
                FieldRef::Word(*scale as u64),
                FieldRef::Word(*bias as u64),
                FieldRef::Maybe(*mean),
                FieldRef::Maybe(*var),
                FieldRef::Word(*y as u64),
                FieldRef::Word(compute_dtype.code()),
                FieldRef::Word(epsilon.0),
                FieldRef::Word(exp_avg_factor.0),
            ],
            OpSpec::NormBwd {
                mode,
                x,
                dy,
                scale,
                mean,
                var,
                dx,
                dscale,
                dbias,
                compute_dtype,
            } => vec![
                FieldRef::Byte(7),
                FieldRef::Word(mode.code()),
                FieldRef::Word(*x as u64),
                FieldRef::Word(*dy as u64),
                FieldRef::Word(*scale as u64),
                FieldRef::Word(*mean as u64),
                FieldRef::Word(*var as u64),
                FieldRef::Word(*dx as u64),
                FieldRef::Word(*dscale as u64),
                FieldRef::Word(*dbias as u64),
                FieldRef::Word(compute_dtype.code()),
            ],
            OpSpec::Matmul {
                a,
                b,
                c,
                compute_dtype,
            } => vec![
                FieldRef::Byte(8),
                FieldRef::Word(*a as u64),
                FieldRef::Word(*b as u64),
                FieldRef::Word(*c as u64),
                FieldRef::Word(compute_dtype.code()),
            ],
            OpSpec::Reduce {
                op,
                x,
                y,
                compute_dtype,
            } => vec![
                FieldRef::Byte(9),
                FieldRef::Word(op.code()),
                FieldRef::Word(*x as u64),
                FieldRef::Word(*y as u64),
                FieldRef::Word(compute_dtype.code()),
            ],
            OpSpec::Reshape {
                x,
                y,
            } => vec![
                FieldRef::Byte(10),
                FieldRef::Word(*x as u64),
                FieldRef::Word(*y as u64),
            ],
        };
        assert(signature::field_views(r@) =~= self@.fields());
        r
    }
}

/// A graph of operations.
#[derive(Debug, Clone)]
pub struct OperationGraphSpec {
    pub tensors: Vec<TensorSpec>,
    pub ops: Vec<OpSpec>,
    /// Name for diagnostics; not part of the signature.
    pub name: String,
}

/// [`OperationGraphSpec`] with its lists taken as sequences.
#[verifier::ext_equal]
pub struct GraphView {
    pub tensors: Seq<TensorView>,
    pub ops: Seq<OpView>,
    pub name: Seq<char>,
}

impl View for OperationGraphSpec {
    type V = GraphView;

    open spec fn view(&self) -> GraphView {
        GraphView {
            tensors: self.tensors@.map_values(|t: TensorSpec| t@),
            ops: self.ops@.map_values(|op: OpSpec| op@),
            name: self.name@,
        }
    }
}

impl TensorView {
    /// What the signature takes of the tensor, in order.
    pub open spec fn fields(self) -> Seq<Field> {
        seq![
            Field::Word(self.uid as u64),
            Field::Word(self.dtype.spec_code()),
            Field::Ints(self.dims),
            Field::Ints(self.strides),
            Field::Word(self.alignment as u64),
            Field::Byte(
                if self.is_virtual {
                    1
                } else {
                    0
                },
            ),
        ]
    }

    /// Every list of the tensor has a length of machine size.
    pub open spec fn lengths_fit(self) -> bool {
        self.dims.len() <= u64::MAX && self.strides.len() <= u64::MAX
    }
}

fn tensor_fields(t: &TensorSpec) -> (r: Vec<FieldRef<'_>>)
    ensures
        signature::field_views(r@) == t@.fields(),
{
    let flag: u8 = if t.is_virtual {
        1
    } else {
        0
    };
    let r = vec![
        FieldRef::Word(t.uid as u64),
        FieldRef::Word(t.dtype.code()),
        FieldRef::Ints(&t.dims),
        FieldRef::Ints(&t.strides),
        FieldRef::Word(t.alignment as u64),
        FieldRef::Byte(flag),
    ];
    assert(signature::field_views(r@) =~= t@.fields());
    r
}

impl GraphView {
    /// Graph without tensors and operations.
    pub open spec fn empty(name: Seq<char>) -> GraphView {
        GraphView { tensors: Seq::empty(), ops: Seq::empty(), name }
    }

    /// The graph with one more tensor.
    pub open spec fn with_tensor(self, t: TensorView) -> GraphView {
        GraphView { tensors: self.tensors.push(t), ..self }
    }

    /// The graph with one more operation.
    pub open spec fn with_op(self, op: OpView) -> GraphView {
        GraphView { ops: self.ops.push(op), ..self }
    }

    /// One of the graph's tensors has this id.
    pub open spec fn holds(self, id: i64) -> bool {
        exists|i: int| 0 <= i < self.tensors.len() && (#[trigger] self.tensors[i]).uid == id
    }

    /// Every tensor that an operation names is one of the graph's own.
    pub open spec fn names_own_tensors(self) -> bool {
        forall|j: int, id: i64|
            0 <= j < self.ops.len() && #[trigger] self.ops[j].names(id) ==> self.holds(id)
    }

    /// Every list of the graph has a length of machine size.
    pub open spec fn lengths_fit(self) -> bool {
        &&& self.tensors.len() <= u64::MAX
        &&& self.ops.len() <= u64::MAX
        &&& forall|i: int| 0 <= i < self.tensors.len() ==> (#[trigger] self.tensors[i]).lengths_fit()
        &&& forall|i: int| 0 <= i < self.ops.len() ==> (#[trigger] self.ops[i]).lengths_fit()
    }

    /// The bytes that the signature digests: the tensors, then the
    /// operations, each list after its length.
    pub open spec fn bytes(self) -> Seq<u8> {
        signature::word(self.tensors.len() as u64) + tensors_bytes(self.tensors) + signature::word(
            self.ops.len() as u64,
        ) + ops_bytes(self.ops)
    }

    /// Digest of the tensors and operations.
    pub open spec fn spec_signature(self) -> u64 {
        DefaultHasher::spec_finish(seq![self.bytes()])
    }
}

/// The tensors one after another.
pub open spec fn tensors_bytes(s: Seq<TensorView>) -> Seq<u8>
    decreases s.len(),
{
    if s.len() == 0 {
        Seq::empty()
    } else {
        signature::fields_bytes(s[0].fields()) + tensors_bytes(s.drop_first())
    }
}

/// The operations one after another.
pub open spec fn ops_bytes(s: Seq<OpView>) -> Seq<u8>
    decreases s.len(),
{
    if s.len() == 0 {
        Seq::empty()
    } else {
        signature::fields_bytes(s[0].fields()) + ops_bytes(s.drop_first())
    }
}

proof fn lemma_tensors_push(s: Seq<TensorView>, t: TensorView)
    ensures
        tensors_bytes(s.push(t)) == tensors_bytes(s) + signature::fields_bytes(t.fields()),
    decreases s.len(),
{
    if s.len() == 0 {
        let none = Seq::<TensorView>::empty();
        assert(s =~= none && s.push(t).drop_first() =~= none);
        assert(tensors_bytes(none) =~= Seq::<u8>::empty());
        assert(tensors_bytes(s.push(t)) =~= tensors_bytes(s) + signature::fields_bytes(t.fields()));
    } else {
        assert(s.push(t).drop_first() =~= s.drop_first().push(t));
        lemma_tensors_push(s.drop_first(), t);
        assert(tensors_bytes(s.push(t)) =~= tensors_bytes(s) + signature::fields_bytes(t.fields()));
    }
}

proof fn lemma_ops_push(s: Seq<OpView>, op: OpView)
    ensures
        ops_bytes(s.push(op)) == ops_bytes(s) + signature::fields_bytes(op.fields()),
    decreases s.len(),
{
    if s.len() == 0 {
        let none = Seq::<OpView>::empty();
        assert(s =~= none && s.push(op).drop_first() =~= none);
        assert(ops_bytes(none) =~= Seq::<u8>::empty());
        assert(ops_bytes(s.push(op)) =~= ops_bytes(s) + signature::fields_bytes(op.fields()));
    } else {
        assert(s.push(op).drop_first() =~= s.drop_first().push(op));
        lemma_ops_push(s.drop_first(), op);
        assert(ops_bytes(s.push(op)) =~= ops_bytes(s) + signature::fields_bytes(op.fields()));
    }
}

impl OperationGraphSpec {
    /// Graph without tensors and operations.
    pub fn new(name: &str) -> (g: OperationGraphSpec)
        ensures
            g@ == GraphView::empty(name@),
    {
        let g = OperationGraphSpec {
            tensors: Vec::new(),
            ops: Vec::new(),
            name: String::from_str(name),
        };
        assert(g@.tensors =~= Seq::empty());
        assert(g@.ops =~= Seq::empty());
        g
    }

    /// Append a tensor and give its id.
    pub fn add_tensor(&mut self, t: TensorSpec) -> (uid: i64)
        ensures
            final(self)@ == old(self)@.with_tensor(t@),
            uid == t.uid,
    {
        let ghost before = self@;
        let uid: i64 = t.uid;
        self.tensors.push(t);
        assert(self@.tensors =~= before.tensors.push(t@));
        assert(self@.ops =~= before.ops);
        uid
    }

    /// Append an operation.
    pub fn add_op(&mut self, op: OpSpec)
        ensures
            final(self)@ == old(self)@.with_op(op@),
    {
        let ghost before = self@;
        self.ops.push(op);
        assert(self@.ops =~= before.ops.push(op@));
        assert(self@.tensors =~= before.tensors);
    }

    /// The bytes that the signature digests.
    pub fn encode(&self) -> (buf: Vec<u8>)
        ensures
            buf@ == self@.bytes(),
    {
        let mut buf: Vec<u8> = Vec::new();
        let ghost g = self@;
        write_word(&mut buf, self.tensors.len() as u64);
        let ghost head = buf@;
        let mut i: usize = 0;
        assert(buf@ =~= head + tensors_bytes(g.tensors.take(0)));
        while i < self.tensors.len()
            invariant
                i <= self.tensors.len(),
                g == self@,
                buf@ == head + tensors_bytes(g.tensors.take(i as int)),
            decreases self.tensors.len() - i,
        {
            let fields = tensor_fields(&self.tensors[i]);
            write_fields(&mut buf, &fields);
            proof {
                lemma_tensors_push(g.tensors.take(i as int), g.tensors[i as int]);
                assert(g.tensors.take(i as int).push(g.tensors[i as int]) =~= g.tensors.take(i + 1));
            }
            i = i + 1;
            assert(buf@ =~= head + tensors_bytes(g.tensors.take(i as int)));
        }
        assert(g.tensors.take(i as int) =~= g.tensors);
        write_word(&mut buf, self.ops.len() as u64);
        let ghost middle = buf@;
        let mut j: usize = 0;
        assert(buf@ =~= middle + ops_bytes(g.ops.take(0)));
        while j < self.ops.len()
            invariant
                j <= self.ops.len(),
                g == self@,
                buf@ == middle + ops_bytes(g.ops.take(j as int)),
            decreases self.ops.len() - j,
        {
            let fields = self.ops[j].fields();
            write_fields(&mut buf, &fields);
            proof {
                lemma_ops_push(g.ops.take(j as int), g.ops[j as int]);
                assert(g.ops.take(j as int).push(g.ops[j as int]) =~= g.ops.take(j + 1));
            }
            j = j + 1;
            assert(buf@ =~= middle + ops_bytes(g.ops.take(j as int)));
        }
        assert(g.ops.take(j as int) =~= g.ops);
        buf
    }

    /// Digest of the tensors and operations, for the plan cache.
    pub fn signature(&self) -> (s: u64)
        ensures
            s == self@.spec_signature(),
    {
        let buf = self.encode();
        let mut h = DefaultHasher::new();
        h.write(buf.as_slice());
        assert(h@ =~= seq![self@.bytes()]);
        h.finish()
    }

    /// Why the graph's descriptors cannot be built: there is no cuDNN handle,
    /// or the build path is not available yet.
    pub open spec fn build_refusal(handle: u64) -> Seq<char> {
        if handle == 0 {
            "cudnn-frontend graph build path requires a real handle"@
        } else {
            "OperationGraphSpec::build_into not yet wired (Phase 2 cuDNN frontend skeleton)"@
        }
    }

    /// Build the graph's descriptors on a cuDNN handle, which is zero on a host
    /// without cuDNN. No graph is built yet.
    pub fn build_into(&self, handle: u64) -> (r: Result<u64, GpuError>)
        ensures
            error::outcome(r) == Err::<u64, ErrorView>(
                ErrorView::LibraryError {
                    lib: LIB@,
                    msg: OperationGraphSpec::build_refusal(handle),
                },
            ),
    {
        if handle == 0 {
            return Err(
                GpuError::lib(LIB, "cudnn-frontend graph build path requires a real handle"),
            );
        }
        Err(
            GpuError::lib(
                LIB,
                "OperationGraphSpec::build_into not yet wired (Phase 2 cuDNN frontend skeleton)",
            ),
        )
    }
}

proof fn lemma_signed_words(a: i64, b: i64)
    requires
        a as u64 == b as u64,
    ensures
        a == b,
{
    assert(a as u64 == b as u64 ==> a == b) by (bit_vector);
}

proof fn lemma_tensor_from_fields(a: TensorView, b: TensorView)
    requires
        a.fields() == b.fields(),
    ensures
        a == b,
{
    let fa = a.fields();
    let fb = b.fields();
    assert(fa[0] == fb[0] && fa[1] == fb[1] && fa[2] == fb[2] && fa[3] == fb[3] && fa[4] == fb[4]
        && fa[5] == fb[5]);
    lemma_signed_words(a.uid, b.uid);
    lemma_signed_words(a.alignment, b.alignment);
}

proof fn lemma_tensors_injective(
    a: Seq<TensorView>,
    b: Seq<TensorView>,
    rest_a: Seq<u8>,
    rest_b: Seq<u8>,
)
    requires
        a.len() == b.len(),
        forall|i: int| 0 <= i < a.len() ==> (#[trigger] a[i]).lengths_fit(),
        forall|i: int| 0 <= i < b.len() ==> (#[trigger] b[i]).lengths_fit(),
        tensors_bytes(a) + rest_a == tensors_bytes(b) + rest_b,
    ensures
        a == b,
        rest_a == rest_b,
    decreases a.len(),
{
    if a.len() == 0 {
        assert(a =~= b);
        assert(tensors_bytes(a) + rest_a =~= rest_a);
        assert(tensors_bytes(b) + rest_b =~= rest_b);
    } else {
        let fa = a[0].fields();
        let fb = b[0].fields();
        let ta = tensors_bytes(a.drop_first()) + rest_a;
        let tb = tensors_bytes(b.drop_first()) + rest_b;
        assert(signature::fields_bytes(fa) + ta =~= tensors_bytes(a) + rest_a);
        assert(signature::fields_bytes(fb) + tb =~= tensors_bytes(b) + rest_b);
        assert(signature::same_kinds(fa, fb));
        assert(a[0].lengths_fit() && b[0].lengths_fit());
        signature::lemma_fields_injective(fa, fb, ta, tb);
        lemma_tensor_from_fields(a[0], b[0]);
        lemma_tensors_injective(a.drop_first(), b.drop_first(), rest_a, rest_b);
        assert(a =~= seq![a[0]] + a.drop_first());
        assert(b =~= seq![b[0]] + b.drop_first());
    }
}

proof fn lemma_first_byte(op: OpView, rest: Seq<u8>)
    ensures
        op.fields().len() > 0,
        op.fields()[0] is Byte,
        (signature::fields_bytes(op.fields()) + rest)[0] == op.fields()[0]->Byte_0,
{
    let f = op.fields();
    assert(signature::fields_bytes(f) == signature::field_bytes(f[0]) + signature::fields_bytes(
        f.drop_first(),
    ));
}

/// The kinds of the fields of an operation, by its first byte.
spec fn op_kinds(tag: u8) -> Seq<FieldKind> {
    let byte = seq![FieldKind::Byte];
    let word = FieldKind::Word;
    let ints = FieldKind::Ints;
    let maybe = FieldKind::Maybe;
    byte + if tag <= 2 {
        seq![word, word, word, word, ints, ints, ints, ints, word, word, word]
    } else if tag == 3 {
        seq![word, word, maybe, word, word, word, word]
    } else if tag == 4 {
        seq![word, word, word, ints, ints, ints, ints, word]
    } else if tag == 5 {
        seq![word, word, word, word, word, ints, ints, ints, ints, word]
    } else if tag == 6 {
        seq![word, word, word, word, word, maybe, maybe, word, word, word, word]
    } else if tag == 7 {
        seq![word, word, word, word, word, word, word, word, word, word]
    } else if tag == 10 {
        seq![word, word]
    } else {
        seq![word, word, word, word]
    }
}

#[verifier::spinoff_prover]
#[verifier::rlimit(50)]
proof fn lemma_op_kinds(op: OpView)
    ensures
        op.fields().len() > 0,
        op.fields()[0] is Byte,
        signature::kinds(op.fields()) == op_kinds(op.fields()[0]->Byte_0),
{
    assert(signature::kinds(op.fields()) =~= op_kinds(op.fields()[0]->Byte_0));
}

/// Operations whose first fields agree have fields of the same kinds.
proof fn lemma_same_kind(a: OpView, b: OpView)
    requires
        a.fields()[0] == b.fields()[0],
    ensures
        signature::same_kinds(a.fields(), b.fields()),
{
    lemma_op_kinds(a);
    lemma_op_kinds(b);
    let ka = signature::kinds(a.fields());
    let kb = signature::kinds(b.fields());
    assert(a.fields().len() == ka.len() && b.fields().len() == kb.len());
    assert forall|i: int| 0 <= i < a.fields().len() implies signature::same_kind(
        #[trigger] a.fields()[i],
        b.fields()[i],
    ) by {
        assert(ka[i] == kb[i]);
    }
}

proof fn lemma_op_fields_fit(op: OpView)
    requires
        op.lengths_fit(),
    ensures
        forall|i: int|
            0 <= i < op.fields().len() ==> signature::field_fits(#[trigger] op.fields()[i]),
{
}

proof fn lemma_op_from_fields(a: OpView, b: OpView)
    requires
        a.fields() == b.fields(),
    ensures
        a == b,
{
    let fa = a.fields();
    let fb = b.fields();
    assert(fa[0] == fb[0]);
    match (a, b) {
        (
            OpView::ConvFwd { x: x1, w: w1, y: y1, .. },
            OpView::ConvFwd { x: x2, w: w2, y: y2, .. },
        ) => {
            assert(fa[1] == fb[1] && fa[2] == fb[2] && fa[3] == fb[3] && fa[4] == fb[4]
                && fa[5] == fb[5] && fa[6] == fb[6] && fa[7] == fb[7] && fa[8] == fb[8]
                && fa[9] == fb[9] && fa[10] == fb[10] && fa[11] == fb[11]);
            lemma_signed_words(x1, x2);
            lemma_signed_words(w1, w2);
            lemma_signed_words(y1, y2);
        },
        (
            OpView::ConvBwdData { dy: dy1, w: w1, dx: dx1, .. },
            OpView::ConvBwdData { dy: dy2, w: w2, dx: dx2, .. },
        ) => {
            assert(fa[1] == fb[1] && fa[2] == fb[2] && fa[3] == fb[3] && fa[4] == fb[4]
                && fa[5] == fb[5] && fa[6] == fb[6] && fa[7] == fb[7] && fa[8] == fb[8]
                && fa[9] == fb[9] && fa[10] == fb[10] && fa[11] == fb[11]);
            lemma_signed_words(dy1, dy2);
            lemma_signed_words(w1, w2);
            lemma_signed_words(dx1, dx2);
        },
        (
            OpView::ConvBwdFilter { x: x1, dy: dy1, dw: dw1, .. },
            OpView::ConvBwdFilter { x: x2, dy: dy2, dw: dw2, .. },
        ) => {
            assert(fa[1] == fb[1] && fa[2] == fb[2] && fa[3] == fb[3] && fa[4] == fb[4]
                && fa[5] == fb[5] && fa[6] == fb[6] && fa[7] == fb[7] && fa[8] == fb[8]
                && fa[9] == fb[9] && fa[10] == fb[10] && fa[11] == fb[11]);
            lemma_signed_words(x1, x2);
            lemma_signed_words(dy1, dy2);
            lemma_signed_words(dw1, dw2);
        },
        (
            OpView::Pointwise { x: x1, y: y1, .. },
            OpView::Pointwise { x: x2, y: y2, .. },
        ) => {
            assert(fa[1] == fb[1] && fa[2] == fb[2] && fa[3] == fb[3] && fa[4] == fb[4]
                && fa[5] == fb[5] && fa[6] == fb[6] && fa[7] == fb[7]);
            lemma_signed_words(x1, x2);
            lemma_signed_words(y1, y2);
        },
        (
            OpView::PoolFwd { x: x1, y: y1, .. },
            OpView::PoolFwd { x: x2, y: y2, .. },
        ) => {
            assert(fa[1] == fb[1] && fa[2] == fb[2] && fa[3] == fb[3] && fa[4] == fb[4]
                && fa[5] == fb[5] && fa[6] == fb[6] && fa[7] == fb[7] && fa[8] == fb[8]);
            lemma_signed_words(x1, x2);
            lemma_signed_words(y1, y2);
        },
        (
            OpView::PoolBwd { dy: dy1, x: x1, y: y1, dx: dx1, .. },
            OpView::PoolBwd { dy: dy2, x: x2, y: y2, dx: dx2, .. },
        ) => {
            assert(fa[1] == fb[1] && fa[2] == fb[2] && fa[3] == fb[3] && fa[4] == fb[4]
                && fa[5] == fb[5] && fa[6] == fb[6] && fa[7] == fb[7] && fa[8] == fb[8]
                && fa[9] == fb[9] && fa[10] == fb[10]);
            lemma_signed_words(dy1, dy2);
            lemma_signed_words(x1, x2);
            lemma_signed_words(y1, y2);
            lemma_signed_words(dx1, dx2);
        },
        (
            OpView::NormFwd { x: x1, scale: scale1, bias: bias1, y: y1, .. },
            OpView::NormFwd { x: x2, scale: scale2, bias: bias2, y: y2, .. },
        ) => {
            assert(fa[1] == fb[1] && fa[2] == fb[2] && fa[3] == fb[3] && fa[4] == fb[4]
                && fa[5] == fb[5] && fa[6] == fb[6] && fa[7] == fb[7] && fa[8] == fb[8]
                && fa[9] == fb[9] && fa[10] == fb[10] && fa[11] == fb[11]);
            lemma_signed_words(x1, x2);
            lemma_signed_words(scale1, scale2);
            lemma_signed_words(bias1, bias2);
            lemma_signed_words(y1, y2);
        },
        (
            OpView::NormBwd { x: x1, dy: dy1, scale: scale1, mean: mean1, var: var1, dx: dx1, dscale: dscale1, dbias: dbias1, .. },
            OpView::NormBwd { x: x2, dy: dy2, scale: scale2, mean: mean2, var: var2, dx: dx2, dscale: dscale2, dbias: dbias2, .. },
        ) => {
            assert(fa[1] == fb[1] && fa[2] == fb[2] && fa[3] == fb[3] && fa[4] == fb[4]
                && fa[5] == fb[5] && fa[6] == fb[6] && fa[7] == fb[7] && fa[8] == fb[8]
                && fa[9] == fb[9] && fa[10] == fb[10]);
            lemma_signed_words(x1, x2);
            lemma_signed_words(dy1, dy2);
            lemma_signed_words(scale1, scale2);
            lemma_signed_words(mean1, mean2);
            lemma_signed_words(var1, var2);
            lemma_signed_words(dx1, dx2);
            lemma_signed_words(dscale1, dscale2);
            lemma_signed_words(dbias1, dbias2);
        },
        (
            OpView::Matmul { a: a1, b: b1, c: c1, .. },
            OpView::Matmul { a: a2, b: b2, c: c2, .. },
        ) => {
            assert(fa[1] == fb[1] && fa[2] == fb[2] && fa[3] == fb[3] && fa[4] == fb[4]);
            lemma_signed_words(a1, a2);
            lemma_signed_words(b1, b2);
            lemma_signed_words(c1, c2);
        },
        (
            OpView::Reduce { x: x1, y: y1, .. },
            OpView::Reduce { x: x2, y: y2, .. },
        ) => {
            assert(fa[1] == fb[1] && fa[2] == fb[2] && fa[3] == fb[3] && fa[4] == fb[4]);
            lemma_signed_words(x1, x2);
            lemma_signed_words(y1, y2);
        },
        (
            OpView::Reshape { x: x1, y: y1 },
            OpView::Reshape { x: x2, y: y2 },
        ) => {
            assert(fa[1] == fb[1] && fa[2] == fb[2]);
            lemma_signed_words(x1, x2);
            lemma_signed_words(y1, y2);
        },
        _ => {},
    }
}

proof fn lemma_ops_injective(a: Seq<OpView>, b: Seq<OpView>, rest_a: Seq<u8>, rest_b: Seq<u8>)
    requires
        a.len() == b.len(),
        forall|i: int| 0 <= i < a.len() ==> (#[trigger] a[i]).lengths_fit(),
        forall|i: int| 0 <= i < b.len() ==> (#[trigger] b[i]).lengths_fit(),
        ops_bytes(a) + rest_a == ops_bytes(b) + rest_b,
    ensures
        a == b,
        rest_a == rest_b,
    decreases a.len(),
{
    if a.len() == 0 {
        assert(a =~= b);
        assert(ops_bytes(a) + rest_a =~= rest_a);
        assert(ops_bytes(b) + rest_b =~= rest_b);
    } else {
        let fa = a[0].fields();
        let fb = b[0].fields();
        let ta = ops_bytes(a.drop_first()) + rest_a;
        let tb = ops_bytes(b.drop_first()) + rest_b;
        assert(signature::fields_bytes(fa) + ta =~= ops_bytes(a) + rest_a);
        assert(signature::fields_bytes(fb) + tb =~= ops_bytes(b) + rest_b);
        lemma_first_byte(a[0], ta);
        lemma_first_byte(b[0], tb);
        assert(fa[0] == fb[0]);
        lemma_same_kind(a[0], b[0]);
        lemma_op_fields_fit(a[0]);
        lemma_op_fields_fit(b[0]);
        signature::lemma_fields_injective(fa, fb, ta, tb);
        lemma_op_from_fields(a[0], b[0]);
        lemma_ops_injective(a.drop_first(), b.drop_first(), rest_a, rest_b);
        assert(a =~= seq![a[0]] + a.drop_first());
        assert(b =~= seq![b[0]] + b.drop_first());
    }
}

/// Two graphs are digested from the same bytes exactly when their tensors and
/// their operations agree. The name plays no part.
pub proof fn law_bytes_determine_graph(a: GraphView, b: GraphView)
    requires
        a.lengths_fit(),
        b.lengths_fit(),
    ensures
        a.bytes() == b.bytes() <==> a.tensors == b.tensors && a.ops == b.ops,
{
    if a.bytes() == b.bytes() {
        let wa = signature::word(a.tensors.len() as u64);
        let wb = signature::word(b.tensors.len() as u64);
        let oa = signature::word(a.ops.len() as u64) + ops_bytes(a.ops);
        let ob = signature::word(b.ops.len() as u64) + ops_bytes(b.ops);
        assert(a.bytes() =~= wa + (tensors_bytes(a.tensors) + oa));
        assert(b.bytes() =~= wb + (tensors_bytes(b.tensors) + ob));
        signature::lemma_word_injective(
            a.tensors.len() as u64,
            b.tensors.len() as u64,
            tensors_bytes(a.tensors) + oa,
            tensors_bytes(b.tensors) + ob,
        );
        lemma_tensors_injective(a.tensors, b.tensors, oa, ob);
        signature::lemma_word_injective(
            a.ops.len() as u64,
            b.ops.len() as u64,
            ops_bytes(a.ops),
            ops_bytes(b.ops),
        );
        let none = Seq::<u8>::empty();
        assert(ops_bytes(a.ops) + none =~= ops_bytes(a.ops));
        assert(ops_bytes(b.ops) + none =~= ops_bytes(b.ops));
        lemma_ops_injective(a.ops, b.ops, none, none);
    }
}

/// Graphs with the same tensors and operations have the same signature,
/// whatever their names.
pub proof fn law_signature_ignores_name(a: GraphView, b: GraphView)
    requires
        a.tensors == b.tensors,
        a.ops == b.ops,
    ensures
        a.spec_signature() == b.spec_signature(),
{
}

/// The graph's tensor at a position has this element type and these dimensions,
/// packed, is numbered by its position from one on, and has memory of its own
/// unless it is an intermediate result.
pub open spec fn lists_tensor(
    g: GraphView,
    at: int,
    dtype: DtypeTag,
    dims: Seq<i64>,
    layout: TensorLayout,
    intermediate: bool,
) -> bool {
    &&& 0 <= at < g.tensors.len()
    &&& g.tensors[at].uid == at + 1
    &&& g.tensors[at].dtype == dtype
    &&& g.tensors[at].dims == dims
    &&& g.tensors[at].strides == tensor::strides_of(dims, layout)
    &&& g.tensors[at].alignment == 16
    &&& g.tensors[at].is_virtual == intermediate
}

/// The modes are numbered in the order of their declaration.
pub proof fn law_codes_count_up()
    ensures
        PointwiseMode::Relu.spec_code() == 0,
        PointwiseMode::Sigmoid.spec_code() == 1,
        PointwiseMode::Tanh.spec_code() == 2,
        PointwiseMode::Gelu.spec_code() == 3,
        PointwiseMode::GeluApprox.spec_code() == 4,
        PointwiseMode::Swish.spec_code() == 5,
        PointwiseMode::Elu.spec_code() == 6,
        PointwiseMode::Softplus.spec_code() == 7,
        PointwiseMode::Identity.spec_code() == 8,
        PointwiseMode::Add.spec_code() == 9,
        PointwiseMode::Mul.spec_code() == 10,
        PointwiseMode::Sub.spec_code() == 11,
        PointwiseMode::Div.spec_code() == 12,
        PointwiseMode::Min.spec_code() == 13,
        PointwiseMode::Max.spec_code() == 14,
        PointwiseMode::Sqrt.spec_code() == 15,
        PointwiseMode::Rsqrt.spec_code() == 16,
        PointwiseMode::Exp.spec_code() == 17,
        PointwiseMode::Log.spec_code() == 18,
        PointwiseMode::Neg.spec_code() == 19,
        PointwiseMode::Abs.spec_code() == 20,
        PoolKind::MaxFwd.spec_code() == 0,
        PoolKind::AvgFwd.spec_code() == 1,
        PoolKind::MaxBwd.spec_code() == 2,
        PoolKind::AvgBwd.spec_code() == 3,
        NormMode::BatchNorm.spec_code() == 0,
        NormMode::LayerNorm.spec_code() == 1,
        NormMode::InstanceNorm.spec_code() == 2,
        NormMode::GroupNorm.spec_code() == 3,
        NormMode::RmsNorm.spec_code() == 4,
        NormPhase::Inference.spec_code() == 0,
        NormPhase::Training.spec_code() == 1,
        NormPhase::PersistentTraining.spec_code() == 2,
        ReduceOp::Add.spec_code() == 0,
        ReduceOp::Mul.spec_code() == 1,
        ReduceOp::Min.spec_code() == 2,
        ReduceOp::Max.spec_code() == 3,
        ReduceOp::Mean.spec_code() == 4,
        ReduceOp::Norm1.spec_code() == 5,
        ReduceOp::Norm2.spec_code() == 6,
{
}

/// Adding a tensor or an operation puts it behind the others and changes nothing
/// else.
pub proof fn law_graph_grows_at_the_end(g: GraphView, t: TensorView, op: OpView)
    ensures
        g.with_tensor(t).tensors == g.tensors.push(t),
        g.with_tensor(t).ops == g.ops,
        g.with_tensor(t).name == g.name,
        g.with_op(op).ops == g.ops.push(op),
        g.with_op(op).tensors == g.tensors,
        g.with_op(op).name == g.name,
{
}

/// What the signature takes of a tensor is all of it, in the order of its
/// declaration.
pub proof fn law_tensor_encoding(t: TensorView)
    ensures
        t.fields() == seq![
            Field::Word(t.uid as u64),
            Field::Word(t.dtype.spec_code()),
            Field::Ints(t.dims),
            Field::Ints(t.strides),
            Field::Word(t.alignment as u64),
            Field::Byte(
                if t.is_virtual {
                    1
                } else {
                    0
                },
            ),
        ],
{
}

/// What the signature takes of an operation is its number and then all of it, in
/// the order of its declaration; floats are taken by their bits.
pub proof fn law_operation_encoding(operation: OpView)
    ensures
        match operation {
            OpView::ConvFwd {
                x,
                w,
                y,
                spatial_dims,
                pre_padding,
                post_padding,
                stride,
                dilation,
                compute_dtype,
                alpha,
                beta,
            } => operation.fields() == seq![
                Field::Byte(0),
                Field::Word(x as u64),
                Field::Word(w as u64),
                Field::Word(y as u64),
                Field::Word(spatial_dims as u64),
                Field::Ints(pre_padding),
                Field::Ints(post_padding),
                Field::Ints(stride),
                Field::Ints(dilation),
                Field::Word(compute_dtype.spec_code()),
                Field::Word(alpha.0),
                Field::Word(beta.0),
            ],
            OpView::ConvBwdData {
                dy,
                w,
                dx,
                spatial_dims,
                pre_padding,
                post_padding,
                stride,
                dilation,
                compute_dtype,
                alpha,
                beta,
            } => operation.fields() == seq![
                Field::Byte(1),
                Field::Word(dy as u64),
                Field::Word(w as u64),
                Field::Word(dx as u64),
                Field::Word(spatial_dims as u64),
                Field::Ints(pre_padding),
                Field::Ints(post_padding),
                Field::Ints(stride),
                Field::Ints(dilation),
                Field::Word(compute_dtype.spec_code()),
                Field::Word(alpha.0),
                Field::Word(beta.0),
            ],
            OpView::ConvBwdFilter {
                x,
                dy,
                dw,
                spatial_dims,
                pre_padding,
                post_padding,
                stride,
                dilation,
                compute_dtype,
                alpha,
                beta,
            } => operation.fields() == seq![
                Field::Byte(2),
                Field::Word(x as u64),
                Field::Word(dy as u64),
                Field::Word(dw as u64),
                Field::Word(spatial_dims as u64),
                Field::Ints(pre_padding),
                Field::Ints(post_padding),
                Field::Ints(stride),
                Field::Ints(dilation),
                Field::Word(compute_dtype.spec_code()),
                Field::Word(alpha.0),
                Field::Word(beta.0),
            ],
            OpView::Pointwise {
                mode,
                x,
                b,
                y,
                compute_dtype,
                alpha1,
                alpha2,
            } => operation.fields() == seq![
                Field::Byte(3),
                Field::Word(mode.spec_code()),
                Field::Word(x as u64),
                Field::Maybe(b),
                Field::Word(y as u64),
                Field::Word(compute_dtype.spec_code()),
                Field::Word(alpha1.0),
                Field::Word(alpha2.0),
            ],
            OpView::PoolFwd {
                kind,
                x,
                y,
                window,
                pre_padding,
                post_padding,
                stride,
                compute_dtype,
            } => operation.fields() == seq![
                Field::Byte(4),
                Field::Word(kind.spec_code()),
                Field::Word(x as u64),
                Field::Word(y as u64),
                Field::Ints(window),
                Field::Ints(pre_padding),
                Field::Ints(post_padding),
                Field::Ints(stride),
                Field::Word(compute_dtype.spec_code()),
            ],
            OpView::PoolBwd {
                kind,
                dy,
                x,
                y,
                dx,
                window,
                pre_padding,
                post_padding,
                stride,
                compute_dtype,
            } => operation.fields() == seq![
                Field::Byte(5),
                Field::Word(kind.spec_code()),
                Field::Word(dy as u64),
                Field::Word(x as u64),
                Field::Word(y as u64),
                Field::Word(dx as u64),
                Field::Ints(window),
                Field::Ints(pre_padding),
                Field::Ints(post_padding),
                Field::Ints(stride),
                Field::Word(compute_dtype.spec_code()),
            ],
            OpView::NormFwd {
                mode,
                phase,
                x,
                scale,
                bias,
                mean,
                var,
                y,
                compute_dtype,
                epsilon,
                exp_avg_factor,
            } => operation.fields() == seq![
                Field::Byte(6),
                Field::Word(mode.spec_code()),
                Field::Word(phase.spec_code()),
                Field::Word(x as u64),
                Field::Word(scale as u64),
                Field::Word(bias as u64),
                Field::Maybe(mean),
                Field::Maybe(var),
                Field::Word(y as u64),
                Field::Word(compute_dtype.spec_code()),
                Field::Word(epsilon.0),
                Field::Word(exp_avg_factor.0),
            ],
            OpView::NormBwd {
                mode,
                x,
                dy,
                scale,
                mean,
                var,
                dx,
                dscale,
                dbias,
                compute_dtype,
            } => operation.fields() == seq![
                Field::Byte(7),
                Field::Word(mode.spec_code()),
                Field::Word(x as u64),
                Field::Word(dy as u64),
                Field::Word(scale as u64),
                Field::Word(mean as u64),
                Field::Word(var as u64),
                Field::Word(dx as u64),
                Field::Word(dscale as u64),
                Field::Word(dbias as u64),
                Field::Word(compute_dtype.spec_code()),
            ],
            OpView::Matmul {
                a,
                b,
                c,
                compute_dtype,
            } => operation.fields() == seq![
                Field::Byte(8),
                Field::Word(a as u64),
                Field::Word(b as u64),
                Field::Word(c as u64),
                Field::Word(compute_dtype.spec_code()),
            ],
            OpView::Reduce {
                op,
                x,
                y,
                compute_dtype,
            } => operation.fields() == seq![
                Field::Byte(9),
                Field::Word(op.spec_code()),
                Field::Word(x as u64),
                Field::Word(y as u64),
                Field::Word(compute_dtype.spec_code()),
            ],
            OpView::Reshape {
                x,
                y,
            } => operation.fields() == seq![
                Field::Byte(10),
                Field::Word(x as u64),
                Field::Word(y as u64),
            ],
        },
{
}

/// The signature is the digest of the graph's bytes, so that graphs with the same
/// tensors and operations share it, and nothing else goes into it.
pub proof fn law_signature_digests_the_bytes(g: GraphView)
    ensures
        g.spec_signature() == DefaultHasher::spec_finish(seq![g.bytes()]),
        g.bytes() == signature::word(g.tensors.len() as u64) + tensors_bytes(g.tensors)
            + signature::word(g.ops.len() as u64) + ops_bytes(g.ops),
{
}

/// A graph is not built without a cuDNN handle, and not yet with one.
pub proof fn law_build_refusals(handle: u64)
    ensures
        handle == 0 ==> OperationGraphSpec::build_refusal(handle)
            == "cudnn-frontend graph build path requires a real handle"@,
        handle != 0 ==> OperationGraphSpec::build_refusal(handle)
            == "OperationGraphSpec::build_into not yet wired (Phase 2 cuDNN frontend skeleton)"@,
{
}

} // verus!
