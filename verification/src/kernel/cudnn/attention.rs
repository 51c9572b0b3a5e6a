//! Multi-head attention and its gradients.

use vstd::prelude::*;

use crate::dtype::{CudnnSupported, F32, F64};
use crate::error;
use crate::error::GpuError;
use crate::gpu_ref::GpuRef;
use crate::kernel::cudnn::conv;
use crate::kernel::cudnn::conv::dtype_tag;
use crate::kernel::cudnn::dispatch;
use crate::kernel::cudnn::dispatch::{not_available, CudnnDispatch};
use crate::kernel::cudnn::graph;
use crate::kernel::cudnn::graph::{GraphView, OpSpec, OpView, OperationGraphSpec, PointwiseMode};
use crate::kernel::cudnn::tensor;
use crate::kernel::cudnn::tensor::{DtypeTag, TensorLayout, TensorSpec, TensorView};

verus! {

/// Mask on the attention scores.
#[derive(Debug, Clone, Copy, PartialEq, Eq, Hash, Structural)]
pub enum AttentionMask {
    Unmasked,
    Causal,
    /// Window of this many tokens to both sides.
    SlidingWindow(u32),
    /// Causal, and within the window.
    CausalSlidingWindow(u32),
}

/// Shape and options of an attention.
#[derive(Debug, Clone, Copy, PartialEq, Eq, Structural)]
pub struct AttentionParams {
    pub batch: i64,
    pub seq_q: i64,
    pub seq_kv: i64,
    pub heads_q: i64,
    pub heads_kv: i64,
    pub head_dim: i64,
    pub mask: AttentionMask,
    /// Factor on the scores, typically `1/sqrt(head_dim)`.
    pub scale: F64,
    /// Dropout probability on the scores; zero for none.
    pub dropout: F32,
    pub dropout_seed: u64,
}

impl AttentionParams {
    /// Attention without mask and dropout.
    pub fn new(
        batch: i64,
        seq_q: i64,
        seq_kv: i64,
        heads_q: i64,
        heads_kv: i64,
        head_dim: i64,
        scale: F64,
    ) -> (p: AttentionParams)
        ensures
            p == (AttentionParams {
                batch,
                seq_q,
                seq_kv,
                heads_q,
                heads_kv,
                head_dim,
                mask: AttentionMask::Unmasked,
                scale,
                dropout: F32(0),
                dropout_seed: 0,
            }),
    {
        AttentionParams {
            batch,
            seq_q,
            seq_kv,
            heads_q,
            heads_kv,
            head_dim,
            mask: AttentionMask::Unmasked,
            scale,
            dropout: F32(0),
            dropout_seed: 0,
        }
    }

    /// The attention with this mask.
    pub fn with_mask(self, m: AttentionMask) -> (p: AttentionParams)
        ensures
            p == (AttentionParams { mask: m, ..self }),
    {
        AttentionParams { mask: m, ..self }
    }

    /// The attention with this dropout.
    pub fn with_dropout(self, p: F32, seed: u64) -> (r: AttentionParams)
        ensures
            r == (AttentionParams { dropout: p, dropout_seed: seed, ..self }),
    {
        AttentionParams { dropout: p, dropout_seed: seed, ..self }
    }

    /// Whether several query heads share a key and value head.
    pub fn is_gqa(&self) -> (b: bool)
        ensures
            b == (self.heads_q != self.heads_kv),
    {
        self.heads_q != self.heads_kv
    }

    /// Dimensions of the queries and of the output.
    pub open spec fn q_dims(self) -> Seq<i64> {
        seq![self.batch, self.heads_q, self.seq_q, self.head_dim]
    }

    /// Dimensions of the keys and of the values.
    pub open spec fn kv_dims(self) -> Seq<i64> {
        seq![self.batch, self.heads_kv, self.seq_kv, self.head_dim]
    }

    /// Dimensions of the scores.
    pub open spec fn score_dims(self) -> Seq<i64> {
        seq![self.batch, self.heads_q, self.seq_q, self.seq_kv]
    }

    fn query_dims(&self) -> (d: Vec<i64>)
        ensures
            d@ == self.q_dims(),
    {
        let d = vec![self.batch, self.heads_q, self.seq_q, self.head_dim];
        assert(d@ =~= self.q_dims());
        d
    }

    fn key_dims(&self) -> (d: Vec<i64>)
        ensures
            d@ == self.kv_dims(),
    {
        let d = vec![self.batch, self.heads_kv, self.seq_kv, self.head_dim];
        assert(d@ =~= self.kv_dims());
        d
    }

    fn scores(&self) -> (d: Vec<i64>)
        ensures
            d@ == self.score_dims(),
    {
        let d = vec![self.batch, self.heads_q, self.seq_q, self.seq_kv];
        assert(d@ =~= self.score_dims());
        d
    }
}

/// Attention.
pub struct MultiHeadAttnFwdRequest<T: CudnnSupported> {
    pub q: GpuRef<T>,
    pub k: GpuRef<T>,
    pub v: GpuRef<T>,
    pub o: GpuRef<T>,
    /// Softmax statistics, kept for the gradients.
    pub stats: Option<GpuRef<T>>,
    /// Bias on the scores.
    pub bias: Option<GpuRef<T>>,
    pub layout: TensorLayout,
    pub params: AttentionParams,
    pub reply: u64,
}

/// Graph of an attention: the scores, their softmax, and the weighted sum.
pub open spec fn mha_fwd_graph(
    dtype: DtypeTag,
    p: AttentionParams,
    layout: TensorLayout,
) -> GraphView {
    GraphView::empty("mha_fwd"@).with_tensor(
        TensorView::packed(1, dtype, p.q_dims(), layout),
    ).with_tensor(
        TensorView::packed(2, dtype, p.kv_dims(), layout),
    ).with_tensor(
        TensorView::packed(3, dtype, p.kv_dims(), layout),
    ).with_tensor(
        TensorView::packed(4, dtype, p.score_dims(), layout).virtualized(),
    ).with_tensor(
        TensorView::packed(5, dtype, p.score_dims(), layout).virtualized(),
    ).with_tensor(
        TensorView::packed(6, dtype, p.q_dims(), layout),
    ).with_op(OpView::Matmul { a: 1, b: 2, c: 4, compute_dtype: dtype }).with_op(
        OpView::Pointwise {
            mode: PointwiseMode::Identity,
            x: 4,
            b: None,
            y: 5,
            compute_dtype: dtype,
            alpha1: p.scale,
            alpha2: F64(0),
        },
    ).with_op(OpView::Matmul { a: 5, b: 3, c: 6, compute_dtype: dtype })
}

/// Graph of an attention: the scores, their softmax, and the weighted sum.
pub fn build_mha_fwd_graph(
    dtype: DtypeTag,
    p: &AttentionParams,
    layout: TensorLayout,
) -> (g: OperationGraphSpec)
    requires
        tensor::packable(p.q_dims(), layout),
        tensor::packable(p.kv_dims(), layout),
        tensor::packable(p.score_dims(), layout),
    ensures
        g@ == mha_fwd_graph(dtype, *p, layout),
{
    let mut g = OperationGraphSpec::new("mha_fwd");
    let q = g.add_tensor(TensorSpec::new(1, dtype, p.query_dims(), layout));
    let k = g.add_tensor(TensorSpec::new(2, dtype, p.key_dims(), layout));
    let v = g.add_tensor(TensorSpec::new(3, dtype, p.key_dims(), layout));
    let qk = g.add_tensor(TensorSpec::new(4, dtype, p.scores(), layout).virtualized());
    let weights = g.add_tensor(TensorSpec::new(5, dtype, p.scores(), layout).virtualized());
    let o = g.add_tensor(TensorSpec::new(6, dtype, p.query_dims(), layout));
    g.add_op(OpSpec::Matmul { a: q, b: k, c: qk, compute_dtype: dtype });
    g.add_op(
        OpSpec::Pointwise {
            mode: PointwiseMode::Identity,
            x: qk,
            b: None,
            y: weights,
            compute_dtype: dtype,
            alpha1: p.scale,
            alpha2: F64(0),
        },
    );
    g.add_op(OpSpec::Matmul { a: weights, b: v, c: o, compute_dtype: dtype });
    g
}

/// Graph of an attention's gradients, as far as the plan cache needs it.
pub open spec fn mha_bwd_graph(
    dtype: DtypeTag,
    p: AttentionParams,
    layout: TensorLayout,
) -> GraphView {
    GraphView::empty("mha_bwd"@).with_tensor(
        TensorView::packed(1, dtype, p.q_dims(), layout),
    ).with_tensor(
        TensorView::packed(2, dtype, p.kv_dims(), layout),
    ).with_tensor(
        TensorView::packed(3, dtype, p.kv_dims(), layout),
    ).with_tensor(
        TensorView::packed(4, dtype, p.q_dims(), layout),
    ).with_tensor(
        TensorView::packed(5, dtype, p.kv_dims(), layout),
    ).with_tensor(
        TensorView::packed(6, dtype, p.kv_dims(), layout),
    ).with_tensor(
        TensorView::packed(7, dtype, p.score_dims(), layout).virtualized(),
    ).with_tensor(
        TensorView::packed(8, dtype, p.score_dims(), layout).virtualized(),
    ).with_tensor(
        TensorView::packed(9, dtype, p.score_dims(), layout).virtualized(),
    ).with_op(OpView::Matmul { a: 4, b: 2, c: 7, compute_dtype: dtype }).with_op(
        OpView::Matmul { a: 4, b: 3, c: 8, compute_dtype: dtype },
    ).with_op(OpView::Matmul { a: 1, b: 5, c: 9, compute_dtype: dtype })
}

/// Graph of an attention's gradients, as far as the plan cache needs it.
pub fn build_mha_bwd_graph(
    dtype: DtypeTag,
    p: &AttentionParams,
    layout: TensorLayout,
) -> (g: OperationGraphSpec)
    requires
        tensor::packable(p.q_dims(), layout),
        tensor::packable(p.kv_dims(), layout),
        tensor::packable(p.score_dims(), layout),
    ensures
        g@ == mha_bwd_graph(dtype, *p, layout),
{
    let mut g = OperationGraphSpec::new("mha_bwd");
    let q = g.add_tensor(TensorSpec::new(1, dtype, p.query_dims(), layout));
    let k = g.add_tensor(TensorSpec::new(2, dtype, p.key_dims(), layout));
    let v = g.add_tensor(TensorSpec::new(3, dtype, p.key_dims(), layout));
    let d_o = g.add_tensor(TensorSpec::new(4, dtype, p.query_dims(), layout));
    let dk = g.add_tensor(TensorSpec::new(5, dtype, p.key_dims(), layout));
    g.add_tensor(TensorSpec::new(6, dtype, p.key_dims(), layout));
    let by_k = g.add_tensor(TensorSpec::new(7, dtype, p.scores(), layout).virtualized());
    let by_v = g.add_tensor(TensorSpec::new(8, dtype, p.scores(), layout).virtualized());
    let by_dk = g.add_tensor(TensorSpec::new(9, dtype, p.scores(), layout).virtualized());
    g.add_op(OpSpec::Matmul { a: d_o, b: k, c: by_k, compute_dtype: dtype });
    g.add_op(OpSpec::Matmul { a: d_o, b: v, c: by_v, compute_dtype: dtype });
    g.add_op(OpSpec::Matmul { a: q, b: dk, c: by_dk, compute_dtype: dtype });
    g
}

impl<T: CudnnSupported> MultiHeadAttnFwdRequest<T> {
    /// Graph of the request.
    pub fn graph_spec(&self) -> (g: OperationGraphSpec)
        requires
            conv::spec_tag(T::spec_element()) is Some,
            tensor::packable(self.params.q_dims(), self.layout),
            tensor::packable(self.params.kv_dims(), self.layout),
            tensor::packable(self.params.score_dims(), self.layout),
        ensures
            g@ == mha_fwd_graph(conv::spec_tag(T::spec_element())->0, self.params, self.layout),
    {
        build_mha_fwd_graph(dtype_tag::<T>(), &self.params, self.layout)
    }
}

impl<T: CudnnSupported> CudnnDispatch for MultiHeadAttnFwdRequest<T> {
    fn dtype_name(&self) -> (s: &'static str)
        ensures
            s@ == T::spec_element().spec_name(),
    {
        T::name()
    }

    fn op_kind(&self) -> (s: &'static str)
        ensures
            s@ == "mha_fwd"@,
    {
        "mha_fwd"
    }

    fn dispatch(&self) -> (r: Result<(), GpuError>)
        ensures
            error::outcome(r) == dispatch::unavailable(
                "MultiHeadAttnFwdRequest dispatch requires the v9 fused-attention path; skeleton entry point only"@,
            ),
    {
        not_available(
            "MultiHeadAttnFwdRequest dispatch requires the v9 fused-attention path; skeleton entry point only",
        )
    }
}

/// Gradients of an attention.
pub struct MultiHeadAttnBwdRequest<T: CudnnSupported> {
    pub q: GpuRef<T>,
    pub k: GpuRef<T>,
    pub v: GpuRef<T>,
    pub o: GpuRef<T>,
    pub do_: GpuRef<T>,
    pub dq: GpuRef<T>,
    pub dk: GpuRef<T>,
    pub dv: GpuRef<T>,
    pub stats: GpuRef<T>,
    pub layout: TensorLayout,
    pub params: AttentionParams,
    pub reply: u64,
}

impl<T: CudnnSupported> MultiHeadAttnBwdRequest<T> {
    /// Graph of the request.
    pub fn graph_spec(&self) -> (g: OperationGraphSpec)
        requires
            conv::spec_tag(T::spec_element()) is Some,
            tensor::packable(self.params.q_dims(), self.layout),
            tensor::packable(self.params.kv_dims(), self.layout),
            tensor::packable(self.params.score_dims(), self.layout),
        ensures
            g@ == mha_bwd_graph(conv::spec_tag(T::spec_element())->0, self.params, self.layout),
    {
        build_mha_bwd_graph(dtype_tag::<T>(), &self.params, self.layout)
    }
}

impl<T: CudnnSupported> CudnnDispatch for MultiHeadAttnBwdRequest<T> {
    fn dtype_name(&self) -> (s: &'static str)
        ensures
            s@ == T::spec_element().spec_name(),
    {
        T::name()
    }

    fn op_kind(&self) -> (s: &'static str)
        ensures
            s@ == "mha_bwd"@,
    {
        "mha_bwd"
    }

    fn dispatch(&self) -> (r: Result<(), GpuError>)
        ensures
            error::outcome(r) == dispatch::unavailable(
                "MultiHeadAttnBwdRequest dispatch requires the v9 fused-attention path; skeleton entry point only"@,
            ),
    {
        not_available(
            "MultiHeadAttnBwdRequest dispatch requires the v9 fused-attention path; skeleton entry point only",
        )
    }
}

/// Every tensor that an operation of an attention's graphs names is one of the
/// graph's own.
pub proof fn law_attention_graphs_name_own_tensors(
    dtype: DtypeTag,
    p: AttentionParams,
    layout: TensorLayout,
)
    ensures
        mha_fwd_graph(dtype, p, layout).names_own_tensors(),
        mha_bwd_graph(dtype, p, layout).names_own_tensors(),
{
    let f = mha_fwd_graph(dtype, p, layout);
    assert(f.tensors[0].uid == 1 && f.tensors[1].uid == 2 && f.tensors[2].uid == 3);
    assert(f.tensors[3].uid == 4 && f.tensors[4].uid == 5 && f.tensors[5].uid == 6);
    let b = mha_bwd_graph(dtype, p, layout);
    assert(b.tensors[0].uid == 1 && b.tensors[1].uid == 2 && b.tensors[2].uid == 3);
    assert(b.tensors[3].uid == 4 && b.tensors[4].uid == 5 && b.tensors[5].uid == 6);
    assert(b.tensors[6].uid == 7 && b.tensors[7].uid == 8 && b.tensors[8].uid == 9);
}

/// The mask and the dropout of an attention are not part of its graphs: they
/// reach the device when the plan is run.
pub proof fn law_graph_ignores_mask(
    dtype: DtypeTag,
    p: AttentionParams,
    layout: TensorLayout,
    mask: AttentionMask,
    dropout: F32,
    seed: u64,
)
    ensures
        mha_fwd_graph(
            dtype,
            AttentionParams { mask, dropout, dropout_seed: seed, ..p },
            layout,
        ) == mha_fwd_graph(dtype, p, layout),
        mha_bwd_graph(
            dtype,
            AttentionParams { mask, dropout, dropout_seed: seed, ..p },
            layout,
        ) == mha_bwd_graph(dtype, p, layout),
{
}

/// The graph of an attention multiplies the queries by the keys, scales the scores
/// by the caller's factor, and multiplies the weights by the values. Scores and
/// weights are intermediate results; the output has the dimensions of the queries.
pub proof fn law_mha_fwd_graph(dtype: DtypeTag, p: AttentionParams, layout: TensorLayout)
    ensures
        ({
            let g = mha_fwd_graph(dtype, p, layout);
            let queries = seq![p.batch, p.heads_q, p.seq_q, p.head_dim];
            let keys = seq![p.batch, p.heads_kv, p.seq_kv, p.head_dim];
            let scores = seq![p.batch, p.heads_q, p.seq_q, p.seq_kv];
            &&& g.name == "mha_fwd"@
            &&& g.tensors.len() == 6
            &&& graph::lists_tensor(g, 0, dtype, queries, layout, false)
            &&& graph::lists_tensor(g, 1, dtype, keys, layout, false)
            &&& graph::lists_tensor(g, 2, dtype, keys, layout, false)
            &&& graph::lists_tensor(g, 3, dtype, scores, layout, true)
            &&& graph::lists_tensor(g, 4, dtype, scores, layout, true)
            &&& graph::lists_tensor(g, 5, dtype, queries, layout, false)
            &&& g.ops.len() == 3
            &&& g.ops[0] matches OpView::Matmul { a, b, c, compute_dtype } && {
                &&& a == g.tensors[0].uid
                &&& b == g.tensors[1].uid
                &&& c == g.tensors[3].uid
                &&& compute_dtype == dtype
            }
            &&& g.ops[1] matches OpView::Pointwise {
                mode,
                x,
                b,
                y,
                compute_dtype,
                alpha1,
                alpha2,
            } && {
                &&& mode == PointwiseMode::Identity
                &&& x == g.tensors[3].uid
                &&& b is None
                &&& y == g.tensors[4].uid
                &&& compute_dtype == dtype
                &&& alpha1 == p.scale
                &&& alpha2.0 == 0
            }
            &&& g.ops[2] matches OpView::Matmul { a, b, c, compute_dtype } && {
                &&& a == g.tensors[4].uid
                &&& b == g.tensors[2].uid
                &&& c == g.tensors[5].uid
                &&& compute_dtype == dtype
            }
        }),
{
}

/// The graph of an attention's gradients has the queries, keys, values and the
/// output's gradient in this order, then the gradients of keys and values, then
/// three intermediate results that its three products write.
pub proof fn law_mha_bwd_graph(dtype: DtypeTag, p: AttentionParams, layout: TensorLayout)
    ensures
        ({
            let g = mha_bwd_graph(dtype, p, layout);
            let queries = seq![p.batch, p.heads_q, p.seq_q, p.head_dim];
            let keys = seq![p.batch, p.heads_kv, p.seq_kv, p.head_dim];
            let scores = seq![p.batch, p.heads_q, p.seq_q, p.seq_kv];
            &&& g.name == "mha_bwd"@
            &&& g.tensors.len() == 9
            &&& graph::lists_tensor(g, 0, dtype, queries, layout, false)
            &&& graph::lists_tensor(g, 1, dtype, keys, layout, false)
            &&& graph::lists_tensor(g, 2, dtype, keys, layout, false)
            &&& graph::lists_tensor(g, 3, dtype, queries, layout, false)
            &&& graph::lists_tensor(g, 4, dtype, keys, layout, false)
            &&& graph::lists_tensor(g, 5, dtype, keys, layout, false)
            &&& graph::lists_tensor(g, 6, dtype, scores, layout, true)
            &&& graph::lists_tensor(g, 7, dtype, scores, layout, true)
            &&& graph::lists_tensor(g, 8, dtype, scores, layout, true)
            &&& g.ops.len() == 3
            &&& g.ops[0] matches OpView::Matmul { a, b, c, compute_dtype } && a
                == g.tensors[3].uid && b == g.tensors[1].uid && c == g.tensors[6].uid
                && compute_dtype == dtype
            &&& g.ops[1] matches OpView::Matmul { a, b, c, compute_dtype } && a
                == g.tensors[3].uid && b == g.tensors[2].uid && c == g.tensors[7].uid
                && compute_dtype == dtype
            &&& g.ops[2] matches OpView::Matmul { a, b, c, compute_dtype } && a
                == g.tensors[0].uid && b == g.tensors[4].uid && c == g.tensors[8].uid
                && compute_dtype == dtype
        }),
{
}

} // verus!
