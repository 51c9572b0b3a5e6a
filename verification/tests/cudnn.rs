use std::collections::hash_map::DefaultHasher;
use std::hash::{Hash, Hasher};

use atomr_accel_cuda::device::DeviceState;
use atomr_accel_cuda::dtype::{CudaDataType, CudnnDataType, F16, F32, F64};
use atomr_accel_cuda::error::GpuError;
use atomr_accel_cuda::gpu_ref::{DeviceSlice, GpuRef, MemoryTable};
use atomr_accel_cuda::kernel::blas::Scalar;
use atomr_accel_cuda::kernel::cudnn::activation::{build_activation_fwd_graph, CudnnActivationMode};
use atomr_accel_cuda::kernel::cudnn::actor::CudnnInner;
use atomr_accel_cuda::kernel::cudnn::attention::{build_mha_bwd_graph, build_mha_fwd_graph};
use atomr_accel_cuda::kernel::cudnn::conv::{
    bias_dims, build_conv_bwd_data_graph, build_conv_bwd_filter_graph, build_conv_fwd_graph,
    dtype_tag,
};
use atomr_accel_cuda::kernel::cudnn::norm::build_norm_fwd_graph;
use atomr_accel_cuda::kernel::cudnn::pool::{build_pool_bwd_graph, build_pool_fwd_graph};
use atomr_accel_cuda::kernel::cudnn::rnn::build_rnn_fwd_spec;
use atomr_accel_cuda::kernel::cudnn::tensor::packed_strides;
use atomr_accel_cuda::kernel::cudnn::{
    cache_key, ActivationFwdRequest, ActivationKind, ActivationRequest, AttentionMask,
    AttentionParams, CachedPlan, ConvDescParams, ConvFwdRequest, ConvParams, CudnnAction,
    CudnnActor, CudnnDispatch, CudnnMsg, DtypeTag, EpilogueKind, LrnFwdRequest, LrnParams,
    NormBwdRequest, NormMode, NormPhase, OpSpec, OperationGraphSpec, PlanCache, PlanCacheKey,
    PointwiseMode, PoolKind, PoolMode, PoolParams, RnnBwdRequest, RnnDirection, RnnMode, RnnParams,
    SoftmaxRequest, TensorLayout, TensorSpec, DEFAULT_PLAN_CACHE_SIZE,
};

fn f64_bits(v: f64) -> F64 {
    F64(v.to_bits())
}

fn buffer<T>() -> GpuRef<T> {
    let state = DeviceState::new(0);
    GpuRef::new(DeviceSlice { ptr: 1, len: 1 }, 0, &state, 1, &mut MemoryTable::new())
}

#[test]
fn nchw_packed_strides_4d() {
    let dims = vec![2i64, 3, 4, 5];
    let s = packed_strides(&dims, TensorLayout::NchwPacked);
    assert_eq!(s, vec![60, 20, 5, 1]);
}

#[test]
fn nhwc_packed_strides_4d() {
    let dims = vec![2i64, 3, 4, 5];
    let s = packed_strides(&dims, TensorLayout::NhwcPacked);
    assert_eq!(s[1], 1);
    assert_eq!(s[3], 3);
    assert_eq!(s[2], 15);
    assert_eq!(s[0], 60);
}

#[test]
fn strides_of_small_ranks() {
    assert_eq!(packed_strides(&[], TensorLayout::NhwcPacked), Vec::<i64>::new());
    assert_eq!(packed_strides(&[7], TensorLayout::Strided), vec![1]);
    assert_eq!(packed_strides(&[2, 3, 4], TensorLayout::NhwcPacked), vec![12, 1, 3]);
}

#[test]
fn packed_strides_give_distinct_offsets() {
    for layout in [TensorLayout::NchwPacked, TensorLayout::NhwcPacked] {
        let s = packed_strides(&[2, 3, 2, 2], layout);
        let mut offsets = Vec::new();
        for n in 0..2 {
            for c in 0..3 {
                for h in 0..2 {
                    for w in 0..2 {
                        offsets.push(n * s[0] + c * s[1] + h * s[2] + w * s[3]);
                    }
                }
            }
        }
        offsets.sort();
        assert_eq!(offsets, (0..24).collect::<Vec<i64>>());
    }
}

#[test]
fn tensor_spec_round_trip() {
    let t = TensorSpec::new(1, DtypeTag::F32, vec![1, 3, 8, 8], TensorLayout::NchwPacked)
        .with_alignment(32);
    assert_eq!(t.dims, vec![1, 3, 8, 8]);
    assert_eq!(t.strides, vec![192, 64, 8, 1]);
    assert_eq!(t.alignment, 32);
    assert!(!t.is_virtual);
    assert_eq!(t.rank(), 4);
    let t = t.with_strides(vec![4, 3, 2, 1]);
    assert_eq!(t.strides, vec![4, 3, 2, 1]);
}

fn conv_graph(name: &str) -> OperationGraphSpec {
    let mut g = OperationGraphSpec::new(name);
    g.add_tensor(TensorSpec::new(1, DtypeTag::F32, vec![1, 3, 8, 8], TensorLayout::NchwPacked));
    g.add_tensor(TensorSpec::new(2, DtypeTag::F32, vec![16, 3, 3, 3], TensorLayout::NchwPacked));
    g.add_tensor(TensorSpec::new(3, DtypeTag::F32, vec![1, 16, 6, 6], TensorLayout::NchwPacked));
    g.add_op(OpSpec::ConvFwd {
        x: 1,
        w: 2,
        y: 3,
        spatial_dims: 2,
        pre_padding: vec![0, 0],
        post_padding: vec![0, 0],
        stride: vec![1, 1],
        dilation: vec![1, 1],
        compute_dtype: DtypeTag::F32,
        alpha: f64_bits(1.0),
        beta: f64_bits(0.0),
    });
    g
}

#[test]
fn op_graph_signature_is_deterministic() {
    let s1 = conv_graph("conv").signature();
    let s2 = conv_graph("conv-renamed").signature();
    assert_eq!(s1, s2);
}

/// Mirrors of the graph types, hashed by the standard derive.
#[derive(Hash)]
#[allow(dead_code)]
enum Tag {
    A,
    B,
    C,
}

#[derive(Hash)]
struct Tensor {
    uid: i64,
    dtype: Tag,
    dims: Vec<i64>,
    strides: Vec<i64>,
    alignment: i64,
    is_virtual: bool,
}

struct Op;

impl Hash for Op {
    fn hash<H: Hasher>(&self, h: &mut H) {
        3u8.hash(h);
        Tag::C.hash(h);
        (-5i64).hash(h);
        Some(7i64).hash(h);
        8i64.hash(h);
        Tag::B.hash(h);
        (1.5f64).to_bits().hash(h);
        (-0.0f64).to_bits().hash(h);
    }
}

#[test]
fn signature_is_the_standard_hash_of_the_parts() {
    let mut g = OperationGraphSpec::new("g");
    let mut t =
        TensorSpec::new(-1, DtypeTag::F16, vec![2, 3], TensorLayout::NchwPacked).virtualized();
    t.alignment = 64;
    g.add_tensor(t);
    g.add_op(OpSpec::Pointwise {
        mode: PointwiseMode::Tanh,
        x: -5,
        b: Some(7),
        y: 8,
        compute_dtype: DtypeTag::F64,
        alpha1: f64_bits(1.5),
        alpha2: f64_bits(-0.0),
    });

    let mut h = DefaultHasher::new();
    vec![Tensor {
        uid: -1,
        dtype: Tag::C,
        dims: vec![2, 3],
        strides: vec![3, 1],
        alignment: 64,
        is_virtual: true,
    }]
    .hash(&mut h);
    vec![Op].hash(&mut h);
    assert_eq!(g.signature(), h.finish());
}

#[test]
fn different_graphs_have_different_bytes() {
    let base = conv_graph("g");
    let mut other = conv_graph("g");
    other.tensors[1].is_virtual = true;
    assert_ne!(base.encode(), other.encode());
    let mut other = conv_graph("g");
    other.add_op(OpSpec::Reshape { x: 1, y: 2 });
    assert_ne!(base.encode(), other.encode());
    assert_eq!(base.encode(), conv_graph("h").encode());
}

fn plan_key(signature: u64) -> PlanCacheKey {
    PlanCacheKey { op_kind: "conv_fwd", dtype: DtypeTag::F32, signature }
}

fn plan(signature: u64) -> CachedPlan {
    CachedPlan {
        signature,
        op_kind: "conv_fwd",
        dtype: DtypeTag::F32,
        workspace_bytes: 0,
        plan: None,
    }
}

#[test]
fn plan_cache_lru_eviction() {
    let mut cache = PlanCache::new(2);
    let (k1, k2, k3) = (plan_key(1), plan_key(2), plan_key(3));
    cache.put(k1, plan(1));
    cache.put(k2, plan(2));
    cache.put(k3, plan(3));
    assert_eq!(cache.len(), 2);
    assert!(cache.get(&k1).is_none());
    assert!(cache.get(&k2).is_some());
    assert!(cache.get(&k3).is_some());
}

#[test]
fn plan_cache_keys_and_clearing() {
    let mut cache = PlanCache::new(0);
    assert_eq!(cache.cap(), 1);
    let mut cache2 = PlanCache::new(4);
    cache2.put(plan_key(1), plan(1));
    let name = String::from("conv_") + "fwd";
    let same = PlanCacheKey { op_kind: Box::leak(name.into_boxed_str()), ..plan_key(1) };
    assert_eq!(cache2.get(&same).unwrap().signature, 1);
    assert!(cache2.get(&PlanCacheKey { op_kind: "pool_fwd", ..plan_key(1) }).is_none());
    assert!(cache2.get(&PlanCacheKey { dtype: DtypeTag::F16, ..plan_key(1) }).is_none());
    cache2.clear();
    assert_eq!((cache2.len(), cache2.cap()), (0, 4));
    cache.put(plan_key(1), plan(1));
    cache.put(plan_key(2), plan(2));
    assert_eq!(cache.len(), 1);
}

#[test]
fn dtype_tags_have_names() {
    assert_eq!(DtypeTag::F32.name(), "f32");
    assert_eq!(DtypeTag::F16.name(), "f16");
    assert_eq!(DtypeTag::Bf16.name(), "bf16");
    assert_eq!(DtypeTag::I8.name(), "i8");
    assert_eq!(DtypeTag::U8.cudnn(), CudnnDataType::Uint8);
}

#[test]
fn backend_descriptor_builder_round_trip() {
    let mut graph = OperationGraphSpec::new("test-graph");
    let x = graph.add_tensor(TensorSpec::new(
        1,
        DtypeTag::F32,
        vec![2, 3, 4, 4],
        TensorLayout::NchwPacked,
    ));
    let w = graph.add_tensor(TensorSpec::new(
        2,
        DtypeTag::F32,
        vec![8, 3, 3, 3],
        TensorLayout::NchwPacked,
    ));
    let y = graph.add_tensor(
        TensorSpec::new(3, DtypeTag::F32, vec![2, 8, 2, 2], TensorLayout::NchwPacked)
            .virtualized(),
    );
    graph.add_op(OpSpec::ConvFwd {
        x,
        w,
        y,
        spatial_dims: 2,
        pre_padding: vec![0, 0],
        post_padding: vec![0, 0],
        stride: vec![1, 1],
        dilation: vec![1, 1],
        compute_dtype: DtypeTag::F32,
        alpha: f64_bits(1.0),
        beta: f64_bits(0.0),
    });
    let act_out = graph.add_tensor(TensorSpec::new(
        4,
        DtypeTag::F32,
        vec![2, 8, 2, 2],
        TensorLayout::NchwPacked,
    ));
    graph.add_op(OpSpec::Pointwise {
        mode: PointwiseMode::Relu,
        x: y,
        b: None,
        y: act_out,
        compute_dtype: DtypeTag::F32,
        alpha1: f64_bits(1.0),
        alpha2: f64_bits(0.0),
    });
    assert_eq!(graph.tensors.len(), 4);
    assert_eq!(graph.ops.len(), 2);
    let cloned = graph.clone();
    assert_eq!(graph.signature(), cloned.signature());
    let mut graph2 = graph.clone();
    graph2.tensors[0].strides = vec![999, 1, 1, 1];
    assert_ne!(graph.signature(), graph2.signature());
}

#[test]
fn graphs_are_not_built_yet() {
    let graph = conv_graph("g");
    assert_eq!(
        graph.build_into(0).unwrap_err().panic_message(),
        "cudarc cudnn error: cudnn-frontend graph build path requires a real handle"
    );
    assert_eq!(
        graph.build_into(1).unwrap_err().panic_message(),
        "cudarc cudnn error: OperationGraphSpec::build_into not yet wired (Phase 2 cuDNN frontend skeleton)"
    );
}

struct Probe(u64);

impl CudnnDispatch for Probe {
    fn dtype_name(&self) -> &'static str {
        "f32"
    }
    fn op_kind(&self) -> &'static str {
        "probe"
    }
    fn dispatch(&self) -> Result<(), GpuError> {
        Ok(())
    }
}

#[test]
fn deprecated_conv_forward_alias_still_constructs() {
    let p = ConvParams { pad: [0, 0], stride: [1, 1], dilation: [1, 1] };
    assert_eq!(p.pad, [0, 0]);
    assert_eq!(p.stride, [1, 1]);
    let msg = CudnnMsg::Op(Probe(3));
    match CudnnActor::new(1).handle(&msg) {
        CudnnAction::Reply(r) => assert!(r.is_ok()),
        CudnnAction::DropOp => panic!("the probe answers"),
    }
    match msg {
        CudnnMsg::Op(Probe(reply)) => assert_eq!(reply, 3),
        _ => unreachable!(),
    }
}

#[test]
fn cudnn_dispatch_is_object_safe() {
    fn accept(b: Box<dyn CudnnDispatch>) -> &'static str {
        b.op_kind()
    }
    assert_eq!(accept(Box::new(Probe(0))), "probe");
}

#[test]
fn plan_cache_default_size_matches_constant() {
    let pc = PlanCache::default();
    assert_eq!(pc.cap(), DEFAULT_PLAN_CACHE_SIZE);
}

#[test]
fn older_messages_point_to_their_successors() {
    let softmax = || {
        CudnnMsg::<Probe>::Softmax(SoftmaxRequest {
            x: buffer(),
            y: buffer(),
            dims: [1, 1, 1, 1],
            alpha: F32(0),
            beta: F32(0),
            reply: 0,
        })
    };
    match CudnnActor::new(1).handle(&softmax()) {
        CudnnAction::Reply(Err(e)) => assert_eq!(
            e.panic_message(),
            "cudarc cudnn error: Softmax (legacy) is deprecated; send CudnnMsg::Op(SoftmaxFwdRequest<f32>)"
        ),
        _ => panic!("wrong action"),
    }
    match CudnnActor::mock().handle(&softmax()) {
        CudnnAction::Reply(Err(e)) => {
            assert_eq!(e.panic_message(), "Unrecoverable: CudnnActor in mock mode");
        }
        _ => panic!("wrong action"),
    }
    assert!(matches!(CudnnActor::mock().handle(&CudnnMsg::Op(Probe(0))), CudnnAction::DropOp));
    let activation = CudnnMsg::<Probe>::Activation(ActivationRequest {
        kind: ActivationKind::Relu,
        x: buffer(),
        y: buffer(),
        dims: [1, 1, 1, 1],
        alpha: F32(0),
        beta: F32(0),
        reply: 0,
    });
    match CudnnActor::new(1).handle(&activation) {
        CudnnAction::Reply(Err(e)) => assert_eq!(
            e.panic_message(),
            "cudarc cudnn error: Activation (legacy) is deprecated; send CudnnMsg::Op(ActivationFwdRequest<f32>)"
        ),
        _ => panic!("wrong action"),
    }
    match CudnnActor::new(4).inner {
        CudnnInner::Real(live) => assert_eq!((live.stream, live.plan_cache.len()), (4, 0)),
        CudnnInner::Mock => panic!("wrong mode"),
    }
    assert_eq!(
        CudnnActor::handle_failure("no"),
        "ContextPoisoned: Cudnn::new failed: no"
    );
}

#[test]
fn activation_kinds_have_pointwise_mode() {
    assert_eq!(ActivationKind::Relu.pointwise_mode(), PointwiseMode::Relu);
    assert_eq!(ActivationKind::Gelu.pointwise_mode(), PointwiseMode::Gelu);
    assert_eq!(ActivationKind::Swish.pointwise_mode(), PointwiseMode::Swish);
    assert_eq!(ActivationKind::Softplus.pointwise_mode(), PointwiseMode::Softplus);
    assert_eq!(ActivationKind::Elu.pointwise_mode(), PointwiseMode::Elu);
    assert_eq!(ActivationKind::Identity.pointwise_mode(), PointwiseMode::Identity);
    assert_eq!(ActivationKind::GeluApprox.cudnn_legacy_mode(), CudnnActivationMode::Relu);
    assert_eq!(ActivationKind::Tanh.cudnn_legacy_mode(), CudnnActivationMode::Tanh);
}

#[test]
fn activation_fwd_graph_builds() {
    let g = build_activation_fwd_graph(
        DtypeTag::F32,
        &[1, 3, 8, 8],
        TensorLayout::NchwPacked,
        ActivationKind::Gelu,
    );
    assert_eq!(g.tensors.len(), 2);
    assert_eq!(g.ops.len(), 1);
}

fn scalar() -> Scalar {
    Scalar { bits: 1f32.to_bits() as u64, data_type: CudaDataType::R32F }
}

#[test]
fn requests_name_themselves_and_answer() {
    let req = ActivationFwdRequest::<F16> {
        kind: ActivationKind::Tanh,
        x: buffer(),
        y: buffer(),
        dims: vec![1, 2, 3],
        layout: TensorLayout::NhwcPacked,
        alpha: scalar(),
        beta: scalar(),
        reply: 0,
    };
    assert_eq!(req.dtype_name(), "f16");
    assert_eq!(req.op_kind(), "activation_fwd");
    assert_eq!(
        req.dispatch().unwrap_err().panic_message(),
        "cudarc cudnn error: ActivationFwdRequest dispatch requires the v9 frontend graph builder; skeleton entry point only"
    );
    assert_eq!(
        req.graph_spec().signature(),
        build_activation_fwd_graph(
            DtypeTag::F16,
            &[1, 2, 3],
            TensorLayout::NhwcPacked,
            ActivationKind::Tanh
        )
        .signature()
    );

    let req = LrnFwdRequest::<F32> {
        x: buffer(),
        y: buffer(),
        dims: vec![1],
        layout: TensorLayout::Strided,
        params: LrnParams { n: 5, alpha_milli: 100, beta_milli: 750_000, k_milli: 1_000_000 },
        alpha: scalar(),
        beta: scalar(),
        reply: 0,
    };
    assert_eq!(req.op_kind(), "lrn_fwd");

    let req = NormBwdRequest::<F64> {
        mode: NormMode::RmsNorm,
        x: buffer(),
        dy: buffer(),
        scale: buffer(),
        mean: buffer(),
        var: buffer(),
        dx: buffer(),
        dscale: buffer(),
        dbias: buffer(),
        dims: vec![1],
        layout: TensorLayout::Strided,
        epsilon: F64(0),
        reply: 0,
    };
    assert_eq!((req.op_kind(), req.dtype_name()), ("rmsnorm_bwd", "f64"));

    let req = RnnBwdRequest::<F32> {
        x: buffer(),
        y: buffer(),
        dy: buffer(),
        h_in: buffer(),
        c_in: None,
        h_out: buffer(),
        c_out: None,
        dh_out: buffer(),
        dc_out: None,
        weights: buffer(),
        dx: buffer(),
        dh_in: buffer(),
        dc_in: None,
        dweights: buffer(),
        layout: TensorLayout::Strided,
        params: RnnParams::new(RnnMode::Gru, RnnDirection::Unidirectional, 1, 1, 1, 1, 1),
        reply: 0,
    };
    assert_eq!(req.op_kind(), "gru_bwd");
    assert_eq!(dtype_tag::<i8>(), DtypeTag::I8);
}

fn scaled(b: i64, sq: i64, skv: i64, hq: i64, hkv: i64, d: i64) -> AttentionParams {
    AttentionParams::new(b, sq, skv, hq, hkv, d, f64_bits(1.0 / (d as f64).sqrt()))
}

#[test]
fn mha_fwd_bwd_request_round_trip() {
    let p = scaled(2, 128, 128, 8, 8, 64).with_mask(AttentionMask::Causal);
    let g_fwd = build_mha_fwd_graph(DtypeTag::Bf16, &p, TensorLayout::NchwPacked);
    assert_eq!(g_fwd.tensors.len(), 6);
    assert_eq!(g_fwd.ops.len(), 3);

    let g_bwd = build_mha_bwd_graph(DtypeTag::Bf16, &p, TensorLayout::NchwPacked);
    assert!(g_bwd.ops.len() >= 3);

    let gqa = scaled(1, 128, 128, 16, 4, 64);
    assert!(gqa.is_gqa());
    let g_gqa = build_mha_fwd_graph(DtypeTag::Bf16, &gqa, TensorLayout::NchwPacked);
    assert_ne!(g_fwd.signature(), g_gqa.signature());

    let p2 = scaled(2, 128, 128, 8, 8, 64).with_mask(AttentionMask::SlidingWindow(64));
    assert!(matches!(p2.mask, AttentionMask::SlidingWindow(64)));
    let g2 = build_mha_fwd_graph(DtypeTag::Bf16, &p2, TensorLayout::NchwPacked);
    assert_eq!(g_fwd.signature(), g2.signature());
    let p3 = p.with_dropout(F32(0.5f32.to_bits()), 9);
    assert_eq!((p3.dropout_seed, p3.mask), (9, AttentionMask::Causal));
}

fn fwd(dt: DtypeTag, layout: TensorLayout, epilogue: EpilogueKind) -> OperationGraphSpec {
    build_conv_fwd_graph(
        dt,
        &[1, 3, 8, 8],
        &[16, 3, 3, 3],
        &[1, 16, 6, 6],
        &ConvDescParams::symmetric_2d(0, 1, 1),
        layout,
        epilogue,
    )
}

fn round_trip_fwd(dt: DtypeTag, dt_name: &'static str, layout: TensorLayout) {
    let g = fwd(dt, layout, EpilogueKind::Bare);
    assert_eq!(g.tensors.len(), 3);
    assert_eq!(g.ops.len(), 1);
    let key = cache_key("conv_fwd", dt, &g);
    assert_eq!(key.op_kind, "conv_fwd");
    assert_eq!(key.dtype, dt);
    let g2 = fwd(dt, layout, EpilogueKind::Bare);
    assert_eq!(g.signature(), g2.signature());
    assert_eq!(dt.name(), dt_name);
}

#[test]
fn conv_fwd_request_round_trip_f32_f64_f16_bf16() {
    round_trip_fwd(DtypeTag::F32, "f32", TensorLayout::NchwPacked);
    round_trip_fwd(DtypeTag::F64, "f64", TensorLayout::NchwPacked);
    round_trip_fwd(DtypeTag::F16, "f16", TensorLayout::NchwPacked);
    round_trip_fwd(DtypeTag::Bf16, "bf16", TensorLayout::NchwPacked);
    round_trip_fwd(DtypeTag::F32, "f32", TensorLayout::NhwcPacked);
}

#[test]
fn conv_requests_build_their_graphs() {
    let req = ConvFwdRequest::<F32> {
        x: buffer(),
        x_dims: vec![1, 3, 8, 8],
        w: buffer(),
        w_dims: vec![16, 3, 3, 3],
        y: buffer(),
        y_dims: vec![1, 16, 6, 6],
        bias: None,
        conv: ConvDescParams::symmetric_2d(0, 1, 1),
        layout: TensorLayout::NchwPacked,
        epilogue: EpilogueKind::Bias,
        alpha: scalar(),
        beta: scalar(),
        reply: 0,
    };
    assert_eq!(
        req.graph_spec().signature(),
        fwd(DtypeTag::F32, TensorLayout::NchwPacked, EpilogueKind::Bias).signature()
    );
    assert_eq!(req.op_kind(), "conv_fwd");
}

#[test]
fn conv_bwd_data_filter_request_round_trip() {
    let g = build_conv_bwd_data_graph(
        DtypeTag::F32,
        &[1, 16, 6, 6],
        &[16, 3, 3, 3],
        &[1, 3, 8, 8],
        &ConvDescParams::symmetric_2d(0, 1, 1),
        TensorLayout::NchwPacked,
    );
    assert_eq!(g.ops.len(), 1);
    match &g.ops[0] {
        OpSpec::ConvBwdData { spatial_dims, .. } => assert_eq!(*spatial_dims, 2),
        _ => panic!("wrong op"),
    }

    let g = build_conv_bwd_filter_graph(
        DtypeTag::F32,
        &[1, 3, 8, 8],
        &[1, 16, 6, 6],
        &[16, 3, 3, 3],
        &ConvDescParams::symmetric_2d(0, 1, 1),
        TensorLayout::NchwPacked,
    );
    match &g.ops[0] {
        OpSpec::ConvBwdFilter { spatial_dims, .. } => assert_eq!(*spatial_dims, 2),
        _ => panic!("wrong op"),
    }
}

#[test]
fn nchw_vs_nhwc_layout_handled() {
    let g_nchw = fwd(DtypeTag::F32, TensorLayout::NchwPacked, EpilogueKind::Bare);
    let g_nhwc = fwd(DtypeTag::F32, TensorLayout::NhwcPacked, EpilogueKind::Bare);
    assert_ne!(g_nchw.signature(), g_nhwc.signature());
    assert_eq!(g_nchw.tensors[0].strides, vec![192, 64, 8, 1]);
    assert_ne!(g_nhwc.tensors[0].strides, g_nchw.tensors[0].strides);
}

#[test]
fn conv_fwd_with_bias_activation_epilogue() {
    let g = fwd(
        DtypeTag::F32,
        TensorLayout::NhwcPacked,
        EpilogueKind::BiasActivation(ActivationKind::Relu),
    );
    assert_eq!(g.ops.len(), 3);
    assert_eq!(g.tensors.len(), 6);
    assert_eq!(g.tensors[3].dims, vec![1, 16, 1, 1]);
    match &g.ops[2] {
        OpSpec::Pointwise { mode, x, b, y, .. } => {
            assert_eq!((*mode, *x, *b, *y), (PointwiseMode::Relu, 5, None, 6));
        }
        _ => panic!("wrong op"),
    }
}

#[test]
fn conv_1d_and_3d_descriptor_params() {
    let p1 = ConvDescParams::symmetric_1d(1, 1, 1);
    assert_eq!(p1.spatial_dims, 1);
    assert_eq!(p1.stride.len(), 1);
    let p3 = ConvDescParams::symmetric_3d(1, 2, 1);
    assert_eq!(p3.spatial_dims, 3);
    assert_eq!(p3.stride, vec![2, 2, 2]);
}

#[test]
fn conv_grouped() {
    let p = ConvDescParams::symmetric_2d(0, 1, 1).with_groups(8);
    assert_eq!(p.groups, 8);
}

#[test]
fn bias_varies_over_channels_only() {
    assert_eq!(bias_dims(&[2, 5, 3, 3, 3]), vec![1, 5, 1, 1, 1]);
    assert_eq!(bias_dims(&[4]), vec![1]);
    assert_eq!(bias_dims(&[]), Vec::<i64>::new());
}

fn norm(mode: NormMode, phase: NormPhase, exp_avg_factor: f64) -> OperationGraphSpec {
    build_norm_fwd_graph(
        mode,
        phase,
        DtypeTag::F32,
        &[2, 3, 4, 4],
        TensorLayout::NchwPacked,
        f64_bits(1e-5),
        f64_bits(exp_avg_factor),
    )
}

#[test]
fn batchnorm_layernorm_instancenorm_round_trip() {
    let bn = norm(NormMode::BatchNorm, NormPhase::Training, 0.1);
    assert_eq!(bn.ops.len(), 1);
    match &bn.ops[0] {
        OpSpec::NormFwd { mode, phase, .. } => {
            assert_eq!(*mode, NormMode::BatchNorm);
            assert_eq!(*phase, NormPhase::Training);
        }
        _ => panic!("wrong op"),
    }

    let ln = norm(NormMode::LayerNorm, NormPhase::Training, 0.0);
    assert_ne!(bn.signature(), ln.signature());
    let in_ = norm(NormMode::InstanceNorm, NormPhase::Training, 0.0);
    assert_ne!(ln.signature(), in_.signature());
    let bn_persist = norm(NormMode::BatchNorm, NormPhase::PersistentTraining, 0.1);
    assert_ne!(bn.signature(), bn_persist.signature());
    assert_eq!(bn.tensors[1].dims, vec![1, 3, 1, 1]);
}

#[test]
fn pool_fwd_bwd_round_trip() {
    let p = PoolParams::pool_2d(PoolMode::Max, 2, 2, 0);
    let g_fwd = build_pool_fwd_graph(
        DtypeTag::F32,
        &[1, 16, 8, 8],
        &[1, 16, 4, 4],
        TensorLayout::NchwPacked,
        &p,
    );
    match &g_fwd.ops[0] {
        OpSpec::PoolFwd { kind, .. } => assert_eq!(*kind, PoolKind::MaxFwd),
        _ => panic!("wrong op"),
    }
    let g_bwd = build_pool_bwd_graph(
        DtypeTag::F32,
        &[1, 16, 8, 8],
        &[1, 16, 4, 4],
        TensorLayout::NchwPacked,
        &p,
    );
    assert_eq!(g_bwd.tensors.len(), 4);
    match &g_bwd.ops[0] {
        OpSpec::PoolBwd { kind, .. } => assert_eq!(*kind, PoolKind::MaxBwd),
        _ => panic!("wrong op"),
    }

    let avg = PoolParams::pool_2d(PoolMode::Avg, 2, 2, 0);
    let g = build_pool_fwd_graph(
        DtypeTag::F32,
        &[1, 16, 8, 8],
        &[1, 16, 4, 4],
        TensorLayout::NchwPacked,
        &avg,
    );
    match &g.ops[0] {
        OpSpec::PoolFwd { kind, .. } => assert_eq!(*kind, PoolKind::AvgFwd),
        _ => panic!("wrong op"),
    }
    assert_eq!(PoolMode::AvgExcludePadding.bwd(), PoolKind::AvgBwd);
}

fn rnn_round_trip(mode: RnnMode) {
    let p = RnnParams::new(mode, RnnDirection::Bidirectional, 2, 128, 256, 32, 8);
    let g = build_rnn_fwd_spec(DtypeTag::F32, &p, TensorLayout::NchwPacked);
    let expected = if mode.has_cell_state() { 7 } else { 5 };
    assert_eq!(g.tensors.len(), expected);
    assert_eq!(p.output_size(), 512);
    let weights = g.tensors.last().unwrap();
    let gates = mode.num_gates() as i64;
    assert_eq!(weights.dims, vec![gates * 256 * (128 + 256 + 2) * 2 * 2]);
}

#[test]
fn rnn_lstm_gru_request_round_trip() {
    rnn_round_trip(RnnMode::Rnn);
    rnn_round_trip(RnnMode::RnnTanh);
    rnn_round_trip(RnnMode::Lstm);
    rnn_round_trip(RnnMode::Gru);
}

#[test]
fn cell_state_only_for_lstm() {
    assert!(!RnnMode::Rnn.has_cell_state());
    assert!(!RnnMode::Gru.has_cell_state());
    assert!(RnnMode::Lstm.has_cell_state());
}

#[test]
fn gate_counts() {
    assert_eq!(RnnMode::Rnn.num_gates(), 1);
    assert_eq!(RnnMode::Lstm.num_gates(), 4);
    assert_eq!(RnnMode::Gru.num_gates(), 3);
    assert_eq!(RnnMode::RnnTanh.op_kind(), "rnn_tanh");
    assert_eq!(RnnDirection::Bidirectional.factor(), 2);
}

#[test]
fn lrn_params_quantization() {
    let millionths = |x: f64| (x * 1_000_000.0) as i64;
    let p = LrnParams::new(5, millionths(0.0001), millionths(0.75), millionths(1.0));
    assert_eq!(p.n, 5);
    assert_eq!(p.alpha_milli, 100);
    assert_eq!(p.beta_milli, 750_000);
    assert_eq!(p.k_milli, 1_000_000);
}

#[test]
fn attention_gradients_name_tensors_of_their_graph() {
    let p = scaled(2, 32, 16, 8, 4, 64);
    let g = build_mha_bwd_graph(DtypeTag::F16, &p, TensorLayout::NchwPacked);
    let ids: Vec<i64> = g.tensors.iter().map(|t| t.uid).collect();
    assert_eq!(ids, vec![1, 2, 3, 4, 5, 6, 7, 8, 9]);
    assert!(g.tensors[..6].iter().all(|t| !t.is_virtual));
    assert!(g.tensors[6..].iter().all(|t| t.is_virtual && t.dims == vec![2, 8, 32, 16]));
    let products: Vec<(i64, i64, i64)> = g
        .ops
        .iter()
        .map(|op| match op {
            OpSpec::Matmul { a, b, c, .. } => (*a, *b, *c),
            _ => panic!("wrong operation"),
        })
        .collect();
    assert_eq!(products, vec![(4, 2, 7), (4, 3, 8), (1, 5, 9)]);
}
