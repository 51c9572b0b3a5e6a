use std::sync::{Arc, Mutex};

use atomr_accel_cuda::device::DeviceState;
use atomr_accel_cuda::driver_call::CallOutcome;
use atomr_accel_cuda::dtype::{C32, F32};
use atomr_accel_cuda::error::GpuError;
use atomr_accel_cuda::gpu_ref::{DeviceSlice, GpuRef, MemoryTable};
use atomr_accel_cuda::graph::actor::{launch_error, plan_launch};
use atomr_accel_cuda::graph::capture::{RecordEvent, RecordPhase, RecordRun};
use atomr_accel_cuda::graph::child::{child_added, child_graph_op};
use atomr_accel_cuda::graph::conditional::{
    build_params, check, driver_supports_conditional, ConditionalKind, IfNodeDescriptor,
    WhileNodeDescriptor,
};
use atomr_accel_cuda::graph::dot::{dot_file_name, export_dot};
use atomr_accel_cuda::graph::exec_update::UpdateStatus;
use atomr_accel_cuda::graph::record::cudnn::{validate_dims, ActivationOp, ConvForwardOp, SoftmaxOp};
use atomr_accel_cuda::graph::record::cusparse::{validate_csr, CsrMatrix, SpMmOp, SpMvOp};
use atomr_accel_cuda::graph::{
    exec_update, CapturedGraph, DotFlags, FftR2COp, GraphAction, GraphActor,
    GraphExecUpdateOutcome, GraphHandle, GraphMsg, GraphOp, GraphOpLegacy, GraphOpRecord,
    GraphRecordCtx, MemcpyOp, MockGraphRecordCtx, RecordCall, RngFillUniformOp, SgemmOp,
};
use atomr_accel_cuda::kernel::cudnn::{ActivationKind, ConvParams};

struct MockOp {
    name: &'static str,
    trace: Arc<Mutex<Vec<&'static str>>>,
}

impl GraphOp for MockOp {
    fn record(&mut self, _ctx: &GraphRecordCtx) -> Result<RecordCall, GpuError> {
        self.trace.lock().unwrap().push(self.name);
        Ok(RecordCall::Nothing)
    }
    fn op_name(&self) -> &'static str {
        self.name
    }
}

struct CounterOp {
    count: Arc<Mutex<u32>>,
}

impl GraphOp for CounterOp {
    fn record(&mut self, _ctx: &GraphRecordCtx) -> Result<RecordCall, GpuError> {
        *self.count.lock().unwrap() += 1;
        Ok(RecordCall::Nothing)
    }
    fn op_name(&self) -> &'static str {
        "counter_op"
    }
}

fn no_gpu_ctx() -> GraphRecordCtx {
    GraphRecordCtx { stream: None, blas: None, rng: None, fft: None, parent_graph: None }
}

fn full_ctx() -> GraphRecordCtx {
    GraphRecordCtx {
        stream: Some(1),
        blas: Some(2),
        rng: Some(3),
        fft: Some(4),
        parent_graph: None,
    }
}

fn buffer<T>(ptr: u64) -> GpuRef<T> {
    let state = DeviceState::new(0);
    GpuRef::new(DeviceSlice { ptr, len: 8 }, 0, &state, ptr, &mut MemoryTable::new())
}

/// A live device with ten buffers on it, each with a single reference.
fn memory() -> MemoryTable {
    let mut mem = MemoryTable::new();
    mem.set_device(0, DeviceState::new(0));
    for buffer in 1..=10 {
        mem.retain(buffer);
    }
    mem
}

fn text(e: GpuError) -> String {
    e.panic_message()
}

#[test]
fn external_graph_op_impls_can_be_appended_and_recorded() {
    let trace: Arc<Mutex<Vec<&'static str>>> = Arc::new(Mutex::new(Vec::new()));
    let count = Arc::new(Mutex::new(0u32));

    let mut script: Vec<Box<dyn GraphOp>> = Vec::new();
    script.push(Box::new(MockOp { name: "first_mock", trace: trace.clone() }));
    script.push(Box::new(CounterOp { count: count.clone() }));
    script.push(Box::new(MockOp { name: "second_mock", trace: trace.clone() }));
    script.push(Box::new(CounterOp { count: count.clone() }));

    assert_eq!(script[0].op_name(), "first_mock");
    assert_eq!(script[1].op_name(), "counter_op");
    assert_eq!(script[2].op_name(), "second_mock");
    assert_eq!(script[3].op_name(), "counter_op");

    let ctx = no_gpu_ctx();
    for op in script.iter_mut() {
        assert!(op.record(&ctx).is_ok(), "mock op must record");
    }

    assert_eq!(
        *trace.lock().unwrap(),
        vec!["first_mock", "second_mock"],
        "MockOp::record should append its name in script order"
    );
    assert_eq!(*count.lock().unwrap(), 2, "CounterOp ran twice");
}

#[test]
fn require_stream_returns_clean_error_in_no_gpu_ctx() {
    let ctx = no_gpu_ctx();
    let err = ctx.require_stream().unwrap_err();
    assert!(matches!(err, GpuError::Unrecoverable(_)));
}

#[test]
fn graph_op_legacy_dispatches_to_inner_op() {
    let trace: Arc<Mutex<Vec<&'static str>>> = Arc::new(Mutex::new(Vec::new()));
    let mut boxed: Box<dyn GraphOp> =
        Box::new(MockOp { name: "via_box_dyn", trace: trace.clone() });
    assert!(boxed.record(&no_gpu_ctx()).is_ok());
    assert_eq!(*trace.lock().unwrap(), vec!["via_box_dyn"]);
    assert_eq!(boxed.op_name(), "via_box_dyn");

    let mut legacy = GraphOpLegacy::Memcpy(MemcpyOp::new(buffer(1), buffer(2)));
    assert_eq!(legacy.op_name(), "graph::memcpy");
    assert!(matches!(legacy.record(&full_ctx()), Ok(RecordCall::Memcpy { stream: 1, .. })));
    assert!(legacy.record(&full_ctx()).is_err());
}

#[test]
fn ops_are_recorded_once() {
    let one = F32(1f32.to_bits());
    let mut op = SgemmOp::new(buffer(1), buffer(2), buffer(3), 4, 5, 6, one, F32(0));
    match op.record(&full_ctx()) {
        Ok(RecordCall::Sgemm { stream, blas, args }) => {
            assert_eq!((stream, blas), (1, 2));
            assert_eq!((args.m, args.n, args.k), (4, 5, 6));
            assert_eq!(args.c.slice.ptr, 3);
        }
        _ => panic!("wrong call"),
    }
    assert_eq!(
        text(op.record(&full_ctx()).err().unwrap()),
        "Unrecoverable: SgemmOp::record: already consumed"
    );

    let mut op = MemcpyOp::new(buffer(1), buffer(2));
    assert!(op.record(&full_ctx()).is_ok());
    assert_eq!(
        text(op.record(&full_ctx()).err().unwrap()),
        "Unrecoverable: MemcpyOp::record: already consumed"
    );
}

#[test]
fn missing_handles_leave_the_op_unused() {
    let mut op = RngFillUniformOp::new(buffer(1));
    let ctx = GraphRecordCtx { rng: None, ..full_ctx() };
    assert_eq!(
        text(op.record(&ctx).err().unwrap()),
        "Unrecoverable: RngFillUniformOp::record: cuRAND handle not available in ctx"
    );
    assert!(matches!(op.record(&full_ctx()), Ok(RecordCall::RngFillUniform { rng: 3, .. })));

    let mut op = FftR2COp::new(buffer(1), buffer::<C32>(2));
    let ctx = GraphRecordCtx { fft: None, ..full_ctx() };
    assert_eq!(
        text(op.record(&ctx).err().unwrap()),
        "Unrecoverable: FftR2COp::record: no cuFFT plan installed; call GraphMsg::SetFftPlan first"
    );
    assert!(matches!(op.record(&full_ctx()), Ok(RecordCall::FftR2C { plan: 4, .. })));

    let one = F32(1f32.to_bits());
    let mut op = SgemmOp::new(buffer(1), buffer(2), buffer(3), 1, 1, 1, one, one);
    let ctx = GraphRecordCtx { blas: None, ..full_ctx() };
    assert_eq!(
        text(op.record(&ctx).err().unwrap()),
        "Unrecoverable: SgemmOp::record: cuBLAS handle not available in ctx"
    );
    assert_eq!(
        text(op.record(&no_gpu_ctx()).err().unwrap()),
        "Unrecoverable: GraphRecordCtx: no captured stream available"
    );
    assert_eq!(op.op_name(), "graph::sgemm");
}

#[test]
fn child_graph_op_records_into_parent() {
    let child = GraphHandle::synthetic_for_tests();
    let op = child_graph_op(child);
    let mock = MockGraphRecordCtx::new(0);
    let ctx = mock.as_ctx();
    match op.record(&ctx, &memory()) {
        Ok(RecordCall::AddChildGraph { parent, child }) => assert_eq!((parent, child), (0, 0)),
        _ => panic!("wrong call"),
    }
    assert!(mock.stream().is_none());
    let mock = mock.with_stream(9);
    assert_eq!(mock.parent_graph(), 0);
    assert_eq!(mock.as_ctx().require_stream().ok(), Some(9));
    assert!(child_added(CallOutcome::Done(())).is_ok());
    assert!(matches!(child_added(CallOutcome::NotLoadable), Err(GpuError::Unrecoverable(_))));
    assert_eq!(
        text(child_added(CallOutcome::Failed("CUDA_ERROR_INVALID_VALUE".into())).unwrap_err()),
        "cudarc graph error: cuGraphAddChildGraphNode: CUDA_ERROR_INVALID_VALUE"
    );
}

#[test]
fn if_node_descriptor_compiles() {
    let d = IfNodeDescriptor { default_value: 1 };
    assert_eq!(d.default_value, 1);
    assert_eq!(ConditionalKind::If, ConditionalKind::If);
    assert_ne!(ConditionalKind::If, ConditionalKind::While);
    assert_ne!(ConditionalKind::If.raw(), ConditionalKind::While.raw());
}

#[test]
fn while_node_descriptor_compiles() {
    let d = WhileNodeDescriptor { default_value: 0 };
    assert_eq!(d.default_value, 0);
}

#[test]
fn driver_probe_returns_typed_result() {
    assert_eq!(driver_supports_conditional(Some(801)).unwrap(), false);
    assert_eq!(driver_supports_conditional(Some(1)).unwrap(), true);
    assert_eq!(driver_supports_conditional(Some(0)).unwrap(), true);
    assert!(matches!(driver_supports_conditional(None), Err(GpuError::Unrecoverable(_))));
}

#[test]
fn conditional_params_carry_the_kind() {
    let p = build_params(ConditionalKind::While, 9, 8, 7);
    assert_eq!((p.handle, p.kind, p.size, p.inner_graph_out, p.context), (9, 1, 1, 7, 8));
    assert!(check(Ok(()), "op").is_ok());
    assert_eq!(
        text(check(Err("CUDA_ERROR_X".into()), "cuGraphAddNode").unwrap_err()),
        "cudarc graph error: cuGraphAddNode: CUDA_ERROR_X"
    );
}

#[test]
fn dot_export_returns_nonempty_for_known_graph() {
    let s = export_dot("/tmp/g.dot", None, CallOutcome::Done(()), Ok("digraph {}".into()));
    assert_eq!(s.unwrap(), "digraph {}");
    let e = export_dot("/tmp/g.dot", None, CallOutcome::NotLoadable, Err(String::new()));
    assert!(matches!(e, Err(GpuError::Unrecoverable(_))));
    let e = export_dot("/tmp/g.dot", None, CallOutcome::Failed("bad".into()), Err(String::new()));
    assert_eq!(
        text(e.unwrap_err()),
        "cudarc graph error: cuGraphDebugDotPrint: bad"
    );
    let e = export_dot("/tmp/g.dot", None, CallOutcome::Done(()), Err("gone".into()));
    assert_eq!(text(e.unwrap_err()), "cudarc graph error: read DOT file /tmp/g.dot: gone");
    let e = export_dot("p", Some("nul".into()), CallOutcome::Done(()), Ok(String::new()));
    assert_eq!(text(e.unwrap_err()), "Unrecoverable: export_dot: bad path: nul");
}

#[test]
fn dot_flags_have_the_drivers_bits() {
    assert_eq!(DotFlags::verbose().bits(), 1);
    assert_eq!(DotFlags::kernel_node().bits(), 4);
    assert_eq!(DotFlags::memcpy_node().bits(), 8);
    assert_eq!(DotFlags::memset_node().bits(), 16);
    assert_eq!(DotFlags::host_node().bits(), 32);
    assert_eq!(DotFlags::graph_node().bits(), 64);
    assert_eq!(DotFlags::verbose().union(DotFlags::graph_node()).bits(), 65);
    assert_eq!(DotFlags::default().bits(), 0);
    assert_eq!(dot_file_name(12, 34), "atomr-accel-graph-12-34.dot");
}

#[test]
fn outcome_classification_round_trip() {
    assert_eq!(GraphExecUpdateOutcome::from(0u32), GraphExecUpdateOutcome::Success);
    assert_eq!(GraphExecUpdateOutcome::from(2u32), GraphExecUpdateOutcome::TopologyChanged);
    assert_eq!(GraphExecUpdateOutcome::from(8u32), GraphExecUpdateOutcome::TopologyChanged);
    assert_eq!(GraphExecUpdateOutcome::from(1u32), GraphExecUpdateOutcome::Other);
    assert_eq!(GraphExecUpdateOutcome::from(9u32), GraphExecUpdateOutcome::Other);
}

#[test]
fn param_rebind_round_trip() {
    assert!(matches!(exec_update(None), Err(GpuError::Unrecoverable(_))));
    let given = |status: u32, result: u32| UpdateStatus { status, text: "S".into(), result };
    assert_eq!(exec_update(Some(given(0, 0))).unwrap(), GraphExecUpdateOutcome::Success);
    assert_eq!(exec_update(Some(given(0, 3))).unwrap(), GraphExecUpdateOutcome::TopologyChanged);
    assert_eq!(exec_update(Some(given(910, 0))).unwrap(), GraphExecUpdateOutcome::TopologyChanged);
    assert_eq!(
        text(exec_update(Some(given(1, 0))).unwrap_err()),
        "cudarc graph error: cuGraphExecUpdate_v2: S"
    );
}

#[test]
fn conv_op_records() {
    assert!(validate_dims(&[1, 1, 1, 1], "ok").is_ok());
    assert!(validate_dims(&[0, 1, 1, 1], "bad").is_err());

    let op = ConvForwardOp {
        x: buffer(1),
        x_dims: [1, 3, 8, 8],
        w: buffer(2),
        w_dims: [4, 3, 3, 3],
        y: buffer(3),
        y_dims: [1, 4, 6, 0],
        conv: ConvParams { pad: [0, 0], stride: [1, 1], dilation: [1, 1] },
        alpha: F32(0),
        beta: F32(0),
    };
    assert_eq!(
        text(op.record(&full_ctx(), &memory()).err().unwrap()),
        "Unrecoverable: conv: y_dims: non-positive dim in [1, 4, 6, 0]"
    );
}

#[test]
fn activation_op_records() {
    assert!(validate_dims(&[1, 2, 3, 4], "ok").is_ok());
    assert!(validate_dims(&[1, 2, 3, -1], "bad").is_err());

    let op = ActivationOp {
        kind: ActivationKind::Relu,
        x: buffer(1),
        y: buffer(2),
        dims: [1, 2, 3, -1],
        alpha: F32(0),
        beta: F32(0),
    };
    assert_eq!(
        text(op.record(&full_ctx(), &memory()).err().unwrap()),
        "Unrecoverable: activation: dims: non-positive dim in [1, 2, 3, -1]"
    );
}

#[test]
fn softmax_op_records() {
    assert!(validate_dims(&[2, 4, 1, 1], "ok").is_ok());

    let op =
        SoftmaxOp { x: buffer(1), y: buffer(2), dims: [2, 4, 1, 1], alpha: F32(0), beta: F32(0) };
    assert_eq!(
        text(op.record(&full_ctx(), &memory()).err().unwrap()),
        "Unrecoverable: graph::record::cudnn::Softmax: cuDNN capture-mode entry not yet wired"
    );
    let mut mem = memory();
    mem.drop_device(0);
    assert!(matches!(op.record(&full_ctx(), &mem), Err(GpuError::GpuRefStale(_))));
}

fn csr(rows: i64, cols: i64, nnz: i64) -> CsrMatrix {
    CsrMatrix {
        row_offsets: buffer(1),
        col_indices: buffer(2),
        values: buffer(3),
        rows,
        cols,
        nnz,
    }
}

#[test]
fn spmv_op_records() {
    assert!(validate_csr(&csr(4, 4, 0), &memory()).is_ok());
    assert_eq!(
        text(validate_csr(&csr(4, 4, -1), &memory()).unwrap_err()),
        "Unrecoverable: CsrMatrix: invalid dims (rows=4, cols=4, nnz=-1)"
    );
    let op = SpMvOp { csr: csr(4, 4, 0), x: buffer(4), y: buffer(5), alpha: F32(0), beta: F32(0) };
    assert!(matches!(op.record(&full_ctx(), &memory()), Err(GpuError::Unrecoverable(_))));
}

#[test]
fn spmm_dim_validation_rejects_zero() {
    let op = |b_cols: i64, ldb: i64, ldc: i64| SpMmOp {
        csr: csr(4, 4, 0),
        b: buffer(4),
        c: buffer(5),
        b_cols,
        ldb,
        ldc,
        alpha: F32(0),
        beta: F32(0),
    };
    assert_eq!(
        text(op(0, 1, 1).record(&full_ctx(), &memory()).err().unwrap()),
        "Unrecoverable: SpMm: non-positive (b_cols, ldb, ldc) = (0, 1, 1)"
    );
    assert_eq!(
        text(op(4, 4, 4).record(&full_ctx(), &memory()).err().unwrap()),
        "Unrecoverable: graph::record::cusparse::SpMm: cuSPARSE capture-mode entry not yet wired"
    );
}

const GRAPH: CapturedGraph = CapturedGraph { graph: 11, instance: 12 };

#[test]
fn a_script_is_recorded_in_order() {
    let state = DeviceState::new(0);
    let mut run = RecordRun::new(2);
    assert!(matches!(run.phase(), RecordPhase::Begin));
    assert!(run.report(RecordEvent::Began(CallOutcome::Done(())), &state).is_none());
    assert!(matches!(run.phase(), RecordPhase::Op(0)));
    assert!(run.report(RecordEvent::Recorded(Ok(())), &state).is_none());
    assert!(matches!(run.phase(), RecordPhase::Op(1)));
    assert!(run.report(RecordEvent::Recorded(Ok(())), &state).is_none());
    assert!(matches!(run.phase(), RecordPhase::End));
    let h = run.report(RecordEvent::Ended(Ok(Some(GRAPH))), &state).unwrap().unwrap();
    assert_eq!((h.cu_graph(), h.cu_graph_exec(), h.generation()), (11, 12, 0));
    assert!(matches!(run.phase(), RecordPhase::Finished));
}

#[test]
fn a_failed_op_closes_the_capture() {
    let state = DeviceState::new(0);
    let mut run = RecordRun::new(2);
    run.report(RecordEvent::Began(CallOutcome::Done(())), &state);
    run.report(RecordEvent::Recorded(Err(GpuError::Timeout)), &state);
    assert!(matches!(run.phase(), RecordPhase::Abort(_)));
    let e = run.report(RecordEvent::Aborted, &state).unwrap().unwrap_err();
    assert!(matches!(e, GpuError::Timeout));
}

#[test]
fn capture_failures_become_errors() {
    let state = DeviceState::new(0);
    let mut run = RecordRun::new(0);
    let e = run.report(RecordEvent::Began(CallOutcome::Failed("no".into())), &state);
    assert_eq!(text(e.unwrap().unwrap_err()), "cudarc graph error: begin_capture: no");

    let mut run = RecordRun::new(0);
    let e = run.report(RecordEvent::Began(CallOutcome::NotLoadable), &state);
    assert!(matches!(e, Some(Err(GpuError::Unrecoverable(_)))));

    let mut run = RecordRun::new(0);
    run.report(RecordEvent::Began(CallOutcome::Done(())), &state);
    let e = run.report(RecordEvent::Ended(Ok(None)), &state);
    assert_eq!(text(e.unwrap().unwrap_err()), "cudarc graph error: end_capture returned None");

    let mut run = RecordRun::new(0);
    run.report(RecordEvent::Began(CallOutcome::Done(())), &state);
    let e = run.report(RecordEvent::Ended(Err("no".into())), &state);
    assert_eq!(text(e.unwrap().unwrap_err()), "cudarc graph error: end_capture: no");
}

#[test]
fn stale_graphs_are_not_launched() {
    let mut state = DeviceState::new(0);
    let h = GraphHandle::from_graph(GRAPH, &state);
    assert_eq!(plan_launch(&h, &state).unwrap(), GRAPH);
    assert!(matches!(
        plan_launch(&GraphHandle::synthetic_for_tests(), &state),
        Err(GpuError::Unrecoverable(_))
    ));
    state.bump_generation();
    assert_eq!(
        text(plan_launch(&h, &state).unwrap_err()),
        "GpuRef stale: graph captured against rebuilt context"
    );
    assert_eq!(text(launch_error("x")), "cudarc graph error: launch: x");
}

#[test]
fn graph_actor_routes_messages() {
    let state = DeviceState::new(0);
    let mut mock = GraphActor::mock();
    assert!(matches!(
        mock.handle(&GraphMsg::Record { ops: 1, reply: 1 }, &state),
        GraphAction::Reply(GpuError::Unrecoverable(_))
    ));
    assert!(matches!(
        mock.handle(&GraphMsg::SetFftPlan { plan: 1, reply: 1 }, &state),
        GraphAction::Acknowledge
    ));

    let mut actor = GraphActor::new(5, Some(6), None);
    actor.handle(&GraphMsg::SetFftPlan { plan: 9, reply: 1 }, &state);
    match actor.handle(&GraphMsg::Record { ops: 1, reply: 1 }, &state) {
        GraphAction::Record { ctx, .. } => {
            assert_eq!(ctx.stream, Some(5));
            assert_eq!(ctx.blas, Some(6));
            assert_eq!(ctx.rng, None);
            assert_eq!(ctx.fft, Some(9));
        }
        _ => panic!("wrong action"),
    }
    let h = GraphHandle::from_graph(GRAPH, &state);
    assert!(matches!(
        actor.handle(&GraphMsg::Launch { handle: h, reply: 1 }, &state),
        GraphAction::Launch(GRAPH)
    ));
}
