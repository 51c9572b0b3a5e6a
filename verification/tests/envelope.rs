use std::sync::atomic::{AtomicU32, Ordering};
use std::sync::{Arc, Mutex};

use atomr_accel_cuda::device::DeviceState;
use atomr_accel_cuda::dtype::F32;
use atomr_accel_cuda::error::GpuError;
use atomr_accel_cuda::gpu_ref::{DeviceSlice, GpuRef, MemoryTable};
use atomr_accel_cuda::kernel::envelope::{
    access_all_2, access_all_3, access_all_4, annotate_error, handed, reply_with_value,
    run_kernel, KernelEnvelope, KernelInfo, KernelTrace, LaunchStep, TraceEvent, TraceHandle,
};

#[test]
fn annotate_error_tags_driver_failures() {
    let e = annotate_error(GpuError::Driver("oops".into()), "cudnn");
    match e {
        GpuError::LibraryError { lib, msg } => {
            assert_eq!(lib, "cudnn");
            assert_eq!(msg, "oops");
        }
        other => panic!("expected LibraryError, got {other:?}"),
    }
}

#[test]
fn annotate_error_passes_through_typed_variants() {
    let e = annotate_error(GpuError::OutOfMemory("alloc".into()), "cudnn");
    assert!(matches!(e, GpuError::OutOfMemory(_)));
    let e = annotate_error(GpuError::GpuRefStale("stale"), "cudnn");
    assert!(matches!(e, GpuError::GpuRefStale(_)));
}

#[test]
fn pre_enqueue_error_bypasses_completion() {
    let r = run_kernel("cublas", 7u32, Err(GpuError::OutOfMemory("forced".into())), Ok(()));
    assert!(matches!(r, Err(GpuError::OutOfMemory(_))));
}

#[derive(Default)]
struct RecordingTrace {
    events: Mutex<Vec<&'static str>>,
    last_dtype: Mutex<Option<String>>,
    last_op: Mutex<Option<String>>,
    last_lib: Mutex<Option<String>>,
    enqueue_ok: AtomicU32,
    enqueue_err: AtomicU32,
}

/// A trace that is also read by the test.
struct Shared(Arc<RecordingTrace>);

fn handle_of(trace: &Arc<RecordingTrace>) -> TraceHandle {
    TraceHandle(Arc::new(Box::new(Shared(trace.clone()))))
}

impl KernelTrace for Shared {
    fn before_enqueue(&self, info: &KernelInfo<'_>) {
        self.0.before_enqueue(info);
    }

    fn after_enqueue(&self, info: &KernelInfo<'_>, result: Result<(), &GpuError>) {
        self.0.after_enqueue(info, result);
    }

    fn before_complete(&self, info: &KernelInfo<'_>) {
        self.0.before_complete(info);
    }

    fn after_complete(&self, info: &KernelInfo<'_>, result: Result<(), &GpuError>, nanos: u64) {
        self.0.after_complete(info, result, nanos);
    }
}

impl KernelTrace for RecordingTrace {
    fn before_enqueue(&self, info: &KernelInfo<'_>) {
        self.events.lock().unwrap().push("before_enqueue");
        *self.last_op.lock().unwrap() = Some(info.op_name.to_string());
        *self.last_lib.lock().unwrap() = Some(info.library.to_string());
        *self.last_dtype.lock().unwrap() = info.dtype.map(str::to_string);
    }

    fn after_enqueue(&self, _info: &KernelInfo<'_>, result: Result<(), &GpuError>) {
        self.events.lock().unwrap().push("after_enqueue");
        match result {
            Ok(()) => {
                self.enqueue_ok.fetch_add(1, Ordering::Relaxed);
            }
            Err(_) => {
                self.enqueue_err.fetch_add(1, Ordering::Relaxed);
            }
        }
    }

    fn before_complete(&self, _info: &KernelInfo<'_>) {
        self.events.lock().unwrap().push("before_complete");
    }

    fn after_complete(
        &self,
        _info: &KernelInfo<'_>,
        _result: Result<(), &GpuError>,
        _latency_nanos: u64,
    ) {
        self.events.lock().unwrap().push("after_complete");
    }
}

/// Fires the hooks that the envelope asks for.
fn fire(env: &KernelEnvelope, events: &[TraceEvent], error: Option<&GpuError>) {
    let info = env.info(0xDEAD_BEEF);
    if let Some(TraceHandle(t)) = &env.trace {
        for e in events {
            let outcome = handed(*e, error);
            match e {
                TraceEvent::BeforeEnqueue => t.before_enqueue(&info),
                TraceEvent::AfterEnqueueOk | TraceEvent::AfterEnqueueErr => {
                    t.after_enqueue(&info, outcome.unwrap())
                }
                TraceEvent::BeforeComplete => t.before_complete(&info),
                TraceEvent::AfterCompleteOk | TraceEvent::AfterCompleteErr => {
                    t.after_complete(&info, outcome.unwrap(), 1000)
                }
            }
        }
    }
}

fn drive_envelope_trace(
    env: &KernelEnvelope,
    enqueue: Result<(), GpuError>,
) -> Result<(), GpuError> {
    fire(env, &env.before_enqueue(), None);
    let (events, step) = env.after_enqueue((), enqueue);
    match step {
        LaunchStep::Reply(e) => {
            fire(env, &events, Some(&e));
            Err(e)
        }
        LaunchStep::AwaitCompletion(out) => {
            fire(env, &events, None);
            fire(env, &env.before_complete(), None);
            let (events, reply) = env.after_complete(out, Ok(()));
            fire(env, &events, reply.as_ref().err());
            reply
        }
    }
}

#[test]
fn envelope_default_is_traceless_and_nvtxless() {
    let env = KernelEnvelope::new("cublas");
    assert!(env.trace.is_none());
    assert!(env.nvtx_range_name.is_none());
    assert_eq!(env.lib_tag, "cublas");
    assert_eq!(env.op_name, "cublas");
    assert!(env.dtype.is_none());
}

#[test]
fn envelope_builder_sets_metadata() {
    let trace = handle_of(&Arc::new(RecordingTrace::default()));
    let env = KernelEnvelope::new("cublas")
        .with_op_name("sgemm")
        .with_dtype("f32")
        .with_trace(trace)
        .with_nvtx("blas/sgemm");
    assert_eq!(env.op_name, "sgemm");
    assert_eq!(env.dtype, Some("f32"));
    assert_eq!(env.nvtx_range_name, Some("blas/sgemm"));
    assert!(env.trace.is_some());
}

#[test]
fn trace_hooks_fire_in_order_on_success() {
    let trace = Arc::new(RecordingTrace::default());
    let env = KernelEnvelope::new("cublas")
        .with_op_name("sgemm")
        .with_dtype("f32")
        .with_trace(handle_of(&trace));

    let res = drive_envelope_trace(&env, Ok(()));
    assert!(res.is_ok());
    let events = trace.events.lock().unwrap().clone();
    assert_eq!(
        events,
        vec!["before_enqueue", "after_enqueue", "before_complete", "after_complete"]
    );
    assert_eq!(trace.enqueue_ok.load(Ordering::Relaxed), 1);
    assert_eq!(trace.enqueue_err.load(Ordering::Relaxed), 0);
    assert_eq!(trace.last_op.lock().unwrap().as_deref(), Some("sgemm"));
    assert_eq!(trace.last_lib.lock().unwrap().as_deref(), Some("cublas"));
    assert_eq!(trace.last_dtype.lock().unwrap().as_deref(), Some("f32"));
}

#[test]
fn trace_hooks_skip_completion_on_enqueue_error() {
    let trace = Arc::new(RecordingTrace::default());
    let env = KernelEnvelope::new("cudnn")
        .with_op_name("conv2d_forward")
        .with_trace(handle_of(&trace));

    match drive_envelope_trace(&env, Err(GpuError::Driver("forced".into()))) {
        Err(GpuError::LibraryError { lib, msg }) => {
            assert_eq!(lib, "cudnn");
            assert_eq!(msg, "forced");
        }
        other => panic!("expected LibraryError, got {other:?}"),
    }
    let events = trace.events.lock().unwrap().clone();
    assert_eq!(events, vec!["before_enqueue", "after_enqueue"]);
    assert_eq!(trace.enqueue_ok.load(Ordering::Relaxed), 0);
    assert_eq!(trace.enqueue_err.load(Ordering::Relaxed), 1);
}

#[test]
fn envelope_without_trace_is_silent() {
    let env = KernelEnvelope::new("cufft");
    assert!(env.before_enqueue().is_empty());
    assert!(drive_envelope_trace(&env, Ok(())).is_ok());
}

#[test]
fn success_needs_enqueue_and_completion() {
    assert_eq!(run_kernel("x", 5u32, Ok(()), Ok(())).unwrap(), 5);
    let e = run_kernel("x", 5u32, Ok(()), Err(GpuError::Timeout));
    assert!(matches!(e, Err(GpuError::Timeout)));
    assert_eq!(reply_with_value(Some(Ok(())), 3).unwrap(), 3);
    assert!(reply_with_value(Some(Err(GpuError::Timeout)), 3).is_err());
    assert!(reply_with_value(None, 3).is_err());
}

#[test]
fn the_first_stale_buffer_decides() {
    let mut mem = MemoryTable::new();
    let mut state = DeviceState::new(0);
    let place = DeviceSlice { ptr: 1, len: 1 };
    let stale: GpuRef<F32> = GpuRef::new(place, 0, &state, 1, &mut mem);
    let dropped: GpuRef<F32> = GpuRef::new(place, 1, &state, 2, &mut mem);
    state.bump_generation();
    mem.set_device(0, state);
    let good: GpuRef<F32> = GpuRef::new(place, 0, &state, 3, &mut mem);

    assert_eq!(access_all_2(&good, &good, &mem).unwrap().1.ptr, 1);
    assert!(access_all_3(&good, &good, &good, &mem).is_ok());
    assert!(access_all_4(&good, &good, &good, &good, &mem).is_ok());
    let first = access_all_3(&good, &dropped, &stale, &mem).unwrap_err().panic_message();
    assert_eq!(first, dropped.access(&mem).unwrap_err().panic_message());
    let first = access_all_4(&good, &good, &stale, &dropped, &mem).unwrap_err().panic_message();
    assert_eq!(first, stale.access(&mem).unwrap_err().panic_message());
    assert!(access_all_2(&good, &stale, &mem).is_err());
}

#[test]
fn hooks_are_handed_the_caller_s_error() {
    let env = KernelEnvelope::new("cublas")
        .with_trace(handle_of(&Arc::new(RecordingTrace::default())));
    let (events, reply) = env.run_kernel((), Err(GpuError::Driver("x".into())), Ok(()));
    let e = reply.unwrap_err();
    assert!(handed(events[0], Some(&e)).is_none());
    match handed(events[1], Some(&e)) {
        Some(Err(GpuError::LibraryError { lib: "cublas", msg })) => assert_eq!(msg, "x"),
        _ => panic!("the hook should get the annotated error"),
    }
    let (events, reply) = env.run_kernel((), Ok(()), Err(GpuError::Driver("y".into())));
    let e = reply.unwrap_err();
    assert!(matches!(handed(events[1], Some(&e)), Some(Ok(()))));
    match handed(events[3], Some(&e)) {
        Some(Err(GpuError::Driver(msg))) => assert_eq!(msg, "y"),
        _ => panic!("the hook should get the completion's error"),
    }
}

#[test]
fn a_cloned_envelope_fires_the_same_trace() {
    let trace = Arc::new(RecordingTrace::default());
    let env = KernelEnvelope::new("cublas").with_op_name("sgemm").with_trace(handle_of(&trace));
    let copy = env.clone();
    assert_eq!((copy.lib_tag, copy.op_name), ("cublas", "sgemm"));
    drive_envelope_trace(&env, Ok(())).unwrap();
    drive_envelope_trace(&copy, Ok(())).unwrap();
    assert_eq!(trace.enqueue_ok.load(Ordering::Relaxed), 2);
}
