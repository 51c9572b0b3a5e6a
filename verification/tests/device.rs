use atomr_accel_cuda::device::alloc_dispatch::{
    AllocDispatch, AllocReq, AllocStep, CopyFromHostDispatch, CopyToHostDispatch, HostBuf,
};
use atomr_accel_cuda::device::config::{DeviceConfig, EnabledLibraries};
use atomr_accel_cuda::device::device_actor::{
    ContextOp, DeviceAction, DeviceActor, DeviceMsg, ExtrasTable, KernelChildren, SgemmRefusal,
    SgemmRequest,
};
use atomr_accel_cuda::device::DeviceState;
use atomr_accel_cuda::dtype::{AccelDtype, CudaDtype, DType, F32, F64};
use atomr_accel_cuda::error::GpuError;
use atomr_accel_cuda::gpu_ref::{DeviceSlice, GpuRef, MemoryTable};

#[test]
fn enabled_libraries_bit_values_are_stable() {
    assert_eq!(EnabledLibraries::blas().bits(), 1 << 0);
    assert_eq!(EnabledLibraries::cudnn().bits(), 1 << 1);
    assert_eq!(EnabledLibraries::cufft().bits(), 1 << 2);
    assert_eq!(EnabledLibraries::curand().bits(), 1 << 3);
    assert_eq!(EnabledLibraries::cusolver().bits(), 1 << 4);
    assert_eq!(EnabledLibraries::cublaslt().bits(), 1 << 5);
    assert_eq!(EnabledLibraries::nvrtc().bits(), 1 << 6);
    assert_eq!(EnabledLibraries::cutensor().bits(), 1 << 7);
    assert_eq!(EnabledLibraries::cusparse().bits(), 1 << 8);
    assert_eq!(EnabledLibraries::nccl().bits(), 1 << 9);
    assert_eq!(EnabledLibraries::cutlass().bits(), 1 << 10);
    assert_eq!(EnabledLibraries::tensorrt().bits(), 1 << 11);
    assert_eq!(EnabledLibraries::flashattn().bits(), 1 << 12);
    assert_eq!(EnabledLibraries::cub_thrust().bits(), 1 << 13);
    assert_eq!(EnabledLibraries::telemetry().bits(), 1 << 14);
}

#[test]
fn enabled_libraries_round_trip_via_bits() {
    let original = EnabledLibraries::blas()
        | EnabledLibraries::cutensor()
        | EnabledLibraries::flashattn()
        | EnabledLibraries::telemetry();
    let bits = original.bits();
    let restored =
        EnabledLibraries::from_bits(bits).expect("known bits round-trip through from_bits");
    assert_eq!(original, restored);
    assert!(restored.contains(EnabledLibraries::flashattn()));
    assert!(!restored.contains(EnabledLibraries::cudnn()));
}

#[test]
fn enabled_libraries_all_contains_every_phase_0_8_bit() {
    let all = EnabledLibraries::all();
    for bit in [
        EnabledLibraries::blas(),
        EnabledLibraries::cudnn(),
        EnabledLibraries::cufft(),
        EnabledLibraries::curand(),
        EnabledLibraries::cusolver(),
        EnabledLibraries::cublaslt(),
        EnabledLibraries::nvrtc(),
        EnabledLibraries::cutensor(),
        EnabledLibraries::cusparse(),
        EnabledLibraries::nccl(),
        EnabledLibraries::cutlass(),
        EnabledLibraries::tensorrt(),
        EnabledLibraries::flashattn(),
        EnabledLibraries::cub_thrust(),
        EnabledLibraries::telemetry(),
    ] {
        assert!(all.contains(bit), "ALL missing {bit:?}");
    }
}

#[test]
fn unknown_bits_name_no_set() {
    assert!(EnabledLibraries::from_bits(1 << 15).is_none());
    assert_eq!(EnabledLibraries::from_bits(0), Some(EnabledLibraries::empty()));
    assert_eq!(EnabledLibraries::all().bits(), 0x7fff);
}

#[test]
fn kernel_children_extras_register_and_retrieve_by_type() {
    let mut table = ExtrasTable::new();
    let children = KernelChildren::new(1, 0);
    let (cutlass, tensor_rt, unknown): (u64, u64, u64) = (1, 2, 3);
    children.register_extra(&mut table, cutlass, 7);
    children.register_extra(&mut table, tensor_rt, 8);
    assert_eq!(children.extra(&table, cutlass), Some(7));
    assert_eq!(children.extra(&table, tensor_rt), Some(8));
    assert!(children.extra(&table, unknown).is_none());
    assert_eq!(children.extras_len(&table), 2);
    children.register_extra(&mut table, cutlass, 99);
    assert_eq!(children.extra(&table, cutlass), Some(99));
    assert_eq!(children.extras_len(&table), 2);
    let others = KernelChildren::new(1, 5);
    assert_eq!(others.extras_len(&table), 0);
    assert!(others.extra(&table, cutlass).is_none());
}

fn ready_device() -> DeviceActor {
    let mut dev = DeviceActor::new(DeviceConfig::mock(0));
    dev.context_spawned();
    dev.handle(DeviceMsg::ContextReady { children: KernelChildren::new(42, 6) });
    dev
}

fn snapshot(dev: &mut DeviceActor) -> Option<KernelChildren> {
    match dev.handle(DeviceMsg::SnapshotChildren { reply: 1 }).pop() {
        Some(DeviceAction::ReplyChildren { children, reply: 1 }) => children,
        _ => panic!("a snapshot should be answered"),
    }
}

#[test]
fn kernel_children_extras_via_snapshot() {
    let mut dev = DeviceActor::new(DeviceConfig::mock(0));
    assert!(snapshot(&mut dev).is_none());
    let mut dev = ready_device();
    let children = snapshot(&mut dev).expect("snapshot should arrive");
    assert_eq!(children.blas, 42);

    let mut table = ExtrasTable::new();
    assert_eq!(children.extras_len(&table), 0);
    let fake_cutlass: u64 = 5;
    children.register_extra(&mut table, fake_cutlass, 42);
    assert_eq!(children.extras_len(&table), 1);
    assert_eq!(children.extra(&table, fake_cutlass), Some(42));
    let cloned = children.clone();
    assert_eq!(cloned.extras_len(&table), 1);
    assert_eq!(cloned.extra(&table, fake_cutlass), Some(42));
    let later = snapshot(&mut dev).expect("snapshot should arrive");
    assert_eq!(later.extra(&table, fake_cutlass), Some(42));
}

fn mock_alloc_reply<T: CudaDtype>(len: usize) -> GpuError {
    match AllocReq::<T>::new(len, 0).run(None, true) {
        AllocStep::Reply(e) => e,
        AllocStep::AllocZeros { .. } => panic!("no allocation in mock mode"),
    }
}

#[test]
fn pending_work_drains_on_context_ready() {
    let mut dev = DeviceActor::new(DeviceConfig::mock(0));
    assert!(dev.handle(DeviceMsg::Allocate { len: 16, reply: 9 }).is_empty());
    dev.context_spawned();
    let actions = dev.handle(DeviceMsg::ContextReady { children: KernelChildren::new(1, 0) });
    match &actions[0] {
        DeviceAction::ToContext(ContextOp::Alloc(op)) => {
            assert_eq!(op.len, 16);
            assert_eq!(op.reply, 9);
        }
        _ => panic!("the queued allocation should be released"),
    }
    assert!(matches!(mock_alloc_reply::<F32>(16), GpuError::Unrecoverable(_)));
}

#[test]
fn alloc_dispatch_via_typed_constructor() {
    let mut dev = ready_device();
    let actions = dev.handle(DeviceMsg::alloc_typed::<F32>(64, 3));
    match &actions[0] {
        DeviceAction::ToContext(ContextOp::Alloc(op)) => {
            assert_eq!(op.dtype, DType::F32);
            assert_eq!(op.len, 64);
        }
        _ => panic!("the allocation should reach the context"),
    }
    assert!(matches!(mock_alloc_reply::<F32>(64), GpuError::Unrecoverable(_)));
}

#[test]
fn alloc_dispatch_dtype_kind_correct() {
    let boxed: Box<dyn AllocDispatch> = Box::new(AllocReq::<F32>::new(4, 0));
    assert_eq!(boxed.dtype(), DType::F32);
    assert_eq!(boxed.len(), 4);
    let boxed: Box<dyn AllocDispatch> = Box::new(AllocReq::<i32>::new(7, 0));
    assert_eq!(boxed.dtype(), DType::I32);
    let boxed: Box<dyn AllocDispatch> = Box::new(AllocReq::<u8>::new(1, 0));
    assert_eq!(boxed.dtype(), DType::U8);
}

#[test]
fn deprecated_allocate_f32_still_works() {
    let mut dev = ready_device();
    let actions = dev.handle(DeviceMsg::AllocateF32 { len: 8, reply: 3 });
    match &actions[0] {
        DeviceAction::ToContext(ContextOp::Alloc(op)) => {
            assert_eq!(op.dtype, DType::F32);
            assert_eq!(op.len, 8);
        }
        _ => panic!("the allocation should reach the context"),
    }
    assert!(matches!(mock_alloc_reply::<F32>(8), GpuError::Unrecoverable(_)));
}

struct Stub<T: CudaDtype>(std::marker::PhantomData<T>);

impl<T: CudaDtype> CopyToHostDispatch for Stub<T> {
    fn dtype(&self) -> DType {
        T::kind()
    }
}

impl<T: CudaDtype> CopyFromHostDispatch for Stub<T> {
    fn dtype(&self) -> DType {
        T::kind()
    }
}

fn buffer<T: CudaDtype>() -> GpuRef<T> {
    let state = DeviceState::new(0);
    GpuRef::new(DeviceSlice { ptr: 64, len: 4 }, 0, &state, 1, &mut MemoryTable::new())
}

#[test]
fn copy_to_host_typed() {
    let boxed: Box<dyn CopyToHostDispatch> = Box::new(Stub::<F32>(std::marker::PhantomData));
    assert_eq!(boxed.dtype(), DType::F32);
    let boxed: Box<dyn CopyToHostDispatch> = Box::new(Stub::<i32>(std::marker::PhantomData));
    assert_eq!(boxed.dtype(), DType::I32);

    let msg = DeviceMsg::copy_to_host(buffer::<u32>(), HostBuf { handle: 1, len: 4 }, 0);
    match msg {
        DeviceMsg::CopyToHost(op) => assert_eq!(op.dtype, DType::U32),
        _ => panic!("expected CopyToHost variant"),
    }
}

#[test]
fn copy_from_host_typed() {
    let boxed: Box<dyn CopyFromHostDispatch> = Box::new(Stub::<u8>(std::marker::PhantomData));
    assert_eq!(boxed.dtype(), DType::U8);

    let msg = DeviceMsg::copy_from_host(HostBuf { handle: 1, len: 4 }, buffer::<F64>(), 0);
    match msg {
        DeviceMsg::CopyFromHost(op) => assert_eq!(op.dtype, DType::F64),
        _ => panic!("expected CopyFromHost variant"),
    }
}

fn sgemm(reply: u64) -> SgemmRequest {
    SgemmRequest {
        a: buffer(),
        b: buffer(),
        c: buffer(),
        m: 1,
        n: 1,
        k: 1,
        alpha: F32(0),
        beta: F32(0),
        reply,
    }
}

#[test]
fn a_full_queue_turns_work_away() {
    let mut config = DeviceConfig::mock(0);
    config.pending_queue_capacity = 1;
    let mut dev = DeviceActor::new(config);
    assert!(dev.handle(DeviceMsg::Sgemm(sgemm(1))).is_empty());
    let actions = dev.handle(DeviceMsg::Sgemm(sgemm(2)));
    match &actions[0] {
        DeviceAction::RefuseSgemm { reply: 2, refusal: SgemmRefusal::QueueFull } => {}
        _ => panic!("the queue is full"),
    }
    assert_eq!(
        SgemmRefusal::QueueFull.into_error().panic_message(),
        "Unrecoverable: device pending queue full"
    );
    let actions = dev.handle(DeviceMsg::Allocate { len: 1, reply: 3 });
    assert!(matches!(actions[0], DeviceAction::DropReply { reply: 3 }));
}

#[test]
fn stopping_answers_everybody() {
    let mut dev = DeviceActor::new(DeviceConfig::mock(0));
    dev.handle(DeviceMsg::Sgemm(sgemm(1)));
    dev.handle(DeviceMsg::Allocate { len: 1, reply: 2 });
    let actions = dev.post_stop();
    assert_eq!(actions.len(), 2);
    assert!(matches!(
        actions[0],
        DeviceAction::RefuseSgemm { reply: 1, refusal: SgemmRefusal::ShuttingDown }
    ));
    assert!(matches!(actions[1], DeviceAction::DropReply { reply: 2 }));
    assert!(!dev.state().accepting_ops());
}

#[test]
fn queued_work_is_released_in_arrival_order() {
    let mut dev = DeviceActor::new(DeviceConfig::mock(0));
    for reply in 1..4u64 {
        dev.handle(DeviceMsg::Sgemm(sgemm(reply)));
    }
    dev.context_spawned();
    let actions = dev.handle(DeviceMsg::ContextReady { children: KernelChildren::new(7, 0) });
    let replies: Vec<u64> = actions
        .iter()
        .map(|a| match a {
            DeviceAction::ToBlas { blas: 7, request } => request.reply,
            _ => panic!("wrong action"),
        })
        .collect();
    assert_eq!(replies, vec![1, 2, 3]);
}

#[test]
fn load_reports_the_queue() {
    let mut dev = DeviceActor::new(DeviceConfig::mock(0));
    dev.handle(DeviceMsg::Sgemm(sgemm(1)));
    let actions = dev.handle(DeviceMsg::Stats { reply: 4 });
    match &actions[0] {
        DeviceAction::ReplyLoad { reply: 4, load } => assert_eq!(load.queue_depth, 1),
        _ => panic!("wrong action"),
    }
}

#[test]
fn a_lost_context_queues_work_again() {
    let mut dev = ready_device();
    dev.handle(DeviceMsg::ContextLost);
    assert!(dev.handle(DeviceMsg::Sgemm(sgemm(1))).is_empty());
}

#[test]
fn allocations_finish_with_a_buffer_or_an_error() {
    let state = DeviceState::new(2);
    let req = AllocReq::<F32>::new(8, 0);
    let mut mem = MemoryTable::new();
    mem.set_device(5, state);
    let allocated = Ok(DeviceSlice { ptr: 16, len: 8 });
    let r = req.finish(5, &state, 6, &mut mem, allocated).ok().unwrap();
    assert_eq!(r.access(&mem).unwrap().ptr, 16);
    assert!(r.sole_owner(&mem));
    let e = req.finish(5, &state, 7, &mut mem, Err("full".into())).err().unwrap();
    assert_eq!(e.panic_message(), "OutOfMemory: alloc 8: full");
    assert!(matches!(req.run(Some(3), false), AllocStep::AllocZeros { stream: 3, len: 8 }));
    assert!(matches!(req.run(None, false), AllocStep::Reply(GpuError::GpuRefStale(_))));
}

#[test]
fn configurations_start_from_their_constructors() {
    let c = DeviceConfig::new(1);
    assert_eq!((c.device_id, c.mock_mode), (1, false));
    let c = DeviceConfig::mock(2).with_libraries(EnabledLibraries::cudnn());
    assert_eq!((c.device_id, c.mock_mode), (2, true));
    assert_eq!(c.enabled_libraries, EnabledLibraries::cudnn());
    assert_eq!(<F32 as AccelDtype>::size(), 4);
}
