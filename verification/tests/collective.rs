use atomr_accel_cuda::device::DeviceState;
use atomr_accel_cuda::dtype::{Bf16, NcclDataType, F16, F32, F64};
use atomr_accel_cuda::error::GpuError;
use atomr_accel_cuda::gpu_ref::{DeviceSlice, GpuRef, MemoryTable};
use atomr_accel_cuda::kernel::collective::actor::consumed_comm;
use atomr_accel_cuda::kernel::collective::group::GroupEnd;
use atomr_accel_cuda::kernel::collective::requests::CollectiveDispatch;
use atomr_accel_cuda::kernel::collective::{
    probe_capabilities, AllGatherRequest, AllReduceRequest, AllToAllRequest, AllToAllvRequest,
    BroadcastRequest, BuildFeatures, CollStep, CollectiveAction, CollectiveActor, CollectiveMsg,
    CollectiveRun, DispatchDType, GroupGuard, GroupTracker, NcclCapabilities, NcclReduceSupported,
    PreMulSumOp, RecvRequest, ReduceOp, ReduceRequest, ReduceScatterRequest, SendRequest, Span,
};

fn buffer_of<T>(ptr: u64, len: usize) -> GpuRef<T> {
    let state = DeviceState::new(0);
    GpuRef::new(DeviceSlice { ptr, len }, 0, &state, ptr, &mut MemoryTable::new())
}

/// A live device with ten buffers on it, each with a single reference.
fn memory() -> MemoryTable {
    let mut mem = MemoryTable::new();
    mem.set_device(0, DeviceState::new(0));
    for buffer in 1..=10 {
        mem.retain(buffer);
    }
    mem
}

fn buffer(ptr: u64, len: usize) -> GpuRef<F32> {
    buffer_of(ptr, len)
}

/// Makes every call succeed and gives the calls with the caller's answer.
fn drive(mut run: CollectiveRun) -> (Vec<CollStep>, Result<(), GpuError>) {
    let mut steps = Vec::new();
    loop {
        steps.push(*run.current().expect("a run ends with an answer"));
        if let Some(reply) = run.report(Ok(())) {
            return (steps, reply);
        }
    }
}

fn check_dtypes() {
    assert_eq!(<F32 as NcclReduceSupported>::dispatch_dtype(), DispatchDType::F32);
    assert_eq!(<F64 as NcclReduceSupported>::dispatch_dtype(), DispatchDType::F64);
    assert_eq!(<i8 as NcclReduceSupported>::dispatch_dtype(), DispatchDType::I8);
    assert_eq!(<u8 as NcclReduceSupported>::dispatch_dtype(), DispatchDType::U8);
    assert_eq!(<i32 as NcclReduceSupported>::dispatch_dtype(), DispatchDType::I32);
    assert_eq!(<u32 as NcclReduceSupported>::dispatch_dtype(), DispatchDType::U32);
    assert_eq!(<i64 as NcclReduceSupported>::dispatch_dtype(), DispatchDType::I64);
    assert_eq!(<u64 as NcclReduceSupported>::dispatch_dtype(), DispatchDType::U64);
    assert_eq!(<F16 as NcclReduceSupported>::dispatch_dtype(), DispatchDType::F16);
    assert_eq!(<Bf16 as NcclReduceSupported>::dispatch_dtype(), DispatchDType::Bf16);
}

#[test]
fn all_to_all_request_round_trip() {
    check_dtypes();
    let req = AllToAllRequest::<F32> {
        send: buffer(1, 6),
        recv: buffer(2, 6),
        count: 3,
        reply: 0,
    };
    let (steps, reply) = drive(req.op().body.dispatch(2, &memory()).ok().unwrap());
    assert!(reply.is_ok());
    assert_eq!(steps.len(), 6);
    assert_eq!(steps[0], CollStep::GroupStart);
    assert_eq!(steps[5], CollStep::GroupEnd);
    match steps[3] {
        CollStep::Send { span, rank, peer, .. } => {
            assert_eq!(span, Span { ptr: 1, offset: 3, len: 3 });
            assert_eq!((rank, peer), (1, 1));
        }
        _ => panic!("wrong call"),
    }
    let e = req.op().body.dispatch(3, &memory()).err().unwrap();
    assert_eq!(
        e.panic_message(),
        "Unrecoverable: AllToAll: buffer length < world_size (3) * count (3)"
    );
}

fn all_to_allv(
    send_counts: Vec<usize>,
    send_offsets: Vec<usize>,
    recv_counts: Vec<usize>,
    recv_offsets: Vec<usize>,
) -> AllToAllvRequest<F32> {
    AllToAllvRequest {
        send: buffer(1, 10),
        recv: buffer(2, 10),
        send_counts,
        send_offsets,
        recv_counts,
        recv_offsets,
        reply: 0,
    }
}

#[test]
fn unequal_exchanges_skip_empty_shards() {
    let op = all_to_allv(vec![0, 4], vec![0, 6], vec![2, 0], vec![1, 0]).into_op();
    let (steps, reply) = drive(op.body.dispatch(2, &memory()).ok().unwrap());
    assert!(reply.is_ok());
    assert_eq!(steps.len(), 4);
    assert!(matches!(
        steps[1],
        CollStep::Recv { span: Span { ptr: 2, offset: 1, len: 2 }, peer: 0, .. }
    ));
    assert!(matches!(
        steps[2],
        CollStep::Send { span: Span { ptr: 1, offset: 6, len: 4 }, peer: 1, .. }
    ));
}

#[test]
fn an_overrun_ends_an_exchange() {
    let op = all_to_allv(vec![1, 5], vec![0, 6], vec![1, 1], vec![0, 1]).into_op();
    let (steps, reply) = drive(op.body.dispatch(2, &memory()).ok().unwrap());
    assert_eq!(steps.len(), 3);
    assert!(!steps.contains(&CollStep::GroupEnd));
    assert_eq!(
        reply.unwrap_err().panic_message(),
        "Unrecoverable: AllToAllv: send shard for peer 1 overruns buffer"
    );
    let op = all_to_allv(vec![1, 1], vec![0, 1], vec![1, 9], vec![0, 2]).into_op();
    let (steps, reply) = drive(op.body.dispatch(2, &memory()).ok().unwrap());
    assert_eq!(steps.len(), 4);
    assert_eq!(
        reply.unwrap_err().panic_message(),
        "Unrecoverable: AllToAllv: recv shard from peer 1 overruns buffer"
    );
    let op = all_to_allv(vec![1], vec![0, 1], vec![1, 1], vec![0, 1]).into_op();
    assert_eq!(
        op.body.dispatch(2, &memory()).err().unwrap().panic_message(),
        "Unrecoverable: AllToAllv: counts/offsets must each have length world_size (2)"
    );
}

#[test]
fn a_failed_call_ends_the_run() {
    let req = AllToAllRequest::<F32> {
        send: buffer(1, 2),
        recv: buffer(2, 2),
        count: 1,
        reply: 0,
    };
    let mut run = req.op().body.dispatch(2, &memory()).ok().unwrap();
    assert!(run.report(Ok(())).is_none());
    assert!(run.report(Ok(())).is_none());
    let reply = run.report(Err("NcclError".into())).unwrap();
    assert_eq!(
        reply.unwrap_err().panic_message(),
        "cudarc nccl error: a2a recv from 0: NcclError"
    );
    assert!(run.current().is_none());
}

#[test]
fn allgather_request_round_trip() {
    check_dtypes();
    let req = AllGatherRequest::<F32> { send: buffer(1, 2), recv: buffer(2, 4), reply: 0 };
    let (steps, reply) = drive(req.op().body.dispatch(2, &memory()).ok().unwrap());
    assert!(reply.is_ok());
    assert_eq!(
        steps,
        vec![CollStep::AllGather {
            send: DeviceSlice { ptr: 1, len: 2 },
            recv: DeviceSlice { ptr: 2, len: 4 },
        }]
    );
    let mut mem = memory();
    let _other = req.recv.clone(&mut mem);
    assert_eq!(
        req.op().body.dispatch(2, &mem).err().unwrap().panic_message(),
        "Unrecoverable: AllGather recv buffer has multiple live references"
    );
}

#[test]
fn request_round_trip_for_every_dtype() {
    check_dtypes();
    let req = AllReduceRequest::<Bf16> { tensor: buffer_of(1, 2), op: ReduceOp::Max, reply: 5 };
    let op = req.op();
    assert_eq!(op.dtype, DispatchDType::Bf16);
    assert_eq!(op.reply, 5);
    let (steps, _) = drive(op.body.dispatch(1, &memory()).ok().unwrap());
    assert_eq!(
        steps,
        vec![CollStep::AllReduceInPlace {
            buf: DeviceSlice { ptr: 1, len: 2 },
            op: ReduceOp::Max,
        }]
    );
}

#[test]
fn send_recv_request_round_trip() {
    check_dtypes();
    let req = SendRequest::<u8> { data: buffer_of(1, 2), peer: 3, reply: 0 };
    let (steps, _) = drive(req.op().body.dispatch(4, &memory()).ok().unwrap());
    assert!(matches!(
        steps[0],
        CollStep::Send { rank: 3, span: Span { ptr: 1, offset: 0, len: 2 }, .. }
    ));
    let mut req = RecvRequest::<u8> { data: buffer_of(1, 2), peer: 3, reply: 0 };
    let (steps, _) = drive(req.op().body.dispatch(4, &memory()).ok().unwrap());
    assert!(matches!(steps[0], CollStep::Recv { rank: 3, .. }));
    let mut mem = memory();
    let _other = req.data.clone(&mut mem);
    assert_eq!(
        req.op().body.dispatch(4, &mem).err().unwrap().panic_message(),
        "Unrecoverable: Recv buffer has multiple live references"
    );
}

#[test]
fn reduce_scatter_request_round_trip() {
    check_dtypes();
    let req = ReduceScatterRequest::<F32> {
        send: buffer(1, 4),
        recv: buffer(2, 2),
        op: ReduceOp::Sum,
        reply: 0,
    };
    let mut run = req.op().body.dispatch(2, &memory()).ok().unwrap();
    let e = run.report(Err("x".into())).unwrap().unwrap_err();
    assert_eq!(e.panic_message(), "cudarc nccl error: reduce_scatter: x");
}

#[test]
fn reductions_need_a_target_only_at_the_root() {
    let req = ReduceRequest::<F32> {
        send: buffer(1, 4),
        recv: None,
        op: ReduceOp::Avg,
        root: 1,
        reply: 0,
    };
    let (steps, _) = drive(req.op().body.dispatch(2, &memory()).ok().unwrap());
    assert!(matches!(steps[0], CollStep::Reduce { recv: None, root: 1, .. }));
    let mut mem = memory();
    let recv = buffer(2, 4);
    let _other = recv.clone(&mut mem);
    let req = ReduceRequest::<F32> {
        send: buffer(1, 4),
        recv: Some(recv),
        op: ReduceOp::Avg,
        root: 0,
        reply: 0,
    };
    assert_eq!(
        req.op().body.dispatch(2, &mem).err().unwrap().panic_message(),
        "Unrecoverable: Reduce recv buffer has multiple live references"
    );
}

#[test]
fn a_broadcast_root_must_fit() {
    let req = BroadcastRequest::<F32> { data: buffer(1, 4), root: 3, reply: 0 };
    let (steps, _) = drive(req.op().body.dispatch(4, &memory()).ok().unwrap());
    assert!(matches!(steps[0], CollStep::BroadcastInPlace { root: 3, .. }));
    let req = BroadcastRequest::<F32> { data: buffer(1, 4), root: 1 << 31, reply: 0 };
    assert_eq!(
        req.op().body.dispatch(4, &memory()).err().unwrap().panic_message(),
        "Unrecoverable: Broadcast: root 2147483648 does not fit in i32"
    );
}

#[test]
fn probe_returns_zeroed_when_nccl_uninit() {
    let off = BuildFeatures { fp8: false, nvls: false };
    assert_eq!(probe_capabilities(Some(0), off), NcclCapabilities::zeroed());
    assert_eq!(probe_capabilities(None, off), NcclCapabilities::zeroed());
    assert_eq!(NcclCapabilities::default(), NcclCapabilities::zeroed());
    let caps = probe_capabilities(Some(21805), off);
    assert!(caps.version.0 >= 1);
}

#[test]
fn versions_are_unpacked() {
    let on = BuildFeatures { fp8: true, nvls: true };
    let caps = probe_capabilities(Some(22005), on);
    assert_eq!(caps.version, (2, 20, 5));
    assert!(caps.has_fp8 && caps.has_nvls && !caps.has_sharp);
    let caps = probe_capabilities(Some(21903), on);
    assert_eq!(caps.version, (2, 19, 3));
    assert!(!caps.has_fp8);
    let caps = probe_capabilities(Some(2805), on);
    assert_eq!(caps.version, (2, 8, 5));
    let caps = probe_capabilities(Some(-2805), on);
    assert_eq!(caps.version, (-2, -8, -5));
}

#[test]
fn group_scope_guard_emits_begin_end_pair() {
    let mut tracker = GroupTracker::default();
    {
        let g = GroupGuard::begin_inert(Some(&mut tracker));
        assert_eq!(g.leave_scope(Some(&mut tracker)), GroupEnd::Nothing);
    }
    assert_eq!(tracker.begins, 1);
    assert_eq!(tracker.ends, 1);
}

#[test]
fn commit_then_drop_does_not_double_count() {
    let mut tracker = GroupTracker::default();
    let g = GroupGuard::begin_inert(Some(&mut tracker));
    assert_eq!(g.commit(Some(&mut tracker)), GroupEnd::Nothing);
    assert_eq!(tracker.begins, 1);
    assert_eq!(tracker.ends, 1);
}

#[test]
fn live_guards_close_their_group() {
    let mut tracker = GroupTracker::default();
    let g = GroupGuard::begin(Some(&mut tracker), Ok(())).ok().unwrap();
    assert_eq!(g.commit(Some(&mut tracker)), GroupEnd::CallGroupEnd);
    assert_eq!((tracker.begins, tracker.ends), (1, 1));
    let g = GroupGuard::begin(None, Ok(())).ok().unwrap();
    assert_eq!(g.leave_scope(None), GroupEnd::CallGroupEnd);
    assert!(GroupGuard::begin(Some(&mut tracker), Err("x".into())).is_err());
    assert_eq!((tracker.begins, tracker.ends), (1, 1));
    let e = GroupGuard::begin(None, Err("x".into())).err().unwrap();
    assert_eq!(e.panic_message(), "cudarc nccl error: group_start: x");
    let e = GroupGuard::commit_reply(Err("x".into())).err().unwrap();
    assert_eq!(e.panic_message(), "cudarc nccl error: group_end: x");
}

#[test]
fn deprecated_allreduce_f32_alias_still_constructs() {
    let _ = std::mem::size_of::<CollectiveMsg>();
    let _ = std::any::TypeId::of::<CollectiveMsg>();
    let msg =
        CollectiveMsg::AllReduceF32 { tensor: buffer(1, 4), op: ReduceOp::Sum, reply: 0 };
    match CollectiveActor::for_rank(0, 2).handle(&msg, &memory()).0 {
        CollectiveAction::Run(run) => {
            assert!(matches!(drive(run).0[0], CollStep::AllReduceInPlace { .. }));
        }
        _ => panic!("wrong action"),
    }
    let msg = CollectiveMsg::BroadcastF32 { data: buffer(1, 4), root: 1, reply: 0 };
    match CollectiveActor::for_rank(0, 2).handle(&msg, &memory()).0 {
        CollectiveAction::Run(run) => {
            assert!(matches!(drive(run).0[0], CollStep::BroadcastInPlace { root: 1, .. }));
        }
        _ => panic!("wrong action"),
    }
}

#[test]
fn a_rank_routes_messages() {
    let op = || AllReduceRequest::<F32> { tensor: buffer(1, 2), op: ReduceOp::Sum, reply: 0 }.op();
    let (action, misplaced) = CollectiveActor::for_rank(7, 2).handle(&CollectiveMsg::Op(op()), &memory());
    assert!(matches!(action, CollectiveAction::Run(_)));
    assert_eq!(misplaced, Some((7, 0)));
    let (_, misplaced) = CollectiveActor::for_rank(0, 2).handle(&CollectiveMsg::Op(op()), &memory());
    assert_eq!(misplaced, None);
    let (action, _) =
        CollectiveActor::for_rank(0, 2).handle(&CollectiveMsg::QueryCapabilities { reply: 0 }, &memory());
    assert!(matches!(action, CollectiveAction::Probe));
    match CollectiveActor::for_rank(0, 2).handle(&CollectiveMsg::BeginGroup { reply: 0 }, &memory()).0 {
        CollectiveAction::Run(run) => assert_eq!(drive(run).0, vec![CollStep::GroupStart]),
        _ => panic!("wrong action"),
    }

    let mock = CollectiveActor::mock();
    assert!(matches!(
        mock.handle(&CollectiveMsg::Op(op()), &memory()).0,
        CollectiveAction::DropOp { dtype: DispatchDType::F32 }
    ));
    match mock.handle(&CollectiveMsg::EndGroup { reply: 0 }, &memory()).0 {
        CollectiveAction::Reply(e) => {
            assert_eq!(e.panic_message(), "Unrecoverable: CollectiveActor in mock mode");
        }
        _ => panic!("wrong action"),
    }
    match mock.handle(&CollectiveMsg::QueryCapabilities { reply: 0 }, &memory()).0 {
        CollectiveAction::ReplyCapabilities(c) => assert_eq!(c, NcclCapabilities::zeroed()),
        _ => panic!("wrong action"),
    }
    assert!(consumed_comm().starts_with("Unrecoverable: CollectiveActor restart"));
}

#[test]
fn premultiplied_sums_need_a_scalar() {
    let p = PreMulSumOp::<F32>::plan(&buffer(8, 1), &memory()).ok().unwrap();
    assert_eq!((p.scalar, p.data_type), (8, NcclDataType::Float32));
    assert_eq!(
        PreMulSumOp::<F32>::plan(&buffer(8, 0), &memory()).err().unwrap().panic_message(),
        "Unrecoverable: PreMulSumOp scalar buffer is empty"
    );
    let op = PreMulSumOp::<F32>::new(buffer(8, 1), Ok(5)).ok().unwrap();
    assert_eq!(op.handle(), 5);
    let e = op.destroy(Err("x".into())).unwrap_err();
    assert_eq!(e.panic_message(), "cudarc nccl error: ncclRedOpDestroy: x");
    let e = PreMulSumOp::<F32>::new(buffer(8, 1), Err("x".into())).err().unwrap();
    assert_eq!(e.panic_message(), "cudarc nccl error: ncclRedOpCreatePreMulSum: x");
}

#[test]
fn huge_exchanges_are_refused() {
    let req = AllToAllRequest {
        send: buffer(1, 10),
        recv: buffer(2, 10),
        count: usize::MAX,
        reply: 0,
    };
    assert_eq!(
        req.op().body.dispatch(2, &memory()).err().unwrap().panic_message(),
        format!(
            "Unrecoverable: AllToAll: buffer length < world_size (2) * count ({})",
            usize::MAX
        )
    );
    let mut mem = memory();
    let _other = req.recv.clone(&mut mem);
    assert_eq!(
        req.op().body.dispatch(2, &mem).err().unwrap().panic_message(),
        "Unrecoverable: AllToAll recv buffer has multiple live references"
    );
    let op = all_to_allv(vec![2], vec![usize::MAX], vec![1], vec![0]).into_op();
    let (_, reply) = drive(op.body.dispatch(1, &memory()).ok().unwrap());
    assert_eq!(
        reply.unwrap_err().panic_message(),
        "Unrecoverable: AllToAllv: send shard for peer 0 overruns buffer"
    );
    let op = all_to_allv(vec![1], vec![0], vec![usize::MAX], vec![usize::MAX]).into_op();
    let (_, reply) = drive(op.body.dispatch(1, &memory()).ok().unwrap());
    assert_eq!(
        reply.unwrap_err().panic_message(),
        "Unrecoverable: AllToAllv: recv shard from peer 0 overruns buffer"
    );
    let op = all_to_allv(vec![1, 2], vec![usize::MAX, 0], vec![1], vec![0]).into_op();
    let actor = CollectiveActor::for_rank(0, 1);
    match actor.handle(&CollectiveMsg::Op(op), &memory()).0 {
        CollectiveAction::Reply(e) => assert_eq!(
            e.panic_message(),
            "Unrecoverable: AllToAllv: counts/offsets must each have length world_size (1)"
        ),
        _ => panic!("wrong action"),
    }
}

#[test]
fn clones_are_no_write_targets() {
    let mut mem = memory();
    let req = AllReduceRequest { tensor: buffer(1, 4), op: ReduceOp::Sum, reply: 0 };
    let other = req.tensor.clone(&mut mem);
    assert_eq!(
        req.op().body.dispatch(1, &mem).err().unwrap().panic_message(),
        "Unrecoverable: AllReduce tensor has multiple live references"
    );
    other.release(&mut mem);
    assert!(req.op().body.dispatch(1, &mem).is_ok());
}

#[test]
fn requests_from_before_a_rebuild_are_refused() {
    let mut mem = memory();
    let msg = CollectiveMsg::AllReduceF32 { tensor: buffer(1, 4), op: ReduceOp::Sum, reply: 0 };
    let mut state = DeviceState::new(0);
    state.bump_generation();
    mem.set_device(0, state);
    match CollectiveActor::for_rank(0, 1).handle(&msg, &mem).0 {
        CollectiveAction::Reply(GpuError::GpuRefStale(why)) => assert_eq!(why, "context rebuilt"),
        _ => panic!("wrong action"),
    }
}

#[test]
fn guards_share_their_tracker() {
    let mut tracker = GroupTracker { begins: 7, ends: 4 };
    let outer = GroupGuard::begin_inert(Some(&mut tracker));
    let inner = GroupGuard::begin_inert(Some(&mut tracker));
    assert_eq!((tracker.begins, tracker.ends), (9, 4));
    outer.commit(Some(&mut tracker));
    inner.leave_scope(Some(&mut tracker));
    assert_eq!((tracker.begins, tracker.ends), (9, 6));
}
