use atomr_accel_cuda::device::DeviceState;
use atomr_accel_cuda::dtype::{AccelDtype, Bf16, CudaDataType, DTypeKind, F16, F32, F64};
use atomr_accel_cuda::error::GpuError;
use atomr_accel_cuda::gpu_ref::{DeviceSlice, GpuRef, MemoryTable};
use atomr_accel_cuda::kernel::blas::Scalar;
use atomr_accel_cuda::kernel::blas_lt::actor::{
    BlasLtAction, BlasLtActor, BlasLtInner, BlasLtMsg, MatmulF32,
};
use atomr_accel_cuda::kernel::blas_lt::epilogue::{Activation, CublasLtEpilogue, Epilogue};
use atomr_accel_cuda::kernel::blas_lt::heuristic::{
    HeuristicCacheRef, HeuristicEntry, HeuristicKey, DEFAULT_TOP_K,
};
use atomr_accel_cuda::kernel::blas_lt::matmul::{
    matmul_enqueue_error, AnyMatmul, MatmulConfig, MatmulRequest,
};
use atomr_accel_cuda::kernel::blas_lt::scaling::{
    null_scale_ptr, ScaleSet, A_SCALE_POINTER, B_SCALE_POINTER, C_SCALE_POINTER, D_SCALE_POINTER,
};
use atomr_accel_cuda::kernel::blas_lt::workspace::{size_class, Acquired, WorkspacePool};

#[test]
fn epilogue_round_trip() {
    let cases = [
        (Epilogue::Identity, CublasLtEpilogue::Default),
        (Epilogue::Relu, CublasLtEpilogue::Relu),
        (Epilogue::Bias, CublasLtEpilogue::Bias),
        (Epilogue::ReluBias, CublasLtEpilogue::ReluBias),
        (Epilogue::ReluAux, CublasLtEpilogue::ReluAux),
        (Epilogue::ReluAuxBias, CublasLtEpilogue::ReluAuxBias),
        (Epilogue::Gelu, CublasLtEpilogue::Gelu),
        (Epilogue::GeluAux, CublasLtEpilogue::GeluAux),
        (Epilogue::GeluBias, CublasLtEpilogue::GeluBias),
        (Epilogue::GeluAuxBias, CublasLtEpilogue::GeluAuxBias),
        (Epilogue::DReluBgrad, CublasLtEpilogue::DReluBgrad),
        (Epilogue::DGeluBgrad, CublasLtEpilogue::DGeluBgrad),
        (Epilogue::BgradA, CublasLtEpilogue::BgradA),
        (Epilogue::BgradB, CublasLtEpilogue::BgradB),
    ];
    for (lhs, rhs) in cases {
        assert_eq!(lhs.to_cublas(), rhs, "{lhs:?}");
    }
}

#[test]
fn epilogue_capability_flags() {
    assert!(Epilogue::Bias.uses_bias());
    assert!(!Epilogue::Identity.uses_bias());
    assert!(Epilogue::ReluBias.uses_bias());
    assert!(Epilogue::GeluAux.uses_aux());
    assert!(Epilogue::DReluBgrad.produces_bias_grad());
    assert!(Epilogue::BgradA.produces_bias_grad());
    assert!(!Epilogue::Relu.produces_bias_grad());
}

#[test]
fn epilogue_default_is_none_variant() {
    assert_eq!(Epilogue::Identity.to_cublas(), CublasLtEpilogue::Default);
}

fn dummy_entry(waves: f32) -> HeuristicEntry {
    HeuristicEntry {
        algo: [0u64; 8],
        workspace_size: 4 * 1024 * 1024,
        waves_count: F32(waves.to_bits()),
    }
}

fn k(m: i32, n: i32, k: i32) -> HeuristicKey {
    HeuristicKey::new(m, n, k, DTypeKind::F32, false, false, Epilogue::Identity, 0)
}

#[test]
fn cache_lru_hit_miss() {
    let mut cache = HeuristicCacheRef::with_capacity(2);
    assert!(cache.is_empty());

    let k1 = k(64, 64, 64);
    let k2 = k(128, 128, 128);
    let k3 = k(256, 256, 256);

    assert!(cache.get(&k1).is_none());
    cache.insert(k1, dummy_entry(1.5));
    cache.insert(k2, dummy_entry(2.5));
    assert_eq!(cache.len(), 2);

    let hit = cache.get(&k1).expect("k1 should hit");
    assert_eq!(f32::from_bits(hit.waves_count.0), 1.5);

    cache.insert(k3, dummy_entry(3.5));
    assert_eq!(cache.len(), 2);
    assert!(cache.get(&k2).is_none(), "k2 should have been evicted");
    assert!(cache.get(&k1).is_some(), "k1 should still be present");
    assert!(cache.get(&k3).is_some(), "k3 should be present");
}

#[test]
fn capacity_min_one() {
    let mut cache = HeuristicCacheRef::with_capacity(0);
    cache.insert(k(1, 1, 1), dummy_entry(0.0));
    assert_eq!(cache.len(), 1);
}

#[test]
fn distinct_keys_for_different_axes() {
    let base = k(64, 64, 64);
    let with_trans = HeuristicKey { transa: true, ..base };
    let with_arch = HeuristicKey { sm_arch: 90, ..base };
    let with_epi = HeuristicKey { epilogue: Epilogue::Bias, ..base };
    assert_ne!(base, with_trans);
    assert_ne!(base, with_arch);
    assert_ne!(base, with_epi);
}

#[test]
fn an_insertion_replaces_the_entry_of_its_key() {
    let mut cache = HeuristicCacheRef::default_size();
    assert_eq!(cache.top_k(), DEFAULT_TOP_K);
    cache.insert(k(1, 2, 3), dummy_entry(1.0));
    cache.insert(k(1, 2, 3), dummy_entry(2.0));
    assert_eq!(cache.len(), 1);
    let hit = cache.get(&k(1, 2, 3)).unwrap();
    assert_eq!(f32::from_bits(hit.waves_count.0), 2.0);
}

fn buffer<T>(ptr: u64) -> GpuRef<T> {
    let state = DeviceState::new(0);
    GpuRef::new(DeviceSlice { ptr, len: 16 }, 0, &state, ptr, &mut MemoryTable::new())
}

/// A live device with ten buffers on it, each with a single reference.
fn memory() -> MemoryTable {
    let mut mem = MemoryTable::new();
    mem.set_device(0, DeviceState::new(0));
    for buffer in 1..=10 {
        mem.retain(buffer);
    }
    mem
}

fn request() -> MatmulRequest<F32> {
    MatmulRequest {
        a: buffer(1),
        b: buffer(2),
        c: buffer(3),
        d: None,
        m: 4,
        n: 5,
        k: 6,
        alpha: F32(1f32.to_bits()),
        beta: F32(0),
        transa: false,
        transb: true,
        lda: 4,
        ldb: 5,
        ldc: 4,
        ldd: 4,
        epilogue: Epilogue::ReluBias,
        bias: Some(buffer(7)),
        gelu_aux: None,
        scales: ScaleSet::empty(),
        workspace_size: 0,
        reply: 0,
    }
}

#[test]
fn matmul_request_dispatches_for_f32_f16_bf16() {
    assert_eq!(<F32 as AccelDtype>::kind(), DTypeKind::F32);
    assert_eq!(<F64 as AccelDtype>::kind(), DTypeKind::F64);
    assert_eq!(<F16 as AccelDtype>::kind(), DTypeKind::F16);
    assert_eq!(<Bf16 as AccelDtype>::kind(), DTypeKind::Bf16);
    let any = AnyMatmul::F32(request());
    assert_eq!(any.dtype_kind(), DTypeKind::F32);
}

#[test]
fn blas_lt_msg_matmul_constructor() {
    let msg = BlasLtMsg::matmul(AnyMatmul::F32(request()));
    assert!(matches!(msg, BlasLtMsg::Matmul(_)));
}

#[test]
fn products_reach_the_library_whole() {
    let mut actor = BlasLtActor::new(9, Some(9));
    match &actor.inner {
        BlasLtInner::Real(live) => {
            assert_eq!(live.sm_arch, 90);
            assert_eq!(live.heuristic_cache.len(), 0);
            assert_eq!(live.heuristic_cache.top_k(), 3);
            assert_eq!(live.workspace_pool.pooled_slabs(), 0);
        }
        BlasLtInner::Mock => panic!("wrong mode"),
    }
    let msg = BlasLtMsg::matmul(AnyMatmul::F32(request()));
    match actor.handle(&msg, &mut memory()) {
        BlasLtAction::Launch(call) => {
            assert_eq!((call.a, call.b, call.c, call.bias), (1, 2, 3, Some(7)));
            assert_eq!((call.config.m, call.config.n, call.config.k), (4, 5, 6));
            assert_eq!((call.config.transa, call.config.transb), (false, true));
            assert_eq!(call.activation, Some(Activation::Relu));
            assert_eq!((call.config.stride_a, call.config.batch_size), (None, None));
        }
        _ => panic!("the product should be launched"),
    }
    assert_eq!(
        matmul_enqueue_error("x").panic_message(),
        "cudarc cublaslt error: matmul: x"
    );
}

#[test]
fn shared_products_are_refused() {
    let mut actor = BlasLtActor::new(9, None);
    let mut mem = memory();
    let req = request();
    let _other = req.c.clone(&mut mem);
    match actor.handle(&BlasLtMsg::matmul(AnyMatmul::F32(req)), &mut mem) {
        BlasLtAction::Reply(e) => {
            assert_eq!(
                e.panic_message(),
                "Unrecoverable: BlasLt C has multiple live references"
            );
        }
        _ => panic!("wrong action"),
    }
}

#[test]
fn scale_set_empty_default() {
    let s = ScaleSet::default();
    assert!(s.is_empty());
    assert!(s.a.is_none());
}

#[test]
fn scale_set_builders() {
    let s = ScaleSet::empty().with_a(0x10).with_d(0x10);
    assert!(!s.is_empty());
    assert!(s.a.is_some());
    assert!(s.b.is_none());
    assert!(s.c.is_none());
    assert!(s.d.is_some());
}

#[test]
fn scale_pointer_attribute_setting() {
    assert_eq!(A_SCALE_POINTER, 17);
    assert_eq!(B_SCALE_POINTER, 18);
    assert_eq!(C_SCALE_POINTER, 19);
    assert_eq!(D_SCALE_POINTER, 20);

    let s = ScaleSet::empty().with_a(1).with_b(2).with_c(3).with_d(4);
    assert_eq!(s.a, Some(1));
    assert_eq!(s.b, Some(2));
    assert_eq!(s.c, Some(3));
    assert_eq!(s.d, Some(4));
    let mut run = s.apply();
    let mut seen = Vec::new();
    while let Some(step) = run.current() {
        seen.push((step.attribute, step.ptr));
        run.report(true);
    }
    assert_eq!(seen, vec![(17, 1), (18, 2), (19, 3), (20, 4)]);
    assert!(run.is_complete());

    let empty = ScaleSet::empty();
    assert!(empty.is_empty());
    assert!(empty.apply().current().is_none());
}

#[test]
fn null_scale_ptr_is_null() {
    assert_eq!(null_scale_ptr(), 0);
}

#[test]
fn size_class_rounds_up() {
    assert_eq!(size_class(1), 1024);
    assert_eq!(size_class(1024), 1024);
    assert_eq!(size_class(1025), 2048);
    assert_eq!(size_class(4 * 1024 * 1024), 4 * 1024 * 1024);
    assert_eq!(size_class(4 * 1024 * 1024 + 1), 8 * 1024 * 1024);
    assert_eq!(size_class(0), 1024);
}

fn slab(pool: &mut WorkspacePool, bytes: usize, handle: u64) -> bool {
    match pool.acquire(bytes) {
        Acquired::Allocate { class } => {
            let lease = WorkspacePool::allocated(class, Ok(handle)).ok().unwrap();
            pool.release(lease)
        }
        Acquired::Pooled(_) => panic!("nothing is pooled yet"),
    }
}

#[test]
fn workspace_pool_recycles() {
    let mut pool = WorkspacePool::with_capacity(2);
    assert_eq!(pool.pooled_slabs(), 0);

    assert!(slab(&mut pool, 4 * 1024 * 1024, 1));
    assert_eq!(pool.pooled_bytes(), 4 * 1024 * 1024);

    assert!(slab(&mut pool, 33_554_432, 2));
    assert_eq!(pool.pooled_bytes(), 4 * 1024 * 1024 + 33_554_432);
    assert_eq!(pool.pooled_slabs(), 2);

    match pool.acquire(33_554_432) {
        Acquired::Pooled(lease) => {
            assert_eq!(lease.slab.handle, 2);
            assert_eq!(lease.size(), 33_554_432);
        }
        Acquired::Allocate { .. } => panic!("the slab should be recycled"),
    }
    assert_eq!(pool.pooled_bytes(), 4 * 1024 * 1024);
}

#[test]
fn pool_capacity_clamps_to_one() {
    let mut pool = WorkspacePool::with_capacity(0);
    let first = WorkspacePool::allocated(1024, Ok(1)).ok().unwrap();
    let second = WorkspacePool::allocated(1024, Ok(2)).ok().unwrap();
    assert!(pool.release(first));
    assert!(!pool.release(second));
    assert_eq!(pool.pooled_slabs(), 1);
}

#[test]
fn failed_allocations_are_reported() {
    let e = WorkspacePool::allocated(1024, Err("full".into())).err().unwrap();
    assert!(matches!(e, GpuError::OutOfMemory(_)));
}

#[test]
fn without_a_gpu_products_are_not_made() {
    let mut mock = BlasLtActor::mock();
    let msg = BlasLtMsg::matmul(AnyMatmul::F32(request()));
    assert!(matches!(mock.handle(&msg, &mut memory()), BlasLtAction::DropOp));
}

#[test]
fn batches_of_the_older_surface_reach_the_library() {
    let one = Scalar { data_type: CudaDataType::R32F, bits: 1f32.to_bits() as u64 };
    let cfg = MatmulConfig {
        transa: false,
        transb: false,
        transc: false,
        m: 4,
        n: 4,
        k: 4,
        alpha: one,
        lda: 4,
        ldb: 4,
        beta: one,
        ldc: 4,
        stride_a: Some(16),
        stride_b: Some(32),
        stride_c: Some(64),
        stride_bias: Some(4),
        batch_size: Some(3),
    };
    let mut actor = BlasLtActor::new(9, None);
    let msg = BlasLtMsg::MatmulF32(MatmulF32 {
        cfg,
        a: buffer(1),
        b: buffer(2),
        c: buffer(3),
        bias: None,
        activation: None,
        reply: 0,
    });
    let mut mem = memory();
    match actor.handle(&msg, &mut mem) {
        BlasLtAction::Launch(call) => assert_eq!(call.config, cfg),
        _ => panic!("the products should be launched"),
    }
    match msg {
        BlasLtMsg::MatmulF32(req) => assert_eq!(req.c.last_write_stream(&mem), Some(9)),
        _ => panic!("wrong message"),
    }
}
