use atomr_accel_cuda::device::device_actor::SgemmRequest;
use atomr_accel_cuda::device::DeviceState;
use atomr_accel_cuda::dtype::{
    Bf16, CudaDataType, Element, GemmSupported, ScalarBits, F16, F32, F64,
};
use atomr_accel_cuda::error::GpuError;
use atomr_accel_cuda::gpu_ref::{DeviceSlice, GpuRef, MemoryTable};
use atomr_accel_cuda::kernel::blas::actor::{enqueue_error, enqueue_sgemm, sgemm_enqueue_error};
use atomr_accel_cuda::kernel::blas::scaling::PerTensorScale;
use atomr_accel_cuda::kernel::blas::{
    AnyGemm, AnyL1, AxpyRequest, BlasAction, BlasActor, BlasCall, BlasDispatch, BlasMsg,
    CublasDiagType, CublasFillMode, CublasOperation, CublasSideMode, DotRequest, GeamRequest,
    GemmRequest, GemmStridedBatchedRequest, GemvRequest, GerRequest, IamaxRequest, IaminRequest,
    Nrm2Request, ScalRequest, SyrkRequest, TrsmRequest,
};

fn buffer<T>(ptr: u64) -> GpuRef<T> {
    let state = DeviceState::new(0);
    GpuRef::new(DeviceSlice { ptr, len: 16 }, 0, &state, ptr, &mut MemoryTable::new())
}

/// A live device with ten buffers on it, each with a single reference.
fn memory() -> MemoryTable {
    let mut mem = MemoryTable::new();
    mem.set_device(0, DeviceState::new(0));
    for buffer in 1..=10 {
        mem.retain(buffer);
    }
    mem
}

fn one32() -> F32 {
    F32(1f32.to_bits())
}

fn one64() -> F64 {
    F64(1f64.to_bits())
}

fn stub_request<T: GemmSupported + ScalarBits>(one: T, zero: T) -> GemmRequest<T> {
    GemmRequest {
        a: buffer(1),
        b: buffer(2),
        c: buffer(3),
        m: 1,
        n: 1,
        k: 1,
        alpha: one,
        beta: zero,
        trans_a: CublasOperation::N,
        trans_b: CublasOperation::N,
        lda: 1,
        ldb: 1,
        ldc: 1,
        reply: 0,
    }
}

fn assert_send<T: Send>() {}

#[test]
fn gemm_request_dispatches_for_f32_f64_f16_bf16() {
    assert_send::<GemmRequest<F32>>();
    assert_send::<GemmRequest<F64>>();
    assert_send::<GemmRequest<F16>>();
    assert_send::<GemmRequest<Bf16>>();

    let req = AnyGemm::F32(stub_request(one32(), F32(0)));
    assert_eq!(req.op_name(), "gemm");
    assert_eq!(req.dtype_name(), "f32");
    let req = AnyGemm::F64(stub_request(one64(), F64(0)));
    assert_eq!(req.dtype_name(), "f64");
    let req = AnyGemm::F16(stub_request(F16(0x3c00), F16(0)));
    assert_eq!(req.dtype_name(), "f16");
    let req = AnyGemm::Bf16(stub_request(Bf16(0x3f80), Bf16(0)));
    assert_eq!(req.dtype_name(), "bf16");
}

fn sgemm() -> SgemmRequest {
    SgemmRequest {
        a: buffer(1),
        b: buffer(2),
        c: buffer(3),
        m: 2,
        n: 3,
        k: 4,
        alpha: one32(),
        beta: F32(0),
        reply: 0,
    }
}

#[test]
fn deprecated_sgemm_alias_still_constructs() {
    let mut mem = memory();
    let msg = BlasMsg::Sgemm(sgemm());
    match BlasActor::new(9).handle_msg(&msg, &mut mem) {
        BlasAction::Launch(BlasCall::Gemm { element, config, a, b, c }) => {
            assert_eq!(element, Element::F32);
            assert_eq!((config.m, config.n, config.k), (2, 3, 4));
            assert_eq!((config.lda, config.ldb, config.ldc), (2, 4, 2));
            assert_eq!((a, b, c), (1, 2, 3));
        }
        _ => panic!("the product should be launched"),
    }
    match msg {
        BlasMsg::Sgemm(req) => assert_eq!(req.c.last_write_stream(&mem), Some(9)),
        _ => unreachable!(),
    }
}

#[test]
fn strided_batched_request_round_trip() {
    let req = GemmStridedBatchedRequest::<F32> {
        a: buffer(1),
        b: buffer(2),
        c: buffer(3),
        m: 1,
        n: 1,
        k: 1,
        alpha: one32(),
        beta: F32(0),
        trans_a: CublasOperation::N,
        trans_b: CublasOperation::N,
        lda: 1,
        ldb: 1,
        ldc: 1,
        stride_a: 1,
        stride_b: 1,
        stride_c: 1,
        batch_size: 4,
        reply: 0,
    };
    assert_eq!(req.op_name(), "gemm_strided_batched");
    assert_eq!(req.dtype_name(), "f32");
    match req.dispatch(&mut memory(), 1) {
        Ok(BlasCall::GemmStridedBatched { batch_size, stride_c, .. }) => {
            assert_eq!((batch_size, stride_c), (4, 1));
        }
        _ => panic!("wrong call"),
    }
}

#[test]
fn axpy_request_round_trip() {
    let req = AxpyRequest::<F32> {
        n: 8,
        alpha: one32(),
        x: buffer(1),
        incx: 1,
        y: buffer(2),
        incy: 1,
        reply: 0,
    };
    assert_eq!(req.op_name(), "axpy");
    assert_eq!(req.dtype_name(), "f32");
    let req = AxpyRequest::<F64> {
        n: 8,
        alpha: one64(),
        x: buffer(1),
        incx: 1,
        y: buffer(2),
        incy: 1,
        reply: 0,
    };
    assert_eq!(req.dtype_name(), "f64");
}

#[test]
fn scal_request_round_trip() {
    let req = ScalRequest::<F32> {
        n: 4,
        alpha: F32(2f32.to_bits()),
        x: buffer(1),
        incx: 1,
        reply: 0,
    };
    assert_eq!(req.op_name(), "scal");
    let mut mem = memory();
    match req.dispatch(&mut mem, 3) {
        Ok(BlasCall::ScalEx { n, alpha, x, execution }) => {
            assert_eq!(n, 4);
            assert_eq!(alpha.bits, 2f32.to_bits() as u64);
            assert_eq!(alpha.data_type, CudaDataType::R32F);
            assert_eq!((x.ptr, x.inc), (1, 1));
            assert_eq!(execution, CudaDataType::R32F);
        }
        _ => panic!("wrong call"),
    }
    assert_eq!(req.x.last_write_stream(&mem), Some(3));
}

#[test]
fn dot_nrm2_asum_iamax_request_round_trip() {
    let req =
        DotRequest::<F32> { n: 4, x: buffer(1), incx: 1, y: buffer(2), incy: 1, reply: 0 };
    assert_eq!(req.op_name(), "dot");
    let req = Nrm2Request::<F32> { n: 4, x: buffer(1), incx: 1, reply: 0 };
    assert_eq!(req.op_name(), "nrm2");
    let req = IamaxRequest::<F32> { n: 4, x: buffer(1), incx: 1, reply: 0 };
    assert_eq!(req.op_name(), "iamax");
    let req = IaminRequest::<F32> { n: 4, x: buffer(1), incx: 1, reply: 0 };
    assert_eq!(req.op_name(), "iamin");
}

#[test]
fn gemv_request_round_trip() {
    let req = GemvRequest::<F32> {
        trans: CublasOperation::N,
        m: 4,
        n: 4,
        alpha: one32(),
        beta: F32(0),
        a: buffer(1),
        lda: 4,
        x: buffer(2),
        incx: 1,
        y: buffer(3),
        incy: 1,
        reply: 0,
    };
    assert_eq!(req.op_name(), "gemv");
    assert_eq!(req.dtype_name(), "f32");
    let req = GemvRequest::<F64> {
        trans: CublasOperation::N,
        m: 4,
        n: 4,
        alpha: one64(),
        beta: F64(0),
        a: buffer(1),
        lda: 4,
        x: buffer(2),
        incx: 1,
        y: buffer(3),
        incy: 1,
        reply: 0,
    };
    assert_eq!(req.dtype_name(), "f64");
}

#[test]
fn ger_request_round_trip() {
    let req = GerRequest::<F32> {
        m: 4,
        n: 4,
        alpha: one32(),
        x: buffer(1),
        incx: 1,
        y: buffer(2),
        incy: 1,
        a: buffer(3),
        lda: 4,
        reply: 0,
    };
    assert_eq!(req.op_name(), "ger");
}

#[test]
fn geam_request_round_trip() {
    let req = GeamRequest::<F32> {
        trans_a: CublasOperation::N,
        trans_b: CublasOperation::N,
        m: 4,
        n: 4,
        alpha: one32(),
        a: buffer(1),
        lda: 4,
        beta: one32(),
        b: buffer(2),
        ldb: 4,
        c: buffer(3),
        ldc: 4,
        reply: 0,
    };
    assert_eq!(req.op_name(), "geam");
    assert_eq!(req.dtype_name(), "f32");
    let req = GeamRequest::<F64> {
        trans_a: CublasOperation::N,
        trans_b: CublasOperation::N,
        m: 4,
        n: 4,
        alpha: one64(),
        a: buffer(1),
        lda: 4,
        beta: one64(),
        b: buffer(2),
        ldb: 4,
        c: buffer(3),
        ldc: 4,
        reply: 0,
    };
    assert_eq!(req.dtype_name(), "f64");
}

#[test]
fn syrk_request_round_trip() {
    let req = SyrkRequest::<F32> {
        uplo: CublasFillMode::Lower,
        trans: CublasOperation::N,
        n: 4,
        k: 4,
        alpha: one32(),
        a: buffer(1),
        lda: 4,
        beta: F32(0),
        c: buffer(2),
        ldc: 4,
        reply: 0,
    };
    assert_eq!(req.op_name(), "syrk");
}

#[test]
fn trsm_request_round_trip() {
    let req = TrsmRequest::<F32> {
        side: CublasSideMode::Left,
        uplo: CublasFillMode::Lower,
        trans: CublasOperation::N,
        diag: CublasDiagType::NonUnit,
        m: 4,
        n: 4,
        alpha: one32(),
        a: buffer(1),
        lda: 4,
        b: buffer(2),
        ldb: 4,
        reply: 0,
    };
    assert_eq!(req.op_name(), "trsm");
}

#[test]
fn per_tensor_scale_default_is_one() {
    let s = PerTensorScale::default();
    assert_eq!(f32::from_bits(s.scale.0), 0.0);
}

#[test]
fn shared_targets_are_refused() {
    let mut mem = memory();
    let req = stub_request(one32(), F32(0));
    let other = req.c.clone(&mut mem);
    assert_eq!(
        req.plan(&mut mem, 1).err().unwrap().panic_message(),
        "Unrecoverable: GEMM target buffer C has more than one live reference; caller must hold the unique GpuRef to write to it"
    );
    assert_eq!(req.c.last_write_stream(&mem), None);
    other.release(&mut mem);
    assert!(req.plan(&mut mem, 1).is_ok());
    assert_eq!(req.c.last_write_stream(&mem), Some(1));
}

#[test]
fn without_a_gpu_nothing_is_launched() {
    let mock = BlasActor::mock();
    let msg = stub_request(one32(), F32(0)).into_msg();
    assert!(matches!(mock.handle_msg(&msg, &mut memory()), BlasAction::DropOp { op_name: "gemm" }));
    let msg = BlasMsg::Sgemm(sgemm());
    match mock.handle_msg(&msg, &mut memory()) {
        BlasAction::Reply(e) => {
            assert_eq!(e.panic_message(), "Unrecoverable: Sgemm not supported in mock mode");
        }
        _ => panic!("wrong action"),
    }
    let msg = BlasMsg::L1(AnyL1::Nrm2F32(Nrm2Request {
        n: 1,
        x: buffer(1),
        incx: 1,
        reply: 0,
    }));
    assert!(matches!(mock.handle_msg(&msg, &mut memory()), BlasAction::DropOp { op_name: "nrm2" }));
}

#[test]
fn both_sgemm_paths_make_the_same_call() {
    let call = enqueue_sgemm(&sgemm(), &mut memory(), 9).ok().unwrap();
    let msg = BlasMsg::Sgemm(sgemm());
    match BlasActor::new(9).handle_msg(&msg, &mut memory()) {
        BlasAction::Launch(other) => assert!(call == other),
        _ => panic!("wrong action"),
    }
    assert_eq!(
        enqueue_error(&call, "x").panic_message(),
        "cudarc cublas error: gemm enqueue: x"
    );
    assert_eq!(
        sgemm_enqueue_error("x").panic_message(),
        "cudarc cublas error: sgemm enqueue: x"
    );
    assert_eq!(
        BlasActor::handle_failure("no"),
        "ContextPoisoned: CudaBlas::new failed: no"
    );
}

#[test]
fn stale_operands_are_refused() {
    let mut mem = memory();
    let msg = stub_request(one32(), F32(0)).into_msg();
    let mut state = DeviceState::new(0);
    state.bump_generation();
    mem.set_device(0, state);
    match BlasActor::new(1).handle_msg(&msg, &mut mem) {
        BlasAction::Reply(GpuError::GpuRefStale(why)) => assert_eq!(why, "context rebuilt"),
        _ => panic!("a request from before the rebuild should be refused"),
    }
    mem.drop_device(0);
    let req = stub_request(one32(), F32(0));
    assert!(matches!(req.plan(&mut mem, 1), Err(GpuError::GpuRefStale(_))));
}
