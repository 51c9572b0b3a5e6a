use atomr_accel_cuda::dtype::{
    AccelDtype, Bf16, CublasComputeType, CudaDataType, CudaDtype, CudnnSupported, DType, F8E4m3,
    FftSupported, GemmSupported, Identities, NcclDataType, NcclReduceSupported, C32, C64, F16, F32,
    F64,
};

#[test]
fn cuda_data_type_round_trip() {
    assert_eq!(<F32 as AccelDtype>::kind(), DType::F32);
    assert_eq!(<F32 as CudaDtype>::cuda_data_type(), CudaDataType::R32F);
    assert_eq!(<F64 as CudaDtype>::cuda_data_type(), CudaDataType::R64F);
    assert_eq!(<F32 as CudaDtype>::cuda_type_name(), "float");
    assert_eq!(<F64 as CudaDtype>::cuda_type_name(), "double");
}

#[test]
fn integer_compute_types() {
    assert_eq!(<i32 as CudaDtype>::cublas_compute_type(), CublasComputeType::Compute32I);
}

#[test]
fn f16_mappings() {
    assert_eq!(<F16 as CudaDtype>::cuda_data_type(), CudaDataType::R16F);
    assert_eq!(<Bf16 as CudaDtype>::cuda_data_type(), CudaDataType::R16BF);
    assert_eq!(<F16 as CudaDtype>::cuda_type_name(), "__half");
    assert_eq!(<Bf16 as CudaDtype>::cuda_type_name(), "__nv_bfloat16");
}

fn assert_capability_bounds<G, C, F, N>()
where
    G: GemmSupported,
    C: CudnnSupported,
    F: FftSupported,
    N: NcclReduceSupported,
{
}

#[test]
fn capability_compile_time_check() {
    assert_capability_bounds::<F32, F32, F32, F32>();
    assert_capability_bounds::<F64, F64, F64, F64>();
}

#[test]
fn complex_dtype_size_and_layout() {
    assert_eq!(<C32 as AccelDtype>::size(), 8);
    assert_eq!(<C64 as AccelDtype>::size(), 16);
    assert_eq!(<C32 as AccelDtype>::kind(), DType::F32);
    assert_eq!(<C64 as AccelDtype>::kind(), DType::F64);
    assert_eq!(<C32 as AccelDtype>::name(), "complex64");
    assert_eq!(<C64 as AccelDtype>::name(), "complex128");

    assert_eq!(std::mem::size_of::<C32>(), 8);
    assert_eq!(std::mem::size_of::<C64>(), 16);
    assert_eq!(std::mem::align_of::<C32>(), std::mem::align_of::<f32>());
    assert_eq!(std::mem::align_of::<C64>(), std::mem::align_of::<f64>());
}

#[test]
fn complex_cuda_data_type_mapping() {
    assert_eq!(<C32 as CudaDtype>::cuda_data_type(), CudaDataType::C32F);
    assert_eq!(<C64 as CudaDtype>::cuda_data_type(), CudaDataType::C64F);
    assert_eq!(<C32 as CudaDtype>::cuda_type_name(), "cuComplex");
    assert_eq!(<C64 as CudaDtype>::cuda_type_name(), "cuDoubleComplex");
    assert_eq!(<C32 as CudaDtype>::cublas_compute_type(), CublasComputeType::Compute32F);
    assert_eq!(<C64 as CudaDtype>::cublas_compute_type(), CublasComputeType::Compute64F);
}

#[test]
fn complex_fft_supported_compile_time_check() {
    fn check<T: FftSupported>() {}
    check::<C32>();
    check::<C64>();
}

fn f32_bits(v: f32) -> F32 {
    F32(v.to_bits())
}

fn f64_bits(v: f64) -> F64 {
    F64(v.to_bits())
}

fn c32_parts(c: C32) -> (f32, f32) {
    (f32::from_bits(c.re().0), f32::from_bits(c.im().0))
}

fn c64_parts(c: C64) -> (f64, f64) {
    (f64::from_bits(c.re().0), f64::from_bits(c.im().0))
}

#[test]
fn complex_zero_one_nan_identities() {
    assert_eq!(c32_parts(<C32 as Identities>::zero()), (0.0, 0.0));
    assert_eq!(c32_parts(<C32 as Identities>::one()), (1.0, 0.0));
    assert!(<C32 as Identities>::nan()
        .map(|n| c32_parts(n).0.is_nan() && c32_parts(n).1.is_nan())
        .unwrap_or(false));
    assert_eq!(c64_parts(<C64 as Identities>::zero()), (0.0, 0.0));
    assert_eq!(c64_parts(<C64 as Identities>::one()), (1.0, 0.0));
}

#[test]
fn small_types_have_their_sizes_and_tags() {
    assert_eq!(<i8 as AccelDtype>::size(), 1);
    assert_eq!(<F16 as AccelDtype>::size(), 2);
    assert_eq!(<u64 as AccelDtype>::size(), 8);
    assert_eq!(<F8E4m3 as AccelDtype>::kind(), DType::F8E4m3);
    assert_eq!(<u32 as CudaDtype>::nccl_data_type(), NcclDataType::Uint32);
}

#[test]
fn not_a_number_is_told_by_its_bits() {
    assert!(f32_bits(f32::NAN).is_nan());
    assert!(!f32_bits(f32::INFINITY).is_nan());
    assert!(!f32_bits(-0.0).is_nan());
    assert!(f64_bits(f64::NAN).is_nan());
    assert!(!f64_bits(f64::MAX).is_nan());
}
