//! Element types of device buffers, their CUDA-side mappings and the
//! capability markers that say which library accepts which type.
//!
//! Floating-point elements are held by their bit patterns: [`F32`], [`F64`],
//! [`F16`] and [`Bf16`] are both the dtype parameter of a buffer and the
//! value of a scalar argument. [`Element`] names every element type at run
//! time and carries the mapping tables; [`CudaDtype`] is the same table
//! reached through a type parameter. The markers ([`GemmSupported`],
//! [`CudnnSupported`], and so on) keep an operation from being dispatched on
//! a type that its library does not take.

use vstd::prelude::*;

verus! {

/// Backend-agnostic dtype tag.
#[derive(Debug, Clone, Copy, PartialEq, Eq, Hash, Structural)]
pub enum DType {
    F32,
    F64,
    F16,
    Bf16,
    I8,
    I32,
    I64,
    U8,
    U32,
    U64,
    F8E4m3,
    F8E5m2,
}

/// Alias used by dispatchers that report the dtype kind of a request.
pub type DTypeKind = DType;

/// `cudaDataType_t`: element type in cuBLAS, cuBLASLt, cuSPARSE, cuSOLVER and
/// cuTENSOR descriptors.
#[derive(Debug, Clone, Copy, PartialEq, Eq, Hash, Structural)]
pub enum CudaDataType {
    R32F,
    R64F,
    R16F,
    R16BF,
    R8I,
    R8U,
    R32I,
    R32U,
    R64I,
    R64U,
    R8fE4m3,
    R8fE5m2,
    C32F,
    C64F,
}

/// `cublasComputeType_t`: accumulation type of a matrix product.
#[derive(Debug, Clone, Copy, PartialEq, Eq, Hash, Structural)]
pub enum CublasComputeType {
    Compute32F,
    Compute64F,
    Compute32I,
}

/// `cudnnDataType_t`: element type of a cuDNN tensor descriptor.
#[derive(Debug, Clone, Copy, PartialEq, Eq, Hash, Structural)]
pub enum CudnnDataType {
    Float,
    Double,
    Half,
    Bfloat16,
    Int8,
    Uint8,
    Int32,
    Int64,
    Fp8E4m3,
    Fp8E5m2,
}

/// `ncclDataType_t`: element type of a collective operation.
#[derive(Debug, Clone, Copy, PartialEq, Eq, Hash, Structural)]
pub enum NcclDataType {
    Float32,
    Float64,
    Float16,
    Bfloat16,
    Int8,
    Uint8,
    Int32,
    Uint32,
    Int64,
    Uint64,
    Float8e4m3,
    Float8e5m2,
}

/// `cusparseIndexType_t`: row and column index type of a sparse matrix.
#[derive(Debug, Clone, Copy, PartialEq, Eq, Hash, Structural)]
pub enum CusparseIndexType {
    Index32I,
    Index64I,
}

/// A 32-bit float, by its bit pattern.
#[derive(Debug, Clone, Copy, PartialEq, Eq, Hash, Structural)]
pub struct F32(pub u32);

/// A 64-bit float, by its bit pattern.
#[derive(Debug, Clone, Copy, PartialEq, Eq, Hash, Structural)]
pub struct F64(pub u64);

/// An IEEE half-precision float, by its bit pattern.
#[derive(Debug, Clone, Copy, PartialEq, Eq, Hash, Structural)]
pub struct F16(pub u16);

/// A bfloat16, by its bit pattern.
#[derive(Debug, Clone, Copy, PartialEq, Eq, Hash, Structural)]
pub struct Bf16(pub u16);

/// An 8-bit float with four exponent and three mantissa bits.
#[derive(Debug, Clone, Copy, PartialEq, Eq, Hash, Structural)]
pub struct F8E4m3(pub u8);

/// An 8-bit float with five exponent and two mantissa bits.
#[derive(Debug, Clone, Copy, PartialEq, Eq, Hash, Structural)]
pub struct F8E5m2(pub u8);

/// Interleaved single-precision complex: real part, then imaginary part.
#[derive(Debug, Clone, Copy)]
pub struct C32(pub [F32; 2]);

/// Interleaved double-precision complex: real part, then imaginary part.
#[derive(Debug, Clone, Copy)]
pub struct C64(pub [F64; 2]);

impl F32 {
    /// Bit pattern of 1.
    pub const ONE_BITS: u32 = 0x3f80_0000;

    /// Bit pattern of the quiet NaN.
    pub const NAN_BITS: u32 = 0x7fc0_0000;

    /// The pattern has an all-ones exponent and a non-zero mantissa.
    pub open spec fn nan_pattern(self) -> bool {
        self.0 % 0x8000_0000 > 0x7f80_0000
    }

    /// Whether the pattern is a NaN.
    pub fn is_nan(self) -> (b: bool)
        ensures
            b == self.nan_pattern(),
    {
        self.0 % 0x8000_0000 > 0x7f80_0000
    }
}

impl F64 {
    /// Bit pattern of 1.
    pub const ONE_BITS: u64 = 0x3ff0_0000_0000_0000;

    /// Bit pattern of the quiet NaN.
    pub const NAN_BITS: u64 = 0x7ff8_0000_0000_0000;

    /// The pattern has an all-ones exponent and a non-zero mantissa.
    pub open spec fn nan_pattern(self) -> bool {
        self.0 % 0x8000_0000_0000_0000 > 0x7ff0_0000_0000_0000
    }

    /// Whether the pattern is a NaN.
    pub fn is_nan(self) -> (b: bool)
        ensures
            b == self.nan_pattern(),
    {
        self.0 % 0x8000_0000_0000_0000 > 0x7ff0_0000_0000_0000
    }
}

impl C32 {
    /// From real and imaginary components.
    pub fn new(re: F32, im: F32) -> (c: C32)
        ensures
            c.0@ == seq![re, im],
    {
        C32([re, im])
    }

    pub fn re(self) -> (r: F32)
        ensures
            r == self.0@[0],
    {
        self.0[0]
    }

    pub fn im(self) -> (r: F32)
        ensures
            r == self.0@[1],
    {
        self.0[1]
    }
}

impl C64 {
    /// From real and imaginary components.
    pub fn new(re: F64, im: F64) -> (c: C64)
        ensures
            c.0@ == seq![re, im],
    {
        C64([re, im])
    }

    pub fn re(self) -> (r: F64)
        ensures
            r == self.0@[0],
    {
        self.0[0]
    }

    pub fn im(self) -> (r: F64)
        ensures
            r == self.0@[1],
    {
        self.0[1]
    }
}

/// Every element type a device buffer can have.
#[derive(Debug, Clone, Copy, PartialEq, Eq, Hash, Structural)]
pub enum Element {
    F32,
    F64,
    F16,
    Bf16,
    I8,
    U8,
    I32,
    U32,
    I64,
    U64,
    F8E4m3,
    F8E5m2,
    C32,
    C64,
}

impl Element {
    /// Dtype tag. Complex elements carry the tag of their scalar lane.
    pub open spec fn spec_kind(self) -> DType {
        match self {
            Element::F32 => DType::F32,
            Element::F64 => DType::F64,
            Element::F16 => DType::F16,
            Element::Bf16 => DType::Bf16,
            Element::I8 => DType::I8,
            Element::U8 => DType::U8,
            Element::I32 => DType::I32,
            Element::U32 => DType::U32,
            Element::I64 => DType::I64,
            Element::U64 => DType::U64,
            Element::F8E4m3 => DType::F8E4m3,
            Element::F8E5m2 => DType::F8E5m2,
            Element::C32 => DType::F32,
            Element::C64 => DType::F64,
        }
    }

    /// Dtype tag. Complex elements carry the tag of their scalar lane.
    pub fn kind(self) -> (r: DType)
        ensures
            r == self.spec_kind(),
    {
        match self {
            Element::F32 => DType::F32,
            Element::F64 => DType::F64,
            Element::F16 => DType::F16,
            Element::Bf16 => DType::Bf16,
            Element::I8 => DType::I8,
            Element::U8 => DType::U8,
            Element::I32 => DType::I32,
            Element::U32 => DType::U32,
            Element::I64 => DType::I64,
            Element::U64 => DType::U64,
            Element::F8E4m3 => DType::F8E4m3,
            Element::F8E5m2 => DType::F8E5m2,
            Element::C32 => DType::F32,
            Element::C64 => DType::F64,
        }
    }

    /// Size of one element in bytes.
    pub open spec fn spec_size(self) -> usize {
        match self {
            Element::F32 => 4,
            Element::F64 => 8,
            Element::F16 => 2,
            Element::Bf16 => 2,
            Element::I8 => 1,
            Element::U8 => 1,
            Element::I32 => 4,
            Element::U32 => 4,
            Element::I64 => 8,
            Element::U64 => 8,
            Element::F8E4m3 => 1,
            Element::F8E5m2 => 1,
            Element::C32 => 8,
            Element::C64 => 16,
        }
    }

    /// Size of one element in bytes.
    pub fn size(self) -> (r: usize)
        ensures
            r == self.spec_size(),
    {
        match self {
            Element::F32 => 4,
            Element::F64 => 8,
            Element::F16 => 2,
            Element::Bf16 => 2,
            Element::I8 => 1,
            Element::U8 => 1,
            Element::I32 => 4,
            Element::U32 => 4,
            Element::I64 => 8,
            Element::U64 => 8,
            Element::F8E4m3 => 1,
            Element::F8E5m2 => 1,
            Element::C32 => 8,
            Element::C64 => 16,
        }
    }

    /// Short name of the element type.
    pub open spec fn spec_name(self) -> Seq<char> {
        match self {
            Element::F32 => "f32"@,
            Element::F64 => "f64"@,
            Element::F16 => "f16"@,
            Element::Bf16 => "bf16"@,
            Element::I8 => "i8"@,
            Element::U8 => "u8"@,
            Element::I32 => "i32"@,
            Element::U32 => "u32"@,
            Element::I64 => "i64"@,
            Element::U64 => "u64"@,
            Element::F8E4m3 => "f8_e4m3"@,
            Element::F8E5m2 => "f8_e5m2"@,
            Element::C32 => "complex64"@,
            Element::C64 => "complex128"@,
        }
    }

    /// Short name of the element type.
    pub fn name(self) -> (r: &'static str)
        ensures
            r@ == self.spec_name(),
    {
        match self {
            Element::F32 => "f32",
            Element::F64 => "f64",
            Element::F16 => "f16",
            Element::Bf16 => "bf16",
            Element::I8 => "i8",
            Element::U8 => "u8",
            Element::I32 => "i32",
            Element::U32 => "u32",
            Element::I64 => "i64",
            Element::U64 => "u64",
            Element::F8E4m3 => "f8_e4m3",
            Element::F8E5m2 => "f8_e5m2",
            Element::C32 => "complex64",
            Element::C64 => "complex128",
        }
    }

    /// Data type in library descriptors.
    pub open spec fn spec_cuda_data_type(self) -> CudaDataType {
        match self {
            Element::F32 => CudaDataType::R32F,
            Element::F64 => CudaDataType::R64F,
            Element::F16 => CudaDataType::R16F,
            Element::Bf16 => CudaDataType::R16BF,
            Element::I8 => CudaDataType::R8I,
            Element::U8 => CudaDataType::R8U,
            Element::I32 => CudaDataType::R32I,
            Element::U32 => CudaDataType::R32U,
            Element::I64 => CudaDataType::R64I,
            Element::U64 => CudaDataType::R64U,
            Element::F8E4m3 => CudaDataType::R8fE4m3,
            Element::F8E5m2 => CudaDataType::R8fE5m2,
            Element::C32 => CudaDataType::C32F,
            Element::C64 => CudaDataType::C64F,
        }
    }

    /// Data type in library descriptors.
    pub fn cuda_data_type(self) -> (r: CudaDataType)
        ensures
            r == self.spec_cuda_data_type(),
    {
        match self {
            Element::F32 => CudaDataType::R32F,
            Element::F64 => CudaDataType::R64F,
            Element::F16 => CudaDataType::R16F,
            Element::Bf16 => CudaDataType::R16BF,
            Element::I8 => CudaDataType::R8I,
            Element::U8 => CudaDataType::R8U,
            Element::I32 => CudaDataType::R32I,
            Element::U32 => CudaDataType::R32U,
            Element::I64 => CudaDataType::R64I,
            Element::U64 => CudaDataType::R64U,
            Element::F8E4m3 => CudaDataType::R8fE4m3,
            Element::F8E5m2 => CudaDataType::R8fE5m2,
            Element::C32 => CudaDataType::C32F,
            Element::C64 => CudaDataType::C64F,
        }
    }

    /// Natural accumulation type of a matrix product.
    pub open spec fn spec_compute_type(self) -> CublasComputeType {
        match self {
            Element::F32 => CublasComputeType::Compute32F,
            Element::F64 => CublasComputeType::Compute64F,
            Element::F16 => CublasComputeType::Compute32F,
            Element::Bf16 => CublasComputeType::Compute32F,
            Element::I8 => CublasComputeType::Compute32I,
            Element::U8 => CublasComputeType::Compute32I,
            Element::I32 => CublasComputeType::Compute32I,
            Element::U32 => CublasComputeType::Compute32I,
            Element::I64 => CublasComputeType::Compute32I,
            Element::U64 => CublasComputeType::Compute32I,
            Element::F8E4m3 => CublasComputeType::Compute32F,
            Element::F8E5m2 => CublasComputeType::Compute32F,
            Element::C32 => CublasComputeType::Compute32F,
            Element::C64 => CublasComputeType::Compute64F,
        }
    }

    /// Natural accumulation type of a matrix product.
    pub fn compute_type(self) -> (r: CublasComputeType)
        ensures
            r == self.spec_compute_type(),
    {
        match self {
            Element::F32 => CublasComputeType::Compute32F,
            Element::F64 => CublasComputeType::Compute64F,
            Element::F16 => CublasComputeType::Compute32F,
            Element::Bf16 => CublasComputeType::Compute32F,
            Element::I8 => CublasComputeType::Compute32I,
            Element::U8 => CublasComputeType::Compute32I,
            Element::I32 => CublasComputeType::Compute32I,
            Element::U32 => CublasComputeType::Compute32I,
            Element::I64 => CublasComputeType::Compute32I,
            Element::U64 => CublasComputeType::Compute32I,
            Element::F8E4m3 => CublasComputeType::Compute32F,
            Element::F8E5m2 => CublasComputeType::Compute32F,
            Element::C32 => CublasComputeType::Compute32F,
            Element::C64 => CublasComputeType::Compute64F,
        }
    }

    /// CUDA C++ type name, for kernel source generation.
    pub open spec fn spec_cuda_type_name(self) -> Seq<char> {
        match self {
            Element::F32 => "float"@,
            Element::F64 => "double"@,
            Element::F16 => "__half"@,
            Element::Bf16 => "__nv_bfloat16"@,
            Element::I8 => "char"@,
            Element::U8 => "unsigned char"@,
            Element::I32 => "int"@,
            Element::U32 => "unsigned int"@,
            Element::I64 => "long long"@,
            Element::U64 => "unsigned long long"@,
            Element::F8E4m3 => "__nv_fp8_e4m3"@,
            Element::F8E5m2 => "__nv_fp8_e5m2"@,
            Element::C32 => "cuComplex"@,
            Element::C64 => "cuDoubleComplex"@,
        }
    }

    /// CUDA C++ type name, for kernel source generation.
    pub fn cuda_type_name(self) -> (r: &'static str)
        ensures
            r@ == self.spec_cuda_type_name(),
    {
        match self {
            Element::F32 => "float",
            Element::F64 => "double",
            Element::F16 => "__half",
            Element::Bf16 => "__nv_bfloat16",
            Element::I8 => "char",
            Element::U8 => "unsigned char",
            Element::I32 => "int",
            Element::U32 => "unsigned int",
            Element::I64 => "long long",
            Element::U64 => "unsigned long long",
            Element::F8E4m3 => "__nv_fp8_e4m3",
            Element::F8E5m2 => "__nv_fp8_e5m2",
            Element::C32 => "cuComplex",
            Element::C64 => "cuDoubleComplex",
        }
    }

    /// cuDNN element type; complex elements have none.
    pub open spec fn spec_cudnn(self) -> Option<CudnnDataType> {
        match self {
            Element::F32 => Some(CudnnDataType::Float),
            Element::F64 => Some(CudnnDataType::Double),
            Element::F16 => Some(CudnnDataType::Half),
            Element::Bf16 => Some(CudnnDataType::Bfloat16),
            Element::I8 => Some(CudnnDataType::Int8),
            Element::U8 => Some(CudnnDataType::Uint8),
            Element::I32 => Some(CudnnDataType::Int32),
            Element::U32 => Some(CudnnDataType::Int32),
            Element::I64 => Some(CudnnDataType::Int64),
            Element::U64 => Some(CudnnDataType::Int64),
            Element::F8E4m3 => Some(CudnnDataType::Fp8E4m3),
            Element::F8E5m2 => Some(CudnnDataType::Fp8E5m2),
            Element::C32 => None,
            Element::C64 => None,
        }
    }

    /// cuDNN element type; complex elements have none.
    pub fn cudnn(self) -> (r: Option<CudnnDataType>)
        ensures
            r == self.spec_cudnn(),
    {
        match self {
            Element::F32 => Some(CudnnDataType::Float),
            Element::F64 => Some(CudnnDataType::Double),
            Element::F16 => Some(CudnnDataType::Half),
            Element::Bf16 => Some(CudnnDataType::Bfloat16),
            Element::I8 => Some(CudnnDataType::Int8),
            Element::U8 => Some(CudnnDataType::Uint8),
            Element::I32 => Some(CudnnDataType::Int32),
            Element::U32 => Some(CudnnDataType::Int32),
            Element::I64 => Some(CudnnDataType::Int64),
            Element::U64 => Some(CudnnDataType::Int64),
            Element::F8E4m3 => Some(CudnnDataType::Fp8E4m3),
            Element::F8E5m2 => Some(CudnnDataType::Fp8E5m2),
            Element::C32 => None,
            Element::C64 => None,
        }
    }

    /// NCCL element type; complex elements have none.
    pub open spec fn spec_nccl(self) -> Option<NcclDataType> {
        match self {
            Element::F32 => Some(NcclDataType::Float32),
            Element::F64 => Some(NcclDataType::Float64),
            Element::F16 => Some(NcclDataType::Float16),
            Element::Bf16 => Some(NcclDataType::Bfloat16),
            Element::I8 => Some(NcclDataType::Int8),
            Element::U8 => Some(NcclDataType::Uint8),
            Element::I32 => Some(NcclDataType::Int32),
            Element::U32 => Some(NcclDataType::Uint32),
            Element::I64 => Some(NcclDataType::Int64),
            Element::U64 => Some(NcclDataType::Uint64),
            Element::F8E4m3 => Some(NcclDataType::Float8e4m3),
            Element::F8E5m2 => Some(NcclDataType::Float8e5m2),
            Element::C32 => None,
            Element::C64 => None,
        }
    }

    /// NCCL element type; complex elements have none.
    pub fn nccl(self) -> (r: Option<NcclDataType>)
        ensures
            r == self.spec_nccl(),
    {
        match self {
            Element::F32 => Some(NcclDataType::Float32),
            Element::F64 => Some(NcclDataType::Float64),
            Element::F16 => Some(NcclDataType::Float16),
            Element::Bf16 => Some(NcclDataType::Bfloat16),
            Element::I8 => Some(NcclDataType::Int8),
            Element::U8 => Some(NcclDataType::Uint8),
            Element::I32 => Some(NcclDataType::Int32),
            Element::U32 => Some(NcclDataType::Uint32),
            Element::I64 => Some(NcclDataType::Int64),
            Element::U64 => Some(NcclDataType::Uint64),
            Element::F8E4m3 => Some(NcclDataType::Float8e4m3),
            Element::F8E5m2 => Some(NcclDataType::Float8e5m2),
            Element::C32 => None,
            Element::C64 => None,
        }
    }

}

/// A type that names a buffer's element.
pub trait AccelDtype: Sized {
    /// The element that the type names.
    spec fn spec_element() -> Element;

    /// The element that the type names.
    fn element() -> (e: Element)
        ensures
            e == Self::spec_element(),
    ;

    /// Dtype tag.
    fn kind() -> (k: DType)
        ensures
            k == Self::spec_element().spec_kind(),
    {
        Self::element().kind()
    }

    /// Size of one element in bytes.
    fn size() -> (n: usize)
        ensures
            n == Self::spec_element().spec_size(),
    {
        Self::element().size()
    }

    /// Short name of the element type.
    fn name() -> (s: &'static str)
        ensures
            s@ == Self::spec_element().spec_name(),
    {
        Self::element().name()
    }
}

/// The CUDA-side mappings of a buffer's element type.
pub trait CudaDtype: AccelDtype {
    /// Data type in library descriptors.
    fn cuda_data_type() -> (d: CudaDataType)
        ensures
            d == Self::spec_element().spec_cuda_data_type(),
    {
        Self::element().cuda_data_type()
    }

    /// Natural accumulation type of a matrix product.
    fn cublas_compute_type() -> (d: CublasComputeType)
        ensures
            d == Self::spec_element().spec_compute_type(),
    {
        Self::element().compute_type()
    }

    /// CUDA C++ type name.
    fn cuda_type_name() -> (s: &'static str)
        ensures
            s@ == Self::spec_element().spec_cuda_type_name(),
    {
        Self::element().cuda_type_name()
    }

    /// cuDNN element type. Complex elements have none and must not ask.
    fn cudnn_data_type() -> (d: CudnnDataType)
        requires
            Self::spec_element().spec_cudnn() is Some,
        ensures
            Some(d) == Self::spec_element().spec_cudnn(),
    {
        Self::element().cudnn().unwrap()
    }

    /// NCCL element type. Complex elements have none and must not ask.
    fn nccl_data_type() -> (d: NcclDataType)
        requires
            Self::spec_element().spec_nccl() is Some,
        ensures
            Some(d) == Self::spec_element().spec_nccl(),
    {
        Self::element().nccl().unwrap()
    }
}

impl AccelDtype for F32 {
    open spec fn spec_element() -> Element {
        Element::F32
    }

    fn element() -> (e: Element) {
        Element::F32
    }
}

impl CudaDtype for F32 {

}

impl AccelDtype for F64 {
    open spec fn spec_element() -> Element {
        Element::F64
    }

    fn element() -> (e: Element) {
        Element::F64
    }
}

impl CudaDtype for F64 {

}

impl AccelDtype for F16 {
    open spec fn spec_element() -> Element {
        Element::F16
    }

    fn element() -> (e: Element) {
        Element::F16
    }
}

impl CudaDtype for F16 {

}

impl AccelDtype for Bf16 {
    open spec fn spec_element() -> Element {
        Element::Bf16
    }

    fn element() -> (e: Element) {
        Element::Bf16
    }
}

impl CudaDtype for Bf16 {

}

impl AccelDtype for i8 {
    open spec fn spec_element() -> Element {
        Element::I8
    }

    fn element() -> (e: Element) {
        Element::I8
    }
}

impl CudaDtype for i8 {

}

impl AccelDtype for u8 {
    open spec fn spec_element() -> Element {
        Element::U8
    }

    fn element() -> (e: Element) {
        Element::U8
    }
}

impl CudaDtype for u8 {

}

impl AccelDtype for i32 {
    open spec fn spec_element() -> Element {
        Element::I32
    }

    fn element() -> (e: Element) {
        Element::I32
    }
}

impl CudaDtype for i32 {

}

impl AccelDtype for u32 {
    open spec fn spec_element() -> Element {
        Element::U32
    }

    fn element() -> (e: Element) {
        Element::U32
    }
}

impl CudaDtype for u32 {

}

impl AccelDtype for i64 {
    open spec fn spec_element() -> Element {
        Element::I64
    }

    fn element() -> (e: Element) {
        Element::I64
    }
}

impl CudaDtype for i64 {

}

impl AccelDtype for u64 {
    open spec fn spec_element() -> Element {
        Element::U64
    }

    fn element() -> (e: Element) {
        Element::U64
    }
}

impl CudaDtype for u64 {

}

impl AccelDtype for F8E4m3 {
    open spec fn spec_element() -> Element {
        Element::F8E4m3
    }

    fn element() -> (e: Element) {
        Element::F8E4m3
    }
}

impl CudaDtype for F8E4m3 {

}

impl AccelDtype for F8E5m2 {
    open spec fn spec_element() -> Element {
        Element::F8E5m2
    }

    fn element() -> (e: Element) {
        Element::F8E5m2
    }
}

impl CudaDtype for F8E5m2 {

}

impl AccelDtype for C32 {
    open spec fn spec_element() -> Element {
        Element::C32
    }

    fn element() -> (e: Element) {
        Element::C32
    }
}

impl CudaDtype for C32 {

}

impl AccelDtype for C64 {
    open spec fn spec_element() -> Element {
        Element::C64
    }

    fn element() -> (e: Element) {
        Element::C64
    }
}

impl CudaDtype for C64 {

}

/// Identity values of an element type that has its own in this crate.
pub trait Identities: AccelDtype {
    spec fn spec_zero() -> Self;

    spec fn spec_one() -> Self;

    spec fn spec_nan() -> Self;

    fn zero() -> (v: Self)
        ensures
            v == Self::spec_zero(),
    ;

    fn one() -> (v: Self)
        ensures
            v == Self::spec_one(),
    ;

    fn nan() -> (v: Option<Self>)
        ensures
            v == Some(Self::spec_nan()),
    ;
}

impl Identities for F8E4m3 {
    open spec fn spec_zero() -> Self {
        F8E4m3(0x00)
    }

    open spec fn spec_one() -> Self {
        F8E4m3(0x38)
    }

    open spec fn spec_nan() -> Self {
        F8E4m3(0x7f)
    }

    fn zero() -> (v: Self) {
        F8E4m3(0x00)
    }

    fn one() -> (v: Self) {
        F8E4m3(0x38)
    }

    fn nan() -> (v: Option<Self>) {
        Some(F8E4m3(0x7f))
    }
}

impl Identities for F8E5m2 {
    open spec fn spec_zero() -> Self {
        F8E5m2(0x00)
    }

    open spec fn spec_one() -> Self {
        F8E5m2(0x3c)
    }

    open spec fn spec_nan() -> Self {
        F8E5m2(0x7e)
    }

    fn zero() -> (v: Self) {
        F8E5m2(0x00)
    }

    fn one() -> (v: Self) {
        F8E5m2(0x3c)
    }

    fn nan() -> (v: Option<Self>) {
        Some(F8E5m2(0x7e))
    }
}

impl Identities for C32 {
    open spec fn spec_zero() -> Self {
        C32([F32(0), F32(0)])
    }

    open spec fn spec_one() -> Self {
        C32([F32(F32::ONE_BITS), F32(0)])
    }

    open spec fn spec_nan() -> Self {
        C32([F32(F32::NAN_BITS), F32(F32::NAN_BITS)])
    }

    fn zero() -> (v: Self) {
        C32([F32(0), F32(0)])
    }

    fn one() -> (v: Self) {
        C32([F32(F32::ONE_BITS), F32(0)])
    }

    fn nan() -> (v: Option<Self>) {
        Some(C32([F32(F32::NAN_BITS), F32(F32::NAN_BITS)]))
    }
}

impl Identities for C64 {
    open spec fn spec_zero() -> Self {
        C64([F64(0), F64(0)])
    }

    open spec fn spec_one() -> Self {
        C64([F64(F64::ONE_BITS), F64(0)])
    }

    open spec fn spec_nan() -> Self {
        C64([F64(F64::NAN_BITS), F64(F64::NAN_BITS)])
    }

    fn zero() -> (v: Self) {
        C64([F64(0), F64(0)])
    }

    fn one() -> (v: Self) {
        C64([F64(F64::ONE_BITS), F64(0)])
    }

    fn nan() -> (v: Option<Self>) {
        Some(C64([F64(F64::NAN_BITS), F64(F64::NAN_BITS)]))
    }
}

/// A type whose values are passed to a library as host-side scalars.
pub trait ScalarBits: CudaDtype + Copy {
    spec fn spec_bits(self) -> u64;

    /// The value's bit pattern, zero-extended.
    fn to_bits(self) -> (b: u64)
        ensures
            b == self.spec_bits(),
    ;
}

impl ScalarBits for F32 {
    open spec fn spec_bits(self) -> u64 {
        self.0 as u64
    }

    fn to_bits(self) -> (b: u64) {
        self.0 as u64
    }
}

impl ScalarBits for F64 {
    open spec fn spec_bits(self) -> u64 {
        self.0 as u64
    }

    fn to_bits(self) -> (b: u64) {
        self.0 as u64
    }
}

impl ScalarBits for F16 {
    open spec fn spec_bits(self) -> u64 {
        self.0 as u64
    }

    fn to_bits(self) -> (b: u64) {
        self.0 as u64
    }
}

impl ScalarBits for Bf16 {
    open spec fn spec_bits(self) -> u64 {
        self.0 as u64
    }

    fn to_bits(self) -> (b: u64) {
        self.0 as u64
    }
}

/// Capability marker: the type may be a cuBLAS GEMM operand.
pub trait GemmSupported: CudaDtype {

}

impl GemmSupported for F32 {

}

impl GemmSupported for F64 {

}

impl GemmSupported for i8 {

}

impl GemmSupported for i32 {

}

impl GemmSupported for F16 {

}

impl GemmSupported for Bf16 {

}

impl GemmSupported for F8E4m3 {

}

impl GemmSupported for F8E5m2 {

}

/// Capability marker: the type may be a cuDNN tensor element.
pub trait CudnnSupported: CudaDtype {

}

impl CudnnSupported for F32 {

}

impl CudnnSupported for F64 {

}

impl CudnnSupported for i8 {

}

impl CudnnSupported for u8 {

}

impl CudnnSupported for i32 {

}

impl CudnnSupported for i64 {

}

impl CudnnSupported for F16 {

}

impl CudnnSupported for Bf16 {

}

impl CudnnSupported for F8E4m3 {

}

impl CudnnSupported for F8E5m2 {

}

/// Capability marker: the type may be a cuFFT element.
pub trait FftSupported: CudaDtype {

}

impl FftSupported for F32 {

}

impl FftSupported for F64 {

}

impl FftSupported for C32 {

}

impl FftSupported for C64 {

}

impl FftSupported for F16 {

}

/// Capability marker: the type may be a cuRAND float distribution element.
pub trait RngFloatSupported: CudaDtype {

}

impl RngFloatSupported for F32 {

}

impl RngFloatSupported for F64 {

}

/// Capability marker: the type may be filled with raw cuRAND bits.
pub trait RngIntSupported: CudaDtype {

}

impl RngIntSupported for u32 {

}

impl RngIntSupported for u64 {

}

/// Capability marker: the type may be an NCCL collective element.
pub trait NcclReduceSupported: CudaDtype {

}

impl NcclReduceSupported for F32 {

}

impl NcclReduceSupported for F64 {

}

impl NcclReduceSupported for i8 {

}

impl NcclReduceSupported for u8 {

}

impl NcclReduceSupported for i32 {

}

impl NcclReduceSupported for u32 {

}

impl NcclReduceSupported for i64 {

}

impl NcclReduceSupported for u64 {

}

impl NcclReduceSupported for F16 {

}

impl NcclReduceSupported for Bf16 {

}

impl NcclReduceSupported for F8E4m3 {

}

impl NcclReduceSupported for F8E5m2 {

}

/// Capability marker: the type may be a cuSOLVER dense factorization element.
pub trait SolverSupported: CudaDtype {

}

impl SolverSupported for F32 {

}

impl SolverSupported for F64 {

}

/// Capability marker: the type may be a cuSPARSE element.
pub trait SparseSupported: CudaDtype {

}

impl SparseSupported for F32 {

}

impl SparseSupported for F64 {

}

impl SparseSupported for F16 {

}

impl SparseSupported for Bf16 {

}

/// Capability marker: the type may be a cuTENSOR contraction operand.
pub trait TensorSupported: CudaDtype {

}

impl TensorSupported for F32 {

}

impl TensorSupported for F64 {

}

impl TensorSupported for F16 {

}

impl TensorSupported for Bf16 {

}

/// A type with a host-side scalar type: that of the factors which multiply its
/// elements, and of the sums over them.
pub trait HasScalar: CudaDtype {
    type Scalar: ScalarBits;
}

impl HasScalar for F32 {
    type Scalar = F32;
}

impl HasScalar for F64 {
    type Scalar = F64;
}

impl HasScalar for F16 {
    type Scalar = F32;
}

impl HasScalar for Bf16 {
    type Scalar = F32;
}

impl HasScalar for F8E4m3 {
    type Scalar = F32;
}

impl HasScalar for F8E5m2 {
    type Scalar = F32;
}

/// Capability marker: the type may be the vector element of the cuBLAS level-1
/// routines.
pub trait AxpyDotNrm2Supported: HasScalar {

}

impl AxpyDotNrm2Supported for F32 {

}

impl AxpyDotNrm2Supported for F64 {

}

impl AxpyDotNrm2Supported for F16 {

}

impl AxpyDotNrm2Supported for Bf16 {

}

/// Capability marker: the type may be a matrix-vector product element.
pub trait GemvSupported: CudaDtype + Copy {

}

impl GemvSupported for F32 {

}

impl GemvSupported for F64 {

}

/// Capability marker: the type may be a rank-one update element.
pub trait GerSupported: CudaDtype + Copy {

}

impl GerSupported for F32 {

}

impl GerSupported for F64 {

}

/// Capability marker: the type may be a matrix addition element.
pub trait GeamSupported: CudaDtype + Copy {

}

impl GeamSupported for F32 {

}

impl GeamSupported for F64 {

}

/// Capability marker: the type may be a symmetric rank-k update element.
pub trait SyrkSupported: CudaDtype + Copy {

}

impl SyrkSupported for F32 {

}

impl SyrkSupported for F64 {

}

/// Capability marker: the type may be a triangular solve element.
pub trait TrsmSupported: CudaDtype + Copy {

}

impl TrsmSupported for F32 {

}

impl TrsmSupported for F64 {

}

/// Index type of a sparse matrix: 32-bit or 64-bit signed.
pub trait SparseIndex: AccelDtype {
    spec fn spec_index_type() -> CusparseIndexType;

    fn cusparse_index_type() -> (t: CusparseIndexType)
        ensures
            t == Self::spec_index_type(),
    ;
}

impl SparseIndex for i32 {
    open spec fn spec_index_type() -> CusparseIndexType {
        CusparseIndexType::Index32I
    }

    fn cusparse_index_type() -> (t: CusparseIndexType) {
        CusparseIndexType::Index32I
    }
}

impl SparseIndex for i64 {
    open spec fn spec_index_type() -> CusparseIndexType {
        CusparseIndexType::Index64I
    }

    fn cusparse_index_type() -> (t: CusparseIndexType) {
        CusparseIndexType::Index64I
    }
}

/// How a number is stored: an integer of so many bits, a binary float with a sign
/// and so many bits of exponent and mantissa, or a pair of such floats.
pub enum Format {
    Signed(nat),
    Unsigned(nat),
    Float { exponent: nat, mantissa: nat },
    Complex { exponent: nat, mantissa: nat },
}

impl Format {
    /// Bits of a number.
    pub open spec fn bits(self) -> nat {
        match self {
            Format::Signed(n) => n,
            Format::Unsigned(n) => n,
            Format::Float { exponent, mantissa } => 1 + exponent + mantissa,
            Format::Complex { exponent, mantissa } => 2 * (1 + exponent + mantissa),
        }
    }

    /// The format with integers taken as signed ones.
    pub open spec fn signed(self) -> Format {
        match self {
            Format::Unsigned(n) => Format::Signed(n),
            other => other,
        }
    }

    /// The format of one lane of a pair.
    pub open spec fn lane(self) -> Format {
        match self {
            Format::Complex { exponent, mantissa } => Format::Float { exponent, mantissa },
            other => other,
        }
    }
}

/// How the numbers of a descriptor type are stored.
pub open spec fn cuda_format(d: CudaDataType) -> Format {
    match d {
        CudaDataType::R32F => Format::Float { exponent: 8, mantissa: 23 },
        CudaDataType::R64F => Format::Float { exponent: 11, mantissa: 52 },
        CudaDataType::R16F => Format::Float { exponent: 5, mantissa: 10 },
        CudaDataType::R16BF => Format::Float { exponent: 8, mantissa: 7 },
        CudaDataType::R8I => Format::Signed(8),
        CudaDataType::R8U => Format::Unsigned(8),
        CudaDataType::R32I => Format::Signed(32),
        CudaDataType::R32U => Format::Unsigned(32),
        CudaDataType::R64I => Format::Signed(64),
        CudaDataType::R64U => Format::Unsigned(64),
        CudaDataType::R8fE4m3 => Format::Float { exponent: 4, mantissa: 3 },
        CudaDataType::R8fE5m2 => Format::Float { exponent: 5, mantissa: 2 },
        CudaDataType::C32F => Format::Complex { exponent: 8, mantissa: 23 },
        CudaDataType::C64F => Format::Complex { exponent: 11, mantissa: 52 },
    }
}

/// How the numbers of a dtype tag are stored.
pub open spec fn kind_format(d: DType) -> Format {
    match d {
        DType::F32 => Format::Float { exponent: 8, mantissa: 23 },
        DType::F64 => Format::Float { exponent: 11, mantissa: 52 },
        DType::F16 => Format::Float { exponent: 5, mantissa: 10 },
        DType::Bf16 => Format::Float { exponent: 8, mantissa: 7 },
        DType::I8 => Format::Signed(8),
        DType::U8 => Format::Unsigned(8),
        DType::I32 => Format::Signed(32),
        DType::U32 => Format::Unsigned(32),
        DType::I64 => Format::Signed(64),
        DType::U64 => Format::Unsigned(64),
        DType::F8E4m3 => Format::Float { exponent: 4, mantissa: 3 },
        DType::F8E5m2 => Format::Float { exponent: 5, mantissa: 2 },
    }
}

/// How the numbers of an NCCL type are stored.
pub open spec fn nccl_format(d: NcclDataType) -> Format {
    match d {
        NcclDataType::Float32 => Format::Float { exponent: 8, mantissa: 23 },
        NcclDataType::Float64 => Format::Float { exponent: 11, mantissa: 52 },
        NcclDataType::Float16 => Format::Float { exponent: 5, mantissa: 10 },
        NcclDataType::Bfloat16 => Format::Float { exponent: 8, mantissa: 7 },
        NcclDataType::Int8 => Format::Signed(8),
        NcclDataType::Uint8 => Format::Unsigned(8),
        NcclDataType::Int32 => Format::Signed(32),
        NcclDataType::Uint32 => Format::Unsigned(32),
        NcclDataType::Int64 => Format::Signed(64),
        NcclDataType::Uint64 => Format::Unsigned(64),
        NcclDataType::Float8e4m3 => Format::Float { exponent: 4, mantissa: 3 },
        NcclDataType::Float8e5m2 => Format::Float { exponent: 5, mantissa: 2 },
    }
}

/// How the numbers of a cuDNN type are stored.
pub open spec fn cudnn_format(d: CudnnDataType) -> Format {
    match d {
        CudnnDataType::Float => Format::Float { exponent: 8, mantissa: 23 },
        CudnnDataType::Double => Format::Float { exponent: 11, mantissa: 52 },
        CudnnDataType::Half => Format::Float { exponent: 5, mantissa: 10 },
        CudnnDataType::Bfloat16 => Format::Float { exponent: 8, mantissa: 7 },
        CudnnDataType::Int8 => Format::Signed(8),
        CudnnDataType::Uint8 => Format::Unsigned(8),
        CudnnDataType::Int32 => Format::Signed(32),
        CudnnDataType::Int64 => Format::Signed(64),
        CudnnDataType::Fp8E4m3 => Format::Float { exponent: 4, mantissa: 3 },
        CudnnDataType::Fp8E5m2 => Format::Float { exponent: 5, mantissa: 2 },
    }
}

/// All the tables of an element type speak of the same numbers: the descriptor
/// type, the dtype tag, the NCCL type and the size in bytes agree in how they are
/// stored. cuDNN has no wide unsigned integers and takes them as signed ones, and
/// no library but cuBLAS takes pairs.
pub proof fn law_tables_agree(e: Element)
    ensures
        e.spec_size() * 8 == cuda_format(e.spec_cuda_data_type()).bits(),
        kind_format(e.spec_kind()) == cuda_format(e.spec_cuda_data_type()).lane(),
        e.spec_nccl() is None <==> cuda_format(e.spec_cuda_data_type()) is Complex,
        e.spec_nccl() matches Some(n) ==> nccl_format(n) == cuda_format(e.spec_cuda_data_type()),
        e.spec_cudnn() is None <==> cuda_format(e.spec_cuda_data_type()) is Complex,
        e.spec_cudnn() matches Some(c) ==> cudnn_format(c).signed() == cuda_format(
            e.spec_cuda_data_type(),
        ).signed(),
        e is U8 ==> e.spec_cudnn() == Some(CudnnDataType::Uint8),
{
}

/// No two element types have the same descriptor type.
pub proof fn law_descriptor_types_distinct(a: Element, b: Element)
    ensures
        a.spec_cuda_data_type() == b.spec_cuda_data_type() <==> a == b,
{
}

/// Integers are accumulated as 32-bit integers, double precision in double
/// precision, and every other float in single precision.
pub proof fn law_accumulation(e: Element)
    ensures
        ({
            let lane = cuda_format(e.spec_cuda_data_type()).lane();
            match lane {
                Format::Float { mantissa, .. } => if mantissa == 52 {
                    e.spec_compute_type() is Compute64F
                } else {
                    e.spec_compute_type() is Compute32F
                },
                _ => e.spec_compute_type() is Compute32I,
            }
        }),
{
}

/// Every buffer type names the element whose numbers it stands for.
pub proof fn law_types_name_their_elements()
    ensures
        cuda_format(F32::spec_element().spec_cuda_data_type()) == (Format::Float { exponent: 8, mantissa: 23 }),
        cuda_format(F64::spec_element().spec_cuda_data_type()) == (Format::Float { exponent: 11, mantissa: 52 }),
        cuda_format(F16::spec_element().spec_cuda_data_type()) == (Format::Float { exponent: 5, mantissa: 10 }),
        cuda_format(Bf16::spec_element().spec_cuda_data_type()) == (Format::Float { exponent: 8, mantissa: 7 }),
        cuda_format(i8::spec_element().spec_cuda_data_type()) == (Format::Signed(8)),
        cuda_format(u8::spec_element().spec_cuda_data_type()) == (Format::Unsigned(8)),
        cuda_format(i32::spec_element().spec_cuda_data_type()) == (Format::Signed(32)),
        cuda_format(u32::spec_element().spec_cuda_data_type()) == (Format::Unsigned(32)),
        cuda_format(i64::spec_element().spec_cuda_data_type()) == (Format::Signed(64)),
        cuda_format(u64::spec_element().spec_cuda_data_type()) == (Format::Unsigned(64)),
        cuda_format(F8E4m3::spec_element().spec_cuda_data_type()) == (Format::Float { exponent: 4, mantissa: 3 }),
        cuda_format(F8E5m2::spec_element().spec_cuda_data_type()) == (Format::Float { exponent: 5, mantissa: 2 }),
        cuda_format(C32::spec_element().spec_cuda_data_type()) == (Format::Complex { exponent: 8, mantissa: 23 }),
        cuda_format(C64::spec_element().spec_cuda_data_type()) == (Format::Complex { exponent: 11, mantissa: 52 }),
{
}

/// The short name and the C++ name of every element type.
pub proof fn law_element_names()
    ensures
        Element::F32.spec_name() == "f32"@,
        Element::F32.spec_cuda_type_name() == "float"@,
        Element::F64.spec_name() == "f64"@,
        Element::F64.spec_cuda_type_name() == "double"@,
        Element::F16.spec_name() == "f16"@,
        Element::F16.spec_cuda_type_name() == "__half"@,
        Element::Bf16.spec_name() == "bf16"@,
        Element::Bf16.spec_cuda_type_name() == "__nv_bfloat16"@,
        Element::I8.spec_name() == "i8"@,
        Element::I8.spec_cuda_type_name() == "char"@,
        Element::U8.spec_name() == "u8"@,
        Element::U8.spec_cuda_type_name() == "unsigned char"@,
        Element::I32.spec_name() == "i32"@,
        Element::I32.spec_cuda_type_name() == "int"@,
        Element::U32.spec_name() == "u32"@,
        Element::U32.spec_cuda_type_name() == "unsigned int"@,
        Element::I64.spec_name() == "i64"@,
        Element::I64.spec_cuda_type_name() == "long long"@,
        Element::U64.spec_name() == "u64"@,
        Element::U64.spec_cuda_type_name() == "unsigned long long"@,
        Element::F8E4m3.spec_name() == "f8_e4m3"@,
        Element::F8E4m3.spec_cuda_type_name() == "__nv_fp8_e4m3"@,
        Element::F8E5m2.spec_name() == "f8_e5m2"@,
        Element::F8E5m2.spec_cuda_type_name() == "__nv_fp8_e5m2"@,
        Element::C32.spec_name() == "complex64"@,
        Element::C32.spec_cuda_type_name() == "cuComplex"@,
        Element::C64.spec_name() == "complex128"@,
        Element::C64.spec_cuda_type_name() == "cuDoubleComplex"@,
{
}

/// A scalar is passed on by its own bits: two scalars are passed on alike only if
/// they are the same.
pub proof fn law_scalars_keep_their_bits(
    a: F32,
    b: F32,
    c: F64,
    d: F64,
    e: F16,
    f: F16,
    g: Bf16,
    h: Bf16,
)
    ensures
        a.spec_bits() == a.0,
        c.spec_bits() == c.0,
        e.spec_bits() == e.0,
        g.spec_bits() == g.0,
        a.spec_bits() == b.spec_bits() <==> a == b,
        c.spec_bits() == d.spec_bits() <==> c == d,
        e.spec_bits() == f.spec_bits() <==> e == f,
        g.spec_bits() == h.spec_bits() <==> g == h,
{
}

/// Zero has no bits set, and a one has the exponent's bias as its exponent and an
/// empty mantissa. A complex one is real.
pub proof fn law_zero_and_one()
    ensures
        F8E4m3::spec_zero().0 == 0,
        F8E5m2::spec_zero().0 == 0,
        F8E4m3::spec_one().0 == 7 * 8,
        F8E5m2::spec_one().0 == 15 * 4,
        F32::ONE_BITS == 127 * 0x80_0000,
        F64::ONE_BITS == 1023 * 0x10_0000_0000_0000,
        C32::spec_zero().0@ == seq![F32(0), F32(0)],
        C64::spec_zero().0@ == seq![F64(0), F64(0)],
        C32::spec_one().0@ == seq![F32(0x3f80_0000), F32(0)],
        C64::spec_one().0@ == seq![F64(0x3ff0_0000_0000_0000), F64(0)],
{
    assert(C32::spec_zero().0@ =~= seq![F32(0), F32(0)]);
    assert(C64::spec_zero().0@ =~= seq![F64(0), F64(0)]);
    assert(C32::spec_one().0@ =~= seq![F32(0x3f80_0000), F32(0)]);
    assert(C64::spec_one().0@ =~= seq![F64(0x3ff0_0000_0000_0000), F64(0)]);
}

/// A float is not a number exactly when its exponent is all ones and its mantissa
/// is not empty, whatever its sign.
pub proof fn law_nan_patterns(sign: int, exponent: int, mantissa: int, x: F32, y: F64)
    requires
        0 <= sign <= 1,
        0 <= exponent,
        0 <= mantissa,
    ensures
        exponent < 256 && mantissa < 0x80_0000 && x.0 == sign * 0x8000_0000 + exponent * 0x80_0000
            + mantissa ==> (x.nan_pattern() <==> exponent == 255 && mantissa != 0),
        exponent < 2048 && mantissa < 0x10_0000_0000_0000 && y.0 == sign * 0x8000_0000_0000_0000
            + exponent * 0x10_0000_0000_0000 + mantissa ==> (y.nan_pattern() <==> exponent == 2047
            && mantissa != 0),
        F32(F32::NAN_BITS).nan_pattern(),
        F64(F64::NAN_BITS).nan_pattern(),
        F8E4m3::spec_nan().0 == 0x7f,
        F8E5m2::spec_nan().0 == 0x7e,
        C32::spec_nan().0@[0].nan_pattern() && C32::spec_nan().0@[1].nan_pattern(),
        C64::spec_nan().0@[0].nan_pattern() && C64::spec_nan().0@[1].nan_pattern(),
{
}

/// A sparse index type is as wide as its integers.
pub proof fn law_sparse_index_types()
    ensures
        i32::spec_index_type() is Index32I,
        i64::spec_index_type() is Index64I,
{
}

} // verus!
