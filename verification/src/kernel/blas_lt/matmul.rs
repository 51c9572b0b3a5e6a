//! Typed matrix products with fused epilogues.

use vstd::prelude::*;

use crate::dtype::{
    AccelDtype, Bf16, DTypeKind, Element, F16, F32, F64, F8E4m3, F8E5m2, GemmSupported, HasScalar,
    ScalarBits,
};
use crate::error::{ErrorView, GpuError};
use crate::error;
use crate::gpu_ref::{DeviceSlice, GpuRef, MemoryTable, MemoryView};
use crate::kernel::blas;
use crate::kernel::blas::meaning;
use crate::kernel::blas::{scalar, Scalar};
use crate::kernel::blas_lt::epilogue::{Activation, Epilogue};
use crate::kernel::blas_lt::heuristic;
use crate::kernel::blas_lt::heuristic::{HeuristicCacheRef, HeuristicKey};
use crate::kernel::blas_lt::scaling::ScaleSet;
use crate::kernel::blas_lt::LIB;
use crate::kernel::envelope;
use crate::kernel::envelope::access_all_3;
use crate::kernel::lru_model;
use crate::text::{join2, join3};

verus! {

/// `C := alpha * op(A) * op(B) + beta * C` with a fused epilogue. `d`,
/// `gelu_aux`, `scales` and `workspace_size` are for products that the safe
/// interface does not make.
pub struct MatmulRequest<T: GemmSupported + HasScalar> {
    pub a: GpuRef<T>,
    pub b: GpuRef<T>,
    pub c: GpuRef<T>,
    pub d: Option<GpuRef<T>>,
    pub m: i32,
    pub n: i32,
    pub k: i32,
    pub alpha: T::Scalar,
    pub beta: T::Scalar,
    pub transa: bool,
    pub transb: bool,
    pub lda: i64,
    pub ldb: i64,
    pub ldc: i64,
    pub ldd: i64,
    pub epilogue: Epilogue,
    pub bias: Option<GpuRef<T>>,
    pub gelu_aux: Option<GpuRef<T>>,
    pub scales: ScaleSet,
    pub workspace_size: usize,
    pub reply: u64,
}

/// Shape and scalars of a product. The strides and the number of products are
/// there for a batch of them.
#[derive(Debug, Clone, Copy, PartialEq, Eq, Structural)]
pub struct MatmulConfig {
    pub transa: bool,
    pub transb: bool,
    pub transc: bool,
    pub m: u64,
    pub n: u64,
    pub k: u64,
    pub alpha: Scalar,
    pub lda: i64,
    pub ldb: i64,
    pub beta: Scalar,
    pub ldc: i64,
    pub stride_a: Option<i64>,
    pub stride_b: Option<i64>,
    pub stride_c: Option<i64>,
    pub stride_bias: Option<i64>,
    pub batch_size: Option<i32>,
}

/// A cuBLASLt product with all its arguments. Buffers are device addresses.
#[derive(Debug, Clone, Copy, PartialEq, Eq, Structural)]
pub struct LtCall {
    pub element: Element,
    pub config: MatmulConfig,
    pub a: u64,
    pub b: u64,
    pub c: u64,
    pub bias: Option<u64>,
    pub activation: Option<Activation>,
}

/// The buffers of a product: the three matrices, then the bias where there is
/// one; the first stale one decides the error.
pub open spec fn valid_operands<T>(
    a: GpuRef<T>,
    b: GpuRef<T>,
    c: GpuRef<T>,
    bias: Option<GpuRef<T>>,
    m: MemoryView,
) -> Result<(DeviceSlice, DeviceSlice, DeviceSlice, Option<u64>), ErrorView> {
    match envelope::valid_3(a, b, c, m) {
        Err(e) => Err(e),
        Ok((a_s, b_s, c_s)) => match bias {
            None => Ok((a_s, b_s, c_s, None)),
            Some(g) => match g.validity(m) {
                Err(e) => Err(e),
                Ok(s) => Ok((a_s, b_s, c_s, Some(s.ptr))),
            },
        },
    }
}

/// The product to make, or why it is refused before it reaches the library.
pub open spec fn product_plan<T>(
    element: Element,
    config: MatmulConfig,
    a: GpuRef<T>,
    b: GpuRef<T>,
    c: GpuRef<T>,
    bias: Option<GpuRef<T>>,
    activation: Option<Activation>,
    m: MemoryView,
) -> Result<LtCall, ErrorView> {
    match valid_operands(a, b, c, bias, m) {
        Err(e) => Err(e),
        Ok((a_s, b_s, c_s, bias_ptr)) => if !c.is_sole_owner(m) {
            Err(ErrorView::Unrecoverable("BlasLt C has multiple live references"@))
        } else {
            Ok(
                LtCall {
                    element,
                    config,
                    a: a_s.ptr,
                    b: b_s.ptr,
                    c: c_s.ptr,
                    bias: bias_ptr,
                    activation,
                },
            )
        },
    }
}

/// Validate the buffers of a product and give the call to make. On success the
/// output remembers the stream.
pub fn plan_product<T>(
    element: Element,
    config: MatmulConfig,
    a: &GpuRef<T>,
    b: &GpuRef<T>,
    c: &GpuRef<T>,
    bias: &Option<GpuRef<T>>,
    activation: Option<Activation>,
    mem: &mut MemoryTable,
    stream: u64,
) -> (r: Result<LtCall, GpuError>)
    ensures
        error::outcome(r) == product_plan(
            element,
            config,
            *a,
            *b,
            *c,
            *bias,
            activation,
            old(mem)@,
        ),
        final(mem)@ == if r is Ok {
            old(mem)@.written(c.buffer, stream)
        } else {
            old(mem)@
        },
{
    let (a_s, b_s, c_s) = match access_all_3(a, b, c, mem) {
        Ok(t) => t,
        Err(e) => {
            return Err(e);
        },
    };
    let bias_ptr = match bias {
        None => None,
        Some(g) => match g.access(mem) {
            Ok(s) => Some(s.ptr),
            Err(e) => {
                return Err(e);
            },
        },
    };
    if !c.sole_owner(mem) {
        return Err(GpuError::unrecoverable("BlasLt C has multiple live references"));
    }
    c.record_write(mem, stream);
    Ok(LtCall { element, config, a: a_s.ptr, b: b_s.ptr, c: c_s.ptr, bias: bias_ptr, activation })
}

impl<T: GemmSupported + HasScalar> MatmulRequest<T> {
    /// The cache key of the request's shape.
    pub open spec fn key(self, sm_arch: u32) -> HeuristicKey {
        HeuristicKey {
            m: self.m,
            n: self.n,
            k: self.k,
            dtype: heuristic::dtype_code(T::spec_element().spec_kind()),
            transa: self.transa,
            transb: self.transb,
            epilogue: self.epilogue,
            sm_arch,
        }
    }

    /// The request's shape and scalars.
    pub open spec fn config(self) -> MatmulConfig {
        MatmulConfig {
            transa: self.transa,
            transb: self.transb,
            transc: false,
            m: self.m as u64,
            n: self.n as u64,
            k: self.k as u64,
            alpha: blas::scalar_of(self.alpha),
            lda: self.lda,
            ldb: self.ldb,
            beta: blas::scalar_of(self.beta),
            ldc: self.ldc,
            stride_a: None,
            stride_b: None,
            stride_c: None,
            stride_bias: None,
            batch_size: None,
        }
    }

    /// The product to make through the safe interface.
    pub open spec fn safe_plan(self, m: MemoryView) -> Result<LtCall, ErrorView> {
        product_plan(
            T::spec_element(),
            self.config(),
            self.a,
            self.b,
            self.c,
            self.bias,
            self.epilogue.spec_activation(),
            m,
        )
    }

    /// Plan the product through the safe interface. The shape's entry in the
    /// heuristic cache counts as used, whatever becomes of the request.
    pub fn dispatch_safe_path(
        &self,
        mem: &mut MemoryTable,
        stream: u64,
        heuristic: &mut HeuristicCacheRef,
        sm_arch: u32,
    ) -> (r: Result<LtCall, GpuError>)
        requires
            old(heuristic).wf(),
        ensures
            error::outcome(r) == self.safe_plan(old(mem)@),
            final(mem)@ == if r is Ok {
                old(mem)@.written(self.c.buffer, stream)
            } else {
                old(mem)@
            },
            final(heuristic).wf(),
            final(heuristic)@ == lru_model::touched(
                old(heuristic)@,
                self.key(sm_arch).tuple(),
            ),
            final(heuristic).capacity() == old(heuristic).capacity(),
            final(heuristic).spec_top_k() == old(heuristic).spec_top_k(),
    {
        let key = HeuristicKey::new(
            self.m,
            self.n,
            self.k,
            T::kind(),
            self.transa,
            self.transb,
            self.epilogue,
            sm_arch,
        );
        let _ = heuristic.get(&key);
        let activation = self.epilogue.activation();
        let config = MatmulConfig {
            transa: self.transa,
            transb: self.transb,
            transc: false,
            m: self.m as u64,
            n: self.n as u64,
            k: self.k as u64,
            alpha: scalar(self.alpha),
            lda: self.lda,
            ldb: self.ldb,
            beta: scalar(self.beta),
            ldc: self.ldc,
            stride_a: None,
            stride_b: None,
            stride_c: None,
            stride_bias: None,
            batch_size: None,
        };
        plan_product(
            T::element(),
            config,
            &self.a,
            &self.b,
            &self.c,
            &self.bias,
            activation,
            mem,
            stream,
        )
    }
}

/// The answer for an element type that no interface makes products of yet.
pub open spec fn unsupported(dtype: Seq<char>) -> ErrorView {
    ErrorView::Unrecoverable(
        "BlasLtActor: matmul<"@ + dtype
            + "> not yet implemented (Phase 1 sys-level wiring pending)"@,
    )
}

fn unsupported_error(dtype: &str) -> (e: GpuError)
    ensures
        e@ == unsupported(dtype@),
{
    GpuError::Unrecoverable(
        join3(
            "BlasLtActor: matmul<",
            dtype,
            "> not yet implemented (Phase 1 sys-level wiring pending)",
        ),
    )
}

/// The error of a product that the library refused at the enqueue.
pub fn matmul_enqueue_error(text: &str) -> (e: GpuError)
    ensures
        e@ == (ErrorView::LibraryError { lib: LIB@, msg: "matmul: "@ + text@ }),
{
    GpuError::LibraryError { lib: LIB, msg: join2("matmul: ", text) }
}

/// Matrix product of any element type.
pub enum AnyMatmul {
    F32(MatmulRequest<F32>),
    F64(MatmulRequest<F64>),
    F16(MatmulRequest<F16>),
    Bf16(MatmulRequest<Bf16>),
    F8E4m3(MatmulRequest<F8E4m3>),
    F8E5m2(MatmulRequest<F8E5m2>),
}

impl AnyMatmul {
    /// Dtype of the request.
    pub open spec fn spec_dtype_kind(&self) -> DTypeKind {
        match self {
            AnyMatmul::F32(_) => DTypeKind::F32,
            AnyMatmul::F64(_) => DTypeKind::F64,
            AnyMatmul::F16(_) => DTypeKind::F16,
            AnyMatmul::Bf16(_) => DTypeKind::Bf16,
            AnyMatmul::F8E4m3(_) => DTypeKind::F8E4m3,
            AnyMatmul::F8E5m2(_) => DTypeKind::F8E5m2,
        }
    }

    /// Dtype of the request.
    pub fn dtype_kind(&self) -> (k: DTypeKind)
        ensures
            k == self.spec_dtype_kind(),
    {
        match self {
            AnyMatmul::F32(_) => DTypeKind::F32,
            AnyMatmul::F64(_) => DTypeKind::F64,
            AnyMatmul::F16(_) => DTypeKind::F16,
            AnyMatmul::Bf16(_) => DTypeKind::Bf16,
            AnyMatmul::F8E4m3(_) => DTypeKind::F8E4m3,
            AnyMatmul::F8E5m2(_) => DTypeKind::F8E5m2,
        }
    }

    /// The product to make, or why it is refused.
    pub open spec fn plan(self, m: MemoryView) -> Result<LtCall, ErrorView> {
        match self {
            AnyMatmul::F32(r) => r.safe_plan(m),
            AnyMatmul::F16(r) => r.safe_plan(m),
            AnyMatmul::Bf16(r) => r.safe_plan(m),
            AnyMatmul::F64(_) => Err(unsupported("f64"@)),
            AnyMatmul::F8E4m3(_) => Err(unsupported("fp8e4m3"@)),
            AnyMatmul::F8E5m2(_) => Err(unsupported("fp8e5m2"@)),
        }
    }

    /// The shape's key, for the types that go through the heuristic cache.
    pub open spec fn looked_up(self, sm_arch: u32) -> Option<HeuristicKey> {
        match self {
            AnyMatmul::F32(r) => Some(r.key(sm_arch)),
            AnyMatmul::F16(r) => Some(r.key(sm_arch)),
            AnyMatmul::Bf16(r) => Some(r.key(sm_arch)),
            _ => None,
        }
    }

    /// The memory with the output of the request marked as written on the stream.
    pub open spec fn written(self, m: MemoryView, stream: u64) -> MemoryView {
        match self {
            AnyMatmul::F32(r) => m.written(r.c.buffer, stream),
            AnyMatmul::F16(r) => m.written(r.c.buffer, stream),
            AnyMatmul::Bf16(r) => m.written(r.c.buffer, stream),
            _ => m,
        }
    }

    /// Validate the request and give the product to make.
    pub fn dispatch(
        &self,
        mem: &mut MemoryTable,
        stream: u64,
        heuristic: &mut HeuristicCacheRef,
        sm_arch: u32,
    ) -> (r: Result<LtCall, GpuError>)
        requires
            old(heuristic).wf(),
        ensures
            error::outcome(r) == self.plan(old(mem)@),
            final(mem)@ == if r is Ok {
                self.written(old(mem)@, stream)
            } else {
                old(mem)@
            },
            final(heuristic).wf(),
            final(heuristic)@ == match self.looked_up(sm_arch) {
                Some(key) => lru_model::touched(old(heuristic)@, key.tuple()),
                None => old(heuristic)@,
            },
            final(heuristic).capacity() == old(heuristic).capacity(),
            final(heuristic).spec_top_k() == old(heuristic).spec_top_k(),
    {
        match self {
            AnyMatmul::F32(r) => r.dispatch_safe_path(mem, stream, heuristic, sm_arch),
            AnyMatmul::F16(r) => r.dispatch_safe_path(mem, stream, heuristic, sm_arch),
            AnyMatmul::Bf16(r) => r.dispatch_safe_path(mem, stream, heuristic, sm_arch),
            AnyMatmul::F64(_) => Err(unsupported_error("f64")),
            AnyMatmul::F8E4m3(_) => Err(unsupported_error("fp8e4m3")),
            AnyMatmul::F8E5m2(_) => Err(unsupported_error("fp8e5m2")),
        }
    }
}

/// A product reaches the library exactly when its matrices and its bias are
/// valid and the request is the only owner of the output.
pub proof fn law_product_iff<T>(
    element: Element,
    config: MatmulConfig,
    a: GpuRef<T>,
    b: GpuRef<T>,
    c: GpuRef<T>,
    bias: Option<GpuRef<T>>,
    activation: Option<Activation>,
    m: MemoryView,
)
    ensures
        product_plan(element, config, a, b, c, bias, activation, m) is Ok <==> a.validity(m) is Ok
            && b.validity(m) is Ok && c.validity(m) is Ok && (bias matches Some(g) ==> g.validity(
            m,
        ) is Ok) && c.is_sole_owner(m),
{
}

/// The call of an accepted product takes every argument of the request in its own
/// place: matrices, shape, operations, leading dimensions, scalars with their
/// types, and the bias where there is one. There is no batch, and the output is
/// not transposed.
pub proof fn law_matmul_call<T: GemmSupported + HasScalar>(req: MatmulRequest<T>, m: MemoryView)
    ensures
        match req.safe_plan(m) {
            Ok(call) => {
                &&& req.a.validity(m) is Ok
                &&& req.b.validity(m) is Ok
                &&& req.c.validity(m) is Ok
                &&& req.bias matches Some(g) ==> g.validity(m) is Ok
                &&& m.buffer(req.c.buffer).owners == 1
                &&& call.element == T::spec_element()
                &&& call.config.transa == req.transa
                &&& call.config.transb == req.transb
                &&& !call.config.transc
                &&& 0 <= req.m ==> call.config.m == req.m
                &&& 0 <= req.n ==> call.config.n == req.n
                &&& 0 <= req.k ==> call.config.k == req.k
                &&& call.config.m == req.m as u64
                &&& call.config.n == req.n as u64
                &&& call.config.k == req.k as u64
                &&& call.config.alpha.bits == req.alpha.spec_bits()
                &&& call.config.alpha.data_type
                    == T::Scalar::spec_element().spec_cuda_data_type()
                &&& call.config.beta.bits == req.beta.spec_bits()
                &&& call.config.beta.data_type == T::Scalar::spec_element().spec_cuda_data_type()
                &&& call.config.lda == req.lda
                &&& call.config.ldb == req.ldb
                &&& call.config.ldc == req.ldc
                &&& call.config.stride_a is None
                &&& call.config.stride_b is None
                &&& call.config.stride_c is None
                &&& call.config.stride_bias is None
                &&& call.config.batch_size is None
                &&& call.a == req.a.slice.ptr
                &&& call.b == req.b.slice.ptr
                &&& call.c == req.c.slice.ptr
                &&& match req.bias {
                    Some(g) => call.bias == Some(g.slice.ptr),
                    None => call.bias is None,
                }
                &&& call.activation == req.epilogue.spec_activation()
            },
            Err(e) => {
                &&& req.a.validity(m) matches Err(stale) ==> e == stale
                &&& req.a.validity(m) is Ok ==> (req.b.validity(m) matches Err(stale) ==> e
                    == stale)
                &&& req.a.validity(m) is Ok && req.b.validity(m) is Ok ==> (req.c.validity(
                    m,
                ) matches Err(stale) ==> e == stale)
                &&& req.a.validity(m) is Ok && req.b.validity(m) is Ok && req.c.validity(m) is Ok
                    ==> (req.bias matches Some(g) ==> (g.validity(m) matches Err(stale) ==> e
                    == stale))
                &&& req.a.validity(m) is Ok && req.b.validity(m) is Ok && req.c.validity(m) is Ok
                    && (req.bias matches Some(g) ==> g.validity(m) is Ok) ==> {
                    &&& m.buffer(req.c.buffer).owners != 1
                    &&& e == ErrorView::Unrecoverable("BlasLt C has multiple live references"@)
                }
            },
        },
{
}

/// Entry that the library leaves in the output of a product, before the epilogue.
pub open spec fn product_entry(
    call: LtCall,
    mem: meaning::Contents,
    value: spec_fn(Scalar) -> int,
    row: int,
    col: int,
) -> int {
    let a = meaning::stored(mem, call.a, call.config.lda as int);
    let b = meaning::stored(mem, call.b, call.config.ldb as int);
    meaning::combined(
        value(call.config.alpha),
        if call.config.transa {
            meaning::transposed(a)
        } else {
            a
        },
        if call.config.transb {
            meaning::transposed(b)
        } else {
            b
        },
        call.config.k as int,
        value(call.config.beta),
        meaning::stored(mem, call.c, call.config.ldc as int),
        row,
        col,
    )
}

/// Before its epilogue an accepted product leaves `alpha * op(A) * op(B) + beta * C`
/// of the request's own matrices, operations and scalars.
pub proof fn law_matmul_meaning<T: GemmSupported + HasScalar>(
    req: MatmulRequest<T>,
    m: MemoryView,
    mem: meaning::Contents,
    value: spec_fn(Scalar) -> int,
    row: int,
    col: int,
)
    requires
        0 <= req.k,
    ensures
        req.safe_plan(m) matches Ok(call) ==> product_entry(call, mem, value, row, col)
            == meaning::combined(
            value(meaning::passed(req.alpha)),
            if req.transa {
                meaning::transposed(meaning::stored(mem, req.a.slice.ptr, req.lda as int))
            } else {
                meaning::stored(mem, req.a.slice.ptr, req.lda as int)
            },
            if req.transb {
                meaning::transposed(meaning::stored(mem, req.b.slice.ptr, req.ldb as int))
            } else {
                meaning::stored(mem, req.b.slice.ptr, req.ldb as int)
            },
            req.k as int,
            value(meaning::passed(req.beta)),
            meaning::stored(mem, req.c.slice.ptr, req.ldc as int),
            row,
            col,
        ),
{
}

/// With an `alpha` of zero what an accepted product leaves is `beta * C`, whatever
/// its factors hold.
pub proof fn law_matmul_zero_alpha<T: GemmSupported + HasScalar>(
    req: MatmulRequest<T>,
    m: MemoryView,
    mem: meaning::Contents,
    value: spec_fn(Scalar) -> int,
    row: int,
    col: int,
)
    requires
        0 <= req.k,
        value(meaning::passed(req.alpha)) == 0,
    ensures
        req.safe_plan(m) matches Ok(call) ==> product_entry(call, mem, value, row, col) == value(
            meaning::passed(req.beta),
        ) * mem(req.c.slice.ptr, row + col * req.ldc),
{
    law_matmul_meaning(req, m, mem, value, row, col);
}

/// With a `beta` of zero what an accepted product leaves does not depend on what
/// its output held before.
pub proof fn law_matmul_zero_beta<T: GemmSupported + HasScalar>(
    req: MatmulRequest<T>,
    m: MemoryView,
    mem: meaning::Contents,
    other: meaning::Contents,
    value: spec_fn(Scalar) -> int,
    row: int,
    col: int,
)
    requires
        0 <= req.k,
        value(meaning::passed(req.beta)) == 0,
        req.a.slice.ptr != req.c.slice.ptr,
        req.b.slice.ptr != req.c.slice.ptr,
        forall|ptr: u64, i: int|
            ptr != req.c.slice.ptr ==> #[trigger] mem(ptr, i) == other(ptr, i),
    ensures
        req.safe_plan(m) matches Ok(call) ==> product_entry(call, mem, value, row, col)
            == product_entry(call, other, value, row, col),
{
    law_matmul_meaning(req, m, mem, value, row, col);
    law_matmul_meaning(req, m, other, value, row, col);
    let (a, b) = (req.a.slice.ptr, req.b.slice.ptr);
    let (a1, b1) = (
        meaning::stored(mem, a, req.lda as int),
        meaning::stored(mem, b, req.ldb as int),
    );
    let (a2, b2) = (
        meaning::stored(other, a, req.lda as int),
        meaning::stored(other, b, req.ldb as int),
    );
    meaning::lemma_product_reads(
        if req.transa {
            meaning::transposed(a1)
        } else {
            a1
        },
        if req.transb {
            meaning::transposed(b1)
        } else {
            b1
        },
        if req.transa {
            meaning::transposed(a2)
        } else {
            a2
        },
        if req.transb {
            meaning::transposed(b2)
        } else {
            b2
        },
        req.k as nat,
        row,
        col,
    );
}

/// The cache key of a request says its own shape, type, operations, epilogue and
/// architecture, each in its place.
pub proof fn law_matmul_key<T: GemmSupported + HasScalar>(req: MatmulRequest<T>, sm_arch: u32)
    ensures
        req.key(sm_arch).m == req.m,
        req.key(sm_arch).n == req.n,
        req.key(sm_arch).k == req.k,
        req.key(sm_arch).dtype == heuristic::dtype_code(T::spec_element().spec_kind()),
        req.key(sm_arch).transa == req.transa,
        req.key(sm_arch).transb == req.transb,
        req.key(sm_arch).epilogue == req.epilogue,
        req.key(sm_arch).sm_arch == sm_arch,
{
}

/// Single, half and brain-float products are planned as above, looked up in the
/// cache and marked on their output; for the other types there is no interface
/// yet, and their requests are refused untouched.
pub proof fn law_matmul_by_type(
    f32s: MatmulRequest<F32>,
    f64s: MatmulRequest<F64>,
    f16s: MatmulRequest<F16>,
    bf16s: MatmulRequest<Bf16>,
    e4m3s: MatmulRequest<F8E4m3>,
    e5m2s: MatmulRequest<F8E5m2>,
    m: MemoryView,
    stream: u64,
    sm_arch: u32,
)
    ensures
        AnyMatmul::F32(f32s).plan(m) == f32s.safe_plan(m),
        AnyMatmul::F16(f16s).plan(m) == f16s.safe_plan(m),
        AnyMatmul::Bf16(bf16s).plan(m) == bf16s.safe_plan(m),
        AnyMatmul::F32(f32s).looked_up(sm_arch) == Some(f32s.key(sm_arch)),
        AnyMatmul::F16(f16s).looked_up(sm_arch) == Some(f16s.key(sm_arch)),
        AnyMatmul::Bf16(bf16s).looked_up(sm_arch) == Some(bf16s.key(sm_arch)),
        AnyMatmul::F32(f32s).written(m, stream).buffer(f32s.c.buffer).last_write == Some(stream),
        AnyMatmul::F16(f16s).written(m, stream).buffer(f16s.c.buffer).last_write == Some(stream),
        AnyMatmul::Bf16(bf16s).written(m, stream).buffer(bf16s.c.buffer).last_write == Some(
            stream,
        ),
        AnyMatmul::F64(f64s).plan(m) matches Err(ErrorView::Unrecoverable(text)) && text
            == "BlasLtActor: matmul<"@ + "f64"@
            + "> not yet implemented (Phase 1 sys-level wiring pending)"@,
        AnyMatmul::F8E4m3(e4m3s).plan(m) matches Err(ErrorView::Unrecoverable(text)) && text
            == "BlasLtActor: matmul<"@ + "fp8e4m3"@
            + "> not yet implemented (Phase 1 sys-level wiring pending)"@,
        AnyMatmul::F8E5m2(e5m2s).plan(m) matches Err(ErrorView::Unrecoverable(text)) && text
            == "BlasLtActor: matmul<"@ + "fp8e5m2"@
            + "> not yet implemented (Phase 1 sys-level wiring pending)"@,
        AnyMatmul::F32(f32s).written(m, stream) == m.written(f32s.c.buffer, stream),
        AnyMatmul::F16(f16s).written(m, stream) == m.written(f16s.c.buffer, stream),
        AnyMatmul::Bf16(bf16s).written(m, stream) == m.written(bf16s.c.buffer, stream),
        AnyMatmul::F64(f64s).written(m, stream) == m,
        AnyMatmul::F8E4m3(e4m3s).written(m, stream) == m,
        AnyMatmul::F8E5m2(e5m2s).written(m, stream) == m,
        AnyMatmul::F64(f64s).looked_up(sm_arch) is None,
        AnyMatmul::F8E4m3(e4m3s).looked_up(sm_arch) is None,
        AnyMatmul::F8E5m2(e5m2s).looked_up(sm_arch) is None,
        AnyMatmul::F32(f32s).spec_dtype_kind() == F32::spec_element().spec_kind(),
        AnyMatmul::F64(f64s).spec_dtype_kind() == F64::spec_element().spec_kind(),
        AnyMatmul::F16(f16s).spec_dtype_kind() == F16::spec_element().spec_kind(),
        AnyMatmul::Bf16(bf16s).spec_dtype_kind() == Bf16::spec_element().spec_kind(),
        AnyMatmul::F8E4m3(e4m3s).spec_dtype_kind() == F8E4m3::spec_element().spec_kind(),
        AnyMatmul::F8E5m2(e5m2s).spec_dtype_kind() == F8E5m2::spec_element().spec_kind(),
{
}

} // verus!
