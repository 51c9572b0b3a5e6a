//! What the matrix products compute.
//!
//! The entries of a matrix stand column by column at a device address, each column
//! `ld` elements after the one before. The contents of the device memory are a
//! function from an address and the number of an element there to a value, and
//! a scalar argument has a value of its own. Values are integers here: what is
//! stated needs only sums and products.

use vstd::prelude::*;

use crate::dtype::{GemmSupported, ScalarBits};
use crate::gpu_ref::MemoryView;
use crate::kernel::blas::gemm::GemmRequest;
use crate::kernel::blas::gemm_strided_batched::GemmStridedBatchedRequest;
use crate::kernel::blas::{BlasCall, CublasOperation, Scalar};

verus! {

/// The contents of the device memory.
pub type Contents = spec_fn(u64, int) -> int;

/// A matrix, as the function from row and column to the entry.
pub type Matrix = spec_fn(int, int) -> int;

/// The matrix that is stored at an address.
pub open spec fn stored(mem: Contents, ptr: u64, ld: int) -> Matrix {
    |row: int, col: int| mem(ptr, row + col * ld)
}

/// The matrix that is stored a number of elements after an address.
pub open spec fn stored_at(mem: Contents, ptr: u64, first: int, ld: int) -> Matrix {
    |row: int, col: int| mem(ptr, first + (row + col * ld))
}

/// The matrix with rows and columns exchanged.
pub open spec fn transposed(a: Matrix) -> Matrix {
    |row: int, col: int| a(col, row)
}

/// The matrix as an operation takes it. Over the reals the conjugate transpose is
/// the transpose.
pub open spec fn taken(a: Matrix, op: CublasOperation) -> Matrix {
    match op {
        CublasOperation::N => a,
        CublasOperation::T => transposed(a),
        CublasOperation::C => transposed(a),
    }
}

/// Entry of the product of two matrices, the first of which has `k` columns.
pub open spec fn product(a: Matrix, b: Matrix, k: nat, row: int, col: int) -> int
    decreases k,
{
    if k == 0 {
        0
    } else {
        product(a, b, (k - 1) as nat, row, col) + a(row, k - 1) * b(k - 1, col)
    }
}

/// Entry of `alpha * A * B + beta * C`.
pub open spec fn combined(
    alpha: int,
    a: Matrix,
    b: Matrix,
    k: int,
    beta: int,
    c: Matrix,
    row: int,
    col: int,
) -> int {
    alpha * product(
        a,
        b,
        if k > 0 {
            k as nat
        } else {
            0
        },
        row,
        col,
    ) + beta * c(row, col)
}

/// Entry that a call of the library's matrix product leaves in its output.
pub open spec fn gemm_entry(
    call: BlasCall,
    mem: Contents,
    value: spec_fn(Scalar) -> int,
    row: int,
    col: int,
) -> int {
    match call {
        BlasCall::Gemm { config, a, b, c, .. } => combined(
            value(config.alpha),
            taken(stored(mem, a, config.lda as int), config.trans_a),
            taken(stored(mem, b, config.ldb as int), config.trans_b),
            config.k as int,
            value(config.beta),
            stored(mem, c, config.ldc as int),
            row,
            col,
        ),
        _ => 0,
    }
}

/// Entry that a batched call leaves in the output of one of its products.
pub open spec fn batched_entry(
    call: BlasCall,
    mem: Contents,
    value: spec_fn(Scalar) -> int,
    batch: int,
    row: int,
    col: int,
) -> int {
    match call {
        BlasCall::GemmStridedBatched {
            config,
            stride_a,
            stride_b,
            stride_c,
            a,
            b,
            c,
            ..
        } => combined(
            value(config.alpha),
            taken(stored_at(mem, a, batch * stride_a, config.lda as int), config.trans_a),
            taken(stored_at(mem, b, batch * stride_b, config.ldb as int), config.trans_b),
            config.k as int,
            value(config.beta),
            stored_at(mem, c, batch * stride_c, config.ldc as int),
            row,
            col,
        ),
        _ => 0,
    }
}

/// A scalar of the request, as the library sees it.
pub open spec fn passed<S: ScalarBits>(v: S) -> Scalar {
    Scalar { bits: v.spec_bits(), data_type: S::spec_element().spec_cuda_data_type() }
}

/// The call of an accepted product leaves `alpha * op(A) * op(B) + beta * C` of the
/// request's own matrices, operations and scalars.
pub proof fn law_gemm_meaning<T: GemmSupported + ScalarBits>(
    req: GemmRequest<T>,
    m: MemoryView,
    mem: Contents,
    value: spec_fn(Scalar) -> int,
    row: int,
    col: int,
)
    ensures
        req.spec_plan(m) matches Ok(call) ==> gemm_entry(call, mem, value, row, col) == combined(
            value(passed(req.alpha)),
            taken(stored(mem, req.a.slice.ptr, req.lda as int), req.trans_a),
            taken(stored(mem, req.b.slice.ptr, req.ldb as int), req.trans_b),
            req.k as int,
            value(passed(req.beta)),
            stored(mem, req.c.slice.ptr, req.ldc as int),
            row,
            col,
        ),
        req.spec_plan(m) matches Ok(call) ==> call is Gemm,
{
}

/// The call of an accepted batch leaves, in the output of each product,
/// `alpha * op(A) * op(B) + beta * C` of that product's own matrices.
pub proof fn law_batched_meaning<T: GemmSupported + ScalarBits>(
    req: GemmStridedBatchedRequest<T>,
    m: MemoryView,
    mem: Contents,
    value: spec_fn(Scalar) -> int,
    batch: int,
    row: int,
    col: int,
)
    ensures
        req.spec_plan(m) matches Ok(call) ==> batched_entry(call, mem, value, batch, row, col)
            == combined(
            value(passed(req.alpha)),
            taken(
                stored_at(mem, req.a.slice.ptr, batch * req.stride_a, req.lda as int),
                req.trans_a,
            ),
            taken(
                stored_at(mem, req.b.slice.ptr, batch * req.stride_b, req.ldb as int),
                req.trans_b,
            ),
            req.k as int,
            value(passed(req.beta)),
            stored_at(mem, req.c.slice.ptr, batch * req.stride_c, req.ldc as int),
            row,
            col,
        ),
        req.spec_plan(m) matches Ok(call) ==> call matches BlasCall::GemmStridedBatched {
            batch_size,
            ..
        } && batch_size == req.batch_size,
{
}

/// The product of matrices with the same entries is the same.
pub proof fn lemma_product_reads(a: Matrix, b: Matrix, a2: Matrix, b2: Matrix, k: nat, row: int, col: int)
    requires
        forall|i: int, j: int| #[trigger] a(i, j) == a2(i, j),
        forall|i: int, j: int| #[trigger] b(i, j) == b2(i, j),
    ensures
        product(a, b, k, row, col) == product(a2, b2, k, row, col),
    decreases k,
{
    if k > 0 {
        lemma_product_reads(a, b, a2, b2, (k - 1) as nat, row, col);
        assert(a(row, k - 1) == a2(row, k - 1));
        assert(b(k - 1, col) == b2(k - 1, col));
    }
}

/// With a `beta` of zero the result does not depend on what the output held
/// before: a combination of the same factors is the same over any old output.
pub proof fn law_zero_beta_forgets_the_output(
    alpha: int,
    a: Matrix,
    b: Matrix,
    k: int,
    old_c: Matrix,
    other_c: Matrix,
    row: int,
    col: int,
)
    ensures
        combined(alpha, a, b, k, 0, old_c, row, col) == combined(
            alpha,
            a,
            b,
            k,
            0,
            other_c,
            row,
            col,
        ),
{
}

/// A product of an accepted request with a `beta` of zero gives the same result in
/// two memories that differ in the output alone.
pub proof fn law_gemm_zero_beta<T: GemmSupported + ScalarBits>(
    req: GemmRequest<T>,
    m: MemoryView,
    mem: Contents,
    other: Contents,
    value: spec_fn(Scalar) -> int,
    row: int,
    col: int,
)
    requires
        value(passed(req.beta)) == 0,
        req.a.slice.ptr != req.c.slice.ptr,
        req.b.slice.ptr != req.c.slice.ptr,
        forall|ptr: u64, i: int|
            ptr != req.c.slice.ptr ==> #[trigger] mem(ptr, i) == other(ptr, i),
    ensures
        req.spec_plan(m) matches Ok(call) ==> gemm_entry(call, mem, value, row, col) == gemm_entry(
            call,
            other,
            value,
            row,
            col,
        ),
{
    law_gemm_meaning(req, m, mem, value, row, col);
    law_gemm_meaning(req, m, other, value, row, col);
    let k = if req.k > 0 {
        req.k as nat
    } else {
        0
    };
    lemma_product_reads(
        taken(stored(mem, req.a.slice.ptr, req.lda as int), req.trans_a),
        taken(stored(mem, req.b.slice.ptr, req.ldb as int), req.trans_b),
        taken(stored(other, req.a.slice.ptr, req.lda as int), req.trans_a),
        taken(stored(other, req.b.slice.ptr, req.ldb as int), req.trans_b),
        k,
        row,
        col,
    );
}

/// With an `alpha` of zero the product's factors do not matter.
pub proof fn law_zero_alpha_forgets_the_factors<T: GemmSupported + ScalarBits>(
    req: GemmRequest<T>,
    m: MemoryView,
    mem: Contents,
    value: spec_fn(Scalar) -> int,
    row: int,
    col: int,
)
    requires
        value(passed(req.alpha)) == 0,
    ensures
        req.spec_plan(m) matches Ok(call) ==> gemm_entry(call, mem, value, row, col) == value(
            passed(req.beta),
        ) * mem(req.c.slice.ptr, row + col * req.ldc),
{
    law_gemm_meaning(req, m, mem, value, row, col);
}

} // verus!
