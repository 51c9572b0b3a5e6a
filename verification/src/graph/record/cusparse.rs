//! cuSPARSE operations for recording. Their shapes and buffers are checked;
//! the recording itself is not available yet.

use vstd::prelude::*;
use vstd::string::*;

use crate::dtype::F32;
use crate::error::{ErrorView, GpuError};
use crate::error;
use crate::gpu_ref::{GpuRef, MemoryTable, MemoryView};
use crate::graph::record::cudnn;
use crate::graph::{GraphOpRecord, GraphRecordCtx, RecordCall};
use crate::text;
use crate::text::{join2, signed_text};

verus! {

/// Sparse matrix in compressed rows.
pub struct CsrMatrix {
    pub row_offsets: GpuRef<i32>,
    pub col_indices: GpuRef<i32>,
    pub values: GpuRef<F32>,
    pub rows: i64,
    pub cols: i64,
    pub nnz: i64,
}

/// Product of a sparse matrix and a vector.
pub struct SpMvOp {
    pub csr: CsrMatrix,
    pub x: GpuRef<F32>,
    pub y: GpuRef<F32>,
    pub alpha: F32,
    pub beta: F32,
}

/// Product of a sparse and a dense matrix.
pub struct SpMmOp {
    pub csr: CsrMatrix,
    pub b: GpuRef<F32>,
    pub c: GpuRef<F32>,
    pub b_cols: i64,
    pub ldb: i64,
    pub ldc: i64,
    pub alpha: F32,
    pub beta: F32,
}

impl CsrMatrix {
    /// The matrix has rows and columns, and no negative number of entries.
    pub open spec fn shape_ok(self) -> bool {
        self.rows > 0 && self.cols > 0 && self.nnz >= 0
    }

    /// Whether the shape and the buffers are usable, or the first error.
    pub open spec fn verdict(self, m: MemoryView) -> Result<(), ErrorView> {
        if !self.shape_ok() {
            Err(
                ErrorView::Unrecoverable(
                    "CsrMatrix: invalid dims (rows="@ + text::signed_decimal(self.rows as int)
                        + ", cols="@ + text::signed_decimal(self.cols as int) + ", nnz="@
                        + text::signed_decimal(self.nnz as int) + ")"@,
                ),
            )
        } else {
            cudnn::both(
                cudnn::unit(self.row_offsets.validity(m)),
                cudnn::both(
                    cudnn::unit(self.col_indices.validity(m)),
                    cudnn::unit(self.values.validity(m)),
                ),
            )
        }
    }
}

/// Check that the shape and the buffers of a matrix are usable.
pub fn validate_csr(c: &CsrMatrix, mem: &MemoryTable) -> (r: Result<(), GpuError>)
    ensures
        error::outcome(r) == c.verdict(mem@),
{
    if c.rows <= 0 || c.cols <= 0 || c.nnz < 0 {
        let rows = signed_text(c.rows);
        let cols = signed_text(c.cols);
        let nnz = signed_text(c.nnz);
        let mut msg = join2("CsrMatrix: invalid dims (rows=", rows.as_str());
        msg.append(", cols=");
        msg.append(cols.as_str());
        msg.append(", nnz=");
        msg.append(nnz.as_str());
        msg.append(")");
        return Err(GpuError::Unrecoverable(msg));
    }
    if let Err(e) = c.row_offsets.access(mem) {
        return Err(e);
    }
    if let Err(e) = c.col_indices.access(mem) {
        return Err(e);
    }
    if let Err(e) = c.values.access(mem) {
        return Err(e);
    }
    Ok(())
}

impl SpMvOp {
    /// What recording comes to.
    pub open spec fn spec_record(&self, ctx: GraphRecordCtx, m: MemoryView) -> Result<
        RecordCall,
        ErrorView,
    > {
        cudnn::not_recorded(
            cudnn::both(
                self.csr.verdict(m),
                cudnn::both(cudnn::unit(self.x.validity(m)), cudnn::unit(self.y.validity(m))),
            ),
            "graph::record::cusparse::SpMv: cuSPARSE capture-mode entry not yet wired (Phase 4 will revisit when the actor surface expands)"@,
        )
    }
}

impl GraphOpRecord for SpMvOp {
    fn record(&self, ctx: &GraphRecordCtx, mem: &MemoryTable) -> (r: Result<
        RecordCall,
        GpuError,
    >)
        ensures
            error::outcome(r) == self.spec_record(*ctx, mem@),
    {
        if let Err(e) = validate_csr(&self.csr, mem) {
            return Err(e);
        }
        if let Err(e) = self.x.access(mem) {
            return Err(e);
        }
        if let Err(e) = self.y.access(mem) {
            return Err(e);
        }
        Err(
            GpuError::unrecoverable(
                "graph::record::cusparse::SpMv: cuSPARSE capture-mode entry not yet wired (Phase 4 will revisit when the actor surface expands)",
            ),
        )
    }
}

impl SpMmOp {
    /// Whether the dense sides are positive, or the error that lists them.
    pub open spec fn sides(self) -> Result<(), ErrorView> {
        if self.b_cols > 0 && self.ldb > 0 && self.ldc > 0 {
            Ok(())
        } else {
            Err(
                ErrorView::Unrecoverable(
                    "SpMm: non-positive (b_cols, ldb, ldc) = ("@ + text::signed_decimal(
                        self.b_cols as int,
                    ) + ", "@ + text::signed_decimal(self.ldb as int) + ", "@
                        + text::signed_decimal(self.ldc as int) + ")"@,
                ),
            )
        }
    }
}

impl SpMmOp {
    /// What recording comes to.
    pub open spec fn spec_record(&self, ctx: GraphRecordCtx, m: MemoryView) -> Result<
        RecordCall,
        ErrorView,
    > {
        cudnn::not_recorded(
            cudnn::both(
                self.csr.verdict(m),
                cudnn::both(
                    cudnn::unit(self.b.validity(m)),
                    cudnn::both(cudnn::unit(self.c.validity(m)), self.sides()),
                ),
            ),
            "graph::record::cusparse::SpMm: cuSPARSE capture-mode entry not yet wired"@,
        )
    }
}

impl GraphOpRecord for SpMmOp {
    fn record(&self, ctx: &GraphRecordCtx, mem: &MemoryTable) -> (r: Result<
        RecordCall,
        GpuError,
    >)
        ensures
            error::outcome(r) == self.spec_record(*ctx, mem@),
    {
        if let Err(e) = validate_csr(&self.csr, mem) {
            return Err(e);
        }
        if let Err(e) = self.b.access(mem) {
            return Err(e);
        }
        if let Err(e) = self.c.access(mem) {
            return Err(e);
        }
        if self.b_cols <= 0 || self.ldb <= 0 || self.ldc <= 0 {
            let b_cols = signed_text(self.b_cols);
            let ldb = signed_text(self.ldb);
            let ldc = signed_text(self.ldc);
            let mut msg = join2("SpMm: non-positive (b_cols, ldb, ldc) = (", b_cols.as_str());
            msg.append(", ");
            msg.append(ldb.as_str());
            msg.append(", ");
            msg.append(ldc.as_str());
            msg.append(")");
            return Err(GpuError::Unrecoverable(msg));
        }
        Err(
            GpuError::unrecoverable(
                "graph::record::cusparse::SpMm: cuSPARSE capture-mode entry not yet wired",
            ),
        )
    }
}

/// A sparse matrix is usable exactly when it has rows and columns, no negative
/// number of entries and three valid buffers; otherwise the first fault is the
/// answer, the shape first.
pub proof fn law_csr_is_checked(c: CsrMatrix, m: MemoryView)
    ensures
        c.verdict(m) is Ok <==> {
            &&& c.rows > 0 && c.cols > 0 && c.nnz >= 0
            &&& c.row_offsets.validity(m) is Ok
            &&& c.col_indices.validity(m) is Ok
            &&& c.values.validity(m) is Ok
        },
        c.rows <= 0 || c.cols <= 0 || c.nnz < 0 ==> (c.verdict(m) matches Err(e) && e
            == ErrorView::Unrecoverable(
            "CsrMatrix: invalid dims (rows="@ + text::signed_decimal(c.rows as int) + ", cols="@
                + text::signed_decimal(c.cols as int) + ", nnz="@ + text::signed_decimal(
                c.nnz as int,
            ) + ")"@,
        )),
        c.rows > 0 && c.cols > 0 && c.nnz >= 0 ==> (c.verdict(m) matches Err(e) ==> {
            &&& c.row_offsets.validity(m) matches Err(stale) ==> e == stale
            &&& c.row_offsets.validity(m) is Ok ==> (c.col_indices.validity(m) matches Err(stale)
                ==> e == stale)
            &&& c.row_offsets.validity(m) is Ok && c.col_indices.validity(m) is Ok ==> (
            c.values.validity(m) matches Err(stale) ==> e == stale)
        }),
{
}

/// Products with a sparse matrix cannot be recorded yet, and say so only once the
/// matrix, the other operands and the sides are in order.
pub proof fn law_sparse_products_are_checked(
    mv: SpMvOp,
    mm: SpMmOp,
    ctx: GraphRecordCtx,
    m: MemoryView,
)
    ensures
        mv.spec_record(ctx, m) matches Err(e) && {
            &&& mv.csr.verdict(m) matches Err(fault) ==> e == fault
            &&& mv.csr.verdict(m) is Ok ==> (mv.x.validity(m) matches Err(stale) ==> e == stale)
            &&& mv.csr.verdict(m) is Ok && mv.x.validity(m) is Ok ==> (mv.y.validity(
                m,
            ) matches Err(stale) ==> e == stale)
            &&& mv.csr.verdict(m) is Ok && mv.x.validity(m) is Ok && mv.y.validity(m) is Ok ==> e
                == ErrorView::Unrecoverable(
                "graph::record::cusparse::SpMv: cuSPARSE capture-mode entry not yet wired (Phase 4 will revisit when the actor surface expands)"@,
            )
        },
        mm.spec_record(ctx, m) matches Err(e) && {
            &&& mm.csr.verdict(m) matches Err(fault) ==> e == fault
            &&& mm.csr.verdict(m) is Ok ==> (mm.b.validity(m) matches Err(stale) ==> e == stale)
            &&& mm.csr.verdict(m) is Ok && mm.b.validity(m) is Ok ==> (mm.c.validity(
                m,
            ) matches Err(stale) ==> e == stale)
            &&& mm.csr.verdict(m) is Ok && mm.b.validity(m) is Ok && mm.c.validity(m) is Ok ==> {
                &&& mm.b_cols <= 0 || mm.ldb <= 0 || mm.ldc <= 0 ==> e
                    == ErrorView::Unrecoverable(
                    "SpMm: non-positive (b_cols, ldb, ldc) = ("@ + text::signed_decimal(
                        mm.b_cols as int,
                    ) + ", "@ + text::signed_decimal(mm.ldb as int) + ", "@
                        + text::signed_decimal(mm.ldc as int) + ")"@,
                )
                &&& mm.b_cols > 0 && mm.ldb > 0 && mm.ldc > 0 ==> e == ErrorView::Unrecoverable(
                    "graph::record::cusparse::SpMm: cuSPARSE capture-mode entry not yet wired"@,
                )
            }
        },
{
}

} // verus!
