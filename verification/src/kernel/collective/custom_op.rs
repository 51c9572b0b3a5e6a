//! Reduction with a premultiplied scalar.

use vstd::prelude::*;

use crate::dtype::NcclDataType;
use crate::error::{ErrorView, GpuError};
use crate::error;
use crate::gpu_ref::{GpuRef, MemoryTable, MemoryView};
use crate::kernel::collective::{NcclReduceSupported, LIB};
use crate::text::join2;

verus! {

/// The creation call of the operation: where the scalar is, and its type.
#[derive(Debug, Clone, Copy, PartialEq, Eq, Structural)]
pub struct PreMulSumPlan {
    pub scalar: u64,
    pub data_type: NcclDataType,
}

/// A sum whose terms are first multiplied by a scalar in device memory. The
/// scalar's buffer lives as long as the operation.
pub struct PreMulSumOp<T: NcclReduceSupported> {
    handle: u64,
    scalar: GpuRef<T>,
}

/// The creation call for a scalar buffer, or why it is refused.
pub open spec fn creation<T: NcclReduceSupported>(scalar: GpuRef<T>, m: MemoryView) -> Result<
    PreMulSumPlan,
    ErrorView,
> {
    match scalar.validity(m) {
        Err(e) => Err(e),
        Ok(s) => if s.len == 0 {
            Err(ErrorView::Unrecoverable("PreMulSumOp scalar buffer is empty"@))
        } else {
            Ok(PreMulSumPlan { scalar: s.ptr, data_type: T::spec_element().spec_nccl()->0 })
        },
    }
}

impl<T: NcclReduceSupported> PreMulSumOp<T> {
    /// The operation's NCCL handle.
    pub closed spec fn spec_handle(&self) -> u64 {
        self.handle
    }

    /// The operation's scalar buffer.
    pub closed spec fn spec_scalar(&self) -> GpuRef<T> {
        self.scalar
    }

    /// Validate the scalar buffer and give the creation call.
    pub fn plan(scalar: &GpuRef<T>, mem: &MemoryTable) -> (r: Result<PreMulSumPlan, GpuError>)
        ensures
            error::outcome(r) == creation(*scalar, mem@),
    {
        proof {
            T::law_has_nccl_type();
        }
        match scalar.access(mem) {
            Err(e) => Err(e),
            Ok(s) => {
                if s.len == 0 {
                    return Err(GpuError::unrecoverable("PreMulSumOp scalar buffer is empty"));
                }
                Ok(PreMulSumPlan { scalar: s.ptr, data_type: T::nccl_data_type() })
            },
        }
    }

    /// The operation, from what the creation call gave: its handle, or the
    /// library's error text.
    pub fn new(scalar: GpuRef<T>, created: Result<u64, String>) -> (r: Result<
        PreMulSumOp<T>,
        GpuError,
    >)
        ensures
            match created {
                Ok(handle) => r is Ok && r->Ok_0.spec_handle() == handle
                    && r->Ok_0.spec_scalar() == scalar,
                Err(text) => r is Err && r->Err_0@ == (ErrorView::LibraryError {
                    lib: LIB@,
                    msg: "ncclRedOpCreatePreMulSum: "@ + text@,
                }),
            },
    {
        match created {
            Ok(handle) => Ok(PreMulSumOp { handle, scalar }),
            Err(text) => Err(
                GpuError::LibraryError {
                    lib: LIB,
                    msg: join2("ncclRedOpCreatePreMulSum: ", text.as_str()),
                },
            ),
        }
    }

    /// The operation's NCCL handle.
    pub fn handle(&self) -> (h: u64)
        ensures
            h == self.spec_handle(),
    {
        self.handle
    }

    /// The answer of destroying the operation, from the outcome of the NCCL
    /// call.
    pub fn destroy(self, destroyed: Result<(), String>) -> (r: Result<(), GpuError>)
        ensures
            error::outcome(r) == match destroyed {
                Ok(_) => Ok(()),
                Err(text) => Err(
                    ErrorView::LibraryError { lib: LIB@, msg: "ncclRedOpDestroy: "@ + text@ },
                ),
            },
    {
        match destroyed {
            Ok(_) => Ok(()),
            Err(text) => Err(
                GpuError::LibraryError {
                    lib: LIB,
                    msg: join2("ncclRedOpDestroy: ", text.as_str()),
                },
            ),
        }
    }
}

/// The operation is created from the first element of the scalar's buffer, in the
/// NCCL type of its element. It is created exactly when the buffer is valid and
/// not empty.
pub proof fn law_created_from_its_scalar<T: NcclReduceSupported>(
    scalar: GpuRef<T>,
    m: MemoryView,
)
    ensures
        match creation(scalar, m) {
            Ok(plan) => {
                &&& scalar.validity(m) is Ok && scalar.slice.len > 0
                &&& plan.scalar == scalar.slice.ptr
                &&& Some(plan.data_type) == T::spec_element().spec_nccl()
            },
            Err(e) => if scalar.validity(m) is Ok {
                &&& scalar.slice.len == 0
                &&& e == ErrorView::Unrecoverable("PreMulSumOp scalar buffer is empty"@)
            } else {
                scalar.validity(m) matches Err(stale) && e == stale
            },
        },
{
    T::law_has_nccl_type();
}

} // verus!
