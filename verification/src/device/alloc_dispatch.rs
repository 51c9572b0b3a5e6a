//! Typed allocation and copy requests of a device.
//!
//! A typed request ([`AllocReq`], [`CopyToHostReq`], [`CopyFromHostReq`]) keeps
//! its element type in a type parameter; its erased form carries the dtype as
//! a tag, so that one message shape serves every element type.

use std::marker::PhantomData;

use vstd::prelude::*;
use vstd::string::*;

use crate::device::DeviceState;
use crate::dtype::{CudaDtype, DType};
use crate::error::{ErrorView, GpuError};
use crate::error;
use crate::gpu_ref::{BufferState, DeviceSlice, GpuRef, MemoryTable};
use crate::text::{join3, unsigned_text};
use crate::text;

verus! {

/// A host buffer that a copy reads or fills, by its handle and its length.
#[derive(Debug, Clone, Copy, PartialEq, Eq, Structural)]
pub struct HostBuf {
    pub handle: u64,
    pub len: usize,
}

/// What the device reads of an allocation request.
pub trait AllocDispatch {
    /// Element type of the allocation.
    fn dtype(&self) -> (d: DType);

    /// Number of elements.
    fn len(&self) -> (n: usize);
}

/// What the device reads of a device-to-host copy.
pub trait CopyToHostDispatch {
    /// Element type of the copy.
    fn dtype(&self) -> (d: DType);
}

/// What the device reads of a host-to-device copy.
pub trait CopyFromHostDispatch {
    /// Element type of the copy.
    fn dtype(&self) -> (d: DType);
}

/// Allocation of `len` elements of type `T`, answered on `reply`.
pub struct AllocReq<T: CudaDtype> {
    pub len: usize,
    pub reply: u64,
    pub element: PhantomData<T>,
}

/// [`AllocReq`] with its element type as a tag.
#[derive(Debug, Clone, Copy, PartialEq, Eq, Structural)]
pub struct AllocOp {
    pub dtype: DType,
    pub len: usize,
    pub reply: u64,
}

/// What to do next for an allocation: answer right away, or allocate on the
/// stream and hand the outcome to [`AllocReq::finish`].
pub enum AllocStep {
    Reply(GpuError),
    AllocZeros { stream: u64, len: usize },
}

impl<T: CudaDtype> AllocReq<T> {
    /// A request for `len` elements.
    pub fn new(len: usize, reply: u64) -> (r: AllocReq<T>)
        ensures
            r.len == len,
            r.reply == reply,
    {
        AllocReq { len, reply, element: PhantomData }
    }

    /// The erased form of the request.
    pub open spec fn spec_erase(self) -> AllocOp {
        AllocOp { dtype: T::spec_element().spec_kind(), len: self.len, reply: self.reply }
    }

    /// The erased form of the request.
    pub fn erase(&self) -> (op: AllocOp)
        ensures
            op == self.spec_erase(),
    {
        AllocOp { dtype: T::kind(), len: self.len, reply: self.reply }
    }

    /// Decide what to do for the request. A mock context allocates nothing,
    /// and a context without a stream is not ready.
    pub fn run(&self, stream: Option<u64>, mock_mode: bool) -> (s: AllocStep)
        ensures
            match s {
                AllocStep::Reply(e) => e@ == if mock_mode {
                    ErrorView::Unrecoverable("alloc not supported in mock mode"@)
                } else {
                    ErrorView::GpuRefStale("context not ready"@)
                } && (mock_mode || stream is None),
                AllocStep::AllocZeros { stream: on, len } => !mock_mode && stream == Some(on)
                    && len == self.len,
            },
    {
        if mock_mode {
            return AllocStep::Reply(GpuError::unrecoverable("alloc not supported in mock mode"));
        }
        match stream {
            None => AllocStep::Reply(GpuError::GpuRefStale("context not ready")),
            Some(stream) => AllocStep::AllocZeros { stream, len: self.len },
        }
    }

    /// The answer to the request, from what the allocation gave: the slice,
    /// or the text of the driver's error. A slice becomes the buffer with the
    /// handle `buffer`, on the device with the handle `device`.
    pub fn finish(
        &self,
        device: u64,
        state: &DeviceState,
        buffer: u64,
        mem: &mut MemoryTable,
        allocated: Result<DeviceSlice, String>,
    ) -> (r: Result<GpuRef<T>, GpuError>)
        ensures
            final(mem)@ == if allocated is Ok {
                old(mem)@.with_buffer(buffer, BufferState { owners: 1, last_write: None })
            } else {
                old(mem)@
            },
            error::outcome(r) == match allocated {
                Ok(slice) => Ok(GpuRef::<T>::minted(slice, device, *state, buffer)),
                Err(e) => Err(
                    ErrorView::OutOfMemory(
                        "alloc "@ + text::decimal(self.len as nat) + ": "@ + e@,
                    ),
                ),
            },
    {
        match allocated {
            Ok(slice) => Ok(GpuRef::new(slice, device, state, buffer, mem)),
            Err(e) => {
                let n = unsigned_text(self.len as u64);
                let mut msg = join3("alloc ", n.as_str(), ": ");
                msg.append(e.as_str());
                Err(GpuError::OutOfMemory(msg))
            },
        }
    }
}

impl<T: CudaDtype> AllocDispatch for AllocReq<T> {
    fn dtype(&self) -> (d: DType)
        ensures
            d == T::spec_element().spec_kind(),
    {
        T::kind()
    }

    fn len(&self) -> (n: usize)
        ensures
            n == self.len,
    {
        self.len
    }
}

impl AllocDispatch for AllocOp {
    fn dtype(&self) -> (d: DType)
        ensures
            d == self.dtype,
    {
        self.dtype
    }

    fn len(&self) -> (n: usize)
        ensures
            n == self.len,
    {
        self.len
    }
}

/// Device-to-host copy of `src` into `dst`; the buffer comes back with the
/// answer.
pub struct CopyToHostReq<T: CudaDtype> {
    pub src: GpuRef<T>,
    pub dst: HostBuf,
    pub reply: u64,
}

/// [`CopyToHostReq`] with its element type as a tag.
pub struct CopyToHostOp {
    pub dtype: DType,
    pub src: GpuRef<()>,
    pub dst: HostBuf,
    pub reply: u64,
}

impl<T: CudaDtype> CopyToHostReq<T> {
    /// The erased form of the request.
    pub open spec fn spec_erase(self) -> CopyToHostOp {
        CopyToHostOp {
            dtype: T::spec_element().spec_kind(),
            src: self.src.spec_erased(),
            dst: self.dst,
            reply: self.reply,
        }
    }

    /// The erased form of the request.
    pub fn erase(&self) -> (op: CopyToHostOp)
        ensures
            op == self.spec_erase(),
    {
        CopyToHostOp {
            dtype: T::kind(),
            src: self.src.erased(),
            dst: self.dst,
            reply: self.reply,
        }
    }
}

impl<T: CudaDtype> CopyToHostDispatch for CopyToHostReq<T> {
    fn dtype(&self) -> (d: DType)
        ensures
            d == T::spec_element().spec_kind(),
    {
        T::kind()
    }
}

impl CopyToHostDispatch for CopyToHostOp {
    fn dtype(&self) -> (d: DType)
        ensures
            d == self.dtype,
    {
        self.dtype
    }
}

/// Host-to-device copy of `src` into `dst`; the buffer comes back with the
/// answer.
pub struct CopyFromHostReq<T: CudaDtype> {
    pub src: HostBuf,
    pub dst: GpuRef<T>,
    pub reply: u64,
}

/// [`CopyFromHostReq`] with its element type as a tag.
pub struct CopyFromHostOp {
    pub dtype: DType,
    pub src: HostBuf,
    pub dst: GpuRef<()>,
    pub reply: u64,
}

impl<T: CudaDtype> CopyFromHostReq<T> {
    /// The erased form of the request.
    pub open spec fn spec_erase(self) -> CopyFromHostOp {
        CopyFromHostOp {
            dtype: T::spec_element().spec_kind(),
            src: self.src,
            dst: self.dst.spec_erased(),
            reply: self.reply,
        }
    }

    /// The erased form of the request.
    pub fn erase(&self) -> (op: CopyFromHostOp)
        ensures
            op == self.spec_erase(),
    {
        CopyFromHostOp {
            dtype: T::kind(),
            src: self.src,
            dst: self.dst.erased(),
            reply: self.reply,
        }
    }
}

impl<T: CudaDtype> CopyFromHostDispatch for CopyFromHostReq<T> {
    fn dtype(&self) -> (d: DType)
        ensures
            d == T::spec_element().spec_kind(),
    {
        T::kind()
    }
}

impl CopyFromHostDispatch for CopyFromHostOp {
    fn dtype(&self) -> (d: DType)
        ensures
            d == self.dtype,
    {
        self.dtype
    }
}

/// The erased forms keep everything of their requests and take the type down as
/// its tag: how many elements, which buffer, which host memory, and who waits for
/// the answer.
pub proof fn law_erased_requests<T: CudaDtype>(
    alloc: AllocReq<T>,
    out: CopyToHostReq<T>,
    back: CopyFromHostReq<T>,
)
    ensures
        alloc.spec_erase().dtype == T::spec_element().spec_kind(),
        alloc.spec_erase().len == alloc.len,
        alloc.spec_erase().reply == alloc.reply,
        out.spec_erase().dtype == T::spec_element().spec_kind(),
        out.spec_erase().src.slice == out.src.slice,
        out.spec_erase().src.generation == out.src.generation,
        out.spec_erase().src.device == out.src.device,
        out.spec_erase().src.buffer == out.src.buffer,
        out.spec_erase().dst == out.dst,
        out.spec_erase().reply == out.reply,
        back.spec_erase().dtype == T::spec_element().spec_kind(),
        back.spec_erase().src == back.src,
        back.spec_erase().dst.slice == back.dst.slice,
        back.spec_erase().dst.generation == back.dst.generation,
        back.spec_erase().dst.device == back.dst.device,
        back.spec_erase().dst.buffer == back.dst.buffer,
        back.spec_erase().reply == back.reply,
{
}

} // verus!
