//! [`GpuRef`]: message-friendly handle to a device buffer.
//!
//! A reference remembers the generation of the context it was minted on.
//! Every use goes through [`GpuRef::access`], which refuses the buffer once
//! the device is gone, is shutting down, or has rebuilt its context.
//!
//! What the references to a buffer share is kept in a [`MemoryTable`]: the
//! state of the owning device, the number of references, and the stream that
//! wrote to the buffer last. A change there is seen through every reference.

use std::collections::HashMap;
use std::marker::PhantomData;

use vstd::prelude::*;

use crate::device::DeviceState;
use crate::error::{ErrorView, GpuError};
use crate::error;

verus! {

/// A device allocation: its address and its length in elements.
#[derive(Debug, Clone, Copy, PartialEq, Eq, Structural)]
pub struct DeviceSlice {
    pub ptr: u64,
    pub len: usize,
}

/// What the references to one buffer share: how many of them there are, and
/// the stream that wrote to the buffer last.
#[derive(Debug, Clone, Copy, PartialEq, Eq, Structural)]
pub struct BufferState {
    pub owners: usize,
    pub last_write: Option<u64>,
}

/// The devices and buffers that references point to, by their handles.
pub struct MemoryTable {
    devices: HashMap<u64, DeviceState>,
    buffers: HashMap<u64, BufferState>,
}

/// The contents of a [`MemoryTable`].
#[verifier::ext_equal]
pub struct MemoryView {
    pub devices: Map<u64, DeviceState>,
    pub buffers: Map<u64, BufferState>,
}

impl View for MemoryTable {
    type V = MemoryView;

    closed spec fn view(&self) -> MemoryView {
        MemoryView { devices: self.devices@, buffers: self.buffers@ }
    }
}

impl MemoryView {
    /// The table without devices and buffers.
    pub open spec fn empty() -> MemoryView {
        MemoryView { devices: Map::empty(), buffers: Map::empty() }
    }

    /// The present state of a device, `None` once the device is gone.
    pub open spec fn device(self, device: u64) -> Option<DeviceState> {
        self.devices.get(device)
    }

    /// What is known of a buffer. One that is not in the table has no owner and
    /// was not written.
    pub open spec fn buffer(self, buffer: u64) -> BufferState {
        if self.buffers.contains_key(buffer) {
            self.buffers[buffer]
        } else {
            BufferState { owners: 0, last_write: None }
        }
    }

    /// The table with this state of a device.
    pub open spec fn with_device(self, device: u64, state: DeviceState) -> MemoryView {
        MemoryView { devices: self.devices.insert(device, state), ..self }
    }

    /// The table without a device.
    pub open spec fn without_device(self, device: u64) -> MemoryView {
        MemoryView { devices: self.devices.remove(device), ..self }
    }

    /// The table with this state of a buffer.
    pub open spec fn with_buffer(self, buffer: u64, state: BufferState) -> MemoryView {
        MemoryView { buffers: self.buffers.insert(buffer, state), ..self }
    }

    /// The table with one more reference to a buffer. A count that is at its
    /// largest stays there.
    pub open spec fn retained(self, buffer: u64) -> MemoryView {
        let b = self.buffer(buffer);
        self.with_buffer(
            buffer,
            BufferState {
                owners: if b.owners < usize::MAX {
                    (b.owners + 1) as usize
                } else {
                    b.owners
                },
                ..b
            },
        )
    }

    /// The table with one reference less to a buffer. The last one takes the
    /// buffer with it.
    pub open spec fn released(self, buffer: u64) -> MemoryView {
        let b = self.buffer(buffer);
        if b.owners <= 1 {
            MemoryView { buffers: self.buffers.remove(buffer), ..self }
        } else {
            self.with_buffer(buffer, BufferState { owners: (b.owners - 1) as usize, ..b })
        }
    }

    /// The table after a write to a buffer on `stream`.
    pub open spec fn written(self, buffer: u64, stream: u64) -> MemoryView {
        self.with_buffer(
            buffer,
            BufferState { last_write: Some(stream), ..self.buffer(buffer) },
        )
    }
}

impl MemoryTable {
    pub fn new() -> (t: MemoryTable)
        ensures
            t@ == MemoryView::empty(),
    {
        MemoryTable { devices: HashMap::new(), buffers: HashMap::new() }
    }

    /// The present state of a device, `None` once the device is gone.
    pub fn device(&self, device: u64) -> (s: Option<DeviceState>)
        ensures
            s == self@.device(device),
    {
        match self.devices.get(&device) {
            Some(s) => Some(*s),
            None => None,
        }
    }

    /// Take note of a device, or of a change of its state.
    pub fn set_device(&mut self, device: u64, state: DeviceState)
        ensures
            final(self)@ == old(self)@.with_device(device, state),
    {
        self.devices.insert(device, state);
    }

    /// A device is gone.
    pub fn drop_device(&mut self, device: u64)
        ensures
            final(self)@ == old(self)@.without_device(device),
    {
        self.devices.remove(&device);
    }

    /// What is known of a buffer.
    pub fn buffer(&self, buffer: u64) -> (b: BufferState)
        ensures
            b == self@.buffer(buffer),
    {
        match self.buffers.get(&buffer) {
            Some(b) => *b,
            None => BufferState { owners: 0, last_write: None },
        }
    }

    /// One more reference to a buffer.
    pub fn retain(&mut self, buffer: u64)
        ensures
            final(self)@ == old(self)@.retained(buffer),
    {
        let b = self.buffer(buffer);
        self.buffers.insert(buffer, BufferState { owners: b.owners.saturating_add(1), ..b });
    }

    /// One reference less to a buffer.
    pub fn release(&mut self, buffer: u64)
        ensures
            final(self)@ == old(self)@.released(buffer),
    {
        let b = self.buffer(buffer);
        if b.owners <= 1 {
            self.buffers.remove(&buffer);
        } else {
            self.buffers.insert(buffer, BufferState { owners: b.owners - 1, ..b });
        }
    }

    fn write(&mut self, buffer: u64, stream: u64)
        ensures
            final(self)@ == old(self)@.written(buffer, stream),
    {
        let b = self.buffer(buffer);
        self.buffers.insert(buffer, BufferState { last_write: Some(stream), ..b });
    }
}

/// Handle to a device buffer of element type `T`: the allocation, the context's
/// generation at the time it was minted, and the handles of the owning device
/// and of the buffer in the [`MemoryTable`].
pub struct GpuRef<T> {
    pub slice: DeviceSlice,
    pub generation: u64,
    pub device: u64,
    pub buffer: u64,
    pub element: PhantomData<T>,
}

impl<T> GpuRef<T> {
    /// The outcome of validating the handle: the buffer, or why it is stale.
    /// A dropped device is reported before a shutdown, and a shutdown before
    /// a rebuilt context.
    pub open spec fn validity(self, m: MemoryView) -> Result<DeviceSlice, ErrorView> {
        match m.device(self.device) {
            None => Err(ErrorView::GpuRefStale("device state dropped"@)),
            Some(state) => if !state.accepting {
                Err(ErrorView::GpuRefStale("device shutting down"@))
            } else if state.generation != self.generation {
                Err(ErrorView::GpuRefStale("context rebuilt"@))
            } else {
                Ok(self.slice)
            },
        }
    }

    /// The holder is the buffer's only owner, which a kernel that writes to the
    /// buffer needs.
    pub open spec fn is_sole_owner(self, m: MemoryView) -> bool {
        m.buffer(self.buffer).owners == 1
    }

    /// The handle without its element type.
    pub open spec fn spec_erased(self) -> GpuRef<()> {
        GpuRef {
            slice: self.slice,
            generation: self.generation,
            device: self.device,
            buffer: self.buffer,
            element: PhantomData,
        }
    }

    /// The handle minted for `slice` on a device in `state`.
    pub open spec fn minted(
        slice: DeviceSlice,
        device: u64,
        state: DeviceState,
        buffer: u64,
    ) -> GpuRef<T> {
        GpuRef { slice, generation: state.generation, device, buffer, element: PhantomData }
    }

    /// Handle for a fresh allocation, bound to the device's current
    /// generation. It is the buffer's only owner.
    pub fn new(
        slice: DeviceSlice,
        device: u64,
        state: &DeviceState,
        buffer: u64,
        mem: &mut MemoryTable,
    ) -> (r: GpuRef<T>)
        ensures
            r == GpuRef::<T>::minted(slice, device, *state, buffer),
            final(mem)@ == old(mem)@.with_buffer(
                buffer,
                BufferState { owners: 1, last_write: None },
            ),
    {
        mem.buffers.insert(buffer, BufferState { owners: 1, last_write: None });
        GpuRef { slice, generation: state.generation(), device, buffer, element: PhantomData }
    }

    /// One more handle to the buffer.
    pub fn clone(&self, mem: &mut MemoryTable) -> (r: GpuRef<T>)
        ensures
            r == *self,
            final(mem)@ == old(mem)@.retained(self.buffer),
    {
        mem.retain(self.buffer);
        self.same()
    }

    /// The handle goes away.
    pub fn release(self, mem: &mut MemoryTable)
        ensures
            final(mem)@ == old(mem)@.released(self.buffer),
    {
        mem.release(self.buffer);
    }

    /// The handle itself under a second name, for a request that takes its
    /// place.
    pub(crate) fn same(&self) -> (r: GpuRef<T>)
        ensures
            r == *self,
    {
        GpuRef {
            slice: self.slice,
            generation: self.generation,
            device: self.device,
            buffer: self.buffer,
            element: PhantomData,
        }
    }

    /// The handle without its element type, for a request that takes its place.
    pub(crate) fn erased(&self) -> (r: GpuRef<()>)
        ensures
            r == self.spec_erased(),
    {
        GpuRef {
            slice: self.slice,
            generation: self.generation,
            device: self.device,
            buffer: self.buffer,
            element: PhantomData,
        }
    }

    /// Validate the handle and give access to the buffer.
    pub fn access(&self, mem: &MemoryTable) -> (r: Result<DeviceSlice, GpuError>)
        ensures
            error::outcome(r) == self.validity(mem@),
    {
        match mem.device(self.device) {
            None => Err(GpuError::GpuRefStale("device state dropped")),
            Some(state) => {
                if !state.accepting_ops() {
                    return Err(GpuError::GpuRefStale("device shutting down"));
                }
                if state.generation() != self.generation {
                    return Err(GpuError::GpuRefStale("context rebuilt"));
                }
                Ok(self.slice)
            },
        }
    }

    /// Whether the holder is the buffer's only owner.
    pub fn sole_owner(&self, mem: &MemoryTable) -> (b: bool)
        ensures
            b == self.is_sole_owner(mem@),
    {
        mem.buffer(self.buffer).owners == 1
    }

    /// Generation of the context the handle was minted on.
    pub fn generation(&self) -> (g: u64)
        ensures
            g == self.generation,
    {
        self.generation
    }

    /// Length of the buffer in elements.
    pub fn len(&self) -> (n: usize)
        ensures
            n == self.slice.len,
    {
        self.slice.len
    }

    pub fn is_empty(&self) -> (b: bool)
        ensures
            b == (self.slice.len == 0),
    {
        self.slice.len == 0
    }

    /// Id of the owning device, while it exists.
    pub open spec fn spec_device_id(self, m: MemoryView) -> Option<u32> {
        match m.device(self.device) {
            Some(s) => Some(s.device_id),
            None => None,
        }
    }

    /// Id of the owning device, while it exists.
    pub fn device_id(&self, mem: &MemoryTable) -> (id: Option<u32>)
        ensures
            id == self.spec_device_id(mem@),
    {
        match mem.device(self.device) {
            Some(s) => Some(s.device_id()),
            None => None,
        }
    }

    /// Record the stream of a kernel that writes to the buffer, so that
    /// consumers on other streams can wait for it.
    pub fn record_write(&self, mem: &mut MemoryTable, stream: u64)
        ensures
            final(mem)@ == old(mem)@.written(self.buffer, stream),
    {
        mem.write(self.buffer, stream);
    }

    /// The stream that wrote to the buffer last, if any.
    pub fn last_write_stream(&self, mem: &MemoryTable) -> (s: Option<u64>)
        ensures
            s == mem@.buffer(self.buffer).last_write,
    {
        mem.buffer(self.buffer).last_write
    }

    /// The device address, for interfaces that take raw addresses. Validates
    /// the handle first.
    pub fn raw_device_ptr(&self, mem: &MemoryTable) -> (r: Result<u64, GpuError>)
        ensures
            error::outcome(r) == match self.validity(mem@) {
                Ok(s) => Ok(s.ptr),
                Err(e) => Err(e),
            },
    {
        match self.access(mem) {
            Ok(s) => Ok(s.ptr),
            Err(e) => Err(e),
        }
    }
}

/// A handle is usable exactly as long as its device exists, takes work, and
/// has not rebuilt its context since the handle was minted.
pub proof fn law_access_iff_current<T>(
    slice: DeviceSlice,
    device: u64,
    minted_on: DeviceState,
    buffer: u64,
    now: MemoryView,
)
    ensures
        GpuRef::<T>::minted(slice, device, minted_on, buffer).validity(now) is Ok <==> (now.device(
            device,
        ) matches Some(s) && s.accepting && s.generation == minted_on.generation),
        GpuRef::<T>::minted(slice, device, minted_on, buffer).validity(now) matches Ok(s) ==> s
            == slice,
{
}

/// Every rebuild makes all the handles minted before it stale, and no later
/// rebuild revives them.
pub proof fn law_rebuild_invalidates<T>(r: GpuRef<T>, m: MemoryView, now: DeviceState)
    requires
        m.device(r.device) == Some(now),
        now.accepting,
        now.generation < u64::MAX,
        r.generation <= now.generation,
    ensures
        r.validity(m.with_device(r.device, now.bumped())) == Err::<DeviceSlice, ErrorView>(
            ErrorView::GpuRefStale("context rebuilt"@),
        ),
        r.generation <= now.bumped().generation,
{
}

/// A device that is shutting down refuses every handle, whatever its
/// generation, and so does one that is gone.
pub proof fn law_shutdown_refuses<T>(r: GpuRef<T>, m: MemoryView, state: DeviceState)
    ensures
        r.validity(m.with_device(r.device, state.shut())) == Err::<DeviceSlice, ErrorView>(
            ErrorView::GpuRefStale("device shutting down"@),
        ),
        r.validity(m.without_device(r.device)) == Err::<DeviceSlice, ErrorView>(
            ErrorView::GpuRefStale("device state dropped"@),
        ),
{
}

/// The last of two recorded writes is the one remembered, by every handle to
/// the buffer, and recording a write changes nothing that validation looks at.
pub proof fn law_last_write_wins<T>(r: GpuRef<T>, m: MemoryView, first: u64, second: u64)
    ensures
        m.written(r.buffer, first).written(r.buffer, second).buffer(r.buffer).last_write == Some(
            second,
        ),
        r.validity(m.written(r.buffer, first)) == r.validity(m),
        r.is_sole_owner(m.written(r.buffer, first)) == r.is_sole_owner(m),
{
}

/// While a handle and its clone are both there, neither is the buffer's only
/// owner, and both are usable exactly when the handle was. Once the clone has
/// gone away the table is as it was.
pub proof fn law_clone_shares_the_buffer<T>(r: GpuRef<T>, m: MemoryView)
    requires
        m.buffers.contains_key(r.buffer),
        1 <= m.buffer(r.buffer).owners < usize::MAX,
    ensures
        !r.is_sole_owner(m.retained(r.buffer)),
        r.validity(m.retained(r.buffer)) == r.validity(m),
        m.retained(r.buffer).buffer(r.buffer).last_write == m.buffer(r.buffer).last_write,
        m.retained(r.buffer).released(r.buffer) == m,
{
    assert(m.retained(r.buffer).released(r.buffer) =~= m);
}

/// What happens to one buffer is not seen at another one, and says nothing of a
/// device.
pub proof fn law_buffers_are_separate(m: MemoryView, buffer: u64, other: u64, stream: u64)
    requires
        buffer != other,
    ensures
        m.written(buffer, stream).buffer(other) == m.buffer(other),
        m.retained(buffer).buffer(other) == m.buffer(other),
        m.released(buffer).buffer(other) == m.buffer(other),
        m.written(buffer, stream).devices == m.devices,
        m.retained(buffer).devices == m.devices,
        m.released(buffer).devices == m.devices,
{
}

/// A handle gives out its own allocation exactly while its device is there, takes
/// work and has the context that the handle was minted on. Otherwise the reason is
/// the first of these that fails.
pub proof fn law_stale_handles_say_why<T>(r: GpuRef<T>, m: MemoryView)
    ensures
        match r.validity(m) {
            Ok(slice) => {
                &&& slice == r.slice
                &&& m.device(r.device) matches Some(state) && state.accepting && state.generation
                    == r.generation
            },
            Err(e) => match m.device(r.device) {
                None => e == ErrorView::GpuRefStale("device state dropped"@),
                Some(state) => {
                    &&& !state.accepting || state.generation != r.generation
                    &&& !state.accepting ==> e == ErrorView::GpuRefStale("device shutting down"@)
                    &&& state.accepting ==> e == ErrorView::GpuRefStale("context rebuilt"@)
                },
            },
        },
{
}

/// Without its element type a handle is a handle of the same memory, as usable as
/// before.
pub proof fn law_erased_handle_is_the_same_memory<T>(r: GpuRef<T>, m: MemoryView)
    ensures
        r.spec_erased().slice == r.slice,
        r.spec_erased().generation == r.generation,
        r.spec_erased().device == r.device,
        r.spec_erased().buffer == r.buffer,
        r.spec_erased().validity(m) == r.validity(m),
        r.spec_erased().is_sole_owner(m) == r.is_sole_owner(m),
        r.spec_device_id(m) == r.spec_erased().spec_device_id(m),
{
}

/// A handle says the id of its device as long as the device is there.
pub proof fn law_handle_knows_its_device<T>(r: GpuRef<T>, m: MemoryView)
    ensures
        r.spec_device_id(m) == match m.device(r.device) {
            Some(state) => Some(state.device_id),
            None => None,
        },
{
}

/// A fresh handle is minted on the device's present context, for the allocation
/// and the buffer that it was made for.
pub proof fn law_minted_on_the_present_context<T>(
    slice: DeviceSlice,
    device: u64,
    state: DeviceState,
    buffer: u64,
    m: MemoryView,
)
    requires
        state.accepting,
    ensures
        ({
            let r = GpuRef::<T>::minted(slice, device, state, buffer);
            &&& r.slice == slice && r.device == device && r.buffer == buffer
            &&& r.generation == state.generation
            &&& r.validity(m.with_device(device, state)) == Ok::<DeviceSlice, ErrorView>(slice)
        }),
{
}

/// References are counted one by one: one more adds one, one less takes one away,
/// and the last one takes the buffer with it.
pub proof fn law_references_are_counted(m: MemoryView, buffer: u64)
    ensures
        m.buffer(buffer).owners < usize::MAX ==> m.retained(buffer).buffer(buffer).owners
            == m.buffer(buffer).owners + 1,
        m.buffer(buffer).owners > 1 ==> m.released(buffer).buffer(buffer).owners == m.buffer(
            buffer,
        ).owners - 1,
        m.buffer(buffer).owners <= 1 ==> m.released(buffer).buffer(buffer).owners == 0
            && m.released(buffer).buffer(buffer).last_write is None,
        m.buffer(buffer).owners > 1 ==> m.released(buffer).buffer(buffer).last_write == m.buffer(
            buffer,
        ).last_write,
        m.retained(buffer).buffer(buffer).last_write == m.buffer(buffer).last_write,
{
}

} // verus!
