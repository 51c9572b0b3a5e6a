use atomr_accel_cuda::device::DeviceState;
use atomr_accel_cuda::dtype::F32;
use atomr_accel_cuda::error::GpuError;
use atomr_accel_cuda::gpu_ref::{DeviceSlice, GpuRef, MemoryTable};

#[test]
fn generation_mismatch_fails_validate() {
    let mut state = DeviceState::new(0);
    assert_eq!(state.generation(), 0);
    state.bump_generation();
    assert_eq!(state.generation(), 1);
    assert!(state.accepting_ops());
    state.begin_shutdown();
    assert!(!state.accepting_ops());
}

/// A device, and a buffer on it.
fn minted(state: DeviceState) -> (MemoryTable, GpuRef<F32>) {
    let mut mem = MemoryTable::new();
    mem.set_device(4, state);
    let r = GpuRef::new(DeviceSlice { ptr: 0x1000, len: 16 }, 4, &state, 9, &mut mem);
    (mem, r)
}

#[test]
fn a_current_buffer_is_accessible() {
    let (mem, r) = minted(DeviceState::new(3));
    assert_eq!(r.access(&mem).unwrap(), DeviceSlice { ptr: 0x1000, len: 16 });
    assert_eq!(r.raw_device_ptr(&mem).unwrap(), 0x1000);
    assert_eq!(r.device_id(&mem), Some(3));
    assert_eq!(r.generation(), 0);
    assert_eq!(r.len(), 16);
    assert!(!r.is_empty());
}

#[test]
fn a_rebuilt_context_makes_buffers_stale() {
    let mut state = DeviceState::new(0);
    let (mut mem, r) = minted(state);
    assert!(r.access(&mem).is_ok());
    state.bump_generation();
    mem.set_device(4, state);
    assert!(matches!(r.access(&mem), Err(GpuError::GpuRefStale("context rebuilt"))));
    assert!(r.raw_device_ptr(&mem).is_err());
}

#[test]
fn shutdown_and_a_dropped_device_refuse_buffers() {
    let mut state = DeviceState::new(0);
    let (mut mem, r) = minted(state);
    state.begin_shutdown();
    mem.set_device(4, state);
    assert!(matches!(r.access(&mem), Err(GpuError::GpuRefStale("device shutting down"))));
    mem.drop_device(4);
    assert!(matches!(r.access(&mem), Err(GpuError::GpuRefStale("device state dropped"))));
    assert_eq!(r.device_id(&mem), None);
}

#[test]
fn the_last_write_wins() {
    let (mut mem, r) = minted(DeviceState::new(0));
    assert_eq!(r.last_write_stream(&mem), None);
    r.record_write(&mut mem, 7);
    r.record_write(&mut mem, 8);
    assert_eq!(r.last_write_stream(&mem), Some(8));
}

#[test]
fn clones_share_their_buffer() {
    let (mut mem, r) = minted(DeviceState::new(0));
    assert!(r.sole_owner(&mem));
    let c = r.clone(&mut mem);
    assert!(!r.sole_owner(&mem));
    assert!(!c.sole_owner(&mem));
    assert_eq!(c.access(&mem).unwrap(), r.access(&mem).unwrap());
    c.record_write(&mut mem, 7);
    assert_eq!(r.last_write_stream(&mem), Some(7));
    c.release(&mut mem);
    assert!(r.sole_owner(&mem));
    r.release(&mut mem);
    assert_eq!(mem.buffer(9).owners, 0);
}
