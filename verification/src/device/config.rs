//! Configuration of a device and the set of library actors it spawns.

use std::ops::BitOr;

use vstd::prelude::*;

verus! {

/// Set of library actors to spawn under a device, one bit per library. The
/// bit values are part of persisted device configurations and do not change.
#[derive(Debug, Clone, Copy, PartialEq, Eq, Structural)]
pub struct EnabledLibraries {
    bits: u32,
}

/// The bits that name a library.
pub const KNOWN_LIBRARY_BITS: u32 = 0x7fff;

impl EnabledLibraries {
    /// The set's bit pattern.
    pub closed spec fn spec_bits(self) -> u32 {
        self.bits
    }

    /// Every bit of `other` is set here.
    pub open spec fn includes(self, other: EnabledLibraries) -> bool {
        self.spec_bits() & other.spec_bits() == other.spec_bits()
    }

    /// The blas actor.
    pub fn blas() -> (l: EnabledLibraries)
        ensures
            l.spec_bits() == 0x1,
    {
        EnabledLibraries { bits: 0x1 }
    }

    /// The cudnn actor.
    pub fn cudnn() -> (l: EnabledLibraries)
        ensures
            l.spec_bits() == 0x2,
    {
        EnabledLibraries { bits: 0x2 }
    }

    /// The cufft actor.
    pub fn cufft() -> (l: EnabledLibraries)
        ensures
            l.spec_bits() == 0x4,
    {
        EnabledLibraries { bits: 0x4 }
    }

    /// The curand actor.
    pub fn curand() -> (l: EnabledLibraries)
        ensures
            l.spec_bits() == 0x8,
    {
        EnabledLibraries { bits: 0x8 }
    }

    /// The cusolver actor.
    pub fn cusolver() -> (l: EnabledLibraries)
        ensures
            l.spec_bits() == 0x10,
    {
        EnabledLibraries { bits: 0x10 }
    }

    /// The cublaslt actor.
    pub fn cublaslt() -> (l: EnabledLibraries)
        ensures
            l.spec_bits() == 0x20,
    {
        EnabledLibraries { bits: 0x20 }
    }

    /// The nvrtc actor.
    pub fn nvrtc() -> (l: EnabledLibraries)
        ensures
            l.spec_bits() == 0x40,
    {
        EnabledLibraries { bits: 0x40 }
    }

    /// The cutensor actor.
    pub fn cutensor() -> (l: EnabledLibraries)
        ensures
            l.spec_bits() == 0x80,
    {
        EnabledLibraries { bits: 0x80 }
    }

    /// The cusparse actor.
    pub fn cusparse() -> (l: EnabledLibraries)
        ensures
            l.spec_bits() == 0x100,
    {
        EnabledLibraries { bits: 0x100 }
    }

    /// The nccl actor.
    pub fn nccl() -> (l: EnabledLibraries)
        ensures
            l.spec_bits() == 0x200,
    {
        EnabledLibraries { bits: 0x200 }
    }

    /// The cutlass actor.
    pub fn cutlass() -> (l: EnabledLibraries)
        ensures
            l.spec_bits() == 0x400,
    {
        EnabledLibraries { bits: 0x400 }
    }

    /// The tensorrt actor.
    pub fn tensorrt() -> (l: EnabledLibraries)
        ensures
            l.spec_bits() == 0x800,
    {
        EnabledLibraries { bits: 0x800 }
    }

    /// The flashattn actor.
    pub fn flashattn() -> (l: EnabledLibraries)
        ensures
            l.spec_bits() == 0x1000,
    {
        EnabledLibraries { bits: 0x1000 }
    }

    /// The CUB and Thrust actor.
    pub fn cub_thrust() -> (l: EnabledLibraries)
        ensures
            l.spec_bits() == 0x2000,
    {
        EnabledLibraries { bits: 0x2000 }
    }

    /// The telemetry actor.
    pub fn telemetry() -> (l: EnabledLibraries)
        ensures
            l.spec_bits() == 0x4000,
    {
        EnabledLibraries { bits: 0x4000 }
    }

    /// Every library.
    pub fn all() -> (l: EnabledLibraries)
        ensures
            l.spec_bits() == KNOWN_LIBRARY_BITS,
    {
        EnabledLibraries { bits: KNOWN_LIBRARY_BITS }
    }

    /// No library.
    pub fn empty() -> (l: EnabledLibraries)
        ensures
            l.spec_bits() == 0,
    {
        EnabledLibraries { bits: 0 }
    }

    /// The set's bit pattern.
    pub fn bits(&self) -> (b: u32)
        ensures
            b == self.spec_bits(),
    {
        self.bits
    }

    /// The set with this bit pattern, if every bit of it names a library.
    pub fn from_bits(bits: u32) -> (l: Option<EnabledLibraries>)
        ensures
            l is Some <==> bits & !KNOWN_LIBRARY_BITS == 0,
            l matches Some(s) ==> s.spec_bits() == bits,
    {
        if bits & !KNOWN_LIBRARY_BITS == 0 {
            Some(EnabledLibraries { bits })
        } else {
            None
        }
    }

    /// Whether every library of `other` is in this set.
    pub fn contains(&self, other: EnabledLibraries) -> (b: bool)
        ensures
            b == self.includes(other),
    {
        self.bits & other.bits == other.bits
    }

    /// The libraries of either set.
    pub fn union(self, other: EnabledLibraries) -> (l: EnabledLibraries)
        ensures
            l.spec_bits() == self.spec_bits() | other.spec_bits(),
    {
        EnabledLibraries { bits: self.bits | other.bits }
    }
}

impl BitOr for EnabledLibraries {
    type Output = EnabledLibraries;

    fn bitor(self, rhs: EnabledLibraries) -> (l: EnabledLibraries)
        ensures
            l.spec_bits() == self.spec_bits() | rhs.spec_bits(),
    {
        self.union(rhs)
    }
}

impl vstd::std_specs::ops::BitOrSpecImpl for EnabledLibraries {
    open spec fn obeys_bitor_spec() -> bool {
        true
    }

    open spec fn bitor_req(self, rhs: EnabledLibraries) -> bool {
        true
    }

    closed spec fn bitor_spec(self, rhs: EnabledLibraries) -> EnabledLibraries {
        EnabledLibraries { bits: self.bits | rhs.bits }
    }
}

impl Default for EnabledLibraries {
    /// BLAS only.
    fn default() -> (l: EnabledLibraries)
        ensures
            l.spec_bits() == 1,
    {
        EnabledLibraries { bits: 1 }
    }
}

/// The full set holds every set that `from_bits` accepts, and every set holds
/// itself.
pub proof fn law_all_includes_known(l: EnabledLibraries, all: EnabledLibraries)
    requires
        l.spec_bits() & !KNOWN_LIBRARY_BITS == 0,
        all.spec_bits() == KNOWN_LIBRARY_BITS,
    ensures
        all.includes(l),
        l.includes(l),
{
    let b = l.spec_bits();
    assert(b & !0x7fffu32 == 0 ==> 0x7fffu32 & b == b) by (bit_vector);
    assert(b & b == b) by (bit_vector);
}

/// The union of two sets holds both, holds a single library only if one of
/// them does, and names no bit that neither names.
pub proof fn law_union(a: EnabledLibraries, b: EnabledLibraries, u: EnabledLibraries)
    requires
        u.spec_bits() == a.spec_bits() | b.spec_bits(),
    ensures
        u.includes(a),
        u.includes(b),
        forall|k: u32| k < 32 ==> #[trigger] (u.spec_bits() & (1u32 << k)) == (a.spec_bits() & (1u32
            << k)) | (b.spec_bits() & (1u32 << k)),
{
    let x = a.spec_bits();
    let y = b.spec_bits();
    assert((x | y) & x == x) by (bit_vector);
    assert((x | y) & y == y) by (bit_vector);
    assert forall|k: u32| k < 32 implies #[trigger] (u.spec_bits() & (1u32 << k)) == (x & (1u32
        << k)) | (y & (1u32 << k)) by {
        assert((x | y) & (1u32 << k) == (x & (1u32 << k)) | (y & (1u32 << k))) by (bit_vector);
    }
}

/// Configuration of a device actor.
#[derive(Debug, Clone, Copy, PartialEq, Eq, Structural)]
pub struct DeviceConfig {
    pub device_id: u32,
    /// The context skips all driver calls and only drives the supervision.
    pub mock_mode: bool,
    /// Most work items queued while the context is not ready.
    pub pending_queue_capacity: usize,
    /// Library actors to spawn.
    pub enabled_libraries: EnabledLibraries,
}

impl DeviceConfig {
    /// Real device with the default queue and BLAS only.
    pub fn new(device_id: u32) -> (c: DeviceConfig)
        ensures
            c.device_id == device_id,
            !c.mock_mode,
            c.pending_queue_capacity == 1024,
            c.enabled_libraries.spec_bits() == 1,
    {
        DeviceConfig {
            device_id,
            mock_mode: false,
            pending_queue_capacity: 1024,
            enabled_libraries: EnabledLibraries::default(),
        }
    }

    /// Device without driver calls, for hosts without a GPU.
    pub fn mock(device_id: u32) -> (c: DeviceConfig)
        ensures
            c.device_id == device_id,
            c.mock_mode,
            c.pending_queue_capacity == 1024,
            c.enabled_libraries.spec_bits() == 1,
    {
        DeviceConfig {
            device_id,
            mock_mode: true,
            pending_queue_capacity: 1024,
            enabled_libraries: EnabledLibraries::default(),
        }
    }

    /// Select which libraries' actors to spawn.
    pub fn with_libraries(self, libs: EnabledLibraries) -> (c: DeviceConfig)
        ensures
            c == (DeviceConfig { enabled_libraries: libs, ..self }),
    {
        DeviceConfig { enabled_libraries: libs, ..self }
    }
}

/// A set holds another exactly when every bit of the other is one of its own.
pub proof fn law_includes_bit_by_bit(a: EnabledLibraries, b: EnabledLibraries, k: u32)
    requires
        k < 32,
    ensures
        a.includes(b) && b.spec_bits() & (1u32 << k) != 0 ==> a.spec_bits() & (1u32 << k) != 0,
        a.spec_bits() & (1u32 << k) == 0 && b.spec_bits() & (1u32 << k) != 0 ==> !a.includes(b),
{
    let x = a.spec_bits();
    let y = b.spec_bits();
    assert(k < 32 && x & y == y && y & (1u32 << k) != 0 ==> x & (1u32 << k) != 0) by (bit_vector);
}

} // verus!
