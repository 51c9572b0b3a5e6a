//! State of a device that outlives any single context.

use vstd::prelude::*;

verus! {

/// Shared state of one device: its id, the generation of its context, whether
/// it still takes work, and the current context handle.
#[derive(Debug, Clone, Copy, PartialEq, Eq, Structural)]
pub struct DeviceState {
    pub device_id: u32,
    pub generation: u64,
    pub accepting: bool,
    pub context: Option<u64>,
}

impl DeviceState {
    /// A fresh device: generation zero, taking work, no context yet.
    pub fn new(device_id: u32) -> (s: DeviceState)
        ensures
            s == (DeviceState { device_id, generation: 0, accepting: true, context: None }),
    {
        DeviceState { device_id, generation: 0, accepting: true, context: None }
    }

    pub fn device_id(&self) -> (id: u32)
        ensures
            id == self.device_id,
    {
        self.device_id
    }

    pub fn generation(&self) -> (g: u64)
        ensures
            g == self.generation,
    {
        self.generation
    }

    pub fn accepting_ops(&self) -> (b: bool)
        ensures
            b == self.accepting,
    {
        self.accepting
    }

    pub fn current_context(&self) -> (c: Option<u64>)
        ensures
            c == self.context,
    {
        self.context
    }

    /// The state after a context rebuild: one generation further.
    pub open spec fn bumped(self) -> DeviceState {
        DeviceState { generation: (self.generation + 1) as u64, ..self }
    }

    /// Move on to the next generation, as every rebuild of the context does.
    pub fn bump_generation(&mut self)
        requires
            old(self).generation < u64::MAX,
        ensures
            *final(self) == old(self).bumped(),
    {
        self.generation = self.generation + 1;
    }

    /// The state once shutdown has begun.
    pub open spec fn shut(self) -> DeviceState {
        DeviceState { accepting: false, ..self }
    }

    /// Stop taking work.
    pub fn begin_shutdown(&mut self)
        ensures
            *final(self) == old(self).shut(),
    {
        self.accepting = false;
    }
}

/// A rebuild moves on to the next generation and a shutdown stops the device from
/// taking work; neither changes anything else.
pub proof fn law_state_changes(s: DeviceState)
    requires
        s.generation < u64::MAX,
    ensures
        s.bumped().generation == s.generation + 1,
        s.bumped().accepting == s.accepting,
        s.bumped().device_id == s.device_id,
        s.bumped().context == s.context,
        !s.shut().accepting,
        s.shut().generation == s.generation,
        s.shut().device_id == s.device_id,
        s.shut().context == s.context,
{
}

} // verus!
