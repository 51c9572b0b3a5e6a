//! The device tier: configuration, shared state, typed allocation and copy
//! requests, and the actor that queues work while its context is away.

pub mod alloc_dispatch;
pub mod config;
pub mod device_actor;
pub mod state;

pub use alloc_dispatch::{
    AllocDispatch, AllocOp, AllocReq, AllocStep, CopyFromHostDispatch, CopyFromHostOp,
    CopyFromHostReq, CopyToHostDispatch, CopyToHostOp, CopyToHostReq, HostBuf,
};
pub use config::{DeviceConfig, EnabledLibraries};
pub use device_actor::{
    ContextOp, DeviceAction, DeviceActor, DeviceLoad, DeviceMsg, ExtrasTable, KernelChildren,
    SgemmRefusal, SgemmRequest, WorkRequest,
};
pub use state::DeviceState;
