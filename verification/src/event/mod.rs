//! `EventActor`: CUDA events and their handles across processes.
//!
//! Events, streams and contexts are handles of the runtime. The actor decides
//! which driver call to make; [`event_reply`] gives the answer from what the
//! call came to.

use vstd::prelude::*;

use crate::driver_call;
use crate::driver_call::{driver_reply, CallOutcome};
use crate::error::{ErrorView, GpuError};
use crate::error;

verus! {

/// Library tag of the actor's errors.
pub const LIB: &'static str = "event";

/// Handle of an event for another process: opaque bytes of the driver.
#[derive(Clone, Copy, PartialEq, Eq)]
pub struct IpcEventHandle {
    raw: [u8; 64],
}

/// Start value of the hash of a handle.
pub const HASH_START: u64 = 0xcbf2_9ce4_8422_2325;

/// Factor of the hash of a handle.
pub const HASH_FACTOR: u64 = 0x100_0000_01b3;

/// FNV-1a hash of bytes.
pub open spec fn spec_fxhash(bytes: Seq<u8>) -> u64
    decreases bytes.len(),
{
    if bytes.len() == 0 {
        HASH_START
    } else {
        (spec_fxhash(bytes.drop_last()) ^ bytes.last() as u64).wrapping_mul(HASH_FACTOR)
    }
}

/// FNV-1a hash of bytes.
pub fn fxhash(bytes: &[u8]) -> (h: u64)
    ensures
        h == spec_fxhash(bytes@),
{
    let mut h: u64 = HASH_START;
    let mut i: usize = 0;
    assert(bytes@.take(0) =~= Seq::<u8>::empty());
    while i < bytes.len()
        invariant
            i <= bytes.len(),
            h == spec_fxhash(bytes@.take(i as int)),
        decreases bytes.len() - i,
    {
        assert(bytes@.take(i + 1).drop_last() =~= bytes@.take(i as int));
        h = (h ^ bytes[i] as u64).wrapping_mul(HASH_FACTOR);
        i = i + 1;
    }
    assert(bytes@.take(i as int) =~= bytes@);
    h
}

impl IpcEventHandle {
    /// The handle's bytes.
    pub closed spec fn view(&self) -> [u8; 64] {
        self.raw
    }

    /// The handle's bytes.
    pub fn as_bytes(&self) -> (b: [u8; 64])
        ensures
            b == self@,
    {
        self.raw
    }

    /// The handle of these bytes.
    pub fn from_bytes(bytes: [u8; 64]) -> (h: IpcEventHandle)
        ensures
            h@ == bytes,
    {
        IpcEventHandle { raw: bytes }
    }

    /// Hash of the bytes, for display in their place.
    pub fn bytes_hash(&self) -> (h: u64)
        ensures
            h == spec_fxhash(self@@),
    {
        fxhash(self.raw.as_slice())
    }
}

/// Messages to the event actor.
pub enum EventMsg {
    /// Create an event.
    Create { reply: u64 },
    /// Record an event behind the current work of a stream.
    Record { event: u64, stream: u64, reply: u64 },
    /// Make a stream wait for an event.
    Wait { event: u64, stream: u64, reply: u64 },
    /// Ask whether an event has completed.
    Query { event: u64, reply: u64 },
    /// Time between two events.
    ElapsedTime { start: u64, end: u64, reply: u64 },
    /// Block until an event has completed.
    Synchronize { event: u64, reply: u64 },
    /// Export an event to another process.
    GetIpcHandle { event: u64, reply: u64 },
    /// Open another process's event.
    OpenIpcHandle { handle: IpcEventHandle, reply: u64 },
}

/// A driver call with its arguments.
#[derive(Clone, Copy, PartialEq, Eq)]
pub enum EventCall {
    NewEvent { context: u64 },
    Record { event: u64, stream: u64 },
    Wait { event: u64, stream: u64 },
    Query { event: u64 },
    ElapsedTime { start: u64, end: u64 },
    Synchronize { event: u64 },
    ExportIpc { event: u64 },
    OpenIpc { handle: IpcEventHandle },
}

/// What the runtime is to do for a message.
pub enum EventAction {
    /// Make the call and answer with what it comes to.
    Call(EventCall),
    /// Answer with the error.
    Reply(GpuError),
}

/// The event actor: on a context, or without a GPU.
#[derive(Debug, Clone, Copy, PartialEq, Eq, Structural)]
pub enum EventActor {
    Real { context: u64 },
    Mock,
}

/// The driver call of a message.
pub open spec fn call_of(context: u64, msg: EventMsg) -> EventCall {
    match msg {
        EventMsg::Create { .. } => EventCall::NewEvent { context },
        EventMsg::Record { event, stream, .. } => EventCall::Record { event, stream },
        EventMsg::Wait { event, stream, .. } => EventCall::Wait { event, stream },
        EventMsg::Query { event, .. } => EventCall::Query { event },
        EventMsg::ElapsedTime { start, end, .. } => EventCall::ElapsedTime { start, end },
        EventMsg::Synchronize { event, .. } => EventCall::Synchronize { event },
        EventMsg::GetIpcHandle { event, .. } => EventCall::ExportIpc { event },
        EventMsg::OpenIpcHandle { handle, .. } => EventCall::OpenIpc { handle },
    }
}

impl EventActor {
    /// Actor on a context.
    pub fn new(context: u64) -> (a: EventActor)
        ensures
            a == (EventActor::Real { context }),
    {
        EventActor::Real { context }
    }

    /// Actor without a GPU.
    pub fn mock() -> (a: EventActor)
        ensures
            a == EventActor::Mock,
    {
        EventActor::Mock
    }

    /// Take one message.
    pub fn handle(&self, msg: &EventMsg) -> (action: EventAction)
        ensures
            match *self {
                EventActor::Mock => action matches EventAction::Reply(e) && e@
                    == ErrorView::Unrecoverable("EventActor in mock mode"@),
                EventActor::Real { context } => action == EventAction::Call(
                    call_of(context, *msg),
                ),
            },
    {
        match self {
            EventActor::Mock => EventAction::Reply(
                GpuError::unrecoverable("EventActor in mock mode"),
            ),
            EventActor::Real { context } => {
                let call = match msg {
                    EventMsg::Create { .. } => EventCall::NewEvent { context: *context },
                    EventMsg::Record { event, stream, .. } => EventCall::Record {
                        event: *event,
                        stream: *stream,
                    },
                    EventMsg::Wait { event, stream, .. } => EventCall::Wait {
                        event: *event,
                        stream: *stream,
                    },
                    EventMsg::Query { event, .. } => EventCall::Query { event: *event },
                    EventMsg::ElapsedTime { start, end, .. } => EventCall::ElapsedTime {
                        start: *start,
                        end: *end,
                    },
                    EventMsg::Synchronize { event, .. } => EventCall::Synchronize {
                        event: *event,
                    },
                    EventMsg::GetIpcHandle { event, .. } => EventCall::ExportIpc { event: *event },
                    EventMsg::OpenIpcHandle { handle, .. } => EventCall::OpenIpc {
                        handle: *handle,
                    },
                };
                EventAction::Call(call)
            },
        }
    }
}

/// Driver calls that can fail, and whose failure the actor reports in its own
/// words.
#[derive(Debug, Clone, Copy, PartialEq, Eq, Structural)]
pub enum EventOp {
    Create,
    Record,
    Wait,
    ElapsedTime,
    Synchronize,
}

impl EventOp {
    /// What the text of a failure starts with.
    pub open spec fn failure_prefix(self) -> Seq<char> {
        match self {
            EventOp::Create => "new_event: "@,
            EventOp::Record => "record: "@,
            EventOp::Wait => "wait: "@,
            EventOp::ElapsedTime => "elapsed: "@,
            EventOp::Synchronize => "synchronize: "@,
        }
    }

    /// The text where the driver is missing.
    pub open spec fn missing_driver(self) -> Seq<char> {
        match self {
            EventOp::Create => "EventActor::Create: CUDA driver not loadable"@,
            EventOp::Record => "EventActor::Record: CUDA driver not loadable"@,
            EventOp::Wait => "EventActor::Wait: CUDA driver not loadable"@,
            EventOp::ElapsedTime => "EventActor::ElapsedTime: CUDA driver not loadable"@,
            EventOp::Synchronize => "EventActor::Synchronize: CUDA driver not loadable"@,
        }
    }
}

/// The words in which a driver call is answered. A query and the calls on other
/// processes' events have answers of their own.
pub open spec fn spec_op_of(c: EventCall) -> Option<EventOp> {
    match c {
        EventCall::NewEvent { .. } => Some(EventOp::Create),
        EventCall::Record { .. } => Some(EventOp::Record),
        EventCall::Wait { .. } => Some(EventOp::Wait),
        EventCall::ElapsedTime { .. } => Some(EventOp::ElapsedTime),
        EventCall::Synchronize { .. } => Some(EventOp::Synchronize),
        _ => None,
    }
}

/// The words in which a driver call is answered. A query and the calls on other
/// processes' events have answers of their own.
pub fn op_of(c: &EventCall) -> (r: Option<EventOp>)
    ensures
        r == spec_op_of(*c),
{
    match c {
        EventCall::NewEvent { .. } => Some(EventOp::Create),
        EventCall::Record { .. } => Some(EventOp::Record),
        EventCall::Wait { .. } => Some(EventOp::Wait),
        EventCall::ElapsedTime { .. } => Some(EventOp::ElapsedTime),
        EventCall::Synchronize { .. } => Some(EventOp::Synchronize),
        _ => None,
    }
}

/// The answer to a message, from what its driver call came to. The operation is
/// that of the call ([`op_of`]).
pub fn event_reply<T>(op: EventOp, outcome: CallOutcome<T>) -> (r: Result<T, GpuError>)
    ensures
        error::outcome(r) == driver_call::answer(
            LIB@,
            op.failure_prefix(),
            op.missing_driver(),
            outcome,
        ),
{
    match op {
        EventOp::Create => driver_reply(
            LIB,
            "new_event: ",
            "EventActor::Create: CUDA driver not loadable",
            outcome,
        ),
        EventOp::Record => driver_reply(
            LIB,
            "record: ",
            "EventActor::Record: CUDA driver not loadable",
            outcome,
        ),
        EventOp::Wait => driver_reply(
            LIB,
            "wait: ",
            "EventActor::Wait: CUDA driver not loadable",
            outcome,
        ),
        EventOp::ElapsedTime => driver_reply(
            LIB,
            "elapsed: ",
            "EventActor::ElapsedTime: CUDA driver not loadable",
            outcome,
        ),
        EventOp::Synchronize => driver_reply(
            LIB,
            "synchronize: ",
            "EventActor::Synchronize: CUDA driver not loadable",
            outcome,
        ),
    }
}

/// The answer to a query: whether the event has completed, `None` where the
/// driver is missing. A query fails in no other way.
pub fn query_reply(complete: Option<bool>) -> (r: Result<bool, GpuError>)
    ensures
        error::outcome(r) == match complete {
            Some(b) => Ok::<bool, ErrorView>(b),
            None => Err(
                ErrorView::Unrecoverable("EventActor::Query: CUDA driver not loadable"@),
            ),
        },
{
    match complete {
        Some(b) => Ok(b),
        None => Err(GpuError::unrecoverable("EventActor::Query: CUDA driver not loadable")),
    }
}

/// The answer to opening another process's event, from what the driver gave.
/// The driver's events cannot be adopted yet, so even an opened event is not
/// handed out.
pub fn open_ipc_reply(opened: Result<u64, GpuError>) -> (r: Result<u64, GpuError>)
    ensures
        error::outcome(r) == match opened {
            Err(e) => Err::<u64, ErrorView>(e@),
            Ok(_) => Err(
                ErrorView::Unrecoverable(
                    "EventActor::OpenIpcHandle: cudarc 0.19 lacks CudaEvent::from_raw \u{2014} use the IpcEventHandle bytes directly with cuStreamWaitEvent on the destination context"@,
                ),
            ),
        },
{
    match opened {
        Err(e) => Err(e),
        Ok(_) => Err(
            GpuError::unrecoverable(
                "EventActor::OpenIpcHandle: cudarc 0.19 lacks CudaEvent::from_raw \u{2014} use the IpcEventHandle bytes directly with cuStreamWaitEvent on the destination context",
            ),
        ),
    }
}

/// Every message is answered in the words of its own operation.
pub proof fn law_messages_keep_their_words(context: u64, msg: EventMsg)
    ensures
        spec_op_of(call_of(context, msg)) == match msg {
            EventMsg::Create { .. } => Some(EventOp::Create),
            EventMsg::Record { .. } => Some(EventOp::Record),
            EventMsg::Wait { .. } => Some(EventOp::Wait),
            EventMsg::ElapsedTime { .. } => Some(EventOp::ElapsedTime),
            EventMsg::Synchronize { .. } => Some(EventOp::Synchronize),
            _ => None,
        },
{
}

/// Every message is the driver call of its own name on its own handles: an event is
/// recorded on the stream that was named, a stream waits for the event that was
/// named, and the time runs from the start to the end.
pub proof fn law_calls_take_their_own_handles(
    context: u64,
    event: u64,
    stream: u64,
    end: u64,
    handle: IpcEventHandle,
    reply: u64,
)
    ensures
        call_of(context, EventMsg::Create { reply }) matches EventCall::NewEvent { context: on }
            && on == context,
        call_of(context, EventMsg::Record { event, stream, reply }) matches EventCall::Record {
            event: what,
            stream: on,
        } && what == event && on == stream,
        call_of(context, EventMsg::Wait { event, stream, reply }) matches EventCall::Wait {
            event: what,
            stream: on,
        } && what == event && on == stream,
        call_of(context, EventMsg::Query { event, reply }) matches EventCall::Query { event: what }
            && what == event,
        call_of(context, EventMsg::ElapsedTime { start: event, end, reply }) matches
            EventCall::ElapsedTime { start: from, end: to } && from == event && to == end,
        call_of(context, EventMsg::Synchronize { event, reply }) matches EventCall::Synchronize {
            event: what,
        } && what == event,
        call_of(context, EventMsg::GetIpcHandle { event, reply }) matches EventCall::ExportIpc {
            event: what,
        } && what == event,
        call_of(context, EventMsg::OpenIpcHandle { handle, reply }) matches EventCall::OpenIpc {
            handle: what,
        } && what == handle,
{
}

/// The words in which failures are answered name their operation.
pub proof fn law_words_of_the_operations()
    ensures
        EventOp::Create.failure_prefix() == "new_event: "@,
        EventOp::Record.failure_prefix() == "record: "@,
        EventOp::Wait.failure_prefix() == "wait: "@,
        EventOp::ElapsedTime.failure_prefix() == "elapsed: "@,
        EventOp::Synchronize.failure_prefix() == "synchronize: "@,
        EventOp::Create.missing_driver() == "EventActor::Create: CUDA driver not loadable"@,
        EventOp::Record.missing_driver() == "EventActor::Record: CUDA driver not loadable"@,
        EventOp::Wait.missing_driver() == "EventActor::Wait: CUDA driver not loadable"@,
        EventOp::ElapsedTime.missing_driver()
            == "EventActor::ElapsedTime: CUDA driver not loadable"@,
        EventOp::Synchronize.missing_driver()
            == "EventActor::Synchronize: CUDA driver not loadable"@,
{
}

/// The hash takes in the bytes one after the other: no bytes give the start value,
/// and one more byte is mixed in and multiplied by the factor.
pub proof fn law_hash_takes_in_every_byte(bytes: Seq<u8>, last: u8)
    ensures
        spec_fxhash(Seq::<u8>::empty()) == 0xcbf2_9ce4_8422_2325u64,
        spec_fxhash(bytes.push(last)) == (spec_fxhash(bytes) ^ last as u64).wrapping_mul(
            0x100_0000_01b3u64,
        ),
{
    assert(bytes.push(last).drop_last() =~= bytes);
}

} // verus!
