//! The part of a kernel launch that every library actor shares.
//!
//! A launch validates its buffers, enqueues the kernel synchronously, awaits
//! completion and then answers the caller. The functions here take the
//! outcome of each step and say what the caller gets and which trace hooks
//! fire; the runtime performs the enqueue and the waiting.
//!
//! A kernel that writes to a buffer needs the only reference to it. Each
//! library actor checks that for its own write targets.

use std::sync::Arc;

use vstd::prelude::*;

use crate::error::{ErrorView, GpuError};
use crate::error;
use crate::gpu_ref::{DeviceSlice, GpuRef, MemoryTable, MemoryView};

verus! {

/// Validate two buffers in order; the first stale one decides the error.
pub fn access_all_2<A, B>(a: &GpuRef<A>, b: &GpuRef<B>, mem: &MemoryTable) -> (r: Result<
    (DeviceSlice, DeviceSlice),
    GpuError,
>)
    ensures
        error::outcome(r) == valid_2(*a, *b, mem@),
{
    let a_s = match a.access(mem) {
        Ok(s) => s,
        Err(e) => {
            return Err(e);
        },
    };
    let b_s = match b.access(mem) {
        Ok(s) => s,
        Err(e) => {
            return Err(e);
        },
    };
    Ok((a_s, b_s))
}

/// Both slices, or the error of the first stale buffer.
pub open spec fn valid_2<A, B>(a: GpuRef<A>, b: GpuRef<B>, m: MemoryView) -> Result<
    (DeviceSlice, DeviceSlice),
    ErrorView,
> {
    match a.validity(m) {
        Err(e) => Err(e),
        Ok(a_s) => match b.validity(m) {
            Err(e) => Err(e),
            Ok(b_s) => Ok((a_s, b_s)),
        },
    }
}

/// Validate three buffers in order; the first stale one decides the error.
pub fn access_all_3<A, B, C>(
    a: &GpuRef<A>,
    b: &GpuRef<B>,
    c: &GpuRef<C>,
    mem: &MemoryTable,
) -> (r: Result<
    (DeviceSlice, DeviceSlice, DeviceSlice),
    GpuError,
>)
    ensures
        error::outcome(r) == valid_3(*a, *b, *c, mem@),
{
    let (a_s, b_s) = match access_all_2(a, b, mem) {
        Ok(t) => t,
        Err(e) => {
            return Err(e);
        },
    };
    match c.access(mem) {
        Ok(c_s) => Ok((a_s, b_s, c_s)),
        Err(e) => Err(e),
    }
}

/// All three slices, or the error of the first stale buffer.
pub open spec fn valid_3<A, B, C>(
    a: GpuRef<A>,
    b: GpuRef<B>,
    c: GpuRef<C>,
    m: MemoryView,
) -> Result<
    (DeviceSlice, DeviceSlice, DeviceSlice),
    ErrorView,
> {
    match valid_2(a, b, m) {
        Err(e) => Err(e),
        Ok((a_s, b_s)) => match c.validity(m) {
            Err(e) => Err(e),
            Ok(c_s) => Ok((a_s, b_s, c_s)),
        },
    }
}

/// Validate four buffers in order; the first stale one decides the error.
pub fn access_all_4<A, B, C, D>(
    a: &GpuRef<A>,
    b: &GpuRef<B>,
    c: &GpuRef<C>,
    d: &GpuRef<D>,
    mem: &MemoryTable,
) -> (r: Result<(DeviceSlice, DeviceSlice, DeviceSlice, DeviceSlice), GpuError>)
    ensures
        error::outcome(r) == valid_4(*a, *b, *c, *d, mem@),
{
    let (a_s, b_s, c_s) = match access_all_3(a, b, c, mem) {
        Ok(t) => t,
        Err(e) => {
            return Err(e);
        },
    };
    match d.access(mem) {
        Ok(d_s) => Ok((a_s, b_s, c_s, d_s)),
        Err(e) => Err(e),
    }
}

/// All four slices, or the error of the first stale buffer.
pub open spec fn valid_4<A, B, C, D>(
    a: GpuRef<A>,
    b: GpuRef<B>,
    c: GpuRef<C>,
    d: GpuRef<D>,
    m: MemoryView,
) -> Result<(DeviceSlice, DeviceSlice, DeviceSlice, DeviceSlice), ErrorView> {
    match valid_3(a, b, c, m) {
        Err(e) => Err(e),
        Ok((a_s, b_s, c_s)) => match d.validity(m) {
            Err(e) => Err(e),
            Ok(d_s) => Ok((a_s, b_s, c_s, d_s)),
        },
    }
}

/// Metadata of a launch, handed to every trace hook.
#[derive(Debug, Clone, Copy)]
pub struct KernelInfo<'a> {
    /// Operation, such as `sgemm`.
    pub op_name: &'a str,
    /// Library, such as `cublas`.
    pub library: &'a str,
    /// Identity of the stream.
    pub stream_id: u64,
    /// Element type, where the operation has a single one.
    pub dtype: Option<&'a str>,
}

/// Receiver of launch events. Every hook has an empty default body, so that a
/// trace implements only those that it needs. The hooks observe a launch and
/// have no part in its outcome.
pub trait KernelTrace: Send + Sync {
    /// Just before the kernel is enqueued.
    fn before_enqueue(&self, info: &KernelInfo<'_>) {
    }

    /// Just after the enqueue, with its outcome.
    fn after_enqueue(&self, info: &KernelInfo<'_>, result: Result<(), &GpuError>) {
    }

    /// Just before completion is awaited.
    fn before_complete(&self, info: &KernelInfo<'_>) {
    }

    /// After completion, with its outcome and the time waited for it.
    fn after_complete(
        &self,
        info: &KernelInfo<'_>,
        result: Result<(), &GpuError>,
        latency_nanos: u64,
    ) {
    }
}

/// A trace hook that is due.
#[derive(Debug, Clone, Copy, PartialEq, Eq, Structural)]
pub enum TraceEvent {
    BeforeEnqueue,
    AfterEnqueueOk,
    AfterEnqueueErr,
    BeforeComplete,
    AfterCompleteOk,
    AfterCompleteErr,
}

/// A shared trace. A clone is the same trace.
pub struct TraceHandle(pub Arc<Box<dyn KernelTrace>>);

impl Clone for TraceHandle {
    fn clone(&self) -> (t: TraceHandle)
        ensures
            t == *self,
    {
        let shared = Arc::clone(&self.0);
        TraceHandle(shared)
    }
}

/// Configuration of a launch: its labels, and the trace that observes it.
pub struct KernelEnvelope {
    pub lib_tag: &'static str,
    pub op_name: &'static str,
    pub dtype: Option<&'static str>,
    pub trace: Option<TraceHandle>,
    pub nvtx_range_name: Option<&'static str>,
}

impl Clone for KernelEnvelope {
    fn clone(&self) -> (e: KernelEnvelope)
        ensures
            e == *self,
    {
        let trace = match &self.trace {
            Some(t) => Some(t.clone()),
            None => None,
        };
        KernelEnvelope {
            lib_tag: self.lib_tag,
            op_name: self.op_name,
            dtype: self.dtype,
            trace,
            nvtx_range_name: self.nvtx_range_name,
        }
    }
}

impl KernelEnvelope {
    /// Envelope of a library, without a trace or a range label. The operation
    /// is named after the library.
    pub fn new(lib_tag: &'static str) -> (e: KernelEnvelope)
        ensures
            e.lib_tag == lib_tag,
            e.op_name == lib_tag,
            e.dtype is None,
            e.trace is None,
            e.nvtx_range_name is None,
    {
        KernelEnvelope { lib_tag, op_name: lib_tag, dtype: None, trace: None, nvtx_range_name: None }
    }

    /// Name the operation.
    pub fn with_op_name(self, op_name: &'static str) -> (e: KernelEnvelope)
        ensures
            e == (KernelEnvelope { op_name, ..self }),
    {
        let mut e = self;
        e.op_name = op_name;
        e
    }

    /// Name the element type.
    pub fn with_dtype(self, dtype: &'static str) -> (e: KernelEnvelope)
        ensures
            e == (KernelEnvelope { dtype: Some(dtype), ..self }),
    {
        let mut e = self;
        e.dtype = Some(dtype);
        e
    }

    /// Attach a trace.
    pub fn with_trace(self, trace: TraceHandle) -> (e: KernelEnvelope)
        ensures
            e == (KernelEnvelope { trace: Some(trace), ..self }),
    {
        let mut e = self;
        e.trace = Some(trace);
        e
    }

    /// Attach a range label for profilers.
    pub fn with_nvtx(self, name: &'static str) -> (e: KernelEnvelope)
        ensures
            e == (KernelEnvelope { nvtx_range_name: Some(name), ..self }),
    {
        let mut e = self;
        e.nvtx_range_name = Some(name);
        e
    }

    /// The metadata of a launch on a stream.
    pub fn info<'a>(&'a self, stream_id: u64) -> (i: KernelInfo<'a>)
        ensures
            i.op_name == self.op_name,
            i.library == self.lib_tag,
            i.stream_id == stream_id,
            i.dtype == self.dtype,
    {
        KernelInfo { op_name: self.op_name, library: self.lib_tag, stream_id, dtype: self.dtype }
    }
}

/// The error with a plain driver failure attributed to the library.
pub open spec fn annotated(e: ErrorView, lib_tag: Seq<char>) -> ErrorView {
    match e {
        ErrorView::Driver(msg) => ErrorView::LibraryError { lib: lib_tag, msg },
        other => other,
    }
}

/// Attribute a plain driver failure to the library. Errors that already say
/// more pass through.
pub fn annotate_error(e: GpuError, lib_tag: &'static str) -> (r: GpuError)
    ensures
        r@ == annotated(e@, lib_tag@),
{
    match e {
        GpuError::Driver(msg) => GpuError::LibraryError { lib: lib_tag, msg },
        other => other,
    }
}

/// What follows an enqueue: the answer right away where it failed, else the
/// wait for completion, with the output to answer with.
pub enum LaunchStep<O> {
    Reply(GpuError),
    AwaitCompletion(O),
}

/// What the caller of a launch gets, from the outcomes of the enqueue and of
/// the completion. The completion is not awaited after a failed enqueue.
pub open spec fn launch_reply<O>(
    lib_tag: Seq<char>,
    output: O,
    enqueue: Result<(), ErrorView>,
    completion: Result<(), ErrorView>,
) -> Result<O, ErrorView> {
    match enqueue {
        Err(e) => Err(annotated(e, lib_tag)),
        Ok(()) => match completion {
            Err(e) => Err(e),
            Ok(()) => Ok(output),
        },
    }
}

/// The hooks that fire over a whole launch, in order, where it is traced.
pub open spec fn launch_events(
    traced: bool,
    enqueue: Result<(), ErrorView>,
    completion: Result<(), ErrorView>,
) -> Seq<TraceEvent> {
    if !traced {
        seq![]
    } else if enqueue is Err {
        seq![TraceEvent::BeforeEnqueue, TraceEvent::AfterEnqueueErr]
    } else if completion is Err {
        seq![
            TraceEvent::BeforeEnqueue,
            TraceEvent::AfterEnqueueOk,
            TraceEvent::BeforeComplete,
            TraceEvent::AfterCompleteErr,
        ]
    } else {
        seq![
            TraceEvent::BeforeEnqueue,
            TraceEvent::AfterEnqueueOk,
            TraceEvent::BeforeComplete,
            TraceEvent::AfterCompleteOk,
        ]
    }
}

impl KernelEnvelope {
    fn hook(&self, event: TraceEvent) -> (events: Vec<TraceEvent>)
        ensures
            events@ == if self.trace is Some {
                seq![event]
            } else {
                seq![]
            },
    {
        let mut events: Vec<TraceEvent> = Vec::new();
        if self.trace.is_some() {
            events.push(event);
        }
        assert(events@ =~= if self.trace is Some {
            seq![event]
        } else {
            seq![]
        });
        events
    }

    /// The hooks due before the enqueue.
    pub fn before_enqueue(&self) -> (events: Vec<TraceEvent>)
        ensures
            events@ == if self.trace is Some {
                seq![TraceEvent::BeforeEnqueue]
            } else {
                seq![]
            },
    {
        self.hook(TraceEvent::BeforeEnqueue)
    }

    /// The hooks due after the enqueue, and what follows it.
    pub fn after_enqueue<O>(&self, output: O, result: Result<(), GpuError>) -> (r: (
        Vec<TraceEvent>,
        LaunchStep<O>,
    ))
        ensures
            r.0@ == if self.trace is None {
                seq![]
            } else if result is Ok {
                seq![TraceEvent::AfterEnqueueOk]
            } else {
                seq![TraceEvent::AfterEnqueueErr]
            },
            match r.1 {
                LaunchStep::Reply(e) => result is Err && e@ == annotated(
                    result->Err_0@,
                    self.lib_tag@,
                ),
                LaunchStep::AwaitCompletion(o) => result is Ok && o == output,
            },
    {
        match result {
            Ok(_) => (self.hook(TraceEvent::AfterEnqueueOk), LaunchStep::AwaitCompletion(output)),
            Err(e) => {
                let reply = annotate_error(e, self.lib_tag);
                (self.hook(TraceEvent::AfterEnqueueErr), LaunchStep::Reply(reply))
            },
        }
    }

    /// The hooks due before completion is awaited.
    pub fn before_complete(&self) -> (events: Vec<TraceEvent>)
        ensures
            events@ == if self.trace is Some {
                seq![TraceEvent::BeforeComplete]
            } else {
                seq![]
            },
    {
        self.hook(TraceEvent::BeforeComplete)
    }

    /// The hooks due after completion, and the answer.
    pub fn after_complete<O>(&self, output: O, result: Result<(), GpuError>) -> (r: (
        Vec<TraceEvent>,
        Result<O, GpuError>,
    ))
        ensures
            r.0@ == if self.trace is None {
                seq![]
            } else if result is Ok {
                seq![TraceEvent::AfterCompleteOk]
            } else {
                seq![TraceEvent::AfterCompleteErr]
            },
            error::outcome(r.1) == match result {
                Ok(_) => Ok(output),
                Err(e) => Err(e@),
            },
    {
        match result {
            Ok(_) => (self.hook(TraceEvent::AfterCompleteOk), Ok(output)),
            Err(e) => (self.hook(TraceEvent::AfterCompleteErr), Err(e)),
        }
    }

    /// A whole launch from the outcomes of its two outside steps: the hooks
    /// that fire, in order, and the answer.
    pub fn run_kernel<O>(
        &self,
        output: O,
        enqueue: Result<(), GpuError>,
        completion: Result<(), GpuError>,
    ) -> (r: (Vec<TraceEvent>, Result<O, GpuError>))
        ensures
            r.0@ == launch_events(
                self.trace is Some,
                error::outcome(enqueue),
                error::outcome(completion),
            ),
            error::outcome(r.1) == launch_reply(
                self.lib_tag@,
                output,
                error::outcome(enqueue),
                error::outcome(completion),
            ),
    {
        let ghost goal = launch_events(
            self.trace is Some,
            error::outcome(enqueue),
            error::outcome(completion),
        );
        let mut events = self.before_enqueue();
        let (mut after, step) = self.after_enqueue(output, enqueue);
        events.append(&mut after);
        match step {
            LaunchStep::Reply(e) => {
                assert(events@ =~= goal);
                (events, Err(e))
            },
            LaunchStep::AwaitCompletion(output) => {
                let mut awaiting = self.before_complete();
                events.append(&mut awaiting);
                let (mut done, reply) = self.after_complete(output, completion);
                events.append(&mut done);
                assert(events@ =~= goal);
                (events, reply)
            },
        }
    }
}

/// The outcome that a hook is handed, where it takes one: success, or the error
/// that the caller is answered with.
pub open spec fn hook_outcome(event: TraceEvent, error: Option<ErrorView>) -> Option<
    Result<(), ErrorView>,
> {
    match event {
        TraceEvent::BeforeEnqueue | TraceEvent::BeforeComplete => None,
        TraceEvent::AfterEnqueueOk | TraceEvent::AfterCompleteOk => Some(Ok(())),
        TraceEvent::AfterEnqueueErr | TraceEvent::AfterCompleteErr => match error {
            Some(e) => Some(Err(e)),
            None => None,
        },
    }
}

/// The outcome to hand to a hook, where it takes one. `error` is the error that
/// the caller is answered with, if it is an error.
pub fn handed<'a>(event: TraceEvent, error: Option<&'a GpuError>) -> (r: Option<
    Result<(), &'a GpuError>,
>)
    ensures
        match r {
            Some(Ok(_)) => hook_outcome(
                event,
                match error {
                    Some(e) => Some(e@),
                    None => None,
                },
            ) == Some(Ok::<(), ErrorView>(())),
            Some(Err(e)) => error == Some(e) && hook_outcome(event, Some(e@)) == Some(
                Err::<(), ErrorView>(e@),
            ),
            None => hook_outcome(
                event,
                match error {
                    Some(e) => Some(e@),
                    None => None,
                },
            ) is None,
        },
{
    match event {
        TraceEvent::BeforeEnqueue | TraceEvent::BeforeComplete => None,
        TraceEvent::AfterEnqueueOk | TraceEvent::AfterCompleteOk => Some(Ok(())),
        TraceEvent::AfterEnqueueErr | TraceEvent::AfterCompleteErr => match error {
            Some(e) => Some(Err(e)),
            None => None,
        },
    }
}

/// The answer of an untraced launch of a library, from the outcomes of its
/// two outside steps.
pub fn run_kernel<O>(
    lib_tag: &'static str,
    output: O,
    enqueue: Result<(), GpuError>,
    completion: Result<(), GpuError>,
) -> (r: Result<O, GpuError>)
    ensures
        error::outcome(r) == launch_reply(
            lib_tag@,
            output,
            error::outcome(enqueue),
            error::outcome(completion),
        ),
{
    match enqueue {
        Err(e) => Err(annotate_error(e, lib_tag)),
        Ok(_) => match completion {
            Ok(_) => Ok(output),
            Err(e) => Err(e),
        },
    }
}

/// The answer to a request whose result is written to host memory by the
/// kernel: the value once the launch has succeeded, the launch's error where
/// it failed, and a timeout where the launch was dropped without an answer.
pub open spec fn value_reply<V>(launch: Option<Result<(), ErrorView>>, value: V) -> Result<
    V,
    ErrorView,
> {
    match launch {
        Some(Ok(())) => Ok(value),
        Some(Err(e)) => Err(e),
        None => Err(ErrorView::Timeout),
    }
}

/// The answer to a request whose result is written to host memory by the
/// kernel. `launch` is the launch's own answer, `None` where its channel was
/// closed without one.
pub fn reply_with_value<V>(launch: Option<Result<(), GpuError>>, value: V) -> (r: Result<
    V,
    GpuError,
>)
    ensures
        error::outcome(r) == value_reply(
            match launch {
                Some(l) => Some(error::outcome(l)),
                None => None,
            },
            value,
        ),
{
    match launch {
        Some(Ok(_)) => Ok(value),
        Some(Err(e)) => Err(e),
        None => Err(GpuError::Timeout),
    }
}

/// A launch reports success exactly when both the enqueue and the completion
/// succeeded, and it then answers with its output.
pub proof fn law_success_needs_both<O>(
    lib_tag: Seq<char>,
    output: O,
    enqueue: Result<(), ErrorView>,
    completion: Result<(), ErrorView>,
)
    ensures
        launch_reply(lib_tag, output, enqueue, completion) is Ok <==> enqueue is Ok && completion is Ok,
        launch_reply(lib_tag, output, enqueue, completion) matches Ok(o) ==> o == output,
{
}

/// The hooks of a traced launch come in pairs, enqueue before completion, and
/// the completion hooks fire exactly when the enqueue succeeded. An untraced
/// launch fires none.
pub proof fn law_hooks_in_order(
    traced: bool,
    enqueue: Result<(), ErrorView>,
    completion: Result<(), ErrorView>,
)
    ensures
        !traced ==> launch_events(traced, enqueue, completion).len() == 0,
        traced ==> launch_events(traced, enqueue, completion)[0] == TraceEvent::BeforeEnqueue,
        traced && enqueue is Err ==> launch_events(traced, enqueue, completion).len() == 2,
        traced && enqueue is Ok ==> {
            &&& launch_events(traced, enqueue, completion).len() == 4
            &&& launch_events(traced, enqueue, completion)[1] == TraceEvent::AfterEnqueueOk
            &&& launch_events(traced, enqueue, completion)[2] == TraceEvent::BeforeComplete
        },
{
}

/// Over a traced launch the hook after the enqueue is handed the enqueue's
/// outcome, with a driver failure attributed to the library, and the hook after
/// completion is handed the completion's outcome as it is. Each error that a hook
/// is handed is the one that the caller is answered with.
pub proof fn law_hooks_are_handed_the_outcomes<O>(
    lib_tag: Seq<char>,
    output: O,
    enqueue: Result<(), ErrorView>,
    completion: Result<(), ErrorView>,
)
    ensures
        ({
            let events = launch_events(true, enqueue, completion);
            let error = match launch_reply(lib_tag, output, enqueue, completion) {
                Ok(_) => None,
                Err(e) => Some(e),
            };
            &&& hook_outcome(events[1], error) == Some(
                match enqueue {
                    Ok(_) => Ok(()),
                    Err(e) => Err(annotated(e, lib_tag)),
                },
            )
            &&& enqueue is Ok ==> hook_outcome(events[3], error) == Some(
                match completion {
                    Ok(_) => Ok(()),
                    Err(e) => Err(e),
                },
            )
        }),
{
}

/// A plain driver failure is attributed to the library with its words kept; every
/// other error stays as it is.
pub proof fn law_only_driver_failures_are_attributed(e: ErrorView, lib_tag: Seq<char>)
    ensures
        match e {
            ErrorView::Driver(words) => annotated(e, lib_tag) matches ErrorView::LibraryError {
                lib,
                msg,
            } && lib == lib_tag && msg == words,
            _ => annotated(e, lib_tag) == e,
        },
{
}

/// A failed enqueue is answered with its own error, attributed to the library; a
/// failed completion is answered with its error as it is.
pub proof fn law_failures_are_answered<O>(
    lib_tag: Seq<char>,
    output: O,
    e: ErrorView,
    completion: Result<(), ErrorView>,
)
    ensures
        launch_reply(lib_tag, output, Err(e), completion) == Err::<O, ErrorView>(
            if e is Driver {
                (ErrorView::LibraryError { lib: lib_tag, msg: e->Driver_0 })
            } else {
                e
            },
        ),
        launch_reply(lib_tag, output, Ok(()), Err(e)) == Err::<O, ErrorView>(e),
{
}

/// The last hook of a traced launch says how its last step ended.
pub proof fn law_last_hook_tells_the_end(
    enqueue: Result<(), ErrorView>,
    completion: Result<(), ErrorView>,
)
    ensures
        ({
            let last = launch_events(true, enqueue, completion).last();
            &&& enqueue is Err ==> last is AfterEnqueueErr
            &&& enqueue is Ok && completion is Err ==> last is AfterCompleteErr
            &&& enqueue is Ok && completion is Ok ==> last is AfterCompleteOk
        }),
{
}

/// A value is handed out only by a launch that succeeded. A launch that failed
/// hands out its error, and one that was dropped counts as timed out.
pub proof fn law_value_needs_success<V>(launch: Option<Result<(), ErrorView>>, value: V)
    ensures
        match value_reply(launch, value) {
            Ok(v) => (launch matches Some(Ok(_))) && v == value,
            Err(e) => match launch {
                None => e is Timeout,
                Some(Err(why)) => e == why,
                Some(Ok(_)) => false,
            },
        },
{
}

/// All the buffers are given out, each in its own place, exactly when every one is
/// valid; otherwise the first stale one decides the error.
pub proof fn law_first_stale_buffer_decides<A, B, C, D>(
    a: GpuRef<A>,
    b: GpuRef<B>,
    c: GpuRef<C>,
    d: GpuRef<D>,
    m: MemoryView,
)
    ensures
        match valid_4(a, b, c, d, m) {
            Ok((w, x, y, z)) => {
                &&& a.validity(m) is Ok && b.validity(m) is Ok && c.validity(m) is Ok && d.validity(
                    m,
                ) is Ok
                &&& w == a.slice && x == b.slice && y == c.slice && z == d.slice
            },
            Err(e) => {
                &&& a.validity(m) matches Err(stale) ==> e == stale
                &&& a.validity(m) is Ok ==> (b.validity(m) matches Err(stale) ==> e == stale)
                &&& a.validity(m) is Ok && b.validity(m) is Ok ==> (c.validity(m) matches Err(stale)
                    ==> e == stale)
                &&& a.validity(m) is Ok && b.validity(m) is Ok && c.validity(m) is Ok ==> (
                d.validity(m) matches Err(stale) && e == stale)
            },
        },
        valid_3(a, b, c, m) is Ok <==> a.validity(m) is Ok && b.validity(m) is Ok && c.validity(
            m,
        ) is Ok,
        valid_3(a, b, c, m) matches Ok((x, y, z)) ==> x == a.slice && y == b.slice && z == c.slice,
        valid_2(a, b, m) is Ok <==> a.validity(m) is Ok && b.validity(m) is Ok,
        valid_2(a, b, m) matches Ok((x, y)) ==> x == a.slice && y == b.slice,
{
}

} // verus!
