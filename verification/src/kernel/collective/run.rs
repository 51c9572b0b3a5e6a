//! Runs of NCCL calls.

use vstd::prelude::*;
use vstd::string::*;

use crate::error::{ErrorView, GpuError};
use crate::error;
use crate::gpu_ref::DeviceSlice;
use crate::kernel::collective::{ReduceOp, LIB};
use crate::steps::{RunView, StepRun};
use crate::text::{join2, join3, unsigned_text};
use crate::text;

verus! {

/// Part of a buffer, in elements.
#[derive(Debug, Clone, Copy, PartialEq, Eq, Structural)]
pub struct Span {
    pub ptr: u64,
    pub offset: usize,
    pub len: usize,
}

/// What a point-to-point call is part of.
#[derive(Debug, Clone, Copy, PartialEq, Eq, Structural)]
pub enum PeerScope {
    Single,
    AllToAll,
    AllToAllv,
}

/// An NCCL call with all its arguments. `rank` is the peer as the library
/// takes it, `peer` as the caller counts it.
#[derive(Debug, Clone, Copy, PartialEq, Eq, Structural)]
#[allow(inconsistent_fields)]
pub enum CollStep {
    GroupStart,
    GroupEnd,
    AllReduceInPlace { buf: DeviceSlice, op: ReduceOp },
    BroadcastInPlace { buf: DeviceSlice, root: i32 },
    AllGather { send: DeviceSlice, recv: DeviceSlice },
    ReduceScatter { send: DeviceSlice, recv: DeviceSlice, op: ReduceOp },
    Reduce { send: DeviceSlice, recv: Option<DeviceSlice>, op: ReduceOp, root: i32 },
    Send { span: Span, rank: i32, peer: usize, scope: PeerScope },
    Recv { span: Span, rank: i32, peer: usize, scope: PeerScope },
}

impl CollStep {
    /// What the text of the call's error starts with.
    pub open spec fn error_prefix(self) -> Seq<char> {
        match self {
            CollStep::GroupStart => "group_start: "@,
            CollStep::GroupEnd => "group_end: "@,
            CollStep::AllReduceInPlace { .. } => "all_reduce: "@,
            CollStep::BroadcastInPlace { .. } => "broadcast_in_place: "@,
            CollStep::AllGather { .. } => "all_gather: "@,
            CollStep::ReduceScatter { .. } => "reduce_scatter: "@,
            CollStep::Reduce { .. } => "reduce: "@,
            CollStep::Send { peer, scope, .. } => match scope {
                PeerScope::Single => "send: "@,
                PeerScope::AllToAll => "a2a send to "@ + text::decimal(peer as nat) + ": "@,
                PeerScope::AllToAllv => "a2av send to "@ + text::decimal(peer as nat) + ": "@,
            },
            CollStep::Recv { peer, scope, .. } => match scope {
                PeerScope::Single => "recv: "@,
                PeerScope::AllToAll => "a2a recv from "@ + text::decimal(peer as nat) + ": "@,
                PeerScope::AllToAllv => "a2av recv from "@ + text::decimal(peer as nat) + ": "@,
            },
        }
    }

    fn prefix(&self) -> (s: String)
        ensures
            s@ == self.error_prefix(),
    {
        match self {
            CollStep::GroupStart => String::from_str("group_start: "),
            CollStep::GroupEnd => String::from_str("group_end: "),
            CollStep::AllReduceInPlace { .. } => String::from_str("all_reduce: "),
            CollStep::BroadcastInPlace { .. } => String::from_str("broadcast_in_place: "),
            CollStep::AllGather { .. } => String::from_str("all_gather: "),
            CollStep::ReduceScatter { .. } => String::from_str("reduce_scatter: "),
            CollStep::Reduce { .. } => String::from_str("reduce: "),
            CollStep::Send { peer, scope, .. } => {
                let n = unsigned_text(*peer as u64);
                match scope {
                    PeerScope::Single => String::from_str("send: "),
                    PeerScope::AllToAll => join3("a2a send to ", n.as_str(), ": "),
                    PeerScope::AllToAllv => join3("a2av send to ", n.as_str(), ": "),
                }
            },
            CollStep::Recv { peer, scope, .. } => {
                let n = unsigned_text(*peer as u64);
                match scope {
                    PeerScope::Single => String::from_str("recv: "),
                    PeerScope::AllToAll => join3("a2a recv from ", n.as_str(), ": "),
                    PeerScope::AllToAllv => join3("a2av recv from ", n.as_str(), ": "),
                }
            },
        }
    }

    /// The error of the call, from the library's own text.
    pub open spec fn error(self, text: Seq<char>) -> ErrorView {
        ErrorView::LibraryError { lib: LIB@, msg: self.error_prefix() + text }
    }

    /// The error of the call, from the library's own text.
    pub fn into_error(&self, text: &str) -> (e: GpuError)
        ensures
            e@ == self.error(text@),
    {
        let p = self.prefix();
        GpuError::LibraryError { lib: LIB, msg: join2(p.as_str(), text) }
    }
}

/// A shard that reaches past the end of its buffer.
#[derive(Debug, Clone, Copy, PartialEq, Eq, Structural)]
pub enum Overrun {
    Send { peer: usize },
    Recv { peer: usize },
}

impl Overrun {
    pub open spec fn error(self) -> ErrorView {
        match self {
            Overrun::Send { peer } => ErrorView::Unrecoverable(
                "AllToAllv: send shard for peer "@ + text::decimal(peer as nat)
                    + " overruns buffer"@,
            ),
            Overrun::Recv { peer } => ErrorView::Unrecoverable(
                "AllToAllv: recv shard from peer "@ + text::decimal(peer as nat)
                    + " overruns buffer"@,
            ),
        }
    }

    pub fn into_error(&self) -> (e: GpuError)
        ensures
            e@ == self.error(),
    {
        match self {
            Overrun::Send { peer } => {
                let n = unsigned_text(*peer as u64);
                GpuError::Unrecoverable(
                    join3("AllToAllv: send shard for peer ", n.as_str(), " overruns buffer"),
                )
            },
            Overrun::Recv { peer } => {
                let n = unsigned_text(*peer as u64);
                GpuError::Unrecoverable(
                    join3("AllToAllv: recv shard from peer ", n.as_str(), " overruns buffer"),
                )
            },
        }
    }
}

/// The NCCL calls of a request, and what the caller gets once all of them have
/// succeeded: success, or an overrun that ended the calls early.
pub struct CollectiveRun {
    run: StepRun<CollStep>,
    ending: Option<Overrun>,
}

impl CollectiveRun {
    /// The calls and how far they have come.
    pub closed spec fn view(&self) -> RunView<CollStep> {
        self.run@
    }

    /// The overrun that ended the calls early, if any.
    pub closed spec fn spec_ending(&self) -> Option<Overrun> {
        self.ending
    }

    /// The answer where every call succeeds.
    pub open spec fn success_reply(&self) -> Result<(), ErrorView> {
        match self.spec_ending() {
            None => Ok(()),
            Some(o) => Err(o.error()),
        }
    }

    pub(crate) fn new(steps: Vec<CollStep>, ending: Option<Overrun>) -> (r: CollectiveRun)
        ensures
            r@ == (RunView { steps: steps@, done: 0, failed: false }),
            r@.wf(),
            r.spec_ending() == ending,
    {
        CollectiveRun { run: StepRun::new(steps), ending }
    }

    pub(crate) fn single(step: CollStep) -> (r: CollectiveRun)
        ensures
            r@ == (RunView { steps: seq![step], done: 0, failed: false }),
            r@.wf(),
            r.spec_ending() is None,
    {
        let mut steps: Vec<CollStep> = Vec::new();
        steps.push(step);
        assert(steps@ =~= seq![step]);
        CollectiveRun::new(steps, None)
    }

    /// The call to make next.
    pub fn current(&self) -> (s: Option<&CollStep>)
        ensures
            match s {
                Some(step) => self@.current() == Some(*step),
                None => self@.current() is None,
            },
    {
        self.run.current()
    }

    /// Report the outcome of the current call: success, or the library's error
    /// text. Gives the caller's answer once the run is over.
    pub fn report(&mut self, result: Result<(), String>) -> (reply: Option<Result<(), GpuError>>)
        requires
            old(self)@.wf(),
            old(self)@.current() is Some,
        ensures
            final(self)@ == old(self)@.reported(result is Ok),
            final(self)@.wf(),
            final(self).spec_ending() == old(self).spec_ending(),
            match result {
                Err(text) => reply is Some && error::outcome(reply->0) == Err::<(), ErrorView>(
                    old(self)@.current()->0.error(text@),
                ),
                Ok(_) => if final(self)@.complete() {
                    reply is Some && error::outcome(reply->0) == old(self).success_reply()
                } else {
                    reply is None
                },
            },
    {
        match result {
            Err(text) => {
                let e = match self.run.current() {
                    Some(step) => step.into_error(text.as_str()),
                    None => GpuError::Timeout,
                };
                self.run.report(false);
                Some(Err(e))
            },
            Ok(_) => {
                self.run.report(true);
                if self.run.is_complete() {
                    match &self.ending {
                        None => Some(Ok(())),
                        Some(o) => Some(Err(o.into_error())),
                    }
                } else {
                    None
                }
            },
        }
    }
}

/// The error of a call is NCCL's, ends with the library's own words, and starts
/// with the call's name; a call of an exchange names its peer.
pub proof fn law_errors_name_their_call(step: CollStep, text: Seq<char>)
    ensures
        step.error(text) matches ErrorView::LibraryError { lib, msg } && lib == "nccl"@ && msg
            == (match step {
            CollStep::GroupStart => "group_start: "@,
            CollStep::GroupEnd => "group_end: "@,
            CollStep::AllReduceInPlace { .. } => "all_reduce: "@,
            CollStep::BroadcastInPlace { .. } => "broadcast_in_place: "@,
            CollStep::AllGather { .. } => "all_gather: "@,
            CollStep::ReduceScatter { .. } => "reduce_scatter: "@,
            CollStep::Reduce { .. } => "reduce: "@,
            CollStep::Send { peer, scope, .. } => match scope {
                PeerScope::Single => "send: "@,
                PeerScope::AllToAll => "a2a send to "@ + text::decimal(peer as nat) + ": "@,
                PeerScope::AllToAllv => "a2av send to "@ + text::decimal(peer as nat) + ": "@,
            },
            CollStep::Recv { peer, scope, .. } => match scope {
                PeerScope::Single => "recv: "@,
                PeerScope::AllToAll => "a2a recv from "@ + text::decimal(peer as nat) + ": "@,
                PeerScope::AllToAllv => "a2av recv from "@ + text::decimal(peer as nat) + ": "@,
            },
        }) + text,
{
}

/// A run whose calls all succeed is answered with success, unless a shard overran
/// its buffer: then with an error that names the direction and the peer.
pub proof fn law_success_unless_overrun(run: CollectiveRun)
    ensures
        match run.spec_ending() {
            None => run.success_reply() is Ok,
            Some(Overrun::Send { peer }) => run.success_reply() matches Err(e) && e
                == ErrorView::Unrecoverable(
                "AllToAllv: send shard for peer "@ + text::decimal(peer as nat)
                    + " overruns buffer"@,
            ),
            Some(Overrun::Recv { peer }) => run.success_reply() matches Err(e) && e
                == ErrorView::Unrecoverable(
                "AllToAllv: recv shard from peer "@ + text::decimal(peer as nat)
                    + " overruns buffer"@,
            ),
        },
{
}

} // verus!
