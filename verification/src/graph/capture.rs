//! Recording of a script on a captured stream.
//!
//! [`RecordRun`] says what to do next, and takes note of what it came to. The
//! capture is opened first and closed exactly once, also where an operation
//! fails.

use vstd::prelude::*;

use crate::device::DeviceState;
use crate::driver_call::CallOutcome;
use crate::error::{ErrorView, GpuError};
use crate::graph::{CapturedGraph, GraphHandle, LIB};
use crate::text::join2;

verus! {

/// What to do next in a recording.
pub enum RecordPhase {
    /// Open the capture.
    Begin,
    /// Record the operation of this index.
    Op(usize),
    /// Close the capture and instantiate the graph.
    End,
    /// Close the capture; its graph is thrown away.
    Abort(GpuError),
    /// Nothing; the caller has its answer.
    Finished,
}

/// What the last thing to do came to.
pub enum RecordEvent {
    Began(CallOutcome<()>),
    Recorded(Result<(), GpuError>),
    /// The graph, if the capture gave one, or the driver's error text.
    Ended(Result<Option<CapturedGraph>, String>),
    Aborted,
}

/// [`RecordPhase`] with its error taken by its view.
#[verifier::ext_equal]
pub enum PhaseView {
    Begin,
    Op(nat),
    End,
    Abort(ErrorView),
    Finished,
}

impl View for RecordPhase {
    type V = PhaseView;

    open spec fn view(&self) -> PhaseView {
        match self {
            RecordPhase::Begin => PhaseView::Begin,
            RecordPhase::Op(i) => PhaseView::Op(*i as nat),
            RecordPhase::End => PhaseView::End,
            RecordPhase::Abort(e) => PhaseView::Abort(e@),
            RecordPhase::Finished => PhaseView::Finished,
        }
    }
}

/// What the caller gets: the captured graph, or the error.
pub type RecordAnswer = Result<CapturedGraph, ErrorView>;

/// A recording: how many operations its script has, and what is next.
#[verifier::ext_equal]
pub struct RecordView {
    pub ops: nat,
    pub phase: PhaseView,
}

impl RecordView {
    pub open spec fn wf(self) -> bool {
        self.phase matches PhaseView::Op(i) ==> i < self.ops
    }

    /// The capture is open.
    pub open spec fn capturing(self) -> bool {
        self.phase is Op || self.phase is End || self.phase is Abort
    }

    /// The event is one that the phase waits for.
    pub open spec fn expects(self, event: RecordEvent) -> bool {
        match self.phase {
            PhaseView::Begin => event is Began,
            PhaseView::Op(_) => event is Recorded,
            PhaseView::End => event is Ended,
            PhaseView::Abort(_) => event is Aborted,
            PhaseView::Finished => false,
        }
    }

    /// The phase of the operation of this index, or the end behind the last.
    pub open spec fn at_op(self, i: nat) -> RecordView {
        RecordView {
            phase: if i < self.ops {
                PhaseView::Op(i)
            } else {
                PhaseView::End
            },
            ..self
        }
    }

    /// The recording with its answer given.
    pub open spec fn finished(self) -> RecordView {
        RecordView { phase: PhaseView::Finished, ..self }
    }

    /// The recording after an event, and the caller's answer if it is over.
    pub open spec fn step(self, event: RecordEvent) -> (RecordView, Option<RecordAnswer>) {
        match (self.phase, event) {
            (PhaseView::Begin, RecordEvent::Began(outcome)) => match outcome {
                CallOutcome::Done(_) => (self.at_op(0), None),
                CallOutcome::Failed(text) => (
                    self.finished(),
                    Some(
                        Err(
                            ErrorView::LibraryError {
                                lib: LIB@,
                                msg: "begin_capture: "@ + text@,
                            },
                        ),
                    ),
                ),
                CallOutcome::NotLoadable => (
                    self.finished(),
                    Some(
                        Err(
                            ErrorView::Unrecoverable(
                                "GraphActor::Record: CUDA driver not loadable"@,
                            ),
                        ),
                    ),
                ),
            },
            (PhaseView::Op(i), RecordEvent::Recorded(r)) => match r {
                Ok(_) => (self.at_op(i + 1), None),
                Err(e) => (RecordView { phase: PhaseView::Abort(e@), ..self }, None),
            },
            (PhaseView::End, RecordEvent::Ended(r)) => (
                self.finished(),
                Some(
                    match r {
                        Ok(Some(g)) => Ok(g),
                        Ok(None) => Err(
                            ErrorView::LibraryError {
                                lib: LIB@,
                                msg: "end_capture returned None"@,
                            },
                        ),
                        Err(text) => Err(
                            ErrorView::LibraryError { lib: LIB@, msg: "end_capture: "@ + text@ },
                        ),
                    },
                ),
            ),
            (PhaseView::Abort(e), RecordEvent::Aborted) => (self.finished(), Some(Err(e))),
            _ => (self, None),
        }
    }
}

/// The recording of a script.
pub struct RecordRun {
    ops: usize,
    phase: RecordPhase,
}

impl RecordRun {
    pub closed spec fn view(&self) -> RecordView {
        RecordView { ops: self.ops as nat, phase: self.phase@ }
    }

    /// Recording of a script with this many operations.
    pub fn new(ops: usize) -> (r: RecordRun)
        ensures
            r@ == (RecordView { ops: ops as nat, phase: PhaseView::Begin }),
            r@.wf(),
    {
        RecordRun { ops, phase: RecordPhase::Begin }
    }

    /// What to do next.
    pub fn phase(&self) -> (p: &RecordPhase)
        ensures
            p@ == self@.phase,
    {
        &self.phase
    }

    fn enter_op(&mut self, i: usize)
        ensures
            final(self)@ == old(self)@.at_op(i as nat),
    {
        self.phase = if i < self.ops {
            RecordPhase::Op(i)
        } else {
            RecordPhase::End
        };
    }

    /// Take note of an event. Gives the caller's answer once the recording is
    /// over; a captured graph belongs to the device's present generation.
    pub fn report(&mut self, event: RecordEvent, state: &DeviceState) -> (answer: Option<
        Result<GraphHandle, GpuError>,
    >)
        requires
            old(self)@.wf(),
            old(self)@.expects(event),
        ensures
            final(self)@ == old(self)@.step(event).0,
            final(self)@.wf(),
            match old(self)@.step(event).1 {
                None => answer is None,
                Some(Ok(g)) => answer matches Some(Ok(h)) && h.spec_graph() == Some(g)
                    && h.spec_generation() == state.generation,
                Some(Err(e)) => answer matches Some(Err(err)) && err@ == e,
            },
    {
        let mut current = RecordPhase::Finished;
        std::mem::swap(&mut current, &mut self.phase);
        match (current, event) {
            (RecordPhase::Begin, RecordEvent::Began(outcome)) => match outcome {
                CallOutcome::Done(_) => {
                    self.enter_op(0);
                    None
                },
                CallOutcome::Failed(text) => Some(
                    Err(
                        GpuError::LibraryError {
                            lib: LIB,
                            msg: join2("begin_capture: ", text.as_str()),
                        },
                    ),
                ),
                CallOutcome::NotLoadable => Some(
                    Err(GpuError::unrecoverable("GraphActor::Record: CUDA driver not loadable")),
                ),
            },
            (RecordPhase::Op(i), RecordEvent::Recorded(r)) => match r {
                Ok(_) => {
                    self.enter_op(i + 1);
                    None
                },
                Err(e) => {
                    self.phase = RecordPhase::Abort(e);
                    None
                },
            },
            (RecordPhase::End, RecordEvent::Ended(r)) => match r {
                Ok(Some(g)) => Some(Ok(GraphHandle::from_graph(g, state))),
                Ok(None) => Some(Err(GpuError::lib(LIB, "end_capture returned None"))),
                Err(text) => Some(
                    Err(
                        GpuError::LibraryError {
                            lib: LIB,
                            msg: join2("end_capture: ", text.as_str()),
                        },
                    ),
                ),
            },
            (RecordPhase::Abort(e), RecordEvent::Aborted) => Some(Err(e)),
            (other, _) => {
                self.phase = other;
                None
            },
        }
    }
}

/// Where a script with `ops` operations stands after these events.
pub open spec fn after(ops: nat, events: Seq<RecordEvent>) -> RecordView
    decreases events.len(),
{
    if events.len() == 0 {
        RecordView { ops, phase: PhaseView::Begin }
    } else {
        after(ops, events.drop_last()).step(events.last()).0
    }
}

/// Every event is one that was waited for.
pub open spec fn expected(ops: nat, events: Seq<RecordEvent>) -> bool
    decreases events.len(),
{
    events.len() > 0 ==> expected(ops, events.drop_last()) && after(
        ops,
        events.drop_last(),
    ).expects(events.last())
}

/// The answer comes only once the capture is closed: closing it is the last
/// thing that is done, and where opening it failed there is nothing to close.
pub proof fn law_capture_closed_before_answer(v: RecordView, event: RecordEvent)
    requires
        v.wf(),
        v.expects(event),
    ensures
        v.step(event).1 is Some ==> !v.step(event).0.capturing() && v.step(event).0.phase
            == PhaseView::Finished,
        v.capturing() && !v.step(event).0.capturing() ==> event is Ended || event is Aborted,
        v.step(event).0.wf(),
{
}

/// The operations are recorded in the order of the script, each once: behind
/// the opening, as many successful recordings lie as the index says.
pub proof fn law_recorded_in_order(ops: nat, events: Seq<RecordEvent>)
    requires
        expected(ops, events),
    ensures
        after(ops, events).ops == ops,
        after(ops, events).wf(),
        after(ops, events).phase is Begin ==> events.len() == 0,
        after(ops, events).phase matches PhaseView::Op(i) ==> events.len() == i + 1,
        after(ops, events).phase is End ==> events.len() == ops + 1,
        (after(ops, events).phase is Op || after(ops, events).phase is End) ==> forall|k: int|
            1 <= k < events.len() ==> (#[trigger] events[k] matches RecordEvent::Recorded(Ok(_))),
    decreases events.len(),
{
    if events.len() > 0 {
        let before = events.drop_last();
        law_recorded_in_order(ops, before);
        assert forall|k: int| 1 <= k < events.len() && (after(ops, events).phase is Op || after(
            ops,
            events,
        ).phase is End) implies (#[trigger] events[k] matches RecordEvent::Recorded(Ok(_))) by {
            if k < before.len() {
                assert(before[k] == events[k]);
            } else {
                assert(events[k] == events.last());
            }
        }
    }
}

/// A graph is handed out only where every operation of the script was
/// recorded.
pub proof fn law_graph_holds_whole_script(ops: nat, events: Seq<RecordEvent>, last: RecordEvent)
    requires
        expected(ops, events),
        after(ops, events).expects(last),
        after(ops, events).step(last).1 matches Some(Ok(_)),
    ensures
        events.len() == ops + 1,
        forall|k: int|
            1 <= k < events.len() ==> (#[trigger] events[k] matches RecordEvent::Recorded(Ok(_))),
{
    law_recorded_in_order(ops, events);
}

/// A recording in which all goes well records its operations one after the other,
/// closes the capture behind the last, and hands out the graph that the closing
/// gave.
pub proof fn law_recording_goes_through(v: RecordView, g: CapturedGraph)
    ensures
        v.phase is Begin ==> {
            let (next, answer) = v.step(RecordEvent::Began(CallOutcome::Done(())));
            &&& answer is None
            &&& next.ops == v.ops
            &&& v.ops == 0 ==> next.phase is End
            &&& v.ops > 0 ==> next.phase == PhaseView::Op(0)
        },
        v.phase matches PhaseView::Op(i) ==> {
            let (next, answer) = v.step(RecordEvent::Recorded(Ok(())));
            &&& answer is None
            &&& next.ops == v.ops
            &&& i + 1 < v.ops ==> next.phase == PhaseView::Op(i + 1)
            &&& i + 1 >= v.ops ==> next.phase is End
        },
        v.phase is End ==> {
            let (next, answer) = v.step(RecordEvent::Ended(Ok(Some(g))));
            &&& answer == Some(Ok::<CapturedGraph, ErrorView>(g))
            &&& next.phase is Finished
        },
{
}

/// The caller of a recording whose operation fails gets the operation's reason,
/// once the capture is closed.
pub proof fn law_failed_operation_is_the_answer(v: RecordView, e: GpuError)
    requires
        v.phase is Op,
    ensures
        ({
            let (aborting, early) = v.step(RecordEvent::Recorded(Err(e)));
            let (over, answer) = aborting.step(RecordEvent::Aborted);
            &&& early is None
            &&& aborting.capturing()
            &&& over.phase is Finished
            &&& answer == Some(Err::<CapturedGraph, ErrorView>(e@))
        }),
{
}

/// The caller of a recording whose capture fails gets the driver's reason.
pub proof fn law_failed_capture_is_the_answer(v: RecordView, text: String)
    ensures
        v.phase is Begin ==> {
            let (over, answer) = v.step(RecordEvent::Began(CallOutcome::Failed(text)));
            let (missing, why) = v.step(RecordEvent::Began(CallOutcome::NotLoadable));
            &&& over.phase is Finished && missing.phase is Finished
            &&& answer matches Some(Err(e)) && e == (ErrorView::LibraryError {
                lib: "graph"@,
                msg: "begin_capture: "@ + text@,
            })
            &&& why matches Some(Err(e)) && e == ErrorView::Unrecoverable(
                "GraphActor::Record: CUDA driver not loadable"@,
            )
        },
        v.phase is End ==> {
            let (over, answer) = v.step(RecordEvent::Ended(Err(text)));
            let (empty, why) = v.step(RecordEvent::Ended(Ok(None)));
            &&& over.phase is Finished && empty.phase is Finished
            &&& answer matches Some(Err(e)) && e == (ErrorView::LibraryError {
                lib: "graph"@,
                msg: "end_capture: "@ + text@,
            })
            &&& why matches Some(Err(e)) && e == (ErrorView::LibraryError {
                lib: "graph"@,
                msg: "end_capture returned None"@,
            })
        },
{
}

} // verus!
