//! Error taxonomy and the supervisor decider for context-poisoning recovery.
//!
//! The actor supervisor only sees the panic message of a failed child. An
//! actor that detects a poisoned context therefore panics with a message that
//! carries a marker, and [`DeviceSupervisor::decide_str`] reads the markers
//! back into directives. [`DeviceSupervisor::decide`] takes the same decision
//! from the typed error; [`law_transport_preserves_decision`] says on which
//! errors the two agree.

use vstd::prelude::*;
use vstd::string::*;

use crate::text;
use crate::text::{contains_text, join2, join3};

verus! {

/// Marker in a panic message that signals a poisoned context.
pub const CONTEXT_POISONED_TAG: &'static str = "ContextPoisoned";

/// Marker of an allocation failure that the supervisor resumes past.
pub const OUT_OF_MEMORY_TAG: &'static str = "OutOfMemory";

/// Marker of a fatal error that stops the device.
pub const UNRECOVERABLE_TAG: &'static str = "Unrecoverable";

/// What can go wrong between a request and the device.
#[derive(Debug)]
pub enum GpuError {
    /// The CUDA context is in a sticky-error state. Restarts the context
    /// and bumps the generation of the device state.
    ContextPoisoned(String),
    /// An allocation failed but the context is still usable.
    OutOfMemory(String),
    /// Hardware fault or repeated poisoning past the retry budget.
    Unrecoverable(String),
    /// A buffer reference outlived its context or its device.
    GpuRefStale(&'static str),
    /// Driver-level failure.
    Driver(String),
    /// cuBLAS failure of the older surface; new code uses `LibraryError`.
    Cublas(String),
    /// Failure of a CUDA library, tagged with the library's name.
    LibraryError { lib: &'static str, msg: String },
    /// No completion arrived.
    Timeout,
}

/// [`GpuError`] with its texts taken as character sequences.
#[verifier::ext_equal]
pub enum ErrorView {
    ContextPoisoned(Seq<char>),
    OutOfMemory(Seq<char>),
    Unrecoverable(Seq<char>),
    GpuRefStale(Seq<char>),
    Driver(Seq<char>),
    Cublas(Seq<char>),
    LibraryError { lib: Seq<char>, msg: Seq<char> },
    Timeout,
}

impl View for GpuError {
    type V = ErrorView;

    open spec fn view(&self) -> ErrorView {
        match self {
            GpuError::ContextPoisoned(m) => ErrorView::ContextPoisoned(m@),
            GpuError::OutOfMemory(m) => ErrorView::OutOfMemory(m@),
            GpuError::Unrecoverable(m) => ErrorView::Unrecoverable(m@),
            GpuError::GpuRefStale(m) => ErrorView::GpuRefStale(m@),
            GpuError::Driver(m) => ErrorView::Driver(m@),
            GpuError::Cublas(m) => ErrorView::Cublas(m@),
            GpuError::LibraryError { lib, msg } => ErrorView::LibraryError { lib: lib@, msg: msg@ },
            GpuError::Timeout => ErrorView::Timeout,
        }
    }
}

/// A result with its error taken by its view.
pub open spec fn outcome<T>(r: Result<T, GpuError>) -> Result<T, ErrorView> {
    match r {
        Ok(v) => Ok(v),
        Err(e) => Err(e@),
    }
}

/// Supervisor verdict on a failed child.
#[derive(Debug, Clone, Copy, PartialEq, Eq, Structural)]
pub enum Directive {
    Resume,
    Restart,
    Stop,
    Escalate,
}

impl ErrorView {
    /// The text that the error is displayed as, and panics with.
    pub open spec fn message(self) -> Seq<char> {
        match self {
            ErrorView::ContextPoisoned(m) => "ContextPoisoned: "@ + m,
            ErrorView::OutOfMemory(m) => "OutOfMemory: "@ + m,
            ErrorView::Unrecoverable(m) => "Unrecoverable: "@ + m,
            ErrorView::GpuRefStale(m) => "GpuRef stale: "@ + m,
            ErrorView::Driver(m) => "cudarc driver error: "@ + m,
            ErrorView::Cublas(m) => "cudarc cuBLAS error: "@ + m,
            ErrorView::LibraryError { lib, msg } => "cudarc "@ + lib + " error: "@ + msg,
            ErrorView::Timeout => "ask timed out before GPU completion"@,
        }
    }

    /// The directive that the kind of the error calls for.
    pub open spec fn directive(self) -> Directive {
        match self {
            ErrorView::ContextPoisoned(_) => Directive::Restart,
            ErrorView::OutOfMemory(_) => Directive::Resume,
            ErrorView::Unrecoverable(_) => Directive::Stop,
            _ => Directive::Escalate,
        }
    }

    /// No text carried by the error holds `tag`.
    pub open spec fn payload_free_of(self, tag: Seq<char>) -> bool {
        match self {
            ErrorView::ContextPoisoned(m) => !text::has_text(m, tag),
            ErrorView::OutOfMemory(m) => !text::has_text(m, tag),
            ErrorView::Unrecoverable(m) => !text::has_text(m, tag),
            ErrorView::GpuRefStale(m) => !text::has_text(m, tag),
            ErrorView::Driver(m) => !text::has_text(m, tag),
            ErrorView::Cublas(m) => !text::has_text(m, tag),
            ErrorView::LibraryError { lib, msg } => !text::has_text(lib, tag)
                && !text::has_text(msg, tag),
            ErrorView::Timeout => true,
        }
    }

    /// The carried texts hold no marker that outranks the error's own kind.
    pub open spec fn unambiguous(self) -> bool {
        match self {
            ErrorView::ContextPoisoned(_) => true,
            ErrorView::OutOfMemory(_) => self.payload_free_of(CONTEXT_POISONED_TAG@),
            ErrorView::Unrecoverable(_) => self.payload_free_of(CONTEXT_POISONED_TAG@)
                && self.payload_free_of(OUT_OF_MEMORY_TAG@),
            _ => self.payload_free_of(CONTEXT_POISONED_TAG@) && self.payload_free_of(
                OUT_OF_MEMORY_TAG@,
            ) && self.payload_free_of(UNRECOVERABLE_TAG@),
        }
    }
}

/// The directive that the markers in a panic message call for. The markers
/// are looked for in the order poisoned context, out of memory,
/// unrecoverable; a message without any of them escalates.
pub open spec fn message_directive(msg: Seq<char>) -> Directive {
    if text::has_text(msg, CONTEXT_POISONED_TAG@) {
        Directive::Restart
    } else if text::has_text(msg, OUT_OF_MEMORY_TAG@) {
        Directive::Resume
    } else if text::has_text(msg, UNRECOVERABLE_TAG@) {
        Directive::Stop
    } else {
        Directive::Escalate
    }
}

impl GpuError {
    /// A library error tagged with the library's name.
    pub fn lib(lib: &'static str, msg: &str) -> (e: GpuError)
        ensures
            e@ == (ErrorView::LibraryError { lib: lib@, msg: msg@ }),
    {
        GpuError::LibraryError { lib, msg: String::from_str(msg) }
    }

    /// The message to panic with out of an actor handler, so that the
    /// supervisor's decider can route the failure.
    pub fn panic_message(&self) -> (s: String)
        ensures
            s@ == self@.message(),
    {
        match self {
            GpuError::ContextPoisoned(m) => join2("ContextPoisoned: ", m.as_str()),
            GpuError::OutOfMemory(m) => join2("OutOfMemory: ", m.as_str()),
            GpuError::Unrecoverable(m) => join2("Unrecoverable: ", m.as_str()),
            GpuError::GpuRefStale(m) => join2("GpuRef stale: ", m),
            GpuError::Driver(m) => join2("cudarc driver error: ", m.as_str()),
            GpuError::Cublas(m) => join2("cudarc cuBLAS error: ", m.as_str()),
            GpuError::LibraryError { lib, msg } => {
                let mut s = join3("cudarc ", lib, " error: ");
                s.append(msg.as_str());
                s
            },
            GpuError::Timeout => String::from_str("ask timed out before GPU completion"),
        }
    }

    /// An unrecoverable error with a literal text.
    pub fn unrecoverable(msg: &str) -> (e: GpuError)
        ensures
            e@ == ErrorView::Unrecoverable(msg@),
    {
        GpuError::Unrecoverable(String::from_str(msg))
    }
}

/// The function takes every panic message and decides on it by its markers.
pub open spec fn decides_by_markers<F: Fn(&str) -> Directive>(d: F) -> bool {
    &&& forall|msg: &str| #[trigger] d.requires((msg,))
    &&& forall|msg: &str, r: Directive| #[trigger]
        d.ensures((msg,), r) ==> r == message_directive(msg@)
}

/// The decider of [`DeviceSupervisor::decide_str`] as a function value, for
/// strategies that are configured with one.
pub fn decider() -> (d: impl Fn(&str) -> Directive)
    ensures
        decides_by_markers(d),
{
    |panic_msg: &str| -> (r: Directive)
        ensures
            r == message_directive(panic_msg@),
        { DeviceSupervisor::decide_str(panic_msg) }
}

/// Restart budget of the one-for-one strategy that a device applies to its
/// context.
#[derive(Debug, Clone, Copy, PartialEq, Eq, Structural)]
pub struct SupervisorStrategy {
    pub max_retries: u32,
    pub within_secs: u64,
}

impl SupervisorStrategy {
    /// The strategy's decision on a failure: that of [`decider`].
    pub fn decide(&self, panic_msg: &str) -> (d: Directive)
        ensures
            d == message_directive(panic_msg@),
    {
        let decide = decider();
        decide(panic_msg)
    }
}

/// The strategy that the device actor applies to its context actor: three
/// retries inside a one-minute window; past that, the device stops.
pub fn device_supervisor_strategy() -> (s: SupervisorStrategy)
    ensures
        s == (SupervisorStrategy { max_retries: 3, within_secs: 60 }),
{
    SupervisorStrategy { max_retries: 3, within_secs: 60 }
}

/// Supervisor of the context actor.
pub struct DeviceSupervisor;

impl DeviceSupervisor {
    /// Decision on a typed error.
    pub fn decide(err: &GpuError) -> (d: Directive)
        ensures
            d == err@.directive(),
    {
        match err {
            GpuError::ContextPoisoned(_) => Directive::Restart,
            GpuError::OutOfMemory(_) => Directive::Resume,
            GpuError::Unrecoverable(_) => Directive::Stop,
            GpuError::Timeout
            | GpuError::GpuRefStale(_)
            | GpuError::Driver(_)
            | GpuError::LibraryError { .. }
            | GpuError::Cublas(_) => Directive::Escalate,
        }
    }

    /// Decision on a panic message.
    pub fn decide_str(panic_msg: &str) -> (d: Directive)
        ensures
            d == message_directive(panic_msg@),
    {
        if contains_text(panic_msg, CONTEXT_POISONED_TAG) {
            Directive::Restart
        } else if contains_text(panic_msg, OUT_OF_MEMORY_TAG) {
            Directive::Resume
        } else if contains_text(panic_msg, UNRECOVERABLE_TAG) {
            Directive::Stop
        } else {
            Directive::Escalate
        }
    }
}

/// None of the characters of a text starts the needle, so the needle is not in
/// the text.
proof fn lemma_absent_by_first(hay: Seq<char>, needle: Seq<char>)
    requires
        needle.len() > 0,
        forall|i: int| 0 <= i < hay.len() ==> #[trigger] hay[i] != needle[0],
    ensures
        !text::has_text(hay, needle),
{
    assert forall|at: int| !#[trigger] text::occurs_at(hay, needle, at) by {
        if text::occurs_at(hay, needle, at) {
            assert(hay[at + 0] == needle[0]);
        }
    }
}

/// Behind a prefix that ends in a space, a needle without spaces is found in
/// the prefix or in the rest, and nowhere else.
proof fn lemma_prefixed(head: Seq<char>, prefix: Seq<char>, rest: Seq<char>, needle: Seq<char>)
    requires
        prefix == head.push(' '),
        needle.len() > 0,
        forall|j: int| 0 <= j < needle.len() ==> needle[j] != ' ',
    ensures
        text::has_text(prefix + rest, needle) == (text::has_text(head, needle) || text::has_text(rest, needle)),
{
    if text::has_text(prefix + rest, needle) {
        text::lemma_has_text_split(head, ' ', rest, needle);
    }
    if text::has_text(rest, needle) {
        text::lemma_has_text_right(prefix, rest, needle);
    }
    if text::has_text(head, needle) {
        text::lemma_has_text_left(head, seq![' '] + rest, needle);
        assert(head + (seq![' '] + rest) =~= prefix + rest);
    }
}

/// The shape of a marker: non-empty, free of spaces, and starting with a
/// capital that no fixed part of another error's message starts a match with.
spec fn is_tag(tag: Seq<char>) -> bool {
    tag == CONTEXT_POISONED_TAG@ || tag == OUT_OF_MEMORY_TAG@ || tag == UNRECOVERABLE_TAG@
}

proof fn lemma_tag_shape(tag: Seq<char>)
    requires
        is_tag(tag),
    ensures
        tag.len() >= 11,
        tag[0] == 'C' || tag[0] == 'O' || tag[0] == 'U',
        tag[0] == 'C' ==> tag.len() == 15,
        tag[0] == 'U' ==> tag[1] == 'n',
        forall|j: int| 0 <= j < tag.len() ==> tag[j] != ' ',
{
    reveal_strlit("ContextPoisoned");
    reveal_strlit("OutOfMemory");
    reveal_strlit("Unrecoverable");
}

/// Which markers stand in the fixed part of each message.
proof fn lemma_message_tags(e: ErrorView, tag: Seq<char>)
    requires
        is_tag(tag),
        e !is ContextPoisoned,
    ensures
        text::has_text(e.message(), tag) == (!e.payload_free_of(tag) || (e is OutOfMemory && tag
            == OUT_OF_MEMORY_TAG@) || (e is Unrecoverable && tag == UNRECOVERABLE_TAG@)),
{
    lemma_tag_shape(tag);
    reveal_strlit("ContextPoisoned");
    reveal_strlit("OutOfMemory");
    reveal_strlit("Unrecoverable");
    reveal_strlit("OutOfMemory: ");
    reveal_strlit("Unrecoverable: ");
    reveal_strlit("GpuRef stale: ");
    reveal_strlit("cudarc driver error: ");
    reveal_strlit("cudarc cuBLAS error: ");
    reveal_strlit("cudarc ");
    reveal_strlit(" error: ");
    reveal_strlit("ask timed out before GPU completion");
    match e {
        ErrorView::OutOfMemory(m) => {
            let prefix = "OutOfMemory: "@;
            let head = prefix.drop_last();
            assert(prefix =~= head.push(' '));
            lemma_prefixed(head, prefix, m, tag);
            if tag == OUT_OF_MEMORY_TAG@ {
                assert(text::occurs_at(head, tag, 0));
            } else {
                assert forall|at: int| !#[trigger] text::occurs_at(head, tag, at) by {
                    if text::occurs_at(head, tag, at) {
                        assert(tag.len() >= 13);
                        assert(head.len() == 12);
                    }
                }
            }
        },
        ErrorView::Unrecoverable(m) => {
            let prefix = "Unrecoverable: "@;
            let head = prefix.drop_last();
            assert(prefix =~= head.push(' '));
            lemma_prefixed(head, prefix, m, tag);
            if tag == UNRECOVERABLE_TAG@ {
                assert(text::occurs_at(head, tag, 0));
            } else {
                lemma_absent_by_first(head, tag);
            }
        },
        ErrorView::GpuRefStale(m) => {
            let prefix = "GpuRef stale: "@;
            let head = prefix.drop_last();
            assert(prefix =~= head.push(' '));
            lemma_prefixed(head, prefix, m, tag);
            lemma_absent_by_first(head, tag);
        },
        ErrorView::Driver(m) => {
            let prefix = "cudarc driver error: "@;
            let head = prefix.drop_last();
            assert(prefix =~= head.push(' '));
            lemma_prefixed(head, prefix, m, tag);
            lemma_absent_by_first(head, tag);
        },
        ErrorView::Cublas(m) => {
            let prefix = "cudarc cuBLAS error: "@;
            let head = prefix.drop_last();
            assert(prefix =~= head.push(' '));
            lemma_prefixed(head, prefix, m, tag);
            lemma_absent_by_first(head, tag);
        },
        ErrorView::LibraryError { lib, msg } => {
            let p1 = "cudarc "@;
            let h1 = p1.drop_last();
            assert(p1 =~= h1.push(' '));
            lemma_absent_by_first(h1, tag);
            let p2 = "error: "@;
            reveal_strlit("error: ");
            let h2 = p2.drop_last();
            assert(p2 =~= h2.push(' '));
            lemma_absent_by_first(h2, tag);
            lemma_prefixed(h2, p2, msg, tag);
            let lib_sp = lib.push(' ');
            lemma_prefixed(lib, lib_sp, p2 + msg, tag);
            lemma_prefixed(h1, p1, lib_sp + (p2 + msg), tag);
            assert(e.message() =~= p1 + (lib_sp + (p2 + msg)));
        },
        ErrorView::Timeout => {
            let msg = "ask timed out before GPU completion"@;
            assert forall|at: int| !#[trigger] text::occurs_at(msg, tag, at) by {
                if text::occurs_at(msg, tag, at) {
                    assert(msg[at + 0] == tag[0]);
                    assert(msg[at + 1] == tag[1]);
                    assert(msg[at] == 'U' ==> at == 23);
                }
            }
        },
        ErrorView::ContextPoisoned(_) => {},
    }
}

/// Panicking with an error's message and deciding on the message gives the
/// directive of the typed error exactly when the texts inside the error hold
/// no marker that outranks it. The context-poisoning error survives the
/// transport whatever it carries.
pub proof fn law_transport_preserves_decision(e: ErrorView)
    ensures
        (message_directive(e.message()) == e.directive()) <==> e.unambiguous(),
{
    reveal_strlit("ContextPoisoned");
    reveal_strlit("OutOfMemory");
    reveal_strlit("Unrecoverable");
    match e {
        ErrorView::ContextPoisoned(m) => {
            reveal_strlit("ContextPoisoned: ");
            assert(text::occurs_at(e.message(), CONTEXT_POISONED_TAG@, 0));
        },
        _ => {
            lemma_message_tags(e, CONTEXT_POISONED_TAG@);
            lemma_message_tags(e, OUT_OF_MEMORY_TAG@);
            lemma_message_tags(e, UNRECOVERABLE_TAG@);
            assert(OUT_OF_MEMORY_TAG@.len() != UNRECOVERABLE_TAG@.len());
            assert(OUT_OF_MEMORY_TAG@.len() != CONTEXT_POISONED_TAG@.len());
            assert(UNRECOVERABLE_TAG@.len() != CONTEXT_POISONED_TAG@.len());
        },
    }
}

/// A function that decides by the markers gives, on every message, what
/// [`DeviceSupervisor::decide_str`] gives on it.
pub proof fn law_decider_is_decide_str<F: Fn(&str) -> Directive>(
    d: F,
    msg: &str,
    by_function: Directive,
    by_method: Directive,
)
    requires
        decides_by_markers(d),
        d.ensures((msg,), by_function),
        call_ensures(DeviceSupervisor::decide_str, (msg,), by_method),
    ensures
        by_function == by_method,
{
}

/// A poisoned context is rebuilt, a failed allocation is no reason to stop, what
/// cannot be recovered from stops the device, and everything else is for the
/// supervisor above.
pub proof fn law_directives(e: ErrorView)
    ensures
        e.directive() is Restart <==> e is ContextPoisoned,
        e.directive() is Resume <==> e is OutOfMemory,
        e.directive() is Stop <==> e is Unrecoverable,
        e.directive() is Escalate <==> e is GpuRefStale || e is Driver || e is Cublas
            || e is LibraryError || e is Timeout,
{
}

/// A message is decided on by the first of the three markers that it holds, and
/// escalates where it holds none.
pub proof fn law_markers_in_order(msg: Seq<char>)
    ensures
        text::has_text(msg, "ContextPoisoned"@) ==> message_directive(msg) is Restart,
        !text::has_text(msg, "ContextPoisoned"@) && text::has_text(msg, "OutOfMemory"@)
            ==> message_directive(msg) is Resume,
        !text::has_text(msg, "ContextPoisoned"@) && !text::has_text(msg, "OutOfMemory"@)
            && text::has_text(msg, "Unrecoverable"@) ==> message_directive(msg) is Stop,
        !text::has_text(msg, "ContextPoisoned"@) && !text::has_text(msg, "OutOfMemory"@)
            && !text::has_text(msg, "Unrecoverable"@) ==> message_directive(msg) is Escalate,
{
}

/// An error is displayed as its kind and the text that it carries.
pub proof fn law_messages(m: Seq<char>, lib: Seq<char>)
    ensures
        ErrorView::ContextPoisoned(m).message() == "ContextPoisoned: "@ + m,
        ErrorView::OutOfMemory(m).message() == "OutOfMemory: "@ + m,
        ErrorView::Unrecoverable(m).message() == "Unrecoverable: "@ + m,
        ErrorView::GpuRefStale(m).message() == "GpuRef stale: "@ + m,
        ErrorView::Driver(m).message() == "cudarc driver error: "@ + m,
        ErrorView::Cublas(m).message() == "cudarc cuBLAS error: "@ + m,
        (ErrorView::LibraryError { lib, msg: m }).message() == "cudarc "@ + lib + " error: "@ + m,
        ErrorView::Timeout.message() == "ask timed out before GPU completion"@,
{
}

} // verus!
