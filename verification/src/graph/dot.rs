//! Graphviz export of captured graphs.
//!
//! The driver writes the text to a file; the runtime picks a temporary one by
//! [`dot_file_name`] and reads it back.

use vstd::prelude::*;
use vstd::string::*;

use crate::driver_call::CallOutcome;
use crate::error::{ErrorView, GpuError};
use crate::graph::LIB;
use crate::text;
use crate::text::{join2, join3, unsigned_text};

verus! {

/// What the export shows of each node, one bit per kind of detail.
#[derive(Debug, Clone, Copy, PartialEq, Eq, Structural)]
pub struct DotFlags {
    bits: u32,
}

impl DotFlags {
    /// The flags' bit pattern.
    pub closed spec fn spec_bits(self) -> u32 {
        self.bits
    }

    /// Everything.
    pub fn verbose() -> (f: DotFlags)
        ensures
            f.spec_bits() == 0x1,
    {
        DotFlags { bits: 0x1 }
    }

    /// Parameters of kernels.
    pub fn kernel_node() -> (f: DotFlags)
        ensures
            f.spec_bits() == 0x4,
    {
        DotFlags { bits: 0x4 }
    }

    /// Parameters of copies.
    pub fn memcpy_node() -> (f: DotFlags)
        ensures
            f.spec_bits() == 0x8,
    {
        DotFlags { bits: 0x8 }
    }

    /// Parameters of fills.
    pub fn memset_node() -> (f: DotFlags)
        ensures
            f.spec_bits() == 0x10,
    {
        DotFlags { bits: 0x10 }
    }

    /// Parameters of host functions.
    pub fn host_node() -> (f: DotFlags)
        ensures
            f.spec_bits() == 0x20,
    {
        DotFlags { bits: 0x20 }
    }

    /// Contents of child graphs.
    pub fn graph_node() -> (f: DotFlags)
        ensures
            f.spec_bits() == 0x40,
    {
        DotFlags { bits: 0x40 }
    }

    /// No details.
    pub fn empty() -> (f: DotFlags)
        ensures
            f.spec_bits() == 0,
    {
        DotFlags { bits: 0 }
    }

    /// The flags' bit pattern.
    pub fn bits(&self) -> (b: u32)
        ensures
            b == self.spec_bits(),
    {
        self.bits
    }

    /// The details of both.
    pub fn union(self, other: DotFlags) -> (f: DotFlags)
        ensures
            f.spec_bits() == self.spec_bits() | other.spec_bits(),
    {
        DotFlags { bits: self.bits | other.bits }
    }
}

impl Default for DotFlags {
    fn default() -> (f: DotFlags)
        ensures
            f.spec_bits() == 0,
    {
        DotFlags::empty()
    }
}

/// Name of the temporary file of a process at some nanosecond.
pub fn dot_file_name(pid: u32, nanos: u32) -> (s: String)
    ensures
        s@ == "atomr-accel-graph-"@ + text::decimal(pid as nat) + "-"@ + text::decimal(nanos as nat)
            + ".dot"@,
{
    let p = unsigned_text(pid as u64);
    let n = unsigned_text(nanos as u64);
    let mut s = join3("atomr-accel-graph-", p.as_str(), "-");
    s.append(n.as_str());
    s.append(".dot");
    s
}

/// What the export came to, from what its steps came to: `path` is the file's
/// name, `bad_path` says why the driver cannot be handed it, and `read` is
/// what reading it back gave.
pub open spec fn export_answer(
    path: Seq<char>,
    bad_path: Option<String>,
    printed: CallOutcome<()>,
    read: Result<String, String>,
) -> Result<Seq<char>, ErrorView> {
    match bad_path {
        Some(e) => Err(ErrorView::Unrecoverable("export_dot: bad path: "@ + e@)),
        None => match printed {
            CallOutcome::NotLoadable => Err(
                ErrorView::Unrecoverable("export_dot: CUDA driver not loadable"@),
            ),
            CallOutcome::Failed(text) => Err(
                ErrorView::LibraryError { lib: LIB@, msg: "cuGraphDebugDotPrint: "@ + text@ },
            ),
            CallOutcome::Done(_) => match read {
                Ok(s) => Ok(s@),
                Err(e) => Err(
                    ErrorView::LibraryError {
                        lib: LIB@,
                        msg: "read DOT file "@ + path + ": "@ + e@,
                    },
                ),
            },
        },
    }
}

/// What the export came to, from what its steps came to. A step behind one
/// that failed was not performed, and its argument is not looked at.
pub fn export_dot(
    path: &str,
    bad_path: Option<String>,
    printed: CallOutcome<()>,
    read: Result<String, String>,
) -> (r: Result<String, GpuError>)
    ensures
        match export_answer(path@, bad_path, printed, read) {
            Ok(s) => r is Ok && r->Ok_0@ == s,
            Err(e) => r is Err && r->Err_0@ == e,
        },
{
    if let Some(e) = bad_path {
        return Err(GpuError::Unrecoverable(join2("export_dot: bad path: ", e.as_str())));
    }
    match printed {
        CallOutcome::NotLoadable => Err(
            GpuError::unrecoverable("export_dot: CUDA driver not loadable"),
        ),
        CallOutcome::Failed(text) => Err(
            GpuError::LibraryError {
                lib: LIB,
                msg: join2("cuGraphDebugDotPrint: ", text.as_str()),
            },
        ),
        CallOutcome::Done(_) => match read {
            Ok(s) => Ok(s),
            Err(e) => {
                let mut msg = join3("read DOT file ", path, ": ");
                msg.append(e.as_str());
                Err(GpuError::LibraryError { lib: LIB, msg })
            },
        },
    }
}

/// The export is what was read back, exactly when the file could be named, the
/// driver wrote it and it could be read.
pub proof fn law_export_is_what_was_read(
    path: Seq<char>,
    bad_path: Option<String>,
    printed: CallOutcome<()>,
    read: Result<String, String>,
)
    ensures
        match export_answer(path, bad_path, printed, read) {
            Ok(text) => bad_path is None && printed is Done && (read matches Ok(s) && s@ == text),
            Err(e) => {
                &&& bad_path is Some || !(printed is Done) || read is Err
                &&& bad_path matches Some(why) ==> e == ErrorView::Unrecoverable(
                    "export_dot: bad path: "@ + why@,
                )
                &&& bad_path is None && printed is NotLoadable ==> e == ErrorView::Unrecoverable(
                    "export_dot: CUDA driver not loadable"@,
                )
                &&& bad_path is None ==> (printed matches CallOutcome::Failed(why) ==> e == (
                ErrorView::LibraryError {
                    lib: "graph"@,
                    msg: "cuGraphDebugDotPrint: "@ + why@,
                }))
                &&& bad_path is None && printed is Done ==> (read matches Err(why) ==> e == (
                ErrorView::LibraryError {
                    lib: "graph"@,
                    msg: "read DOT file "@ + path + ": "@ + why@,
                }))
            },
        },
{
}

} // verus!
