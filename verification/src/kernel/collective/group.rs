//! Scope guard of a group of NCCL calls.

use vstd::prelude::*;

use crate::error::GpuError;
use crate::error;
use crate::kernel::collective::run::CollStep;

verus! {

/// Counter of group openings and closings. The caller keeps it, and every guard
/// that is opened and closed with it counts there.
#[derive(Debug, PartialEq, Eq, Structural)]
pub struct GroupTracker {
    pub begins: usize,
    pub ends: usize,
}

impl Default for GroupTracker {
    fn default() -> (t: GroupTracker)
        ensures
            t == (GroupTracker { begins: 0, ends: 0 }),
    {
        GroupTracker { begins: 0, ends: 0 }
    }
}

impl GroupTracker {
    /// The tracker with one more opening.
    pub open spec fn begun(self) -> GroupTracker {
        GroupTracker { begins: self.begins.wrapping_add(1), ..self }
    }

    /// The tracker with one more closing.
    pub open spec fn ended(self) -> GroupTracker {
        GroupTracker { ends: self.ends.wrapping_add(1), ..self }
    }
}

/// Guard of an open group. The group is closed once: by [`GroupGuard::commit`],
/// or when the guard goes out of scope ([`GroupGuard::leave_scope`]). Either uses
/// the guard up. An inert guard counts like any other but makes no NCCL call.
#[derive(Debug, PartialEq, Eq, Structural)]
pub struct GroupGuard {
    /// The guard was opened with a tracker, and is closed with the same one.
    pub counted: bool,
    pub inert: bool,
}

/// Whether the NCCL group is to be closed by a call.
#[derive(Debug, Clone, Copy, PartialEq, Eq, Structural)]
pub enum GroupEnd {
    Nothing,
    CallGroupEnd,
}

impl GroupGuard {
    /// Open a group, from the outcome of the NCCL call that opens it.
    pub fn begin(tracker: Option<&mut GroupTracker>, started: Result<(), String>) -> (r: Result<
        GroupGuard,
        GpuError,
    >)
        ensures
            error::outcome(r) == match started {
                Ok(_) => Ok(GroupGuard { counted: tracker is Some, inert: false }),
                Err(text) => Err(CollStep::GroupStart.error(text@)),
            },
            tracker matches Some(t) ==> *final(t) == if started is Ok {
                (*t).begun()
            } else {
                *t
            },
    {
        match started {
            Ok(_) => {
                let counted = tracker.is_some();
                count_begin(tracker);
                Ok(GroupGuard { counted, inert: false })
            },
            Err(text) => Err(CollStep::GroupStart.into_error(text.as_str())),
        }
    }

    /// Open a group without NCCL.
    pub fn begin_inert(tracker: Option<&mut GroupTracker>) -> (g: GroupGuard)
        ensures
            g == (GroupGuard { counted: tracker is Some, inert: true }),
            tracker matches Some(t) ==> *final(t) == (*t).begun(),
    {
        let counted = tracker.is_some();
        count_begin(tracker);
        GroupGuard { counted, inert: true }
    }

    /// How the group is closed.
    pub open spec fn spec_end(self) -> GroupEnd {
        if self.inert {
            GroupEnd::Nothing
        } else {
            GroupEnd::CallGroupEnd
        }
    }

    fn end(self, tracker: Option<&mut GroupTracker>) -> (end: GroupEnd)
        ensures
            end == self.spec_end(),
            tracker matches Some(t) ==> *final(t) == if self.counted {
                (*t).ended()
            } else {
                *t
            },
    {
        if self.counted {
            count_end(tracker);
        }
        if self.inert {
            GroupEnd::Nothing
        } else {
            GroupEnd::CallGroupEnd
        }
    }

    /// Close the group. The result says whether NCCL has to be called for it.
    pub fn commit(self, tracker: Option<&mut GroupTracker>) -> (end: GroupEnd)
        requires
            self.counted ==> tracker is Some,
        ensures
            end == self.spec_end(),
            tracker matches Some(t) ==> *final(t) == if self.counted {
                (*t).ended()
            } else {
                *t
            },
    {
        self.end(tracker)
    }

    /// The answer of a commit, from the outcome of the NCCL call.
    pub fn commit_reply(ended: Result<(), String>) -> (r: Result<(), GpuError>)
        ensures
            error::outcome(r) == match ended {
                Ok(_) => Ok(()),
                Err(text) => Err(CollStep::GroupEnd.error(text@)),
            },
    {
        match ended {
            Ok(_) => Ok(()),
            Err(text) => Err(CollStep::GroupEnd.into_error(text.as_str())),
        }
    }

    /// The guard goes out of scope without a commit: its group is closed.
    pub fn leave_scope(self, tracker: Option<&mut GroupTracker>) -> (end: GroupEnd)
        requires
            self.counted ==> tracker is Some,
        ensures
            end == self.spec_end(),
            tracker matches Some(t) ==> *final(t) == if self.counted {
                (*t).ended()
            } else {
                *t
            },
    {
        self.end(tracker)
    }
}

fn count_begin(tracker: Option<&mut GroupTracker>)
    ensures
        tracker matches Some(t) ==> *final(t) == (*t).begun(),
{
    if let Some(t) = tracker {
        t.begins = t.begins.wrapping_add(1);
    }
}

fn count_end(tracker: Option<&mut GroupTracker>)
    ensures
        tracker matches Some(t) ==> *final(t) == (*t).ended(),
{
    if let Some(t) = tracker {
        t.ends = t.ends.wrapping_add(1);
    }
}

/// A guard counts one opening and one closing, whatever was counted before. So
/// counts that agree before agree after.
pub proof fn law_group_counts_balance(t: GroupTracker)
    ensures
        t.begun().ended().begins == t.begins.wrapping_add(1),
        t.begun().ended().ends == t.ends.wrapping_add(1),
        t.begins == t.ends ==> t.begun().ended().begins == t.begun().ended().ends,
{
}

/// Guards that share a tracker all count there, in whatever order they are opened
/// and closed.
pub proof fn law_guards_share_their_tracker(t: GroupTracker)
    ensures
        t.begun().begun().ended().ended() == t.begun().ended().begun().ended(),
        t.begun().begun().ended().ended().begins == t.begins.wrapping_add(1).wrapping_add(1),
        t.begun().begun().ended().ended().ends == t.ends.wrapping_add(1).wrapping_add(1),
{
}

/// Only a guard that opened an NCCL group closes one, and it does so on every way
/// out.
pub proof fn law_only_real_groups_are_closed(g: GroupGuard)
    ensures
        g.spec_end() is CallGroupEnd <==> !g.inert,
{
}

} // verus!
