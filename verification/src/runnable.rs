use vstd::prelude::*;

use crate::timespan::TimeSpan;

verus! {

/// The phases a runnable passes through while a lifecycle runs it.
#[derive(Clone, Copy, Debug, PartialEq, Eq, Structural)]
pub enum State {
    Initial,
    Starting,
    Running,
    Stopping,
    Complete,
}

/// Whether a runnable is meant to run until stopped or to finish on its own.
#[derive(Clone, Copy, Debug, PartialEq, Eq, Structural)]
pub enum Lifetime {
    Continuous,
    Oneshot,
}

/// A runnable as a lifecycle sees it: the name that identifies it (which must
/// be unique within a lifecycle), the time it is given to finish once asked to
/// stop, and the task itself, which the lifecycle carries without inspecting.
pub struct RunnableEntry<T> {
    pub name: String,
    pub timeout: TimeSpan,
    pub task: T,
}

impl<T> RunnableEntry<T> {
    /// An entry for `task`, identified by `name`, allowed `timeout` to stop.
    pub fn new(name: String, timeout: TimeSpan, task: T) -> (e: RunnableEntry<T>)
        ensures
            e.name@ == name@,
            e.timeout == timeout,
            e.task == task,
    {
        RunnableEntry { name, timeout, task }
    }
}

/// No two entries share a name.
pub open spec fn names_distinct<T>(rs: Seq<RunnableEntry<T>>) -> bool {
    forall|i: int, j: int| 0 <= i < j < rs.len() ==> rs[i].name@ != rs[j].name@
}

/// Every entry's timeout is at most `limit`.
pub open spec fn timeouts_within<T>(rs: Seq<RunnableEntry<T>>, limit: TimeSpan) -> bool {
    forall|i: int| 0 <= i < rs.len() ==> rs[i].timeout@ <= limit@
}

/// Some entry is named `name`.
pub open spec fn has_name<T>(rs: Seq<RunnableEntry<T>>, name: Seq<char>) -> bool {
    exists|i: int| 0 <= i < rs.len() && rs[i].name@ == name
}

} // verus!
