//! Building a lifecycle from runnables, and judging how its shutdown went.
use vstd::prelude::*;

use crate::runnable::{has_name, names_distinct, timeouts_within, RunnableEntry};
use crate::timespan::TimeSpan;

verus! {

/// The shutdown timeout a builder starts with, in milliseconds.
pub const SHUTDOWN_TIMEOUT_MS: u64 = 20;

/// Why a builder refused to build a lifecycle.
#[derive(Clone, Copy, Debug, PartialEq, Eq, Structural)]
pub enum LifecycleBuildError {
    /// Some runnable's timeout is longer than the lifecycle's shutdown timeout.
    ExcessiveTimeout,
    /// Two runnables share a name.
    DuplicateNames,
}

/// Why a lifecycle's run ended in failure.
#[derive(Clone, Copy, Debug, PartialEq, Eq, Structural)]
pub enum LifecycleError {
    /// Some runnable did not finish within its timeout after being asked to stop.
    IncompleteShutdown,
}

/// Marker for a lifecycle that has not started.
pub struct Initial;

/// Marker for a lifecycle that is running.
pub struct Running;

/// Marker for a lifecycle that has finished.
pub struct Complete;

/// Marker for a builder that has no runnable yet.
pub struct Unset;

/// The states a builder's runnable list can be in.
pub trait RunnablesMarker {}

impl RunnablesMarker for Unset {}

impl<T> RunnablesMarker for Vec<RunnableEntry<T>> {}

/// Collects runnables and a shutdown timeout. A lifecycle can only be built
/// once at least one runnable has been added.
pub struct Builder<RM: RunnablesMarker> {
    runnables: RM,
    shutdown_timeout: TimeSpan,
}

impl<RM: RunnablesMarker> Builder<RM> {
    /// The shutdown timeout this builder holds.
    pub closed spec fn shutdown_limit(self) -> TimeSpan {
        self.shutdown_timeout
    }

    /// The runnable list (or its absence) this builder holds.
    pub closed spec fn runnable_list(self) -> RM {
        self.runnables
    }

    /// Replaces the shutdown timeout, keeping the runnables.
    pub fn with_shutdown_timeout(self, timeout: TimeSpan) -> (b: Self)
        ensures
            b.shutdown_limit() == timeout,
            b.runnable_list() == self.runnable_list(),
    {
        let mut b = self;
        b.shutdown_timeout = timeout;
        b
    }
}

impl Builder<Unset> {
    /// Adds the first runnable.
    pub fn with_runnable<T>(self, runnable: RunnableEntry<T>) -> (b: Builder<Vec<RunnableEntry<T>>>)
        ensures
            b.registered() == seq![runnable],
            b.shutdown_limit() == self.shutdown_limit(),
    {
        let runnables = vec![runnable];
        Builder { runnables, shutdown_timeout: self.shutdown_timeout }
    }
}

impl<T> Builder<Vec<RunnableEntry<T>>> {
    /// The runnables added so far, in the order they were added.
    pub open spec fn registered(self) -> Seq<RunnableEntry<T>> {
        self.runnable_list()@
    }

    /// Adds another runnable after those already added.
    pub fn with_runnable(self, runnable: RunnableEntry<T>) -> (b: Self)
        ensures
            b.registered() == self.registered().push(runnable),
            b.shutdown_limit() == self.shutdown_limit(),
    {
        let mut b = self;
        b.runnables.push(runnable);
        b
    }

    /// Checks the runnables and builds the lifecycle.
    ///
    /// Fails with `ExcessiveTimeout` when some runnable's timeout is longer
    /// than the shutdown timeout; otherwise with `DuplicateNames` when two
    /// runnables share a name; otherwise yields a lifecycle holding the
    /// runnables, in order, and the shutdown timeout.
    pub fn build(self) -> (r: Result<Lifecycle<T>, LifecycleBuildError>)
        ensures
            r matches Err(LifecycleBuildError::ExcessiveTimeout) <==> !timeouts_within(
                self.registered(),
                self.shutdown_limit(),
            ),
            r matches Err(LifecycleBuildError::DuplicateNames) <==> timeouts_within(
                self.registered(),
                self.shutdown_limit(),
            ) && !names_distinct(self.registered()),
            r is Ok <==> timeouts_within(self.registered(), self.shutdown_limit()) && names_distinct(
                self.registered(),
            ),
            r matches Ok(l) ==> l.entries() == self.registered() && l.shutdown_limit()
                == self.shutdown_limit(),
            forall|i: int|
                0 <= i < self.registered().len() && #[trigger] self.registered()[i].timeout@
                    > self.shutdown_limit()@ ==> r matches Err(LifecycleBuildError::ExcessiveTimeout),
            forall|i: int, j: int|
                0 <= i < j < self.registered().len() && #[trigger] self.registered()[i].name@
                    == #[trigger] self.registered()[j].name@ ==> r is Err,
            r is Ok ==> forall|i: int|
                0 <= i < self.registered().len() ==> #[trigger] self.registered()[i].timeout@
                    <= self.shutdown_limit()@,
            r is Ok ==> forall|i: int, j: int|
                0 <= i < self.registered().len() && 0 <= j < self.registered().len() && i != j
                    ==> #[trigger] self.registered()[i].name@ != #[trigger] self.registered()[j].name@,
    {
        let n = self.runnables.len();
        let mut i: usize = 0;
        while i < n
            invariant
                n == self.runnables@.len(),
                i <= n,
                forall|k: int| 0 <= k < i ==> self.runnables@[k].timeout@ <= self.shutdown_timeout@,
            decreases n - i,
        {
            if self.runnables[i].timeout.is_longer_than(&self.shutdown_timeout) {
                return Err(LifecycleBuildError::ExcessiveTimeout);
            }
            i = i + 1;
        }
        let mut a: usize = 0;
        while a < n
            invariant
                n == self.runnables@.len(),
                a <= n,
                timeouts_within(self.runnables@, self.shutdown_timeout),
                forall|x: int, y: int|
                    0 <= x < a && x < y < n ==> self.runnables@[x].name@ != self.runnables@[y].name@,
            decreases n - a,
        {
            let mut b: usize = a + 1;
            while b < n
                invariant
                    n == self.runnables@.len(),
                    a < n,
                    timeouts_within(self.runnables@, self.shutdown_timeout),
                    a + 1 <= b <= n,
                    forall|x: int, y: int|
                        0 <= x < a && x < y < n ==> self.runnables@[x].name@
                            != self.runnables@[y].name@,
                    forall|y: int| a < y < b ==> self.runnables@[a as int].name@ != self.runnables@[y].name@,
                decreases n - b,
            {
                if self.runnables[a].name == self.runnables[b].name {
                    assert(!names_distinct(self.runnables@)) by {
                        assert(self.runnables@[a as int].name@ == self.runnables@[b as int].name@);
                    }
                    return Err(LifecycleBuildError::DuplicateNames);
                }
                b = b + 1;
            }
            a = a + 1;
        }
        Ok(Lifecycle { shutdown_timeout: self.shutdown_timeout, runnables: self.runnables })
    }
}

/// A validated set of runnables, each with a distinct name and a timeout no
/// longer than the shutdown timeout.
pub struct Lifecycle<T> {
    shutdown_timeout: TimeSpan,
    runnables: Vec<RunnableEntry<T>>,
}

impl<T> Lifecycle<T> {
    #[verifier::type_invariant]
    spec fn valid(self) -> bool {
        &&& names_distinct(self.runnables@)
        &&& timeouts_within(self.runnables@, self.shutdown_timeout)
    }

    /// The runnables, in the order they were added to the builder.
    pub closed spec fn entries(self) -> Seq<RunnableEntry<T>> {
        self.runnables@
    }

    /// The shutdown timeout.
    pub closed spec fn shutdown_limit(self) -> TimeSpan {
        self.shutdown_timeout
    }

    /// The runnables; their names are distinct and their timeouts within the
    /// shutdown timeout.
    pub fn runnables(&self) -> (rs: &Vec<RunnableEntry<T>>)
        ensures
            rs@ == self.entries(),
            names_distinct(rs@),
            timeouts_within(rs@, self.shutdown_limit()),
    {
        proof {
            use_type_invariant(self);
        }
        &self.runnables
    }

    /// The shutdown timeout.
    pub fn shutdown_timeout(&self) -> (t: TimeSpan)
        ensures
            t == self.shutdown_limit(),
    {
        self.shutdown_timeout
    }

    /// Hands the runnables over to be run, in the order they were added.
    pub fn into_runnables(self) -> (rs: Vec<RunnableEntry<T>>)
        ensures
            rs@ == self.entries(),
            names_distinct(rs@),
            timeouts_within(rs@, self.shutdown_limit()),
    {
        proof {
            use_type_invariant(&self);
        }
        let Lifecycle { shutdown_timeout: _, runnables } = self;
        runnables
    }
}

impl Lifecycle<()> {
    /// A builder with no runnables and the default shutdown timeout of
    /// `SHUTDOWN_TIMEOUT_MS` milliseconds.
    pub fn builder() -> (b: Builder<Unset>)
        ensures
            b.shutdown_limit()@ == SHUTDOWN_TIMEOUT_MS * 1_000_000,
    {
        Builder { runnables: Unset, shutdown_timeout: TimeSpan::from_millis(SHUTDOWN_TIMEOUT_MS) }
    }
}

/// `names` holds `name`.
pub open spec fn lists_name(names: Seq<String>, name: Seq<char>) -> bool {
    exists|j: int| 0 <= j < names.len() && #[trigger] names[j]@ == name
}

/// Every runnable of `rs` is named in `completed`.
pub open spec fn all_completed<T>(rs: Seq<RunnableEntry<T>>, completed: Seq<String>) -> bool {
    forall|i: int| 0 <= i < rs.len() ==> lists_name(completed, #[trigger] rs[i].name@)
}

/// The outcome of a lifecycle's run, given the names of the runnables that
/// finished within their timeouts after being asked to stop: success when
/// every runnable did, `IncompleteShutdown` otherwise.
pub fn shutdown_result<T>(runnables: &Vec<RunnableEntry<T>>, completed: &Vec<String>) -> (r: Result<
    (),
    LifecycleError,
>)
    ensures
        r is Ok <==> all_completed(runnables@, completed@),
        r is Err ==> r == Err::<(), LifecycleError>(LifecycleError::IncompleteShutdown),
        forall|i: int|
            0 <= i < runnables@.len() && !lists_name(completed@, #[trigger] runnables@[i].name@)
                ==> r is Err,
{
    let n = runnables.len();
    let mut i: usize = 0;
    while i < n
        invariant
            n == runnables@.len(),
            i <= n,
            forall|k: int| 0 <= k < i ==> lists_name(completed@, #[trigger] runnables@[k].name@),
        decreases n - i,
    {
        let mut found = false;
        let mut j: usize = 0;
        while j < completed.len()
            invariant
                i < n,
                n == runnables@.len(),
                j <= completed@.len(),
                found ==> lists_name(completed@, runnables@[i as int].name@),
                !found ==> forall|m: int| 0 <= m < j ==> completed@[m]@ != runnables@[i as int].name@,
            decreases completed@.len() - j,
        {
            if completed[j] == runnables[i].name {
                found = true;
            }
            j = j + 1;
        }
        if !found {
            assert(!lists_name(completed@, runnables@[i as int].name@));
            return Err(LifecycleError::IncompleteShutdown);
        }
        i = i + 1;
    }
    Ok(())
}

/// Lengthening the shutdown timeout never makes a lifecycle's runnables
/// exceed it: if every timeout fits `limit`, every timeout fits any longer limit.
pub proof fn lemma_longer_shutdown_keeps_timeouts<T>(
    rs: Seq<RunnableEntry<T>>,
    limit: TimeSpan,
    longer: TimeSpan,
)
    requires
        timeouts_within(rs, limit),
        limit@ <= longer@,
    ensures
        timeouts_within(rs, longer),
{
}

/// Adding a runnable whose name is already taken means the builder can no
/// longer produce a lifecycle: the names are no longer distinct.
pub proof fn lemma_reused_name_breaks_uniqueness<T>(rs: Seq<RunnableEntry<T>>, e: RunnableEntry<T>)
    requires
        has_name(rs, e.name@),
    ensures
        !names_distinct(rs.push(e)),
{
    let i = choose|i: int| 0 <= i < rs.len() && rs[i].name@ == e.name@;
    assert(rs.push(e)[i].name@ == rs.push(e)[rs.len() as int].name@);
}

/// Adding a runnable with a fresh name to runnables whose names are distinct
/// keeps them distinct.
pub proof fn lemma_fresh_name_keeps_uniqueness<T>(rs: Seq<RunnableEntry<T>>, e: RunnableEntry<T>)
    requires
        names_distinct(rs),
        !has_name(rs, e.name@),
    ensures
        names_distinct(rs.push(e)),
{
    assert forall|i: int, j: int| 0 <= i < j < rs.push(e).len() implies rs.push(e)[i].name@
        != rs.push(e)[j].name@ by {
        if j == rs.len() {
            assert(rs.push(e)[i] == rs[i]);
        } else {
            assert(rs.push(e)[i] == rs[i]);
            assert(rs.push(e)[j] == rs[j]);
        }
    }
}

/// A name counts as listed exactly when some listed string holds the very
/// same characters: a longer or shorter name never stands in for it.
pub proof fn lemma_lists_name_is_exact_match(names: Seq<String>, name: Seq<char>)
    ensures
        lists_name(names, name) <==> exists|j: int|
            0 <= j < names.len() && #[trigger] names[j]@ =~= name,
        forall|s: String| lists_name(seq![s], name) <==> s@ == name,
{
    assert forall|s: String| lists_name(seq![s], name) <==> s@ == name by {
        if s@ == name {
            assert(seq![s][0]@ == name);
        }
    }
}

/// A shutdown counts as complete exactly when each runnable, wherever it
/// stands, is listed among the completed names.
pub proof fn lemma_all_completed_means_each<T>(rs: Seq<RunnableEntry<T>>, completed: Seq<String>)
    ensures
        all_completed(rs, completed) <==> forall|i: int|
            0 <= i < rs.len() ==> lists_name(completed, (#[trigger] rs[i]).name@),
{
}

/// A runnable, at any position, whose name no completed entry holds makes
/// the shutdown incomplete.
pub proof fn lemma_missing_runnable_means_incomplete<T>(
    rs: Seq<RunnableEntry<T>>,
    completed: Seq<String>,
    i: int,
)
    requires
        0 <= i < rs.len(),
        forall|j: int| 0 <= j < completed.len() ==> #[trigger] completed[j]@ != rs[i].name@,
    ensures
        !all_completed(rs, completed),
{
    if lists_name(completed, rs[i].name@) {
        let j = choose|j: int| 0 <= j < completed.len() && #[trigger] completed[j]@ == rs[i].name@;
        assert(completed[j]@ != rs[i].name@);
    }
}

/// Runnables have distinct names exactly when every two entries at different
/// positions, wherever they stand, have different names.
pub proof fn lemma_names_distinct_means_every_pair<T>(rs: Seq<RunnableEntry<T>>)
    ensures
        names_distinct(rs) <==> forall|i: int, j: int|
            0 <= i < rs.len() && 0 <= j < rs.len() && i != j ==> #[trigger] rs[i].name@
                != #[trigger] rs[j].name@,
{
    if names_distinct(rs) {
        assert forall|i: int, j: int|
            0 <= i < rs.len() && 0 <= j < rs.len() && i != j implies #[trigger] rs[i].name@
            != #[trigger] rs[j].name@ by {
            if i > j {
                assert(rs[j].name@ != rs[i].name@);
            }
        }
    }
}

/// All timeouts fit a limit exactly when each entry's does, wherever it
/// stands: adding an entry keeps them fitting exactly when the earlier ones
/// fit and the new one fits too.
pub proof fn lemma_timeouts_within_means_each<T>(
    rs: Seq<RunnableEntry<T>>,
    e: RunnableEntry<T>,
    limit: TimeSpan,
)
    ensures
        timeouts_within(rs, limit) <==> forall|i: int|
            0 <= i < rs.len() ==> !((#[trigger] rs[i]).timeout@ > limit@),
        timeouts_within(rs.push(e), limit) <==> timeouts_within(rs, limit) && e.timeout@ <= limit@,
        timeouts_within(Seq::<RunnableEntry<T>>::empty(), limit),
{
    if timeouts_within(rs.push(e), limit) {
        assert forall|i: int| 0 <= i < rs.len() implies rs[i].timeout@ <= limit@ by {
            assert(rs.push(e)[i] == rs[i]);
        }
        assert(rs.push(e)[rs.len() as int] == e);
    }
    if timeouts_within(rs, limit) && e.timeout@ <= limit@ {
        assert forall|i: int| 0 <= i < rs.push(e).len() implies rs.push(e)[i].timeout@ <= limit@ by {
            if i < rs.len() {
                assert(rs.push(e)[i] == rs[i]);
            }
        }
    }
}

} // verus!
