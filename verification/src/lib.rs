//! A thin abstraction over OS process scheduling APIs.
//!
//! By signalling the priority of our processes to the operating system, we
//! gain more control over our program's resource usage, and which tasks get
//! completed first.

use vstd::prelude::*;
use vstd::std_specs::cmp::PartialOrdSpec;
use vstd::string::StringExecFns;

pub mod unix;
pub mod windows;

use core::cmp::Ordering;

verus! {

/// A prioritisation level.
///
/// The priority of a [`Process`] controls how much CPU time it gets compared
/// to other processes. Most programs don't need to be handled especially, and
/// should be given a [normal](Priority::normal) priority to let the OS handle
/// scheduling.
///
/// Priorities are totally ordered; a value that the scheduler favors more
/// compares greater.
#[derive(Debug, Clone, Copy, PartialEq, Eq, Structural)]
pub struct Priority(unix::Priority);

impl Priority {
    /// The niceness level this priority denotes on the active platform.
    pub closed spec fn nice(self) -> int {
        self.0.nice()
    }

    /// The level stays within the platform's fixed range.
    pub open spec fn wf(self) -> bool {
        unix::MIN_NICENESS <= self.nice() <= unix::MAX_NICENESS
    }

    /// Position in priority order: more favored priorities rank greater.
    pub open spec fn favor(self) -> int {
        -self.nice()
    }

    /// Whether this is the default level every process starts at.
    pub open spec fn is_normal(self) -> bool {
        self.nice() == 0
    }

    /// The priority level given to normal processes; the default priority
    /// level.
    pub fn normal() -> (r: Self)
        ensures
            r.is_normal(),
            r.wf(),
    {
        Priority(unix::Priority::normal())
    }

    /// Raise the priority level: every level above this one, nearest first,
    /// up to the platform's most favored bound. Empty if this level is
    /// already the most favored one.
    ///
    /// Be particularly careful with giving processes higher priority levels:
    /// any process with a lower level may be halted until they pause.
    pub fn higher(&self) -> (r: Vec<Priority>)
        requires
            self.wf(),
        ensures
            is_higher_walk(*self, r@),
    {
        let inner = self.0.higher();
        let mut out: Vec<Priority> = Vec::new();
        let mut i: usize = 0;
        while i < inner.len()
            invariant
                unix::is_higher_walk(self.0, inner@),
                i <= inner@.len(),
                out@.len() == i,
                forall|j: int|
                    0 <= j < out@.len() ==> (#[trigger] out@[j]).nice() == self.nice() - 1 - j,
            decreases inner@.len() - i,
        {
            out.push(Priority(inner[i]));
            i = i + 1;
        }
        out
    }

    /// Lower the priority level: every level below this one, nearest first,
    /// down to the platform's least favored bound. Empty if this level is
    /// already the least favored one.
    ///
    /// Processes with lower priority levels pause whenever other processes
    /// need to do work; they suit screen-savers and similar tasks.
    pub fn lower(&self) -> (r: Vec<Priority>)
        requires
            self.wf(),
        ensures
            is_lower_walk(*self, r@),
    {
        let inner = self.0.lower();
        let mut out: Vec<Priority> = Vec::new();
        let mut i: usize = 0;
        while i < inner.len()
            invariant
                unix::is_lower_walk(self.0, inner@),
                i <= inner@.len(),
                out@.len() == i,
                forall|j: int|
                    0 <= j < out@.len() ==> (#[trigger] out@[j]).nice() == self.nice() + 1 + j,
            decreases inner@.len() - i,
        {
            out.push(Priority(inner[i]));
            i = i + 1;
        }
        out
    }
}

/// What `from_increment` comes to: the requested niceness, clamped to the
/// platform's range rather than erroring past its ends.
pub open spec fn clamped_niceness(n: int) -> int {
    if n < unix::MIN_NICENESS {
        unix::MIN_NICENESS as int
    } else if n > unix::MAX_NICENESS {
        unix::MAX_NICENESS as int
    } else {
        n
    }
}

impl Priority {
    /// The priority `n` niceness steps away from normal: toward the least
    /// favored bound for positive `n`, toward the most favored bound for
    /// negative `n`, clamped at the walk's end rather than erroring when `n`
    /// exceeds the available range.
    pub fn from_increment(n: i64) -> (r: Priority)
        ensures
            r.wf(),
            r.nice() == clamped_niceness(n as int),
    {
        let base = Priority::normal();
        if n > 0 {
            let ladder = base.lower();
            let steps: usize = if n > ladder.len() as i64 {
                ladder.len()
            } else {
                n as usize
            };
            ladder[steps - 1]
        } else if n < 0 {
            let ladder = base.higher();
            let len = ladder.len();
            if n <= -(len as i64) {
                ladder[len - 1]
            } else {
                let steps: usize = (-n) as usize;
                ladder[steps - 1]
            }
        } else {
            base
        }
    }
}

impl PartialOrd for Priority {
    fn partial_cmp(&self, other: &Self) -> (r: Option<Ordering>) {
        self.0.partial_cmp(&other.0)
    }
}

impl vstd::std_specs::cmp::PartialOrdSpecImpl for Priority {
    open spec fn obeys_partial_cmp_spec() -> bool {
        true
    }

    open spec fn partial_cmp_spec(&self, other: &Self) -> Option<Ordering> {
        if self.favor() < other.favor() {
            Some(Ordering::Less)
        } else if self.favor() == other.favor() {
            Some(Ordering::Equal)
        } else {
            Some(Ordering::Greater)
        }
    }
}

/// `s` is exactly the walk `higher` yields from `p`: one step at a time
/// toward the most favored bound.
pub open spec fn is_higher_walk(p: Priority, s: Seq<Priority>) -> bool {
    &&& s.len() == p.nice() - unix::MIN_NICENESS
    &&& forall|i: int| 0 <= i < s.len() ==> (#[trigger] s[i]).nice() == p.nice() - 1 - i
}

/// `s` is exactly the walk `lower` yields from `p`: one step at a time
/// toward the least favored bound.
pub open spec fn is_lower_walk(p: Priority, s: Seq<Priority>) -> bool {
    &&& s.len() == unix::MAX_NICENESS - p.nice()
    &&& forall|i: int| 0 <= i < s.len() ==> (#[trigger] s[i]).nice() == p.nice() + 1 + i
}

/// A priority is nothing but its level: two values are equal exactly when
/// they denote the same native level.
pub proof fn lemma_nice_injective(a: Priority, b: Priority)
    ensures
        a == b <==> a.nice() == b.nice(),
{
    unix::lemma_nice_injective(a.0, b.0);
}

/// Every priority compares equal to itself, and the normal priority is
/// reachable from any valid priority by a finite walk: it either is normal,
/// or its `higher` walk passes through normal, or its `lower` walk does.
pub proof fn lemma_normal_reachable(p: Priority, up: Seq<Priority>, down: Seq<Priority>)
    requires
        p.wf(),
        is_higher_walk(p, up),
        is_lower_walk(p, down),
    ensures
        p.partial_cmp_spec(&p) == Some(Ordering::Equal),
        p.is_normal() || (exists|i: int| 0 <= i < up.len() && (#[trigger] up[i]).is_normal()) || (
        exists|i: int| 0 <= i < down.len() && (#[trigger] down[i]).is_normal()),
{
    if p.nice() > 0 {
        assert(up[p.nice() - 1].is_normal());
    } else if p.nice() < 0 {
        assert(down[-p.nice() - 1].is_normal());
    }
}

/// Stepping once toward the most favored bound and then once back returns to
/// the starting priority, whenever a step up exists at all.
pub proof fn lemma_round_trip_up(p: Priority, up: Seq<Priority>, back: Seq<Priority>)
    requires
        p.wf(),
        is_higher_walk(p, up),
        up.len() > 0,
        is_lower_walk(up[0], back),
    ensures
        back.len() > 0,
        back[0] == p,
{
    lemma_nice_injective(back[0], p);
}

/// Stepping once toward the least favored bound and then once back returns to
/// the starting priority, whenever a step down exists at all.
pub proof fn lemma_round_trip_down(p: Priority, down: Seq<Priority>, back: Seq<Priority>)
    requires
        p.wf(),
        is_lower_walk(p, down),
        down.len() > 0,
        is_higher_walk(down[0], back),
    ensures
        back.len() > 0,
        back[0] == p,
{
    lemma_nice_injective(back[0], p);
}

/// A `higher` walk is strictly ascending in priority order and finite, and
/// any two walks from the same priority are equal: the walk is a function of
/// its starting point, not of shared iteration state.
pub proof fn lemma_higher_walk_monotonic(p: Priority, a: Seq<Priority>, b: Seq<Priority>)
    requires
        p.wf(),
        is_higher_walk(p, a),
        is_higher_walk(p, b),
    ensures
        forall|i: int, j: int|
            0 <= i < j < a.len() ==> #[trigger] a[i].partial_cmp_spec(&a[j]) == Some(
                Ordering::Less,
            ),
        a.len() <= unix::MAX_NICENESS - unix::MIN_NICENESS,
        a == b,
{
    assert forall|i: int| 0 <= i < a.len() implies a[i] == b[i] by {
        lemma_nice_injective(a[i], b[i]);
    }
    assert(a =~= b);
}

/// A `lower` walk is strictly descending in priority order and finite, and
/// any two walks from the same priority are equal.
pub proof fn lemma_lower_walk_monotonic(p: Priority, a: Seq<Priority>, b: Seq<Priority>)
    requires
        p.wf(),
        is_lower_walk(p, a),
        is_lower_walk(p, b),
    ensures
        forall|i: int, j: int|
            0 <= i < j < a.len() ==> #[trigger] a[i].partial_cmp_spec(&a[j]) == Some(
                Ordering::Greater,
            ),
        a.len() <= unix::MAX_NICENESS - unix::MIN_NICENESS,
        a == b,
{
    assert forall|i: int| 0 <= i < a.len() implies a[i] == b[i] by {
        lemma_nice_injective(a[i], b[i]);
    }
    assert(a =~= b);
}

/// A process running on this machine.
///
/// Because the OS owns the process this "refers" to, we can't know it's
/// valid: someone could've killed it. Therefore, the methods return
/// [`NotFound`] if they are ever called on a dead process.
#[derive(Debug)]
pub struct Process<'a>(unix::Process<'a>);

impl<'a> Process<'a> {
    /// The OS process ID this handle addresses.
    pub closed spec fn id(self) -> int {
        self.0.id()
    }

    /// The ID is positive and fits the signed range the platform takes.
    pub open spec fn wf(self) -> bool {
        0 < self.id() <= 0x7fff_ffff
    }

    /// Get the currently running process.
    ///
    /// Note that this will last for `'static`, since the OS process it
    /// refers to contains this very struct, and if it died, then this struct
    /// must have died with it.
    pub fn current() -> (r: Process<'static>)
        ensures
            r.wf(),
    {
        Process(unix::Process::current())
    }

    /// A handle to an already-running process with the given OS process ID,
    /// for instance a child process owned elsewhere. The handle borrows
    /// whatever the ID was taken from: it must not outlive the owner, and it
    /// never owns the process (dropping it neither signals nor waits).
    pub fn from_pid(pid: u32) -> (r: Process<'a>)
        requires
            0 < pid <= 0x7fff_ffff,
        ensures
            r.wf(),
            r.id() == pid,
    {
        Process(unix::Process::from_pid(pid))
    }

    /// Update the priority of this process. Fails with
    /// [`Unchanged::NotFound`] if the process is gone, and with
    /// [`Unchanged::PermissionDenied`] if the platform's rules do not let
    /// the caller apply the change.
    pub fn set_priority(&mut self, priority: Priority) -> (r: Result<(), Unchanged>)
        requires
            old(self).wf(),
            priority.wf(),
        ensures
            *final(self) == *old(self),
    {
        self.0.set_priority(priority.0)
    }

    /// Fetch the priority of this process. Fails with [`NotFound`] if the
    /// process is gone.
    pub fn priority(&self) -> (r: Result<Priority, NotFound>)
        requires
            self.wf(),
        ensures
            r matches Ok(p) ==> p.wf(),
    {
        match self.0.priority() {
            Ok(p) => Ok(Priority(p)),
            Err(e) => Err(e),
        }
    }
}

/// The process couldn't be found.
///
/// See [`Process`] for details: the OS owns the process a handle refers to,
/// so the process may be gone by the time an operation runs.
#[derive(Debug, PartialEq, Eq, Structural)]
pub struct NotFound;

/// The reason the priority of a process couldn't be set.
#[derive(Debug, PartialEq, Eq, Structural)]
pub enum Unchanged {
    /// The process no longer exists.
    NotFound(NotFound),
    /// The caller didn't have the suitable permissions to set the priority.
    ///
    /// Each platform has a set of rules around who can set whose priority;
    /// check the documentation for your platform to make sure you are setting
    /// up the right permissions.
    PermissionDenied,
}

impl NotFound {
    /// A human-readable description of this failure.
    pub fn message(&self) -> (r: String)
        ensures
            r@ == "couldn't set priority of missing process"@,
    {
        String::from_str("couldn't set priority of missing process")
    }
}

impl Unchanged {
    /// What `message` returns for each variant.
    pub open spec fn spec_message(self) -> Seq<char> {
        if self is NotFound {
            "couldn't set priority of missing process"@
        } else {
            "missing permissions to set priority"@
        }
    }

    /// A human-readable description of this failure, telling a vanished
    /// process apart from missing permissions.
    pub fn message(&self) -> (r: String)
        ensures
            r@ == self.spec_message(),
    {
        match self {
            Unchanged::NotFound(n) => n.message(),
            Unchanged::PermissionDenied => String::from_str("missing permissions to set priority"),
        }
    }
}

impl From<NotFound> for Unchanged {
    fn from(n: NotFound) -> (r: Self) {
        Unchanged::NotFound(n)
    }
}

impl vstd::std_specs::convert::FromSpecImpl<NotFound> for Unchanged {
    open spec fn obeys_from_spec() -> bool {
        true
    }

    open spec fn from_spec(n: NotFound) -> Unchanged {
        Unchanged::NotFound(n)
    }
}

} // verus!

