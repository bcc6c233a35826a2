//! The niceness-scale priority codec and process handle.
//!
//! On this platform family a process's scheduling priority is a signed
//! *niceness*: `0` is the level every process starts at, more negative values
//! are more favored by the scheduler, and more positive values are less
//! favored. The kernel keeps the value inside a fixed range.
//!
//! The raw priority syscalls signal failure through a thread-local errno side
//! channel; rustix keeps the clear-call-inspect sequence to itself and hands
//! this codec a plain result, so classification here works on a returned
//! error code, never on thread-local state.

use vstd::prelude::*;

use crate::{NotFound, Unchanged};
use core::cmp::Ordering;
use core::marker::PhantomData;
use std::io::Write;

verus! {

/// The most favored niceness the platform grants (the highest priority).
pub const MIN_NICENESS: i32 = -20;

/// The least favored niceness (the lowest priority).
pub const MAX_NICENESS: i32 = 19;

/// A prioritisation level on the niceness scale.
///
/// Priority order is the *inverse* of the numeric niceness order: a more
/// negative niceness is a higher priority. Comparisons through
/// [`PartialOrd`] follow priority order, not niceness order.
#[derive(Debug, Clone, Copy, PartialEq, Eq, Structural)]
pub struct Priority {
    niceness: i32,
}

impl Priority {
    /// The niceness this priority denotes.
    pub closed spec fn nice(self) -> int {
        self.niceness as int
    }

    /// The niceness stays within the platform's fixed range.
    pub open spec fn wf(self) -> bool {
        MIN_NICENESS <= self.nice() <= MAX_NICENESS
    }

    /// Position in priority order: more favored priorities rank greater.
    pub open spec fn favor(self) -> int {
        -self.nice()
    }
}

/// `s` is exactly the walk `higher` yields from `p`: niceness descending one
/// step at a time until the most favored bound.
pub open spec fn is_higher_walk(p: Priority, s: Seq<Priority>) -> bool {
    &&& s.len() == p.nice() - MIN_NICENESS
    &&& forall|i: int| 0 <= i < s.len() ==> (#[trigger] s[i]).nice() == p.nice() - 1 - i
}

/// `s` is exactly the walk `lower` yields from `p`: niceness ascending one
/// step at a time until the least favored bound.
pub open spec fn is_lower_walk(p: Priority, s: Seq<Priority>) -> bool {
    &&& s.len() == MAX_NICENESS - p.nice()
    &&& forall|i: int| 0 <= i < s.len() ==> (#[trigger] s[i]).nice() == p.nice() + 1 + i
}

/// A priority is nothing but its niceness: two values are equal exactly when
/// they denote the same niceness.
pub proof fn lemma_nice_injective(a: Priority, b: Priority)
    ensures
        a == b <==> a.nice() == b.nice(),
{
}

impl Priority {
    /// The priority level given to normal processes; the default level.
    pub fn normal() -> (r: Self)
        ensures
            r.nice() == 0,
            r.wf(),
    {
        Priority { niceness: 0 }
    }

    /// All the levels above this one, nearest first, up to the most favored
    /// bound; empty if this level is already the most favored one.
    pub fn higher(&self) -> (r: Vec<Priority>)
        requires
            self.wf(),
        ensures
            is_higher_walk(*self, r@),
    {
        let mut out: Vec<Priority> = Vec::new();
        let mut niceness: i32 = self.niceness;
        while niceness > MIN_NICENESS
            invariant
                MIN_NICENESS <= niceness <= self.niceness <= MAX_NICENESS,
                out@.len() == self.niceness - niceness,
                forall|i: int|
                    0 <= i < out@.len() ==> (#[trigger] out@[i]).nice() == self.nice() - 1 - i,
            decreases niceness - MIN_NICENESS,
        {
            niceness = niceness - 1;
            out.push(Priority { niceness });
        }
        out
    }

    /// All the levels below this one, nearest first, down to the least
    /// favored bound; empty if this level is already the least favored one.
    pub fn lower(&self) -> (r: Vec<Priority>)
        requires
            self.wf(),
        ensures
            is_lower_walk(*self, r@),
    {
        let mut out: Vec<Priority> = Vec::new();
        let mut niceness: i32 = self.niceness;
        while niceness < MAX_NICENESS
            invariant
                MIN_NICENESS <= self.niceness <= niceness <= MAX_NICENESS,
                out@.len() == niceness - self.niceness,
                forall|i: int|
                    0 <= i < out@.len() ==> (#[trigger] out@[i]).nice() == self.nice() + 1 + i,
            decreases MAX_NICENESS - niceness,
        {
            niceness = niceness + 1;
            out.push(Priority { niceness });
        }
        out
    }
}

impl PartialOrd for Priority {
    fn partial_cmp(&self, other: &Self) -> (r: Option<Ordering>) {
        if self.niceness > other.niceness {
            Some(Ordering::Less)
        } else if self.niceness == other.niceness {
            Some(Ordering::Equal)
        } else {
            Some(Ordering::Greater)
        }
    }
}

impl vstd::std_specs::cmp::PartialOrdSpecImpl for Priority {
    open spec fn obeys_partial_cmp_spec() -> bool {
        true
    }

    open spec fn partial_cmp_spec(&self, other: &Self) -> Option<Ordering> {
        if self.favor() < other.favor() {
            Some(Ordering::Less)
        } else if self.favor() == other.favor() {
            Some(Ordering::Equal)
        } else {
            Some(Ordering::Greater)
        }
    }
}

/// What reading a process's niceness came to.
#[derive(Debug, Clone, Copy, PartialEq, Eq, Structural)]
pub enum GetOutcome {
    /// The read succeeded with this niceness.
    Value(i32),
    /// The target process does not exist.
    NoSuchProcess,
    /// An error code the documented syscall contract rules out.
    Unexpected(i32),
}

/// What writing a process's niceness came to.
#[derive(Debug, Clone, Copy, PartialEq, Eq, Structural)]
pub enum SetOutcome {
    /// The new niceness was applied.
    Applied,
    /// The target process does not exist.
    NoSuchProcess,
    /// The caller lacks the rights to apply the change.
    Denied,
    /// An error code the documented syscall contract rules out.
    Unexpected(i32),
}

/// Relies on rustix::process::getpid: the ID of the calling process, which
/// is always a positive 32-bit value (rustix's Pid wraps a positive
/// NonZeroI32).
#[verifier::external_body]
fn sys_current_pid() -> (r: u32)
    ensures
        0 < r <= 0x7fff_ffff,
{
    rustix::process::getpid().as_raw_nonzero().get() as u32
}

/// Relies on rustix::process::getpriority_process: on success it returns the
/// target's niceness, which the kernel keeps within the fixed range; the only
/// failure getpriority(2) documents for a by-ID query is ESRCH, "no such
/// process" (EINVAL cannot arise: the query kind is fixed to a process ID).
#[verifier::external_body]
fn sys_get_priority(pid: u32) -> (r: GetOutcome)
    requires
        0 < pid <= 0x7fff_ffff,
    ensures
        r matches GetOutcome::Value(n) ==> MIN_NICENESS <= n <= MAX_NICENESS,
        !(r is Unexpected),
{
    match rustix::process::getpriority_process(rustix::process::Pid::from_raw(pid as i32)) {
        Ok(niceness) => GetOutcome::Value(niceness),
        Err(e) if e == rustix::io::Errno::SRCH => GetOutcome::NoSuchProcess,
        Err(e) => GetOutcome::Unexpected(e.raw_os_error()),
    }
}

/// Relies on rustix::process::setpriority_process: it returns Ok exactly when
/// the niceness was applied, and the only failures setpriority(2) documents
/// for a by-ID change are ESRCH, "no such process", and EACCES/EPERM, both
/// meaning insufficient permission (EINVAL cannot arise: the target kind is
/// fixed to a process ID).
#[verifier::external_body]
fn sys_set_priority(pid: u32, niceness: i32) -> (r: SetOutcome)
    requires
        0 < pid <= 0x7fff_ffff,
    ensures
        !(r is Unexpected),
{
    match rustix::process::setpriority_process(rustix::process::Pid::from_raw(pid as i32), niceness) {
        Ok(()) => SetOutcome::Applied,
        Err(e) if e == rustix::io::Errno::SRCH => SetOutcome::NoSuchProcess,
        Err(e) if e == rustix::io::Errno::ACCESS || e == rustix::io::Errno::PERM => SetOutcome::Denied,
        Err(e) => SetOutcome::Unexpected(e.raw_os_error()),
    }
}

/// Relies on writeln to std::io::stderr: reports an error code on the
/// standard error stream.
#[verifier::external_body]
fn report_unexpected(errno: i32) {
    let _ = writeln!(std::io::stderr(), "unexpected scheduling error: {}", errno);
}

/// Reports an error code that the documented contracts of getpriority(2) and
/// setpriority(2) rule out. No caller-actionable recovery is defined for such
/// a code, so no result comes out of this path: every call site proves, from
/// those contracts, that it is never reached, and aborts right after the
/// report rather than hand back a fabricated result.
pub fn unexpected_err(errno: i32) {
    report_unexpected(errno);
}

/// Turns a read outcome into the caller-facing result. The unexpected case is
/// ruled out by the syscall's documented contract and is not accepted here.
pub fn decode_get_outcome(outcome: GetOutcome) -> (r: Result<Priority, NotFound>)
    requires
        !(outcome is Unexpected),
    ensures
        outcome matches GetOutcome::Value(n) ==> r matches Ok(p) && p.nice() == n,
        outcome is NoSuchProcess <==> r is Err,
        r matches Err(e) ==> e == NotFound,
{
    match outcome {
        GetOutcome::Value(niceness) => Ok(Priority { niceness }),
        GetOutcome::NoSuchProcess => Err(NotFound),
        GetOutcome::Unexpected(_) => vstd::pervasive::unreached(),
    }
}

/// Turns a write outcome into the caller-facing result. The unexpected case
/// is ruled out by the syscall's documented contract and is not accepted
/// here.
pub fn decode_set_outcome(outcome: SetOutcome) -> (r: Result<(), Unchanged>)
    requires
        !(outcome is Unexpected),
    ensures
        outcome is Applied <==> r is Ok,
        outcome is NoSuchProcess <==> r matches Err(Unchanged::NotFound(_)),
        outcome is Denied <==> r matches Err(Unchanged::PermissionDenied),
{
    match outcome {
        SetOutcome::Applied => Ok(()),
        SetOutcome::NoSuchProcess => Err(Unchanged::NotFound(NotFound)),
        SetOutcome::Denied => Err(Unchanged::PermissionDenied),
        SetOutcome::Unexpected(_) => vstd::pervasive::unreached(),
    }
}

/// A process running on this machine, addressed by its OS process ID.
///
/// The OS owns the process this refers to, so the referent can vanish at any
/// time; operations report that as [`NotFound`] instead of crashing. The
/// lifetime pins the handle to whatever the ID was taken from.
#[derive(Debug)]
pub struct Process<'a> {
    pid: u32,
    marker: PhantomData<&'a ()>,
}

impl<'a> Process<'a> {
    /// The OS process ID this handle addresses.
    pub closed spec fn id(self) -> int {
        self.pid as int
    }

    /// The ID is a positive value that fits the signed range syscalls take.
    pub open spec fn wf(self) -> bool {
        0 < self.id() <= 0x7fff_ffff
    }

    /// The currently running process. The handle may live as long as needed:
    /// it refers to the very process holding it.
    pub fn current() -> (r: Process<'static>)
        ensures
            r.wf(),
    {
        Process { pid: sys_current_pid(), marker: PhantomData }
    }

    /// A handle to the process with the given OS process ID, borrowed from
    /// whatever owns that process for the handle's lifetime.
    pub fn from_pid(pid: u32) -> (r: Process<'a>)
        requires
            0 < pid <= 0x7fff_ffff,
        ensures
            r.wf(),
            r.id() == pid,
    {
        Process { pid, marker: PhantomData }
    }

    /// Update the priority of this process. Fails with
    /// [`Unchanged::NotFound`] if the process is gone, and with
    /// [`Unchanged::PermissionDenied`] if the platform's rules do not let the
    /// caller apply the change.
    pub fn set_priority(&mut self, priority: Priority) -> (r: Result<(), Unchanged>)
        requires
            old(self).wf(),
            priority.wf(),
        ensures
            *final(self) == *old(self),
    {
        let outcome = sys_set_priority(self.pid, priority.niceness);
        match outcome {
            SetOutcome::Unexpected(code) => {
                unexpected_err(code);
                vstd::pervasive::unreached()
            },
            _ => decode_set_outcome(outcome),
        }
    }

    /// Fetch the priority of this process. Fails with [`NotFound`] if the
    /// process is gone.
    pub fn priority(&self) -> (r: Result<Priority, NotFound>)
        requires
            self.wf(),
        ensures
            r matches Ok(p) ==> p.wf(),
    {
        let outcome = sys_get_priority(self.pid);
        match outcome {
            GetOutcome::Unexpected(code) => {
                unexpected_err(code);
                vstd::pervasive::unreached()
            },
            _ => decode_get_outcome(outcome),
        }
    }
}

} // verus!
