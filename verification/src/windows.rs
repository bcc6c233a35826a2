//! The priority-class codec.
//!
//! On this platform family a process's scheduling priority is one of a small
//! closed set of named classes. The class values themselves are bit flags and
//! are *not* monotonic in priority order, so ordering goes through each
//! class's position on a six-step ladder, never through the raw values. Two
//! extra "background mode" markers are synonyms of the normal class for
//! ordering purposes only: they are recognized when a class is read back, but
//! no walk ever produces them.
//!
//! Only the codec itself lives here: it has no process handle of its own on
//! the platform this crate is built for.

use vstd::prelude::*;

use crate::NotFound;
use core::cmp::Ordering;
use vstd::std_specs::cmp::PartialOrdSpec;

verus! {

/// The class of processes that run only when the system is idle.
pub const IDLE_PRIORITY_CLASS: u32 = 0x0000_0040;

/// The class one step below normal.
pub const BELOW_NORMAL_PRIORITY_CLASS: u32 = 0x0000_4000;

/// The class every process starts in.
pub const NORMAL_PRIORITY_CLASS: u32 = 0x0000_0020;

/// The class one step above normal.
pub const ABOVE_NORMAL_PRIORITY_CLASS: u32 = 0x0000_8000;

/// The class of time-critical work.
pub const HIGH_PRIORITY_CLASS: u32 = 0x0000_0080;

/// The most favored class of all; preempts even operating-system threads.
pub const REALTIME_PRIORITY_CLASS: u32 = 0x0000_0100;

/// Marker reported while a process enters background processing mode. Orders
/// like the normal class; never produced by a walk.
pub const PROCESS_MODE_BACKGROUND_BEGIN: u32 = 0x0010_0000;

/// Marker reported while a process leaves background processing mode. Orders
/// like the normal class; never produced by a walk.
pub const PROCESS_MODE_BACKGROUND_END: u32 = 0x0020_0000;

/// The six classes a walk steps through, in priority order.
pub open spec fn on_ladder(class: u32) -> bool {
    ||| class == IDLE_PRIORITY_CLASS
    ||| class == BELOW_NORMAL_PRIORITY_CLASS
    ||| class == NORMAL_PRIORITY_CLASS
    ||| class == ABOVE_NORMAL_PRIORITY_CLASS
    ||| class == HIGH_PRIORITY_CLASS
    ||| class == REALTIME_PRIORITY_CLASS
}

/// Every class value that a read may legitimately report.
pub open spec fn is_known_class(class: u32) -> bool {
    ||| on_ladder(class)
    ||| class == PROCESS_MODE_BACKGROUND_BEGIN
    ||| class == PROCESS_MODE_BACKGROUND_END
}

/// A class's position on the ladder, from least favored (0) to most
/// favored (5). The background markers sit at the normal position.
pub open spec fn rank_of_class(class: u32) -> int {
    if class == IDLE_PRIORITY_CLASS {
        0
    } else if class == BELOW_NORMAL_PRIORITY_CLASS {
        1
    } else if class == ABOVE_NORMAL_PRIORITY_CLASS {
        3
    } else if class == HIGH_PRIORITY_CLASS {
        4
    } else if class == REALTIME_PRIORITY_CLASS {
        5
    } else {
        2
    }
}

/// The ladder class at a given position.
pub open spec fn class_at(rank: int) -> u32 {
    if rank == 0 {
        IDLE_PRIORITY_CLASS
    } else if rank == 1 {
        BELOW_NORMAL_PRIORITY_CLASS
    } else if rank == 2 {
        NORMAL_PRIORITY_CLASS
    } else if rank == 3 {
        ABOVE_NORMAL_PRIORITY_CLASS
    } else if rank == 4 {
        HIGH_PRIORITY_CLASS
    } else {
        REALTIME_PRIORITY_CLASS
    }
}

/// A prioritisation level on the class ladder.
///
/// Equality is over the raw class value (a background marker is *not* equal
/// to the normal class), while ordering goes through ladder positions (a
/// background marker orders equal to the normal class).
#[derive(Debug, Clone, Copy, PartialEq, Eq, Structural)]
pub struct Priority {
    class: u32,
}

impl Priority {
    /// The raw class value this priority denotes.
    pub closed spec fn raw(self) -> u32 {
        self.class
    }

    /// The value is one of the classes a read may report.
    pub open spec fn wf(self) -> bool {
        is_known_class(self.raw())
    }

    /// Position in priority order: more favored classes rank greater.
    pub open spec fn rank(self) -> int {
        rank_of_class(self.raw())
    }

    /// Whether this is the class every process starts in.
    pub open spec fn is_normal(self) -> bool {
        self.raw() == NORMAL_PRIORITY_CLASS
    }
}

/// `s` is exactly the walk `higher` yields from `p`: the ladder classes above
/// `p`'s position, nearest first. A background marker yields no walk at all.
pub open spec fn is_higher_walk(p: Priority, s: Seq<Priority>) -> bool {
    if on_ladder(p.raw()) {
        &&& s.len() == 5 - p.rank()
        &&& forall|i: int| 0 <= i < s.len() ==> (#[trigger] s[i]).raw() == class_at(p.rank() + 1 + i)
    } else {
        s.len() == 0
    }
}

/// `s` is exactly the walk `lower` yields from `p`: the ladder classes below
/// `p`'s position, nearest first. A background marker yields no walk at all.
pub open spec fn is_lower_walk(p: Priority, s: Seq<Priority>) -> bool {
    if on_ladder(p.raw()) {
        &&& s.len() == p.rank()
        &&& forall|i: int| 0 <= i < s.len() ==> (#[trigger] s[i]).raw() == class_at(p.rank() - 1 - i)
    } else {
        s.len() == 0
    }
}

/// A priority is nothing but its class value: two values are equal exactly
/// when they denote the same class.
pub proof fn lemma_class_injective(a: Priority, b: Priority)
    ensures
        a == b <==> a.raw() == b.raw(),
{
}

/// Each ladder position holds a ladder class, and the position of the class
/// at a position is that position.
pub proof fn lemma_class_at_rank(rank: int)
    requires
        0 <= rank <= 5,
    ensures
        on_ladder(class_at(rank)),
        rank_of_class(class_at(rank)) == rank,
{
}

/// On the ladder, a class is recovered from its position.
pub proof fn lemma_rank_roundtrip(class: u32)
    requires
        on_ladder(class),
    ensures
        class_at(rank_of_class(class)) == class,
{
}

impl Priority {
    /// The class given to normal processes; the default level.
    pub fn normal() -> (r: Self)
        ensures
            r.is_normal(),
            r.wf(),
            r.rank() == 2,
    {
        Priority { class: NORMAL_PRIORITY_CLASS }
    }

    /// How favored this class is, from least favored (0) to most favored
    /// (5); the value ordering compares by. Background markers count as
    /// normal.
    pub fn to_relative(&self) -> (r: u8)
        requires
            self.wf(),
        ensures
            r as int == self.rank(),
    {
        class_rank(self.class)
    }

    /// All the classes above this one, nearest first, up to the most favored
    /// end of the ladder; empty at that end, and empty for a background
    /// marker, which no walk produces or steps from.
    pub fn higher(&self) -> (r: Vec<Priority>)
        requires
            self.wf(),
        ensures
            is_higher_walk(*self, r@),
    {
        let mut out: Vec<Priority> = Vec::new();
        if is_ladder_class(self.class) {
            let start = class_rank(self.class);
            let mut k: u8 = start + 1;
            while k <= 5
                invariant
                    on_ladder(self.raw()),
                    start as int == self.rank(),
                    start < k <= 6,
                    out@.len() == k - start - 1,
                    forall|i: int|
                        0 <= i < out@.len() ==> (#[trigger] out@[i]).raw() == class_at(
                            self.rank() + 1 + i,
                        ),
                decreases 6 - k,
            {
                out.push(Priority { class: class_of_rank(k) });
                k = k + 1;
            }
        }
        out
    }

    /// All the classes below this one, nearest first, down to the least
    /// favored end of the ladder; empty at that end, and empty for a
    /// background marker, which no walk produces or steps from.
    pub fn lower(&self) -> (r: Vec<Priority>)
        requires
            self.wf(),
        ensures
            is_lower_walk(*self, r@),
    {
        let mut out: Vec<Priority> = Vec::new();
        if is_ladder_class(self.class) {
            let start = class_rank(self.class);
            let mut k: u8 = start;
            while k > 0
                invariant
                    on_ladder(self.raw()),
                    start as int == self.rank(),
                    k <= start,
                    out@.len() == start - k,
                    forall|i: int|
                        0 <= i < out@.len() ==> (#[trigger] out@[i]).raw() == class_at(
                            self.rank() - 1 - i,
                        ),
                decreases k,
            {
                k = k - 1;
                out.push(Priority { class: class_of_rank(k) });
            }
        }
        out
    }
}

/// Whether a class value sits on the six-step ladder.
fn is_ladder_class(class: u32) -> (r: bool)
    ensures
        r == on_ladder(class),
{
    class == IDLE_PRIORITY_CLASS || class == BELOW_NORMAL_PRIORITY_CLASS || class
        == NORMAL_PRIORITY_CLASS || class == ABOVE_NORMAL_PRIORITY_CLASS || class
        == HIGH_PRIORITY_CLASS || class == REALTIME_PRIORITY_CLASS
}

/// A class's ladder position; classes off the ladder count as normal.
fn class_rank(class: u32) -> (r: u8)
    ensures
        r as int == rank_of_class(class),
{
    if class == IDLE_PRIORITY_CLASS {
        0
    } else if class == BELOW_NORMAL_PRIORITY_CLASS {
        1
    } else if class == ABOVE_NORMAL_PRIORITY_CLASS {
        3
    } else if class == HIGH_PRIORITY_CLASS {
        4
    } else if class == REALTIME_PRIORITY_CLASS {
        5
    } else {
        2
    }
}

/// The ladder class at a position.
fn class_of_rank(rank: u8) -> (r: u32)
    requires
        rank <= 5,
    ensures
        r == class_at(rank as int),
{
    if rank == 0 {
        IDLE_PRIORITY_CLASS
    } else if rank == 1 {
        BELOW_NORMAL_PRIORITY_CLASS
    } else if rank == 2 {
        NORMAL_PRIORITY_CLASS
    } else if rank == 3 {
        ABOVE_NORMAL_PRIORITY_CLASS
    } else if rank == 4 {
        HIGH_PRIORITY_CLASS
    } else {
        REALTIME_PRIORITY_CLASS
    }
}

/// Turns a class value read back from the platform into the caller-facing
/// result: the platform reports `0` as its "no value" sentinel when the
/// target process cannot be read, and any other reported value is one of the
/// known classes — an unknown one would break the platform's documented
/// contract and is not accepted here.
pub fn decode_class_read(raw: u32) -> (r: Result<Priority, NotFound>)
    requires
        raw == 0 || is_known_class(raw),
    ensures
        r is Err <==> raw == 0,
        r matches Ok(p) ==> p.raw() == raw && p.wf(),
{
    if raw == 0 {
        Err(NotFound)
    } else {
        Ok(Priority { class: raw })
    }
}

impl PartialOrd for Priority {
    fn partial_cmp(&self, other: &Self) -> (r: Option<Ordering>) {
        let a = class_rank(self.class);
        let b = class_rank(other.class);
        if a < b {
            Some(Ordering::Less)
        } else if a == b {
            Some(Ordering::Equal)
        } else {
            Some(Ordering::Greater)
        }
    }
}

impl vstd::std_specs::cmp::PartialOrdSpecImpl for Priority {
    open spec fn obeys_partial_cmp_spec() -> bool {
        true
    }

    open spec fn partial_cmp_spec(&self, other: &Self) -> Option<Ordering> {
        if self.rank() < other.rank() {
            Some(Ordering::Less)
        } else if self.rank() == other.rank() {
            Some(Ordering::Equal)
        } else {
            Some(Ordering::Greater)
        }
    }
}

/// Every class compares equal to itself, and from any ladder class a finite
/// walk reaches the normal class: it either is normal, or its `higher` walk
/// passes through normal, or its `lower` walk does. (A background marker
/// steps nowhere: walks from it are empty.)
pub proof fn lemma_normal_reachable(p: Priority, up: Seq<Priority>, down: Seq<Priority>)
    requires
        on_ladder(p.raw()),
        is_higher_walk(p, up),
        is_lower_walk(p, down),
    ensures
        p.partial_cmp_spec(&p) == Some(Ordering::Equal),
        p.is_normal() || (exists|i: int| 0 <= i < up.len() && (#[trigger] up[i]).is_normal()) || (
        exists|i: int| 0 <= i < down.len() && (#[trigger] down[i]).is_normal()),
{
    if p.rank() < 2 {
        assert(up[1 - p.rank()].is_normal());
    } else if p.rank() > 2 {
        assert(down[p.rank() - 3].is_normal());
    }
}

/// Stepping once up the ladder and then once back down returns to the
/// starting class, whenever a step up exists at all.
pub proof fn lemma_round_trip_up(p: Priority, up: Seq<Priority>, back: Seq<Priority>)
    requires
        p.wf(),
        is_higher_walk(p, up),
        up.len() > 0,
        is_lower_walk(up[0], back),
    ensures
        back.len() > 0,
        back[0] == p,
{
    lemma_class_at_rank(p.rank() + 1);
    lemma_rank_roundtrip(p.raw());
    lemma_class_injective(back[0], p);
}

/// Stepping once down the ladder and then once back up returns to the
/// starting class, whenever a step down exists at all.
pub proof fn lemma_round_trip_down(p: Priority, down: Seq<Priority>, back: Seq<Priority>)
    requires
        p.wf(),
        is_lower_walk(p, down),
        down.len() > 0,
        is_higher_walk(down[0], back),
    ensures
        back.len() > 0,
        back[0] == p,
{
    lemma_class_at_rank(p.rank() - 1);
    lemma_rank_roundtrip(p.raw());
    lemma_class_injective(back[0], p);
}

/// A `higher` walk is strictly ascending in priority order and finite, and
/// any two walks from the same class are equal: the walk is a function of its
/// starting point, not of shared iteration state.
pub proof fn lemma_higher_walk_monotonic(p: Priority, a: Seq<Priority>, b: Seq<Priority>)
    requires
        p.wf(),
        is_higher_walk(p, a),
        is_higher_walk(p, b),
    ensures
        forall|i: int, j: int|
            0 <= i < j < a.len() ==> #[trigger] a[i].partial_cmp_spec(&a[j]) == Some(
                Ordering::Less,
            ),
        a.len() <= 5,
        a == b,
{
    assert forall|i: int, j: int|
        0 <= i < j < a.len() implies #[trigger] a[i].partial_cmp_spec(&a[j]) == Some(
        Ordering::Less,
    ) by {
        lemma_class_at_rank(p.rank() + 1 + i);
        lemma_class_at_rank(p.rank() + 1 + j);
    }
    assert forall|i: int| 0 <= i < a.len() implies a[i] == b[i] by {
        lemma_class_injective(a[i], b[i]);
    }
    assert(a =~= b);
}

/// A `lower` walk is strictly descending in priority order and finite, and
/// any two walks from the same class are equal.
pub proof fn lemma_lower_walk_monotonic(p: Priority, a: Seq<Priority>, b: Seq<Priority>)
    requires
        p.wf(),
        is_lower_walk(p, a),
        is_lower_walk(p, b),
    ensures
        forall|i: int, j: int|
            0 <= i < j < a.len() ==> #[trigger] a[i].partial_cmp_spec(&a[j]) == Some(
                Ordering::Greater,
            ),
        a.len() <= 5,
        a == b,
{
    assert forall|i: int, j: int|
        0 <= i < j < a.len() implies #[trigger] a[i].partial_cmp_spec(&a[j]) == Some(
        Ordering::Greater,
    ) by {
        lemma_class_at_rank(p.rank() - 1 - i);
        lemma_class_at_rank(p.rank() - 1 - j);
    }
    assert forall|i: int| 0 <= i < a.len() implies a[i] == b[i] by {
        lemma_class_injective(a[i], b[i]);
    }
    assert(a =~= b);
}

} // verus!
