//! The per-level policy shared by both engines.

use vstd::prelude::*;
use crate::entry::{FrameError, PageTableEntry, PhysFrame};

verus! {

/// A level of the hierarchy, from the root to the leaves.
#[derive(Clone, Copy, Debug, PartialEq, Eq, Structural)]
pub enum Level {
    Pml4,
    Pdpt,
    Pd,
    Pt,
}

/// A failure that stops a walk.
#[derive(Clone, Copy, Debug, PartialEq, Eq, Structural)]
pub enum WalkError {
    /// A root-level entry maps a huge page, a size this design does not support.
    UnsupportedPageSize,
    /// A leaf-level entry is marked huge, which a valid table never holds.
    HugeLeafEntry,
}

/// What the walk does after inspecting one entry.
#[derive(Clone, Copy, Debug, PartialEq, Eq, Structural)]
pub enum Step {
    /// Nothing below this entry is visited.
    Stop,
    /// The frame holds the table of the next level, which is visited.
    Descend(PhysFrame),
    /// The entry is invalid at its level.
    Fail(WalkError),
}

impl Level {
    /// Distance from the leaf level.
    pub open spec fn height(self) -> nat {
        match self {
            Level::Pml4 => 3,
            Level::Pdpt => 2,
            Level::Pd => 1,
            Level::Pt => 0,
        }
    }

    /// The level of the tables that entries of this level point to.
    pub open spec fn spec_child(self) -> Level {
        match self {
            Level::Pml4 => Level::Pdpt,
            Level::Pdpt => Level::Pd,
            Level::Pd => Level::Pt,
            Level::Pt => Level::Pt,
        }
    }

    /// The level below this one; the leaf level has none and gives itself.
    pub fn child(self) -> (r: Level)
        ensures
            r == self.spec_child(),
    {
        match self {
            Level::Pml4 => Level::Pdpt,
            Level::Pdpt => Level::Pd,
            Level::Pd => Level::Pt,
            Level::Pt => Level::Pt,
        }
    }
}

/// The policy of the hierarchy: what an entry's state means at its level.
pub open spec fn spec_step(level: Level, e: PageTableEntry) -> Step {
    match e.spec_frame() {
        Err(FrameError::FrameNotPresent) => Step::Stop,
        Err(FrameError::HugeFrame) => match level {
            Level::Pml4 => Step::Fail(WalkError::UnsupportedPageSize),
            Level::Pt => Step::Fail(WalkError::HugeLeafEntry),
            _ => Step::Stop,
        },
        Ok(frame) => match level {
            Level::Pt => Step::Stop,
            _ => Step::Descend(frame),
        },
    }
}

/// Decides the step for entry `e` of a table at `level`.
pub fn step(level: Level, e: &PageTableEntry) -> (r: Step)
    ensures
        r == spec_step(level, *e),
{
    match e.frame() {
        Err(FrameError::FrameNotPresent) => Step::Stop,
        Err(FrameError::HugeFrame) => match level {
            Level::Pml4 => Step::Fail(WalkError::UnsupportedPageSize),
            Level::Pt => Step::Fail(WalkError::HugeLeafEntry),
            _ => Step::Stop,
        },
        Ok(frame) => match level {
            Level::Pt => Step::Stop,
            _ => Step::Descend(frame),
        },
    }
}

/// One observable action of a walk.
pub enum Event {
    /// The table hook of `Level` received a table with these entries.
    Table(Level, Seq<PageTableEntry>),
    /// The entry hook of `Level` received this entry.
    Entry(Level, PageTableEntry),
    /// The resolver was asked for the table held in this frame.
    Resolve(PhysFrame),
}

/// One hook call or resolution, as a visitor records it.
#[derive(Clone, Debug, PartialEq, Eq)]
pub enum Visit {
    /// The table hook of a level was called on a table with these entries.
    Table(Level, Vec<PageTableEntry>),
    /// The entry hook of a level was called on an entry.
    Entry(Level, PageTableEntry),
    /// The resolver was asked for a frame.
    Resolve(PhysFrame),
}

impl View for Visit {
    type V = Event;

    open spec fn view(&self) -> Event {
        match self {
            Visit::Table(level, entries) => Event::Table(*level, entries@),
            Visit::Entry(level, e) => Event::Entry(*level, *e),
            Visit::Resolve(frame) => Event::Resolve(*frame),
        }
    }
}

/// What a walk produces: its events, and how it ended.
pub type Outcome = (Seq<Event>, Result<(), WalkError>);

/// The walk of a table at `level` with entries `t`, where `memory` gives the table each
/// frame holds: for each entry in index order, its entry hook, then the step below it,
/// up to the first failure.
pub open spec fn walk_table(
    level: Level,
    t: Seq<PageTableEntry>,
    memory: spec_fn(PhysFrame) -> Seq<PageTableEntry>,
) -> Outcome
    decreases level.height(), 1nat, t.len(),
{
    if t.len() == 0 {
        (Seq::empty(), Ok(()))
    } else {
        let prev = walk_table(level, t.drop_last(), memory);
        if prev.1 is Err {
            prev
        } else {
            let below = walk_entry(level, t.last(), memory);
            (prev.0 + seq![Event::Entry(level, t.last())] + below.0, below.1)
        }
    }
}

/// The step below one entry `e` of a table at `level`: where it points to a table of the
/// next level, the resolver, then that table's hook, then its walk.
pub open spec fn walk_entry(
    level: Level,
    e: PageTableEntry,
    memory: spec_fn(PhysFrame) -> Seq<PageTableEntry>,
) -> Outcome
    decreases level.height(), 0nat, 0nat,
{
    match spec_step(level, e) {
        Step::Descend(frame) => if level.height() > 0 {
            let next = memory(frame);
            let sub = walk_table(level.spec_child(), next, memory);
            (seq![Event::Resolve(frame), Event::Table(level.spec_child(), next)] + sub.0, sub.1)
        } else {
            (Seq::empty(), Ok(()))
        },
        Step::Fail(err) => (Seq::empty(), Err(err)),
        Step::Stop => (Seq::empty(), Ok(())),
    }
}

/// Once the walk of the first `k` entries has failed, the later entries add nothing.
pub proof fn lemma_entries_stop(
    level: Level,
    t: Seq<PageTableEntry>,
    k: int,
    memory: spec_fn(PhysFrame) -> Seq<PageTableEntry>,
)
    requires
        0 <= k <= t.len(),
        walk_table(level, t.take(k), memory).1 is Err,
    ensures
        walk_table(level, t, memory) == walk_table(level, t.take(k), memory),
    decreases t.len(),
{
    if t.len() == k {
        assert(t.take(k) =~= t);
    } else {
        assert(t.drop_last().take(k) =~= t.take(k));
        lemma_entries_stop(level, t.drop_last(), k, memory);
    }
}

/// The walk of the first `k + 1` entries extends that of the first `k` by the entry hook
/// of entry `k` and the step below it.
pub proof fn lemma_entries_extend(
    level: Level,
    t: Seq<PageTableEntry>,
    k: int,
    memory: spec_fn(PhysFrame) -> Seq<PageTableEntry>,
)
    requires
        0 <= k < t.len(),
    ensures
        ({
            let prev = walk_table(level, t.take(k), memory);
            let below = walk_entry(level, t[k], memory);
            walk_table(level, t.take(k + 1), memory) == if prev.1 is Err {
                prev
            } else {
                (prev.0 + seq![Event::Entry(level, t[k])] + below.0, below.1)
            }
        }),
{
    assert(t.take(k + 1).drop_last() =~= t.take(k));
}

} // verus!
