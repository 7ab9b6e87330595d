//! Properties of the walk that every visitor, read-only or mutable, inherits through
//! the engines' contracts.

use vstd::prelude::*;
use crate::entry::{PageTableEntry, PhysFrame, ADDR_MASK};
use crate::visit::PageTableVisit;
use crate::visit_mut::PageTableVisitMut;
use crate::walk::{
    lemma_entries_extend, walk_entry, walk_table, Event, Level, WalkError,
};

verus! {

/// The entry-hook events of `t` at `level`, one per entry, in index order.
pub open spec fn entry_events(level: Level, t: Seq<PageTableEntry>) -> Seq<Event> {
    t.map_values(|e: PageTableEntry| Event::Entry(level, e))
}

/// A table with no present entry: the walk calls the entry hook exactly once per slot,
/// in index order, and nothing else: no resolver and no table hook of any level. It
/// succeeds.
pub proof fn lemma_absent_table(
    level: Level,
    t: Seq<PageTableEntry>,
    memory: spec_fn(PhysFrame) -> Seq<PageTableEntry>,
)
    requires
        forall|i: int| 0 <= i < t.len() ==> !(#[trigger] t[i]).spec_present(),
    ensures
        walk_table(level, t, memory) == (entry_events(level, t), Ok::<(), WalkError>(())),
        walk_table(level, t, memory).0.len() == t.len(),
    decreases t.len(),
{
    if t.len() == 0 {
        assert(entry_events(level, t) =~= Seq::<Event>::empty());
    } else {
        let p = t.drop_last();
        assert forall|i: int| 0 <= i < p.len() implies !(#[trigger] p[i]).spec_present() by {
            assert(p[i] == t[i]);
        }
        lemma_absent_table(level, p, memory);
        assert(!t[t.len() - 1].spec_present());
        let below = walk_entry(level, t.last(), memory);
        assert(below.0 == Seq::<Event>::empty());
        assert(below.1 == Ok::<(), WalkError>(()));
        assert(entry_events(level, t) =~= entry_events(level, p) + seq![Event::Entry(level, t.last())]);
        assert(walk_table(level, t, memory).0 =~= entry_events(level, p) + seq![Event::Entry(level, t.last())] + below.0);
    }
}

/// Entries are visited in index order: the walk of the first `k + 1` entries is the walk
/// of the first `k`, then the entry hook of entry `k`, then the step below it.
pub proof fn lemma_index_order(
    level: Level,
    t: Seq<PageTableEntry>,
    k: int,
    memory: spec_fn(PhysFrame) -> Seq<PageTableEntry>,
)
    requires
        0 <= k < t.len(),
        walk_table(level, t.take(k), memory).1 is Ok,
    ensures
        walk_table(level, t.take(k + 1), memory).0 == walk_table(level, t.take(k), memory).0
            + seq![Event::Entry(level, t[k])] + walk_entry(level, t[k], memory).0,
{
    lemma_entries_extend(level, t, k, memory);
}

/// A present entry that is not huge, above the leaf level: the step below it calls the
/// resolver exactly once, for the entry's frame, then the table hook of the next level
/// with the table the resolver gave, then walks that table.
pub proof fn lemma_present_descends(
    level: Level,
    e: PageTableEntry,
    memory: spec_fn(PhysFrame) -> Seq<PageTableEntry>,
)
    requires
        level != Level::Pt,
        e.spec_present(),
        !e.spec_huge(),
    ensures
        ({
            let frame = PhysFrame { start: e.entry & ADDR_MASK };
            let below = walk_table(level.spec_child(), memory(frame), memory);
            &&& walk_entry(level, e, memory).0 == seq![
                Event::Resolve(frame),
                Event::Table(level.spec_child(), memory(frame)),
            ] + below.0
            &&& walk_entry(level, e, memory).1 == below.1
        }),
{
}

/// A huge entry of a page-directory-pointer table (1 GiB) or a page directory (2 MiB)
/// ends its branch: the step below it calls nothing and does not fail.
pub proof fn lemma_huge_leaf(
    level: Level,
    e: PageTableEntry,
    memory: spec_fn(PhysFrame) -> Seq<PageTableEntry>,
)
    requires
        level == Level::Pdpt || level == Level::Pd,
        e.spec_present(),
        e.spec_huge(),
    ensures
        walk_entry(level, e, memory) == (Seq::<Event>::empty(), Ok::<(), WalkError>(())),
{
}

/// A huge root entry fails with `UnsupportedPageSize`; the step below it calls nothing.
pub proof fn lemma_huge_root(e: PageTableEntry, memory: spec_fn(PhysFrame) -> Seq<PageTableEntry>)
    requires
        e.spec_present(),
        e.spec_huge(),
    ensures
        walk_entry(Level::Pml4, e, memory) == (
            Seq::<Event>::empty(),
            Err::<(), WalkError>(WalkError::UnsupportedPageSize),
        ),
{
}

/// A huge leaf-level entry fails with `HugeLeafEntry`; the step below it calls nothing.
pub proof fn lemma_huge_in_leaf_table(e: PageTableEntry, memory: spec_fn(PhysFrame) -> Seq<PageTableEntry>)
    requires
        e.spec_present(),
        e.spec_huge(),
    ensures
        walk_entry(Level::Pt, e, memory) == (
            Seq::<Event>::empty(),
            Err::<(), WalkError>(WalkError::HugeLeafEntry),
        ),
{
}

/// A failure below an entry ends the walk of its table: the entries after it are not
/// visited, and the table's walk reports that failure.
pub proof fn lemma_fail_fast(
    level: Level,
    t: Seq<PageTableEntry>,
    k: int,
    memory: spec_fn(PhysFrame) -> Seq<PageTableEntry>,
)
    requires
        0 <= k < t.len(),
        walk_table(level, t.take(k), memory).1 is Ok,
        walk_entry(level, t[k], memory).1 is Err,
    ensures
        walk_table(level, t, memory) == walk_table(level, t.take(k + 1), memory),
        walk_table(level, t, memory).1 == walk_entry(level, t[k], memory).1,
{
    lemma_entries_extend(level, t, k, memory);
    crate::walk::lemma_entries_stop(level, t, k + 1, memory);
}

/// The read-only and the mutable engine walk alike: started on the same table at the
/// same level, over the same memory, the events each adds to its visitor's trace, as its
/// contract states them, are the same, so both visit the same entries in the same order.
pub proof fn lemma_engines_agree<V: PageTableVisit, W: PageTableVisitMut>(
    level: Level,
    t: Seq<PageTableEntry>,
    before: V,
    after: V,
    before_mut: W,
    after_mut: W,
)
    requires
        before.memory() == before_mut.memory(),
        after.trace() == before.trace() + walk_table(level, t, before.memory()).0,
        after_mut.trace() == before_mut.trace() + walk_table(level, t, before_mut.memory()).0,
    ensures
        after.trace().skip(before.trace().len() as int)
            == after_mut.trace().skip(before_mut.trace().len() as int),
{
    assert(after.trace().skip(before.trace().len() as int) =~= walk_table(level, t, before.memory()).0);
    assert(after_mut.trace().skip(before_mut.trace().len() as int) =~= walk_table(level, t, before.memory()).0);
}

} // verus!
