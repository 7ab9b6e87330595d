//! The read-only traversal engine.

use vstd::prelude::*;
use crate::entry::{PageTableEntry, PhysFrame};
use crate::table::PageTable;
use crate::walk::{
    lemma_entries_extend, lemma_entries_stop, step, walk_entry, walk_table,
    Event, Level, Step, Visit, WalkError,
};

verus! {

/// Visits all entries and levels of a page-table hierarchy without changing it.
///
/// The engine functions (`visit_pml4` and the others) perform the standard descent: the
/// walk of a table calls the entry hook of each slot in index order, and the step below
/// an entry calls the resolver, then the table hook of the next level, then walks that
/// table. The hooks are what an implementation specializes; by default a hook only
/// records its call. A hook cannot itself default to the descent: Verus refuses a trait
/// method, provided or implemented, that calls back into a generic walk over the same
/// trait, as recursion it cannot bound.
///
/// `trace` and `memory` are the ghost state of a walk: each hook and the resolver append
/// their own event to `trace` (the default bodies through `record`, with a `Visit` whose
/// view is the event), and `memory` is the table the resolver gives for each frame,
/// which no hook changes.
pub trait PageTableVisit {
    /// The events of the walks so far.
    spec fn trace(&self) -> Seq<Event>;

    /// The table held in each frame, as the resolver gives it.
    spec fn memory(&self) -> spec_fn(PhysFrame) -> Seq<PageTableEntry>;

    /// Records a hook call: appends its event to the trace.
    fn record(&mut self, visit: Visit)
        ensures
            final(self).trace() == old(self).trace().push(visit@),
            final(self).memory() == old(self).memory(),
    ;

    /// The resolver: gives access to the table held in `frame`.
    fn get_page(&mut self, frame: PhysFrame) -> (r: PageTable)
        ensures
            r.wf(),
            r@ == old(self).memory()(frame),
            final(self).trace() == old(self).trace().push(Event::Resolve(frame)),
            final(self).memory() == old(self).memory(),
    ;

    /// Called when the walk descends into a root table, before its entries.
    fn visit_pml4(&mut self, pml4: &PageTable)
        ensures
            final(self).trace() == old(self).trace().push(Event::Table(Level::Pml4, pml4@)),
            final(self).memory() == old(self).memory(),
    {
        self.record(Visit::Table(Level::Pml4, pml4.copy().entries));
    }

    /// Called on each entry of a root table, before the step below it.
    fn visit_pml4_entry(&mut self, entry: &PageTableEntry)
        ensures
            final(self).trace() == old(self).trace().push(Event::Entry(Level::Pml4, *entry)),
            final(self).memory() == old(self).memory(),
    {
        self.record(Visit::Entry(Level::Pml4, *entry));
    }

    /// Called when the walk descends into a page-directory-pointer table, before its entries.
    fn visit_pdpt(&mut self, pdpt: &PageTable)
        ensures
            final(self).trace() == old(self).trace().push(Event::Table(Level::Pdpt, pdpt@)),
            final(self).memory() == old(self).memory(),
    {
        self.record(Visit::Table(Level::Pdpt, pdpt.copy().entries));
    }

    /// Called on each entry of a page-directory-pointer table, before the step below it.
    fn visit_pdpt_entry(&mut self, entry: &PageTableEntry)
        ensures
            final(self).trace() == old(self).trace().push(Event::Entry(Level::Pdpt, *entry)),
            final(self).memory() == old(self).memory(),
    {
        self.record(Visit::Entry(Level::Pdpt, *entry));
    }

    /// Called when the walk descends into a page directory, before its entries.
    fn visit_pd(&mut self, pd: &PageTable)
        ensures
            final(self).trace() == old(self).trace().push(Event::Table(Level::Pd, pd@)),
            final(self).memory() == old(self).memory(),
    {
        self.record(Visit::Table(Level::Pd, pd.copy().entries));
    }

    /// Called on each entry of a page directory, before the step below it.
    fn visit_pd_entry(&mut self, entry: &PageTableEntry)
        ensures
            final(self).trace() == old(self).trace().push(Event::Entry(Level::Pd, *entry)),
            final(self).memory() == old(self).memory(),
    {
        self.record(Visit::Entry(Level::Pd, *entry));
    }

    /// Called when the walk descends into a leaf page table, before its entries.
    fn visit_pt(&mut self, pt: &PageTable)
        ensures
            final(self).trace() == old(self).trace().push(Event::Table(Level::Pt, pt@)),
            final(self).memory() == old(self).memory(),
    {
        self.record(Visit::Table(Level::Pt, pt.copy().entries));
    }

    /// Called on each entry of a leaf page table, before the step below it.
    fn visit_pt_entry(&mut self, entry: &PageTableEntry)
        ensures
            final(self).trace() == old(self).trace().push(Event::Entry(Level::Pt, *entry)),
            final(self).memory() == old(self).memory(),
    {
        self.record(Visit::Entry(Level::Pt, *entry));
    }
}

/// Calls the table hook of `level`.
fn table_hook<V: PageTableVisit>(visitor: &mut V, level: Level, t: &PageTable)
    ensures
        final(visitor).trace() == old(visitor).trace().push(Event::Table(level, t@)),
        final(visitor).memory() == old(visitor).memory(),
{
    match level {
        Level::Pml4 => visitor.visit_pml4(t),
        Level::Pdpt => visitor.visit_pdpt(t),
        Level::Pd => visitor.visit_pd(t),
        Level::Pt => visitor.visit_pt(t),
    }
}

/// Calls the entry hook of `level`.
fn entry_hook<V: PageTableVisit>(visitor: &mut V, level: Level, e: &PageTableEntry)
    ensures
        final(visitor).trace() == old(visitor).trace().push(Event::Entry(level, *e)),
        final(visitor).memory() == old(visitor).memory(),
{
    match level {
        Level::Pml4 => visitor.visit_pml4_entry(e),
        Level::Pdpt => visitor.visit_pdpt_entry(e),
        Level::Pd => visitor.visit_pd_entry(e),
        Level::Pt => visitor.visit_pt_entry(e),
    }
}

/// Walks a table at `level`: for each entry in index order, its entry hook, then the step
/// below it; up to the first failure.
fn visit_table<V: PageTableVisit>(visitor: &mut V, level: Level, t: &PageTable) -> (r: Result<(), WalkError>)
    requires
        t.wf(),
    ensures
        final(visitor).trace() == old(visitor).trace() + walk_table(level, t@, old(visitor).memory()).0,
        r == walk_table(level, t@, old(visitor).memory()).1,
        final(visitor).memory() == old(visitor).memory(),
    decreases level.height(), 1nat,
{
    let ghost memory = visitor.memory();
    let ghost start = visitor.trace();
    let n = t.entries.len();
    let mut i: usize = 0;
    assert(t@.take(0) =~= Seq::<PageTableEntry>::empty());
    while i < n
        invariant
            i <= n,
            n == t@.len(),
            t.wf(),
            visitor.memory() == memory,
            memory == old(visitor).memory(),
            start == old(visitor).trace(),
            visitor.trace() == start + walk_table(level, t@.take(i as int), memory).0,
            walk_table(level, t@.take(i as int), memory).1 == Ok::<(), WalkError>(()),
        decreases n - i,
    {
        entry_hook(visitor, level, &t.entries[i]);
        let r = visit_entry(visitor, level, &t.entries[i]);
        proof {
            lemma_entries_extend(level, t@, i as int, memory);
        }
        i = i + 1;
        assert(visitor.trace() =~= start + walk_table(level, t@.take(i as int), memory).0);
        assert(r == walk_table(level, t@.take(i as int), memory).1);
        match r {
            Err(_) => {
                proof {
                    lemma_entries_stop(level, t@, i as int, memory);
                }
                return r;
            },
            Ok(()) => {
                assert(r->Ok_0 == ());
            },
        }
    }
    assert(t@.take(n as int) =~= t@);
    Ok(())
}

/// The step below one entry of a table at `level`: where it points to a table of the
/// next level, the resolver, that table's hook, then its walk; a failure where the entry
/// is invalid at `level`.
fn visit_entry<V: PageTableVisit>(visitor: &mut V, level: Level, e: &PageTableEntry) -> (r: Result<(), WalkError>)
    ensures
        final(visitor).trace() == old(visitor).trace() + walk_entry(level, *e, old(visitor).memory()).0,
        r == walk_entry(level, *e, old(visitor).memory()).1,
        final(visitor).memory() == old(visitor).memory(),
    decreases level.height(), 0nat,
{
    let ghost t0 = visitor.trace();
    match step(level, e) {
        Step::Descend(frame) => {
            let next = visitor.get_page(frame);
            table_hook(visitor, level.child(), &next);
            let r = visit_table(visitor, level.child(), &next);
            assert(visitor.trace() =~= t0 + walk_entry(level, *e, old(visitor).memory()).0);
            r
        },
        Step::Fail(err) => Err(err),
        Step::Stop => Ok(()),
    }
}

/// Walks the hierarchy below a root table.
pub fn visit_pml4<V: PageTableVisit>(visitor: &mut V, pml4: &PageTable) -> (r: Result<(), WalkError>)
    requires
        pml4.wf(),
    ensures
        final(visitor).trace() == old(visitor).trace() + walk_table(Level::Pml4, pml4@, old(visitor).memory()).0,
        r == walk_table(Level::Pml4, pml4@, old(visitor).memory()).1,
        final(visitor).memory() == old(visitor).memory(),
{
    visit_table(visitor, Level::Pml4, pml4)
}

/// Walks below one root entry: a huge root entry is `WalkError::UnsupportedPageSize`.
pub fn visit_pml4_entry<V: PageTableVisit>(visitor: &mut V, entry: &PageTableEntry) -> (r: Result<(), WalkError>)
    ensures
        final(visitor).trace() == old(visitor).trace() + walk_entry(Level::Pml4, *entry, old(visitor).memory()).0,
        r == walk_entry(Level::Pml4, *entry, old(visitor).memory()).1,
        final(visitor).memory() == old(visitor).memory(),
{
    visit_entry(visitor, Level::Pml4, entry)
}

/// Walks the hierarchy below a page-directory-pointer table.
pub fn visit_pdpt<V: PageTableVisit>(visitor: &mut V, pdpt: &PageTable) -> (r: Result<(), WalkError>)
    requires
        pdpt.wf(),
    ensures
        final(visitor).trace() == old(visitor).trace() + walk_table(Level::Pdpt, pdpt@, old(visitor).memory()).0,
        r == walk_table(Level::Pdpt, pdpt@, old(visitor).memory()).1,
        final(visitor).memory() == old(visitor).memory(),
{
    visit_table(visitor, Level::Pdpt, pdpt)
}

/// Walks below one page-directory-pointer entry: a 1 GiB page ends the branch.
pub fn visit_pdpt_entry<V: PageTableVisit>(visitor: &mut V, entry: &PageTableEntry) -> (r: Result<(), WalkError>)
    ensures
        final(visitor).trace() == old(visitor).trace() + walk_entry(Level::Pdpt, *entry, old(visitor).memory()).0,
        r == walk_entry(Level::Pdpt, *entry, old(visitor).memory()).1,
        final(visitor).memory() == old(visitor).memory(),
{
    visit_entry(visitor, Level::Pdpt, entry)
}

/// Walks the hierarchy below a page directory.
pub fn visit_pd<V: PageTableVisit>(visitor: &mut V, pd: &PageTable) -> (r: Result<(), WalkError>)
    requires
        pd.wf(),
    ensures
        final(visitor).trace() == old(visitor).trace() + walk_table(Level::Pd, pd@, old(visitor).memory()).0,
        r == walk_table(Level::Pd, pd@, old(visitor).memory()).1,
        final(visitor).memory() == old(visitor).memory(),
{
    visit_table(visitor, Level::Pd, pd)
}

/// Walks below one page-directory entry, descending into the leaf page table it points
/// to: a 2 MiB page ends the branch.
pub fn visit_pd_entry<V: PageTableVisit>(visitor: &mut V, entry: &PageTableEntry) -> (r: Result<(), WalkError>)
    ensures
        final(visitor).trace() == old(visitor).trace() + walk_entry(Level::Pd, *entry, old(visitor).memory()).0,
        r == walk_entry(Level::Pd, *entry, old(visitor).memory()).1,
        final(visitor).memory() == old(visitor).memory(),
{
    visit_entry(visitor, Level::Pd, entry)
}

/// Walks a leaf page table.
pub fn visit_pt<V: PageTableVisit>(visitor: &mut V, pt: &PageTable) -> (r: Result<(), WalkError>)
    requires
        pt.wf(),
    ensures
        final(visitor).trace() == old(visitor).trace() + walk_table(Level::Pt, pt@, old(visitor).memory()).0,
        r == walk_table(Level::Pt, pt@, old(visitor).memory()).1,
        final(visitor).memory() == old(visitor).memory(),
{
    visit_table(visitor, Level::Pt, pt)
}

/// Visits one leaf entry, which maps a 4 KiB page and leads nowhere: a huge leaf entry is
/// `WalkError::HugeLeafEntry`.
pub fn visit_pt_entry<V: PageTableVisit>(visitor: &mut V, entry: &PageTableEntry) -> (r: Result<(), WalkError>)
    ensures
        final(visitor).trace() == old(visitor).trace() + walk_entry(Level::Pt, *entry, old(visitor).memory()).0,
        r == walk_entry(Level::Pt, *entry, old(visitor).memory()).1,
        final(visitor).memory() == old(visitor).memory(),
{
    visit_entry(visitor, Level::Pt, entry)
}

} // verus!
