//! The mutable traversal engine.

use vstd::prelude::*;
use crate::entry::{PageTableEntry, PhysAddr, PhysFrame};
use crate::table::PageTable;
use crate::walk::{
    lemma_entries_extend, lemma_entries_stop, step, walk_entry, walk_table,
    Event, Level, Step, Visit, WalkError,
};

verus! {

/// Visits all entries and levels of a page-table hierarchy with mutable access to each
/// table and entry.
///
/// The engine functions (`visit_mut_pml4` and the others) perform the standard descent:
/// the walk of a table calls the entry hook of each slot in index order, and the step
/// below an entry calls the resolver, then the table hook of the next level, then walks
/// that table. The hooks are what an implementation specializes; by default a hook only
/// records its call. A hook cannot itself default to the descent: Verus refuses a trait
/// method, provided or implemented, that calls back into a generic walk over the same
/// trait, as recursion it cannot bound.
///
/// Each entry hook is handed the entry as the walk found its table (before that table's
/// hook ran), and the walk goes below the entry as the hook received it; what the entry
/// hook leaves in it is written to its slot where it differs from what was found, so
/// where both hooks edit one slot the entry hook's edit stands.
///
/// `trace` and `memory` are the ghost state of a walk: each hook and the resolver append
/// their own event to `trace` (the default bodies through `record`, with a `Visit` whose
/// view is the event), and `memory` is the table the resolver gives for each frame. It
/// stays fixed through a walk, so what `put_table` does with an edited table must leave
/// what the resolver gives unchanged until the walk ends (it may, for instance, go to a
/// copy of the hierarchy).
/// `keeps_entries` holds of a visitor whose hooks leave every table and entry as they
/// were handed it, as the default bodies do.
pub trait PageTableVisitMut {
    /// The events of the walks so far.
    spec fn trace(&self) -> Seq<Event>;

    /// The table held in each frame, as the resolver gives it.
    spec fn memory(&self) -> spec_fn(PhysFrame) -> Seq<PageTableEntry>;

    /// Whether the hooks leave every table and entry as they were handed it.
    spec fn keeps_entries(&self) -> bool;

    /// Records a hook call: appends its event to the trace.
    fn record(&mut self, visit: Visit)
        ensures
            final(self).trace() == old(self).trace().push(visit@),
            final(self).memory() == old(self).memory(),
            final(self).keeps_entries() == old(self).keeps_entries(),
    ;

    /// The resolver: hands out the table held at physical address `paddr` for editing.
    fn get_table(&mut self, paddr: PhysAddr) -> (r: PageTable)
        ensures
            r.wf(),
            r@ == old(self).memory()((PhysFrame { start: paddr.addr })),
            final(self).trace() == old(self).trace().push(Event::Resolve((PhysFrame { start: paddr.addr }))),
            final(self).memory() == old(self).memory(),
            final(self).keeps_entries() == old(self).keeps_entries(),
    ;

    /// Takes back the table handed out for `paddr`, with the edits made to it.
    fn put_table(&mut self, paddr: PhysAddr, table: PageTable)
        ensures
            final(self).trace() == old(self).trace(),
            final(self).memory() == old(self).memory(),
            final(self).keeps_entries() == old(self).keeps_entries(),
    ;

    /// Called when the walk descends into a root table, before its entries.
    fn visit_pml4(&mut self, pml4: &mut PageTable)
        requires
            old(pml4).wf(),
        ensures
            final(self).trace() == old(self).trace().push(Event::Table(Level::Pml4, old(pml4)@)),
            final(self).memory() == old(self).memory(),
            final(self).keeps_entries() == old(self).keeps_entries(),
            final(pml4).wf(),
            old(self).keeps_entries() ==> final(pml4)@ == old(pml4)@,
    {
        self.record(Visit::Table(Level::Pml4, pml4.copy().entries));
    }

    /// Called on each entry of a root table, before the step below it.
    fn visit_pml4_entry(&mut self, entry: &mut PageTableEntry)
        ensures
            final(self).trace() == old(self).trace().push(Event::Entry(Level::Pml4, *old(entry))),
            final(self).memory() == old(self).memory(),
            final(self).keeps_entries() == old(self).keeps_entries(),
            old(self).keeps_entries() ==> *final(entry) == *old(entry),
    {
        self.record(Visit::Entry(Level::Pml4, *entry));
    }

    /// Called when the walk descends into a page-directory-pointer table, before its entries.
    fn visit_pdpt(&mut self, pdpt: &mut PageTable)
        requires
            old(pdpt).wf(),
        ensures
            final(self).trace() == old(self).trace().push(Event::Table(Level::Pdpt, old(pdpt)@)),
            final(self).memory() == old(self).memory(),
            final(self).keeps_entries() == old(self).keeps_entries(),
            final(pdpt).wf(),
            old(self).keeps_entries() ==> final(pdpt)@ == old(pdpt)@,
    {
        self.record(Visit::Table(Level::Pdpt, pdpt.copy().entries));
    }

    /// Called on each entry of a page-directory-pointer table, before the step below it.
    fn visit_pdpt_entry(&mut self, entry: &mut PageTableEntry)
        ensures
            final(self).trace() == old(self).trace().push(Event::Entry(Level::Pdpt, *old(entry))),
            final(self).memory() == old(self).memory(),
            final(self).keeps_entries() == old(self).keeps_entries(),
            old(self).keeps_entries() ==> *final(entry) == *old(entry),
    {
        self.record(Visit::Entry(Level::Pdpt, *entry));
    }

    /// Called when the walk descends into a page directory, before its entries.
    fn visit_pd(&mut self, pd: &mut PageTable)
        requires
            old(pd).wf(),
        ensures
            final(self).trace() == old(self).trace().push(Event::Table(Level::Pd, old(pd)@)),
            final(self).memory() == old(self).memory(),
            final(self).keeps_entries() == old(self).keeps_entries(),
            final(pd).wf(),
            old(self).keeps_entries() ==> final(pd)@ == old(pd)@,
    {
        self.record(Visit::Table(Level::Pd, pd.copy().entries));
    }

    /// Called on each entry of a page directory, before the step below it.
    fn visit_pd_entry(&mut self, entry: &mut PageTableEntry)
        ensures
            final(self).trace() == old(self).trace().push(Event::Entry(Level::Pd, *old(entry))),
            final(self).memory() == old(self).memory(),
            final(self).keeps_entries() == old(self).keeps_entries(),
            old(self).keeps_entries() ==> *final(entry) == *old(entry),
    {
        self.record(Visit::Entry(Level::Pd, *entry));
    }

    /// Called when the walk descends into a leaf page table, before its entries.
    fn visit_pt(&mut self, pt: &mut PageTable)
        requires
            old(pt).wf(),
        ensures
            final(self).trace() == old(self).trace().push(Event::Table(Level::Pt, old(pt)@)),
            final(self).memory() == old(self).memory(),
            final(self).keeps_entries() == old(self).keeps_entries(),
            final(pt).wf(),
            old(self).keeps_entries() ==> final(pt)@ == old(pt)@,
    {
        self.record(Visit::Table(Level::Pt, pt.copy().entries));
    }

    /// Called on each entry of a leaf page table, before the step below it.
    fn visit_pt_entry(&mut self, entry: &mut PageTableEntry)
        ensures
            final(self).trace() == old(self).trace().push(Event::Entry(Level::Pt, *old(entry))),
            final(self).memory() == old(self).memory(),
            final(self).keeps_entries() == old(self).keeps_entries(),
            old(self).keeps_entries() ==> *final(entry) == *old(entry),
    {
        self.record(Visit::Entry(Level::Pt, *entry));
    }
}

/// Calls the table hook of `level`.
fn table_hook<V: PageTableVisitMut>(visitor: &mut V, level: Level, t: &mut PageTable)
    requires
        old(t).wf(),
    ensures
        final(visitor).trace() == old(visitor).trace().push(Event::Table(level, old(t)@)),
        final(visitor).memory() == old(visitor).memory(),
        final(visitor).keeps_entries() == old(visitor).keeps_entries(),
        final(t).wf(),
        old(visitor).keeps_entries() ==> final(t)@ == old(t)@,
{
    match level {
        Level::Pml4 => visitor.visit_pml4(t),
        Level::Pdpt => visitor.visit_pdpt(t),
        Level::Pd => visitor.visit_pd(t),
        Level::Pt => visitor.visit_pt(t),
    }
}

/// Calls the entry hook of `level`.
fn entry_hook<V: PageTableVisitMut>(visitor: &mut V, level: Level, e: &mut PageTableEntry)
    ensures
        final(visitor).trace() == old(visitor).trace().push(Event::Entry(level, *old(e))),
        final(visitor).memory() == old(visitor).memory(),
        final(visitor).keeps_entries() == old(visitor).keeps_entries(),
        old(visitor).keeps_entries() ==> *final(e) == *old(e),
{
    match level {
        Level::Pml4 => visitor.visit_pml4_entry(e),
        Level::Pdpt => visitor.visit_pdpt_entry(e),
        Level::Pd => visitor.visit_pd_entry(e),
        Level::Pt => visitor.visit_pt_entry(e),
    }
}

/// Walks a table at `level` whose entries were `found` when the walk reached it: for each
/// slot in index order, the entry hook on the entry found there, its edit written to the
/// slot of `t`, then the step below the entry; up to the first failure.
fn visit_table<V: PageTableVisitMut>(
    visitor: &mut V,
    level: Level,
    found: &PageTable,
    t: &mut PageTable,
) -> (r: Result<(), WalkError>)
    requires
        found.wf(),
        old(t).wf(),
    ensures
        final(t).wf(),
        final(visitor).trace() == old(visitor).trace() + walk_table(level, found@, old(visitor).memory()).0,
        r == walk_table(level, found@, old(visitor).memory()).1,
        final(visitor).memory() == old(visitor).memory(),
        final(visitor).keeps_entries() == old(visitor).keeps_entries(),
        old(visitor).keeps_entries() ==> final(t)@ == old(t)@,
    decreases level.height(), 1nat,
{
    let ghost memory = visitor.memory();
    let ghost keeps = visitor.keeps_entries();
    let ghost t0 = found@;
    let ghost start = visitor.trace();
    let n = found.entries.len();
    let mut i: usize = 0;
    assert(t0.take(0) =~= Seq::<PageTableEntry>::empty());
    while i < n
        invariant
            i <= n,
            n == t0.len(),
            found@ == t0,
            found.wf(),
            old(t).wf(),
            t@.len() == n,
            t.wf(),
            keeps == old(visitor).keeps_entries(),
            visitor.keeps_entries() == keeps,
            keeps ==> t@ == old(t)@,
            visitor.memory() == memory,
            memory == old(visitor).memory(),
            start == old(visitor).trace(),
            visitor.trace() == start + walk_table(level, t0.take(i as int), memory).0,
            walk_table(level, t0.take(i as int), memory).1 == Ok::<(), WalkError>(()),
        decreases n - i,
    {
        let mut e = found.entries[i];
        entry_hook(visitor, level, &mut e);
        if e != found.entries[i] {
            t.entries.set(i, e);
        }
        let r = visit_entry(visitor, level, &found.entries[i]);
        proof {
            lemma_entries_extend(level, t0, i as int, memory);
        }
        i = i + 1;
        assert(visitor.trace() =~= start + walk_table(level, t0.take(i as int), memory).0);
        assert(r == walk_table(level, t0.take(i as int), memory).1);
        match r {
            Err(_) => {
                proof {
                    lemma_entries_stop(level, t0, i as int, memory);
                }
                return r;
            },
            Ok(()) => {
                assert(r->Ok_0 == ());
            },
        }
    }
    assert(t0.take(n as int) =~= t0);
    Ok(())
}

/// The step below one entry of a table at `level`: where it points to a table of the
/// next level, the resolver, that table's hook, then its walk; a failure where the entry
/// is invalid at `level`.
fn visit_entry<V: PageTableVisitMut>(visitor: &mut V, level: Level, e: &PageTableEntry) -> (r: Result<(), WalkError>)
    ensures
        final(visitor).trace() == old(visitor).trace() + walk_entry(level, *e, old(visitor).memory()).0,
        r == walk_entry(level, *e, old(visitor).memory()).1,
        final(visitor).memory() == old(visitor).memory(),
        final(visitor).keeps_entries() == old(visitor).keeps_entries(),
    decreases level.height(), 0nat,
{
    let ghost t0 = visitor.trace();
    match step(level, e) {
        Step::Descend(frame) => {
            let paddr = frame.start_address();
            let mut next = visitor.get_table(paddr);
            let found = next.copy();
            table_hook(visitor, level.child(), &mut next);
            let r = visit_table(visitor, level.child(), &found, &mut next);
            visitor.put_table(paddr, next);
            assert(visitor.trace() =~= t0 + walk_entry(level, *e, old(visitor).memory()).0);
            r
        },
        Step::Fail(err) => Err(err),
        Step::Stop => Ok(()),
    }
}

/// Walks the hierarchy below a root table.
pub fn visit_mut_pml4<V: PageTableVisitMut>(visitor: &mut V, pml4: &mut PageTable) -> (r: Result<(), WalkError>)
    requires
        old(pml4).wf(),
    ensures
        final(pml4).wf(),
        final(visitor).trace() == old(visitor).trace() + walk_table(Level::Pml4, old(pml4)@, old(visitor).memory()).0,
        r == walk_table(Level::Pml4, old(pml4)@, old(visitor).memory()).1,
        final(visitor).memory() == old(visitor).memory(),
        final(visitor).keeps_entries() == old(visitor).keeps_entries(),
        old(visitor).keeps_entries() ==> final(pml4)@ == old(pml4)@,
{
    let found = pml4.copy();
    visit_table(visitor, Level::Pml4, &found, pml4)
}

/// Walks below one root entry: a huge root entry is `WalkError::UnsupportedPageSize`.
pub fn visit_mut_pml4_entry<V: PageTableVisitMut>(visitor: &mut V, entry: &mut PageTableEntry) -> (r: Result<(), WalkError>)
    ensures
        final(visitor).trace() == old(visitor).trace() + walk_entry(Level::Pml4, *old(entry), old(visitor).memory()).0,
        r == walk_entry(Level::Pml4, *old(entry), old(visitor).memory()).1,
        final(visitor).memory() == old(visitor).memory(),
        final(visitor).keeps_entries() == old(visitor).keeps_entries(),
        *final(entry) == *old(entry),
{
    let found = *entry;
    visit_entry(visitor, Level::Pml4, &found)
}

/// Walks the hierarchy below a page-directory-pointer table.
pub fn visit_mut_pdpt<V: PageTableVisitMut>(visitor: &mut V, pdpt: &mut PageTable) -> (r: Result<(), WalkError>)
    requires
        old(pdpt).wf(),
    ensures
        final(pdpt).wf(),
        final(visitor).trace() == old(visitor).trace() + walk_table(Level::Pdpt, old(pdpt)@, old(visitor).memory()).0,
        r == walk_table(Level::Pdpt, old(pdpt)@, old(visitor).memory()).1,
        final(visitor).memory() == old(visitor).memory(),
        final(visitor).keeps_entries() == old(visitor).keeps_entries(),
        old(visitor).keeps_entries() ==> final(pdpt)@ == old(pdpt)@,
{
    let found = pdpt.copy();
    visit_table(visitor, Level::Pdpt, &found, pdpt)
}

/// Walks below one page-directory-pointer entry: a 1 GiB page ends the branch.
pub fn visit_mut_pdpt_entry<V: PageTableVisitMut>(visitor: &mut V, entry: &mut PageTableEntry) -> (r: Result<(), WalkError>)
    ensures
        final(visitor).trace() == old(visitor).trace() + walk_entry(Level::Pdpt, *old(entry), old(visitor).memory()).0,
        r == walk_entry(Level::Pdpt, *old(entry), old(visitor).memory()).1,
        final(visitor).memory() == old(visitor).memory(),
        final(visitor).keeps_entries() == old(visitor).keeps_entries(),
        *final(entry) == *old(entry),
{
    let found = *entry;
    visit_entry(visitor, Level::Pdpt, &found)
}

/// Walks the hierarchy below a page directory.
pub fn visit_mut_pd<V: PageTableVisitMut>(visitor: &mut V, pd: &mut PageTable) -> (r: Result<(), WalkError>)
    requires
        old(pd).wf(),
    ensures
        final(pd).wf(),
        final(visitor).trace() == old(visitor).trace() + walk_table(Level::Pd, old(pd)@, old(visitor).memory()).0,
        r == walk_table(Level::Pd, old(pd)@, old(visitor).memory()).1,
        final(visitor).memory() == old(visitor).memory(),
        final(visitor).keeps_entries() == old(visitor).keeps_entries(),
        old(visitor).keeps_entries() ==> final(pd)@ == old(pd)@,
{
    let found = pd.copy();
    visit_table(visitor, Level::Pd, &found, pd)
}

/// Walks below one page-directory entry, descending into the leaf page table it points
/// to: a 2 MiB page ends the branch.
pub fn visit_mut_pd_entry<V: PageTableVisitMut>(visitor: &mut V, entry: &mut PageTableEntry) -> (r: Result<(), WalkError>)
    ensures
        final(visitor).trace() == old(visitor).trace() + walk_entry(Level::Pd, *old(entry), old(visitor).memory()).0,
        r == walk_entry(Level::Pd, *old(entry), old(visitor).memory()).1,
        final(visitor).memory() == old(visitor).memory(),
        final(visitor).keeps_entries() == old(visitor).keeps_entries(),
        *final(entry) == *old(entry),
{
    let found = *entry;
    visit_entry(visitor, Level::Pd, &found)
}

/// Walks a leaf page table.
pub fn visit_mut_pt<V: PageTableVisitMut>(visitor: &mut V, pt: &mut PageTable) -> (r: Result<(), WalkError>)
    requires
        old(pt).wf(),
    ensures
        final(pt).wf(),
        final(visitor).trace() == old(visitor).trace() + walk_table(Level::Pt, old(pt)@, old(visitor).memory()).0,
        r == walk_table(Level::Pt, old(pt)@, old(visitor).memory()).1,
        final(visitor).memory() == old(visitor).memory(),
        final(visitor).keeps_entries() == old(visitor).keeps_entries(),
        old(visitor).keeps_entries() ==> final(pt)@ == old(pt)@,
{
    let found = pt.copy();
    visit_table(visitor, Level::Pt, &found, pt)
}

/// Visits one leaf entry, which maps a 4 KiB page and leads nowhere: a huge leaf entry is
/// `WalkError::HugeLeafEntry`.
pub fn visit_mut_pt_entry<V: PageTableVisitMut>(visitor: &mut V, entry: &mut PageTableEntry) -> (r: Result<(), WalkError>)
    ensures
        final(visitor).trace() == old(visitor).trace() + walk_entry(Level::Pt, *old(entry), old(visitor).memory()).0,
        r == walk_entry(Level::Pt, *old(entry), old(visitor).memory()).1,
        final(visitor).memory() == old(visitor).memory(),
        final(visitor).keeps_entries() == old(visitor).keeps_entries(),
        *final(entry) == *old(entry),
{
    let found = *entry;
    visit_entry(visitor, Level::Pt, &found)
}

} // verus!
