//! Page tables of 512 entries.

use vstd::prelude::*;
use crate::entry::PageTableEntry;

verus! {

/// Number of entries in every page table.
pub const ENTRY_COUNT: usize = 512;

/// A page table: an ordered array of `ENTRY_COUNT` entries.
pub struct PageTable {
    pub entries: Vec<PageTableEntry>,
}

impl View for PageTable {
    type V = Seq<PageTableEntry>;

    open spec fn view(&self) -> Seq<PageTableEntry> {
        self.entries@
    }
}

impl PageTable {
    /// A table holds exactly `ENTRY_COUNT` entries.
    pub open spec fn wf(&self) -> bool {
        self@.len() == ENTRY_COUNT
    }

    /// A table whose entries all map nothing.
    pub fn new() -> (r: PageTable)
        ensures
            r.wf(),
            forall|i: int| 0 <= i < ENTRY_COUNT ==> #[trigger] r@[i] == (PageTableEntry { entry: 0 }),
    {
        let mut entries: Vec<PageTableEntry> = Vec::new();
        let mut i: usize = 0;
        while i < ENTRY_COUNT
            invariant
                i <= ENTRY_COUNT,
                entries@.len() == i,
                forall|j: int| 0 <= j < i ==> #[trigger] entries@[j] == (PageTableEntry { entry: 0 }),
            decreases ENTRY_COUNT - i,
        {
            entries.push(PageTableEntry { entry: 0 });
            i = i + 1;
        }
        PageTable { entries }
    }

    /// The entry at `index`.
    pub fn get(&self, index: usize) -> (r: PageTableEntry)
        requires
            index < self@.len(),
        ensures
            r == self@[index as int],
    {
        self.entries[index]
    }

    /// Replaces the entry at `index`, leaving the others as they are.
    pub fn set(&mut self, index: usize, e: PageTableEntry)
        requires
            index < old(self)@.len(),
        ensures
            final(self)@ == old(self)@.update(index as int, e),
    {
        self.entries.set(index, e);
    }

    /// An entry-by-entry copy of the table.
    pub fn copy(&self) -> (r: PageTable)
        ensures
            r@ == self@,
    {
        let mut entries: Vec<PageTableEntry> = Vec::new();
        let mut i: usize = 0;
        while i < self.entries.len()
            invariant
                i <= self@.len(),
                entries@ == self@.take(i as int),
            decreases self@.len() - i,
        {
            entries.push(self.entries[i]);
            i = i + 1;
            assert(entries@ =~= self@.take(i as int));
        }
        assert(entries@ =~= self@);
        PageTable { entries }
    }
}

} // verus!
