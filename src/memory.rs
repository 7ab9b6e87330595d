//! A physical memory that holds page tables by frame.

use vstd::prelude::*;
use crate::entry::{PageTableEntry, PhysFrame};
use crate::table::{PageTable, ENTRY_COUNT};

verus! {

/// The table whose entries all map nothing.
pub open spec fn empty_table() -> Seq<PageTableEntry> {
    Seq::new(ENTRY_COUNT as nat, |i: int| PageTableEntry { entry: 0 })
}

/// The slot of the last frame equal to `f`, or -1 when there is none.
pub open spec fn slot_of(frames: Seq<PhysFrame>, f: PhysFrame) -> int
    decreases frames.len(),
{
    if frames.len() == 0 {
        -1
    } else if frames.last() == f {
        frames.len() - 1
    } else {
        slot_of(frames.drop_last(), f)
    }
}

/// Frames and the tables they hold, side by side.
pub struct PhysMemory {
    frames: Vec<PhysFrame>,
    tables: Vec<PageTable>,
}

impl PhysMemory {
    pub closed spec fn frames(&self) -> Seq<PhysFrame> {
        self.frames@
    }

    /// The table stored for slot `i`.
    pub closed spec fn stored(&self, i: int) -> Seq<PageTableEntry> {
        self.tables@[i]@
    }

    #[verifier::type_invariant]
    spec fn inv(&self) -> bool {
        self.frames@.len() == self.tables@.len()
    }

    /// The table frame `f` holds: the last one stored for it when it has `ENTRY_COUNT`
    /// entries, else a table that maps nothing.
    pub open spec fn table_of(&self, f: PhysFrame) -> Seq<PageTableEntry> {
        let i = slot_of(self.frames(), f);
        if i >= 0 && self.stored(i).len() == ENTRY_COUNT {
            self.stored(i)
        } else {
            empty_table()
        }
    }

    /// A memory in which every frame holds a table that maps nothing.
    pub fn new() -> (r: PhysMemory)
        ensures
            r.frames().len() == 0,
    {
        PhysMemory { frames: Vec::new(), tables: Vec::new() }
    }

    /// This memory with `t` stored as the table that frame `f` holds.
    pub fn with_table(self, f: PhysFrame, t: PageTable) -> (r: PhysMemory)
        ensures
            forall|g: PhysFrame| g != f ==> #[trigger] r.table_of(g) == self.table_of(g),
            t.wf() ==> r.table_of(f) == t@,
    {
        proof {
            use_type_invariant(&self);
        }
        let ghost t_view = t@;
        let ghost old_frames = self.frames@;
        let ghost old_tables = self.tables@;
        let PhysMemory { mut frames, mut tables } = self;
        frames.push(f);
        tables.push(t);
        let r = PhysMemory { frames, tables };
        let ghost n = r.frames@.len() - 1;
        assert(r.frames@.drop_last() =~= old_frames);
        assert forall|g: PhysFrame| g != f implies #[trigger] r.table_of(g) == self.table_of(g) by {
            let i = slot_of(old_frames, g);
            lemma_slot_bound(old_frames, g);
            if i >= 0 {
                assert(r.tables@[i] == old_tables[i]);
            }
        }
        assert(r.stored(n) == t_view);
        r
    }

    /// A copy of the table frame `f` holds.
    pub fn table_at(&self, f: PhysFrame) -> (r: PageTable)
        ensures
            r.wf(),
            r@ == self.table_of(f),
    {
        proof {
            use_type_invariant(self);
        }
        let mut i: usize = self.frames.len();
        assert(self.frames@.take(i as int) =~= self.frames@);
        while i > 0
            invariant
                i <= self.frames@.len(),
                self.frames@.len() == self.tables@.len(),
                slot_of(self.frames@, f) == slot_of(self.frames@.take(i as int), f),
            decreases i,
        {
            assert(self.frames@.take(i as int).drop_last() =~= self.frames@.take(i - 1));
            if self.frames[i - 1] == f {
                let found = &self.tables[i - 1];
                if found.entries.len() == ENTRY_COUNT {
                    return found.copy();
                } else {
                    let r = PageTable::new();
                    assert(r@ =~= empty_table());
                    return r;
                }
            }
            i = i - 1;
        }
        assert(self.frames@.take(0) =~= Seq::<PhysFrame>::empty());
        let r = PageTable::new();
        assert(r@ =~= empty_table());
        r
    }
}

/// A slot is -1 or an index of `frames`.
pub proof fn lemma_slot_bound(frames: Seq<PhysFrame>, f: PhysFrame)
    ensures
        -1 <= slot_of(frames, f) < frames.len(),
        slot_of(frames, f) >= 0 ==> frames[slot_of(frames, f)] == f,
    decreases frames.len(),
{
    if frames.len() > 0 {
        lemma_slot_bound(frames.drop_last(), f);
    }
}

} // verus!
