//! Visitors over a `PhysMemory` that keep the standard hooks and log every call.

use vstd::prelude::*;
use crate::entry::{PageTableEntry, PhysAddr, PhysFrame};
use crate::memory::PhysMemory;
use crate::table::PageTable;
use crate::visit::PageTableVisit;
use crate::visit_mut::PageTableVisitMut;
use crate::walk::{Event, Visit};

verus! {

/// The events that a log of visits stands for.
pub open spec fn events_of(log: Seq<Visit>) -> Seq<Event> {
    log.map_values(|v: Visit| v@)
}

/// A read-only visitor over a `PhysMemory` whose trace is its log of visits.
pub struct Recorder {
    memory: PhysMemory,
    log: Vec<Visit>,
}

impl Recorder {
    /// A recorder over `memory` with an empty log.
    pub fn new(memory: PhysMemory) -> (r: Recorder)
        ensures
            r.trace() == Seq::<Event>::empty(),
            r.memory() == (|f: PhysFrame| memory.table_of(f)),
    {
        let r = Recorder { memory, log: Vec::new() };
        assert(events_of(r.log@) =~= Seq::<Event>::empty());
        r
    }

    /// The hook calls and resolutions so far, oldest first: the trace, as values.
    pub fn visits(&self) -> (r: &Vec<Visit>)
        ensures
            events_of(r@) == self.trace(),
    {
        &self.log
    }
}

impl PageTableVisit for Recorder {
    closed spec fn trace(&self) -> Seq<Event> {
        events_of(self.log@)
    }

    closed spec fn memory(&self) -> spec_fn(PhysFrame) -> Seq<PageTableEntry> {
        let m = self.memory;
        |f: PhysFrame| m.table_of(f)
    }

    fn record(&mut self, visit: Visit) {
        let ghost before = self.log@;
        let ghost event = visit@;
        self.log.push(visit);
        assert(events_of(self.log@) =~= events_of(before).push(event));
    }

    fn get_page(&mut self, frame: PhysFrame) -> (r: PageTable) {
        self.record(Visit::Resolve(frame));
        self.memory.table_at(frame)
    }
}

/// A mutable visitor over a `PhysMemory` whose trace is its log of visits; its hooks
/// edit nothing.
pub struct RecorderMut {
    memory: PhysMemory,
    log: Vec<Visit>,
}

impl RecorderMut {
    /// A recorder over `memory` with an empty log.
    pub fn new(memory: PhysMemory) -> (r: RecorderMut)
        ensures
            r.trace() == Seq::<Event>::empty(),
            r.memory() == (|f: PhysFrame| memory.table_of(f)),
            r.keeps_entries(),
    {
        let r = RecorderMut { memory, log: Vec::new() };
        assert(events_of(r.log@) =~= Seq::<Event>::empty());
        r
    }

    /// The hook calls and resolutions so far, oldest first: the trace, as values.
    pub fn visits(&self) -> (r: &Vec<Visit>)
        ensures
            events_of(r@) == self.trace(),
    {
        &self.log
    }
}

impl PageTableVisitMut for RecorderMut {
    closed spec fn trace(&self) -> Seq<Event> {
        events_of(self.log@)
    }

    closed spec fn memory(&self) -> spec_fn(PhysFrame) -> Seq<PageTableEntry> {
        let m = self.memory;
        |f: PhysFrame| m.table_of(f)
    }

    open spec fn keeps_entries(&self) -> bool {
        true
    }

    fn record(&mut self, visit: Visit) {
        let ghost before = self.log@;
        let ghost event = visit@;
        self.log.push(visit);
        assert(events_of(self.log@) =~= events_of(before).push(event));
    }

    fn get_table(&mut self, paddr: PhysAddr) -> (r: PageTable) {
        let frame = PhysFrame { start: paddr.addr };
        self.record(Visit::Resolve(frame));
        self.memory.table_at(frame)
    }

    /// The hooks of this visitor edit nothing, so the table handed back is dropped.
    fn put_table(&mut self, paddr: PhysAddr, table: PageTable) {
    }
}

} // verus!
