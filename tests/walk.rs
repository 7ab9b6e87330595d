use paging_visitor::entry::{FrameError, PageTableEntry, PhysFrame};
use paging_visitor::memory::PhysMemory;
use paging_visitor::recorder::{Recorder, RecorderMut};
use paging_visitor::table::{PageTable, ENTRY_COUNT};
use paging_visitor::visit::{visit_pd_entry, visit_pml4, visit_pml4_entry, visit_pt, visit_pt_entry};
use paging_visitor::visit_mut::{visit_mut_pml4, visit_mut_pt_entry};
use paging_visitor::walk::{step, Level, Step, Visit, WalkError};

const PRESENT: u64 = 1;
const HUGE: u64 = 0x80;

fn table_with(slots: &[(usize, u64)]) -> PageTable {
    let mut t = PageTable::new();
    for &(i, raw) in slots {
        t.set(i, PageTableEntry::new(raw));
    }
    t
}

fn frame(start: u64) -> PhysFrame {
    PhysFrame { start }
}

fn count(log: &[Visit], pred: impl Fn(&Visit) -> bool) -> usize {
    log.iter().filter(|v| pred(v)).count()
}

fn entries_at(log: &[Visit], level: Level) -> usize {
    count(log, |v| matches!(v, Visit::Entry(l, _) if *l == level))
}

fn tables_at(log: &[Visit], level: Level) -> usize {
    count(log, |v| matches!(v, Visit::Table(l, _) if *l == level))
}

fn resolves(log: &[Visit]) -> usize {
    count(log, |v| matches!(v, Visit::Resolve(_)))
}

/// Root 0x1000 -> entry 1 -> PDPT at 0x2000 -> entry 2 -> PD at 0x3000
/// -> entry 3 -> PT at 0x4000 -> entry 4 maps a 4 KiB page.
fn four_levels() -> (PageTable, PhysMemory) {
    let pml4 = table_with(&[(1, 0x2000 | PRESENT)]);
    let memory = PhysMemory::new()
        .with_table(frame(0x2000), table_with(&[(2, 0x3000 | PRESENT)]))
        .with_table(frame(0x3000), table_with(&[(3, 0x4000 | PRESENT)]))
        .with_table(frame(0x4000), table_with(&[(4, 0x9000 | PRESENT)]));
    (pml4, memory)
}

#[test]
fn end_to_end_huge_1gib_page() {
    let pml4 = table_with(&[(0, 0x5000 | PRESENT)]);
    let pdpt = table_with(&[(5, 0x4000_0000 | HUGE | PRESENT)]);
    let mut rec = Recorder::new(PhysMemory::new().with_table(frame(0x5000), pdpt));
    assert_eq!(visit_pml4(&mut rec, &pml4), Ok(()));
    let log = rec.visits();
    assert_eq!(entries_at(log, Level::Pml4), 512);
    assert_eq!(tables_at(log, Level::Pdpt), 1);
    assert_eq!(entries_at(log, Level::Pdpt), 512);
    assert_eq!(tables_at(log, Level::Pd), 0);
    assert_eq!(tables_at(log, Level::Pt), 0);
    assert_eq!(resolves(log), 1);
}

#[test]
fn absent_table_fires_entry_hook_per_slot() {
    let t = PageTable::new();
    let mut rec = Recorder::new(PhysMemory::new());
    assert_eq!(visit_pml4(&mut rec, &t), Ok(()));
    let log = rec.visits();
    assert_eq!(log.len(), ENTRY_COUNT);
    assert_eq!(entries_at(log, Level::Pml4), 512);
    assert_eq!(
        tables_at(log, Level::Pml4) + tables_at(log, Level::Pdpt) + tables_at(log, Level::Pd) + tables_at(log, Level::Pt),
        0
    );
    assert_eq!(resolves(log), 0);

    let mut t = PageTable::new();
    let mut rec = RecorderMut::new(PhysMemory::new());
    assert_eq!(visit_mut_pml4(&mut rec, &mut t), Ok(()));
    assert_eq!(entries_at(rec.visits(), Level::Pml4), 512);
    assert_eq!(rec.visits().len(), ENTRY_COUNT);
    assert!(t.entries.iter().all(|e| e.entry == 0));

    // The same holds at the leaf level: no table hook of any level fires.
    let t = PageTable::new();
    let mut rec = Recorder::new(PhysMemory::new());
    assert_eq!(visit_pt(&mut rec, &t), Ok(()));
    assert_eq!(rec.visits().len(), ENTRY_COUNT);
    assert_eq!(entries_at(rec.visits(), Level::Pt), 512);
}

#[test]
fn entries_visited_in_index_order() {
    // Absent entries that differ in their address bits, so each slot is recognisable.
    let mut t = PageTable::new();
    for i in 0..ENTRY_COUNT {
        t.set(i, PageTableEntry::new((i as u64) << 12));
    }
    let mut rec = Recorder::new(PhysMemory::new());
    assert_eq!(visit_pt(&mut rec, &t), Ok(()));
    let seen: Vec<u64> = rec
        .visits()
        .iter()
        .filter_map(|v| match v {
            Visit::Entry(Level::Pt, e) => Some(e.entry >> 12),
            _ => None,
        })
        .collect();
    let expected: Vec<u64> = (0..ENTRY_COUNT as u64).collect();
    assert_eq!(seen, expected);
}

#[test]
fn present_entry_resolves_once_before_descent() {
    let pml4 = table_with(&[(3, 0x7000 | PRESENT)]);
    let pdpt = table_with(&[(9, 0x8000)]);
    let mut rec = Recorder::new(PhysMemory::new().with_table(frame(0x7000), pdpt));
    assert_eq!(visit_pml4(&mut rec, &pml4), Ok(()));
    let log = rec.visits();
    let at = log
        .iter()
        .position(|v| *v == Visit::Entry(Level::Pml4, PageTableEntry::new(0x7000 | PRESENT)))
        .unwrap();
    assert_eq!(log[at + 1], Visit::Resolve(frame(0x7000)));
    assert!(matches!(&log[at + 2], Visit::Table(Level::Pdpt, entries) if entries[9].entry == 0x8000));
    // The PDPT hooks saw the table the resolver gave.
    assert_eq!(log[at + 3 + 9], Visit::Entry(Level::Pdpt, PageTableEntry::new(0x8000)));
    assert_eq!(resolves(log), 1);
}

#[test]
fn huge_pdpt_and_pd_entries_end_branch() {
    let pml4 = table_with(&[(0, 0x2000 | PRESENT)]);
    let memory = PhysMemory::new()
        .with_table(frame(0x2000), table_with(&[(0, 0x4000_0000 | HUGE | PRESENT), (1, 0x3000 | PRESENT)]))
        .with_table(frame(0x3000), table_with(&[(7, 0x20_0000 | HUGE | PRESENT)]));
    let mut rec = Recorder::new(memory);
    assert_eq!(visit_pml4(&mut rec, &pml4), Ok(()));
    let log = rec.visits();
    assert_eq!(resolves(log), 2);
    assert_eq!(tables_at(log, Level::Pd), 1);
    assert_eq!(tables_at(log, Level::Pt), 0);

    let mut rec = Recorder::new(PhysMemory::new());
    assert_eq!(visit_pd_entry(&mut rec, &PageTableEntry::new(0x20_0000 | HUGE | PRESENT)), Ok(()));
    assert_eq!(rec.visits().len(), 0);
}

#[test]
fn huge_pml4_entry_is_unsupported() {
    let pml4 = table_with(&[(2, 0x1000 | HUGE | PRESENT), (3, 0x2000 | PRESENT)]);
    let mut rec = Recorder::new(PhysMemory::new());
    assert_eq!(visit_pml4(&mut rec, &pml4), Err(WalkError::UnsupportedPageSize));
    let log = rec.visits();
    assert_eq!(resolves(log), 0);
    // The walk stopped at the failing entry: slots 0, 1 and 2 only.
    assert_eq!(entries_at(log, Level::Pml4), 3);

    let mut rec = Recorder::new(PhysMemory::new());
    assert_eq!(
        visit_pml4_entry(&mut rec, &PageTableEntry::new(0x1000 | HUGE | PRESENT)),
        Err(WalkError::UnsupportedPageSize)
    );
}

#[test]
fn huge_pt_entry_is_invariant_violation() {
    let mut rec = Recorder::new(PhysMemory::new());
    assert_eq!(
        visit_pt_entry(&mut rec, &PageTableEntry::new(0x5000 | HUGE | PRESENT)),
        Err(WalkError::HugeLeafEntry)
    );
    let mut rec = RecorderMut::new(PhysMemory::new());
    let mut e = PageTableEntry::new(0x5000 | HUGE | PRESENT);
    assert_eq!(visit_mut_pt_entry(&mut rec, &mut e), Err(WalkError::HugeLeafEntry));

    // Reached through the hierarchy, the failure comes back to the root walk.
    let pml4 = table_with(&[(0, 0x2000 | PRESENT)]);
    let memory = PhysMemory::new()
        .with_table(frame(0x2000), table_with(&[(0, 0x3000 | PRESENT)]))
        .with_table(frame(0x3000), table_with(&[(0, 0x4000 | PRESENT)]))
        .with_table(frame(0x4000), table_with(&[(6, 0x9000 | HUGE | PRESENT)]));
    let mut rec = Recorder::new(memory);
    assert_eq!(visit_pml4(&mut rec, &pml4), Err(WalkError::HugeLeafEntry));
    assert_eq!(entries_at(rec.visits(), Level::Pt), 7);
    assert_eq!(entries_at(rec.visits(), Level::Pml4), 1);
}

#[test]
fn engines_visit_same_entries() {
    let (pml4, memory) = four_levels();
    let mut rec = Recorder::new(memory);
    assert_eq!(visit_pml4(&mut rec, &pml4), Ok(()));

    let (mut pml4_mut, memory) = four_levels();
    let mut rec_mut = RecorderMut::new(memory);
    assert_eq!(visit_mut_pml4(&mut rec_mut, &mut pml4_mut), Ok(()));

    assert_eq!(rec.visits(), rec_mut.visits());
    assert_eq!(rec.visits().len(), 3 + 4 * 512 + 3);
}

#[test]
fn pd_entry_descends_into_leaf_table() {
    let (pml4, memory) = four_levels();
    let mut rec = Recorder::new(memory);
    assert_eq!(visit_pml4(&mut rec, &pml4), Ok(()));
    let log = rec.visits();
    assert_eq!(tables_at(log, Level::Pd), 1);
    assert_eq!(tables_at(log, Level::Pt), 1);
    assert_eq!(entries_at(log, Level::Pt), 512);
    assert_eq!(resolves(log), 3);
}

#[test]
fn entry_step_calls_only_resolver_then_next_table_hook() {
    let pdpt = table_with(&[(0, 0x8000)]);
    let mut rec = Recorder::new(PhysMemory::new().with_table(frame(0x7000), pdpt));
    assert_eq!(visit_pml4_entry(&mut rec, &PageTableEntry::new(0x7000 | PRESENT)), Ok(()));
    let log = rec.visits();
    assert_eq!(log[0], Visit::Resolve(frame(0x7000)));
    assert!(matches!(&log[1], Visit::Table(Level::Pdpt, _)));
    assert_eq!(log.len(), 2 + 512);
    assert_eq!(entries_at(log, Level::Pml4), 0);

    let mut rec = Recorder::new(PhysMemory::new());
    assert_eq!(visit_pml4_entry(&mut rec, &PageTableEntry::unused()), Ok(()));
    assert_eq!(rec.visits().len(), 0);
}

#[test]
fn missing_frame_resolves_to_empty_table() {
    let pml4 = table_with(&[(0, 0xa000 | PRESENT)]);
    let mut rec = Recorder::new(PhysMemory::new());
    assert_eq!(visit_pml4(&mut rec, &pml4), Ok(()));
    assert_eq!(entries_at(rec.visits(), Level::Pdpt), 512);
    assert_eq!(tables_at(rec.visits(), Level::Pd), 0);
}

#[test]
fn later_table_for_a_frame_replaces_earlier() {
    let memory = PhysMemory::new()
        .with_table(frame(0x2000), table_with(&[(0, 0x3000 | PRESENT)]))
        .with_table(frame(0x2000), PageTable::new());
    let t = memory.table_at(frame(0x2000));
    assert_eq!(t.get(0), PageTableEntry::unused());
}

#[test]
fn entry_frame_classification() {
    assert_eq!(PageTableEntry::new(0).frame(), Err(FrameError::FrameNotPresent));
    assert_eq!(PageTableEntry::new(0x3000 | HUGE).frame(), Err(FrameError::FrameNotPresent));
    assert_eq!(PageTableEntry::new(0x3000 | HUGE | PRESENT).frame(), Err(FrameError::HugeFrame));
    assert_eq!(PageTableEntry::new(0x8000_0000_0000_3067).frame(), Ok(frame(0x3000)));
    assert_eq!(PageTableEntry::new(0x3001).addr().addr, 0x3000);
    assert_eq!(frame(0x3000).start_address().addr, 0x3000);
}

#[test]
fn step_policy_per_level() {
    let table = PageTableEntry::new(0x3000 | PRESENT);
    let huge = PageTableEntry::new(0x3000 | HUGE | PRESENT);
    let absent = PageTableEntry::unused();
    assert_eq!(step(Level::Pml4, &table), Step::Descend(frame(0x3000)));
    assert_eq!(step(Level::Pd, &table), Step::Descend(frame(0x3000)));
    assert_eq!(step(Level::Pt, &table), Step::Stop);
    assert_eq!(step(Level::Pml4, &huge), Step::Fail(WalkError::UnsupportedPageSize));
    assert_eq!(step(Level::Pdpt, &huge), Step::Stop);
    assert_eq!(step(Level::Pd, &huge), Step::Stop);
    assert_eq!(step(Level::Pt, &huge), Step::Fail(WalkError::HugeLeafEntry));
    for level in [Level::Pml4, Level::Pdpt, Level::Pd, Level::Pt] {
        assert_eq!(step(level, &absent), Step::Stop);
    }
    assert_eq!(Level::Pd.child(), Level::Pt);
}

#[test]
fn table_copy_and_set() {
    let mut t = PageTable::new();
    t.set(511, PageTableEntry::new(0x1234_5001));
    let c = t.copy();
    assert_eq!(c.get(511).entry, 0x1234_5001);
    assert_eq!(c.get(0).entry, 0);
    assert_eq!(c.entries.len(), ENTRY_COUNT);
}

#[test]
fn mutable_walk_leaves_tables_unchanged() {
    let mut pml4 = table_with(&[(0, 0x5000 | PRESENT), (9, 0x6000)]);
    let before: Vec<u64> = (0..ENTRY_COUNT).map(|i| pml4.get(i).entry).collect();
    let pdpt = table_with(&[(5, 0x4000_0000 | HUGE | PRESENT)]);
    let mut rec = RecorderMut::new(PhysMemory::new().with_table(frame(0x5000), pdpt));
    assert_eq!(visit_mut_pml4(&mut rec, &mut pml4), Ok(()));
    let after: Vec<u64> = (0..ENTRY_COUNT).map(|i| pml4.get(i).entry).collect();
    assert_eq!(before, after);
    assert_eq!(entries_at(rec.visits(), Level::Pdpt), 512);
    assert_eq!(resolves(rec.visits()), 1);

    let mut e = PageTableEntry::new(0x20_0000 | HUGE | PRESENT);
    let mut rec = RecorderMut::new(PhysMemory::new());
    assert_eq!(paging_visitor::visit_mut::visit_mut_pd_entry(&mut rec, &mut e), Ok(()));
    assert_eq!(e, PageTableEntry::new(0x20_0000 | HUGE | PRESENT));
    assert_eq!(rec.visits().len(), 0);
}
