//! Page-table entries, physical addresses and frames.

use vstd::prelude::*;

verus! {

/// Bit set in an entry whose frame is mapped.
pub const PRESENT_BIT: u64 = 1;

/// Bit set in an entry that maps a huge page instead of a child table.
pub const HUGE_PAGE_BIT: u64 = 0x80;

/// Bits of an entry that hold the physical address of its frame.
pub const ADDR_MASK: u64 = 0x000f_ffff_ffff_f000;

/// A physical memory address.
#[derive(Clone, Copy, Debug, PartialEq, Eq, Structural)]
pub struct PhysAddr {
    pub addr: u64,
}

/// A 4 KiB physical frame, named by its start address.
#[derive(Clone, Copy, Debug, PartialEq, Eq, Structural)]
pub struct PhysFrame {
    pub start: u64,
}

impl PhysFrame {
    /// The address of the first byte of the frame.
    pub fn start_address(&self) -> (r: PhysAddr)
        ensures
            r.addr == self.start,
    {
        PhysAddr { addr: self.start }
    }
}

/// Why an entry does not point to a frame of the next level.
#[derive(Clone, Copy, Debug, PartialEq, Eq, Structural)]
pub enum FrameError {
    /// Nothing is mapped by the entry.
    FrameNotPresent,
    /// The entry maps a huge page.
    HugeFrame,
}

/// One slot of a page table, as its raw 64-bit value.
#[derive(Clone, Copy, Debug, PartialEq, Eq, Structural)]
pub struct PageTableEntry {
    pub entry: u64,
}

impl PageTableEntry {
    pub open spec fn spec_present(self) -> bool {
        self.entry & PRESENT_BIT != 0
    }

    pub open spec fn spec_huge(self) -> bool {
        self.entry & HUGE_PAGE_BIT != 0
    }

    /// What the entry points to: a frame, or why it points to none.
    pub open spec fn spec_frame(self) -> Result<PhysFrame, FrameError> {
        if !self.spec_present() {
            Err(FrameError::FrameNotPresent)
        } else if self.spec_huge() {
            Err(FrameError::HugeFrame)
        } else {
            Ok(PhysFrame { start: self.entry & ADDR_MASK })
        }
    }

    /// An entry that maps nothing.
    pub fn unused() -> (r: PageTableEntry)
        ensures
            r.entry == 0,
            r.spec_frame() == Err::<PhysFrame, FrameError>(FrameError::FrameNotPresent),
    {
        proof {
            assert(0u64 & PRESENT_BIT == 0) by (bit_vector);
        }
        PageTableEntry { entry: 0 }
    }

    /// An entry built from its raw value.
    pub fn new(entry: u64) -> (r: PageTableEntry)
        ensures
            r.entry == entry,
    {
        PageTableEntry { entry }
    }

    pub fn is_present(&self) -> (r: bool)
        ensures
            r == self.spec_present(),
    {
        self.entry & PRESENT_BIT != 0
    }

    pub fn is_huge(&self) -> (r: bool)
        ensures
            r == self.spec_huge(),
    {
        self.entry & HUGE_PAGE_BIT != 0
    }

    /// The physical address stored in the entry.
    pub fn addr(&self) -> (r: PhysAddr)
        ensures
            r.addr == self.entry & ADDR_MASK,
    {
        PhysAddr { addr: self.entry & ADDR_MASK }
    }

    /// The frame the entry points to: absent entries and huge pages give an error.
    pub fn frame(&self) -> (r: Result<PhysFrame, FrameError>)
        ensures
            r == self.spec_frame(),
    {
        if !self.is_present() {
            Err(FrameError::FrameNotPresent)
        } else if self.is_huge() {
            Err(FrameError::HugeFrame)
        } else {
            Ok(PhysFrame { start: self.addr().addr })
        }
    }
}

} // verus!
