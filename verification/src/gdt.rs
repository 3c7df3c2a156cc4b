//! Segment selectors and the layout of the global descriptor table.

use vstd::prelude::*;

verus! {

/// Size of the stack that interrupts switch to: 20 KiB.
pub const STACK_SIZE: usize = 20480;

/// Interrupt-stack-table index for double faults.
pub const DOUBLE_FAULT_IST_INDEX: u16 = 0;

/// Interrupt-stack-table index for page faults.
pub const PAGE_FAULT_IST_INDEX: u16 = 1;

/// Interrupt-stack-table index for general protection faults.
pub const GENERAL_PROTECTION_FAULT_IST_INDEX: u16 = 2;

/// Number of slots in the descriptor table.
pub const GDT_SLOTS: u16 = 8;

/// A segment selector: a table index in the upper thirteen bits, the
/// requested privilege level in the lowest two.
#[derive(Debug, Clone, Copy, PartialEq, Eq, Structural)]
pub struct SegmentSelector(pub u16);

impl SegmentSelector {
    /// The selector for table index `index` at privilege level `rpl`.
    pub fn new(index: u16, rpl: u16) -> (s: SegmentSelector)
        requires
            index < 8192,
            rpl < 4,
        ensures
            s.0 == index * 8 + rpl,
            s.0 == index << 3 | rpl,
    {
        assert(index < 8192 && rpl < 4 ==> (index << 3 | rpl) == index * 8 + rpl) by (bit_vector);
        SegmentSelector(index << 3 | rpl)
    }

    /// The table index.
    pub fn index(self) -> (i: u16)
        ensures
            i == self.0 / 8,
    {
        let v: u16 = self.0;
        assert(v >> 3 == v / 8) by (bit_vector);
        v >> 3
    }

    /// The requested privilege level.
    pub fn rpl(self) -> (r: u16)
        ensures
            r == self.0 % 8 % 4,
            r < 4,
    {
        let v: u16 = self.0;
        assert(v & 3 == v % 8 % 4) by (bit_vector);
        v & 3
    }
}

/// The kinds of segment that the kernel's table holds.
#[derive(Debug, Clone, Copy, PartialEq, Eq, Structural)]
pub enum Descriptor {
    KernelCode,
    KernelData,
    /// The task-state segment, a system segment that takes two slots.
    Tss,
    UserData,
    UserCode,
}

impl Descriptor {
    /// Number of table slots that the descriptor takes.
    pub open spec fn slots(self) -> int {
        if self == Descriptor::Tss {
            2
        } else {
            1
        }
    }

    /// Privilege level of the segment: ring 3 for user segments, ring 0 for
    /// the others.
    pub open spec fn dpl(self) -> int {
        if self == Descriptor::UserData || self == Descriptor::UserCode {
            3
        } else {
            0
        }
    }
}

/// How far a descriptor table is filled. Slot 0 holds the null descriptor.
#[derive(Debug, Clone, Copy, PartialEq, Eq, Structural)]
pub struct GlobalDescriptorTable {
    pub len: u16,
}

impl GlobalDescriptorTable {
    /// A table that holds the null descriptor only.
    pub fn new() -> (t: GlobalDescriptorTable)
        ensures
            t.len == 1,
    {
        GlobalDescriptorTable { len: 1 }
    }

    /// Adds a descriptor in the next free slots and returns its selector,
    /// or `None` when the table has too few slots left.
    pub fn add_entry(&mut self, entry: Descriptor) -> (s: Option<SegmentSelector>)
        requires
            old(self).len <= GDT_SLOTS,
        ensures
            final(self).len <= GDT_SLOTS,
            old(self).len + entry.slots() <= GDT_SLOTS ==> s == Some(
                SegmentSelector((old(self).len * 8 + entry.dpl()) as u16),
            ) && final(self).len == old(self).len + entry.slots(),
            old(self).len + entry.slots() > GDT_SLOTS ==> s is None
                && final(self).len == old(self).len,
    {
        let slots: u16 = match entry {
            Descriptor::Tss => 2,
            _ => 1,
        };
        let dpl: u16 = match entry {
            Descriptor::UserData => 3,
            Descriptor::UserCode => 3,
            _ => 0,
        };
        if self.len + slots > GDT_SLOTS {
            return None;
        }
        let index: u16 = self.len;
        self.len = self.len + slots;
        Some(SegmentSelector::new(index, dpl))
    }
}

/// The selectors of the kernel's segments.
#[derive(Debug, Clone, Copy, PartialEq, Eq, Structural)]
pub struct Selectors {
    pub kernel_code: SegmentSelector,
    pub kernel_data: SegmentSelector,
    pub tss: SegmentSelector,
    pub user_data: SegmentSelector,
    pub user_code: SegmentSelector,
}

/// Selector of the kernel's code segment.
pub const KERNEL_CODE: u16 = 0x08;

/// Selector of the kernel's data segment.
pub const KERNEL_DATA: u16 = 0x10;

/// Selector of the task-state segment.
pub const TSS: u16 = 0x18;

/// Selector of the user data segment, at ring 3.
pub const USER_DATA: u16 = 0x2B;

/// Selector of the user code segment, at ring 3.
pub const USER_CODE: u16 = 0x33;

/// Lays out the kernel's table: kernel code, kernel data, the task-state
/// segment, user data, user code, in this order after the null descriptor.
pub fn init() -> (r: (GlobalDescriptorTable, Selectors))
    ensures
        r.0.len == 7,
        r.1 == (Selectors {
            kernel_code: SegmentSelector(KERNEL_CODE),
            kernel_data: SegmentSelector(KERNEL_DATA),
            tss: SegmentSelector(TSS),
            user_data: SegmentSelector(USER_DATA),
            user_code: SegmentSelector(USER_CODE),
        }),
{
    let mut gdt = GlobalDescriptorTable::new();
    let kernel_code = gdt.add_entry(Descriptor::KernelCode);
    let kernel_data = gdt.add_entry(Descriptor::KernelData);
    let tss = gdt.add_entry(Descriptor::Tss);
    let user_data = gdt.add_entry(Descriptor::UserData);
    let user_code = gdt.add_entry(Descriptor::UserCode);
    (
        gdt,
        Selectors {
            kernel_code: kernel_code.unwrap(),
            kernel_data: kernel_data.unwrap(),
            tss: tss.unwrap(),
            user_data: user_data.unwrap(),
            user_code: user_code.unwrap(),
        },
    )
}

/// The two selector bases for the `STAR` register: the one that `sysret`
/// derives the user segments from (user data is eight above it, user code
/// sixteen), and the one that `syscall` derives the kernel segments from
/// (kernel code is the base itself, kernel data eight above it).
pub fn star_bases(selectors: &Selectors) -> (bases: (u16, u16))
    requires
        selectors.user_data.0 >= 8,
    ensures
        bases.0 == selectors.user_data.0 - 8,
        bases.1 == selectors.kernel_code.0,
{
    (selectors.user_data.0 - 8, selectors.kernel_code.0)
}

/// With the kernel's table, `STAR` gets 35 and 8, and the segments that
/// the CPU derives from them are the table's.
pub proof fn lemma_star_matches_table()
    ensures
        USER_DATA - 8 == 35,
        35 + 8 == USER_DATA,
        35 + 16 == USER_CODE,
        KERNEL_CODE == 8,
        8 + 8 == KERNEL_DATA,
{
}

} // verus!
