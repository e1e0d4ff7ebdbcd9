//! The segment descriptor table and the task-state structure that reserves
//! a stack for double-fault recovery.
//!
//! Both structures are those of the `x86_64` crate, built here and handed to
//! the kernel, which gives them a fixed place in memory and loads them into
//! the CPU.

use vstd::prelude::*;
use x86_64::structures::gdt::Descriptor;
use x86_64::structures::gdt::GlobalDescriptorTable;
use x86_64::structures::tss::TaskStateSegment;
use x86_64::VirtAddr;

verus! {

/// The slot of the interrupt stack table that holds the double-fault stack.
pub const DOUBLE_FAULT_IST_INDEX: u16 = 0;

/// The size of the double-fault stack in bytes.
pub const FAULT_STACK_SIZE: usize = 4096 * 5;

/// The number of slots in the interrupt stack table.
pub const INTERRUPT_STACKS: usize = 7;

/// The number of 64-bit words a descriptor table can hold.
pub const TABLE_CAPACITY: usize = 8;

/// The descriptor of the kernel's 64-bit code segment.
pub const KERNEL_CODE_SEGMENT: u64 = 0x00af_9b00_0000_ffff;

/// The selector of the kernel's code segment: entry 1, ring 0.
pub const CODE_SELECTOR: u16 = 8;

/// The selector of the task-state segment: entry 2, ring 0.
pub const TSS_SELECTOR: u16 = 16;

/// A segment descriptor as the words that go into the table.
#[derive(Debug, Clone, Copy, PartialEq, Eq, Structural)]
pub enum SegmentDescriptor {
    /// A code or data segment: one word.
    User(u64),
    /// A system segment: a low and a high word.
    System(u64, u64),
}

impl SegmentDescriptor {
    /// The words of the descriptor, in table order.
    pub open spec fn words(self) -> Seq<u64> {
        match self {
            SegmentDescriptor::User(word) => seq![word],
            SegmentDescriptor::System(low, high) => seq![low, high],
        }
    }

    /// The word that holds the descriptor's privilege level.
    pub open spec fn low(self) -> u64 {
        match self {
            SegmentDescriptor::User(word) => word,
            SegmentDescriptor::System(low, high) => low,
        }
    }

    /// The second word of a system segment's descriptor.
    pub open spec fn high(self) -> u64 {
        match self {
            SegmentDescriptor::User(word) => 0,
            SegmentDescriptor::System(low, high) => high,
        }
    }

    /// The selector of the descriptor when it starts at `index`: the index
    /// above the descriptor's privilege level, which takes the low three
    /// bits.
    pub open spec fn selector(self, index: nat) -> u16 {
        ((index as u16) << 3) | (((self.low() >> 45) & 3) as u16)
    }
}

/// The selectors of the two segments in the kernel's descriptor table.
#[derive(Debug, Clone, Copy, PartialEq, Eq, Structural)]
pub struct Selectors {
    pub code_selector: u16,
    pub tss_selector: u16,
}

/// Whether an address is canonical as it stands: bits 47 to 63 are all 0 or
/// all 1, so that it lies in the lower or in the upper half of the address
/// space.
pub open spec fn canonical(addr: u64) -> bool {
    addr < 0x0000_8000_0000_0000 || addr >= 0xffff_8000_0000_0000
}

/// Whether two words describe an available 64-bit task-state segment that
/// is present, belongs to ring 0 and has the size of the task-state
/// structure.
pub open spec fn describes_task_state(low: u64, high: u64) -> bool {
    &&& low & 0x00ff_ff00_0000_ffff == 0x0000_8900_0000_0067
    &&& high >> 32 == 0
}

/// The interrupt stack table that reserves `top` as the double-fault stack
/// and nothing else.
pub open spec fn reserved_stacks(top: u64) -> Seq<u64> {
    Seq::new(
        INTERRUPT_STACKS as nat,
        |slot: int|
            if slot == DOUBLE_FAULT_IST_INDEX {
                top
            } else {
                0
            },
    )
}

/// The words of a descriptor table, the null descriptor first: what
/// `GlobalDescriptorTable::as_raw_slice` returns.
pub uninterp spec fn table_entries(table: GlobalDescriptorTable) -> Seq<u64>;

/// The addresses in a task-state structure's interrupt stack table: its
/// field `interrupt_stack_table`, each address as a number.
pub uninterp spec fn interrupt_stacks(tss: TaskStateSegment) -> Seq<u64>;

/// `x86_64::structures::gdt::GlobalDescriptorTable`, of which the verifier
/// knows the name only.
#[verifier::external_type_specification]
#[verifier::external_body]
pub struct ExGlobalDescriptorTable(GlobalDescriptorTable);

/// `x86_64::structures::tss::TaskStateSegment`, of which the verifier knows
/// the name only.
#[verifier::external_type_specification]
#[verifier::external_body]
pub struct ExTaskStateSegment(TaskStateSegment);

/// `GlobalDescriptorTable::new`: a table that holds the null descriptor
/// only.
#[verifier::external_body]
fn new_table() -> (table: GlobalDescriptorTable)
    ensures
        table_entries(table) == seq![0u64],
{
    GlobalDescriptorTable::new()
}

/// `GlobalDescriptorTable::add_entry`: appends the words of the descriptor
/// and returns the selector of its first word, with the privilege level
/// that the descriptor carries in bits 45 and 46. It panics where the table
/// has no room for the words, which the precondition rules out.
#[verifier::external_body]
fn add_entry(table: &mut GlobalDescriptorTable, entry: SegmentDescriptor) -> (selector: u16)
    requires
        table_entries(*old(table)).len() + entry.words().len() <= TABLE_CAPACITY,
    ensures
        table_entries(*final(table)) == table_entries(*old(table)) + entry.words(),
        selector == entry.selector(table_entries(*old(table)).len()),
{
    let descriptor = match entry {
        SegmentDescriptor::User(word) => Descriptor::UserSegment(word),
        SegmentDescriptor::System(low, high) => Descriptor::SystemSegment(low, high),
    };
    table.add_entry(descriptor).0
}

/// `Descriptor::kernel_code_segment`: the one-word descriptor of a 64-bit
/// ring-0 code segment.
#[verifier::external_body]
fn kernel_code_segment() -> (entry: SegmentDescriptor)
    ensures
        entry == SegmentDescriptor::User(KERNEL_CODE_SEGMENT),
{
    match Descriptor::kernel_code_segment() {
        Descriptor::UserSegment(word) => SegmentDescriptor::User(word),
        Descriptor::SystemSegment(low, high) => SegmentDescriptor::System(low, high),
    }
}

/// `Descriptor::tss_segment`: the two-word descriptor of the task-state
/// structure at the address of `tss`. The base address it holds depends on
/// where the structure lies; the rest is the same for every structure.
#[verifier::external_body]
fn tss_segment(tss: &'static TaskStateSegment) -> (entry: SegmentDescriptor)
    ensures
        entry is System,
        describes_task_state(entry.low(), entry.high()),
{
    match Descriptor::tss_segment(tss) {
        Descriptor::UserSegment(word) => SegmentDescriptor::User(word),
        Descriptor::SystemSegment(low, high) => SegmentDescriptor::System(low, high),
    }
}

/// `TaskStateSegment::new`: a task-state structure whose interrupt stack
/// table holds null addresses.
#[verifier::external_body]
fn new_task_state() -> (tss: TaskStateSegment)
    ensures
        interrupt_stacks(tss) == Seq::new(INTERRUPT_STACKS as nat, |slot: int| 0u64),
{
    TaskStateSegment::new()
}

/// Stores `VirtAddr::new(top)` in one slot of the interrupt stack table.
/// `VirtAddr::new` keeps a canonical address as it is and panics on an
/// address that cannot be made canonical, which the precondition rules out.
#[verifier::external_body]
fn set_interrupt_stack(tss: &mut TaskStateSegment, slot: u16, top: u64)
    requires
        slot < INTERRUPT_STACKS,
        canonical(top),
    ensures
        interrupt_stacks(*final(tss)) == interrupt_stacks(*old(tss)).update(slot as int, top),
{
    tss.interrupt_stack_table[slot as usize] = VirtAddr::new(top);
}

/// Reads one slot of the interrupt stack table with `VirtAddr::as_u64`.
#[verifier::external_body]
fn interrupt_stack(tss: &TaskStateSegment, slot: u16) -> (top: u64)
    requires
        slot < INTERRUPT_STACKS,
    ensures
        top == interrupt_stacks(*tss)[slot as int],
{
    tss.interrupt_stack_table[slot as usize].as_u64()
}

/// The address in one slot of the interrupt stack table, and `None` where
/// the table has no such slot.
pub fn reserved_stack(tss: &TaskStateSegment, slot: u16) -> (top: Option<u64>)
    ensures
        top == if slot < INTERRUPT_STACKS {
            Some(interrupt_stacks(*tss)[slot as int])
        } else {
            None
        },
{
    if (slot as usize) < INTERRUPT_STACKS {
        Some(interrupt_stack(tss, slot))
    } else {
        None
    }
}

/// Whether `addr` is canonical as it stands.
pub fn is_canonical(addr: u64) -> (result: bool)
    ensures
        result == canonical(addr),
{
    addr < 0x0000_8000_0000_0000 || addr >= 0xffff_8000_0000_0000
}

/// Whether a stack that starts at `stack_start` can serve as the
/// double-fault stack: its end is an address, and a canonical one.
pub open spec fn stack_fits(stack_start: u64) -> bool {
    &&& stack_start + FAULT_STACK_SIZE <= u64::MAX
    &&& canonical((stack_start + FAULT_STACK_SIZE) as u64)
}

/// The address just above a stack of [`FAULT_STACK_SIZE`] bytes that starts
/// at `stack_start`: where the stack pointer starts, since stacks grow
/// downwards. `None` where the stack does not fit.
pub fn stack_top(stack_start: u64) -> (top: Option<u64>)
    ensures
        top is Some <==> stack_fits(stack_start),
        top is Some ==> top->0 == stack_start + FAULT_STACK_SIZE,
{
    if stack_start <= u64::MAX - (FAULT_STACK_SIZE as u64) {
        let top: u64 = stack_start + FAULT_STACK_SIZE as u64;
        if is_canonical(top) {
            return Some(top);
        }
    }
    None
}

/// The task-state structure that reserves the stack starting at
/// `stack_start` for double faults: the stack's high end is in slot
/// [`DOUBLE_FAULT_IST_INDEX`], and every other slot is null.
pub fn build_task_state(stack_start: u64) -> (tss: TaskStateSegment)
    requires
        stack_fits(stack_start),
    ensures
        interrupt_stacks(tss) == reserved_stacks((stack_start + FAULT_STACK_SIZE) as u64),
{
    let mut tss = new_task_state();
    let top: u64 = stack_start + FAULT_STACK_SIZE as u64;
    set_interrupt_stack(&mut tss, DOUBLE_FAULT_IST_INDEX, top);
    assert(interrupt_stacks(tss) =~= reserved_stacks(top));
    tss
}

/// [`build_task_state`] where the stack fits, and `None` where it does not.
pub fn try_build_task_state(stack_start: u64) -> (tss: Option<TaskStateSegment>)
    ensures
        tss is Some <==> stack_fits(stack_start),
        tss is Some ==> interrupt_stacks(tss->0) == reserved_stacks(
            (stack_start + FAULT_STACK_SIZE) as u64,
        ),
{
    match stack_top(stack_start) {
        Some(_) => Some(build_task_state(stack_start)),
        None => None,
    }
}

/// The kernel's descriptor table and the selectors into it. The table holds
/// the null descriptor, the kernel's code segment and the descriptor of
/// `tss`, in this order.
pub fn build_descriptor_table(tss: &'static TaskStateSegment) -> (built: (
    GlobalDescriptorTable,
    Selectors,
))
    ensures
        table_entries(built.0).len() == 4,
        table_entries(built.0)[0] == 0,
        table_entries(built.0)[1] == KERNEL_CODE_SEGMENT,
        describes_task_state(table_entries(built.0)[2], table_entries(built.0)[3]),
        built.1 == (Selectors { code_selector: CODE_SELECTOR, tss_selector: TSS_SELECTOR }),
{
    let mut table = new_table();
    let code = kernel_code_segment();
    let task_state = tss_segment(tss);
    let code_selector = add_entry(&mut table, code);
    let tss_selector = add_entry(&mut table, task_state);
    proof {
        let code_word = KERNEL_CODE_SEGMENT;
        assert(((1u16 << 3) | (((code_word >> 45) & 3) as u16)) == 8) by (bit_vector)
            requires
                code_word == 0x00af_9b00_0000_ffffu64,
        ;
        let low = task_state.low();
        assert(((2u16 << 3) | (((low >> 45) & 3) as u16)) == 16) by (bit_vector)
            requires
                low & 0x00ff_ff00_0000_ffff == 0x0000_8900_0000_0067,
        ;
    }
    (table, Selectors { code_selector, tss_selector })
}

} // verus!
