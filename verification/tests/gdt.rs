use os_in_rust::gdt::build_descriptor_table;
use os_in_rust::gdt::build_task_state;
use os_in_rust::gdt::is_canonical;
use os_in_rust::gdt::reserved_stack;
use os_in_rust::gdt::stack_top;
use os_in_rust::gdt::try_build_task_state;
use os_in_rust::gdt::Selectors;
use os_in_rust::gdt::CODE_SELECTOR;
use os_in_rust::gdt::DOUBLE_FAULT_IST_INDEX;
use os_in_rust::gdt::FAULT_STACK_SIZE;
use os_in_rust::gdt::INTERRUPT_STACKS;
use os_in_rust::gdt::KERNEL_CODE_SEGMENT;
use os_in_rust::gdt::TSS_SELECTOR;
use x86_64::structures::gdt::Descriptor;
use x86_64::structures::gdt::SegmentSelector;
use x86_64::structures::tss::TaskStateSegment;
use x86_64::PrivilegeLevel;
use x86_64::VirtAddr;

fn leaked(tss: TaskStateSegment) -> &'static TaskStateSegment {
    Box::leak(Box::new(tss))
}

fn stacks_of(tss: &TaskStateSegment) -> Vec<u64> {
    let table = tss.interrupt_stack_table;
    table.iter().map(|address| address.as_u64()).collect()
}

#[test]
fn fault_stack_is_five_pages() {
    assert_eq!(FAULT_STACK_SIZE, 20480);
    assert_eq!(DOUBLE_FAULT_IST_INDEX, 0);
    assert_eq!(INTERRUPT_STACKS, 7);
}

#[test]
fn stack_top_is_the_high_end() {
    assert_eq!(stack_top(0x1000), Some(0x1000 + 20480));
    assert_eq!(stack_top(0), Some(20480));
    assert_eq!(stack_top(0xffff_8000_0000_0000), Some(0xffff_8000_0000_5000));
    assert_eq!(stack_top(0x0000_7fff_ffff_0000 - 20480), Some(0x0000_7fff_ffff_0000));
}

#[test]
fn stack_top_rejects_what_is_no_address() {
    assert_eq!(stack_top(u64::MAX), None);
    assert_eq!(stack_top(u64::MAX - 20479), None);
    assert_eq!(stack_top(0x0000_8000_0000_0000), None);
    assert_eq!(stack_top(0x0000_7fff_ffff_f000), None);
    assert_eq!(stack_top(0x1234_0000_0000_0000), None);
    assert_eq!(stack_top(u64::MAX - 20480), Some(u64::MAX));
}

#[test]
fn canonical_addresses_extend_bit_47() {
    assert!(is_canonical(0));
    assert!(is_canonical(0x0000_7fff_ffff_ffff));
    assert!(is_canonical(0xffff_8000_0000_0000));
    assert!(is_canonical(u64::MAX));
    assert!(!is_canonical(0x0000_8000_0000_0000));
    assert!(!is_canonical(0x8000_0000_0000_0000));
    assert!(!is_canonical(0xfffe_8000_0000_0000));
}

#[test]
fn task_state_reserves_the_double_fault_stack() {
    let tss = build_task_state(0x20_0000);
    let stacks = stacks_of(&tss);
    assert_eq!(stacks.len(), 7);
    assert_eq!(stacks[DOUBLE_FAULT_IST_INDEX as usize], 0x20_0000 + 20480);
    for slot in 1..7 {
        assert_eq!(stacks[slot], 0);
    }
    let high = build_task_state(0xffff_8000_0000_0000);
    assert_eq!(stacks_of(&high)[0], 0xffff_8000_0000_5000);
}

#[test]
fn task_state_is_refused_where_the_stack_does_not_fit() {
    assert!(try_build_task_state(0x0000_7fff_ffff_f000).is_none());
    assert!(try_build_task_state(u64::MAX - 5).is_none());
    let tss = try_build_task_state(0x4000).unwrap();
    assert_eq!(stacks_of(&tss), vec![0x4000 + 20480, 0, 0, 0, 0, 0, 0]);
}

#[test]
fn descriptor_table_holds_code_and_task_state() {
    let tss = leaked(build_task_state(0x20_0000));
    let (table, selectors) = build_descriptor_table(tss);
    let words = table.as_raw_slice();
    assert_eq!(words.len(), 4);
    assert_eq!(words[0], 0);
    assert_eq!(words[1], 0x00af_9b00_0000_ffff);
    assert_eq!(words[1], KERNEL_CODE_SEGMENT);
    assert_eq!(words[2] & 0x00ff_ff00_0000_ffff, 0x0000_8900_0000_0067);
    assert_eq!(words[3] >> 32, 0);
    assert_eq!(selectors, Selectors { code_selector: 8, tss_selector: 16 });
    assert_eq!(CODE_SELECTOR, 8);
    assert_eq!(TSS_SELECTOR, 16);
}

#[test]
fn task_state_descriptor_points_at_the_structure() {
    let tss = leaked(build_task_state(0x20_0000));
    let (table, _) = build_descriptor_table(tss);
    let words = table.as_raw_slice();
    let address = VirtAddr::from_ptr(tss).as_u64();
    let base = ((words[2] >> 16) & 0xff_ffff) | (((words[2] >> 56) & 0xff) << 24) | (words[3] << 32);
    assert_eq!(base, address);
    match Descriptor::tss_segment(tss) {
        Descriptor::SystemSegment(low, high) => {
            assert_eq!(words[2], low);
            assert_eq!(words[3], high);
        }
        Descriptor::UserSegment(_) => panic!("a task-state segment is a system segment"),
    }
}

#[test]
fn selectors_are_those_of_the_outside_table() {
    let tss = leaked(build_task_state(0x20_0000));
    let (_, selectors) = build_descriptor_table(tss);
    assert_eq!(SegmentSelector(selectors.code_selector), SegmentSelector::new(1, PrivilegeLevel::Ring0));
    assert_eq!(SegmentSelector(selectors.tss_selector), SegmentSelector::new(2, PrivilegeLevel::Ring0));
    assert_eq!(SegmentSelector(selectors.code_selector).index(), 1);
    assert_eq!(SegmentSelector(selectors.tss_selector).index(), 2);
}

#[test]
fn reserved_stack_reads_the_slots() {
    let tss = build_task_state(0x20_0000);
    assert_eq!(reserved_stack(&tss, DOUBLE_FAULT_IST_INDEX), Some(0x20_0000 + 20480));
    for slot in 1..7 {
        assert_eq!(reserved_stack(&tss, slot), Some(0));
    }
    assert_eq!(reserved_stack(&tss, 7), None);
    assert_eq!(reserved_stack(&tss, u16::MAX), None);
}
