use simple_os::gdt::{
    init, stack_top, Descriptor, KernelSegments, SegmentTable, Selector, TaskState,
    DOUBLE_FAULT_IST_INDEX, DOUBLE_FAULT_STACK_SIZE, KERNEL_CODE_SEGMENT,
};
use simple_os::machine::Operation;

fn leaked_task_state(stack_start: u64) -> &'static TaskState {
    Box::leak(Box::new(TaskState::with_double_fault_stack(stack_start).unwrap()))
}

#[test]
fn new_table_holds_the_null_descriptor_only() {
    let table = SegmentTable::new();
    assert_eq!(table.entries(), vec![0u64]);
    assert_eq!(table.table().as_raw_slice(), &[0u64]);
}

#[test]
fn code_segment_goes_to_slot_one() {
    let mut table = SegmentTable::new();
    let selector = table.add_code_segment();
    assert_eq!(selector, Selector(8));
    assert_eq!(selector.index(), 1);
    assert_eq!(selector.rpl(), 0);
    assert_eq!(table.entries(), vec![0u64, 0x00af_9b00_0000_ffff]);
    assert_eq!(KERNEL_CODE_SEGMENT, 0x00af_9b00_0000_ffff);
}

#[test]
fn kernel_code_descriptor_is_a_user_segment() {
    assert_eq!(
        Descriptor::kernel_code_segment(),
        Descriptor::UserSegment(0x00af_9b00_0000_ffff)
    );
}

#[test]
fn task_state_segment_takes_two_slots() {
    let task_state = leaked_task_state(0x4000);
    let mut table = SegmentTable::new();
    table.add_code_segment();
    let selector = table.add_task_state_segment(task_state);
    assert_eq!(selector, Selector(16));
    assert_eq!(selector.index(), 2);
    let entries = table.entries();
    assert_eq!(entries.len(), 4);
    assert_eq!(entries[0], 0);
    assert_eq!(entries[1], KERNEL_CODE_SEGMENT);
    assert_eq!(entries[2] & 0x00ff_ff00_0000_ffff, 0x0000_8900_0000_0067);
    assert_eq!(entries[3] >> 32, 0);
}

#[test]
fn task_state_descriptor_carries_the_address_of_the_segment() {
    let task_state = leaked_task_state(0x4000);
    let printed = format!("{:p}", task_state.segment());
    let address = u64::from_str_radix(printed.trim_start_matches("0x"), 16).unwrap();
    match Descriptor::tss_segment(task_state) {
        Descriptor::SystemSegment(low, high) => {
            let base = ((low >> 16) & 0xff_ffff) | (((low >> 56) & 0xff) << 24) | (high << 32);
            assert_eq!(base, address);
        }
        Descriptor::UserSegment(_) => panic!("a task-state segment is a system segment"),
    }
}

#[test]
fn selector_carries_the_privilege_level_of_the_descriptor() {
    let mut table = SegmentTable::new();
    let ring_three = Descriptor::UserSegment(0x00af_fb00_0000_ffff);
    let selector = table.add_entry(ring_three);
    assert_eq!(selector, Selector(11));
    assert_eq!(selector.index(), 1);
    assert_eq!(selector.rpl(), 3);
}

#[test]
fn system_descriptor_appends_both_words() {
    let mut table = SegmentTable::new();
    let selector = table.add_entry(Descriptor::SystemSegment(0x0000_8900_0000_0067, 0x1));
    assert_eq!(selector, Selector(8));
    assert_eq!(table.entries(), vec![0u64, 0x0000_8900_0000_0067, 0x1]);
}

#[test]
fn table_takes_seven_descriptors() {
    let mut table = SegmentTable::new();
    for slot in 1..8u16 {
        let selector = table.add_code_segment();
        assert_eq!(selector.index(), slot);
    }
    assert_eq!(table.entries().len(), 8);
    assert_eq!(table.entries()[0], 0);
}

#[test]
fn new_task_state_is_zeroed() {
    let task_state = TaskState::new();
    for index in 0..7u16 {
        assert_eq!(task_state.alternate_stack(index), 0);
    }
    let segment = task_state.segment();
    let slots = segment.interrupt_stack_table;
    assert!(slots.iter().all(|slot| slot.as_u64() == 0));
    let levels = segment.privilege_stack_table;
    assert_eq!(levels.len(), 3);
    assert!(levels.iter().all(|level| level.as_u64() == 0));
}

#[test]
fn privilege_stacks_stay_zero() {
    let mut task_state = TaskState::with_double_fault_stack(0x10_0000).unwrap();
    task_state.set_alternate_stack(3, 0x7000);
    let levels = task_state.segment().privilege_stack_table;
    assert!(levels.iter().all(|level| level.as_u64() == 0));
}

#[test]
fn set_alternate_stack_fills_one_slot() {
    let mut task_state = TaskState::new();
    task_state.set_alternate_stack(2, 0x0000_7fff_ffff_f000);
    task_state.set_alternate_stack(6, 0xffff_8000_0000_1000);
    for index in 0..7u16 {
        let expected = match index {
            2 => 0x0000_7fff_ffff_f000,
            6 => 0xffff_8000_0000_1000,
            _ => 0,
        };
        assert_eq!(task_state.alternate_stack(index), expected);
    }
    let slots = task_state.segment().interrupt_stack_table;
    assert_eq!(slots[2].as_u64(), 0x0000_7fff_ffff_f000);
}

#[test]
fn double_fault_stack_points_to_the_top_of_the_region() {
    let task_state = TaskState::with_double_fault_stack(0x10_0000).unwrap();
    assert_eq!(DOUBLE_FAULT_STACK_SIZE, 4096 * 5);
    assert_eq!(task_state.alternate_stack(DOUBLE_FAULT_IST_INDEX), 0x10_0000 + 20480);
    for index in 1..7u16 {
        assert_eq!(task_state.alternate_stack(index), 0);
    }
}

#[test]
fn stack_top_adds_the_size() {
    assert_eq!(stack_top(0x1000, 0x2000), Some(0x3000));
    assert_eq!(stack_top(0, 0), Some(0));
    assert_eq!(stack_top(0xffff_8000_0000_0000, 0x5000), Some(0xffff_8000_0000_5000));
}

#[test]
fn stack_top_extends_the_sign() {
    assert_eq!(stack_top(0x0000_7fff_ffff_f000, 0x1000), Some(0xffff_8000_0000_0000));
    assert_eq!(stack_top(0x0000_8000_0000_0000, 0x10), Some(0xffff_8000_0000_0010));
}

#[test]
fn stack_top_refuses_what_is_no_address() {
    assert_eq!(stack_top(0x0001_0000_0000_0000, 0x1000), None);
    assert_eq!(stack_top(0xffff_ffff_ffff_f000, 0x1000), None);
    assert_eq!(stack_top(0x0000_0000_0000_1000, 0x0001_0000_0000_0000), None);
    assert!(TaskState::with_double_fault_stack(0x0001_0000_0000_0000).is_none());
}

#[test]
fn kernel_segments_issue_both_selectors() {
    let segments = KernelSegments::new(leaked_task_state(0x8000));
    let selectors = segments.selectors();
    assert_eq!(selectors.code_selector, Selector(8));
    assert_eq!(selectors.tss_selector, Selector(16));
    let entries = segments.table().entries();
    assert_eq!(entries.len(), 4);
    assert_eq!(entries[0], 0);
    assert_eq!(entries[1], KERNEL_CODE_SEGMENT);
}

#[test]
fn no_selector_refers_to_the_null_descriptor() {
    let segments = KernelSegments::new(leaked_task_state(0x8000));
    let selectors = segments.selectors();
    assert_ne!(selectors.code_selector.index(), 0);
    assert_ne!(selectors.tss_selector.index(), 0);
    assert_eq!(segments.table().entries()[0], 0);
}

#[test]
fn segments_come_into_force_in_order() {
    let segments = KernelSegments::new(leaked_task_state(0x8000));
    assert_eq!(
        init(&segments),
        vec![
            Operation::LoadSegmentTable,
            Operation::SetCodeSegment(Selector(8)),
            Operation::LoadTaskRegister(Selector(16)),
        ]
    );
    assert_eq!(segments.table().load(), Operation::LoadSegmentTable);
}
