use simple_os::gdt::{KernelSegments, SegmentTable, Selector, TaskState};
use simple_os::interrupts::{exception_table, PIC_1_OFFSET, PIC_2_OFFSET};
use simple_os::machine::{Flow, Operation, Processor};
use simple_os::pic::InterruptController;
use simple_os::{exit_qemu, init, test_panic_handler, test_runner, QemuExitCode, Testable};
use std::cell::Cell;

struct Counting<'a> {
    runs: &'a Cell<u32>,
    order: &'a Cell<u32>,
    place: u32,
}

impl<'a> Testable for Counting<'a> {
    fn run(&self) {
        self.runs.set(self.runs.get() + 1);
        assert_eq!(self.order.get(), self.place);
        self.order.set(self.place + 1);
    }
}

fn kernel_segments() -> KernelSegments {
    let task_state: &'static TaskState =
        Box::leak(Box::new(TaskState::with_double_fault_stack(0x20_0000).unwrap()));
    KernelSegments::new(task_state)
}

fn write(port: u16, value: u8) -> Operation {
    Operation::WritePort8 { port, value }
}

#[test]
fn trivial_assertion() {
    assert_eq!(1, 1);
}

#[test]
fn exit_codes_are_those_of_the_device() {
    assert_eq!(QemuExitCode::Success.code(), 0x10);
    assert_eq!(QemuExitCode::Failed.code(), 0x11);
}

#[test]
fn exit_qemu_writes_the_code_to_the_exit_port() {
    assert_eq!(
        exit_qemu(QemuExitCode::Success),
        Operation::WritePort32 { port: 0xf4, word: 0x10 }
    );
    assert_eq!(exit_qemu(QemuExitCode::Failed), Operation::WritePort32 { port: 0xf4, word: 0x11 });
}

#[test]
fn test_runner_runs_every_test_in_order_and_exits_with_success() {
    let runs = Cell::new(0);
    let order = Cell::new(0);
    let first = Counting { runs: &runs, order: &order, place: 0 };
    let second = Counting { runs: &runs, order: &order, place: 1 };
    let third = Counting { runs: &runs, order: &order, place: 2 };
    let tests: [&dyn Testable; 3] = [&first, &second, &third];
    let operation = test_runner(&tests);
    assert_eq!(runs.get(), 3);
    assert_eq!(operation, Operation::WritePort32 { port: 0xf4, word: 0x10 });
}

#[test]
fn test_runner_without_tests_exits_with_success() {
    assert_eq!(test_runner(&[]), Operation::WritePort32 { port: 0xf4, word: 0x10 });
}

#[test]
fn test_panic_handler_reports_and_exits_with_failure() {
    let (text, outcome) = test_panic_handler("assertion failed: left == right");
    assert_eq!(text, "[failed!]\n\nError: assertion failed: left == right\n\n");
    assert_eq!(outcome.operations, vec![Operation::WritePort32 { port: 0xf4, word: 0x11 }]);
    assert_eq!(outcome.flow, Flow::Halt);
}

#[test]
fn init_orders_the_seven_steps() {
    let segments = kernel_segments();
    let exceptions = exception_table();
    let mut controller = InterruptController::new(PIC_1_OFFSET, PIC_2_OFFSET);
    let operations = init(&segments, &exceptions, &mut controller, 0xfc, 0xff);
    assert!(controller.is_active());
    assert_eq!(
        operations,
        vec![
            Operation::LoadSegmentTable,
            Operation::SetCodeSegment(Selector(8)),
            Operation::LoadTaskRegister(Selector(16)),
            Operation::LoadExceptionTable,
            write(0x20, 0x11),
            write(0x80, 0),
            write(0xa0, 0x11),
            write(0x80, 0),
            write(0x21, 32),
            write(0x80, 0),
            write(0xa1, 40),
            write(0x80, 0),
            write(0x21, 4),
            write(0x80, 0),
            write(0xa1, 2),
            write(0x80, 0),
            write(0x21, 1),
            write(0x80, 0),
            write(0xa1, 1),
            write(0x80, 0),
            write(0x21, 0xfc),
            write(0xa1, 0xff),
            Operation::EnableInterrupts,
        ]
    );
}

#[test]
fn init_is_legal_on_a_fresh_processor() {
    let segments = kernel_segments();
    let exceptions = exception_table();
    let mut controller = InterruptController::new(PIC_1_OFFSET, PIC_2_OFFSET);
    let operations = init(&segments, &exceptions, &mut controller, 0, 0);
    let mut processor = Processor::boot();
    assert!(processor.perform_all(segments.table(), &operations));
    assert_eq!(
        processor,
        Processor {
            segments_loaded: true,
            code_segment: Some(Selector(8)),
            task_register: Some(Selector(16)),
            exception_selector: Some(Selector(8)),
            interrupts_enabled: true,
        }
    );
}

#[test]
fn selectors_are_not_bound_before_the_table_is_loaded() {
    let segments = kernel_segments();
    let mut processor = Processor::boot();
    assert!(!processor.perform(segments.table(), Operation::SetCodeSegment(Selector(8))));
    assert!(!processor.perform(segments.table(), Operation::LoadTaskRegister(Selector(16))));
    assert_eq!(processor, Processor::boot());
    assert!(processor.perform(segments.table(), Operation::LoadSegmentTable));
    assert!(processor.perform(segments.table(), Operation::SetCodeSegment(Selector(8))));
    assert!(processor.perform(segments.table(), Operation::LoadTaskRegister(Selector(16))));
}

#[test]
fn null_selector_is_never_bound() {
    let segments = kernel_segments();
    let mut processor = Processor::boot();
    assert!(processor.perform(segments.table(), Operation::LoadSegmentTable));
    for bits in 0..8u16 {
        assert!(!processor.perform(segments.table(), Operation::SetCodeSegment(Selector(bits))));
        assert!(!processor.perform(segments.table(), Operation::LoadTaskRegister(Selector(bits))));
    }
    assert_eq!(processor.code_segment, None);
    assert_eq!(processor.task_register, None);
}

#[test]
fn selector_must_name_a_descriptor_of_its_kind() {
    let segments = kernel_segments();
    let mut processor = Processor::boot();
    assert!(processor.perform(segments.table(), Operation::LoadSegmentTable));
    assert!(!processor.perform(segments.table(), Operation::SetCodeSegment(Selector(16))));
    assert!(!processor.perform(segments.table(), Operation::LoadTaskRegister(Selector(8))));
    assert!(!processor.perform(segments.table(), Operation::LoadTaskRegister(Selector(24))));
    assert!(!processor.perform(segments.table(), Operation::SetCodeSegment(Selector(32))));
}

#[test]
fn exception_table_needs_an_active_code_segment() {
    let segments = kernel_segments();
    let mut processor = Processor::boot();
    assert!(!processor.perform(segments.table(), Operation::LoadExceptionTable));
    assert!(processor.perform(segments.table(), Operation::LoadSegmentTable));
    assert!(!processor.perform(segments.table(), Operation::LoadExceptionTable));
    assert!(processor.perform(segments.table(), Operation::SetCodeSegment(Selector(8))));
    assert!(processor.perform(segments.table(), Operation::LoadExceptionTable));
    assert!(processor.exceptions_loaded());
    assert_eq!(processor.exception_selector, Some(Selector(8)));
}

#[test]
fn interrupts_need_a_loaded_exception_table() {
    let segments = kernel_segments();
    let mut processor = Processor::boot();
    assert!(!processor.perform(segments.table(), Operation::EnableInterrupts));
    assert!(!processor.interrupts_enabled);
    let start = vec![
        Operation::LoadSegmentTable,
        Operation::SetCodeSegment(Selector(8)),
        Operation::LoadExceptionTable,
        Operation::EnableInterrupts,
    ];
    assert!(processor.perform_all(segments.table(), &start));
    assert!(processor.interrupts_enabled);
}

#[test]
fn exception_table_carries_the_active_code_selector() {
    let segments = kernel_segments();
    let exceptions = exception_table();
    let mut controller = InterruptController::new(PIC_1_OFFSET, PIC_2_OFFSET);
    let operations = init(&segments, &exceptions, &mut controller, 0, 0);
    let mut processor = Processor::boot();
    assert!(!processor.exceptions_loaded());
    assert!(processor.perform_all(segments.table(), &operations));
    assert_eq!(processor.exception_selector, processor.code_segment);
    assert_eq!(processor.exception_selector.unwrap().index(), 1);
}

#[test]
fn a_failed_run_leaves_what_the_legal_operations_did() {
    let segments = kernel_segments();
    let mut processor = Processor::boot();
    let wrong = vec![
        Operation::LoadSegmentTable,
        Operation::SetCodeSegment(Selector(8)),
        Operation::EnableInterrupts,
        Operation::LoadExceptionTable,
    ];
    assert!(!processor.perform_all(segments.table(), &wrong));
    assert_eq!(
        processor,
        Processor {
            segments_loaded: true,
            code_segment: Some(Selector(8)),
            ..Processor::boot()
        }
    );
    assert!(!processor.interrupts_enabled);
}

#[test]
fn a_run_stops_at_the_first_operation_that_is_not_legal() {
    let segments = kernel_segments();
    let mut processor = Processor::boot();
    let wrong = vec![
        Operation::LoadSegmentTable,
        Operation::LoadExceptionTable,
        Operation::SetCodeSegment(Selector(8)),
    ];
    assert!(!processor.perform_all(segments.table(), &wrong));
    assert_eq!(processor, Processor { segments_loaded: true, ..Processor::boot() });
}

#[test]
fn port_writes_leave_the_processor_as_it_is() {
    let table = SegmentTable::new();
    let mut processor = Processor::boot();
    assert!(processor.perform(&table, write(0x20, 0x20)));
    assert!(processor.perform(&table, Operation::WritePort32 { port: 0xf4, word: 0x10 }));
    assert_eq!(processor, Processor::boot());
}
