use simple_os::idt::{
    ExceptionTable, Handler, VectorEntry, BREAKPOINT_VECTOR, DOUBLE_FAULT_VECTOR,
    PAGE_FAULT_VECTOR,
};
use simple_os::interrupts::{exception_table, init_idt, InterruptIndex};
use simple_os::gdt::Selector;
use simple_os::machine::{Operation, Processor};

fn missing() -> VectorEntry {
    VectorEntry { handler: None, stack_index: None }
}

fn loaded_processor() -> Processor {
    Processor {
        code_segment: Some(Selector(8)),
        exception_selector: Some(Selector(8)),
        ..Processor::boot()
    }
}

#[test]
fn new_exception_table_handles_nothing() {
    let table = ExceptionTable::new();
    for vector in 0..=255u8 {
        assert_eq!(table.entry(vector), missing());
    }
}

#[test]
fn set_handler_fills_one_vector() {
    let mut table = ExceptionTable::new();
    table.set_handler(3, Handler::Breakpoint);
    table.set_handler(255, Handler::Timer);
    for vector in 0..=255u8 {
        let expected = match vector {
            3 => VectorEntry { handler: Some(Handler::Breakpoint), stack_index: None },
            255 => VectorEntry { handler: Some(Handler::Timer), stack_index: None },
            _ => missing(),
        };
        assert_eq!(table.entry(vector), expected);
    }
}

#[test]
fn set_handler_replaces_an_entry() {
    let mut table = ExceptionTable::new();
    table.set_handler_with_stack(14, Handler::PageFault, 3);
    assert_eq!(
        table.entry(14),
        VectorEntry { handler: Some(Handler::PageFault), stack_index: Some(3) }
    );
    table.set_handler(14, Handler::PageFault);
    assert_eq!(table.entry(14), VectorEntry { handler: Some(Handler::PageFault), stack_index: None });
}

#[test]
fn double_fault_gets_its_stack() {
    let mut table = ExceptionTable::new();
    table.set_handler_with_stack(8, Handler::DoubleFault, 6);
    assert_eq!(
        table.entry(8),
        VectorEntry { handler: Some(Handler::DoubleFault), stack_index: Some(6) }
    );
}

#[test]
fn interrupt_index_counts_from_the_primary_offset() {
    assert_eq!(InterruptIndex::Timer.as_u8(), 32);
    assert_eq!(InterruptIndex::Keyboard.as_u8(), 33);
    assert_eq!(InterruptIndex::Timer.as_usize(), 32);
    assert_eq!(InterruptIndex::Keyboard.as_usize(), 33);
}

#[test]
fn kernel_table_handles_five_vectors() {
    let table = exception_table();
    assert_eq!((BREAKPOINT_VECTOR, DOUBLE_FAULT_VECTOR, PAGE_FAULT_VECTOR), (3, 8, 14));
    for vector in 0..=255u8 {
        let expected = match vector {
            3 => VectorEntry { handler: Some(Handler::Breakpoint), stack_index: None },
            8 => VectorEntry { handler: Some(Handler::DoubleFault), stack_index: Some(0) },
            14 => VectorEntry { handler: Some(Handler::PageFault), stack_index: None },
            32 => VectorEntry { handler: Some(Handler::Timer), stack_index: None },
            33 => VectorEntry { handler: Some(Handler::Keyboard), stack_index: None },
            _ => missing(),
        };
        assert_eq!(table.entry(vector), expected);
    }
}

#[test]
fn nothing_is_delivered_before_the_table_is_loaded() {
    let table = exception_table();
    let processor = Processor::boot();
    for vector in 0..=255u8 {
        assert_eq!(table.deliver(&processor, vector), None);
    }
}

#[test]
fn a_loaded_table_delivers_its_entries() {
    let table = exception_table();
    let processor = loaded_processor();
    assert_eq!(
        table.deliver(&processor, 8),
        Some(VectorEntry { handler: Some(Handler::DoubleFault), stack_index: Some(0) })
    );
    assert_eq!(
        table.deliver(&processor, 33),
        Some(VectorEntry { handler: Some(Handler::Keyboard), stack_index: None })
    );
    assert_eq!(table.deliver(&processor, 0), None);
    assert_eq!(table.deliver(&processor, 13), None);
    assert_eq!(table.deliver(&processor, 34), None);
}

#[test]
fn init_idt_asks_for_the_load() {
    let table = exception_table();
    assert_eq!(init_idt(&table), Operation::LoadExceptionTable);
    assert_eq!(table.load(), Operation::LoadExceptionTable);
    assert_eq!(table.load(), Operation::LoadExceptionTable);
}
