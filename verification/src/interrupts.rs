//! The routines that the processor enters on a trap, and the table that
//! names them.
//!
//! A routine gets what the processor captured and what the hardware holds for
//! it as plain values, writes its report to the screen, and returns the port
//! writes that are due and how execution goes on. The breakpoint is the only
//! exception that execution survives; a double fault and a page fault end in
//! a halt. The timer and the keyboard acknowledge their interrupt on every
//! path.
use crate::gdt::DOUBLE_FAULT_IST_INDEX;
use crate::idt::{
    delivered, loaded_entry, ExceptionTable, Handler, VectorEntry, BREAKPOINT_VECTOR,
    DOUBLE_FAULT_VECTOR, PAGE_FAULT_VECTOR, VECTORS,
};
use crate::keyboard::{
    events_after_feed, events_taken, scancodes_taken, spec_feed, DecodedKey, Decoder,
};
use crate::machine::{Flow, Operation, Outcome, Processor};
use crate::pic::{acknowledge, Controller, ControllerState, InterruptController};
use crate::vga_buffer::{Screen, Writer};
use vstd::prelude::*;

verus! {

/// Vector of line 0 of the primary interrupt controller.
pub const PIC_1_OFFSET: u8 = 32;

/// Vector of line 0 of the secondary interrupt controller.
pub const PIC_2_OFFSET: u8 = 40;

/// The port that the keyboard delivers its scancodes on.
pub const KEYBOARD_DATA_PORT: u16 = 0x60;

/// The hardware interrupts that are handled, by their lines on the primary
/// controller: the timer on line 0, the keyboard on line 1.
#[derive(Debug, Clone, Copy, PartialEq, Eq, Structural)]
pub enum InterruptIndex {
    Timer,
    Keyboard,
}

impl InterruptIndex {
    /// The vector that the interrupt is delivered on.
    pub open spec fn spec_as_u8(self) -> u8 {
        match self {
            InterruptIndex::Timer => PIC_1_OFFSET,
            InterruptIndex::Keyboard => (PIC_1_OFFSET + 1) as u8,
        }
    }

    /// The vector that the interrupt is delivered on.
    #[verifier::when_used_as_spec(spec_as_u8)]
    pub fn as_u8(self) -> (vector: u8)
        ensures
            vector == self.spec_as_u8(),
            PIC_1_OFFSET <= vector < PIC_2_OFFSET,
    {
        match self {
            InterruptIndex::Timer => PIC_1_OFFSET,
            InterruptIndex::Keyboard => PIC_1_OFFSET + 1,
        }
    }

    /// The vector as an index into the exception table.
    pub fn as_usize(self) -> (index: usize)
        ensures
            index == self.spec_as_u8(),
            index < VECTORS,
    {
        self.as_u8() as usize
    }
}

/// What the processor pushes on the stack when it takes a trap.
#[derive(Debug, Clone, Copy, PartialEq, Eq, Structural)]
pub struct StackFrame {
    pub instruction_pointer: u64,
    pub code_segment: u64,
    pub cpu_flags: u64,
    pub stack_pointer: u64,
    pub stack_segment: u64,
}

/// What comes with a trap besides its vector: the captured frame, and, where
/// the trap has one, the error code, the address whose access faulted, and
/// the byte that the keyboard holds ready.
#[derive(Debug, Clone, Copy, PartialEq, Eq, Structural)]
pub struct Trap {
    pub frame: StackFrame,
    pub error_code: u64,
    pub fault_address: u64,
    pub scancode: u8,
}

/// The multi-line `Debug` form of an interrupt stack frame with these fields.
pub uninterp spec fn frame_debug(
    instruction_pointer: u64,
    code_segment: u64,
    cpu_flags: u64,
    stack_pointer: u64,
    stack_segment: u64,
) -> Seq<char>;

/// The `Debug` form of a virtual address.
pub uninterp spec fn address_debug(address: u64) -> Seq<char>;

/// The `Debug` form of the error code of a page fault.
pub uninterp spec fn error_code_debug(error_code: u64) -> Seq<char>;

impl StackFrame {
    /// The text that a report shows for the frame.
    pub open spec fn text(self) -> Seq<char> {
        frame_debug(
            self.instruction_pointer,
            self.code_segment,
            self.cpu_flags,
            self.stack_pointer,
            self.stack_segment,
        )
    }
}

/// The pretty `Debug` form of `InterruptStackFrameValue`, with the two
/// addresses made canonical by `VirtAddr::new_truncate`.
#[verifier::external_body]
fn frame_text(frame: &StackFrame) -> (text: String)
    ensures
        text@ == frame_debug(
            frame.instruction_pointer,
            frame.code_segment,
            frame.cpu_flags,
            frame.stack_pointer,
            frame.stack_segment,
        ),
{
    format!(
        "{:#?}",
        x86_64::structures::idt::InterruptStackFrameValue {
            instruction_pointer: x86_64::VirtAddr::new_truncate(frame.instruction_pointer),
            code_segment: frame.code_segment,
            cpu_flags: frame.cpu_flags,
            stack_pointer: x86_64::VirtAddr::new_truncate(frame.stack_pointer),
            stack_segment: frame.stack_segment,
        }
    )
}

/// The `Debug` form of `VirtAddr`, the address made canonical by
/// `VirtAddr::new_truncate`.
#[verifier::external_body]
fn address_text(address: u64) -> (text: String)
    ensures
        text@ == address_debug(address),
{
    format!("{:?}", x86_64::VirtAddr::new_truncate(address))
}

/// The `Debug` form of `PageFaultErrorCode`, with every bit of the code kept
/// by `from_bits_retain`.
#[verifier::external_body]
fn error_code_text(error_code: u64) -> (text: String)
    ensures
        text@ == error_code_debug(error_code),
{
    format!("{:?}", x86_64::structures::idt::PageFaultErrorCode::from_bits_retain(error_code))
}

/// The screen after the report of a breakpoint.
pub open spec fn breakpoint_report(screen: Screen, frame: StackFrame) -> Screen {
    screen.print("EXCEPTION: BREAKPOINT\n"@).print(frame.text()).print("\n"@)
}

/// The screen after the report of a double fault.
pub open spec fn double_fault_report(screen: Screen, frame: StackFrame) -> Screen {
    screen.print("EXCEPTION: DOUBLE FAULT\n"@).print(frame.text()).print("\n"@)
}

/// The screen after the report of a page fault: the heading, the address
/// whose access faulted, the error code and the frame, a line each.
pub open spec fn page_fault_report(
    screen: Screen,
    frame: StackFrame,
    fault_address: u64,
    error_code: u64,
) -> Screen {
    screen.print("EXCEPTION: PAGE FAULT\n"@).print("ACCESSED ADDRESS: "@).print(
        address_debug(fault_address),
    ).print("\n"@).print("ERROR CODE: "@).print(error_code_debug(error_code)).print("\n"@).print(
        frame.text(),
    ).print("\n"@)
}

/// The screen after a tick of the timer.
pub open spec fn timer_report(screen: Screen) -> Screen {
    screen.print("."@)
}

/// The screen after the decoder's answer to a scancode: the text of the key,
/// if the scancode completed a key press.
pub open spec fn key_report(screen: Screen, key: Option<DecodedKey>) -> Screen {
    match key {
        Some(key) => screen.print(key.text()),
        None => screen,
    }
}

/// Handles a breakpoint: reports the frame and lets execution go on behind
/// the trapping instruction.
pub fn breakpoint_handler(screen: &mut Writer, frame: &StackFrame) -> (outcome: Outcome)
    requires
        old(screen).wf(),
    ensures
        final(screen).wf(),
        final(screen)@ == breakpoint_report(old(screen)@, *frame),
        outcome.operations@ == Seq::<Operation>::empty(),
        outcome.flow == Flow::Resume,
{
    let text = frame_text(frame);
    screen.write_string("EXCEPTION: BREAKPOINT\n");
    screen.write_string(text.as_str());
    screen.write_string("\n");
    Outcome { operations: Vec::new(), flow: Flow::Resume }
}

/// Handles a double fault: reports the frame and halts. Execution never goes
/// on after a double fault.
pub fn double_fault_handler(screen: &mut Writer, frame: &StackFrame, error_code: u64) -> (outcome:
    Outcome)
    requires
        old(screen).wf(),
    ensures
        final(screen).wf(),
        final(screen)@ == double_fault_report(old(screen)@, *frame),
        outcome.operations@ == Seq::<Operation>::empty(),
        outcome.flow == Flow::Halt,
{
    let text = frame_text(frame);
    screen.write_string("EXCEPTION: DOUBLE FAULT\n");
    screen.write_string(text.as_str());
    screen.write_string("\n");
    Outcome { operations: Vec::new(), flow: Flow::Halt }
}

/// Handles a page fault: reports the address whose access faulted, the error
/// code and the frame, and halts. No page fault is recovered from.
pub fn page_fault_handler(
    screen: &mut Writer,
    frame: &StackFrame,
    fault_address: u64,
    error_code: u64,
) -> (outcome: Outcome)
    requires
        old(screen).wf(),
    ensures
        final(screen).wf(),
        final(screen)@ == page_fault_report(old(screen)@, *frame, fault_address, error_code),
        outcome.operations@ == Seq::<Operation>::empty(),
        outcome.flow == Flow::Halt,
{
    let address = address_text(fault_address);
    let code = error_code_text(error_code);
    let text = frame_text(frame);
    screen.write_string("EXCEPTION: PAGE FAULT\n");
    screen.write_string("ACCESSED ADDRESS: ");
    screen.write_string(address.as_str());
    screen.write_string("\n");
    screen.write_string("ERROR CODE: ");
    screen.write_string(code.as_str());
    screen.write_string("\n");
    screen.write_string(text.as_str());
    screen.write_string("\n");
    Outcome { operations: Vec::new(), flow: Flow::Halt }
}

/// Handles a tick of the timer: shows a dot and acknowledges the interrupt.
pub fn timer_interrupt_handler(screen: &mut Writer, controller: &InterruptController) -> (outcome:
    Outcome)
    requires
        old(screen).wf(),
    ensures
        final(screen).wf(),
        final(screen)@ == timer_report(old(screen)@),
        outcome.operations@ == controller@.end_of_interrupt(InterruptIndex::Timer.spec_as_u8()),
        outcome.flow == Flow::Resume,
{
    screen.write_string(".");
    let operations = controller.notify_end_of_interrupt(InterruptIndex::Timer.as_u8());
    Outcome { operations, flow: Flow::Resume }
}

/// Shows what the decoder made of a scancode and acknowledges the keyboard's
/// interrupt. The interrupt is acknowledged whether or not there is a key to
/// show.
pub fn report_key(screen: &mut Writer, controller: &InterruptController, key: Option<DecodedKey>)
    -> (outcome: Outcome)
    requires
        old(screen).wf(),
    ensures
        final(screen).wf(),
        final(screen)@ == key_report(old(screen)@, key),
        outcome.operations@ == controller@.end_of_interrupt(
            InterruptIndex::Keyboard.spec_as_u8(),
        ),
        outcome.flow == Flow::Resume,
{
    match key {
        Some(key) => {
            let text = key.to_text();
            screen.write_string(text.as_str());
        },
        None => {},
    }
    let operations = controller.notify_end_of_interrupt(InterruptIndex::Keyboard.as_u8());
    Outcome { operations, flow: Flow::Resume }
}

/// The decoder `after` is the decoder `before` with `scancode` fed to it once:
/// it has taken that byte, and the key event that the byte completed, if any.
pub open spec fn fed(before: Decoder, after: Decoder, scancode: u8) -> bool {
    &&& scancodes_taken(after) == scancodes_taken(before).push(scancode)
    &&& events_taken(after) == events_after_feed(before, scancode)
}

/// Handles an interrupt of the keyboard: hands the scancode that the keyboard
/// holds ready to the decoder, once, shows the key that it completes, if any,
/// and acknowledges the interrupt. The decoder keeps what it has taken for
/// the next interrupt.
pub fn keyboard_interrupt_handler(
    screen: &mut Writer,
    controller: &InterruptController,
    keyboard: &mut Decoder,
    scancode: u8,
) -> (outcome: Outcome)
    requires
        old(screen).wf(),
    ensures
        final(screen).wf(),
        final(screen)@ == key_report(old(screen)@, spec_feed(*old(keyboard), scancode)),
        fed(*old(keyboard), *final(keyboard), scancode),
        outcome.operations@ == controller@.end_of_interrupt(
            InterruptIndex::Keyboard.spec_as_u8(),
        ),
        outcome.flow == Flow::Resume,
{
    let key = keyboard.feed(scancode);
    report_key(screen, controller, key)
}

/// The entries of this kernel's exception table: the breakpoint, the double
/// fault on its own stack, the page fault, the timer and the keyboard; no
/// other vector is handled.
pub open spec fn kernel_entries() -> Seq<VectorEntry> {
    Seq::new(
        VECTORS as nat,
        |vector: int|
            if vector == BREAKPOINT_VECTOR {
                VectorEntry { handler: Some(Handler::Breakpoint), stack_index: None }
            } else if vector == DOUBLE_FAULT_VECTOR {
                VectorEntry {
                    handler: Some(Handler::DoubleFault),
                    stack_index: Some(DOUBLE_FAULT_IST_INDEX),
                }
            } else if vector == PAGE_FAULT_VECTOR {
                VectorEntry { handler: Some(Handler::PageFault), stack_index: None }
            } else if vector == InterruptIndex::Timer.spec_as_u8() {
                VectorEntry { handler: Some(Handler::Timer), stack_index: None }
            } else if vector == InterruptIndex::Keyboard.spec_as_u8() {
                VectorEntry { handler: Some(Handler::Keyboard), stack_index: None }
            } else {
                VectorEntry::missing()
            },
    )
}

/// Builds this kernel's exception table.
pub fn exception_table() -> (table: ExceptionTable)
    ensures
        table.wf(),
        table@ == kernel_entries(),
{
    let mut table = ExceptionTable::new();
    table.set_handler(BREAKPOINT_VECTOR, Handler::Breakpoint);
    table.set_handler_with_stack(DOUBLE_FAULT_VECTOR, Handler::DoubleFault, DOUBLE_FAULT_IST_INDEX);
    table.set_handler(InterruptIndex::Timer.as_u8(), Handler::Timer);
    table.set_handler(InterruptIndex::Keyboard.as_u8(), Handler::Keyboard);
    table.set_handler(PAGE_FAULT_VECTOR, Handler::PageFault);
    assert(table@ =~= kernel_entries());
    table
}

/// Brings the exception table into force: the operation to perform. It is
/// legal once the code-segment register is set; after it the entries carry
/// the selector of that register and the processor finds the table's entry on
/// every vector that is handled; and it may be repeated.
pub fn init_idt(table: &ExceptionTable) -> (operation: Operation)
    requires
        table.wf(),
    ensures
        operation == Operation::LoadExceptionTable,
        forall|processor: Processor, segments: Seq<u64>|
            processor.code_segment is Some ==> #[trigger] processor.accepts(segments, operation),
        forall|processor: Processor| #[trigger]
            processor.after(operation).exception_selector == processor.code_segment,
        forall|processor: Processor, vector: u8|
            processor.code_segment is Some ==> #[trigger] delivered(
                processor.after(operation),
                table@,
                vector,
            ) == loaded_entry(table@, vector),
        forall|processor: Processor| #[trigger]
            processor.after(operation).after(operation) == processor.after(operation),
{
    table.load()
}

/// What the handlers work on: the screen, the interrupt controllers and the
/// scancode decoder.
pub struct Kernel {
    pub screen: Writer,
    pub controller: InterruptController,
    pub keyboard: Decoder,
}

impl Kernel {
    /// The screen and the controllers are well formed.
    pub open spec fn wf(&self) -> bool {
        self.screen.wf() && self.controller.wf()
    }
}

/// The screen and the outcome are those of the routine `handler`, run on
/// `trap` with the screen `before`, the controllers in state `controller` and
/// the scancode decoder `decoder`.
pub open spec fn handled(
    handler: Handler,
    trap: Trap,
    controller: ControllerState,
    decoder: Decoder,
    before: Screen,
    after: Screen,
    operations: Seq<Operation>,
    flow: Flow,
) -> bool {
    match handler {
        Handler::Breakpoint => {
            &&& after == breakpoint_report(before, trap.frame)
            &&& operations == Seq::<Operation>::empty()
            &&& flow == Flow::Resume
        },
        Handler::DoubleFault => {
            &&& after == double_fault_report(before, trap.frame)
            &&& operations == Seq::<Operation>::empty()
            &&& flow == Flow::Halt
        },
        Handler::PageFault => {
            &&& after == page_fault_report(
                before,
                trap.frame,
                trap.fault_address,
                trap.error_code,
            )
            &&& operations == Seq::<Operation>::empty()
            &&& flow == Flow::Halt
        },
        Handler::Timer => {
            &&& after == timer_report(before)
            &&& operations == controller.end_of_interrupt(InterruptIndex::Timer.spec_as_u8())
            &&& flow == Flow::Resume
        },
        Handler::Keyboard => {
            &&& after == key_report(before, spec_feed(decoder, trap.scancode))
            &&& operations == controller.end_of_interrupt(InterruptIndex::Keyboard.spec_as_u8())
            &&& flow == Flow::Resume
        },
    }
}

/// The scancode decoder after the routine `handler` ran on `trap`: the
/// keyboard routine feeds it the scancode of the trap, once; no other routine
/// touches it.
pub open spec fn decoder_after(handler: Handler, trap: Trap, before: Decoder, after: Decoder)
    -> bool {
    match handler {
        Handler::Keyboard => fed(before, after, trap.scancode),
        _ => after == before,
    }
}

/// Takes a trap on `vector` as the processor does: enters the routine that
/// the table names for the vector, once. Where the table is not loaded or
/// names no routine, nothing runs and the processor resets.
pub fn dispatch(
    kernel: &mut Kernel,
    processor: &Processor,
    table: &ExceptionTable,
    vector: u8,
    trap: &Trap,
) -> (outcome: Outcome)
    requires
        old(kernel).wf(),
        table.wf(),
    ensures
        final(kernel).wf(),
        final(kernel).controller@ == old(kernel).controller@,
        match delivered(*processor, table@, vector) {
            Some(entry) => {
                &&& handled(
                    entry.handler->0,
                    *trap,
                    old(kernel).controller@,
                    old(kernel).keyboard,
                    old(kernel).screen@,
                    final(kernel).screen@,
                    outcome.operations@,
                    outcome.flow,
                )
                &&& decoder_after(
                    entry.handler->0,
                    *trap,
                    old(kernel).keyboard,
                    final(kernel).keyboard,
                )
            },
            None => {
                &&& final(kernel).screen@ == old(kernel).screen@
                &&& final(kernel).keyboard == old(kernel).keyboard
                &&& outcome.operations@ == Seq::<Operation>::empty()
                &&& outcome.flow == Flow::Reset
            },
        },
{
    match table.deliver(processor, vector) {
        Some(entry) => match entry.handler {
            Some(Handler::Breakpoint) => breakpoint_handler(&mut kernel.screen, &trap.frame),
            Some(Handler::DoubleFault) => double_fault_handler(
                &mut kernel.screen,
                &trap.frame,
                trap.error_code,
            ),
            Some(Handler::PageFault) => page_fault_handler(
                &mut kernel.screen,
                &trap.frame,
                trap.fault_address,
                trap.error_code,
            ),
            Some(Handler::Timer) => timer_interrupt_handler(&mut kernel.screen, &kernel.controller),
            Some(Handler::Keyboard) => keyboard_interrupt_handler(
                &mut kernel.screen,
                &kernel.controller,
                &mut kernel.keyboard,
                trap.scancode,
            ),
            None => Outcome { operations: Vec::new(), flow: Flow::Reset },
        },
        None => Outcome { operations: Vec::new(), flow: Flow::Reset },
    }
}

/// How execution goes on after each routine: it resumes after a breakpoint,
/// a tick of the timer and a key; it halts after a double fault and a page
/// fault, and never resumes.
pub open spec fn flow_after(handler: Handler) -> Flow {
    match handler {
        Handler::Breakpoint => Flow::Resume,
        Handler::DoubleFault => Flow::Halt,
        Handler::PageFault => Flow::Halt,
        Handler::Timer => Flow::Resume,
        Handler::Keyboard => Flow::Resume,
    }
}

/// Whatever a routine was run on, execution goes on as [`flow_after`] says,
/// and only the timer and the keyboard write to a port.
pub proof fn lemma_handled_flow(
    handler: Handler,
    trap: Trap,
    controller: ControllerState,
    decoder: Decoder,
    before: Screen,
    after: Screen,
    operations: Seq<Operation>,
    flow: Flow,
)
    requires
        handled(handler, trap, controller, decoder, before, after, operations, flow),
    ensures
        flow == flow_after(handler),
        flow != Flow::Reset,
        handler != Handler::Timer && handler != Handler::Keyboard ==> operations.len() == 0,
{
}

/// With this kernel's table loaded, a breakpoint enters the breakpoint
/// routine, which reports the frame once and lets execution resume.
pub proof fn lemma_breakpoint_resumes(
    processor: Processor,
    trap: Trap,
    controller: ControllerState,
    decoder: Decoder,
    before: Screen,
    after: Screen,
    operations: Seq<Operation>,
    flow: Flow,
)
    requires
        processor.exception_selector is Some,
        delivered(processor, kernel_entries(), BREAKPOINT_VECTOR) matches Some(entry) && handled(
            entry.handler->0,
            trap,
            controller,
            decoder,
            before,
            after,
            operations,
            flow,
        ),
    ensures
        delivered(processor, kernel_entries(), BREAKPOINT_VECTOR) == Some(
            VectorEntry { handler: Some(Handler::Breakpoint), stack_index: None },
        ),
        after == breakpoint_report(before, trap.frame),
        operations == Seq::<Operation>::empty(),
        flow == Flow::Resume,
{
}

/// With this kernel's table loaded, a double fault enters the double-fault
/// routine on the stack of the double-fault slot, and the routine ends in a
/// halt.
pub proof fn lemma_double_fault_halts_on_its_stack(
    processor: Processor,
    trap: Trap,
    controller: ControllerState,
    decoder: Decoder,
    before: Screen,
    after: Screen,
    operations: Seq<Operation>,
    flow: Flow,
)
    requires
        processor.exception_selector is Some,
        delivered(processor, kernel_entries(), DOUBLE_FAULT_VECTOR) matches Some(entry) && handled(
            entry.handler->0,
            trap,
            controller,
            decoder,
            before,
            after,
            operations,
            flow,
        ),
    ensures
        delivered(processor, kernel_entries(), DOUBLE_FAULT_VECTOR) == Some(
            VectorEntry {
                handler: Some(Handler::DoubleFault),
                stack_index: Some(DOUBLE_FAULT_IST_INDEX),
            },
        ),
        after == double_fault_report(before, trap.frame),
        flow == Flow::Halt,
{
}

/// A keyboard interrupt writes to the screen exactly what the decoder makes
/// of the scancode: the text of the key that the byte completes, and nothing
/// where it completes none.
pub proof fn lemma_keyboard_shows_the_completed_key(
    trap: Trap,
    controller: ControllerState,
    decoder: Decoder,
    before: Screen,
    after: Screen,
    operations: Seq<Operation>,
    flow: Flow,
)
    requires
        handled(Handler::Keyboard, trap, controller, decoder, before, after, operations, flow),
    ensures
        spec_feed(decoder, trap.scancode) is None ==> after == before,
        spec_feed(decoder, trap.scancode) matches Some(key) ==> after == before.print(key.text()),
{
}

/// The timer's interrupt is acknowledged once, to the primary controller
/// only, wherever the secondary controller's lines lie behind the timer's
/// vector.
pub proof fn lemma_timer_acknowledges_primary_only(controller: ControllerState)
    requires
        InterruptIndex::Timer.spec_as_u8() < controller.secondary_offset,
    ensures
        controller.acknowledged(InterruptIndex::Timer.spec_as_u8()) == seq![Controller::Primary],
        controller.end_of_interrupt(InterruptIndex::Timer.spec_as_u8()) == seq![
            acknowledge(Controller::Primary),
        ],
{
    assert(controller.end_of_interrupt(InterruptIndex::Timer.spec_as_u8()) =~= seq![
        acknowledge(Controller::Primary),
    ]);
}

/// The keyboard's interrupt is acknowledged once to each controller that it
/// came through: to the primary alone, or, where its vector lies on the
/// secondary controller, to the secondary first and to the primary after it.
pub proof fn lemma_keyboard_acknowledges_in_order(controller: ControllerState)
    ensures
        controller.end_of_interrupt(InterruptIndex::Keyboard.spec_as_u8()) == if controller.from_secondary(
            InterruptIndex::Keyboard.spec_as_u8(),
        ) {
            seq![acknowledge(Controller::Secondary), acknowledge(Controller::Primary)]
        } else {
            seq![acknowledge(Controller::Primary)]
        },
{
    let vector = InterruptIndex::Keyboard.spec_as_u8();
    if controller.from_secondary(vector) {
        assert(controller.end_of_interrupt(vector) =~= seq![
            acknowledge(Controller::Secondary),
            acknowledge(Controller::Primary),
        ]);
    } else {
        assert(controller.end_of_interrupt(vector) =~= seq![acknowledge(Controller::Primary)]);
    }
}

} // verus!
