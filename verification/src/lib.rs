//! The exception and interrupt core of a small x86-64 kernel.
//!
//! The library builds the segment table and the task state ([`gdt`]), the
//! exception table ([`idt`]), drives the two chained interrupt controllers
//! ([`pic`]) and holds the routines that run on a trap ([`interrupts`]), with
//! the screen they report to ([`vga_buffer`]) and the decoder of the keyboard
//! ([`keyboard`]). It never touches the machine: it decides which privileged
//! operations are due ([`machine`]), and whoever runs on the processor
//! performs them in the order given.
use vstd::prelude::*;

pub mod gdt;
pub mod idt;
pub mod interrupts;
pub mod keyboard;
pub mod machine;
pub mod pic;
pub mod vga_buffer;

use crate::gdt::{KernelSegments, Selectors};
use crate::idt::ExceptionTable;
use crate::machine::{
    lemma_after_all_concat, lemma_after_all_push, lemma_port_writes_keep_state, Flow, Operation,
    Outcome, Processor,
};
use crate::pic::{
    lemma_remap_program_writes_ports, remap_program, ControllerState, InterruptController,
};
use vstd::string::StringExecFns;

verus! {

/// The port of the emulator's debug-exit device.
pub const QEMU_EXIT_PORT: u16 = 0xf4;

/// Exit codes understood by the emulator's debug-exit device.
#[derive(Debug, Clone, Copy, PartialEq, Eq, Structural)]
pub enum QemuExitCode {
    Success,
    Failed,
}

impl QemuExitCode {
    /// The value written to the debug-exit port for this code.
    pub open spec fn spec_code(self) -> u32 {
        match self {
            QemuExitCode::Success => 0x10,
            QemuExitCode::Failed => 0x11,
        }
    }

    /// The value written to the debug-exit port for this code.
    #[verifier::when_used_as_spec(spec_code)]
    pub fn code(self) -> (value: u32)
        ensures
            value == self.spec_code(),
    {
        match self {
            QemuExitCode::Success => 0x10,
            QemuExitCode::Failed => 0x11,
        }
    }
}

/// The port write that makes the emulator exit with `exit_code`.
pub open spec fn spec_exit_qemu(exit_code: QemuExitCode) -> Operation {
    Operation::WritePort32 { port: QEMU_EXIT_PORT, word: exit_code.spec_code() }
}

/// Asks for the emulator to exit with `exit_code`: the port write that does
/// it.
#[verifier::when_used_as_spec(spec_exit_qemu)]
pub fn exit_qemu(exit_code: QemuExitCode) -> (operation: Operation)
    ensures
        operation == spec_exit_qemu(exit_code),
{
    Operation::WritePort32 { port: QEMU_EXIT_PORT, word: exit_code.code() }
}

/// Something that can be run as a test. A test that fails panics.
pub trait Testable {
    fn run(&self);
}

/// Runs every test, in order, and asks for the emulator to exit with success.
/// A failing test panics, so the end is reached only if none failed.
pub fn test_runner(tests: &[&dyn Testable]) -> (operation: Operation)
    ensures
        operation == spec_exit_qemu(QemuExitCode::Success),
{
    let mut i: usize = 0;
    while i < tests.len()
        invariant
            i <= tests@.len(),
        decreases tests@.len() - i,
    {
        tests[i].run();
        i += 1;
    }
    exit_qemu(QemuExitCode::Success)
}

/// The text that reports a failed test with the message of its panic.
pub open spec fn failure_report(message: Seq<char>) -> Seq<char> {
    "[failed!]\n\nError: "@ + message + "\n\n"@
}

/// Handles the panic of a test: the text to report, and the request for the
/// emulator to exit with failure, after which nothing runs any more.
pub fn test_panic_handler(message: &str) -> (report: (String, Outcome))
    ensures
        report.0@ == failure_report(message@),
        report.1.operations@ == seq![spec_exit_qemu(QemuExitCode::Failed)],
        report.1.flow == Flow::Halt,
{
    let text = String::from_str("[failed!]\n\nError: ").concat(message).concat("\n\n");
    let mut operations: Vec<Operation> = Vec::new();
    operations.push(exit_qemu(QemuExitCode::Failed));
    (text, Outcome { operations, flow: Flow::Halt })
}

/// The operations of initialisation, in order: the segment table is loaded
/// and its selectors are bound, the exception table is loaded, the interrupt
/// controllers are moved to their offsets, and only then are interrupts
/// enabled.
pub open spec fn spec_init(
    selectors: Selectors,
    controller: ControllerState,
    primary_mask: u8,
    secondary_mask: u8,
) -> Seq<Operation> {
    gdt::spec_init(selectors) + seq![Operation::LoadExceptionTable] + remap_program(
        controller.primary_offset,
        controller.secondary_offset,
        primary_mask,
        secondary_mask,
    ) + seq![Operation::EnableInterrupts]
}

/// The processor state that initialisation ends in.
pub open spec fn initialised(selectors: Selectors) -> Processor {
    Processor {
        segments_loaded: true,
        code_segment: Some(selectors.code_selector),
        task_register: Some(selectors.tss_selector),
        exception_selector: Some(selectors.code_selector),
        interrupts_enabled: true,
    }
}

/// Performed on a processor fresh from boot, the operations of initialisation
/// are legal one after the other and end with everything in force. Every
/// selector then in force, that of the exception table's entries among them,
/// refers to a slot behind the null descriptor.
pub proof fn lemma_init_is_legal(
    segments: &KernelSegments,
    controller: ControllerState,
    primary_mask: u8,
    secondary_mask: u8,
)
    requires
        segments.wf(),
    ensures
        Processor::spec_boot().after_all(
            segments.entries(),
            spec_init(segments.spec_selectors(), controller, primary_mask, secondary_mask),
        ) == Some(initialised(segments.spec_selectors())),
        initialised(segments.spec_selectors()).selectors_bound(segments.entries()),
        initialised(segments.spec_selectors()).exception_selector == Some(
            segments.spec_selectors().code_selector,
        ),
        segments.spec_selectors().code_selector.spec_index() != 0,
{
    segments.lemma_wf();
    let entries = segments.entries();
    let selectors = segments.spec_selectors();
    let boot = Processor::spec_boot();
    let bound = gdt::after_init(boot, selectors);
    let loaded = Processor { exception_selector: Some(selectors.code_selector), ..bound };
    let remap = remap_program(
        controller.primary_offset,
        controller.secondary_offset,
        primary_mask,
        secondary_mask,
    );
    let first = gdt::spec_init(selectors);
    let second = first.push(Operation::LoadExceptionTable);
    gdt::lemma_init_is_legal(segments, boot);
    lemma_after_all_push(boot, entries, first, Operation::LoadExceptionTable);
    assert(second =~= first + seq![Operation::LoadExceptionTable]);
    lemma_remap_program_writes_ports(
        controller.primary_offset,
        controller.secondary_offset,
        primary_mask,
        secondary_mask,
    );
    lemma_port_writes_keep_state(loaded, entries, remap);
    lemma_after_all_concat(boot, entries, second, remap);
    lemma_after_all_push(boot, entries, second + remap, Operation::EnableInterrupts);
    assert((second + remap).push(Operation::EnableInterrupts) =~= spec_init(
        selectors,
        controller,
        primary_mask,
        secondary_mask,
    ));
}

/// Initialises the kernel: returns the operations to perform, in order, and
/// marks the interrupt controllers as moved. The two masks are what the data
/// ports of the primary and of the secondary controller hold. To be called
/// once, before any interrupt can come.
pub fn init(
    segments: &KernelSegments,
    exceptions: &ExceptionTable,
    controller: &mut InterruptController,
    primary_mask: u8,
    secondary_mask: u8,
) -> (operations: Vec<Operation>)
    requires
        segments.wf(),
        exceptions.wf(),
        old(controller).wf(),
        !old(controller)@.active,
    ensures
        final(controller).wf(),
        final(controller)@ == (ControllerState { active: true, ..old(controller)@ }),
        operations@ == spec_init(
            segments.spec_selectors(),
            old(controller)@,
            primary_mask,
            secondary_mask,
        ),
        Processor::spec_boot().after_all(segments.entries(), operations@) == Some(
            initialised(segments.spec_selectors()),
        ),
{
    let mut operations = gdt::init(segments);
    operations.push(interrupts::init_idt(exceptions));
    let mut remap = controller.initialize(primary_mask, secondary_mask);
    operations.append(&mut remap);
    operations.push(Operation::EnableInterrupts);
    proof {
        assert(operations@ =~= spec_init(
            segments.spec_selectors(),
            old(controller)@,
            primary_mask,
            secondary_mask,
        ));
        lemma_init_is_legal(segments, old(controller)@, primary_mask, secondary_mask);
    }
    operations
}

} // verus!
