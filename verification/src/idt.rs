//! The exception table: which routine the processor enters on which vector,
//! and on which stack.
//!
//! The table has 256 entries. Vectors 0 to 31 belong to the processor's own
//! exceptions, the rest is free for hardware interrupts. An entry without a
//! handler is legal, but a trap on it resets the processor. The double fault
//! must run on a stack of its own, because it mostly comes of a stack that
//! is used up: the builder takes no double-fault handler without one.
use crate::gdt::INTERRUPT_STACK_SLOTS;
use crate::machine::{Operation, Processor};
use vstd::prelude::*;

verus! {

/// Number of vectors of the table.
pub const VECTORS: usize = 256;

/// Vector of the breakpoint trap.
pub const BREAKPOINT_VECTOR: u8 = 3;

/// Vector of the double fault.
pub const DOUBLE_FAULT_VECTOR: u8 = 8;

/// Vector of the page fault.
pub const PAGE_FAULT_VECTOR: u8 = 14;

/// The routines that can be entered on a vector.
#[derive(Debug, Clone, Copy, PartialEq, Eq, Structural)]
pub enum Handler {
    Breakpoint,
    DoubleFault,
    PageFault,
    Timer,
    Keyboard,
}

/// One entry of the table: the routine to enter, if there is one, and the
/// slot of the interrupt stack table to switch to, if the routine is to run
/// on a stack of its own.
#[derive(Debug, Clone, Copy, PartialEq, Eq, Structural)]
pub struct VectorEntry {
    pub handler: Option<Handler>,
    pub stack_index: Option<u16>,
}

impl VectorEntry {
    /// The entry of a vector that nothing handles.
    pub open spec fn missing() -> VectorEntry {
        VectorEntry { handler: None, stack_index: None }
    }

    /// A stack index is one of the interrupt stack table and comes with a
    /// handler.
    pub open spec fn wf(self) -> bool {
        self.stack_index matches Some(index) ==> index < INTERRUPT_STACK_SLOTS
            && self.handler is Some
    }
}

/// The entries are those of a table: all 256 are there, each is well formed,
/// and the double fault, where it is handled, has a stack of its own.
pub open spec fn valid_entries(entries: Seq<VectorEntry>) -> bool {
    &&& entries.len() == VECTORS
    &&& forall|vector: int| 0 <= vector < VECTORS ==> (#[trigger] entries[vector]).wf()
    &&& entries[DOUBLE_FAULT_VECTOR as int].handler is Some ==> entries[DOUBLE_FAULT_VECTOR as int].stack_index is Some
}

/// What the processor finds when it takes a trap on `vector`: the entry of
/// the vector, where the table is loaded and the vector is handled.
pub open spec fn delivered(processor: Processor, entries: Seq<VectorEntry>, vector: u8) -> Option<
    VectorEntry,
> {
    if processor.exception_selector is Some && entries[vector as int].handler is Some {
        Some(entries[vector as int])
    } else {
        None
    }
}

/// What a processor with the table loaded finds on `vector`: the entry of the
/// vector, where it is handled.
pub open spec fn loaded_entry(entries: Seq<VectorEntry>, vector: u8) -> Option<VectorEntry> {
    if entries[vector as int].handler is Some {
        Some(entries[vector as int])
    } else {
        None
    }
}

/// The exception table.
#[derive(Debug)]
pub struct ExceptionTable {
    entries: Vec<VectorEntry>,
}

impl View for ExceptionTable {
    type V = Seq<VectorEntry>;

    closed spec fn view(&self) -> Seq<VectorEntry> {
        self.entries@
    }
}

impl ExceptionTable {
    /// The table has valid entries.
    pub open spec fn wf(&self) -> bool {
        valid_entries(self@)
    }

    /// A table in which no vector is handled.
    pub fn new() -> (table: ExceptionTable)
        ensures
            table.wf(),
            forall|vector: int| 0 <= vector < VECTORS ==> table@[vector] == VectorEntry::missing(),
    {
        let mut entries: Vec<VectorEntry> = Vec::new();
        let mut i: usize = 0;
        while i < VECTORS
            invariant
                i <= VECTORS,
                entries@.len() == i,
                forall|vector: int| 0 <= vector < i ==> entries@[vector] == VectorEntry::missing(),
            decreases VECTORS - i,
        {
            entries.push(VectorEntry { handler: None, stack_index: None });
            i += 1;
        }
        ExceptionTable { entries }
    }

    /// Enters `handler` for `vector`, to run on the stack that is in use when
    /// the trap comes. The double fault is not entered this way.
    pub fn set_handler(&mut self, vector: u8, handler: Handler)
        requires
            old(self).wf(),
            vector != DOUBLE_FAULT_VECTOR,
        ensures
            final(self).wf(),
            final(self)@ == old(self)@.update(
                vector as int,
                VectorEntry { handler: Some(handler), stack_index: None },
            ),
    {
        self.entries.set(vector as usize, VectorEntry { handler: Some(handler), stack_index: None });
    }

    /// Enters `handler` for `vector`, to run on the stack of slot `ist_index`
    /// of the interrupt stack table.
    pub fn set_handler_with_stack(&mut self, vector: u8, handler: Handler, ist_index: u16)
        requires
            old(self).wf(),
            ist_index < INTERRUPT_STACK_SLOTS,
        ensures
            final(self).wf(),
            final(self)@ == old(self)@.update(
                vector as int,
                VectorEntry { handler: Some(handler), stack_index: Some(ist_index) },
            ),
    {
        self.entries.set(
            vector as usize,
            VectorEntry { handler: Some(handler), stack_index: Some(ist_index) },
        );
    }

    /// The entry of a vector.
    pub fn entry(&self, vector: u8) -> (entry: VectorEntry)
        requires
            self.wf(),
        ensures
            entry == self@[vector as int],
            entry.wf(),
    {
        self.entries[vector as usize]
    }

    /// Asks for the table to become the processor's vector table. The
    /// operation is legal once the code-segment register is set. After it the
    /// entries carry the selector of that register, and the processor finds
    /// this table's entry on every vector that is handled.
    /// Loading changes nothing in the table, so it may be asked for again.
    pub fn load(&self) -> (operation: Operation)
        requires
            self.wf(),
        ensures
            operation == Operation::LoadExceptionTable,
            forall|processor: Processor, segments: Seq<u64>|
                processor.code_segment is Some ==> #[trigger] processor.accepts(
                    segments,
                    operation,
                ),
            forall|processor: Processor| #[trigger]
                processor.after(operation).exception_selector == processor.code_segment,
            forall|processor: Processor, vector: u8|
                processor.code_segment is Some ==> #[trigger] delivered(
                    processor.after(operation),
                    self@,
                    vector,
                ) == loaded_entry(self@, vector),
            forall|processor: Processor| #[trigger]
                processor.after(operation).after(operation) == processor.after(operation),
    {
        Operation::LoadExceptionTable
    }

    /// What the processor finds when it takes a trap on `vector`.
    pub fn deliver(&self, processor: &Processor, vector: u8) -> (entry: Option<VectorEntry>)
        requires
            self.wf(),
        ensures
            entry == delivered(*processor, self@, vector),
    {
        let entry = self.entries[vector as usize];
        if processor.exceptions_loaded() && entry.handler.is_some() {
            Some(entry)
        } else {
            None
        }
    }
}

/// Loading a table that is loaded already changes nothing: the processor is
/// in the same state after the second load as after the first, and finds the
/// same entry on every vector.
pub proof fn lemma_load_is_idempotent(
    processor: Processor,
    segments: Seq<u64>,
    entries: Seq<VectorEntry>,
    vector: u8,
)
    requires
        processor.accepts(segments, Operation::LoadExceptionTable),
    ensures
        processor.after(Operation::LoadExceptionTable).accepts(
            segments,
            Operation::LoadExceptionTable,
        ),
        processor.after(Operation::LoadExceptionTable).after(Operation::LoadExceptionTable)
            == processor.after(Operation::LoadExceptionTable),
        delivered(
            processor.after(Operation::LoadExceptionTable).after(Operation::LoadExceptionTable),
            entries,
            vector,
        ) == delivered(processor.after(Operation::LoadExceptionTable), entries, vector),
{
}

/// In a valid table the double fault, where it is handled, runs on a stack
/// of the interrupt stack table.
pub proof fn lemma_double_fault_has_stack(processor: Processor, entries: Seq<VectorEntry>)
    requires
        valid_entries(entries),
    ensures
        delivered(processor, entries, DOUBLE_FAULT_VECTOR) matches Some(entry)
            ==> entry.stack_index matches Some(index) && index < INTERRUPT_STACK_SLOTS,
{
    assert(entries[DOUBLE_FAULT_VECTOR as int].wf());
}

} // verus!
