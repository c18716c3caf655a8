//! The privileged operations that the kernel asks the boot code to perform,
//! and a model of the processor state that they set up.
//!
//! Nothing here touches the hardware. The library decides which operations
//! are due and in which order; whoever runs on the machine performs them one
//! by one. [`Processor`] says which operation is legal in which state, so that
//! an order of operations can be checked before it ever reaches a processor.
use crate::gdt::{is_task_state_descriptor, SegmentTable, Selector};
use vstd::prelude::*;

verus! {

/// The bits that a descriptor of a 64-bit code segment has set: executable,
/// user segment, present and long mode.
pub const CODE_SEGMENT_BITS: u64 = 0x0020_9800_0000_0000;

/// One privileged operation.
#[derive(Debug, Clone, Copy, PartialEq, Eq, Structural)]
pub enum Operation {
    /// Make the segment table the processor's descriptor table.
    LoadSegmentTable,
    /// Set the code-segment register.
    SetCodeSegment(Selector),
    /// Load the task register.
    LoadTaskRegister(Selector),
    /// Make the exception table the processor's vector table.
    LoadExceptionTable,
    /// Write a byte to an I/O port.
    WritePort8 { port: u16, value: u8 },
    /// Write a 32-bit word to an I/O port.
    WritePort32 { port: u16, word: u32 },
    /// Let the processor accept hardware interrupts.
    EnableInterrupts,
}

/// What happens once a handler is done.
#[derive(Debug, Clone, Copy, PartialEq, Eq, Structural)]
pub enum Flow {
    /// The interrupted instruction stream goes on.
    Resume,
    /// The processor idles for good; nothing runs any more.
    Halt,
    /// No handler took the trap: the processor resets.
    Reset,
}

/// The result of handling one trap: the operations to perform, in order, and
/// how execution goes on after them.
#[derive(Debug)]
pub struct Outcome {
    pub operations: Vec<Operation>,
    pub flow: Flow,
}

/// The word is the descriptor of a 64-bit code segment.
pub open spec fn is_code_descriptor(word: u64) -> bool {
    word & CODE_SEGMENT_BITS == CODE_SEGMENT_BITS
}

/// The part of the processor state that initialisation sets up.
#[derive(Debug, Clone, Copy, PartialEq, Eq, Structural)]
pub struct Processor {
    /// The segment table is the active descriptor table.
    pub segments_loaded: bool,
    /// The selector in the code-segment register, once it was set.
    pub code_segment: Option<Selector>,
    /// The selector in the task register, once it was loaded.
    pub task_register: Option<Selector>,
    /// The code selector that the entries of the active vector table carry,
    /// once the exception table was loaded.
    pub exception_selector: Option<Selector>,
    /// Hardware interrupts are accepted.
    pub interrupts_enabled: bool,
}

impl Processor {
    /// The state at boot: nothing is loaded and interrupts are off.
    pub open spec fn spec_boot() -> Processor {
        Processor {
            segments_loaded: false,
            code_segment: None,
            task_register: None,
            exception_selector: None,
            interrupts_enabled: false,
        }
    }

    /// The state at boot: nothing is loaded and interrupts are off.
    #[verifier::when_used_as_spec(spec_boot)]
    pub fn boot() -> (processor: Processor)
        ensures
            processor == Processor::spec_boot(),
    {
        Processor {
            segments_loaded: false,
            code_segment: None,
            task_register: None,
            exception_selector: None,
            interrupts_enabled: false,
        }
    }

    /// The exception table is the active vector table.
    pub open spec fn spec_exceptions_loaded(&self) -> bool {
        self.exception_selector is Some
    }

    /// The exception table is the active vector table.
    #[verifier::when_used_as_spec(spec_exceptions_loaded)]
    pub fn exceptions_loaded(&self) -> (loaded: bool)
        ensures
            loaded == self.spec_exceptions_loaded(),
    {
        self.exception_selector.is_some()
    }

    /// The operation is legal in this state, given the slots of the segment
    /// table. A selector must refer to a slot behind the null descriptor that
    /// holds a descriptor of the right kind, in a table that is loaded; the
    /// exception table needs an active code segment, whose selector its
    /// entries carry from then on; interrupts need a loaded exception table.
    pub open spec fn accepts(self, segments: Seq<u64>, operation: Operation) -> bool {
        match operation {
            Operation::LoadSegmentTable => segments.len() >= 1 && segments[0] == 0,
            Operation::SetCodeSegment(selector) => {
                &&& self.segments_loaded
                &&& 1 <= selector.spec_index() < segments.len()
                &&& is_code_descriptor(segments[selector.spec_index() as int])
            },
            Operation::LoadTaskRegister(selector) => {
                &&& self.segments_loaded
                &&& 1 <= selector.spec_index()
                &&& selector.spec_index() + 1 < segments.len()
                &&& is_task_state_descriptor(
                    segments[selector.spec_index() as int],
                    segments[selector.spec_index() + 1],
                )
            },
            Operation::LoadExceptionTable => self.code_segment is Some,
            Operation::WritePort8 { .. } => true,
            Operation::WritePort32 { .. } => true,
            Operation::EnableInterrupts => self.exception_selector is Some,
        }
    }

    /// The state after a legal operation.
    pub open spec fn after(self, operation: Operation) -> Processor {
        match operation {
            Operation::LoadSegmentTable => Processor { segments_loaded: true, ..self },
            Operation::SetCodeSegment(selector) => Processor {
                code_segment: Some(selector),
                ..self
            },
            Operation::LoadTaskRegister(selector) => Processor {
                task_register: Some(selector),
                ..self
            },
            Operation::LoadExceptionTable => Processor {
                exception_selector: self.code_segment,
                ..self
            },
            Operation::WritePort8 { .. } => self,
            Operation::WritePort32 { .. } => self,
            Operation::EnableInterrupts => Processor { interrupts_enabled: true, ..self },
        }
    }

    /// The state after a run of operations, if each of them was legal when
    /// its turn came.
    pub open spec fn after_all(self, segments: Seq<u64>, operations: Seq<Operation>) -> Option<
        Processor,
    >
        decreases operations.len(),
    {
        if operations.len() == 0 {
            Some(self)
        } else {
            match self.after_all(segments, operations.drop_last()) {
                Some(state) => if state.accepts(segments, operations.last()) {
                    Some(state.after(operations.last()))
                } else {
                    None
                },
                None => None,
            }
        }
    }

    /// Performs one operation on the model. An operation that is not legal
    /// leaves the state as it is and is reported by `false`.
    pub fn perform(&mut self, segments: &SegmentTable, operation: Operation) -> (accepted: bool)
        ensures
            accepted == old(self).accepts(segments@, operation),
            accepted ==> *final(self) == old(self).after(operation),
            !accepted ==> *final(self) == *old(self),
    {
        match operation {
            Operation::LoadSegmentTable => {
                let entries = segments.entries();
                if entries.len() >= 1 && entries[0] == 0 {
                    self.segments_loaded = true;
                    true
                } else {
                    false
                }
            },
            Operation::SetCodeSegment(selector) => {
                let entries = segments.entries();
                let index: usize = selector.index() as usize;
                if self.segments_loaded && 1 <= index && index < entries.len() && entries[index]
                    & CODE_SEGMENT_BITS == CODE_SEGMENT_BITS {
                    self.code_segment = Some(selector);
                    true
                } else {
                    false
                }
            },
            Operation::LoadTaskRegister(selector) => {
                let entries = segments.entries();
                let index: usize = selector.index() as usize;
                if self.segments_loaded && 1 <= index && index + 1 < entries.len() && entries[index]
                    & 0x00ff_ff00_0000_ffff == 0x0000_8900_0000_0067 && entries[index + 1] >> 32
                    == 0 {
                    self.task_register = Some(selector);
                    true
                } else {
                    false
                }
            },
            Operation::LoadExceptionTable => {
                if self.code_segment.is_some() {
                    self.exception_selector = self.code_segment;
                    true
                } else {
                    false
                }
            },
            Operation::WritePort8 { .. } => true,
            Operation::WritePort32 { .. } => true,
            Operation::EnableInterrupts => {
                if self.exception_selector.is_some() {
                    self.interrupts_enabled = true;
                    true
                } else {
                    false
                }
            },
        }
    }

    /// A run of operations from this state stops before operation `n`, in the
    /// state `end`: the operations before it were legal and lead to `end`,
    /// and operation `n` is not legal there.
    pub open spec fn stops_at(
        self,
        segments: Seq<u64>,
        operations: Seq<Operation>,
        n: int,
        end: Processor,
    ) -> bool {
        &&& 0 <= n < operations.len()
        &&& self.after_all(segments, operations.subrange(0, n)) == Some(end)
        &&& !end.accepts(segments, operations[n])
    }

    /// Every selector that is bound refers to a slot of the segment table
    /// behind the null descriptor; those of the code-segment register and of
    /// the exception table refer to a code segment.
    pub open spec fn selectors_bound(self, segments: Seq<u64>) -> bool {
        &&& self.code_segment matches Some(selector) ==> 1 <= selector.spec_index()
            < segments.len() && is_code_descriptor(segments[selector.spec_index() as int])
        &&& self.exception_selector matches Some(selector) ==> 1 <= selector.spec_index()
            < segments.len() && is_code_descriptor(segments[selector.spec_index() as int])
        &&& self.task_register matches Some(selector) ==> 1 <= selector.spec_index()
            < segments.len()
    }

    /// Performs a run of operations on the model, in order, and stops at the
    /// first that is not legal. `true` where all of them were performed;
    /// otherwise the state is the one that the legal operations before the
    /// first illegal one lead to.
    pub fn perform_all(&mut self, segments: &SegmentTable, operations: &Vec<Operation>) -> (done:
        bool)
        ensures
            done == old(self).after_all(segments@, operations@).is_some(),
            done ==> Some(*final(self)) == old(self).after_all(segments@, operations@),
            !done ==> exists|n: int|
                #[trigger] old(self).stops_at(segments@, operations@, n, *final(self)),
    {
        let mut i: usize = 0;
        while i < operations.len()
            invariant
                i <= operations@.len(),
                Some(*self) == old(self).after_all(segments@, operations@.subrange(0, i as int)),
            decreases operations@.len() - i,
        {
            proof {
                assert(operations@.subrange(0, i + 1).drop_last() =~= operations@.subrange(
                    0,
                    i as int,
                ));
            }
            let accepted = self.perform(segments, operations[i]);
            if !accepted {
                proof {
                    lemma_after_all_prefix(*old(self), segments@, operations@, i + 1);
                    assert(old(self).stops_at(segments@, operations@, i as int, *self));
                }
                return false;
            }
            i += 1;
        }
        proof {
            assert(operations@.subrange(0, i as int) =~= operations@);
        }
        true
    }
}

/// A run that fails on a prefix fails as a whole.
pub proof fn lemma_after_all_prefix(
    start: Processor,
    segments: Seq<u64>,
    operations: Seq<Operation>,
    n: int,
)
    requires
        0 <= n <= operations.len(),
        start.after_all(segments, operations.subrange(0, n)) is None,
    ensures
        start.after_all(segments, operations) is None,
    decreases operations.len() - n,
{
    if n < operations.len() {
        assert(operations.subrange(0, n + 1).drop_last() =~= operations.subrange(0, n));
        lemma_after_all_prefix(start, segments, operations, n + 1);
    } else {
        assert(operations.subrange(0, n) =~= operations);
    }
}

/// A run of two parts is legal where the first part is and the second is
/// legal from where the first ends.
pub proof fn lemma_after_all_concat(
    start: Processor,
    segments: Seq<u64>,
    first: Seq<Operation>,
    second: Seq<Operation>,
)
    ensures
        start.after_all(segments, first + second) == match start.after_all(segments, first) {
            Some(middle) => middle.after_all(segments, second),
            None => None,
        },
    decreases second.len(),
{
    if second.len() == 0 {
        assert(first + second =~= first);
    } else {
        lemma_after_all_concat(start, segments, first, second.drop_last());
        assert((first + second).drop_last() =~= first + second.drop_last());
        assert((first + second).last() == second.last());
    }
}

/// A run with one more operation at its end: the run before it, then that
/// operation, if it is legal there.
pub proof fn lemma_after_all_push(
    start: Processor,
    segments: Seq<u64>,
    operations: Seq<Operation>,
    operation: Operation,
)
    ensures
        start.after_all(segments, operations.push(operation)) == match start.after_all(
            segments,
            operations,
        ) {
            Some(state) => if state.accepts(segments, operation) {
                Some(state.after(operation))
            } else {
                None
            },
            None => None,
        },
{
    assert(operations.push(operation).drop_last() =~= operations);
}

/// Port writes are legal in every state and change nothing of it.
pub proof fn lemma_port_writes_keep_state(
    start: Processor,
    segments: Seq<u64>,
    operations: Seq<Operation>,
)
    requires
        forall|i: int|
            0 <= i < operations.len() ==> (#[trigger] operations[i]) is WritePort8
                || operations[i] is WritePort32,
    ensures
        start.after_all(segments, operations) == Some(start),
    decreases operations.len(),
{
    if operations.len() > 0 {
        lemma_port_writes_keep_state(start, segments, operations.drop_last());
        assert(operations.last() == operations[operations.len() - 1]);
    }
}

/// A table that the processor takes starts with the null descriptor, and no
/// selector that it takes refers to that slot.
pub proof fn lemma_null_descriptor_is_never_selected(
    processor: Processor,
    segments: Seq<u64>,
    selector: Selector,
)
    ensures
        processor.accepts(segments, Operation::LoadSegmentTable) ==> segments[0] == 0,
        processor.accepts(segments, Operation::SetCodeSegment(selector)) ==> selector.spec_index()
            != 0,
        processor.accepts(segments, Operation::LoadTaskRegister(selector))
            ==> selector.spec_index() != 0,
{
}

/// Legal operations keep every bound selector on a slot behind the null
/// descriptor, and the selector that the exception table carries on a code
/// segment: no state that a legal run reaches from boot has a selector of
/// index 0 in force.
pub proof fn lemma_legal_runs_keep_selectors_bound(
    start: Processor,
    segments: Seq<u64>,
    operations: Seq<Operation>,
)
    requires
        start.selectors_bound(segments),
        start.after_all(segments, operations) is Some,
    ensures
        start.after_all(segments, operations)->0.selectors_bound(segments),
    decreases operations.len(),
{
    if operations.len() > 0 {
        lemma_legal_runs_keep_selectors_bound(start, segments, operations.drop_last());
    }
}

} // verus!
