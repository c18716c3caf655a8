//! The segment descriptor table and the task-state segment.
//!
//! The tables themselves are those of the `x86_64` crate. This module builds
//! them, keeps what is known of their contents, and hands out the selectors
//! that the boot code binds once the table is loaded: a table always starts
//! with the null descriptor, and no selector issued here refers to it.
use crate::machine::{is_code_descriptor, lemma_after_all_push, Operation, Processor};
use vstd::prelude::*;
use x86_64::structures::gdt::GlobalDescriptorTable;
use x86_64::structures::tss::TaskStateSegment;

verus! {

/// The interrupt-stack-table slot that the double-fault handler runs on.
pub const DOUBLE_FAULT_IST_INDEX: u16 = 0;

/// Size in bytes of the stack reserved for the double-fault handler.
pub const DOUBLE_FAULT_STACK_SIZE: u64 = 20480;

/// Number of slots of the interrupt stack table.
pub const INTERRUPT_STACK_SLOTS: usize = 7;

/// Number of privilege levels that a task-state segment holds a stack pointer
/// for.
pub const PRIVILEGE_STACK_SLOTS: usize = 3;

/// Number of 64-bit slots of a segment table, the null descriptor included.
pub const SEGMENT_TABLE_SLOTS: usize = 8;

/// The descriptor of the 64-bit kernel code segment.
pub const KERNEL_CODE_SEGMENT: u64 = 0x00af_9b00_0000_ffff;

#[verifier::external_type_specification]
#[verifier::external_body]
pub struct ExGlobalDescriptorTable(GlobalDescriptorTable);

#[verifier::external_type_specification]
#[verifier::external_body]
pub struct ExTaskStateSegment(TaskStateSegment);

/// The slots of a descriptor table that are in use, the null descriptor first.
pub uninterp spec fn table_entries(table: GlobalDescriptorTable) -> Seq<u64>;

/// The seven stack pointers of the interrupt stack table of a task-state segment.
pub uninterp spec fn interrupt_stacks(segment: TaskStateSegment) -> Seq<u64>;

/// The three stack pointers of the privilege stack table of a task-state
/// segment, that of level 0 first.
pub uninterp spec fn privilege_stacks(segment: TaskStateSegment) -> Seq<u64>;

/// The canonical form of a virtual address, where it has one: bits 47 to 63
/// are all equal, or only bit 47 is set among them and the sign is extended.
pub open spec fn canonical_form(address: u64) -> Option<u64> {
    let top = address >> 47;
    if top == 0 || top == 0x1ffff {
        Some(address)
    } else if top == 1 {
        Some(address | 0xffff_0000_0000_0000)
    } else {
        None
    }
}

/// The address is in canonical form already.
pub open spec fn is_canonical(address: u64) -> bool {
    address >> 47 == 0 || address >> 47 == 0x1ffff
}

/// The descriptor privilege level that a descriptor's low word carries.
pub open spec fn privilege_level(low: u64) -> u16 {
    ((low >> 45) & 3) as u16
}

/// The two words describe an available 64-bit task-state segment that is
/// present, has privilege level 0 and the limit of a segment without an I/O
/// bitmap; the bits of the base address are left open.
pub open spec fn is_task_state_descriptor(low: u64, high: u64) -> bool {
    &&& low & 0x00ff_ff00_0000_ffff == 0x0000_8900_0000_0067
    &&& high >> 32 == 0
}

/// A segment descriptor: one word for a code or data segment, two for a
/// system segment.
#[derive(Debug, Clone, Copy, PartialEq, Eq, Structural)]
pub enum Descriptor {
    UserSegment(u64),
    SystemSegment(u64, u64),
}

impl Descriptor {
    /// The words that the descriptor occupies in a table, in order.
    pub open spec fn words(self) -> Seq<u64> {
        match self {
            Descriptor::UserSegment(value) => seq![value],
            Descriptor::SystemSegment(low, high) => seq![low, high],
        }
    }

    /// The word that holds the flags of the descriptor.
    pub open spec fn low(self) -> u64 {
        match self {
            Descriptor::UserSegment(value) => value,
            Descriptor::SystemSegment(low, _) => low,
        }
    }

    /// The descriptor is that of an available task-state segment.
    pub open spec fn is_task_state(self) -> bool {
        self matches Descriptor::SystemSegment(low, high) && is_task_state_descriptor(low, high)
    }

    /// The descriptor of the 64-bit kernel code segment.
    pub fn kernel_code_segment() -> (descriptor: Descriptor)
        ensures
            descriptor == Descriptor::UserSegment(KERNEL_CODE_SEGMENT),
    {
        kernel_code_descriptor()
    }

    /// The descriptor of a task-state segment. Its base address is that of the
    /// segment in memory and is not known here.
    pub fn tss_segment(task_state: &'static TaskState) -> (descriptor: Descriptor)
        ensures
            descriptor.is_task_state(),
    {
        task_state_descriptor(&task_state.segment)
    }
}

/// A reference to a slot of the segment table: the slot's index in the upper
/// thirteen bits, the table indicator in bit 2 and the requested privilege
/// level in the lower two.
#[derive(Debug, Clone, Copy, PartialEq, Eq, Structural)]
pub struct Selector(pub u16);

impl Selector {
    /// The index of the slot that the selector refers to.
    pub open spec fn spec_index(self) -> u16 {
        self.0 / 8
    }

    /// The requested privilege level.
    pub open spec fn spec_rpl(self) -> u16 {
        self.0 % 4
    }

    /// The index of the slot that the selector refers to.
    #[verifier::when_used_as_spec(spec_index)]
    pub fn index(self) -> (index: u16)
        ensures
            index == self.spec_index(),
    {
        self.0 / 8
    }

    /// The requested privilege level.
    #[verifier::when_used_as_spec(spec_rpl)]
    pub fn rpl(self) -> (rpl: u16)
        ensures
            rpl == self.spec_rpl(),
    {
        self.0 % 4
    }
}

/// `GlobalDescriptorTable::new`: a table whose only slot in use is the null
/// descriptor.
#[verifier::external_body]
fn table_new() -> (table: GlobalDescriptorTable)
    ensures
        table_entries(table) == seq![0u64],
{
    GlobalDescriptorTable::new()
}

/// `GlobalDescriptorTable::add_entry`: appends the words of the descriptor and
/// returns the selector of the first of them, with the descriptor's privilege
/// level as the requested one. The call panics where the table has no room,
/// which `requires` leaves out.
#[verifier::external_body]
fn table_add_entry(table: &mut GlobalDescriptorTable, descriptor: Descriptor) -> (selector:
    Selector)
    requires
        table_entries(*old(table)).len() + descriptor.words().len() <= SEGMENT_TABLE_SLOTS,
    ensures
        table_entries(*final(table)) == table_entries(*old(table)) + descriptor.words(),
        selector.0 == table_entries(*old(table)).len() * 8 + privilege_level(descriptor.low()),
{
    let entry = match descriptor {
        Descriptor::UserSegment(value) => x86_64::structures::gdt::Descriptor::UserSegment(value),
        Descriptor::SystemSegment(low, high) => x86_64::structures::gdt::Descriptor::SystemSegment(
            low,
            high,
        ),
    };
    Selector(table.add_entry(entry).0)
}

/// `GlobalDescriptorTable::as_raw_slice`: the slots in use.
#[verifier::external_body]
fn table_as_raw_slice(table: &GlobalDescriptorTable) -> (entries: Vec<u64>)
    ensures
        entries@ == table_entries(*table),
{
    table.as_raw_slice().to_vec()
}

/// `Descriptor::kernel_code_segment`: the flat 64-bit code segment of ring 0.
#[verifier::external_body]
fn kernel_code_descriptor() -> (descriptor: Descriptor)
    ensures
        descriptor == Descriptor::UserSegment(KERNEL_CODE_SEGMENT),
{
    match x86_64::structures::gdt::Descriptor::kernel_code_segment() {
        x86_64::structures::gdt::Descriptor::UserSegment(value) => Descriptor::UserSegment(value),
        x86_64::structures::gdt::Descriptor::SystemSegment(low, high) => Descriptor::SystemSegment(
            low,
            high,
        ),
    }
}

/// `Descriptor::tss_segment`: a present system descriptor of type "available
/// 64-bit TSS" with limit 0x67; the base is the address of the segment, of
/// which nothing is claimed.
#[verifier::external_body]
fn task_state_descriptor(segment: &'static TaskStateSegment) -> (descriptor: Descriptor)
    ensures
        descriptor.is_task_state(),
{
    match x86_64::structures::gdt::Descriptor::tss_segment(segment) {
        x86_64::structures::gdt::Descriptor::UserSegment(value) => Descriptor::UserSegment(value),
        x86_64::structures::gdt::Descriptor::SystemSegment(low, high) => Descriptor::SystemSegment(
            low,
            high,
        ),
    }
}

/// `TaskStateSegment::new`: every stack pointer is zero, those of the
/// privilege levels and those of the interrupt stack table.
#[verifier::external_body]
fn segment_new() -> (segment: TaskStateSegment)
    ensures
        interrupt_stacks(segment) == Seq::new(INTERRUPT_STACK_SLOTS as nat, |i: int| 0u64),
        privilege_stacks(segment) == Seq::new(PRIVILEGE_STACK_SLOTS as nat, |i: int| 0u64),
{
    TaskStateSegment::new()
}

/// Stores an address in one slot of the `interrupt_stack_table` field, which
/// leaves the privilege stack table as it is. `VirtAddr::new` keeps a
/// canonical address as it is and panics on one that has no canonical form;
/// `requires` admits canonical addresses only.
#[verifier::external_body]
fn segment_set_interrupt_stack(segment: &mut TaskStateSegment, index: usize, top: u64)
    requires
        index < INTERRUPT_STACK_SLOTS,
        is_canonical(top),
    ensures
        interrupt_stacks(*final(segment)) == interrupt_stacks(*old(segment)).update(
            index as int,
            top,
        ),
        privilege_stacks(*final(segment)) == privilege_stacks(*old(segment)),
{
    segment.interrupt_stack_table[index] = x86_64::VirtAddr::new(top);
}

/// Reads one slot of the `interrupt_stack_table` field.
#[verifier::external_body]
fn segment_interrupt_stack(segment: &TaskStateSegment, index: usize) -> (top: u64)
    requires
        index < INTERRUPT_STACK_SLOTS,
    ensures
        top == interrupt_stacks(*segment)[index as int],
{
    let slots = segment.interrupt_stack_table;
    slots[index].as_u64()
}

/// `VirtAddr::try_new`: the canonical form of an address, or nothing where
/// bits 47 to 63 hold anything but a sign extension or a lone bit 47.
#[verifier::external_body]
fn virt_addr_try_new(address: u64) -> (canonical: Option<u64>)
    ensures
        canonical == canonical_form(address),
{
    match x86_64::VirtAddr::try_new(address) {
        Ok(canonical) => Some(canonical.as_u64()),
        Err(_) => None,
    }
}

/// The highest address of a stack region, in canonical form: the canonical
/// form of the region's start, plus its size, where each step has a result.
pub open spec fn spec_stack_top(start: u64, size: u64) -> Option<u64> {
    match canonical_form(start) {
        Some(base) => if base + size <= u64::MAX {
            canonical_form((base + size) as u64)
        } else {
            None
        },
        None => None,
    }
}

/// The highest address of the stack region that starts at `start` and has
/// `size` bytes. Stacks grow downwards, so this is where a stack pointer
/// starts. `None` where the region does not lie in the address space.
pub fn stack_top(start: u64, size: u64) -> (top: Option<u64>)
    ensures
        top == spec_stack_top(start, size),
        top matches Some(address) ==> is_canonical(address),
{
    match virt_addr_try_new(start) {
        Some(base) => match base.checked_add(size) {
            Some(end) => {
                let top = virt_addr_try_new(end);
                proof {
                    lemma_canonical_form_is_canonical(end);
                }
                top
            },
            None => None,
        },
        None => None,
    }
}

/// What [`canonical_form`] yields is canonical and is its own canonical form.
pub proof fn lemma_canonical_form_is_canonical(address: u64)
    ensures
        canonical_form(address) matches Some(canonical) ==> is_canonical(canonical)
            && canonical_form(canonical) == Some(canonical),
        is_canonical(address) <==> canonical_form(address) == Some(address),
{
    assert(address >> 47 == 1 ==> (address | 0xffff_0000_0000_0000) >> 47 == 0x1ffff)
        by (bit_vector);
    assert(address >> 47 == 1 ==> (address | 0xffff_0000_0000_0000) != address) by (bit_vector);
}

/// The mathematical model of a [`TaskState`]: the stack pointers of the
/// three privilege levels, and the seven of the interrupt stack table.
pub struct TaskStateView {
    pub privilege_stacks: Seq<u64>,
    pub interrupt_stacks: Seq<u64>,
}

/// The task state: the stack pointers that the processor switches to by
/// itself. Only the interrupt stack table is used here; the stack pointers of
/// the privilege levels stay zero.
pub struct TaskState {
    segment: TaskStateSegment,
}

impl View for TaskState {
    type V = TaskStateView;

    closed spec fn view(&self) -> TaskStateView {
        TaskStateView {
            privilege_stacks: privilege_stacks(self.segment),
            interrupt_stacks: interrupt_stacks(self.segment),
        }
    }
}

impl TaskState {
    /// Both tables have their slots.
    pub open spec fn wf(&self) -> bool {
        &&& self@.privilege_stacks.len() == PRIVILEGE_STACK_SLOTS
        &&& self@.interrupt_stacks.len() == INTERRUPT_STACK_SLOTS
    }

    /// No stack pointer of a privilege level is set.
    pub open spec fn privilege_stacks_unused(&self) -> bool {
        forall|level: int|
            0 <= level < PRIVILEGE_STACK_SLOTS ==> #[trigger] self@.privilege_stacks[level] == 0
    }

    /// A task state in which every stack pointer is zero.
    pub fn new() -> (task_state: TaskState)
        ensures
            task_state.wf(),
            task_state.privilege_stacks_unused(),
            forall|i: int|
                0 <= i < INTERRUPT_STACK_SLOTS ==> #[trigger] task_state@.interrupt_stacks[i] == 0,
    {
        TaskState { segment: segment_new() }
    }

    /// Makes `top_address` the stack pointer of one slot of the interrupt
    /// stack table, and changes nothing else. The caller answers for the
    /// region below that address.
    pub fn set_alternate_stack(&mut self, index: u16, top_address: u64)
        requires
            old(self).wf(),
            index < INTERRUPT_STACK_SLOTS,
            is_canonical(top_address),
        ensures
            final(self).wf(),
            final(self)@ == (TaskStateView {
                interrupt_stacks: old(self)@.interrupt_stacks.update(index as int, top_address),
                ..old(self)@
            }),
    {
        segment_set_interrupt_stack(&mut self.segment, index as usize, top_address);
    }

    /// The stack pointer of one slot of the interrupt stack table.
    pub fn alternate_stack(&self, index: u16) -> (top_address: u64)
        requires
            self.wf(),
            index < INTERRUPT_STACK_SLOTS,
        ensures
            top_address == self@.interrupt_stacks[index as int],
    {
        segment_interrupt_stack(&self.segment, index as usize)
    }

    /// The segment as the processor reads it.
    pub fn segment(&self) -> (segment: &TaskStateSegment)
        ensures
            interrupt_stacks(*segment) == self@.interrupt_stacks,
            privilege_stacks(*segment) == self@.privilege_stacks,
    {
        &self.segment
    }

    /// The task state of this kernel: the double-fault slot points to the top
    /// of the stack region that starts at `stack_start` and has
    /// [`DOUBLE_FAULT_STACK_SIZE`] bytes, every other stack pointer is zero.
    /// `None` where that region does not lie in the address space.
    pub fn with_double_fault_stack(stack_start: u64) -> (task_state: Option<TaskState>)
        ensures
            task_state is Some <==> spec_stack_top(stack_start, DOUBLE_FAULT_STACK_SIZE) is Some,
            task_state matches Some(state) ==> {
                &&& state.wf()
                &&& state.privilege_stacks_unused()
                &&& Some(state@.interrupt_stacks[DOUBLE_FAULT_IST_INDEX as int]) == spec_stack_top(
                    stack_start,
                    DOUBLE_FAULT_STACK_SIZE,
                )
                &&& forall|i: int|
                    0 <= i < INTERRUPT_STACK_SLOTS && i != DOUBLE_FAULT_IST_INDEX
                        ==> #[trigger] state@.interrupt_stacks[i] == 0
            },
    {
        match stack_top(stack_start, DOUBLE_FAULT_STACK_SIZE) {
            Some(stack_end) => {
                let mut task_state = TaskState::new();
                task_state.set_alternate_stack(DOUBLE_FAULT_IST_INDEX, stack_end);
                Some(task_state)
            },
            None => None,
        }
    }
}

/// The segment descriptor table. Slot 0 is the null descriptor; descriptors
/// are appended behind it and never changed.
pub struct SegmentTable {
    table: GlobalDescriptorTable,
}

impl View for SegmentTable {
    type V = Seq<u64>;

    /// The slots in use, the null descriptor first.
    closed spec fn view(&self) -> Seq<u64> {
        table_entries(self.table)
    }
}

impl SegmentTable {
    /// The table holds the null descriptor in slot 0 and has no more slots in
    /// use than the processor's table has.
    pub open spec fn wf(&self) -> bool {
        &&& 1 <= self@.len() <= SEGMENT_TABLE_SLOTS
        &&& self@[0] == 0
    }

    /// The selector refers to a slot of this table other than the null
    /// descriptor.
    pub open spec fn issues(&self, selector: Selector) -> bool {
        1 <= selector.spec_index() < self@.len()
    }

    /// A table that holds the null descriptor only.
    pub fn new() -> (table: SegmentTable)
        ensures
            table.wf(),
            table@ == seq![0u64],
    {
        SegmentTable { table: table_new() }
    }

    /// Appends a descriptor and returns the selector that refers to it.
    pub fn add_entry(&mut self, descriptor: Descriptor) -> (selector: Selector)
        requires
            old(self).wf(),
            old(self)@.len() + descriptor.words().len() <= SEGMENT_TABLE_SLOTS,
        ensures
            final(self).wf(),
            final(self)@ == old(self)@ + descriptor.words(),
            selector.0 == old(self)@.len() * 8 + privilege_level(descriptor.low()),
            selector.spec_index() == old(self)@.len(),
            selector.spec_rpl() == privilege_level(descriptor.low()),
            final(self).issues(selector),
    {
        let selector = table_add_entry(&mut self.table, descriptor);
        proof {
            let low = descriptor.low();
            let level = privilege_level(low);
            assert(level < 4) by (bit_vector)
                requires
                    level == ((low >> 45) & 3) as u16,
            ;
        }
        selector
    }

    /// Appends the descriptor of the kernel code segment.
    pub fn add_code_segment(&mut self) -> (selector: Selector)
        requires
            old(self).wf(),
            old(self)@.len() < SEGMENT_TABLE_SLOTS,
        ensures
            final(self).wf(),
            final(self)@ == old(self)@.push(KERNEL_CODE_SEGMENT),
            selector.0 == old(self)@.len() * 8,
            final(self).issues(selector),
    {
        let descriptor = Descriptor::kernel_code_segment();
        proof {
            assert(((KERNEL_CODE_SEGMENT >> 45) & 3) as u16 == 0) by (bit_vector);
            assert(descriptor.words() =~= seq![KERNEL_CODE_SEGMENT]);
        }
        self.add_entry(descriptor)
    }

    /// Appends the descriptor of a task-state segment, which takes two slots.
    pub fn add_task_state_segment(&mut self, task_state: &'static TaskState) -> (selector:
        Selector)
        requires
            old(self).wf(),
            old(self)@.len() + 2 <= SEGMENT_TABLE_SLOTS,
        ensures
            final(self).wf(),
            final(self)@.len() == old(self)@.len() + 2,
            final(self)@.subrange(0, old(self)@.len() as int) == old(self)@,
            is_task_state_descriptor(
                final(self)@[old(self)@.len() as int],
                final(self)@[old(self)@.len() as int + 1],
            ),
            selector.0 == old(self)@.len() * 8,
            final(self).issues(selector),
    {
        let descriptor = Descriptor::tss_segment(task_state);
        proof {
            let low = descriptor.low();
            assert(((low >> 45) & 3) as u16 == 0) by (bit_vector)
                requires
                    low & 0x00ff_ff00_0000_ffff == 0x0000_8900_0000_0067,
            ;
        }
        self.add_entry(descriptor)
    }

    /// Asks for the table to become the processor's descriptor table. Every
    /// descriptor must have been appended before; the selectors are bound
    /// afterwards.
    pub fn load(&self) -> (operation: Operation)
        requires
            self.wf(),
        ensures
            operation == Operation::LoadSegmentTable,
            forall|processor: Processor| processor.accepts(self@, operation),
    {
        Operation::LoadSegmentTable
    }

    /// The slots in use, the null descriptor first.
    pub fn entries(&self) -> (entries: Vec<u64>)
        ensures
            entries@ == self@,
    {
        table_as_raw_slice(&self.table)
    }

    /// The table as the processor reads it.
    pub fn table(&self) -> (table: &GlobalDescriptorTable)
        ensures
            table_entries(*table) == self@,
    {
        &self.table
    }
}

/// The selectors of the two segments of this kernel.
#[derive(Debug, Clone, Copy, PartialEq, Eq, Structural)]
pub struct Selectors {
    pub code_selector: Selector,
    pub tss_selector: Selector,
}

/// The segment table of this kernel together with the selectors that it
/// issued: the null descriptor, the kernel code segment, and the two words of
/// the task-state segment.
pub struct KernelSegments {
    table: SegmentTable,
    selectors: Selectors,
}

impl KernelSegments {
    /// The table holds the kernel's descriptors in their slots, and the
    /// selectors refer to them: the code segment in slot 1, the task-state
    /// segment in slots 2 and 3.
    pub closed spec fn wf(&self) -> bool {
        &&& self.table.wf()
        &&& self.table@.len() == 4
        &&& self.table@[1] == KERNEL_CODE_SEGMENT
        &&& is_task_state_descriptor(self.table@[2], self.table@[3])
        &&& self.selectors.code_selector == Selector(8)
        &&& self.selectors.tss_selector == Selector(16)
    }

    /// The slots of the table.
    pub closed spec fn entries(&self) -> Seq<u64> {
        self.table@
    }

    /// The selectors that the table issued.
    pub closed spec fn spec_selectors(&self) -> Selectors {
        self.selectors
    }

    /// What well-formedness means for the slots and the selectors.
    pub proof fn lemma_wf(&self)
        requires
            self.wf(),
        ensures
            self.entries().len() == 4,
            self.entries()[0] == 0,
            self.entries()[1] == KERNEL_CODE_SEGMENT,
            is_code_descriptor(self.entries()[1]),
            is_task_state_descriptor(self.entries()[2], self.entries()[3]),
            self.spec_selectors().code_selector == Selector(8),
            self.spec_selectors().code_selector.spec_index() == 1,
            self.spec_selectors().tss_selector == Selector(16),
            self.spec_selectors().tss_selector.spec_index() == 2,
    {
        assert(0x00af_9b00_0000_ffffu64 & 0x0020_9800_0000_0000u64 == 0x0020_9800_0000_0000u64)
            by (bit_vector);
    }

    /// Builds the table: the kernel code segment first, then the task-state
    /// segment.
    pub fn new(task_state: &'static TaskState) -> (segments: KernelSegments)
        ensures
            segments.wf(),
    {
        let mut table = SegmentTable::new();
        let code_selector = table.add_code_segment();
        let tss_selector = table.add_task_state_segment(task_state);
        proof {
            let before = seq![0u64, KERNEL_CODE_SEGMENT];
            assert(table@.subrange(0, 2) == before);
            assert(table@[0] == table@.subrange(0, 2)[0]);
            assert(table@[1] == table@.subrange(0, 2)[1]);
        }
        KernelSegments { table, selectors: Selectors { code_selector, tss_selector } }
    }

    /// The segment table.
    pub fn table(&self) -> (table: &SegmentTable)
        ensures
            table@ == self.entries(),
            self.wf() ==> table.wf(),
    {
        &self.table
    }

    /// The selectors that the table issued.
    #[verifier::when_used_as_spec(spec_selectors)]
    pub fn selectors(&self) -> (selectors: Selectors)
        ensures
            selectors == self.spec_selectors(),
    {
        self.selectors
    }
}

/// The operations that bring the kernel's segments into force, in the only
/// order that is legal: load the table, then set the code-segment register,
/// then load the task register.
pub open spec fn spec_init(selectors: Selectors) -> Seq<Operation> {
    seq![
        Operation::LoadSegmentTable,
        Operation::SetCodeSegment(selectors.code_selector),
        Operation::LoadTaskRegister(selectors.tss_selector),
    ]
}

/// The processor state after the operations of [`init`] were performed on
/// `start`.
pub open spec fn after_init(start: Processor, selectors: Selectors) -> Processor {
    Processor {
        segments_loaded: true,
        code_segment: Some(selectors.code_selector),
        task_register: Some(selectors.tss_selector),
        ..start
    }
}

/// Performing the operations of [`init`] is legal from every state and leaves
/// the table loaded and both selectors bound.
pub proof fn lemma_init_is_legal(segments: &KernelSegments, start: Processor)
    requires
        segments.wf(),
    ensures
        start.after_all(segments.entries(), spec_init(segments.spec_selectors())) == Some(
            after_init(start, segments.spec_selectors()),
        ),
{
    segments.lemma_wf();
    let entries = segments.entries();
    let selectors = segments.spec_selectors();
    let none = Seq::<Operation>::empty();
    let one = none.push(Operation::LoadSegmentTable);
    let two = one.push(Operation::SetCodeSegment(selectors.code_selector));
    let three = two.push(Operation::LoadTaskRegister(selectors.tss_selector));
    lemma_after_all_push(start, entries, none, Operation::LoadSegmentTable);
    lemma_after_all_push(start, entries, one, Operation::SetCodeSegment(selectors.code_selector));
    lemma_after_all_push(start, entries, two, Operation::LoadTaskRegister(selectors.tss_selector));
    assert(three =~= spec_init(selectors));
}

/// Brings the kernel's segments into force: the operations to perform, in
/// order.
pub fn init(segments: &KernelSegments) -> (operations: Vec<Operation>)
    requires
        segments.wf(),
    ensures
        operations@ == spec_init(segments.spec_selectors()),
{
    let selectors = segments.selectors();
    let mut operations: Vec<Operation> = Vec::new();
    operations.push(segments.table().load());
    operations.push(Operation::SetCodeSegment(selectors.code_selector));
    operations.push(Operation::LoadTaskRegister(selectors.tss_selector));
    assert(operations@ =~= spec_init(selectors));
    operations
}

} // verus!
