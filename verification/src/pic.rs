//! The two chained 8259 interrupt controllers.
//!
//! The secondary controller's output is wired into line 2 of the primary.
//! Out of reset both deliver their lines on vectors that the processor keeps
//! for its own exceptions, so they are moved before interrupts are enabled.
//! Every interrupt delivered afterwards has to be acknowledged, or the
//! controller raises no further one.
//!
//! The controller here decides what is written to which port. It performs no
//! port access itself: each method returns the port writes that are due.
use crate::machine::Operation;
use vstd::prelude::*;

verus! {

/// The lowest vector that is free for hardware interrupts.
pub const FIRST_FREE_VECTOR: u8 = 32;

/// Number of interrupt lines of one controller.
pub const LINES_PER_CONTROLLER: u8 = 8;

/// Command port of the primary controller.
pub const PRIMARY_COMMAND_PORT: u16 = 0x20;

/// Data port of the primary controller.
pub const PRIMARY_DATA_PORT: u16 = 0x21;

/// Command port of the secondary controller.
pub const SECONDARY_COMMAND_PORT: u16 = 0xa0;

/// Data port of the secondary controller.
pub const SECONDARY_DATA_PORT: u16 = 0xa1;

/// A port that nothing listens on; a write to it gives a slow controller time
/// to take the write before.
pub const WAIT_PORT: u16 = 0x80;

/// Command that starts the initialisation sequence of a controller.
pub const CMD_INIT: u8 = 0x11;

/// Command that acknowledges an interrupt.
pub const CMD_END_OF_INTERRUPT: u8 = 0x20;

/// The mode that the controllers run in.
pub const MODE_8086: u8 = 0x01;

/// What the primary controller is told of the cascade: the secondary sits on
/// its line 2.
pub const PRIMARY_CASCADE: u8 = 4;

/// What the secondary controller is told of the cascade: its identity, 2.
pub const SECONDARY_CASCADE: u8 = 2;

/// One of the two controllers.
#[derive(Debug, Clone, Copy, PartialEq, Eq, Structural)]
pub enum Controller {
    Primary,
    Secondary,
}

/// The write that acknowledges an interrupt to one controller.
pub open spec fn acknowledge(controller: Controller) -> Operation {
    match controller {
        Controller::Primary => Operation::WritePort8 {
            port: PRIMARY_COMMAND_PORT,
            value: CMD_END_OF_INTERRUPT,
        },
        Controller::Secondary => Operation::WritePort8 {
            port: SECONDARY_COMMAND_PORT,
            value: CMD_END_OF_INTERRUPT,
        },
    }
}

/// A write of `value` to `port`, and behind it the write that waits.
pub open spec fn slow_write(port: u16, value: u8) -> Seq<Operation> {
    seq![
        Operation::WritePort8 { port, value },
        Operation::WritePort8 { port: WAIT_PORT, value: 0 },
    ]
}

/// The writes that move the two controllers to their offsets: start the
/// initialisation of both, give each its offset, tell both of the cascade,
/// set the mode of both, and write the interrupt masks back. Each write but
/// those of the masks is followed by a write that waits.
pub open spec fn remap_program(
    primary_offset: u8,
    secondary_offset: u8,
    primary_mask: u8,
    secondary_mask: u8,
) -> Seq<Operation> {
    slow_write(PRIMARY_COMMAND_PORT, CMD_INIT) + slow_write(SECONDARY_COMMAND_PORT, CMD_INIT)
        + slow_write(PRIMARY_DATA_PORT, primary_offset) + slow_write(
        SECONDARY_DATA_PORT,
        secondary_offset,
    ) + slow_write(PRIMARY_DATA_PORT, PRIMARY_CASCADE) + slow_write(
        SECONDARY_DATA_PORT,
        SECONDARY_CASCADE,
    ) + slow_write(PRIMARY_DATA_PORT, MODE_8086) + slow_write(SECONDARY_DATA_PORT, MODE_8086)
        + seq![
        Operation::WritePort8 { port: PRIMARY_DATA_PORT, value: primary_mask },
        Operation::WritePort8 { port: SECONDARY_DATA_PORT, value: secondary_mask },
    ]
}

/// The two offsets lie behind the vectors that the processor keeps for
/// itself, and the one range of eight vectors follows the other directly.
pub open spec fn valid_offsets(primary_offset: u8, secondary_offset: u8) -> bool {
    &&& primary_offset >= FIRST_FREE_VECTOR
    &&& secondary_offset >= FIRST_FREE_VECTOR
    &&& (secondary_offset == primary_offset + LINES_PER_CONTROLLER || primary_offset
        == secondary_offset + LINES_PER_CONTROLLER)
}

/// The pair of controllers: the vector offsets chosen for them, and whether
/// they were moved there yet.
#[derive(Debug)]
pub struct InterruptController {
    primary_offset: u8,
    secondary_offset: u8,
    active: bool,
}

/// The mathematical model of the controller pair.
pub struct ControllerState {
    pub primary_offset: u8,
    pub secondary_offset: u8,
    pub active: bool,
}

impl ControllerState {
    /// The interrupt came through the secondary controller.
    pub open spec fn from_secondary(self, vector: u8) -> bool {
        vector >= self.secondary_offset
    }

    /// The controllers that an interrupt on `vector` is acknowledged to, in
    /// the order of the acknowledgements: the secondary first where the
    /// interrupt came through it, the primary in any case, because the
    /// secondary's request reached the processor through the primary.
    pub open spec fn acknowledged(self, vector: u8) -> Seq<Controller> {
        if self.from_secondary(vector) {
            seq![Controller::Secondary, Controller::Primary]
        } else {
            seq![Controller::Primary]
        }
    }

    /// The port writes that acknowledge an interrupt on `vector`.
    pub open spec fn end_of_interrupt(self, vector: u8) -> Seq<Operation> {
        self.acknowledged(vector).map_values(|controller: Controller| acknowledge(controller))
    }
}

impl View for InterruptController {
    type V = ControllerState;

    closed spec fn view(&self) -> ControllerState {
        ControllerState {
            primary_offset: self.primary_offset,
            secondary_offset: self.secondary_offset,
            active: self.active,
        }
    }
}

impl InterruptController {
    /// The offsets are valid ones.
    pub open spec fn wf(&self) -> bool {
        valid_offsets(self@.primary_offset, self@.secondary_offset)
    }

    /// A pair of controllers that is to deliver the primary's lines from
    /// `primary_offset` on and the secondary's from `secondary_offset` on.
    /// Nothing is written yet.
    pub fn new(primary_offset: u8, secondary_offset: u8) -> (controller: InterruptController)
        requires
            valid_offsets(primary_offset, secondary_offset),
        ensures
            controller.wf(),
            controller@.primary_offset == primary_offset,
            controller@.secondary_offset == secondary_offset,
            !controller@.active,
    {
        InterruptController { primary_offset, secondary_offset, active: false }
    }

    /// The checked form of [`InterruptController::new`]: `None` where the
    /// offsets are not valid.
    pub fn try_new(primary_offset: u8, secondary_offset: u8) -> (controller: Option<
        InterruptController,
    >)
        ensures
            controller is Some <==> valid_offsets(primary_offset, secondary_offset),
            controller matches Some(pair) ==> {
                &&& pair.wf()
                &&& pair@.primary_offset == primary_offset
                &&& pair@.secondary_offset == secondary_offset
                &&& !pair@.active
            },
    {
        if primary_offset >= FIRST_FREE_VECTOR && secondary_offset >= FIRST_FREE_VECTOR && (
        secondary_offset as u16 == primary_offset as u16 + LINES_PER_CONTROLLER as u16
            || primary_offset as u16 == secondary_offset as u16 + LINES_PER_CONTROLLER as u16) {
            Some(InterruptController::new(primary_offset, secondary_offset))
        } else {
            None
        }
    }

    /// The vector of the primary controller's line 0.
    pub fn primary_offset(&self) -> (offset: u8)
        ensures
            offset == self@.primary_offset,
    {
        self.primary_offset
    }

    /// The vector of the secondary controller's line 0.
    pub fn secondary_offset(&self) -> (offset: u8)
        ensures
            offset == self@.secondary_offset,
    {
        self.secondary_offset
    }

    /// The controllers were moved to their offsets.
    pub fn is_active(&self) -> (active: bool)
        ensures
            active == self@.active,
    {
        self.active
    }

    /// Moves both controllers to their offsets and returns the port writes
    /// that do it, in order. The two masks are what the data ports of the
    /// primary and of the secondary controller held before; they are written
    /// back at the end.
    pub fn initialize(&mut self, primary_mask: u8, secondary_mask: u8) -> (operations: Vec<
        Operation,
    >)
        requires
            old(self).wf(),
            !old(self)@.active,
        ensures
            final(self).wf(),
            final(self)@ == (ControllerState { active: true, ..old(self)@ }),
            operations@ == remap_program(
                old(self)@.primary_offset,
                old(self)@.secondary_offset,
                primary_mask,
                secondary_mask,
            ),
    {
        let mut operations: Vec<Operation> = Vec::new();
        push_slow_write(&mut operations, PRIMARY_COMMAND_PORT, CMD_INIT);
        push_slow_write(&mut operations, SECONDARY_COMMAND_PORT, CMD_INIT);
        push_slow_write(&mut operations, PRIMARY_DATA_PORT, self.primary_offset);
        push_slow_write(&mut operations, SECONDARY_DATA_PORT, self.secondary_offset);
        push_slow_write(&mut operations, PRIMARY_DATA_PORT, PRIMARY_CASCADE);
        push_slow_write(&mut operations, SECONDARY_DATA_PORT, SECONDARY_CASCADE);
        push_slow_write(&mut operations, PRIMARY_DATA_PORT, MODE_8086);
        push_slow_write(&mut operations, SECONDARY_DATA_PORT, MODE_8086);
        operations.push(Operation::WritePort8 { port: PRIMARY_DATA_PORT, value: primary_mask });
        operations.push(Operation::WritePort8 { port: SECONDARY_DATA_PORT, value: secondary_mask });
        self.active = true;
        assert(operations@ =~= remap_program(
            old(self)@.primary_offset,
            old(self)@.secondary_offset,
            primary_mask,
            secondary_mask,
        ));
        operations
    }

    /// Acknowledges the interrupt that was delivered on `vector` and returns
    /// the port writes that do it, in order: to the secondary controller
    /// first where the interrupt came through it, and to the primary in any
    /// case.
    pub fn notify_end_of_interrupt(&self, vector: u8) -> (operations: Vec<Operation>)
        ensures
            operations@ == self@.end_of_interrupt(vector),
    {
        let mut operations: Vec<Operation> = Vec::new();
        if vector >= self.secondary_offset {
            operations.push(
                Operation::WritePort8 { port: SECONDARY_COMMAND_PORT, value: CMD_END_OF_INTERRUPT },
            );
        }
        operations.push(
            Operation::WritePort8 { port: PRIMARY_COMMAND_PORT, value: CMD_END_OF_INTERRUPT },
        );
        assert(operations@ =~= self@.end_of_interrupt(vector));
        operations
    }
}

/// Appends a write of `value` to `port`, and the write that waits.
fn push_slow_write(operations: &mut Vec<Operation>, port: u16, value: u8)
    ensures
        final(operations)@ == old(operations)@ + slow_write(port, value),
{
    operations.push(Operation::WritePort8 { port, value });
    operations.push(Operation::WritePort8 { port: WAIT_PORT, value: 0 });
    assert(operations@ =~= old(operations)@ + slow_write(port, value));
}

/// The writes that move the controllers are port writes of a byte, all of
/// them.
pub proof fn lemma_remap_program_writes_ports(
    primary_offset: u8,
    secondary_offset: u8,
    primary_mask: u8,
    secondary_mask: u8,
)
    ensures
        remap_program(primary_offset, secondary_offset, primary_mask, secondary_mask).len() == 18,
        forall|i: int|
            0 <= i < 18 ==> (#[trigger] remap_program(
                primary_offset,
                secondary_offset,
                primary_mask,
                secondary_mask,
            )[i]) is WritePort8,
{
}

/// Every interrupt is acknowledged to the primary controller exactly once,
/// and that acknowledgement is the last one.
pub proof fn lemma_primary_acknowledged_once(state: ControllerState, vector: u8)
    ensures
        state.acknowledged(vector).last() == Controller::Primary,
        state.acknowledged(vector).filter(|c: Controller| c == Controller::Primary).len() == 1,
{
    let primary = |c: Controller| c == Controller::Primary;
    let acks = state.acknowledged(vector);
    if state.from_secondary(vector) {
        assert(acks.drop_last() =~= seq![Controller::Secondary]);
        assert(acks.drop_last().drop_last() =~= Seq::<Controller>::empty());
        reveal_with_fuel(Seq::filter, 3);
    } else {
        assert(acks.drop_last() =~= Seq::<Controller>::empty());
        reveal_with_fuel(Seq::filter, 2);
    }
}

/// An interrupt that came through the secondary controller is acknowledged
/// to the secondary first and to the primary after it, and to nothing else;
/// any other interrupt is acknowledged to the primary alone.
pub proof fn lemma_secondary_precedes_primary(state: ControllerState, vector: u8)
    ensures
        state.from_secondary(vector) ==> state.acknowledged(vector) == seq![
            Controller::Secondary,
            Controller::Primary,
        ],
        !state.from_secondary(vector) ==> state.acknowledged(vector) == seq![Controller::Primary],
        forall|i: int, j: int|
            0 <= i < state.acknowledged(vector).len() && 0 <= j < state.acknowledged(vector).len()
                && state.acknowledged(vector)[i] == Controller::Secondary && state.acknowledged(
                vector,
            )[j] == Controller::Primary ==> i < j,
{
}

} // verus!
