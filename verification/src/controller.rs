//! A model of the two 8259 controllers as the driver's port writes see them,
//! and the laws that tie the driver to it.
//!
//! A controller that is told to initialise forgets its mask and what it was
//! servicing, and takes the next three bytes on its data port as its vector
//! base, its place in the cascade and its mode. After that a byte on the data
//! port is a new mask. A line with a lower number has the higher priority: a
//! controller passes an interrupt on if the line is not masked and no line of
//! the same or a higher priority is in service, and an end-of-interrupt
//! command retires the interrupt of the highest priority in service.

use vstd::prelude::*;
use crate::pic::ChainedPics;
use crate::pic::ControllerId;
use crate::pic::PortWrite;
use crate::pic::settle;
use crate::pic::FIRST_FREE_VECTOR;
use crate::pic::CMD_END_OF_INTERRUPT;
use crate::pic::CMD_INIT;
use crate::pic::LINES;
use crate::pic::MODE_8086;
use crate::pic::PRIMARY_CASCADE;
use crate::pic::PRIMARY_COMMAND_PORT;
use crate::pic::PRIMARY_DATA_PORT;
use crate::pic::SECONDARY_CASCADE;
use crate::pic::SECONDARY_COMMAND_PORT;
use crate::pic::SECONDARY_DATA_PORT;

verus! {

/// What a controller takes the next byte on its data port for.
#[derive(Debug, Clone, Copy, PartialEq, Eq, Structural)]
pub enum Stage {
    /// A new interrupt mask.
    Operating,
    /// Its vector base.
    AwaitingBase,
    /// Its place in the cascade.
    AwaitingCascade,
    /// Its operating mode.
    AwaitingMode,
}

/// The bit of a line in a mask or in the set of interrupts in service.
pub open spec fn line_bit(line: u8) -> u8 {
    1u8 << line
}

/// The bits of the lines whose priority is that of `line` or higher.
pub open spec fn lines_up_to(line: u8) -> u8 {
    0xffu8 >> ((7 - line) as u8)
}

/// A set of lines without the one of the highest priority in it.
pub open spec fn without_lowest_bit(lines: u8) -> u8 {
    lines & ((lines - 1) as u8)
}

/// One 8259 controller.
#[derive(Debug, Clone, Copy, PartialEq, Eq, Structural)]
pub struct Controller {
    pub stage: Stage,
    /// The vector that line 0 raises.
    pub vector_base: u8,
    /// The cascade byte it was given.
    pub cascade: u8,
    /// The mode byte it was given.
    pub mode: u8,
    /// A bit that is 1 withholds the line of that number.
    pub mask: u8,
    /// A bit that is 1 says that the interrupt of the line of that number
    /// has been delivered and not acknowledged yet.
    pub in_service: u8,
}

impl Controller {
    /// The controller after a byte on its command port.
    pub open spec fn command(self, value: u8) -> Controller {
        if value == CMD_INIT {
            Controller { stage: Stage::AwaitingBase, mask: 0, in_service: 0, ..self }
        } else if value == CMD_END_OF_INTERRUPT && self.in_service > 0 {
            Controller { in_service: without_lowest_bit(self.in_service), ..self }
        } else {
            self
        }
    }

    /// The controller after a byte on its data port.
    pub open spec fn data(self, value: u8) -> Controller {
        match self.stage {
            Stage::Operating => Controller { mask: value, ..self },
            Stage::AwaitingBase => Controller {
                vector_base: value,
                stage: Stage::AwaitingCascade,
                ..self
            },
            Stage::AwaitingCascade => Controller {
                cascade: value,
                stage: Stage::AwaitingMode,
                ..self
            },
            Stage::AwaitingMode => Controller { mode: value, stage: Stage::Operating, ..self },
        }
    }

    /// The controller after it has delivered the interrupt of `line`.
    pub open spec fn deliver(self, line: u8) -> Controller {
        Controller { in_service: self.in_service | line_bit(line), ..self }
    }

    /// Whether the controller passes on an interrupt on `line`: it has such
    /// a line and is operating, the line is not masked, and no line of the
    /// same or a higher priority is in service.
    pub open spec fn passes(self, line: u8) -> bool {
        &&& line < LINES
        &&& self.stage == Stage::Operating
        &&& self.mask & line_bit(line) == 0
        &&& self.in_service & lines_up_to(line) == 0
    }

    /// Whether the controller passes on an interrupt on `line`.
    pub fn lets_through(&self, line: u8) -> (passes: bool)
        ensures
            passes == self.passes(line),
    {
        if line >= LINES {
            return false;
        }
        let operating = match self.stage {
            Stage::Operating => true,
            _ => false,
        };
        operating && self.mask & (1u8 << line) == 0 && self.in_service & (0xffu8 >> (7 - line)) == 0
    }

    /// Takes a byte on the command port.
    pub fn on_command(&mut self, value: u8)
        ensures
            *final(self) == old(self).command(value),
    {
        if value == CMD_INIT {
            self.stage = Stage::AwaitingBase;
            self.mask = 0;
            self.in_service = 0;
        } else if value == CMD_END_OF_INTERRUPT && self.in_service > 0 {
            self.in_service = self.in_service & (self.in_service - 1);
        }
    }

    /// Takes a byte on the data port.
    pub fn on_data(&mut self, value: u8)
        ensures
            *final(self) == old(self).data(value),
    {
        match self.stage {
            Stage::Operating => {
                self.mask = value;
            },
            Stage::AwaitingBase => {
                self.vector_base = value;
                self.stage = Stage::AwaitingCascade;
            },
            Stage::AwaitingCascade => {
                self.cascade = value;
                self.stage = Stage::AwaitingMode;
            },
            Stage::AwaitingMode => {
                self.mode = value;
                self.stage = Stage::Operating;
            },
        }
    }
}

/// The primary controller and the secondary that feeds its line 2.
#[derive(Debug, Clone, Copy, PartialEq, Eq, Structural)]
pub struct Controllers {
    pub primary: Controller,
    pub secondary: Controller,
}

impl Controllers {
    /// One of the two controllers.
    pub open spec fn get(self, id: ControllerId) -> Controller {
        match id {
            ControllerId::Primary => self.primary,
            ControllerId::Secondary => self.secondary,
        }
    }

    /// The controllers after one port write. A write to a port that
    /// neither listens on changes nothing.
    pub open spec fn write(self, w: PortWrite) -> Controllers {
        if w.port == PRIMARY_COMMAND_PORT {
            Controllers { primary: self.primary.command(w.value), ..self }
        } else if w.port == PRIMARY_DATA_PORT {
            Controllers { primary: self.primary.data(w.value), ..self }
        } else if w.port == SECONDARY_COMMAND_PORT {
            Controllers { secondary: self.secondary.command(w.value), ..self }
        } else if w.port == SECONDARY_DATA_PORT {
            Controllers { secondary: self.secondary.data(w.value), ..self }
        } else {
            self
        }
    }

    /// The controllers after a sequence of port writes.
    pub open spec fn run(self, writes: Seq<PortWrite>) -> Controllers
        decreases writes.len(),
    {
        if writes.len() == 0 {
            self
        } else {
            self.run(writes.drop_last()).write(writes.last())
        }
    }

    /// Whether both controllers have been remapped as `pics` says and are
    /// operating, with nothing in service.
    pub open spec fn remapped(self, pics: ChainedPics) -> bool {
        &&& self.primary.stage == Stage::Operating
        &&& self.secondary.stage == Stage::Operating
        &&& self.primary.vector_base == pics.primary_base()
        &&& self.secondary.vector_base == pics.secondary_base()
        &&& self.primary.cascade == PRIMARY_CASCADE
        &&& self.secondary.cascade == SECONDARY_CASCADE
        &&& self.primary.mode == MODE_8086
        &&& self.secondary.mode == MODE_8086
        &&& self.primary.in_service == 0
        &&& self.secondary.in_service == 0
    }

    /// Whether an interrupt on `line` of controller `id` reaches the CPU. One
    /// of the secondary has to pass the primary's cascade line too.
    pub open spec fn passes(self, id: ControllerId, line: u8) -> bool {
        match id {
            ControllerId::Primary => self.primary.passes(line),
            ControllerId::Secondary => {
                self.secondary.passes(line) && self.primary.passes(SECONDARY_CASCADE)
            },
        }
    }

    /// The vector that `line` of controller `id` raises.
    pub open spec fn vector(self, id: ControllerId, line: u8) -> int {
        self.get(id).vector_base + line
    }

    /// The controllers after `line` of controller `id` has interrupted the
    /// CPU: the controller is servicing the line, and the primary is
    /// servicing its cascade line where the interrupt came through it.
    pub open spec fn deliver(self, id: ControllerId, line: u8) -> Controllers {
        match id {
            ControllerId::Primary => Controllers { primary: self.primary.deliver(line), ..self },
            ControllerId::Secondary => Controllers {
                primary: self.primary.deliver(SECONDARY_CASCADE),
                secondary: self.secondary.deliver(line),
            },
        }
    }

    /// Two controllers as they are before the kernel has touched them:
    /// operating on vector bases that collide with the CPU's exceptions,
    /// with every line masked.
    pub fn power_on() -> (controllers: Controllers)
        ensures
            controllers.primary == (Controller {
                stage: Stage::Operating,
                vector_base: 8,
                cascade: 0,
                mode: 0,
                mask: 0xff,
                in_service: 0,
            }),
            controllers.secondary == (Controller {
                stage: Stage::Operating,
                vector_base: 0x70,
                cascade: 0,
                mode: 0,
                mask: 0xff,
                in_service: 0,
            }),
    {
        Controllers {
            primary: Controller {
                stage: Stage::Operating,
                vector_base: 8,
                cascade: 0,
                mode: 0,
                mask: 0xff,
                in_service: 0,
            },
            secondary: Controller {
                stage: Stage::Operating,
                vector_base: 0x70,
                cascade: 0,
                mode: 0,
                mask: 0xff,
                in_service: 0,
            },
        }
    }

    /// Performs one port write on the model.
    pub fn apply(&mut self, w: PortWrite)
        ensures
            *final(self) == old(self).write(w),
    {
        if w.port == PRIMARY_COMMAND_PORT {
            self.primary.on_command(w.value);
        } else if w.port == PRIMARY_DATA_PORT {
            self.primary.on_data(w.value);
        } else if w.port == SECONDARY_COMMAND_PORT {
            self.secondary.on_command(w.value);
        } else if w.port == SECONDARY_DATA_PORT {
            self.secondary.on_data(w.value);
        }
    }

    /// Performs a sequence of port writes on the model, in order.
    pub fn replay(&mut self, writes: &[PortWrite])
        ensures
            *final(self) == old(self).run(writes@),
    {
        let mut index: usize = 0;
        while index < writes.len()
            invariant
                index <= writes.len(),
                *self == old(self).run(writes@.take(index as int)),
            decreases writes.len() - index,
        {
            assert(writes@.take(index + 1).drop_last() =~= writes@.take(index as int));
            self.apply(writes[index]);
            index += 1;
        }
        assert(writes@.take(index as int) =~= writes@);
    }

    /// Raises an interrupt on `line` of controller `id`. Where it reaches the
    /// CPU the result is its vector, and the controllers are servicing it;
    /// where it is withheld nothing changes.
    pub fn raise(&mut self, id: ControllerId, line: u8) -> (vector: Option<u8>)
        ensures
            vector is Some <==> old(self).passes(id, line) && old(self).vector(id, line) < 256,
            vector is Some ==> vector->0 == old(self).vector(id, line),
            vector is Some ==> *final(self) == old(self).deliver(id, line),
            vector is None ==> *final(self) == *old(self),
    {
        let passes = match id {
            ControllerId::Primary => self.primary.lets_through(line),
            ControllerId::Secondary => {
                self.secondary.lets_through(line) && self.primary.lets_through(SECONDARY_CASCADE)
            },
        };
        let base: u8 = match id {
            ControllerId::Primary => self.primary.vector_base,
            ControllerId::Secondary => self.secondary.vector_base,
        };
        if passes && base <= 255 - line {
            match id {
                ControllerId::Primary => {
                    self.primary.in_service = self.primary.in_service | (1u8 << line);
                },
                ControllerId::Secondary => {
                    let cascade: u8 = 1u8 << SECONDARY_CASCADE;
                    self.primary.in_service = self.primary.in_service | cascade;
                    self.secondary.in_service = self.secondary.in_service | (1u8 << line);
                },
            }
            Some(base + line)
        } else {
            None
        }
    }

}

/// A settling write changes neither controller.
pub proof fn lemma_settle_is_idle(before: Controllers)
    ensures
        before.write(settle()) == before,
{
}

/// Whatever state the controllers are in, the writes of
/// [`ChainedPics::initialize`] leave both operating on the configured vector
/// bases, wired as a cascade, in 8086 mode, servicing nothing, and with the
/// masks that the configuration asks for.
pub proof fn lemma_initialize_remaps(
    pics: ChainedPics,
    saved_primary: u8,
    saved_secondary: u8,
    before: Controllers,
)
    ensures
        ({
            let after = before.run(pics.remap_sequence(saved_primary, saved_secondary));
            &&& after.remapped(pics)
            &&& after.primary.mask == pics.mask_after(
                ControllerId::Primary,
                saved_primary,
                saved_secondary,
            )
            &&& after.secondary.mask == pics.mask_after(
                ControllerId::Secondary,
                saved_primary,
                saved_secondary,
            )
        }),
{
    reveal_with_fuel(Controllers::run, 19);
}

/// For a vector that one of the sixteen lines raises, the secondary
/// controller is owed an acknowledgment exactly where the vector is its own,
/// and the primary always: a vector of the primary is acknowledged to the
/// primary alone, one of the secondary to both.
pub proof fn lemma_eoi_targets_follow_ownership(pics: ChainedPics, vector: u8)
    requires
        pics.wf(),
        pics.handles(vector),
    ensures
        pics.eoi_targets(vector).contains(ControllerId::Primary),
        pics.eoi_targets(vector).contains(ControllerId::Secondary) <==> pics.owns(
            ControllerId::Secondary,
            vector,
        ),
        pics.owns(ControllerId::Primary, vector) ==> pics.eoi_targets(vector) == set![
            ControllerId::Primary,
        ],
        pics.owns(ControllerId::Primary, vector) != pics.owns(ControllerId::Secondary, vector),
{
}

/// On remapped controllers every line raises a vector of its own that lies
/// above the CPU's exceptions and that the driver knows as that
/// controller's.
pub proof fn lemma_lines_raise_owned_vectors(
    pics: ChainedPics,
    controllers: Controllers,
    id: ControllerId,
    line: u8,
)
    requires
        pics.wf(),
        controllers.remapped(pics),
        line < LINES,
    ensures
        FIRST_FREE_VECTOR <= controllers.vector(id, line) < 256,
        pics.owns(id, controllers.vector(id, line) as u8),
        forall|other: ControllerId, other_line: u8|
            other_line < LINES && controllers.vector(other, other_line) == controllers.vector(
                id,
                line,
            ) ==> other == id && other_line == line,
{
}

/// The end-of-interrupt command retires the interrupt that was delivered
/// last: it had the highest priority of those in service.
pub proof fn lemma_end_of_interrupt_retires(before: Controller, line: u8)
    requires
        before.passes(line),
    ensures
        before.deliver(line).command(CMD_END_OF_INTERRUPT) == before,
{
    let lines = before.in_service;
    let serviced = lines | (1u8 << line);
    assert(serviced > 0 && serviced & ((serviced - 1) as u8) == lines) by (bit_vector)
        requires
            line < 8,
            lines & (0xffu8 >> ((7 - line) as u8)) == 0,
            serviced == lines | (1u8 << line),
    ;
}

/// The acknowledgment of a delivered interrupt retires it, once: after the
/// writes of [`ChainedPics::acknowledge`] for the vector that a line has
/// raised, each controller is servicing what it serviced before the
/// interrupt, and nothing else about it has changed.
pub proof fn lemma_acknowledge_retires(
    pics: ChainedPics,
    before: Controllers,
    id: ControllerId,
    line: u8,
)
    requires
        pics.wf(),
        before.primary.vector_base == pics.primary_base(),
        before.secondary.vector_base == pics.secondary_base(),
        before.passes(id, line),
    ensures
        before.deliver(id, line).run(
            pics.acknowledgment(before.vector(id, line) as u8).writes(),
        ) == before,
{
    reveal_with_fuel(Controllers::run, 3);
    match id {
        ControllerId::Primary => {
            lemma_end_of_interrupt_retires(before.primary, line);
        },
        ControllerId::Secondary => {
            lemma_end_of_interrupt_retires(before.secondary, line);
            lemma_end_of_interrupt_retires(before.primary, SECONDARY_CASCADE);
        },
    }
}

/// Until an interrupt is acknowledged the controller withholds every line
/// of the same or a lower priority, and passes on what it passed on before
/// on the lines of a higher priority.
pub proof fn lemma_service_withholds_lower_priorities(before: Controller, line: u8, other: u8)
    requires
        line < LINES,
        other < LINES,
    ensures
        other >= line ==> !before.deliver(line).passes(other),
        other < line ==> before.deliver(line).passes(other) == before.passes(other),
{
    let lines = before.in_service;
    let serviced = lines | (1u8 << line);
    let blocking = 0xffu8 >> ((7 - other) as u8);
    assert(other >= line ==> serviced & blocking != 0) by (bit_vector)
        requires
            line < 8,
            other < 8,
            serviced == lines | (1u8 << line),
            blocking == 0xffu8 >> ((7 - other) as u8),
    ;
    assert(other < line ==> serviced & blocking == lines & blocking) by (bit_vector)
        requires
            line < 8,
            other < 8,
            serviced == lines | (1u8 << line),
            blocking == 0xffu8 >> ((7 - other) as u8),
    ;
}

} // verus!
