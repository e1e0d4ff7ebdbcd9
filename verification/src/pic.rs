//! The driver of the two chained 8259 interrupt controllers.
//!
//! The driver decides which bytes go to which I/O port and in what order; it
//! performs no port access itself. What the bytes do to the controllers is
//! stated over a model of the hardware, [`Controllers`].

use vstd::prelude::*;

verus! {

/// Starts the initialisation sequence of a controller.
pub const CMD_INIT: u8 = 0x11;

/// Acknowledges the interrupt that a controller is servicing.
pub const CMD_END_OF_INTERRUPT: u8 = 0x20;

/// The operating mode both controllers are put in.
pub const MODE_8086: u8 = 0x01;

/// Tells the primary controller that the secondary sits on its input line 2.
pub const PRIMARY_CASCADE: u8 = 4;

/// Tells the secondary controller which input line of the primary it feeds.
pub const SECONDARY_CASCADE: u8 = 2;

/// The port that takes the primary controller's commands.
pub const PRIMARY_COMMAND_PORT: u16 = 0x20;

/// The port that takes the primary controller's data and holds its mask.
pub const PRIMARY_DATA_PORT: u16 = 0x21;

/// The port that takes the secondary controller's commands.
pub const SECONDARY_COMMAND_PORT: u16 = 0xA0;

/// The port that takes the secondary controller's data and holds its mask.
pub const SECONDARY_DATA_PORT: u16 = 0xA1;

/// A port that nothing listens on; a write to it takes long enough for the
/// controllers to settle.
pub const WAIT_PORT: u16 = 0x80;

/// The vectors below this one belong to the CPU's exceptions.
pub const FIRST_FREE_VECTOR: u8 = 32;

/// The number of input lines of one controller.
pub const LINES: u8 = 8;

/// The number of port writes that remap both controllers.
pub const REMAP_WRITES: usize = 18;

/// One byte to be written to one I/O port.
#[derive(Debug, Clone, Copy, PartialEq, Eq, Structural)]
pub struct PortWrite {
    pub port: u16,
    pub value: u8,
}

/// One of the two controllers.
#[derive(Debug, Clone, Copy, PartialEq, Eq, Structural)]
pub enum ControllerId {
    Primary,
    Secondary,
}

/// What the interrupt masks are after initialisation.
#[derive(Debug, Clone, Copy, PartialEq, Eq, Structural)]
pub enum MaskPolicy {
    /// The masks that were in force before.
    Restore,
    /// These masks; a bit that is 1 withholds the line.
    Fixed { primary: u8, secondary: u8 },
}

/// The write that lets the controllers settle.
pub open spec fn settle() -> PortWrite {
    PortWrite { port: WAIT_PORT, value: 0 }
}

/// The command port of a controller.
pub open spec fn command_port(id: ControllerId) -> u16 {
    match id {
        ControllerId::Primary => PRIMARY_COMMAND_PORT,
        ControllerId::Secondary => SECONDARY_COMMAND_PORT,
    }
}

/// The write that tells a controller that its interrupt has been serviced.
pub open spec fn end_of_interrupt(id: ControllerId) -> PortWrite {
    PortWrite { port: command_port(id), value: CMD_END_OF_INTERRUPT }
}

/// Whether two vector bases keep both controllers clear of the CPU's
/// exceptions and of each other, the secondary's lines above the primary's.
pub open spec fn valid_offsets(primary: u8, secondary: u8) -> bool {
    &&& FIRST_FREE_VECTOR <= primary
    &&& primary + LINES <= secondary
    &&& secondary + LINES <= 256
}

/// The acknowledgment of one serviced interrupt: the command for the
/// secondary controller first, where it is owed, then the one for the
/// primary.
#[derive(Debug, Clone, Copy, PartialEq, Eq, Structural)]
pub struct Acknowledgment {
    pub secondary: Option<PortWrite>,
    pub primary: PortWrite,
}

impl Acknowledgment {
    /// The port writes in the order in which they are to be made.
    pub open spec fn writes(self) -> Seq<PortWrite> {
        match self.secondary {
            Some(first) => seq![first, self.primary],
            None => seq![self.primary],
        }
    }

    /// The controllers that receive the end-of-interrupt command.
    pub open spec fn targets(self) -> Set<ControllerId> {
        Set::new(
            |id: ControllerId|
                match id {
                    ControllerId::Primary => self.primary == end_of_interrupt(
                        ControllerId::Primary,
                    ),
                    ControllerId::Secondary => self.secondary == Some(
                        end_of_interrupt(ControllerId::Secondary),
                    ),
                },
        )
    }
}

/// The two chained controllers as the kernel configures them.
#[derive(Debug, Clone, Copy)]
pub struct ChainedPics {
    primary_offset: u8,
    secondary_offset: u8,
    masks: MaskPolicy,
}

impl ChainedPics {
    #[verifier::type_invariant]
    spec fn offsets_are_valid(self) -> bool {
        valid_offsets(self.primary_offset, self.secondary_offset)
    }

    /// The vector of the primary controller's line 0.
    pub closed spec fn primary_base(self) -> u8 {
        self.primary_offset
    }

    /// The vector of the secondary controller's line 0.
    pub closed spec fn secondary_base(self) -> u8 {
        self.secondary_offset
    }

    /// What the masks are to be after initialisation.
    pub closed spec fn mask_policy(self) -> MaskPolicy {
        self.masks
    }

    /// The vector base of one controller.
    pub open spec fn base(self, id: ControllerId) -> u8 {
        match id {
            ControllerId::Primary => self.primary_base(),
            ControllerId::Secondary => self.secondary_base(),
        }
    }

    /// Whether the value was built by one of the constructors.
    pub open spec fn wf(self) -> bool {
        valid_offsets(self.primary_base(), self.secondary_base())
    }

    /// Whether `vector` is raised by a line of controller `id`.
    pub open spec fn owns(self, id: ControllerId, vector: u8) -> bool {
        self.base(id) <= vector < self.base(id) + LINES
    }

    /// Whether `vector` is raised by a line of either controller.
    pub open spec fn handles(self, vector: u8) -> bool {
        self.owns(ControllerId::Primary, vector) || self.owns(ControllerId::Secondary, vector)
    }

    /// The controllers that are owed an acknowledgment for `vector`: the
    /// primary always, the secondary for the vectors from its base on.
    pub open spec fn eoi_targets(self, vector: u8) -> Set<ControllerId> {
        if vector < self.secondary_base() {
            set![ControllerId::Primary]
        } else {
            set![ControllerId::Primary, ControllerId::Secondary]
        }
    }

    /// The acknowledgment of `vector`: the end-of-interrupt command for
    /// each of its [`eoi_targets`](ChainedPics::eoi_targets).
    pub open spec fn acknowledgment(self, vector: u8) -> Acknowledgment {
        Acknowledgment {
            secondary: if self.eoi_targets(vector).contains(ControllerId::Secondary) {
                Some(end_of_interrupt(ControllerId::Secondary))
            } else {
                None
            },
            primary: end_of_interrupt(ControllerId::Primary),
        }
    }

    /// The mask of one controller after initialisation, given the masks
    /// that were read before it.
    pub open spec fn mask_after(self, id: ControllerId, saved_primary: u8, saved_secondary: u8) -> u8 {
        match (self.mask_policy(), id) {
            (MaskPolicy::Restore, ControllerId::Primary) => saved_primary,
            (MaskPolicy::Restore, ControllerId::Secondary) => saved_secondary,
            (MaskPolicy::Fixed { primary, secondary }, ControllerId::Primary) => primary,
            (MaskPolicy::Fixed { primary, secondary }, ControllerId::Secondary) => secondary,
        }
    }

    /// The remap sequence: both controllers are told to initialise, then
    /// given their vector base, their place in the cascade and their mode,
    /// each byte followed by a settling write; the masks come last.
    pub open spec fn remap_sequence(self, saved_primary: u8, saved_secondary: u8) -> Seq<PortWrite> {
        seq![
            PortWrite { port: PRIMARY_COMMAND_PORT, value: CMD_INIT },
            settle(),
            PortWrite { port: SECONDARY_COMMAND_PORT, value: CMD_INIT },
            settle(),
            PortWrite { port: PRIMARY_DATA_PORT, value: self.primary_base() },
            settle(),
            PortWrite { port: SECONDARY_DATA_PORT, value: self.secondary_base() },
            settle(),
            PortWrite { port: PRIMARY_DATA_PORT, value: PRIMARY_CASCADE },
            settle(),
            PortWrite { port: SECONDARY_DATA_PORT, value: SECONDARY_CASCADE },
            settle(),
            PortWrite { port: PRIMARY_DATA_PORT, value: MODE_8086 },
            settle(),
            PortWrite { port: SECONDARY_DATA_PORT, value: MODE_8086 },
            settle(),
            PortWrite {
                port: PRIMARY_DATA_PORT,
                value: self.mask_after(ControllerId::Primary, saved_primary, saved_secondary),
            },
            PortWrite {
                port: SECONDARY_DATA_PORT,
                value: self.mask_after(ControllerId::Secondary, saved_primary, saved_secondary),
            },
        ]
    }

    /// Whether [`ChainedPics::new`] accepts these vector bases.
    pub fn offsets_valid(primary_offset: u8, secondary_offset: u8) -> (valid: bool)
        ensures
            valid == valid_offsets(primary_offset, secondary_offset),
    {
        primary_offset >= FIRST_FREE_VECTOR && primary_offset <= secondary_offset
            && secondary_offset - primary_offset >= LINES && secondary_offset <= 255 - LINES + 1
    }

    /// The driver for controllers whose lines are to raise the vectors from
    /// `primary_offset` and from `secondary_offset` on. Initialisation will
    /// restore the masks it finds.
    pub fn new(primary_offset: u8, secondary_offset: u8) -> (pics: ChainedPics)
        requires
            valid_offsets(primary_offset, secondary_offset),
        ensures
            pics.wf(),
            pics.primary_base() == primary_offset,
            pics.secondary_base() == secondary_offset,
            pics.mask_policy() == MaskPolicy::Restore,
    {
        ChainedPics { primary_offset, secondary_offset, masks: MaskPolicy::Restore }
    }

    /// The driver for the given vector bases, where they are valid.
    pub fn try_new(primary_offset: u8, secondary_offset: u8) -> (pics: Option<ChainedPics>)
        ensures
            pics is Some <==> valid_offsets(primary_offset, secondary_offset),
            pics is Some ==> {
                &&& pics->0.wf()
                &&& pics->0.primary_base() == primary_offset
                &&& pics->0.secondary_base() == secondary_offset
                &&& pics->0.mask_policy() == MaskPolicy::Restore
            },
    {
        if Self::offsets_valid(primary_offset, secondary_offset) {
            Some(Self::new(primary_offset, secondary_offset))
        } else {
            None
        }
    }

    /// The same driver, but initialisation will set these masks.
    pub fn with_masks(self, primary: u8, secondary: u8) -> (pics: ChainedPics)
        ensures
            pics.wf(),
            pics.primary_base() == self.primary_base(),
            pics.secondary_base() == self.secondary_base(),
            pics.mask_policy() == (MaskPolicy::Fixed { primary, secondary }),
    {
        proof {
            use_type_invariant(&self);
        }
        ChainedPics {
            primary_offset: self.primary_offset,
            secondary_offset: self.secondary_offset,
            masks: MaskPolicy::Fixed { primary, secondary },
        }
    }

    /// The vector of the primary controller's line 0.
    pub fn primary_offset(&self) -> (offset: u8)
        ensures
            offset == self.primary_base(),
            self.wf(),
    {
        proof {
            use_type_invariant(self);
        }
        self.primary_offset
    }

    /// The vector of the secondary controller's line 0.
    pub fn secondary_offset(&self) -> (offset: u8)
        ensures
            offset == self.secondary_base(),
            self.wf(),
    {
        proof {
            use_type_invariant(self);
        }
        self.secondary_offset
    }

    /// Whether one of the sixteen lines raises `vector`.
    pub fn handles_interrupt(&self, vector: u8) -> (handled: bool)
        ensures
            handled == self.handles(vector),
    {
        proof {
            use_type_invariant(self);
        }
        (self.primary_offset <= vector && vector - self.primary_offset < LINES) || (
        self.secondary_offset <= vector && vector - self.secondary_offset < LINES)
    }

    /// The port writes that acknowledge the interrupt `vector`.
    pub fn acknowledge(&self, vector: u8) -> (ack: Acknowledgment)
        ensures
            ack == self.acknowledgment(vector),
            ack.targets() == self.eoi_targets(vector),
    {
        let secondary = if vector < self.secondary_offset {
            None
        } else {
            Some(PortWrite { port: SECONDARY_COMMAND_PORT, value: CMD_END_OF_INTERRUPT })
        };
        let ack = Acknowledgment {
            secondary,
            primary: PortWrite { port: PRIMARY_COMMAND_PORT, value: CMD_END_OF_INTERRUPT },
        };
        assert(ack.targets() =~= self.eoi_targets(vector));
        ack
    }

    /// The port writes that remap both controllers, in order. The masks are
    /// those that were read from the two data ports before the first write.
    pub fn initialize(&self, saved_primary: u8, saved_secondary: u8) -> (writes: [PortWrite;
        REMAP_WRITES])
        ensures
            writes@ == self.remap_sequence(saved_primary, saved_secondary),
    {
        let wait = PortWrite { port: WAIT_PORT, value: 0 };
        let (primary_mask, secondary_mask) = match self.masks {
            MaskPolicy::Restore => (saved_primary, saved_secondary),
            MaskPolicy::Fixed { primary, secondary } => (primary, secondary),
        };
        let writes = [
            PortWrite { port: PRIMARY_COMMAND_PORT, value: CMD_INIT },
            wait,
            PortWrite { port: SECONDARY_COMMAND_PORT, value: CMD_INIT },
            wait,
            PortWrite { port: PRIMARY_DATA_PORT, value: self.primary_offset },
            wait,
            PortWrite { port: SECONDARY_DATA_PORT, value: self.secondary_offset },
            wait,
            PortWrite { port: PRIMARY_DATA_PORT, value: PRIMARY_CASCADE },
            wait,
            PortWrite { port: SECONDARY_DATA_PORT, value: SECONDARY_CASCADE },
            wait,
            PortWrite { port: PRIMARY_DATA_PORT, value: MODE_8086 },
            wait,
            PortWrite { port: SECONDARY_DATA_PORT, value: MODE_8086 },
            wait,
            PortWrite { port: PRIMARY_DATA_PORT, value: primary_mask },
            PortWrite { port: SECONDARY_DATA_PORT, value: secondary_mask },
        ];
        assert(writes@ =~= self.remap_sequence(saved_primary, saved_secondary));
        writes
    }
}

} // verus!
