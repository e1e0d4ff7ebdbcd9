//! The interrupt vector table and what its handlers do.
//!
//! The table says, for each of the 256 vectors, which handler the CPU enters
//! and on which stack. [`VectorTable::dispatch`] says what that handler then
//! does: what it reports, which acknowledgment it owes the interrupt
//! controllers, and whether the interrupted code goes on.

use vstd::prelude::*;
use x86_64::structures::tss::TaskStateSegment;
use crate::gdt::DOUBLE_FAULT_IST_INDEX;
use crate::gdt::interrupt_stacks;
use crate::gdt::reserved_stack;
use crate::gdt::reserved_stacks;
use crate::gdt::stack_fits;
use crate::gdt::FAULT_STACK_SIZE;
use crate::gdt::INTERRUPT_STACKS;
use crate::pic::Acknowledgment;
use crate::pic::ChainedPics;
use crate::pic::end_of_interrupt;
use crate::pic::ControllerId;
use crate::pic::PortWrite;
use crate::QemuExitCode;

verus! {

/// The number of interrupt vectors.
pub const VECTORS: usize = 256;

/// The vector of the breakpoint exception.
pub const BREAKPOINT_VECTOR: u8 = 3;

/// The vector of the double-fault exception.
pub const DOUBLE_FAULT_VECTOR: u8 = 8;

/// The vector base of the primary interrupt controller.
pub const PIC_1_OFFSET: u8 = 32;

/// The vector base of the secondary interrupt controller.
pub const PIC_2_OFFSET: u8 = PIC_1_OFFSET + 8;

/// The value of an entry's stack field that makes the CPU stay on the stack
/// it is on.
pub const NO_STACK_SWITCH: u16 = 0;

/// The handlers that the kernel registers.
#[derive(Debug, Clone, Copy, PartialEq, Eq, Structural)]
pub enum Handler {
    Breakpoint,
    DoubleFault,
    /// The handler of a line of the interrupt controllers.
    Hardware,
}

/// One entry of the vector table.
#[derive(Debug, Clone, Copy, PartialEq, Eq, Structural)]
pub enum Entry {
    /// No handler is registered; the vector goes to the fail-fast handler.
    Missing,
    /// A handler, and the slot of the interrupt stack table whose stack it
    /// runs on, if it does not run on the interrupted stack.
    Present { handler: Handler, stack_index: Option<u16> },
}

impl Entry {
    /// Whether the entry names no slot that the interrupt stack table does
    /// not have.
    pub open spec fn wf(self) -> bool {
        self matches Entry::Present { handler, stack_index: Some(index) } ==> index
            < INTERRUPT_STACKS
    }

    /// The stack field of the entry's descriptor: the hardware counts the
    /// slots of the interrupt stack table from 1 and reads 0 as "no switch".
    pub open spec fn stack_field(self) -> int {
        match self {
            Entry::Present { handler, stack_index: Some(index) } => index + 1,
            _ => NO_STACK_SWITCH as int,
        }
    }

    /// The stack field of the entry's descriptor.
    pub fn to_stack_field(self) -> (field: u16)
        requires
            self.wf(),
        ensures
            field == self.stack_field(),
    {
        match self {
            Entry::Present { handler: _, stack_index: Some(index) } => index + 1,
            _ => NO_STACK_SWITCH,
        }
    }
}

/// The stack that the CPU pushes a handler's frame on.
#[derive(Debug, Clone, Copy, PartialEq, Eq, Structural)]
pub enum Stack {
    /// The stack of the interrupted code.
    Interrupted,
    /// The stack of the interrupt stack table that ends at this address.
    Reserved(u64),
}

/// What becomes of an exception or interrupt that the CPU delivers.
#[derive(Debug, Clone, Copy, PartialEq, Eq, Structural)]
pub enum Delivery {
    /// The handler of `vector` is entered on `stack`.
    Entered { vector: u8, stack: Stack },
    /// Not even the double-fault handler could be entered: the machine
    /// resets.
    Reset,
}

/// Whether the kernel is built to run or to be tested.
#[derive(Debug, Clone, Copy, PartialEq, Eq, Structural)]
pub enum Build {
    Kernel,
    Test,
}

/// The state of the interrupted code when the CPU entered the handler.
#[derive(Debug, Clone, Copy, PartialEq, Eq, Structural)]
pub struct InterruptedContext {
    pub instruction_pointer: u64,
    pub code_segment: u64,
    pub cpu_flags: u64,
    pub stack_pointer: u64,
    pub stack_segment: u64,
}

/// What a handler reports to the output sink.
#[derive(Debug, Clone, Copy, PartialEq, Eq, Structural)]
pub enum Diagnostic {
    Breakpoint(InterruptedContext),
    DoubleFault(InterruptedContext),
    /// An interrupt arrived on a vector that has no handler.
    Unexpected(u8, InterruptedContext),
}

impl Diagnostic {
    /// The first line of the report.
    pub fn headline(&self) -> (line: &'static str)
        ensures
            line@ == match *self {
                Diagnostic::Breakpoint(_) => "EXCEPTION: BREAKPOINT"@,
                Diagnostic::DoubleFault(_) => "EXCEPTION: DOUBLE FAULT"@,
                Diagnostic::Unexpected(_, _) => "EXCEPTION: UNEXPECTED INTERRUPT"@,
            },
    {
        match self {
            Diagnostic::Breakpoint(_) => "EXCEPTION: BREAKPOINT",
            Diagnostic::DoubleFault(_) => "EXCEPTION: DOUBLE FAULT",
            Diagnostic::Unexpected(_, _) => "EXCEPTION: UNEXPECTED INTERRUPT",
        }
    }

    /// The state of the interrupted code.
    pub fn context(&self) -> (context: InterruptedContext)
        ensures
            context == match *self {
                Diagnostic::Breakpoint(c) => c,
                Diagnostic::DoubleFault(c) => c,
                Diagnostic::Unexpected(_, c) => c,
            },
    {
        match self {
            Diagnostic::Breakpoint(c) => *c,
            Diagnostic::DoubleFault(c) => *c,
            Diagnostic::Unexpected(_, c) => *c,
        }
    }
}

/// How a handler ends.
#[derive(Debug, Clone, Copy, PartialEq, Eq, Structural)]
pub enum Continuation {
    /// It returns, and the interrupted code goes on.
    Resume,
    /// It never returns: the processor is halted, again after every wake-up.
    Halt,
}

/// One thing a handler does.
#[derive(Debug, Clone, Copy, PartialEq, Eq, Structural)]
pub enum Action {
    Report(Diagnostic),
    /// The work that the device behind the vector asks for.
    Service(u8),
    Write(PortWrite),
    Exit(QemuExitCode),
    Resume,
    Halt,
}

/// What the handler of one interrupt does, in the order of the fields.
#[derive(Debug, Clone, Copy, PartialEq, Eq, Structural)]
pub struct Response {
    /// What it writes to the output sink.
    pub report: Option<Diagnostic>,
    /// The vector whose device it serves.
    pub service: Option<u8>,
    /// The acknowledgment it sends to the interrupt controllers.
    pub acknowledge: Option<Acknowledgment>,
    /// The outcome it signals to the emulator.
    pub exit: Option<QemuExitCode>,
    /// How it ends.
    pub finish: Continuation,
}

impl Response {
    /// The handler's actions in the order in which it performs them.
    pub open spec fn actions(self) -> Seq<Action> {
        let report = match self.report {
            Some(diagnostic) => seq![Action::Report(diagnostic)],
            None => seq![],
        };
        let service = match self.service {
            Some(vector) => seq![Action::Service(vector)],
            None => seq![],
        };
        let acknowledge = match self.acknowledge {
            Some(ack) => ack.writes().map_values(|w: PortWrite| Action::Write(w)),
            None => seq![],
        };
        let exit = match self.exit {
            Some(code) => seq![Action::Exit(code)],
            None => seq![],
        };
        let finish = match self.finish {
            Continuation::Resume => Action::Resume,
            Continuation::Halt => Action::Halt,
        };
        report + service + acknowledge + exit + seq![finish]
    }
}

/// The interrupt vector table: one entry for each vector.
pub struct VectorTable {
    entries: [Entry; VECTORS],
}

impl View for VectorTable {
    type V = Seq<Entry>;

    closed spec fn view(&self) -> Seq<Entry> {
        self.entries@
    }
}

impl VectorTable {
    #[verifier::type_invariant]
    spec fn entries_are_wf(self) -> bool {
        forall|vector: int| 0 <= vector < VECTORS ==> (#[trigger] self.entries@[vector]).wf()
    }

    /// The entry that the kernel registers for `vector`: the breakpoint and
    /// the double-fault handler at their vectors, the latter on the stack
    /// reserved for it, and the hardware handler at the vectors of the
    /// interrupt controllers' sixteen lines.
    pub open spec fn registered(pics: ChainedPics, vector: int) -> Entry {
        if vector == BREAKPOINT_VECTOR {
            Entry::Present { handler: Handler::Breakpoint, stack_index: None }
        } else if vector == DOUBLE_FAULT_VECTOR {
            Entry::Present {
                handler: Handler::DoubleFault,
                stack_index: Some(DOUBLE_FAULT_IST_INDEX),
            }
        } else if 0 <= vector < VECTORS && pics.handles(vector as u8) {
            Entry::Present { handler: Handler::Hardware, stack_index: None }
        } else {
            Entry::Missing
        }
    }

    /// The entry of `vector` where only the hardware handler is registered.
    spec fn line_entry(pics: ChainedPics, vector: int) -> Entry {
        if pics.handles(vector as u8) {
            Entry::Present { handler: Handler::Hardware, stack_index: None }
        } else {
            Entry::Missing
        }
    }

    /// The table that the kernel loads.
    pub open spec fn layout(pics: ChainedPics) -> Seq<Entry> {
        Seq::new(VECTORS as nat, |vector: int| Self::registered(pics, vector))
    }

    /// What the handler behind `entry` does when `vector` interrupts code
    /// in the state `context`.
    pub open spec fn response(
        entry: Entry,
        pics: ChainedPics,
        vector: u8,
        context: InterruptedContext,
        build: Build,
    ) -> Response {
        match entry {
            Entry::Missing => Response {
                report: Some(Diagnostic::Unexpected(vector, context)),
                service: None,
                acknowledge: None,
                exit: None,
                finish: Continuation::Halt,
            },
            Entry::Present { handler: Handler::Breakpoint, stack_index } => Response {
                report: Some(Diagnostic::Breakpoint(context)),
                service: None,
                acknowledge: None,
                exit: None,
                finish: Continuation::Resume,
            },
            Entry::Present { handler: Handler::DoubleFault, stack_index } => match build {
                Build::Kernel => Response {
                    report: Some(Diagnostic::DoubleFault(context)),
                    service: None,
                    acknowledge: None,
                    exit: None,
                    finish: Continuation::Halt,
                },
                Build::Test => Response {
                    report: None,
                    service: None,
                    acknowledge: None,
                    exit: Some(QemuExitCode::Success),
                    finish: Continuation::Halt,
                },
            },
            Entry::Present { handler: Handler::Hardware, stack_index } => Response {
                report: None,
                service: Some(vector),
                acknowledge: Some(pics.acknowledgment(vector)),
                exit: None,
                finish: Continuation::Resume,
            },
        }
    }

    /// The stack that the CPU enters the handler of `entry` on, if it finds
    /// one that can take the frame: the stack in the entry's slot of the
    /// interrupt stack table where the slot is filled, and the interrupted
    /// stack, where that is usable, for an entry that names no slot.
    pub open spec fn frame_stack(entry: Entry, stacks: Seq<u64>, stack_usable: bool) -> Option<
        Stack,
    > {
        match entry {
            Entry::Present { handler, stack_index: Some(index) } => if index < INTERRUPT_STACKS
                && stacks[index as int] != 0 {
                Some(Stack::Reserved(stacks[index as int]))
            } else {
                None
            },
            _ => if stack_usable {
                Some(Stack::Interrupted)
            } else {
                None
            },
        }
    }

    /// What becomes of `vector` when the CPU delivers it. Where the CPU
    /// cannot enter the vector's handler it raises a double fault, and where
    /// it cannot enter that handler either, the machine resets.
    pub open spec fn delivery(
        table: Seq<Entry>,
        stacks: Seq<u64>,
        vector: u8,
        stack_usable: bool,
    ) -> Delivery {
        match Self::frame_stack(table[vector as int], stacks, stack_usable) {
            Some(stack) => Delivery::Entered { vector, stack },
            None => match Self::frame_stack(
                table[DOUBLE_FAULT_VECTOR as int],
                stacks,
                stack_usable,
            ) {
                Some(stack) if vector != DOUBLE_FAULT_VECTOR => Delivery::Entered {
                    vector: DOUBLE_FAULT_VECTOR,
                    stack,
                },
                _ => Delivery::Reset,
            },
        }
    }

    /// A table without handlers.
    pub fn new() -> (table: VectorTable)
        ensures
            table@ == Seq::new(VECTORS as nat, |vector: int| Entry::Missing),
    {
        let table = VectorTable { entries: [Entry::Missing;VECTORS] };
        assert(table@ =~= Seq::new(VECTORS as nat, |vector: int| Entry::Missing));
        table
    }

    /// Registers `handler` for `vector`, to run on the interrupted stack.
    pub fn set_handler(&mut self, vector: u8, handler: Handler)
        ensures
            final(self)@ == old(self)@.update(
                vector as int,
                Entry::Present { handler, stack_index: None },
            ),
    {
        proof {
            use_type_invariant(&*self);
        }
        self.entries[vector as usize] = Entry::Present { handler, stack_index: None };
    }

    /// Makes the handler of `vector` run on the stack in slot `index` of the
    /// interrupt stack table. An entry without a handler stays as it is.
    pub fn set_stack_index(&mut self, vector: u8, index: u16)
        requires
            index < INTERRUPT_STACKS,
        ensures
            final(self)@ == old(self)@.update(
                vector as int,
                match old(self)@[vector as int] {
                    Entry::Present { handler, stack_index } => Entry::Present {
                        handler,
                        stack_index: Some(index),
                    },
                    Entry::Missing => Entry::Missing,
                },
            ),
    {
        proof {
            use_type_invariant(&*self);
        }
        match self.entries[vector as usize] {
            Entry::Present { handler, stack_index: _ } => {
                self.entries[vector as usize] = Entry::Present {
                    handler,
                    stack_index: Some(index),
                };
            },
            Entry::Missing => {
                assert(self@ =~= old(self)@.update(vector as int, Entry::Missing));
            },
        }
    }

    /// The entry of `vector`.
    pub fn entry(&self, vector: u8) -> (entry: Entry)
        ensures
            entry == self@[vector as int],
            entry.wf(),
    {
        proof {
            use_type_invariant(self);
        }
        self.entries[vector as usize]
    }

    /// The table that the kernel loads: see [`VectorTable::registered`].
    pub fn build(pics: &ChainedPics) -> (table: VectorTable)
        ensures
            table@ == Self::layout(*pics),
    {
        let mut table = Self::new();
        let mut vector: u8 = 0;
        loop
            invariant_except_break
                table@.len() == VECTORS,
                forall|v: int| 0 <= v < vector ==> #[trigger] table@[v] == Self::line_entry(*pics, v),
                forall|v: int| vector <= v < VECTORS ==> #[trigger] table@[v] == Entry::Missing,
            ensures
                table@.len() == VECTORS,
                forall|v: int|
                    0 <= v < VECTORS ==> #[trigger] table@[v] == Self::line_entry(*pics, v),
            decreases VECTORS - vector,
        {
            if pics.handles_interrupt(vector) {
                table.set_handler(vector, Handler::Hardware);
            }
            if vector == 255 {
                break ;
            }
            vector += 1;
        }
        table.set_handler(BREAKPOINT_VECTOR, Handler::Breakpoint);
        table.set_handler(DOUBLE_FAULT_VECTOR, Handler::DoubleFault);
        table.set_stack_index(DOUBLE_FAULT_VECTOR, DOUBLE_FAULT_IST_INDEX);
        assert(table@ =~= Self::layout(*pics));
        table
    }

    fn stack_for(&self, tss: &TaskStateSegment, vector: u8, stack_usable: bool) -> (stack: Option<
        Stack,
    >)
        ensures
            stack == Self::frame_stack(self@[vector as int], interrupt_stacks(*tss), stack_usable),
    {
        match self.entries[vector as usize] {
            Entry::Present { handler: _, stack_index: Some(index) } => match reserved_stack(
                tss,
                index,
            ) {
                Some(top) if top != 0 => Some(Stack::Reserved(top)),
                _ => None,
            },
            _ => if stack_usable {
                Some(Stack::Interrupted)
            } else {
                None
            },
        }
    }

    /// What becomes of `vector` when the CPU delivers it while the stack of
    /// the interrupted code can, or cannot, take another frame.
    pub fn deliver(&self, tss: &TaskStateSegment, vector: u8, stack_usable: bool) -> (delivery:
        Delivery)
        ensures
            delivery == Self::delivery(self@, interrupt_stacks(*tss), vector, stack_usable),
    {
        match self.stack_for(tss, vector, stack_usable) {
            Some(stack) => Delivery::Entered { vector, stack },
            None => {
                if vector == DOUBLE_FAULT_VECTOR {
                    return Delivery::Reset;
                }
                match self.stack_for(tss, DOUBLE_FAULT_VECTOR, stack_usable) {
                    Some(stack) => Delivery::Entered { vector: DOUBLE_FAULT_VECTOR, stack },
                    None => Delivery::Reset,
                }
            },
        }
    }

    /// What the handler of `vector` does when the vector interrupts code in
    /// the state `context`.
    pub fn dispatch(
        &self,
        pics: &ChainedPics,
        vector: u8,
        context: InterruptedContext,
        build: Build,
    ) -> (response: Response)
        ensures
            response == Self::response(self@[vector as int], *pics, vector, context, build),
    {
        match self.entries[vector as usize] {
            Entry::Missing => Response {
                report: Some(Diagnostic::Unexpected(vector, context)),
                service: None,
                acknowledge: None,
                exit: None,
                finish: Continuation::Halt,
            },
            Entry::Present { handler: Handler::Breakpoint, stack_index: _ } => Response {
                report: Some(Diagnostic::Breakpoint(context)),
                service: None,
                acknowledge: None,
                exit: None,
                finish: Continuation::Resume,
            },
            Entry::Present { handler: Handler::DoubleFault, stack_index: _ } => match build {
                Build::Kernel => Response {
                    report: Some(Diagnostic::DoubleFault(context)),
                    service: None,
                    acknowledge: None,
                    exit: None,
                    finish: Continuation::Halt,
                },
                Build::Test => Response {
                    report: None,
                    service: None,
                    acknowledge: None,
                    exit: Some(QemuExitCode::Success),
                    finish: Continuation::Halt,
                },
            },
            Entry::Present { handler: Handler::Hardware, stack_index: _ } => Response {
                report: None,
                service: Some(vector),
                acknowledge: Some(pics.acknowledge(vector)),
                exit: None,
                finish: Continuation::Resume,
            },
        }
    }
}

/// In the table that the kernel loads, the double-fault handler runs on the
/// stack that the task-state structure reserves for it, never on the
/// interrupted stack, and no other handler runs on that stack.
pub proof fn lemma_double_fault_stack(pics: ChainedPics, top: u64)
    ensures
        VectorTable::layout(pics)[DOUBLE_FAULT_VECTOR as int] == (Entry::Present {
            handler: Handler::DoubleFault,
            stack_index: Some(DOUBLE_FAULT_IST_INDEX),
        }),
        VectorTable::layout(pics)[DOUBLE_FAULT_VECTOR as int].stack_field() != NO_STACK_SWITCH,
        reserved_stacks(top)[VectorTable::layout(pics)[DOUBLE_FAULT_VECTOR as int].stack_field()
            - 1] == top,
        forall|vector: int|
            0 <= vector < VECTORS && vector != DOUBLE_FAULT_VECTOR ==> (
            #[trigger] VectorTable::layout(pics)[vector]).stack_field() == NO_STACK_SWITCH,
{
}

/// A breakpoint is reported and the interrupted code goes on, in either
/// build.
pub proof fn lemma_breakpoint_resumes(pics: ChainedPics, context: InterruptedContext, build: Build)
    ensures
        VectorTable::response(
            VectorTable::layout(pics)[BREAKPOINT_VECTOR as int],
            pics,
            BREAKPOINT_VECTOR,
            context,
            build,
        ).actions() == seq![Action::Report(Diagnostic::Breakpoint(context)), Action::Resume],
{
    let response = VectorTable::response(
        VectorTable::layout(pics)[BREAKPOINT_VECTOR as int],
        pics,
        BREAKPOINT_VECTOR,
        context,
        build,
    );
    assert(response.actions() =~= seq![
        Action::Report(Diagnostic::Breakpoint(context)),
        Action::Resume,
    ]);
}

/// A double fault never returns to the interrupted code. The kernel reports
/// it and halts; a test build signals success to the emulator instead.
pub proof fn lemma_double_fault_is_terminal(
    pics: ChainedPics,
    context: InterruptedContext,
    build: Build,
)
    ensures
        VectorTable::response(
            VectorTable::layout(pics)[DOUBLE_FAULT_VECTOR as int],
            pics,
            DOUBLE_FAULT_VECTOR,
            context,
            build,
        ).actions() == match build {
            Build::Kernel => seq![Action::Report(Diagnostic::DoubleFault(context)), Action::Halt],
            Build::Test => seq![Action::Exit(QemuExitCode::Success), Action::Halt],
        },
{
    let response = VectorTable::response(
        VectorTable::layout(pics)[DOUBLE_FAULT_VECTOR as int],
        pics,
        DOUBLE_FAULT_VECTOR,
        context,
        build,
    );
    match build {
        Build::Kernel => {
            assert(response.actions() =~= seq![
                Action::Report(Diagnostic::DoubleFault(context)),
                Action::Halt,
            ]);
        },
        Build::Test => {
            assert(response.actions() =~= seq![
                Action::Exit(QemuExitCode::Success),
                Action::Halt,
            ]);
        },
    }
}

/// The handler of a hardware interrupt serves the device, then acknowledges
/// the interrupt, once, and returns: to the primary controller alone for a
/// vector of the primary, to the secondary and then the primary for a
/// vector of the secondary.
pub proof fn lemma_hardware_acknowledged_once(
    pics: ChainedPics,
    vector: u8,
    context: InterruptedContext,
    build: Build,
)
    requires
        pics.wf(),
        pics.handles(vector),
    ensures
        VectorTable::response(
            VectorTable::layout(pics)[vector as int],
            pics,
            vector,
            context,
            build,
        ).actions() == if pics.owns(ControllerId::Primary, vector) {
            seq![
                Action::Service(vector),
                Action::Write(end_of_interrupt(ControllerId::Primary)),
                Action::Resume,
            ]
        } else {
            seq![
                Action::Service(vector),
                Action::Write(end_of_interrupt(ControllerId::Secondary)),
                Action::Write(end_of_interrupt(ControllerId::Primary)),
                Action::Resume,
            ]
        },
{
    let response = VectorTable::response(
        VectorTable::layout(pics)[vector as int],
        pics,
        vector,
        context,
        build,
    );
    let ack = pics.acknowledgment(vector);
    let mapped = ack.writes().map_values(|w: PortWrite| Action::Write(w));
    if pics.owns(ControllerId::Primary, vector) {
        assert(mapped =~= seq![Action::Write(end_of_interrupt(ControllerId::Primary))]);
        assert(response.actions() =~= seq![
            Action::Service(vector),
            Action::Write(end_of_interrupt(ControllerId::Primary)),
            Action::Resume,
        ]);
    } else {
        assert(mapped =~= seq![
            Action::Write(end_of_interrupt(ControllerId::Secondary)),
            Action::Write(end_of_interrupt(ControllerId::Primary)),
        ]);
        assert(response.actions() =~= seq![
            Action::Service(vector),
            Action::Write(end_of_interrupt(ControllerId::Secondary)),
            Action::Write(end_of_interrupt(ControllerId::Primary)),
            Action::Resume,
        ]);
    }
}

/// An interrupt on a vector without a handler is never dropped: it is
/// reported with its vector, and the processor is halted.
pub proof fn lemma_unexpected_vector_halts(
    pics: ChainedPics,
    vector: u8,
    context: InterruptedContext,
    build: Build,
)
    requires
        vector != BREAKPOINT_VECTOR,
        vector != DOUBLE_FAULT_VECTOR,
        !pics.handles(vector),
    ensures
        VectorTable::layout(pics)[vector as int] == Entry::Missing,
        VectorTable::response(
            VectorTable::layout(pics)[vector as int],
            pics,
            vector,
            context,
            build,
        ).actions() == seq![
            Action::Report(Diagnostic::Unexpected(vector, context)),
            Action::Halt,
        ],
{
    let response = VectorTable::response(
        VectorTable::layout(pics)[vector as int],
        pics,
        vector,
        context,
        build,
    );
    assert(response.actions() =~= seq![
        Action::Report(Diagnostic::Unexpected(vector, context)),
        Action::Halt,
    ]);
}

/// With the table that the kernel loads and the task-state structure that
/// reserves a stack for double faults, no exception or interrupt resets the
/// machine, whatever state the interrupted stack is in. Where that stack can
/// take no frame, the double-fault handler is entered on the reserved one.
pub proof fn lemma_faults_never_reset(pics: ChainedPics, top: u64, vector: u8, stack_usable: bool)
    requires
        top != 0,
    ensures
        VectorTable::delivery(
            VectorTable::layout(pics),
            reserved_stacks(top),
            vector,
            stack_usable,
        ) != Delivery::Reset,
        !stack_usable ==> VectorTable::delivery(
            VectorTable::layout(pics),
            reserved_stacks(top),
            vector,
            stack_usable,
        ) == (Delivery::Entered { vector: DOUBLE_FAULT_VECTOR, stack: Stack::Reserved(top) }),
{
}

/// A double-fault handler that stays on the interrupted stack does not
/// protect the machine: a fault on a stack that can take no frame resets it.
pub proof fn lemma_double_fault_needs_its_stack(table: Seq<Entry>, stacks: Seq<u64>, vector: u8)
    requires
        table[vector as int].stack_field() == NO_STACK_SWITCH,
        table[DOUBLE_FAULT_VECTOR as int].stack_field() == NO_STACK_SWITCH,
    ensures
        VectorTable::delivery(table, stacks, vector, false) == Delivery::Reset,
{
}

/// A stack overflow is caught: whatever exception the exhausted stack
/// leads to, the CPU enters the double-fault handler on the stack that
/// [`build_task_state`](crate::gdt::build_task_state) has reserved, and in a
/// test build that handler signals success and halts.
pub proof fn lemma_stack_overflow_is_caught(
    pics: ChainedPics,
    stack_start: u64,
    vector: u8,
    context: InterruptedContext,
)
    requires
        stack_fits(stack_start),
    ensures
        VectorTable::delivery(
            VectorTable::layout(pics),
            reserved_stacks((stack_start + FAULT_STACK_SIZE) as u64),
            vector,
            false,
        ) == (Delivery::Entered {
            vector: DOUBLE_FAULT_VECTOR,
            stack: Stack::Reserved((stack_start + FAULT_STACK_SIZE) as u64),
        }),
        VectorTable::response(
            VectorTable::layout(pics)[DOUBLE_FAULT_VECTOR as int],
            pics,
            DOUBLE_FAULT_VECTOR,
            context,
            Build::Test,
        ).actions() == seq![Action::Exit(QemuExitCode::Success), Action::Halt],
{
    lemma_faults_never_reset(pics, (stack_start + FAULT_STACK_SIZE) as u64, vector, false);
    lemma_double_fault_is_terminal(pics, context, Build::Test);
}

} // verus!
