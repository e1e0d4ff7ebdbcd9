//! The exception and interrupt subsystem of a small x86_64 kernel, together
//! with its text console and its test harness.
//!
//! The library decides, and executes no privileged instruction. It builds
//! the descriptor tables, lays out the interrupt vector table, says which
//! bytes go to the interrupt controllers' ports and in what order, says what
//! each interrupt handler has to do, and writes text to the screen buffer it
//! is given. The kernel around it loads the tables, performs the port writes
//! and halts the processor. Nothing here allocates memory.

use vstd::prelude::*;

pub mod controller;
pub mod gdt;
pub mod interrupts;
pub mod pic;
pub mod vga_buffer;

verus! {

/// The I/O port of the emulator's exit device.
pub const EXIT_PORT: u16 = 0xf4;

/// The two outcomes that the kernel can signal to the emulator.
#[derive(Debug, Clone, Copy, PartialEq, Eq, Structural)]
pub enum QemuExitCode {
    Success,
    Failed,
}

impl QemuExitCode {
    /// The number that stands for the outcome on the exit device.
    pub open spec fn number(self) -> u32 {
        match self {
            QemuExitCode::Success => 0x10,
            QemuExitCode::Failed => 0x11,
        }
    }

    /// The number that stands for the outcome on the exit device.
    pub fn to_u32(self) -> (n: u32)
        ensures
            n == self.number(),
    {
        match self {
            QemuExitCode::Success => 0x10,
            QemuExitCode::Failed => 0x11,
        }
    }
}

/// One 32-bit value to be written to one I/O port.
#[derive(Debug, Clone, Copy, PartialEq, Eq, Structural)]
pub struct ExitSignal {
    pub port: u16,
    pub value: u32,
}

/// The port write that makes the emulator exit with `exit_code`.
pub fn exit_qemu(exit_code: QemuExitCode) -> (signal: ExitSignal)
    ensures
        signal == (ExitSignal { port: EXIT_PORT, value: exit_code.number() }),
{
    ExitSignal { port: EXIT_PORT, value: exit_code.to_u32() }
}

/// A test that the harness can run.
pub trait Testable {
    /// Whether the test may be run.
    spec fn runnable(&self) -> bool;

    /// Runs the test. A test that fails does not return.
    fn run(&self) -> ()
        requires
            self.runnable(),
    ;
}

impl<T> Testable for T where T: Fn() {
    open spec fn runnable(&self) -> bool {
        call_requires(*self, ())
    }

    fn run(&self) {
        self();
    }
}

/// One thing the test harness does.
#[derive(Debug, Clone, Copy, PartialEq, Eq, Structural)]
pub enum HarnessStep {
    /// It says how many tests it is about to run.
    Announce(usize),
    /// It names the test with this index, runs it and says that it passed.
    Run(usize),
    /// It says that a test has failed, and why.
    ReportFailure,
    /// It signals the outcome to the emulator.
    Exit(QemuExitCode),
    /// It halts the processor.
    Halt,
}

/// Where a test run stands.
#[derive(Debug, Clone, Copy, PartialEq, Eq, Structural)]
enum Progress {
    Announcing,
    /// The test with this index is next.
    Running(usize),
    Exiting,
    Finished,
}

/// A run of a number of tests: the steps of the harness, one at a time.
pub struct TestRun {
    count: usize,
    progress: Progress,
}

impl TestRun {
    /// The number of tests.
    pub closed spec fn count(self) -> nat {
        self.count as nat
    }

    /// The number of steps that have been handed out.
    pub closed spec fn position(self) -> nat {
        match self.progress {
            Progress::Announcing => 0,
            Progress::Running(index) => index as nat + 1,
            Progress::Exiting => self.count as nat + 1,
            Progress::Finished => self.count as nat + 2,
        }
    }

    /// The steps of a run of `count` tests: the announcement, the tests in
    /// order, and the signal that all have passed.
    pub open spec fn plan(count: nat) -> Seq<HarnessStep> {
        Seq::new(
            count + 2,
            |i: int|
                if i == 0 {
                    HarnessStep::Announce(count as usize)
                } else if i <= count {
                    HarnessStep::Run((i - 1) as usize)
                } else {
                    HarnessStep::Exit(QemuExitCode::Success)
                },
        )
    }

    #[verifier::type_invariant]
    spec fn in_range(self) -> bool {
        self.progress matches Progress::Running(index) ==> index < self.count
    }

    /// The next step of the run, and `None` once the run is over.
    pub fn next_step(&mut self) -> (step: Option<HarnessStep>)
        ensures
            final(self).count() == old(self).count(),
            old(self).position() < old(self).count() + 2 ==> step == Some(
                Self::plan(old(self).count())[old(self).position() as int],
            ) && final(self).position() == old(self).position() + 1,
            old(self).position() >= old(self).count() + 2 ==> step is None
                && final(self).position() == old(self).position(),
    {
        proof {
            use_type_invariant(&*self);
        }
        match self.progress {
            Progress::Announcing => {
                self.progress = if self.count == 0 {
                    Progress::Exiting
                } else {
                    Progress::Running(0)
                };
                Some(HarnessStep::Announce(self.count))
            },
            Progress::Running(index) => {
                self.progress = if index + 1 < self.count {
                    Progress::Running(index + 1)
                } else {
                    Progress::Exiting
                };
                Some(HarnessStep::Run(index))
            },
            Progress::Exiting => {
                self.progress = Progress::Finished;
                Some(HarnessStep::Exit(QemuExitCode::Success))
            },
            Progress::Finished => None,
        }
    }
}

/// Starts a run of `tests`: the harness announces them, runs each in turn
/// and then signals success. A test that fails does not return, so the run
/// gets no further.
pub fn test_runner(tests: &[&dyn Testable]) -> (run: TestRun)
    ensures
        run.count() == tests@.len(),
        run.position() == 0,
{
    TestRun { count: tests.len(), progress: Progress::Announcing }
}

/// What the harness does when a test panics: it reports the failure,
/// signals it to the emulator and halts.
pub fn test_panic_handler() -> (steps: [HarnessStep; 3])
    ensures
        steps@ == seq![
            HarnessStep::ReportFailure,
            HarnessStep::Exit(QemuExitCode::Failed),
            HarnessStep::Halt,
        ],
{
    let steps = [
        HarnessStep::ReportFailure,
        HarnessStep::Exit(QemuExitCode::Failed),
        HarnessStep::Halt,
    ];
    assert(steps@ =~= seq![
        HarnessStep::ReportFailure,
        HarnessStep::Exit(QemuExitCode::Failed),
        HarnessStep::Halt,
    ]);
    steps
}

/// One step of bringing up the interrupt subsystem.
#[derive(Debug, Clone, Copy, PartialEq, Eq, Structural)]
pub enum BootStep {
    /// Load the descriptor table, reload the code segment register and
    /// load the task register.
    LoadDescriptorTable,
    /// Load the interrupt vector table.
    LoadVectorTable,
    /// Remap the interrupt controllers.
    InitializeControllers,
    /// Let the CPU take hardware interrupts.
    EnableInterrupts,
}

/// What the CPU and the interrupt controllers have been given so far.
#[derive(Debug, Clone, Copy, PartialEq, Eq, Structural)]
pub struct Machine {
    /// The descriptor table with the task-state structure is active.
    pub descriptor_table: bool,
    /// The vector table is loaded.
    pub vector_table: bool,
    /// The interrupt controllers are remapped.
    pub controllers: bool,
    /// The CPU takes hardware interrupts.
    pub interrupts: bool,
}

impl Machine {
    /// The machine as the boot loader hands it over.
    pub open spec fn reset() -> Machine {
        Machine {
            descriptor_table: false,
            vector_table: false,
            controllers: false,
            interrupts: false,
        }
    }

    /// The machine with the whole subsystem up.
    pub open spec fn running() -> Machine {
        Machine { descriptor_table: true, vector_table: true, controllers: true, interrupts: true }
    }

    /// Whether `step` may be taken. Each step is taken once. The vector
    /// table needs the task-state structure that its double-fault entry
    /// refers to; the controllers are remapped while no interrupt can
    /// arrive; and interrupts are let in only when everything else is in
    /// place.
    pub open spec fn allows(self, step: BootStep) -> bool {
        match step {
            BootStep::LoadDescriptorTable => !self.descriptor_table && !self.interrupts,
            BootStep::LoadVectorTable => self.descriptor_table && !self.vector_table
                && !self.interrupts,
            BootStep::InitializeControllers => !self.controllers && !self.interrupts,
            BootStep::EnableInterrupts => self.descriptor_table && self.vector_table
                && self.controllers && !self.interrupts,
        }
    }

    /// The machine after `step`.
    pub open spec fn after(self, step: BootStep) -> Machine {
        match step {
            BootStep::LoadDescriptorTable => Machine { descriptor_table: true, ..self },
            BootStep::LoadVectorTable => Machine { vector_table: true, ..self },
            BootStep::InitializeControllers => Machine { controllers: true, ..self },
            BootStep::EnableInterrupts => Machine { interrupts: true, ..self },
        }
    }

    /// The machine as the boot loader hands it over.
    pub fn at_reset() -> (machine: Machine)
        ensures
            machine == Machine::reset(),
    {
        Machine {
            descriptor_table: false,
            vector_table: false,
            controllers: false,
            interrupts: false,
        }
    }

    /// Whether `step` may be taken.
    pub fn permits(&self, step: BootStep) -> (allowed: bool)
        ensures
            allowed == self.allows(step),
    {
        match step {
            BootStep::LoadDescriptorTable => !self.descriptor_table && !self.interrupts,
            BootStep::LoadVectorTable => self.descriptor_table && !self.vector_table
                && !self.interrupts,
            BootStep::InitializeControllers => !self.controllers && !self.interrupts,
            BootStep::EnableInterrupts => self.descriptor_table && self.vector_table
                && self.controllers && !self.interrupts,
        }
    }

    /// Takes `step` where the machine allows it, and says whether it did.
    pub fn advance(&mut self, step: BootStep) -> (taken: bool)
        ensures
            taken == old(self).allows(step),
            *final(self) == if taken {
                old(self).after(step)
            } else {
                *old(self)
            },
    {
        if !self.permits(step) {
            return false;
        }
        match step {
            BootStep::LoadDescriptorTable => {
                self.descriptor_table = true;
            },
            BootStep::LoadVectorTable => {
                self.vector_table = true;
            },
            BootStep::InitializeControllers => {
                self.controllers = true;
            },
            BootStep::EnableInterrupts => {
                self.interrupts = true;
            },
        }
        true
    }

    /// The machine after the first `count` of `steps`.
    pub open spec fn after_steps(self, steps: Seq<BootStep>, count: nat) -> Machine
        decreases count,
    {
        if count == 0 {
            self
        } else {
            self.after_steps(steps, (count - 1) as nat).after(steps[count - 1])
        }
    }
}

/// The steps of [`init`], in order.
pub open spec fn boot_sequence() -> Seq<BootStep> {
    seq![
        BootStep::LoadDescriptorTable,
        BootStep::LoadVectorTable,
        BootStep::InitializeControllers,
        BootStep::EnableInterrupts,
    ]
}

/// The guard of the one initialisation in a kernel's lifetime.
pub struct Boot {
    initialized: bool,
}

impl Boot {
    /// Whether [`init`] has been called.
    pub closed spec fn initialized(self) -> bool {
        self.initialized
    }

    /// The guard of a kernel that has not been initialised.
    pub fn new() -> (boot: Boot)
        ensures
            !boot.initialized(),
    {
        Boot { initialized: false }
    }

    /// Whether [`init`] has been called.
    pub fn is_initialized(&self) -> (initialized: bool)
        ensures
            initialized == self.initialized(),
    {
        self.initialized
    }
}

/// Initialises the interrupt subsystem: the steps to perform, in order. It
/// is called once in a kernel's lifetime; there is no second
/// initialisation, and `boot` records that this one has happened.
pub fn init(boot: &mut Boot) -> (steps: [BootStep; 4])
    requires
        !old(boot).initialized(),
    ensures
        final(boot).initialized(),
        steps@ == boot_sequence(),
{
    boot.initialized = true;
    let steps = [
        BootStep::LoadDescriptorTable,
        BootStep::LoadVectorTable,
        BootStep::InitializeControllers,
        BootStep::EnableInterrupts,
    ];
    assert(steps@ =~= boot_sequence());
    steps
}

/// [`init`] behind its guard: the steps on the first call, and `None` on
/// every later one, which changes nothing.
pub fn try_init(boot: &mut Boot) -> (steps: Option<[BootStep; 4]>)
    ensures
        final(boot).initialized(),
        steps is Some <==> !old(boot).initialized(),
        steps is Some ==> steps->0@ == boot_sequence(),
{
    if boot.is_initialized() {
        None
    } else {
        Some(init(boot))
    }
}

/// Every step of [`init`] is taken when the machine allows it, and the
/// steps together bring the whole subsystem up.
pub proof fn lemma_boot_sequence_is_safe()
    ensures
        forall|count: nat|
            count < boot_sequence().len() ==> (#[trigger] Machine::reset().after_steps(
                boot_sequence(),
                count,
            )).allows(boot_sequence()[count as int]),
        Machine::reset().after_steps(boot_sequence(), boot_sequence().len()) == Machine::running(),
{
    let steps = boot_sequence();
    let m0 = Machine::reset().after_steps(steps, 0);
    let m1 = Machine::reset().after_steps(steps, 1);
    let m2 = Machine::reset().after_steps(steps, 2);
    let m3 = Machine::reset().after_steps(steps, 3);
    let m4 = Machine::reset().after_steps(steps, 4);
    assert(m0 == Machine::reset());
    assert(m1 == m0.after(steps[0]));
    assert(m2 == m1.after(steps[1]));
    assert(m3 == m2.after(steps[2]));
    assert(m4 == m3.after(steps[3]));
}

/// Interrupts are let in last, whatever the order of the steps before:
/// no machine that takes them allows another step.
pub proof fn lemma_nothing_follows_enabling(machine: Machine, step: BootStep)
    requires
        machine.interrupts,
    ensures
        !machine.allows(step),
{
}

} // verus!
