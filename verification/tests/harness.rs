use os_in_rust::exit_qemu;
use os_in_rust::init;
use os_in_rust::test_panic_handler;
use os_in_rust::test_runner;
use os_in_rust::try_init;
use os_in_rust::vga_buffer::Cells;
use os_in_rust::vga_buffer::Color;
use os_in_rust::vga_buffer::ColorCode;
use os_in_rust::vga_buffer::ScreenChar;
use os_in_rust::vga_buffer::Writer;
use os_in_rust::Boot;
use os_in_rust::BootStep;
use os_in_rust::ExitSignal;
use os_in_rust::HarnessStep;
use os_in_rust::Machine;
use os_in_rust::QemuExitCode;
use os_in_rust::Testable;
use os_in_rust::EXIT_PORT;
use std::cell::Cell;
use volatile::Volatile;

fn passing() {}

fn also_passing() {
    assert_eq!(2 + 2, 4);
}

fn steps_of(tests: &[&dyn Testable]) -> Vec<HarnessStep> {
    let mut run = test_runner(tests);
    let mut steps = Vec::new();
    while let Some(step) = run.next_step() {
        steps.push(step);
    }
    assert_eq!(run.next_step(), None);
    steps
}

fn fresh_writer() -> Writer {
    let cells: Cells = std::array::from_fn(|_| std::array::from_fn(|_| Volatile::new(0u16)));
    Writer::new(Box::leak(Box::new(cells)), ColorCode::new(Color::Yellow, Color::Black))
}

fn bottom_rows(writer: &Writer) -> Vec<ScreenChar> {
    let mut cells = Vec::new();
    for row in 22..25 {
        for col in 0..80 {
            cells.push(writer.char_at(row, col).unwrap());
        }
    }
    cells
}

#[test]
fn trivial_assertion() {
    assert_eq!(1, 1);
}

#[test]
fn exit_codes_are_those_of_the_exit_device() {
    assert_eq!(QemuExitCode::Success.to_u32(), 0x10);
    assert_eq!(QemuExitCode::Failed.to_u32(), 0x11);
    assert_ne!(QemuExitCode::Success, QemuExitCode::Failed);
}

#[test]
fn exit_qemu_writes_the_code_to_the_exit_port() {
    assert_eq!(EXIT_PORT, 0xf4);
    assert_eq!(exit_qemu(QemuExitCode::Success), ExitSignal { port: 0xf4, value: 0x10 });
    assert_eq!(exit_qemu(QemuExitCode::Failed), ExitSignal { port: 0xf4, value: 0x11 });
}

#[test]
fn runner_announces_runs_and_exits() {
    let steps = steps_of(&[&passing, &also_passing, &passing]);
    assert_eq!(
        steps,
        vec![
            HarnessStep::Announce(3),
            HarnessStep::Run(0),
            HarnessStep::Run(1),
            HarnessStep::Run(2),
            HarnessStep::Exit(QemuExitCode::Success),
        ]
    );
}

#[test]
fn runner_without_tests_still_exits() {
    let steps = steps_of(&[]);
    assert_eq!(
        steps,
        vec![HarnessStep::Announce(0), HarnessStep::Exit(QemuExitCode::Success)]
    );
}

#[test]
fn runner_with_one_test() {
    let steps = steps_of(&[&passing]);
    assert_eq!(
        steps,
        vec![
            HarnessStep::Announce(1),
            HarnessStep::Run(0),
            HarnessStep::Exit(QemuExitCode::Success),
        ]
    );
}

#[test]
fn run_calls_the_test() {
    let calls = Cell::new(0);
    let counting = || calls.set(calls.get() + 1);
    counting.run();
    counting.run();
    assert_eq!(calls.get(), 2);
    let tests: [&dyn Testable; 2] = [&counting, &passing];
    for step in steps_of(&tests) {
        if let HarnessStep::Run(index) = step {
            tests[index].run();
        }
    }
    assert_eq!(calls.get(), 3);
}

#[test]
fn a_panic_is_reported_and_signalled() {
    assert_eq!(
        test_panic_handler(),
        [
            HarnessStep::ReportFailure,
            HarnessStep::Exit(QemuExitCode::Failed),
            HarnessStep::Halt,
        ]
    );
}

#[test]
fn init_gives_the_steps_in_order() {
    let mut boot = Boot::new();
    assert!(!boot.is_initialized());
    let steps = init(&mut boot);
    assert_eq!(
        steps,
        [
            BootStep::LoadDescriptorTable,
            BootStep::LoadVectorTable,
            BootStep::InitializeControllers,
            BootStep::EnableInterrupts,
        ]
    );
    assert!(boot.is_initialized());
}

#[test]
fn init_happens_once() {
    let mut boot = Boot::new();
    assert!(try_init(&mut boot).is_some());
    assert!(boot.is_initialized());
    assert_eq!(try_init(&mut boot), None);
    assert_eq!(try_init(&mut boot), None);
    assert!(boot.is_initialized());
}

#[test]
fn interrupts_are_enabled_last() {
    let mut boot = Boot::new();
    let steps = try_init(&mut boot).unwrap();
    let position = |wanted: BootStep| steps.iter().position(|step| *step == wanted).unwrap();
    assert!(position(BootStep::LoadDescriptorTable) < position(BootStep::LoadVectorTable));
    assert!(position(BootStep::LoadVectorTable) < position(BootStep::InitializeControllers));
    assert_eq!(position(BootStep::EnableInterrupts), steps.len() - 1);
}

#[test]
fn output_is_laid_out_alike_before_and_after_init() {
    let mut plain = fresh_writer();
    plain.write_string("Hello World!\n");
    plain.write_string("It did not crash!\n");

    let mut booted = fresh_writer();
    booted.write_string("Hello World!\n");
    let mut boot = Boot::new();
    let steps = init(&mut boot);
    assert_eq!(steps.len(), 4);
    booted.write_string("It did not crash!\n");

    assert_eq!(bottom_rows(&booted), bottom_rows(&plain));
    assert_eq!(booted.column_position(), plain.column_position());
    let shown: String = (0..17)
        .map(|col| char::from(booted.char_at(23, col).unwrap().ascii_character))
        .collect();
    assert_eq!(shown, "It did not crash!");
    let first: String = (0..12)
        .map(|col| char::from(booted.char_at(22, col).unwrap().ascii_character))
        .collect();
    assert_eq!(first, "Hello World!");
}

fn all_steps() -> [BootStep; 4] {
    [
        BootStep::LoadDescriptorTable,
        BootStep::LoadVectorTable,
        BootStep::InitializeControllers,
        BootStep::EnableInterrupts,
    ]
}

#[test]
fn the_machine_allows_every_step_of_init() {
    let mut boot = Boot::new();
    let mut machine = Machine::at_reset();
    for step in init(&mut boot) {
        assert!(machine.permits(step));
        assert!(machine.advance(step));
        assert!(!machine.permits(step));
    }
    assert_eq!(
        machine,
        Machine { descriptor_table: true, vector_table: true, controllers: true, interrupts: true }
    );
    for step in all_steps() {
        assert!(!machine.permits(step));
    }
}

#[test]
fn interrupts_wait_for_everything_else() {
    let mut machine = Machine::at_reset();
    assert!(!machine.advance(BootStep::EnableInterrupts));
    assert!(!machine.advance(BootStep::LoadVectorTable));
    assert_eq!(machine, Machine::at_reset());
    assert!(machine.advance(BootStep::LoadDescriptorTable));
    assert!(!machine.advance(BootStep::EnableInterrupts));
    assert!(machine.advance(BootStep::InitializeControllers));
    assert!(!machine.advance(BootStep::EnableInterrupts));
    assert!(machine.advance(BootStep::LoadVectorTable));
    assert!(machine.advance(BootStep::EnableInterrupts));
    assert!(!machine.advance(BootStep::InitializeControllers));
}

#[test]
fn no_step_is_taken_twice() {
    for step in all_steps() {
        let mut machine = Machine {
            descriptor_table: true,
            vector_table: false,
            controllers: false,
            interrupts: false,
        };
        if machine.advance(step) {
            let once = machine;
            assert!(!machine.advance(step));
            assert_eq!(machine, once);
        }
    }
}
