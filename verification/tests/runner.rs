use bib_os::critical::CriticalSection;
use bib_os::diagnostics::{breakpoint_report, u64_to_hex};
use bib_os::interrupts::ExceptionFrame;
use bib_os::{test_runner, Green, QemuExitCode, Red, Testable};
use std::cell::Cell;

#[test]
fn exit_codes_for_the_harness_port() {
    assert_eq!(QemuExitCode::Success.code(), 0x10);
    assert_eq!(QemuExitCode::Failed.code(), 0x11);
}

struct Counting<'a>(&'a Cell<usize>);

impl Testable for Counting<'_> {
    fn run(&self) {
        self.0.set(self.0.get() + 1);
    }
}

#[test]
fn runner_runs_every_test_and_reports_success() {
    let count = Cell::new(0);
    let tests = [Counting(&count), Counting(&count), Counting(&count)];
    assert_eq!(test_runner(&tests), QemuExitCode::Success);
    assert_eq!(count.get(), 3);
}

#[test]
fn runner_accepts_an_empty_suite() {
    let tests: [Counting; 0] = [];
    assert_eq!(test_runner(&tests), QemuExitCode::Success);
}

#[test]
fn colored_text_wraps_in_ansi_codes() {
    assert_eq!(Green("[ok]").ansi_string(), "\x1b[32m[ok]\x1b[0m");
    assert_eq!(Red("[failed]").ansi_string(), "\x1b[31m[failed]\x1b[0m");
}

#[test]
fn hex_rendering_is_exact() {
    assert_eq!(u64_to_hex(0), "0x0");
    assert_eq!(u64_to_hex(9), "0x9");
    assert_eq!(u64_to_hex(16), "0x10");
    assert_eq!(u64_to_hex(0xdeadbeef), "0xdeadbeef");
    assert_eq!(u64_to_hex(u64::MAX), "0xffffffffffffffff");
}

#[test]
fn breakpoint_report_text_is_exact() {
    let f = ExceptionFrame {
        instruction_pointer: 0x10,
        code_segment: 0x8,
        cpu_flags: 0x202,
        stack_pointer: 0x20,
        stack_segment: 0x10,
    };
    let expected = "EXCEPTION: BREAKPOINT\n\
                    instruction pointer: 0x10\n\
                    code segment: 0x8\n\
                    cpu flags: 0x202\n\
                    stack pointer: 0x20\n\
                    stack segment: 0x10\n";
    assert_eq!(breakpoint_report(&f), expected);
}

#[test]
fn critical_section_enters_masked_then_locked() {
    let mut c = CriticalSection::new();
    assert!(!c.masked);
    assert!(!c.locked);
    c.enter();
    assert!(c.masked);
    assert!(c.locked);
    c.exit();
    assert!(!c.masked);
    assert!(!c.locked);
}
