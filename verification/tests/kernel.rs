use bib_os::console::{Writer, BUFFER_HEIGHT, BUFFER_WIDTH};
use bib_os::interrupts::ExceptionFrame;
use bib_os::kernel::{Event, ExecutionMode, Kernel};

fn frame() -> ExceptionFrame {
    ExceptionFrame {
        instruction_pointer: 0x10,
        code_segment: 0x8,
        cpu_flags: 0x2,
        stack_pointer: 0x20,
        stack_segment: 0x10,
    }
}

fn assert_row_text(w: &Writer, row: usize, text: &str) {
    let bytes = w.get_row_bytes(row).unwrap();
    assert_eq!(&bytes[..text.len()], text.as_bytes());
    for &b in &bytes[text.len()..] {
        assert_eq!(b, b' ');
    }
}

fn booted() -> Kernel {
    let mut k = Kernel::new();
    k.init();
    k
}

#[test]
fn boot_runs_in_the_required_order() {
    let mut k = Kernel::new();
    assert!(!k.idt_loaded);
    assert!(!k.controller.initialized);
    assert!(!k.interrupts_enabled);
    k.load_exception_table();
    assert!(k.idt_loaded);
    k.initialize_controller();
    assert!(k.controller.initialized);
    k.enable_interrupts();
    assert!(k.interrupts_enabled);
    assert_eq!(k.mode, ExecutionMode::Normal);
}

#[test]
fn breakpoint_logs_and_execution_resumes() {
    let mut k = booted();
    k.dispatch_event(Event::Breakpoint(frame()));
    // Non-fatal: the handler returns and execution goes on.
    assert_eq!(k.mode, ExecutionMode::Normal);
    // The frame snapshot went to the diagnostic sink, six lines.
    assert_row_text(&k.stderr, BUFFER_HEIGHT - 7, "EXCEPTION: BREAKPOINT");
    assert_row_text(&k.stderr, BUFFER_HEIGHT - 6, "instruction pointer: 0x10");
    assert_row_text(&k.stderr, BUFFER_HEIGHT - 2, "stack segment: 0x10");
    // Subsequent work still runs: a timer tick is serviced normally.
    k.dispatch_event(Event::Timer);
    assert_eq!(k.controller.eoi_log, vec![32]);
    let top = k.stdout.get_row_bytes(0).unwrap();
    assert_eq!(top[BUFFER_WIDTH - 1], b'|');
}

#[test]
fn page_fault_logs_and_halts() {
    let mut k = booted();
    k.dispatch_event(Event::PageFault(frame(), 0xdeadbeef, 0x2));
    assert_eq!(k.mode, ExecutionMode::Halted);
    assert_row_text(&k.stderr, BUFFER_HEIGHT - 9, "EXCEPTION: PAGE FAULT");
    assert_row_text(&k.stderr, BUFFER_HEIGHT - 8, "Accessed Address: 0xdeadbeef");
    assert_row_text(&k.stderr, BUFFER_HEIGHT - 7, "Error Code: 0x2");
}

#[test]
fn double_fault_halts_permanently() {
    let mut k = booted();
    k.dispatch_event(Event::DoubleFault(frame(), 0));
    assert_eq!(k.mode, ExecutionMode::Halted);
    assert_row_text(&k.stderr, BUFFER_HEIGHT - 7, "EXCEPTION: DOUBLE_FAULT");
}

#[test]
fn fault_inside_a_fault_handler_halts_and_stops_all_work() {
    let mut k = booted();
    k.mode = ExecutionMode::HandlingFault;
    k.dispatch_event(Event::PageFault(frame(), 0x1000, 0x2));
    // Unrecoverable corruption: treated as a double fault.
    assert_eq!(k.mode, ExecutionMode::Halted);
    assert_row_text(&k.stderr, BUFFER_HEIGHT - 7, "EXCEPTION: DOUBLE_FAULT");
    // Halted: no further work happens at all.
    k.dispatch_event(Event::Timer);
    assert_eq!(k.controller.eoi_log.len(), 0);
    let top = k.stdout.get_row_bytes(0).unwrap();
    assert_eq!(top[BUFFER_WIDTH - 1], b' ');
    k.dispatch_event(Event::Breakpoint(frame()));
    assert_eq!(k.mode, ExecutionMode::Halted);
}

#[test]
fn timer_cycles_the_indicator_and_signals_eoi() {
    let mut k = booted();
    let expected = [b'|', b'/', b'-', b'\\', b'|'];
    for (i, glyph) in expected.iter().enumerate() {
        k.dispatch_event(Event::Timer);
        let top = k.stdout.get_row_bytes(0).unwrap();
        assert_eq!(top[BUFFER_WIDTH - 1], *glyph);
        assert_eq!(k.controller.eoi_log.len(), i + 1);
    }
    assert_eq!(k.controller.eoi_log, vec![32, 32, 32, 32, 32]);
}

#[test]
fn keyboard_scancodes_decode_to_console_text() {
    let mut k = booted();
    // Scancode set 1: 0x1e is the press of the key that decodes to 'a'.
    k.dispatch_event(Event::Keyboard(0x1e));
    let bottom = k.stdout.get_row_bytes(BUFFER_HEIGHT - 1).unwrap();
    assert_eq!(bottom[0], b'a');
    assert_eq!(k.stdout.column_pos, 1);
    // The release byte produces no text but still gets its EOI.
    k.dispatch_event(Event::Keyboard(0x9e));
    assert_eq!(k.stdout.column_pos, 1);
    // Another press appends.
    k.dispatch_event(Event::Keyboard(0x30));
    let bottom = k.stdout.get_row_bytes(BUFFER_HEIGHT - 1).unwrap();
    assert_eq!(&bottom[..2], b"ab");
    assert_eq!(k.controller.eoi_log, vec![33, 33, 33]);
}

#[test]
fn handlers_release_the_critical_section_on_every_path() {
    let mut k = booted();
    k.dispatch_event(Event::Breakpoint(frame()));
    assert!(!k.critical.locked);
    assert!(!k.critical.masked);
    k.dispatch_event(Event::Timer);
    assert!(!k.critical.locked);
    assert!(!k.critical.masked);
    k.dispatch_event(Event::PageFault(frame(), 0, 0));
    assert!(!k.critical.locked);
    assert!(!k.critical.masked);
}
