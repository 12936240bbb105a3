//! The kernel state machine: one-time boot initialization in its fixed
//! order, and the handler bodies that hardware and software events
//! dispatch into once interrupts are enabled.
use crate::console::{Color, ColorCode, ConsoleView, Writer, BUFFER_WIDTH, NEWLINE};
use crate::critical::CriticalSection;
use crate::diagnostics::{
    breakpoint_report, double_fault_report, page_fault_report, spec_breakpoint_message,
    spec_double_fault_message, spec_page_fault_message,
};
use crate::interrupts::{
    init_idt, ExceptionFrame, ExceptionTable, InterruptControllerDriver,
    InterruptIndex, PIC_1_OFFSET, PIC_2_OFFSET,
};
use crate::keyboard::{decoder_add_byte, decoder_process_keyevent, new_decoder, KeyDecoder};
use vstd::prelude::*;
use vstd::utf8::encode_utf8;

verus! {

/// Attribute of the primary sink: white on black.
pub open spec fn stdout_color() -> ColorCode {
    ColorCode(15)
}

/// Attribute of the diagnostic sink: light red on black.
pub open spec fn stderr_color() -> ColorCode {
    ColorCode(12)
}

/// Where execution stands.
#[derive(Clone, Copy, Debug, PartialEq, Eq, Structural)]
pub enum ExecutionMode {
    /// Foreground code runs; handlers return to it.
    Normal,
    /// A fault handler is being serviced.
    HandlingFault,
    /// The system has halted permanently; no further work happens.
    Halted,
}

/// The grid column the timer's visual indicator lives in.
pub const INDICATOR_COL: usize = BUFFER_WIDTH - 1;

/// The grid row the timer's visual indicator lives in.
pub const INDICATOR_ROW: usize = 0;

/// The fixed glyph cycle of the timer's visual indicator.
pub open spec fn spec_next_glyph(b: u8) -> u8 {
    if b == 124 {  // '|'
        47  // '/'
    } else if b == 47 {
        45  // '-'
    } else if b == 45 {
        92  // '\'
    } else {
        124
    }
}

fn next_glyph(b: u8) -> (r: u8)
    ensures
        r == spec_next_glyph(b),
{
    if b == 124 {
        47
    } else if b == 47 {
        45
    } else if b == 45 {
        92
    } else {
        124
    }
}

/// An event that dispatches into a handler.
pub enum Event {
    Breakpoint(ExceptionFrame),
    DoubleFault(ExceptionFrame, u64),
    PageFault(ExceptionFrame, u64, u64),
    Timer,
    Keyboard(u8),
}

/// The whole kernel core: the exception table, the controller driver, the
/// two console sinks over the shared character device, the scancode
/// decoder, the critical section guarding the shared sinks, and where
/// execution stands.
///
/// The diagnostic sink aliases the same physical device region as the
/// primary one, with its own color; each sink serializes independently,
/// so writes interleaved across the two are not mutually atomic — a
/// documented limitation, not fixed here.
pub struct Kernel {
    pub table: ExceptionTable,
    pub controller: InterruptControllerDriver,
    pub idt_loaded: bool,
    pub interrupts_enabled: bool,
    pub mode: ExecutionMode,
    pub stdout: Writer,
    pub stderr: Writer,
    pub critical: CriticalSection,
    pub decoder: KeyDecoder,
}

impl Kernel {
    /// Global invariant: the table and both sinks are well formed, the
    /// controller is configured on the standard remapped bases, and the
    /// boot steps only ever happen in their fixed order — the controller
    /// is initialized only after the table is loaded, and interrupts are
    /// enabled only after the controller is initialized.
    pub open spec fn wf(self) -> bool {
        &&& self.table.wf()
        &&& self.controller.wf()
        &&& self.controller.primary_offset == PIC_1_OFFSET
        &&& self.controller.secondary_offset == PIC_2_OFFSET
        &&& self.stdout@.wf()
        &&& self.stderr@.wf()
        &&& self.critical.wf()
        &&& self.controller.initialized ==> self.idt_loaded
        &&& self.interrupts_enabled ==> self.controller.initialized
    }

    /// A kernel as the bootloader hands it over: table built, nothing
    /// loaded, interrupts disabled, both sinks blank, running normally.
    pub fn new() -> (k: Kernel)
        ensures
            k.wf(),
            !k.idt_loaded,
            !k.interrupts_enabled,
            !k.controller.initialized,
            k.controller.eoi_log@ == Seq::<u8>::empty(),
            k.mode == ExecutionMode::Normal,
            k.stdout@.is_blank(),
            k.stdout@.color == stdout_color(),
            k.stderr@.is_blank(),
            k.stderr@.color == stderr_color(),
            !k.critical.locked,
            !k.critical.masked,
    {
        proof {
            assert((0u8 << 4 | 15u8) == 15u8) by (bit_vector);
            assert((0u8 << 4 | 12u8) == 12u8) by (bit_vector);
        }
        Kernel {
            table: init_idt(),
            controller: InterruptControllerDriver::new(PIC_1_OFFSET, PIC_2_OFFSET),
            idt_loaded: false,
            interrupts_enabled: false,
            mode: ExecutionMode::Normal,
            stdout: Writer::new(ColorCode::new(Color::White, Color::Black)),
            stderr: Writer::new(ColorCode::new(Color::LightRed, Color::Black)),
            critical: CriticalSection::new(),
            decoder: new_decoder(),
        }
    }

    /// Hands the exception table to the CPU. Must happen before interrupts
    /// are enabled; the CPU-facing load itself is hardware work done by
    /// the embedder.
    pub fn load_exception_table(&mut self)
        requires
            old(self).wf(),
            !old(self).interrupts_enabled,
        ensures
            final(self).wf(),
            *final(self) == (Kernel { idt_loaded: true, ..*old(self) }),
    {
        self.idt_loaded = true;
    }

    /// One-time remap-and-unmask of the two cascaded controllers. Must
    /// happen strictly after the exception table is loaded and strictly
    /// before interrupts are enabled, else a line could fire on an
    /// unhandled vector.
    pub fn initialize_controller(&mut self)
        requires
            old(self).wf(),
            old(self).idt_loaded,
            !old(self).interrupts_enabled,
            !old(self).controller.initialized,
        ensures
            final(self).wf(),
            final(self).controller.initialized,
            *final(self) == (Kernel { controller: final(self).controller, ..*old(self) }),
            final(self).controller.eoi_log@ == old(self).controller.eoi_log@,
    {
        self.controller.initialize();
    }

    /// Globally enables interrupt delivery. Only legal once the table is
    /// loaded and the controller initialized.
    pub fn enable_interrupts(&mut self)
        requires
            old(self).wf(),
            old(self).idt_loaded,
            old(self).controller.initialized,
        ensures
            final(self).wf(),
            *final(self) == (Kernel { interrupts_enabled: true, ..*old(self) }),
    {
        self.interrupts_enabled = true;
    }

    /// The boot sequence in its required order: load the exception table,
    /// initialize the interrupt controller, then enable interrupts.
    pub fn init(&mut self)
        requires
            old(self).wf(),
            !old(self).idt_loaded,
            !old(self).interrupts_enabled,
            !old(self).controller.initialized,
        ensures
            final(self).wf(),
            final(self).idt_loaded,
            final(self).controller.initialized,
            final(self).interrupts_enabled,
            final(self).mode == old(self).mode,
            final(self).stdout == old(self).stdout,
            final(self).stderr == old(self).stderr,
            final(self).critical == old(self).critical,
            final(self).controller.eoi_log@ == old(self).controller.eoi_log@,
    {
        self.load_exception_table();
        self.initialize_controller();
        self.enable_interrupts();
    }

    /// Breakpoint: logs the interrupted frame to the diagnostic sink and
    /// returns; execution resumes, so the mode is untouched.
    pub fn breakpoint_handler(&mut self, frame: ExceptionFrame)
        requires
            old(self).wf(),
            !old(self).critical.locked,
            !old(self).critical.masked,
        ensures
            final(self).wf(),
            final(self).stderr@ == old(self).stderr@.render(
                encode_utf8(spec_breakpoint_message(frame)),
            ),
            *final(self) == (Kernel { stderr: final(self).stderr, ..*old(self) }),
    {
        let report = breakpoint_report(&frame);
        self.critical.enter();
        self.stderr.write_string(report.as_str());
        self.critical.exit();
    }

    /// Double fault: logs and halts permanently. A second fault while a
    /// fault is being serviced is unrecoverable kernel corruption — no
    /// retry, no unwinding. The handler runs on its own dedicated stack so
    /// that stack exhaustion in the faulting context can still be
    /// serviced.
    pub fn double_fault_handler(&mut self, frame: ExceptionFrame, _error_code: u64)
        requires
            old(self).wf(),
            !old(self).critical.locked,
            !old(self).critical.masked,
        ensures
            final(self).wf(),
            final(self).mode == ExecutionMode::Halted,
            final(self).stderr@ == old(self).stderr@.render(
                encode_utf8(spec_double_fault_message(frame)),
            ),
            *final(self) == (Kernel {
                stderr: final(self).stderr,
                mode: ExecutionMode::Halted,
                ..*old(self)
            }),
    {
        let report = double_fault_report(&frame);
        self.critical.enter();
        self.stderr.write_string(report.as_str());
        self.critical.exit();
        self.mode = ExecutionMode::Halted;
    }

    /// Page fault: logs the faulting virtual address and the fault-reason
    /// flags, then halts — no demand paging exists at this layer.
    pub fn page_fault_handler(&mut self, frame: ExceptionFrame, address: u64, error_code: u64)
        requires
            old(self).wf(),
            !old(self).critical.locked,
            !old(self).critical.masked,
        ensures
            final(self).wf(),
            final(self).mode == ExecutionMode::Halted,
            final(self).stderr@ == old(self).stderr@.render(
                encode_utf8(spec_page_fault_message(frame, address, error_code)),
            ),
            *final(self) == (Kernel {
                stderr: final(self).stderr,
                mode: ExecutionMode::Halted,
                ..*old(self)
            }),
    {
        let report = page_fault_report(&frame, address, error_code);
        self.critical.enter();
        self.stderr.write_string(report.as_str());
        self.critical.exit();
        self.mode = ExecutionMode::Halted;
    }

    /// Timer tick: advances the one-character visual indicator in the
    /// grid's top-right cell through its fixed glyph cycle, then signals
    /// end-of-interrupt for the timer line — omitting that signal would
    /// starve the line permanently.
    pub fn timer_interrupt_handler(&mut self)
        requires
            old(self).wf(),
            old(self).controller.initialized,
            !old(self).critical.locked,
            !old(self).critical.masked,
        ensures
            final(self).wf(),
            final(self).stdout@ == old(self).stdout@.put_at(
                spec_next_glyph(old(self).stdout@.grid[INDICATOR_ROW as int][INDICATOR_COL as int].glyph),
                INDICATOR_ROW as int,
                INDICATOR_COL as int,
            ),
            final(self).controller.eoi_log@ == old(self).controller.eoi_log@.push(PIC_1_OFFSET),
            *final(self) == (Kernel {
                stdout: final(self).stdout,
                controller: final(self).controller,
                ..*old(self)
            }),
    {
        self.critical.enter();
        let row = match self.stdout.get_row_bytes(INDICATOR_ROW) {
            Ok(r) => r,
            Err(_) => {
                proof {
                    assert(false);
                }
                Vec::new()
            },
        };
        let byte = row[INDICATOR_COL];
        let glyph = next_glyph(byte);
        let outcome = self.stdout.write_byte_at(glyph, INDICATOR_ROW, INDICATOR_COL);
        proof {
            assert(outcome is Ok);
            assert(glyph != NEWLINE);
        }
        self.critical.exit();
        self.controller.notify_end_of_interrupt(InterruptIndex::Timer.as_u8());
    }

    /// Keyboard interrupt: the raw scancode byte (read from the hardware
    /// port by the embedder) goes to the external stateful decoder; when a
    /// complete key event decodes to text, the text goes to the console;
    /// then the keyboard line gets its end-of-interrupt. Whatever the
    /// decoder produced, the console only ever sees it through its own
    /// sanitized write path.
    pub fn keyboard_interrupt_handler(&mut self, scancode: u8)
        requires
            old(self).wf(),
            old(self).controller.initialized,
            !old(self).critical.locked,
            !old(self).critical.masked,
        ensures
            final(self).wf(),
            exists|bs: Seq<u8>| final(self).stdout@ == old(self).stdout@.render(bs),
            final(self).controller.eoi_log@ == old(self).controller.eoi_log@.push(
                (PIC_1_OFFSET + 1) as u8,
            ),
            *final(self) == (Kernel {
                stdout: final(self).stdout,
                controller: final(self).controller,
                decoder: final(self).decoder,
                ..*old(self)
            }),
    {
        let maybe_event = decoder_add_byte(&mut self.decoder, scancode);
        match maybe_event {
            Some(event) => {
                match decoder_process_keyevent(&mut self.decoder, event) {
                    Some(text) => {
                        self.critical.enter();
                        self.stdout.write_string(text.as_str());
                        self.critical.exit();
                        proof {
                            assert(self.stdout@ == old(self).stdout@.render(encode_utf8(text@)));
                        }
                    },
                    None => {
                        proof {
                            lemma_render_nothing(old(self).stdout@);
                        }
                    },
                }
            },
            None => {
                proof {
                    lemma_render_nothing(old(self).stdout@);
                }
            },
        }
        self.controller.notify_end_of_interrupt(InterruptIndex::Keyboard.as_u8());
    }

    /// Routes one event to its handler, with two policies on top: a halted
    /// system performs no further work at all, and a fault arriving while
    /// a fault handler is already being serviced is unrecoverable
    /// corruption, treated exactly as a double fault.
    pub fn dispatch_event(&mut self, e: Event)
        requires
            old(self).wf(),
            !old(self).critical.locked,
            !old(self).critical.masked,
            (e matches Event::Timer || e matches Event::Keyboard(_)) ==> old(
                self,
            ).controller.initialized && old(self).mode != ExecutionMode::HandlingFault,
        ensures
            final(self).wf(),
            old(self).mode == ExecutionMode::Halted ==> *final(self) == *old(self),
            old(self).mode != ExecutionMode::Halted ==> {
                &&& e matches Event::Breakpoint(f) ==> (old(self).mode == ExecutionMode::Normal
                    ==> {
                    &&& final(self).mode == ExecutionMode::Normal
                    &&& final(self).stderr@ == old(self).stderr@.render(
                        encode_utf8(spec_breakpoint_message(f)),
                    )
                    &&& *final(self) == (Kernel { stderr: final(self).stderr, ..*old(self) })
                }) && (old(self).mode == ExecutionMode::HandlingFault ==> {
                    &&& final(self).mode == ExecutionMode::Halted
                    &&& final(self).stderr@ == old(self).stderr@.render(
                        encode_utf8(spec_double_fault_message(f)),
                    )
                    &&& *final(self) == (Kernel {
                        stderr: final(self).stderr,
                        mode: ExecutionMode::Halted,
                        ..*old(self)
                    })
                })
                &&& e matches Event::DoubleFault(f, code) ==> {
                    &&& final(self).mode == ExecutionMode::Halted
                    &&& final(self).stderr@ == old(self).stderr@.render(
                        encode_utf8(spec_double_fault_message(f)),
                    )
                    &&& *final(self) == (Kernel {
                        stderr: final(self).stderr,
                        mode: ExecutionMode::Halted,
                        ..*old(self)
                    })
                }
                &&& e matches Event::PageFault(f, address, code) ==> (old(self).mode
                    == ExecutionMode::Normal ==> {
                    &&& final(self).mode == ExecutionMode::Halted
                    &&& final(self).stderr@ == old(self).stderr@.render(
                        encode_utf8(spec_page_fault_message(f, address, code)),
                    )
                    &&& *final(self) == (Kernel {
                        stderr: final(self).stderr,
                        mode: ExecutionMode::Halted,
                        ..*old(self)
                    })
                }) && (old(self).mode == ExecutionMode::HandlingFault ==> {
                    &&& final(self).mode == ExecutionMode::Halted
                    &&& final(self).stderr@ == old(self).stderr@.render(
                        encode_utf8(spec_double_fault_message(f)),
                    )
                    &&& *final(self) == (Kernel {
                        stderr: final(self).stderr,
                        mode: ExecutionMode::Halted,
                        ..*old(self)
                    })
                })
                &&& e matches Event::Timer ==> {
                    &&& final(self).stdout@ == old(self).stdout@.put_at(
                        spec_next_glyph(
                            old(self).stdout@.grid[INDICATOR_ROW as int][INDICATOR_COL as int].glyph,
                        ),
                        INDICATOR_ROW as int,
                        INDICATOR_COL as int,
                    )
                    &&& final(self).controller.eoi_log@ == old(self).controller.eoi_log@.push(
                        PIC_1_OFFSET,
                    )
                    &&& *final(self) == (Kernel {
                        stdout: final(self).stdout,
                        controller: final(self).controller,
                        ..*old(self)
                    })
                }
                &&& e matches Event::Keyboard(_) ==> {
                    &&& (exists|bs: Seq<u8>|
                        final(self).stdout@ == old(self).stdout@.render(bs))
                    &&& final(self).controller.eoi_log@ == old(self).controller.eoi_log@.push(
                        (PIC_1_OFFSET + 1) as u8,
                    )
                    &&& *final(self) == (Kernel {
                        stdout: final(self).stdout,
                        controller: final(self).controller,
                        decoder: final(self).decoder,
                        ..*old(self)
                    })
                }
            },
    {
        if matches!(self.mode, ExecutionMode::Halted) {
            return ;
        }
        match e {
            Event::Breakpoint(frame) => {
                if matches!(self.mode, ExecutionMode::HandlingFault) {
                    self.double_fault_handler(frame, 0);
                } else {
                    self.breakpoint_handler(frame);
                }
            },
            Event::DoubleFault(frame, error_code) => {
                self.double_fault_handler(frame, error_code);
            },
            Event::PageFault(frame, address, error_code) => {
                if matches!(self.mode, ExecutionMode::HandlingFault) {
                    self.double_fault_handler(frame, 0);
                } else {
                    self.page_fault_handler(frame, address, error_code);
                }
            },
            Event::Timer => {
                self.timer_interrupt_handler();
            },
            Event::Keyboard(scancode) => {
                self.keyboard_interrupt_handler(scancode);
            },
        }
    }
}

/// Writing nothing leaves a sink exactly as it was.
pub proof fn lemma_render_nothing(v: ConsoleView)
    ensures
        v.render(Seq::<u8>::empty()) == v,
{
    assert(Seq::<u8>::empty().map_values(|b: u8| crate::console::sanitize(b)) =~= Seq::<
        u8,
    >::empty());
}

} // verus!
