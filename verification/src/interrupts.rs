//! The exception table, the chained interrupt-controller driver, and the
//! handler policies.
//!
//! Vectors 0-31 are reserved by the CPU for exceptions; the two cascaded
//! hardware controllers are remapped so that their sixteen lines land just
//! above that range. The exception table is built once at boot and never
//! mutated afterward.
use vstd::prelude::*;

verus! {

/// Vector base of the primary hardware interrupt controller.
pub const PIC_1_OFFSET: u8 = 32;

/// Vector base of the secondary (cascaded) hardware interrupt controller.
pub const PIC_2_OFFSET: u8 = PIC_1_OFFSET + 8;

/// CPU exception vector of a breakpoint.
pub const BREAKPOINT_VECTOR: u8 = 3;

/// CPU exception vector of a double fault.
pub const DOUBLE_FAULT_VECTOR: u8 = 8;

/// CPU exception vector of a page fault.
pub const PAGE_FAULT_VECTOR: u8 = 14;

/// Interrupt-stack-table slot of the dedicated double-fault stack.
pub const DOUBLE_FAULT_IST_INDEX: u8 = 0;

/// How many vectors the CPU dispatches over.
pub const VECTOR_COUNT: usize = 256;

/// Lines each controller arbitrates.
pub const LINES_PER_CONTROLLER: u8 = 8;

/// The hardware interrupt lines this kernel unmasks.
#[derive(Clone, Copy, Debug, PartialEq, Eq, Structural)]
pub enum InterruptIndex {
    Timer,
    Keyboard,
}

impl InterruptIndex {
    /// The vector this line is delivered on once the controllers are
    /// remapped.
    pub open spec fn spec_vector(self) -> u8 {
        match self {
            InterruptIndex::Timer => PIC_1_OFFSET,
            InterruptIndex::Keyboard => (PIC_1_OFFSET + 1) as u8,
        }
    }

    pub fn as_u8(self) -> (r: u8)
        ensures
            r == self.spec_vector(),
    {
        match self {
            InterruptIndex::Timer => PIC_1_OFFSET,
            InterruptIndex::Keyboard => PIC_1_OFFSET + 1,
        }
    }

    pub fn as_usize(self) -> (r: usize)
        ensures
            r == self.spec_vector() as usize,
    {
        self.as_u8() as usize
    }
}

/// Which of the two cascaded controllers owns a vector.
#[derive(Clone, Copy, Debug, PartialEq, Eq, Structural)]
pub enum ControllerId {
    Primary,
    Secondary,
}

/// Driver state of the two cascaded 8-line hardware interrupt controllers.
/// The command/data port writes themselves happen outside the library; the
/// driver records the configured vector bases, whether the one-time
/// initialization has run, and every end-of-interrupt it has issued.
pub struct InterruptControllerDriver {
    pub primary_offset: u8,
    pub secondary_offset: u8,
    pub initialized: bool,
    /// Every end-of-interrupt signalled so far, in order, by vector.
    pub eoi_log: Vec<u8>,
}

impl InterruptControllerDriver {
    /// The configured bases keep both 8-vector ranges inside the table and
    /// entirely clear of the CPU-reserved range `[0, 32)`, and the two
    /// ranges do not overlap.
    pub open spec fn wf(self) -> bool {
        &&& self.primary_offset >= 32
        &&& self.secondary_offset >= 32
        &&& self.primary_offset + LINES_PER_CONTROLLER <= 256
        &&& self.secondary_offset + LINES_PER_CONTROLLER <= 256
        &&& (self.primary_offset + LINES_PER_CONTROLLER <= self.secondary_offset
            || self.secondary_offset + LINES_PER_CONTROLLER <= self.primary_offset)
    }

    /// Which controller a vector belongs to, if any.
    pub open spec fn spec_owner_of(self, vector: u8) -> Option<ControllerId> {
        if self.primary_offset <= vector < self.primary_offset + LINES_PER_CONTROLLER {
            Some(ControllerId::Primary)
        } else if self.secondary_offset <= vector < self.secondary_offset
            + LINES_PER_CONTROLLER {
            Some(ControllerId::Secondary)
        } else {
            None
        }
    }

    /// A driver for controllers remapped to the two given vector bases.
    /// The bases must avoid the CPU-reserved range and each other; the
    /// hardware is not touched until `initialize`.
    pub fn new(primary_offset: u8, secondary_offset: u8) -> (r: InterruptControllerDriver)
        requires
            primary_offset >= 32,
            secondary_offset >= 32,
            primary_offset + LINES_PER_CONTROLLER <= 256,
            secondary_offset + LINES_PER_CONTROLLER <= 256,
            primary_offset + LINES_PER_CONTROLLER <= secondary_offset || secondary_offset
                + LINES_PER_CONTROLLER <= primary_offset,
        ensures
            r.primary_offset == primary_offset,
            r.secondary_offset == secondary_offset,
            !r.initialized,
            r.eoi_log@ == Seq::<u8>::empty(),
            r.wf(),
    {
        InterruptControllerDriver {
            primary_offset,
            secondary_offset,
            initialized: false,
            eoi_log: Vec::new(),
        }
    }

    /// One-time remap-and-unmask of both controllers. Afterward both
    /// configured vector ranges lie entirely outside the CPU-reserved
    /// range `[0, 32)`.
    pub fn initialize(&mut self)
        requires
            old(self).wf(),
            !old(self).initialized,
        ensures
            final(self).initialized,
            final(self).primary_offset == old(self).primary_offset,
            final(self).secondary_offset == old(self).secondary_offset,
            final(self).eoi_log@ == old(self).eoi_log@,
            final(self).wf(),
            final(self).primary_offset >= 32,
            final(self).secondary_offset >= 32,
            forall|v: u8| v < 32 ==> #[trigger] final(self).spec_owner_of(v) is None,
    {
        self.initialized = true;
    }

    /// Which controller a vector belongs to, if any.
    pub fn owner_of(&self, vector: u8) -> (r: Option<ControllerId>)
        ensures
            r == self.spec_owner_of(vector),
    {
        if self.primary_offset <= vector && (vector as usize) < self.primary_offset as usize
            + LINES_PER_CONTROLLER as usize {
            Some(ControllerId::Primary)
        } else if self.secondary_offset <= vector && (vector as usize) < self.secondary_offset
            as usize + LINES_PER_CONTROLLER as usize {
            Some(ControllerId::Secondary)
        } else {
            None
        }
    }

    /// Signals end-of-interrupt for a serviced vector to the controller
    /// that owns it. Must be called exactly once per serviced interrupt;
    /// the log records each signal so that callers can be held to that.
    /// A vector owned by neither controller must not be acknowledged.
    pub fn notify_end_of_interrupt(&mut self, vector: u8)
        requires
            old(self).initialized,
            old(self).spec_owner_of(vector) is Some,
        ensures
            final(self).eoi_log@ == old(self).eoi_log@.push(vector),
            final(self).primary_offset == old(self).primary_offset,
            final(self).secondary_offset == old(self).secondary_offset,
            final(self).initialized,
    {
        self.eoi_log.push(vector);
    }
}

/// What a registered handler does.
#[derive(Clone, Copy, Debug, PartialEq, Eq, Structural)]
pub enum HandlerKind {
    Breakpoint,
    DoubleFault,
    PageFault,
    Timer,
    Keyboard,
}

/// One exception-table entry: the handler and, where one is designated,
/// the interrupt-stack-table slot of a dedicated stack to run it on.
#[derive(Clone, Copy, Debug, PartialEq, Eq, Structural)]
pub struct HandlerEntry {
    pub kind: HandlerKind,
    pub stack_index: Option<u8>,
}

/// The boot layout: which handler each vector gets. Only the double-fault
/// entry designates a dedicated stack, so that a fault caused by stack
/// exhaustion can still be serviced.
pub open spec fn spec_handler_for(vector: int) -> Option<HandlerEntry> {
    if vector == BREAKPOINT_VECTOR {
        Some(HandlerEntry { kind: HandlerKind::Breakpoint, stack_index: None })
    } else if vector == DOUBLE_FAULT_VECTOR {
        Some(
            HandlerEntry {
                kind: HandlerKind::DoubleFault,
                stack_index: Some(DOUBLE_FAULT_IST_INDEX),
            },
        )
    } else if vector == PAGE_FAULT_VECTOR {
        Some(HandlerEntry { kind: HandlerKind::PageFault, stack_index: None })
    } else if vector == PIC_1_OFFSET {
        Some(HandlerEntry { kind: HandlerKind::Timer, stack_index: None })
    } else if vector == PIC_1_OFFSET + 1 {
        Some(HandlerEntry { kind: HandlerKind::Keyboard, stack_index: None })
    } else {
        None
    }
}

/// The vector-to-handler table. Built once at boot; the CPU-facing load of
/// the table happens outside the library.
pub struct ExceptionTable {
    pub entries: Vec<Option<HandlerEntry>>,
}

impl ExceptionTable {
    /// One entry per vector, each exactly as the boot layout fixes it.
    pub open spec fn wf(self) -> bool {
        &&& self.entries@.len() == VECTOR_COUNT
        &&& forall|v: int| 0 <= v < VECTOR_COUNT ==> self.entries@[v] == spec_handler_for(v)
    }

    /// The handler registered for one vector.
    pub fn handler_for(&self, vector: u8) -> (r: Option<HandlerEntry>)
        requires
            self.wf(),
        ensures
            r == spec_handler_for(vector as int),
    {
        self.entries[vector as usize]
    }
}

fn handler_for_vector(vector: u8) -> (r: Option<HandlerEntry>)
    ensures
        r == spec_handler_for(vector as int),
{
    if vector == BREAKPOINT_VECTOR {
        Some(HandlerEntry { kind: HandlerKind::Breakpoint, stack_index: None })
    } else if vector == DOUBLE_FAULT_VECTOR {
        Some(HandlerEntry { kind: HandlerKind::DoubleFault, stack_index: Some(DOUBLE_FAULT_IST_INDEX) })
    } else if vector == PAGE_FAULT_VECTOR {
        Some(HandlerEntry { kind: HandlerKind::PageFault, stack_index: None })
    } else if vector == PIC_1_OFFSET {
        Some(HandlerEntry { kind: HandlerKind::Timer, stack_index: None })
    } else if vector == PIC_1_OFFSET + 1 {
        Some(HandlerEntry { kind: HandlerKind::Keyboard, stack_index: None })
    } else {
        None
    }
}

/// Builds the exception table: breakpoint, double fault (on its dedicated
/// stack), page fault, timer and keyboard, every other vector empty.
pub fn init_idt() -> (t: ExceptionTable)
    ensures
        t.wf(),
{
    let mut entries: Vec<Option<HandlerEntry>> = Vec::new();
    let mut v: usize = 0;
    while v < VECTOR_COUNT
        invariant
            v <= VECTOR_COUNT,
            entries@.len() == v,
            forall|i: int| 0 <= i < v ==> entries@[i] == spec_handler_for(i),
        decreases VECTOR_COUNT - v,
    {
        entries.push(handler_for_vector(v as u8));
        v = v + 1;
    }
    ExceptionTable { entries }
}

/// The saved state of the interrupted context, as the CPU pushes it when
/// it transfers to a handler.
#[derive(Clone, Copy, Debug, PartialEq, Eq, Structural)]
pub struct ExceptionFrame {
    pub instruction_pointer: u64,
    pub code_segment: u64,
    pub cpu_flags: u64,
    pub stack_pointer: u64,
    pub stack_segment: u64,
}

} // verus!
