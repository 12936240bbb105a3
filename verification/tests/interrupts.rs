use bib_os::interrupts::{
    init_idt, ControllerId, HandlerEntry, HandlerKind, InterruptControllerDriver, InterruptIndex,
    DOUBLE_FAULT_IST_INDEX, PIC_1_OFFSET, PIC_2_OFFSET,
};

#[test]
fn interrupt_lines_map_to_remapped_vectors() {
    assert_eq!(InterruptIndex::Timer.as_u8(), 32);
    assert_eq!(InterruptIndex::Keyboard.as_u8(), 33);
    assert_eq!(InterruptIndex::Timer.as_usize(), 32);
    assert_eq!(InterruptIndex::Keyboard.as_usize(), 33);
}

#[test]
fn exception_table_registers_each_handler_once() {
    let t = init_idt();
    assert_eq!(
        t.handler_for(3),
        Some(HandlerEntry { kind: HandlerKind::Breakpoint, stack_index: None })
    );
    assert_eq!(
        t.handler_for(8),
        Some(HandlerEntry {
            kind: HandlerKind::DoubleFault,
            stack_index: Some(DOUBLE_FAULT_IST_INDEX),
        })
    );
    assert_eq!(
        t.handler_for(14),
        Some(HandlerEntry { kind: HandlerKind::PageFault, stack_index: None })
    );
    assert_eq!(
        t.handler_for(PIC_1_OFFSET),
        Some(HandlerEntry { kind: HandlerKind::Timer, stack_index: None })
    );
    assert_eq!(
        t.handler_for(PIC_1_OFFSET + 1),
        Some(HandlerEntry { kind: HandlerKind::Keyboard, stack_index: None })
    );
    assert_eq!(t.handler_for(0), None);
    assert_eq!(t.handler_for(100), None);
    assert_eq!(t.handler_for(255), None);
}

#[test]
fn controller_ranges_avoid_the_reserved_vectors() {
    let mut c = InterruptControllerDriver::new(PIC_1_OFFSET, PIC_2_OFFSET);
    c.initialize();
    assert!(c.initialized);
    for v in 0..32u8 {
        assert_eq!(c.owner_of(v), None);
    }
    for v in 32..40u8 {
        assert_eq!(c.owner_of(v), Some(ControllerId::Primary));
    }
    for v in 40..48u8 {
        assert_eq!(c.owner_of(v), Some(ControllerId::Secondary));
    }
    assert_eq!(c.owner_of(48), None);
    assert_eq!(c.owner_of(255), None);
}

#[test]
fn end_of_interrupt_is_logged_per_vector() {
    let mut c = InterruptControllerDriver::new(PIC_1_OFFSET, PIC_2_OFFSET);
    c.initialize();
    c.notify_end_of_interrupt(32);
    c.notify_end_of_interrupt(33);
    c.notify_end_of_interrupt(44);
    assert_eq!(c.eoi_log, vec![32, 33, 44]);
}
