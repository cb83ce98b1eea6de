use rustyneslib::{StatusFlags, CPU};

fn memory_with_vectors() -> Vec<u8> {
    let mut memory: Vec<u8> = vec![0xEA; 0x10000];
    memory[0xFFFA] = 0x00;
    memory[0xFFFB] = 0xA0;
    memory[0xFFFC] = 0x00;
    memory[0xFFFD] = 0xB0;
    memory[0xFFFE] = 0x00;
    memory[0xFFFF] = 0xC0;
    memory
}

#[test]
fn reset_at_a_boundary_happens_at_once() {
    let mut memory = memory_with_vectors();
    let mut cpu = CPU::new();
    cpu.a = 1;
    cpu.x = 2;
    cpu.y = 3;
    cpu.sp = 0x10;
    cpu.status = 0xC3;
    cpu.reset(&mut memory);
    assert_eq!(cpu.a(), 0);
    assert_eq!(cpu.x(), 0);
    assert_eq!(cpu.y(), 0);
    assert_eq!(cpu.sp(), 0xFD);
    assert_eq!(cpu.status(), 0x24);
    assert_eq!(cpu.pc(), 0xB000);
    assert_eq!(cpu.cycles, 7);
    assert!(!cpu.reset_pending);
}

#[test]
fn reset_is_followed_by_seven_idle_ticks() {
    let mut memory = memory_with_vectors();
    memory[0xB000] = 0xA9;
    memory[0xB001] = 0x42;
    let mut cpu = CPU::new();
    cpu.reset(&mut memory);
    for _ in 0..7 {
        cpu.tick(&mut memory);
        assert_eq!(cpu.a(), 0);
    }
    assert_eq!(cpu.cycles, 0);
    cpu.tick(&mut memory);
    assert_eq!(cpu.a(), 0x42);
}

#[test]
fn nmi_at_a_boundary_pushes_and_vectors() {
    let mut memory = memory_with_vectors();
    let mut cpu = CPU::new();
    cpu.set_pc(0x1234);
    cpu.status = 0xD1;
    cpu.nmi(&mut memory);
    assert_eq!(memory[0x01FD], 0x12);
    assert_eq!(memory[0x01FC], 0x34);
    assert_eq!(memory[0x01FB], 0xE1);
    assert_eq!(cpu.sp(), 0xFA);
    assert_eq!(cpu.pc(), 0xA000);
    assert_eq!(cpu.status(), 0xD5);
    assert_eq!(cpu.cycles, 7);
    assert!(!cpu.nmi_pending);
}

#[test]
fn nmi_is_taken_while_interrupts_are_disabled() {
    let mut memory = memory_with_vectors();
    let mut cpu = CPU::new();
    assert!(cpu.check_flag(StatusFlags::I));
    cpu.nmi(&mut memory);
    assert_eq!(cpu.pc(), 0xA000);
}

#[test]
fn irq_is_ignored_while_interrupts_are_disabled() {
    let mut memory = memory_with_vectors();
    let mut cpu = CPU::new();
    cpu.set_pc(0x1234);
    let before = cpu;
    let untouched = memory.clone();
    cpu.irq(&mut memory);
    assert_eq!(cpu.pc(), before.pc());
    assert_eq!(cpu.sp(), before.sp());
    assert_eq!(cpu.status(), before.status());
    assert_eq!(cpu.cycles, 0);
    assert!(!cpu.irq_pending);
    assert_eq!(memory, untouched);
}

#[test]
fn irq_at_a_boundary_goes_through_its_vector() {
    let mut memory = memory_with_vectors();
    let mut cpu = CPU::new();
    cpu.set_pc(0x1234);
    cpu.status = 0x30;
    cpu.irq(&mut memory);
    assert_eq!(memory[0x01FD], 0x12);
    assert_eq!(memory[0x01FC], 0x34);
    assert_eq!(memory[0x01FB], 0x20);
    assert_eq!(cpu.pc(), 0xC000);
    assert!(cpu.check_flag(StatusFlags::I));
    assert_eq!(cpu.cycles, 7);
    assert!(!cpu.irq_pending);
}

#[test]
fn request_inside_an_instruction_waits_for_the_boundary() {
    let mut memory = memory_with_vectors();
    memory[0x0600] = 0xA9;
    memory[0x0601] = 0x55;
    let mut cpu = CPU::new();
    cpu.set_pc(0x0600);
    cpu.tick(&mut memory);
    assert_eq!(cpu.cycles, 1);
    cpu.nmi(&mut memory);
    assert!(cpu.nmi_pending);
    assert_eq!(cpu.pc(), 0x0602);
    assert_eq!(cpu.sp(), 0xFD);
    cpu.tick(&mut memory);
    assert_eq!(cpu.cycles, 0);
    assert!(cpu.nmi_pending);
    cpu.tick(&mut memory);
    assert!(!cpu.nmi_pending);
    assert_eq!(cpu.pc(), 0xA000);
    assert_eq!(cpu.a(), 0x55);
    assert_eq!(memory[0x01FD], 0x06);
    assert_eq!(memory[0x01FC], 0x02);
    assert_eq!(cpu.cycles, 7);
}

#[test]
fn reset_inside_an_instruction_waits_for_the_boundary() {
    let mut memory = memory_with_vectors();
    let mut cpu = CPU::new();
    cpu.set_pc(0x0600);
    cpu.cycles = 2;
    cpu.a = 9;
    cpu.reset(&mut memory);
    assert!(cpu.reset_pending);
    assert_eq!(cpu.a(), 9);
    cpu.step(&mut memory);
    assert!(!cpu.reset_pending);
    assert_eq!(cpu.a(), 0);
    assert_eq!(cpu.pc(), 0xB000);
}

#[test]
fn nmi_goes_before_irq_and_the_masked_irq_is_dropped() {
    let mut memory = memory_with_vectors();
    let mut cpu = CPU::new();
    cpu.set_pc(0x0600);
    cpu.status = 0x20;
    cpu.cycles = 1;
    cpu.irq(&mut memory);
    cpu.nmi(&mut memory);
    assert!(cpu.irq_pending);
    assert!(cpu.nmi_pending);
    cpu.tick(&mut memory);
    cpu.tick(&mut memory);
    assert_eq!(cpu.pc(), 0xA000);
    assert!(!cpu.nmi_pending);
    assert!(cpu.irq_pending);
    while cpu.cycles > 0 {
        cpu.tick(&mut memory);
    }
    cpu.tick(&mut memory);
    // The handler's first instruction runs: I is set, so the request is dropped.
    assert!(!cpu.irq_pending);
    assert_eq!(cpu.pc(), 0xA001);
    assert_eq!(cpu.sp(), 0xFA);
}

#[test]
fn reset_goes_before_nmi() {
    let mut memory = memory_with_vectors();
    let mut cpu = CPU::new();
    cpu.cycles = 1;
    cpu.nmi(&mut memory);
    cpu.reset(&mut memory);
    cpu.tick(&mut memory);
    cpu.tick(&mut memory);
    assert_eq!(cpu.pc(), 0xB000);
    assert!(cpu.nmi_pending);
    while cpu.cycles > 0 {
        cpu.tick(&mut memory);
    }
    cpu.tick(&mut memory);
    assert_eq!(cpu.pc(), 0xA000);
    assert!(!cpu.nmi_pending);
    assert_eq!(memory[0x01FD], 0xB0);
    assert_eq!(memory[0x01FC], 0x00);
}

#[test]
fn pending_irq_is_taken_at_the_boundary() {
    let mut memory = memory_with_vectors();
    let mut cpu = CPU::new();
    cpu.set_pc(0x0600);
    cpu.status = 0x20;
    cpu.cycles = 1;
    cpu.irq(&mut memory);
    assert!(cpu.irq_pending);
    cpu.step(&mut memory);
    assert_eq!(cpu.pc(), 0xC000);
    assert!(!cpu.irq_pending);
    assert_eq!(cpu.cycles, 0);
}

#[test]
fn service_without_a_request_does_nothing() {
    let mut memory = memory_with_vectors();
    let mut cpu = CPU::new();
    let before = cpu;
    assert!(!cpu.service(&mut memory));
    assert_eq!(cpu.pc(), before.pc());
    assert_eq!(cpu.sp(), before.sp());
    assert_eq!(cpu.cycles, before.cycles);
}

#[test]
fn interrupt_and_return_restore_the_program() {
    let mut memory = memory_with_vectors();
    memory[0xA000] = 0x40;
    let mut cpu = CPU::new();
    cpu.set_pc(0x0600);
    cpu.status = 0x63;
    cpu.nmi(&mut memory);
    cpu.step(&mut memory);
    assert_eq!(cpu.pc(), 0x0600);
    assert_eq!(cpu.sp(), 0xFD);
    assert_eq!(cpu.status(), 0x63);
}
