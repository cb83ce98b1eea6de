use rustyneslib::{StatusFlags, CPU};

#[test]
pub fn test_flags() {
    let mut cpu = CPU::new();
    cpu.set_flag(StatusFlags::Z);
    assert!(cpu.check_flag(StatusFlags::Z));
}

#[test]
pub fn test_subtract() {
    let cpu = CPU::new();
    assert_eq!(cpu.overflow_subtract(10, 10).1, 0);
}

#[test]
pub fn test_arithmetic() {
    let mut cpu = CPU::new();
    let mut bus: Vec<u8> = vec![0; 1000];
    bus[0] = 0x69;
    bus[1] = 10;
    bus[2] = 0x69;
    bus[3] = 10;
    cpu.pc = 0;

    cpu.tick(&mut bus);
    cpu.tick(&mut bus);

    assert_eq!(cpu.a, 10);
    cpu.tick(&mut bus);
    cpu.tick(&mut bus);

    assert_eq!(cpu.a, 20);

    cpu.pc = 0;
    bus[0] = 0xE9;
    cpu.tick(&mut bus);
    cpu.tick(&mut bus);
    assert_eq!(cpu.a, 9);

    cpu.pc = 0;
    bus[1] = 9;
    cpu.set_flag(StatusFlags::C);
    cpu.tick(&mut bus);
    cpu.tick(&mut bus);
    assert_eq!(cpu.a, 0);

    cpu.pc = 0;
    cpu.tick(&mut bus);
    cpu.tick(&mut bus);
    assert_eq!(cpu.a, cpu.overflow_subtract(0, 9).1);
    assert!(!cpu.check_flag(StatusFlags::C));

    cpu.a = 0;
    cpu.pc = 0;
    bus[0] = 0x69;
    bus[1] = 0;

    cpu.status = 0;
    cpu.tick(&mut bus);
    cpu.tick(&mut bus);

    assert_eq!(cpu.a, 0);
    assert!(cpu.check_flag(StatusFlags::Z));
    assert!(!cpu.check_flag(StatusFlags::N));
    assert!(!cpu.check_flag(StatusFlags::V));

    cpu.pc = 0;
    bus[1] = 0x80;
    cpu.tick(&mut bus);
    cpu.tick(&mut bus);

    assert!(cpu.check_flag(StatusFlags::N));
    // 0 + (-128) is -128: the sum stays in the signed range, so V is clear.
    assert!(!cpu.check_flag(StatusFlags::V));
}
