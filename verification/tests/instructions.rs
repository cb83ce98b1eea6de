use rustyneslib::{AddressingMode, Instruction, InstructionType, StatusFlags, CPU};

const START: u16 = 0x0600;

fn flat(program: &[u8]) -> Vec<u8> {
    let mut memory: Vec<u8> = vec![0; 0x10000];
    for (i, byte) in program.iter().enumerate() {
        memory[START as usize + i] = *byte;
    }
    memory
}

fn started() -> CPU {
    let mut cpu = CPU::new();
    cpu.set_pc(START);
    cpu
}

#[test]
fn power_on_state() {
    let cpu = CPU::new();
    assert_eq!(cpu.a(), 0);
    assert_eq!(cpu.x(), 0);
    assert_eq!(cpu.y(), 0);
    assert_eq!(cpu.pc(), 0);
    assert_eq!(cpu.sp(), 0xFD);
    assert_eq!(cpu.status(), 0x24);
    assert_eq!(cpu.cycles, 0);
    assert!(!cpu.reset_pending);
    assert!(!cpu.nmi_pending);
    assert!(!cpu.irq_pending);
    assert_eq!(cpu.illegal_opcodes, 0);
}

#[test]
fn flag_masks_follow_the_bit_positions() {
    assert_eq!(StatusFlags::C.mask(), 0x01);
    assert_eq!(StatusFlags::Z.mask(), 0x02);
    assert_eq!(StatusFlags::I.mask(), 0x04);
    assert_eq!(StatusFlags::D.mask(), 0x08);
    assert_eq!(StatusFlags::B.mask(), 0x10);
    assert_eq!(StatusFlags::V.mask(), 0x40);
    assert_eq!(StatusFlags::N.mask(), 0x80);
}

#[test]
fn set_and_clear_touch_one_flag() {
    let mut cpu = CPU::new();
    cpu.status = 0;
    cpu.set_flag(StatusFlags::V);
    assert_eq!(cpu.status(), 0x40);
    cpu.set_flag(StatusFlags::C);
    assert_eq!(cpu.status(), 0x41);
    cpu.clear_flag(StatusFlags::V);
    assert_eq!(cpu.status(), 0x01);
    cpu.clear_flag(StatusFlags::V);
    assert_eq!(cpu.status(), 0x01);
    cpu.assign_flag(StatusFlags::N, true);
    assert_eq!(cpu.status(), 0x81);
    cpu.assign_flag(StatusFlags::N, false);
    assert_eq!(cpu.status(), 0x01);
}

#[test]
fn value_flags_are_set_and_cleared() {
    let mut cpu = CPU::new();
    cpu.status = 0xFF;
    cpu.set_value_flags(0x01);
    assert_eq!(cpu.status(), 0x7D);
    cpu.set_value_flags(0x00);
    assert_eq!(cpu.status(), 0x7F);
    cpu.set_value_flags(0x80);
    assert_eq!(cpu.status(), 0xFD);
    cpu.status = 0x00;
    cpu.set_value_flags(0xFF);
    assert_eq!(cpu.status(), 0x80);
    cpu.a = 0;
    cpu.set_accumulator_flags();
    assert_eq!(cpu.status(), 0x02);
}

#[test]
fn overflow_helpers_give_carry_and_low_byte() {
    let cpu = CPU::new();
    assert_eq!(cpu.overflow_add(0xFF, 0x01), (true, 0x00));
    assert_eq!(cpu.overflow_add(0x80, 0x7F), (false, 0xFF));
    assert_eq!(cpu.overflow_add(0xF0, 0x20), (true, 0x10));
    assert_eq!(cpu.overflow_subtract(0x00, 0x01), (true, 0xFF));
    assert_eq!(cpu.overflow_subtract(0x10, 0x01), (false, 0x0F));
    assert_eq!(cpu.overflow_subtract(0, 9), (true, 247));
}

#[test]
fn adc_takes_the_carry_in_and_gives_it_out() {
    let mut memory = flat(&[0x69, 0xFF]);
    let mut cpu = started();
    cpu.a = 0x01;
    cpu.set_flag(StatusFlags::C);
    cpu.step(&mut memory);
    assert_eq!(cpu.a(), 0x01);
    assert!(cpu.check_flag(StatusFlags::C));
    assert!(!cpu.check_flag(StatusFlags::V));
    assert!(!cpu.check_flag(StatusFlags::Z));
    assert!(!cpu.check_flag(StatusFlags::N));
}

#[test]
fn adc_of_two_negatives_overflows() {
    let mut memory = flat(&[0x69, 0x80]);
    let mut cpu = started();
    cpu.a = 0x80;
    cpu.step(&mut memory);
    assert_eq!(cpu.a(), 0x00);
    assert!(cpu.check_flag(StatusFlags::C));
    assert!(cpu.check_flag(StatusFlags::V));
    assert!(cpu.check_flag(StatusFlags::Z));
    assert!(!cpu.check_flag(StatusFlags::N));
}

#[test]
fn adc_ignores_decimal_mode() {
    let mut memory = flat(&[0x69, 0x09]);
    let mut cpu = started();
    cpu.a = 0x09;
    cpu.set_flag(StatusFlags::D);
    cpu.step(&mut memory);
    assert_eq!(cpu.a(), 0x12);
    assert!(cpu.check_flag(StatusFlags::D));
}

#[test]
fn sbc_without_borrow() {
    let mut memory = flat(&[0xE9, 0x10]);
    let mut cpu = started();
    cpu.a = 0x50;
    cpu.set_flag(StatusFlags::C);
    cpu.step(&mut memory);
    assert_eq!(cpu.a(), 0x40);
    assert!(cpu.check_flag(StatusFlags::C));
    assert!(!cpu.check_flag(StatusFlags::V));
}

#[test]
fn sbc_with_borrow_and_overflow() {
    let mut memory = flat(&[0xE9, 0xB0]);
    let mut cpu = started();
    cpu.a = 0x50;
    cpu.set_flag(StatusFlags::C);
    cpu.step(&mut memory);
    assert_eq!(cpu.a(), 0xA0);
    assert!(!cpu.check_flag(StatusFlags::C));
    assert!(cpu.check_flag(StatusFlags::V));
    assert!(cpu.check_flag(StatusFlags::N));
}

#[test]
fn sbc_with_clear_carry_subtracts_one_more() {
    let mut memory = flat(&[0xE9, 0x01]);
    let mut cpu = started();
    cpu.a = 0x03;
    cpu.step(&mut memory);
    assert_eq!(cpu.a(), 0x01);
    assert!(cpu.check_flag(StatusFlags::C));
}

#[test]
fn logic_instructions() {
    let mut memory = flat(&[0x29, 0x0F, 0x09, 0x80, 0x49, 0xFF]);
    let mut cpu = started();
    cpu.a = 0x3C;
    cpu.step(&mut memory);
    assert_eq!(cpu.a(), 0x0C);
    assert!(!cpu.check_flag(StatusFlags::Z));
    cpu.step(&mut memory);
    assert_eq!(cpu.a(), 0x8C);
    assert!(cpu.check_flag(StatusFlags::N));
    cpu.step(&mut memory);
    assert_eq!(cpu.a(), 0x73);
    assert!(!cpu.check_flag(StatusFlags::N));
}

#[test]
fn and_to_zero_sets_z() {
    let mut memory = flat(&[0x29, 0xF0]);
    let mut cpu = started();
    cpu.a = 0x0F;
    cpu.step(&mut memory);
    assert_eq!(cpu.a(), 0);
    assert!(cpu.check_flag(StatusFlags::Z));
}

#[test]
fn asl_on_the_accumulator() {
    let mut memory = flat(&[0x0A]);
    let mut cpu = started();
    cpu.a = 0x81;
    cpu.step(&mut memory);
    assert_eq!(cpu.a(), 0x02);
    assert!(cpu.check_flag(StatusFlags::C));
    assert!(!cpu.check_flag(StatusFlags::N));
    assert!(!cpu.check_flag(StatusFlags::Z));
}

#[test]
fn asl_on_memory() {
    let mut memory = flat(&[0x06, 0x10]);
    memory[0x10] = 0x40;
    let mut cpu = started();
    cpu.a = 0x55;
    cpu.tick(&mut memory);
    assert_eq!(memory[0x10], 0x80);
    assert_eq!(cpu.a(), 0x55);
    assert!(!cpu.check_flag(StatusFlags::C));
    assert!(cpu.check_flag(StatusFlags::N));
    assert_eq!(cpu.cycles, 4);
}

#[test]
fn lsr_clears_n_and_moves_bit_zero_to_carry() {
    let mut memory = flat(&[0x4A, 0x4A]);
    let mut cpu = started();
    cpu.a = 0x03;
    cpu.set_flag(StatusFlags::N);
    cpu.step(&mut memory);
    assert_eq!(cpu.a(), 0x01);
    assert!(cpu.check_flag(StatusFlags::C));
    assert!(!cpu.check_flag(StatusFlags::N));
    cpu.step(&mut memory);
    assert_eq!(cpu.a(), 0x00);
    assert!(cpu.check_flag(StatusFlags::C));
    assert!(cpu.check_flag(StatusFlags::Z));
}

#[test]
fn lsr_of_zero_clears_carry() {
    let mut memory = flat(&[0x4A]);
    let mut cpu = started();
    cpu.set_flag(StatusFlags::C);
    cpu.step(&mut memory);
    assert_eq!(cpu.a(), 0x00);
    assert!(!cpu.check_flag(StatusFlags::C));
    assert!(cpu.check_flag(StatusFlags::Z));
}

#[test]
fn rol_takes_the_carry_into_bit_zero() {
    let mut memory = flat(&[0x2A]);
    let mut cpu = started();
    cpu.a = 0x80;
    cpu.set_flag(StatusFlags::C);
    cpu.step(&mut memory);
    assert_eq!(cpu.a(), 0x01);
    assert!(cpu.check_flag(StatusFlags::C));
    assert!(!cpu.check_flag(StatusFlags::Z));
}

#[test]
fn rol_without_carry() {
    let mut memory = flat(&[0x2A]);
    let mut cpu = started();
    cpu.a = 0x40;
    cpu.step(&mut memory);
    assert_eq!(cpu.a(), 0x80);
    assert!(!cpu.check_flag(StatusFlags::C));
    assert!(cpu.check_flag(StatusFlags::N));
}

#[test]
fn ror_takes_the_carry_into_bit_seven() {
    let mut memory = flat(&[0x6A, 0x66, 0x20]);
    memory[0x20] = 0x02;
    let mut cpu = started();
    cpu.a = 0x01;
    cpu.set_flag(StatusFlags::C);
    cpu.step(&mut memory);
    assert_eq!(cpu.a(), 0x80);
    assert!(cpu.check_flag(StatusFlags::C));
    assert!(cpu.check_flag(StatusFlags::N));
    cpu.step(&mut memory);
    assert_eq!(memory[0x20], 0x81);
    assert!(!cpu.check_flag(StatusFlags::C));
}

#[test]
fn bit_takes_n_and_v_from_the_operand() {
    let mut memory = flat(&[0x24, 0x10, 0x2C, 0x00, 0x03]);
    memory[0x10] = 0xC0;
    memory[0x0300] = 0x01;
    let mut cpu = started();
    cpu.a = 0x01;
    cpu.step(&mut memory);
    assert!(cpu.check_flag(StatusFlags::Z));
    assert!(cpu.check_flag(StatusFlags::N));
    assert!(cpu.check_flag(StatusFlags::V));
    assert_eq!(cpu.a(), 0x01);
    cpu.step(&mut memory);
    assert!(!cpu.check_flag(StatusFlags::Z));
    assert!(!cpu.check_flag(StatusFlags::N));
    assert!(!cpu.check_flag(StatusFlags::V));
}

#[test]
fn compare_sets_carry_zero_and_negative() {
    let mut memory = flat(&[0xC9, 0x10, 0xC9, 0x20, 0xC9, 0x30]);
    let mut cpu = started();
    cpu.a = 0x20;
    cpu.step(&mut memory);
    assert!(cpu.check_flag(StatusFlags::C));
    assert!(!cpu.check_flag(StatusFlags::Z));
    assert!(!cpu.check_flag(StatusFlags::N));
    cpu.step(&mut memory);
    assert!(cpu.check_flag(StatusFlags::C));
    assert!(cpu.check_flag(StatusFlags::Z));
    assert!(!cpu.check_flag(StatusFlags::N));
    cpu.step(&mut memory);
    assert!(!cpu.check_flag(StatusFlags::C));
    assert!(!cpu.check_flag(StatusFlags::Z));
    assert!(cpu.check_flag(StatusFlags::N));
    assert_eq!(cpu.a(), 0x20);
}

#[test]
fn compare_x_and_y() {
    let mut memory = flat(&[0xE0, 0x05, 0xC0, 0x06]);
    let mut cpu = started();
    cpu.x = 0x05;
    cpu.y = 0x05;
    cpu.step(&mut memory);
    assert!(cpu.check_flag(StatusFlags::Z));
    assert!(cpu.check_flag(StatusFlags::C));
    cpu.step(&mut memory);
    assert!(!cpu.check_flag(StatusFlags::Z));
    assert!(!cpu.check_flag(StatusFlags::C));
    assert!(cpu.check_flag(StatusFlags::N));
}

#[test]
fn increment_and_decrement_memory_write_back() {
    let mut memory = flat(&[0xE6, 0x10, 0xC6, 0x11]);
    memory[0x10] = 0xFF;
    memory[0x11] = 0x00;
    let mut cpu = started();
    cpu.step(&mut memory);
    assert_eq!(memory[0x10], 0x00);
    assert!(cpu.check_flag(StatusFlags::Z));
    cpu.step(&mut memory);
    assert_eq!(memory[0x11], 0xFF);
    assert!(cpu.check_flag(StatusFlags::N));
    assert!(!cpu.check_flag(StatusFlags::Z));
}

#[test]
fn increment_and_decrement_registers() {
    let mut memory = flat(&[0xCA, 0x88, 0xC8, 0xE8]);
    let mut cpu = started();
    cpu.step(&mut memory);
    assert_eq!(cpu.x(), 0xFF);
    assert!(cpu.check_flag(StatusFlags::N));
    cpu.step(&mut memory);
    assert_eq!(cpu.y(), 0xFF);
    cpu.step(&mut memory);
    assert_eq!(cpu.y(), 0x00);
    assert!(cpu.check_flag(StatusFlags::Z));
    cpu.step(&mut memory);
    assert_eq!(cpu.x(), 0x00);
}

#[test]
fn loads_set_flags_and_stores_do_not() {
    let mut memory = flat(&[0xA9, 0x80, 0x85, 0x10, 0xA2, 0x00, 0x86, 0x11, 0xA0, 0x7F, 0x84, 0x12]);
    memory[0x11] = 0xEE;
    let mut cpu = started();
    cpu.step(&mut memory);
    assert!(cpu.check_flag(StatusFlags::N));
    let status = cpu.status();
    cpu.step(&mut memory);
    assert_eq!(memory[0x10], 0x80);
    assert_eq!(cpu.status(), status);
    cpu.step(&mut memory);
    assert!(cpu.check_flag(StatusFlags::Z));
    assert!(!cpu.check_flag(StatusFlags::N));
    let status = cpu.status();
    cpu.step(&mut memory);
    assert_eq!(memory[0x11], 0x00);
    assert_eq!(cpu.status(), status);
    cpu.step(&mut memory);
    assert_eq!(cpu.y(), 0x7F);
    assert!(!cpu.check_flag(StatusFlags::Z));
    cpu.step(&mut memory);
    assert_eq!(memory[0x12], 0x7F);
}

#[test]
fn transfers() {
    let mut memory = flat(&[0xAA, 0xA8, 0xBA, 0x8A, 0x98, 0x9A]);
    let mut cpu = started();
    cpu.a = 0x80;
    cpu.step(&mut memory);
    assert_eq!(cpu.x(), 0x80);
    assert!(cpu.check_flag(StatusFlags::N));
    cpu.step(&mut memory);
    assert_eq!(cpu.y(), 0x80);
    cpu.step(&mut memory);
    assert_eq!(cpu.x(), 0xFD);
    cpu.x = 0x00;
    cpu.step(&mut memory);
    assert_eq!(cpu.a(), 0x00);
    assert!(cpu.check_flag(StatusFlags::Z));
    cpu.step(&mut memory);
    assert_eq!(cpu.a(), 0x80);
    cpu.x = 0x00;
    let status = cpu.status();
    cpu.step(&mut memory);
    assert_eq!(cpu.sp(), 0x00);
    assert_eq!(cpu.status(), status);
}

#[test]
fn flag_instructions_set_and_clear() {
    let mut memory = flat(&[0x38, 0xF8, 0x78, 0x18, 0xD8, 0x58, 0xB8]);
    let mut cpu = started();
    cpu.status = 0x40;
    cpu.step(&mut memory);
    assert_eq!(cpu.status(), 0x41);
    cpu.step(&mut memory);
    assert_eq!(cpu.status(), 0x49);
    cpu.step(&mut memory);
    assert_eq!(cpu.status(), 0x4D);
    cpu.step(&mut memory);
    assert_eq!(cpu.status(), 0x4C);
    cpu.step(&mut memory);
    assert_eq!(cpu.status(), 0x44);
    cpu.step(&mut memory);
    assert_eq!(cpu.status(), 0x40);
    cpu.step(&mut memory);
    assert_eq!(cpu.status(), 0x00);
}

#[test]
fn every_branch_follows_its_flag() {
    let cases = [
        (0x10u8, StatusFlags::N, false),
        (0x30, StatusFlags::N, true),
        (0x50, StatusFlags::V, false),
        (0x70, StatusFlags::V, true),
        (0x90, StatusFlags::C, false),
        (0xB0, StatusFlags::C, true),
        (0xD0, StatusFlags::Z, false),
        (0xF0, StatusFlags::Z, true),
    ];
    for (opcode, flag, wanted) in cases {
        for set in [false, true] {
            let mut memory = flat(&[opcode, 0x10]);
            let mut cpu = started();
            cpu.assign_flag(flag, set);
            cpu.step(&mut memory);
            let expected = if set == wanted { START + 0x12 } else { START + 2 };
            assert_eq!(cpu.pc(), expected, "opcode {:#04x}, flag set: {}", opcode, set);
        }
    }
}

#[test]
fn push_and_pull_wrap_within_page_one() {
    let mut memory: Vec<u8> = vec![0; 0x10000];
    let mut cpu = CPU::new();
    cpu.sp = 0x00;
    cpu.push(&mut memory, 0xAB);
    assert_eq!(memory[0x0100], 0xAB);
    assert_eq!(cpu.sp(), 0xFF);
    assert_eq!(cpu.pull(&memory), 0xAB);
    assert_eq!(cpu.sp(), 0x00);
    cpu.sp = 0xFF;
    memory[0x0100] = 0x5A;
    memory[0x0200] = 0xA5;
    assert_eq!(cpu.pull(&memory), 0x5A);
    assert_eq!(cpu.sp(), 0x00);
}

#[test]
fn words_go_on_the_stack_high_byte_first() {
    let mut memory: Vec<u8> = vec![0; 0x10000];
    let mut cpu = CPU::new();
    cpu.push_word(&mut memory, 0x1234);
    assert_eq!(memory[0x01FD], 0x12);
    assert_eq!(memory[0x01FC], 0x34);
    assert_eq!(cpu.sp(), 0xFB);
    assert_eq!(cpu.pull_word(&memory), 0x1234);
    assert_eq!(cpu.sp(), 0xFD);
}

#[test]
fn php_pushes_with_bits_four_and_five() {
    let mut memory = flat(&[0x08]);
    let mut cpu = started();
    cpu.status = 0x81;
    cpu.step(&mut memory);
    assert_eq!(memory[0x01FD], 0xB1);
    assert_eq!(cpu.status(), 0x81);
    assert_eq!(cpu.sp(), 0xFC);
}

#[test]
fn plp_clears_bit_four_and_sets_bit_five() {
    let mut memory = flat(&[0x28, 0x28]);
    memory[0x01FE] = 0xFF;
    memory[0x01FF] = 0x00;
    let mut cpu = started();
    cpu.step(&mut memory);
    assert_eq!(cpu.status(), 0xEF);
    cpu.step(&mut memory);
    assert_eq!(cpu.status(), 0x20);
    assert_eq!(cpu.sp(), 0xFF);
}

#[test]
fn pla_sets_flags_from_the_pulled_byte() {
    let mut memory = flat(&[0x68, 0x68]);
    memory[0x01FE] = 0x00;
    memory[0x01FF] = 0x90;
    let mut cpu = started();
    cpu.a = 0x55;
    cpu.step(&mut memory);
    assert_eq!(cpu.a(), 0x00);
    assert!(cpu.check_flag(StatusFlags::Z));
    cpu.step(&mut memory);
    assert_eq!(cpu.a(), 0x90);
    assert!(cpu.check_flag(StatusFlags::N));
    assert!(!cpu.check_flag(StatusFlags::Z));
}

#[test]
fn rti_restores_status_and_program_counter_unadjusted() {
    let mut memory = flat(&[0x40]);
    memory[0x01FB] = 0xD3;
    memory[0x01FC] = 0x34;
    memory[0x01FD] = 0x12;
    let mut cpu = started();
    cpu.sp = 0xFA;
    cpu.tick(&mut memory);
    assert_eq!(cpu.status(), 0xE3);
    assert_eq!(cpu.pc(), 0x1234);
    assert_eq!(cpu.sp(), 0xFD);
    assert_eq!(cpu.cycles, 5);
}

#[test]
fn rts_adds_one_to_the_pulled_address() {
    let mut memory = flat(&[0x60]);
    memory[0x01FE] = 0xFF;
    memory[0x01FF] = 0x12;
    let mut cpu = started();
    cpu.step(&mut memory);
    assert_eq!(cpu.pc(), 0x1300);
    assert_eq!(cpu.sp(), 0xFF);
}

#[test]
fn brk_pushes_and_goes_through_the_irq_vector() {
    let mut memory = flat(&[0x00, 0xFF]);
    memory[0xFFFE] = 0x00;
    memory[0xFFFF] = 0x90;
    let mut cpu = started();
    cpu.status = 0x01;
    cpu.tick(&mut memory);
    assert_eq!(cpu.pc(), 0x9000);
    assert_eq!(memory[0x01FD], 0x06);
    assert_eq!(memory[0x01FC], 0x02);
    assert_eq!(memory[0x01FB], 0x31);
    assert_eq!(cpu.sp(), 0xFA);
    assert_eq!(cpu.status(), 0x05);
    assert_eq!(cpu.cycles, 6);
}

#[test]
fn jmp_absolute() {
    let mut memory = flat(&[0x4C, 0x34, 0x12]);
    let mut cpu = started();
    cpu.tick(&mut memory);
    assert_eq!(cpu.pc(), 0x1234);
    assert_eq!(cpu.cycles, 2);
}

#[test]
fn absolute_x_read_pays_for_a_page_crossing() {
    let mut memory = flat(&[0xBD, 0xFF, 0x02, 0xBD, 0x00, 0x02]);
    memory[0x0300] = 0x99;
    memory[0x0201] = 0x77;
    let mut cpu = started();
    cpu.x = 1;
    cpu.tick(&mut memory);
    assert_eq!(cpu.a(), 0x99);
    assert_eq!(cpu.cycles, 4);
    while cpu.cycles > 0 {
        cpu.tick(&mut memory);
    }
    cpu.tick(&mut memory);
    assert_eq!(cpu.a(), 0x77);
    assert_eq!(cpu.cycles, 3);
}

#[test]
fn absolute_x_store_and_shift_ignore_a_page_crossing() {
    let mut memory = flat(&[0x9D, 0xFF, 0x02, 0x1E, 0xFF, 0x02]);
    let mut cpu = started();
    cpu.x = 1;
    cpu.a = 0x41;
    cpu.tick(&mut memory);
    assert_eq!(memory[0x0300], 0x41);
    assert_eq!(cpu.cycles, 4);
    while cpu.cycles > 0 {
        cpu.tick(&mut memory);
    }
    cpu.tick(&mut memory);
    assert_eq!(memory[0x0300], 0x82);
    assert_eq!(cpu.cycles, 6);
}

#[test]
fn absolute_y_wraps_at_the_end_of_the_address_space() {
    let mut memory = flat(&[0xB9, 0xFF, 0xFF]);
    memory[0x0001] = 0x3C;
    let mut cpu = started();
    cpu.y = 2;
    cpu.tick(&mut memory);
    assert_eq!(cpu.address, 0x0001);
    assert_eq!(cpu.a(), 0x3C);
    assert_eq!(cpu.cycles, 4);
}

#[test]
fn indirect_x_wraps_in_page_zero() {
    let mut memory = flat(&[0xA1, 0xFE]);
    memory[0x00FF] = 0x00;
    memory[0x0000] = 0x04;
    memory[0x0400] = 0x5D;
    let mut cpu = started();
    cpu.x = 1;
    cpu.tick(&mut memory);
    assert_eq!(cpu.address, 0x0400);
    assert_eq!(cpu.a(), 0x5D);
    assert_eq!(cpu.pc(), START + 2);
    assert_eq!(cpu.cycles, 5);
}

#[test]
fn indirect_y_adds_after_the_lookup() {
    let mut memory = flat(&[0xB1, 0xFF, 0xB1, 0x20]);
    memory[0x00FF] = 0xF0;
    memory[0x0000] = 0x04;
    memory[0x0500] = 0x6E;
    memory[0x0020] = 0x00;
    memory[0x0021] = 0x05;
    memory[0x0510] = 0x7F;
    let mut cpu = started();
    cpu.y = 0x10;
    cpu.tick(&mut memory);
    assert_eq!(cpu.address, 0x0500);
    assert_eq!(cpu.a(), 0x6E);
    assert_eq!(cpu.cycles, 5);
    while cpu.cycles > 0 {
        cpu.tick(&mut memory);
    }
    cpu.tick(&mut memory);
    assert_eq!(cpu.a(), 0x7F);
    assert_eq!(cpu.cycles, 4);
    assert_eq!(cpu.pc(), START + 4);
}

#[test]
fn addressing_modes_called_directly() {
    let mut memory: Vec<u8> = vec![0; 0x10000];
    memory[0x0600] = 0x34;
    memory[0x0601] = 0x12;
    let mut cpu = started();
    assert!(!cpu.immediate());
    assert_eq!(cpu.address, 0x0600);
    assert_eq!(cpu.pc(), 0x0601);
    cpu.set_pc(START);
    assert!(!cpu.zero_page(&memory));
    assert_eq!(cpu.address, 0x0034);
    cpu.set_pc(START);
    cpu.x = 0xF0;
    assert!(!cpu.zero_page_x(&memory));
    assert_eq!(cpu.address, 0x0024);
    cpu.set_pc(START);
    assert!(!cpu.absolute(&memory));
    assert_eq!(cpu.address, 0x1234);
    assert_eq!(cpu.pc(), 0x0602);
    cpu.set_pc(START);
    assert!(cpu.absolute_x(&memory));
    assert_eq!(cpu.address, 0x1324);
    cpu.set_pc(START);
    cpu.y = 0x01;
    assert!(!cpu.absolute_y(&memory));
    assert_eq!(cpu.address, 0x1235);
    cpu.set_pc(START);
    assert!(!cpu.relative(&memory));
    assert_eq!(cpu.branch_address, 0x0034);
    memory[0x0600] = 0x80;
    cpu.set_pc(START);
    assert!(!cpu.relative(&memory));
    assert_eq!(cpu.branch_address, 0xFF80);
    cpu.set_pc(START);
    assert!(!cpu.addressing_mode(&AddressingMode::Implied, &memory));
    assert!(!cpu.addressing_mode(&AddressingMode::Accumulator, &memory));
    assert_eq!(cpu.pc(), START);
}

#[test]
fn fetch_decodes_and_advances() {
    let memory = flat(&[0xA9, 0x01]);
    let mut cpu = started();
    let instruction = cpu.fetch_instruction(&memory);
    assert_eq!(instruction, Instruction::new(0xA9));
    assert_eq!(cpu.pc(), START + 1);
    cpu.address = START + 1;
    assert_eq!(cpu.fetch_memory(&memory), 0x01);
}

#[test]
fn execute_reports_the_page_cross_penalty_for_reads_only() {
    let mut memory: Vec<u8> = vec![0; 0x10000];
    let mut cpu = started();
    assert!(cpu.execute(&Instruction::new(0xBD), &mut memory));
    assert!(!cpu.execute(&Instruction::new(0x9D), &mut memory));
    assert!(!cpu.execute(&Instruction::new(0x1E), &mut memory));
    assert!(!cpu.execute(&Instruction::new(0xEA), &mut memory));
}

#[test]
fn shifts_through_get_and_store() {
    let mut memory: Vec<u8> = vec![0; 0x10000];
    memory[0x0040] = 0x0F;
    let mut cpu = started();
    cpu.a = 0xF0;
    cpu.address = 0x0040;
    assert_eq!(cpu.get_value(&AddressingMode::Accumulator, &memory), 0xF0);
    assert_eq!(cpu.get_value(&AddressingMode::ZeroPage, &memory), 0x0F);
    cpu.store_value(&AddressingMode::Accumulator, &mut memory, 0x11);
    assert_eq!(cpu.a(), 0x11);
    assert_eq!(memory[0x0040], 0x0F);
    cpu.store_value(&AddressingMode::ZeroPage, &mut memory, 0x22);
    assert_eq!(cpu.a(), 0x11);
    assert_eq!(memory[0x0040], 0x22);
    assert!(!cpu.asl(&AddressingMode::ZeroPage, &mut memory));
    assert_eq!(memory[0x0040], 0x44);
}

#[test]
fn illegal_bytes_run_as_nop_and_are_counted() {
    let mut memory = flat(&[0x02, 0xEA, 0xFF]);
    let mut cpu = started();
    let before = cpu;
    cpu.tick(&mut memory);
    assert_eq!(cpu.pc(), START + 1);
    assert_eq!(cpu.cycles, 1);
    assert_eq!(cpu.illegal_opcodes, 1);
    assert_eq!(cpu.a(), before.a());
    assert_eq!(cpu.status(), before.status());
    cpu.tick(&mut memory);
    cpu.step(&mut memory);
    assert_eq!(cpu.illegal_opcodes, 1);
    cpu.step(&mut memory);
    assert_eq!(cpu.illegal_opcodes, 2);
    assert_eq!(cpu.pc(), START + 3);
}

#[test]
fn illegal_count_stops_at_its_largest_value() {
    let mut memory = flat(&[0x02]);
    let mut cpu = started();
    cpu.illegal_opcodes = u32::MAX;
    cpu.step(&mut memory);
    assert_eq!(cpu.illegal_opcodes, u32::MAX);
}

#[test]
fn tick_counts_down_inside_an_instruction() {
    let mut memory = flat(&[0xA9, 0x01]);
    let mut cpu = started();
    cpu.cycles = 3;
    cpu.tick(&mut memory);
    assert_eq!(cpu.cycles, 2);
    assert_eq!(cpu.pc(), START);
    assert_eq!(cpu.a(), 0);
}

#[test]
fn step_finishes_the_instruction_in_flight_first() {
    let mut memory = flat(&[0xA9, 0x01, 0xA9, 0x02]);
    let mut cpu = started();
    cpu.cycles = 5;
    cpu.step(&mut memory);
    assert_eq!(cpu.a(), 0x01);
    assert_eq!(cpu.cycles, 0);
    assert_eq!(cpu.pc(), START + 2);
}

#[test]
fn disassemble_lists_the_bytes_of_an_instruction() {
    let memory = flat(&[0xAD, 0x34, 0x12, 0x0A, 0xD0, 0xFE]);
    assert_eq!(
        CPU::disassemble(&memory, START),
        (InstructionType::LDA, AddressingMode::Absolute, vec![0xAD, 0x34, 0x12])
    );
    assert_eq!(
        CPU::disassemble(&memory, START + 3),
        (InstructionType::ASL, AddressingMode::Accumulator, vec![0x0A])
    );
    assert_eq!(
        CPU::disassemble(&memory, START + 4),
        (InstructionType::BNE, AddressingMode::Relative, vec![0xD0, 0xFE])
    );
}

#[test]
fn disassemble_wraps_at_the_end_of_the_address_space() {
    let mut memory: Vec<u8> = vec![0; 0x10000];
    memory[0xFFFF] = 0x4C;
    memory[0x0000] = 0x11;
    memory[0x0001] = 0x22;
    assert_eq!(
        CPU::disassemble(&memory, 0xFFFF),
        (InstructionType::JMP, AddressingMode::Absolute, vec![0x4C, 0x11, 0x22])
    );
}

#[test]
fn program_counter_wraps_at_the_end_of_the_address_space() {
    let mut memory: Vec<u8> = vec![0; 0x10000];
    memory[0xFFFF] = 0xA9;
    memory[0x0000] = 0x77;
    let mut cpu = CPU::new();
    cpu.set_pc(0xFFFF);
    cpu.step(&mut memory);
    assert_eq!(cpu.a(), 0x77);
    assert_eq!(cpu.pc(), 0x0001);
}
