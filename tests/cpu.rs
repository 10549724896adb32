use emulator::cpu::{Cpu, ImageError, Status, StepError, DEBUG_BASE, FLAT_RAM_BASE, FLAT_RAM_SIZE};
use emulator::instructions::Instruction;
use emulator::memory::{Access, MemoryError};

fn i_type(op: u32, f3: u32, rd: u32, rs1: u32, imm: i32) -> u32 {
    ((imm as u32) << 20) | (rs1 << 15) | (f3 << 12) | (rd << 7) | op
}

fn addi(rd: u32, rs1: u32, imm: i32) -> u32 {
    i_type(0b0010011, 0, rd, rs1, imm)
}

fn r_type(f7: u32, f3: u32, rd: u32, rs1: u32, rs2: u32) -> u32 {
    (f7 << 25) | (rs2 << 20) | (rs1 << 15) | (f3 << 12) | (rd << 7) | 0b0110011
}

fn sw(rs1: u32, rs2: u32, imm: i32) -> u32 {
    let imm = imm as u32;
    (((imm >> 5) & 0x7f) << 25) | (rs2 << 20) | (rs1 << 15) | (0b010 << 12) | ((imm & 0x1f) << 7) | 0b0100011
}

fn b_type(f3: u32, rs1: u32, rs2: u32, imm: i32) -> u32 {
    let imm = imm as u32;
    (((imm >> 12) & 1) << 31)
        | (((imm >> 5) & 0x3f) << 25)
        | (rs2 << 20)
        | (rs1 << 15)
        | (f3 << 12)
        | (((imm >> 1) & 0xf) << 8)
        | (((imm >> 11) & 1) << 7)
        | 0b1100011
}

fn jal(rd: u32, imm: i32) -> u32 {
    let imm = imm as u32;
    (((imm >> 20) & 1) << 31)
        | (((imm >> 1) & 0x3ff) << 21)
        | (((imm >> 11) & 1) << 20)
        | (((imm >> 12) & 0xff) << 12)
        | (rd << 7)
        | 0b1101111
}

fn lui(rd: u32, upper: u32) -> u32 {
    (upper << 12) | (rd << 7) | 0b0110111
}

fn image(words: &[u32]) -> Vec<u8> {
    words.iter().flat_map(|w| w.to_le_bytes()).collect()
}

fn flat(words: &[u32]) -> Cpu {
    Cpu::from_flat_file(&image(words)).unwrap()
}

fn run(cpu: &mut Cpu, steps: usize) {
    for _ in 0..steps {
        cpu.step().unwrap();
    }
}

#[test]
fn flat_image_starts_at_ram_base() {
    let cpu = flat(&[addi(1, 0, 5)]);
    assert_eq!(cpu.pc(), FLAT_RAM_BASE);
    assert_eq!(cpu.status(), None);
    assert_eq!(cpu.read(FLAT_RAM_BASE), Ok(addi(1, 0, 5)));
    assert_eq!(cpu.read(FLAT_RAM_BASE + 4), Ok(0));
    for i in 0..32 {
        assert_eq!(cpu.register(i), 0);
    }
}

#[test]
fn flat_image_too_large() {
    let big = vec![0u8; FLAT_RAM_SIZE];
    assert_eq!(Cpu::from_flat_file(&big).err(), Some(ImageError::TooLarge { size: FLAT_RAM_SIZE }));
}

#[test]
fn register_zero_stays_zero() {
    let mut cpu = flat(&[addi(0, 0, 5), lui(0, 0x12345), jal(0, 4), r_type(0, 0, 0, 0, 0)]);
    run(&mut cpu, 4);
    assert_eq!(cpu.register(0), 0);
}

#[test]
fn add_wraps() {
    let mut cpu = flat(&[addi(1, 0, -1), addi(2, 0, 1), r_type(0, 0, 3, 1, 2)]);
    run(&mut cpu, 3);
    assert_eq!(cpu.register(1), 0xffff_ffff);
    assert_eq!(cpu.register(3), 0);
    assert_eq!(cpu.pc(), 12);
}

#[test]
fn sub_wraps() {
    let mut cpu = flat(&[addi(2, 0, 1), r_type(0b0100000, 0, 3, 0, 2)]);
    run(&mut cpu, 2);
    assert_eq!(cpu.register(3), 0xffff_ffff);
}

#[test]
fn blt_is_signed_and_bltu_unsigned() {
    // x1 = -1, x2 = 1; BLT jumps over one word, BLTU does not.
    let mut cpu = flat(&[addi(1, 0, -1), addi(2, 0, 1), b_type(0b100, 1, 2, 8)]);
    run(&mut cpu, 3);
    assert_eq!(cpu.pc(), 16);
    let mut cpu = flat(&[addi(1, 0, -1), addi(2, 0, 1), b_type(0b110, 1, 2, 8)]);
    run(&mut cpu, 3);
    assert_eq!(cpu.pc(), 12);
}

#[test]
fn bge_and_bgeu() {
    let mut cpu = flat(&[addi(1, 0, -1), addi(2, 0, 1), b_type(0b101, 1, 2, 8)]);
    run(&mut cpu, 3);
    assert_eq!(cpu.pc(), 12);
    let mut cpu = flat(&[addi(1, 0, -1), addi(2, 0, 1), b_type(0b111, 1, 2, 8)]);
    run(&mut cpu, 3);
    assert_eq!(cpu.pc(), 16);
}

#[test]
fn beq_and_bne() {
    let mut cpu = flat(&[addi(1, 0, 3), addi(2, 0, 3), b_type(0b000, 1, 2, -8)]);
    run(&mut cpu, 3);
    assert_eq!(cpu.pc(), 0);
    let mut cpu = flat(&[addi(1, 0, 3), addi(2, 0, 3), b_type(0b001, 1, 2, -8)]);
    run(&mut cpu, 3);
    assert_eq!(cpu.pc(), 12);
}

#[test]
fn jal_links_and_jumps() {
    let mut cpu = flat(&[addi(0, 0, 0), jal(1, 12)]);
    run(&mut cpu, 2);
    assert_eq!(cpu.pc(), 16);
    assert_eq!(cpu.register(1), 8);
}

#[test]
fn jalr_clears_low_bit() {
    // x2 = 21; jalr x1, 2(x2) goes to 22 & !1 = 22
    let mut cpu = flat(&[addi(2, 0, 21), i_type(0b1100111, 0, 1, 2, 2)]);
    run(&mut cpu, 2);
    assert_eq!(cpu.pc(), 22);
    assert_eq!(cpu.register(1), 8);
    let mut cpu = flat(&[addi(2, 0, 20), i_type(0b1100111, 0, 1, 2, 3)]);
    run(&mut cpu, 2);
    assert_eq!(cpu.pc(), 22);
}

#[test]
fn shifts_and_comparisons() {
    let mut cpu = flat(&[
        addi(1, 0, -16),
        addi(2, 0, 2),
        r_type(0, 0b001, 3, 1, 2),
        r_type(0, 0b101, 4, 1, 2),
        r_type(0b0100000, 0b101, 5, 1, 2),
        r_type(0, 0b010, 6, 1, 2),
        r_type(0, 0b011, 7, 1, 2),
        i_type(0b0010011, 0b011, 8, 2, 3),
        i_type(0b0010011, 0b101, 9, 1, 0x400 | 4),
        i_type(0b0010011, 0b101, 10, 1, 4),
        i_type(0b0010011, 0b001, 11, 2, 31),
    ]);
    run(&mut cpu, 11);
    assert_eq!(cpu.register(3), 0xffff_ffc0);
    assert_eq!(cpu.register(4), 0x3fff_fffc);
    assert_eq!(cpu.register(5), 0xffff_fffc);
    assert_eq!(cpu.register(6), 1);
    assert_eq!(cpu.register(7), 0);
    assert_eq!(cpu.register(8), 1);
    assert_eq!(cpu.register(9), 0xffff_ffff);
    assert_eq!(cpu.register(10), 0x0fff_ffff);
    assert_eq!(cpu.register(11), 0);
}

#[test]
fn shift_amount_uses_low_five_bits() {
    let mut cpu = flat(&[addi(1, 0, 1), addi(2, 0, 33), r_type(0, 0b001, 3, 1, 2)]);
    run(&mut cpu, 3);
    assert_eq!(cpu.register(3), 2);
}

#[test]
fn bitwise_and_immediates() {
    let mut cpu = flat(&[
        addi(1, 0, 0b1100),
        addi(2, 0, 0b1010),
        r_type(0, 0b111, 3, 1, 2),
        r_type(0, 0b110, 4, 1, 2),
        r_type(0, 0b100, 5, 1, 2),
        i_type(0b0010011, 0b100, 6, 1, -1),
        i_type(0b0010011, 0b111, 7, 1, 0b0100),
        lui(8, 0xabcde),
        0x0000_1497, // auipc x9, 1
    ]);
    run(&mut cpu, 9);
    assert_eq!(cpu.register(3), 0b1000);
    assert_eq!(cpu.register(4), 0b1110);
    assert_eq!(cpu.register(5), 0b0110);
    assert_eq!(cpu.register(6), !0b1100u32);
    assert_eq!(cpu.register(7), 0b0100);
    assert_eq!(cpu.register(8), 0xabcd_e000);
    assert_eq!(cpu.register(9), 32 + 0x1000);
}

#[test]
fn store_then_load() {
    let mut cpu = flat(&[
        lui(1, 0x12345),
        addi(1, 1, 0x678),
        sw(0, 1, 0x100),
        i_type(0b0000011, 0b010, 2, 0, 0x100),
        i_type(0b0000011, 0b101, 3, 0, 0x100),
    ]);
    run(&mut cpu, 5);
    assert_eq!(cpu.read(0x100), Ok(0x1234_5678));
    assert_eq!(cpu.register(2), 0x1234_5678);
    assert_eq!(cpu.register(3), 0x5678);
}

#[test]
fn unsupported_instruction_fails_without_change() {
    let mut cpu = flat(&[0x0000_0073]);
    assert_eq!(cpu.step(), Err(StepError::Unsupported(Instruction::Ecall)));
    assert_eq!(cpu.pc(), 0);
    let mut cpu = flat(&[i_type(0b0000011, 0b000, 1, 0, 0)]);
    assert_eq!(cpu.step(), Err(StepError::Unsupported(Instruction::Lb)));
}

#[test]
fn undecodable_word_fails() {
    let mut cpu = flat(&[0xffff_ffff]);
    assert!(matches!(cpu.step(), Err(StepError::Decode(_))));
}

#[test]
fn unmapped_addresses_fault() {
    let mut cpu = flat(&[]);
    let addr = 0x8000_0000;
    assert_eq!(cpu.read(addr), Err(MemoryError::Unmapped { addr, access: Access::Read }));
    assert_eq!(cpu.write(addr, 1), Err(MemoryError::Unmapped { addr, access: Access::Write }));
    assert_eq!(cpu.read(DEBUG_BASE + 8), Err(MemoryError::Unmapped { addr: DEBUG_BASE + 8, access: Access::Read }));
}

#[test]
fn regions_do_not_overlap() {
    let mut cpu = flat(&[]);
    // the last RAM word is RAM, the first debug word is not
    assert_eq!(cpu.write(DEBUG_BASE - 4, 7), Ok(()));
    assert_eq!(cpu.read(DEBUG_BASE - 4), Ok(7));
    assert_eq!(cpu.status(), None);
    assert_eq!(
        cpu.read(DEBUG_BASE),
        Err(MemoryError::Unsupported { addr: DEBUG_BASE, access: Access::Read })
    );
}

#[test]
fn word_past_ram_end_faults() {
    let mut cpu = flat(&[]);
    let addr = DEBUG_BASE - 2;
    assert_eq!(cpu.read(addr), Err(MemoryError::Overrun { addr, access: Access::Read }));
    assert_eq!(cpu.write(addr, 1), Err(MemoryError::Overrun { addr, access: Access::Write }));
}

#[test]
fn debug_offset_zero_reports_success() {
    let mut cpu = flat(&[]);
    assert_eq!(cpu.write(DEBUG_BASE, 0xdead_beef), Ok(()));
    assert_eq!(cpu.status(), Some(Status::Success));
}

#[test]
fn debug_offset_four_reports_failure() {
    let mut cpu = flat(&[]);
    assert_eq!(cpu.write(DEBUG_BASE + 4, 0), Ok(()));
    assert_eq!(cpu.status(), Some(Status::Failure));
    assert_eq!(cpu.write(DEBUG_BASE, 0), Ok(()));
    assert_eq!(cpu.status(), Some(Status::Success));
}

#[test]
fn debug_other_offsets_fault() {
    let mut cpu = flat(&[]);
    assert_eq!(
        cpu.write(DEBUG_BASE + 2, 0),
        Err(MemoryError::Unsupported { addr: DEBUG_BASE + 2, access: Access::Write })
    );
    assert_eq!(cpu.status(), None);
}

#[test]
fn status_stays_unset_without_debug_write() {
    let mut cpu = flat(&[addi(1, 1, 1), jal(0, -4)]);
    for _ in 0..100 {
        cpu.step().unwrap();
        assert_eq!(cpu.status(), None);
    }
    assert_eq!(cpu.register(1), 50);
}

#[test]
fn sum_program_reports_success() {
    let mut cpu = flat(&[
        addi(1, 0, 5),
        addi(2, 0, 7),
        r_type(0, 0, 3, 1, 2),
        sw(0, 3, 0),
        lui(4, DEBUG_BASE >> 12),
        sw(4, 0, 0),
    ]);
    let mut steps = 0;
    while cpu.status().is_none() {
        cpu.step().unwrap();
        steps += 1;
        assert!(steps <= 6);
    }
    assert_eq!(cpu.status(), Some(Status::Success));
    assert_eq!(cpu.register(3), 12);
    assert_eq!(cpu.read(FLAT_RAM_BASE), Ok(12));
}

#[test]
fn jump_outside_ram_faults_on_next_fetch() {
    let mut cpu = flat(&[jal(0, -4)]);
    assert_eq!(cpu.step(), Ok(()));
    assert_eq!(cpu.pc(), 0xffff_fffc);
    assert_eq!(
        cpu.step(),
        Err(StepError::Memory(MemoryError::Unmapped { addr: 0xffff_fffc, access: Access::Read }))
    );
}

#[test]
fn store_outside_ram_faults() {
    let mut cpu = flat(&[lui(1, 0x80000), sw(1, 0, 0)]);
    run(&mut cpu, 1);
    assert_eq!(
        cpu.step(),
        Err(StepError::Memory(MemoryError::Unmapped { addr: 0x8000_0000, access: Access::Write }))
    );
    assert_eq!(cpu.pc(), 4);
}
