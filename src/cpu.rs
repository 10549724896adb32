use vstd::prelude::*;
use crate::instructions::{
    decode_spec,
    imm_b,
    immediate,
    immediate_spec,
    rd,
    rd_spec,
    rs1,
    rs1_spec,
    rs2,
    rs2_spec,
    DecodeError,
    Instruction,
};
use crate::memory::{
    debug_store,
    in_region,
    ram_load,
    ram_store,
    Access,
    DebugPeripheral,
    MemoryError,
    Ram,
    DEBUG_SIZE,
};
use crate::loader::{
    elf_image_of,
    elf_load,
    segments_from_file,
    elf_machine,
    load_segments_into,
    ElfImage,
    EM_RISCV,
    ET_EXEC,
    LOAD_OFFSET,
    RAM_BASE,
    RAM_SIZE,
};
pub use crate::memory::Status;

verus! {

/// Base address of the debug peripheral.
pub const DEBUG_BASE: u32 = 0x0300_0000;

/// Where a flat binary image is mapped, and where execution of it starts.
pub const FLAT_RAM_BASE: u32 = 0x0000_0000;

/// RAM size for a flat binary image: everything below the debug peripheral.
pub const FLAT_RAM_SIZE: usize = 0x0300_0000;

/// Why a step failed.
#[derive(Debug, Clone, Copy, PartialEq, Eq, Structural)]
pub enum StepError {
    /// The fetched word is not a recognised instruction.
    Decode(DecodeError),
    /// A fetch, load or store touched memory that does not serve it.
    Memory(MemoryError),
    /// The instruction is recognised but not implemented.
    Unsupported(Instruction),
}

/// Why an image could not be turned into a ready-to-run machine.
#[derive(Debug, Clone, Copy, PartialEq, Eq, Structural)]
pub enum ImageError {
    /// A flat image does not fit below the end of RAM.
    TooLarge { size: usize },
    /// The bytes are not a well-formed ELF file.
    Malformed,
    /// The ELF file is not an executable; carries `e_type`.
    NotExecutable(u16),
    /// The ELF file targets another architecture; carries `e_machine`.
    WrongMachine(u16),
    /// A loadable segment's data could not be read from the file; carries its index.
    SegmentData(usize),
    /// A loadable segment does not fit in RAM; carries its index.
    SegmentOutsideRam(usize),
    /// The entry address lies outside RAM; carries `e_entry`.
    EntryNotMapped(u64),
}

/// The architectural state of a machine: what a `Cpu` stands for.
pub struct Machine {
    pub pc: u32,
    pub regs: Seq<u32>,
    pub ram_base: u32,
    pub ram: Seq<u8>,
    pub debug_base: u32,
    pub status: Option<Status>,
}

pub open spec fn in_ram(m: Machine, addr: u32) -> bool {
    in_region(m.ram_base, m.ram.len() as int, addr)
}

pub open spec fn in_debug(m: Machine, addr: u32) -> bool {
    in_region(m.debug_base, DEBUG_SIZE as int, addr)
}

/// Thirty-two registers with register 0 reading zero, and two regions that fit the
/// address space and do not overlap.
pub open spec fn machine_wf(m: Machine) -> bool {
    &&& m.regs.len() == 32
    &&& m.regs[0] == 0
    &&& m.ram_base + m.ram.len() <= 0x1_0000_0000
    &&& m.debug_base + DEBUG_SIZE <= 0x1_0000_0000
    &&& (m.debug_base + DEBUG_SIZE <= m.ram_base || m.ram_base + m.ram.len() <= m.debug_base)
}

/// A word load: RAM first, then the debug peripheral.
pub open spec fn load_word(m: Machine, addr: u32) -> Result<u32, MemoryError> {
    if in_ram(m, addr) {
        ram_load(m.ram_base, m.ram, addr)
    } else if in_debug(m, addr) {
        Err(MemoryError::Unsupported { addr, access: Access::Read })
    } else {
        Err(MemoryError::Unmapped { addr, access: Access::Read })
    }
}

/// A word store: RAM first, then the debug peripheral.
pub open spec fn store_word(m: Machine, addr: u32, v: u32) -> Result<Machine, MemoryError> {
    if in_ram(m, addr) {
        match ram_store(m.ram_base, m.ram, addr, v) {
            Ok(ram) => Ok(Machine { ram, ..m }),
            Err(e) => Err(e),
        }
    } else if in_debug(m, addr) {
        match debug_store(m.debug_base, addr) {
            Ok(s) => Ok(Machine { status: Some(s), ..m }),
            Err(e) => Err(e),
        }
    } else {
        Err(MemoryError::Unmapped { addr, access: Access::Write })
    }
}

/// Register file after writing `v` to register `i`; writes to register 0 are dropped.
pub open spec fn write_reg(regs: Seq<u32>, i: int, v: u32) -> Seq<u32> {
    if i == 0 {
        regs
    } else {
        regs.update(i, v)
    }
}

/// The value that a register-writing computational instruction puts in `rd`,
/// from the pc, the two source register values and the immediate.
pub open spec fn alu_value(i: Instruction, pc: u32, a: u32, b: u32, imm: u32) -> Option<u32> {
    match i {
        Instruction::Lui => Some(imm),
        Instruction::Auipc => Some(pc.wrapping_add(imm)),
        Instruction::Add => Some(a.wrapping_add(b)),
        Instruction::Sub => Some(a.wrapping_sub(b)),
        Instruction::Xor => Some(a ^ b),
        Instruction::And => Some(a & b),
        Instruction::Or => Some(a | b),
        Instruction::Sll => Some(a << (b & 31)),
        Instruction::Srl => Some(a >> (b & 31)),
        Instruction::Sra => Some(((a as i32) >> (b & 31)) as u32),
        Instruction::Xori => Some(a ^ imm),
        Instruction::Addi => Some(a.wrapping_add(imm)),
        Instruction::Andi => Some(a & imm),
        Instruction::Slli => Some(a << (imm & 31)),
        Instruction::Srli => Some(a >> (imm & 31)),
        Instruction::Srai => Some(((a as i32) >> (imm & 31)) as u32),
        Instruction::Slt => Some(if (a as i32) < (b as i32) { 1 } else { 0 }),
        Instruction::Sltu => Some(if a < b { 1 } else { 0 }),
        Instruction::Sltiu => Some(if a < imm { 1 } else { 0 }),
        _ => None,
    }
}

/// Whether a conditional branch is taken: signed comparison for BLT/BGE,
/// unsigned for BLTU/BGEU. `None` for any other instruction.
pub open spec fn branch_taken(i: Instruction, a: u32, b: u32) -> Option<bool> {
    match i {
        Instruction::Beq => Some(a == b),
        Instruction::Bne => Some(a != b),
        Instruction::Blt => Some((a as i32) < (b as i32)),
        Instruction::Bge => Some((a as i32) >= (b as i32)),
        Instruction::Bltu => Some(a < b),
        Instruction::Bgeu => Some(a >= b),
        _ => None,
    }
}

/// A jump or taken-branch target: `base + offset`, wrapping, with the low bit cleared.
pub open spec fn jump_target(base: u32, offset: u32) -> u32 {
    base.wrapping_add(offset) & 0xffff_fffe
}

/// The immediate used in a step: none (an R-type word) counts as zero.
pub open spec fn step_immediate(w: u32) -> u32 {
    match immediate_spec(w) {
        Ok(v) => v,
        Err(_) => 0,
    }
}

/// The effect of executing the decoded instruction `i` of word `w` on `m`.
pub open spec fn execute(m: Machine, i: Instruction, w: u32) -> Result<Machine, StepError> {
    let imm = step_immediate(w);
    let rd = rd_spec(w) as int;
    let a = m.regs[rs1_spec(w) as int];
    let b = m.regs[rs2_spec(w) as int];
    let next = m.pc.wrapping_add(4);
    if let Some(v) = alu_value(i, m.pc, a, b, imm) {
        Ok(Machine { pc: next, regs: write_reg(m.regs, rd, v), ..m })
    } else if let Some(taken) = branch_taken(i, a, b) {
        Ok(Machine { pc: if taken { jump_target(m.pc, imm) } else { next }, ..m })
    } else {
        match i {
            Instruction::Jal => Ok(
                Machine { pc: jump_target(m.pc, imm), regs: write_reg(m.regs, rd, next), ..m },
            ),
            Instruction::Jalr => Ok(
                Machine { pc: jump_target(a, imm), regs: write_reg(m.regs, rd, next), ..m },
            ),
            Instruction::Sw => match store_word(m, a.wrapping_add(imm), b) {
                Ok(m2) => Ok(Machine { pc: next, ..m2 }),
                Err(e) => Err(StepError::Memory(e)),
            },
            Instruction::Lw => match load_word(m, a.wrapping_add(imm)) {
                Ok(v) => Ok(Machine { pc: next, regs: write_reg(m.regs, rd, v), ..m }),
                Err(e) => Err(StepError::Memory(e)),
            },
            Instruction::Lhu => match load_word(m, a.wrapping_add(imm)) {
                Ok(v) => Ok(Machine { pc: next, regs: write_reg(m.regs, rd, v & 0xffff), ..m }),
                Err(e) => Err(StepError::Memory(e)),
            },
            _ => Err(StepError::Unsupported(i)),
        }
    }
}

/// One fetch-decode-execute cycle.
pub open spec fn step_spec(m: Machine) -> Result<Machine, StepError> {
    match load_word(m, m.pc) {
        Err(e) => Err(StepError::Memory(e)),
        Ok(w) => match decode_spec(w) {
            Err(e) => Err(StepError::Decode(e)),
            Ok(i) => execute(m, i, w),
        },
    }
}

/// The machine a flat binary image starts as: the image at the start of RAM, the
/// rest of RAM zero, all registers zero, execution at the start of RAM.
pub open spec fn flat_machine(contents: Seq<u8>) -> Machine {
    Machine {
        pc: FLAT_RAM_BASE,
        regs: Seq::new(32, |i: int| 0u32),
        ram_base: FLAT_RAM_BASE,
        ram: contents + Seq::new((FLAT_RAM_SIZE - contents.len()) as nat, |i: int| 0u8),
        debug_base: DEBUG_BASE,
        status: None,
    }
}

/// The 32 general-purpose registers.
pub struct Registers {
    registers: Vec<u32>,
}

impl View for Registers {
    type V = Seq<u32>;

    closed spec fn view(&self) -> Seq<u32> {
        self.registers@
    }
}

impl Registers {
    pub open spec fn wf(&self) -> bool {
        self@.len() == 32 && self@[0] == 0
    }

    /// All registers zero.
    pub fn new() -> (r: Registers)
        ensures
            r.wf(),
            r@ == Seq::new(32, |i: int| 0u32),
    {
        let registers: Vec<u32> = vec![0u32; 32];
        assert(registers@ =~= Seq::new(32, |i: int| 0u32));
        Registers { registers }
    }

    pub fn read(&self, index: usize) -> (r: u32)
        requires
            self.wf(),
            index < 32,
        ensures
            r == self@[index as int],
            index == 0 ==> r == 0,
    {
        self.registers[index]
    }

    /// Writes `value` to register `index`; a write to register 0 is discarded.
    pub fn write(&mut self, index: usize, value: u32)
        requires
            old(self).wf(),
            index < 32,
        ensures
            final(self).wf(),
            final(self)@ == write_reg(old(self)@, index as int, value),
    {
        if index == 0 {
            return ;
        }
        self.registers.set(index, value);
    }
}

/// A single RV32I hart with its RAM and debug peripheral.
pub struct Cpu {
    pc: u32,
    registers: Registers,
    memory: Ram,
    debug: DebugPeripheral,
}

impl View for Cpu {
    type V = Machine;

    closed spec fn view(&self) -> Machine {
        Machine {
            pc: self.pc,
            regs: self.registers@,
            ram_base: self.memory.base,
            ram: self.memory.data@,
            debug_base: self.debug.base,
            status: self.debug.status,
        }
    }
}

/// The value computed by a register-writing computational instruction.
fn alu(i: Instruction, pc: u32, a: u32, b: u32, imm: u32) -> (r: Option<u32>)
    ensures
        r == alu_value(i, pc, a, b, imm),
{
    assert(b & 31 < 32) by (bit_vector);
    assert(imm & 31 < 32) by (bit_vector);
    match i {
        Instruction::Lui => Some(imm),
        Instruction::Auipc => Some(pc.wrapping_add(imm)),
        Instruction::Add => Some(a.wrapping_add(b)),
        Instruction::Sub => Some(a.wrapping_sub(b)),
        Instruction::Xor => Some(a ^ b),
        Instruction::And => Some(a & b),
        Instruction::Or => Some(a | b),
        Instruction::Sll => Some(a << (b & 31)),
        Instruction::Srl => Some(a >> (b & 31)),
        Instruction::Sra => Some(((a as i32) >> (b & 31)) as u32),
        Instruction::Xori => Some(a ^ imm),
        Instruction::Addi => Some(a.wrapping_add(imm)),
        Instruction::Andi => Some(a & imm),
        Instruction::Slli => Some(a << (imm & 31)),
        Instruction::Srli => Some(a >> (imm & 31)),
        Instruction::Srai => Some(((a as i32) >> (imm & 31)) as u32),
        Instruction::Slt => Some(if (a as i32) < (b as i32) { 1 } else { 0 }),
        Instruction::Sltu => Some(if a < b { 1 } else { 0 }),
        Instruction::Sltiu => Some(if a < imm { 1 } else { 0 }),
        _ => None,
    }
}

/// Whether a conditional branch is taken.
fn branch(i: Instruction, a: u32, b: u32) -> (r: Option<bool>)
    ensures
        r == branch_taken(i, a, b),
{
    match i {
        Instruction::Beq => Some(a == b),
        Instruction::Bne => Some(a != b),
        Instruction::Blt => Some((a as i32) < (b as i32)),
        Instruction::Bge => Some((a as i32) >= (b as i32)),
        Instruction::Bltu => Some(a < b),
        Instruction::Bgeu => Some(a >= b),
        _ => None,
    }
}

impl Cpu {
    pub open spec fn wf(&self) -> bool {
        machine_wf(self@)
    }

    /// A machine whose RAM starts with a flat binary image; fails when the image
    /// does not leave room below the end of RAM.
    pub fn from_flat_file(contents: &[u8]) -> (r: Result<Cpu, ImageError>)
        ensures
            match r {
                Ok(cpu) => contents@.len() < FLAT_RAM_SIZE && cpu.wf() && cpu@ == flat_machine(
                    contents@,
                ),
                Err(e) => contents@.len() >= FLAT_RAM_SIZE && e == ImageError::TooLarge {
                    size: contents@.len() as usize,
                },
            },
    {
        if contents.len() >= FLAT_RAM_SIZE {
            return Err(ImageError::TooLarge { size: contents.len() });
        }
        let mut memory = Ram::new(FLAT_RAM_BASE, FLAT_RAM_SIZE);
        memory.copy_in(0, contents);
        let cpu = Cpu {
            pc: FLAT_RAM_BASE,
            registers: Registers::new(),
            memory,
            debug: DebugPeripheral { base: DEBUG_BASE, status: None },
        };
        assert(cpu@.ram =~= flat_machine(contents@).ram);
        assert(cpu@.regs =~= flat_machine(contents@).regs);
        Ok(cpu)
    }

    /// A machine loaded from a parsed ELF image: see `elf_machine`.
    pub fn from_image(image: &ElfImage) -> (r: Result<Cpu, ImageError>)
        ensures
            match r {
                Ok(cpu) => cpu.wf() && elf_machine(image@) == Ok::<Machine, ImageError>(cpu@),
                Err(e) => elf_machine(image@) == Err::<Machine, ImageError>(e),
            },
    {
        if image.e_type != ET_EXEC {
            return Err(ImageError::NotExecutable(image.e_type));
        }
        if image.e_machine != EM_RISCV {
            return Err(ImageError::WrongMachine(image.e_machine));
        }
        let mut memory = Ram::new(RAM_BASE, RAM_SIZE);
        match load_segments_into(&mut memory, &image.segments) {
            Ok(()) => {},
            Err(e) => return Err(e),
        }
        if image.e_entry >= RAM_SIZE as u64 {
            return Err(ImageError::EntryNotMapped(image.e_entry));
        }
        let cpu = Cpu {
            pc: LOAD_OFFSET + image.e_entry as u32,
            registers: Registers::new(),
            memory,
            debug: DebugPeripheral { base: DEBUG_BASE, status: None },
        };
        assert(cpu@.regs =~= Seq::new(32, |i: int| 0u32));
        Ok(cpu)
    }

    /// A machine loaded from the bytes of an ELF file: see `elf_load`.
    pub fn from_elf(bytes: &[u8]) -> (r: Result<Cpu, ImageError>)
        ensures
            match r {
                Ok(cpu) => cpu.wf() && elf_load(bytes@) == Ok::<Machine, ImageError>(cpu@)
                    && segments_from_file(bytes@, elf_image_of(bytes@).unwrap().segments),
                Err(e) => elf_load(bytes@) == Err::<Machine, ImageError>(e),
            },
    {
        match ElfImage::parse(bytes) {
            Ok(image) => Cpu::from_image(&image),
            Err(e) => Err(e),
        }
    }

    /// Performs one fetch-decode-execute cycle. On failure the state is unchanged.
    pub fn step(&mut self) -> (r: Result<(), StepError>)
        requires
            old(self).wf(),
        ensures
            final(self).wf(),
            match step_spec(old(self)@) {
                Ok(m) => r is Ok && final(self)@ == m,
                Err(e) => r == Err::<(), StepError>(e) && final(self)@ == old(self)@,
            },
    {
        let raw_inst = match self.read(self.pc) {
            Ok(w) => w,
            Err(e) => return Err(StepError::Memory(e)),
        };
        let inst = match Instruction::decode(raw_inst) {
            Ok(i) => i,
            Err(e) => return Err(StepError::Decode(e)),
        };
        let imm = match immediate(raw_inst) {
            Ok(v) => v,
            Err(_) => 0,
        };
        let rd = rd(raw_inst);
        let rs1 = rs1(raw_inst);
        let rs2 = rs2(raw_inst);
        let a = self.registers.read(rs1);
        let b = self.registers.read(rs2);
        let next = self.pc.wrapping_add(4);
        if let Some(v) = alu(inst, self.pc, a, b, imm) {
            self.registers.write(rd, v);
            self.pc = next;
            return Ok(());
        }
        if let Some(taken) = branch(inst, a, b) {
            self.pc = if taken {
                self.pc.wrapping_add(imm) & 0xffff_fffe
            } else {
                next
            };
            return Ok(());
        }
        match inst {
            Instruction::Jal => {
                self.pc = self.pc.wrapping_add(imm) & 0xffff_fffe;
                self.registers.write(rd, next);
                Ok(())
            },
            Instruction::Jalr => {
                self.pc = a.wrapping_add(imm) & 0xffff_fffe;
                self.registers.write(rd, next);
                Ok(())
            },
            Instruction::Sw => {
                match self.write(a.wrapping_add(imm), b) {
                    Ok(()) => {
                        self.pc = next;
                        Ok(())
                    },
                    Err(e) => Err(StepError::Memory(e)),
                }
            },
            Instruction::Lw => {
                match self.read(a.wrapping_add(imm)) {
                    Ok(v) => {
                        self.registers.write(rd, v);
                        self.pc = next;
                        Ok(())
                    },
                    Err(e) => Err(StepError::Memory(e)),
                }
            },
            Instruction::Lhu => {
                match self.read(a.wrapping_add(imm)) {
                    Ok(v) => {
                        self.registers.write(rd, v & 0xffff);
                        self.pc = next;
                        Ok(())
                    },
                    Err(e) => Err(StepError::Memory(e)),
                }
            },
            _ => Err(StepError::Unsupported(inst)),
        }
    }

    /// Loads the word at `addr` from whichever region holds it.
    pub fn read(&self, addr: u32) -> (r: Result<u32, MemoryError>)
        requires
            self.wf(),
        ensures
            r == load_word(self@, addr),
    {
        if self.memory.contains(addr) {
            return self.memory.read(addr);
        }
        if self.debug.contains(addr) {
            return self.debug.read(addr);
        }
        Err(MemoryError::Unmapped { addr, access: Access::Read })
    }

    /// Stores `value` at `addr` in whichever region holds it. On failure the state
    /// is unchanged.
    pub fn write(&mut self, addr: u32, value: u32) -> (r: Result<(), MemoryError>)
        requires
            old(self).wf(),
        ensures
            final(self).wf(),
            match store_word(old(self)@, addr, value) {
                Ok(m) => r is Ok && final(self)@ == m,
                Err(e) => r == Err::<(), MemoryError>(e) && final(self)@ == old(self)@,
            },
    {
        if self.memory.contains(addr) {
            return self.memory.write(addr, value);
        }
        if self.debug.contains(addr) {
            return self.debug.write(addr, value);
        }
        Err(MemoryError::Unmapped { addr, access: Access::Write })
    }

    /// The completion status reported by firmware, if any yet.
    pub fn status(&self) -> (r: Option<Status>)
        ensures
            r == self@.status,
    {
        self.debug.status
    }

    /// The program counter.
    pub fn pc(&self) -> (r: u32)
        ensures
            r == self@.pc,
    {
        self.pc
    }

    /// The value of register `index`.
    pub fn register(&self, index: usize) -> (r: u32)
        requires
            self.wf(),
            index < 32,
        ensures
            r == self@.regs[index as int],
    {
        self.registers.read(index)
    }
}

/// Register file after applying `writes` in order, each a (register, value) pair.
pub open spec fn apply_writes(regs: Seq<u32>, writes: Seq<(int, u32)>) -> Seq<u32>
    decreases writes.len(),
{
    if writes.len() == 0 {
        regs
    } else {
        write_reg(apply_writes(regs, writes.drop_last()), writes.last().0, writes.last().1)
    }
}

/// Whatever writes are made, register 0 goes on reading zero.
pub proof fn lemma_register_zero(regs: Seq<u32>, writes: Seq<(int, u32)>)
    requires
        regs.len() == 32,
        regs[0] == 0,
        forall|k: int| 0 <= k < writes.len() ==> 0 <= (#[trigger] writes[k]).0 < 32,
    ensures
        apply_writes(regs, writes).len() == 32,
        apply_writes(regs, writes)[0] == 0,
    decreases writes.len(),
{
    if writes.len() > 0 {
        let rest = writes.drop_last();
        assert forall|k: int| 0 <= k < rest.len() implies 0 <= (#[trigger] rest[k]).0 < 32 by {
            assert(rest[k] == writes[k]);
        }
        lemma_register_zero(regs, rest);
    }
}

/// A fetched conditional branch always completes its step, and moves the pc to
/// `pc + imm` (low bit cleared) exactly when its comparison holds: equality for
/// BEQ, inequality for BNE, signed less-than for BLT, signed greater-or-equal for
/// BGE, unsigned less-than for BLTU, unsigned greater-or-equal for BGEU. Nothing
/// else changes.
pub proof fn lemma_branch_step(m: Machine, w: u32, i: Instruction)
    requires
        machine_wf(m),
        load_word(m, m.pc) == Ok::<u32, MemoryError>(w),
        decode_spec(w) == Ok::<Instruction, DecodeError>(i),
        i == Instruction::Beq || i == Instruction::Bne || i == Instruction::Blt || i
            == Instruction::Bge || i == Instruction::Bltu || i == Instruction::Bgeu,
    ensures
        ({
            let a = m.regs[rs1_spec(w) as int];
            let b = m.regs[rs2_spec(w) as int];
            let taken = match i {
                Instruction::Beq => a == b,
                Instruction::Bne => a != b,
                Instruction::Blt => (a as i32) < (b as i32),
                Instruction::Bge => (a as i32) >= (b as i32),
                Instruction::Bltu => a < b,
                _ => a >= b,
            };
            step_spec(m) == Ok::<Machine, StepError>(
                Machine {
                    pc: if taken {
                        jump_target(m.pc, imm_b(w))
                    } else {
                        m.pc.wrapping_add(4)
                    },
                    ..m
                },
            )
        }),
{
}

/// RAM and the debug peripheral never claim the same address, and an address
/// that neither claims faults on every load and store.
pub proof fn lemma_regions_disjoint(m: Machine, addr: u32, v: u32)
    requires
        machine_wf(m),
    ensures
        in_ram(m, addr) ==> !in_debug(m, addr),
        in_debug(m, addr) ==> !in_ram(m, addr),
        !in_ram(m, addr) && !in_debug(m, addr) ==> load_word(m, addr) == Err::<u32, MemoryError>(
            MemoryError::Unmapped { addr, access: Access::Read },
        ) && store_word(m, addr, v) == Err::<Machine, MemoryError>(
            MemoryError::Unmapped { addr, access: Access::Write },
        ),
{
}

/// Storing any value at offset 0 of the debug peripheral sets the status to
/// success, at offset 4 to failure; nothing else changes.
pub proof fn lemma_debug_store(m: Machine, v: u32)
    requires
        machine_wf(m),
    ensures
        store_word(m, m.debug_base, v) == Ok::<Machine, MemoryError>(
            Machine { status: Some(Status::Success), ..m },
        ),
        store_word(m, (m.debug_base + 4) as u32, v) == Ok::<Machine, MemoryError>(
            Machine { status: Some(Status::Failure), ..m },
        ),
{
}

/// Whether the instruction at the pc is a word store into the debug peripheral.
pub open spec fn stores_to_debug(m: Machine) -> bool {
    match load_word(m, m.pc) {
        Ok(w) => decode_spec(w) == Ok::<Instruction, DecodeError>(Instruction::Sw) && in_debug(
            m,
            m.regs[rs1_spec(w) as int].wrapping_add(step_immediate(w)),
        ),
        Err(_) => false,
    }
}

/// `n` steps from `m`, or the first failure.
pub open spec fn run(m: Machine, n: nat) -> Result<Machine, StepError>
    decreases n,
{
    if n == 0 {
        Ok(m)
    } else {
        match step_spec(m) {
            Ok(m2) => run(m2, (n - 1) as nat),
            Err(e) => Err(e),
        }
    }
}

/// Whether none of the first `n` steps from `m` stores into the debug peripheral.
pub open spec fn run_avoids_debug(m: Machine, n: nat) -> bool
    decreases n,
{
    if n == 0 {
        true
    } else {
        !stores_to_debug(m) && match step_spec(m) {
            Ok(m2) => run_avoids_debug(m2, (n - 1) as nat),
            Err(_) => true,
        }
    }
}

/// A step that does not store into the debug peripheral leaves the status as it was.
pub proof fn lemma_step_keeps_status(m: Machine)
    requires
        !stores_to_debug(m),
    ensures
        step_spec(m) is Ok ==> step_spec(m).unwrap().status == m.status,
{
}

/// A run that never stores into the debug peripheral ends with the status it began
/// with: a program that never reports stays without a status.
pub proof fn lemma_run_keeps_status(m: Machine, n: nat)
    requires
        run_avoids_debug(m, n),
    ensures
        run(m, n) is Ok ==> run(m, n).unwrap().status == m.status,
    decreases n,
{
    if n > 0 {
        lemma_step_keeps_status(m);
        if let Ok(m2) = step_spec(m) {
            lemma_run_keeps_status(m2, (n - 1) as nat);
        }
    }
}

} // verus!
