use vstd::prelude::*;

verus! {

/// The low seven bits of an instruction word (they include the two length bits).
#[derive(Debug, Clone, Copy, PartialEq, Eq, Structural)]
pub struct Opcode(pub u8);

/// The six RV32I instruction layouts.
#[derive(Debug, Clone, Copy, PartialEq, Eq, Structural)]
pub enum InstEncoding {
    R,
    I,
    S,
    B,
    U,
    J,
}

/// The RV32I operations the decoder recognises.
#[derive(Debug, Clone, Copy, PartialEq, Eq, Structural)]
pub enum Instruction {
    Lui,
    Auipc,
    Jal,
    Jalr,
    Beq,
    Bne,
    Blt,
    Bge,
    Bltu,
    Bgeu,
    Lb,
    Lh,
    Lw,
    Lbu,
    Lhu,
    Sb,
    Sh,
    Sw,
    Addi,
    Slti,
    Sltiu,
    Xori,
    Ori,
    Andi,
    Slli,
    Srli,
    Srai,
    Add,
    Sub,
    Sll,
    Slt,
    Sltu,
    Xor,
    Srl,
    Sra,
    Or,
    And,
    Fence,
    Ecall,
    Ebreak,
}

/// Why an instruction word could not be decoded.
#[derive(Debug, Clone, Copy, PartialEq, Eq, Structural)]
pub enum DecodeError {
    /// The two low bits are not `11`, so the word is not a 32-bit instruction.
    NotFullWidth(u32),
    /// No row of the RV32I table matches the word.
    UnknownInstruction(u32),
    /// The opcode belongs to no encoding family.
    UnknownEncoding(u8),
    /// The word is an R-type instruction, which carries no immediate.
    NoImmediate(u32),
}

pub open spec fn is_full_width(inst: u32) -> bool {
    inst & 3 == 3
}

pub open spec fn opcode_spec(inst: u32) -> Result<Opcode, DecodeError> {
    if is_full_width(inst) {
        Ok(Opcode((inst & 0x7f) as u8))
    } else {
        Err(DecodeError::NotFullWidth(inst))
    }
}

pub open spec fn rd_spec(inst: u32) -> usize {
    ((inst >> 7) & 0x1f) as usize
}

pub open spec fn rs1_spec(inst: u32) -> usize {
    ((inst >> 15) & 0x1f) as usize
}

pub open spec fn rs2_spec(inst: u32) -> usize {
    ((inst >> 20) & 0x1f) as usize
}

pub open spec fn funct3_spec(inst: u32) -> usize {
    ((inst >> 12) & 0x7) as usize
}

pub open spec fn funct7_spec(inst: u32) -> usize {
    ((inst >> 25) & 0x7f) as usize
}

/// The RV32I table: the operation that an (opcode, funct3, funct7) triple selects;
/// bits 24:20 tell ECALL from EBREAK.
pub open spec fn instruction_of(op: u8, f3: usize, f7: usize, r2: usize) -> Option<Instruction> {
    match (op, f3, f7, r2) {
        (0b0110111, _, _, _) => Some(Instruction::Lui),
        (0b0010111, _, _, _) => Some(Instruction::Auipc),
        (0b1101111, _, _, _) => Some(Instruction::Jal),
        (0b1100111, _, _, _) => Some(Instruction::Jalr),
        (0b1100011, 0b000, _, _) => Some(Instruction::Beq),
        (0b1100011, 0b001, _, _) => Some(Instruction::Bne),
        (0b1100011, 0b100, _, _) => Some(Instruction::Blt),
        (0b1100011, 0b101, _, _) => Some(Instruction::Bge),
        (0b1100011, 0b110, _, _) => Some(Instruction::Bltu),
        (0b1100011, 0b111, _, _) => Some(Instruction::Bgeu),
        (0b0000011, 0b000, _, _) => Some(Instruction::Lb),
        (0b0000011, 0b001, _, _) => Some(Instruction::Lh),
        (0b0000011, 0b010, _, _) => Some(Instruction::Lw),
        (0b0000011, 0b100, _, _) => Some(Instruction::Lbu),
        (0b0000011, 0b101, _, _) => Some(Instruction::Lhu),
        (0b0100011, 0b000, _, _) => Some(Instruction::Sb),
        (0b0100011, 0b001, _, _) => Some(Instruction::Sh),
        (0b0100011, 0b010, _, _) => Some(Instruction::Sw),
        (0b0010011, 0b000, _, _) => Some(Instruction::Addi),
        (0b0010011, 0b010, _, _) => Some(Instruction::Slti),
        (0b0010011, 0b011, _, _) => Some(Instruction::Sltiu),
        (0b0010011, 0b100, _, _) => Some(Instruction::Xori),
        (0b0010011, 0b110, _, _) => Some(Instruction::Ori),
        (0b0010011, 0b111, _, _) => Some(Instruction::Andi),
        (0b0010011, 0b001, 0b0000000, _) => Some(Instruction::Slli),
        (0b0010011, 0b101, 0b0000000, _) => Some(Instruction::Srli),
        (0b0010011, 0b101, 0b0100000, _) => Some(Instruction::Srai),
        (0b0110011, 0b000, 0b0000000, _) => Some(Instruction::Add),
        (0b0110011, 0b000, 0b0100000, _) => Some(Instruction::Sub),
        (0b0110011, 0b001, 0b0000000, _) => Some(Instruction::Sll),
        (0b0110011, 0b010, 0b0000000, _) => Some(Instruction::Slt),
        (0b0110011, 0b011, 0b0000000, _) => Some(Instruction::Sltu),
        (0b0110011, 0b100, 0b0000000, _) => Some(Instruction::Xor),
        (0b0110011, 0b101, 0b0000000, _) => Some(Instruction::Srl),
        (0b0110011, 0b101, 0b0100000, _) => Some(Instruction::Sra),
        (0b0110011, 0b110, 0b0000000, _) => Some(Instruction::Or),
        (0b0110011, 0b111, 0b0000000, _) => Some(Instruction::And),
        (0b0001111, 0b000, _, _) => Some(Instruction::Fence),
        (0b1110011, 0b000, 0b0000000, 0) => Some(Instruction::Ecall),
        (0b1110011, 0b000, 0b0000000, 1) => Some(Instruction::Ebreak),
        _ => None,
    }
}

/// What decoding a word yields.
pub open spec fn decode_spec(inst: u32) -> Result<Instruction, DecodeError> {
    match opcode_spec(inst) {
        Err(e) => Err(e),
        Ok(op) => match instruction_of(op.0, funct3_spec(inst), funct7_spec(inst), rs2_spec(inst)) {
            Some(i) => Ok(i),
            None => Err(DecodeError::UnknownInstruction(inst)),
        },
    }
}

/// The encoding family of each opcode.
pub open spec fn encoding_spec(op: u8) -> Option<InstEncoding> {
    match op {
        0b1100111 | 0b0000011 | 0b0010011 | 0b1110011 => Some(InstEncoding::I),
        0b0100011 => Some(InstEncoding::S),
        0b1100011 => Some(InstEncoding::B),
        0b0110111 | 0b0010111 => Some(InstEncoding::U),
        0b1101111 => Some(InstEncoding::J),
        0b0110011 => Some(InstEncoding::R),
        _ => None,
    }
}

/// Sign-extends the low `n` bits of `v`: shift them into the sign position, then
/// shift back arithmetically.
pub open spec fn sign_extend(v: u32, n: u32) -> u32 {
    (((v << (32 - n) as u32) as i32) >> (32 - n) as u32) as u32
}

/// I-type: bits 31:20, sign-extended.
pub open spec fn imm_i(inst: u32) -> u32 {
    ((inst as i32) >> 20u32) as u32
}

/// S-type: imm[11:5] = bits 31:25, imm[4:0] = bits 11:7, sign-extended from 12 bits.
pub open spec fn imm_s(inst: u32) -> u32 {
    sign_extend(((inst >> 7) & 0x1f) | (((inst >> 25) & 0x7f) << 5), 12)
}

/// B-type: imm[12] = bit 31, imm[11] = bit 7, imm[10:5] = bits 30:25,
/// imm[4:1] = bits 11:8, imm[0] = 0, sign-extended from 13 bits.
pub open spec fn imm_b(inst: u32) -> u32 {
    sign_extend(
        (((inst >> 31) & 1) << 12) | (((inst >> 7) & 1) << 11) | (((inst >> 25) & 0x3f) << 5)
            | (((inst >> 8) & 0xf) << 1),
        13,
    )
}

/// U-type: bits 31:12 in place, low twelve bits zero.
pub open spec fn imm_u(inst: u32) -> u32 {
    inst & 0xfffff000
}

/// J-type: imm[20] = bit 31, imm[19:12] = bits 19:12, imm[11] = bit 20,
/// imm[10:1] = bits 30:21, imm[0] = 0, sign-extended from 21 bits.
pub open spec fn imm_j(inst: u32) -> u32 {
    sign_extend(
        (((inst >> 31) & 1) << 20) | (((inst >> 12) & 0xff) << 12) | (((inst >> 20) & 1) << 11)
            | (((inst >> 21) & 0x3ff) << 1),
        21,
    )
}

pub open spec fn imm_of(enc: InstEncoding, inst: u32) -> u32 {
    match enc {
        InstEncoding::R => 0,
        InstEncoding::I => imm_i(inst),
        InstEncoding::S => imm_s(inst),
        InstEncoding::B => imm_b(inst),
        InstEncoding::U => imm_u(inst),
        InstEncoding::J => imm_j(inst),
    }
}

/// What `immediate` yields for a word.
pub open spec fn immediate_spec(inst: u32) -> Result<u32, DecodeError> {
    match opcode_spec(inst) {
        Err(e) => Err(e),
        Ok(op) => match encoding_spec(op.0) {
            None => Err(DecodeError::UnknownEncoding(op.0)),
            Some(InstEncoding::R) => Err(DecodeError::NoImmediate(inst)),
            Some(enc) => Ok(imm_of(enc, inst)),
        },
    }
}

impl Instruction {
    /// Decodes a 32-bit word into its operation.
    pub fn decode(inst: u32) -> (r: Result<Instruction, DecodeError>)
        ensures
            r == decode_spec(inst),
    {
        let value = match opcode(inst) {
            Ok(v) => v,
            Err(e) => return Err(e),
        };
        let funct3 = funct3(inst);
        let funct7 = funct7(inst);
        let rs2 = rs2(inst);
        match (value.0, funct3, funct7, rs2) {
            (0b0110111, _, _, _) => Ok(Instruction::Lui),
            (0b0010111, _, _, _) => Ok(Instruction::Auipc),
            (0b1101111, _, _, _) => Ok(Instruction::Jal),
            (0b1100111, _, _, _) => Ok(Instruction::Jalr),
            (0b1100011, 0b000, _, _) => Ok(Instruction::Beq),
            (0b1100011, 0b001, _, _) => Ok(Instruction::Bne),
            (0b1100011, 0b100, _, _) => Ok(Instruction::Blt),
            (0b1100011, 0b101, _, _) => Ok(Instruction::Bge),
            (0b1100011, 0b110, _, _) => Ok(Instruction::Bltu),
            (0b1100011, 0b111, _, _) => Ok(Instruction::Bgeu),
            (0b0000011, 0b000, _, _) => Ok(Instruction::Lb),
            (0b0000011, 0b001, _, _) => Ok(Instruction::Lh),
            (0b0000011, 0b010, _, _) => Ok(Instruction::Lw),
            (0b0000011, 0b100, _, _) => Ok(Instruction::Lbu),
            (0b0000011, 0b101, _, _) => Ok(Instruction::Lhu),
            (0b0100011, 0b000, _, _) => Ok(Instruction::Sb),
            (0b0100011, 0b001, _, _) => Ok(Instruction::Sh),
            (0b0100011, 0b010, _, _) => Ok(Instruction::Sw),
            (0b0010011, 0b000, _, _) => Ok(Instruction::Addi),
            (0b0010011, 0b010, _, _) => Ok(Instruction::Slti),
            (0b0010011, 0b011, _, _) => Ok(Instruction::Sltiu),
            (0b0010011, 0b100, _, _) => Ok(Instruction::Xori),
            (0b0010011, 0b110, _, _) => Ok(Instruction::Ori),
            (0b0010011, 0b111, _, _) => Ok(Instruction::Andi),
            (0b0010011, 0b001, 0b0000000, _) => Ok(Instruction::Slli),
            (0b0010011, 0b101, 0b0000000, _) => Ok(Instruction::Srli),
            (0b0010011, 0b101, 0b0100000, _) => Ok(Instruction::Srai),
            (0b0110011, 0b000, 0b0000000, _) => Ok(Instruction::Add),
            (0b0110011, 0b000, 0b0100000, _) => Ok(Instruction::Sub),
            (0b0110011, 0b001, 0b0000000, _) => Ok(Instruction::Sll),
            (0b0110011, 0b010, 0b0000000, _) => Ok(Instruction::Slt),
            (0b0110011, 0b011, 0b0000000, _) => Ok(Instruction::Sltu),
            (0b0110011, 0b100, 0b0000000, _) => Ok(Instruction::Xor),
            (0b0110011, 0b101, 0b0000000, _) => Ok(Instruction::Srl),
            (0b0110011, 0b101, 0b0100000, _) => Ok(Instruction::Sra),
            (0b0110011, 0b110, 0b0000000, _) => Ok(Instruction::Or),
            (0b0110011, 0b111, 0b0000000, _) => Ok(Instruction::And),
            (0b0001111, 0b000, _, _) => Ok(Instruction::Fence),
            (0b1110011, 0b000, 0b0000000, 0) => Ok(Instruction::Ecall),
            (0b1110011, 0b000, 0b0000000, 1) => Ok(Instruction::Ebreak),
            _ => Err(DecodeError::UnknownInstruction(inst)),
        }
    }
}

impl InstEncoding {
    /// The encoding family that an opcode selects.
    pub fn from_opcode(value: Opcode) -> (r: Result<InstEncoding, DecodeError>)
        ensures
            r == (match encoding_spec(value.0) {
                Some(e) => Ok(e),
                None => Err(DecodeError::UnknownEncoding(value.0)),
            }),
    {
        match value.0 {
            0b1100111 | 0b0000011 | 0b0010011 | 0b1110011 => Ok(InstEncoding::I),
            0b0100011 => Ok(InstEncoding::S),
            0b1100011 => Ok(InstEncoding::B),
            0b0110111 | 0b0010111 => Ok(InstEncoding::U),
            0b1101111 => Ok(InstEncoding::J),
            0b0110011 => Ok(InstEncoding::R),
            op => Err(DecodeError::UnknownEncoding(op)),
        }
    }
}

/// The opcode of a 32-bit instruction word.
pub fn opcode(inst: u32) -> (r: Result<Opcode, DecodeError>)
    ensures
        r == opcode_spec(inst),
{
    if inst & 0b11 == 0b11 {
        assert((inst as u8) & 0x7f == (inst & 0x7f) as u8) by (bit_vector);
        Ok(Opcode(inst as u8 & 0b1111111))
    } else {
        Err(DecodeError::NotFullWidth(inst))
    }
}

pub fn rd(inst: u32) -> (r: usize)
    ensures
        r == rd_spec(inst),
        r < 32,
{
    assert(((inst >> 7) & 0x1f) < 32) by (bit_vector);
    ((inst >> 7) & 0b11111) as usize
}

pub fn rs1(inst: u32) -> (r: usize)
    ensures
        r == rs1_spec(inst),
        r < 32,
{
    assert(((inst >> 15) & 0x1f) < 32) by (bit_vector);
    ((inst >> 15) & 0b11111) as usize
}

pub fn rs2(inst: u32) -> (r: usize)
    ensures
        r == rs2_spec(inst),
        r < 32,
{
    assert(((inst >> 20) & 0x1f) < 32) by (bit_vector);
    ((inst >> 20) & 0b11111) as usize
}

pub fn funct3(inst: u32) -> (r: usize)
    ensures
        r == funct3_spec(inst),
        r < 8,
{
    assert(((inst >> 12) & 0x7) < 8) by (bit_vector);
    ((inst >> 12) & 0b111) as usize
}

pub fn funct7(inst: u32) -> (r: usize)
    ensures
        r == funct7_spec(inst),
        r < 128,
{
    assert(((inst >> 25) & 0x7f) < 128) by (bit_vector);
    ((inst >> 25) & 0b1111111) as usize
}

/// The immediate of an instruction word, reconstructed and sign-extended as its
/// encoding family prescribes.
pub fn immediate(inst: u32) -> (r: Result<u32, DecodeError>)
    ensures
        r == immediate_spec(inst),
{
    let op = match opcode(inst) {
        Ok(op) => op,
        Err(e) => return Err(e),
    };
    let encoding = match InstEncoding::from_opcode(op) {
        Ok(enc) => enc,
        Err(e) => return Err(e),
    };
    match encoding {
        InstEncoding::R => Err(DecodeError::NoImmediate(inst)),
        InstEncoding::I => Ok(((inst as i32) >> 20u32) as u32),
        InstEncoding::S => {
            let imm = ((inst >> 7) & 0x1f) | (((inst >> 25) & 0x7f) << 5);
            Ok((((imm << 20u32) as i32) >> 20u32) as u32)
        },
        InstEncoding::B => {
            let imm = (((inst >> 31) & 1) << 12) | (((inst >> 7) & 1) << 11) | (((inst >> 25)
                & 0x3f) << 5) | (((inst >> 8) & 0xf) << 1);
            Ok((((imm << 19u32) as i32) >> 19u32) as u32)
        },
        InstEncoding::U => Ok(inst & 0xfffff000),
        InstEncoding::J => {
            let imm = (((inst >> 31) & 1) << 20) | (((inst >> 12) & 0xff) << 12) | (((inst >> 20)
                & 1) << 11) | (((inst >> 21) & 0x3ff) << 1);
            Ok((((imm << 11u32) as i32) >> 11u32) as u32)
        },
    }
}

proof fn lemma_opcode_bits(w: u32)
    requires
        w & 3 == 3,
    ensures
        is_full_width(w),
        opcode_spec(w) == Ok::<Opcode, DecodeError>(Opcode((w & 0x7f) as u8)),
{
}

proof fn lemma_signed_cast(imm: i32)
    ensures
        (imm as u32) as i32 == imm,
{
    assert((imm as u32) as i32 == imm) by (bit_vector);
}

/// Places a 12-bit I-type immediate into bits 31:20 of `word`.
pub open spec fn encode_i(word: u32, imm: u32) -> u32 {
    (word & 0x000f_ffff) | (imm << 20)
}

/// Places a 12-bit S-type immediate into bits 31:25 and 11:7 of `word`.
pub open spec fn encode_s(word: u32, imm: u32) -> u32 {
    (word & 0x01ff_f07f) | ((imm & 0x1f) << 7) | (((imm >> 5) & 0x7f) << 25)
}

/// Places a 13-bit B-type immediate into bits 31, 7, 30:25 and 11:8 of `word`.
pub open spec fn encode_b(word: u32, imm: u32) -> u32 {
    (word & 0x01ff_f07f) | (((imm >> 12) & 1) << 31) | (((imm >> 11) & 1) << 7) | (((imm >> 5)
        & 0x3f) << 25) | (((imm >> 1) & 0xf) << 8)
}

/// Places the upper twenty bits of a U-type immediate into bits 31:12 of `word`.
pub open spec fn encode_u(word: u32, imm: u32) -> u32 {
    (word & 0xfff) | (imm & 0xffff_f000)
}

/// Places a 21-bit J-type immediate into bits 31, 19:12, 20 and 30:21 of `word`.
pub open spec fn encode_j(word: u32, imm: u32) -> u32 {
    (word & 0xfff) | (((imm >> 20) & 1) << 31) | (((imm >> 12) & 0xff) << 12) | (((imm >> 11) & 1)
        << 20) | (((imm >> 1) & 0x3ff) << 21)
}

/// Encoding a signed 12-bit immediate into an I-type word and decoding it gives
/// the same value back.
pub proof fn lemma_i_immediate_round_trip(word: u32, imm: i32)
    requires
        word & 0x7f == 0b0010011 || word & 0x7f == 0b0000011 || word & 0x7f == 0b1100111
            || word & 0x7f == 0b1110011,
        -2048 <= imm < 2048,
    ensures
        immediate_spec(encode_i(word, imm as u32)) == Ok::<u32, DecodeError>(imm as u32),
        immediate_spec(encode_i(word, imm as u32)).unwrap() as i32 == imm,
{
    let w = encode_i(word, imm as u32);
    assert(w & 0x7f == word & 0x7f) by (bit_vector)
        requires
            w == encode_i(word, imm as u32),
    ;
    assert(w & 3 == 3) by (bit_vector)
        requires
            w & 0x7f == word & 0x7f,
            word & 0x7f == 0b0010011 || word & 0x7f == 0b0000011 || word & 0x7f == 0b1100111
            || word & 0x7f == 0b1110011,
    ;
    lemma_opcode_bits(w);
    lemma_signed_cast(imm);
    assert(((w as i32) >> 20u32) as u32 == imm as u32) by (bit_vector)
        requires
            w == (word & 0x000f_ffff) | ((imm as u32) << 20),
            -2048 <= imm < 2048,
    ;
}

/// Encoding a signed 12-bit immediate into an S-type word and decoding it gives
/// the same value back.
pub proof fn lemma_s_immediate_round_trip(word: u32, imm: i32)
    requires
        word & 0x7f == 0b0100011,
        -2048 <= imm < 2048,
    ensures
        immediate_spec(encode_s(word, imm as u32)) == Ok::<u32, DecodeError>(imm as u32),
        immediate_spec(encode_s(word, imm as u32)).unwrap() as i32 == imm,
{
    let w = encode_s(word, imm as u32);
    assert(w & 0x7f == word & 0x7f) by (bit_vector)
        requires
            w == encode_s(word, imm as u32),
    ;
    assert(w & 3 == 3) by (bit_vector)
        requires
            w & 0x7f == word & 0x7f,
            word & 0x7f == 0b0100011,
    ;
    lemma_opcode_bits(w);
    lemma_signed_cast(imm);
    assert(imm_s(w) == imm as u32) by (bit_vector)
        requires
            w == encode_s(word, imm as u32),
            -2048 <= imm < 2048,
    ;
}

/// Encoding an even signed 13-bit immediate into a B-type word and decoding it
/// gives the same value back, down to -4096.
pub proof fn lemma_b_immediate_round_trip(word: u32, imm: i32)
    requires
        word & 0x7f == 0b1100011,
        -4096 <= imm < 4096,
        imm & 1 == 0,
    ensures
        immediate_spec(encode_b(word, imm as u32)) == Ok::<u32, DecodeError>(imm as u32),
        immediate_spec(encode_b(word, imm as u32)).unwrap() as i32 == imm,
{
    let w = encode_b(word, imm as u32);
    assert(w & 0x7f == word & 0x7f) by (bit_vector)
        requires
            w == encode_b(word, imm as u32),
    ;
    assert(w & 3 == 3) by (bit_vector)
        requires
            w & 0x7f == word & 0x7f,
            word & 0x7f == 0b1100011,
    ;
    lemma_opcode_bits(w);
    lemma_signed_cast(imm);
    assert(imm_b(w) == imm as u32) by (bit_vector)
        requires
            w == encode_b(word, imm as u32),
            -4096 <= imm < 4096,
            imm & 1 == 0,
    ;
}

/// Encoding an immediate whose low twelve bits are zero into a U-type word and
/// decoding it gives the same value back.
pub proof fn lemma_u_immediate_round_trip(word: u32, imm: i32)
    requires
        word & 0x7f == 0b0110111 || word & 0x7f == 0b0010111,
        imm & 0xfff == 0,
    ensures
        immediate_spec(encode_u(word, imm as u32)) == Ok::<u32, DecodeError>(imm as u32),
        immediate_spec(encode_u(word, imm as u32)).unwrap() as i32 == imm,
{
    let w = encode_u(word, imm as u32);
    assert(w & 0x7f == word & 0x7f) by (bit_vector)
        requires
            w == encode_u(word, imm as u32),
    ;
    assert(w & 3 == 3) by (bit_vector)
        requires
            w & 0x7f == word & 0x7f,
            word & 0x7f == 0b0110111 || word & 0x7f == 0b0010111,
    ;
    lemma_opcode_bits(w);
    lemma_signed_cast(imm);
    assert(imm_u(w) == imm as u32) by (bit_vector)
        requires
            w == encode_u(word, imm as u32),
            imm & 0xfff == 0,
    ;
}

/// Encoding an even signed 21-bit immediate into a J-type word and decoding it
/// gives the same value back, down to -1048576.
pub proof fn lemma_j_immediate_round_trip(word: u32, imm: i32)
    requires
        word & 0x7f == 0b1101111,
        -0x10_0000 <= imm < 0x10_0000,
        imm & 1 == 0,
    ensures
        immediate_spec(encode_j(word, imm as u32)) == Ok::<u32, DecodeError>(imm as u32),
        immediate_spec(encode_j(word, imm as u32)).unwrap() as i32 == imm,
{
    let w = encode_j(word, imm as u32);
    assert(w & 0x7f == word & 0x7f) by (bit_vector)
        requires
            w == encode_j(word, imm as u32),
    ;
    assert(w & 3 == 3) by (bit_vector)
        requires
            w & 0x7f == word & 0x7f,
            word & 0x7f == 0b1101111,
    ;
    lemma_opcode_bits(w);
    lemma_signed_cast(imm);
    assert(imm_j(w) == imm as u32) by (bit_vector)
        requires
            w == encode_j(word, imm as u32),
            -0x10_0000 <= imm < 0x10_0000,
            imm & 1 == 0,
    ;
}

} // verus!
