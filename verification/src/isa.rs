//! The instruction set as mathematics: two's complement arithmetic, the
//! fields and immediates of an instruction word, and the decoded form of
//! every supported instruction.

use crate::memory::AccessSize;
use vstd::arithmetic::power2::{lemma2_to64, lemma_pow2_unfold, pow2};
use vstd::prelude::*;

verus! {

/// The residue of `x` modulo `2^64`, as a register value.
pub open spec fn wrap64(x: int) -> u64 {
    (x % 0x1_0000_0000_0000_0000) as u64
}

/// The residue of `x` modulo `2^32`, as a word.
pub open spec fn wrap32(x: int) -> u32 {
    (x % 0x1_0000_0000) as u32
}

/// The number that the low `bits` bits of `value` spell in two's complement.
pub open spec fn sign_extend(value: int, bits: nat) -> int {
    let modulus = pow2(bits) as int;
    let low = value % modulus;
    if 2 * low < modulus {
        low
    } else {
        low - modulus
    }
}

/// The two's complement reading of a word.
pub open spec fn signed32(x: u32) -> int {
    sign_extend(x as int, 32)
}

/// The two's complement reading of a register value.
pub open spec fn signed64(x: u64) -> int {
    sign_extend(x as int, 64)
}

/// A word sign-extended to the width of a register.
pub open spec fn sext32(x: u32) -> u64 {
    wrap64(signed32(x))
}

/// Sign extension written out for the widths that the instruction set uses.
pub proof fn lemma_sign_extend_widths(value: int)
    ensures
        sign_extend(value, 8) == (if value % 0x100 < 0x80 {
            value % 0x100
        } else {
            value % 0x100 - 0x100
        }),
        sign_extend(value, 12) == (if value % 0x1000 < 0x800 {
            value % 0x1000
        } else {
            value % 0x1000 - 0x1000
        }),
        sign_extend(value, 13) == (if value % 0x2000 < 0x1000 {
            value % 0x2000
        } else {
            value % 0x2000 - 0x2000
        }),
        sign_extend(value, 16) == (if value % 0x1_0000 < 0x8000 {
            value % 0x1_0000
        } else {
            value % 0x1_0000 - 0x1_0000
        }),
        sign_extend(value, 20) == (if value % 0x10_0000 < 0x8_0000 {
            value % 0x10_0000
        } else {
            value % 0x10_0000 - 0x10_0000
        }),
        sign_extend(value, 21) == (if value % 0x20_0000 < 0x10_0000 {
            value % 0x20_0000
        } else {
            value % 0x20_0000 - 0x20_0000
        }),
        sign_extend(value, 32) == (if value % 0x1_0000_0000 < 0x8000_0000 {
            value % 0x1_0000_0000
        } else {
            value % 0x1_0000_0000 - 0x1_0000_0000
        }),
        sign_extend(value, 64) == (if value % 0x1_0000_0000_0000_0000 < 0x8000_0000_0000_0000 {
            value % 0x1_0000_0000_0000_0000
        } else {
            value % 0x1_0000_0000_0000_0000 - 0x1_0000_0000_0000_0000
        }),
{
    lemma2_to64();
}

/// The two's complement reading of the low `bits` bits of `field`.
pub fn sign_extend_field(field: u32, bits: u32) -> (r: i64)
    requires
        0 < bits <= 32,
    ensures
        r == sign_extend(field as int, bits as nat),
{
    let modulus: u64 = 1u64 << bits;
    proof {
        lemma2_to64();
        lemma_pow2_unfold(bits as nat);
        vstd::arithmetic::power2::lemma_pow2_strictly_increases((bits - 1) as nat, 32);
        vstd::bits::lemma_u64_shl_is_mul(1, bits as u64);
    }
    let low: u64 = field as u64 % modulus;
    if low < modulus / 2 {
        low as i64
    } else {
        low as i64 - modulus as i64
    }
}

/// The two's complement reading of a word.
pub fn to_signed32(x: u32) -> (r: i64)
    ensures
        r == signed32(x),
{
    sign_extend_field(x, 32)
}

/// The two's complement reading of a register value.
pub fn to_signed64(x: u64) -> (r: i64)
    ensures
        r == signed64(x),
        r == x as i64,
{
    proof {
        lemma_sign_extend_widths(x as int);
    }
    let r = x as i64;
    assert(r == (if x < 0x8000_0000_0000_0000u64 {
        x as int
    } else {
        x as int - 0x1_0000_0000_0000_0000
    })) by (bit_vector)
        requires
            r == x as i64,
    ;
    r
}

/// The register value that stands for a signed number.
pub fn from_signed64(x: i64) -> (r: u64)
    ensures
        r == wrap64(x as int),
        r == x as u64,
{
    let r = x as u64;
    assert(r == (if x >= 0 {
        x as int
    } else {
        x as int + 0x1_0000_0000_0000_0000
    })) by (bit_vector)
        requires
            r == x as u64,
    ;
    r
}

/// The low word of a register value.
pub fn low32(x: u64) -> (r: u32)
    ensures
        r == wrap32(x as int),
{
    (x % 0x1_0000_0000) as u32
}

/// A word sign-extended to the width of a register.
pub fn sign_extend_word(x: u32) -> (r: u64)
    ensures
        r == sext32(x),
{
    from_signed64(to_signed32(x))
}

/// The arithmetic and logic operations on full registers.
pub enum AluOp {
    Add,
    Sub,
    Sll,
    Slt,
    Sltu,
    Xor,
    Srl,
    Sra,
    Or,
    And,
}

/// The arithmetic operations on the low words of registers.
pub enum AluWOp {
    Addw,
    Subw,
    Sllw,
    Srlw,
    Sraw,
}

/// The conditions of the conditional branches.
pub enum BranchOp {
    Beq,
    Bne,
    Blt,
    Bge,
    Bltu,
    Bgeu,
}

/// What a control/status instruction does to the register it names.
pub enum CsrOp {
    Write,
    SetBits,
    ClearBits,
}

/// Where a control/status instruction takes its operand from.
pub enum CsrSource {
    Register(u8),
    Immediate(u8),
}

/// The result of a 64-bit operation on the operands `a` and `b`.
/// Sums and differences wrap; shifts use the low six bits of `b`.
pub open spec fn alu(op: AluOp, a: u64, b: u64) -> u64 {
    match op {
        AluOp::Add => wrap64(a + b),
        AluOp::Sub => wrap64(a - b),
        AluOp::Sll => a << (b & 0x3f),
        AluOp::Slt => if signed64(a) < signed64(b) {
            1
        } else {
            0
        },
        AluOp::Sltu => if a < b {
            1
        } else {
            0
        },
        AluOp::Xor => a ^ b,
        AluOp::Srl => a >> (b & 0x3f),
        AluOp::Sra => ((a as i64) >> (b & 0x3f)) as u64,
        AluOp::Or => a | b,
        AluOp::And => a & b,
    }
}

/// The 32-bit result of a word operation on the low words of `a` and `b`.
/// Shifts use the low five bits of `b`.
pub open spec fn alu_word(op: AluWOp, a: u64, b: u64) -> u32 {
    match op {
        AluWOp::Addw => wrap32(a + b),
        AluWOp::Subw => wrap32(a - b),
        AluWOp::Sllw => wrap32(a as int) << (b & 0x1f),
        AluWOp::Srlw => wrap32(a as int) >> (b & 0x1f),
        AluWOp::Sraw => ((wrap32(a as int) as i32) >> (b & 0x1f)) as u32,
    }
}

/// The result of a word operation: its 32-bit result, sign-extended.
pub open spec fn alu_w(op: AluWOp, a: u64, b: u64) -> u64 {
    sext32(alu_word(op, a, b))
}

/// Whether a branch with the operands `a` and `b` is taken.
pub open spec fn branch_taken(op: BranchOp, a: u64, b: u64) -> bool {
    match op {
        BranchOp::Beq => a == b,
        BranchOp::Bne => a != b,
        BranchOp::Blt => signed64(a) < signed64(b),
        BranchOp::Bge => signed64(a) >= signed64(b),
        BranchOp::Bltu => a < b,
        BranchOp::Bgeu => a >= b,
    }
}

/// The new value of a control/status register that held `current`.
pub open spec fn csr_update(op: CsrOp, current: u64, operand: u64) -> u64 {
    match op {
        CsrOp::Write => operand,
        CsrOp::SetBits => current | operand,
        CsrOp::ClearBits => current & !operand,
    }
}

/// What a load writes to its destination: the loaded value, sign-extended
/// from the width of the access or zero-extended.
pub open spec fn load_result(value: u64, size: AccessSize, signed: bool) -> u64 {
    if signed {
        wrap64(sign_extend(value as int, 8 * size.width()))
    } else {
        value
    }
}

/// An address with its lowest bit cleared.
pub open spec fn clear_low_bit(addr: u64) -> u64 {
    (addr - addr % 2) as u64
}

/// Bits 6 to 0 of an instruction word.
pub open spec fn opcode_of(word: u32) -> u8 {
    (word & 0x7f) as u8
}

/// Bits 14 to 12.
pub open spec fn funct3_of(word: u32) -> u8 {
    ((word >> 12) & 0x7) as u8
}

/// Bits 31 to 25.
pub open spec fn funct7_of(word: u32) -> u8 {
    ((word >> 25) & 0x7f) as u8
}

/// Bits 11 to 7 as a register index.
pub open spec fn rd_of(word: u32) -> u8 {
    ((word >> 7) & 0x1f) as u8
}

/// Bits 19 to 15 as a register index.
pub open spec fn rs1_of(word: u32) -> u8 {
    ((word >> 15) & 0x1f) as u8
}

/// Bits 24 to 20 as a register index.
pub open spec fn rs2_of(word: u32) -> u8 {
    ((word >> 20) & 0x1f) as u8
}

/// Bits 11 to 7, the low part of the S and B immediates.
pub open spec fn imm5_of(word: u32) -> u32 {
    (word >> 7) & 0x1f
}

/// Bits 31 to 20, sign-extended to a word.
pub open spec fn imm12_of(word: u32) -> u32 {
    ((word as i32) >> 20) as u32
}

/// Bits 31 to 12, sign-extended to a word.
pub open spec fn imm20_of(word: u32) -> u32 {
    ((word as i32) >> 12) as u32
}

/// The 12-bit store offset `{imm12[11:5], imm5[4:0]}` before sign extension.
pub open spec fn stype_field(imm5: u32, imm12: u32) -> u32 {
    (imm12 & 0xfe0) | (imm5 & 0x1f)
}

/// The store offset: 12 bits, sign-extended.
pub open spec fn stype_offset(imm5: u32, imm12: u32) -> int {
    sign_extend(stype_field(imm5, imm12) as int, 12)
}

/// The 13-bit branch offset `{imm[12], imm[11], imm[10:5], imm[4:1], 0}`
/// before sign extension: bit 12 is bit 11 of `imm12`, bit 11 is bit 0 of
/// `imm5`, bits 10 to 5 come from `imm12` and bits 4 to 1 from `imm5`.
pub open spec fn btype_field(imm5: u32, imm12: u32) -> u32 {
    ((imm12 & 0x800) << 1) | ((imm5 & 0x1) << 11) | (imm12 & 0x7e0) | (imm5 & 0x1e)
}

/// The branch offset: 13 bits, sign-extended.
pub open spec fn btype_offset(imm5: u32, imm12: u32) -> int {
    sign_extend(btype_field(imm5, imm12) as int, 13)
}

/// The 21-bit jump offset `{imm[20], imm[19:12], imm[11], imm[10:1], 0}`
/// before sign extension: bit 20 is bit 19 of `imm20`, bits 19 to 12 are its
/// bits 7 to 0, bit 11 is its bit 8 and bits 10 to 1 are its bits 18 to 9.
pub open spec fn jtype_field(imm20: u32) -> u32 {
    ((imm20 & 0x8_0000) << 1) | ((imm20 & 0xff) << 12) | ((imm20 & 0x100) << 3) | ((imm20
        & 0x7_fe00) >> 8)
}

/// The jump offset: 21 bits, sign-extended.
pub open spec fn jtype_offset(imm20: u32) -> int {
    sign_extend(jtype_field(imm20) as int, 21)
}

/// The upper immediate: the 20-bit field, sign-extended, in bits 31 to 12.
pub open spec fn utype_value(imm20: u32) -> int {
    sign_extend(imm20 as int, 20) * 0x1000
}

/// The index of the control/status register that an immediate names.
pub open spec fn csr_of(imm12: u32) -> u16 {
    (imm12 & 0xfff) as u16
}

/// The immediate of an I-type instruction: bits 31 to 20, sign-extended.
pub open spec fn imm_i(word: u32) -> int {
    sign_extend((word >> 20) as int, 12)
}

/// The immediate of an S-type instruction.
pub open spec fn imm_s(word: u32) -> int {
    stype_offset(imm5_of(word), imm12_of(word))
}

/// The immediate of a B-type instruction.
pub open spec fn imm_b(word: u32) -> int {
    btype_offset(imm5_of(word), imm12_of(word))
}

/// The immediate of a U-type instruction.
pub open spec fn imm_u(word: u32) -> int {
    utype_value(imm20_of(word))
}

/// The immediate of a J-type instruction.
pub open spec fn imm_j(word: u32) -> int {
    jtype_offset(imm20_of(word))
}

/// The fields that the immediates are rebuilt from hold the bits of the
/// instruction word in the order that each format prescribes.
///
/// S: bits 11 to 5 of the offset are bits 31 to 25 of the word, bits 4 to 0
/// are bits 11 to 7. B: bit 12 is bit 31, bit 11 is bit 7, bits 10 to 5 are
/// bits 30 to 25, bits 4 to 1 are bits 11 to 8 and bit 0 is zero. U: bits 31
/// to 12 stay where they are. J: bit 20 is bit 31, bits 19 to 12 stay where
/// they are, bit 11 is bit 20, bits 10 to 1 are bits 30 to 21 and bit 0 is zero.
pub proof fn lemma_immediate_layouts(word: u32)
    ensures
        stype_field(imm5_of(word), imm12_of(word)) == ((word >> 25) << 5) | ((word >> 7) & 0x1f),
        btype_field(imm5_of(word), imm12_of(word)) == ((word >> 31) << 12) | (((word >> 7) & 0x1)
            << 11) | (((word >> 25) & 0x3f) << 5) | (((word >> 8) & 0xf) << 1),
        jtype_field(imm20_of(word)) == ((word >> 31) << 20) | (((word >> 12) & 0xff) << 12) | (((
        word >> 20) & 0x1) << 11) | (((word >> 21) & 0x3ff) << 1),
        imm20_of(word) % 0x10_0000 == word >> 12,
        (word >> 12) * 0x1000 == word & 0xffff_f000,
{
    let imm5 = imm5_of(word);
    let imm12 = imm12_of(word);
    let imm20 = imm20_of(word);
    assert((imm12 & 0xfe0) | (imm5 & 0x1f) == ((word >> 25) << 5) | ((word >> 7) & 0x1f))
        by (bit_vector)
        requires
            imm5 == (word >> 7) & 0x1f,
            imm12 == ((word as i32) >> 20) as u32,
    ;
    assert(((imm12 & 0x800) << 1) | ((imm5 & 0x1) << 11) | (imm12 & 0x7e0) | (imm5 & 0x1e) == ((word
        >> 31) << 12) | (((word >> 7) & 0x1) << 11) | (((word >> 25) & 0x3f) << 5) | (((word >> 8)
        & 0xf) << 1)) by (bit_vector)
        requires
            imm5 == (word >> 7) & 0x1f,
            imm12 == ((word as i32) >> 20) as u32,
    ;
    assert(((imm20 & 0x8_0000) << 1) | ((imm20 & 0xff) << 12) | ((imm20 & 0x100) << 3) | ((imm20
        & 0x7_fe00) >> 8) == ((word >> 31) << 20) | (((word >> 12) & 0xff) << 12) | (((word >> 20)
        & 0x1) << 11) | (((word >> 21) & 0x3ff) << 1)) by (bit_vector)
        requires
            imm20 == ((word as i32) >> 12) as u32,
    ;
    assert(imm20 % 0x10_0000 == word >> 12 && (word >> 12) * 0x1000 == word & 0xffff_f000)
        by (bit_vector)
        requires
            imm20 == ((word as i32) >> 12) as u32,
    ;
}

/// What the decoder extracts from a word agrees with the fields of the
/// word: the sign-extended 12-bit immediate is the I-type immediate, its low
/// five bits are the rs2 field and its bit 10 is bit 30 of the word.
pub proof fn lemma_extracted_fields(word: u32)
    ensures
        signed32(imm12_of(word)) == imm_i(word),
        (imm12_of(word) & 0x1f) as u8 == rs2_of(word),
        ((imm12_of(word) >> 10) & 1 == 1) == ((word >> 30) & 1 == 1),
{
    let field = word >> 20;
    let imm12 = imm12_of(word);
    assert(field < 0x1000 && imm12 == (if field < 0x800 {
        field
    } else {
        (field + 0xffff_f000) as u32
    }) && (imm12 & 0x1f) as u8 == ((word >> 20) & 0x1f) as u8 && ((imm12 >> 10) & 1 == 1) == ((word
        >> 30) & 1 == 1)) by (bit_vector)
        requires
            field == word >> 20,
            imm12 == ((word as i32) >> 20) as u32,
    ;
    lemma_sign_extend_widths(field as int);
    lemma_sign_extend_widths(imm12 as int);
}

/// The I immediate is the sign-extended form of the 12 bits 31 to 20.
pub proof fn lemma_imm_i(word: u32)
    ensures
        imm_i(word) == sign_extend((word >> 20) as int, 12),
        -0x800 <= imm_i(word) < 0x800,
{
    lemma_sign_extend_widths((word >> 20) as int);
}

/// The S immediate is the sign-extended form of its 12-bit field.
pub proof fn lemma_imm_s(word: u32)
    ensures
        imm_s(word) == sign_extend((((word >> 25) << 5) | ((word >> 7) & 0x1f)) as int, 12),
        -0x800 <= imm_s(word) < 0x800,
{
    lemma_immediate_layouts(word);
    lemma_sign_extend_widths(stype_field(imm5_of(word), imm12_of(word)) as int);
}

/// The B immediate is the sign-extended form of its 13-bit field, and even.
pub proof fn lemma_imm_b(word: u32)
    ensures
        imm_b(word) == sign_extend(
            (((word >> 31) << 12) | (((word >> 7) & 0x1) << 11) | (((word >> 25) & 0x3f) << 5) | (((
            word >> 8) & 0xf) << 1)) as int,
            13,
        ),
        -0x1000 <= imm_b(word) < 0x1000,
        imm_b(word) % 2 == 0,
{
    lemma_immediate_layouts(word);
    let b = btype_field(imm5_of(word), imm12_of(word));
    assert(b % 2 == 0) by (bit_vector)
        requires
            b == ((word >> 31) << 12) | (((word >> 7) & 0x1) << 11) | (((word >> 25) & 0x3f) << 5)
                | (((word >> 8) & 0xf) << 1),
    ;
    lemma_sign_extend_widths(b as int);
    let low = b as int % 0x2000;
    assert(low % 2 == 0);
}

/// The U immediate is the sign-extended form of the 20 bits 31 to 12,
/// placed at bits 31 to 12: the word with its low 12 bits cleared, read as
/// a signed 32-bit number.
pub proof fn lemma_imm_u(word: u32)
    ensures
        imm_u(word) == sign_extend((word >> 12) as int, 20) * 0x1000,
        imm_u(word) == sign_extend((word & 0xffff_f000) as int, 32),
        -0x8000_0000 <= imm_u(word) < 0x8000_0000,
        imm_u(word) % 0x1000 == 0,
{
    lemma_immediate_layouts(word);
    let u = word >> 12;
    let x = imm20_of(word);
    let m = word & 0xffff_f000;
    assert(u < 0x10_0000) by (bit_vector)
        requires
            u == word >> 12,
    ;
    assert(pow2(20) == 0x10_0000 && pow2(32) == 0x1_0000_0000) by {
        lemma2_to64();
    }
    let field = if u < 0x8_0000 {
        u as int
    } else {
        u - 0x10_0000
    };
    assert(u as int % 0x10_0000 == u);
    assert(sign_extend(u as int, 20) == field);
    assert(sign_extend(x as int, 20) == field);
    assert(m == u * 0x1000);
    assert(m as int % 0x1_0000_0000 == m);
    assert(sign_extend(m as int, 32) == field * 0x1000);
}

/// The J immediate is the sign-extended form of its 21-bit field, and even.
pub proof fn lemma_imm_j(word: u32)
    ensures
        imm_j(word) == sign_extend(
            (((word >> 31) << 20) | (((word >> 12) & 0xff) << 12) | (((word >> 20) & 0x1) << 11)
                | (((word >> 21) & 0x3ff) << 1)) as int,
            21,
        ),
        -0x10_0000 <= imm_j(word) < 0x10_0000,
        imm_j(word) % 2 == 0,
{
    lemma_immediate_layouts(word);
    let j = jtype_field(imm20_of(word));
    assert(j % 2 == 0) by (bit_vector)
        requires
            j == ((word >> 31) << 20) | (((word >> 12) & 0xff) << 12) | (((word >> 20) & 0x1)
                << 11) | (((word >> 21) & 0x3ff) << 1),
    ;
    lemma_sign_extend_widths(j as int);
    let low = j as int % 0x20_0000;
    assert(low % 2 == 0);
}

/// A decoded instruction: what it does, the registers it names and its
/// immediate as a number.
#[allow(inconsistent_fields)]
pub enum Instr {
    Lui { rd: u8, imm: int },
    Auipc { rd: u8, imm: int },
    Jal { rd: u8, offset: int },
    Jalr { rd: u8, rs1: u8, imm: int },
    Branch { op: BranchOp, rs1: u8, rs2: u8, offset: int },
    Load { size: AccessSize, signed: bool, rd: u8, rs1: u8, imm: int },
    Store { size: AccessSize, rs1: u8, rs2: u8, imm: int },
    OpImm { op: AluOp, rd: u8, rs1: u8, imm: int },
    Op { op: AluOp, rd: u8, rs1: u8, rs2: u8 },
    OpImmW { op: AluWOp, rd: u8, rs1: u8, imm: int },
    OpW { op: AluWOp, rd: u8, rs1: u8, rs2: u8 },
    Fence,
    FenceI,
    System,
    Csr { op: CsrOp, rd: u8, csr: u16, source: CsrSource },
}

impl Instr {
    /// Whether the registers that the instruction names exist.
    pub open spec fn wf(self) -> bool {
        match self {
            Instr::Lui { rd, .. } => rd < 32,
            Instr::Auipc { rd, .. } => rd < 32,
            Instr::Jal { rd, .. } => rd < 32,
            Instr::Jalr { rd, rs1, .. } => rd < 32 && rs1 < 32,
            Instr::Branch { rs1, rs2, .. } => rs1 < 32 && rs2 < 32,
            Instr::Load { rd, rs1, .. } => rd < 32 && rs1 < 32,
            Instr::Store { rs1, rs2, .. } => rs1 < 32 && rs2 < 32,
            Instr::OpImm { rd, rs1, .. } => rd < 32 && rs1 < 32,
            Instr::Op { rd, rs1, rs2, .. } => rd < 32 && rs1 < 32 && rs2 < 32,
            Instr::OpImmW { rd, rs1, .. } => rd < 32 && rs1 < 32,
            Instr::OpW { rd, rs1, rs2, .. } => rd < 32 && rs1 < 32 && rs2 < 32,
            Instr::Fence => true,
            Instr::FenceI => true,
            Instr::System => true,
            Instr::Csr { rd, csr, source, .. } => rd < 32 && csr < 4096 && match source {
                CsrSource::Register(rs1) => rs1 < 32,
                CsrSource::Immediate(value) => value < 32,
            },
        }
    }
}

pub const OPCODE_RTYPE: u8 = 0b0110011;

pub const OPCODE_ITYPE: u8 = 0b0010011;

pub const OPCODE_STYPE: u8 = 0b0100011;

pub const OPCODE_BTYPE: u8 = 0b1100011;

pub const OPCODE_LOAD: u8 = 0b0000011;

pub const OPCODE_LUI: u8 = 0b0110111;

pub const OPCODE_AUIPC: u8 = 0b0010111;

pub const OPCODE_JAL: u8 = 0b1101111;

pub const OPCODE_JALR: u8 = 0b1100111;

pub const OPCODE_FENCE: u8 = 0b0001111;

pub const OPCODE_EXCEP: u8 = 0b1110011;

pub const OPCODE_RTYPE64: u8 = 0b0111011;

pub const OPCODE_ITYPE64: u8 = 0b0011011;

/// The shift that an immediate shift instruction performs: arithmetic when
/// bit 30 of the instruction word is set, logical otherwise.
pub open spec fn right_shift_of(word: u32) -> AluOp {
    if (word >> 30) & 1 == 1 {
        AluOp::Sra
    } else {
        AluOp::Srl
    }
}

/// The word form of `right_shift_of`.
pub open spec fn right_shift_w_of(word: u32) -> AluWOp {
    if (word >> 30) & 1 == 1 {
        AluWOp::Sraw
    } else {
        AluWOp::Srlw
    }
}

/// The instruction that a word encodes, or `None` where the word is no
/// instruction of the supported set.
pub open spec fn decode_spec(word: u32) -> Option<Instr> {
    let rd = rd_of(word);
    let rs1 = rs1_of(word);
    let rs2 = rs2_of(word);
    let f3 = funct3_of(word);
    let f7 = funct7_of(word);
    let opcode = opcode_of(word);
    if opcode == OPCODE_LUI {
        Some(Instr::Lui { rd, imm: imm_u(word) })
    } else if opcode == OPCODE_AUIPC {
        Some(Instr::Auipc { rd, imm: imm_u(word) })
    } else if opcode == OPCODE_JAL {
        Some(Instr::Jal { rd, offset: imm_j(word) })
    } else if opcode == OPCODE_JALR {
        if f3 == 0 {
            Some(Instr::Jalr { rd, rs1, imm: imm_i(word) })
        } else {
            None
        }
    } else if opcode == OPCODE_BTYPE {
        match decode_branch(f3) {
            Some(op) => Some(Instr::Branch { op, rs1, rs2, offset: imm_b(word) }),
            None => None,
        }
    } else if opcode == OPCODE_LOAD {
        match decode_load(f3) {
            Some((size, signed)) => Some(Instr::Load { size, signed, rd, rs1, imm: imm_i(word) }),
            None => None,
        }
    } else if opcode == OPCODE_STYPE {
        match decode_store(f3) {
            Some(size) => Some(Instr::Store { size, rs1, rs2, imm: imm_s(word) }),
            None => None,
        }
    } else if opcode == OPCODE_ITYPE {
        let op = match f3 {
            0 => AluOp::Add,
            1 => AluOp::Sll,
            2 => AluOp::Slt,
            3 => AluOp::Sltu,
            4 => AluOp::Xor,
            5 => right_shift_of(word),
            6 => AluOp::Or,
            _ => AluOp::And,
        };
        Some(Instr::OpImm { op, rd, rs1, imm: imm_i(word) })
    } else if opcode == OPCODE_RTYPE {
        match decode_op(f3, f7) {
            Some(op) => Some(Instr::Op { op, rd, rs1, rs2 }),
            None => None,
        }
    } else if opcode == OPCODE_FENCE {
        if f3 == 0 {
            Some(Instr::Fence)
        } else if f3 == 1 {
            Some(Instr::FenceI)
        } else {
            None
        }
    } else if opcode == OPCODE_EXCEP {
        if f3 == 0 {
            if f7 == 0 {
                Some(Instr::System)
            } else {
                None
            }
        } else {
            match decode_csr(f3, rs1) {
                Some((op, source)) => Some(
                    Instr::Csr { op, rd, csr: csr_of(imm12_of(word)), source },
                ),
                None => None,
            }
        }
    } else if opcode == OPCODE_ITYPE64 {
        if f3 == 0 {
            Some(Instr::OpImmW { op: AluWOp::Addw, rd, rs1, imm: imm_i(word) })
        } else if f3 == 1 && f7 == 0 {
            Some(Instr::OpImmW { op: AluWOp::Sllw, rd, rs1, imm: imm_i(word) })
        } else if f3 == 5 {
            Some(Instr::OpImmW { op: right_shift_w_of(word), rd, rs1, imm: imm_i(word) })
        } else {
            None
        }
    } else if opcode == OPCODE_RTYPE64 {
        match decode_op_w(f3, f7) {
            Some(op) => Some(Instr::OpW { op, rd, rs1, rs2 }),
            None => None,
        }
    } else {
        None
    }
}

/// The fields of an instruction word stay within their widths.
pub proof fn lemma_field_bounds(word: u32)
    ensures
        opcode_of(word) < 128,
        funct3_of(word) < 8,
        funct7_of(word) < 128,
        rd_of(word) < 32,
        rs1_of(word) < 32,
        rs2_of(word) < 32,
        imm5_of(word) < 32,
        csr_of(imm12_of(word)) < 4096,
{
    assert({
        &&& ((word & 0x7f) as u8) < 128
        &&& (((word >> 12) & 0x7) as u8) < 8
        &&& (((word >> 25) & 0x7f) as u8) < 128
        &&& (((word >> 7) & 0x1f) as u8) < 32
        &&& (((word >> 15) & 0x1f) as u8) < 32
        &&& (((word >> 20) & 0x1f) as u8) < 32
        &&& ((word >> 7) & 0x1f) < 32
        &&& ((((((word as i32) >> 20) as u32) & 0xfff) as u16) < 4096)
    }) by (bit_vector);
}

/// Every instruction that a word encodes names registers that exist.
pub proof fn lemma_decode_wf(word: u32)
    ensures
        decode_spec(word) matches Some(instr) ==> instr.wf(),
{
    lemma_field_bounds(word);
}

/// The branch condition that a funct3 value selects.
pub open spec fn decode_branch(f3: u8) -> Option<BranchOp> {
    match f3 {
        0 => Some(BranchOp::Beq),
        1 => Some(BranchOp::Bne),
        4 => Some(BranchOp::Blt),
        5 => Some(BranchOp::Bge),
        6 => Some(BranchOp::Bltu),
        7 => Some(BranchOp::Bgeu),
        _ => None,
    }
}

/// The width of a load and whether it sign-extends.
pub open spec fn decode_load(f3: u8) -> Option<(AccessSize, bool)> {
    match f3 {
        0 => Some((AccessSize::BYTE, true)),
        1 => Some((AccessSize::HALFWORD, true)),
        2 => Some((AccessSize::WORD, true)),
        3 => Some((AccessSize::DOUBLEWORD, true)),
        4 => Some((AccessSize::BYTE, false)),
        5 => Some((AccessSize::HALFWORD, false)),
        6 => Some((AccessSize::WORD, false)),
        _ => None,
    }
}

/// The width of a store.
pub open spec fn decode_store(f3: u8) -> Option<AccessSize> {
    match f3 {
        0 => Some(AccessSize::BYTE),
        1 => Some(AccessSize::HALFWORD),
        2 => Some(AccessSize::WORD),
        3 => Some(AccessSize::DOUBLEWORD),
        _ => None,
    }
}

/// The register-register operation that funct3 and funct7 select.
pub open spec fn decode_op(f3: u8, f7: u8) -> Option<AluOp> {
    if f7 == 0 {
        match f3 {
            0 => Some(AluOp::Add),
            1 => Some(AluOp::Sll),
            2 => Some(AluOp::Slt),
            3 => Some(AluOp::Sltu),
            4 => Some(AluOp::Xor),
            5 => Some(AluOp::Srl),
            6 => Some(AluOp::Or),
            7 => Some(AluOp::And),
            _ => None,
        }
    } else if f7 == 0x20 {
        match f3 {
            0 => Some(AluOp::Sub),
            5 => Some(AluOp::Sra),
            _ => None,
        }
    } else {
        None
    }
}

/// The word operation that funct3 and funct7 select.
pub open spec fn decode_op_w(f3: u8, f7: u8) -> Option<AluWOp> {
    if f7 == 0 {
        match f3 {
            0 => Some(AluWOp::Addw),
            1 => Some(AluWOp::Sllw),
            5 => Some(AluWOp::Srlw),
            _ => None,
        }
    } else if f7 == 0x20 {
        match f3 {
            0 => Some(AluWOp::Subw),
            5 => Some(AluWOp::Sraw),
            _ => None,
        }
    } else {
        None
    }
}

/// The control/status operation that funct3 selects, with its operand: the
/// register `rs1`, or the five bits of the rs1 field themselves.
pub open spec fn decode_csr(f3: u8, rs1: u8) -> Option<(CsrOp, CsrSource)> {
    match f3 {
        1 => Some((CsrOp::Write, CsrSource::Register(rs1))),
        2 => Some((CsrOp::SetBits, CsrSource::Register(rs1))),
        3 => Some((CsrOp::ClearBits, CsrSource::Register(rs1))),
        5 => Some((CsrOp::Write, CsrSource::Immediate(rs1))),
        6 => Some((CsrOp::SetBits, CsrSource::Immediate(rs1))),
        7 => Some((CsrOp::ClearBits, CsrSource::Immediate(rs1))),
        _ => None,
    }
}

} // verus!
