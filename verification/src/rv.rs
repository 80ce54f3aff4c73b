//! The decoder and the instructions: one function for each instruction,
//! and the dispatch from an instruction word to the function that executes it.

use crate::cpu::{Cpu, Instruction, RegIndex};
use crate::isa::{
    btype_offset, csr_of, decode_spec, from_signed64, jtype_offset, lemma_extracted_fields,
    lemma_field_bounds, lemma_sign_extend_widths, low32, sign_extend_field, sign_extend_word,
    signed32, stype_offset, to_signed32, to_signed64, utype_value, wrap64, AluOp, AluWOp,
    BranchOp, CsrOp, CsrSource, Instr,
};
use crate::machine::{access_of, access_ok, execute, instr_fault, Fault};
use crate::memory::AccessSize;
use vstd::prelude::*;

verus! {

/// The three fields that select the instruction.
#[derive(PartialEq, Eq)]
pub struct DecInstruction {
    opcode: u8,
    f3: u8,
    f7: u8,
}

/// The low six bits of `b`: the amount of a doubleword shift.
fn shift_amount(b: u64) -> (s: u64)
    ensures
        s == b & 0x3f,
        s < 64,
{
    let s = b & 0x3f;
    assert(s < 64) by (bit_vector)
        requires
            s == b & 0x3f,
    ;
    s
}

/// The low five bits of `b`: the amount of a word shift.
fn word_shift_amount(b: u64) -> (s: u64)
    ensures
        s == b & 0x1f,
        s < 32,
{
    let s = b & 0x1f;
    assert(s < 32) by (bit_vector)
        requires
            s == b & 0x1f,
    ;
    s
}

/// The low five bits of `x` as a register index.
fn register_field(x: u32) -> (r: RegIndex)
    ensures
        r == (x & 0x1f) as u8,
        r < 32,
{
    let r = (x & 0x1f) as u8;
    assert(r < 32) by (bit_vector)
        requires
            r == (x & 0x1f) as u8,
    ;
    r
}

/// The index of the control/status register that `imm12` names.
fn csr_index(imm12: u32) -> (i: u16)
    ensures
        i == csr_of(imm12),
        i < 4096,
{
    let i = (imm12 & 0xfff) as u16;
    assert(i < 4096) by (bit_vector)
        requires
            i == (imm12 & 0xfff) as u16,
    ;
    i
}

/// The five-bit operand of an immediate control/status instruction.
fn csr_immediate(rs1: u8) -> (v: u8)
    ensures
        v == rs1 & 0x1f,
        v < 32,
        rs1 < 32 ==> v == rs1,
{
    let v = rs1 & 0x1f;
    assert(v < 32 && (rs1 < 32 ==> v == rs1)) by (bit_vector)
        requires
            v == rs1 & 0x1f,
    ;
    v
}

/// The address `rs1 + imm`, wrapping.
fn effective_address(curcpu: &Cpu, rs1: RegIndex, imm: i64) -> (addr: u64)
    requires
        rs1 < 32,
    ensures
        addr == wrap64(curcpu@.reg(rs1) + imm),
{
    curcpu.read_reg(rs1).wrapping_add_signed(imm)
}

/// The load that a load function carries out: of `size` bytes at `rs1` plus
/// the immediate, which is `imm12` read as a signed 32-bit number.
pub open spec fn load_instr(size: AccessSize, signed: bool, rs1: u8, rd: u8, imm12: u32) -> Instr {
    Instr::Load { size, signed, rd, rs1, imm: signed32(imm12) }
}

/// The store that a store function carries out: of the low `size` bytes of
/// the register that the low five bits of `imm12` name, at `rs1` plus the
/// offset that `imm5` and `imm12` hold.
pub open spec fn store_instr(size: AccessSize, rs1: u8, imm12: u32, imm5: u32) -> Instr {
    Instr::Store { size, rs1, rs2: (imm12 & 0x1f) as u8, imm: stype_offset(imm5, imm12) }
}

/// Carries out the instruction that `instr` encodes.
///
/// A word that encodes no instruction, and a load or store outside memory,
/// are reported and leave the processor as it was.
pub fn decode(instr: Instruction, curcpu: &mut Cpu) -> (res: Result<(), Fault>)
    ensures
        match instr_fault(old(curcpu)@, instr) {
            Some(fault) => res == Err::<(), Fault>(fault) && final(curcpu)@ == old(curcpu)@,
            None => res == Ok::<(), Fault>(()) && final(curcpu)@ == execute(
                old(curcpu)@,
                decode_spec(instr)->0,
            ),
        },
{
    // opcode = instr[6:0]
    let opcode = (instr & 0x7f) as u8;
    // f3 = instr[14:12]
    let f3 = ((instr >> 12) & 0x7) as u8;
    // f7 = instr[31:25]
    let f7 = ((instr >> 25) & 0x7f) as u8;
    // rd = instr[11:7]
    let rd: RegIndex = ((instr >> 7) & 0x1f) as RegIndex;
    // rs1 = instr[19:15]
    let rs1: RegIndex = ((instr >> 15) & 0x1f) as RegIndex;
    // rs2 = instr[24:20]
    let rs2: RegIndex = ((instr >> 20) & 0x1f) as RegIndex;
    // the 5 bits long immediate takes the place of rd, instr[11:7]
    let imm5: u32 = (instr >> 7) & 0x1f;
    // the 12 bits long immediate is instr[31:20], sign-extended by the shift
    let imm12: u32 = ((instr as i32) >> 20) as u32;
    // the 20 bits long immediate is instr[31:12], sign-extended by the shift
    let imm20: u32 = ((instr as i32) >> 12) as u32;

    let dec_instr: DecInstruction = DecInstruction { opcode, f3, f7 };
    let illegal: Result<(), Fault> = Err(
        Fault::IllegalInstruction { word: instr, pc: curcpu.get_pc() },
    );
    proof {
        lemma_field_bounds(instr);
        lemma_extracted_fields(instr);
    }

    match dec_instr.opcode {
        // LUI
        0b0110111 => {
            lui(curcpu, rd, imm20);
            Ok(())
        },
        // AUIPC
        0b0010111 => {
            auipc(curcpu, rd, imm20);
            Ok(())
        },
        // JAL
        0b1101111 => {
            jal(curcpu, rd, imm20);
            Ok(())
        },
        // JALR
        0b1100111 => match dec_instr.f3 {
            0b000 => {
                jalr(curcpu, rs1, rd, imm12);
                Ok(())
            },
            _ => illegal,
        },
        // BEQ, BNE, BLT, BGE, BLTU, BGEU
        0b1100011 => decode_branch(dec_instr.f3, curcpu, rs1, rs2, imm5, imm12, illegal),
        // LB, LH, LW, LD, LBU, LHU, LWU
        0b0000011 => decode_load(dec_instr.f3, curcpu, rs1, rd, imm12, illegal),
        // SB, SH, SW, SD
        0b0100011 => decode_store(dec_instr.f3, curcpu, rs1, imm12, imm5, illegal),
        // ADDI, SLTI, SLTIU, XORI, ORI, ANDI, SLLI, SRLI, SRAI
        0b0010011 => {
            match dec_instr.f3 {
                0b000 => addi(curcpu, rs1, rd, imm12),
                0b010 => slti(curcpu, rs1, rd, imm12),
                0b011 => sltiu(curcpu, rs1, rd, imm12),
                0b100 => xori(curcpu, rs1, rd, imm12),
                0b110 => ori(curcpu, rs1, rd, imm12),
                0b111 => andi(curcpu, rs1, rd, imm12),
                0b001 => slli(curcpu, rs1, rd, imm12),
                _ => srli_srai(curcpu, rs1, rd, imm12),
            };
            Ok(())
        },
        // ADD, SUB, SLL, SLT, SLTU, XOR, SRL, SRA, OR, AND
        0b0110011 => decode_rtype(dec_instr.f3, dec_instr.f7, curcpu, rs1, rs2, rd, illegal),
        // FENCE, FENCE.I
        0b0001111 => match dec_instr.f3 {
            0b000 => {
                fence();
                Ok(())
            },
            0b001 => {
                fencei();
                Ok(())
            },
            _ => illegal,
        },
        // ECALL, EBREAK, CSRRW, CSRRS, CSRRC, CSRRWI, CSRRSI, CSRRCI
        0b1110011 => decode_system(dec_instr.f3, dec_instr.f7, curcpu, rs1, rd, imm12, illegal),
        // ADDIW, SLLIW, SRLIW, SRAIW
        0b0011011 => match dec_instr.f3 {
            0b000 => {
                addiw(curcpu, rs1, rd, imm12);
                Ok(())
            },
            0b001 => {
                if dec_instr.f7 == 0b0000000 {
                    slliw(curcpu, rs1, rd, imm12);
                    Ok(())
                } else {
                    illegal
                }
            },
            0b101 => {
                srliw_sraiw(curcpu, rs1, rd, imm12);
                Ok(())
            },
            _ => illegal,
        },
        // ADDW, SUBW, SLLW, SRLW, SRAW
        0b0111011 => decode_rtype64(dec_instr.f3, dec_instr.f7, curcpu, rs1, rs2, rd, illegal),
        _ => illegal,
    }
}

/// The conditional branch that `f3` selects.
fn decode_branch(
    f3: u8,
    curcpu: &mut Cpu,
    rs1: RegIndex,
    rs2: RegIndex,
    imm5: u32,
    imm12: u32,
    illegal: Result<(), Fault>,
) -> (res: Result<(), Fault>)
    requires
        rs1 < 32,
        rs2 < 32,
    ensures
        match crate::isa::decode_branch(f3) {
            Some(op) => res == Ok::<(), Fault>(()) && final(curcpu)@ == execute(
                old(curcpu)@,
                (Instr::Branch { op, rs1, rs2, offset: btype_offset(imm5, imm12) }),
            ),
            None => res == illegal && final(curcpu)@ == old(curcpu)@,
        },
{
    match f3 {
        0b000 => beq(curcpu, rs1, rs2, imm5, imm12),
        0b001 => bne(curcpu, rs1, rs2, imm5, imm12),
        0b100 => blt(curcpu, rs1, rs2, imm5, imm12),
        0b101 => bge(curcpu, rs1, rs2, imm5, imm12),
        0b110 => bltu(curcpu, rs1, rs2, imm5, imm12),
        0b111 => bgeu(curcpu, rs1, rs2, imm5, imm12),
        _ => {
            return illegal;
        },
    };
    Ok(())
}

/// Whether the bus serves an access of `size` at `rs1 + imm`.
fn check_access(curcpu: &Cpu, rs1: RegIndex, imm: i64, size: AccessSize) -> (res: Result<
    (),
    Fault,
>)
    requires
        rs1 < 32,
    ensures
        ({
            let addr = wrap64(curcpu@.reg(rs1) + imm);
            if curcpu@.bus.maps(addr, size.width()) {
                res == Ok::<(), Fault>(())
            } else {
                res == Err::<(), Fault>(Fault::OutOfBounds { addr, pc: curcpu@.pc })
            }
        }),
{
    let addr = effective_address(curcpu, rs1, imm);
    if curcpu.is_mapped(addr, size) {
        Ok(())
    } else {
        Err(Fault::OutOfBounds { addr, pc: curcpu.get_pc() })
    }
}

/// The load that `f3` selects, if the bus serves it.
fn decode_load(
    f3: u8,
    curcpu: &mut Cpu,
    rs1: RegIndex,
    rd: RegIndex,
    imm12: u32,
    illegal: Result<(), Fault>,
) -> (res: Result<(), Fault>)
    requires
        rs1 < 32,
        rd < 32,
    ensures
        match crate::isa::decode_load(f3) {
            Some((size, signed)) => {
                let instr = load_instr(size, signed, rs1, rd, imm12);
                match access_of(old(curcpu)@, instr) {
                    Some((addr, size)) => if old(curcpu)@.bus.maps(addr, size.width()) {
                        res == Ok::<(), Fault>(()) && final(curcpu)@ == execute(
                            old(curcpu)@,
                            instr,
                        )
                    } else {
                        res == Err::<(), Fault>(
                            Fault::OutOfBounds { addr, pc: old(curcpu)@.pc },
                        ) && final(curcpu)@ == old(curcpu)@
                    },
                    None => false,
                }
            },
            None => res == illegal && final(curcpu)@ == old(curcpu)@,
        },
{
    let size = match f3 {
        0b000 | 0b100 => AccessSize::BYTE,
        0b001 | 0b101 => AccessSize::HALFWORD,
        0b010 | 0b110 => AccessSize::WORD,
        0b011 => AccessSize::DOUBLEWORD,
        _ => {
            return illegal;
        },
    };
    let checked = check_access(curcpu, rs1, to_signed32(imm12), size);
    if checked.is_err() {
        return checked;
    }
    match f3 {
        0b000 => lb(curcpu, rs1, rd, imm12),
        0b001 => lh(curcpu, rs1, rd, imm12),
        0b010 => lw(curcpu, rs1, rd, imm12),
        0b011 => ld(curcpu, rs1, rd, imm12),
        0b100 => lbu(curcpu, rs1, rd, imm12),
        0b101 => lhu(curcpu, rs1, rd, imm12),
        _ => lwu(curcpu, rs1, rd, imm12),
    };
    Ok(())
}

/// The store that `f3` selects, if the bus serves it.
fn decode_store(
    f3: u8,
    curcpu: &mut Cpu,
    rs1: RegIndex,
    imm12: u32,
    imm5: u32,
    illegal: Result<(), Fault>,
) -> (res: Result<(), Fault>)
    requires
        rs1 < 32,
    ensures
        match crate::isa::decode_store(f3) {
            Some(size) => {
                let instr = store_instr(size, rs1, imm12, imm5);
                match access_of(old(curcpu)@, instr) {
                    Some((addr, size)) => if old(curcpu)@.bus.maps(addr, size.width()) {
                        res == Ok::<(), Fault>(()) && final(curcpu)@ == execute(
                            old(curcpu)@,
                            instr,
                        )
                    } else {
                        res == Err::<(), Fault>(
                            Fault::OutOfBounds { addr, pc: old(curcpu)@.pc },
                        ) && final(curcpu)@ == old(curcpu)@
                    },
                    None => false,
                }
            },
            None => res == illegal && final(curcpu)@ == old(curcpu)@,
        },
{
    let size = match f3 {
        0b000 => AccessSize::BYTE,
        0b001 => AccessSize::HALFWORD,
        0b010 => AccessSize::WORD,
        0b011 => AccessSize::DOUBLEWORD,
        _ => {
            return illegal;
        },
    };
    let checked = check_access(curcpu, rs1, decode_immediate_stype(imm5, imm12), size);
    if checked.is_err() {
        return checked;
    }
    match f3 {
        0b000 => sb(curcpu, rs1, imm12, imm5),
        0b001 => sh(curcpu, rs1, imm12, imm5),
        0b010 => sw(curcpu, rs1, imm12, imm5),
        _ => sd(curcpu, rs1, imm12, imm5),
    };
    Ok(())
}

/// The register-register operation that `f3` and `f7` select.
fn decode_rtype(
    f3: u8,
    f7: u8,
    curcpu: &mut Cpu,
    rs1: RegIndex,
    rs2: RegIndex,
    rd: RegIndex,
    illegal: Result<(), Fault>,
) -> (res: Result<(), Fault>)
    requires
        rs1 < 32,
        rs2 < 32,
        rd < 32,
    ensures
        match crate::isa::decode_op(f3, f7) {
            Some(op) => res == Ok::<(), Fault>(()) && final(curcpu)@ == execute(
                old(curcpu)@,
                (Instr::Op { op, rd, rs1, rs2 }),
            ),
            None => res == illegal && final(curcpu)@ == old(curcpu)@,
        },
{
    if f7 == 0b0000000 {
        match f3 {
            0b000 => self::add(curcpu, rs1, rs2, rd),
            0b001 => sll(curcpu, rs1, rs2, rd),
            0b010 => slt(curcpu, rs1, rs2, rd),
            0b011 => sltu(curcpu, rs1, rs2, rd),
            0b100 => xor(curcpu, rs1, rs2, rd),
            0b101 => srl(curcpu, rs1, rs2, rd),
            0b110 => or(curcpu, rs1, rs2, rd),
            0b111 => and(curcpu, rs1, rs2, rd),
            _ => {
                return illegal;
            },
        };
        Ok(())
    } else if f7 == 0b0100000 {
        match f3 {
            0b000 => self::sub(curcpu, rs1, rs2, rd),
            0b101 => sra(curcpu, rs1, rs2, rd),
            _ => {
                return illegal;
            },
        };
        Ok(())
    } else {
        illegal
    }
}

/// The word operation that `f3` and `f7` select.
fn decode_rtype64(
    f3: u8,
    f7: u8,
    curcpu: &mut Cpu,
    rs1: RegIndex,
    rs2: RegIndex,
    rd: RegIndex,
    illegal: Result<(), Fault>,
) -> (res: Result<(), Fault>)
    requires
        rs1 < 32,
        rs2 < 32,
        rd < 32,
    ensures
        match crate::isa::decode_op_w(f3, f7) {
            Some(op) => res == Ok::<(), Fault>(()) && final(curcpu)@ == execute(
                old(curcpu)@,
                (Instr::OpW { op, rd, rs1, rs2 }),
            ),
            None => res == illegal && final(curcpu)@ == old(curcpu)@,
        },
{
    if f7 == 0b0000000 {
        match f3 {
            0b000 => addw(curcpu, rs1, rs2, rd),
            0b001 => sllw(curcpu, rs1, rs2, rd),
            0b101 => srlw(curcpu, rs1, rs2, rd),
            _ => {
                return illegal;
            },
        };
        Ok(())
    } else if f7 == 0b0100000 {
        match f3 {
            0b000 => subw(curcpu, rs1, rs2, rd),
            0b101 => sraw(curcpu, rs1, rs2, rd),
            _ => {
                return illegal;
            },
        };
        Ok(())
    } else {
        illegal
    }
}

/// The environment call or control/status instruction that `f3` and `f7` select.
fn decode_system(
    f3: u8,
    f7: u8,
    curcpu: &mut Cpu,
    rs1: RegIndex,
    rd: RegIndex,
    imm12: u32,
    illegal: Result<(), Fault>,
) -> (res: Result<(), Fault>)
    requires
        rs1 < 32,
        rd < 32,
    ensures
        if f3 == 0 {
            &&& final(curcpu)@ == old(curcpu)@
            &&& res == (if f7 == 0 {
                Ok::<(), Fault>(())
            } else {
                illegal
            })
        } else {
            match crate::isa::decode_csr(f3, rs1) {
                Some((op, source)) => res == Ok::<(), Fault>(()) && final(curcpu)@ == execute(
                    old(curcpu)@,
                    (Instr::Csr { op, rd, csr: csr_of(imm12), source }),
                ),
                None => res == illegal && final(curcpu)@ == old(curcpu)@,
            }
        },
{
    assert(rs1 & 0x1f == rs1) by (bit_vector)
        requires
            rs1 < 32,
    ;
    match f3 {
        0b000 => {
            if f7 == 0b0000000 {
                ecall_ebreak(imm12);
            } else {
                return illegal;
            }
        },
        0b001 => csrrw(curcpu, rs1, rd, imm12),
        0b010 => csrrs(curcpu, rs1, rd, imm12),
        0b011 => csrrc(curcpu, rs1, rd, imm12),
        0b101 => csrrwi(curcpu, rs1, rd, imm12),
        0b110 => csrrsi(curcpu, rs1, rd, imm12),
        0b111 => csrrci(curcpu, rs1, rd, imm12),
        _ => {
            return illegal;
        },
    };
    Ok(())
}

/// The offset of a jump from the 20-bit immediate of its word.
#[inline(always)]
pub fn decode_immediate_jtype(imm20: u32) -> (offset: i64)
    ensures
        offset == jtype_offset(imm20),
{
    let imm_20: u32 = (imm20 & 0x8_0000) << 1;
    let imm_19_12: u32 = (imm20 & 0xff) << 12;
    let imm_11: u32 = (imm20 & 0x100) << 3;
    let imm_10_1: u32 = (imm20 & 0x7_fe00) >> 8;

    sign_extend_field(imm_20 | imm_19_12 | imm_11 | imm_10_1, 21)
}

/// The offset of a branch from the two immediates of its word.
#[inline(always)]
pub fn decode_immediate_btype(imm5: u32, imm12: u32) -> (offset: i64)
    ensures
        offset == btype_offset(imm5, imm12),
{
    let imm_12: u32 = (imm12 & 0x800) << 1;
    let imm_11: u32 = (imm5 & 0x1) << 11;
    let imm_10_5: u32 = imm12 & 0x7e0;
    let imm_4_1: u32 = imm5 & 0x1e;

    sign_extend_field(imm_12 | imm_11 | imm_10_5 | imm_4_1, 13)
}

/// The offset of a store from the two immediates of its word.
#[inline(always)]
pub fn decode_immediate_stype(imm5: u32, imm12: u32) -> (offset: i64)
    ensures
        offset == stype_offset(imm5, imm12),
{
    sign_extend_field((imm12 & 0xfe0) | (imm5 & 0x1f), 12)
}

/// The value of an upper immediate from the 20-bit immediate of its word.
#[inline(always)]
pub fn decode_immediate_utype(imm20: u32) -> (value: i64)
    ensures
        value == utype_value(imm20),
{
    proof {
        lemma_sign_extend_widths(imm20 as int);
    }
    sign_extend_field(imm20, 20) * 0x1000
}

/// LUI instruction
/// rd <- the upper immediate, sign-extended
#[inline(always)]
pub fn lui(curcpu: &mut Cpu, rd: RegIndex, imm: u32)
    requires
        rd < 32,
    ensures
        final(curcpu)@ == execute(
            old(curcpu)@,
            (Instr::Lui { rd, imm: utype_value(imm) }),
        ),
{
    curcpu.write_reg(rd, from_signed64(decode_immediate_utype(imm)));
}

/// AUIPC instruction
/// rd <- pc + the upper immediate, sign-extended
#[inline(always)]
pub fn auipc(curcpu: &mut Cpu, rd: RegIndex, imm: u32)
    requires
        rd < 32,
    ensures
        final(curcpu)@ == execute(
            old(curcpu)@,
            (Instr::Auipc { rd, imm: utype_value(imm) }),
        ),
{
    // AUIPC adds an immediate to the current PC (the one that points to
    // this instruction)
    let upper: i64 = decode_immediate_utype(imm);
    let value: u64 = curcpu.get_pc().wrapping_add_signed(upper);
    curcpu.write_reg(rd, value);
}

/// JAL instruction
/// rd <- next pc, which is pc + 4 in a cycle
/// next pc <- pc + signed'immediate
#[inline(always)]
pub fn jal(curcpu: &mut Cpu, rd: RegIndex, imm: u32)
    requires
        rd < 32,
    ensures
        final(curcpu)@ == execute(
            old(curcpu)@,
            (Instr::Jal { rd, offset: jtype_offset(imm) }),
        ),
{
    // Next PC needs to be saved in rd
    if rd != Cpu::ZERO_REGISTER {
        let link: u64 = curcpu.get_next_pc();
        curcpu.write_reg(rd, link);
    }
    // The immediate - instead - needs to be added to this PC
    let imm64: i64 = decode_immediate_jtype(imm);
    curcpu.set_next_pc_rel(imm64);
}

/// JALR instruction
/// rd <- next pc, which is pc + 4 in a cycle
/// next pc <- (rs1 + signed'immediate) & !0x1, with rs1 read after rd was written
#[inline(always)]
pub fn jalr(curcpu: &mut Cpu, rs1: RegIndex, rd: RegIndex, imm: u32)
    requires
        rs1 < 32,
        rd < 32,
    ensures
        final(curcpu)@ == execute(
            old(curcpu)@,
            (Instr::Jalr { rd, rs1, imm: signed32(imm) }),
        ),
{
    if rd != Cpu::ZERO_REGISTER {
        let link: u64 = curcpu.get_next_pc();
        curcpu.write_reg(rd, link);
    }
    let target: u64 = effective_address(curcpu, rs1, to_signed32(imm));
    // Clear the lowest bit so that the resulting PC is always an even number
    curcpu.set_next_pc_abs(target - target % 2);
}

/// BEQ instruction
/// if (rs1 == rs2) { next pc <- pc + signed'immediate }
#[inline(always)]
pub fn beq(curcpu: &mut Cpu, rs1: RegIndex, rs2: RegIndex, imm5: u32, imm12: u32)
    requires
        rs1 < 32,
        rs2 < 32,
    ensures
        final(curcpu)@ == execute(
            old(curcpu)@,
            (Instr::Branch { op: BranchOp::Beq, rs1, rs2, offset: btype_offset(imm5, imm12) }),
        ),
{
    let imm64: i64 = decode_immediate_btype(imm5, imm12);
    let a: u64 = curcpu.read_reg(rs1);
    let b: u64 = curcpu.read_reg(rs2);

    if a == b {
        curcpu.set_next_pc_rel(imm64);
    }
}

/// BNE instruction
/// if (rs1 != rs2) { next pc <- pc + signed'immediate }
#[inline(always)]
pub fn bne(curcpu: &mut Cpu, rs1: RegIndex, rs2: RegIndex, imm5: u32, imm12: u32)
    requires
        rs1 < 32,
        rs2 < 32,
    ensures
        final(curcpu)@ == execute(
            old(curcpu)@,
            (Instr::Branch { op: BranchOp::Bne, rs1, rs2, offset: btype_offset(imm5, imm12) }),
        ),
{
    let imm64: i64 = decode_immediate_btype(imm5, imm12);
    let a: u64 = curcpu.read_reg(rs1);
    let b: u64 = curcpu.read_reg(rs2);

    if a != b {
        curcpu.set_next_pc_rel(imm64);
    }
}

/// BLT instruction
/// if (signed'rs1 < signed'rs2) { next pc <- pc + signed'immediate }
#[inline(always)]
pub fn blt(curcpu: &mut Cpu, rs1: RegIndex, rs2: RegIndex, imm5: u32, imm12: u32)
    requires
        rs1 < 32,
        rs2 < 32,
    ensures
        final(curcpu)@ == execute(
            old(curcpu)@,
            (Instr::Branch { op: BranchOp::Blt, rs1, rs2, offset: btype_offset(imm5, imm12) }),
        ),
{
    let imm64: i64 = decode_immediate_btype(imm5, imm12);
    let a: u64 = curcpu.read_reg(rs1);
    let b: u64 = curcpu.read_reg(rs2);

    if to_signed64(a) < to_signed64(b) {
        curcpu.set_next_pc_rel(imm64);
    }
}

/// BGE instruction
/// if (signed'rs1 >= signed'rs2) { next pc <- pc + signed'immediate }
#[inline(always)]
pub fn bge(curcpu: &mut Cpu, rs1: RegIndex, rs2: RegIndex, imm5: u32, imm12: u32)
    requires
        rs1 < 32,
        rs2 < 32,
    ensures
        final(curcpu)@ == execute(
            old(curcpu)@,
            (Instr::Branch { op: BranchOp::Bge, rs1, rs2, offset: btype_offset(imm5, imm12) }),
        ),
{
    let imm64: i64 = decode_immediate_btype(imm5, imm12);
    let a: u64 = curcpu.read_reg(rs1);
    let b: u64 = curcpu.read_reg(rs2);

    if to_signed64(a) >= to_signed64(b) {
        curcpu.set_next_pc_rel(imm64);
    }
}

/// BLTU instruction
/// if (unsigned'rs1 < unsigned'rs2) { next pc <- pc + signed'immediate }
#[inline(always)]
pub fn bltu(curcpu: &mut Cpu, rs1: RegIndex, rs2: RegIndex, imm5: u32, imm12: u32)
    requires
        rs1 < 32,
        rs2 < 32,
    ensures
        final(curcpu)@ == execute(
            old(curcpu)@,
            (Instr::Branch { op: BranchOp::Bltu, rs1, rs2, offset: btype_offset(imm5, imm12) }),
        ),
{
    let imm64: i64 = decode_immediate_btype(imm5, imm12);
    let a: u64 = curcpu.read_reg(rs1);
    let b: u64 = curcpu.read_reg(rs2);

    if a < b {
        curcpu.set_next_pc_rel(imm64);
    }
}

/// BGEU instruction
/// if (unsigned'rs1 >= unsigned'rs2) { next pc <- pc + signed'immediate }
#[inline(always)]
pub fn bgeu(curcpu: &mut Cpu, rs1: RegIndex, rs2: RegIndex, imm5: u32, imm12: u32)
    requires
        rs1 < 32,
        rs2 < 32,
    ensures
        final(curcpu)@ == execute(
            old(curcpu)@,
            (Instr::Branch { op: BranchOp::Bgeu, rs1, rs2, offset: btype_offset(imm5, imm12) }),
        ),
{
    let imm64: i64 = decode_immediate_btype(imm5, imm12);
    let a: u64 = curcpu.read_reg(rs1);
    let b: u64 = curcpu.read_reg(rs2);

    if a >= b {
        curcpu.set_next_pc_rel(imm64);
    }
}

/// LB instruction
/// rd <- signed'memory[rs1 + signed'imm][7:0]
#[inline(always)]
pub fn lb(curcpu: &mut Cpu, rs1: RegIndex, rd: RegIndex, imm12: u32)
    requires
        rs1 < 32,
        rd < 32,
        access_ok(old(curcpu)@, load_instr(AccessSize::BYTE, true, rs1, rd, imm12)),
    ensures
        final(curcpu)@ == execute(
            old(curcpu)@,
            load_instr(AccessSize::BYTE, true, rs1, rd, imm12),
        ),
{
    let addr: u64 = effective_address(curcpu, rs1, to_signed32(imm12));
    let data: i64 = sign_extend_field(curcpu.load(addr, AccessSize::BYTE) as u32, 8);
    curcpu.write_reg(rd, from_signed64(data));
}

/// LH instruction
/// rd <- signed'memory[rs1 + signed'imm][15:0]
#[inline(always)]
pub fn lh(curcpu: &mut Cpu, rs1: RegIndex, rd: RegIndex, imm12: u32)
    requires
        rs1 < 32,
        rd < 32,
        access_ok(old(curcpu)@, load_instr(AccessSize::HALFWORD, true, rs1, rd, imm12)),
    ensures
        final(curcpu)@ == execute(
            old(curcpu)@,
            load_instr(AccessSize::HALFWORD, true, rs1, rd, imm12),
        ),
{
    let addr: u64 = effective_address(curcpu, rs1, to_signed32(imm12));
    let data: i64 = sign_extend_field(curcpu.load(addr, AccessSize::HALFWORD) as u32, 16);
    curcpu.write_reg(rd, from_signed64(data));
}

/// LW instruction
/// rd <- signed'memory[rs1 + signed'imm][31:0]
#[inline(always)]
pub fn lw(curcpu: &mut Cpu, rs1: RegIndex, rd: RegIndex, imm12: u32)
    requires
        rs1 < 32,
        rd < 32,
        access_ok(old(curcpu)@, load_instr(AccessSize::WORD, true, rs1, rd, imm12)),
    ensures
        final(curcpu)@ == execute(
            old(curcpu)@,
            load_instr(AccessSize::WORD, true, rs1, rd, imm12),
        ),
{
    let addr: u64 = effective_address(curcpu, rs1, to_signed32(imm12));
    let data: i64 = sign_extend_field(curcpu.load(addr, AccessSize::WORD) as u32, 32);
    curcpu.write_reg(rd, from_signed64(data));
}

/// LD instruction
/// rd <- memory[rs1 + signed'imm][63:0]
#[inline(always)]
pub fn ld(curcpu: &mut Cpu, rs1: RegIndex, rd: RegIndex, imm12: u32)
    requires
        rs1 < 32,
        rd < 32,
        access_ok(old(curcpu)@, load_instr(AccessSize::DOUBLEWORD, true, rs1, rd, imm12)),
    ensures
        final(curcpu)@ == execute(
            old(curcpu)@,
            load_instr(AccessSize::DOUBLEWORD, true, rs1, rd, imm12),
        ),
{
    let addr: u64 = effective_address(curcpu, rs1, to_signed32(imm12));
    let data: u64 = curcpu.load(addr, AccessSize::DOUBLEWORD);
    proof {
        lemma_sign_extend_widths(data as int);
    }
    curcpu.write_reg(rd, data);
}

/// LBU instruction
/// rd <- unsigned'memory[rs1 + signed'imm][7:0]
#[inline(always)]
pub fn lbu(curcpu: &mut Cpu, rs1: RegIndex, rd: RegIndex, imm12: u32)
    requires
        rs1 < 32,
        rd < 32,
        access_ok(old(curcpu)@, load_instr(AccessSize::BYTE, false, rs1, rd, imm12)),
    ensures
        final(curcpu)@ == execute(
            old(curcpu)@,
            load_instr(AccessSize::BYTE, false, rs1, rd, imm12),
        ),
{
    let addr: u64 = effective_address(curcpu, rs1, to_signed32(imm12));
    let data: u64 = curcpu.load(addr, AccessSize::BYTE);
    curcpu.write_reg(rd, data);
}

/// LHU instruction
/// rd <- unsigned'memory[rs1 + signed'imm][15:0]
#[inline(always)]
pub fn lhu(curcpu: &mut Cpu, rs1: RegIndex, rd: RegIndex, imm12: u32)
    requires
        rs1 < 32,
        rd < 32,
        access_ok(old(curcpu)@, load_instr(AccessSize::HALFWORD, false, rs1, rd, imm12)),
    ensures
        final(curcpu)@ == execute(
            old(curcpu)@,
            load_instr(AccessSize::HALFWORD, false, rs1, rd, imm12),
        ),
{
    let addr: u64 = effective_address(curcpu, rs1, to_signed32(imm12));
    let data: u64 = curcpu.load(addr, AccessSize::HALFWORD);
    curcpu.write_reg(rd, data);
}

/// LWU instruction
/// rd <- unsigned'memory[rs1 + signed'imm][31:0]
#[inline(always)]
pub fn lwu(curcpu: &mut Cpu, rs1: RegIndex, rd: RegIndex, imm12: u32)
    requires
        rs1 < 32,
        rd < 32,
        access_ok(old(curcpu)@, load_instr(AccessSize::WORD, false, rs1, rd, imm12)),
    ensures
        final(curcpu)@ == execute(
            old(curcpu)@,
            load_instr(AccessSize::WORD, false, rs1, rd, imm12),
        ),
{
    let addr: u64 = effective_address(curcpu, rs1, to_signed32(imm12));
    let data: u64 = curcpu.load(addr, AccessSize::WORD);
    curcpu.write_reg(rd, data);
}

/// SB instruction
/// memory[rs1 + signed'imm] = rs2[7:0]
#[inline(always)]
pub fn sb(curcpu: &mut Cpu, rs1: RegIndex, imm12: u32, imm5: u32)
    requires
        rs1 < 32,
        access_ok(old(curcpu)@, store_instr(AccessSize::BYTE, rs1, imm12, imm5)),
    ensures
        final(curcpu)@ == execute(
            old(curcpu)@,
            store_instr(AccessSize::BYTE, rs1, imm12, imm5),
        ),
{
    let rs2: RegIndex = register_field(imm12);
    let data: u64 = curcpu.read_reg(rs2);
    let imm: i64 = decode_immediate_stype(imm5, imm12);
    let addr: u64 = effective_address(curcpu, rs1, imm);
    curcpu.store(data, addr, AccessSize::BYTE);
}

/// SH instruction
/// memory[rs1 + signed'imm] = rs2[15:0]
#[inline(always)]
pub fn sh(curcpu: &mut Cpu, rs1: RegIndex, imm12: u32, imm5: u32)
    requires
        rs1 < 32,
        access_ok(old(curcpu)@, store_instr(AccessSize::HALFWORD, rs1, imm12, imm5)),
    ensures
        final(curcpu)@ == execute(
            old(curcpu)@,
            store_instr(AccessSize::HALFWORD, rs1, imm12, imm5),
        ),
{
    let rs2: RegIndex = register_field(imm12);
    let data: u64 = curcpu.read_reg(rs2);
    let imm: i64 = decode_immediate_stype(imm5, imm12);
    let addr: u64 = effective_address(curcpu, rs1, imm);
    curcpu.store(data, addr, AccessSize::HALFWORD);
}

/// SW instruction
/// memory[rs1 + signed'imm] = rs2[31:0]
#[inline(always)]
pub fn sw(curcpu: &mut Cpu, rs1: RegIndex, imm12: u32, imm5: u32)
    requires
        rs1 < 32,
        access_ok(old(curcpu)@, store_instr(AccessSize::WORD, rs1, imm12, imm5)),
    ensures
        final(curcpu)@ == execute(
            old(curcpu)@,
            store_instr(AccessSize::WORD, rs1, imm12, imm5),
        ),
{
    let rs2: RegIndex = register_field(imm12);
    let data: u64 = curcpu.read_reg(rs2);
    let imm: i64 = decode_immediate_stype(imm5, imm12);
    let addr: u64 = effective_address(curcpu, rs1, imm);
    curcpu.store(data, addr, AccessSize::WORD);
}

/// SD instruction
/// memory[rs1 + signed'imm] = rs2[63:0]
#[inline(always)]
pub fn sd(curcpu: &mut Cpu, rs1: RegIndex, imm12: u32, imm5: u32)
    requires
        rs1 < 32,
        access_ok(old(curcpu)@, store_instr(AccessSize::DOUBLEWORD, rs1, imm12, imm5)),
    ensures
        final(curcpu)@ == execute(
            old(curcpu)@,
            store_instr(AccessSize::DOUBLEWORD, rs1, imm12, imm5),
        ),
{
    let rs2: RegIndex = register_field(imm12);
    let data: u64 = curcpu.read_reg(rs2);
    let imm: i64 = decode_immediate_stype(imm5, imm12);
    let addr: u64 = effective_address(curcpu, rs1, imm);
    curcpu.store(data, addr, AccessSize::DOUBLEWORD);
}

/// ADDI instruction
/// rd <- rs1 + imm
#[inline(always)]
pub fn addi(curcpu: &mut Cpu, rs1: RegIndex, rd: RegIndex, imm12: u32)
    requires
        rs1 < 32,
        rd < 32,
    ensures
        final(curcpu)@ == execute(
            old(curcpu)@,
            (Instr::OpImm { op: AluOp::Add, rd, rs1, imm: signed32(imm12) }),
        ),
{
    let a: u64 = curcpu.read_reg(rs1);
    let b: u64 = sign_extend_word(imm12);
    curcpu.write_reg(rd, a.wrapping_add(b));
}

/// SLTI instruction
/// rd <- (signed'rs1 < signed'imm) ? 1 : 0
#[inline(always)]
pub fn slti(curcpu: &mut Cpu, rs1: RegIndex, rd: RegIndex, imm12: u32)
    requires
        rs1 < 32,
        rd < 32,
    ensures
        final(curcpu)@ == execute(
            old(curcpu)@,
            (Instr::OpImm { op: AluOp::Slt, rd, rs1, imm: signed32(imm12) }),
        ),
{
    let a: u64 = curcpu.read_reg(rs1);
    let b: u64 = sign_extend_word(imm12);
    curcpu.write_reg(rd, if to_signed64(a) < to_signed64(b) { 0x1 } else { 0x0 });
}

/// SLTIU instruction
/// rd <- (unsigned'rs1 < unsigned'imm) ? 1 : 0
#[inline(always)]
pub fn sltiu(curcpu: &mut Cpu, rs1: RegIndex, rd: RegIndex, imm12: u32)
    requires
        rs1 < 32,
        rd < 32,
    ensures
        final(curcpu)@ == execute(
            old(curcpu)@,
            (Instr::OpImm { op: AluOp::Sltu, rd, rs1, imm: signed32(imm12) }),
        ),
{
    let a: u64 = curcpu.read_reg(rs1);
    let b: u64 = sign_extend_word(imm12);
    curcpu.write_reg(rd, if a < b { 0x1 } else { 0x0 });
}

/// XORI instruction
/// rd <- rs1 ^ imm
#[inline(always)]
pub fn xori(curcpu: &mut Cpu, rs1: RegIndex, rd: RegIndex, imm12: u32)
    requires
        rs1 < 32,
        rd < 32,
    ensures
        final(curcpu)@ == execute(
            old(curcpu)@,
            (Instr::OpImm { op: AluOp::Xor, rd, rs1, imm: signed32(imm12) }),
        ),
{
    let a: u64 = curcpu.read_reg(rs1);
    let b: u64 = sign_extend_word(imm12);
    curcpu.write_reg(rd, a ^ b);
}

/// ORI instruction
/// rd <- rs1 | imm
#[inline(always)]
pub fn ori(curcpu: &mut Cpu, rs1: RegIndex, rd: RegIndex, imm12: u32)
    requires
        rs1 < 32,
        rd < 32,
    ensures
        final(curcpu)@ == execute(
            old(curcpu)@,
            (Instr::OpImm { op: AluOp::Or, rd, rs1, imm: signed32(imm12) }),
        ),
{
    let a: u64 = curcpu.read_reg(rs1);
    let b: u64 = sign_extend_word(imm12);
    curcpu.write_reg(rd, a | b);
}

/// SLLI instruction
/// rd <- unsigned'rs1 << imm[5:0]
#[inline(always)]
pub fn slli(curcpu: &mut Cpu, rs1: RegIndex, rd: RegIndex, imm12: u32)
    requires
        rs1 < 32,
        rd < 32,
    ensures
        final(curcpu)@ == execute(
            old(curcpu)@,
            (Instr::OpImm { op: AluOp::Sll, rd, rs1, imm: signed32(imm12) }),
        ),
{
    let a: u64 = curcpu.read_reg(rs1);
    let b: u64 = sign_extend_word(imm12);
    curcpu.write_reg(rd, a << shift_amount(b));
}

/// SLLIW instruction
/// rd <- signed'(rs1[31:0] << imm[4:0])
#[inline(always)]
pub fn slliw(curcpu: &mut Cpu, rs1: RegIndex, rd: RegIndex, imm12: u32)
    requires
        rs1 < 32,
        rd < 32,
    ensures
        final(curcpu)@ == execute(
            old(curcpu)@,
            (Instr::OpImmW { op: AluWOp::Sllw, rd, rs1, imm: signed32(imm12) }),
        ),
{
    let a: u64 = curcpu.read_reg(rs1);
    let b: u64 = sign_extend_word(imm12);
    curcpu.write_reg(rd, sign_extend_word(low32(a) << word_shift_amount(b)));
}

/// SRLI and SRAI instruction
/// rd <- unsigned'rs1 >> imm[5:0] (SRLI)
/// rd <- signed'rs1 >> imm[5:0]   (SRAI)
#[inline(always)]
pub fn srli_srai(curcpu: &mut Cpu, rs1: RegIndex, rd: RegIndex, imm12: u32)
    requires
        rs1 < 32,
        rd < 32,
    ensures
        final(curcpu)@ == execute(
            old(curcpu)@,
            (Instr::OpImm {
                op: if (imm12 >> 10) & 1 == 1 {
                    AluOp::Sra
                } else {
                    AluOp::Srl
                },
                rd,
                rs1,
                imm: signed32(imm12),
            }),
        ),
{
    let a: u64 = curcpu.read_reg(rs1);
    let b: u64 = sign_extend_word(imm12);
    // if bit 10 of the immediate, which is bit 30 of the instruction, is
    // 0b1 -> SRAI, otherwise SRLI
    if (imm12 >> 10) & 1 == 0b1 {
        curcpu.write_reg(rd, ((a as i64) >> shift_amount(b)) as u64);
    } else {
        curcpu.write_reg(rd, a >> shift_amount(b));
    }
}

/// SRLIW and SRAIW instruction
/// rd <- signed'(unsigned'rs1[31:0] >> imm[4:0]) (SRLIW)
/// rd <- signed'(signed'rs1[31:0] >> imm[4:0])   (SRAIW)
#[inline(always)]
pub fn srliw_sraiw(curcpu: &mut Cpu, rs1: RegIndex, rd: RegIndex, imm12: u32)
    requires
        rs1 < 32,
        rd < 32,
    ensures
        final(curcpu)@ == execute(
            old(curcpu)@,
            (Instr::OpImmW {
                op: if (imm12 >> 10) & 1 == 1 {
                    AluWOp::Sraw
                } else {
                    AluWOp::Srlw
                },
                rd,
                rs1,
                imm: signed32(imm12),
            }),
        ),
{
    let a: u32 = low32(curcpu.read_reg(rs1));
    let b: u64 = sign_extend_word(imm12);
    // if bit 10 of the immediate, which is bit 30 of the instruction, is
    // 0b1 -> SRAIW, otherwise SRLIW
    if (imm12 >> 10) & 1 == 0b1 {
        curcpu.write_reg(rd, sign_extend_word(((a as i32) >> word_shift_amount(b)) as u32));
    } else {
        curcpu.write_reg(rd, sign_extend_word(a >> word_shift_amount(b)));
    }
}

/// ANDI instruction
/// rd <- rs1 & imm
#[inline(always)]
pub fn andi(curcpu: &mut Cpu, rs1: RegIndex, rd: RegIndex, imm12: u32)
    requires
        rs1 < 32,
        rd < 32,
    ensures
        final(curcpu)@ == execute(
            old(curcpu)@,
            (Instr::OpImm { op: AluOp::And, rd, rs1, imm: signed32(imm12) }),
        ),
{
    let a: u64 = curcpu.read_reg(rs1);
    let b: u64 = sign_extend_word(imm12);
    curcpu.write_reg(rd, a & b);
}

/// ADD instruction
/// rd <- rs1 + rs2
#[inline(always)]
pub fn add(curcpu: &mut Cpu, rs1: RegIndex, rs2: RegIndex, rd: RegIndex)
    requires
        rs1 < 32,
        rs2 < 32,
        rd < 32,
    ensures
        final(curcpu)@ == execute(
            old(curcpu)@,
            (Instr::Op { op: AluOp::Add, rd, rs1, rs2 }),
        ),
{
    let a: u64 = curcpu.read_reg(rs1);
    let b: u64 = curcpu.read_reg(rs2);
    curcpu.write_reg(rd, a.wrapping_add(b));
}

/// ADDW instruction
/// rd <- signed'(rs1[31:0] + rs2[31:0])
#[inline(always)]
pub fn addw(curcpu: &mut Cpu, rs1: RegIndex, rs2: RegIndex, rd: RegIndex)
    requires
        rs1 < 32,
        rs2 < 32,
        rd < 32,
    ensures
        final(curcpu)@ == execute(
            old(curcpu)@,
            (Instr::OpW { op: AluWOp::Addw, rd, rs1, rs2 }),
        ),
{
    let a: u64 = curcpu.read_reg(rs1);
    let b: u64 = curcpu.read_reg(rs2);
    curcpu.write_reg(rd, sign_extend_word(low32(a).wrapping_add(low32(b))));
}

/// SUB instruction
/// rd <- rs1 - rs2
#[inline(always)]
pub fn sub(curcpu: &mut Cpu, rs1: RegIndex, rs2: RegIndex, rd: RegIndex)
    requires
        rs1 < 32,
        rs2 < 32,
        rd < 32,
    ensures
        final(curcpu)@ == execute(
            old(curcpu)@,
            (Instr::Op { op: AluOp::Sub, rd, rs1, rs2 }),
        ),
{
    let a: u64 = curcpu.read_reg(rs1);
    let b: u64 = curcpu.read_reg(rs2);
    curcpu.write_reg(rd, a.wrapping_sub(b));
}

/// SUBW instruction
/// rd <- signed'(rs1[31:0] - rs2[31:0])
#[inline(always)]
pub fn subw(curcpu: &mut Cpu, rs1: RegIndex, rs2: RegIndex, rd: RegIndex)
    requires
        rs1 < 32,
        rs2 < 32,
        rd < 32,
    ensures
        final(curcpu)@ == execute(
            old(curcpu)@,
            (Instr::OpW { op: AluWOp::Subw, rd, rs1, rs2 }),
        ),
{
    let a: u64 = curcpu.read_reg(rs1);
    let b: u64 = curcpu.read_reg(rs2);
    curcpu.write_reg(rd, sign_extend_word(low32(a).wrapping_sub(low32(b))));
}

/// SLL instruction
/// rd <- rs1 << rs2[5:0]
#[inline(always)]
pub fn sll(curcpu: &mut Cpu, rs1: RegIndex, rs2: RegIndex, rd: RegIndex)
    requires
        rs1 < 32,
        rs2 < 32,
        rd < 32,
    ensures
        final(curcpu)@ == execute(
            old(curcpu)@,
            (Instr::Op { op: AluOp::Sll, rd, rs1, rs2 }),
        ),
{
    let a: u64 = curcpu.read_reg(rs1);
    let b: u64 = curcpu.read_reg(rs2);
    curcpu.write_reg(rd, a << shift_amount(b));
}

/// SLLW instruction
/// rd <- signed'(rs1[31:0] << rs2[4:0])
#[inline(always)]
pub fn sllw(curcpu: &mut Cpu, rs1: RegIndex, rs2: RegIndex, rd: RegIndex)
    requires
        rs1 < 32,
        rs2 < 32,
        rd < 32,
    ensures
        final(curcpu)@ == execute(
            old(curcpu)@,
            (Instr::OpW { op: AluWOp::Sllw, rd, rs1, rs2 }),
        ),
{
    let a: u64 = curcpu.read_reg(rs1);
    let b: u64 = curcpu.read_reg(rs2);
    curcpu.write_reg(rd, sign_extend_word(low32(a) << word_shift_amount(b)));
}

/// SLT instruction
/// rd <- (signed'rs1 < signed'rs2) ? 1 : 0
#[inline(always)]
pub fn slt(curcpu: &mut Cpu, rs1: RegIndex, rs2: RegIndex, rd: RegIndex)
    requires
        rs1 < 32,
        rs2 < 32,
        rd < 32,
    ensures
        final(curcpu)@ == execute(
            old(curcpu)@,
            (Instr::Op { op: AluOp::Slt, rd, rs1, rs2 }),
        ),
{
    let a: u64 = curcpu.read_reg(rs1);
    let b: u64 = curcpu.read_reg(rs2);
    curcpu.write_reg(rd, if to_signed64(a) < to_signed64(b) { 0b1 } else { 0b0 });
}

/// SLTU instruction
/// rd <- (unsigned'rs1 < unsigned'rs2) ? 1 : 0
#[inline(always)]
pub fn sltu(curcpu: &mut Cpu, rs1: RegIndex, rs2: RegIndex, rd: RegIndex)
    requires
        rs1 < 32,
        rs2 < 32,
        rd < 32,
    ensures
        final(curcpu)@ == execute(
            old(curcpu)@,
            (Instr::Op { op: AluOp::Sltu, rd, rs1, rs2 }),
        ),
{
    let a: u64 = curcpu.read_reg(rs1);
    let b: u64 = curcpu.read_reg(rs2);
    curcpu.write_reg(rd, if a < b { 0b1 } else { 0b0 });
}

/// XOR instruction
/// rd <- rs1 xor rs2
#[inline(always)]
pub fn xor(curcpu: &mut Cpu, rs1: RegIndex, rs2: RegIndex, rd: RegIndex)
    requires
        rs1 < 32,
        rs2 < 32,
        rd < 32,
    ensures
        final(curcpu)@ == execute(
            old(curcpu)@,
            (Instr::Op { op: AluOp::Xor, rd, rs1, rs2 }),
        ),
{
    let a: u64 = curcpu.read_reg(rs1);
    let b: u64 = curcpu.read_reg(rs2);
    curcpu.write_reg(rd, a ^ b);
}

/// OR instruction
/// rd <- rs1 or rs2
#[inline(always)]
pub fn or(curcpu: &mut Cpu, rs1: RegIndex, rs2: RegIndex, rd: RegIndex)
    requires
        rs1 < 32,
        rs2 < 32,
        rd < 32,
    ensures
        final(curcpu)@ == execute(
            old(curcpu)@,
            (Instr::Op { op: AluOp::Or, rd, rs1, rs2 }),
        ),
{
    let a: u64 = curcpu.read_reg(rs1);
    let b: u64 = curcpu.read_reg(rs2);
    curcpu.write_reg(rd, a | b);
}

/// AND instruction
/// rd <- rs1 and rs2
#[inline(always)]
pub fn and(curcpu: &mut Cpu, rs1: RegIndex, rs2: RegIndex, rd: RegIndex)
    requires
        rs1 < 32,
        rs2 < 32,
        rd < 32,
    ensures
        final(curcpu)@ == execute(
            old(curcpu)@,
            (Instr::Op { op: AluOp::And, rd, rs1, rs2 }),
        ),
{
    let a: u64 = curcpu.read_reg(rs1);
    let b: u64 = curcpu.read_reg(rs2);
    curcpu.write_reg(rd, a & b);
}

/// FENCE instruction
/// Does not do anything because the CPU executes memory accesses in the program order anyway
#[inline(always)]
pub fn fence() {
}

/// FENCEI instruction
/// Does not do anything because the CPU executes memory accesses in the program order anyway
#[inline(always)]
pub fn fencei() {
}

/// ECALL and EBREAK instruction
/// Decoded, without effect: EBREAK where bit 0 of the immediate is set, ECALL otherwise
pub fn ecall_ebreak(imm12: u32) {
    if imm12 & 0x1 == 0x1 {
        // EBREAK
    } else {
        // ECALL
    }
}

/// CSRRW instruction
/// rd <- csr[imm]
/// csr[imm] <- rs1
#[inline(always)]
pub fn csrrw(curcpu: &mut Cpu, rs1: RegIndex, rd: RegIndex, imm12: u32)
    requires
        rs1 < 32,
        rd < 32,
    ensures
        final(curcpu)@ == execute(
            old(curcpu)@,
            (Instr::Csr {
                op: CsrOp::Write,
                rd,
                csr: csr_of(imm12),
                source: CsrSource::Register(rs1),
            }),
        ),
{
    let csr: u16 = csr_index(imm12);
    let csr_data: u64 = curcpu.read_csreg(csr);
    if rd != Cpu::ZERO_REGISTER {
        curcpu.write_reg(rd, csr_data);
    }
    let source: u64 = curcpu.read_reg(rs1);
    curcpu.write_csreg(csr, source);
}

/// CSRRS instruction
/// rd <- csr[imm]
/// csr[imm] <- csr[imm] | rs1
#[inline(always)]
pub fn csrrs(curcpu: &mut Cpu, rs1: RegIndex, rd: RegIndex, imm12: u32)
    requires
        rs1 < 32,
        rd < 32,
    ensures
        final(curcpu)@ == execute(
            old(curcpu)@,
            (Instr::Csr {
                op: CsrOp::SetBits,
                rd,
                csr: csr_of(imm12),
                source: CsrSource::Register(rs1),
            }),
        ),
{
    let csr: u16 = csr_index(imm12);
    let csr_data: u64 = curcpu.read_csreg(csr);
    if rd != Cpu::ZERO_REGISTER {
        curcpu.write_reg(rd, csr_data);
    }
    let source: u64 = curcpu.read_reg(rs1);
    curcpu.write_csreg(csr, csr_data | source);
}

/// CSRRC instruction
/// rd <- csr[imm]
/// csr[imm] <- csr[imm] & !rs1 (clear bits in CSR where rs1 = 1)
#[inline(always)]
pub fn csrrc(curcpu: &mut Cpu, rs1: RegIndex, rd: RegIndex, imm12: u32)
    requires
        rs1 < 32,
        rd < 32,
    ensures
        final(curcpu)@ == execute(
            old(curcpu)@,
            (Instr::Csr {
                op: CsrOp::ClearBits,
                rd,
                csr: csr_of(imm12),
                source: CsrSource::Register(rs1),
            }),
        ),
{
    let csr: u16 = csr_index(imm12);
    let csr_data: u64 = curcpu.read_csreg(csr);
    if rd != Cpu::ZERO_REGISTER {
        curcpu.write_reg(rd, csr_data);
    }
    let source: u64 = curcpu.read_reg(rs1);
    curcpu.write_csreg(csr, csr_data & !source);
}

/// CSRRWI instruction
/// rd <- csr[imm]
/// csr[imm] <- unsigned'rs1[4:0]
#[inline(always)]
pub fn csrrwi(curcpu: &mut Cpu, rs1: u8, rd: RegIndex, imm12: u32)
    requires
        rd < 32,
    ensures
        final(curcpu)@ == execute(
            old(curcpu)@,
            (Instr::Csr {
                op: CsrOp::Write,
                rd,
                csr: csr_of(imm12),
                source: CsrSource::Immediate(rs1 & 0x1f),
            }),
        ),
{
    let csr: u16 = csr_index(imm12);
    let csr_data: u64 = curcpu.read_csreg(csr);
    if rd != Cpu::ZERO_REGISTER {
        curcpu.write_reg(rd, csr_data);
    }
    let source: u64 = csr_immediate(rs1) as u64;
    curcpu.write_csreg(csr, source);
}

/// CSRRSI instruction
/// rd <- csr[imm]
/// csr[imm] <- csr[imm] | unsigned'rs1[4:0]
#[inline(always)]
pub fn csrrsi(curcpu: &mut Cpu, rs1: u8, rd: RegIndex, imm12: u32)
    requires
        rd < 32,
    ensures
        final(curcpu)@ == execute(
            old(curcpu)@,
            (Instr::Csr {
                op: CsrOp::SetBits,
                rd,
                csr: csr_of(imm12),
                source: CsrSource::Immediate(rs1 & 0x1f),
            }),
        ),
{
    let csr: u16 = csr_index(imm12);
    let csr_data: u64 = curcpu.read_csreg(csr);
    if rd != Cpu::ZERO_REGISTER {
        curcpu.write_reg(rd, csr_data);
    }
    let source: u64 = csr_immediate(rs1) as u64;
    curcpu.write_csreg(csr, csr_data | source);
}

/// CSRRCI instruction
/// rd <- csr[imm]
/// csr[imm] <- csr[imm] & !unsigned'rs1[4:0]
#[inline(always)]
pub fn csrrci(curcpu: &mut Cpu, rs1: u8, rd: RegIndex, imm12: u32)
    requires
        rd < 32,
    ensures
        final(curcpu)@ == execute(
            old(curcpu)@,
            (Instr::Csr {
                op: CsrOp::ClearBits,
                rd,
                csr: csr_of(imm12),
                source: CsrSource::Immediate(rs1 & 0x1f),
            }),
        ),
{
    let csr: u16 = csr_index(imm12);
    let csr_data: u64 = curcpu.read_csreg(csr);
    if rd != Cpu::ZERO_REGISTER {
        curcpu.write_reg(rd, csr_data);
    }
    let source: u64 = csr_immediate(rs1) as u64;
    curcpu.write_csreg(csr, csr_data & !source);
}

/// SRL instruction
/// rd <- rs1 >> rs2[5:0]
#[inline(always)]
pub fn srl(curcpu: &mut Cpu, rs1: RegIndex, rs2: RegIndex, rd: RegIndex)
    requires
        rs1 < 32,
        rs2 < 32,
        rd < 32,
    ensures
        final(curcpu)@ == execute(
            old(curcpu)@,
            (Instr::Op { op: AluOp::Srl, rd, rs1, rs2 }),
        ),
{
    let a: u64 = curcpu.read_reg(rs1);
    let b: u64 = curcpu.read_reg(rs2);
    curcpu.write_reg(rd, a >> shift_amount(b));
}

/// SRLW instruction
/// rd <- signed'(unsigned'rs1[31:0] >> rs2[4:0])
#[inline(always)]
pub fn srlw(curcpu: &mut Cpu, rs1: RegIndex, rs2: RegIndex, rd: RegIndex)
    requires
        rs1 < 32,
        rs2 < 32,
        rd < 32,
    ensures
        final(curcpu)@ == execute(
            old(curcpu)@,
            (Instr::OpW { op: AluWOp::Srlw, rd, rs1, rs2 }),
        ),
{
    let a: u64 = curcpu.read_reg(rs1);
    let b: u64 = curcpu.read_reg(rs2);
    curcpu.write_reg(rd, sign_extend_word(low32(a) >> word_shift_amount(b)));
}

/// SRA instruction
/// rd <- signed'rs1 >> rs2[5:0]
#[inline(always)]
pub fn sra(curcpu: &mut Cpu, rs1: RegIndex, rs2: RegIndex, rd: RegIndex)
    requires
        rs1 < 32,
        rs2 < 32,
        rd < 32,
    ensures
        final(curcpu)@ == execute(
            old(curcpu)@,
            (Instr::Op { op: AluOp::Sra, rd, rs1, rs2 }),
        ),
{
    let a: u64 = curcpu.read_reg(rs1);
    let b: u64 = curcpu.read_reg(rs2);
    curcpu.write_reg(rd, ((a as i64) >> shift_amount(b)) as u64);
}

/// SRAW instruction
/// rd <- signed'(signed'rs1[31:0] >> rs2[4:0])
#[inline(always)]
pub fn sraw(curcpu: &mut Cpu, rs1: RegIndex, rs2: RegIndex, rd: RegIndex)
    requires
        rs1 < 32,
        rs2 < 32,
        rd < 32,
    ensures
        final(curcpu)@ == execute(
            old(curcpu)@,
            (Instr::OpW { op: AluWOp::Sraw, rd, rs1, rs2 }),
        ),
{
    let a: u64 = curcpu.read_reg(rs1);
    let b: u64 = curcpu.read_reg(rs2);
    curcpu.write_reg(rd, sign_extend_word(((low32(a) as i32) >> word_shift_amount(b)) as u32));
}

/// ADDIW instruction
/// rd <- signed'(rs1[31:0] + imm[31:0])
#[inline(always)]
pub fn addiw(curcpu: &mut Cpu, rs1: RegIndex, rd: RegIndex, imm12: u32)
    requires
        rs1 < 32,
        rd < 32,
    ensures
        final(curcpu)@ == execute(
            old(curcpu)@,
            (Instr::OpImmW { op: AluWOp::Addw, rd, rs1, imm: signed32(imm12) }),
        ),
{
    let a: u64 = curcpu.read_reg(rs1);
    let b: u64 = sign_extend_word(imm12);
    curcpu.write_reg(rd, sign_extend_word(low32(a).wrapping_add(low32(b))));
}

} // verus!
