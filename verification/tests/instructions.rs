use riviera::cpu::Cpu;
use riviera::machine::Fault;
use riviera::memory::AccessSize;
use riviera::rv::decode;

const SENTINEL: u64 = 0xffff_ffff_ffff_fffe;
const MINUS_ONE: u64 = 0xffff_ffff_ffff_ffff;
const DRAM: u64 = 0x0002_0000;

// Encoders of instruction words.

fn r_type(f7: u32, rs2: u32, rs1: u32, f3: u32, rd: u32, opcode: u32) -> u32 {
    (f7 << 25) | (rs2 << 20) | (rs1 << 15) | (f3 << 12) | (rd << 7) | opcode
}

fn i_type(imm: i32, rs1: u32, f3: u32, rd: u32, opcode: u32) -> u32 {
    (((imm as u32) & 0xfff) << 20) | (rs1 << 15) | (f3 << 12) | (rd << 7) | opcode
}

fn s_type(imm: i32, rs2: u32, rs1: u32, f3: u32) -> u32 {
    let imm = imm as u32;
    (((imm >> 5) & 0x7f) << 25) | (rs2 << 20) | (rs1 << 15) | (f3 << 12) | ((imm & 0x1f) << 7)
        | 0b0100011
}

fn b_type(imm: i32, rs2: u32, rs1: u32, f3: u32) -> u32 {
    let imm = imm as u32;
    (((imm >> 12) & 1) << 31) | (((imm >> 5) & 0x3f) << 25) | (rs2 << 20) | (rs1 << 15)
        | (f3 << 12) | (((imm >> 1) & 0xf) << 8) | (((imm >> 11) & 1) << 7) | 0b1100011
}

fn u_type(imm20: u32, rd: u32, opcode: u32) -> u32 {
    ((imm20 & 0xf_ffff) << 12) | (rd << 7) | opcode
}

fn j_type(imm: i32, rd: u32) -> u32 {
    let imm = imm as u32;
    (((imm >> 20) & 1) << 31) | (((imm >> 1) & 0x3ff) << 21) | (((imm >> 11) & 1) << 20)
        | (((imm >> 12) & 0xff) << 12) | (rd << 7) | 0b1101111
}

fn addi(rd: u32, rs1: u32, imm: i32) -> u32 {
    i_type(imm, rs1, 0b000, rd, 0b0010011)
}

fn ret() -> u32 {
    i_type(0, 1, 0b000, 0, 0b1100111)
}

/// A processor with 4096 bytes of DRAM, `program` at address 0, the
/// sentinel in `ra` and the stack pointer at the end of the DRAM.
fn machine(program: &[u32]) -> Cpu {
    let mut cpu = Cpu::new(Some(4096));
    let mut bytes: Vec<u8> = Vec::new();
    for word in program {
        bytes.extend_from_slice(&word.to_le_bytes());
    }
    cpu.store_from_buffer(&bytes, 0);
    cpu.write_reg(1, SENTINEL);
    cpu.set_stack_pointer(DRAM + 4096);
    cpu
}

/// Executes one register-register instruction on the operands `a` and `b`
/// and returns what it wrote.
fn exec_r(f7: u32, f3: u32, opcode: u32, a: u64, b: u64) -> u64 {
    let mut cpu = Cpu::new(None);
    cpu.write_reg(5, a);
    cpu.write_reg(6, b);
    assert_eq!(decode(r_type(f7, 6, 5, f3, 7, opcode), &mut cpu), Ok(()));
    cpu.read_reg(7)
}

/// Executes one register-immediate instruction on the operand `a` and
/// returns what it wrote.
fn exec_i(imm: i32, f3: u32, opcode: u32, a: u64) -> u64 {
    let mut cpu = Cpu::new(None);
    cpu.write_reg(5, a);
    assert_eq!(decode(i_type(imm, 5, f3, 7, opcode), &mut cpu), Ok(()));
    cpu.read_reg(7)
}

const OP: u32 = 0b0110011;
const OP_IMM: u32 = 0b0010011;
const OP_32: u32 = 0b0111011;
const OP_IMM_32: u32 = 0b0011011;

#[test]
fn add_test() {
    let mut cpu: Cpu = Cpu::new(None);
    let first_op: u64 = 45;
    let second_op: u64 = 50;
    let result = first_op.wrapping_add(second_op);
    cpu.write_reg(1, first_op);
    cpu.write_reg(2, second_op);
    riviera::rv::add(&mut cpu, 0x1, 0x2, 0x3);
    assert_eq!(cpu.read_reg(3), result);
}

#[test]
fn sub_test() {
    let mut cpu: Cpu = Cpu::new(None);
    let first_op: u64 = 40;
    let second_op: u64 = 45;
    let result = first_op.wrapping_sub(second_op);
    cpu.write_reg(1, first_op);
    cpu.write_reg(2, second_op);
    riviera::rv::sub(&mut cpu, 0x1, 0x2, 0x3);
    assert_eq!(cpu.read_reg(3), result);
}

#[test]
fn jal_test() {
    let mut cpu: Cpu = Cpu::new(None);
    let result = cpu.get_pc().wrapping_sub(10);
    let imm_minus_five: u32 = 0b111111111111_1_1111111011_1_11111111;
    riviera::rv::jal(&mut cpu, 0x1, imm_minus_five);
    assert_eq!(cpu.get_next_pc(), result);
}

#[test]
fn beq_test() {
    let mut cpu: Cpu = Cpu::new(None);
    cpu.set_pc(6);
    let result: u64 = cpu.get_pc().wrapping_sub(12);
    let imm12: u32 = 0b11111111111111111111111111100000 as u32;
    let imm5: u32 = 0b10101;
    cpu.write_reg(1, 3);
    cpu.write_reg(2, 3);
    riviera::rv::beq(&mut cpu, 0x1, 0x2, imm5, imm12);
    assert_eq!(cpu.get_next_pc(), result);
}

#[test]
fn bne_test() {
    let mut cpu: Cpu = Cpu::new(None);
    cpu.set_pc(6);
    let result: u64 = cpu.get_pc().wrapping_sub(12);
    let imm12: u32 = 0b11111111111111111111111111100000 as u32;
    let imm5: u32 = 0b10101;
    cpu.write_reg(1, 4);
    cpu.write_reg(2, 3);
    riviera::rv::bne(&mut cpu, 0x1, 0x2, imm5, imm12);
    assert_eq!(cpu.get_next_pc(), result);
}

#[test]
fn load_test() {
    let mut cpu: Cpu = Cpu::new(None);
    cpu.store(0xdeadbeef, 0x2, AccessSize::WORD);
    riviera::rv::lh(&mut cpu, 0x1, 0x2, 0x4);
    assert_eq!(cpu.read_reg(0x2), 0xffffffffffffdead);
}

#[test]
fn store_test() {
    let mut cpu: Cpu = Cpu::new(None);
    cpu.write_reg(0x1, 0xef);
    riviera::rv::sb(&mut cpu, 0x0, 0x1, 0x4);
    riviera::rv::lbu(&mut cpu, 0x0, 0x2, 0x4);
    assert_eq!(cpu.read_reg(0x1), cpu.read_reg(0x2));
}

// Register 0.

#[test]
fn zero_register_reads_zero_after_a_write() {
    let mut cpu = Cpu::new(None);
    cpu.write_reg(0, 7);
    assert_eq!(cpu.read_reg(0), 0);
    assert_eq!(cpu.get_last_used_register(), 0);
}

#[test]
fn zero_register_write_is_ignored_by_a_program() {
    // ADDI x0, x0, 7; RET
    let mut cpu = machine(&[addi(0, 0, 7), ret()]);
    assert_eq!(cpu.cpu_loop(), Ok(2));
    assert_eq!(cpu.read_reg(0), 0);
}

#[test]
fn zero_register_as_source_is_zero() {
    let mut cpu = Cpu::new(None);
    cpu.write_reg(0, 99);
    assert_eq!(decode(addi(5, 0, 1), &mut cpu), Ok(()));
    assert_eq!(cpu.read_reg(5), 1);
}

// The cycle and the program counter.

#[test]
fn cycle_advances_pc_by_four() {
    let mut cpu = machine(&[addi(5, 0, 1), addi(6, 0, 2)]);
    assert_eq!(cpu.cycle(), Ok(()));
    assert_eq!(cpu.get_pc(), 4);
    assert_eq!(cpu.get_next_pc(), 4);
    assert_eq!(cpu.cycle(), Ok(()));
    assert_eq!(cpu.get_pc(), 8);
    assert_eq!(cpu.get_next_pc(), 8);
}

#[test]
fn cycle_follows_a_jump() {
    // JAL x5, +16
    let mut cpu = machine(&[j_type(16, 5)]);
    assert_eq!(cpu.cycle(), Ok(()));
    assert_eq!(cpu.get_pc(), 16);
    assert_eq!(cpu.get_pc(), cpu.get_next_pc());
    assert_eq!(cpu.read_reg(5), 4);
}

#[test]
fn pc_wraps_at_the_end_of_the_address_space() {
    let mut cpu = Cpu::new(Some(16));
    cpu.set_read_write_segment(0xffff_ffff_ffff_fff0);
    cpu.store(addi(5, 0, 1) as u64, 0xffff_ffff_ffff_fffc, AccessSize::WORD);
    cpu.set_pc(0xffff_ffff_ffff_fffc);
    assert_eq!(cpu.cycle(), Ok(()));
    assert_eq!(cpu.get_pc(), 0);
    assert_eq!(cpu.read_reg(5), 1);
}

// Runs.

#[test]
fn run_of_a_halted_processor_executes_nothing() {
    let mut cpu = machine(&[ret()]);
    cpu.set_pc(SENTINEL);
    assert_eq!(cpu.cpu_loop(), Ok(0));
    assert_eq!(cpu.get_pc(), SENTINEL);
}

#[test]
fn run_counts_the_instructions_before_the_halt() {
    let mut cpu = machine(&[addi(5, 0, 1), addi(5, 5, 1), addi(5, 5, 1), ret()]);
    assert_eq!(cpu.cpu_loop(), Ok(4));
    assert_eq!(cpu.read_reg(5), 3);
    assert_eq!(cpu.get_pc(), SENTINEL);
}

#[test]
fn steps_stop_at_the_limit() {
    let mut cpu = machine(&[addi(5, 0, 1), addi(5, 5, 1), addi(5, 5, 1), ret()]);
    assert_eq!(cpu.cpu_loop_interactive(2), Ok(2));
    assert_eq!(cpu.read_reg(5), 2);
    assert_eq!(cpu.get_pc(), 8);
    assert_eq!(cpu.cpu_loop_interactive(0), Ok(0));
    assert_eq!(cpu.get_pc(), 8);
}

#[test]
fn steps_stop_at_the_halt() {
    let mut cpu = machine(&[addi(5, 0, 1), ret()]);
    assert_eq!(cpu.cpu_loop_interactive(10), Ok(2));
    assert_eq!(cpu.get_pc(), SENTINEL);
    assert_eq!(cpu.cpu_loop_interactive(10), Ok(0));
}

// Faults.

#[test]
fn illegal_instruction_is_reported_and_changes_nothing() {
    let mut cpu = machine(&[addi(5, 0, 1), 0xffff_ffff]);
    assert_eq!(cpu.cpu_loop(), Err(Fault::IllegalInstruction { word: 0xffff_ffff, pc: 4 }));
    assert_eq!(cpu.get_pc(), 4);
    assert_eq!(cpu.get_next_pc(), 4);
    assert_eq!(cpu.read_reg(5), 1);
}

#[test]
fn word_of_zeros_is_illegal() {
    let mut cpu = Cpu::new(None);
    assert_eq!(decode(0, &mut cpu), Err(Fault::IllegalInstruction { word: 0, pc: 0 }));
}

#[test]
fn unsupported_function_codes_are_illegal() {
    let mut cpu = Cpu::new(None);
    let words = [
        // MUL x7, x5, x6: funct7 1 is the M extension
        r_type(1, 6, 5, 0, 7, OP),
        // funct7 0x20 with a funct3 other than ADD/SUB and SRL/SRA
        r_type(0x20, 6, 5, 1, 7, OP),
        // JALR with funct3 1
        i_type(0, 5, 1, 7, 0b1100111),
        // branch with funct3 2
        b_type(8, 6, 5, 2),
        // load with funct3 7
        i_type(0, 5, 7, 7, 0b0000011),
        // store with funct3 4
        s_type(0, 6, 5, 4),
        // FENCE with funct3 2
        i_type(0, 0, 2, 0, 0b0001111),
        // MRET: system with funct3 0 and funct7 0x18
        r_type(0x18, 2, 0, 0, 0, 0b1110011),
        // system with funct3 4
        i_type(0x300, 5, 4, 7, 0b1110011),
        // SLLIW with funct7 1
        r_type(1, 3, 5, 1, 7, OP_IMM_32),
        // word immediate with funct3 2
        i_type(0, 5, 2, 7, OP_IMM_32),
        // SLTW does not exist
        r_type(0, 6, 5, 2, 7, OP_32),
    ];
    for word in words {
        assert_eq!(decode(word, &mut cpu), Err(Fault::IllegalInstruction { word, pc: 0 }));
    }
}

#[test]
fn fetch_outside_memory_is_reported() {
    let mut cpu = Cpu::new(Some(4096));
    cpu.set_pc(0x400);
    assert_eq!(cpu.cycle(), Err(Fault::OutOfBounds { addr: 0x400, pc: 0x400 }));
    cpu.set_pc(0x3fd);
    assert_eq!(cpu.cycle(), Err(Fault::OutOfBounds { addr: 0x3fd, pc: 0x3fd }));
    assert_eq!(cpu.get_pc(), 0x3fd);
}

#[test]
fn load_outside_memory_is_reported_and_changes_nothing() {
    // LD x7, 0(sp) with sp at the end of the DRAM
    let mut cpu = machine(&[i_type(0, 2, 0b011, 7, 0b0000011)]);
    cpu.write_reg(7, 11);
    assert_eq!(cpu.cpu_loop(), Err(Fault::OutOfBounds { addr: DRAM + 4096, pc: 0 }));
    assert_eq!(cpu.read_reg(7), 11);
    assert_eq!(cpu.get_pc(), 0);
    assert_eq!(cpu.get_next_pc(), 0);
}

#[test]
fn store_outside_memory_is_reported() {
    // SW x5, -4(x0): the address wraps to the end of the address space
    let mut cpu = machine(&[s_type(-4, 5, 0, 0b010)]);
    assert_eq!(cpu.cpu_loop(), Err(Fault::OutOfBounds { addr: 0xffff_ffff_ffff_fffc, pc: 0 }));
}

#[test]
fn access_that_runs_over_the_end_of_a_region_is_refused() {
    let cpu = Cpu::new(Some(4096));
    assert!(cpu.is_mapped(DRAM + 4088, AccessSize::DOUBLEWORD));
    assert!(!cpu.is_mapped(DRAM + 4089, AccessSize::DOUBLEWORD));
    assert!(cpu.is_mapped(DRAM + 4095, AccessSize::BYTE));
    assert!(!cpu.is_mapped(DRAM + 4096, AccessSize::BYTE));
    assert!(cpu.is_mapped(1020, AccessSize::WORD));
    assert!(!cpu.is_mapped(1021, AccessSize::WORD));
    assert!(!cpu.is_mapped(1024, AccessSize::BYTE));
}

// End-to-end programs.

#[test]
fn program_with_arithmetic_and_a_jump_to_an_odd_target() {
    // ADDI x1, x0, 5; ADDI x2, x1, 37; ADD x3, x1, x2; JALR x0, x1, -4; RET
    let mut cpu = machine(
        &[
            addi(1, 0, 5),
            addi(2, 1, 37),
            r_type(0, 2, 1, 0, 3, OP),
            i_type(-4, 1, 0, 0, 0b1100111),
            ret(),
        ],
    );
    assert_eq!(cpu.cpu_loop_interactive(4), Ok(4));
    assert_eq!(cpu.read_reg(1), 5);
    assert_eq!(cpu.read_reg(2), 42);
    assert_eq!(cpu.read_reg(3), 47);
    // 5 - 4 is odd: the jump clears bit 0
    assert_eq!(cpu.get_pc(), 0);
    assert_eq!(cpu.cpu_loop_interactive(1), Ok(1));
    assert_eq!(cpu.read_reg(1), 5);
    assert_eq!(cpu.read_reg(2), 42);
    assert_eq!(cpu.read_reg(3), 47);
}

#[test]
fn program_that_builds_a_constant() {
    // LUI x5, 0xDEAD0; ADDI x5, x5, 0xBEF; RET
    // Both immediates are sign-extended: the first gives 0xFFFFFFFFDEAD0000,
    // the second subtracts 0x411.
    let mut cpu = machine(&[u_type(0xdead0, 5, 0b0110111), addi(5, 5, 0xbef), ret()]);
    assert_eq!(cpu.cpu_loop(), Ok(3));
    assert_eq!(cpu.read_reg(5), 0xffff_ffff_dead_0000u64.wrapping_sub(0x411));
    assert_eq!(cpu.read_reg(5), 0xffff_ffff_deac_fbef);
}

#[test]
fn program_that_builds_a_constant_with_a_carry() {
    // LUI x5, 0xDEAD1; ADDI x5, x5, -0x411; RET
    let mut cpu = machine(&[u_type(0xdead1, 5, 0b0110111), addi(5, 5, -0x411), ret()]);
    assert_eq!(cpu.cpu_loop(), Ok(3));
    assert_eq!(cpu.read_reg(5), 0xffff_ffff_dead_0bef);
}

#[test]
fn program_with_a_store_and_a_load_on_the_stack() {
    // ADDI sp, sp, -8; LUI x6, 0x12345; ADDI x6, x6, 0x678; SD x6, 0(sp); LD x7, 0(sp); RET
    let mut cpu = machine(
        &[
            addi(2, 2, -8),
            u_type(0x12345, 6, 0b0110111),
            addi(6, 6, 0x678),
            s_type(0, 6, 2, 0b011),
            i_type(0, 2, 0b011, 7, 0b0000011),
            ret(),
        ],
    );
    assert_eq!(cpu.cpu_loop(), Ok(6));
    assert_eq!(cpu.read_reg(6), 0x1234_5678);
    assert_eq!(cpu.read_reg(7), cpu.read_reg(6));
    assert_eq!(cpu.read_reg(2), DRAM + 4096 - 8);
    assert_eq!(cpu.load(DRAM + 4088, AccessSize::DOUBLEWORD), 0x1234_5678);
}

#[test]
fn program_with_a_branch_taken_forward() {
    // with x1 = 1 and x2 = 1: BEQ x1, x2, +8; ADDI x3, x0, 1; ADDI x3, x0, 2; RET
    let mut cpu = machine(&[b_type(8, 2, 1, 0b000), addi(3, 0, 1), addi(3, 0, 2), ret()]);
    cpu.write_reg(1, 1);
    cpu.write_reg(2, 1);
    assert_eq!(cpu.cpu_loop_interactive(2), Ok(2));
    assert_eq!(cpu.read_reg(3), 2);
    assert_eq!(cpu.get_pc(), 12);
}

#[test]
fn program_with_a_branch_taken_forward_that_returns() {
    // with x5 = 1 and x6 = 1: BEQ x5, x6, +8; ADDI x7, x0, 1; ADDI x7, x0, 2; RET
    let mut cpu = machine(&[b_type(8, 6, 5, 0b000), addi(7, 0, 1), addi(7, 0, 2), ret()]);
    cpu.write_reg(5, 1);
    cpu.write_reg(6, 1);
    assert_eq!(cpu.cpu_loop(), Ok(3));
    assert_eq!(cpu.read_reg(7), 2);
}

#[test]
fn program_with_a_branch_not_taken() {
    let mut cpu = machine(&[b_type(8, 6, 5, 0b000), addi(7, 0, 1), ret()]);
    cpu.write_reg(5, 1);
    cpu.write_reg(6, 2);
    assert_eq!(cpu.cpu_loop(), Ok(3));
    assert_eq!(cpu.read_reg(7), 1);
}

#[test]
fn program_with_a_word_addition() {
    // ADDI x1, x0, -1; ADDIW x2, x1, 1; RET
    // x1 holds -1, which with bit 0 cleared is the sentinel
    let mut cpu = machine(&[addi(1, 0, -1), i_type(1, 1, 0, 2, OP_IMM_32), ret()]);
    assert_eq!(cpu.cpu_loop(), Ok(3));
    assert_eq!(cpu.read_reg(1), MINUS_ONE);
    assert_eq!(cpu.read_reg(2), 0);
}

#[test]
fn program_with_a_backward_loop() {
    // ADDI x5, x0, 3; ADDI x6, x6, 10; ADDI x5, x5, -1; BNE x5, x0, -8; RET
    let mut cpu = machine(
        &[addi(5, 0, 3), addi(6, 6, 10), addi(5, 5, -1), b_type(-8, 0, 5, 0b001), ret()],
    );
    assert_eq!(cpu.cpu_loop(), Ok(11));
    assert_eq!(cpu.read_reg(6), 30);
    assert_eq!(cpu.read_reg(5), 0);
}

#[test]
fn program_with_a_call_and_a_return() {
    // 0: JAL x5, +12; 4: ADDI x6, x6, 1; 8: RET; 12: ADDI x6, x0, 40; 16: JALR x0, x5, 0
    let mut cpu = machine(
        &[j_type(12, 5), addi(6, 6, 1), ret(), addi(6, 0, 40), i_type(0, 5, 0, 0, 0b1100111)],
    );
    assert_eq!(cpu.cpu_loop(), Ok(5));
    assert_eq!(cpu.read_reg(5), 4);
    assert_eq!(cpu.read_reg(6), 41);
}

// Arithmetic and logic on full registers.

#[test]
fn add_and_sub_wrap() {
    assert_eq!(exec_r(0, 0, OP, MINUS_ONE, 2), 1);
    assert_eq!(exec_r(0, 0, OP, 1 << 63, 1 << 63), 0);
    assert_eq!(exec_r(0x20, 0, OP, 0, 1), MINUS_ONE);
    assert_eq!(exec_r(0x20, 0, OP, 1 << 63, 1), (1 << 63) - 1);
    assert_eq!(exec_i(-1, 0, OP_IMM, 0), MINUS_ONE);
    assert_eq!(exec_i(2047, 0, OP_IMM, MINUS_ONE), 2046);
    assert_eq!(exec_i(-2048, 0, OP_IMM, 0), 0xffff_ffff_ffff_f800);
}

#[test]
fn logic_operations() {
    let a = 0xf0f0_f0f0_1234_5678;
    let b = 0x0ff0_0ff0_ffff_0000;
    assert_eq!(exec_r(0, 4, OP, a, b), a ^ b);
    assert_eq!(exec_r(0, 6, OP, a, b), a | b);
    assert_eq!(exec_r(0, 7, OP, a, b), a & b);
    // the immediates are sign-extended to 64 bits
    assert_eq!(exec_i(-1, 4, OP_IMM, a), !a);
    assert_eq!(exec_i(-256, 6, OP_IMM, a), a | 0xffff_ffff_ffff_ff00);
    assert_eq!(exec_i(-256, 7, OP_IMM, a), a & 0xffff_ffff_ffff_ff00);
    assert_eq!(exec_i(0x0ff, 7, OP_IMM, a), 0x78);
}

#[test]
fn shifts_by_zero_and_by_sixty_three() {
    let a = 0x8000_0000_0000_0001;
    // SLL
    assert_eq!(exec_r(0, 1, OP, a, 0), a);
    assert_eq!(exec_r(0, 1, OP, a, 63), 1 << 63);
    // SRL
    assert_eq!(exec_r(0, 5, OP, a, 0), a);
    assert_eq!(exec_r(0, 5, OP, a, 63), 1);
    // SRA
    assert_eq!(exec_r(0x20, 5, OP, a, 0), a);
    assert_eq!(exec_r(0x20, 5, OP, a, 63), MINUS_ONE);
    assert_eq!(exec_r(0x20, 5, OP, a >> 1, 62), 1);
    // only the low six bits of the amount count
    assert_eq!(exec_r(0, 1, OP, a, 64), a);
    assert_eq!(exec_r(0, 5, OP, a, 64 + 63), 1);
    assert_eq!(exec_r(0x20, 5, OP, a, 0xffff_ff00 + 4), 0xf800_0000_0000_0000);
}

#[test]
fn immediate_shifts_by_zero_and_by_sixty_three() {
    let a = 0x8000_0000_0000_0001;
    // SLLI
    assert_eq!(exec_i(0, 1, OP_IMM, a), a);
    assert_eq!(exec_i(63, 1, OP_IMM, a), 1 << 63);
    // SRLI
    assert_eq!(exec_i(0, 5, OP_IMM, a), a);
    assert_eq!(exec_i(63, 5, OP_IMM, a), 1);
    assert_eq!(exec_i(4, 5, OP_IMM, a), 0x0800_0000_0000_0000);
    // SRAI: bit 30 of the word, which is bit 10 of the immediate, is set
    assert_eq!(exec_i(0x400, 5, OP_IMM, a), a);
    assert_eq!(exec_i(0x400 | 63, 5, OP_IMM, a), MINUS_ONE);
    assert_eq!(exec_i(0x400 | 4, 5, OP_IMM, a), 0xf800_0000_0000_0000);
}

#[test]
fn right_shift_is_selected_by_bit_thirty_alone() {
    let a = 0x8000_0000_0000_0000;
    // bit 31 set as well: still arithmetic
    assert_eq!(exec_i(-1024 | 4, 5, OP_IMM, a), 0xf800_0000_0000_0000);
    // bit 31 set, bit 30 clear: logical
    assert_eq!(exec_i(-2048 | 4, 5, OP_IMM, a), 0x0800_0000_0000_0000);
    assert_eq!(exec_i(-1024 | 4, 5, OP_IMM_32, 0x8000_0000), 0xffff_ffff_f800_0000);
    assert_eq!(exec_i(-2048 | 4, 5, OP_IMM_32, 0x8000_0000), 0x0800_0000);
}

#[test]
fn set_less_than_signed_and_unsigned() {
    // SLT and SLTU disagree on -1 and 1
    assert_eq!(exec_r(0, 2, OP, MINUS_ONE, 1), 1);
    assert_eq!(exec_r(0, 3, OP, MINUS_ONE, 1), 0);
    assert_eq!(exec_r(0, 2, OP, 1, MINUS_ONE), 0);
    assert_eq!(exec_r(0, 3, OP, 1, MINUS_ONE), 1);
    assert_eq!(exec_r(0, 2, OP, 5, 5), 0);
    assert_eq!(exec_r(0, 3, OP, 5, 5), 0);
    // SLTI
    assert_eq!(exec_i(-1, 2, OP_IMM, 0), 0);
    assert_eq!(exec_i(1, 2, OP_IMM, MINUS_ONE), 1);
    // SLTIU compares with the sign-extended immediate as an unsigned number
    assert_eq!(exec_i(-1, 3, OP_IMM, 0), 1);
    assert_eq!(exec_i(-1, 3, OP_IMM, MINUS_ONE), 0);
    assert_eq!(exec_i(1, 3, OP_IMM, MINUS_ONE), 0);
    assert_eq!(exec_i(1, 3, OP_IMM, 0), 1);
}

// Word operations.

#[test]
fn word_results_are_sign_extended() {
    // ADDW
    assert_eq!(exec_r(0, 0, OP_32, 0x7fff_ffff, 1), 0xffff_ffff_8000_0000);
    assert_eq!(exec_r(0, 0, OP_32, 0xffff_ffff, 1), 0);
    assert_eq!(exec_r(0, 0, OP_32, 0x1234_5678_0000_0001, 0xabcd_0000_0000_0002), 3);
    // SUBW
    assert_eq!(exec_r(0x20, 0, OP_32, 0, 1), MINUS_ONE);
    assert_eq!(exec_r(0x20, 0, OP_32, 0x8000_0000, 1), 0x7fff_ffff);
    // ADDIW
    assert_eq!(exec_i(1, 0, OP_IMM_32, 0x7fff_ffff), 0xffff_ffff_8000_0000);
    assert_eq!(exec_i(-1, 0, OP_IMM_32, 0), MINUS_ONE);
    assert_eq!(exec_i(0, 0, OP_IMM_32, 0x1_8000_0000), 0xffff_ffff_8000_0000);
}

#[test]
fn word_shifts_by_zero_and_by_thirty_one() {
    let a = 0xffff_ffff_8000_0001;
    // SLLW
    assert_eq!(exec_r(0, 1, OP_32, a, 0), 0xffff_ffff_8000_0001);
    assert_eq!(exec_r(0, 1, OP_32, a, 31), 0xffff_ffff_8000_0000);
    assert_eq!(exec_r(0, 1, OP_32, 1, 31), 0xffff_ffff_8000_0000);
    assert_eq!(exec_r(0, 1, OP_32, 0x4000_0001, 1), 0xffff_ffff_8000_0002);
    // SRLW
    assert_eq!(exec_r(0, 5, OP_32, a, 0), 0xffff_ffff_8000_0001);
    assert_eq!(exec_r(0, 5, OP_32, a, 31), 1);
    assert_eq!(exec_r(0, 5, OP_32, a, 1), 0x4000_0000);
    // SRAW
    assert_eq!(exec_r(0x20, 5, OP_32, a, 0), 0xffff_ffff_8000_0001);
    assert_eq!(exec_r(0x20, 5, OP_32, a, 31), MINUS_ONE);
    assert_eq!(exec_r(0x20, 5, OP_32, 0x1_4000_0000, 30), 1);
    // only the low five bits of the amount count
    assert_eq!(exec_r(0, 1, OP_32, 1, 32), 1);
    assert_eq!(exec_r(0, 5, OP_32, a, 32 + 31), 1);
}

#[test]
fn immediate_word_shifts() {
    let a = 0xffff_ffff_8000_0001;
    // SLLIW
    assert_eq!(exec_i(0, 1, OP_IMM_32, a), 0xffff_ffff_8000_0001);
    assert_eq!(exec_i(31, 1, OP_IMM_32, a), 0xffff_ffff_8000_0000);
    assert_eq!(exec_i(4, 1, OP_IMM_32, 0x0fff_ffff), 0xffff_ffff_ffff_fff0);
    // SRLIW
    assert_eq!(exec_i(0, 5, OP_IMM_32, a), 0xffff_ffff_8000_0001);
    assert_eq!(exec_i(31, 5, OP_IMM_32, a), 1);
    // SRAIW
    assert_eq!(exec_i(0x400, 5, OP_IMM_32, a), 0xffff_ffff_8000_0001);
    assert_eq!(exec_i(0x400 | 31, 5, OP_IMM_32, a), MINUS_ONE);
    assert_eq!(exec_i(0x400 | 4, 5, OP_IMM_32, 0x7000_0000), 0x0700_0000);
}

// Upper immediates and jumps.

#[test]
fn lui_sign_extends() {
    let mut cpu = Cpu::new(None);
    assert_eq!(decode(u_type(0x80000, 5, 0b0110111), &mut cpu), Ok(()));
    assert_eq!(cpu.read_reg(5), 0xffff_ffff_8000_0000);
    assert_eq!(decode(u_type(0x7ffff, 5, 0b0110111), &mut cpu), Ok(()));
    assert_eq!(cpu.read_reg(5), 0x7fff_f000);
    assert_eq!(decode(u_type(1, 5, 0b0110111), &mut cpu), Ok(()));
    assert_eq!(cpu.read_reg(5), 0x1000);
}

#[test]
fn auipc_adds_to_the_pc() {
    let mut cpu = Cpu::new(None);
    cpu.set_pc(0x1000);
    assert_eq!(decode(u_type(1, 5, 0b0010111), &mut cpu), Ok(()));
    assert_eq!(cpu.read_reg(5), 0x2000);
    assert_eq!(decode(u_type(0xfffff, 5, 0b0010111), &mut cpu), Ok(()));
    assert_eq!(cpu.read_reg(5), 0);
    assert_eq!(decode(u_type(0x80000, 5, 0b0010111), &mut cpu), Ok(()));
    assert_eq!(cpu.read_reg(5), 0xffff_ffff_8000_1000);
}

#[test]
fn jal_links_and_jumps() {
    let mut cpu = Cpu::new(None);
    cpu.set_pc(0x100);
    cpu.set_next_pc_abs(0x104);
    assert_eq!(decode(j_type(-16, 5), &mut cpu), Ok(()));
    assert_eq!(cpu.read_reg(5), 0x104);
    assert_eq!(cpu.get_next_pc(), 0xf0);
    // the largest and the smallest offset
    assert_eq!(decode(j_type(0xf_fffe, 0), &mut cpu), Ok(()));
    assert_eq!(cpu.get_next_pc(), 0x100 + 0xf_fffe);
    assert_eq!(decode(j_type(-0x10_0000, 0), &mut cpu), Ok(()));
    assert_eq!(cpu.get_next_pc(), 0x100u64.wrapping_sub(0x10_0000));
    // each group of offset bits
    assert_eq!(decode(j_type(0x800, 0), &mut cpu), Ok(()));
    assert_eq!(cpu.get_next_pc(), 0x100 + 0x800);
    assert_eq!(decode(j_type(0x7f000, 0), &mut cpu), Ok(()));
    assert_eq!(cpu.get_next_pc(), 0x100 + 0x7f000);
    assert_eq!(decode(j_type(0x7fe, 0), &mut cpu), Ok(()));
    assert_eq!(cpu.get_next_pc(), 0x100 + 0x7fe);
}

#[test]
fn jal_to_register_zero_does_not_link() {
    let mut cpu = Cpu::new(None);
    cpu.write_reg(5, 1);
    cpu.set_next_pc_abs(4);
    assert_eq!(decode(j_type(8, 0), &mut cpu), Ok(()));
    assert_eq!(cpu.read_reg(0), 0);
    assert_eq!(cpu.get_last_used_register(), 5);
    assert_eq!(cpu.get_next_pc(), 8);
}

#[test]
fn jalr_clears_the_low_bit() {
    let mut cpu = Cpu::new(None);
    cpu.set_next_pc_abs(4);
    cpu.write_reg(6, 0x1001);
    assert_eq!(decode(i_type(2, 6, 0, 5, 0b1100111), &mut cpu), Ok(()));
    assert_eq!(cpu.get_next_pc(), 0x1002);
    assert_eq!(cpu.read_reg(5), 4);
    assert_eq!(decode(i_type(0, 6, 0, 0, 0b1100111), &mut cpu), Ok(()));
    assert_eq!(cpu.get_next_pc(), 0x1000);
    assert_eq!(decode(i_type(-2, 6, 0, 0, 0b1100111), &mut cpu), Ok(()));
    assert_eq!(cpu.get_next_pc(), 0xffe);
    assert_eq!(decode(i_type(-1, 0, 0, 0, 0b1100111), &mut cpu), Ok(()));
    assert_eq!(cpu.get_next_pc(), SENTINEL);
}

#[test]
fn jalr_through_the_register_that_it_links_uses_the_link() {
    let mut cpu = Cpu::new(None);
    cpu.set_pc(0x40);
    cpu.set_next_pc_abs(0x44);
    cpu.write_reg(5, 0x1000);
    assert_eq!(decode(i_type(8, 5, 0, 5, 0b1100111), &mut cpu), Ok(()));
    assert_eq!(cpu.read_reg(5), 0x44);
    assert_eq!(cpu.get_next_pc(), 0x4c);
}

// Branches.

#[test]
fn branches_compare_signed_and_unsigned() {
    // (funct3, a, b, taken)
    let cases: [(u32, u64, u64, bool); 16] = [
        (0b000, 7, 7, true),
        (0b000, 7, 8, false),
        (0b001, 7, 8, true),
        (0b001, 7, 7, false),
        // BLT and BLTU disagree on -1 and 1
        (0b100, MINUS_ONE, 1, true),
        (0b110, MINUS_ONE, 1, false),
        (0b100, 1, MINUS_ONE, false),
        (0b110, 1, MINUS_ONE, true),
        // BGE and BGEU
        (0b101, MINUS_ONE, 1, false),
        (0b111, MINUS_ONE, 1, true),
        (0b101, 1, MINUS_ONE, true),
        (0b111, 1, MINUS_ONE, false),
        (0b101, 3, 3, true),
        (0b111, 3, 3, true),
        (0b100, 3, 3, false),
        (0b110, 3, 3, false),
    ];
    for (f3, a, b, taken) in cases {
        let mut cpu = Cpu::new(None);
        cpu.set_pc(0x100);
        cpu.set_next_pc_abs(0x104);
        cpu.write_reg(5, a);
        cpu.write_reg(6, b);
        assert_eq!(decode(b_type(-32, 6, 5, f3), &mut cpu), Ok(()));
        assert_eq!(cpu.get_next_pc(), if taken { 0xe0 } else { 0x104 });
    }
}

#[test]
fn branch_offsets_use_every_group_of_bits() {
    for offset in [2, 0x1e, 0x7e0, 0x800, 0xffe, -0x1000, -2, 0x0aaa, -0x0556] {
        let mut cpu = Cpu::new(None);
        cpu.set_pc(0x4000);
        assert_eq!(decode(b_type(offset, 0, 0, 0b000), &mut cpu), Ok(()));
        assert_eq!(cpu.get_next_pc(), 0x4000u64.wrapping_add(offset as i64 as u64));
    }
}

// Loads and stores.

#[test]
fn loads_extend_the_same_bytes_signed_and_unsigned() {
    let mut cpu = Cpu::new(Some(64));
    cpu.store(0x8182_8384_f5f6_f7f8, DRAM + 8, AccessSize::DOUBLEWORD);
    cpu.write_reg(5, DRAM + 16);
    let load = |cpu: &mut Cpu, f3: u32| {
        assert_eq!(decode(i_type(-8, 5, f3, 7, 0b0000011), cpu), Ok(()));
        cpu.read_reg(7)
    };
    assert_eq!(load(&mut cpu, 0b000), 0xffff_ffff_ffff_fff8);
    assert_eq!(load(&mut cpu, 0b100), 0xf8);
    assert_eq!(load(&mut cpu, 0b001), 0xffff_ffff_ffff_f7f8);
    assert_eq!(load(&mut cpu, 0b101), 0xf7f8);
    assert_eq!(load(&mut cpu, 0b010), 0xffff_ffff_f5f6_f7f8);
    assert_eq!(load(&mut cpu, 0b110), 0xf5f6_f7f8);
    assert_eq!(load(&mut cpu, 0b011), 0x8182_8384_f5f6_f7f8);
}

#[test]
fn loads_of_positive_values_are_not_changed() {
    let mut cpu = Cpu::new(Some(64));
    cpu.store(0x0102_0304_7576_7778, DRAM, AccessSize::DOUBLEWORD);
    cpu.write_reg(5, DRAM);
    for (f3, expected) in [
        (0b000, 0x78),
        (0b001, 0x7778),
        (0b010, 0x7576_7778),
        (0b011, 0x0102_0304_7576_7778),
    ] {
        assert_eq!(decode(i_type(0, 5, f3, 7, 0b0000011), &mut cpu), Ok(()));
        assert_eq!(cpu.read_reg(7), expected);
    }
}

#[test]
fn stores_write_the_low_bytes() {
    for (f3, expected) in [
        (0b000, 0xaaaa_aaaa_aaaa_aa88u64),
        (0b001, 0xaaaa_aaaa_aaaa_7788),
        (0b010, 0xaaaa_aaaa_5566_7788),
        (0b011, 0x1122_3344_5566_7788),
    ] {
        let mut cpu = Cpu::new(Some(64));
        cpu.store(0xaaaa_aaaa_aaaa_aaaa, DRAM + 24, AccessSize::DOUBLEWORD);
        cpu.write_reg(5, DRAM + 32);
        cpu.write_reg(6, 0x1122_3344_5566_7788);
        assert_eq!(decode(s_type(-8, 6, 5, f3), &mut cpu), Ok(()));
        assert_eq!(cpu.load(DRAM + 24, AccessSize::DOUBLEWORD), expected);
    }
}

#[test]
fn store_offsets_use_both_parts_of_the_immediate() {
    for offset in [0, 1, 31, 32, 0x7ff, -1, -32, -0x800, 0x555, -0x2ab] {
        let mut cpu = Cpu::new(Some(8192));
        let base = DRAM + 4096;
        cpu.write_reg(5, base);
        cpu.write_reg(6, 0x5a);
        assert_eq!(decode(s_type(offset, 6, 5, 0b000), &mut cpu), Ok(()));
        assert_eq!(cpu.load(base.wrapping_add(offset as i64 as u64), AccessSize::BYTE), 0x5a);
    }
}

// Control and status registers.

const SYSTEM: u32 = 0b1110011;

#[test]
fn csr_write_set_and_clear() {
    let mut cpu = Cpu::new(None);
    cpu.write_reg(5, 0xff00);
    // CSRRW x6, 0x300, x5
    assert_eq!(decode(i_type(0x300, 5, 0b001, 6, SYSTEM), &mut cpu), Ok(()));
    assert_eq!(cpu.read_reg(6), 0);
    assert_eq!(cpu.read_csreg(0x300), 0xff00);
    // CSRRS x6, 0x300, x7 with x7 = 0x0ff0
    cpu.write_reg(7, 0x0ff0);
    assert_eq!(decode(i_type(0x300, 7, 0b010, 6, SYSTEM), &mut cpu), Ok(()));
    assert_eq!(cpu.read_reg(6), 0xff00);
    assert_eq!(cpu.read_csreg(0x300), 0xfff0);
    // CSRRC x6, 0x300, x7
    assert_eq!(decode(i_type(0x300, 7, 0b011, 6, SYSTEM), &mut cpu), Ok(()));
    assert_eq!(cpu.read_reg(6), 0xfff0);
    assert_eq!(cpu.read_csreg(0x300), 0xf000);
}

#[test]
fn csr_immediate_forms_use_the_register_field_as_the_operand() {
    let mut cpu = Cpu::new(None);
    cpu.write_reg(21, 0xdead);
    // CSRRWI x6, 0x7ff, 21
    assert_eq!(decode(i_type(0x7ff, 21, 0b101, 6, SYSTEM), &mut cpu), Ok(()));
    assert_eq!(cpu.read_csreg(0x7ff), 21);
    // CSRRSI x6, 0x7ff, 10
    assert_eq!(decode(i_type(0x7ff, 10, 0b110, 6, SYSTEM), &mut cpu), Ok(()));
    assert_eq!(cpu.read_reg(6), 21);
    assert_eq!(cpu.read_csreg(0x7ff), 31);
    // CSRRCI x0, 0x7ff, 3
    assert_eq!(decode(i_type(0x7ff, 3, 0b111, 0, SYSTEM), &mut cpu), Ok(()));
    assert_eq!(cpu.read_reg(0), 0);
    assert_eq!(cpu.read_csreg(0x7ff), 28);
}

#[test]
fn csr_index_is_the_unsigned_field() {
    let mut cpu = Cpu::new(None);
    cpu.write_reg(5, 77);
    // CSRRW x0, 0xC00, x5 and CSRRW x0, 0xFFF, x5: the field has bit 11 set
    assert_eq!(decode(i_type(0xc00, 5, 0b001, 0, SYSTEM), &mut cpu), Ok(()));
    assert_eq!(cpu.read_csreg(0xc00), 77);
    assert_eq!(decode(i_type(0xfff, 5, 0b001, 0, SYSTEM), &mut cpu), Ok(()));
    assert_eq!(cpu.read_csreg(4095), 77);
}

#[test]
fn csr_instruction_whose_source_is_its_destination_reads_the_new_value() {
    let mut cpu = Cpu::new(None);
    cpu.write_csreg(0x340, 0x11);
    cpu.write_reg(5, 0x22);
    // CSRRW x5, 0x340, x5
    assert_eq!(decode(i_type(0x340, 5, 0b001, 5, SYSTEM), &mut cpu), Ok(()));
    assert_eq!(cpu.read_reg(5), 0x11);
    assert_eq!(cpu.read_csreg(0x340), 0x11);
}

#[test]
fn fence_and_environment_calls_change_nothing() {
    let mut cpu = Cpu::new(None);
    cpu.write_reg(5, 1);
    cpu.set_next_pc_abs(4);
    // FENCE, FENCE.I, ECALL, EBREAK
    for word in [0x0ff0_000f, 0x0000_100f, 0x0000_0073, 0x0010_0073] {
        assert_eq!(decode(word, &mut cpu), Ok(()));
        assert_eq!(cpu.read_reg(5), 1);
        assert_eq!(cpu.get_pc(), 0);
        assert_eq!(cpu.get_next_pc(), 4);
        assert_eq!(cpu.get_last_used_register(), 5);
    }
}

// The instruction functions, called directly.

#[test]
fn immediate_decoders() {
    assert_eq!(riviera::rv::decode_immediate_stype(0b00100, 0x0000_0001), 4);
    assert_eq!(riviera::rv::decode_immediate_stype(0b11111, 0xffff_ffff), -1);
    assert_eq!(riviera::rv::decode_immediate_stype(0, 0xffff_f800), -2048);
    assert_eq!(riviera::rv::decode_immediate_btype(0b10101, 0xffff_ffe0), -12);
    assert_eq!(riviera::rv::decode_immediate_btype(0b00001, 0), 0x800);
    assert_eq!(riviera::rv::decode_immediate_btype(0, 0xffff_f800), -4096);
    assert_eq!(riviera::rv::decode_immediate_btype(0b11110, 0x7e0), 0x7fe);
    assert_eq!(riviera::rv::decode_immediate_jtype(0xffff_f7ff), -10);
    assert_eq!(riviera::rv::decode_immediate_jtype(0x0000_0100), 0x800);
    assert_eq!(riviera::rv::decode_immediate_jtype(0x0000_00ff), 0xff000);
    assert_eq!(riviera::rv::decode_immediate_jtype(0xfff8_0000), -0x10_0000);
    assert_eq!(riviera::rv::decode_immediate_utype(0x0000_0001), 0x1000);
    assert_eq!(riviera::rv::decode_immediate_utype(0xffff_ffff), -0x1000);
    assert_eq!(riviera::rv::decode_immediate_utype(0x0008_0000), -0x8000_0000);
}

#[test]
fn sign_extension_of_fields() {
    assert_eq!(riviera::isa::sign_extend_field(0x7ff, 12), 2047);
    assert_eq!(riviera::isa::sign_extend_field(0x800, 12), -2048);
    assert_eq!(riviera::isa::sign_extend_field(0xfff, 12), -1);
    assert_eq!(riviera::isa::sign_extend_field(0x1fff, 12), -1);
    assert_eq!(riviera::isa::sign_extend_field(0x1000, 13), -4096);
    assert_eq!(riviera::isa::sign_extend_field(0x10_0000, 21), -0x10_0000);
    assert_eq!(riviera::isa::sign_extend_field(0x80, 8), -128);
    assert_eq!(riviera::isa::sign_extend_field(1, 1), -1);
    assert_eq!(riviera::isa::sign_extend_field(0xffff_ffff, 32), -1);
    assert_eq!(riviera::isa::sign_extend_field(0x7fff_ffff, 32), 0x7fff_ffff);
    assert_eq!(riviera::isa::to_signed32(0x8000_0000), -0x8000_0000);
    assert_eq!(riviera::isa::to_signed64(MINUS_ONE), -1);
    assert_eq!(riviera::isa::from_signed64(-2), SENTINEL);
    assert_eq!(riviera::isa::low32(0x1234_5678_9abc_def0), 0x9abc_def0);
    assert_eq!(riviera::isa::sign_extend_word(0x8000_0000), 0xffff_ffff_8000_0000);
    assert_eq!(riviera::isa::sign_extend_word(0x7fff_ffff), 0x7fff_ffff);
}

#[test]
fn instruction_functions_called_directly() {
    let mut cpu = Cpu::new(Some(64));
    cpu.write_reg(1, 0x8000_0000_0000_0000);
    cpu.write_reg(2, 4);
    riviera::rv::sra(&mut cpu, 1, 2, 3);
    assert_eq!(cpu.read_reg(3), 0xf800_0000_0000_0000);
    riviera::rv::srl(&mut cpu, 1, 2, 3);
    assert_eq!(cpu.read_reg(3), 0x0800_0000_0000_0000);
    riviera::rv::srli_srai(&mut cpu, 1, 3, 0x404);
    assert_eq!(cpu.read_reg(3), 0xf800_0000_0000_0000);
    riviera::rv::srli_srai(&mut cpu, 1, 3, 0x004);
    assert_eq!(cpu.read_reg(3), 0x0800_0000_0000_0000);
    riviera::rv::lui(&mut cpu, 3, 0xfffd_ead0);
    assert_eq!(cpu.read_reg(3), 0xffff_ffff_dead_0000);
    riviera::rv::addi(&mut cpu, 0, 3, 0xffff_ffff);
    assert_eq!(cpu.read_reg(3), MINUS_ONE);
    riviera::rv::addiw(&mut cpu, 3, 4, 1);
    assert_eq!(cpu.read_reg(4), 0);
    riviera::rv::xor(&mut cpu, 1, 3, 4);
    assert_eq!(cpu.read_reg(4), 0x7fff_ffff_ffff_ffff);
    riviera::rv::or(&mut cpu, 1, 2, 4);
    assert_eq!(cpu.read_reg(4), 0x8000_0000_0000_0004);
    riviera::rv::and(&mut cpu, 3, 2, 4);
    assert_eq!(cpu.read_reg(4), 4);
    cpu.write_reg(5, DRAM + 8);
    riviera::rv::sd(&mut cpu, 5, 0x003, 0x8);
    assert_eq!(cpu.load(DRAM + 16, AccessSize::DOUBLEWORD), MINUS_ONE);
    riviera::rv::lw(&mut cpu, 5, 6, 0x8);
    assert_eq!(cpu.read_reg(6), MINUS_ONE);
    riviera::rv::lwu(&mut cpu, 5, 6, 0x8);
    assert_eq!(cpu.read_reg(6), 0xffff_ffff);
    riviera::rv::fence();
    riviera::rv::fencei();
    riviera::rv::ecall_ebreak(1);
    assert_eq!(cpu.read_reg(6), 0xffff_ffff);
}

#[test]
fn last_used_register() {
    let mut cpu = Cpu::new(None);
    assert!(!cpu.is_last_used(0));
    assert!(!cpu.is_last_used(5));
    cpu.write_reg(5, 1);
    assert!(cpu.is_last_used(5));
    assert!(!cpu.is_last_used(6));
    cpu.set_stack_pointer(64);
    assert!(cpu.is_last_used(5));
    cpu.write_reg(0, 1);
    assert!(!cpu.is_last_used(0));
    assert!(!cpu.is_last_used(5));
}

#[test]
fn register_names() {
    assert_eq!(riviera::cpu::register_name(0), "zero");
    assert_eq!(riviera::cpu::register_name(1), "ra");
    assert_eq!(riviera::cpu::register_name(2), "sp");
    assert_eq!(riviera::cpu::register_name(3), "gp");
    assert_eq!(riviera::cpu::register_name(10), "a0");
    assert_eq!(riviera::cpu::register_name(31), "t6");
}

#[test]
fn debug_mode_and_debug_string() {
    let mut cpu = Cpu::new(None);
    assert!(!cpu.is_debug_mode());
    cpu.set_debug_mode();
    assert!(cpu.is_debug_mode());
    cpu.clear_debug_mode();
    assert!(!cpu.is_debug_mode());
    assert_eq!(cpu.get_debug_string(), "");
    cpu.set_debug_string(String::from("addi x1, x0, 5"));
    assert_eq!(cpu.get_debug_string(), "addi x1, x0, 5");
}
