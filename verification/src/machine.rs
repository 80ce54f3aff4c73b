//! The processor as a state machine: what its state is, what each
//! instruction does to it, and what a fetch/decode/execute cycle is.

use crate::bus::BusView;
use crate::isa::{
    alu, alu_w, alu_word, branch_taken, clear_low_bit, csr_update, decode_spec, load_result,
    lemma_decode_wf, lemma_sign_extend_widths, sext32, wrap32, wrap64, AluWOp, CsrSource, Instr,
};
use crate::memory::AccessSize;
use vstd::prelude::*;

verus! {

/// The address that ends a run when the program counter reaches it.
pub const SENTINEL_RETURN_ADDRESS: u64 = 0xfffffffffffffffe;

/// Why a cycle could not be carried out.
#[derive(Clone, Copy, Debug, PartialEq, Eq)]
pub enum Fault {
    /// The word fetched at `pc` encodes no supported instruction.
    IllegalInstruction { word: u32, pc: u64 },
    /// The instruction at `pc`, or its fetch, touches bytes at `addr` that
    /// lie outside the region that serves `addr`.
    OutOfBounds { addr: u64, pc: u64 },
}

/// The state of a processor.
pub struct CpuView {
    /// The 32 general registers as stored. Slot 0 reads as zero whatever it holds.
    pub regs: Seq<u64>,
    /// The register that was written last.
    pub last_used_register: u8,
    /// The 4096 control/status registers.
    pub csregs: Seq<u64>,
    /// The address of the instruction that is being executed.
    pub pc: u64,
    /// The address that `pc` takes at the end of the cycle.
    pub next_pc: u64,
    pub bus: BusView,
    pub debug_mode: bool,
    pub debug_string: Seq<char>,
}

impl CpuView {
    /// The state of every processor: 32 general and 4096 control/status registers.
    pub open spec fn wf(self) -> bool {
        self.regs.len() == 32 && self.csregs.len() == 4096
    }

    /// What a read of register `i` yields: zero for register 0.
    pub open spec fn reg(self, i: u8) -> u64 {
        if i == 0 {
            0
        } else {
            self.regs[i as int]
        }
    }

    pub open spec fn write_reg(self, i: u8, data: u64) -> CpuView {
        CpuView { regs: self.regs.update(i as int, data), last_used_register: i, ..self }
    }

    pub open spec fn csr(self, i: u16) -> u64 {
        self.csregs[i as int]
    }

    pub open spec fn write_csr(self, i: u16, data: u64) -> CpuView {
        CpuView { csregs: self.csregs.update(i as int, data), ..self }
    }

    pub open spec fn set_next_pc(self, target: u64) -> CpuView {
        CpuView { next_pc: target, ..self }
    }

    pub open spec fn load(self, addr: u64, size: AccessSize) -> u64 {
        self.bus.read(addr, size) as u64
    }

    pub open spec fn store(self, data: u64, addr: u64, size: AccessSize) -> CpuView {
        CpuView { bus: self.bus.write(data, addr, size), ..self }
    }

    /// The return address, which is `next_pc`, written to `rd` unless `rd` is register 0.
    pub open spec fn link(self, rd: u8) -> CpuView {
        if rd != 0 {
            self.write_reg(rd, self.next_pc)
        } else {
            self
        }
    }
}

/// The address and width of the memory access that `instr` makes in state
/// `m`, if it makes one.
pub open spec fn access_of(m: CpuView, instr: Instr) -> Option<(u64, AccessSize)> {
    match instr {
        Instr::Load { size, rs1, imm, .. } => Some((wrap64(m.reg(rs1) + imm), size)),
        Instr::Store { size, rs1, imm, .. } => Some((wrap64(m.reg(rs1) + imm), size)),
        _ => None,
    }
}

/// Whether the memory access of `instr`, if it makes one, is served.
pub open spec fn access_ok(m: CpuView, instr: Instr) -> bool {
    match access_of(m, instr) {
        Some((addr, size)) => m.bus.maps(addr, size.width()),
        None => true,
    }
}

/// The state after `instr` was executed in state `m`, in which `next_pc`
/// already holds the address of the following instruction.
///
/// An instruction that writes a register and reads another reads it after
/// the write: a jump through the register that it links, or a
/// control/status instruction whose source is its destination, sees the
/// new value.
pub open spec fn execute(m: CpuView, instr: Instr) -> CpuView {
    match instr {
        Instr::Lui { rd, imm } => m.write_reg(rd, wrap64(imm)),
        Instr::Auipc { rd, imm } => m.write_reg(rd, wrap64(m.pc + imm)),
        Instr::Jal { rd, offset } => m.link(rd).set_next_pc(wrap64(m.pc + offset)),
        Instr::Jalr { rd, rs1, imm } => {
            let linked = m.link(rd);
            linked.set_next_pc(clear_low_bit(wrap64(linked.reg(rs1) + imm)))
        },
        Instr::Branch { op, rs1, rs2, offset } => if branch_taken(op, m.reg(rs1), m.reg(rs2)) {
            m.set_next_pc(wrap64(m.pc + offset))
        } else {
            m
        },
        Instr::Load { size, signed, rd, rs1, imm } => m.write_reg(
            rd,
            load_result(m.load(wrap64(m.reg(rs1) + imm), size), size, signed),
        ),
        Instr::Store { size, rs1, rs2, imm } => m.store(
            m.reg(rs2),
            wrap64(m.reg(rs1) + imm),
            size,
        ),
        Instr::OpImm { op, rd, rs1, imm } => m.write_reg(rd, alu(op, m.reg(rs1), wrap64(imm))),
        Instr::Op { op, rd, rs1, rs2 } => m.write_reg(rd, alu(op, m.reg(rs1), m.reg(rs2))),
        Instr::OpImmW { op, rd, rs1, imm } => m.write_reg(
            rd,
            alu_w(op, m.reg(rs1), wrap64(imm)),
        ),
        Instr::OpW { op, rd, rs1, rs2 } => m.write_reg(rd, alu_w(op, m.reg(rs1), m.reg(rs2))),
        Instr::Fence => m,
        Instr::FenceI => m,
        Instr::System => m,
        Instr::Csr { op, rd, csr, source } => {
            let current = m.csr(csr);
            let read = if rd != 0 {
                m.write_reg(rd, current)
            } else {
                m
            };
            let operand = match source {
                CsrSource::Register(rs1) => read.reg(rs1),
                CsrSource::Immediate(value) => value as u64,
            };
            read.write_csr(csr, csr_update(op, current, operand))
        },
    }
}

/// Whether `instr` sends the program counter somewhere else than to the
/// following instruction: a jump, or a branch that is taken.
pub open spec fn redirects(m: CpuView, instr: Instr) -> bool {
    match instr {
        Instr::Jal { .. } => true,
        Instr::Jalr { .. } => true,
        Instr::Branch { op, rs1, rs2, .. } => branch_taken(op, m.reg(rs1), m.reg(rs2)),
        _ => false,
    }
}

/// Whether the run is over: the program counter holds the sentinel.
pub open spec fn halted(m: CpuView) -> bool {
    m.pc == SENTINEL_RETURN_ADDRESS
}

/// The word at the program counter.
pub open spec fn fetched(m: CpuView) -> u32 {
    m.bus.read(m.pc, AccessSize::WORD) as u32
}

/// The state in which the fetched instruction executes: `next_pc` is `pc + 4`.
pub open spec fn predicted(m: CpuView) -> CpuView {
    m.set_next_pc(wrap64(m.pc + 4))
}

/// The fault that carrying out the instruction word `word` in state `m`
/// runs into, if any: the word is no instruction, or it is a load or store
/// outside memory.
pub open spec fn instr_fault(m: CpuView, word: u32) -> Option<Fault> {
    match decode_spec(word) {
        None => Some(Fault::IllegalInstruction { word, pc: m.pc }),
        Some(instr) => match access_of(m, instr) {
            Some((addr, size)) => if m.bus.maps(addr, size.width()) {
                None
            } else {
                Some(Fault::OutOfBounds { addr, pc: m.pc })
            },
            None => None,
        },
    }
}

/// The fault that the cycle starting in state `m` runs into, if any: a fetch
/// outside memory, or the fault of the fetched word.
pub open spec fn cycle_fault(m: CpuView) -> Option<Fault> {
    if !m.bus.maps(m.pc, 4) {
        Some(Fault::OutOfBounds { addr: m.pc, pc: m.pc })
    } else {
        instr_fault(predicted(m), fetched(m))
    }
}

/// The state after one cycle that starts in state `m` and runs into no
/// fault: fetch, predict, decode and execute, advance.
pub open spec fn cycle(m: CpuView) -> CpuView {
    match decode_spec(fetched(m)) {
        Some(instr) => {
            let done = execute(predicted(m), instr);
            CpuView { pc: done.next_pc, ..done }
        },
        None => m,
    }
}

/// The state after `n` cycles.
pub open spec fn cycles(m: CpuView, n: nat) -> CpuView
    decreases n,
{
    if n == 0 {
        m
    } else {
        cycle(cycles(m, (n - 1) as nat))
    }
}

/// Whether a run from state `m` gets through `n` cycles: before each of
/// them the program counter is not the sentinel, and none runs into a fault.
pub open spec fn runs(m: CpuView, n: nat) -> bool {
    forall|k: nat| k < n ==> !halted(#[trigger] cycles(m, k)) && cycle_fault(cycles(m, k)) is None
}

/// Whether a run of at most `limit` cycles from state `start` ends in state
/// `end` with the result `res`.
///
/// `Ok(count)`: the run got through `count` cycles, and then the program
/// counter held the sentinel or the limit was reached. `Err(fault)`: after
/// some cycles, fewer than the limit, the next one ran into `fault`; the
/// state is the one before that cycle.
pub open spec fn ends_run(
    start: CpuView,
    limit: u64,
    end: CpuView,
    res: Result<u64, Fault>,
) -> bool {
    match res {
        Ok(count) => {
            &&& count <= limit
            &&& runs(start, count as nat)
            &&& end == cycles(start, count as nat)
            &&& halted(end) || count == limit
        },
        Err(fault) => exists|n: nat|
            {
                &&& n < limit
                &&& runs(start, n)
                &&& end == #[trigger] cycles(start, n)
                &&& !halted(end)
                &&& cycle_fault(end) == Some(fault)
            },
    }
}

/// A run has one outcome: the starting state and the limit determine the
/// result and the final state. So the count that a run returns is the
/// number of instructions that were executed before the program counter
/// first held the sentinel.
pub proof fn lemma_run_outcome_unique(
    start: CpuView,
    limit: u64,
    end1: CpuView,
    res1: Result<u64, Fault>,
    end2: CpuView,
    res2: Result<u64, Fault>,
)
    requires
        ends_run(start, limit, end1, res1),
        ends_run(start, limit, end2, res2),
    ensures
        res1 == res2,
        end1 == end2,
{
    match (res1, res2) {
        (Ok(c1), Ok(c2)) => {
            if c1 < c2 {
                assert(!halted(cycles(start, c1 as nat)));
            } else if c2 < c1 {
                assert(!halted(cycles(start, c2 as nat)));
            }
        },
        (Ok(c), Err(fault)) => {
            let n = choose|n: nat|
                {
                    &&& n < limit
                    &&& runs(start, n)
                    &&& end2 == #[trigger] cycles(start, n)
                    &&& !halted(end2)
                    &&& cycle_fault(end2) == Some(fault)
                };
            if n < c {
                assert(cycle_fault(cycles(start, n)) is None);
            } else if c < n {
                assert(!halted(cycles(start, c as nat)));
            }
        },
        (Err(fault), Ok(c)) => {
            let n = choose|n: nat|
                {
                    &&& n < limit
                    &&& runs(start, n)
                    &&& end1 == #[trigger] cycles(start, n)
                    &&& !halted(end1)
                    &&& cycle_fault(end1) == Some(fault)
                };
            if n < c {
                assert(cycle_fault(cycles(start, n)) is None);
            } else if c < n {
                assert(!halted(cycles(start, c as nat)));
            }
        },
        (Err(f1), Err(f2)) => {
            let n1 = choose|n: nat|
                {
                    &&& n < limit
                    &&& runs(start, n)
                    &&& end1 == #[trigger] cycles(start, n)
                    &&& !halted(end1)
                    &&& cycle_fault(end1) == Some(f1)
                };
            let n2 = choose|n: nat|
                {
                    &&& n < limit
                    &&& runs(start, n)
                    &&& end2 == #[trigger] cycles(start, n)
                    &&& !halted(end2)
                    &&& cycle_fault(end2) == Some(f2)
                };
            if n1 < n2 {
                assert(cycle_fault(cycles(start, n1)) is None);
            } else if n2 < n1 {
                assert(cycle_fault(cycles(start, n2)) is None);
            }
        },
    }
}

/// A run whose program counter holds the sentinel after `n` cycles, and not
/// before, returns `n`: the instructions that were executed, without the
/// check that ended the run.
pub proof fn lemma_run_halts(
    start: CpuView,
    limit: u64,
    n: nat,
    end: CpuView,
    res: Result<u64, Fault>,
)
    requires
        n <= limit,
        runs(start, n),
        halted(cycles(start, n)),
        ends_run(start, limit, end, res),
    ensures
        res == Ok::<u64, Fault>(n as u64),
        end == cycles(start, n),
{
    lemma_run_outcome_unique(
        start,
        limit,
        cycles(start, n),
        Ok::<u64, Fault>(n as u64),
        end,
        res,
    );
}

/// Register 0 reads as zero in every state: whatever was written to it,
/// and after whatever instruction.
pub proof fn lemma_zero_register(m: CpuView, rd: u8, data: u64, instr: Instr)
    ensures
        m.reg(0) == 0,
        m.write_reg(rd, data).reg(0) == 0,
        execute(m, instr).reg(0) == 0,
        cycle(m).reg(0) == 0,
{
}

/// Every instruction keeps the state well formed, and so does a cycle.
pub proof fn lemma_execute_wf(m: CpuView, instr: Instr)
    requires
        m.wf(),
        instr.wf(),
    ensures
        execute(m, instr).wf(),
        cycle(m).wf(),
{
    lemma_decode_wf(fetched(m));
}

/// After a cycle the program counter is the next program counter that the
/// cycle computed. Unless the instruction was a jump or a taken branch,
/// that is the old program counter plus 4.
pub proof fn lemma_cycle_advances_pc(m: CpuView)
    requires
        decode_spec(fetched(m)) is Some,
    ensures
        cycle(m).pc == cycle(m).next_pc,
        cycle(m).pc == execute(predicted(m), decode_spec(fetched(m))->0).next_pc,
        !redirects(predicted(m), decode_spec(fetched(m))->0) ==> cycle(m).pc == wrap64(m.pc + 4),
{
}

/// A sign-extended word keeps the word in its low half, and its high half
/// repeats bit 31 of the word.
pub proof fn lemma_sext32(word: u32)
    ensures
        wrap32(sext32(word) as int) == word,
        sext32(word) / 0x1_0000_0000 == (if word >= 0x8000_0000 {
            0xFFFF_FFFFu64
        } else {
            0u64
        }),
{
    lemma_sign_extend_widths(word as int);
    if word >= 0x8000_0000 {
        assert(sext32(word) == word + 0xFFFF_FFFF_0000_0000);
    } else {
        assert(sext32(word) == word);
    }
}

/// The result of a word operation is the sign extension of its low word:
/// bits 63 to 32 all equal bit 31 of the 32-bit result.
pub proof fn lemma_word_result_sign_extended(op: AluWOp, a: u64, b: u64)
    ensures
        wrap32(alu_w(op, a, b) as int) == alu_word(op, a, b),
        alu_w(op, a, b) == sext32(wrap32(alu_w(op, a, b) as int)),
        alu_w(op, a, b) / 0x1_0000_0000 == (if alu_word(op, a, b) >= 0x8000_0000 {
            0xFFFF_FFFFu64
        } else {
            0u64
        }),
{
    lemma_sext32(alu_word(op, a, b));
}

/// A run halts at most once: the number of cycles after which the program
/// counter first holds the sentinel is determined by the starting state.
pub proof fn lemma_halt_count_unique(m: CpuView, n1: nat, n2: nat)
    requires
        runs(m, n1),
        halted(cycles(m, n1)),
        runs(m, n2),
        halted(cycles(m, n2)),
    ensures
        n1 == n2,
{
    if n1 < n2 {
        assert(!halted(cycles(m, n1)));
    } else if n2 < n1 {
        assert(!halted(cycles(m, n2)));
    }
}

/// A run that gets through `n` cycles from the starting state and through
/// one more from there gets through `n + 1`.
pub proof fn lemma_runs_extend(m: CpuView, n: nat)
    requires
        runs(m, n),
        !halted(cycles(m, n)),
        cycle_fault(cycles(m, n)) is None,
    ensures
        runs(m, n + 1),
        cycles(m, n + 1) == cycle(cycles(m, n)),
{
}

} // verus!
