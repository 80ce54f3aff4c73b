//! The processing element: registers, program counter and the bus behind it.

use crate::bus::{Bus, BusView};
use crate::isa::wrap64;
use crate::machine::{
    cycle, cycle_fault, cycles, ends_run, fetched, instr_fault, lemma_runs_extend, runs,
    CpuView, Fault,
};
use crate::memory::{AccessSize, Memory};
use vstd::prelude::*;

verus! {

pub const REG_FILE_SIZE: usize = 32;

pub const CS_REG_FILE_SIZE: usize = 4096;

pub const PC_INITIAL_VALUE: u64 = 0x0;

pub type Instruction = u32;

pub type RegIndex = u8;

pub type CSRegIndex = u16;

/// The canonical names of the general registers, by index.
pub open spec fn register_names() -> Seq<Seq<char>> {
    seq![
        "zero"@,
        "ra"@,
        "sp"@,
        "gp"@,
        "tp"@,
        "t0"@,
        "t1"@,
        "t2"@,
        "s0"@,
        "s1"@,
        "a0"@,
        "a1"@,
        "a2"@,
        "a3"@,
        "a4"@,
        "a5"@,
        "a6"@,
        "a7"@,
        "s2"@,
        "s3"@,
        "s4"@,
        "s5"@,
        "s6"@,
        "s7"@,
        "s8"@,
        "s9"@,
        "s10"@,
        "s11"@,
        "t3"@,
        "t4"@,
        "t5"@,
        "t6"@,
    ]
}

/// The canonical name of general register `regi`.
pub fn register_name(regi: RegIndex) -> (name: &'static str)
    requires
        regi < 32,
    ensures
        name@ == register_names()[regi as int],
{
    match regi {
        0 => "zero",
        1 => "ra",
        2 => "sp",
        3 => "gp",
        4 => "tp",
        5 => "t0",
        6 => "t1",
        7 => "t2",
        8 => "s0",
        9 => "s1",
        10 => "a0",
        11 => "a1",
        12 => "a2",
        13 => "a3",
        14 => "a4",
        15 => "a5",
        16 => "a6",
        17 => "a7",
        18 => "s2",
        19 => "s3",
        20 => "s4",
        21 => "s5",
        22 => "s6",
        23 => "s7",
        24 => "s8",
        25 => "s9",
        26 => "s10",
        27 => "s11",
        28 => "t3",
        29 => "t4",
        30 => "t5",
        _ => "t6",
    }
}

/// A RISC-V processing element.
///
/// `regs` is the register file, `pc` the program counter and `next_pc` the
/// value that the program counter takes at the end of the current cycle;
/// `bus` gives access to memory.
pub struct Cpu {
    regs: [u64; 32],
    last_used_register: RegIndex,
    csregs: [u64; 4096],
    pc: u64,
    next_pc: u64,
    bus: Bus,
    debug_mode: bool,
    debug_string: String,
}

impl View for Cpu {
    type V = CpuView;

    closed spec fn view(&self) -> CpuView {
        CpuView {
            regs: self.regs@,
            last_used_register: self.last_used_register,
            csregs: self.csregs@,
            pc: self.pc,
            next_pc: self.next_pc,
            bus: self.bus@,
            debug_mode: self.debug_mode,
            debug_string: self.debug_string@,
        }
    }
}

/// The state of a processor that was just made: everything zero, the debug
/// mode off, and the bus in its initial state.
pub open spec fn initial_state(memsize: Option<usize>) -> CpuView {
    CpuView {
        regs: Seq::new(32, |i: int| 0u64),
        last_used_register: 0,
        csregs: Seq::new(4096, |i: int| 0u64),
        pc: 0,
        next_pc: 0,
        bus: BusView::initial(memsize),
        debug_mode: false,
        debug_string: Seq::empty(),
    }
}

impl Cpu {
    pub const ZERO_REGISTER: RegIndex = 0x0;

    pub const RETURN_REGISTER: RegIndex = 0x1;

    pub const STACK_POINTER: RegIndex = 0x2;

    pub const GLOBAL_POINTER: RegIndex = 0x3;

    /// The return address that the return register holds at startup. A
    /// program that returns from its entry function loads it into the
    /// program counter, which ends the run.
    pub const SENTINEL_RETURN_ADDRESS: u64 = crate::machine::SENTINEL_RETURN_ADDRESS;

    /// The state of a processor always has 32 general and 4096
    /// control/status registers.
    pub proof fn lemma_view_wf(&self)
        ensures
            self@.wf(),
    {
    }

    /// A processor with a DRAM of `memsize` bytes.
    pub fn new(memsize: Option<usize>) -> (cpu: Cpu)
        ensures
            cpu@ == initial_state(memsize),
    {
        let cpu = Cpu {
            regs: [0;32],
            last_used_register: 0,
            csregs: [0;4096],
            pc: PC_INITIAL_VALUE,
            next_pc: PC_INITIAL_VALUE,
            bus: Bus::new(memsize),
            debug_string: String::new(),
            debug_mode: false,
        };
        assert(cpu@.regs =~= initial_state(memsize).regs);
        assert(cpu@.csregs =~= initial_state(memsize).csregs);
        cpu
    }

    /// Writes `data` to register `regi`.
    #[inline(always)]
    pub fn write_reg(&mut self, regi: RegIndex, data: u64)
        requires
            regi < 32,
        ensures
            final(self)@ == old(self)@.write_reg(regi, data),
    {
        self.regs[regi as usize] = data;
        self.last_used_register = regi;
    }

    /// Reads register `regi`. Register 0 reads as zero.
    #[inline(always)]
    pub fn read_reg(&self, regi: RegIndex) -> (data: u64)
        requires
            regi < 32,
        ensures
            data == self@.reg(regi),
            regi == 0 ==> data == 0,
    {
        if regi == Cpu::ZERO_REGISTER {
            0
        } else {
            self.regs[regi as usize]
        }
    }

    /// Writes `data` to control/status register `csregi`.
    #[inline(always)]
    pub fn write_csreg(&mut self, csregi: CSRegIndex, data: u64)
        requires
            csregi < 4096,
        ensures
            final(self)@ == old(self)@.write_csr(csregi, data),
    {
        self.csregs[csregi as usize] = data;
    }

    /// Reads control/status register `csregi`.
    #[inline(always)]
    pub fn read_csreg(&self, csregi: CSRegIndex) -> (data: u64)
        requires
            csregi < 4096,
        ensures
            data == self@.csr(csregi),
    {
        self.csregs[csregi as usize]
    }

    /// The register that was written last.
    pub fn get_last_used_register(&self) -> (regi: RegIndex)
        ensures
            regi == self@.last_used_register,
    {
        self.last_used_register
    }

    /// Whether `regi` is the register that was written last, which register
    /// 0 never is.
    pub fn is_last_used(&self, regi: RegIndex) -> (last: bool)
        ensures
            last == (regi != 0 && regi == self@.last_used_register),
    {
        self.last_used_register != 0 && self.last_used_register == regi
    }

    #[inline(always)]
    pub fn set_debug_mode(&mut self)
        ensures
            final(self)@ == (CpuView { debug_mode: true, ..old(self)@ }),
    {
        self.debug_mode = true;
    }

    #[inline(always)]
    pub fn clear_debug_mode(&mut self)
        ensures
            final(self)@ == (CpuView { debug_mode: false, ..old(self)@ }),
    {
        self.debug_mode = false;
    }

    #[inline(always)]
    pub fn is_debug_mode(&self) -> (on: bool)
        ensures
            on == self@.debug_mode,
    {
        self.debug_mode
    }

    /// Sets the text that describes the decoded instruction.
    #[inline(always)]
    pub fn set_debug_string(&mut self, dec_instruction: String)
        ensures
            final(self)@ == (CpuView { debug_string: dec_instruction@, ..old(self)@ }),
    {
        self.debug_string = dec_instruction
    }

    /// The text that describes the decoded instruction.
    pub fn get_debug_string(&self) -> (text: &str)
        ensures
            text@ == self@.debug_string,
    {
        self.debug_string.as_str()
    }

    #[inline(always)]
    pub fn get_pc(&self) -> (pc: u64)
        ensures
            pc == self@.pc,
    {
        self.pc
    }

    #[inline(always)]
    pub fn set_pc(&mut self, value: u64)
        ensures
            final(self)@ == (CpuView { pc: value, ..old(self)@ }),
    {
        self.pc = value;
    }

    #[inline(always)]
    pub fn get_next_pc(&self) -> (next_pc: u64)
        ensures
            next_pc == self@.next_pc,
    {
        self.next_pc
    }

    /// Sets the next program counter to the program counter plus `value`, wrapping.
    #[inline(always)]
    pub fn set_next_pc_rel(&mut self, value: i64)
        ensures
            final(self)@ == old(self)@.set_next_pc(wrap64(old(self)@.pc + value)),
    {
        self.next_pc = self.pc.wrapping_add_signed(value);
    }

    #[inline(always)]
    pub fn set_next_pc_abs(&mut self, value: u64)
        ensures
            final(self)@ == old(self)@.set_next_pc(value),
    {
        self.next_pc = value;
    }

    /// Sets the stack pointer, which is register 2.
    #[inline(always)]
    pub fn set_stack_pointer(&mut self, value: u64)
        ensures
            final(self)@ == (CpuView { regs: old(self)@.regs.update(2, value), ..old(self)@ }),
    {
        self.regs[Cpu::STACK_POINTER as usize] = value;
    }

    /// `true` when the bus serves an access of `size` at `addr`.
    pub fn is_mapped(&self, addr: u64, size: AccessSize) -> (b: bool)
        ensures
            b == self@.bus.maps(addr, size.width()),
    {
        self.bus.is_mapped(addr, size)
    }

    /// Loads from `addr` through the bus.
    #[inline(always)]
    pub fn load(&self, addr: u64, size: AccessSize) -> (data: u64)
        requires
            self@.bus.maps(addr, size.width()),
        ensures
            data == self@.load(addr, size),
            data < size.modulus(),
    {
        self.bus.read(addr, size)
    }

    /// Stores the low bytes of `data` at `addr` through the bus.
    #[inline(always)]
    pub fn store(&mut self, data: u64, addr: u64, size: AccessSize)
        requires
            old(self)@.bus.maps(addr, size.width()),
        ensures
            final(self)@ == old(self)@.store(data, addr, size),
    {
        self.bus.write(data, addr, size);
    }

    /// Copies `data` to `addr`, into the ROM or the DRAM as the address decides.
    pub fn store_from_buffer(&mut self, data: &[u8], addr: u64)
        requires
            old(self)@.bus.offset(addr) >= 0,
        ensures
            final(self)@ == (CpuView {
                bus: old(self)@.bus.write_from_buf(addr, data@),
                ..old(self)@
            }),
    {
        self.bus.write_from_buf(addr, data)
    }

    pub fn get_read_only_memsize(&self) -> (n: usize)
        ensures
            n == self@.bus.rom.len(),
    {
        self.bus.get_rom_size()
    }

    pub fn get_read_write_memsize(&self) -> (n: usize)
        ensures
            n == self@.bus.dram.len(),
    {
        self.bus.get_dram_size()
    }

    /// Sets the address at which the ROM starts.
    pub fn set_read_only_segment(&mut self, offset: u64)
        ensures
            final(self)@ == (CpuView {
                bus: BusView { rom_offset: offset, ..old(self)@.bus },
                ..old(self)@
            }),
    {
        self.bus.set_rom_offset(offset);
    }

    /// Sets the address at which the DRAM starts.
    pub fn set_read_write_segment(&mut self, offset: u64)
        ensures
            final(self)@ == (CpuView {
                bus: BusView { dram_offset: offset, ..old(self)@.bus },
                ..old(self)@
            }),
    {
        self.bus.set_dram_offset(offset)
    }

    /// The DRAM.
    pub fn get_memory(&self) -> (m: &Memory)
        ensures
            m@ == self@.bus.dram,
    {
        self.bus.get_device()
    }

    /// The fetch, decode and execute loop. It runs until the program counter
    /// holds the sentinel and returns the number of instructions that it
    /// executed; the check that ends the run is not counted.
    ///
    /// A cycle that runs into a fault ends the run with that fault, and leaves
    /// the processor as it was before that cycle. The count cannot pass
    /// `u64::MAX`: a run of that many instructions ends there.
    pub fn cpu_loop(&mut self) -> (res: Result<u64, Fault>)
        ensures
            ends_run(old(self)@, u64::MAX, final(self)@, res),
    {
        let ghost start = self@;
        let mut count_instructions: u64 = 0;
        while count_instructions < u64::MAX
            invariant
                start == old(self)@,
                runs(start, count_instructions as nat),
                self@ == cycles(start, count_instructions as nat),
            decreases u64::MAX - count_instructions,
        {
            if self.pc == Cpu::SENTINEL_RETURN_ADDRESS {
                return Ok(count_instructions);
            }
            // Fetch, decode and execute one instruction, then assign the next
            // PC, which the instruction might have changed, to the PC
            match self.cycle() {
                Err(fault) => {
                    return Err(fault);
                },
                Ok(()) => {},
            }
            proof {
                lemma_runs_extend(start, count_instructions as nat);
            }
            count_instructions += 1;
        }
        Ok(count_instructions)
    }

    /// The loop of `cpu_loop`, for at most `num_steps` instructions.
    pub fn cpu_loop_interactive(&mut self, num_steps: u64) -> (res: Result<u64, Fault>)
        ensures
            ends_run(old(self)@, num_steps, final(self)@, res),
    {
        let ghost start = self@;
        let mut count_instructions: u64 = 0;
        while count_instructions < num_steps
            invariant
                start == old(self)@,
                count_instructions <= num_steps,
                runs(start, count_instructions as nat),
                self@ == cycles(start, count_instructions as nat),
            decreases num_steps - count_instructions,
        {
            if self.pc == Cpu::SENTINEL_RETURN_ADDRESS {
                return Ok(count_instructions);
            }
            match self.cycle() {
                Err(fault) => {
                    return Err(fault);
                },
                Ok(()) => {},
            }
            proof {
                lemma_runs_extend(start, count_instructions as nat);
            }
            count_instructions += 1;
        }
        Ok(count_instructions)
    }

    /// One cycle: fetch, predict the next program counter, decode and
    /// execute, advance. A cycle that runs into a fault changes nothing.
    pub fn cycle(&mut self) -> (res: Result<(), Fault>)
        ensures
            match cycle_fault(old(self)@) {
                Some(fault) => res == Err::<(), Fault>(fault) && final(self)@ == old(self)@,
                None => res == Ok::<(), Fault>(()) && final(self)@ == cycle(old(self)@),
            },
    {
        if !self.bus.is_mapped(self.pc, AccessSize::WORD) {
            return Err(Fault::OutOfBounds { addr: self.pc, pc: self.pc });
        }
        let fetched_instruction: Instruction = self.fetch();
        // Set the next PC assuming we continue the flow of execution
        let next_pc_before: u64 = self.next_pc;
        self.next_pc = self.pc.wrapping_add(4);
        // Decode the instruction and call the function that implements
        // that instruction
        match self.decode_and_execute(fetched_instruction) {
            Err(fault) => {
                self.next_pc = next_pc_before;
                Err(fault)
            },
            Ok(()) => {
                // The executed instruction might have changed the next PC
                // from the PC + 4 value, now assign next PC to PC
                self.pc = self.next_pc;
                Ok(())
            },
        }
    }

    /// Reads the instruction at the program counter.
    fn fetch(&self) -> (instr: Instruction)
        requires
            self@.bus.maps(self@.pc, 4),
        ensures
            instr == fetched(self@),
    {
        self.bus.read(self.pc, AccessSize::WORD) as Instruction
    }

    /// Hands the instruction to the decoder, which calls the function that
    /// executes it.
    fn decode_and_execute(&mut self, instr: Instruction) -> (res: Result<(), Fault>)
        ensures
            match instr_fault(old(self)@, instr) {
                Some(fault) => res == Err::<(), Fault>(fault) && final(self)@ == old(self)@,
                None => res == Ok::<(), Fault>(()) && final(self)@ == crate::machine::execute(
                    old(self)@,
                    crate::isa::decode_spec(instr)->0,
                ),
            },
    {
        crate::rv::decode(instr, self)
    }
}

} // verus!
