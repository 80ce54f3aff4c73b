//! The emulator: a processor, the loading of a program into it, and its run.

use crate::bus::BusView;
use crate::cpu::{initial_state, Cpu};
use crate::elf::{image_entry, image_error, image_space, read_image, ElfError};
use crate::isa::wrap64;
use crate::machine::{ends_run, CpuView, Fault, SENTINEL_RETURN_ADDRESS};
use std::time::Duration;
use vstd::prelude::*;

verus! {

/// `Instant` of std: a moment on the host's monotonic clock. It is carried
/// from the start of a run to its end and never looked into.
#[verifier::external_type_specification]
#[verifier::external_body]
pub struct ExInstant(std::time::Instant);

/// `Instant::now` of std: the present moment on the host's monotonic clock.
/// Nothing is claimed of it.
#[verifier::external_body]
fn clock_now() -> (now: std::time::Instant) {
    std::time::Instant::now()
}

/// `Instant::elapsed` of std: the time that has passed on the host's clock
/// since `start`. Nothing is claimed of it.
#[verifier::external_body]
fn clock_elapsed(start: &std::time::Instant) -> (elapsed: Duration) {
    start.elapsed()
}

/// The state of a processor in state `m` after `image` was loaded into it.
///
/// The two regions start at the guest addresses of the two segments; the
/// code segment is copied to its address and then the data segment to its
/// own. The program counter is the entry point, `ra` the sentinel, `sp`
/// the end of the DRAM and `gp` its middle.
pub open spec fn loaded(m: CpuView, image: Seq<u8>) -> CpuView {
    let space = image_space(image);
    let code = image.subrange(
        space.read_execute_offset as int,
        space.read_execute_offset + space.read_execute_size,
    );
    let data = image.subrange(
        space.read_write_offset as int,
        space.read_write_offset + space.read_write_size,
    );
    let placed = BusView {
        rom_offset: space.read_execute_segment,
        dram_offset: space.read_write_segment,
        ..m.bus
    };
    let bus = placed.write_from_buf(space.read_execute_segment, code).write_from_buf(
        space.read_write_segment,
        data,
    );
    let dram_size = bus.dram.len() as u64;
    CpuView {
        bus,
        pc: image_entry(image),
        regs: m.regs.update(1, SENTINEL_RETURN_ADDRESS).update(
            2,
            wrap64(space.read_write_segment + dram_size),
        ).update(3, wrap64(space.read_write_segment + dram_size / 2)),
        last_used_register: 3,
        ..m
    }
}

/// Emulator is just a wrapper for a CPU
pub struct Emulator {
    cpu: Cpu,
}

impl View for Emulator {
    type V = CpuView;

    closed spec fn view(&self) -> CpuView {
        self.cpu@
    }
}

impl Emulator {
    /// Create a new emulator with a certain memory size (DRAM)
    pub fn new(memsize: Option<usize>) -> (emulator: Emulator)
        ensures
            emulator@ == initial_state(memsize),
    {
        Emulator { cpu: Cpu::new(memsize) }
    }

    /// Parses the ELF image `image` and sets the CPU up to execute it. An
    /// image that cannot be loaded is refused and changes nothing.
    pub fn load_program(&mut self, image: &[u8]) -> (res: Result<(), ElfError>)
        ensures
            match image_error(image@) {
                Some(error) => res == Err::<(), ElfError>(error) && final(self)@ == old(self)@,
                None => res == Ok::<(), ElfError>(()) && final(self)@ == loaded(
                    old(self)@,
                    image@,
                ),
            },
    {
        let (entry_point, addr_space) = match read_image(image) {
            Ok(layout) => layout,
            Err(error) => {
                return Err(error);
            },
        };
        assert(image@.len() == image.len());

        // Set the read-only memory offset (address at which the read only memory starts)
        self.cpu.set_read_only_segment(addr_space.read_execute_segment);
        // Set the read-write memory offset
        self.cpu.set_read_write_segment(addr_space.read_write_segment);
        // Copy the read-execute segment in the file into the read only memory of the CPU
        self.cpu.store_from_buffer(
            vstd::slice::slice_subrange(
                image,
                addr_space.read_execute_offset as usize,
                (addr_space.read_execute_offset + addr_space.read_execute_size) as usize,
            ),
            addr_space.read_execute_segment,
        );

        // Copy the read-write segment from the file into the DRAM of the CPU
        self.cpu.store_from_buffer(
            vstd::slice::slice_subrange(
                image,
                addr_space.read_write_offset as usize,
                (addr_space.read_write_offset + addr_space.read_write_size) as usize,
            ),
            addr_space.read_write_segment,
        );

        // Set initial value of the PC
        self.cpu.set_pc(entry_point);

        // Load sentinel value in RA. If a program executes the "ret" instruction and there is
        // nowhere else to return but this value then the emulator will stop executing instructions
        self.cpu.write_reg(Cpu::RETURN_REGISTER, Cpu::SENTINEL_RETURN_ADDRESS);

        // Set SP to the last address in the DRAM
        let dram_size: u64 = self.cpu.get_read_write_memsize() as u64;
        self.cpu.set_stack_pointer(addr_space.read_write_segment.wrapping_add(dram_size));

        // Set GP to the middle address in the DRAM
        self.cpu.write_reg(
            Cpu::GLOBAL_POINTER,
            addr_space.read_write_segment.wrapping_add(dram_size / 2),
        );
        Ok(())
    }

    /// Lets the CPU execute instructions until the program counter holds
    /// the sentinel. It returns the time that the run took on the host and
    /// the number of executed instructions, or the fault that ended the run.
    pub fn run(&mut self) -> (res: (Duration, Result<u64, Fault>))
        ensures
            ends_run(old(self)@, u64::MAX, final(self)@, res.1),
    {
        // Start the execution time counter
        let now = clock_now();

        // Run CPU loop, this will return the number of executed instructions
        let instruction_count = self.cpu.cpu_loop();
        (clock_elapsed(&now), instruction_count)
    }

    /// Lets the CPU execute at most `num_steps` instructions.
    pub fn step(&mut self, num_steps: u64) -> (res: Result<u64, Fault>)
        ensures
            ends_run(old(self)@, num_steps, final(self)@, res),
    {
        self.cpu.cpu_loop_interactive(num_steps)
    }

    /// Switches the debug mode of the CPU on or off.
    pub fn set_debug_mode(&mut self, on: bool)
        ensures
            final(self)@ == (CpuView { debug_mode: on, ..old(self)@ }),
    {
        if on {
            self.cpu.set_debug_mode();
        } else {
            self.cpu.clear_debug_mode();
        }
    }

    /// The CPU.
    pub fn get_cpu(&self) -> (cpu: &Cpu)
        ensures
            cpu@ == self@,
    {
        &self.cpu
    }

    /// The bytes of the DRAM, in order.
    pub fn dump_memory(&self) -> (bytes: &[u8])
        ensures
            bytes@ == self@.bus.dram,
    {
        self.cpu.get_memory().as_bytes()
    }
}

} // verus!
