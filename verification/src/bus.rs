//! The bus: everything that the processor reaches by a guest address.
//!
//! Two regions hang on it, a ROM for code and a DRAM for data, each with the
//! guest address at which it starts. One threshold decides where an address
//! goes: below the start of the DRAM it is the ROM's, from there on the DRAM's.

use crate::memory::{bulk_store, le_store, le_value, AccessSize, Memory};
use vstd::prelude::*;

verus! {

/// What a bus holds: the bytes of its two regions and where each starts.
pub struct BusView {
    pub dram: Seq<u8>,
    pub dram_offset: u64,
    pub rom: Seq<u8>,
    pub rom_offset: u64,
}

impl BusView {
    /// A bus as it is made: a zeroed DRAM of `memsize` bytes (none for
    /// `None`) at 0x20000 and a zeroed ROM of 1024 bytes at 0.
    pub open spec fn initial(memsize: Option<usize>) -> BusView {
        BusView {
            dram: Seq::new(
                match memsize {
                    Some(n) => n as nat,
                    None => 0,
                },
                |i: int| 0u8,
            ),
            dram_offset: 0x0002_0000,
            rom: Seq::new(1024, |i: int| 0u8),
            rom_offset: 0,
        }
    }

    /// Whether `addr` goes to the ROM.
    pub open spec fn targets_rom(self, addr: u64) -> bool {
        addr < self.dram_offset
    }

    /// The bytes of the region that `addr` goes to.
    pub open spec fn region(self, addr: u64) -> Seq<u8> {
        if self.targets_rom(addr) {
            self.rom
        } else {
            self.dram
        }
    }

    /// The guest address at which the region of `addr` starts.
    pub open spec fn base(self, addr: u64) -> u64 {
        if self.targets_rom(addr) {
            self.rom_offset
        } else {
            self.dram_offset
        }
    }

    /// The offset that the region of `addr` sees for it.
    pub open spec fn offset(self, addr: u64) -> int {
        addr - self.base(addr)
    }

    /// Whether the `width` bytes at `addr` lie inside the region of `addr`.
    pub open spec fn maps(self, addr: u64, width: nat) -> bool {
        0 <= self.offset(addr) && self.offset(addr) + width <= self.region(addr).len()
    }

    /// The little-endian value that an access of `size` reads at `addr`.
    pub open spec fn read(self, addr: u64, size: AccessSize) -> nat {
        le_value(self.region(addr), self.offset(addr), size.width())
    }

    /// The bus with `bytes` in place of the region that `addr` goes to.
    pub open spec fn with_region(self, addr: u64, bytes: Seq<u8>) -> BusView {
        if self.targets_rom(addr) {
            BusView { rom: bytes, ..self }
        } else {
            BusView { dram: bytes, ..self }
        }
    }

    /// The bus after the low bytes of `data` were written at `addr`.
    pub open spec fn write(self, data: u64, addr: u64, size: AccessSize) -> BusView {
        self.with_region(
            addr,
            le_store(self.region(addr), data as nat, self.offset(addr), size.width()),
        )
    }

    /// The bus after `buf` was copied to `addr`.
    pub open spec fn write_from_buf(self, addr: u64, buf: Seq<u8>) -> BusView {
        self.with_region(addr, bulk_store(self.region(addr), buf, self.offset(addr)))
    }
}

/// The region that serves an address sees the address less its own base:
/// the ROM below the start of the DRAM, the DRAM from there on. The other
/// region is not touched.
pub proof fn lemma_region_sees_offset(bus: BusView, data: u64, addr: u64, size: AccessSize)
    ensures
        addr < bus.dram_offset ==> {
            &&& bus.read(addr, size) == le_value(bus.rom, addr - bus.rom_offset, size.width())
            &&& bus.write(data, addr, size).rom == le_store(
                bus.rom,
                data as nat,
                addr - bus.rom_offset,
                size.width(),
            )
            &&& bus.write(data, addr, size).dram == bus.dram
        },
        addr >= bus.dram_offset ==> {
            &&& bus.read(addr, size) == le_value(bus.dram, addr - bus.dram_offset, size.width())
            &&& bus.write(data, addr, size).dram == le_store(
                bus.dram,
                data as nat,
                addr - bus.dram_offset,
                size.width(),
            )
            &&& bus.write(data, addr, size).rom == bus.rom
        },
{
}

/// What a write puts on the bus, a read of the same place and width gets
/// back, reduced to that width.
pub proof fn lemma_read_after_write(bus: BusView, data: u64, addr: u64, size: AccessSize)
    requires
        bus.maps(addr, size.width()),
    ensures
        bus.write(data, addr, size).read(addr, size) == data as nat % size.modulus(),
{
    crate::memory::lemma_load_after_store(bus.region(addr), data, bus.offset(addr), size);
}

pub struct Bus {
    dram: Memory,
    dram_offset: u64,
    rom: Memory,
    rom_offset: u64,
}

impl View for Bus {
    type V = BusView;

    closed spec fn view(&self) -> BusView {
        BusView {
            dram: self.dram@,
            dram_offset: self.dram_offset,
            rom: self.rom@,
            rom_offset: self.rom_offset,
        }
    }
}

impl Bus {
    pub const TEXT_START_DEFAULT: u64 = 0x00000000;

    pub const DATA_START_DEFAULT: u64 = 0x00020000;

    /// A bus with a zeroed DRAM of `memsize` bytes (none for `None`) and a
    /// zeroed ROM of the default size, both at their default addresses.
    pub fn new(memsize: Option<usize>) -> (bus: Bus)
        ensures
            bus@ == BusView::initial(memsize),
    {
        Bus {
            dram: Memory::new(memsize),
            dram_offset: Bus::DATA_START_DEFAULT,
            rom: Memory::new(Some(Memory::ROM_DEFAULT_SIZE)),
            rom_offset: Bus::TEXT_START_DEFAULT,
        }
    }

    /// `true` when an access of `size` at `addr` lies inside the region that
    /// serves `addr`.
    pub fn is_mapped(&self, addr: u64, size: AccessSize) -> (b: bool)
        ensures
            b == self@.maps(addr, size.width()),
    {
        if addr < self.dram_offset {
            addr >= self.rom_offset && self.rom.in_bounds(addr - self.rom_offset, size)
        } else {
            self.dram.in_bounds(addr - self.dram_offset, size)
        }
    }

    /// Reads from the region that serves `addr`, at `addr` less its base.
    pub fn read(&self, addr: u64, size: AccessSize) -> (r: u64)
        requires
            self@.maps(addr, size.width()),
        ensures
            r == self@.read(addr, size),
            r < size.modulus(),
    {
        if addr < self.dram_offset {
            self.rom.load(addr - self.rom_offset, size)
        } else {
            self.dram.load(addr - self.dram_offset, size)
        }
    }

    /// Writes to the region that serves `addr`, at `addr` less its base.
    pub fn write(&mut self, data: u64, addr: u64, size: AccessSize)
        requires
            old(self)@.maps(addr, size.width()),
        ensures
            final(self)@ == old(self)@.write(data, addr, size),
    {
        if addr < self.dram_offset {
            self.rom.store(data, addr - self.rom_offset, size);
        } else {
            self.dram.store(data, addr - self.dram_offset, size);
        }
    }

    pub fn set_dram_offset(&mut self, offset: u64)
        ensures
            final(self)@ == (BusView { dram_offset: offset, ..old(self)@ }),
    {
        self.dram_offset = offset;
    }

    pub fn set_rom_offset(&mut self, offset: u64)
        ensures
            final(self)@ == (BusView { rom_offset: offset, ..old(self)@ }),
    {
        self.rom_offset = offset;
    }

    pub fn get_dram_size(&self) -> (n: usize)
        ensures
            n == self@.dram.len(),
    {
        self.dram.get_size()
    }

    pub fn get_rom_size(&self) -> (n: usize)
        ensures
            n == self@.rom.len(),
    {
        self.rom.get_size()
    }

    /// Copies `buf` to the region that serves `addr`, which grows where
    /// `buf` does not fit.
    pub fn write_from_buf(&mut self, addr: u64, buf: &[u8])
        requires
            old(self)@.offset(addr) >= 0,
        ensures
            final(self)@ == old(self)@.write_from_buf(addr, buf@),
    {
        if addr < self.dram_offset {
            self.rom.store_n_bytes(buf, addr - self.rom_offset, buf.len());
        } else {
            self.dram.store_n_bytes(buf, addr - self.dram_offset, buf.len());
        }
    }

    /// The DRAM.
    pub fn get_device(&self) -> (m: &Memory)
        ensures
            m@ == self@.dram,
    {
        &self.dram
    }
}

} // verus!
