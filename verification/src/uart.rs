//! A serial port with the register file of a 16550 and a terminal behind it.

use crate::cli::{CliView, CLI};
use vstd::prelude::*;

verus! {

/// What a serial port holds: its registers and its terminal.
pub struct UartView {
    pub rhr: u8,
    pub thr: u8,
    pub ier: u8,
    pub fcr: u8,
    pub isr: u8,
    pub lcr: u8,
    pub mcr: u8,
    pub lsr: u8,
    pub msr: u8,
    pub spr: u8,
    pub terminal: CliView,
}

impl UartView {
    /// Whether the transmit register holds a byte that was not sent yet:
    /// bit 6 of the line status is clear.
    pub open spec fn thr_full(self) -> bool {
        (self.lsr >> 6) & 0x1 == 0x0
    }

    /// Whether the receive register is free to take the next byte: bit 0 of
    /// the line status is set.
    pub open spec fn rhr_ready(self) -> bool {
        self.lsr & 0x1 == 0x1
    }

    /// The port after a write of `data` to register `addr`. Register 0 takes
    /// the byte to transmit and marks it as waiting; registers 1 to 4 are
    /// plain; register 7 writes the modem control register; the others
    /// ignore writes.
    pub open spec fn write(self, addr: u8, data: u8) -> UartView {
        if addr == 0 {
            UartView { thr: data, lsr: self.lsr & 0b10111111, ..self }
        } else if addr == 1 {
            UartView { ier: data, ..self }
        } else if addr == 2 {
            UartView { fcr: data, ..self }
        } else if addr == 3 {
            UartView { lcr: data, ..self }
        } else if addr == 4 || addr == 7 {
            UartView { mcr: data, ..self }
        } else {
            self
        }
    }

    /// The port after a read of register `addr`. A read of register 0
    /// empties the receive register and frees it; the others change nothing.
    pub open spec fn read(self, addr: u8) -> UartView {
        if addr == 0 {
            UartView { rhr: 0, lsr: self.lsr | 0b00000001, ..self }
        } else {
            self
        }
    }

    /// The port after the first half of a cycle: a waiting byte that is not
    /// zero goes to the terminal, and the transmit register is marked empty.
    pub open spec fn transmit(self) -> UartView {
        if self.thr_full() && self.thr != 0 {
            UartView {
                terminal: CliView {
                    output: self.terminal.output.push(self.thr),
                    ..self.terminal
                },
                lsr: self.lsr | 0b01000000,
                ..self
            }
        } else {
            self
        }
    }

    /// The port after the second half of a cycle: a free receive register
    /// takes the oldest byte that was typed, or 0 when there is none, and is
    /// marked as taken.
    pub open spec fn receive(self) -> UartView {
        if self.rhr_ready() {
            UartView {
                rhr: if self.terminal.input.len() > 0 {
                    self.terminal.input[0]
                } else {
                    0
                },
                terminal: if self.terminal.input.len() > 0 {
                    CliView {
                        input: self.terminal.input.subrange(1, self.terminal.input.len() as int),
                        ..self.terminal
                    }
                } else {
                    self.terminal
                },
                lsr: self.lsr & 0b11111110,
                ..self
            }
        } else {
            self
        }
    }
}

pub struct UART {
    rhr: u8,
    thr: u8,
    ier: u8,
    fcr: u8,
    isr: u8,
    lcr: u8,
    mcr: u8,
    lsr: u8,
    msr: u8,
    spr: u8,
    terminal: CLI,
}

impl View for UART {
    type V = UartView;

    closed spec fn view(&self) -> UartView {
        UartView {
            rhr: self.rhr,
            thr: self.thr,
            ier: self.ier,
            fcr: self.fcr,
            isr: self.isr,
            lcr: self.lcr,
            mcr: self.mcr,
            lsr: self.lsr,
            msr: self.msr,
            spr: self.spr,
            terminal: self.terminal@,
        }
    }
}

impl UART {
    pub const RHR_THR_ADDR: u8 = 0x0;

    pub const IER_ADDR: u8 = 0x1;

    pub const FCR_ISR_ADDR: u8 = 0x2;

    pub const LCR_ADDR: u8 = 0x3;

    pub const MCR_ADDR: u8 = 0x4;

    pub const LSR_ADDR: u8 = 0x5;

    pub const MSR_ADDR: u8 = 0x6;

    pub const SPR_ADDR: u8 = 0x7;

    /// A port with all registers zero but the line status, which says that
    /// the receive register is free, and with an empty terminal.
    pub fn new() -> (uart: UART)
        ensures
            uart@ == (UartView {
                rhr: 0,
                thr: 0,
                ier: 0,
                fcr: 0,
                isr: 0,
                lcr: 0,
                mcr: 0,
                lsr: 0x1,
                msr: 0,
                spr: 0,
                terminal: CliView { output: Seq::empty(), input: Seq::empty() },
            }),
    {
        UART {
            rhr: 0,
            thr: 0,
            ier: 0,
            fcr: 0,
            isr: 0,
            lcr: 0,
            mcr: 0,
            lsr: 0x1,
            msr: 0,
            spr: 0,
            terminal: CLI::new(),
        }
    }

    fn thr_full(&self) -> (full: bool)
        ensures
            full == self@.thr_full(),
    {
        (self.lsr >> 6) & 0x1 == 0x0
    }

    fn set_thr_full(&mut self)
        ensures
            final(self)@ == (UartView { lsr: old(self)@.lsr & 0b10111111, ..old(self)@ }),
    {
        self.lsr = self.lsr & 0b10111111;
    }

    fn set_thr_empty(&mut self)
        ensures
            final(self)@ == (UartView { lsr: old(self)@.lsr | 0b01000000, ..old(self)@ }),
    {
        self.lsr = self.lsr | 0b01000000;
    }

    fn rhr_ready(&self) -> (ready: bool)
        ensures
            ready == self@.rhr_ready(),
    {
        self.lsr & 0x1 == 0x1
    }

    fn rhr_set_not_ready(&mut self)
        ensures
            final(self)@ == (UartView { lsr: old(self)@.lsr & 0b11111110, ..old(self)@ }),
    {
        self.lsr = self.lsr & 0b11111110;
    }

    fn rhr_set_ready(&mut self)
        ensures
            final(self)@ == (UartView { lsr: old(self)@.lsr | 0b00000001, ..old(self)@ }),
    {
        self.lsr = self.lsr | 0b00000001;
    }

    /// One cycle of the port: it sends the waiting byte to the terminal,
    /// then takes the next typed byte into the receive register.
    pub fn cycle(&mut self)
        ensures
            final(self)@ == old(self)@.transmit().receive(),
    {
        if self.thr_full() && self.thr != 0 {
            self.terminal.write_byte(self.thr);
            self.set_thr_empty()
        }
        if self.rhr_ready() {
            self.rhr = self.terminal.read_byte();
            self.rhr_set_not_ready()
        }
    }

    pub fn write(&mut self, addr: u8, data: u8)
        ensures
            final(self)@ == old(self)@.write(addr, data),
    {
        match addr {
            0x0 => {
                self.thr = data;
                self.set_thr_full()
            },
            0x1 => self.ier = data,
            0x2 => self.fcr = data,
            0x3 => self.lcr = data,
            0x4 => self.mcr = data,
            0x7 => self.mcr = data,
            _ => (),
        }
    }

    pub fn read(&mut self, addr: u8) -> (data: u8)
        ensures
            final(self)@ == old(self)@.read(addr),
            data == (if addr == 0 {
                old(self)@.rhr
            } else {
                0
            }),
    {
        match addr {
            0x0 => {
                let rhr: u8 = self.rhr;
                self.rhr_set_ready();
                self.rhr = 0;
                rhr
            },
            _ => 0x0,
        }
    }

    /// Hands out the bytes that the port sent to its terminal and forgets them.
    pub fn take_output(&mut self) -> (bytes: Vec<u8>)
        ensures
            bytes@ == old(self)@.terminal.output,
            final(self)@ == (UartView {
                terminal: CliView { output: Seq::empty(), ..old(self)@.terminal },
                ..old(self)@
            }),
    {
        self.terminal.take_output()
    }

    /// Appends `bytes` to what was typed at the terminal of the port.
    pub fn push_input(&mut self, bytes: &[u8])
        ensures
            final(self)@ == (UartView {
                terminal: CliView {
                    input: old(self)@.terminal.input + bytes@,
                    ..old(self)@.terminal
                },
                ..old(self)@
            }),
    {
        self.terminal.push_input(bytes)
    }
}

} // verus!
