//! The terminal behind the serial port: a buffer of bytes that wait to be
//! shown and a buffer of bytes that were typed.

use vstd::prelude::*;

verus! {

/// What a terminal holds.
pub struct CliView {
    /// The bytes that were written and not yet taken out, oldest first.
    pub output: Seq<u8>,
    /// The bytes that were typed and not yet read, oldest first.
    pub input: Seq<u8>,
}

pub struct CLI {
    output_buffer: Vec<u8>,
    input_buffer: Vec<u8>,
}

impl View for CLI {
    type V = CliView;

    closed spec fn view(&self) -> CliView {
        CliView { output: self.output_buffer@, input: self.input_buffer@ }
    }
}

impl CLI {
    pub fn new() -> (cli: CLI)
        ensures
            cli@ == (CliView { output: Seq::empty(), input: Seq::empty() }),
    {
        CLI { output_buffer: Vec::new(), input_buffer: Vec::new() }
    }

    /// Hands out the bytes that wait to be shown and forgets them.
    pub fn take_output(&mut self) -> (bytes: Vec<u8>)
        ensures
            bytes@ == old(self)@.output,
            final(self)@ == (CliView { output: Seq::empty(), ..old(self)@ }),
    {
        let mut bytes: Vec<u8> = Vec::new();
        bytes.append(&mut self.output_buffer);
        bytes
    }

    /// Appends `bytes` to what was typed.
    pub fn push_input(&mut self, bytes: &[u8])
        ensures
            final(self)@ == (CliView { input: old(self)@.input + bytes@, ..old(self)@ }),
    {
        self.input_buffer.extend_from_slice(bytes);
        assert(self.input_buffer@ =~= old(self)@.input + bytes@);
    }

    /// Appends `value` to what waits to be shown.
    pub fn write_byte(&mut self, value: u8)
        ensures
            final(self)@ == (CliView { output: old(self)@.output.push(value), ..old(self)@ }),
    {
        self.output_buffer.push(value);
    }

    /// Takes the oldest byte that was typed, or returns 0 when there is none.
    pub fn read_byte(&mut self) -> (value: u8)
        ensures
            old(self)@.input.len() > 0 ==> {
                &&& value == old(self)@.input[0]
                &&& final(self)@ == (CliView {
                    input: old(self)@.input.subrange(1, old(self)@.input.len() as int),
                    ..old(self)@
                })
            },
            old(self)@.input.len() == 0 ==> value == 0 && final(self)@ == old(self)@,
    {
        if self.input_buffer.len() > 0 {
            let value = self.input_buffer.remove(0);
            assert(self.input_buffer@ =~= old(self)@.input.subrange(
                1,
                old(self)@.input.len() as int,
            ));
            value
        } else {
            0
        }
    }
}

} // verus!
