//! A contiguous, byte-addressable memory region with little-endian accesses.

use vstd::prelude::*;

verus! {

/// Width of a single memory access.
#[derive(Clone, Copy, PartialEq, Eq, Debug)]
pub enum AccessSize {
    BYTE,
    HALFWORD,
    WORD,
    DOUBLEWORD,
}

impl AccessSize {
    /// Number of bytes that an access of this size touches.
    pub open spec fn width(self) -> nat {
        match self {
            AccessSize::BYTE => 1,
            AccessSize::HALFWORD => 2,
            AccessSize::WORD => 4,
            AccessSize::DOUBLEWORD => 8,
        }
    }

    /// Number of distinct values that fit in an access of this size: `2^(8 * width)`.
    pub open spec fn modulus(self) -> nat {
        match self {
            AccessSize::BYTE => 0x100,
            AccessSize::HALFWORD => 0x1_0000,
            AccessSize::WORD => 0x1_0000_0000,
            AccessSize::DOUBLEWORD => 0x1_0000_0000_0000_0000,
        }
    }

    /// Number of bytes that an access of this size touches.
    pub fn bytes(&self) -> (w: u64)
        ensures
            w == self.width(),
    {
        match self {
            AccessSize::BYTE => 1,
            AccessSize::HALFWORD => 2,
            AccessSize::WORD => 4,
            AccessSize::DOUBLEWORD => 8,
        }
    }
}

/// The number that the `width` bytes of `mem` starting at `offset` spell,
/// least significant byte first.
pub open spec fn le_value(mem: Seq<u8>, offset: int, width: nat) -> nat
    decreases width,
{
    if width == 0 {
        0
    } else {
        mem[offset] as nat + 256 * le_value(mem, offset + 1, (width - 1) as nat)
    }
}

/// Byte number `k` of `value`, counting from the least significant one.
pub open spec fn le_byte(value: nat, k: nat) -> u8
    decreases k,
{
    if k == 0 {
        (value % 256) as u8
    } else {
        le_byte(value / 256, (k - 1) as nat)
    }
}

/// `mem` after the low `width` bytes of `value` were written at `offset`,
/// least significant byte first. Nothing else changes.
pub open spec fn le_store(mem: Seq<u8>, value: nat, offset: int, width: nat) -> Seq<u8> {
    Seq::new(
        mem.len(),
        |i: int|
            if offset <= i < offset + width {
                le_byte(value, (i - offset) as nat)
            } else {
                mem[i]
            },
    )
}

/// `mem` after `buf` was copied to `offset`. The part of `buf` that fits below
/// the end of `mem` overwrites what was there; the part that does not is
/// appended, so an image larger than the region makes the region grow.
pub open spec fn bulk_store(mem: Seq<u8>, buf: Seq<u8>, offset: int) -> Seq<u8> {
    if offset + buf.len() <= mem.len() {
        mem.subrange(0, offset) + buf + mem.subrange(offset + buf.len(), mem.len() as int)
    } else if offset <= mem.len() {
        mem.subrange(0, offset) + buf
    } else {
        mem + buf
    }
}

/// A buffer that is copied to an offset inside the region, or to its end,
/// is found at that offset afterwards, and the bytes in front of it are
/// as they were.
pub proof fn lemma_bulk_store_places(mem: Seq<u8>, buf: Seq<u8>, offset: int)
    requires
        0 <= offset <= mem.len(),
    ensures
        bulk_store(mem, buf, offset).len() == (if offset + buf.len() <= mem.len() {
            mem.len()
        } else {
            (offset + buf.len()) as nat
        }),
        bulk_store(mem, buf, offset).subrange(offset, offset + buf.len()) == buf,
        bulk_store(mem, buf, offset).subrange(0, offset) == mem.subrange(0, offset),
{
    let after = bulk_store(mem, buf, offset);
    assert(after.subrange(offset, offset + buf.len()) =~= buf);
    assert(after.subrange(0, offset) =~= mem.subrange(0, offset));
}

/// `256^width`: the number of values that `width` bytes can spell.
pub open spec fn byte_range(width: nat) -> nat
    decreases width,
{
    if width == 0 {
        1
    } else {
        256 * byte_range((width - 1) as nat)
    }
}

/// Bytes that are the low bytes of `value`, in little-endian order, spell
/// `value` reduced modulo `256^width`.
proof fn lemma_le_value_of_bytes(mem: Seq<u8>, value: nat, offset: int, width: nat)
    requires
        forall|k: int| 0 <= k < width ==> #[trigger] mem[offset + k] == le_byte(value, k as nat),
    ensures
        le_value(mem, offset, width) == value % byte_range(width),
        byte_range(width) > 0,
    decreases width,
{
    if width > 0 {
        let rest = (width - 1) as nat;
        assert forall|k: int| 0 <= k < rest implies #[trigger] mem[offset + 1 + k] == le_byte(
            value / 256,
            k as nat,
        ) by {
            assert(mem[offset + (k + 1)] == le_byte(value, (k + 1) as nat));
        }
        lemma_le_value_of_bytes(mem, value / 256, offset + 1, rest);
        assert(mem[offset + 0] == le_byte(value, 0));
        vstd::arithmetic::div_mod::lemma_mod_breakdown(
            value as int,
            256,
            byte_range(rest) as int,
        );
    }
}

/// Reading back what was just written yields the written value reduced to
/// the width of the access: the round trip through little-endian bytes.
pub proof fn lemma_load_after_store(mem: Seq<u8>, value: u64, offset: int, size: AccessSize)
    requires
        0 <= offset,
        offset + size.width() <= mem.len(),
    ensures
        le_value(le_store(mem, value as nat, offset, size.width()), offset, size.width())
            == value as nat % size.modulus(),
{
    let after = le_store(mem, value as nat, offset, size.width());
    assert forall|k: int| 0 <= k < size.width() implies #[trigger] after[offset + k] == le_byte(
        value as nat,
        k as nat,
    ) by {}
    lemma_le_value_of_bytes(after, value as nat, offset, size.width());
    assert(byte_range(size.width()) == size.modulus()) by {
        reveal_with_fuel(byte_range, 9);
    }
}

/// A store leaves every byte outside the written range as it was, and the
/// length of the region too.
pub proof fn lemma_store_frame(mem: Seq<u8>, value: u64, offset: int, size: AccessSize, i: int)
    requires
        0 <= i < mem.len(),
        i < offset || offset + size.width() <= i,
    ensures
        le_store(mem, value as nat, offset, size.width()).len() == mem.len(),
        le_store(mem, value as nat, offset, size.width())[i] == mem[i],
{
}

/// The bytes of a value divided by a power of 256 are the higher bytes of
/// the value itself.
proof fn lemma_le_byte_high(value: nat, k: nat)
    ensures
        le_byte(value / 0x100, k) == le_byte(value, k + 1),
        le_byte(value / 0x1_0000, k) == le_byte(value, k + 2),
        le_byte(value / 0x1_0000_0000, k) == le_byte(value, k + 4),
{
    reveal_with_fuel(le_byte, 5);
    assert(value / 0x1_0000 == (value / 0x100) / 0x100);
    assert(value / 0x1_0000_0000 == (((value / 0x100) / 0x100) / 0x100) / 0x100);
}

/// Reducing a value modulo a multiple of `d` does not change its remainder
/// modulo `d`, and commutes with the division by `d`.
proof fn lemma_mod_of_multiple(value: nat, d: nat, m: nat)
    requires
        d > 0,
        m > 0,
    ensures
        (value % (d * m)) % d == value % d,
        (value % (d * m)) / d == (value / d) % m,
{
    let q = (value / d) % m;
    let r = value % d;
    vstd::arithmetic::div_mod::lemma_mod_breakdown(value as int, d as int, m as int);
    vstd::arithmetic::div_mod::lemma_mod_bound(value as int, d as int);
    assert(d * q == q * d) by (nonlinear_arith);
    assert(value % (d * m) == q * d + r);
    vstd::arithmetic::div_mod::lemma_fundamental_div_mod_converse(
        (value % (d * m)) as int,
        d as int,
        q as int,
        r as int,
    );
}

/// Reducing a value to its low bytes leaves those bytes as they are.
proof fn lemma_le_byte_low(value: nat, k: nat)
    ensures
        k < 1 ==> le_byte(value % 0x100, k) == le_byte(value, k),
        k < 2 ==> le_byte(value % 0x1_0000, k) == le_byte(value, k),
        k < 4 ==> le_byte(value % 0x1_0000_0000, k) == le_byte(value, k),
    decreases k,
{
    lemma_mod_of_multiple(value, 0x100, 0x100);
    lemma_mod_of_multiple(value, 0x100, 0x100_0000);
    if 0 < k < 4 {
        lemma_le_byte_low(value / 0x100, (k - 1) as nat);
        lemma_mod_of_multiple(value / 0x100, 0x100, 0x1_0000);
        lemma_mod_of_multiple(value / 0x100, 0x100, 0x100);
        lemma_le_byte_low_3(value / 0x100, (k - 1) as nat);
    }
}

/// The same for a value reduced to its low three bytes.
proof fn lemma_le_byte_low_3(value: nat, k: nat)
    ensures
        k < 3 ==> le_byte(value % 0x100_0000, k) == le_byte(value, k),
    decreases k,
{
    lemma_mod_of_multiple(value, 0x100, 0x1_0000);
    if 0 < k < 3 {
        lemma_le_byte_low(value / 0x100, (k - 1) as nat);
    }
}

/// The little-endian value of the two bytes of `bytes` at `at`.
pub fn read_le16(bytes: &[u8], at: usize) -> (r: u16)
    requires
        at + 2 <= bytes@.len(),
    ensures
        r == le_value(bytes@, at as int, 2),
{
    proof {
        reveal_with_fuel(le_value, 3);
        assert(bytes@.len() == bytes.len());
    }
    let b0 = bytes[at] as u16;
    let b1 = bytes[at + 1] as u16;
    b0 + 0x100 * b1
}

/// The little-endian value of the four bytes of `bytes` at `at`.
pub fn read_le32(bytes: &[u8], at: usize) -> (r: u32)
    requires
        at + 4 <= bytes@.len(),
    ensures
        r == le_value(bytes@, at as int, 4),
{
    proof {
        reveal_with_fuel(le_value, 5);
        assert(bytes@.len() == bytes.len());
    }
    let b0 = bytes[at] as u32;
    let b1 = bytes[at + 1] as u32;
    let b2 = bytes[at + 2] as u32;
    let b3 = bytes[at + 3] as u32;
    b0 + 0x100 * b1 + 0x1_0000 * b2 + 0x100_0000 * b3
}

/// The little-endian value of the eight bytes of `bytes` at `at`.
pub fn read_le64(bytes: &[u8], at: usize) -> (r: u64)
    requires
        at + 8 <= bytes@.len(),
    ensures
        r == le_value(bytes@, at as int, 8),
{
    proof {
        reveal_with_fuel(le_value, 9);
        assert(bytes@.len() == bytes.len());
    }
    let lo = read_le32(bytes, at) as u64;
    let hi = read_le32(bytes, at + 4) as u64;
    lo + 0x1_0000_0000 * hi
}

/// A flat buffer of bytes, addressed by offsets from its own start.
pub struct Memory {
    memory: Vec<u8>,
}

impl View for Memory {
    type V = Seq<u8>;

    closed spec fn view(&self) -> Seq<u8> {
        self.memory@
    }
}

impl Memory {
    pub const DRAM_DEFAULT_SIZE: usize = 4 * 1024;

    pub const ROM_DEFAULT_SIZE: usize = 1 * 1024;

    /// A region of `size` zero bytes, or an empty one.
    pub fn new(size: Option<usize>) -> (m: Memory)
        ensures
            m@ == Seq::new(
                match size {
                    Some(n) => n as nat,
                    None => 0,
                },
                |i: int| 0u8,
            ),
    {
        match size {
            Some(size) => {
                let memory = vec![0u8; size];
                assert(memory@ =~= Seq::new(size as nat, |i: int| 0u8));
                Memory { memory }
            },
            None => {
                let memory: Vec<u8> = Vec::new();
                assert(memory@ =~= Seq::new(0, |i: int| 0u8));
                Memory { memory }
            },
        }
    }

    /// The unsigned little-endian value of the bytes at `paddr`.
    pub fn load(&self, paddr: u64, size: AccessSize) -> (r: u64)
        requires
            paddr + size.width() <= self@.len(),
        ensures
            r == le_value(self@, paddr as int, size.width()),
            r < size.modulus(),
    {
        assert(self.memory@.len() == self.memory.len());
        match size {
            AccessSize::BYTE => self.load8(paddr as usize) as u64,
            AccessSize::HALFWORD => self.load16(paddr as usize) as u64,
            AccessSize::WORD => self.load32(paddr as usize) as u64,
            AccessSize::DOUBLEWORD => self.load64(paddr as usize),
        }
    }

    pub fn get_size(&self) -> (n: usize)
        ensures
            n == self@.len(),
    {
        self.memory.len()
    }

    /// The bytes of the region, in order.
    pub fn as_bytes(&self) -> (s: &[u8])
        ensures
            s@ == self@,
    {
        self.memory.as_slice()
    }

    /// `true` when an access of `size` at `paddr` lies inside the region.
    pub fn in_bounds(&self, paddr: u64, size: AccessSize) -> (b: bool)
        ensures
            b == (paddr + size.width() <= self@.len()),
    {
        let len = self.memory.len() as u64;
        let w = size.bytes();
        len >= w && paddr <= len - w
    }

    /// Writes the low bytes of `data` at `paddr`, least significant first.
    pub fn store(&mut self, data: u64, paddr: u64, size: AccessSize)
        requires
            paddr + size.width() <= old(self)@.len(),
        ensures
            final(self)@ == le_store(old(self)@, data as nat, paddr as int, size.width()),
    {
        assert(self.memory@.len() == self.memory.len());
        match size {
            AccessSize::BYTE => self.store8((data % 0x100) as u8, paddr as usize),
            AccessSize::HALFWORD => self.store16((data % 0x1_0000) as u16, paddr as usize),
            AccessSize::WORD => self.store32((data % 0x1_0000_0000) as u32, paddr as usize),
            AccessSize::DOUBLEWORD => self.store64(data, paddr as usize),
        };
        proof {
            let want = le_store(old(self)@, data as nat, paddr as int, size.width());
            assert forall|i: int| 0 <= i < want.len() implies self@[i] == want[i] by {
                if paddr <= i < paddr + size.width() {
                    lemma_le_byte_low(data as nat, (i - paddr) as nat);
                }
            }
            assert(self@ =~= want);
        }
    }

    /// Copies `data` to `paddr`; what does not fit below the end of the
    /// region is appended to it.
    pub fn store_n_bytes(&mut self, data: &[u8], paddr: u64, size: usize)
        requires
            size == data@.len(),
        ensures
            final(self)@ == bulk_store(old(self)@, data@, paddr as int),
    {
        let len = self.memory.len();
        let mut fits: usize = 0;
        if paddr < len as u64 {
            let room: usize = len - paddr as usize;
            fits = if size < room { size } else { room };
        }
        let mut i: usize = 0;
        while i < fits
            invariant
                size == data@.len(),
                len == old(self)@.len(),
                self.memory@.len() == len,
                i <= fits <= size,
                fits > 0 ==> paddr + fits <= len,
                forall|k: int| 0 <= k < i ==> self.memory@[paddr + k] == data@[k],
                forall|k: int|
                    0 <= k < len && !(paddr <= k < paddr + i) ==> self.memory@[k] == old(self)@[k],
            decreases fits - i,
        {
            self.memory[paddr as usize + i] = data[i];
            i += 1;
        }
        if fits < size {
            let rest = vstd::slice::slice_subrange(data, fits, size);
            self.memory.extend_from_slice(rest);
        }
        proof {
            assert(self@ =~= bulk_store(old(self)@, data@, paddr as int));
        }
    }

    fn load8(&self, paddr: usize) -> (r: u8)
        requires
            paddr + 1 <= self@.len(),
        ensures
            r == le_value(self@, paddr as int, 1),
    {
        proof {
            reveal_with_fuel(le_value, 2);
        }
        self.memory[paddr]
    }

    fn load16(&self, paddr: usize) -> (r: u16)
        requires
            paddr + 2 <= self@.len(),
        ensures
            r == le_value(self@, paddr as int, 2),
    {
        read_le16(self.memory.as_slice(), paddr)
    }

    fn load32(&self, paddr: usize) -> (r: u32)
        requires
            paddr + 4 <= self@.len(),
        ensures
            r == le_value(self@, paddr as int, 4),
    {
        read_le32(self.memory.as_slice(), paddr)
    }

    fn load64(&self, paddr: usize) -> (r: u64)
        requires
            paddr + 8 <= self@.len(),
        ensures
            r == le_value(self@, paddr as int, 8),
    {
        read_le64(self.memory.as_slice(), paddr)
    }

    fn store8(&mut self, data: u8, paddr: usize)
        requires
            paddr + 1 <= old(self)@.len(),
        ensures
            final(self)@ == le_store(old(self)@, data as nat, paddr as int, 1),
    {
        self.memory[paddr] = data;
        proof {
            reveal_with_fuel(le_byte, 2);
            assert(self@ =~= le_store(old(self)@, data as nat, paddr as int, 1));
        }
    }

    fn store16(&mut self, data: u16, paddr: usize)
        requires
            paddr + 2 <= old(self)@.len(),
        ensures
            final(self)@ == le_store(old(self)@, data as nat, paddr as int, 2),
    {
        assert(self.memory@.len() == self.memory.len());
        self.memory[paddr] = (data % 0x100) as u8;
        self.memory[paddr + 1] = (data / 0x100) as u8;
        proof {
            reveal_with_fuel(le_byte, 3);
            assert(self@ =~= le_store(old(self)@, data as nat, paddr as int, 2));
        }
    }

    fn store32(&mut self, data: u32, paddr: usize)
        requires
            paddr + 4 <= old(self)@.len(),
        ensures
            final(self)@ == le_store(old(self)@, data as nat, paddr as int, 4),
    {
        assert(self.memory@.len() == self.memory.len());
        self.store16((data % 0x1_0000) as u16, paddr);
        self.store16((data / 0x1_0000) as u16, paddr + 2);
        proof {
            let want = le_store(old(self)@, data as nat, paddr as int, 4);
            assert forall|i: int| 0 <= i < want.len() implies self@[i] == want[i] by {
                if paddr <= i < paddr + 2 {
                    lemma_le_byte_low(data as nat, (i - paddr) as nat);
                } else if paddr + 2 <= i < paddr + 4 {
                    lemma_le_byte_high(data as nat, (i - paddr - 2) as nat);
                }
            }
            assert(self@ =~= want);
        }
    }

    fn store64(&mut self, data: u64, paddr: usize)
        requires
            paddr + 8 <= old(self)@.len(),
        ensures
            final(self)@ == le_store(old(self)@, data as nat, paddr as int, 8),
    {
        assert(self.memory@.len() == self.memory.len());
        self.store32((data % 0x1_0000_0000) as u32, paddr);
        self.store32((data / 0x1_0000_0000) as u32, paddr + 4);
        proof {
            let want = le_store(old(self)@, data as nat, paddr as int, 8);
            assert forall|i: int| 0 <= i < want.len() implies self@[i] == want[i] by {
                if paddr <= i < paddr + 4 {
                    lemma_le_byte_low(data as nat, (i - paddr) as nat);
                } else if paddr + 4 <= i < paddr + 8 {
                    lemma_le_byte_high(data as nat, (i - paddr - 4) as nat);
                }
            }
            assert(self@ =~= want);
        }
    }
}

} // verus!
