//! The loader's view of an executable: the fixed header of a 64-bit
//! little-endian ELF file, its program headers, and the placement of the
//! code and data segments that they describe.

use crate::memory::{le_value, read_le16, read_le32, read_le64};
use vstd::prelude::*;

verus! {

/// Where the two loadable segments lie: the guest address each is mapped
/// at, its size in the file and its offset in the file.
#[derive(Clone, Copy, Debug, PartialEq, Eq)]
pub struct AddressSpace {
    pub read_execute_segment: u64,
    pub read_execute_size: u64,
    pub read_execute_offset: u64,
    pub read_write_segment: u64,
    pub read_write_size: u64,
    pub read_write_offset: u64,
}

impl AddressSpace {
    pub const TEXT_START_DEFAULT: u64 = 0x00000000;

    pub const DATA_START_DEFAULT: u64 = 0x00020000;

    /// The placement of an image without segments: code at 0, data at
    /// 0x20000, both empty.
    pub open spec fn initial() -> AddressSpace {
        AddressSpace {
            read_execute_segment: 0,
            read_execute_size: 0,
            read_execute_offset: 0,
            read_write_segment: 0x0002_0000,
            read_write_size: 0,
            read_write_offset: 0,
        }
    }

    /// The placement after the loadable segment `hdr` was taken into
    /// account: a segment that is readable and executable is the code
    /// segment, one that is readable and writable the data segment, and any
    /// other changes nothing.
    pub open spec fn place(self, hdr: ProgHeader) -> AddressSpace {
        if hdr.p_flags == PFLAGS_READ_EXEC {
            AddressSpace {
                read_execute_segment: hdr.p_paddr,
                read_execute_offset: hdr.p_offset,
                read_execute_size: hdr.p_filesz,
                ..self
            }
        } else if hdr.p_flags == PFLAGS_READ_WRITE {
            AddressSpace {
                read_write_segment: hdr.p_paddr,
                read_write_offset: hdr.p_offset,
                read_write_size: hdr.p_filesz,
                ..self
            }
        } else {
            self
        }
    }

    /// Whether both segments lie inside a file of `len` bytes.
    pub open spec fn fits(self, len: nat) -> bool {
        self.read_execute_offset + self.read_execute_size <= len && self.read_write_offset
            + self.read_write_size <= len
    }

    pub fn new() -> (space: AddressSpace)
        ensures
            space == AddressSpace::initial(),
    {
        AddressSpace {
            read_execute_segment: AddressSpace::TEXT_START_DEFAULT,
            read_execute_size: 0,
            read_execute_offset: 0,
            read_write_segment: AddressSpace::DATA_START_DEFAULT,
            read_write_size: 0,
            read_write_offset: 0,
        }
    }
}

/// The placement that the loadable segments `headers` describe, taken in
/// order: of several code segments, or several data segments, the last counts.
pub open spec fn address_space(headers: Seq<ProgHeader>) -> AddressSpace
    decreases headers.len(),
{
    if headers.len() == 0 {
        AddressSpace::initial()
    } else {
        address_space(headers.drop_last()).place(headers.last())
    }
}

/// Why an image is no executable that can be loaded.
#[derive(Clone, Copy, Debug, PartialEq, Eq)]
pub enum ElfError {
    /// The image is shorter than the fixed header.
    TruncatedHeader,
    /// The program header table does not lie inside the image, or its
    /// entries are too short to hold a program header.
    BadProgramHeaders,
    /// A loadable segment does not lie inside the image.
    SegmentOutsideFile,
}

impl ElfError {
    /// The text of `message`.
    pub open spec fn message_spec(&self) -> Seq<char> {
        match self {
            ElfError::TruncatedHeader => "ELF file is shorter than its header"@,
            ElfError::BadProgramHeaders => "ELF program header table is inconsistent"@,
            ElfError::SegmentOutsideFile => "ELF segment lies outside the file"@,
        }
    }

    /// A line of text that says what is wrong.
    pub fn message(&self) -> (text: &'static str)
        ensures
            text@ == self.message_spec(),
    {
        match self {
            ElfError::TruncatedHeader => "ELF file is shorter than its header",
            ElfError::BadProgramHeaders => "ELF program header table is inconsistent",
            ElfError::SegmentOutsideFile => "ELF segment lies outside the file",
        }
    }
}

/// Size of the fixed header.
pub const ELF_HEADER_SIZE: usize = 0x40;

/// Number of bytes of a program header that are read.
pub const PROG_HEADER_SIZE: usize = 0x38;

/// Flags of a segment that is readable and executable.
pub const PFLAGS_READ_EXEC: u32 = 0x5;

/// Flags of a segment that is readable and writable.
pub const PFLAGS_READ_WRITE: u32 = 0x6;

pub struct ElfHeader {
    pub e_ident: [u8; 16],
    pub e_type: u16,
    pub e_machine: u16,
    pub e_version: u32,
    pub e_entry: u64,
    pub e_phoff: u64,
    pub e_shoff: u64,
    pub e_flags: u32,
    pub e_ehsize: u16,
    pub e_phentsize: u16,
    pub e_phnum: u16,
    pub e_shentsize: u16,
    pub e_shnum: u16,
    pub e_shstrndx: u16,
}

impl ElfHeader {
    // Size of e_ident field at the beginning of the ELF header
    pub const EI_NIDENT: usize = 16;

    // Elf Header fields offset from beginning of file
    // e_ident: this arrays specifies how to interpret the ELF file,
    // it contains magic numbers and infos like endianness, abi, architecture...
    pub const EIDENT_OFF: usize = 0x00;

    // e_type: object file type (is it an executable? relocatable file?)
    pub const ETYPE_OFF: usize = 0x10;

    // e_machine: required architecture to be executed (RISC-V)
    pub const EMACHINE_OFF: usize = 0x12;

    // e_version: version of ELF standard
    pub const EVERSION_OFF: usize = 0x14;

    // e_entry: entry point from where the CPU starts executing
    pub const EENTRY_OFF: usize = 0x18;

    // e_phoff: offset to the program header table in the ELF file
    pub const EPHOFF_OFF: usize = 0x20;

    // e_shoff: offset to the section header table in the ELF file
    pub const ESHOFF_OFF: usize = 0x28;

    // e_flags: processor-specific flags
    pub const EFLAGS_OFF: usize = 0x30;

    // e_ehsize: ELF header's size
    pub const EEHSIZE_OFF: usize = 0x34;

    // e_phentsize: size in bytes of one entry in the program header table
    pub const EPHENTSIZE_OFF: usize = 0x36;

    // e_phnum: number of entries in the program header table
    pub const EPHNUM_OFF: usize = 0x38;

    // e_shentsize: size in bytes of one entry in the section header table
    pub const ESHENTSIZE_OFF: usize = 0x3A;

    // e_shnum: number of entries in bytes in the section header table
    pub const ESHNUM_OFF: usize = 0x3C;

    // e_shstrndx: section header table index of the table with section name table
    pub const ESHSTRNDX_OFF: usize = 0x3E;

    /// Whether the header holds what the first 64 bytes of `buf` spell:
    /// every field the little-endian value at its offset.
    pub open spec fn parsed_from(&self, buf: Seq<u8>) -> bool {
        &&& self.e_ident@ == buf.subrange(0, 16)
        &&& self.e_type == le_value(buf, 0x10, 2)
        &&& self.e_machine == le_value(buf, 0x12, 2)
        &&& self.e_version == le_value(buf, 0x14, 4)
        &&& self.e_entry == le_value(buf, 0x18, 8)
        &&& self.e_phoff == le_value(buf, 0x20, 8)
        &&& self.e_shoff == le_value(buf, 0x28, 8)
        &&& self.e_flags == le_value(buf, 0x30, 4)
        &&& self.e_ehsize == le_value(buf, 0x34, 2)
        &&& self.e_phentsize == le_value(buf, 0x36, 2)
        &&& self.e_phnum == le_value(buf, 0x38, 2)
        &&& self.e_shentsize == le_value(buf, 0x3A, 2)
        &&& self.e_shnum == le_value(buf, 0x3C, 2)
        &&& self.e_shstrndx == le_value(buf, 0x3E, 2)
    }

    /// Whether every field is zero.
    pub open spec fn is_zero(&self) -> bool {
        &&& self.e_ident@ == Seq::new(16, |i: int| 0u8)
        &&& self.e_type == 0
        &&& self.e_machine == 0
        &&& self.e_version == 0
        &&& self.e_entry == 0
        &&& self.e_phoff == 0
        &&& self.e_shoff == 0
        &&& self.e_flags == 0
        &&& self.e_ehsize == 0
        &&& self.e_phentsize == 0
        &&& self.e_phnum == 0
        &&& self.e_shentsize == 0
        &&& self.e_shnum == 0
        &&& self.e_shstrndx == 0
    }

    /// Create new ELF Header
    pub fn new() -> (header: ElfHeader)
        ensures
            header.is_zero(),
    {
        let header = ElfHeader {
            e_ident: [0;16],
            e_type: 0,
            e_machine: 0,
            e_version: 0,
            e_entry: 0,
            e_phoff: 0,
            e_shoff: 0,
            e_flags: 0,
            e_ehsize: 0,
            e_phentsize: 0,
            e_phnum: 0,
            e_shentsize: 0,
            e_shnum: 0,
            e_shstrndx: 0,
        };
        assert(header.e_ident@ =~= Seq::new(16, |i: int| 0u8));
        header
    }

    /// Fill ELF header from byte buffer
    pub fn from_buffer(&mut self, buf: &[u8])
        requires
            buf@.len() >= 64,
        ensures
            final(self).parsed_from(buf@),
    {
        let mut i: usize = 0;
        while i < ElfHeader::EI_NIDENT
            invariant
                i <= 16,
                buf@.len() >= 64,
                forall|k: int| 0 <= k < i ==> self.e_ident@[k] == buf@[k],
            decreases 16 - i,
        {
            self.e_ident[i] = buf[ElfHeader::EIDENT_OFF + i];
            i += 1;
        }
        assert(self.e_ident@ =~= buf@.subrange(0, 16));
        self.e_type = read_le16(buf, ElfHeader::ETYPE_OFF);
        self.e_machine = read_le16(buf, ElfHeader::EMACHINE_OFF);
        self.e_version = read_le32(buf, ElfHeader::EVERSION_OFF);
        self.e_entry = read_le64(buf, ElfHeader::EENTRY_OFF);
        self.e_phoff = read_le64(buf, ElfHeader::EPHOFF_OFF);
        self.e_shoff = read_le64(buf, ElfHeader::ESHOFF_OFF);
        self.e_flags = read_le32(buf, ElfHeader::EFLAGS_OFF);
        self.e_ehsize = read_le16(buf, ElfHeader::EEHSIZE_OFF);
        self.e_phentsize = read_le16(buf, ElfHeader::EPHENTSIZE_OFF);
        self.e_phnum = read_le16(buf, ElfHeader::EPHNUM_OFF);
        self.e_shentsize = read_le16(buf, ElfHeader::ESHENTSIZE_OFF);
        self.e_shnum = read_le16(buf, ElfHeader::ESHNUM_OFF);
        self.e_shstrndx = read_le16(buf, ElfHeader::ESHSTRNDX_OFF);
    }
}

#[derive(Clone, Copy, Debug, PartialEq, Eq)]
pub struct ProgHeader {
    pub p_type: u32,
    pub p_flags: u32,
    pub p_offset: u64,
    pub p_vaddr: u64,
    pub p_paddr: u64,
    pub p_filesz: u64,
    pub p_memsz: u64,
    pub p_align: u64,
}

/// The program header that the 56 bytes of `buf` at `start` spell.
pub open spec fn program_header(buf: Seq<u8>, start: int) -> ProgHeader {
    ProgHeader {
        p_type: le_value(buf, start + 0x00, 4) as u32,
        p_flags: le_value(buf, start + 0x04, 4) as u32,
        p_offset: le_value(buf, start + 0x08, 8) as u64,
        p_vaddr: le_value(buf, start + 0x10, 8) as u64,
        p_paddr: le_value(buf, start + 0x18, 8) as u64,
        p_filesz: le_value(buf, start + 0x20, 8) as u64,
        p_memsz: le_value(buf, start + 0x28, 8) as u64,
        p_align: le_value(buf, start + 0x30, 8) as u64,
    }
}

impl ProgHeader {
    pub const PTYPE_OFF: usize = 0x00;

    pub const PFLAGS_OFF: usize = 0x04;

    pub const POFFSET_OFF: usize = 0x08;

    pub const PVADDR_OFF: usize = 0x10;

    pub const PPADDR_OFF: usize = 0x18;

    pub const PFILESZ_OFF: usize = 0x20;

    pub const PMEMSZ_OFF: usize = 0x28;

    pub const PALIGN_OFF: usize = 0x30;

    pub const PTYPE_LOAD: u32 = 0x1;

    pub const PFLAGS_READ: u32 = 0x4;

    pub const PFLAGS_WRITE: u32 = 0x2;

    pub const PFLAGS_EXEC: u32 = 0x1;

    /// Create new Program Header
    pub fn new() -> (header: ProgHeader)
        ensures
            header == (ProgHeader {
                p_type: 0,
                p_flags: 0,
                p_offset: 0,
                p_vaddr: 0,
                p_paddr: 0,
                p_filesz: 0,
                p_memsz: 0,
                p_align: 0,
            }),
    {
        ProgHeader {
            p_type: 0,
            p_flags: 0,
            p_offset: 0,
            p_vaddr: 0,
            p_paddr: 0,
            p_filesz: 0,
            p_memsz: 0,
            p_align: 0,
        }
    }

    /// Fill program header from byte buffer
    pub fn from_buffer(&mut self, buf: &[u8])
        requires
            buf@.len() >= 56,
        ensures
            *final(self) == program_header(buf@, 0),
    {
        self.p_type = read_le32(buf, ProgHeader::PTYPE_OFF);
        self.p_flags = read_le32(buf, ProgHeader::PFLAGS_OFF);
        self.p_offset = read_le64(buf, ProgHeader::POFFSET_OFF);
        self.p_vaddr = read_le64(buf, ProgHeader::PVADDR_OFF);
        self.p_paddr = read_le64(buf, ProgHeader::PPADDR_OFF);
        self.p_filesz = read_le64(buf, ProgHeader::PFILESZ_OFF);
        self.p_memsz = read_le64(buf, ProgHeader::PMEMSZ_OFF);
        self.p_align = read_le64(buf, ProgHeader::PALIGN_OFF);
    }
}

/// Whether a table of `phnum` entries of `phentsize` bytes at offset `phoff`
/// lies inside a file of `len` bytes, each entry long enough to hold a
/// program header. An empty table always does.
pub open spec fn table_fits(phoff: u64, phentsize: u16, phnum: u16, len: nat) -> bool {
    phnum == 0 || (phentsize >= 56 && phoff + phentsize * phnum <= len)
}

/// The loadable ones among the first `n` entries of the table, in order: the
/// entries whose type is 1.
pub open spec fn loadable_headers(buf: Seq<u8>, phoff: u64, phentsize: u16, n: nat) -> Seq<
    ProgHeader,
>
    decreases n,
{
    if n == 0 {
        Seq::empty()
    } else {
        let before = loadable_headers(buf, phoff, phentsize, (n - 1) as nat);
        let entry = program_header(buf, phoff + phentsize * (n - 1));
        if entry.p_type == 1 {
            before.push(entry)
        } else {
            before
        }
    }
}

pub struct Elf {
    elf_header: ElfHeader,
    program_headers: Vec<ProgHeader>,
}

impl Elf {
    /// The header as it was read.
    pub closed spec fn header(&self) -> ElfHeader {
        self.elf_header
    }

    /// The loadable program headers that were read, in order.
    pub closed spec fn headers(&self) -> Seq<ProgHeader> {
        self.program_headers@
    }

    /// Create new ELF
    pub fn new() -> (elf: Elf)
        ensures
            elf.header().is_zero(),
            elf.headers() == Seq::<ProgHeader>::empty(),
    {
        Elf { elf_header: ElfHeader::new(), program_headers: Vec::new() }
    }

    /// Reads the fixed header from the start of `buf` and returns the entry
    /// point. A buffer shorter than the header is refused.
    pub fn read_header(&mut self, buf: &[u8]) -> (res: Result<u64, ElfError>)
        ensures
            final(self).headers() == old(self).headers(),
            buf@.len() < 64 ==> res == Err::<u64, ElfError>(ElfError::TruncatedHeader)
                && final(self).header() == old(self).header(),
            buf@.len() >= 64 ==> res == Ok::<u64, ElfError>(le_value(buf@, 0x18, 8) as u64)
                && final(self).header().parsed_from(buf@),
    {
        if buf.len() < ELF_HEADER_SIZE {
            return Err(ElfError::TruncatedHeader);
        }
        self.elf_header.from_buffer(buf);
        Ok(self.elf_header.e_entry)
    }

    /// Reads the program header table that the header describes and keeps
    /// its loadable entries. A table that does not lie inside `buf` is
    /// refused, and nothing is kept of it.
    pub fn read_progheaders(&mut self, buf: &[u8]) -> (res: Result<(), ElfError>)
        ensures
            final(self).header() == old(self).header(),
            ({
                let h = old(self).header();
                if table_fits(h.e_phoff, h.e_phentsize, h.e_phnum, buf@.len()) {
                    res == Ok::<(), ElfError>(()) && final(self).headers() == old(self).headers()
                        + loadable_headers(buf@, h.e_phoff, h.e_phentsize, h.e_phnum as nat)
                } else {
                    res == Err::<(), ElfError>(ElfError::BadProgramHeaders)
                        && final(self).headers() == old(self).headers()
                }
            }),
    {
        let count: u64 = self.elf_header.e_phnum as u64;
        let hdr_offset_byte: u64 = self.elf_header.e_phoff;
        let hdr_size_bytes: u64 = self.elf_header.e_phentsize as u64;
        let len: u64 = buf.len() as u64;
        if count == 0 {
            assert(self.program_headers@ + Seq::<ProgHeader>::empty() =~= self.program_headers@);
            return Ok(());
        }
        assert(hdr_size_bytes * count <= 0xffff * 0xffff) by (nonlinear_arith)
            requires
                hdr_size_bytes <= 0xffff,
                count <= 0xffff,
        ;
        let table_size: u64 = hdr_size_bytes * count;
        if hdr_size_bytes < PROG_HEADER_SIZE as u64 || hdr_offset_byte > len || table_size > len
            - hdr_offset_byte {
            return Err(ElfError::BadProgramHeaders);
        }
        let mut i: u64 = 0;
        let mut hdr_start_byte: u64 = hdr_offset_byte;
        while i < count
            invariant
                i <= count,
                count == self.elf_header.e_phnum,
                hdr_offset_byte == self.elf_header.e_phoff,
                hdr_size_bytes == self.elf_header.e_phentsize,
                hdr_size_bytes >= 56,
                len == buf@.len(),
                buf@.len() == buf.len(),
                self.elf_header == old(self).elf_header,
                hdr_offset_byte + hdr_size_bytes * count <= len,
                hdr_start_byte == hdr_offset_byte + hdr_size_bytes * i,
                self.program_headers@ == old(self).program_headers@ + loadable_headers(
                    buf@,
                    hdr_offset_byte,
                    hdr_size_bytes as u16,
                    i as nat,
                ),
            decreases count - i,
        {
            assert(hdr_size_bytes * (i + 1) <= hdr_size_bytes * count && hdr_size_bytes * (i + 1)
                == hdr_size_bytes * i + hdr_size_bytes) by (nonlinear_arith)
                requires
                    i + 1 <= count,
                    hdr_size_bytes >= 0,
            ;
            let mut program_header_i = ProgHeader::new();
            let entry = vstd::slice::slice_subrange(
                buf,
                hdr_start_byte as usize,
                (hdr_start_byte + hdr_size_bytes) as usize,
            );
            program_header_i.from_buffer(entry);
            proof {
                lemma_program_header_in_window(
                    buf@,
                    hdr_start_byte as int,
                    hdr_start_byte + hdr_size_bytes,
                );
                let next = loadable_headers(
                    buf@,
                    hdr_offset_byte,
                    hdr_size_bytes as u16,
                    (i + 1) as nat,
                );
                let before = loadable_headers(
                    buf@,
                    hdr_offset_byte,
                    hdr_size_bytes as u16,
                    i as nat,
                );
                if program_header_i.p_type == 1 {
                    let kept = old(self).program_headers@;
                    assert(kept + before.push(program_header_i) =~= (kept + before).push(
                        program_header_i,
                    ));
                }
            }
            if program_header_i.p_type == ProgHeader::PTYPE_LOAD {
                self.program_headers.push(program_header_i);
            }
            hdr_start_byte = hdr_start_byte + hdr_size_bytes;
            i += 1;
        }
        Ok(())
    }

    /// The placement of the segments that the loadable program headers describe.
    pub fn get_addrspace(&self) -> (space: AddressSpace)
        ensures
            space == address_space(self.headers()),
    {
        let mut addr_space: AddressSpace = AddressSpace::new();
        let mut i: usize = 0;
        while i < self.program_headers.len()
            invariant
                i <= self.program_headers@.len(),
                addr_space == address_space(self.program_headers@.take(i as int)),
            decreases self.program_headers@.len() - i,
        {
            let hdr = &self.program_headers[i];
            let segment_start: u64 = hdr.p_offset;
            let segment_size: u64 = hdr.p_filesz;
            proof {
                let upto = self.program_headers@.take(i + 1);
                assert(upto.drop_last() =~= self.program_headers@.take(i as int));
                assert(upto.last() == *hdr);
            }
            if hdr.p_flags == PFLAGS_READ_EXEC {
                addr_space.read_execute_segment = hdr.p_paddr;
                addr_space.read_execute_offset = segment_start;
                addr_space.read_execute_size = segment_size;
            } else if hdr.p_flags == PFLAGS_READ_WRITE {
                addr_space.read_write_segment = hdr.p_paddr;
                addr_space.read_write_offset = segment_start;
                addr_space.read_write_size = segment_size;
            }
            i += 1;
        }
        assert(self.program_headers@.take(i as int) =~= self.program_headers@);
        addr_space
    }
}

/// The entry point that the header of `image` names.
pub open spec fn image_entry(image: Seq<u8>) -> u64 {
    le_value(image, 0x18, 8) as u64
}

/// The offset of the program header table that the header of `image` names.
pub open spec fn image_phoff(image: Seq<u8>) -> u64 {
    le_value(image, 0x20, 8) as u64
}

/// The size of an entry of the program header table of `image`.
pub open spec fn image_phentsize(image: Seq<u8>) -> u16 {
    le_value(image, 0x36, 2) as u16
}

/// The number of entries of the program header table of `image`.
pub open spec fn image_phnum(image: Seq<u8>) -> u16 {
    le_value(image, 0x38, 2) as u16
}

/// The placement of the segments of `image`.
pub open spec fn image_space(image: Seq<u8>) -> AddressSpace {
    address_space(
        loadable_headers(
            image,
            image_phoff(image),
            image_phentsize(image),
            image_phnum(image) as nat,
        ),
    )
}

/// What keeps `image` from being loaded, if anything: it is shorter than
/// the fixed header, its program header table does not lie inside it, or
/// one of its two segments does not.
pub open spec fn image_error(image: Seq<u8>) -> Option<ElfError> {
    if image.len() < 64 {
        Some(ElfError::TruncatedHeader)
    } else if !table_fits(
        image_phoff(image),
        image_phentsize(image),
        image_phnum(image),
        image.len(),
    ) {
        Some(ElfError::BadProgramHeaders)
    } else if !image_space(image).fits(image.len()) {
        Some(ElfError::SegmentOutsideFile)
    } else {
        None
    }
}

/// Parses `image` and returns its entry point and the placement of its
/// segments, both of which lie inside the image.
pub fn read_image(image: &[u8]) -> (res: Result<(u64, AddressSpace), ElfError>)
    ensures
        match image_error(image@) {
            Some(error) => res == Err::<(u64, AddressSpace), ElfError>(error),
            None => res == Ok::<(u64, AddressSpace), ElfError>(
                (image_entry(image@), image_space(image@)),
            ),
        },
{
    let mut elf_file = Elf::new();
    // Read ELF header and obtain entry point
    let entry_point: u64 = match elf_file.read_header(image) {
        Ok(entry) => entry,
        Err(error) => {
            return Err(error);
        },
    };
    // Read all the program headers to set the address space
    match elf_file.read_progheaders(image) {
        Ok(()) => {},
        Err(error) => {
            return Err(error);
        },
    }
    assert(Seq::<ProgHeader>::empty() + elf_file.headers() =~= elf_file.headers());
    // Get the address space
    let addr_space: AddressSpace = elf_file.get_addrspace();
    let len: u64 = image.len() as u64;
    if addr_space.read_execute_offset > len || addr_space.read_execute_size > len
        - addr_space.read_execute_offset || addr_space.read_write_offset > len
        || addr_space.read_write_size > len - addr_space.read_write_offset {
        return Err(ElfError::SegmentOutsideFile);
    }
    Ok((entry_point, addr_space))
}

/// A program header read from a window of a buffer is the program header
/// of the buffer at the start of the window.
proof fn lemma_program_header_in_window(buf: Seq<u8>, start: int, end: int)
    requires
        0 <= start,
        start + 56 <= end <= buf.len(),
    ensures
        program_header(buf.subrange(start, end), 0) == program_header(buf, start),
{
    let window = buf.subrange(start, end);
    lemma_le_value_in_window(buf, start, end, 0x00, 4);
    lemma_le_value_in_window(buf, start, end, 0x04, 4);
    lemma_le_value_in_window(buf, start, end, 0x08, 8);
    lemma_le_value_in_window(buf, start, end, 0x10, 8);
    lemma_le_value_in_window(buf, start, end, 0x18, 8);
    lemma_le_value_in_window(buf, start, end, 0x20, 8);
    lemma_le_value_in_window(buf, start, end, 0x28, 8);
    lemma_le_value_in_window(buf, start, end, 0x30, 8);
}

/// The little-endian value at an offset of a window is the value at that
/// offset from the start of the window in the buffer.
proof fn lemma_le_value_in_window(buf: Seq<u8>, start: int, end: int, at: int, width: nat)
    requires
        0 <= start <= end <= buf.len(),
        0 <= at,
        at + width <= end - start,
    ensures
        le_value(buf.subrange(start, end), at, width) == le_value(buf, start + at, width),
    decreases width,
{
    if width > 0 {
        lemma_le_value_in_window(buf, start, end, at + 1, (width - 1) as nat);
    }
}

} // verus!
