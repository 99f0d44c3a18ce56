//! The ELF-64 file header and program header table of a kernel image.
use vstd::prelude::*;

use crate::bytes::{le16, le32, le64, read_u16_le, read_u32_le, read_u64_le};
use crate::error::LoadError;
use crate::load_plan::{
    has_loadable, highest_end, is_loadable, lemma_extremes, lowest_vaddr, page_count_of,
    segment_end, LoadPlan, PAGE_SIZE,
};

verus! {

/// Size in bytes of the ELF-64 file header.
pub const ELF_HEADER_SIZE: usize = 64;

/// Size in bytes of one ELF-64 program header record.
pub const PROGRAM_HEADER_SIZE: u64 = 56;

/// Program header type of a loadable segment.
pub const PT_LOAD: u32 = 1;

/// Machine number of x86-64.
pub const EM_X86_64: u16 = 62;

/// Offset of the program header table, as the header states it.
pub open spec fn ph_offset_of(s: Seq<u8>) -> int {
    le64(s, 32)
}

/// Size of one program header table entry, as the header states it.
pub open spec fn ph_entry_size_of(s: Seq<u8>) -> int {
    le16(s, 54)
}

/// Number of program header table entries, as the header states it.
pub open spec fn ph_count_of(s: Seq<u8>) -> int {
    le16(s, 56)
}

pub open spec fn header_in_bounds(s: Seq<u8>) -> bool {
    s.len() >= ELF_HEADER_SIZE
}

/// Magic number, 64-bit class, little-endian data and x86-64 machine.
pub open spec fn is_compatible(s: Seq<u8>) -> bool {
    &&& s[0] == 0x7f
    &&& s[1] == 0x45
    &&& s[2] == 0x4c
    &&& s[3] == 0x46
    &&& s[4] == 2
    &&& s[5] == 1
    &&& le16(s, 18) == EM_X86_64
}

/// The whole program header table, `count` records of `entry_size` bytes from
/// `offset`, lies inside the buffer, and each record is large enough to hold
/// an ELF-64 program header.
pub open spec fn table_in_bounds(s: Seq<u8>) -> bool {
    ph_count_of(s) == 0 || (ph_entry_size_of(s) >= PROGRAM_HEADER_SIZE && ph_offset_of(s)
        + ph_count_of(s) * ph_entry_size_of(s) <= s.len())
}

/// The error that parsing `s` yields, if any.
pub open spec fn parse_error_of(s: Seq<u8>) -> Option<LoadError> {
    if !header_in_bounds(s) {
        Some(LoadError::ParseError)
    } else if !is_compatible(s) {
        Some(LoadError::ImageCompatibilityError)
    } else if !table_in_bounds(s) {
        Some(LoadError::ParseError)
    } else {
        None
    }
}

/// One ELF-64 program header.
#[derive(Clone, Copy, PartialEq, Eq, Debug, Structural)]
pub struct ProgramHeader {
    pub p_type: u32,
    pub p_flags: u32,
    pub p_offset: u64,
    pub p_vaddr: u64,
    pub p_paddr: u64,
    pub p_filesz: u64,
    pub p_memsz: u64,
    pub p_align: u64,
}

/// The program header record stored at `off` in `s`.
pub open spec fn program_header_at(s: Seq<u8>, off: int) -> ProgramHeader {
    ProgramHeader {
        p_type: le32(s, off) as u32,
        p_flags: le32(s, off + 4) as u32,
        p_offset: le64(s, off + 8) as u64,
        p_vaddr: le64(s, off + 16) as u64,
        p_paddr: le64(s, off + 24) as u64,
        p_filesz: le64(s, off + 32) as u64,
        p_memsz: le64(s, off + 40) as u64,
        p_align: le64(s, off + 48) as u64,
    }
}

/// The program header table of `s`, entry by entry.
pub open spec fn program_headers_of(s: Seq<u8>) -> Seq<ProgramHeader> {
    Seq::new(
        ph_count_of(s) as nat,
        |i: int| program_header_at(s, ph_offset_of(s) + i * ph_entry_size_of(s)),
    )
}

impl ProgramHeader {
    fn parse(buffer: &[u8], off: usize) -> (r: ProgramHeader)
        requires
            off + PROGRAM_HEADER_SIZE <= buffer.len(),
        ensures
            r == program_header_at(buffer@, off as int),
    {
        ProgramHeader {
            p_type: read_u32_le(buffer, off),
            p_flags: read_u32_le(buffer, off + 4),
            p_offset: read_u64_le(buffer, off + 8),
            p_vaddr: read_u64_le(buffer, off + 16),
            p_paddr: read_u64_le(buffer, off + 24),
            p_filesz: read_u64_le(buffer, off + 32),
            p_memsz: read_u64_le(buffer, off + 40),
            p_align: read_u64_le(buffer, off + 48),
        }
    }

    pub fn type_is_load(&self) -> (r: bool)
        ensures
            r == (self.p_type == PT_LOAD),
    {
        self.p_type == PT_LOAD
    }

    pub fn p_vaddr(&self) -> (r: u64)
        ensures
            r == self.p_vaddr,
    {
        self.p_vaddr
    }

    pub fn p_offset(&self) -> (r: u64)
        ensures
            r == self.p_offset,
    {
        self.p_offset
    }

    pub fn p_memsz(&self) -> (r: u64)
        ensures
            r == self.p_memsz,
    {
        self.p_memsz
    }

    pub fn p_filesz(&self) -> (r: u64)
        ensures
            r == self.p_filesz,
    {
        self.p_filesz
    }
}

/// The ELF-64 file header.
#[derive(Clone, Copy, Debug)]
pub struct ElfHeader {
    pub e_ident: [u8; 16],
    pub e_type: u16,
    pub e_machine: u16,
    pub e_version: u32,
    pub e_entry: u64,
    pub e_phoff: u64,
    pub e_shoff: u64,
    pub e_flags: u32,
    pub e_ehsize: u16,
    pub e_phentsize: u16,
    pub e_phnum: u16,
    pub e_shentsize: u16,
    pub e_shnum: u16,
    pub e_shstrndx: u16,
}

/// `h` holds the fields of the file header at the start of `s`.
pub open spec fn header_matches(h: ElfHeader, s: Seq<u8>) -> bool {
    &&& h.e_ident@ == s.subrange(0, 16)
    &&& h.e_type == le16(s, 16)
    &&& h.e_machine == le16(s, 18)
    &&& h.e_version == le32(s, 20)
    &&& h.e_entry == le64(s, 24)
    &&& h.e_phoff == le64(s, 32)
    &&& h.e_shoff == le64(s, 40)
    &&& h.e_flags == le32(s, 48)
    &&& h.e_ehsize == le16(s, 52)
    &&& h.e_phentsize == le16(s, 54)
    &&& h.e_phnum == le16(s, 56)
    &&& h.e_shentsize == le16(s, 58)
    &&& h.e_shnum == le16(s, 60)
    &&& h.e_shstrndx == le16(s, 62)
}

impl ElfHeader {
    pub fn new(buffer: &[u8]) -> (r: ElfHeader)
        requires
            header_in_bounds(buffer@),
        ensures
            header_matches(r, buffer@),
    {
        let e_ident: [u8; 16] = [
            buffer[0],
            buffer[1],
            buffer[2],
            buffer[3],
            buffer[4],
            buffer[5],
            buffer[6],
            buffer[7],
            buffer[8],
            buffer[9],
            buffer[10],
            buffer[11],
            buffer[12],
            buffer[13],
            buffer[14],
            buffer[15],
        ];
        assert(e_ident@ =~= buffer@.subrange(0, 16));
        ElfHeader {
            e_ident,
            e_type: read_u16_le(buffer, 16),
            e_machine: read_u16_le(buffer, 18),
            e_version: read_u32_le(buffer, 20),
            e_entry: read_u64_le(buffer, 24),
            e_phoff: read_u64_le(buffer, 32),
            e_shoff: read_u64_le(buffer, 40),
            e_flags: read_u32_le(buffer, 48),
            e_ehsize: read_u16_le(buffer, 52),
            e_phentsize: read_u16_le(buffer, 54),
            e_phnum: read_u16_le(buffer, 56),
            e_shentsize: read_u16_le(buffer, 58),
            e_shnum: read_u16_le(buffer, 60),
            e_shstrndx: read_u16_le(buffer, 62),
        }
    }
}

/// A parsed kernel image: its file header and its program header table.
pub struct Elf {
    elf_header: ElfHeader,
    program_headers: Vec<ProgramHeader>,
}

impl Elf {
    pub closed spec fn spec_header(&self) -> ElfHeader {
        self.elf_header
    }

    /// The program header table, in file order.
    pub closed spec fn spec_segments(&self) -> Seq<ProgramHeader> {
        self.program_headers@
    }

    /// Parses the file header and the program header table of `buffer`,
    /// after checking that both lie inside it and that the image is a
    /// little-endian ELF-64 file for x86-64.
    pub fn new(buffer: &[u8]) -> (r: Result<Elf, LoadError>)
        ensures
            match r {
                Ok(e) => {
                    &&& parse_error_of(buffer@) is None
                    &&& header_matches(e.spec_header(), buffer@)
                    &&& e.spec_segments() == program_headers_of(buffer@)
                },
                Err(err) => parse_error_of(buffer@) == Some(err),
            },
    {
        if buffer.len() < ELF_HEADER_SIZE {
            return Err(LoadError::ParseError);
        }
        let elf_header = ElfHeader::new(buffer);
        if !(buffer[0] == 0x7f && buffer[1] == 0x45 && buffer[2] == 0x4c && buffer[3] == 0x46
            && buffer[4] == 2 && buffer[5] == 1 && elf_header.e_machine == EM_X86_64) {
            return Err(LoadError::ImageCompatibilityError);
        }
        let phoff = elf_header.e_phoff;
        let entry_size = elf_header.e_phentsize;
        let count = elf_header.e_phnum;
        if count != 0 {
            assert(count as int * entry_size as int <= 0xffff * 0xffff) by (nonlinear_arith)
                requires
                    count <= 0xffff,
                    entry_size <= 0xffff,
            ;
            if (entry_size as u64) < PROGRAM_HEADER_SIZE || phoff as u128 + count as u128
                * entry_size as u128 > buffer.len() as u128 {
                return Err(LoadError::ParseError);
            }
        }
        let ghost s = buffer@;
        let mut program_headers: Vec<ProgramHeader> = Vec::new();
        let mut i: u16 = 0;
        let mut off: u64 = phoff;
        while i < count
            invariant
                i <= count,
                count == ph_count_of(s),
                entry_size == ph_entry_size_of(s),
                phoff == ph_offset_of(s),
                s == buffer@,
                count > 0 ==> table_in_bounds(s),
                off == phoff + i * entry_size,
                program_headers@ == program_headers_of(s).take(i as int),
            decreases count - i,
        {
            assert(off + entry_size <= buffer.len()) by (nonlinear_arith)
                requires
                    i < count,
                    off == phoff + i * entry_size,
                    phoff + count * entry_size <= buffer.len(),
            ;
            let ph = ProgramHeader::parse(buffer, off as usize);
            program_headers.push(ph);
            assert(program_headers@ =~= program_headers_of(s).take(i + 1));
            off = off + entry_size as u64;
            assert(off == phoff + (i + 1) * entry_size) by (nonlinear_arith)
                requires
                    off == phoff + i * entry_size + entry_size,
            ;
            i = i + 1;
        }
        assert(program_headers@ =~= program_headers_of(s));
        Ok(Elf { elf_header, program_headers })
    }

    pub fn entry(&self) -> (r: u64)
        ensures
            r == self.spec_header().e_entry,
    {
        self.elf_header.e_entry
    }

    /// Lowest virtual address of a loadable segment; `u64::MAX` when there
    /// is none.
    pub fn calculate_base_addr(&self) -> (r: u64)
        ensures
            r == lowest_vaddr(self.spec_segments()),
    {
        let ghost segs = self.program_headers@;
        let mut base_addr: u64 = u64::MAX;
        let mut i: usize = 0;
        while i < self.program_headers.len()
            invariant
                segs == self.program_headers@,
                i <= segs.len(),
                base_addr == lowest_vaddr(segs.take(i as int)),
            decreases segs.len() - i,
        {
            let ph = &self.program_headers[i];
            assert(segs.take(i + 1).drop_last() =~= segs.take(i as int));
            if ph.type_is_load() && base_addr > ph.p_vaddr {
                base_addr = ph.p_vaddr;
            }
            i = i + 1;
        }
        assert(segs.take(i as int) =~= segs);
        base_addr
    }

    /// Number of pages from the lowest virtual address of a loadable segment
    /// to the highest end of one, rounded up; 0 when there is none.
    pub fn calculate_page_count(&self) -> (r: u64)
        ensures
            r == page_count_of(self.spec_segments()),
    {
        let ghost segs = self.program_headers@;
        let mut found = false;
        let mut base_addr: u64 = u64::MAX;
        let mut last_addr: u128 = 0;
        let mut i: usize = 0;
        while i < self.program_headers.len()
            invariant
                segs == self.program_headers@,
                i <= segs.len(),
                found == has_loadable(segs.take(i as int)),
                base_addr == lowest_vaddr(segs.take(i as int)),
                last_addr == highest_end(segs.take(i as int)),
            decreases segs.len() - i,
        {
            let ph = &self.program_headers[i];
            let ghost pre = segs.take(i as int);
            let ghost post = segs.take(i + 1);
            assert(post.drop_last() =~= pre);
            assert(post.last() == *ph);
            proof {
                lemma_extremes(pre);
                if has_loadable(pre) {
                    let j = choose|j: int| 0 <= j < pre.len() && is_loadable(#[trigger] pre[j]);
                    assert(post[j] == pre[j]);
                }
                if has_loadable(post) && !is_loadable(*ph) {
                    let j = choose|j: int| 0 <= j < post.len() && is_loadable(#[trigger] post[j]);
                    assert(pre[j] == post[j]);
                }
            }
            if ph.type_is_load() {
                found = true;
                if base_addr > ph.p_vaddr {
                    base_addr = ph.p_vaddr;
                }
                let end = ph.p_vaddr as u128 + ph.p_memsz as u128;
                if last_addr < end {
                    last_addr = end;
                }
            }
            i = i + 1;
        }
        assert(segs.take(i as int) =~= segs);
        if !found {
            return 0;
        }
        proof {
            lemma_extremes(segs);
            let j = choose|j: int|
                0 <= j < segs.len() && is_loadable(#[trigger] segs[j]) && lowest_vaddr(segs)
                    == segs[j].p_vaddr;
            assert(segment_end(segs[j]) <= highest_end(segs));
        }
        let span = last_addr - base_addr as u128;
        ((span + (PAGE_SIZE as u128 - 1)) / PAGE_SIZE as u128) as u64
    }

    /// The load plan, or `NoLoadableSegment` when no segment is loadable.
    pub fn load_plan(&self) -> (r: Result<LoadPlan, LoadError>)
        ensures
            match r {
                Ok(plan) => {
                    &&& has_loadable(self.spec_segments())
                    &&& plan.base_address == lowest_vaddr(self.spec_segments())
                    &&& plan.page_count == page_count_of(self.spec_segments())
                },
                Err(e) => !has_loadable(self.spec_segments()) && e == LoadError::NoLoadableSegment,
            },
    {
        let base_address = self.calculate_base_addr();
        let page_count = self.calculate_page_count();
        if self.has_loadable_segment() {
            Ok(LoadPlan { base_address, page_count })
        } else {
            Err(LoadError::NoLoadableSegment)
        }
    }

    pub fn has_loadable_segment(&self) -> (r: bool)
        ensures
            r == has_loadable(self.spec_segments()),
    {
        let mut i: usize = 0;
        while i < self.program_headers.len()
            invariant
                i <= self.program_headers@.len(),
                forall|j: int| 0 <= j < i ==> !is_loadable(#[trigger] self.program_headers@[j]),
            decreases self.program_headers@.len() - i,
        {
            if self.program_headers[i].type_is_load() {
                return true;
            }
            i = i + 1;
        }
        false
    }

    /// The program header table, in file order.
    pub fn program_header_iter(&self) -> (r: &[ProgramHeader])
        ensures
            r@ == self.spec_segments(),
    {
        self.program_headers.as_slice()
    }
}

} // verus!
