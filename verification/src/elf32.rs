//! The records of a 32-bit ELF object, as they lie in memory.

use crate::bytes::{le_u16, le_u32, read_u16, read_u32, signed32, to_i32};
use vstd::prelude::*;

verus! {

pub type Word = u32;

pub type SignedWord = i32;

pub type Half = u16;

pub type Addr = u32;

/// Bytes taken by one [`DynEntry`].
pub const DYN_ENTRY_SIZE: usize = 8;

/// Bytes taken by one [`DynSym`].
pub const DYN_SYM_SIZE: usize = 16;

/// Bytes taken by one [`DynRel`].
pub const DYN_REL_SIZE: usize = 8;

/// Bytes taken by one [`DynRela`].
pub const DYN_RELA_SIZE: usize = 12;

/// One entry of the program-header table.
#[derive(Debug, Clone, Copy, PartialEq, Eq, Structural)]
pub struct ProgramHeader {
    pub p_type: Word,
    pub p_offset: Word,
    pub p_vaddr: Addr,
    pub p_paddr: Addr,
    pub p_filesz: Word,
    pub p_memsz: Word,
    pub p_flags: Word,
    pub p_align: Word,
}

/// One entry of the dynamic section.
#[derive(Debug, Clone, Copy, PartialEq, Eq, Structural)]
pub struct DynEntry {
    pub d_tag: SignedWord,
    /// Either a value or an address.
    pub d_val_ptr: Word,
}

/// One entry of the dynamic symbol table. The fields come in another order
/// than in the 64-bit record.
#[derive(Debug, Clone, Copy, PartialEq, Eq, Structural)]
pub struct DynSym {
    pub st_name: Word,
    pub st_value: Addr,
    pub st_size: Word,
    pub st_info: u8,
    pub st_other: u8,
    pub st_shndx: Half,
}

/// A relocation without an addend.
#[derive(Debug, Clone, Copy, PartialEq, Eq, Structural)]
pub struct DynRel {
    pub r_offset: Addr,
    pub r_info: Word,
}

/// A relocation with an addend.
#[derive(Debug, Clone, Copy, PartialEq, Eq, Structural)]
pub struct DynRela {
    pub r_offset: Addr,
    pub r_info: Word,
    pub r_addend: SignedWord,
}

/// The symbol number held in the upper 24 bits of an `r_info` field.
pub open spec fn info_symbol(r_info: u32) -> u32 {
    r_info / 0x100
}

/// The relocation type held in the lowest byte of an `r_info` field.
pub open spec fn info_type(r_info: u32) -> u32 {
    r_info % 0x100
}

/// An `r_info` field is its symbol number and its relocation type side by side.
pub proof fn lemma_info_parts(r_info: u32)
    ensures
        r_info == info_symbol(r_info) * 0x100 + info_type(r_info),
        info_symbol(r_info) == r_info >> 8,
        info_type(r_info) == r_info & 0xff,
{
    assert(r_info >> 8 == r_info / 0x100) by (bit_vector);
    assert(r_info & 0xff == r_info % 0x100) by (bit_vector);
}

fn symbol_of(r_info: u32) -> (r: u32)
    ensures
        r == info_symbol(r_info),
{
    proof {
        lemma_info_parts(r_info);
    }
    r_info >> 8
}

fn type_of(r_info: u32) -> (r: u32)
    ensures
        r == info_type(r_info),
{
    proof {
        lemma_info_parts(r_info);
    }
    r_info & 0xff
}

impl DynEntry {
    /// The entry whose bytes start at `off`.
    pub open spec fn spec_decode(s: Seq<u8>, off: int) -> DynEntry {
        DynEntry { d_tag: signed32(le_u32(s, off)) as i32, d_val_ptr: le_u32(s, off + 4) as u32 }
    }

    pub fn decode(s: &[u8], off: usize) -> (r: DynEntry)
        requires
            off + DYN_ENTRY_SIZE <= s@.len(),
        ensures
            r == Self::spec_decode(s@, off as int),
    {
        let n: usize = s.len();
        assert(off + 8 <= n);
        DynEntry { d_tag: to_i32(read_u32(s, off)), d_val_ptr: read_u32(s, off + 4) }
    }
}

impl DynSym {
    /// The symbol whose bytes start at `off`.
    pub open spec fn spec_decode(s: Seq<u8>, off: int) -> DynSym {
        DynSym {
            st_name: le_u32(s, off) as u32,
            st_value: le_u32(s, off + 4) as u32,
            st_size: le_u32(s, off + 8) as u32,
            st_info: s[off + 12],
            st_other: s[off + 13],
            st_shndx: le_u16(s, off + 14) as u16,
        }
    }

    pub fn decode(s: &[u8], off: usize) -> (r: DynSym)
        requires
            off + DYN_SYM_SIZE <= s@.len(),
        ensures
            r == Self::spec_decode(s@, off as int),
    {
        let n: usize = s.len();
        assert(off + 16 <= n);
        DynSym {
            st_name: read_u32(s, off),
            st_value: read_u32(s, off + 4),
            st_size: read_u32(s, off + 8),
            st_info: s[off + 12],
            st_other: s[off + 13],
            st_shndx: read_u16(s, off + 14),
        }
    }
}

impl DynRel {
    /// The relocation whose bytes start at `off`.
    pub open spec fn spec_decode(s: Seq<u8>, off: int) -> DynRel {
        DynRel { r_offset: le_u32(s, off) as u32, r_info: le_u32(s, off + 4) as u32 }
    }

    pub fn decode(s: &[u8], off: usize) -> (r: DynRel)
        requires
            off + DYN_REL_SIZE <= s@.len(),
        ensures
            r == Self::spec_decode(s@, off as int),
    {
        let n: usize = s.len();
        assert(off + 8 <= n);
        DynRel { r_offset: read_u32(s, off), r_info: read_u32(s, off + 4) }
    }

    /// The number of the symbol that the relocation names.
    pub fn symbol_index(&self) -> (r: Word)
        ensures
            r == info_symbol(self.r_info),
    {
        symbol_of(self.r_info)
    }

    /// The kind of relocation.
    pub fn symbol_type(&self) -> (r: Word)
        ensures
            r == info_type(self.r_info),
    {
        type_of(self.r_info)
    }
}

impl DynRela {
    /// The relocation whose bytes start at `off`.
    pub open spec fn spec_decode(s: Seq<u8>, off: int) -> DynRela {
        DynRela {
            r_offset: le_u32(s, off) as u32,
            r_info: le_u32(s, off + 4) as u32,
            r_addend: signed32(le_u32(s, off + 8)) as i32,
        }
    }

    pub fn decode(s: &[u8], off: usize) -> (r: DynRela)
        requires
            off + DYN_RELA_SIZE <= s@.len(),
        ensures
            r == Self::spec_decode(s@, off as int),
    {
        let n: usize = s.len();
        assert(off + 12 <= n);
        DynRela {
            r_offset: read_u32(s, off),
            r_info: read_u32(s, off + 4),
            r_addend: to_i32(read_u32(s, off + 8)),
        }
    }

    /// The number of the symbol that the relocation names.
    pub fn symbol_index(&self) -> (r: Word)
        ensures
            r == info_symbol(self.r_info),
    {
        symbol_of(self.r_info)
    }

    /// The kind of relocation.
    pub fn symbol_type(&self) -> (r: Word)
        ensures
            r == info_type(self.r_info),
    {
        type_of(self.r_info)
    }
}

} // verus!
