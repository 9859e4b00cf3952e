//! Code and types for handling Segments.
//!
//! These live in the program header table. They are useful for building loaders.

use vstd::prelude::*;

use crate::traits::{read_u32_le_at_place, u32_le_at_place, PLACES};
use crate::{decoded, Error, Loader, Source};

verus! {

/// The eight fields of a program header, as they stand in the file.
pub struct Record {
    pub p_type: u32,
    pub p_offset: u32,
    pub p_vaddr: u32,
    pub p_paddr: u32,
    pub p_filesz: u32,
    pub p_memsz: u32,
    pub p_flags: u32,
    pub p_align: u32,
}

/// The place where entry `idx` of a program header table at `phoff` starts.
/// It may lie past the places that an offset can name.
pub open spec fn entry_offset(phoff: u32, idx: u16) -> nat {
    (phoff + Header::SIZE_IN_BYTES * idx) as nat
}

/// What decoding the program header at `base` comes to: its eight fields are
/// little-endian words that follow one another, read in order, and the first
/// that cannot be read decides the error. A field that stands past the
/// places that an offset can name cannot be read.
pub open spec fn record_at<DS: Source>(ds: &DS, base: nat) -> Result<Record, Error<DS::Error>> {
    let p_type = u32_le_at_place(ds, base);
    let p_offset = u32_le_at_place(ds, base + 0x04);
    let p_vaddr = u32_le_at_place(ds, base + 0x08);
    let p_paddr = u32_le_at_place(ds, base + 0x0C);
    let p_filesz = u32_le_at_place(ds, base + 0x10);
    let p_memsz = u32_le_at_place(ds, base + 0x14);
    let p_flags = u32_le_at_place(ds, base + 0x18);
    let p_align = u32_le_at_place(ds, base + 0x1C);
    if p_type is Err {
        Err(Error::Source(p_type->Err_0))
    } else if p_offset is Err {
        Err(Error::Source(p_offset->Err_0))
    } else if p_vaddr is Err {
        Err(Error::Source(p_vaddr->Err_0))
    } else if p_paddr is Err {
        Err(Error::Source(p_paddr->Err_0))
    } else if p_filesz is Err {
        Err(Error::Source(p_filesz->Err_0))
    } else if p_memsz is Err {
        Err(Error::Source(p_memsz->Err_0))
    } else if p_flags is Err {
        Err(Error::Source(p_flags->Err_0))
    } else if p_align is Err {
        Err(Error::Source(p_align->Err_0))
    } else {
        Ok(
            Record {
                p_type: p_type->Ok_0,
                p_offset: p_offset->Ok_0,
                p_vaddr: p_vaddr->Ok_0,
                p_paddr: p_paddr->Ok_0,
                p_filesz: p_filesz->Ok_0,
                p_memsz: p_memsz->Ok_0,
                p_flags: p_flags->Ok_0,
                p_align: p_align->Ok_0,
            },
        )
    }
}

/// Represents a program header
#[derive(Debug)]
pub struct Header {
    p_type: u32,
    p_offset: u32,
    p_vaddr: u32,
    p_paddr: u32,
    p_filesz: u32,
    p_memsz: u32,
    p_flags: u32,
    p_align: u32,
}

impl View for Header {
    type V = Record;

    closed spec fn view(&self) -> Record {
        Record {
            p_type: self.p_type,
            p_offset: self.p_offset,
            p_vaddr: self.p_vaddr,
            p_paddr: self.p_paddr,
            p_filesz: self.p_filesz,
            p_memsz: self.p_memsz,
            p_flags: self.p_flags,
            p_align: self.p_align,
        }
    }
}

impl Clone for Header {
    fn clone(&self) -> (r: Self)
        ensures
            r@ == self@,
    {
        Header {
            p_type: self.p_type,
            p_offset: self.p_offset,
            p_vaddr: self.p_vaddr,
            p_paddr: self.p_paddr,
            p_filesz: self.p_filesz,
            p_memsz: self.p_memsz,
            p_flags: self.p_flags,
            p_align: self.p_align,
        }
    }
}

impl Header {
    /// Size of a program header entry
    pub const SIZE_IN_BYTES: u16 = 0x20;

    /// Program header table entry unused.
    pub const PT_NULL: u32 = 0x00000000;

    /// Loadable segment.
    pub const PT_LOAD: u32 = 0x00000001;

    /// Dynamic linking information.
    pub const PT_DYNAMIC: u32 = 0x00000002;

    /// Interpreter information.
    pub const PT_INTERP: u32 = 0x00000003;

    /// Auxiliary information.
    pub const PT_NOTE: u32 = 0x00000004;

    /// Reserved.
    pub const PT_SHLIB: u32 = 0x00000005;

    /// Segment containing program header table itself.
    pub const PT_PHDR: u32 = 0x00000006;

    /// Thread-Local Storage template.
    pub const PT_TLS: u32 = 0x00000007;

    /// Stack.
    pub const PT_GNU_STACK: u32 = 0x6474E551;

    /// Create a new program header.
    pub fn new<DS>(loader: &Loader<DS>, idx: u16) -> (r: Result<Self, Error<DS::Error>>) where
        DS: Source,

        ensures
            decoded(r) == loader.segment(idx),
    {
        let entry_size: u64 = Self::SIZE_IN_BYTES as u64;
        let ph_table_offset: u64 = loader.e_phoff() as u64 + entry_size * idx as u64;
        let ds = loader.data_source();
        let p_type = match read_u32_le_at_place(ds, ph_table_offset) {
            Ok(v) => v,
            Err(e) => { return Err(Error::Source(e)); },
        };
        let p_offset = match read_u32_le_at_place(ds, ph_table_offset + 0x04) {
            Ok(v) => v,
            Err(e) => { return Err(Error::Source(e)); },
        };
        let p_vaddr = match read_u32_le_at_place(ds, ph_table_offset + 0x08) {
            Ok(v) => v,
            Err(e) => { return Err(Error::Source(e)); },
        };
        let p_paddr = match read_u32_le_at_place(ds, ph_table_offset + 0x0C) {
            Ok(v) => v,
            Err(e) => { return Err(Error::Source(e)); },
        };
        let p_filesz = match read_u32_le_at_place(ds, ph_table_offset + 0x10) {
            Ok(v) => v,
            Err(e) => { return Err(Error::Source(e)); },
        };
        let p_memsz = match read_u32_le_at_place(ds, ph_table_offset + 0x14) {
            Ok(v) => v,
            Err(e) => { return Err(Error::Source(e)); },
        };
        let p_flags = match read_u32_le_at_place(ds, ph_table_offset + 0x18) {
            Ok(v) => v,
            Err(e) => { return Err(Error::Source(e)); },
        };
        let p_align = match read_u32_le_at_place(ds, ph_table_offset + 0x1C) {
            Ok(v) => v,
            Err(e) => { return Err(Error::Source(e)); },
        };
        Ok(Self { p_type, p_offset, p_vaddr, p_paddr, p_filesz, p_memsz, p_flags, p_align })
    }

    /// Get the `p_type` field.
    ///
    /// This is the type of segment, e.g. `PT_LOAD`.
    pub fn p_type(&self) -> (r: u32)
        ensures
            r == self@.p_type,
    {
        self.p_type
    }

    /// Get the `p_offset` field
    ///
    /// This is the start of the segment data within this ELF file.
    pub fn p_offset(&self) -> (r: u32)
        ensures
            r == self@.p_offset,
    {
        self.p_offset
    }

    /// Get the `p_vaddr` field
    ///
    /// This is the virtual memory load address.
    pub fn p_vaddr(&self) -> (r: u32)
        ensures
            r == self@.p_vaddr,
    {
        self.p_vaddr
    }

    /// Get the `p_paddr` field
    ///
    /// This is the physical memory load address.
    pub fn p_paddr(&self) -> (r: u32)
        ensures
            r == self@.p_paddr,
    {
        self.p_paddr
    }

    /// Get the `p_filesz` field
    ///
    /// This is how much space is used by this segment on disk.
    pub fn p_filesz(&self) -> (r: u32)
        ensures
            r == self@.p_filesz,
    {
        self.p_filesz
    }

    /// Get the `p_memsz` field
    ///
    /// This is how much space is used by this segment in RAM. Nothing here
    /// holds it against `p_filesz`: a file may give less.
    pub fn p_memsz(&self) -> (r: u32)
        ensures
            r == self@.p_memsz,
    {
        self.p_memsz
    }

    /// Get the `p_flags` field
    ///
    /// A bitfield indicating whether the segment is executable (`0x01`),
    /// writable (`0x02`) or readable (`0x04`).
    pub fn p_flags(&self) -> (r: u32)
        ensures
            r == self@.p_flags,
    {
        self.p_flags
    }

    /// Get the `p_align` field
    ///
    /// 0 or 1 means no alignment, otherwise is a power-of-2 indicating
    /// alignment for this segment.
    pub fn p_align(&self) -> (r: u32)
        ensures
            r == self@.p_align,
    {
        self.p_align
    }
}

/// No header is decoded from past the last place that an offset can name: an
/// entry that starts or ends past it gives the source's error.
pub proof fn law_entry_within_places<DS: Source>(ds: &DS, base: nat)
    requires
        base + Header::SIZE_IN_BYTES > PLACES,
    ensures
        record_at(ds, base) matches Err(Error::Source(_)),
{
}

/// Decoding is repeatable: whatever two calls of [`Header::new`] give for one
/// index of one image is the same error, or headers with the same fields.
pub proof fn law_same_index_same_header<DS: Source>(
    loader: &Loader<DS>,
    idx: u16,
    first: Result<Header, Error<DS::Error>>,
    second: Result<Header, Error<DS::Error>>,
)
    requires
        call_ensures(Header::new::<DS>, (loader, idx), first),
        call_ensures(Header::new::<DS>, (loader, idx), second),
    ensures
        decoded(first) == decoded(second),
{
}

} // verus!
