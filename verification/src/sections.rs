//! Code and Types for handling Sections
//!
//! These are only interesting to linkers.

use vstd::prelude::*;
use vstd::slice::slice_subrange;
use vstd::string::StringSliceAdditionalSpecFns;
use vstd::utf8::valid_utf8;

use crate::traits::{
    read_u32_le_at_place, refusal, refused, span, span_at, u32_le_at_place, PLACES,
};
use crate::{decoded, Error, Image, Loader, Source};

verus! {

/// The ten fields of a section header, as they stand in the file.
pub struct Record {
    pub sh_name_offset: u32,
    pub sh_type: u32,
    pub sh_flags: u32,
    pub sh_addr: u32,
    pub sh_offset: u32,
    pub sh_size: u32,
    pub sh_link: u32,
    pub sh_info: u32,
    pub sh_addralign: u32,
    pub sh_entsize: u32,
}

/// The place where entry `idx` of a section header table at `shoff` starts.
/// It may lie past the places that an offset can name.
pub open spec fn entry_offset(shoff: u32, idx: u16) -> nat {
    (shoff + Header::SIZE_IN_BYTES * idx) as nat
}

/// What decoding the section header at `base` comes to: its ten fields are
/// little-endian words that follow one another, read in order, and the first
/// that cannot be read decides the error. A field that stands past the
/// places that an offset can name cannot be read.
pub open spec fn record_at<DS: Source>(ds: &DS, base: nat) -> Result<Record, Error<DS::Error>> {
    let sh_name_offset = u32_le_at_place(ds, base);
    let sh_type = u32_le_at_place(ds, base + 0x04);
    let sh_flags = u32_le_at_place(ds, base + 0x08);
    let sh_addr = u32_le_at_place(ds, base + 0x0C);
    let sh_offset = u32_le_at_place(ds, base + 0x10);
    let sh_size = u32_le_at_place(ds, base + 0x14);
    let sh_link = u32_le_at_place(ds, base + 0x18);
    let sh_info = u32_le_at_place(ds, base + 0x1C);
    let sh_addralign = u32_le_at_place(ds, base + 0x20);
    let sh_entsize = u32_le_at_place(ds, base + 0x24);
    if sh_name_offset is Err {
        Err(Error::Source(sh_name_offset->Err_0))
    } else if sh_type is Err {
        Err(Error::Source(sh_type->Err_0))
    } else if sh_flags is Err {
        Err(Error::Source(sh_flags->Err_0))
    } else if sh_addr is Err {
        Err(Error::Source(sh_addr->Err_0))
    } else if sh_offset is Err {
        Err(Error::Source(sh_offset->Err_0))
    } else if sh_size is Err {
        Err(Error::Source(sh_size->Err_0))
    } else if sh_link is Err {
        Err(Error::Source(sh_link->Err_0))
    } else if sh_info is Err {
        Err(Error::Source(sh_info->Err_0))
    } else if sh_addralign is Err {
        Err(Error::Source(sh_addralign->Err_0))
    } else if sh_entsize is Err {
        Err(Error::Source(sh_entsize->Err_0))
    } else {
        Ok(
            Record {
                sh_name_offset: sh_name_offset->Ok_0,
                sh_type: sh_type->Ok_0,
                sh_flags: sh_flags->Ok_0,
                sh_addr: sh_addr->Ok_0,
                sh_offset: sh_offset->Ok_0,
                sh_size: sh_size->Ok_0,
                sh_link: sh_link->Ok_0,
                sh_info: sh_info->Ok_0,
                sh_addralign: sh_addralign->Ok_0,
                sh_entsize: sh_entsize->Ok_0,
            },
        )
    }
}

/// Whether `n` is the place of the first zero byte in `bytes`.
pub open spec fn is_first_nul(bytes: Seq<u8>, n: int) -> bool {
    &&& 0 <= n < bytes.len()
    &&& bytes[n] == 0
    &&& forall|j: int| 0 <= j < n ==> bytes[j] != 0
}

/// The name that `bytes` holds: what stands before the first zero byte, which
/// must be UTF-8. Without a zero byte the name did not fit into `bytes`.
pub open spec fn text_until_nul<E: core::fmt::Debug>(bytes: Seq<u8>) -> Result<Seq<u8>, Error<E>> {
    if forall|i: int| 0 <= i < bytes.len() ==> bytes[i] != 0 {
        Err(Error::NotEnoughSpace)
    } else {
        let text = bytes.subrange(0, choose|n: int| is_first_nul(bytes, n));
        if valid_utf8(text) {
            Ok(text)
        } else {
            Err(Error::InvalidString)
        }
    }
}

/// What resolving a name comes to, for a section whose name stands at
/// `name_offset` in the string table of `image`, with room for `len` bytes:
/// the header of the string table section is decoded, then `len` bytes are
/// read from where the name starts in it, and they must hold the name. A
/// name that starts past the places that an offset can name cannot be read.
pub open spec fn name_outcome<DS: Source>(
    ds: &DS,
    image: Image,
    name_offset: u32,
    len: nat,
) -> Result<Seq<u8>, Error<DS::Error>> {
    match record_at(ds, entry_offset(image.e_shoff, image.e_shstrndx)) {
        Err(e) => Err(e),
        Ok(strings) => match span_at(ds, (strings.sh_offset + name_offset) as nat, len) {
            Err(e) => Err(Error::Source(e)),
            Ok(bytes) => text_until_nul(bytes),
        },
    }
}

/// The text that `bytes` encode, if they are valid UTF-8.
///
/// Calls `core::str::from_utf8`; the claim is that it accepts exactly the
/// valid UTF-8 encodings, and that the text it gives back is made of the
/// bytes it was given.
#[verifier::external_body]
fn text_of<'a>(bytes: &'a [u8]) -> (r: Option<&'a str>)
    ensures
        r is Some <==> valid_utf8(bytes@),
        r matches Some(s) ==> s.spec_bytes() == bytes@,
{
    core::str::from_utf8(bytes).ok()
}

/// Represents a section in the section table.
#[derive(Debug)]
pub struct Header {
    sh_name_offset: u32,
    sh_type: u32,
    sh_flags: u32,
    sh_addr: u32,
    sh_offset: u32,
    sh_size: u32,
    sh_link: u32,
    sh_info: u32,
    sh_addralign: u32,
    sh_entsize: u32,
}

impl View for Header {
    type V = Record;

    closed spec fn view(&self) -> Record {
        Record {
            sh_name_offset: self.sh_name_offset,
            sh_type: self.sh_type,
            sh_flags: self.sh_flags,
            sh_addr: self.sh_addr,
            sh_offset: self.sh_offset,
            sh_size: self.sh_size,
            sh_link: self.sh_link,
            sh_info: self.sh_info,
            sh_addralign: self.sh_addralign,
            sh_entsize: self.sh_entsize,
        }
    }
}

impl Clone for Header {
    fn clone(&self) -> (r: Self)
        ensures
            r@ == self@,
    {
        Header {
            sh_name_offset: self.sh_name_offset,
            sh_type: self.sh_type,
            sh_flags: self.sh_flags,
            sh_addr: self.sh_addr,
            sh_offset: self.sh_offset,
            sh_size: self.sh_size,
            sh_link: self.sh_link,
            sh_info: self.sh_info,
            sh_addralign: self.sh_addralign,
            sh_entsize: self.sh_entsize,
        }
    }
}

impl Header {
    /// Size of a section header entry
    pub const SIZE_IN_BYTES: u16 = 0x28;

    /// Section header table entry unused
    pub const SHT_NULL: u32 = 0x0;

    /// Program data
    pub const SHT_PROGBITS: u32 = 0x1;

    /// Symbol table
    pub const SHT_SYMTAB: u32 = 0x2;

    /// String table
    pub const SHT_STRTAB: u32 = 0x3;

    /// Relocation entries with addends
    pub const SHT_RELA: u32 = 0x4;

    /// Symbol hash table
    pub const SHT_HASH: u32 = 0x5;

    /// Dynamic linking information
    pub const SHT_DYNAMIC: u32 = 0x6;

    /// Notes
    pub const SHT_NOTE: u32 = 0x7;

    /// Program space with no data (bss)
    pub const SHT_NOBITS: u32 = 0x8;

    /// Relocation data, no addends
    pub const SHT_REL: u32 = 0x9;

    /// Dynamic linker symbol table
    pub const SHT_DYNSYM: u32 = 0x0B;

    /// Array of constructors
    pub const SHT_INIT_ARRAY: u32 = 0x0E;

    /// Array of destructors
    pub const SHT_FINI_ARRAY: u32 = 0x0F;

    /// Array of pre-constructors
    pub const SHT_PREINIT_ARRAY: u32 = 0x10;

    /// Section group
    pub const SHT_GROUP: u32 = 0x11;

    /// Extended section indicies
    pub const SHT_SYMTAB_SHNDX: u32 = 0x12;

    /// Create a new section header.
    pub fn new<DS>(loader: &Loader<DS>, idx: u16) -> (r: Result<Self, Error<DS::Error>>) where
        DS: Source,

        ensures
            decoded(r) == loader.section(idx),
    {
        let entry_size: u64 = Self::SIZE_IN_BYTES as u64;
        let section_table_offset: u64 = loader.e_shoff() as u64 + entry_size * idx as u64;
        let ds = loader.data_source();
        let sh_name_offset = match read_u32_le_at_place(ds, section_table_offset) {
            Ok(v) => v,
            Err(e) => { return Err(Error::Source(e)); },
        };
        let sh_type = match read_u32_le_at_place(ds, section_table_offset + 0x04) {
            Ok(v) => v,
            Err(e) => { return Err(Error::Source(e)); },
        };
        let sh_flags = match read_u32_le_at_place(ds, section_table_offset + 0x08) {
            Ok(v) => v,
            Err(e) => { return Err(Error::Source(e)); },
        };
        let sh_addr = match read_u32_le_at_place(ds, section_table_offset + 0x0C) {
            Ok(v) => v,
            Err(e) => { return Err(Error::Source(e)); },
        };
        let sh_offset = match read_u32_le_at_place(ds, section_table_offset + 0x10) {
            Ok(v) => v,
            Err(e) => { return Err(Error::Source(e)); },
        };
        let sh_size = match read_u32_le_at_place(ds, section_table_offset + 0x14) {
            Ok(v) => v,
            Err(e) => { return Err(Error::Source(e)); },
        };
        let sh_link = match read_u32_le_at_place(ds, section_table_offset + 0x18) {
            Ok(v) => v,
            Err(e) => { return Err(Error::Source(e)); },
        };
        let sh_info = match read_u32_le_at_place(ds, section_table_offset + 0x1C) {
            Ok(v) => v,
            Err(e) => { return Err(Error::Source(e)); },
        };
        let sh_addralign = match read_u32_le_at_place(ds, section_table_offset + 0x20) {
            Ok(v) => v,
            Err(e) => { return Err(Error::Source(e)); },
        };
        let sh_entsize = match read_u32_le_at_place(ds, section_table_offset + 0x24) {
            Ok(v) => v,
            Err(e) => { return Err(Error::Source(e)); },
        };
        Ok(
            Self {
                sh_name_offset,
                sh_type,
                sh_flags,
                sh_addr,
                sh_offset,
                sh_size,
                sh_link,
                sh_info,
                sh_addralign,
                sh_entsize,
            },
        )
    }

    /// Return the `sh_name_offset` field
    pub fn sh_name_offset(&self) -> (r: u32)
        ensures
            r == self@.sh_name_offset,
    {
        self.sh_name_offset
    }

    /// Return the `sh_type` field
    pub fn sh_type(&self) -> (r: u32)
        ensures
            r == self@.sh_type,
    {
        self.sh_type
    }

    /// Return the `sh_flags` field
    pub fn sh_flags(&self) -> (r: u32)
        ensures
            r == self@.sh_flags,
    {
        self.sh_flags
    }

    /// Return the `sh_addr` field
    pub fn sh_addr(&self) -> (r: u32)
        ensures
            r == self@.sh_addr,
    {
        self.sh_addr
    }

    /// Return the `sh_offset` field
    pub fn sh_offset(&self) -> (r: u32)
        ensures
            r == self@.sh_offset,
    {
        self.sh_offset
    }

    /// Return the `sh_size` field
    pub fn sh_size(&self) -> (r: u32)
        ensures
            r == self@.sh_size,
    {
        self.sh_size
    }

    /// Return the `sh_link` field
    pub fn sh_link(&self) -> (r: u32)
        ensures
            r == self@.sh_link,
    {
        self.sh_link
    }

    /// Return the `sh_info` field
    pub fn sh_info(&self) -> (r: u32)
        ensures
            r == self@.sh_info,
    {
        self.sh_info
    }

    /// Return the `sh_addralign` field
    pub fn sh_addralign(&self) -> (r: u32)
        ensures
            r == self@.sh_addralign,
    {
        self.sh_addralign
    }

    /// Return the `sh_entsize` field
    pub fn sh_entsize(&self) -> (r: u32)
        ensures
            r == self@.sh_entsize,
    {
        self.sh_entsize
    }

    /// Get the string name for this section.
    ///
    /// The buffer is filled with zeros and then with what the source holds
    /// where the name starts: at the offset of the string table plus that of
    /// the name. The name is the text before the first zero. Where that sum
    /// is more than an offset can hold there is nothing to read, and the
    /// source's error for a read past its last place is returned.
    pub fn sh_name<'a, DS: Source>(&self, loader: &Loader<DS>, buffer: &'a mut [u8]) -> (r: Result<
        &'a str,
        Error<DS::Error>,
    >)
        ensures
            match name_outcome(
                &loader.source(),
                loader@,
                self@.sh_name_offset,
                old(buffer)@.len(),
            ) {
                Ok(text) => r matches Ok(s) && s.spec_bytes() == text,
                Err(e) => r matches Err(f) && f == e,
            },
            final(buffer)@ == name_buffer(
                &loader.source(),
                loader@,
                self@.sh_name_offset,
                old(buffer)@,
            ),
            r matches Ok(s) ==> is_first_nul(final(buffer)@, s.spec_bytes().len() as int)
                && s.spec_bytes() == final(buffer)@.subrange(0, s.spec_bytes().len() as int),
    {
        let string_section_idx = loader.e_shstrndx();
        let string_section_header = match Self::new(loader, string_section_idx) {
            Ok(h) => h,
            Err(e) => { return Err(e); },
        };
        let string_start: u64 = string_section_header.sh_offset() as u64
            + self.sh_name_offset as u64;
        let len: usize = buffer.len();
        let mut i: usize = 0;
        while i < len
            invariant
                i <= len,
                buffer@.len() == len,
                forall|j: int| 0 <= j < i ==> buffer@[j] == 0,
            decreases len - i,
        {
            buffer[i] = 0x00;
            i = i + 1;
        }
        assert(buffer@ =~= Seq::new(len as nat, |j: int| 0u8));
        if string_start >= PLACES {
            return Err(Error::Source(refused(loader.data_source())));
        }
        match loader.data_source().read(string_start as u32, buffer) {
            Ok(()) => {},
            Err(e) => { return Err(Error::Source(e)); },
        }
        let bytes: &'a [u8] = buffer;
        assert(bytes@ =~= span(&loader.source(), string_start as u32, len as nat)->Ok_0);
        // Without a zero byte the name used all of the buffer.
        let mut n: usize = 0;
        while n < len && bytes[n] != 0
            invariant
                n <= len,
                bytes@.len() == len,
                forall|j: int| 0 <= j < n ==> bytes@[j] != 0,
            decreases len - n,
        {
            n = n + 1;
        }
        if n == len {
            return Err(Error::NotEnoughSpace);
        }
        assert(is_first_nul(bytes@, n as int));
        proof {
            lemma_first_nul_unique(bytes@, n as int, choose|m: int| is_first_nul(bytes@, m));
        }
        match text_of(slice_subrange(bytes, 0, n)) {
            Some(s) => Ok(s),
            None => Err(Error::InvalidString),
        }
    }
}

/// Decoding is repeatable: whatever two calls of [`Header::new`] give for one
/// index of one image is the same error, or headers with the same fields.
pub proof fn law_same_index_same_header<DS: Source>(
    loader: &Loader<DS>,
    idx: u16,
    first: Result<Header, Error<DS::Error>>,
    second: Result<Header, Error<DS::Error>>,
)
    requires
        call_ensures(Header::new::<DS>, (loader, idx), first),
        call_ensures(Header::new::<DS>, (loader, idx), second),
    ensures
        decoded(first) == decoded(second),
{
}

/// A sequence of bytes has one first zero byte at most.
pub proof fn lemma_first_nul_unique(bytes: Seq<u8>, n: int, m: int)
    requires
        is_first_nul(bytes, n),
        is_first_nul(bytes, m),
    ensures
        n == m,
{
    if n < m {
        assert(bytes[n] != 0);
    } else if m < n {
        assert(bytes[m] != 0);
    }
}

/// The place where a name of `image` that stands at `name_offset` in its
/// string table starts in the source, if the header of the string table
/// section can be decoded: the offset of the string table plus that of the
/// name.
pub open spec fn name_start<DS: Source>(ds: &DS, image: Image, name_offset: u32) -> Option<nat> {
    match record_at(ds, entry_offset(image.e_shoff, image.e_shstrndx)) {
        Err(_) => None,
        Ok(strings) => Some((strings.sh_offset + name_offset) as nat),
    }
}

/// A name comes back as it stands in the string table: where the source
/// holds the bytes of `name`, which are UTF-8 without a zero byte, and a
/// zero byte after them, every buffer with room for the name and the zero
/// byte that the source can fill gives exactly `name`. (A buffer that
/// reaches past the last place an offset can name is one it cannot fill.)
pub proof fn law_name_round_trip<DS: Source>(
    ds: &DS,
    image: Image,
    name_offset: u32,
    len: nat,
    name: Seq<u8>,
)
    requires
        forall|i: int| 0 <= i < name.len() ==> name[i] != 0,
        valid_utf8(name),
        len > name.len(),
        name_start(ds, image, name_offset) matches Some(start) && start + len <= PLACES && ds.fault(
            start as u32,
            len,
        ) is None && ds.byte((start + name.len()) as int) == 0 && forall|i: int|
            0 <= i < name.len() ==> ds.byte(start + i) == name[i],
    ensures
        name_outcome(ds, image, name_offset, len) == Ok::<Seq<u8>, Error<DS::Error>>(name),
{
    let start = name_start(ds, image, name_offset)->0;
    let bytes = span(ds, start as u32, len)->Ok_0;
    let n = name.len() as int;
    assert forall|j: int| 0 <= j < n implies bytes[j] != 0 by {
        assert(bytes[j] == name[j]);
    }
    assert(is_first_nul(bytes, n));
    lemma_first_nul_unique(bytes, n, choose|m: int| is_first_nul(bytes, m));
    assert(bytes.subrange(0, n) =~= name);
}

/// A buffer too short for a name and its zero byte is refused: where the
/// source holds the bytes of `name`, which hold no zero byte, a buffer of
/// `name.len()` bytes or fewer that the source can fill gives the error for
/// too little space.
pub proof fn law_name_needs_room<DS: Source>(
    ds: &DS,
    image: Image,
    name_offset: u32,
    len: nat,
    name: Seq<u8>,
)
    requires
        forall|i: int| 0 <= i < name.len() ==> name[i] != 0,
        len <= name.len(),
        name_start(ds, image, name_offset) matches Some(start) && start < PLACES && start + len
            <= PLACES && ds.fault(
            start as u32,
            len,
        ) is None && forall|i: int| 0 <= i < name.len() ==> ds.byte(start + i) == name[i],
    ensures
        name_outcome(ds, image, name_offset, len) == Err::<Seq<u8>, Error<DS::Error>>(
            Error::NotEnoughSpace,
        ),
{
    let start = name_start(ds, image, name_offset)->0;
    let bytes = span(ds, start as u32, len)->Ok_0;
    assert forall|j: int| 0 <= j < bytes.len() implies bytes[j] != 0 by {
        assert(bytes[j] == name[j]);
    }
}

/// No name is taken from past the last place that an offset can name: where
/// the name starts past it, or the buffer reaches past it, the result is the
/// source's error, never text and never the error for too little space.
pub proof fn law_name_within_places<DS: Source>(
    ds: &DS,
    image: Image,
    name_offset: u32,
    len: nat,
)
    requires
        name_start(ds, image, name_offset) matches Some(start) && start + len > PLACES,
    ensures
        name_outcome(ds, image, name_offset, len) matches Err(Error::Source(_)),
        name_start(ds, image, name_offset)->0 >= PLACES ==> name_outcome(
            ds,
            image,
            name_offset,
            len,
        ) == Err::<Seq<u8>, Error<DS::Error>>(Error::Source(refusal(ds))),
{
}

/// No header is decoded from past the last place that an offset can name: an
/// entry that starts or ends past it gives the source's error.
pub proof fn law_entry_within_places<DS: Source>(ds: &DS, base: nat)
    requires
        base + Header::SIZE_IN_BYTES > PLACES,
    ensures
        record_at(ds, base) matches Err(Error::Source(_)),
{
}

/// What resolving a name leaves in a buffer that held `before`: the buffer
/// as it was if the header of the string table section could not be decoded,
/// zeros if the name could not be read, and else the bytes read.
pub open spec fn name_buffer<DS: Source>(
    ds: &DS,
    image: Image,
    name_offset: u32,
    before: Seq<u8>,
) -> Seq<u8> {
    match record_at(ds, entry_offset(image.e_shoff, image.e_shstrndx)) {
        Err(_) => before,
        Ok(strings) => match span_at(
            ds,
            (strings.sh_offset + name_offset) as nat,
            before.len(),
        ) {
            Err(_) => Seq::new(before.len(), |j: int| 0u8),
            Ok(bytes) => bytes,
        },
    }
}

} // verus!
