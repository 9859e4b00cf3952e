//! # Neotron Loader
//!
//! Decodes statically-linked 32-bit little-endian ARM ELF executables from any
//! byte-addressable source, without allocating.

use vstd::prelude::*;

pub mod sections;
pub mod segments;
pub mod traits;

pub use sections::Header as SectionHeader;
pub use segments::Header as ProgramHeader;
pub use traits::Source;

use traits::{u16_le_at, u32_be_at, u32_le_at};

verus! {

/// The ways this API can fail
#[derive(Debug)]
pub enum Error<E> where E: core::fmt::Debug {
    /// The ELF file didn't look right
    NotAnElfFile,
    /// It was an ELF file, but not what Neotron can handle
    WrongElfFile,
    /// There was a problem with the data source.
    Source(E),
    /// Couldn't fit string into given buffer
    NotEnoughSpace,
    /// Section name wasn't UTF-8
    InvalidString,
}

impl<E> Clone for Error<E> where E: core::fmt::Debug + Clone {
    /// A copy is of the same kind, and holds a copy of the source's error.
    fn clone(&self) -> (r: Self)
        ensures
            match *self {
                Error::NotAnElfFile => r is NotAnElfFile,
                Error::WrongElfFile => r is WrongElfFile,
                Error::Source(e) => r matches Error::Source(f) && cloned::<E>(e, f),
                Error::NotEnoughSpace => r is NotEnoughSpace,
                Error::InvalidString => r is InvalidString,
            },
    {
        match self {
            Error::NotAnElfFile => Error::NotAnElfFile,
            Error::WrongElfFile => Error::WrongElfFile,
            Error::Source(e) => Error::Source(e.clone()),
            Error::NotEnoughSpace => Error::NotEnoughSpace,
            Error::InvalidString => Error::InvalidString,
        }
    }
}

impl<E> From<E> for Error<E> where E: core::fmt::Debug {
    fn from(value: E) -> (r: Error<E>) {
        Error::Source(value)
    }
}

impl<E> vstd::std_specs::convert::FromSpecImpl<E> for Error<E> where E: core::fmt::Debug {
    open spec fn obeys_from_spec() -> bool {
        true
    }

    open spec fn from_spec(value: E) -> Error<E> {
        Error::Source(value)
    }
}

/// Standard ELF magic header
pub const ELF_MAGIC: u32 = 0x7F454C46;

/// 32-bit, little-endian, version 1, SysV
pub const DESIRED_ELF_VERSION: u32 = 0x01010100;

/// For offset 0x10, indicates a binary
pub const ET_EXEC: u16 = 0x0002;

/// Indicates ARM machine
pub const EM_ARM: u16 = 0x0028;

/// What a loader keeps of a file header that it accepted.
pub struct Image {
    /// The memory address of the entry point
    pub e_entry: u32,
    /// The offset of the program header table
    pub e_phoff: u32,
    /// The offset of the section header table
    pub e_shoff: u32,
    /// The number of program header entries
    pub e_phnum: u16,
    /// The number of section header entries
    pub e_shnum: u16,
    /// The index of the section header containing section names.
    pub e_shstrndx: u16,
}

/// What reading the file header of `ds` comes to: the fields are read and
/// tested in the order of their offsets, and the first one that cannot be
/// read, or does not hold what this loader supports, decides the error.
pub open spec fn header_outcome<DS: Source>(ds: &DS) -> Result<Image, Error<DS::Error>> {
    let magic = u32_be_at(ds, 0x00);
    let ident = u32_be_at(ds, 0x04);
    let e_type = u16_le_at(ds, 0x10);
    let e_machine = u16_le_at(ds, 0x12);
    let e_version = u32_le_at(ds, 0x14);
    let e_entry = u32_le_at(ds, 0x18);
    let e_phoff = u32_le_at(ds, 0x1C);
    let e_shoff = u32_le_at(ds, 0x20);
    let e_phentsize = u16_le_at(ds, 0x2A);
    let e_phnum = u16_le_at(ds, 0x2C);
    let e_shentsize = u16_le_at(ds, 0x2E);
    let e_shnum = u16_le_at(ds, 0x30);
    let e_shstrndx = u16_le_at(ds, 0x32);
    if magic is Err {
        Err(Error::Source(magic->Err_0))
    } else if magic->Ok_0 != ELF_MAGIC {
        Err(Error::NotAnElfFile)
    } else if ident is Err {
        Err(Error::Source(ident->Err_0))
    } else if ident->Ok_0 != DESIRED_ELF_VERSION {
        Err(Error::WrongElfFile)
    } else if e_type is Err {
        Err(Error::Source(e_type->Err_0))
    } else if e_type->Ok_0 != ET_EXEC {
        Err(Error::WrongElfFile)
    } else if e_machine is Err {
        Err(Error::Source(e_machine->Err_0))
    } else if e_machine->Ok_0 != EM_ARM {
        Err(Error::WrongElfFile)
    } else if e_version is Err {
        Err(Error::Source(e_version->Err_0))
    } else if e_version->Ok_0 != 1 {
        Err(Error::WrongElfFile)
    } else if e_entry is Err {
        Err(Error::Source(e_entry->Err_0))
    } else if e_phoff is Err {
        Err(Error::Source(e_phoff->Err_0))
    } else if e_shoff is Err {
        Err(Error::Source(e_shoff->Err_0))
    } else if e_phentsize is Err {
        Err(Error::Source(e_phentsize->Err_0))
    } else if e_phentsize->Ok_0 != ProgramHeader::SIZE_IN_BYTES {
        Err(Error::WrongElfFile)
    } else if e_phnum is Err {
        Err(Error::Source(e_phnum->Err_0))
    } else if e_shentsize is Err {
        Err(Error::Source(e_shentsize->Err_0))
    } else if e_shentsize->Ok_0 != SectionHeader::SIZE_IN_BYTES {
        Err(Error::WrongElfFile)
    } else if e_shnum is Err {
        Err(Error::Source(e_shnum->Err_0))
    } else if e_shstrndx is Err {
        Err(Error::Source(e_shstrndx->Err_0))
    } else {
        Ok(
            Image {
                e_entry: e_entry->Ok_0,
                e_phoff: e_phoff->Ok_0,
                e_shoff: e_shoff->Ok_0,
                e_phnum: e_phnum->Ok_0,
                e_shnum: e_shnum->Ok_0,
                e_shstrndx: e_shstrndx->Ok_0,
            },
        )
    }
}

/// An object that can load and parse an ELF file.
pub struct Loader<DS> {
    /// Where we get the bytes from
    data_source: DS,
    /// The memory address of the entry point
    e_entry: u32,
    /// The offset of the program header table
    e_phoff: u32,
    /// The offset of the section header table
    e_shoff: u32,
    /// The number of program header entries
    e_phnum: u16,
    /// The number of section header entries
    e_shnum: u16,
    /// The index of the section header containing section names.
    e_shstrndx: u16,
}

impl<DS> View for Loader<DS> {
    type V = Image;

    closed spec fn view(&self) -> Image {
        Image {
            e_entry: self.e_entry,
            e_phoff: self.e_phoff,
            e_shoff: self.e_shoff,
            e_phnum: self.e_phnum,
            e_shnum: self.e_shnum,
            e_shstrndx: self.e_shstrndx,
        }
    }
}

impl<DS> Loader<DS> where DS: Source {
    /// The source that this loader reads from.
    pub closed spec fn source(&self) -> DS {
        self.data_source
    }

    /// Make a new loader
    pub fn new(data_source: DS) -> (r: Result<Loader<DS>, Error<DS::Error>>)
        ensures
            match header_outcome(&data_source) {
                Ok(image) => r matches Ok(loader) && loader@ == image && loader.source()
                    == data_source,
                Err(e) => r matches Err(f) && f == e,
            },
    {
        let elf_header = match data_source.read_u32_be(0x00) {
            Ok(v) => v,
            Err(e) => { return Err(Error::Source(e)); },
        };
        if elf_header != ELF_MAGIC {
            // File doesn't start 0x7F E L F
            return Err(Error::NotAnElfFile);
        }
        let class_endian_version_abi = match data_source.read_u32_be(0x04) {
            Ok(v) => v,
            Err(e) => { return Err(Error::Source(e)); },
        };
        if class_endian_version_abi != DESIRED_ELF_VERSION {
            return Err(Error::WrongElfFile);
        }
        // Ignore ABI version at 0x08..0x10

        let elf_type = match data_source.read_u16_le(0x10) {
            Ok(v) => v,
            Err(e) => { return Err(Error::Source(e)); },
        };
        if elf_type != ET_EXEC {
            // File is not a binary
            return Err(Error::WrongElfFile);
        }
        let elf_machine = match data_source.read_u16_le(0x12) {
            Ok(v) => v,
            Err(e) => { return Err(Error::Source(e)); },
        };
        if elf_machine != EM_ARM {
            // File is not a ARM
            return Err(Error::WrongElfFile);
        }
        let elf_version = match data_source.read_u32_le(0x14) {
            Ok(v) => v,
            Err(e) => { return Err(Error::Source(e)); },
        };
        if elf_version != 1 {
            // File is not a ELF
            return Err(Error::WrongElfFile);
        }
        let e_entry = match data_source.read_u32_le(0x18) {
            Ok(v) => v,
            Err(e) => { return Err(Error::Source(e)); },
        };
        let e_phoff = match data_source.read_u32_le(0x1C) {
            Ok(v) => v,
            Err(e) => { return Err(Error::Source(e)); },
        };
        let e_shoff = match data_source.read_u32_le(0x20) {
            Ok(v) => v,
            Err(e) => { return Err(Error::Source(e)); },
        };
        let e_phentsize = match data_source.read_u16_le(0x2A) {
            Ok(v) => v,
            Err(e) => { return Err(Error::Source(e)); },
        };
        if e_phentsize != ProgramHeader::SIZE_IN_BYTES {
            return Err(Error::WrongElfFile);
        }
        let e_phnum = match data_source.read_u16_le(0x2C) {
            Ok(v) => v,
            Err(e) => { return Err(Error::Source(e)); },
        };
        let e_shentsize = match data_source.read_u16_le(0x2E) {
            Ok(v) => v,
            Err(e) => { return Err(Error::Source(e)); },
        };
        if e_shentsize != SectionHeader::SIZE_IN_BYTES {
            return Err(Error::WrongElfFile);
        }
        let e_shnum = match data_source.read_u16_le(0x30) {
            Ok(v) => v,
            Err(e) => { return Err(Error::Source(e)); },
        };
        let e_shstrndx = match data_source.read_u16_le(0x32) {
            Ok(v) => v,
            Err(e) => { return Err(Error::Source(e)); },
        };
        let loader = Loader { data_source, e_entry, e_phoff, e_shoff, e_phnum, e_shnum, e_shstrndx };
        Ok(loader)
    }

    /// Where we get the bytes from
    pub(crate) fn data_source(&self) -> (r: &DS)
        ensures
            *r == self.source(),
    {
        &self.data_source
    }

    /// The memory address of the entry point
    pub fn e_entry(&self) -> (r: u32)
        ensures
            r == self@.e_entry,
    {
        self.e_entry
    }

    /// The offset of the program header table
    pub fn e_phoff(&self) -> (r: u32)
        ensures
            r == self@.e_phoff,
    {
        self.e_phoff
    }

    /// The offset of the section header table
    pub fn e_shoff(&self) -> (r: u32)
        ensures
            r == self@.e_shoff,
    {
        self.e_shoff
    }

    /// The number of program header entries
    pub fn e_phnum(&self) -> (r: u16)
        ensures
            r == self@.e_phnum,
    {
        self.e_phnum
    }

    /// The number of section header entries
    pub fn e_shnum(&self) -> (r: u16)
        ensures
            r == self@.e_shnum,
    {
        self.e_shnum
    }

    /// The index of the section header containing section names.
    pub(crate) fn e_shstrndx(&self) -> (r: u16)
        ensures
            r == self@.e_shstrndx,
    {
        self.e_shstrndx
    }

    /// Return the start offset for valid segments.
    ///
    /// Any segment with a `p_offset` less than this probably isn't valid. This
    /// is the first byte past the program header table: its offset plus 32
    /// bytes for each entry. Where that sum is more than an offset can hold,
    /// the table reaches past every place a segment could start at, and the
    /// largest offset is returned.
    pub fn segment_start_offset(&self) -> (r: u32)
        ensures
            r == if self@.e_phoff + self@.e_phnum * ProgramHeader::SIZE_IN_BYTES <= u32::MAX {
                self@.e_phoff + self@.e_phnum * ProgramHeader::SIZE_IN_BYTES
            } else {
                u32::MAX as int
            },
    {
        let end: u64 = self.e_phoff() as u64 + self.e_phnum() as u64
            * ProgramHeader::SIZE_IN_BYTES as u64;
        if end > u32::MAX as u64 {
            u32::MAX
        } else {
            end as u32
        }
    }

    /// What decoding the section header `idx` of this image comes to.
    pub open spec fn section(&self, idx: u16) -> Result<sections::Record, Error<DS::Error>> {
        sections::record_at(&self.source(), sections::entry_offset(self@.e_shoff, idx))
    }

    /// What decoding the program header `idx` of this image comes to.
    pub open spec fn segment(&self, idx: u16) -> Result<segments::Record, Error<DS::Error>> {
        segments::record_at(&self.source(), segments::entry_offset(self@.e_phoff, idx))
    }

    /// The section headers of this image from `first` on, each as decoding
    /// it comes out.
    pub open spec fn sections_from(&self, first: u16) -> Seq<
        Result<sections::Record, Error<DS::Error>>,
    > {
        Seq::new(
            if first <= self@.e_shnum {
                (self@.e_shnum - first) as nat
            } else {
                0
            },
            |i: int| self.section((first + i) as u16),
        )
    }

    /// The program headers of this image from `first` on, each as decoding
    /// it comes out.
    pub open spec fn segments_from(&self, first: u16) -> Seq<
        Result<segments::Record, Error<DS::Error>>,
    > {
        Seq::new(
            if first <= self@.e_phnum {
                (self@.e_phnum - first) as nat
            } else {
                0
            },
            |i: int| self.segment((first + i) as u16),
        )
    }

    /// Create a section header iterator.
    pub fn iter_section_headers(&self) -> (it: IterSectionHeaders<'_, DS>)
        ensures
            it.loader() == *self,
            it@ == self.sections_from(0),
            it@.len() == self@.e_shnum,
            forall|idx: u16| idx < self@.e_shnum ==> it@[idx as int] == self.section(idx),
    {
        IterSectionHeaders { parent: self, next_section: 0 }
    }

    /// Create a program header iterator.
    pub fn iter_program_headers(&self) -> (it: IterProgramHeaders<'_, DS>)
        ensures
            it.loader() == *self,
            it@ == self.segments_from(0),
            it@.len() == self@.e_phnum,
            forall|idx: u16| idx < self@.e_phnum ==> it@[idx as int] == self.segment(idx),
    {
        IterProgramHeaders { parent: self, next_program_header: 0 }
    }
}

/// Taking the next item from a sequence of items still to come: the first
/// of them and the rest, or nothing, with nothing left.
pub open spec fn take_next<T>(items: Seq<T>) -> (Option<T>, Seq<T>) {
    if items.len() == 0 {
        (None, items)
    } else {
        (Some(items[0]), items.drop_first())
    }
}

/// What is left of a sequence of items to come once `count` of them were
/// taken, one after the other.
pub open spec fn left_after<T>(items: Seq<T>, count: nat) -> Seq<T>
    decreases count,
{
    if count == 0 {
        items
    } else {
        take_next(left_after(items, (count - 1) as nat)).1
    }
}

/// Items are taken in order and each once: the first `items.len()` takes
/// give the items one by one, and every take after them gives nothing. So a
/// sequence of `n` items is used up by `n` takes, and take `n + 1` is the
/// first to give nothing.
pub proof fn law_takes_each_once<T>(items: Seq<T>, count: nat)
    ensures
        count <= items.len() ==> left_after(items, count) == items.skip(count as int),
        count < items.len() ==> take_next(left_after(items, count)).0 == Some(
            items[count as int],
        ),
        count >= items.len() ==> left_after(items, count) == Seq::<T>::empty(),
        count >= items.len() ==> take_next(left_after(items, count)).0 is None,
    decreases count,
{
    if count == 0 {
        assert(items.skip(0) =~= items);
        if items.len() == 0 {
            assert(items =~= Seq::<T>::empty());
        }
    } else {
        let before = (count - 1) as nat;
        law_takes_each_once(items, before);
        if count <= items.len() {
            assert(items.skip(before as int).drop_first() =~= items.skip(count as int));
            if count == items.len() {
                assert(items.skip(count as int) =~= Seq::<T>::empty());
            }
        }
    }
}

/// The program headers of an image come out in table order, one for each
/// entry that the file header counts, and then no more: take `count + 1` of a
/// new walk gives what decoding entry `count` comes to, and after the last
/// entry every take gives nothing, never an error.
pub proof fn law_program_headers_walk<DS: Source>(loader: &Loader<DS>, count: nat)
    ensures
        count < loader@.e_phnum ==> take_next(left_after(loader.segments_from(0), count)).0
            == Some(loader.segment(count as u16)),
        count >= loader@.e_phnum ==> take_next(left_after(loader.segments_from(0), count)).0
            is None,
{
    law_takes_each_once(loader.segments_from(0), count);
}

/// The section headers of an image come out in table order, one for each
/// entry that the file header counts, and then no more: take `count + 1` of a
/// new walk gives what decoding entry `count` comes to, and after the last
/// entry every take gives nothing, never an error.
pub proof fn law_section_headers_walk<DS: Source>(loader: &Loader<DS>, count: nat)
    ensures
        count < loader@.e_shnum ==> take_next(left_after(loader.sections_from(0), count)).0
            == Some(loader.section(count as u16)),
        count >= loader@.e_shnum ==> take_next(left_after(loader.sections_from(0), count)).0
            is None,
{
    law_takes_each_once(loader.sections_from(0), count);
}

/// A result of decoding, with the header taken by its fields.
pub open spec fn decoded<H: View, E>(r: Result<H, E>) -> Result<H::V, E> {
    match r {
        Ok(header) => Ok(header@),
        Err(e) => Err(e),
    }
}

/// What an iterator handed out, with the header taken by its fields.
pub open spec fn item_view<H: View, E>(item: Option<Result<H, E>>) -> Option<Result<H::V, E>> {
    match item {
        None => None,
        Some(r) => Some(decoded(r)),
    }
}

/// Whether `bytes` start with the four bytes that every ELF file starts
/// with: 0x7F and the letters E, L, F.
pub open spec fn starts_with_signature(bytes: Seq<u8>) -> bool {
    &&& bytes.len() >= 4
    &&& bytes[0] == 0x7F
    &&& bytes[1] == 0x45
    &&& bytes[2] == 0x4C
    &&& bytes[3] == 0x46
}

/// A source whose first four bytes can be read and are not the ELF
/// signature is refused as not an ELF file, whatever else it holds.
pub proof fn law_signature_is_required<DS: Source>(ds: &DS)
    requires
        traits::span(ds, 0, 4) matches Ok(bytes) && !starts_with_signature(bytes),
    ensures
        header_outcome(ds) == Err::<Image, Error<DS::Error>>(Error::NotAnElfFile),
{
}

/// A buffer of four bytes or more that does not start with the ELF signature
/// is refused as not an ELF file.
pub proof fn law_buffer_without_signature(data: &[u8])
    requires
        data@.len() >= 4,
        !starts_with_signature(data@),
    ensures
        header_outcome(&data) == Err::<Image, Error<traits::SliceError>>(Error::NotAnElfFile),
{
    law_signature_is_required(&data);
}

/// Whether all thirteen fields of the file header can be read from `ds`.
pub open spec fn header_is_readable<DS: Source>(ds: &DS) -> bool {
    &&& u32_be_at(ds, 0x00) is Ok
    &&& u32_be_at(ds, 0x04) is Ok
    &&& u16_le_at(ds, 0x10) is Ok
    &&& u16_le_at(ds, 0x12) is Ok
    &&& u32_le_at(ds, 0x14) is Ok
    &&& u32_le_at(ds, 0x18) is Ok
    &&& u32_le_at(ds, 0x1C) is Ok
    &&& u32_le_at(ds, 0x20) is Ok
    &&& u16_le_at(ds, 0x2A) is Ok
    &&& u16_le_at(ds, 0x2C) is Ok
    &&& u16_le_at(ds, 0x2E) is Ok
    &&& u16_le_at(ds, 0x30) is Ok
    &&& u16_le_at(ds, 0x32) is Ok
}

/// Whether the file header of `ds` names the one dialect that this loader
/// supports: 32-bit little-endian version 1 System V, an executable, for ARM,
/// of file version 1, with table entries of the sizes decoded here.
pub open spec fn dialect_is_supported<DS: Source>(ds: &DS) -> bool {
    &&& u32_be_at(ds, 0x04) == Ok::<u32, DS::Error>(DESIRED_ELF_VERSION)
    &&& u16_le_at(ds, 0x10) == Ok::<u16, DS::Error>(ET_EXEC)
    &&& u16_le_at(ds, 0x12) == Ok::<u16, DS::Error>(EM_ARM)
    &&& u32_le_at(ds, 0x14) == Ok::<u32, DS::Error>(1)
    &&& u16_le_at(ds, 0x2A) == Ok::<u16, DS::Error>(ProgramHeader::SIZE_IN_BYTES)
    &&& u16_le_at(ds, 0x2E) == Ok::<u16, DS::Error>(SectionHeader::SIZE_IN_BYTES)
}

/// A file header that can be read and starts with the signature is accepted
/// if it names the supported dialect, and refused as the wrong kind of ELF
/// file if any of the six dialect fields holds something else. An accepted
/// header gives its six other fields as they stand in the file.
pub proof fn law_dialect_decides<DS: Source>(ds: &DS)
    requires
        header_is_readable(ds),
        u32_be_at(ds, 0x00) == Ok::<u32, DS::Error>(ELF_MAGIC),
    ensures
        !dialect_is_supported(ds) ==> header_outcome(ds) == Err::<Image, Error<DS::Error>>(
            Error::WrongElfFile,
        ),
        dialect_is_supported(ds) ==> header_outcome(ds) == Ok::<Image, Error<DS::Error>>(
            Image {
                e_entry: u32_le_at(ds, 0x18)->Ok_0,
                e_phoff: u32_le_at(ds, 0x1C)->Ok_0,
                e_shoff: u32_le_at(ds, 0x20)->Ok_0,
                e_phnum: u16_le_at(ds, 0x2C)->Ok_0,
                e_shnum: u16_le_at(ds, 0x30)->Ok_0,
                e_shstrndx: u16_le_at(ds, 0x32)->Ok_0,
            },
        ),
{
}

/// Allows you to iterate through the section headers.
///
/// Created with `loader.iter_section_headers()`.
pub struct IterSectionHeaders<'a, DS> {
    parent: &'a Loader<DS>,
    next_section: u16,
}

impl<'a, DS> View for IterSectionHeaders<'a, DS> where DS: Source {
    type V = Seq<Result<sections::Record, Error<DS::Error>>>;

    /// The items still to come, in order.
    closed spec fn view(&self) -> Self::V {
        self.parent.sections_from(self.next_section)
    }
}

impl<'a, DS> IterSectionHeaders<'a, DS> where DS: Source {
    /// The loader whose section headers these are.
    pub closed spec fn loader(&self) -> Loader<DS> {
        *self.parent
    }

    /// Decode the next section header, if one is left. Each call decodes one
    /// table entry; after the last entry every call gives `None`.
    pub fn next(&mut self) -> (r: Option<Result<SectionHeader, Error<DS::Error>>>)
        ensures
            final(self).loader() == old(self).loader(),
            (item_view(r), final(self)@) == take_next(old(self)@),
    {
        if self.next_section >= self.parent.e_shnum {
            return None;
        }
        let current_section = self.next_section;
        self.next_section = self.next_section + 1;
        assert(self@ =~= old(self)@.drop_first());
        Some(SectionHeader::new(self.parent, current_section))
    }
}

/// Allows you to iterate through the program headers.
///
/// Created with `loader.iter_program_headers()`.
pub struct IterProgramHeaders<'a, DS> {
    parent: &'a Loader<DS>,
    next_program_header: u16,
}

impl<'a, DS> View for IterProgramHeaders<'a, DS> where DS: Source {
    type V = Seq<Result<segments::Record, Error<DS::Error>>>;

    /// The items still to come, in order.
    closed spec fn view(&self) -> Self::V {
        self.parent.segments_from(self.next_program_header)
    }
}

impl<'a, DS> IterProgramHeaders<'a, DS> where DS: Source {
    /// The loader whose program headers these are.
    pub closed spec fn loader(&self) -> Loader<DS> {
        *self.parent
    }

    /// Decode the next program header, if one is left. Each call decodes one
    /// table entry; after the last entry every call gives `None`.
    pub fn next(&mut self) -> (r: Option<Result<ProgramHeader, Error<DS::Error>>>)
        ensures
            final(self).loader() == old(self).loader(),
            (item_view(r), final(self)@) == take_next(old(self)@),
    {
        if self.next_program_header >= self.parent.e_phnum {
            return None;
        }
        let current_program_header = self.next_program_header;
        self.next_program_header = self.next_program_header + 1;
        assert(self@ =~= old(self)@.drop_first());
        Some(ProgramHeader::new(self.parent, current_program_header))
    }
}

} // verus!
