//! Traits to help us load information from different kinds of data source.

use vstd::prelude::*;

verus! {

/// The error raised if you are reading from a [`Source`] which is a slice of
/// bytes.
#[derive(Debug)]
pub struct SliceError;

impl Clone for SliceError {
    fn clone(&self) -> (r: Self)
        ensures
            r == *self,
    {
        SliceError
    }
}

/// The value of two bytes that stand in little-endian order.
pub open spec fn u16_le(b0: u8, b1: u8) -> u16 {
    (b0 + b1 * 0x100) as u16
}

/// The value of two bytes that stand in big-endian order.
pub open spec fn u16_be(b0: u8, b1: u8) -> u16 {
    u16_le(b1, b0)
}

/// The value of four bytes that stand in little-endian order.
pub open spec fn u32_le(b0: u8, b1: u8, b2: u8, b3: u8) -> u32 {
    (b0 + b1 * 0x100 + b2 * 0x1_0000 + b3 * 0x100_0000) as u32
}

/// The value of four bytes that stand in big-endian order.
pub open spec fn u32_be(b0: u8, b1: u8, b2: u8, b3: u8) -> u32 {
    u32_le(b3, b2, b1, b0)
}

/// The number of places that an offset can name.
pub const PLACES: u64 = 0x1_0000_0000;

/// Holds of every byte and every place. A source that does not say what it
/// holds has, at each place, some byte of which this is all that is known.
pub open spec fn any_byte<S: ?Sized>(source: &S, at: int, byte: u8) -> bool {
    true
}

/// Holds of every outcome of every read. A source that does not say which
/// reads it refuses has, for each read, some outcome of which this is all
/// that is known.
pub open spec fn any_fault<S: ?Sized, E>(
    source: &S,
    offset: u32,
    len: nat,
    fault: Option<E>,
) -> bool {
    true
}

/// Describes something we can read data from.
///
/// A source is read-only and byte-addressable. It holds one byte at each
/// place ([`Source::byte`]), and each read either gives the bytes that stand
/// at the places asked for or fails as a whole ([`Source::fault`]). So two
/// reads of one place give the same answer.
///
/// An offset names one of 2^32 places. No source holds anything past the
/// last of them, so a read that reaches past it fails.
pub trait Source {
    type Error: core::fmt::Debug;

    /// The byte that the source holds at the place `at`.
    open spec fn byte(&self, at: int) -> u8 {
        choose|byte: u8| any_byte(self, at, byte)
    }

    /// The error with which a read of `len` bytes at `offset` fails, or
    /// `None` where the source supplies all of them.
    open spec fn fault(&self, offset: u32, len: nat) -> Option<Self::Error> {
        choose|fault: Option<Self::Error>| any_fault(self, offset, len, fault)
    }

    /// Read some bytes from the source.
    ///
    /// The bytes are read from the given offset, and there must be enough data
    /// to fill `buffer` completely, otherwise an error is returned and `buffer`
    /// is left as it was: there are no partial reads. There is never enough
    /// data for a buffer that reaches past the last place an offset can name.
    fn read(&self, offset: u32, buffer: &mut [u8]) -> (r: Result<(), Self::Error>)
        ensures
            final(buffer)@.len() == old(buffer)@.len(),
            offset + old(buffer)@.len() > PLACES ==> r is Err,
            match r {
                Ok(()) => {
                    &&& self.fault(offset, old(buffer)@.len()) is None
                    &&& forall|i: int|
                        0 <= i < old(buffer)@.len() ==> final(buffer)@[i] == self.byte(offset + i)
                },
                Err(e) => {
                    &&& self.fault(offset, old(buffer)@.len()) == Some(e)
                    &&& final(buffer)@ == old(buffer)@
                },
            },
    ;

    /// Read a 32-bit big-endian value.
    fn read_u32_be(&self, offset: u32) -> (r: Result<u32, Self::Error>)
        ensures
            offset + 4 > PLACES ==> r is Err,
            r == match self.fault(offset, 4) {
                None => Ok::<u32, Self::Error>(
                    u32_be(
                        self.byte(offset + 0),
                        self.byte(offset + 1),
                        self.byte(offset + 2),
                        self.byte(offset + 3),
                    ),
                ),
                Some(e) => Err::<u32, Self::Error>(e),
            },
    {
        let mut bytes: [u8; 4] = [0; 4];
        match self.read(offset, &mut bytes) {
            Ok(()) => Ok(
                bytes[3] as u32 + bytes[2] as u32 * 0x100 + bytes[1] as u32 * 0x1_0000
                    + bytes[0] as u32 * 0x100_0000,
            ),
            Err(e) => Err(e),
        }
    }

    /// Read a 32-bit little-endian value.
    fn read_u32_le(&self, offset: u32) -> (r: Result<u32, Self::Error>)
        ensures
            offset + 4 > PLACES ==> r is Err,
            r == match self.fault(offset, 4) {
                None => Ok::<u32, Self::Error>(
                    u32_le(
                        self.byte(offset + 0),
                        self.byte(offset + 1),
                        self.byte(offset + 2),
                        self.byte(offset + 3),
                    ),
                ),
                Some(e) => Err::<u32, Self::Error>(e),
            },
    {
        let mut bytes: [u8; 4] = [0; 4];
        match self.read(offset, &mut bytes) {
            Ok(()) => Ok(
                bytes[0] as u32 + bytes[1] as u32 * 0x100 + bytes[2] as u32 * 0x1_0000
                    + bytes[3] as u32 * 0x100_0000,
            ),
            Err(e) => Err(e),
        }
    }

    /// Read a 16-bit big-endian value.
    fn read_u16_be(&self, offset: u32) -> (r: Result<u16, Self::Error>)
        ensures
            offset + 2 > PLACES ==> r is Err,
            r == match self.fault(offset, 2) {
                None => Ok::<u16, Self::Error>(
                    u16_be(self.byte(offset + 0), self.byte(offset + 1)),
                ),
                Some(e) => Err::<u16, Self::Error>(e),
            },
    {
        let mut bytes: [u8; 2] = [0; 2];
        match self.read(offset, &mut bytes) {
            Ok(()) => Ok(bytes[1] as u16 + bytes[0] as u16 * 0x100),
            Err(e) => Err(e),
        }
    }

    /// Read a 16-bit little-endian value.
    fn read_u16_le(&self, offset: u32) -> (r: Result<u16, Self::Error>)
        ensures
            offset + 2 > PLACES ==> r is Err,
            r == match self.fault(offset, 2) {
                None => Ok::<u16, Self::Error>(
                    u16_le(self.byte(offset + 0), self.byte(offset + 1)),
                ),
                Some(e) => Err::<u16, Self::Error>(e),
            },
    {
        let mut bytes: [u8; 2] = [0; 2];
        match self.read(offset, &mut bytes) {
            Ok(()) => Ok(bytes[0] as u16 + bytes[1] as u16 * 0x100),
            Err(e) => Err(e),
        }
    }

    /// Read an 8-bit value.
    fn read_u8(&self, offset: u32) -> (r: Result<u8, Self::Error>)
        ensures
            r == match self.fault(offset, 1) {
                None => Ok::<u8, Self::Error>(self.byte(offset + 0)),
                Some(e) => Err::<u8, Self::Error>(e),
            },
    {
        let mut bytes: [u8; 1] = [0; 1];
        match self.read(offset, &mut bytes) {
            Ok(()) => Ok(bytes[0]),
            Err(e) => Err(e),
        }
    }
}

/// What a read of `len` bytes at `offset` of `ds` gives: the bytes that
/// stand there, or the error with which the read fails.
pub open spec fn span<DS: Source>(ds: &DS, offset: u32, len: nat) -> Result<Seq<u8>, DS::Error> {
    match ds.fault(offset, len) {
        None => Ok(Seq::new(len, |i: int| ds.byte(offset + i))),
        Some(e) => Err(e),
    }
}

/// The error with which `ds` refuses to read past the last place that an
/// offset can name: that of the read of two bytes at the last place, which
/// never succeeds.
pub open spec fn refusal<DS: Source>(ds: &DS) -> DS::Error {
    ds.fault(u32::MAX, 2)->0
}

/// What a read of `len` bytes gives at the place `at`, which may lie past
/// the places that an offset can name. A read that stays within them is as
/// the source has it. One that starts within them and reaches past the last
/// fails with the source's error for that read. One that starts past the
/// last is never made, and the source's refusal stands for it.
pub open spec fn span_at<DS: Source>(ds: &DS, at: nat, len: nat) -> Result<Seq<u8>, DS::Error> {
    if at + len <= PLACES && at < PLACES {
        span(ds, at as u32, len)
    } else if at < PLACES {
        Err(ds.fault(at as u32, len)->0)
    } else {
        Err(refusal(ds))
    }
}

/// What reading a 32-bit little-endian value gives at the place `at`, which
/// may lie past the places that an offset can name.
pub open spec fn u32_le_at_place<DS: Source>(ds: &DS, at: nat) -> Result<u32, DS::Error> {
    match span_at(ds, at, 4) {
        Ok(b) => Ok(u32_le(b[0], b[1], b[2], b[3])),
        Err(e) => Err(e),
    }
}

/// Nothing is read past the last place that an offset can name: a read that
/// starts or ends past it fails, whatever the source.
pub proof fn law_nothing_past_the_last_place<DS: Source>(ds: &DS, at: nat, len: nat)
    requires
        at + len > PLACES,
    ensures
        span_at(ds, at, len) is Err,
        len == 4 ==> u32_le_at_place(ds, at) is Err,
{
}

/// Within the places that an offset can name, a read at a place is the read
/// at that offset.
pub proof fn law_places_are_offsets<DS: Source>(ds: &DS, offset: u32, len: nat)
    requires
        offset + len <= PLACES,
    ensures
        span_at(ds, offset as nat, len) == span(ds, offset, len),
        len == 4 ==> u32_le_at_place(ds, offset as nat) == u32_le_at(ds, offset),
{
}

/// Have `ds` refuse a read past the last place, for the error it gives.
pub(crate) fn refused<DS: Source>(ds: &DS) -> (e: DS::Error)
    ensures
        e == refusal(ds),
{
    let mut bytes: [u8; 2] = [0; 2];
    match ds.read(u32::MAX, &mut bytes) {
        Err(e) => e,
        Ok(()) => unreached(),
    }
}

/// Read a 32-bit little-endian value at the place `at`.
pub(crate) fn read_u32_le_at_place<DS: Source>(ds: &DS, at: u64) -> (r: Result<u32, DS::Error>)
    ensures
        r == u32_le_at_place(ds, at as nat),
{
    if at < PLACES {
        ds.read_u32_le(at as u32)
    } else {
        Err(refused(ds))
    }
}

/// What [`Source::read_u32_be`] gives at `offset`.
pub open spec fn u32_be_at<DS: Source>(ds: &DS, offset: u32) -> Result<u32, DS::Error> {
    match span(ds, offset, 4) {
        Ok(b) => Ok(u32_be(b[0], b[1], b[2], b[3])),
        Err(e) => Err(e),
    }
}

/// What [`Source::read_u32_le`] gives at `offset`.
pub open spec fn u32_le_at<DS: Source>(ds: &DS, offset: u32) -> Result<u32, DS::Error> {
    match span(ds, offset, 4) {
        Ok(b) => Ok(u32_le(b[0], b[1], b[2], b[3])),
        Err(e) => Err(e),
    }
}

/// What [`Source::read_u16_be`] gives at `offset`.
pub open spec fn u16_be_at<DS: Source>(ds: &DS, offset: u32) -> Result<u16, DS::Error> {
    match span(ds, offset, 2) {
        Ok(b) => Ok(u16_be(b[0], b[1])),
        Err(e) => Err(e),
    }
}

/// What [`Source::read_u16_le`] gives at `offset`.
pub open spec fn u16_le_at<DS: Source>(ds: &DS, offset: u32) -> Result<u16, DS::Error> {
    match span(ds, offset, 2) {
        Ok(b) => Ok(u16_le(b[0], b[1])),
        Err(e) => Err(e),
    }
}

impl Source for &[u8] {
    type Error = SliceError;

    /// The bytes of a slice stand at their indices.
    open spec fn byte(&self, at: int) -> u8 {
        self@[at]
    }

    /// A slice refuses the reads that reach past its end, or past the last
    /// place that an offset can name.
    open spec fn fault(&self, offset: u32, len: nat) -> Option<SliceError> {
        if offset + len <= self@.len() && offset + len <= PLACES {
            None
        } else {
            Some(SliceError)
        }
    }

    fn read(&self, offset: u32, buffer: &mut [u8]) -> (r: Result<(), SliceError>) {
        let desired_len: usize = buffer.len();
        let start: usize = offset as usize;
        if start > self.len() || desired_len > self.len() - start {
            return Err(SliceError);
        }
        if desired_len as u64 > PLACES - offset as u64 {
            return Err(SliceError);
        }
        let mut i: usize = 0;
        while i < desired_len
            invariant
                i <= desired_len,
                buffer@.len() == desired_len,
                start + desired_len <= self.len(),
                forall|j: int| 0 <= j < i ==> buffer@[j] == self@[start + j],
            decreases desired_len - i,
        {
            buffer[i] = self[start + i];
            i = i + 1;
        }
        Ok(())
    }
}

} // verus!
