use neotron_loader::traits::SliceError;
use neotron_loader::{Error, Loader, SectionHeader, Source};

const STRINGS_AT: usize = 0x100;

/// An image with three section headers at 0x40, the third of which is the
/// string table at 0x100 holding `strings`. The first two sections have their
/// names at `first` and `second` in it.
fn image(strings: &[u8], first: u32, second: u32) -> Vec<u8> {
    let mut image = vec![0u8; STRINGS_AT + strings.len()];
    image[0..8].copy_from_slice(&[0x7F, 0x45, 0x4C, 0x46, 1, 1, 1, 0]);
    image[0x10..0x12].copy_from_slice(&2u16.to_le_bytes());
    image[0x12..0x14].copy_from_slice(&0x28u16.to_le_bytes());
    image[0x14..0x18].copy_from_slice(&1u32.to_le_bytes());
    image[0x20..0x24].copy_from_slice(&0x40u32.to_le_bytes());
    image[0x2A..0x2C].copy_from_slice(&32u16.to_le_bytes());
    image[0x2E..0x30].copy_from_slice(&40u16.to_le_bytes());
    image[0x30..0x32].copy_from_slice(&3u16.to_le_bytes());
    image[0x32..0x34].copy_from_slice(&2u16.to_le_bytes());
    image[0x40..0x44].copy_from_slice(&first.to_le_bytes());
    image[0x68..0x6C].copy_from_slice(&second.to_le_bytes());
    image[0x90 + 0x04..0x90 + 0x08].copy_from_slice(&3u32.to_le_bytes());
    image[0x90 + 0x10..0x90 + 0x14].copy_from_slice(&(STRINGS_AT as u32).to_le_bytes());
    image[0x90 + 0x14..0x90 + 0x18].copy_from_slice(&(strings.len() as u32).to_le_bytes());
    image[STRINGS_AT..].copy_from_slice(strings);
    image
}

#[test]
fn a_name_comes_back_as_it_stands_in_the_table() {
    let data = image(b"\0.text\0.data\0.shstrtab\0", 1, 7);
    let loader = Loader::new(&data[..]).unwrap();
    let mut buffer = [0u8; 16];
    let first = SectionHeader::new(&loader, 0).unwrap();
    assert_eq!(".text", first.sh_name(&loader, &mut buffer).unwrap());
    let second = SectionHeader::new(&loader, 1).unwrap();
    assert_eq!(".data", second.sh_name(&loader, &mut buffer).unwrap());
}

#[test]
fn a_name_may_start_inside_another() {
    let data = image(b"\0.rel.text\0", 5, 1);
    let loader = Loader::new(&data[..]).unwrap();
    let mut buffer = [0u8; 6];
    let first = SectionHeader::new(&loader, 0).unwrap();
    assert_eq!(".text", first.sh_name(&loader, &mut buffer).unwrap());
    let mut buffer = [0u8; 10];
    let second = SectionHeader::new(&loader, 1).unwrap();
    assert_eq!(".rel.text", second.sh_name(&loader, &mut buffer).unwrap());
}

#[test]
fn the_empty_name() {
    let data = image(b"\0.text\0", 0, 6);
    let loader = Loader::new(&data[..]).unwrap();
    let mut buffer = [0xFFu8; 4];
    let first = SectionHeader::new(&loader, 0).unwrap();
    assert_eq!("", first.sh_name(&loader, &mut buffer).unwrap());
    let mut one = [0xFFu8; 1];
    let second = SectionHeader::new(&loader, 1).unwrap();
    assert_eq!("", second.sh_name(&loader, &mut one).unwrap());
}

#[test]
fn the_buffer_needs_room_for_the_name_and_its_end() {
    let data = image(b"\0.text\0.data\0.shstrtab\0", 1, 7);
    let loader = Loader::new(&data[..]).unwrap();
    let section = SectionHeader::new(&loader, 0).unwrap();
    for len in 0..6 {
        let mut buffer = vec![0u8; len];
        assert!(
            matches!(section.sh_name(&loader, &mut buffer), Err(Error::NotEnoughSpace)),
            "{} bytes",
            len
        );
    }
    // From the name on the source holds 22 bytes.
    for len in 6..=22 {
        let mut buffer = vec![0u8; len];
        assert_eq!(
            Ok(".text"),
            section.sh_name(&loader, &mut buffer).map_err(|_| ()),
            "{} bytes",
            len
        );
    }
    let mut buffer = vec![0u8; 23];
    assert!(matches!(section.sh_name(&loader, &mut buffer), Err(Error::Source(SliceError))));
}

#[test]
fn a_buffer_that_reaches_past_the_source_fails_at_the_source() {
    let data = image(b"\0.text\0.data\0.shstrtab\0", 1, 7);
    let loader = Loader::new(&data[..]).unwrap();
    let section = SectionHeader::new(&loader, 0).unwrap();
    let mut buffer = [0xEEu8; 24];
    assert!(matches!(section.sh_name(&loader, &mut buffer), Err(Error::Source(SliceError))));
    // What was in the buffer is gone all the same.
    assert_eq!([0u8; 24], buffer);
    let second = SectionHeader::new(&loader, 1).unwrap();
    let mut fits = [0u8; 16];
    assert_eq!(".data", second.sh_name(&loader, &mut fits).unwrap());
    let mut too_long = [0u8; 17];
    assert!(matches!(second.sh_name(&loader, &mut too_long), Err(Error::Source(SliceError))));
}

#[test]
fn the_buffer_holds_what_was_read() {
    let data = image(b"\0.text\0.data\0.shstrtab\0", 1, 7);
    let loader = Loader::new(&data[..]).unwrap();
    let section = SectionHeader::new(&loader, 0).unwrap();
    let mut buffer = [0xEEu8; 8];
    assert!(section.sh_name(&loader, &mut buffer).is_ok());
    assert_eq!(b".text\0.d", &buffer);
    let mut short = [0xEEu8; 3];
    assert!(section.sh_name(&loader, &mut short).is_err());
    assert_eq!(b".te", &short);
}

#[test]
fn a_name_that_is_not_utf8_is_refused() {
    for bad in [&b"\0\xFF\0"[..], b"\0abc\x80\0", b"\0\xC3\0", b"\0\xE2\x82\0", b"\0\xED\xA0\x80\0", b"\0\xC0\xAF\0", b"\0\xF4\x90\x80\x80\0"] {
        let data = image(bad, 1, 0);
        let loader = Loader::new(&data[..]).unwrap();
        let section = SectionHeader::new(&loader, 0).unwrap();
        let mut buffer = vec![0u8; bad.len() - 1];
        assert!(
            matches!(section.sh_name(&loader, &mut buffer), Err(Error::InvalidString)),
            "{:?}",
            bad
        );
    }
}

#[test]
fn a_name_of_several_bytes_a_letter() {
    let strings = "\0.données\0.日本語\0.𝄞\0".as_bytes();
    let data = image(strings, 1, 11);
    let loader = Loader::new(&data[..]).unwrap();
    let mut buffer = [0u8; 12];
    let first = SectionHeader::new(&loader, 0).unwrap();
    assert_eq!(".données", first.sh_name(&loader, &mut buffer).unwrap());
    let second = SectionHeader::new(&loader, 1).unwrap();
    assert_eq!(".日本語", second.sh_name(&loader, &mut buffer).unwrap());
    let mut cut = [0u8; 5];
    assert!(matches!(second.sh_name(&loader, &mut cut), Err(Error::NotEnoughSpace)));
}

#[test]
fn only_the_bytes_before_the_first_zero_are_held_to_be_text() {
    let data = image(b"\0ok\0\xFF\xFE\0", 1, 0);
    let loader = Loader::new(&data[..]).unwrap();
    let section = SectionHeader::new(&loader, 0).unwrap();
    let mut buffer = [0u8; 6];
    assert_eq!("ok", section.sh_name(&loader, &mut buffer).unwrap());
}

#[test]
fn the_string_table_header_is_decoded_first() {
    let mut data = image(b"\0.text\0", 1, 0);
    // The string table is now section 9, which lies past the end.
    data[0x32..0x34].copy_from_slice(&9u16.to_le_bytes());
    let loader = Loader::new(&data[..]).unwrap();
    let section = SectionHeader::new(&loader, 0).unwrap();
    let mut buffer = [0xEEu8; 8];
    assert!(matches!(section.sh_name(&loader, &mut buffer), Err(Error::Source(SliceError))));
    // The buffer was not touched yet.
    assert_eq!([0xEEu8; 8], buffer);
}

#[test]
fn the_name_starts_at_the_offset_of_the_string_table_plus_its_own() {
    let mut data = image(b"\0.text\0.data\0", 1, 7);
    // Move the table two bytes on: every name loses its first two letters.
    data[0x90 + 0x10..0x90 + 0x14].copy_from_slice(&(STRINGS_AT as u32 + 2).to_le_bytes());
    let loader = Loader::new(&data[..]).unwrap();
    let mut buffer = [0u8; 5];
    let first = SectionHeader::new(&loader, 0).unwrap();
    assert_eq!("ext", first.sh_name(&loader, &mut buffer).unwrap());
    let second = SectionHeader::new(&loader, 1).unwrap();
    let mut buffer = [0u8; 4];
    assert_eq!("ata", second.sh_name(&loader, &mut buffer).unwrap());
}

#[test]
fn a_name_that_starts_past_the_last_offset_fails_at_the_source() {
    let mut data = image(b"\0.text\0", 0xFFFF_FFFF, 0x0000_0102);
    data[0x90 + 0x10..0x90 + 0x14].copy_from_slice(&0xFFFF_FFFFu32.to_le_bytes());
    let loader = Loader::new(&data[..]).unwrap();
    // 0xFFFF_FFFF + 0x0000_0102 is no offset: nothing is read from 0x101.
    let second = SectionHeader::new(&loader, 1).unwrap();
    let mut buffer = [0xEEu8; 6];
    assert!(matches!(second.sh_name(&loader, &mut buffer), Err(Error::Source(SliceError))));
    assert_eq!([0u8; 6], buffer);
    let first = SectionHeader::new(&loader, 0).unwrap();
    let mut buffer = [0xEEu8; 6];
    assert!(matches!(first.sh_name(&loader, &mut buffer), Err(Error::Source(SliceError))));
    assert_eq!([0u8; 6], buffer);
    let mut nothing = [0u8; 0];
    assert!(matches!(first.sh_name(&loader, &mut nothing), Err(Error::Source(SliceError))));
}

#[test]
fn the_start_of_the_file_is_not_taken_for_a_name() {
    // One section, which is the string table and says that it starts at
    // the last offset; its own name stands one byte further on.
    let mut data = [0u8; 99];
    data[..8].copy_from_slice(&[0x7F, 0x45, 0x4C, 0x46, 1, 1, 1, 0]);
    data[0x10] = 2;
    data[0x12] = 0x28;
    data[0x14] = 1;
    data[0x20] = 0x34;
    data[0x2A] = 0x20;
    data[0x2E] = 0x28;
    data[0x30] = 1;
    data[0x34] = 1;
    data[0x44..0x48].copy_from_slice(&[0xFF; 4]);
    let loader = Loader::new(&data[..]).unwrap();
    let section = SectionHeader::new(&loader, 0).unwrap();
    assert_eq!(1, section.sh_name_offset());
    assert_eq!(0xFFFF_FFFF, section.sh_offset());
    let mut buffer = [0xFFu8; 6];
    assert!(matches!(section.sh_name(&loader, &mut buffer), Err(Error::Source(SliceError))));
    assert_eq!([0u8; 6], buffer);
    let mut buffer = [0xFFu8; 8];
    assert!(matches!(section.sh_name(&loader, &mut buffer), Err(Error::Source(SliceError))));
    assert_eq!([0u8; 8], buffer);
}

#[test]
fn a_name_at_the_last_offset_is_read_there() {
    let mut data = image(b"\0.text\0", 0xFFFF_FFF0, 0);
    data[0x90 + 0x10..0x90 + 0x14].copy_from_slice(&0x0000_000Fu32.to_le_bytes());
    let loader = Loader::new(&data[..]).unwrap();
    let first = SectionHeader::new(&loader, 0).unwrap();
    // 0x0000_000F + 0xFFFF_FFF0 is the last offset, which this slice does not reach.
    let mut buffer = [0xEEu8; 1];
    assert!(matches!(first.sh_name(&loader, &mut buffer), Err(Error::Source(SliceError))));
    assert_eq!([0u8; 1], buffer);
}

#[test]
fn the_name_is_looked_up_anew_each_time() {
    let data = image(b"\0.text\0.data\0", 1, 7);
    let loader = Loader::new(&data[..]).unwrap();
    let section = SectionHeader::new(&loader, 1).unwrap();
    let mut one = [0u8; 6];
    let mut two = [0xFFu8; 6];
    let first = section.sh_name(&loader, &mut one).unwrap();
    let second = section.sh_name(&loader, &mut two).unwrap();
    assert_eq!(first, second);
    assert_eq!(".data", second);
}

/// A source that says in its error which read it refused.
struct Telling<'a>(&'a [u8]);

#[derive(Debug, PartialEq)]
struct Refused {
    offset: u32,
    len: usize,
}

impl<'a> Source for Telling<'a> {
    type Error = Refused;

    fn read(&self, offset: u32, buffer: &mut [u8]) -> Result<(), Refused> {
        self.0.read(offset, buffer).map_err(|_| Refused { offset, len: buffer.len() })
    }
}

#[test]
fn a_name_past_the_last_offset_gives_the_error_of_a_read_past_it() {
    let mut data = image(b"\0.text\0", 7, 1);
    data[0x90 + 0x10..0x90 + 0x14].copy_from_slice(&0xFFFF_FFFCu32.to_le_bytes());
    let loader = match Loader::new(Telling(&data)) {
        Ok(loader) => loader,
        Err(_) => panic!("the header can be read"),
    };
    let mut buffer = [0xEEu8; 9];
    // 0xFFFF_FFFC + 7 is no offset: the source is asked for two bytes at the
    // last offset, which it refuses.
    let first = SectionHeader::new(&loader, 0).unwrap_or_else(|_| panic!("readable"));
    match first.sh_name(&loader, &mut buffer) {
        Err(Error::Source(refused)) => assert_eq!(Refused { offset: u32::MAX, len: 2 }, refused),
        _ => panic!("a name was read past the last offset"),
    }
    assert_eq!([0u8; 9], buffer);
    // 0xFFFF_FFFC + 1 is an offset: the source is asked for the buffer there.
    let second = SectionHeader::new(&loader, 1).unwrap_or_else(|_| panic!("readable"));
    match second.sh_name(&loader, &mut buffer) {
        Err(Error::Source(refused)) => assert_eq!(Refused { offset: 0xFFFF_FFFD, len: 9 }, refused),
        _ => panic!("a name was read past the end of the slice"),
    }
    assert_eq!([0u8; 9], buffer);
}

/// A source that fails every read of more than four bytes.
struct WordsOnly<'a>(&'a [u8]);

#[derive(Debug, PartialEq)]
struct TooLong(usize);

impl<'a> Source for WordsOnly<'a> {
    type Error = TooLong;

    fn read(&self, offset: u32, buffer: &mut [u8]) -> Result<(), TooLong> {
        if buffer.len() > 4 {
            return Err(TooLong(buffer.len()));
        }
        self.0.read(offset, buffer).map_err(|_| TooLong(0))
    }
}

#[test]
fn the_error_of_the_source_is_handed_on_from_a_name() {
    let data = image(b"\0abc\0", 1, 0);
    let loader = match Loader::new(WordsOnly(&data)) {
        Ok(loader) => loader,
        Err(_) => panic!("the header is read word by word"),
    };
    let section = match SectionHeader::new(&loader, 0) {
        Ok(section) => section,
        Err(_) => panic!("a section header is read word by word"),
    };
    let mut buffer = [0u8; 4];
    assert_eq!(Ok("abc"), section.sh_name(&loader, &mut buffer).map_err(|_| ()));
    let mut buffer = [0xEEu8; 5];
    match section.sh_name(&loader, &mut buffer) {
        Err(Error::Source(error)) => assert_eq!(TooLong(5), error),
        _ => panic!("five bytes were read"),
    }
    assert_eq!([0u8; 5], buffer);
}
