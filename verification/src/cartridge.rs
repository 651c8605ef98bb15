//! The game cartridge: its ROM image and the title from its header.
use vstd::prelude::*;

verus! {

pub const HEADER_BEGIN: usize = 0x0100;
pub const HEADER_END: usize = 0x014F;
pub const CARTRIDGE_SIZE: usize = 0x0150;
pub const TITLE_START_ADDR: usize = 0x0134;
pub const TITLE_END_ADDR: usize = 0x0143;
pub const CARTRIDGE_TYPE_ADDR: usize = 0x0147;

/// The text that `std::str::from_utf8` decodes from `bytes`, `None` where
/// they are not valid UTF-8.
pub uninterp spec fn utf8_text(bytes: Seq<u8>) -> Option<Seq<char>>;

/// Whether every byte is an ASCII code (below 0x80).
pub open spec fn all_ascii(bytes: Seq<u8>) -> bool {
    forall|i: int| 0 <= i < bytes.len() ==> #[trigger] bytes[i] < 128
}

/// The characters of ASCII codes.
pub open spec fn ascii_text(bytes: Seq<u8>) -> Seq<char> {
    bytes.map_values(|b: u8| b as char)
}

/// Calls `std::str::from_utf8` and copies the text into a `String`. Claimed
/// of it: the result is `Some` exactly when the name above is, with its
/// text; and bytes that are all ASCII (below 0x80) decode, each to the
/// character of the same code, as UTF-8 encodes ASCII one byte a character.
#[verifier::external_body]
fn utf8_string(bytes: &[u8]) -> (r: Option<String>)
    ensures
        r.is_some() == utf8_text(bytes@).is_some(),
        r matches Some(s) ==> s@ == utf8_text(bytes@)->0,
        all_ascii(bytes@) ==> r.is_some() && r->0@ == ascii_text(bytes@),
{
    match std::str::from_utf8(bytes) {
        Ok(text) => Some(text.to_string()),
        Err(_) => None,
    }
}

/// The title in the header: the bytes from 0x134 up to (not including)
/// 0x143 decoded as UTF-8; `None` where the image is shorter or the bytes
/// are not valid UTF-8.
pub open spec fn title_spec(data: Seq<u8>) -> Option<Seq<char>> {
    if data.len() >= TITLE_END_ADDR {
        utf8_text(data.subrange(TITLE_START_ADDR as int, TITLE_END_ADDR as int))
    } else {
        None
    }
}

/// The title from the header of a cartridge image, `None` where it cannot
/// be read.
fn header_title(buffer: &Vec<u8>) -> (r: Option<String>)
    ensures
        r.is_some() == title_spec(buffer@).is_some(),
        r matches Some(s) ==> s@ == title_spec(buffer@)->0,
{
    if buffer.len() < TITLE_END_ADDR {
        return None;
    }
    let bytes = vstd::slice::slice_subrange(buffer.as_slice(), TITLE_START_ADDR, TITLE_END_ADDR);
    utf8_string(bytes)
}

/// Reads the title from the header of a cartridge image, which must hold
/// the whole title, in UTF-8.
pub fn parse_title(buffer: &Vec<u8>) -> (r: String)
    requires
        title_spec(buffer@).is_some(),
    ensures
        r@ == title_spec(buffer@)->0,
{
    match header_title(buffer) {
        Some(title) => title,
        None => String::new(),
    }
}

pub struct Cartridge {
    pub data: Vec<u8>,
    pub title: String,
}

impl Cartridge {
    /// A header-sized image of zeros, titled "empty".
    pub fn empty() -> (r: Cartridge)
        ensures
            r.data@ == Seq::new(CARTRIDGE_SIZE as nat, |i: int| 0u8),
            r.title@ == "empty"@,
    {
        Cartridge { data: vec![0u8; CARTRIDGE_SIZE], title: String::from_str("empty") }
    }

    /// A cartridge of the image, titled from its header; `None` where the
    /// title cannot be read (the image is shorter than the header or the
    /// title is not UTF-8).
    pub fn from_bytes(data: Vec<u8>) -> (r: Option<Cartridge>)
        ensures
            r.is_some() == title_spec(data@).is_some(),
            r matches Some(c) ==> c.data@ == data@ && c.title@ == title_spec(data@)->0,
    {
        if header_title(&data).is_none() {
            return None;
        }
        let mut cartridge = Cartridge { data, title: String::new() };
        cartridge.title = cartridge.get_title();
        Some(cartridge)
    }

    /// The title in the header of the image, which must hold the whole
    /// title, in UTF-8.
    pub fn get_title(&self) -> (r: String)
        requires
            title_spec(self.data@).is_some(),
        ensures
            r@ == title_spec(self.data@)->0,
    {
        parse_title(&self.data)
    }

    /// The cartridge type code in the header (0x147).
    pub fn ctype(&self) -> (r: Option<u8>)
        ensures
            r == if self.data@.len() > CARTRIDGE_TYPE_ADDR {
                Some(self.data@[CARTRIDGE_TYPE_ADDR as int])
            } else {
                None::<u8>
            },
    {
        if self.data.len() > CARTRIDGE_TYPE_ADDR {
            Some(self.data[CARTRIDGE_TYPE_ADDR])
        } else {
            None
        }
    }

    pub fn title(&self) -> (r: String)
        ensures
            r@ == self.title@,
    {
        self.title.clone()
    }

    pub fn read_byte(&self, address: u16) -> (r: u8)
        requires
            address < self.data@.len(),
        ensures
            r == self.data@[address as int],
    {
        self.data[address as usize]
    }
    /// The "01-special" test cartridge, from its image.
    /// The image is an argument here, so a header whose title cannot be
    /// read is answered with `None`.
    pub fn cpu_instrs_01(image: Vec<u8>) -> (r: Option<Cartridge>)
        ensures
            r.is_some() == title_spec(image@).is_some(),
            r matches Some(c) ==> c.data@ == image@ && c.title@ == title_spec(image@)->0,
    {
        Cartridge::from_bytes(image)
    }

    /// The "02-interrupts" test cartridge, from its image.
    /// The image is an argument here, so a header whose title cannot be
    /// read is answered with `None`.
    pub fn cpu_instrs_02(image: Vec<u8>) -> (r: Option<Cartridge>)
        ensures
            r.is_some() == title_spec(image@).is_some(),
            r matches Some(c) ==> c.data@ == image@ && c.title@ == title_spec(image@)->0,
    {
        Cartridge::from_bytes(image)
    }

    /// The "03-op sp,hl" test cartridge, from its image.
    /// The image is an argument here, so a header whose title cannot be
    /// read is answered with `None`.
    pub fn cpu_instrs_03(image: Vec<u8>) -> (r: Option<Cartridge>)
        ensures
            r.is_some() == title_spec(image@).is_some(),
            r matches Some(c) ==> c.data@ == image@ && c.title@ == title_spec(image@)->0,
    {
        Cartridge::from_bytes(image)
    }

    /// The "04-op r,imm" test cartridge, from its image.
    /// The image is an argument here, so a header whose title cannot be
    /// read is answered with `None`.
    pub fn cpu_instrs_04(image: Vec<u8>) -> (r: Option<Cartridge>)
        ensures
            r.is_some() == title_spec(image@).is_some(),
            r matches Some(c) ==> c.data@ == image@ && c.title@ == title_spec(image@)->0,
    {
        Cartridge::from_bytes(image)
    }

    /// The "05-op rp" test cartridge, from its image.
    /// The image is an argument here, so a header whose title cannot be
    /// read is answered with `None`.
    pub fn cpu_instrs_05(image: Vec<u8>) -> (r: Option<Cartridge>)
        ensures
            r.is_some() == title_spec(image@).is_some(),
            r matches Some(c) ==> c.data@ == image@ && c.title@ == title_spec(image@)->0,
    {
        Cartridge::from_bytes(image)
    }

    /// The "06-ld r,r" test cartridge, from its image.
    /// The image is an argument here, so a header whose title cannot be
    /// read is answered with `None`.
    pub fn cpu_instrs_06(image: Vec<u8>) -> (r: Option<Cartridge>)
        ensures
            r.is_some() == title_spec(image@).is_some(),
            r matches Some(c) ==> c.data@ == image@ && c.title@ == title_spec(image@)->0,
    {
        Cartridge::from_bytes(image)
    }

    /// The "07-jr,jp,call,ret,rst" test cartridge, from its image.
    /// The image is an argument here, so a header whose title cannot be
    /// read is answered with `None`.
    pub fn cpu_instrs_07(image: Vec<u8>) -> (r: Option<Cartridge>)
        ensures
            r.is_some() == title_spec(image@).is_some(),
            r matches Some(c) ==> c.data@ == image@ && c.title@ == title_spec(image@)->0,
    {
        Cartridge::from_bytes(image)
    }

    /// The "08-misc instrs" test cartridge, from its image.
    /// The image is an argument here, so a header whose title cannot be
    /// read is answered with `None`.
    pub fn cpu_instrs_08(image: Vec<u8>) -> (r: Option<Cartridge>)
        ensures
            r.is_some() == title_spec(image@).is_some(),
            r matches Some(c) ==> c.data@ == image@ && c.title@ == title_spec(image@)->0,
    {
        Cartridge::from_bytes(image)
    }

    /// The "09-op r,r" test cartridge, from its image.
    /// The image is an argument here, so a header whose title cannot be
    /// read is answered with `None`.
    pub fn cpu_instrs_09(image: Vec<u8>) -> (r: Option<Cartridge>)
        ensures
            r.is_some() == title_spec(image@).is_some(),
            r matches Some(c) ==> c.data@ == image@ && c.title@ == title_spec(image@)->0,
    {
        Cartridge::from_bytes(image)
    }

    /// The "10-bit ops" test cartridge, from its image.
    /// The image is an argument here, so a header whose title cannot be
    /// read is answered with `None`.
    pub fn cpu_instrs_10(image: Vec<u8>) -> (r: Option<Cartridge>)
        ensures
            r.is_some() == title_spec(image@).is_some(),
            r matches Some(c) ==> c.data@ == image@ && c.title@ == title_spec(image@)->0,
    {
        Cartridge::from_bytes(image)
    }

    /// The "11-op a,(hl)" test cartridge, from its image.
    /// The image is an argument here, so a header whose title cannot be
    /// read is answered with `None`.
    pub fn cpu_instrs_11(image: Vec<u8>) -> (r: Option<Cartridge>)
        ensures
            r.is_some() == title_spec(image@).is_some(),
            r matches Some(c) ==> c.data@ == image@ && c.title@ == title_spec(image@)->0,
    {
        Cartridge::from_bytes(image)
    }

    /// The "halt_bug" test cartridge, from its image.
    /// The image is an argument here, so a header whose title cannot be
    /// read is answered with `None`.
    pub fn halt_bug(image: Vec<u8>) -> (r: Option<Cartridge>)
        ensures
            r.is_some() == title_spec(image@).is_some(),
            r matches Some(c) ==> c.data@ == image@ && c.title@ == title_spec(image@)->0,
    {
        Cartridge::from_bytes(image)
    }
}

} // verus!
