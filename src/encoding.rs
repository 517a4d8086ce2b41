//! Guessing the character encoding of raw text bytes, and turning them into
//! UTF-16 code units.

use vstd::prelude::*;
use vstd::utf8::{decode_utf8, valid_utf8};
use crate::utf16::{encode_str, text_units, utf16_encode};

verus! {

/// Character encodings that a byte stream may be in.
#[derive(Clone, Copy, PartialEq, Eq, Structural, Debug)]
pub enum Encoding {
    /// Plain 7-bit ASCII.
    Ansi,
    /// Windows-1252, a superset of ISO-8859-1.
    Win1252,
    /// UTF-8.
    Utf8,
    /// UTF-16, big-endian.
    Utf16be,
    /// UTF-16, little-endian.
    Utf16le,
    /// UTF-32, big-endian.
    Utf32be,
    /// UTF-32, little-endian.
    Utf32le,
    /// Standard Compression Scheme for Unicode.
    Scsu,
    /// Binary Ordered Compression for Unicode.
    Bocu1,
}

/// Whether `data` begins with the bytes of `bom`.
pub open spec fn starts_with(data: Seq<u8>, bom: Seq<u8>) -> bool {
    data.len() >= bom.len() && data.take(bom.len() as int) == bom
}

/// Whether every byte is 7-bit ASCII.
pub open spec fn all_ascii(data: Seq<u8>) -> bool {
    forall|i: int| 0 <= i < data.len() ==> data[i] < 0x80
}

/// The encoding that `data` is taken to be in, and the length of the
/// byte-order mark that announces it. UTF-32 marks are looked for before the
/// UTF-16 ones they begin with. Without a mark, ASCII-only data is ANSI,
/// valid UTF-8 is UTF-8, and anything else is Windows-1252.
pub open spec fn guess_spec(data: Seq<u8>) -> (Encoding, nat) {
    if starts_with(data, seq![0x00u8, 0x00, 0xfe, 0xff]) {
        (Encoding::Utf32be, 4)
    } else if starts_with(data, seq![0xffu8, 0xfe, 0x00, 0x00]) {
        (Encoding::Utf32le, 4)
    } else if starts_with(data, seq![0xefu8, 0xbb, 0xbf]) {
        (Encoding::Utf8, 3)
    } else if starts_with(data, seq![0xfeu8, 0xff]) {
        (Encoding::Utf16be, 2)
    } else if starts_with(data, seq![0xffu8, 0xfe]) {
        (Encoding::Utf16le, 2)
    } else if starts_with(data, seq![0x0eu8, 0xfe, 0xff]) {
        (Encoding::Scsu, 3)
    } else if starts_with(data, seq![0xfbu8, 0xee, 0x28]) {
        (Encoding::Bocu1, 3)
    } else {
        (guess_without_bom(data), 0)
    }
}

/// The encoding of data without a byte-order mark: ANSI when it is all
/// ASCII, else UTF-8 when it is valid as such, else Windows-1252.
pub open spec fn guess_without_bom(data: Seq<u8>) -> Encoding {
    if all_ascii(data) {
        Encoding::Ansi
    } else if valid_utf8(data) {
        Encoding::Utf8
    } else {
        Encoding::Win1252
    }
}

/// Whether the library can decode text in this encoding.
pub open spec fn is_supported(e: Encoding) -> bool {
    match e {
        Encoding::Ansi | Encoding::Win1252 | Encoding::Utf8 | Encoding::Utf16be
        | Encoding::Utf16le => true,
        _ => false,
    }
}

/// Each byte widened to one code unit.
pub open spec fn widen(data: Seq<u8>) -> Seq<u16> {
    Seq::new(data.len(), |i: int| data[i] as u16)
}

/// The code unit of a Windows-1252 byte: the bytes 0x80 to 0x9F map to
/// punctuation and letters, the five undefined ones to the C1 control of
/// the same value, and every other byte to itself.
pub open spec fn win1252_spec(b: u8) -> u16 {
    if b == 0x80 { 0x20AC }
    else if b == 0x82 { 0x201A }
    else if b == 0x83 { 0x0192 }
    else if b == 0x84 { 0x201E }
    else if b == 0x85 { 0x2026 }
    else if b == 0x86 { 0x2020 }
    else if b == 0x87 { 0x2021 }
    else if b == 0x88 { 0x02C6 }
    else if b == 0x89 { 0x2030 }
    else if b == 0x8A { 0x0160 }
    else if b == 0x8B { 0x2039 }
    else if b == 0x8C { 0x0152 }
    else if b == 0x8E { 0x017D }
    else if b == 0x91 { 0x2018 }
    else if b == 0x92 { 0x2019 }
    else if b == 0x93 { 0x201C }
    else if b == 0x94 { 0x201D }
    else if b == 0x95 { 0x2022 }
    else if b == 0x96 { 0x2013 }
    else if b == 0x97 { 0x2014 }
    else if b == 0x98 { 0x02DC }
    else if b == 0x99 { 0x2122 }
    else if b == 0x9A { 0x0161 }
    else if b == 0x9B { 0x203A }
    else if b == 0x9C { 0x0153 }
    else if b == 0x9E { 0x017E }
    else if b == 0x9F { 0x0178 }
    else { b as u16 }
}

/// ANSI text: each byte as one code unit, up to a terminating zero byte.
pub open spec fn ansi_units(data: Seq<u8>) -> Seq<u16> {
    text_units(widen(data))
}

/// Windows-1252 text: every byte mapped to its code unit.
pub open spec fn win1252_units(data: Seq<u8>) -> Seq<u16> {
    Seq::new(data.len(), |i: int| win1252_spec(data[i]))
}

/// The code unit of a pair of bytes in the given byte order.
pub open spec fn unit_of_pair(b0: u8, b1: u8, big_endian: bool) -> u16 {
    if big_endian {
        (b0 * 256 + b1) as u16
    } else {
        (b1 * 256 + b0) as u16
    }
}

/// UTF-16 text: every pair of bytes as one code unit, up to a zero pair; a
/// last odd byte is dropped.
pub open spec fn utf16_units(data: Seq<u8>, big_endian: bool) -> Seq<u16> {
    text_units(
        Seq::new(
            data.len() / 2,
            |i: int| unit_of_pair(data[2 * i], data[2 * i + 1], big_endian),
        ),
    )
}

/// What `String::from_utf8_lossy` makes of bytes, malformed ones included.
pub uninterp spec fn utf8_lossy(data: Seq<u8>) -> Seq<char>;

/// UTF-8 text: the bytes decoded, with U+FFFD for malformed sequences, then
/// encoded as UTF-16.
pub open spec fn utf8_units(data: Seq<u8>) -> Seq<u16> {
    utf16_encode(utf8_lossy(data))
}

/// The code units that bytes in a supported encoding stand for.
pub open spec fn decoded_units(e: Encoding, data: Seq<u8>) -> Seq<u16> {
    match e {
        Encoding::Ansi => ansi_units(data),
        Encoding::Win1252 => win1252_units(data),
        Encoding::Utf8 => utf8_units(data),
        Encoding::Utf16be => utf16_units(data, true),
        Encoding::Utf16le => utf16_units(data, false),
        _ => seq![],
    }
}

/// Relies on `std::str::from_utf8`: it accepts exactly the well-formed UTF-8.
#[verifier::external_body]
fn is_utf8(data: &[u8]) -> (r: bool)
    ensures
        r == valid_utf8(data@),
{
    std::str::from_utf8(data).is_ok()
}

/// Relies on `String::from_utf8_lossy`: malformed sequences become U+FFFD,
/// and well-formed UTF-8 decodes to its characters.
#[verifier::external_body]
fn decode_utf8_lossy(data: &[u8]) -> (r: String)
    ensures
        r@ == utf8_lossy(data@),
        valid_utf8(data@) ==> r@ == decode_utf8(data@),
{
    String::from_utf8_lossy(data).into_owned()
}

impl Encoding {
    /// Guesses the encoding of `data` from its byte-order mark, or from its
    /// contents where it has none, and returns it with the length of the
    /// mark.
    pub fn guess(data: &[u8]) -> (r: (Encoding, usize))
        ensures
            r.0 == guess_spec(data@).0,
            r.1 == guess_spec(data@).1,
    {
        if has_bom(data, 0x00, 0x00, Some(0xfe), Some(0xff)) {
            return (Encoding::Utf32be, 4);
        }
        if has_bom(data, 0xff, 0xfe, Some(0x00), Some(0x00)) {
            return (Encoding::Utf32le, 4);
        }
        if has_bom(data, 0xef, 0xbb, Some(0xbf), None) {
            return (Encoding::Utf8, 3);
        }
        if has_bom(data, 0xfe, 0xff, None, None) {
            return (Encoding::Utf16be, 2);
        }
        if has_bom(data, 0xff, 0xfe, None, None) {
            return (Encoding::Utf16le, 2);
        }
        if has_bom(data, 0x0e, 0xfe, Some(0xff), None) {
            return (Encoding::Scsu, 3);
        }
        if has_bom(data, 0xfb, 0xee, Some(0x28), None) {
            return (Encoding::Bocu1, 3);
        }
        let mut i: usize = 0;
        while i < data.len()
            invariant
                i <= data@.len(),
                forall|j: int| 0 <= j < i ==> data@[j] < 0x80,
                guess_spec(data@) == (guess_without_bom(data@), 0nat),
            decreases data@.len() - i,
        {
            if data[i] >= 0x80 {
                assert(!all_ascii(data@));
                if is_utf8(data) {
                    return (Encoding::Utf8, 0);
                } else {
                    return (Encoding::Win1252, 0);
                }
            }
            i = i + 1;
        }
        (Encoding::Ansi, 0)
    }

    /// Whether the library can decode text in this encoding.
    pub fn is_supported(&self) -> (r: bool)
        ensures
            r == is_supported(*self),
    {
        match self {
            Encoding::Ansi | Encoding::Win1252 | Encoding::Utf8 | Encoding::Utf16be
            | Encoding::Utf16le => true,
            _ => false,
        }
    }
}

/// Whether `data` begins with the bytes `b0`, `b1`, and `b2`, `b3` where
/// given.
fn has_bom(data: &[u8], b0: u8, b1: u8, b2: Option<u8>, b3: Option<u8>) -> (r: bool)
    requires
        b3 is Some ==> b2 is Some,
    ensures
        r == starts_with(data@, bom_seq(b0, b1, b2, b3)),
{
    let ghost bom = bom_seq(b0, b1, b2, b3);
    if data.len() < 2 || data[0] != b0 || data[1] != b1 {
        assert(data@.len() >= bom.len() ==> data@.take(bom.len() as int)[0] == data@[0]);
        assert(data@.len() >= bom.len() ==> data@.take(bom.len() as int)[1] == data@[1]);
        return false;
    }
    match b2 {
        None => {
            assert(data@.take(2) =~= bom);
            true
        },
        Some(c2) => {
            if data.len() < 3 || data[2] != c2 {
                assert(data@.len() >= bom.len() ==> data@.take(bom.len() as int)[2] == data@[2]);
                return false;
            }
            match b3 {
                None => {
                    assert(data@.take(3) =~= bom);
                    true
                },
                Some(c3) => {
                    if data.len() < 4 || data[3] != c3 {
                        assert(data@.len() >= bom.len() ==> data@.take(bom.len() as int)[3]
                            == data@[3]);
                        return false;
                    }
                    assert(data@.take(4) =~= bom);
                    true
                },
            }
        },
    }
}

/// The mark made of `b0`, `b1`, and `b2`, `b3` where given.
pub open spec fn bom_seq(b0: u8, b1: u8, b2: Option<u8>, b3: Option<u8>) -> Seq<u8> {
    match (b2, b3) {
        (Some(c2), Some(c3)) => seq![b0, b1, c2, c3],
        (Some(c2), None) => seq![b0, b1, c2],
        _ => seq![b0, b1],
    }
}

/// The code unit of a Windows-1252 byte.
pub fn win1252_unit(b: u8) -> (r: u16)
    ensures
        r == win1252_spec(b),
{
    match b {
        0x80 => 0x20AC,
        0x82 => 0x201A,
        0x83 => 0x0192,
        0x84 => 0x201E,
        0x85 => 0x2026,
        0x86 => 0x2020,
        0x87 => 0x2021,
        0x88 => 0x02C6,
        0x89 => 0x2030,
        0x8A => 0x0160,
        0x8B => 0x2039,
        0x8C => 0x0152,
        0x8E => 0x017D,
        0x91 => 0x2018,
        0x92 => 0x2019,
        0x93 => 0x201C,
        0x94 => 0x201D,
        0x95 => 0x2022,
        0x96 => 0x2013,
        0x97 => 0x2014,
        0x98 => 0x02DC,
        0x99 => 0x2122,
        0x9A => 0x0161,
        0x9B => 0x203A,
        0x9C => 0x0153,
        0x9E => 0x017E,
        0x9F => 0x0178,
        _ => b as u16,
    }
}

/// Decodes Windows-1252 bytes into code units.
pub fn parse_win1252(data: &[u8]) -> (r: Vec<u16>)
    ensures
        r@ == win1252_units(data@),
{
    let mut out: Vec<u16> = Vec::new();
    let mut i: usize = 0;
    while i < data.len()
        invariant
            i <= data@.len(),
            out@ == win1252_units(data@).take(i as int),
        decreases data@.len() - i,
    {
        out.push(win1252_unit(data[i]));
        i = i + 1;
        assert(out@ =~= win1252_units(data@).take(i as int));
    }
    assert(win1252_units(data@).take(data@.len() as int) =~= win1252_units(data@));
    out
}

/// Decodes UTF-8 bytes into code units, with U+FFFD for malformed sequences.
pub fn parse_utf8(data: &[u8]) -> (r: Vec<u16>)
    ensures
        r@ == utf8_units(data@),
        valid_utf8(data@) ==> r@ == utf16_encode(decode_utf8(data@)),
{
    let text = decode_utf8_lossy(data);
    encode_str(text.as_str())
}

} // verus!
