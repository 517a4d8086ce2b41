//! A null-terminated UTF-16 string buffer with short string optimization.

use std::cmp::Ordering;
use vstd::prelude::*;
use crate::encoding::{
    ansi_units, decoded_units, guess_spec, is_supported, parse_utf8, parse_win1252, unit_of_pair,
    utf16_units, widen, Encoding,
};
use crate::utf16::{
    case_mapped, char_from_u32, compare_units, decode_checked, decode_lossy, encode_str,
    is_high_surrogate, is_low_surrogate, lemma_decode_encode, lemma_encode_no_zero,
    lemma_ordinal_cmp_equal, lemma_pair_units, lemma_single_unit, lemma_text_len,
    lemma_text_len_at, lemma_text_of_terminated, mapped_units_of, no_nul, no_zero, ordinal_cmp,
    pair_value, text_len, text_units, utf16_decode, utf16_encode, utf16_lossy, utf16_valid, zeros,
};

verus! {

/// Code units kept inline, terminator included, before a buffer goes to the
/// heap.
pub const SSO_LEN: usize = 20;

/// Number of code units a buffer allocated for `n` units holds: the inline
/// array when they fit in it, exactly `n` on the heap.
pub open spec fn alloc_len(n: nat, force_heap: bool) -> nat {
    if !force_heap && n <= SSO_LEN {
        SSO_LEN as nat
    } else {
        n
    }
}

/// The contents of a buffer allocated for `units`: those units, then zeros up
/// to its length.
pub open spec fn laid_out(units: Seq<u16>, force_heap: bool) -> Seq<u16> {
    units + zeros((alloc_len(units.len(), force_heap) - units.len()) as nat)
}

/// The code units that `WString::from_str` stores for `s`: its encoding and a
/// terminator, or nothing for the empty string.
pub open spec fn str_units(s: Seq<char>) -> Seq<u16> {
    if s.len() == 0 {
        seq![]
    } else {
        utf16_encode(s) + seq![0u16]
    }
}

/// The code units of several strings, each followed by a terminator.
pub open spec fn joined_units(ss: Seq<Seq<char>>) -> Seq<u16>
    decreases ss.len(),
{
    if ss.len() == 0 {
        seq![]
    } else {
        joined_units(ss.drop_last()) + utf16_encode(ss.last()) + seq![0u16]
    }
}

/// The code units of a multi-string block: every string terminated, and one
/// more terminator closing the block; nothing for no strings.
pub open spec fn multi_units(ss: Seq<Seq<char>>) -> Seq<u16> {
    if ss.len() == 0 {
        seq![]
    } else {
        joined_units(ss) + seq![0u16]
    }
}

/// The code units that `WString::from_wchars_slice` stores for `src`: those
/// before its first zero and a terminator, or nothing for an empty `src`.
pub open spec fn wchars_units(src: Seq<u16>) -> Seq<u16> {
    if src.len() == 0 {
        seq![]
    } else {
        text_units(src) + seq![0u16]
    }
}

/// The code units that `WString::parse` stores for text bytes in a supported
/// encoding: the byte-order mark skipped, the rest decoded.
pub open spec fn parsed_units(data: Seq<u8>) -> Seq<u16> {
    wchars_units(decoded_units(guess_spec(data).0, data.skip(guess_spec(data).1 as int)))
}

/// Why text bytes could not be parsed.
#[derive(Clone, Copy, PartialEq, Eq, Structural, Debug)]
pub enum ParseError {
    /// The bytes are in an encoding the library does not decode.
    UnsupportedEncoding(Encoding),
}

/// What `WString::copy_to_slice` leaves in a destination of `n` units: the
/// buffer's units as far as they fit before the last slot, zeros after them.
pub open spec fn copied_into(buf: Seq<u16>, n: nat) -> Seq<u16> {
    Seq::new(n, |i: int| if i < buf.len() && i < n - 1 { buf[i] } else { 0u16 })
}

enum Buffer {
    Stack([u16; SSO_LEN]),
    Heap(Vec<u16>),
    Unallocated,
}

/// Stores a `[u16]` buffer for a null-terminated UTF-16 wide string, as
/// Windows uses natively.
///
/// Short strings are kept inline, longer ones on the heap; an empty string
/// allocates nothing.
pub struct WString {
    buf: Buffer,
}

impl View for WString {
    type V = Seq<u16>;

    /// Every allocated code unit, terminator and trailing zeros included;
    /// empty when nothing is allocated.
    closed spec fn view(&self) -> Seq<u16> {
        match self.buf {
            Buffer::Stack(arr) => arr@,
            Buffer::Heap(v) => v@,
            Buffer::Unallocated => seq![],
        }
    }
}

impl WString {
    /// Whether storage has been allocated.
    pub closed spec fn spec_allocated(&self) -> bool {
        !(self.buf is Unallocated)
    }

    /// Whether the units are kept inline rather than on the heap.
    pub closed spec fn spec_inline(&self) -> bool {
        self.buf is Stack
    }

    /// The buffer holds nothing and allocated nothing.
    pub open spec fn is_empty_buffer(&self) -> bool {
        &&& !self.spec_allocated()
        &&& !self.spec_inline()
        &&& self@.len() == 0
    }

    /// The buffer was allocated for `units`, on the heap if `force_heap`, and
    /// holds them followed by zeros; with no units it is empty.
    pub open spec fn stores(&self, units: Seq<u16>, force_heap: bool) -> bool {
        if units.len() == 0 {
            self.is_empty_buffer()
        } else {
            &&& self.spec_allocated()
            &&& self.spec_inline() == (!force_heap && units.len() <= SSO_LEN)
            &&& self@ == laid_out(units, force_heap)
        }
    }

    /// The text held: the code units before the first terminator.
    pub open spec fn text(&self) -> Seq<u16> {
        text_units(self@)
    }

    /// Shape facts that hold of every value.
    proof fn lemma_shape(&self)
        ensures
            self.spec_inline() ==> self@.len() == SSO_LEN && self.spec_allocated(),
            !self.spec_allocated() ==> self@.len() == 0,
    {
    }

    fn empty() -> (r: WString)
        ensures
            r.is_empty_buffer(),
    {
        WString { buf: Buffer::Unallocated }
    }

    /// Allocates storage for `units`, which holds them followed by zeros.
    fn from_units(units: Vec<u16>, force_heap: bool) -> (r: WString)
        requires
            units.len() > 0,
        ensures
            r.stores(units@, force_heap),
    {
        if !force_heap && units.len() <= SSO_LEN {
            let mut arr: [u16; SSO_LEN] = [0u16; SSO_LEN];
            let mut i: usize = 0;
            while i < units.len()
                invariant
                    i <= units.len() <= SSO_LEN,
                    forall|j: int| 0 <= j < i ==> arr@[j] == units@[j],
                    forall|j: int| i <= j < SSO_LEN ==> arr@[j] == 0,
                decreases units.len() - i,
            {
                arr[i] = units[i];
                i = i + 1;
            }
            let r = WString { buf: Buffer::Stack(arr) };
            assert(r@ =~= laid_out(units@, force_heap));
            r
        } else {
            let r = WString { buf: Buffer::Heap(units) };
            assert(r@ =~= laid_out(units@, force_heap));
            r
        }
    }

    /// The code units of `src` before its first zero, looking at no more
    /// than `limit` of them.
    fn text_prefix(src: &[u16], limit: usize) -> (r: Vec<u16>)
        requires
            limit <= src@.len(),
        ensures
            r@ == text_units(src@.take(limit as int)),
            no_zero(r@),
    {
        let ghost head = src@.take(limit as int);
        let mut out: Vec<u16> = Vec::new();
        let mut i: usize = 0;
        while i < limit && src[i] != 0
            invariant
                i <= limit <= src@.len(),
                head == src@.take(limit as int),
                out@ == head.take(i as int),
                no_zero(out@),
            decreases limit - i,
        {
            out.push(src[i]);
            i = i + 1;
            assert(out@ =~= head.take(i as int));
        }
        proof {
            lemma_text_len_at(head, i as int);
        }
        out
    }

    /// Stores an UTF-16 null-terminated string from an optional string.
    ///
    /// If `s` is `None` or the string is empty, no allocation is made.
    pub fn from_opt_str(s: Option<&str>) -> (r: WString)
        ensures
            match s {
                Some(s) => r.stores(str_units(s@), false),
                None => r.is_empty_buffer(),
            },
    {
        match s {
            Some(s) => WString::from_str(s),
            None => WString::empty(),
        }
    }

    /// Stores an UTF-16 null-terminated string from a string.
    ///
    /// If the string is empty, no allocation is made.
    pub fn from_str(s: &str) -> (r: WString)
        ensures
            r.stores(str_units(s@), false),
    {
        WString::from_str_heap_choice(s, false)
    }

    /// Stores an UTF-16 null-terminated string from a string, always on the
    /// heap, so that the buffer's address stays put when the `WString` moves.
    ///
    /// If the string is empty, no allocation is made.
    pub fn from_str_force_heap(s: &str) -> (r: WString)
        ensures
            r.stores(str_units(s@), true),
    {
        WString::from_str_heap_choice(s, true)
    }

    fn from_str_heap_choice(s: &str, force_heap: bool) -> (r: WString)
        ensures
            r.stores(str_units(s@), force_heap),
    {
        let mut units = encode_str(s);
        proof {
            lemma_encode_no_zero(s@);
        }
        if units.len() == 0 {
            WString::empty()
        } else {
            let ghost enc = units@;
            units.push(0);
            assert(units@ =~= enc + seq![0u16]);
            WString::from_units(units, force_heap)
        }
    }

    /// Stores a series of UTF-16 null-terminated strings. The buffer ends
    /// with two terminating nulls, so that retrieval operations "see" only the
    /// first string.
    ///
    /// If the slice is empty, no allocation is made.
    pub fn from_str_vec(v: &[&str]) -> (r: WString)
        ensures
            r.stores(multi_units(v@.map_values(|s: &str| s@)), false),
    {
        let ghost ss = v@.map_values(|s: &str| s@);
        if v.len() == 0 {
            return WString::empty();
        }
        let mut units: Vec<u16> = Vec::new();
        let mut i: usize = 0;
        while i < v.len()
            invariant
                i <= v@.len(),
                ss == v@.map_values(|s: &str| s@),
                units@ == joined_units(ss.take(i as int)),
            decreases v@.len() - i,
        {
            let mut enc = encode_str(v[i]);
            proof {
                assert(ss.take(i + 1).drop_last() =~= ss.take(i as int));
                assert(ss.take(i + 1).last() == v@[i as int]@);
            }
            let ghost before = units@;
            units.append(&mut enc);
            units.push(0);
            assert(units@ =~= before + utf16_encode(v@[i as int]@) + seq![0u16]);
            i = i + 1;
        }
        proof {
            assert(ss.take(v@.len() as int) =~= ss);
        }
        let ghost all = units@;
        units.push(0);
        assert(units@ =~= all + seq![0u16]);
        WString::from_units(units, false)
    }

    /// Stores an UTF-16 null-terminated string by copying the first
    /// `num_chars` units of a buffer, which need not be null-terminated;
    /// units from a zero on are left out. `None` stands for a null pointer.
    ///
    /// With no source or a count of zero, no allocation is made.
    pub fn from_wchars_count(src: Option<&[u16]>, num_chars: usize) -> (r: WString)
        requires
            src matches Some(s) ==> num_chars <= s@.len(),
        ensures
            match src {
                Some(s) if num_chars > 0 => r.stores(
                    text_units(s@.take(num_chars as int)) + seq![0u16],
                    false,
                ),
                _ => r.is_empty_buffer(),
            },
    {
        match src {
            Some(s) if num_chars > 0 => {
                let mut units = WString::text_prefix(s, num_chars);
                let ghost text = units@;
                units.push(0);
                assert(units@ =~= text + seq![0u16]);
                WString::from_units(units, false)
            },
            _ => WString::empty(),
        }
    }

    /// Stores an UTF-16 null-terminated string by copying from a slice, which
    /// need not be null-terminated; units from a zero on are left out.
    ///
    /// If the slice is empty, no allocation is made.
    pub fn from_wchars_slice(src: &[u16]) -> (r: WString)
        ensures
            r.stores(wchars_units(src@), false),
    {
        if src.len() == 0 {
            WString::empty()
        } else {
            let mut units = WString::text_prefix(src, src.len());
            proof {
                assert(src@.take(src@.len() as int) =~= src@);
            }
            let ghost text = units@;
            units.push(0);
            assert(units@ =~= text + seq![0u16]);
            WString::from_units(units, false)
        }
    }

    /// Constructs a new, empty `WString`. No allocation is made.
    pub fn new() -> (r: WString)
        ensures
            r.is_empty_buffer(),
    {
        WString::empty()
    }

    /// Allocates an UTF-16 buffer of at least `sz` units, all set to zero.
    /// Up to the inline size the buffer is inline and holds exactly that
    /// many units.
    pub fn new_alloc_buf(sz: usize) -> (r: WString)
        ensures
            r.stores(zeros(sz as nat), false),
    {
        if sz == 0 {
            WString::empty()
        } else if sz <= SSO_LEN {
            let r = WString { buf: Buffer::Stack([0u16; SSO_LEN]) };
            assert(r@ =~= laid_out(zeros(sz as nat), false));
            r
        } else {
            let r = WString { buf: Buffer::Heap(vec![0u16; sz]) };
            assert(r@ =~= laid_out(zeros(sz as nat), false));
            r
        }
    }
    /// Returns a mutable slice over the whole internal buffer, terminator
    /// included; empty when nothing is allocated.
    pub fn as_mut_slice(&mut self) -> (r: &mut [u16])
        ensures
            r@ == old(self)@,
            final(self)@ == final(r)@,
            final(self).spec_allocated() == old(self).spec_allocated(),
            final(self).spec_inline() == old(self).spec_inline(),
    {
        match &mut self.buf {
            Buffer::Stack(arr) => arr,
            Buffer::Heap(v) => v.as_mut_slice(),
            Buffer::Unallocated => &mut [],
        }
    }

    /// Returns the internal buffer, to be handed to native functions; `None`
    /// stands for the null pointer, given when no unit is allocated.
    pub fn as_ptr(&self) -> (r: Option<&[u16]>)
        ensures
            r is None <==> self@.len() == 0,
            r matches Some(p) ==> p@ == self@,
    {
        proof {
            self.lemma_shape();
        }
        match &self.buf {
            Buffer::Stack(arr) => Some(arr.as_slice()),
            Buffer::Heap(v) => {
                if v.len() == 0 {
                    None
                } else {
                    Some(v.as_slice())
                }
            },
            Buffer::Unallocated => None,
        }
    }

    /// Returns a slice over the whole internal buffer, terminator included;
    /// empty when nothing is allocated.
    pub fn as_slice(&self) -> (r: &[u16])
        ensures
            r@ == self@,
    {
        match &self.buf {
            Buffer::Stack(arr) => arr.as_slice(),
            Buffer::Heap(v) => v.as_slice(),
            Buffer::Unallocated => &[],
        }
    }

    /// Returns the size of the allocated buffer, in `u16` units. The
    /// terminating null, if any, is counted; nothing allocated gives zero.
    pub fn buf_len(&self) -> (r: usize)
        ensures
            r == self@.len(),
    {
        match &self.buf {
            Buffer::Stack(arr) => SSO_LEN,
            Buffer::Heap(v) => v.len(),
            Buffer::Unallocated => 0,
        }
    }

    /// Copies the buffer into `dest`, leaving its last slot for a terminating
    /// null; the string is truncated where `dest` is smaller, and the slots
    /// after what was copied are zeroed. An empty `dest` is left alone, and a
    /// `dest` of one slot gets only the terminator.
    pub fn copy_to_slice(&self, dest: &mut [u16])
        ensures
            final(dest)@ == copied_into(self@, old(dest)@.len()),
    {
        let n = dest.len();
        if n == 0 {
            assert(dest@ =~= copied_into(self@, 0));
            return;
        }
        let src = self.as_slice();
        let mut i: usize = 0;
        while i < n
            invariant
                n == dest@.len() == old(dest)@.len(),
                src@ == self@,
                i <= n,
                forall|j: int| 0 <= j < i ==> dest@[j] == copied_into(self@, n as nat)[j],
            decreases n - i,
        {
            if i < src.len() && i < n - 1 {
                dest[i] = src[i];
            } else {
                dest[i] = 0;
            }
            i = i + 1;
        }
        assert(dest@ =~= copied_into(self@, n as nat));
    }

    /// Fills the entire buffer with zeros.
    pub fn fill_with_zero(&mut self)
        ensures
            final(self)@ == zeros(old(self)@.len()),
            final(self).spec_allocated() == old(self).spec_allocated(),
            final(self).spec_inline() == old(self).spec_inline(),
    {
        let slice = self.as_mut_slice();
        let n = slice.len();
        let mut i: usize = 0;
        while i < n
            invariant
                n == slice@.len(),
                i <= n,
                forall|j: int| 0 <= j < i ==> slice@[j] == 0,
            decreases n - i,
        {
            slice[i] = 0;
            i = i + 1;
        }
        assert(slice@ =~= zeros(n as nat));
    }

    /// Returns `true` if the internal buffer has been allocated.
    pub fn is_allocated(&self) -> (r: bool)
        ensures
            r == self.spec_allocated(),
    {
        match &self.buf {
            Buffer::Unallocated => false,
            _ => true,
        }
    }

    /// The code units before the first terminator.
    fn text_vec(&self) -> (r: Vec<u16>)
        ensures
            r@ == self.text(),
    {
        let s = self.as_slice();
        assert(s@.take(s@.len() as int) =~= s@);
        WString::text_prefix(s, s.len())
    }

    /// Converts the text before the first terminator into a `String`,
    /// failing on malformed UTF-16. A buffer with nothing allocated gives an
    /// empty string.
    pub fn to_string_checked(&self) -> (r: Result<String, std::string::FromUtf16Error>)
        ensures
            r is Ok <==> utf16_valid(self.text()),
            r matches Ok(t) ==> t@ == utf16_decode(self.text()),
    {
        let units = self.text_vec();
        decode_checked(units.as_slice())
    }

    /// Converts the text before the first terminator into a `String`,
    /// replacing malformed UTF-16 by U+FFFD. A buffer with nothing allocated
    /// gives an empty string.
    pub fn to_string(&self) -> (r: String)
        ensures
            r@ == utf16_lossy(self.text()),
            utf16_valid(self.text()) ==> r@ == utf16_decode(self.text()),
    {
        let units = self.text_vec();
        decode_lossy(units.as_slice())
    }

    /// Guesses the encoding of `data` with [`Encoding::guess`], skips its
    /// byte-order mark and decodes the rest; empty `data` gives an empty
    /// `WString`. Encodings the library cannot decode are an error.
    pub fn parse(data: &[u8]) -> (r: Result<WString, ParseError>)
        ensures
            data@.len() == 0 ==> (r matches Ok(w) && w.is_empty_buffer()),
            data@.len() > 0 && !is_supported(guess_spec(data@).0) ==> r == Err::<WString, _>(
                ParseError::UnsupportedEncoding(guess_spec(data@).0),
            ),
            data@.len() > 0 && is_supported(guess_spec(data@).0) ==> (r matches Ok(w) && w.stores(
                parsed_units(data@),
                false,
            )),
    {
        if data.len() == 0 {
            return Ok(WString::new());
        }
        let (encoding, sz_bom) = Encoding::guess(data);
        assert(guess_spec(data@).1 <= data@.len());
        let body = slice_from(data, sz_bom);
        let units = match encoding {
            Encoding::Ansi => WString::parse_ansi(body),
            Encoding::Win1252 => parse_win1252(body),
            Encoding::Utf8 => parse_utf8(body),
            Encoding::Utf16be => WString::parse_utf16(body, true),
            Encoding::Utf16le => WString::parse_utf16(body, false),
            _ => {
                return Err(ParseError::UnsupportedEncoding(encoding));
            },
        };
        Ok(WString::from_wchars_slice(units.as_slice()))
    }

    /// Bytes as code units, up to a terminating zero byte.
    fn parse_ansi(data: &[u8]) -> (r: Vec<u16>)
        ensures
            r@ == ansi_units(data@),
    {
        let ghost wide = widen(data@);
        let mut out: Vec<u16> = Vec::new();
        let mut i: usize = 0;
        while i < data.len() && data[i] != 0
            invariant
                i <= data@.len(),
                wide == widen(data@),
                out@ == wide.take(i as int),
                no_zero(out@),
            decreases data@.len() - i,
        {
            out.push(data[i] as u16);
            i = i + 1;
            assert(out@ =~= wide.take(i as int));
        }
        proof {
            lemma_text_len_at(wide, i as int);
        }
        out
    }

    /// Pairs of bytes as code units in the given byte order, up to a zero
    /// pair; a last odd byte is dropped.
    fn parse_utf16(data: &[u8], is_big_endian: bool) -> (r: Vec<u16>)
        ensures
            r@ == utf16_units(data@, is_big_endian),
    {
        let ghost pairs = Seq::new(
            data@.len() / 2,
            |i: int| unit_of_pair(data@[2 * i], data@[2 * i + 1], is_big_endian),
        );
        let len = data.len();
        let n = len / 2;
        let mut out: Vec<u16> = Vec::new();
        let mut i: usize = 0;
        loop
            invariant
                len == data@.len(),
                n == len / 2,
                i <= n,
                pairs.len() == n,
                pairs == Seq::new(
                    data@.len() / 2,
                    |i: int| unit_of_pair(data@[2 * i], data@[2 * i + 1], is_big_endian),
                ),
                out@ == pairs.take(i as int),
                no_zero(out@),
            ensures
                i <= n,
                out@ == pairs.take(i as int),
                no_zero(out@),
                i == n || pairs[i as int] == 0,
            decreases n - i,
        {
            if i >= n {
                break;
            }
            assert(2 * i + 1 < len) by (nonlinear_arith)
                requires
                    i < n,
                    n == len / 2,
            ;
            let b0 = data[2 * i];
            let b1 = data[2 * i + 1];
            if b0 == 0 && b1 == 0 {
                break;
            }
            let unit: u16 = if is_big_endian {
                (b0 as u16) * 256 + (b1 as u16)
            } else {
                (b1 as u16) * 256 + (b0 as u16)
            };
            assert(unit == pairs[i as int]);
            assert(unit != 0);
            out.push(unit);
            i = i + 1;
            assert(out@ =~= pairs.take(i as int));
        }
        proof {
            lemma_text_len_at(pairs, i as int);
        }
        out
    }

    /// Converts the text to lower case, in place, with Unicode's case
    /// mapping: each character whose lowercase is one character of as many
    /// code units is replaced by it; the others, and what follows the first
    /// terminator, are left as they are.
    pub fn make_lowercase(&mut self)
        ensures
            final(self)@ == case_mapped(old(self).text(), false) + old(self)@.skip(
                text_len(old(self)@) as int,
            ),
            final(self).spec_allocated() == old(self).spec_allocated(),
            final(self).spec_inline() == old(self).spec_inline(),
    {
        self.change_case(false);
    }

    /// Converts the text to upper case, in place, with Unicode's case
    /// mapping: each character whose uppercase is one character of as many
    /// code units is replaced by it; the others, and what follows the first
    /// terminator, are left as they are.
    pub fn make_uppercase(&mut self)
        ensures
            final(self)@ == case_mapped(old(self).text(), true) + old(self)@.skip(
                text_len(old(self)@) as int,
            ),
            final(self).spec_allocated() == old(self).spec_allocated(),
            final(self).spec_inline() == old(self).spec_inline(),
    {
        self.change_case(true);
    }

    fn change_case(&mut self, upper: bool)
        ensures
            final(self)@ == case_mapped(old(self).text(), upper) + old(self)@.skip(
                text_len(old(self)@) as int,
            ),
            final(self).spec_allocated() == old(self).spec_allocated(),
            final(self).spec_inline() == old(self).spec_inline(),
    {
        let ghost orig = self@;
        let ghost tl = text_len(orig) as int;
        let ghost t = text_units(orig);
        proof {
            lemma_text_len(orig);
            assert(t.skip(0) =~= t);
            assert(orig.skip(0) =~= orig);
        }
        let slice = self.as_mut_slice();
        let n = slice.len();
        let mut i: usize = 0;
        while i < n && slice[i] != 0
            invariant
                n == slice@.len() == orig.len(),
                tl == text_len(orig),
                tl <= n,
                t == orig.take(tl),
                no_zero(t),
                tl < n ==> orig[tl] == 0,
                i <= tl,
                slice@.skip(i as int) == orig.skip(i as int),
                case_mapped(t, upper) == slice@.take(i as int) + case_mapped(
                    t.skip(i as int),
                    upper,
                ),
            decreases n - i,
        {
            let u = slice[i];
            let ghost before = slice@;
            let ghost rest = t.skip(i as int);
            assert(orig[i as int] == before.skip(i as int)[0]);
            assert(i < tl);
            assert(rest[0] == u);
            if is_high(u) && i + 1 < n && is_low(slice[i + 1]) {
                let lo = slice[i + 1];
                assert(orig[i + 1] == before.skip(i as int)[1]);
                assert(i + 1 < tl);
                assert(rest[1] == lo);
                proof {
                    lemma_pair_units(u, lo);
                }
                let v: u32 = 0x10000 + (u as u32 - 0xD800) * 0x400 + (lo as u32 - 0xDC00);
                assert(v == pair_value(u, lo));
                match char_from_u32(v) {
                    Some(c) => {
                        let mapped = mapped_units_of(c, upper);
                        slice[i] = mapped[0];
                        slice[i + 1] = mapped[1];
                        assert(slice@.take(i + 2) =~= before.take(i as int) + mapped@);
                    },
                    None => {},
                }
                assert(rest.skip(2) =~= t.skip(i + 2));
                assert forall|j: int| 0 <= j < n - (i + 2) implies #[trigger] slice@.skip(i + 2)[j]
                    == orig.skip(i + 2)[j] by {
                    assert(before.skip(i as int)[j + 2] == orig.skip(i as int)[j + 2]);
                }
                assert(slice@.skip(i + 2) =~= orig.skip(i + 2));
                i = i + 2;
            } else if is_high(u) || is_low(u) {
                assert(!(is_high_surrogate(rest[0]) && rest.len() >= 2 && is_low_surrogate(rest[1])))
                    by {
                    if rest.len() >= 2 && i + 1 < n {
                        assert(rest[1] == orig[i + 1]);
                        assert(orig[i + 1] == before.skip(i as int)[1]);
                    }
                }
                assert(slice@.take(i + 1) =~= before.take(i as int) + seq![u]);
                assert(rest.skip(1) =~= t.skip(i + 1));
                assert forall|j: int| 0 <= j < n - (i + 1) implies #[trigger] slice@.skip(i + 1)[j]
                    == orig.skip(i + 1)[j] by {
                    assert(before.skip(i as int)[j + 1] == orig.skip(i as int)[j + 1]);
                }
                assert(slice@.skip(i + 1) =~= orig.skip(i + 1));
                i = i + 1;
            } else {
                proof {
                    lemma_single_unit(u);
                }
                match char_from_u32(u as u32) {
                    Some(c) => {
                        let mapped = mapped_units_of(c, upper);
                        slice[i] = mapped[0];
                        assert(slice@.take(i + 1) =~= before.take(i as int) + mapped@);
                    },
                    None => {},
                }
                assert(rest.skip(1) =~= t.skip(i + 1));
                assert forall|j: int| 0 <= j < n - (i + 1) implies #[trigger] slice@.skip(i + 1)[j]
                    == orig.skip(i + 1)[j] by {
                    assert(before.skip(i as int)[j + 1] == orig.skip(i as int)[j + 1]);
                }
                assert(slice@.skip(i + 1) =~= orig.skip(i + 1));
                i = i + 1;
            }
        }
        proof {
            if i < n {
                assert(slice@[i as int] == slice@.skip(i as int)[0]);
                if i < tl {
                    assert(t[i as int] == orig[i as int]);
                }
            }
            assert(i == tl);
            assert(t.skip(i as int) =~= Seq::<u16>::empty());
            assert(slice@ =~= slice@.take(i as int) + orig.skip(i as int));
        }
    }

    /// Returns the number of `u16` units before the first terminator, found
    /// by scanning the buffer.
    pub fn str_len(&self) -> (r: usize)
        ensures
            r == text_len(self@),
    {
        let s = self.as_slice();
        let mut i: usize = 0;
        while i < s.len() && s[i] != 0
            invariant
                i <= s@.len(),
                no_zero(s@.take(i as int)),
            decreases s@.len() - i,
        {
            assert(s@.take(i + 1) =~= s@.take(i as int).push(s@[i as int]));
            i = i + 1;
        }
        proof {
            lemma_text_len_at(s@, i as int);
        }
        i
    }
}

/// Converting text into a `WString` and back gives the same text, for every
/// string without a NUL character (the first NUL would end the text).
pub proof fn lemma_round_trip(s: Seq<char>, w: WString, force_heap: bool)
    requires
        no_nul(s),
        w.stores(str_units(s), force_heap),
    ensures
        utf16_valid(w.text()),
        utf16_decode(w.text()) == s,
{
    lemma_encode_no_zero(s);
    lemma_decode_encode(s);
    if s.len() == 0 {
        lemma_text_len_at(w@, 0);
        assert(w.text() =~= utf16_encode(s));
    } else {
        let e = utf16_encode(s);
        assert(w@ =~= e + w@.skip(e.len() as int));
        assert(w@.skip(e.len() as int)[0] == str_units(s)[e.len() as int]);
        lemma_text_of_terminated(e, w@.skip(e.len() as int));
    }
}

/// A string is kept inline exactly when its code units and terminator fit in
/// the inline array, which is then the whole buffer; otherwise the heap
/// buffer holds exactly the units and the terminator.
pub proof fn lemma_inline_threshold(s: Seq<char>, w: WString)
    requires
        s.len() > 0,
        w.stores(str_units(s), false),
    ensures
        w.spec_inline() <==> utf16_encode(s).len() + 1 <= SSO_LEN,
        w.spec_inline() ==> w@.len() == SSO_LEN,
        !w.spec_inline() ==> w@.len() == utf16_encode(s).len() + 1,
{
}

/// Copying into a destination too small for the text keeps the first `N - 1`
/// units and ends them with a terminator; an empty destination is left as it
/// was, and one of a single slot receives only the terminator.
pub proof fn lemma_copy_truncates(buf: Seq<u16>, dest: Seq<u16>)
    ensures
        dest.len() == 0 ==> copied_into(buf, dest.len()) == dest,
        dest.len() == 1 ==> copied_into(buf, dest.len()) == seq![0u16],
        1 <= dest.len() <= text_len(buf) + 1 ==> text_units(copied_into(buf, dest.len()))
            == text_units(buf).take(dest.len() - 1) && copied_into(buf, dest.len())[dest.len()
            - 1] == 0,
{
    let n = dest.len();
    let c = copied_into(buf, n);
    if n == 0 {
        assert(c =~= dest);
    }
    if n == 1 {
        assert(c =~= seq![0u16]);
    }
    if 1 <= n <= text_len(buf) + 1 {
        lemma_text_len(buf);
        let k = (n - 1) as int;
        assert(no_zero(c.take(k))) by {
            assert forall|i: int| 0 <= i < k implies c.take(k)[i] != 0 by {
                assert(buf.take(text_len(buf) as int)[i] == buf[i]);
            }
        }
        lemma_text_len_at(c, k);
        assert(text_units(c) =~= text_units(buf).take(k));
    }
}

/// Zeroing a buffer a second time leaves it as the first time did: `once`
/// is `w` after one call of `fill_with_zero`, `twice` is `once` after another.
pub proof fn lemma_fill_idempotent(w: WString, once: WString, twice: WString)
    requires
        once@ == zeros(w@.len()),
        once.spec_allocated() == w.spec_allocated(),
        once.spec_inline() == w.spec_inline(),
        twice@ == zeros(once@.len()),
        twice.spec_allocated() == once.spec_allocated(),
        twice.spec_inline() == once.spec_inline(),
    ensures
        twice@ == once@,
        twice.spec_allocated() == once.spec_allocated(),
        twice.spec_inline() == once.spec_inline(),
{
    assert(twice@ =~= once@);
}

impl Clone for WString {
    /// A copy of every allocated unit, in a buffer allocated anew for that
    /// many units: inline when they fit, whatever the original's storage.
    fn clone(&self) -> (r: WString)
        ensures
            r.stores(self@, false),
    {
        let src = self.as_slice();
        if src.len() == 0 {
            return WString::new();
        }
        let mut r = WString::new_alloc_buf(src.len());
        let dest = r.as_mut_slice();
        let n = src.len();
        let mut i: usize = 0;
        while i < n
            invariant
                n == src@.len(),
                i <= n,
                dest@.len() == alloc_len(n as nat, false),
                forall|j: int| 0 <= j < i ==> dest@[j] == src@[j],
                forall|j: int| i <= j < dest@.len() ==> dest@[j] == 0,
            decreases n - i,
        {
            dest[i] = src[i];
            i = i + 1;
        }
        assert(dest@ =~= laid_out(src@, false));
        r
    }
}

impl PartialEq for WString {
    /// Two strings are equal when their texts, up to the first terminator,
    /// hold the same code units.
    fn eq(&self, other: &WString) -> (r: bool) {
        let a = self.text_vec();
        let b = other.text_vec();
        let ord = compare_units(a.as_slice(), b.as_slice());
        proof {
            lemma_ordinal_cmp_equal(self.text(), other.text());
        }
        match ord {
            Ordering::Equal => true,
            _ => false,
        }
    }
}

impl vstd::std_specs::cmp::PartialEqSpecImpl for WString {
    open spec fn obeys_eq_spec() -> bool {
        true
    }

    open spec fn eq_spec(&self, other: &WString) -> bool {
        self.text() == other.text()
    }
}

impl Eq for WString {
}

impl PartialOrd for WString {
    /// Orders strings by ordinal comparison of their texts: code unit by code
    /// unit, by numeric value, regardless of locale.
    fn partial_cmp(&self, other: &WString) -> (r: Option<Ordering>) {
        let a = self.text_vec();
        let b = other.text_vec();
        Some(compare_units(a.as_slice(), b.as_slice()))
    }
}

impl vstd::std_specs::cmp::PartialOrdSpecImpl for WString {
    open spec fn obeys_partial_cmp_spec() -> bool {
        true
    }

    open spec fn partial_cmp_spec(&self, other: &WString) -> Option<Ordering> {
        Some(ordinal_cmp(self.text(), other.text()))
    }
}

/// Whether a code unit is a leading surrogate.
fn is_high(u: u16) -> (r: bool)
    ensures
        r == is_high_surrogate(u),
{
    0xD800 <= u && u <= 0xDBFF
}

/// Whether a code unit is a trailing surrogate.
fn is_low(u: u16) -> (r: bool)
    ensures
        r == is_low_surrogate(u),
{
    0xDC00 <= u && u <= 0xDFFF
}

/// The bytes of `data` from `start` on.
fn slice_from(data: &[u8], start: usize) -> (r: &[u8])
    requires
        start <= data@.len(),
    ensures
        r@ == data@.skip(start as int),
{
    vstd::slice::slice_subrange(data, start, data.len())
}

} // verus!
