//! UTF-16 as a mathematical object: how characters become 16-bit code units,
//! how code units decode back, the null-terminated text held in a run of code
//! units, their ordinal order and their case mapping; with the standard
//! library's decoders and case mappers that the rest of the crate relies on.

use std::cmp::Ordering;
use vstd::prelude::*;
use vstd::utf8::{char_is_scalar, char_u32_cast, is_scalar};

verus! {

/// A leading surrogate, the first unit of a supplementary character.
pub open spec fn is_high_surrogate(u: u16) -> bool {
    0xD800 <= u <= 0xDBFF
}

/// A trailing surrogate, the second unit of a supplementary character.
pub open spec fn is_low_surrogate(u: u16) -> bool {
    0xDC00 <= u <= 0xDFFF
}

/// The code units of one character: one unit in the basic plane, a
/// surrogate pair above it.
pub open spec fn char_units(c: char) -> Seq<u16> {
    let v = c as u32;
    if v < 0x10000 {
        seq![v as u16]
    } else {
        seq![(0xD800 + (v - 0x10000) / 0x400) as u16, (0xDC00 + (v - 0x10000) % 0x400) as u16]
    }
}

/// The UTF-16 encoding of a character sequence.
pub open spec fn utf16_encode(s: Seq<char>) -> Seq<u16>
    decreases s.len(),
{
    if s.len() == 0 {
        seq![]
    } else {
        char_units(s[0]) + utf16_encode(s.drop_first())
    }
}

/// The scalar value that a surrogate pair stands for.
pub open spec fn pair_value(hi: u16, lo: u16) -> u32 {
    (0x10000 + (hi - 0xD800) * 0x400 + (lo - 0xDC00)) as u32
}

/// Whether a run of code units is well-formed UTF-16: every leading surrogate
/// is followed by a trailing one, and no trailing surrogate stands alone.
pub open spec fn utf16_valid(v: Seq<u16>) -> bool
    decreases v.len(),
{
    if v.len() == 0 {
        true
    } else if is_high_surrogate(v[0]) {
        v.len() >= 2 && is_low_surrogate(v[1]) && utf16_valid(v.skip(2))
    } else if is_low_surrogate(v[0]) {
        false
    } else {
        utf16_valid(v.skip(1))
    }
}

/// The characters that well-formed UTF-16 code units stand for.
pub open spec fn utf16_decode(v: Seq<u16>) -> Seq<char>
    decreases v.len(),
{
    if v.len() == 0 {
        seq![]
    } else if is_high_surrogate(v[0]) && v.len() >= 2 {
        seq![pair_value(v[0], v[1]) as char] + utf16_decode(v.skip(2))
    } else {
        seq![(v[0] as u32) as char] + utf16_decode(v.skip(1))
    }
}

/// Number of code units before the first terminating zero (all of them when
/// there is none).
pub open spec fn text_len(v: Seq<u16>) -> nat
    decreases v.len(),
{
    if v.len() == 0 || v[0] == 0 {
        0
    } else {
        1 + text_len(v.drop_first())
    }
}

/// The code units before the first terminating zero.
pub open spec fn text_units(v: Seq<u16>) -> Seq<u16> {
    v.take(text_len(v) as int)
}

/// `n` zero code units.
pub open spec fn zeros(n: nat) -> Seq<u16> {
    Seq::new(n, |i: int| 0u16)
}

/// Whether a code unit sequence holds no zero.
pub open spec fn no_zero(v: Seq<u16>) -> bool {
    forall|i: int| 0 <= i < v.len() ==> v[i] != 0
}

/// Whether a character sequence holds no NUL character.
pub open spec fn no_nul(s: Seq<char>) -> bool {
    forall|i: int| 0 <= i < s.len() ==> s[i] != '\0'
}

/// Ordinal comparison of code unit sequences: lexicographic by unit value,
/// a proper prefix ordered first.
pub open spec fn ordinal_cmp(a: Seq<u16>, b: Seq<u16>) -> Ordering
    decreases a.len(),
{
    if a.len() == 0 && b.len() == 0 {
        Ordering::Equal
    } else if a.len() == 0 {
        Ordering::Less
    } else if b.len() == 0 {
        Ordering::Greater
    } else if a[0] < b[0] {
        Ordering::Less
    } else if a[0] > b[0] {
        Ordering::Greater
    } else {
        ordinal_cmp(a.drop_first(), b.drop_first())
    }
}

/// Ordinal comparison finds two sequences equal exactly when they are.
pub proof fn lemma_ordinal_cmp_equal(a: Seq<u16>, b: Seq<u16>)
    ensures
        (ordinal_cmp(a, b) == Ordering::Equal) <==> a == b,
    decreases a.len(),
{
    if a.len() > 0 && b.len() > 0 && a[0] == b[0] {
        lemma_ordinal_cmp_equal(a.drop_first(), b.drop_first());
        if a.drop_first() == b.drop_first() {
            assert(a =~= seq![a[0]] + a.drop_first());
            assert(b =~= seq![b[0]] + b.drop_first());
        }
        if a == b {
            assert(a.drop_first() == b.drop_first());
        }
    } else if a.len() == 0 && b.len() == 0 {
        assert(a =~= b);
    } else if a.len() > 0 && b.len() > 0 {
        assert(a != b);
    }
}

/// Compares two code unit sequences by ordinal comparison.
pub(crate) fn compare_units(a: &[u16], b: &[u16]) -> (r: Ordering)
    ensures
        r == ordinal_cmp(a@, b@),
{
    let mut i: usize = 0;
    assert(a@.skip(0) =~= a@);
    assert(b@.skip(0) =~= b@);
    while i < a.len() && i < b.len()
        invariant
            i <= a@.len(),
            i <= b@.len(),
            ordinal_cmp(a@, b@) == ordinal_cmp(a@.skip(i as int), b@.skip(i as int)),
        decreases a@.len() - i,
    {
        if a[i] < b[i] {
            return Ordering::Less;
        } else if a[i] > b[i] {
            return Ordering::Greater;
        }
        assert(a@.skip(i as int).drop_first() =~= a@.skip(i + 1));
        assert(b@.skip(i as int).drop_first() =~= b@.skip(i + 1));
        i = i + 1;
    }
    if i < a.len() {
        Ordering::Greater
    } else if i < b.len() {
        Ordering::Less
    } else {
        Ordering::Equal
    }
}

/// `text_len` is the position of the first zero.
pub proof fn lemma_text_len(v: Seq<u16>)
    ensures
        text_len(v) <= v.len(),
        no_zero(v.take(text_len(v) as int)),
        text_len(v) < v.len() ==> v[text_len(v) as int] == 0,
    decreases v.len(),
{
    if v.len() > 0 && v[0] != 0 {
        lemma_text_len(v.drop_first());
        assert forall|i: int| 0 <= i < text_len(v) implies v[i] != 0 by {
            if i > 0 {
                let w = v.drop_first();
                assert(w.take(text_len(w) as int)[i - 1] == w[i - 1]);
                assert(v[i] == w[i - 1]);
            }
        }
        assert(v.take(text_len(v) as int).len() == text_len(v));
    }
}

/// A position before which no unit is zero, and at which the run ends or a
/// zero stands, is `text_len`.
pub proof fn lemma_text_len_at(v: Seq<u16>, k: int)
    requires
        0 <= k <= v.len(),
        no_zero(v.take(k)),
        k == v.len() || v[k] == 0,
    ensures
        text_len(v) == k,
    decreases k,
{
    if k > 0 {
        assert(v[0] == v.take(k)[0]);
        let w = v.drop_first();
        assert forall|i: int| 0 <= i < k - 1 implies #[trigger] w.take(k - 1)[i] != 0 by {
            assert(v.take(k)[i + 1] == v[i + 1]);
        }
        lemma_text_len_at(w, k - 1);
    }
}

/// The text of units followed by a zero is those units, when they hold no zero.
pub proof fn lemma_text_of_terminated(a: Seq<u16>, rest: Seq<u16>)
    requires
        no_zero(a),
        rest.len() > 0,
        rest[0] == 0,
    ensures
        text_len(a + rest) == a.len(),
        text_units(a + rest) == a,
{
    let v = a + rest;
    assert(v.take(a.len() as int) =~= a);
    lemma_text_len_at(v, a.len() as int);
}

/// The units of a character, and whether they hold a zero.
pub proof fn lemma_char_units(c: char)
    ensures
        1 <= char_units(c).len() <= 2,
        char_units(c).len() == 1 <==> (c as u32) < 0x10000,
        char_units(c).len() == 1 ==> !is_high_surrogate(char_units(c)[0]) && !is_low_surrogate(
            char_units(c)[0],
        ),
        char_units(c).len() == 2 ==> is_high_surrogate(char_units(c)[0]) && is_low_surrogate(
            char_units(c)[1],
        ),
        (char_units(c)[0] == 0) <==> c == '\0',
        char_units(c).len() == 2 ==> char_units(c)[1] != 0,
{
    char_is_scalar(c);
    let v = c as u32;
    char_u32_cast(c, v);
    char_u32_cast('\0', 0u32);
    if v >= 0x10000 {
        assert((v - 0x10000) / 0x400 < 0x400);
    }
}

/// Encoding is compatible with concatenation of a single character at the end.
pub proof fn lemma_encode_push(s: Seq<char>, c: char)
    ensures
        utf16_encode(s.push(c)) == utf16_encode(s) + char_units(c),
    decreases s.len(),
{
    if s.len() == 0 {
        assert(s.push(c).drop_first() =~= Seq::<char>::empty());
        assert(utf16_encode(Seq::<char>::empty()) == Seq::<u16>::empty());
        assert(char_units(c) + Seq::<u16>::empty() =~= char_units(c));
        assert(Seq::<u16>::empty() + char_units(c) =~= char_units(c));
    } else {
        assert(s.push(c).drop_first() =~= s.drop_first().push(c));
        lemma_encode_push(s.drop_first(), c);
        assert(s.push(c)[0] == s[0]);
        assert(char_units(s[0]) + (utf16_encode(s.drop_first()) + char_units(c)) =~= (char_units(
            s[0],
        ) + utf16_encode(s.drop_first())) + char_units(c));
    }
}

/// The encoding of text without NUL holds no zero unit, and conversely.
pub proof fn lemma_encode_no_zero(s: Seq<char>)
    ensures
        no_zero(utf16_encode(s)) <==> no_nul(s),
        utf16_encode(s).len() == 0 <==> s.len() == 0,
    decreases s.len(),
{
    if s.len() > 0 {
        let head = char_units(s[0]);
        let tail = utf16_encode(s.drop_first());
        lemma_char_units(s[0]);
        lemma_encode_no_zero(s.drop_first());
        let e = head + tail;
        if no_nul(s) {
            assert(no_nul(s.drop_first())) by {
                assert forall|i: int| 0 <= i < s.drop_first().len() implies s.drop_first()[i]
                    != '\0' by {
                    assert(s.drop_first()[i] == s[i + 1]);
                }
            }
            assert forall|i: int| 0 <= i < e.len() implies e[i] != 0 by {
                if i >= head.len() {
                    assert(e[i] == tail[i - head.len()]);
                }
            }
        }
        if no_zero(e) {
            assert(e[0] == head[0]);
            assert forall|i: int| 0 <= i < s.len() implies s[i] != '\0' by {
                if i > 0 {
                    assert(s[i] == s.drop_first()[i - 1]);
                    assert(no_zero(tail)) by {
                        assert forall|j: int| 0 <= j < tail.len() implies tail[j] != 0 by {
                            assert(e[j + head.len()] == tail[j]);
                        }
                    }
                }
            }
        }
    }
}

/// Decoding the units of one character, followed by anything, gives back
/// the character first.
proof fn lemma_decode_char(c: char, rest: Seq<u16>)
    ensures
        utf16_decode(char_units(c) + rest) == seq![c] + utf16_decode(rest),
        utf16_valid(char_units(c) + rest) == utf16_valid(rest),
{
    lemma_char_units(c);
    char_is_scalar(c);
    let v = c as u32;
    char_u32_cast(c, v);
    let e = char_units(c) + rest;
    if v < 0x10000 {
        assert(e.skip(1) =~= rest);
        assert(e[0] == v as u16);
        assert((e[0] as u32) == v);
    } else {
        assert(e.skip(2) =~= rest);
        let w = v - 0x10000;
        assert(0x400 * (w / 0x400) + w % 0x400 == w);
        assert(pair_value(e[0], e[1]) == v);
    }
}

/// Decoding an encoding gives back the characters, and the encoding is
/// well-formed.
pub proof fn lemma_decode_encode(s: Seq<char>)
    ensures
        utf16_valid(utf16_encode(s)),
        utf16_decode(utf16_encode(s)) == s,
    decreases s.len(),
{
    if s.len() > 0 {
        lemma_decode_encode(s.drop_first());
        lemma_decode_char(s[0], utf16_encode(s.drop_first()));
        assert(seq![s[0]] + s.drop_first() =~= s);
    }
}

/// What `String::from_utf16_lossy` makes of code units, malformed ones
/// included.
pub uninterp spec fn utf16_lossy(v: Seq<u16>) -> Seq<char>;

#[verifier::external_type_specification]
#[verifier::external_body]
pub struct ExFromUtf16Error(std::string::FromUtf16Error);

/// Relies on `String::from_utf16`: well-formed units decode to their
/// characters, and anything else is an error.
#[verifier::external_body]
pub(crate) fn decode_checked(v: &[u16]) -> (r: Result<String, std::string::FromUtf16Error>)
    ensures
        r is Ok <==> utf16_valid(v@),
        r matches Ok(t) ==> t@ == utf16_decode(v@),
{
    String::from_utf16(v)
}

/// Relies on `String::from_utf16_lossy`: malformed units become U+FFFD, and
/// well-formed ones decode to their characters.
#[verifier::external_body]
pub(crate) fn decode_lossy(v: &[u16]) -> (r: String)
    ensures
        r@ == utf16_lossy(v@),
        utf16_valid(v@) ==> r@ == utf16_decode(v@),
{
    String::from_utf16_lossy(v)
}

/// The characters that `char::to_lowercase` maps a character to.
pub uninterp spec fn lower_of(c: char) -> Seq<char>;

/// The characters that `char::to_uppercase` maps a character to.
pub uninterp spec fn upper_of(c: char) -> Seq<char>;

/// Relies on `char::to_lowercase`: the lowercase mapping of one character,
/// which may be several characters.
#[verifier::external_body]
pub(crate) fn lowercase_of(c: char) -> (r: String)
    ensures
        r@ == lower_of(c),
{
    c.to_lowercase().collect()
}

/// Relies on `char::to_uppercase`: the uppercase mapping of one character,
/// which may be several characters.
#[verifier::external_body]
pub(crate) fn uppercase_of(c: char) -> (r: String)
    ensures
        r@ == upper_of(c),
{
    c.to_uppercase().collect()
}

/// Relies on `char::from_u32`: the character of a scalar value, and `None`
/// for any other value.
#[verifier::external_body]
pub(crate) fn char_from_u32(v: u32) -> (r: Option<char>)
    ensures
        is_scalar(v) ==> r == Some(v as char),
        !is_scalar(v) ==> r is None,
{
    char::from_u32(v)
}

/// The case mapping of a character, to upper case or to lower case.
pub open spec fn case_of(c: char, upper: bool) -> Seq<char> {
    if upper {
        upper_of(c)
    } else {
        lower_of(c)
    }
}

/// The units of a character after in-place case mapping: those of its
/// mapping where that is one character of as many units, else its own.
pub open spec fn mapped_char_units(c: char, upper: bool) -> Seq<u16> {
    let m = case_of(c, upper);
    if m.len() == 1 && char_units(m[0]).len() == char_units(c).len() {
        char_units(m[0])
    } else {
        char_units(c)
    }
}

/// Code units after in-place case mapping: each character mapped as far as
/// its units stay as many; lone surrogates are left as they are.
pub open spec fn case_mapped(v: Seq<u16>, upper: bool) -> Seq<u16>
    decreases v.len(),
{
    if v.len() == 0 {
        seq![]
    } else if is_high_surrogate(v[0]) && v.len() >= 2 && is_low_surrogate(v[1]) {
        mapped_char_units(pair_value(v[0], v[1]) as char, upper) + case_mapped(v.skip(2), upper)
    } else if is_high_surrogate(v[0]) || is_low_surrogate(v[0]) {
        seq![v[0]] + case_mapped(v.skip(1), upper)
    } else {
        mapped_char_units((v[0] as u32) as char, upper) + case_mapped(v.skip(1), upper)
    }
}

/// A unit that is no surrogate is the character of its value.
pub proof fn lemma_single_unit(u: u16)
    requires
        !is_high_surrogate(u),
        !is_low_surrogate(u),
    ensures
        is_scalar(u as u32),
        char_units((u as u32) as char) == seq![u],
{
}

/// A surrogate pair is the units of the character it stands for.
pub proof fn lemma_pair_units(hi: u16, lo: u16)
    requires
        is_high_surrogate(hi),
        is_low_surrogate(lo),
    ensures
        is_scalar(pair_value(hi, lo)),
        char_units(pair_value(hi, lo) as char) == seq![hi, lo],
{
    let a = (hi - 0xD800) as int;
    let b = (lo - 0xDC00) as int;
    let w = a * 0x400 + b;
    assert(0 <= w < 0x100000) by (nonlinear_arith)
        requires
            0 <= a < 0x400,
            0 <= b < 0x400,
            w == a * 0x400 + b,
    ;
    vstd::arithmetic::div_mod::lemma_fundamental_div_mod_converse(w, 0x400, a, b);
    assert(char_units(pair_value(hi, lo) as char) =~= seq![hi, lo]);
}

/// The encoding of a single character is its units.
pub proof fn lemma_encode_one(c: char)
    ensures
        utf16_encode(seq![c]) == char_units(c),
{
    let s = seq![c];
    assert(s.drop_first() =~= Seq::<char>::empty());
    assert(utf16_encode(s.drop_first()) == Seq::<u16>::empty());
    assert(s[0] == c);
    assert(char_units(c) + Seq::<u16>::empty() =~= char_units(c));
}

/// The code units of one character.
pub(crate) fn encode_char(c: char) -> (r: Vec<u16>)
    ensures
        r@ == char_units(c),
{
    proof {
        char_is_scalar(c);
    }
    let mut out: Vec<u16> = Vec::new();
    let v: u32 = c as u32;
    if v < 0x10000 {
        out.push(v as u16);
    } else {
        let w: u32 = v - 0x10000;
        out.push((0xD800 + w / 0x400) as u16);
        out.push((0xDC00 + w % 0x400) as u16);
    }
    assert(out@ =~= char_units(c));
    out
}

/// The units of a character after in-place case mapping.
pub(crate) fn mapped_units_of(c: char, upper: bool) -> (r: Vec<u16>)
    ensures
        r@ == mapped_char_units(c, upper),
        r@.len() == char_units(c).len(),
{
    let own = encode_char(c);
    let m = if upper {
        uppercase_of(c)
    } else {
        lowercase_of(c)
    };
    if m.as_str().unicode_len() == 1 {
        let units = encode_str(m.as_str());
        proof {
            assert(m@ =~= seq![m@[0]]);
            lemma_encode_one(m@[0]);
        }
        if units.len() == own.len() {
            return units;
        }
    }
    own
}

/// The UTF-16 encoding of a string, without a terminator.
pub(crate) fn encode_str(s: &str) -> (r: Vec<u16>)
    ensures
        r@ == utf16_encode(s@),
{
    let mut out: Vec<u16> = Vec::new();
    let ghost chars = s@;
    for c in it: s.chars()
        invariant
            it.seq() == chars,
            out@ == utf16_encode(chars.take(it.index() as int)),
    {
        let ghost done = chars.take(it.index() as int);
        proof {
            lemma_encode_push(done, c);
            assert(chars.take(it.index() + 1) =~= done.push(c));
            char_is_scalar(c);
        }
        let v: u32 = c as u32;
        if v < 0x10000 {
            out.push(v as u16);
        } else {
            let w: u32 = v - 0x10000;
            out.push((0xD800 + w / 0x400) as u16);
            out.push((0xDC00 + w % 0x400) as u16);
        }
        proof {
            assert(out@ =~= utf16_encode(done) + char_units(c));
        }
    }
    proof {
        assert(chars.take(chars.len() as int) =~= chars);
    }
    out
}

} // verus!
