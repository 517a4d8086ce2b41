//! Conversions between native string layouts and Rust strings.

use vstd::prelude::*;
use crate::utf16::{
    decode_lossy, lemma_decode_encode, lemma_encode_no_zero, lemma_text_len, lemma_text_len_at,
    lemma_text_of_terminated, no_nul, no_zero, text_len, text_units, utf16_decode, utf16_encode,
    utf16_lossy, utf16_valid,
};
use crate::w_string::{
    copied_into, joined_units, laid_out, multi_units, str_units, wchars_units, WString,
};

verus! {

/// The strings of a multi-string block: the runs of code units between
/// terminators, up to the first empty one (two terminators in a row, or a
/// terminator at the start) or the end of the data, where a last run without
/// a terminator still counts.
pub open spec fn multi_parts(v: Seq<u16>) -> Seq<Seq<u16>>
    decreases v.len(),
{
    let k = text_len(v);
    if k == 0 {
        seq![]
    } else if k >= v.len() {
        seq![v]
    } else {
        seq![v.take(k as int)] + multi_parts(v.skip((k + 1) as int))
    }
}

/// The bytes of ISO-8859-1 text: each character's value cut to a byte, then
/// a terminating zero.
pub open spec fn iso88591_bytes(s: Seq<char>) -> Seq<u8> {
    Seq::new(s.len() + 1, |i: int| if i < s.len() { (s[i] as u32) as u8 } else { 0u8 })
}

/// Parses a multi-string block: strings each ending in a terminator, the
/// block ending in two. Reading stops at an empty string or at the end of
/// `src`; the strings are decoded with U+FFFD for malformed UTF-16.
pub fn parse_multi_z_str(src: &[u16]) -> (r: Vec<String>)
    ensures
        r@.len() == multi_parts(src@).len(),
        forall|i: int| 0 <= i < r@.len() ==> r@[i]@ == utf16_lossy(#[trigger] multi_parts(src@)[i]),
        forall|i: int|
            0 <= i < r@.len() && utf16_valid(#[trigger] multi_parts(src@)[i]) ==> r@[i]@
                == utf16_decode(multi_parts(src@)[i]),
{
    let mut out: Vec<String> = Vec::new();
    let ghost mut done: Seq<Seq<u16>> = seq![];
    let mut start: usize = 0;
    assert(src@.skip(0) =~= src@);
    assert(done + multi_parts(src@) =~= multi_parts(src@));
    loop
        invariant_except_break
            multi_parts(src@) == done + multi_parts(src@.skip(start as int)),
        invariant
            start <= src@.len(),
            out@.len() == done.len(),
            forall|i: int| 0 <= i < done.len() ==> out@[i]@ == utf16_lossy(#[trigger] done[i]),
            forall|i: int|
                0 <= i < done.len() && utf16_valid(#[trigger] done[i]) ==> out@[i]@
                    == utf16_decode(done[i]),
        ensures
            out@.len() == done.len(),
            forall|i: int| 0 <= i < done.len() ==> out@[i]@ == utf16_lossy(#[trigger] done[i]),
            forall|i: int|
                0 <= i < done.len() && utf16_valid(#[trigger] done[i]) ==> out@[i]@
                    == utf16_decode(done[i]),
            multi_parts(src@) == done,
        decreases src@.len() - start,
    {
        let ghost rest = src@.skip(start as int);
        let mut end: usize = start;
        while end < src.len() && src[end] != 0
            invariant
                start <= end <= src@.len(),
                rest == src@.skip(start as int),
                no_zero(rest.take(end - start)),
            decreases src@.len() - end,
        {
            assert(rest.take(end + 1 - start) =~= rest.take(end - start).push(rest[end - start]));
            end = end + 1;
        }
        proof {
            lemma_text_len_at(rest, end - start);
        }
        if end == start {
            assert(multi_parts(rest) == Seq::<Seq<u16>>::empty());
            assert(done + multi_parts(rest) =~= done);
            break;
        }
        let part = vstd::slice::slice_subrange(src, start, end);
        assert(part@ =~= rest.take(end - start));
        let text = decode_lossy(part);
        out.push(text);
        let ghost before = done;
        proof {
            done = done.push(part@);
        }
        assert(forall|i: int| 0 <= i < before.len() ==> done[i] == before[i]);
        if end == src.len() {
            assert(rest.take(end - start) =~= rest);
            assert(multi_parts(rest) == seq![rest]);
            assert(before + seq![rest] =~= done);
            break;
        }
        assert(rest.skip(end - start + 1) =~= src@.skip(end + 1));
        assert(before + (seq![part@] + multi_parts(src@.skip(end + 1))) =~= done + multi_parts(
            src@.skip(end + 1),
        ));
        start = end + 1;
    }
    out
}

/// Whether every string is non-empty and free of NUL characters, so that a
/// multi-string block can hold it.
pub open spec fn fit_for_block(ss: Seq<Seq<char>>) -> bool {
    forall|i: int| 0 <= i < ss.len() ==> #[trigger] ss[i].len() > 0 && no_nul(ss[i])
}

/// The terminated strings of a block can be read off one at a time from the
/// front.
proof fn lemma_joined_front(ss: Seq<Seq<char>>)
    requires
        ss.len() > 0,
    ensures
        joined_units(ss) == utf16_encode(ss[0]) + seq![0u16] + joined_units(ss.drop_first()),
    decreases ss.len(),
{
    if ss.len() == 1 {
        assert(ss.drop_last() =~= Seq::<Seq<char>>::empty());
        assert(ss.drop_first() =~= Seq::<Seq<char>>::empty());
        assert(joined_units(ss) =~= utf16_encode(ss[0]) + seq![0u16] + joined_units(
            ss.drop_first(),
        ));
    } else {
        lemma_joined_front(ss.drop_last());
        assert(ss.drop_first().drop_last() =~= ss.drop_last().drop_first());
        assert(ss.drop_first().last() == ss.last());
        assert(ss.drop_last()[0] == ss[0]);
        assert(joined_units(ss) =~= utf16_encode(ss[0]) + seq![0u16] + joined_units(
            ss.drop_first(),
        ));
    }
}

/// Reading the block made of `ss`, followed by anything that starts with a
/// terminator, gives the encodings of `ss`.
proof fn lemma_parts_of_joined(ss: Seq<Seq<char>>, tail: Seq<u16>)
    requires
        fit_for_block(ss),
        tail.len() > 0,
        tail[0] == 0,
    ensures
        multi_parts(joined_units(ss) + tail).len() == ss.len(),
        forall|i: int|
            0 <= i < ss.len() ==> #[trigger] multi_parts(joined_units(ss) + tail)[i]
                == utf16_encode(ss[i]),
    decreases ss.len(),
{
    let v = joined_units(ss) + tail;
    if ss.len() == 0 {
        assert(v =~= tail);
        lemma_text_len_at(v, 0);
    } else {
        let e = utf16_encode(ss[0]);
        let rest = ss.drop_first();
        lemma_joined_front(ss);
        lemma_encode_no_zero(ss[0]);
        let after = joined_units(rest) + tail;
        assert(v =~= e + (seq![0u16] + after));
        lemma_text_of_terminated(e, seq![0u16] + after);
        assert(fit_for_block(rest)) by {
            assert forall|i: int| 0 <= i < rest.len() implies #[trigger] rest[i].len() > 0
                && no_nul(rest[i]) by {
                assert(rest[i] == ss[i + 1]);
            }
        }
        lemma_parts_of_joined(rest, tail);
        assert(v.take(e.len() as int) =~= e);
        assert(v.skip((e.len() + 1) as int) =~= after);
        assert forall|i: int| 0 <= i < ss.len() implies #[trigger] multi_parts(v)[i]
            == utf16_encode(ss[i]) by {
            if i > 0 {
                assert(multi_parts(v)[i] == multi_parts(after)[i - 1]);
                assert(rest[i - 1] == ss[i]);
            }
        }
    }
}

/// A multi-string block built from strings reads back as those strings,
/// when each is non-empty and free of NUL characters (an empty one would
/// end the block early).
pub proof fn lemma_multi_string_round_trip(ss: Seq<Seq<char>>, w: WString)
    requires
        fit_for_block(ss),
        w.stores(multi_units(ss), false),
    ensures
        multi_parts(w@).len() == ss.len(),
        forall|i: int|
            0 <= i < ss.len() ==> utf16_valid(#[trigger] multi_parts(w@)[i]) && utf16_decode(
                multi_parts(w@)[i],
            ) == ss[i],
{
    if ss.len() == 0 {
        lemma_text_len_at(w@, 0);
    } else {
        let units = multi_units(ss);
        let tail = w@.skip(joined_units(ss).len() as int);
        assert(w@ =~= joined_units(ss) + tail);
        assert(tail[0] == units[joined_units(ss).len() as int]);
        lemma_parts_of_joined(ss, tail);
        assert forall|i: int| 0 <= i < ss.len() implies utf16_valid(
            #[trigger] multi_parts(w@)[i],
        ) && utf16_decode(multi_parts(w@)[i]) == ss[i] by {
            lemma_decode_encode(ss[i]);
        }
    }
}

/// The units of the buffer that `WString::from_str` makes for `s`.
pub open spec fn str_buffer(s: Seq<char>) -> Seq<u16> {
    if s.len() == 0 {
        seq![]
    } else {
        laid_out(str_units(s), false)
    }
}

/// What a fixed-size UTF-16 field of `n` units holds once set to `s`: the
/// text's units, cut to leave room for the terminator, then zeros.
pub open spec fn str_arr_units(s: Seq<char>, n: nat) -> Seq<u16> {
    copied_into(str_buffer(s), n)
}

/// Reads the text of a fixed-size UTF-16 field: the units before its first
/// terminator, decoded with U+FFFD for malformed UTF-16.
pub fn string_from_arr(arr: &[u16]) -> (r: String)
    ensures
        r@ == utf16_lossy(text_units(arr@)),
        utf16_valid(text_units(arr@)) ==> r@ == utf16_decode(text_units(arr@)),
{
    let w = WString::from_wchars_slice(arr);
    proof {
        if arr@.len() == 0 {
            lemma_text_len_at(w@, 0);
            assert(w.text() =~= text_units(arr@));
        } else {
            let t = text_units(arr@);
            lemma_text_len(arr@);
            assert(w@ =~= t + w@.skip(t.len() as int));
            assert(w@.skip(t.len() as int)[0] == wchars_units(arr@)[t.len() as int]);
            lemma_text_of_terminated(t, w@.skip(t.len() as int));
        }
    }
    w.to_string()
}

/// Sets a fixed-size UTF-16 field to `text`, cut where it does not fit and
/// always terminated (an empty field is left alone).
pub fn copy_str_to_arr(text: &str, arr: &mut [u16])
    ensures
        final(arr)@ == str_arr_units(text@, old(arr)@.len()),
{
    let w = WString::from_str(text);
    proof {
        if text@.len() == 0 {
            assert(w@ =~= str_buffer(text@));
        }
    }
    w.copy_to_slice(arr);
}

/// A text that fits a fixed-size field with its terminator, and holds no NUL
/// character, reads back from the field as it was set.
pub proof fn lemma_str_arr_round_trip(s: Seq<char>, n: nat)
    requires
        no_nul(s),
        utf16_encode(s).len() + 1 <= n,
    ensures
        utf16_valid(text_units(str_arr_units(s, n))),
        utf16_decode(text_units(str_arr_units(s, n))) == s,
{
    let e = utf16_encode(s);
    let v = str_arr_units(s, n);
    lemma_encode_no_zero(s);
    lemma_decode_encode(s);
    if s.len() > 0 {
        assert forall|i: int| 0 <= i < e.len() implies v[i] == e[i] by {
            assert(str_buffer(s)[i] == str_units(s)[i]);
        }
    }
    assert(v =~= e + v.skip(e.len() as int));
    assert(v.skip(e.len() as int)[0] == v[e.len() as int]);
    lemma_text_of_terminated(e, v.skip(e.len() as int));
}

/// Converts a string to an ISO-8859-1 null-terminated byte array; each
/// character's value is cut to its low byte.
pub fn str_to_iso88591(s: &str) -> (r: Vec<u8>)
    ensures
        r@ == iso88591_bytes(s@),
{
    let mut out: Vec<u8> = Vec::new();
    let ghost chars = s@;
    for c in it: s.chars()
        invariant
            it.seq() == chars,
            out@ == iso88591_bytes(chars).take(it.index() as int),
    {
        out.push((c as u32) as u8);
        assert(out@ =~= iso88591_bytes(chars).take(it.index() + 1));
    }
    out.push(0);
    assert(out@ =~= iso88591_bytes(chars));
    out
}

} // verus!
