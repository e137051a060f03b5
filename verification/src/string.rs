//! Marshaling between native strings and the foreign runtime's UTF-16
//! representation.
//!
//! Encoding and decoding are written out and verified here: the encoder
//! produces exactly [`utf16_of`] of the input text, the decoder recovers
//! exactly [`utf16_decode`] of the code units, and
//! [`lemma_utf16_round_trip`] proves that decoding an encoded string gives
//! the original text back — for every string, including the empty one and
//! text outside the basic plane.

use vstd::prelude::*;

use vstd::string::StrSliceExecFns;
use vstd::utf8::char_is_scalar;
use vstd::utf8::char_u32_cast;

use crate::error::{CefError, CefResult};
use crate::runtime::Runtime;

verus! {

/// One scalar value's UTF-16 encoding: a single unit inside the basic
/// plane, a surrogate pair beyond it.
pub open spec fn utf16_of_char(c: char) -> Seq<u16> {
    let v = c as u32;
    if v < 0x10000 {
        seq![v as u16]
    } else {
        let w = v - 0x10000;
        seq![(0xD800 + w / 0x400) as u16, (0xDC00 + w % 0x400) as u16]
    }
}

/// The UTF-16 encoding of a text, character by character.
pub open spec fn utf16_of(s: Seq<char>) -> Seq<u16>
    decreases s.len(),
{
    if s.len() == 0 {
        Seq::empty()
    } else {
        utf16_of_char(s[0]) + utf16_of(s.drop_first())
    }
}

/// UTF-16 decoding with replacement: a high surrogate followed by a low
/// surrogate decodes as one supplementary character; any unit that is not
/// part of such a pair and is itself a surrogate becomes U+FFFD.
pub open spec fn utf16_decode(u: Seq<u16>) -> Seq<char>
    decreases u.len(),
{
    if u.len() == 0 {
        Seq::empty()
    } else {
        let w0 = u[0] as int;
        if w0 < 0xD800 || w0 >= 0xE000 {
            seq![(w0 as u32) as char] + utf16_decode(u.drop_first())
        } else if w0 < 0xDC00 && u.len() >= 2 && 0xDC00 <= u[1] as int && (u[1] as int) < 0xE000 {
            let cp = 0x10000 + (w0 - 0xD800) * 0x400 + (u[1] as int - 0xDC00);
            seq![(cp as u32) as char] + utf16_decode(u.skip(2))
        } else {
            seq!['\u{fffd}'] + utf16_decode(u.drop_first())
        }
    }
}

/// Appending one character appends exactly its encoding.
pub proof fn lemma_utf16_of_push(s: Seq<char>, c: char)
    ensures
        utf16_of(s.push(c)) == utf16_of(s) + utf16_of_char(c),
    decreases s.len(),
{
    if s.len() == 0 {
        let t = s.push(c);
        assert(t.drop_first() =~= Seq::<char>::empty());
        assert(utf16_of(t.drop_first()) == Seq::<u16>::empty());
        assert(t[0] == c);
        assert(utf16_of(t) == utf16_of_char(c) + utf16_of(t.drop_first()));
        assert(utf16_of(t) =~= utf16_of(s) + utf16_of_char(c));
    } else {
        lemma_utf16_of_push(s.drop_first(), c);
        assert(s.push(c).drop_first() =~= s.drop_first().push(c));
        assert(s.push(c)[0] == s[0]);
        assert(utf16_of_char(s[0]) + (utf16_of(s.drop_first()) + utf16_of_char(c)) =~= (
        utf16_of_char(s[0]) + utf16_of(s.drop_first())) + utf16_of_char(c));
    }
}

/// Round trip: decoding the encoding of any text yields the text itself.
/// This holds because native characters are Unicode scalar values, so an
/// encoder output never contains a stray surrogate.
pub proof fn lemma_utf16_round_trip(s: Seq<char>)
    ensures
        utf16_decode(utf16_of(s)) == s,
    decreases s.len(),
{
    if s.len() == 0 {
        assert(utf16_decode(utf16_of(s)) =~= s);
    } else {
        let c = s[0];
        char_is_scalar(c);
        let v = c as u32;
        lemma_utf16_round_trip(s.drop_first());
        let u = utf16_of(s);
        assert(u == utf16_of_char(c) + utf16_of(s.drop_first()));
        if v < 0x10000 {
            assert(u[0] == v as u16);
            assert(u.drop_first() =~= utf16_of(s.drop_first()));
            char_u32_cast(c, v);
            assert(utf16_decode(u) =~= seq![c] + utf16_decode(utf16_of(s.drop_first())));
            assert(seq![c] + s.drop_first() =~= s);
        } else {
            let w = v - 0x10000;
            vstd::arithmetic::div_mod::lemma_fundamental_div_mod(w as int, 0x400);
            vstd::arithmetic::div_mod::lemma_mod_bound(w as int, 0x400);
            let hi = 0xD800 + w as int / 0x400;
            let lo = 0xDC00 + w as int % 0x400;
            assert(utf16_of_char(c) == seq![hi as u16, lo as u16]);
            assert(0xD800 <= hi < 0xDC00);
            assert(0xDC00 <= lo < 0xE000);
            assert(u[0] == hi as u16 && u[1] == lo as u16);
            assert(u.skip(2) =~= utf16_of(s.drop_first()));
            let cp = 0x10000 + (hi - 0xD800) * 0x400 + (lo - 0xDC00);
            assert(cp == v);
            char_u32_cast(c, v);
            assert(utf16_decode(u) =~= seq![c] + utf16_decode(utf16_of(s.drop_first())));
            assert(seq![c] + s.drop_first() =~= s);
        }
    }
}

/// Relies on `char::from_u32` of std: it returns the character with the
/// given code point, and `None` exactly for surrogate and out-of-range
/// codes.
pub assume_specification[ char::from_u32 ](v: u32) -> (r: Option<char>)
    ensures
        r is Some <==> (v < 0xD800 || (0xE000 <= v && v <= 0x10FFFF)),
        r matches Some(c) ==> c as u32 == v,
;

/// Relies on `String::push` of std: it appends the given character to the
/// end of the string.
pub assume_specification[ String::push ](s: &mut String, c: char)
    ensures
        final(s)@ == old(s)@.push(c),
;

/// The character with the given scalar code point.
pub(crate) fn char_from_code(v: u32) -> (c: char)
    requires
        v < 0xD800 || (0xE000 <= v && v <= 0x10FFFF),
    ensures
        c as u32 == v,
{
    match char::from_u32(v) {
        Some(c) => c,
        None => vstd::pervasive::unreached(),
    }
}

/// The foreign runtime's owned UTF-16 string: the buffer that
/// `cef_string_utf16_set` fills, freed again when the value is dropped.
pub struct CefString16 {
    pub units: Vec<u16>,
}

impl CefString16 {
    /// Encode a native string into the runtime's UTF-16 representation.
    /// Fails with `StringConversionFailed` exactly when the runtime's
    /// string-set entry point reports failure.
    pub fn from_str(rt: &Runtime, s: &str) -> (r: CefResult<CefString16>)
        ensures
            rt.string_set_ok ==> (r matches Ok(cs) && cs.units@ == utf16_of(s@)),
            !rt.string_set_ok ==> (r matches Err(e) && e is StringConversionFailed),
    {
        let units = encode_utf16_units(s);
        if rt.string_set_ok {
            Ok(CefString16 { units })
        } else {
            Err(CefError::StringConversionFailed)
        }
    }
}

/// The UTF-16 code units of a native string, exactly [`utf16_of`] its text.
fn encode_utf16_units(s: &str) -> (r: Vec<u16>)
    ensures
        r@ == utf16_of(s@),
{
    let n = s.unicode_len();
    let mut r: Vec<u16> = Vec::new();
    let mut i: usize = 0;
    while i < n
        invariant
            n == s@.len(),
            i <= n,
            r@ == utf16_of(s@.take(i as int)),
        decreases n - i,
    {
        let c = s.get_char(i);
        proof {
            char_is_scalar(c);
        }
        let v = c as u32;
        if v < 0x10000 {
            r.push(v as u16);
        } else {
            let w = v - 0x10000;
            proof {
                vstd::arithmetic::div_mod::lemma_fundamental_div_mod(w as int, 0x400);
                vstd::arithmetic::div_mod::lemma_mod_bound(w as int, 0x400);
            }
            r.push(0xD800u16 + (w / 0x400) as u16);
            r.push(0xDC00u16 + (w % 0x400) as u16);
        }
        proof {
            assert(s@.take(i + 1) =~= s@.take(i as int).push(s@[i as int]));
            lemma_utf16_of_push(s@.take(i as int), s@[i as int]);
        }
        i = i + 1;
    }
    proof {
        assert(s@.take(n as int) =~= s@);
    }
    r
}

/// Decode the runtime's UTF-16 representation into a native string, without
/// freeing the buffer. Exactly [`utf16_decode`] of the code units.
pub fn string_from_cef(s: &CefString16) -> (r: String)
    ensures
        r@ == utf16_decode(s.units@),
{
    let n = s.units.len();
    let mut out = String::new();
    let mut i: usize = 0;
    proof {
        assert(s.units@.skip(0) =~= s.units@);
        assert(out@ + utf16_decode(s.units@) =~= utf16_decode(s.units@));
    }
    while i < n
        invariant
            n == s.units@.len(),
            i <= n,
            utf16_decode(s.units@) == out@ + utf16_decode(s.units@.skip(i as int)),
        decreases n - i,
    {
        let ghost pre = out@;
        let ghost tail = s.units@.skip(i as int);
        let w0 = s.units[i];
        if w0 < 0xD800 || w0 >= 0xE000 {
            let c = char_from_code(w0 as u32);
            out.push(c);
            proof {
                assert(tail[0] == w0);
                assert(tail.drop_first() =~= s.units@.skip(i + 1));
                assert(utf16_decode(tail) == seq![c] + utf16_decode(s.units@.skip(i + 1)));
                assert(out@ =~= pre.push(c));
                assert(pre + utf16_decode(tail) =~= out@ + utf16_decode(s.units@.skip(i + 1)));
            }
            i = i + 1;
        } else if w0 < 0xDC00 && i + 1 < n && s.units[i + 1] >= 0xDC00 && s.units[i + 1]
            < 0xE000 {
            let w1 = s.units[i + 1];
            let cp: u32 = 0x10000 + ((w0 as u32 - 0xD800) * 0x400) + (w1 as u32 - 0xDC00);
            let c = char_from_code(cp);
            out.push(c);
            proof {
                assert(tail[0] == w0 && tail[1] == w1);
                assert(tail.skip(2) =~= s.units@.skip(i + 2));
                assert(utf16_decode(tail) == seq![c] + utf16_decode(s.units@.skip(i + 2)));
                assert(out@ =~= pre.push(c));
                assert(pre + utf16_decode(tail) =~= out@ + utf16_decode(s.units@.skip(i + 2)));
            }
            i = i + 2;
        } else {
            let c = char_from_code(0xFFFD);
            out.push(c);
            proof {
                assert(tail[0] == w0);
                assert(tail.drop_first() =~= s.units@.skip(i + 1));
                assert(c == '\u{fffd}') by {
                    char_u32_cast(c, 0xFFFD);
                    char_u32_cast('\u{fffd}', 0xFFFD);
                }
                assert(utf16_decode(tail) == seq![c] + utf16_decode(s.units@.skip(i + 1)));
                assert(out@ =~= pre.push(c));
                assert(pre + utf16_decode(tail) =~= out@ + utf16_decode(s.units@.skip(i + 1)));
            }
            i = i + 1;
        }
    }
    proof {
        assert(s.units@.skip(n as int) =~= Seq::<u16>::empty());
        assert(out@ + utf16_decode(s.units@.skip(n as int)) =~= out@);
    }
    out
}

/// Decode an owned ("userfree") foreign string and free it; a null pointer
/// decodes as the empty string. Taking the value by `Option` stands for the
/// nullable pointer, and dropping it stands for the free.
pub fn string_from_cef_userfree(cef_str: Option<CefString16>) -> (r: String)
    ensures
        match cef_str {
            None => r@ == Seq::<char>::empty(),
            Some(cs) => r@ == utf16_decode(cs.units@),
        },
{
    match cef_str {
        None => String::new(),
        Some(cs) => string_from_cef(&cs),
    }
}

} // verus!
