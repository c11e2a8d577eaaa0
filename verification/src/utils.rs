use vstd::prelude::*;
use crate::error::STATUS_SUCCESS;

verus! {

/// A UTF-16 code unit in 0xD800..=0xDBFF, the first half of a surrogate pair.
pub open spec fn is_high_surrogate(u: u16) -> bool {
    0xD800 <= u <= 0xDBFF
}

/// A UTF-16 code unit in 0xDC00..=0xDFFF, the second half of a surrogate pair.
pub open spec fn is_low_surrogate(u: u16) -> bool {
    0xDC00 <= u <= 0xDFFF
}

/// The UTF-16 code units of one character: the scalar value itself below
/// 0x10000, else a high and a low surrogate.
pub open spec fn utf16_of_char(c: char) -> Seq<u16> {
    let v = c as int;
    if v < 0x10000 {
        seq![v as u16]
    } else {
        seq![(0xD800 + (v - 0x10000) / 0x400) as u16, (0xDC00 + (v - 0x10000) % 0x400) as u16]
    }
}

/// The UTF-16 encoding of a character sequence.
pub open spec fn utf16_encode(s: Seq<char>) -> Seq<u16>
    decreases s.len(),
{
    if s.len() == 0 {
        Seq::empty()
    } else {
        utf16_of_char(s[0]) + utf16_encode(s.drop_first())
    }
}

/// Lossy UTF-16 decoding: a high surrogate followed by a low one is one
/// character; any other surrogate becomes U+FFFD; other units are characters.
pub open spec fn utf16_decode_lossy(u: Seq<u16>) -> Seq<char>
    decreases u.len(),
{
    if u.len() == 0 {
        Seq::empty()
    } else if is_high_surrogate(u[0]) && u.len() >= 2 && is_low_surrogate(u[1]) {
        seq![(0x10000 + (u[0] - 0xD800) * 0x400 + (u[1] - 0xDC00)) as char]
            + utf16_decode_lossy(u.skip(2))
    } else if is_high_surrogate(u[0]) || is_low_surrogate(u[0]) {
        seq!['\u{FFFD}'] + utf16_decode_lossy(u.skip(1))
    } else {
        seq![u[0] as char] + utf16_decode_lossy(u.skip(1))
    }
}

/// Encoding one more character appends its code units.
pub proof fn lemma_utf16_encode_push(s: Seq<char>, c: char)
    ensures
        utf16_encode(s.push(c)) == utf16_encode(s) + utf16_of_char(c),
    decreases s.len(),
{
    if s.len() == 0 {
        assert(s.push(c).drop_first() =~= Seq::<char>::empty());
        assert(utf16_encode(s.push(c)) =~= utf16_of_char(c) + utf16_encode(Seq::<char>::empty()));
    } else {
        assert(s.push(c).drop_first() =~= s.drop_first().push(c));
        lemma_utf16_encode_push(s.drop_first(), c);
        assert(utf16_encode(s.push(c)) =~= utf16_of_char(s[0]) + (utf16_encode(s.drop_first())
            + utf16_of_char(c)));
    }
}

/// Decoding the code units of one character, followed by anything, yields
/// that character first.
pub proof fn lemma_utf16_decode_char(c: char, rest: Seq<u16>)
    ensures
        utf16_decode_lossy(utf16_of_char(c) + rest) == seq![c] + utf16_decode_lossy(rest),
{
    let u = utf16_of_char(c) + rest;
    let v = c as int;
    if v < 0x10000 {
        assert(u[0] == v as u16);
        assert(u.skip(1) =~= rest);
        assert((u[0] as int) as char == c);
    } else {
        let w = v - 0x10000;
        assert(0 <= w / 0x400 < 0x400);
        assert(u[0] == (0xD800 + w / 0x400) as u16);
        assert(u[1] == (0xDC00 + w % 0x400) as u16);
        assert(u.skip(2) =~= rest);
        assert(w == (w / 0x400) * 0x400 + w % 0x400);
        assert((0x10000 + (u[0] - 0xD800) * 0x400 + (u[1] - 0xDC00)) == v);
    }
}

/// Lossy decoding gives back every string that was encoded.
pub proof fn lemma_utf16_roundtrip(s: Seq<char>)
    ensures
        utf16_decode_lossy(utf16_encode(s)) == s,
    decreases s.len(),
{
    if s.len() > 0 {
        lemma_utf16_roundtrip(s.drop_first());
        lemma_utf16_decode_char(s[0], utf16_encode(s.drop_first()));
        assert(seq![s[0]] + s.drop_first() =~= s);
    }
}

/// The number of code units a counted string covers: all of them, less a
/// trailing NUL terminator if there is one.
pub open spec fn visible_units(buffer: Seq<u16>) -> nat {
    if buffer.len() > 0 && buffer.last() == 0 {
        (buffer.len() - 1) as nat
    } else {
        buffer.len()
    }
}

/// A byte count as the 16-bit field of a counted string holds it (wrapping).
pub open spec fn byte_count_u16(units: nat) -> u16 {
    ((2 * units) % 0x10000) as u16
}

/// A counted UTF-16 string: the byte length of the text, the byte length of
/// the buffer, and the buffer of code units.
pub struct UnicodeString {
    pub length: u16,
    pub maximum_length: u16,
    pub buffer: Vec<u16>,
}

/// `u` is the counted UTF-16 form of `s`: its buffer is the encoding of `s`,
/// `length` counts the bytes before a trailing NUL, `maximum_length` all bytes.
pub open spec fn counted_string_of(u: UnicodeString, s: Seq<char>) -> bool {
    &&& u.buffer@ == utf16_encode(s)
    &&& u.length == byte_count_u16(visible_units(u.buffer@))
    &&& u.maximum_length == byte_count_u16(u.buffer@.len())
}

/// Appends the UTF-16 code units of `c`.
fn push_utf16(out: &mut Vec<u16>, c: char)
    ensures
        final(out)@ == old(out)@ + utf16_of_char(c),
{
    let v: u32 = c as u32;
    if v < 0x10000 {
        out.push(v as u16);
    } else {
        let w: u32 = v - 0x10000;
        out.push((0xD800 + w / 0x400) as u16);
        out.push((0xDC00 + w % 0x400) as u16);
    }
    assert(out@ =~= old(out)@ + utf16_of_char(c));
}

/// The counted UTF-16 form of a string. A trailing NUL in `rust_str` stays in
/// the buffer and counts toward `maximum_length` but not toward `length`.
pub fn create_unicode_string(rust_str: &str) -> (u: UnicodeString)
    ensures
        counted_string_of(u, rust_str@),
        u.maximum_length == (2 * u.buffer@.len()) % 0x10000,
        rust_str@.len() == 0 || rust_str@.last() != '\0' ==> u.length == u.maximum_length,
        rust_str@.len() > 0 && rust_str@.last() == '\0' && 2 * u.buffer@.len() < 0x10000
            ==> u.length + 2 == u.maximum_length,
{
    let mut result: Vec<u16> = Vec::new();
    let ghost chars = rust_str@;
    for c in it: rust_str.chars()
        invariant
            it.seq() == chars,
            result@ == utf16_encode(chars.take(it.index() as int)),
    {
        assert(c == chars[it.index() as int]);
        proof {
            assert(chars.take(it.index() as int + 1) =~= chars.take(it.index() as int).push(c));
            lemma_utf16_encode_push(chars.take(it.index() as int), c);
        }
        push_utf16(&mut result, c);
    }
    proof {
        assert(chars.take(chars.len() as int) =~= chars);
    }
    let len: usize = result.len();
    let n: usize = if len > 0 && result[len - 1] == 0 {
        len - 1
    } else {
        len
    };
    let u = UnicodeString {
        length: (n % 0x8000) as u16 * 2,
        maximum_length: (len % 0x8000) as u16 * 2,
        buffer: result,
    };
    proof {
        if chars.len() == 0 || chars.last() != '\0' {
            lemma_unterminated_lengths(u, chars);
        } else if 2 * u.buffer@.len() < 0x10000 {
            lemma_nul_terminated_lengths(u, chars);
        }
    }
    u
}

/// The counted form of a NUL-terminated string whose byte count fits in 16
/// bits: the NUL counts toward `maximum_length` only, so `length` is two bytes
/// short of it.
pub proof fn lemma_nul_terminated_lengths(u: UnicodeString, s: Seq<char>)
    requires
        counted_string_of(u, s),
        s.len() > 0,
        s.last() == '\0',
        2 * u.buffer@.len() < 0x10000,
    ensures
        u.length + 2 == u.maximum_length,
        u.maximum_length == 2 * utf16_encode(s).len(),
{
    lemma_utf16_encode_push(s.drop_last(), s.last());
    assert(s.drop_last().push(s.last()) =~= s);
    assert(u.buffer@.last() == 0);
}

/// The last code unit of a character's encoding is zero only for NUL.
pub proof fn lemma_utf16_last_unit(c: char)
    ensures
        (utf16_of_char(c).last() == 0) <==> (c == '\0'),
{
    let v = c as int;
    if v >= 0x10000 {
        assert(0 <= (v - 0x10000) % 0x400 < 0x400);
    } else if v == 0 {
        assert(c == '\0');
    }
}

/// The counted form of a string that does not end in NUL counts every code
/// unit in both lengths: `length` and `maximum_length` are both twice the
/// number of UTF-16 units, wrapped to 16 bits.
pub proof fn lemma_unterminated_lengths(u: UnicodeString, s: Seq<char>)
    requires
        counted_string_of(u, s),
        s.len() == 0 || s.last() != '\0',
    ensures
        u.length == u.maximum_length,
        u.maximum_length == (2 * utf16_encode(s).len()) % 0x10000,
{
    if s.len() > 0 {
        lemma_utf16_encode_push(s.drop_last(), s.last());
        assert(s.drop_last().push(s.last()) =~= s);
        lemma_utf16_last_unit(s.last());
        assert(u.buffer@.last() == utf16_of_char(s.last()).last());
    }
}

/// The build number of the running Windows from the version query: the build
/// number it reported when the query returned `STATUS_SUCCESS`, else none.
pub fn version_info(status: i32, build_number: u32) -> (build: Option<u32>)
    ensures
        build == (if status == STATUS_SUCCESS { Some(build_number) } else { None::<u32> }),
{
    if status == STATUS_SUCCESS {
        Some(build_number)
    } else {
        None
    }
}

} // verus!
