//! Decoding of fixed-width, NUL-padded text embedded in raw layouts.
//!
//! Simulator layouts carry names as fixed-size byte arrays in a single-byte
//! legacy codepage (Windows-1252): the bytes up to the first NUL are the text,
//! the rest is padding.  Decoding maps each byte to its Unicode character;
//! the five code points the codepage leaves undefined make the whole field
//! undecodable, and callers then use the empty string rather than failing.

use vstd::prelude::*;

verus! {

/// Relies on `String::push` from std: appends the given character to the end
/// of the string.
pub assume_specification[ String::push ](s: &mut String, c: char)
    ensures
        final(s)@ == old(s)@.push(c),
;

/// The Unicode character a Windows-1252 byte denotes, or `None` for the five
/// bytes the codepage leaves undefined.  Bytes below 0x80 and from 0xA0 up
/// map to the same code point; 0x80..=0x9F hold the codepage's specials.
pub open spec fn cp1252_char(b: u8) -> Option<char> {
    if b < 0x80 || b >= 0xA0 {
        Some(b as char)
    } else if b == 0x80 {
        Some('\u{20AC}')
    } else if b == 0x82 {
        Some('\u{201A}')
    } else if b == 0x83 {
        Some('\u{0192}')
    } else if b == 0x84 {
        Some('\u{201E}')
    } else if b == 0x85 {
        Some('\u{2026}')
    } else if b == 0x86 {
        Some('\u{2020}')
    } else if b == 0x87 {
        Some('\u{2021}')
    } else if b == 0x88 {
        Some('\u{02C6}')
    } else if b == 0x89 {
        Some('\u{2030}')
    } else if b == 0x8A {
        Some('\u{0160}')
    } else if b == 0x8B {
        Some('\u{2039}')
    } else if b == 0x8C {
        Some('\u{0152}')
    } else if b == 0x8E {
        Some('\u{017D}')
    } else if b == 0x91 {
        Some('\u{2018}')
    } else if b == 0x92 {
        Some('\u{2019}')
    } else if b == 0x93 {
        Some('\u{201C}')
    } else if b == 0x94 {
        Some('\u{201D}')
    } else if b == 0x95 {
        Some('\u{2022}')
    } else if b == 0x96 {
        Some('\u{2013}')
    } else if b == 0x97 {
        Some('\u{2014}')
    } else if b == 0x98 {
        Some('\u{02DC}')
    } else if b == 0x99 {
        Some('\u{2122}')
    } else if b == 0x9A {
        Some('\u{0161}')
    } else if b == 0x9B {
        Some('\u{203A}')
    } else if b == 0x9C {
        Some('\u{0153}')
    } else if b == 0x9E {
        Some('\u{017E}')
    } else if b == 0x9F {
        Some('\u{0178}')
    } else {
        None
    }
}

/// Decodes one byte; see [`cp1252_char`].
pub fn cp1252_char_of(b: u8) -> (r: Option<char>)
    ensures
        r == cp1252_char(b),
{
    if b < 0x80 || b >= 0xA0 {
        Some(b as char)
    } else if b == 0x80 {
        Some('\u{20AC}')
    } else if b == 0x82 {
        Some('\u{201A}')
    } else if b == 0x83 {
        Some('\u{0192}')
    } else if b == 0x84 {
        Some('\u{201E}')
    } else if b == 0x85 {
        Some('\u{2026}')
    } else if b == 0x86 {
        Some('\u{2020}')
    } else if b == 0x87 {
        Some('\u{2021}')
    } else if b == 0x88 {
        Some('\u{02C6}')
    } else if b == 0x89 {
        Some('\u{2030}')
    } else if b == 0x8A {
        Some('\u{0160}')
    } else if b == 0x8B {
        Some('\u{2039}')
    } else if b == 0x8C {
        Some('\u{0152}')
    } else if b == 0x8E {
        Some('\u{017D}')
    } else if b == 0x91 {
        Some('\u{2018}')
    } else if b == 0x92 {
        Some('\u{2019}')
    } else if b == 0x93 {
        Some('\u{201C}')
    } else if b == 0x94 {
        Some('\u{201D}')
    } else if b == 0x95 {
        Some('\u{2022}')
    } else if b == 0x96 {
        Some('\u{2013}')
    } else if b == 0x97 {
        Some('\u{2014}')
    } else if b == 0x98 {
        Some('\u{02DC}')
    } else if b == 0x99 {
        Some('\u{2122}')
    } else if b == 0x9A {
        Some('\u{0161}')
    } else if b == 0x9B {
        Some('\u{203A}')
    } else if b == 0x9C {
        Some('\u{0153}')
    } else if b == 0x9E {
        Some('\u{017E}')
    } else if b == 0x9F {
        Some('\u{0178}')
    } else {
        None
    }
}

/// How many bytes stand before the first NUL (all of them if none).
pub open spec fn text_len(s: Seq<u8>) -> int
    decreases s.len(),
{
    if s.len() == 0 {
        0
    } else if s[0] == 0 {
        0
    } else {
        1 + text_len(s.drop_first())
    }
}

proof fn lemma_text_len_at(s: Seq<u8>, i: int)
    requires
        0 <= i <= s.len(),
        forall|k: int| 0 <= k < i ==> s[k] != 0,
        i == s.len() || s[i] == 0,
    ensures
        text_len(s) == i,
    decreases s.len(),
{
    if s.len() > 0 && i > 0 {
        let t = s.drop_first();
        assert(forall|k: int| 0 <= k < i - 1 ==> t[k] == s[k + 1] && t[k] != 0);
        lemma_text_len_at(t, i - 1);
    }
}

/// What decoding a NUL-padded field yields: the decoded characters of the
/// bytes before the first NUL, or `None` when any of them is undefined in
/// the codepage.
pub open spec fn spec_cp1252_decode(bytes: Seq<u8>) -> Option<Seq<char>> {
    let p = bytes.take(text_len(bytes));
    if exists|i: int| 0 <= i < p.len() && (#[trigger] cp1252_char(p[i])) is None {
        None
    } else {
        Some(Seq::new(p.len() as nat, |i: int| cp1252_char(p[i]).unwrap()))
    }
}

/// The same decoding with the caller's error policy folded in: embedded text
/// that fails to decode reads as the empty string, never as a failure.
pub open spec fn spec_cp1252_decode_or_empty(bytes: Seq<u8>) -> Seq<char> {
    match spec_cp1252_decode(bytes) {
        Some(s) => s,
        None => Seq::empty(),
    }
}

/// Decodes a fixed-width, NUL-padded Windows-1252 field.
pub fn cp1252_to_string(bytes: &[u8]) -> (r: Option<String>)
    ensures
        match r {
            Some(s) => spec_cp1252_decode(bytes@) == Some(s@),
            None => spec_cp1252_decode(bytes@) is None,
        },
{
    // Find the NUL padding, if any.
    let total = bytes.len();
    let mut n: usize = 0;
    while n < total && bytes[n] != 0
        invariant
            0 <= n <= total,
            total == bytes@.len(),
            forall|k: int| 0 <= k < n ==> bytes@[k] != 0,
        decreases total - n,
    {
        n = n + 1;
    }
    proof {
        lemma_text_len_at(bytes@, n as int);
    }
    let ghost p = bytes@.take(n as int);

    let mut out = String::new();
    let mut i: usize = 0;
    while i < n
        invariant
            0 <= i <= n <= bytes@.len(),
            text_len(bytes@) == n,
            p == bytes@.take(n as int),
            p.len() == n,
            out@.len() == i,
            forall|k: int| 0 <= k < i ==> (#[trigger] cp1252_char(p[k])) is Some,
            forall|k: int| 0 <= k < i ==> out@[k] == cp1252_char(p[k]).unwrap(),
        decreases n - i,
    {
        match cp1252_char_of(bytes[i]) {
            Some(c) => {
                out.push(c);
            },
            None => {
                proof {
                    assert(p[i as int] == bytes@[i as int]);
                    assert(exists|k: int|
                        0 <= k < p.len() && (#[trigger] cp1252_char(p[k])) is None);
                    assert(spec_cp1252_decode(bytes@) is None);
                }
                return None;
            },
        }
        i = i + 1;
    }
    proof {
        assert(out@ =~= Seq::new(p.len() as nat, |k: int| cp1252_char(p[k]).unwrap()));
    }
    Some(out)
}

/// Decodes as [`cp1252_to_string`], mapping an undecodable field to the empty
/// string, as every decode call site does.
pub fn cp1252_to_string_or_empty(bytes: &[u8]) -> (s: String)
    ensures
        s@ == spec_cp1252_decode_or_empty(bytes@),
{
    match cp1252_to_string(bytes) {
        Some(s) => s,
        None => String::new(),
    }
}

} // verus!
