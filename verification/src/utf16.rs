//! UTF-16 code-unit sequences: well-formedness, decoding and encoding.
//!
//! The script engine hands method arguments to the adapter as sequences of
//! UTF-16 code units and takes results back the same way. The native
//! callback works on `String`. This module gives the two directions exact
//! specifications: [`decode_utf16`] and [`encode_utf16`] say what a
//! conversion returns, [`utf16_well_formed`] says when decoding succeeds,
//! and [`lemma_encode_utf16_round_trip`] shows that encoding is lossless.

use vstd::prelude::*;
use vstd::string::StrSliceExecFns;

verus! {

broadcast use {vstd::utf8::char_is_scalar, vstd::utf8::char_u32_cast};

/// True when the code unit is the first half of a surrogate pair.
pub open spec fn is_high_surrogate(u: u16) -> bool {
    0xD800 <= u <= 0xDBFF
}

/// True when the code unit is the second half of a surrogate pair.
pub open spec fn is_low_surrogate(u: u16) -> bool {
    0xDC00 <= u <= 0xDFFF
}

/// True when the code unit is reserved for surrogate pairs and thus never
/// stands for a character on its own.
pub open spec fn is_surrogate(u: u16) -> bool {
    is_high_surrogate(u) || is_low_surrogate(u)
}

/// The Unicode scalar value written as the surrogate pair `(hi, lo)`.
pub open spec fn combine_surrogates(hi: u16, lo: u16) -> u32
    recommends
        is_high_surrogate(hi),
        is_low_surrogate(lo),
{
    (0x10000 + (hi - 0xD800) * 0x400 + (lo - 0xDC00)) as u32
}

/// True when the code units form a valid UTF-16 encoding: every high
/// surrogate is followed by a low surrogate, and no surrogate appears
/// anywhere else.
pub open spec fn utf16_well_formed(s: Seq<u16>) -> bool
    decreases s.len(),
{
    if s.len() == 0 {
        true
    } else if !is_surrogate(s[0]) {
        utf16_well_formed(s.skip(1))
    } else if is_high_surrogate(s[0]) && s.len() >= 2 && is_low_surrogate(s[1]) {
        utf16_well_formed(s.skip(2))
    } else {
        false
    }
}

/// The characters encoded by a well-formed UTF-16 code-unit sequence.
pub open spec fn decode_utf16(s: Seq<u16>) -> Seq<char>
    recommends
        utf16_well_formed(s),
    decreases s.len(),
{
    if s.len() == 0 {
        Seq::empty()
    } else if !is_surrogate(s[0]) {
        seq![(s[0] as u32) as char] + decode_utf16(s.skip(1))
    } else if is_high_surrogate(s[0]) && s.len() >= 2 && is_low_surrogate(s[1]) {
        seq![combine_surrogates(s[0], s[1]) as char] + decode_utf16(s.skip(2))
    } else {
        Seq::empty()
    }
}

/// The UTF-16 encoding of one character: itself for the basic plane, a
/// surrogate pair for the supplementary planes.
pub open spec fn encode_char(c: char) -> Seq<u16> {
    if (c as u32) < 0x10000 {
        seq![(c as u32) as u16]
    } else {
        seq![
            (0xD800 + ((c as u32) - 0x10000) / 0x400) as u16,
            (0xDC00 + ((c as u32) - 0x10000) % 0x400) as u16,
        ]
    }
}

/// The UTF-16 encoding of a character sequence.
pub open spec fn encode_utf16(cs: Seq<char>) -> Seq<u16>
    decreases cs.len(),
{
    if cs.len() == 0 {
        Seq::empty()
    } else {
        encode_char(cs[0]) + encode_utf16(cs.skip(1))
    }
}

/// Relies on `char::from_u32`: returns `Some` exactly for Unicode scalar
/// values, and the returned character casts back to the given value.
#[verifier::external_body]
fn char_from_u32(v: u32) -> (r: Option<char>)
    ensures
        r is Some <==> vstd::utf8::is_scalar(v),
        r matches Some(c) ==> c as u32 == v,
{
    char::from_u32(v)
}

/// Relies on `String::from_iter`: collects the given characters, in order,
/// into a string.
#[verifier::external_body]
fn string_from_chars(cs: Vec<char>) -> (r: String)
    ensures
        r@ == cs@,
{
    String::from_iter(cs)
}

/// Decodes UTF-16 code units into characters; `None` on malformed input.
pub fn utf16_to_chars(units: &Vec<u16>) -> (r: Option<Vec<char>>)
    ensures
        r is Some <==> utf16_well_formed(units@),
        r matches Some(cs) ==> cs@ == decode_utf16(units@),
{
    let n = units.len();
    let mut out: Vec<char> = Vec::new();
    let mut i: usize = 0;
    proof {
        assert(units@.skip(0) =~= units@);
    }
    while i < n
        invariant
            n == units@.len(),
            i <= n,
            utf16_well_formed(units@) <==> utf16_well_formed(units@.skip(i as int)),
            utf16_well_formed(units@) ==> decode_utf16(units@) == out@ + decode_utf16(
                units@.skip(i as int),
            ),
        decreases n - i,
    {
        let ghost rest = units@.skip(i as int);
        proof {
            assert(rest[0] == units@[i as int]);
        }
        let u = units[i];
        if !(0xD800 <= u && u <= 0xDFFF) {
            let c = char_from_u32(u as u32).unwrap();
            proof {
                assert(rest.skip(1) =~= units@.skip(i as int + 1));
                vstd::utf8::char_u32_cast(c, u as u32);
                if utf16_well_formed(units@) {
                    assert(decode_utf16(rest) == seq![(rest[0] as u32) as char] + decode_utf16(
                        rest.skip(1),
                    ));
                    assert(out@ + decode_utf16(rest) =~= (out@ + seq![c]) + decode_utf16(
                        units@.skip(i as int + 1),
                    ));
                }
            }
            out.push(c);
            i = i + 1;
        } else if u <= 0xDBFF && i + 1 < n && 0xDC00 <= units[i + 1] && units[i + 1] <= 0xDFFF {
            let lo = units[i + 1];
            proof {
                assert(rest[1] == units@[i as int + 1]);
            }
            let v: u32 = 0x10000 + ((u - 0xD800) as u32) * 0x400 + ((lo - 0xDC00) as u32);
            proof {
                assert(v == combine_surrogates(u, lo));
                assert(0x10000 <= v <= 0x10FFFF);
            }
            let c = char_from_u32(v).unwrap();
            proof {
                assert(rest.skip(2) =~= units@.skip(i as int + 2));
                vstd::utf8::char_u32_cast(c, v);
                if utf16_well_formed(units@) {
                    assert(decode_utf16(rest) == seq![combine_surrogates(rest[0], rest[1]) as char]
                        + decode_utf16(rest.skip(2)));
                    assert(out@ + decode_utf16(rest) =~= (out@ + seq![c]) + decode_utf16(
                        units@.skip(i as int + 2),
                    ));
                }
            }
            out.push(c);
            i = i + 2;
        } else {
            proof {
                if is_high_surrogate(rest[0]) && rest.len() >= 2 {
                    assert(rest[1] == units@[i as int + 1]);
                }
                assert(!utf16_well_formed(rest));
            }
            return None;
        }
    }
    proof {
        assert(units@.skip(n as int) =~= Seq::<u16>::empty());
        assert(utf16_well_formed(units@));
        assert(decode_utf16(units@) =~= out@);
    }
    Some(out)
}

/// Decodes UTF-16 code units into a string; `None` on malformed input.
pub fn utf16_to_string(units: &Vec<u16>) -> (r: Option<String>)
    ensures
        r is Some <==> utf16_well_formed(units@),
        r matches Some(s) ==> s@ == decode_utf16(units@),
{
    match utf16_to_chars(units) {
        Some(cs) => Some(string_from_chars(cs)),
        None => None,
    }
}

/// Appending one character to a sequence appends its encoding.
proof fn lemma_encode_utf16_push(cs: Seq<char>, c: char)
    ensures
        encode_utf16(cs.push(c)) == encode_utf16(cs) + encode_char(c),
    decreases cs.len(),
{
    if cs.len() == 0 {
        assert(cs.push(c)[0] == c);
        assert(cs.push(c).skip(1) =~= Seq::<char>::empty());
        assert(encode_utf16(cs.push(c)) == encode_char(c) + encode_utf16(
            Seq::<char>::empty(),
        ));
        assert(encode_utf16(Seq::<char>::empty()) == Seq::<u16>::empty());
        assert(encode_utf16(cs) == Seq::<u16>::empty());
        assert(encode_utf16(cs.push(c)) =~= encode_utf16(cs) + encode_char(c));
    } else {
        assert(cs.push(c)[0] == cs[0]);
        assert(cs.push(c).skip(1) =~= cs.skip(1).push(c));
        lemma_encode_utf16_push(cs.skip(1), c);
        assert(encode_utf16(cs.push(c)) == encode_char(cs[0]) + (encode_utf16(cs.skip(1))
            + encode_char(c)));
        assert(encode_utf16(cs.push(c)) =~= encode_utf16(cs) + encode_char(c));
    }
}

/// Encodes the characters of a string slice as UTF-16 code units.
pub fn str_to_utf16(s: &str) -> (r: Vec<u16>)
    ensures
        r@ == encode_utf16(s@),
{
    let n = s.unicode_len();
    let mut out: Vec<u16> = Vec::new();
    let mut i: usize = 0;
    while i < n
        invariant
            n == s@.len(),
            i <= n,
            out@ == encode_utf16(s@.take(i as int)),
        decreases n - i,
    {
        let c = s.get_char(i);
        proof {
            assert(s@.take(i as int + 1) =~= s@.take(i as int).push(s@[i as int]));
            lemma_encode_utf16_push(s@.take(i as int), c);
        }
        let code = c as u32;
        if code < 0x10000 {
            out.push(code as u16);
            proof {
                assert(out@ =~= encode_utf16(s@.take(i as int + 1)));
            }
        } else {
            out.push((0xD800 + (code - 0x10000) / 0x400) as u16);
            out.push((0xDC00 + (code - 0x10000) % 0x400) as u16);
            proof {
                assert(out@ =~= encode_utf16(s@.take(i as int + 1)));
            }
        }
        i = i + 1;
    }
    proof {
        assert(s@.take(n as int) =~= s@);
    }
    out
}

/// Encodes a string as UTF-16 code units.
pub fn string_to_utf16(s: &String) -> (r: Vec<u16>)
    ensures
        r@ == encode_utf16(s@),
{
    str_to_utf16(s.as_str())
}

/// Law: encoding is lossless. The encoding of any character sequence is
/// well-formed UTF-16, and decoding it gives the sequence back.
pub proof fn lemma_encode_utf16_round_trip(cs: Seq<char>)
    ensures
        utf16_well_formed(encode_utf16(cs)),
        decode_utf16(encode_utf16(cs)) == cs,
    decreases cs.len(),
{
    if cs.len() == 0 {
        assert(decode_utf16(encode_utf16(cs)) =~= cs);
    } else {
        let c = cs[0];
        let rest = cs.skip(1);
        let e = encode_utf16(cs);
        lemma_encode_utf16_round_trip(rest);
        vstd::utf8::char_is_scalar(c);
        assert(vstd::utf8::is_scalar(c as u32));
        if (c as u32) < 0x10000 {
            assert(e == encode_char(c) + encode_utf16(rest));
            assert(e[0] == (c as u32) as u16);
            assert(!is_surrogate(e[0]));
            assert(e.skip(1) =~= encode_utf16(rest));
            assert((e[0] as u32) == c as u32);
            vstd::utf8::char_u32_cast(c, e[0] as u32);
            assert(decode_utf16(e) == seq![(e[0] as u32) as char] + decode_utf16(e.skip(1)));
            assert(decode_utf16(e) =~= seq![c] + rest);
            assert(seq![c] + rest =~= cs);
        } else {
            let v = c as u32;
            let q = (v - 0x10000) / 0x400;
            let m = (v - 0x10000) % 0x400;
            vstd::arithmetic::div_mod::lemma_fundamental_div_mod((v - 0x10000) as int, 0x400);
            assert(v <= 0x10FFFF);
            assert(0 <= q <= 0x3FF) by {
                vstd::arithmetic::div_mod::lemma_div_is_ordered((v - 0x10000) as int, 0xFFFFF, 0x400);
            }
            assert(0 <= m <= 0x3FF);
            assert(e == encode_char(c) + encode_utf16(rest));
            assert(e[0] == (0xD800 + q) as u16);
            assert(e[1] == (0xDC00 + m) as u16);
            assert(is_high_surrogate(e[0]));
            assert(is_low_surrogate(e[1]));
            assert(combine_surrogates(e[0], e[1]) == v);
            assert(e.skip(2) =~= encode_utf16(rest));
            vstd::utf8::char_u32_cast(c, combine_surrogates(e[0], e[1]));
            assert(decode_utf16(e) == seq![combine_surrogates(e[0], e[1]) as char] + decode_utf16(
                e.skip(2),
            ));
            assert(decode_utf16(e) =~= seq![c] + rest);
            assert(seq![c] + rest =~= cs);
        }
    }
}

} // verus!
