//! Lowercase hexadecimal decoding of byte strings.
//!
//! The webhook signature header carries a keyed digest as a lowercase hex
//! string. Decoding is executable and verified; encoding exists at the
//! specification level so that the set of accepted signature strings can be
//! characterised exactly: a string decodes to a digest if and only if it is
//! the canonical lowercase encoding of that digest.

use vstd::prelude::*;
use vstd::string::StrSliceExecFns;

verus! {

/// Value of one lowercase hexadecimal digit, `None` for any other character.
pub open spec fn hex_val(c: char) -> Option<u8> {
    if c == '0' {
        Some(0)
    } else if c == '1' {
        Some(1)
    } else if c == '2' {
        Some(2)
    } else if c == '3' {
        Some(3)
    } else if c == '4' {
        Some(4)
    } else if c == '5' {
        Some(5)
    } else if c == '6' {
        Some(6)
    } else if c == '7' {
        Some(7)
    } else if c == '8' {
        Some(8)
    } else if c == '9' {
        Some(9)
    } else if c == 'a' {
        Some(10)
    } else if c == 'b' {
        Some(11)
    } else if c == 'c' {
        Some(12)
    } else if c == 'd' {
        Some(13)
    } else if c == 'e' {
        Some(14)
    } else if c == 'f' {
        Some(15)
    } else {
        None
    }
}

/// Lowercase hexadecimal digit for a value below 16.
pub open spec fn hex_char(v: u8) -> char
    recommends
        v < 16,
{
    if v == 0 {
        '0'
    } else if v == 1 {
        '1'
    } else if v == 2 {
        '2'
    } else if v == 3 {
        '3'
    } else if v == 4 {
        '4'
    } else if v == 5 {
        '5'
    } else if v == 6 {
        '6'
    } else if v == 7 {
        '7'
    } else if v == 8 {
        '8'
    } else if v == 9 {
        '9'
    } else if v == 10 {
        'a'
    } else if v == 11 {
        'b'
    } else if v == 12 {
        'c'
    } else if v == 13 {
        'd'
    } else if v == 14 {
        'e'
    } else {
        'f'
    }
}

/// Bytes that a sequence of lowercase hex digits stands for; `None` if any
/// character is not a lowercase hex digit or the length is odd.
pub open spec fn hex_decode_spec(s: Seq<char>) -> Option<Seq<u8>>
    decreases s.len(),
{
    if s.len() == 0 {
        Some(Seq::empty())
    } else if s.len() == 1 {
        None
    } else {
        match (hex_val(s[0]), hex_val(s[1])) {
            (Some(hi), Some(lo)) => match hex_decode_spec(s.skip(2)) {
                Some(rest) => Some(seq![(hi * 16 + lo) as u8] + rest),
                None => None,
            },
            _ => None,
        }
    }
}

/// Canonical lowercase hex encoding of a byte sequence.
pub open spec fn hex_encode_spec(d: Seq<u8>) -> Seq<char>
    decreases d.len(),
{
    if d.len() == 0 {
        Seq::empty()
    } else {
        seq![hex_char((d[0] / 16) as u8), hex_char((d[0] % 16) as u8)] + hex_encode_spec(
            d.skip(1),
        )
    }
}

/// The digit characters round-trip: encoding a value below 16 and reading the
/// digit back yields the value again.
pub proof fn lemma_hex_val_char(v: u8)
    requires
        v < 16,
    ensures
        hex_val(hex_char(v)) == Some(v),
{
}

/// A character that reads as a hex digit is the canonical digit of its value.
pub proof fn lemma_hex_char_val(c: char, v: u8)
    requires
        hex_val(c) == Some(v),
    ensures
        c == hex_char(v),
        v < 16,
{
}

/// Decoding the canonical encoding of any byte sequence gives it back.
pub proof fn lemma_hex_encode_decode(d: Seq<u8>)
    ensures
        hex_decode_spec(hex_encode_spec(d)) == Some(d),
    decreases d.len(),
{
    if d.len() == 0 {
        assert(hex_encode_spec(d) =~= Seq::<char>::empty());
        assert(d =~= Seq::<u8>::empty());
    } else {
        let b = d[0];
        let hi = (b / 16) as u8;
        let lo = (b % 16) as u8;
        lemma_hex_val_char(hi);
        lemma_hex_val_char(lo);
        lemma_hex_encode_decode(d.skip(1));
        let e = hex_encode_spec(d);
        assert(e[0] == hex_char(hi));
        assert(e[1] == hex_char(lo));
        assert(e.skip(2) =~= hex_encode_spec(d.skip(1)));
        assert(hi * 16 + lo == b);
        assert(seq![(hi * 16 + lo) as u8] + d.skip(1) =~= d);
    }
}

/// A string that decodes at all is the canonical encoding of what it decodes
/// to: together with `lemma_hex_encode_decode`, exactly one string decodes to
/// each digest.
pub proof fn lemma_hex_decode_encode(s: Seq<char>, d: Seq<u8>)
    requires
        hex_decode_spec(s) == Some(d),
    ensures
        s == hex_encode_spec(d),
    decreases s.len(),
{
    if s.len() == 0 {
        assert(d =~= Seq::<u8>::empty());
        assert(s =~= hex_encode_spec(d));
    } else {
        match (hex_val(s[0]), hex_val(s[1])) {
            (Some(hi), Some(lo)) => match hex_decode_spec(s.skip(2)) {
                Some(rest) => {
                    lemma_hex_decode_encode(s.skip(2), rest);
                    lemma_hex_char_val(s[0], hi);
                    lemma_hex_char_val(s[1], lo);
                    assert(d == seq![(hi * 16 + lo) as u8] + rest);
                    assert(d[0] == (hi * 16 + lo) as u8);
                    assert((hi * 16 + lo) / 16 == hi && (hi * 16 + lo) % 16 == lo)
                        by (nonlinear_arith)
                        requires
                            hi < 16,
                            lo < 16,
                    ;
                    assert(d.skip(1) =~= rest);
                    assert(s =~= seq![s[0], s[1]] + s.skip(2));
                    assert(hex_encode_spec(d) =~= s);
                },
                None => {
                    assert(false);
                },
            },
            _ => {
                assert(false);
            },
        }
    }
}

/// Reads one character as a lowercase hex digit.
fn hex_digit(c: char) -> (r: Option<u8>)
    ensures
        r == hex_val(c),
{
    if c == '0' {
        Some(0)
    } else if c == '1' {
        Some(1)
    } else if c == '2' {
        Some(2)
    } else if c == '3' {
        Some(3)
    } else if c == '4' {
        Some(4)
    } else if c == '5' {
        Some(5)
    } else if c == '6' {
        Some(6)
    } else if c == '7' {
        Some(7)
    } else if c == '8' {
        Some(8)
    } else if c == '9' {
        Some(9)
    } else if c == 'a' {
        Some(10)
    } else if c == 'b' {
        Some(11)
    } else if c == 'c' {
        Some(12)
    } else if c == 'd' {
        Some(13)
    } else if c == 'e' {
        Some(14)
    } else if c == 'f' {
        Some(15)
    } else {
        None
    }
}

/// Decodes a lowercase hex string into the bytes it stands for.
pub fn hex_decode(s: &str) -> (r: Option<Vec<u8>>)
    ensures
        r is Some <==> hex_decode_spec(s@) is Some,
        r matches Some(v) ==> hex_decode_spec(s@) == Some(v@),
{
    let n = s.unicode_len();
    let mut out: Vec<u8> = Vec::new();
    let mut i: usize = 0;
    proof {
        assert(s@.skip(0) =~= s@);
        if let Some(rest) = hex_decode_spec(s@) {
            assert(Seq::<u8>::empty() + rest =~= rest);
        }
    }
    while n - i > 1
        invariant
            i <= n,
            n == s@.len(),
            (match hex_decode_spec(s@.skip(i as int)) {
                Some(rest) => hex_decode_spec(s@) == Some(out@ + rest),
                None => hex_decode_spec(s@) is None,
            }),
        decreases n - i,
    {
        proof {
            assert(s@.skip(i as int)[0] == s@[i as int]);
            assert(s@.skip(i as int)[1] == s@[i as int + 1]);
            assert(s@.skip(i as int).skip(2) =~= s@.skip(i as int + 2));
        }
        let c0 = s.get_char(i);
        let c1 = s.get_char(i + 1);
        let v0 = hex_digit(c0);
        let v1 = hex_digit(c1);
        match (v0, v1) {
            (Some(hi), Some(lo)) => {
                assert(hi < 16 && lo < 16);
                let ghost out_old = out@;
                out.push(hi * 16 + lo);
                proof {
                    if let Some(rest2) = hex_decode_spec(s@.skip(i as int + 2)) {
                        assert(out_old + (seq![(hi * 16 + lo) as u8] + rest2) =~= out@ + rest2);
                    }
                }
            },
            _ => {
                return None;
            },
        }
        i = i + 2;
    }
    if i < n {
        proof {
            assert(s@.skip(i as int).len() == 1);
        }
        return None;
    }
    proof {
        assert(s@.skip(i as int) =~= Seq::<char>::empty());
        assert(out@ + Seq::<u8>::empty() =~= out@);
    }
    Some(out)
}

} // verus!
