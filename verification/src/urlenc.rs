//! Verified percent-encoding of query parameters.
//!
//! Unreserved characters pass through unchanged; every other character is
//! replaced by a percent escape of the low byte of its code point, with
//! uppercase hex digits.

use vstd::prelude::*;
use crate::strutil::push_char;

verus! {

/// The characters that pass through unencoded.
pub open spec fn is_unreserved(c: char) -> bool {
    ('A' <= c && c <= 'Z') || ('a' <= c && c <= 'z') || ('0' <= c && c <= '9') || c == '-' || c
        == '_' || c == '.' || c == '~'
}

/// The character for one uppercase hex digit.
pub open spec fn hex_digit(d: nat) -> char
    recommends
        d < 16,
{
    if d < 10 {
        crate::numfmt::dec_digit(d)
    } else if d == 10 {
        'A'
    } else if d == 11 {
        'B'
    } else if d == 12 {
        'C'
    } else if d == 13 {
        'D'
    } else if d == 14 {
        'E'
    } else {
        'F'
    }
}

/// The percent escape of one byte value.
pub open spec fn pct_chars(b: nat) -> Seq<char>
    recommends
        b < 256,
{
    seq!['%', hex_digit(b / 16), hex_digit(b % 16)]
}

/// How a single character is encoded: unreserved characters stay, all
/// others become the percent escape of the low byte of their code point.
pub open spec fn encoded_char(c: char) -> Seq<char> {
    if is_unreserved(c) {
        seq![c]
    } else {
        pct_chars((c as nat) % 256)
    }
}

/// The percent-encoding of a whole character sequence.
pub open spec fn url_encoded(s: Seq<char>) -> Seq<char>
    decreases s.len(),
{
    if s.len() == 0 {
        Seq::empty()
    } else {
        encoded_char(s[0]) + url_encoded(s.skip(1))
    }
}

/// Encoding one more character appends its escape.
pub proof fn lemma_url_encoded_push(s: Seq<char>, c: char)
    ensures
        url_encoded(s.push(c)) == url_encoded(s) + encoded_char(c),
    decreases s.len(),
{
    assert(s.push(c)[0] == if s.len() == 0 { c } else { s[0] });
    if s.len() == 0 {
        assert(s.push(c).skip(1) =~= Seq::<char>::empty());
        assert(url_encoded(Seq::<char>::empty()) == Seq::<char>::empty());
        assert(url_encoded(s.push(c)) =~= url_encoded(s) + encoded_char(c));
    } else {
        assert(s.push(c).skip(1) =~= s.skip(1).push(c));
        lemma_url_encoded_push(s.skip(1), c);
        assert(url_encoded(s.push(c)) =~= url_encoded(s) + encoded_char(c));
    }
}

pub(crate) fn hex_digit_char(d: u32) -> (c: char)
    requires
        d < 16,
    ensures
        c == hex_digit(d as nat),
{
    match d {
        0 => '0',
        1 => '1',
        2 => '2',
        3 => '3',
        4 => '4',
        5 => '5',
        6 => '6',
        7 => '7',
        8 => '8',
        9 => '9',
        10 => 'A',
        11 => 'B',
        12 => 'C',
        13 => 'D',
        14 => 'E',
        _ => 'F',
    }
}

fn is_unreserved_char(c: char) -> (r: bool)
    ensures
        r == is_unreserved(c),
{
    ('A' <= c && c <= 'Z') || ('a' <= c && c <= 'z') || ('0' <= c && c <= '9') || c == '-' || c
        == '_' || c == '.' || c == '~'
}

/// Percent-encodes `s`.
pub fn encode(s: &str) -> (r: String)
    ensures
        r@ == url_encoded(s@),
{
    let n = s.unicode_len();
    let mut r = String::new();
    let mut i: usize = 0;
    while i < n
        invariant
            n == s@.len(),
            0 <= i <= n,
            r@ == url_encoded(s@.take(i as int)),
        decreases n - i,
    {
        let c = s.get_char(i);
        if is_unreserved_char(c) {
            push_char(&mut r, c);
        } else {
            let b = (c as u32) % 256;
            push_char(&mut r, '%');
            push_char(&mut r, hex_digit_char(b / 16));
            push_char(&mut r, hex_digit_char(b % 16));
            assert(r@ == url_encoded(s@.take(i as int)) + encoded_char(c));
        }
        proof {
            assert(s@.take(i + 1) =~= s@.take(i as int).push(s@[i as int]));
            lemma_url_encoded_push(s@.take(i as int), s@[i as int]);
        }
        i += 1;
    }
    proof {
        assert(s@.take(n as int) =~= s@);
    }
    r
}

} // verus!
