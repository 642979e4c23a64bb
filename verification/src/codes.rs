//! Confirmation codes: the first eight characters of a freshly drawn
//! UUID, uppercased.

use vstd::prelude::*;
use crate::strutil::push_char;

verus! {

/// A lowercase hexadecimal digit or the hyphen of a rendered UUID.
pub open spec fn is_lower_hex_or_hyphen(c: char) -> bool {
    ('0' <= c && c <= '9') || ('a' <= c && c <= 'f') || c == '-'
}

/// An uppercase hexadecimal digit or a hyphen: what a confirmation code
/// is made of.
pub open spec fn is_code_char(c: char) -> bool {
    ('0' <= c && c <= '9') || ('A' <= c && c <= 'F') || c == '-'
}

/// Relies on Uuid::new_v4 and its display form: a random version-4 UUID
/// rendered in the hyphenated lowercase format, 36 characters of
/// lowercase hex digits and hyphens.  The value is random: nothing more
/// is promised of it.
#[verifier::external_body]
fn new_uuid_string() -> (r: String)
    ensures
        r@.len() == 36,
        forall|i: int| 0 <= i < r@.len() ==> is_lower_hex_or_hyphen(#[trigger] r@[i]),
{
    uuid::Uuid::new_v4().to_string()
}

/// The ASCII uppercasing of one character.
pub open spec fn ascii_upper_char(c: char) -> char {
    if 'a' <= c && c <= 'z' {
        ((c as u8) - 32) as char
    } else {
        c
    }
}

/// The confirmation code derived from a source string: its first eight
/// characters (fewer when the source is shorter), ASCII-uppercased.
pub open spec fn confirmation_chars(s: Seq<char>) -> Seq<char> {
    (if s.len() <= 8 {
        s
    } else {
        s.take(8)
    }).map_values(|c: char| ascii_upper_char(c))
}

fn upper_char(c: char) -> (r: char)
    ensures
        r == ascii_upper_char(c),
{
    if 'a' <= c && c <= 'z' {
        ((c as u8) - 32) as char
    } else {
        c
    }
}

/// Uppercases the first eight characters of a source string.
pub fn confirmation_code_from(s: &str) -> (r: String)
    ensures
        r@ == confirmation_chars(s@),
{
    let n = s.unicode_len();
    let limit = if n < 8 {
        n
    } else {
        8
    };
    let mut r = String::new();
    let mut i: usize = 0;
    while i < limit
        invariant
            n == s@.len(),
            limit == if n < 8 {
                n as int
            } else {
                8
            },
            0 <= i <= limit,
            r@.len() == i,
            forall|k: int| 0 <= k < i ==> r@[k] == ascii_upper_char(s@[k]),
        decreases limit - i,
    {
        let c = s.get_char(i);
        push_char(&mut r, upper_char(c));
        i += 1;
    }
    proof {
        assert(r@ =~= confirmation_chars(s@));
    }
    r
}

/// Draws a fresh confirmation code: eight characters, each an uppercase
/// hex digit or a hyphen.
pub fn generate_confirmation_code() -> (r: String)
    ensures
        r@.len() == 8,
        forall|i: int| 0 <= i < r@.len() ==> is_code_char(#[trigger] r@[i]),
{
    let u = new_uuid_string();
    let code = confirmation_code_from(u.as_str());
    proof {
        assert forall|i: int| 0 <= i < code@.len() implies is_code_char(#[trigger] code@[i]) by {
            assert(code@[i] == ascii_upper_char(u@.take(8)[i]));
            assert(is_lower_hex_or_hyphen(u@[i]));
        }
    }
    code
}

} // verus!
