//! Symbol normalization: exchanges expect pair names in ASCII upper case.
use vstd::prelude::*;

verus! {

/// The ASCII upper-case form of one character; every other character is kept.
pub open spec fn upper_char(c: char) -> char {
    if 'a' <= c && c <= 'z' {
        ((c as u32) - 32) as char
    } else {
        c
    }
}

/// The ASCII upper-case form of a whole string.
pub open spec fn ascii_upper(s: Seq<char>) -> Seq<char> {
    s.map_values(|c: char| upper_char(c))
}

/// Relies on str::to_ascii_uppercase: maps 'a'..='z' to 'A'..='Z' and keeps
/// every other character, one for one.
#[verifier::external_body]
fn to_ascii_uppercase(s: &str) -> (r: String)
    ensures
        r@ == ascii_upper(s@),
{
    s.to_ascii_uppercase()
}

/// Normalizes a symbol or an asset name to the form the exchanges expect.
pub fn normalize_symbol(symbol: &str) -> (r: String)
    ensures
        r@ == ascii_upper(symbol@),
        ascii_upper(r@) == r@,
{
    proof {
        lemma_normalize_idempotent(symbol@);
    }
    to_ascii_uppercase(symbol)
}

/// Upper-casing a character twice is the same as doing it once.
pub proof fn lemma_upper_char_idempotent(c: char)
    ensures
        upper_char(upper_char(c)) == upper_char(c),
{
    if 'a' <= c && c <= 'z' {
        let u = ((c as u32) - 32) as char;
        assert('A' <= u && u <= 'Z');
    }
}

/// Normalization is idempotent: normalizing a normalized symbol changes nothing.
pub proof fn lemma_normalize_idempotent(s: Seq<char>)
    ensures
        ascii_upper(ascii_upper(s)) == ascii_upper(s),
{
    assert forall|i: int| 0 <= i < s.len() implies ascii_upper(ascii_upper(s))[i]
        == ascii_upper(s)[i] by {
        lemma_upper_char_idempotent(s[i]);
    }
    assert(ascii_upper(ascii_upper(s)) =~= ascii_upper(s));
}

} // verus!
