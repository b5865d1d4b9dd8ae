//! Trusted interface to the Unicode services: compatibility normalization
//! and single-character conversions.
//!
//! The named result `nfkc_of` stands for what the outside service computes;
//! every claim beside it is one the service's documentation or source
//! plainly gives.
use vstd::prelude::*;
use unicode_normalization::UnicodeNormalization;

verus! {

/// A character in the ASCII range.
pub open spec fn is_ascii_char(c: char) -> bool {
    (c as u32) < 0x80
}

/// A sequence of characters that all lie in the ASCII range.
pub open spec fn is_ascii_seq(s: Seq<char>) -> bool {
    forall|i: int| 0 <= i < s.len() ==> is_ascii_char(#[trigger] s[i])
}

/// The compatibility normalization (NFKC) of a sequence of characters, as
/// the normalization service computes it.
pub uninterp spec fn nfkc_of(s: Seq<char>) -> Seq<char>;

/// Relies on `char::from_u32`: for a Unicode scalar value it returns the
/// character with exactly that code point.
#[verifier::external_body]
pub(crate) fn char_from_u32(cp: u32) -> (c: char)
    requires
        cp < 0xD800 || (0xE000 <= cp && cp <= 0x10FFFF),
    ensures
        c as u32 == cp,
{
    char::from_u32(cp).unwrap()
}

/// Relies on `unicode_normalization::UnicodeNormalization::nfkc`: the result
/// depends on the input characters alone; a normalized sequence normalizes
/// to itself (Unicode normalization is idempotent); and an all-ASCII input
/// is returned unchanged, since the normalization tables give ASCII
/// characters no decomposition and compose none.
#[verifier::external_body]
pub fn nfkc(v: &Vec<char>) -> (r: Vec<char>)
    ensures
        r@ == nfkc_of(v@),
        nfkc_of(r@) == r@,
        is_ascii_seq(v@) ==> r@ == v@,
{
    v.iter().cloned().nfkc().collect()
}

/// Relies on `String::push`: it appends exactly the given character.
#[verifier::external_body]
pub(crate) fn push_char(s: &mut String, c: char)
    ensures
        final(s)@ == old(s)@.push(c),
{
    s.push(c);
}

/// Collects the characters of a string slice into a vector.
pub fn chars_of(s: &str) -> (r: Vec<char>)
    ensures
        r@ == s@,
{
    broadcast use vstd::string::axiom_spec_iter;

    let mut r: Vec<char> = Vec::new();
    for c in it: s.chars()
        invariant
            it.seq() == s@,
            r@ == it.seq().take(it.index() as int),
    {
        r.push(c);
    }
    proof {
        assert(r@ =~= s@);
    }
    r
}

/// Builds a string holding exactly the given characters.
pub fn string_from(v: &Vec<char>) -> (r: String)
    ensures
        r@ == v@,
{
    let mut r = String::new();
    let mut i: usize = 0;
    while i < v.len()
        invariant
            0 <= i <= v@.len(),
            r@ == v@.take(i as int),
        decreases v@.len() - i,
    {
        push_char(&mut r, v[i]);
        proof {
            assert(v@.take(i + 1) =~= v@.take(i as int).push(v@[i as int]));
        }
        i = i + 1;
    }
    proof {
        assert(v@.take(v@.len() as int) =~= v@);
    }
    r
}

} // verus!
