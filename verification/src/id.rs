//! Identifiers: short random strings over the 62-character alphanumeric
//! alphabet.
//!
//! An identifier is the sole storage key and public handle of an uploaded
//! item. The alphabet deliberately excludes path separators and traversal
//! characters, so a validated identifier can never escape the storage root.
//! Generation is independent random sampling with no uniqueness check: two
//! calls may return equal identifiers, and a collision silently overwrites
//! the earlier content. That is an accepted design trade-off, not a defect.

use vstd::prelude::*;

verus! {

/// A character of the identifier alphabet: an ASCII digit, an ASCII
/// uppercase letter or an ASCII lowercase letter.
pub open spec fn is_id_char(c: char) -> bool {
    ||| 48 <= c as u32 <= 57
    ||| 65 <= c as u32 <= 90
    ||| 97 <= c as u32 <= 122
}

/// A well-formed identifier of the given length: every character drawn from
/// the identifier alphabet.
pub open spec fn valid_id(s: Seq<char>, len: nat) -> bool {
    &&& s.len() == len
    &&& forall|i: int| 0 <= i < s.len() ==> is_id_char(#[trigger] s[i])
}

/// The alphabet character with the given index: `0`-`9`, then `A`-`Z`,
/// then `a`-`z`.
pub open spec fn spec_id_char(d: u8) -> char {
    if d < 10 {
        (48 + d) as char
    } else if d < 36 {
        (55 + d) as char
    } else {
        (61 + d) as char
    }
}

/// Maps an index below 62 to the alphabet character it selects.
fn id_char(d: u8) -> (c: char)
    requires
        d < 62,
    ensures
        c == spec_id_char(d),
        is_id_char(c),
{
    if d < 10 {
        (48 + d) as char
    } else if d < 36 {
        (55 + d) as char
    } else {
        (61 + d) as char
    }
}

/// Relies on `rand::random_range` over the thread-local generator: a
/// uniformly random value below the bound. Nothing is assumed of the result
/// beyond its range.
#[verifier::external_body]
fn random_below(bound: u8) -> (r: u8)
    requires
        bound > 0,
    ensures
        r < bound,
{
    rand::random_range(0..bound)
}

/// Relies on `String::push`: appends the character at the end of the string.
#[verifier::external_body]
fn push_char(s: &mut String, c: char)
    ensures
        final(s)@ == old(s)@.push(c),
{
    s.push(c);
}

/// Produces a fresh identifier of the given length, each character drawn
/// independently and uniformly at random from the 62-character alphabet.
/// There is no collision check: two calls may return equal identifiers.
pub fn generate(length: usize) -> (r: String)
    ensures
        valid_id(r@, length as nat),
{
    let mut s = String::new();
    let mut i: usize = 0;
    while i < length
        invariant
            i <= length,
            s@.len() == i,
            forall|j: int| 0 <= j < s@.len() ==> is_id_char(#[trigger] s@[j]),
        decreases length - i,
    {
        let d = random_below(62);
        let c = id_char(d);
        push_char(&mut s, c);
        i = i + 1;
    }
    s
}

/// Decides whether a caller-supplied string is a well-formed identifier of
/// the expected length. Retrieval and deletion accept identifiers from the
/// untrusted request path; both must validate them with this check before
/// any path is built from them.
pub fn check_id(id: &str, len: usize) -> (r: bool)
    ensures
        r == valid_id(id@, len as nat),
{
    let n = id.unicode_len();
    if n != len {
        return false;
    }
    let mut i: usize = 0;
    while i < n
        invariant
            i <= n,
            n == id@.len(),
            forall|j: int| 0 <= j < i ==> is_id_char(#[trigger] id@[j]),
        decreases n - i,
    {
        let c = id.get_char(i);
        let u = c as u32;
        if !((48 <= u && u <= 57) || (65 <= u && u <= 90) || (97 <= u && u <= 122)) {
            return false;
        }
        i = i + 1;
    }
    true
}

} // verus!
