//! Identifiers: the form in which the store issues them, and the
//! normalization of the raw path segment in which a request carries one.

use uuid::Uuid;
use vstd::prelude::*;
use vstd::string::*;

verus! {

/// A lower-case hexadecimal digit.
pub open spec fn is_lower_hex(c: char) -> bool {
    ('0' <= c && c <= '9') || ('a' <= c && c <= 'f')
}

/// The four positions at which a canonical identifier holds a hyphen.
pub open spec fn is_hyphen_position(i: int) -> bool {
    i == 8 || i == 13 || i == 18 || i == 23
}

/// The form of every identifier that the store issues: a random (version 4)
/// UUID of the RFC variant in its canonical text form, that is 36 characters
/// `xxxxxxxx-xxxx-4xxx-vxxx-xxxxxxxxxxxx` of lower-case hexadecimal digits
/// with `v` one of `8`, `9`, `a`, `b`.
pub open spec fn canonical_id(s: Seq<char>) -> bool {
    &&& s.len() == 36
    &&& forall|i: int|
        #![trigger s[i]]
        0 <= i < 36 ==> if is_hyphen_position(i) {
            s[i] == '-'
        } else {
            is_lower_hex(s[i])
        }
    &&& s[14] == '4'
    &&& (s[19] == '8' || s[19] == '9' || s[19] == 'a' || s[19] == 'b')
}

/// A raw path segment without its first and its last character; empty where
/// the segment has fewer than two characters.
pub open spec fn normalized_id(raw: Seq<char>) -> Seq<char> {
    if raw.len() >= 2 {
        raw.subrange(1, raw.len() - 1)
    } else {
        Seq::empty()
    }
}

/// Calls `uuid::Uuid::new_v4` and renders the result with `to_string`.
///
/// Trusted, not proved: `new_v4` fixes the version digit to `4` and the
/// variant digit to one of `8`, `9`, `a`, `b`, and `Display` for `Uuid`
/// writes the hyphenated lower-case form, so that the text is a
/// [`canonical_id`].  Which identifier comes back is up to the operating
/// system's random source; nothing is claimed about it, not even that two
/// calls differ.  `new_v4` panics if that source cannot be read.
#[verifier::external_body]
pub(crate) fn generate_id() -> (id: String)
    ensures
        canonical_id(id@),
{
    Uuid::new_v4().to_string()
}

/// Whether `id` has the form of an identifier that the store issues.
pub fn is_canonical_id(id: &str) -> (ok: bool)
    ensures
        ok == canonical_id(id@),
{
    if id.unicode_len() != 36 {
        return false;
    }
    let mut i: usize = 0;
    while i < 36
        invariant
            i <= 36,
            id@.len() == 36,
            forall|j: int|
                #![trigger id@[j]]
                0 <= j < i ==> if is_hyphen_position(j) {
                    id@[j] == '-'
                } else {
                    is_lower_hex(id@[j])
                },
        decreases 36 - i,
    {
        let c = id.get_char(i);
        let well_placed = if i == 8 || i == 13 || i == 18 || i == 23 {
            c == '-'
        } else {
            ('0' <= c && c <= '9') || ('a' <= c && c <= 'f')
        };
        if !well_placed {
            return false;
        }
        i += 1;
    }
    let version = id.get_char(14);
    let variant = id.get_char(19);
    version == '4' && (variant == '8' || variant == '9' || variant == 'a' || variant == 'b')
}

/// Normalizes the raw path segment of a fetch request: strips exactly one
/// character from each end, unconditionally.  A segment of fewer than two
/// characters yields the empty string.
pub fn clean_id(movie_id: String) -> (cleaned: String)
    ensures
        cleaned@ == normalized_id(movie_id@),
{
    let raw = movie_id.as_str();
    let n = raw.unicode_len();
    if n < 2 {
        String::new()
    } else {
        raw.substring_char(1, n - 1).to_owned()
    }
}

} // verus!
