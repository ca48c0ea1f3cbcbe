//! Text helpers shared by the records: comparison of strings by their
//! characters.

use vstd::prelude::*;
use vstd::utf8::{decode_utf8, valid_utf8};

verus! {

/// Compares two strings character by character.
pub fn same_text(a: &str, b: &str) -> (same: bool)
    ensures
        same == (a@ == b@),
{
    let n = a.unicode_len();
    let m = b.unicode_len();
    if n != m {
        return false;
    }
    let mut i: usize = 0;
    while i < n
        invariant
            n == a@.len(),
            m == b@.len(),
            n == m,
            i <= n,
            forall|j: int| 0 <= j < i ==> a@[j] == b@[j],
        decreases n - i,
    {
        if a.get_char(i) != b.get_char(i) {
            return false;
        }
        i = i + 1;
    }
    assert(a@ =~= b@);
    true
}

/// A string can cross the engine's C interface exactly when it holds no NUL
/// character: the interface takes NUL-terminated text.
pub open spec fn c_passable(s: Seq<char>) -> bool {
    !s.contains('\0')
}

/// Tells whether a string holds no NUL character.
pub fn free_of_nul(s: &str) -> (free: bool)
    ensures
        free == c_passable(s@),
{
    let n = s.unicode_len();
    let mut i: usize = 0;
    while i < n
        invariant
            n == s@.len(),
            i <= n,
            forall|j: int| 0 <= j < i ==> s@[j] != '\0',
        decreases n - i,
    {
        if s.get_char(i) == '\0' {
            assert(s@[i as int] == '\0');
            return false;
        }
        i = i + 1;
    }
    true
}

/// Tells whether `prefix` is a prefix of `s`, character by character.
pub fn starts_with_text(s: &str, prefix: &str) -> (starts: bool)
    ensures
        starts == prefix@.is_prefix_of(s@),
{
    let n = s.unicode_len();
    let m = prefix.unicode_len();
    if m > n {
        return false;
    }
    let mut i: usize = 0;
    while i < m
        invariant
            n == s@.len(),
            m == prefix@.len(),
            m <= n,
            i <= m,
            forall|j: int| 0 <= j < i ==> prefix@[j] == s@[j],
        decreases m - i,
    {
        if s.get_char(i) != prefix.get_char(i) {
            return false;
        }
        i = i + 1;
    }
    true
}

/// The text that `String::from_utf8_lossy` decodes from a run of bytes.
pub uninterp spec fn utf8_lossy(bytes: Seq<u8>) -> Seq<char>;

/// Decodes bytes as UTF-8 with `String::from_utf8_lossy`, which puts U+FFFD
/// in place of each invalid sequence. Claimed of it: the result is a function
/// of the bytes alone (named `utf8_lossy`), and bytes that are valid UTF-8 come
/// back as the characters they encode. What replaces an invalid sequence is
/// left unsaid.
#[verifier::external_body]
fn decode_utf8_lossy(bytes: &[u8]) -> (text: String)
    ensures
        text@ == utf8_lossy(bytes@),
        valid_utf8(bytes@) ==> text@ == decode_utf8(bytes@),
{
    String::from_utf8_lossy(bytes).into_owned()
}

/// The text of a field handed over by the engine's C interface: no text where
/// the field was a null pointer, the characters its bytes encode where they
/// are valid UTF-8, and their lossy decoding otherwise.
pub open spec fn c_text_view(raw: Option<Seq<u8>>) -> Seq<char> {
    match raw {
        Some(bytes) => if valid_utf8(bytes) {
            decode_utf8(bytes)
        } else {
            utf8_lossy(bytes)
        },
        None => Seq::empty(),
    }
}

/// The bytes of a C text field, taken by their view.
pub open spec fn field_bytes(raw: &Option<Vec<u8>>) -> Option<Seq<u8>> {
    match raw {
        Some(bytes) => Some(bytes@),
        None => None,
    }
}

/// Turns a text field handed over by the engine's C interface into a string:
/// a null field gives the empty string, any other is decoded as UTF-8, invalid
/// sequences replaced.
pub fn c_text(raw: &Option<Vec<u8>>) -> (text: String)
    ensures
        text@ == c_text_view(field_bytes(raw)),
{
    match raw {
        Some(bytes) => decode_utf8_lossy(bytes.as_slice()),
        None => String::new(),
    }
}

} // verus!
