//! String helpers for the boundary with the host.
//!
//! The host receives every string as a null-terminated byte sequence: a
//! string handed to it must not contain an interior nul character, and a
//! fixed-size buffer received from it is read up to its first nul and
//! decoded lossily.

use vstd::prelude::*;

use vstd::utf8::{encode_utf8, valid_utf8};

verus! {

/// True when the string contains no nul character and can therefore be
/// passed to the host as a null-terminated string.
pub open spec fn no_interior_nul(s: Seq<char>) -> bool {
    forall|i: int| 0 <= i < s.len() ==> s[i] != '\0'
}

/// Checks whether the string is free of interior nul characters.
///
/// The embedding layer uses this to validate a string before calling a
/// library function that requires [`no_interior_nul`].
pub fn str_no_interior_nul(s: &str) -> (r: bool)
    ensures
        r == no_interior_nul(s@),
{
    let len: usize = s.unicode_len();
    let mut i: usize = 0;
    while i < len
        invariant
            0 <= i <= len,
            len == s@.len(),
            forall|j: int| 0 <= j < i ==> s@[j] != '\0',
        decreases len - i,
    {
        if s.get_char(i) == '\0' {
            return false;
        }
        i = i + 1;
    }
    true
}

/// Index of the first nul byte in the buffer, or its length if there is
/// none.
pub open spec fn nul_index(bytes: Seq<u8>) -> int
    decreases bytes.len(),
{
    if bytes.len() == 0 {
        0
    } else if bytes[0] == 0 {
        0
    } else {
        1 + nul_index(bytes.skip(1))
    }
}

/// The bytes of a null-terminated buffer before its first nul, or the whole
/// buffer if it holds none.
pub open spec fn cstr_prefix(bytes: Seq<u8>) -> Seq<u8> {
    bytes.take(nul_index(bytes))
}

/// Any index with only non-nul bytes before it, pointing at a nul or the
/// buffer's end, is [`nul_index`].
proof fn lemma_nul_index_unique(bytes: Seq<u8>, i: int)
    requires
        0 <= i <= bytes.len(),
        forall|j: int| 0 <= j < i ==> bytes[j] != 0,
        i < bytes.len() ==> bytes[i] == 0,
    ensures
        i == nul_index(bytes),
    decreases bytes.len(),
{
    if bytes.len() > 0 && bytes[0] != 0 {
        assert forall|j: int| 0 <= j < i - 1 implies bytes.skip(1)[j] != 0 by {
            assert(bytes.skip(1)[j] == bytes[j + 1]);
        }
        assert(i - 1 < bytes.skip(1).len() ==> bytes.skip(1)[i - 1] == 0);
        lemma_nul_index_unique(bytes.skip(1), i - 1);
    }
}

/// Finds the index of the first nul byte, or the buffer's length if there
/// is none.
fn find_nul(buffer: &[u8]) -> (r: usize)
    ensures
        0 <= r <= buffer@.len(),
        forall|j: int| 0 <= j < r ==> buffer@[j] != 0,
        r < buffer@.len() ==> buffer@[r as int] == 0,
{
    let len: usize = buffer.len();
    let mut i: usize = 0;
    while i < len
        invariant
            0 <= i <= len,
            len == buffer@.len(),
            forall|j: int| 0 <= j < i ==> buffer@[j] != 0,
        decreases len - i,
    {
        if buffer[i] == 0 {
            return i;
        }
        i = i + 1;
    }
    i
}

/// Extracts the bytes of a null-terminated buffer before its first nul.
pub fn cstr_prefix_bytes(buffer: &[u8]) -> (r: Vec<u8>)
    ensures
        r@ == cstr_prefix(buffer@),
{
    let end: usize = find_nul(buffer);
    proof {
        lemma_nul_index_unique(buffer@, end as int);
    }
    let mut prefix: Vec<u8> = Vec::new();
    let mut j: usize = 0;
    while j < end
        invariant
            0 <= j <= end,
            end <= buffer@.len(),
            prefix@ == buffer@.take(j as int),
        decreases end - j,
    {
        let ghost before = prefix@;
        prefix.push(buffer[j]);
        proof {
            assert(prefix@ =~= buffer@.take(j + 1));
        }
        j = j + 1;
    }
    prefix
}

/// What the characters of a byte buffer decode to under lossy conversion.
/// The result depends on the bytes alone.
pub uninterp spec fn utf8_lossy(bytes: Seq<u8>) -> Seq<char>;

/// Relies on String::from_utf8_lossy: the result is a function of the bytes
/// alone, and a valid UTF-8 buffer decodes to exactly the characters it
/// encodes.
#[verifier::external_body]
pub(crate) fn string_from_utf8_lossy(bytes: &[u8]) -> (r: String)
    ensures
        r@ == utf8_lossy(bytes@),
        valid_utf8(bytes@) ==> encode_utf8(r@) == bytes@,
{
    String::from_utf8_lossy(bytes).into_owned()
}

} // verus!
