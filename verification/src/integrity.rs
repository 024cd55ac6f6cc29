//! The integrity gate: digest computation and comparison.
//!
//! Downloaded archive bytes are accepted only when their SHA-256 digest
//! equals the digest announced in the release metadata, compared
//! case-insensitively: both hex strings are normalized to uppercase and then
//! held against each other character for character, over the full length.

use vstd::prelude::*;
use vstd::string::StrSliceExecFns;
use crate::errors::PipelineError;

verus! {

/// The lowercase hexadecimal SHA-256 digest of a byte sequence. The digest
/// itself is computed by an outside crate; this name stands for its result,
/// which depends on the bytes alone.
pub uninterp spec fn sha256_hex_of(bytes: Seq<u8>) -> Seq<char>;

/// ASCII uppercase of one character; characters outside `'a'..='z'` are kept.
pub open spec fn upper_char(c: char) -> char {
    if 'a' <= c && c <= 'z' {
        (((c as u8) - 32) as char)
    } else {
        c
    }
}

/// ASCII uppercase of a character sequence.
pub open spec fn upper_of(s: Seq<char>) -> Seq<char> {
    s.map_values(|c: char| upper_char(c))
}

/// Whether downloaded bytes pass the integrity gate for an announced digest:
/// the computed digest equals the announced one case-insensitively — the
/// uppercase forms of the two agree in full.
pub open spec fn digest_accepted(bytes: Seq<u8>, expected: Seq<char>) -> bool {
    upper_of(sha256_hex_of(bytes)) == upper_of(expected)
}

/// Relies on sha256::digest (hex::encode over sha2's Sha256): the lowercase
/// hexadecimal digest of the bytes, 64 characters, a function of the bytes alone.
#[verifier::external_body]
fn sha256_hex(bytes: &Vec<u8>) -> (r: String)
    ensures
        r@ == sha256_hex_of(bytes@),
        r@.len() == 64,
{
    sha256::digest(bytes)
}

/// ASCII uppercase of one character, executable form.
fn upper_char_exec(c: char) -> (r: char)
    ensures
        r == upper_char(c),
{
    if 'a' <= c && c <= 'z' {
        ((c as u8) - 32) as char
    } else {
        c
    }
}

/// Whether `computed` and `expected` are equal once both are taken to their
/// ASCII-uppercase forms: same length and the same character at every
/// position — a case-insensitive comparison over the full strings.
pub fn hash_matches(computed: &str, expected: &str) -> (b: bool)
    ensures
        b == (upper_of(computed@) == upper_of(expected@)),
{
    let n = computed.unicode_len();
    let m = expected.unicode_len();
    if n != m {
        return false;
    }
    let mut i: usize = 0;
    while i < n
        invariant
            i <= n,
            n == computed@.len(),
            n == expected@.len(),
            forall|j: int| 0 <= j < i ==> upper_of(computed@)[j] == upper_of(expected@)[j],
        decreases n - i,
    {
        let c = computed.get_char(i);
        let e = expected.get_char(i);
        if upper_char_exec(c) != upper_char_exec(e) {
            assert(upper_of(computed@)[i as int] != upper_of(expected@)[i as int]);
            return false;
        }
        i += 1;
    }
    proof {
        assert(upper_of(computed@) =~= upper_of(expected@));
    }
    true
}

/// Recomputes the digest of the stored archive bytes and holds it against the
/// digest announced in the release metadata. `Ok` exactly when the bytes pass
/// the integrity gate; every rejection is a corrupted-download failure. An
/// accepted announced digest is always a full 64-character hex string.
pub fn validate_file_hash(file_bytes: &Vec<u8>, expected_hash: &String) -> (r: Result<(), PipelineError>)
    ensures
        r is Ok <==> digest_accepted(file_bytes@, expected_hash@),
        r is Ok ==> expected_hash@.len() == 64,
        r is Err ==> r->Err_0 == PipelineError::Integrity,
{
    let computed = sha256_hex(file_bytes);
    proof {
        assert(upper_of(computed@).len() == computed@.len());
        assert(upper_of(expected_hash@).len() == expected_hash@.len());
    }
    if hash_matches(computed.as_str(), expected_hash.as_str()) {
        Ok(())
    } else {
        Err(PipelineError::Integrity)
    }
}

} // verus!
