use vstd::prelude::*;
use crate::paths::{join_path, joined};

verus! {

/// The lowercase hexadecimal SHA-256 digest of the UTF-8 encoding of `s`.
pub uninterp spec fn sha256_hex_of(s: Seq<char>) -> Seq<char>;

/// Every character is a lowercase hexadecimal digit.
pub open spec fn is_lower_hex(s: Seq<char>) -> bool {
    forall|i: int| 0 <= i < s.len() ==> ('0' <= #[trigger] s[i] <= '9' || 'a' <= s[i] <= 'f')
}

/// Relies on `sha256::digest` for `&str`: it hashes the string's bytes and
/// hex-encodes the 32-byte result, so the text depends on `s` alone and has
/// 64 lowercase hexadecimal digits (hex's lowercase table).
#[verifier::external_body]
fn sha256_hex(s: &str) -> (r: String)
    ensures
        r@ == sha256_hex_of(s@),
        r@.len() == 64,
        is_lower_hex(r@),
{
    sha256::digest(s)
}

/// The identifier of the worker at `path` under `root`.
pub open spec fn worker_id_of(root: Seq<char>, path: Seq<char>) -> Seq<char> {
    sha256_hex_of(joined(root, path))
}

/// Derives a worker's identifier from the absolute path of its source.
pub fn worker_id(root: &str, path: &str) -> (r: String)
    ensures
        r@ == worker_id_of(root@, path@),
        r@.len() == 64,
        is_lower_hex(r@),
{
    let full = join_path(root, path);
    sha256_hex(full.as_str())
}

/// Two workers whose paths resolve to the same absolute path get the same
/// identifier; in particular the identifier of a fixed root and path never
/// changes.
pub proof fn lemma_worker_id_deterministic(r1: Seq<char>, p1: Seq<char>, r2: Seq<char>, p2: Seq<char>)
    requires
        joined(r1, p1) == joined(r2, p2),
    ensures
        worker_id_of(r1, p1) == worker_id_of(r2, p2),
{
}

} // verus!
