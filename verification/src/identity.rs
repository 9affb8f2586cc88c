//! Stable workspace identity: a deterministic hash of a canonicalized path,
//! shortened and prefixed, so the same directory keeps the same id across
//! process restarts.

use vstd::prelude::*;

use std::path::{Path, PathBuf};

verus! {

/// The SHA-1 digest of the UTF-8 encoding of a character sequence.
pub uninterp spec fn sha1_of(s: Seq<char>) -> Seq<u8>;

/// The lowercase hexadecimal rendering of a byte sequence.
pub uninterp spec fn hex_of(b: Seq<u8>) -> Seq<char>;

/// Relies on sha1's `Sha1` (through the `Digest` trait): the 160-bit digest
/// of the input bytes, a function of the input alone.
#[verifier::external_body]
fn sha1_digest(s: &str) -> (d: Vec<u8>)
    ensures
        d@ == sha1_of(s@),
        d@.len() == 20,
{
    <sha1::Sha1 as sha1::Digest>::digest(s.as_bytes()).to_vec()
}

/// Relies on hex::encode: two lowercase hex digits for each input byte, in
/// order.
#[verifier::external_body]
fn hex_lower(b: &Vec<u8>) -> (r: String)
    ensures
        r@ == hex_of(b@),
        r@.len() == 2 * b@.len(),
{
    hex::encode(b)
}

/// Relies on `Path::canonicalize`: the canonical, absolute form of the path
/// when the filesystem can resolve it, else the path as given. The result
/// depends on the filesystem, so nothing is promised of it.
#[verifier::external_body]
fn canonical_or_self(path: &str) -> String
{
    let p = Path::new(path).canonicalize().unwrap_or_else(|_| PathBuf::from(path));
    p.to_string_lossy().to_string()
}

pub open spec fn id_prefix() -> Seq<char> {
    seq!['w', 't', '-']
}

/// The identity derived from a canonical path string: `wt-` followed by the
/// first 12 hex digits of the path's SHA-1.
pub open spec fn id_of(c: Seq<char>) -> Seq<char> {
    id_prefix() + hex_of(sha1_of(c)).take(12)
}

/// The identity for an already-canonical path string.
pub fn id_for_canonical(c: &str) -> (r: String)
    ensures
        r@ == id_of(c@),
        r@.len() == 15,
{
    let d = sha1_digest(c);
    let h = hex_lower(&d);
    let short = h.as_str().substring_char(0, 12);
    let mut out: String = "wt-".to_owned();
    proof {
        reveal_strlit("wt-");
        assert(out@ =~= id_prefix());
    }
    out.append(short);
    proof {
        assert(short@ =~= hex_of(sha1_of(c@)).take(12));
    }
    out
}

/// The stable identity of a workspace path: canonicalize (falling back to
/// the given text), hash, shorten, prefix. Two textually different paths that
/// canonicalize alike get the same id.
pub fn stable_id_from_path(path: &str) -> (r: String)
    ensures
        exists|c: Seq<char>| r@ == id_of(c),
        r@.len() == 15,
        r@.take(3) == id_prefix(),
{
    let canon = canonical_or_self(path);
    let r = id_for_canonical(canon.as_str());
    proof {
        assert(r@ == id_of(canon@));
        assert(r@.take(3) =~= id_prefix());
    }
    r
}

/// Law: the identity is a pure function of the canonical path, so two paths
/// with the same canonical form always receive the same id, in this process
/// or any other.
pub proof fn lemma_id_deterministic(c1: Seq<char>, c2: Seq<char>)
    requires
        c1 == c2,
    ensures
        id_of(c1) == id_of(c2),
{
}

} // verus!
