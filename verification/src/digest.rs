//! Content digesting: SHA-256 over artifact bytes, encoded as lowercase
//! hex, and the case-insensitive comparison the verifier uses.

use vstd::prelude::*;
use vstd::string::StrSliceExecFns;
use sha2::Digest;

verus! {

/// What SHA-256 returns on the given bytes.  The digest is a function of
/// the bytes alone; its value is stated nowhere and only its length is
/// relied on.
pub uninterp spec fn spec_sha256(bytes: Seq<u8>) -> Seq<u8>;

/// Relies on `sha2::Sha256`: the digest depends on the input bytes alone,
/// and its output is 32 bytes.
#[verifier::external_body]
fn sha256(bytes: &[u8]) -> (r: Vec<u8>)
    ensures
        r@ == spec_sha256(bytes@),
        r@.len() == 32,
{
    sha2::Sha256::digest(bytes).to_vec()
}

/// The sixteen lowercase hex digits, low values first.
pub open spec fn spec_hex_digit(nibble: u8) -> char
    recommends
        nibble < 16,
{
    seq!['0', '1', '2', '3', '4', '5', '6', '7', '8', '9', 'a', 'b', 'c', 'd', 'e', 'f'][nibble as int]
}

/// Lowercase hex encoding: two digits per byte, high nibble first.
pub open spec fn spec_hex(bytes: Seq<u8>) -> Seq<char>
    decreases bytes.len(),
{
    if bytes.len() == 0 {
        Seq::empty()
    } else {
        seq![spec_hex_digit(bytes[0] >> 4), spec_hex_digit(bytes[0] & 0xf)] + spec_hex(
            bytes.drop_first(),
        )
    }
}

pub proof fn lemma_hex_len(bytes: Seq<u8>)
    ensures
        spec_hex(bytes).len() == 2 * bytes.len(),
    decreases bytes.len(),
{
    if bytes.len() > 0 {
        lemma_hex_len(bytes.drop_first());
    }
}

/// Relies on `hex::encode`: each byte becomes two lowercase hex digits,
/// high nibble first.
#[verifier::external_body]
fn hex_encode(bytes: &[u8]) -> (r: String)
    ensures
        r@ == spec_hex(bytes@),
{
    hex::encode(bytes)
}

/// The content digest of artifact bytes: lowercase hex SHA-256.
pub open spec fn spec_digest(bytes: Seq<u8>) -> Seq<char> {
    spec_hex(spec_sha256(bytes))
}

pub fn compute_digest(bytes: &[u8]) -> (r: String)
    ensures
        r@ == spec_digest(bytes@),
        r@.len() == 64,
{
    let hash = sha256(bytes);
    let r = hex_encode(hash.as_slice());
    proof {
        lemma_hex_len(hash@);
    }
    r
}

/// Maps the uppercase hex letters to lowercase; all other characters are
/// left alone.
pub open spec fn spec_lower_hex_char(c: char) -> char {
    if c == 'A' {
        'a'
    } else if c == 'B' {
        'b'
    } else if c == 'C' {
        'c'
    } else if c == 'D' {
        'd'
    } else if c == 'E' {
        'e'
    } else if c == 'F' {
        'f'
    } else {
        c
    }
}

pub open spec fn spec_lower_hex(s: Seq<char>) -> Seq<char> {
    s.map_values(|c: char| spec_lower_hex_char(c))
}

/// Case-insensitive equality of hex digests.
pub open spec fn spec_digest_matches(a: Seq<char>, b: Seq<char>) -> bool {
    spec_lower_hex(a) == spec_lower_hex(b)
}

fn lower_hex_char(c: char) -> (r: char)
    ensures
        r == spec_lower_hex_char(c),
{
    match c {
        'A' => 'a',
        'B' => 'b',
        'C' => 'c',
        'D' => 'd',
        'E' => 'e',
        'F' => 'f',
        _ => c,
    }
}

pub fn digest_matches(a: &str, b: &str) -> (r: bool)
    ensures
        r == spec_digest_matches(a@, b@),
{
    let n = a.unicode_len();
    let m = b.unicode_len();
    if n != m {
        proof {
            assert(spec_lower_hex(a@).len() != spec_lower_hex(b@).len());
        }
        return false;
    }
    let mut i: usize = 0;
    while i < n
        invariant
            n == a@.len(),
            n == b@.len(),
            i <= n,
            forall|k: int| 0 <= k < i ==> spec_lower_hex(a@)[k] == spec_lower_hex(b@)[k],
        decreases n - i,
    {
        let ca = lower_hex_char(a.get_char(i));
        let cb = lower_hex_char(b.get_char(i));
        if ca != cb {
            proof {
                assert(spec_lower_hex(a@)[i as int] != spec_lower_hex(b@)[i as int]);
            }
            return false;
        }
        i = i + 1;
    }
    proof {
        assert(spec_lower_hex(a@) =~= spec_lower_hex(b@));
    }
    true
}

} // verus!
