//! Environment identities: a short hexadecimal digest of everything that
//! decides what an environment contains.

use sha2::Digest;
use vstd::prelude::*;
use vstd::utf8::encode_utf8;

verus! {

/// Number of hexadecimal characters kept from the digest.
pub const IDENTITY_LEN: usize = 16;

/// The SHA-256 digest of a byte sequence.
pub uninterp spec fn sha256_of(data: Seq<u8>) -> Seq<u8>;

/// The lowercase hexadecimal digit for a value below 16.
pub open spec fn hex_digit(n: u8) -> char {
    seq!['0', '1', '2', '3', '4', '5', '6', '7', '8', '9', 'a', 'b', 'c', 'd', 'e', 'f'][n as int]
}

pub open spec fn is_hex_digit(c: char) -> bool {
    ('0' <= c && c <= '9') || ('a' <= c && c <= 'f')
}

/// Two lowercase hexadecimal digits per byte, high nibble first.
pub open spec fn hex_of(b: Seq<u8>) -> Seq<char> {
    Seq::new(
        2 * b.len(),
        |i: int|
            if i % 2 == 0 {
                hex_digit(b[i / 2] / 16)
            } else {
                hex_digit(b[i / 2] % 16)
            },
    )
}

/// The bytes fed to the digest: runtime version, authoritative file, host OS.
pub open spec fn identity_input(version: Seq<char>, content: Seq<u8>, os: Seq<char>) -> Seq<u8> {
    encode_utf8(version) + content + encode_utf8(os)
}

/// The identity of an environment: the first sixteen hexadecimal characters
/// of the digest of its inputs.
pub open spec fn identity_of(version: Seq<char>, content: Seq<u8>, os: Seq<char>) -> Seq<char> {
    hex_of(sha256_of(identity_input(version, content, os))).take(IDENTITY_LEN as int)
}

/// Relies on sha2's `Sha256::digest`: the 32-byte SHA-256 digest of the data.
#[verifier::external_body]
fn sha256_digest(data: &[u8]) -> (r: Vec<u8>)
    ensures
        r@ == sha256_of(data@),
        r@.len() == 32,
{
    sha2::Sha256::digest(data).to_vec()
}

/// Relies on `hex::encode`: two lowercase digits per byte, high nibble first.
#[verifier::external_body]
fn hex_encode(b: &[u8]) -> (r: String)
    ensures
        r@ == hex_of(b@),
{
    hex::encode(b)
}

fn append_bytes(out: &mut Vec<u8>, b: &[u8])
    ensures
        final(out)@ == old(out)@ + b@,
{
    let mut i: usize = 0;
    while i < b.len()
        invariant
            i <= b@.len(),
            out@ == old(out)@ + b@.take(i as int),
        decreases b@.len() - i,
    {
        out.push(b[i]);
        i = i + 1;
        assert(b@.take(i as int) == b@.take(i as int - 1).push(b@[i as int - 1]));
    }
    assert(b@.take(b@.len() as int) == b@);
}

/// The hexadecimal form of a prefix of bytes is the matching prefix of the
/// hexadecimal form of all of them.
pub proof fn lemma_hex_prefix(b: Seq<u8>, n: int)
    requires
        0 <= n <= b.len(),
    ensures
        hex_of(b.take(n)) == hex_of(b).take(2 * n),
{
    assert(hex_of(b.take(n)) =~= hex_of(b).take(2 * n));
}

/// Computes the identity of an environment from its runtime version, the
/// bytes of its authoritative file and the host OS identifier.
pub fn compute_identity(version: &str, content: &[u8], os: &str) -> (r: String)
    ensures
        r@ == identity_of(version@, content@, os@),
        r@.len() == IDENTITY_LEN,
        forall|i: int| 0 <= i < r@.len() ==> is_hex_digit(#[trigger] r@[i]),
{
    let mut data: Vec<u8> = Vec::new();
    append_bytes(&mut data, version.as_bytes());
    append_bytes(&mut data, content);
    append_bytes(&mut data, os.as_bytes());
    let digest = sha256_digest(data.as_slice());
    let mut prefix: Vec<u8> = Vec::new();
    let mut i: usize = 0;
    while i < IDENTITY_LEN / 2
        invariant
            i <= IDENTITY_LEN / 2,
            digest@.len() == 32,
            prefix@ == digest@.take(i as int),
        decreases IDENTITY_LEN / 2 - i,
    {
        prefix.push(digest[i]);
        i = i + 1;
        assert(digest@.take(i as int) == digest@.take(i as int - 1).push(digest@[i as int - 1]));
    }
    let r = hex_encode(prefix.as_slice());
    proof {
        lemma_hex_prefix(digest@, 8);
        assert(data@ == identity_input(version@, content@, os@));
        assert forall|i: int| 0 <= i < r@.len() implies is_hex_digit(#[trigger] r@[i]) by {
            let b = prefix@[i / 2];
            assert(b / 16 < 16 && b % 16 < 16);
        }
    }
    r
}

/// Identities are deterministic: the same runtime version, file bytes and OS
/// always give the same identity, so repeated computations agree.
pub proof fn lemma_identity_deterministic(
    version: Seq<char>,
    content: Seq<u8>,
    os: Seq<char>,
    first: Seq<char>,
    second: Seq<char>,
)
    requires
        first == identity_of(version, content, os),
        second == identity_of(version, content, os),
    ensures
        first == second,
{
}

} // verus!
