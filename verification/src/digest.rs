//! SHA-256 digests rendered as `sha256:<lowercase hex>`.

use sha2::Digest;
use vstd::prelude::*;

verus! {

/// The SHA-256 digest (FIPS 180-4) of a byte string.
pub uninterp spec fn sha256_spec(data: Seq<u8>) -> Seq<u8>;

/// The lowercase hexadecimal digit for a nibble.
pub open spec fn hex_digit(nibble: u8) -> char {
    if nibble < 10 {
        (nibble + 48) as char
    } else {
        (nibble + 87) as char
    }
}

/// Lowercase hexadecimal text of a byte string, two digits per byte,
/// most significant nibble first.
pub open spec fn hex_lower(data: Seq<u8>) -> Seq<char>
    decreases data.len(),
{
    if data.len() == 0 {
        Seq::empty()
    } else {
        seq![hex_digit(data[0] / 16), hex_digit(data[0] % 16)] + hex_lower(data.drop_first())
    }
}

/// The text `sha256:` followed by the lowercase hex of the digest of `data`.
pub open spec fn sha256_hex_spec(data: Seq<u8>) -> Seq<char> {
    "sha256:"@ + hex_lower(sha256_spec(data))
}

/// Two hex digits per byte.
pub proof fn lemma_hex_lower_len(data: Seq<u8>)
    ensures
        hex_lower(data).len() == 2 * data.len(),
    decreases data.len(),
{
    if data.len() > 0 {
        lemma_hex_lower_len(data.drop_first());
    }
}

proof fn lemma_hex_digit_injective(x: u8, y: u8)
    requires
        x < 16,
        y < 16,
        hex_digit(x) == hex_digit(y),
    ensures
        x == y,
{
    assert(hex_digit(x) as u32 == hex_digit(y) as u32);
}

/// The hex text determines the bytes: different byte strings never render
/// the same, so a digest's text identifies the digest.
pub proof fn lemma_hex_lower_injective(a: Seq<u8>, b: Seq<u8>)
    requires
        hex_lower(a) == hex_lower(b),
    ensures
        a == b,
    decreases a.len(),
{
    lemma_hex_lower_len(a);
    lemma_hex_lower_len(b);
    if a.len() > 0 {
        let ha = hex_lower(a);
        let hb = hex_lower(b);
        assert(ha[0] == hex_digit(a[0] / 16));
        assert(hb[0] == hex_digit(b[0] / 16));
        assert(ha[1] == hex_digit(a[0] % 16));
        assert(hb[1] == hex_digit(b[0] % 16));
        lemma_hex_digit_injective(a[0] / 16, b[0] / 16);
        lemma_hex_digit_injective(a[0] % 16, b[0] % 16);
        assert(hex_lower(a.drop_first()) =~= ha.subrange(2, ha.len() as int));
        assert(hex_lower(b.drop_first()) =~= hb.subrange(2, hb.len() as int));
        lemma_hex_lower_injective(a.drop_first(), b.drop_first());
        assert(a =~= seq![a[0]] + a.drop_first());
        assert(b =~= seq![b[0]] + b.drop_first());
    } else {
        assert(a =~= b);
    }
}

/// Two `sha256:` texts are equal exactly when the digests they render are.
pub proof fn lemma_sha256_hex_identifies_digest(a: Seq<u8>, b: Seq<u8>)
    ensures
        sha256_hex_spec(a) == sha256_hex_spec(b) <==> sha256_spec(a) == sha256_spec(b),
{
    if sha256_hex_spec(a) == sha256_hex_spec(b) {
        let prefix = "sha256:"@;
        let ha = hex_lower(sha256_spec(a));
        let hb = hex_lower(sha256_spec(b));
        assert(ha =~= sha256_hex_spec(a).subrange(prefix.len() as int, sha256_hex_spec(a).len() as int));
        assert(hb =~= sha256_hex_spec(b).subrange(prefix.len() as int, sha256_hex_spec(b).len() as int));
        lemma_hex_lower_injective(sha256_spec(a), sha256_spec(b));
    }
}

/// Calls `sha2::Sha256::digest` (through the `sha2::Digest` trait).
/// Claims that the result is the SHA-256 digest of `data`, named by
/// `sha256_spec`, and that it is 32 bytes long, the output size of SHA-256.
#[verifier::external_body]
fn sha256_digest(data: &[u8]) -> (digest: Vec<u8>)
    ensures
        digest@ == sha256_spec(data@),
        digest@.len() == 32,
{
    sha2::Sha256::digest(data).to_vec()
}

/// Calls `hex::encode`. Claims what the crate documents: the lowercase
/// hexadecimal text of the bytes, two digits per byte.
#[verifier::external_body]
pub(crate) fn hex_encode(data: &[u8]) -> (text: String)
    ensures
        text@ == hex_lower(data@),
{
    hex::encode(data)
}

/// `sha256:` followed by the lowercase hex SHA-256 digest of `data`.
pub fn sha256_hex(data: &[u8]) -> (text: String)
    ensures
        text@ == sha256_hex_spec(data@),
        text@.len() == 71,
{
    let digest = sha256_digest(data);
    let hex = hex_encode(digest.as_slice());
    proof {
        lemma_hex_lower_len(digest@);
        reveal_strlit("sha256:");
    }
    let mut text = String::from_str("sha256:");
    text.append(hex.as_str());
    text
}

} // verus!
