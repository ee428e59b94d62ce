use base64::Engine;
use rand::Rng;
use sha2::Digest;
use vstd::prelude::*;
use vstd::utf8::encode_utf8;

verus! {

/// What SHA-256 gives for a sequence of bytes.
pub uninterp spec fn sha256_digest(b: Seq<u8>) -> Seq<u8>;

/// The URL-safe base64 text of a sequence of bytes, without padding.
pub uninterp spec fn base64_url_unpadded(b: Seq<u8>) -> Seq<char>;

/// The characters that a random authorization state is drawn from.
pub open spec fn state_charset() -> Seq<char> {
    "ABCDEFGHIJKLMNOPQRSTUVWXYZ0123456789"@
}

/// Relies on rand's `thread_rng` and `Rng::gen_range`, which draws a value
/// from the half-open range and panics on an empty one. (`thread_rng` also
/// panics if the operating system cannot seed it, whatever the input.)
#[verifier::external_body]
fn random_below(bound: usize) -> (r: usize)
    requires
        bound > 0,
    ensures
        r < bound,
{
    rand::thread_rng().gen_range(0..bound)
}

/// Relies on sha2's `Sha256::digest`: a 32-byte digest of the input.
#[verifier::external_body]
fn sha256(b: &[u8]) -> (r: Vec<u8>)
    ensures
        r@ == sha256_digest(b@),
        r@.len() == 32,
{
    sha2::Sha256::digest(b).to_vec()
}

/// Relies on base64's `URL_SAFE_NO_PAD` engine and its `encode`, which
/// panics only when the encoded length overflows `usize`.
#[verifier::external_body]
fn base64_url_encode(b: &[u8]) -> (r: String)
    requires
        b@.len() <= usize::MAX / 2,
    ensures
        r@ == base64_url_unpadded(b@),
{
    base64::engine::general_purpose::URL_SAFE_NO_PAD.encode(b)
}

/// A random string of `len` characters drawn from upper-case letters and digits,
/// used as the PKCE code verifier of a login.
pub fn gen_random_state(len: usize) -> (r: String)
    ensures
        r@.len() == len,
        forall|i: int| 0 <= i < len ==> state_charset().contains(#[trigger] r@[i]),
{
    let charset = "ABCDEFGHIJKLMNOPQRSTUVWXYZ0123456789";
    proof {
        reveal_strlit("ABCDEFGHIJKLMNOPQRSTUVWXYZ0123456789");
    }
    let mut out = String::new();
    let mut k: usize = 0;
    while k < len
        invariant
            k <= len,
            charset@ == state_charset(),
            charset@.len() == 36,
            out@.len() == k,
            forall|i: int| 0 <= i < k ==> state_charset().contains(#[trigger] out@[i]),
        decreases len - k,
    {
        let idx = random_below(36);
        let one = charset.substring_char(idx, idx + 1);
        let ghost before = out@;
        out.append(one);
        assert(one@[0] == state_charset()[idx as int]);
        assert forall|i: int| 0 <= i < k + 1 implies state_charset().contains(#[trigger] out@[i]) by {
            if i < k {
                assert(out@[i] == before[i]);
            } else {
                assert(out@[i] == one@[0]);
            }
        }
        k = k + 1;
    }
    out
}

/// The PKCE challenge of a verifier: SHA-256 of its bytes, in URL-safe base64
/// without padding.
pub fn gen_challenge(state: &str) -> (r: String)
    ensures
        r@ == base64_url_unpadded(sha256_digest(encode_utf8(state@))),
{
    let digest = sha256(state.as_bytes());
    base64_url_encode(digest.as_slice())
}

} // verus!
