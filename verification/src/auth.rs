use hmac::Mac;
use vstd::prelude::*;

verus! {

/// Why signature validation failed: the signing key could not be obtained, or
/// the presented tag does not match the payload.
pub enum ValidationError {
    EnvironmentError,
    SignatureMismatchError,
}

/// ASCII code of the lowercase hex digit for a nibble.
pub open spec fn hex_digit(n: u8) -> u8
    recommends
        n < 16,
{
    if n < 10 {
        (48 + n) as u8
    } else {
        (87 + n) as u8
    }
}

/// The lowercase hex text of a byte string: two digits per byte, high nibble first.
pub open spec fn hex_lower(s: Seq<u8>) -> Seq<u8> {
    Seq::new(
        2 * s.len(),
        |i: int|
            if i % 2 == 0 {
                hex_digit(s[i / 2] >> 4)
            } else {
                hex_digit(s[i / 2] & 15)
            },
    )
}

/// Encodes a byte string as lowercase hex text.
pub fn hex_encode(s: &[u8]) -> (r: Vec<u8>)
    ensures
        r@ == hex_lower(s@),
{
    let mut out: Vec<u8> = Vec::new();
    let mut i: usize = 0;
    while i < s.len()
        invariant
            i <= s.len(),
            out@.len() == 2 * i,
            forall|j: int| 0 <= j < out@.len() ==> out@[j] == hex_lower(s@)[j],
        decreases s.len() - i,
    {
        let b = s[i];
        let hi = b >> 4;
        let lo = b & 15;
        proof {
            assert(forall|x: u8| (x >> 4) < 16 && (x & 15) < 16) by (bit_vector);
        }
        let hc = if hi < 10 {
            48 + hi
        } else {
            87 + hi
        };
        let lc = if lo < 10 {
            48 + lo
        } else {
            87 + lo
        };
        out.push(hc);
        out.push(lc);
        i += 1;
    }
    proof {
        assert(out@ =~= hex_lower(s@));
    }
    out
}

/// Compares two byte strings in time that depends only on their lengths, never
/// on where the first differing byte sits: the loop accumulates differences
/// instead of returning at the first one.
pub fn ct_eq(a: &[u8], b: &[u8]) -> (r: bool)
    ensures
        r == (a@ == b@),
{
    if a.len() != b.len() {
        proof {
            assert(a@ != b@);
        }
        return false;
    }
    let mut diff: u8 = 0;
    let mut i: usize = 0;
    while i < a.len()
        invariant
            a@.len() == b@.len(),
            i <= a.len(),
            (diff == 0) <==> (forall|j: int| 0 <= j < i ==> a@[j] == b@[j]),
        decreases a.len() - i,
    {
        let x = a[i] ^ b[i];
        proof {
            assert(forall|p: u8, q: u8| ((p ^ q) == 0) == (p == q)) by (bit_vector);
            assert(forall|d: u8, p: u8| ((d | p) == 0) == (d == 0 && p == 0)) by (bit_vector);
        }
        diff = diff | x;
        i += 1;
    }
    let r = diff == 0;
    proof {
        if diff == 0 {
            assert(a@ =~= b@);
        } else {
            if a@ == b@ {
                assert(forall|j: int| 0 <= j < a@.len() ==> a@[j] == b@[j]);
            }
        }
    }
    r
}

/// The keyed MAC over a message: a function of key and message alone. What
/// this function is on given values is known only through `hmac_sha256`.
pub uninterp spec fn hmac_sha256_of(key: Seq<u8>, msg: Seq<u8>) -> Seq<u8>;

/// Relies on hmac::Hmac over sha2::Sha256: the tag depends on the key and the
/// message alone and is 32 bytes long, the SHA-256 output size. HMAC accepts
/// keys of every length (shorter ones are padded, longer ones hashed), so
/// `new_from_slice` never fails here.
#[verifier::external_body]
fn hmac_sha256(key: &[u8], msg: &[u8]) -> (r: Vec<u8>)
    ensures
        r@ == hmac_sha256_of(key@, msg@),
        r@.len() == 32,
{
    let mut mac = <hmac::Hmac<sha2::Sha256> as Mac>::new_from_slice(key)
        .expect("HMAC accepts keys of every length");
    mac.update(msg);
    mac.finalize().into_bytes().to_vec()
}

/// The one check that authenticates a request: the presented tag is exactly
/// the lowercase hex text of the keyed MAC over the payload bytes.
pub open spec fn tag_matches(key: Seq<u8>, payload: Seq<u8>, tag: Seq<u8>) -> bool {
    tag == hex_lower(hmac_sha256_of(key, payload))
}

/// Checks a claimant tag against the keyed MAC of the payload bytes. The key
/// is handed in by the caller, who reads it from the environment once; a
/// caller without a key learns so through `EnvironmentError`. The tag is
/// accepted exactly when it is the lowercase hex text of the MAC; the
/// comparison is constant-time over the tag's length.
pub fn validate(key: &Option<Vec<u8>>, payload: &[u8], tag: &[u8]) -> (r: Result<
    (),
    ValidationError,
>)
    ensures
        r is Ok <==> (key matches Some(k) && tag_matches(k@, payload@, tag@)),
        r == Err::<(), ValidationError>(ValidationError::EnvironmentError) <==> key is None,
        r == Err::<(), ValidationError>(ValidationError::SignatureMismatchError) <==> (
        key matches Some(k) && !tag_matches(k@, payload@, tag@)),
{
    let k = match key {
        Some(k) => k,
        None => return Err(ValidationError::EnvironmentError),
    };
    let mac = hmac_sha256(k.as_slice(), payload);
    let expected = hex_encode(mac.as_slice());
    if ct_eq(tag, expected.as_slice()) {
        Ok(())
    } else {
        Err(ValidationError::SignatureMismatchError)
    }
}

} // verus!
