use vstd::prelude::*;
use vstd::arithmetic::div_mod::lemma_fundamental_div_mod;
use vstd::string::*;
use hmac::Mac;
use crate::strutil::str_starts_with;

verus! {

/// A hexadecimal digit, either case.
pub open spec fn is_hex_digit(c: char) -> bool {
    ||| ('0' as u32) <= (c as u32) && (c as u32) <= ('9' as u32)
    ||| ('a' as u32) <= (c as u32) && (c as u32) <= ('f' as u32)
    ||| ('A' as u32) <= (c as u32) && (c as u32) <= ('F' as u32)
}

/// The value a hexadecimal digit denotes.
pub open spec fn hex_digit_val(c: char) -> int {
    if ('0' as u32) <= (c as u32) && (c as u32) <= ('9' as u32) {
        (c as u32) - ('0' as u32)
    } else if ('a' as u32) <= (c as u32) && (c as u32) <= ('f' as u32) {
        (c as u32) - ('a' as u32) + 10
    } else {
        (c as u32) - ('A' as u32) + 10
    }
}

/// A well-formed hexadecimal string: an even number of hex digits.
pub open spec fn is_hex_str(s: Seq<char>) -> bool {
    s.len() % 2 == 0 && forall|i: int| 0 <= i < s.len() ==> is_hex_digit(#[trigger] s[i])
}

/// The bytes a hexadecimal string denotes, two digits to a byte, high
/// digit first.
pub open spec fn spec_hex_decode(s: Seq<char>) -> Seq<u8> {
    Seq::new(s.len() / 2, |i: int| (16 * hex_digit_val(s[2 * i]) + hex_digit_val(s[2 * i + 1])) as u8)
}

/// The lowercase digit for a value below 16.
pub open spec fn spec_hex_digit_char(v: int) -> char {
    if v == 0 { '0' }
    else if v == 1 { '1' }
    else if v == 2 { '2' }
    else if v == 3 { '3' }
    else if v == 4 { '4' }
    else if v == 5 { '5' }
    else if v == 6 { '6' }
    else if v == 7 { '7' }
    else if v == 8 { '8' }
    else if v == 9 { '9' }
    else if v == 10 { 'a' }
    else if v == 11 { 'b' }
    else if v == 12 { 'c' }
    else if v == 13 { 'd' }
    else if v == 14 { 'e' }
    else { 'f' }
}

/// The lowercase hexadecimal rendering of bytes, two digits to a byte.
pub open spec fn spec_hex_encode(b: Seq<u8>) -> Seq<char> {
    Seq::new(
        2 * b.len(),
        |i: int|
            if i % 2 == 0 {
                spec_hex_digit_char(b[i / 2] as int / 16)
            } else {
                spec_hex_digit_char(b[i / 2] as int % 16)
            },
    )
}

proof fn lemma_hex_digit_char_val(v: int)
    requires
        0 <= v < 16,
    ensures
        is_hex_digit(spec_hex_digit_char(v)),
        hex_digit_val(spec_hex_digit_char(v)) == v,
{
}

/// Law: hexadecimal round trip. The encoding of any bytes is a well-formed
/// hexadecimal string, and decoding it gives the bytes back.
pub proof fn lemma_hex_encode_decodes(b: Seq<u8>)
    ensures
        is_hex_str(spec_hex_encode(b)),
        spec_hex_decode(spec_hex_encode(b)) == b,
{
    let enc = spec_hex_encode(b);
    assert forall|i: int| 0 <= i < enc.len() implies is_hex_digit(#[trigger] enc[i]) by {
        let v = if i % 2 == 0 {
            b[i / 2] as int / 16
        } else {
            b[i / 2] as int % 16
        };
        lemma_hex_digit_char_val(v);
    }
    assert forall|i: int| 0 <= i < b.len() implies #[trigger] spec_hex_decode(enc)[i] == b[i] by {
        assert(enc[2 * i] == spec_hex_digit_char(b[i] as int / 16));
        assert(enc[2 * i + 1] == spec_hex_digit_char(b[i] as int % 16));
        lemma_hex_digit_char_val(b[i] as int / 16);
        lemma_hex_digit_char_val(b[i] as int % 16);
        lemma_fundamental_div_mod(b[i] as int, 16);
    }
    assert(spec_hex_decode(enc) =~= b);
}

/// Relies on hex::decode: it fails exactly on input of odd length or with a
/// character that is no hex digit, and otherwise yields the bytes the digit
/// pairs denote.
#[verifier::external_body]
fn hex_decode_str(s: &str) -> (r: Option<Vec<u8>>)
    ensures
        r is Some <==> is_hex_str(s@),
        r matches Some(v) ==> v@ == spec_hex_decode(s@),
{
    hex::decode(s).ok()
}

/// The authentication tag HMAC-SHA256 computes over a message under a key: a
/// function of the two alone.
pub uninterp spec fn hmac_sha256_of(key: Seq<u8>, data: Seq<u8>) -> Seq<u8>;

/// Relies on the hmac crate's Hmac<Sha256> with sha2: the 32-byte tag is a
/// function of key and message alone, and HMAC derives a fit key from a key
/// of any length, so new_from_slice cannot fail here.
#[verifier::external_body]
fn hmac_sha256(key: &[u8], data: &[u8]) -> (r: Vec<u8>)
    ensures
        r@ == hmac_sha256_of(key@, data@),
        r@.len() == 32,
{
    let mut mac = <hmac::Hmac<sha2::Sha256> as Mac>::new_from_slice(key).unwrap();
    mac.update(data);
    mac.finalize().into_bytes().to_vec()
}

/// Equality of two byte strings of one length, inspecting every byte with no
/// early exit, so the time taken does not depend on where they differ.
fn bytes_eq_constant_time(a: &[u8], b: &[u8]) -> (r: bool)
    requires
        a@.len() == b@.len(),
    ensures
        r == (a@ == b@),
{
    let n = a.len();
    let mut diff: u8 = 0;
    let mut i: usize = 0;
    while i < n
        invariant
            n == a@.len(),
            n == b@.len(),
            i <= n,
            (diff == 0) == (forall|j: int| 0 <= j < i ==> a@[j] == b@[j]),
        decreases n - i,
    {
        let x = a[i];
        let y = b[i];
        let d = x ^ y;
        proof {
            assert((x ^ y == 0) == (x == y)) by (bit_vector);
        }
        let ghost diff0 = diff;
        proof {
            assert(((diff0 | d) == 0) == (diff0 == 0 && d == 0)) by (bit_vector);
        }
        diff = diff | d;
        i += 1;
    }
    if diff == 0 {
        assert(a@ =~= b@);
        true
    } else {
        false
    }
}

/// A header authenticates a payload under a secret when it is the literal
/// prefix and a hexadecimal string whose bytes are the payload's HMAC-SHA256
/// tag under the secret.
pub open spec fn spec_verify_signature(
    secret: Seq<u8>,
    payload: Seq<u8>,
    header: Seq<char>,
) -> bool {
    &&& header.len() >= 7
    &&& header.subrange(0, 7) == "sha256="@
    &&& is_hex_str(header.skip(7))
    &&& spec_hex_decode(header.skip(7)) == hmac_sha256_of(secret, payload)
}

/// Helper function for verifying GitHub webhook signature
pub fn verify_github_signature(secret: &str, payload: &[u8], signature_header: &str) -> (r: bool)
    ensures
        r == spec_verify_signature(secret.spec_bytes(), payload@, signature_header@),
{
    proof {
        reveal_strlit("sha256=");
    }
    if !str_starts_with(signature_header, "sha256=") {
        return false;
    }
    let len = signature_header.unicode_len();
    let hexpart = signature_header.substring_char(7, len);
    assert(hexpart@ =~= signature_header@.skip(7));
    let provided = match hex_decode_str(hexpart) {
        Some(v) => v,
        None => {
            return false;
        },
    };
    let computed = hmac_sha256(secret.as_bytes(), payload);
    if provided.len() != computed.len() {
        assert(provided@ != computed@) by {
            assert(provided@.len() != computed@.len());
        }
        return false;
    }
    bytes_eq_constant_time(computed.as_slice(), provided.as_slice())
}

/// Law: signature round trip. The header built of the literal prefix and the
/// lowercase hexadecimal rendering of the payload's tag under the secret
/// verifies.
pub proof fn lemma_verify_signature_round_trip(secret: Seq<u8>, payload: Seq<u8>)
    ensures
        spec_verify_signature(
            secret,
            payload,
            "sha256="@ + spec_hex_encode(hmac_sha256_of(secret, payload)),
        ),
{
    reveal_strlit("sha256=");
    let mac = hmac_sha256_of(secret, payload);
    lemma_hex_encode_decodes(mac);
    let header = "sha256="@ + spec_hex_encode(mac);
    assert(header.subrange(0, 7) =~= "sha256="@);
    assert(header.skip(7) =~= spec_hex_encode(mac));
}

/// Law: a header carrying any bytes other than the payload's tag under the
/// secret does not verify, however well-formed.
pub proof fn lemma_verify_signature_rejects_other(secret: Seq<u8>, payload: Seq<u8>, other: Seq<u8>)
    requires
        other != hmac_sha256_of(secret, payload),
    ensures
        !spec_verify_signature(secret, payload, "sha256="@ + spec_hex_encode(other)),
{
    reveal_strlit("sha256=");
    let header = "sha256="@ + spec_hex_encode(other);
    lemma_hex_encode_decodes(other);
    assert(header.skip(7) =~= spec_hex_encode(other));
}

} // verus!
