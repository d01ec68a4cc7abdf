//! The authentication signature: a SHA-256 hash chain over the client's
//! identity, a timestamp and the digest of the secret, in lowercase hex.
//!
//! This is hash chaining, not a keyed message-authentication code: it is kept
//! as it is for compatibility with the service and should not be taken to
//! resist more than the timestamp lets it.

use sha2::Digest;
use vstd::prelude::*;
use vstd::string::*;
use vstd::utf8::*;

verus! {

/// The SHA-256 digest of `data`.
pub uninterp spec fn sha256_digest(data: Seq<u8>) -> Seq<u8>;

/// The lowercase hexadecimal digit for `n`.
pub open spec fn hex_digit(n: int) -> char
    recommends
        0 <= n < 16,
{
    seq!['0', '1', '2', '3', '4', '5', '6', '7', '8', '9', 'a', 'b', 'c', 'd', 'e', 'f'][n]
}

/// Two lowercase hexadecimal digits per byte, high nibble first.
pub open spec fn hex_string(bytes: Seq<u8>) -> Seq<char> {
    Seq::new(
        2 * bytes.len(),
        |i: int|
            if i % 2 == 0 {
                hex_digit(bytes[i / 2] as int / 16)
            } else {
                hex_digit(bytes[i / 2] as int % 16)
            },
    )
}

/// `c` is one of `0`-`9`, `a`-`f`.
pub open spec fn is_lower_hex(c: char) -> bool {
    ('0' <= c && c <= '9') || ('a' <= c && c <= 'f')
}

/// The text that is hashed last: identity, timestamp and the hex digest of
/// the secret, one after the other with nothing between them.
pub open spec fn signing_input(client_id: Seq<char>, timestamp: Seq<char>, secret: Seq<char>) -> Seq<
    char,
> {
    client_id + timestamp + hex_string(sha256_digest(encode_utf8(secret)))
}

/// The signature of an identity, a timestamp and a secret.
pub open spec fn signature_of(client_id: Seq<char>, timestamp: Seq<char>, secret: Seq<char>) -> Seq<
    char,
> {
    hex_string(sha256_digest(encode_utf8(signing_input(client_id, timestamp, secret))))
}

/// Hashes `data` with `sha2::Sha256` through `Digest::digest`.
///
/// Trusted: the result is the SHA-256 digest of the bytes given, which is a
/// function of those bytes alone, and it is 32 bytes long (the output size
/// that the crate declares for `Sha256`).
#[verifier::external_body]
fn sha256(data: &[u8]) -> (digest: Vec<u8>)
    ensures
        digest@ == sha256_digest(data@),
        digest@.len() == 32,
{
    sha2::Sha256::digest(data).to_vec()
}

/// Encodes `bytes` with `hex::encode`.
///
/// Trusted: the crate maps each byte to two characters taken from
/// `0123456789abcdef`, the high four bits first, and joins them in order.
#[verifier::external_body]
fn hex_encode(bytes: &[u8]) -> (s: String)
    ensures
        s@ == hex_string(bytes@),
{
    hex::encode(bytes)
}

/// Every character of a hex string is a lowercase hexadecimal digit.
pub proof fn lemma_hex_string_chars(bytes: Seq<u8>)
    ensures
        hex_string(bytes).len() == 2 * bytes.len(),
        forall|i: int| 0 <= i < hex_string(bytes).len() ==> is_lower_hex(#[trigger] hex_string(bytes)[i]),
{
    assert forall|i: int| 0 <= i < hex_string(bytes).len() implies is_lower_hex(
        #[trigger] hex_string(bytes)[i],
    ) by {
        let b = bytes[i / 2] as int;
        lemma_hex_digits(b / 16, b / 16);
        lemma_hex_digits(b % 16, b % 16);
    }
}

/// The sixteen hexadecimal digits are lowercase and differ from one another.
proof fn lemma_hex_digits(m: int, n: int)
    requires
        0 <= m < 16,
        0 <= n < 16,
    ensures
        is_lower_hex(hex_digit(m)),
        hex_digit(m) == hex_digit(n) ==> m == n,
{
    let table = seq!['0', '1', '2', '3', '4', '5', '6', '7', '8', '9', 'a', 'b', 'c', 'd', 'e', 'f'];
    assert(table[0] == '0' && table[1] == '1' && table[2] == '2' && table[3] == '3');
    assert(table[4] == '4' && table[5] == '5' && table[6] == '6' && table[7] == '7');
    assert(table[8] == '8' && table[9] == '9' && table[10] == 'a' && table[11] == 'b');
    assert(table[12] == 'c' && table[13] == 'd' && table[14] == 'e' && table[15] == 'f');
}

/// SHA-256 tells the encodings of `x` and `y` apart unless they are equal.
pub open spec fn sha256_separates(x: Seq<char>, y: Seq<char>) -> bool {
    x != y ==> sha256_digest(encode_utf8(x)) != sha256_digest(encode_utf8(y))
}

/// Hex encoding loses nothing: equal encodings come from equal bytes.
pub proof fn lemma_hex_string_injective(a: Seq<u8>, b: Seq<u8>)
    requires
        hex_string(a) == hex_string(b),
    ensures
        a == b,
{
    assert(hex_string(a).len() == 2 * a.len());
    assert(hex_string(b).len() == 2 * b.len());
    assert forall|k: int| 0 <= k < a.len() implies a[k] == b[k] by {
        let x = a[k] as int;
        let y = b[k] as int;
        assert(hex_string(a)[2 * k] == hex_digit(x / 16));
        assert(hex_string(b)[2 * k] == hex_digit(y / 16));
        assert(hex_string(a)[2 * k + 1] == hex_digit(x % 16));
        assert(hex_string(b)[2 * k + 1] == hex_digit(y % 16));
        lemma_hex_digits(x / 16, y / 16);
        lemma_hex_digits(x % 16, y % 16);
    }
    assert(a =~= b);
}

/// The signing input keeps its three parts apart as long as only one of them
/// changes: two inputs that differ in exactly one part are different texts.
pub proof fn lemma_signing_input_changes(
    client_id: Seq<char>,
    timestamp: Seq<char>,
    secret: Seq<char>,
    client_id2: Seq<char>,
    timestamp2: Seq<char>,
    secret2: Seq<char>,
)
    requires
        (client_id != client_id2 && timestamp == timestamp2 && secret == secret2) || (client_id
            == client_id2 && timestamp != timestamp2 && secret == secret2) || (client_id
            == client_id2 && timestamp == timestamp2 && secret != secret2),
        sha256_separates(secret, secret2),
    ensures
        signing_input(client_id, timestamp, secret) != signing_input(
            client_id2,
            timestamp2,
            secret2,
        ),
{
    let h = hex_string(sha256_digest(encode_utf8(secret)));
    let h2 = hex_string(sha256_digest(encode_utf8(secret2)));
    let x = signing_input(client_id, timestamp, secret);
    let y = signing_input(client_id2, timestamp2, secret2);
    if x == y {
        assert(x.len() == client_id.len() + timestamp.len() + h.len());
        assert(y.len() == client_id2.len() + timestamp2.len() + h2.len());
        if secret != secret2 {
            lemma_hex_string_chars(sha256_digest(encode_utf8(secret)));
            lemma_hex_string_chars(sha256_digest(encode_utf8(secret2)));
            let base = client_id.len() + timestamp.len();
            assert forall|i: int| 0 <= i < h.len() implies h[i] == h2[i] by {
                assert(x[base + i] == h[i]);
                assert(y[base + i] == h2[i]);
            }
            assert(h =~= h2);
            lemma_hex_string_injective(
                sha256_digest(encode_utf8(secret)),
                sha256_digest(encode_utf8(secret2)),
            );
        } else if client_id != client_id2 {
            assert forall|i: int| 0 <= i < client_id.len() implies client_id[i] == client_id2[i] by {
                assert(x[i] == client_id[i]);
                assert(y[i] == client_id2[i]);
            }
            assert(client_id =~= client_id2);
        } else {
            let base = client_id.len();
            assert forall|i: int| 0 <= i < timestamp.len() implies timestamp[i] == timestamp2[i] by {
                assert(x[base + i] == timestamp[i]);
                assert(y[base + i] == timestamp2[i]);
            }
            assert(timestamp =~= timestamp2);
        }
    }
}

/// The signature depends on nothing but its three arguments.
pub proof fn lemma_signature_deterministic(
    client_id: Seq<char>,
    timestamp: Seq<char>,
    secret: Seq<char>,
    client_id2: Seq<char>,
    timestamp2: Seq<char>,
    secret2: Seq<char>,
)
    requires
        client_id == client_id2,
        timestamp == timestamp2,
        secret == secret2,
    ensures
        signature_of(client_id, timestamp, secret) == signature_of(client_id2, timestamp2, secret2),
{
}

/// Changing exactly one of identity, timestamp and secret changes the
/// signature, unless SHA-256 maps the two secrets or the two signing inputs
/// to one digest.
pub proof fn lemma_signature_changes(
    client_id: Seq<char>,
    timestamp: Seq<char>,
    secret: Seq<char>,
    client_id2: Seq<char>,
    timestamp2: Seq<char>,
    secret2: Seq<char>,
)
    requires
        (client_id != client_id2 && timestamp == timestamp2 && secret == secret2) || (client_id
            == client_id2 && timestamp != timestamp2 && secret == secret2) || (client_id
            == client_id2 && timestamp == timestamp2 && secret != secret2),
        sha256_separates(secret, secret2),
        sha256_separates(
            signing_input(client_id, timestamp, secret),
            signing_input(client_id2, timestamp2, secret2),
        ),
    ensures
        signature_of(client_id, timestamp, secret) != signature_of(client_id2, timestamp2, secret2),
{
    lemma_signing_input_changes(client_id, timestamp, secret, client_id2, timestamp2, secret2);
    let x = signing_input(client_id, timestamp, secret);
    let y = signing_input(client_id2, timestamp2, secret2);
    if signature_of(client_id, timestamp, secret) == signature_of(client_id2, timestamp2, secret2) {
        lemma_hex_string_injective(sha256_digest(encode_utf8(x)), sha256_digest(encode_utf8(y)));
    }
}

/// Computes the signature that authenticates `client_id` at `timestamp`.
pub fn compute_signature(client_id: &str, timestamp: &str, api_secret: &str) -> (sig: String)
    ensures
        sig@ == signature_of(client_id@, timestamp@, api_secret@),
        sig@.len() == 64,
        forall|i: int| 0 <= i < 64 ==> is_lower_hex(#[trigger] sig@[i]),
{
    let secret_digest = sha256(api_secret.as_bytes());
    let secret_hash = hex_encode(secret_digest.as_slice());
    let mut input = String::from_str(client_id);
    input.append(timestamp);
    input.append(secret_hash.as_str());
    let digest = sha256(input.as_str().as_bytes());
    proof {
        lemma_hex_string_chars(digest@);
    }
    hex_encode(digest.as_slice())
}

} // verus!
