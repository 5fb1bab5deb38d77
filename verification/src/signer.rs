//! Ed25519 signing of forwarded event bodies.
//!
//! A signature covers the exact concatenation `timestamp ++ body` (no
//! delimiter) and is sent downstream as lowercase hex.

use vstd::prelude::*;

verus! {

#[verifier::external_type_specification]
#[verifier::external_body]
pub struct ExSigningKey(ed25519_dalek::SigningKey);

/// The Ed25519 signature bytes over `msg` under the 32-byte secret key
/// `key`: a function of the key and message alone (RFC 8032 Ed25519
/// signing is deterministic).
pub uninterp spec fn ed25519_sig(key: Seq<u8>, msg: Seq<u8>) -> Seq<u8>;

/// The lowercase hex digit for a value in `0 .. 16`.
pub open spec fn hex_digit(n: int) -> char {
    seq!['0', '1', '2', '3', '4', '5', '6', '7', '8', '9', 'a', 'b', 'c', 'd', 'e', 'f'][n]
}

/// Lowercase hex encoding: two digits per byte, first byte first,
/// high nibble first.
pub open spec fn hex_of(data: Seq<u8>) -> Seq<char>
    decreases data.len(),
{
    if data.len() == 0 {
        Seq::empty()
    } else {
        seq![
            hex_digit(data.first() as int / 16),
            hex_digit(data.first() as int % 16),
        ] + hex_of(data.drop_first())
    }
}

pub proof fn lemma_hex_of_len(data: Seq<u8>)
    ensures
        hex_of(data).len() == 2 * data.len(),
    decreases data.len(),
{
    if data.len() > 0 {
        lemma_hex_of_len(data.drop_first());
    }
}

/// The hex-encoded signature a forwarding attempt carries: the Ed25519
/// signature under `key` over `timestamp ++ body`, in lowercase hex.
pub open spec fn signature_hex(key: Seq<u8>, timestamp: Seq<u8>, body: Seq<u8>) -> Seq<char> {
    hex_of(ed25519_sig(key, timestamp + body))
}

/// The process-wide signing credential: built once at startup from the
/// decoded 32 secret-key bytes, then shared read-only by every
/// forwarding task.
pub struct Signer {
    key: ed25519_dalek::SigningKey,
    key_bytes: Ghost<Seq<u8>>,
}

impl Signer {
    /// The secret-key bytes this credential was built from.
    pub closed spec fn key_bytes(&self) -> Seq<u8> {
        self.key_bytes@
    }

    /// Build the credential for exactly these 32 secret-key bytes.
    /// This is the only constructor, so a `Signer`'s key field always
    /// belongs to its recorded key bytes.
    pub fn new(secret: &[u8; 32]) -> (s: Signer)
        ensures
            s.key_bytes() == secret@,
    {
        Signer { key: key_from_bytes(secret), key_bytes: Ghost(secret@) }
    }

    /// Relies on `ed25519_dalek::SigningKey::sign` (via the `Signer`
    /// trait): the deterministic RFC 8032 Ed25519 signature, 64 bytes,
    /// a function of the secret key and the message alone. `self.key`
    /// was built from `self.key_bytes()` by `Signer::new`.
    #[verifier::external_body]
    fn sign_raw(&self, msg: &Vec<u8>) -> (r: Vec<u8>)
        ensures
            r@ == ed25519_sig(self.key_bytes(), msg@),
            r@.len() == 64,
    {
        ed25519_dalek::Signer::sign(&self.key, msg.as_slice())
            .to_bytes()
            .to_vec()
    }

    /// Sign one attempt: the lowercase hex Ed25519 signature over the
    /// exact concatenation `timestamp ++ body`, no delimiter.
    pub fn sign(&self, timestamp: &Vec<u8>, body: &Vec<u8>) -> (r: String)
        ensures
            r@ == signature_hex(self.key_bytes(), timestamp@, body@),
            r@.len() == 128,
    {
        let mut msg: Vec<u8> = Vec::new();
        let mut i: usize = 0;
        while i < timestamp.len()
            invariant
                i <= timestamp@.len(),
                msg@ == timestamp@.subrange(0, i as int),
            decreases timestamp@.len() - i,
        {
            msg.push(timestamp[i]);
            i += 1;
        }
        assert(msg@ =~= timestamp@);
        let mut j: usize = 0;
        while j < body.len()
            invariant
                j <= body@.len(),
                msg@ == timestamp@ + body@.subrange(0, j as int),
            decreases body@.len() - j,
        {
            msg.push(body[j]);
            proof {
                assert(msg@ =~= timestamp@ + body@.subrange(0, j + 1));
            }
            j += 1;
        }
        assert(msg@ =~= timestamp@ + body@);
        let sig = self.sign_raw(&msg);
        proof {
            lemma_hex_of_len(ed25519_sig(self.key_bytes(), timestamp@ + body@));
        }
        hex_encode(&sig)
    }
}

/// Relies on `ed25519_dalek::SigningKey::from_bytes`: the signing key
/// for these 32 secret-key bytes.
#[verifier::external_body]
fn key_from_bytes(secret: &[u8; 32]) -> ed25519_dalek::SigningKey {
    ed25519_dalek::SigningKey::from_bytes(secret)
}

/// Relies on `hex::encode`: lowercase hex, two digits per byte, first
/// byte first, high nibble first.
#[verifier::external_body]
fn hex_encode(data: &Vec<u8>) -> (r: String)
    ensures
        r@ == hex_of(data@),
{
    hex::encode(data)
}

/// Law: the signature covers the plain concatenation and nothing
/// else. No delimiter stands between timestamp and body, so two
/// timestamp–body splits of the same byte run sign identically.
pub proof fn lemma_sign_covers_concatenation(
    key: Seq<u8>,
    t1: Seq<u8>,
    b1: Seq<u8>,
    t2: Seq<u8>,
    b2: Seq<u8>,
)
    requires
        t1 + b1 == t2 + b2,
    ensures
        signature_hex(key, t1, b1) == signature_hex(key, t2, b2),
{
}

/// Law: signing is deterministic. The signature hex is a function of
/// the key bytes, the timestamp and the body alone, so repeated calls
/// of `Signer::sign` with identical inputs return identical text.
pub proof fn lemma_sign_deterministic(
    key: Seq<u8>,
    timestamp: Seq<u8>,
    body: Seq<u8>,
    r1: Seq<char>,
    r2: Seq<char>,
)
    requires
        r1 == signature_hex(key, timestamp, body),
        r2 == signature_hex(key, timestamp, body),
    ensures
        r1 == r2,
{
}

} // verus!
