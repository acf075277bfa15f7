use k256::ecdsa::signature::{Signer, Verifier};
use rand::rngs::OsRng;
use vstd::hash_map::StringHashMap;
use vstd::prelude::*;
use vstd::string::StringSliceAdditionalSpecFns;

verus! {

/// SEC1 encoding of the verifying key that `k256` derives from the secret
/// scalar `secret` (`VerifyingKey::from(&SigningKey)`).
pub uninterp spec fn verifying_key_bytes(secret: Seq<u8>) -> Seq<u8>;

/// DER encoding of the deterministic ECDSA/secp256k1 signature that `k256`
/// computes over `message` with the secret scalar `secret`, where it computes one.
pub uninterp spec fn ecdsa_signature(secret: Seq<u8>, message: Seq<u8>) -> Option<Seq<u8>>;

/// The fixed-width `r || s` form of the signature that `der` encodes, where
/// `k256` accepts `der` as an ASN.1 DER signature.
pub uninterp spec fn der_decoding(der: Seq<u8>) -> Option<Seq<u8>>;

/// Whether `k256` accepts the fixed-width signature `raw` for `message` under
/// the SEC1-encoded verifying key `key`.
pub uninterp spec fn ecdsa_accepts(key: Seq<u8>, message: Seq<u8>, raw: Seq<u8>) -> bool;

/// A DER signature verifies when it decodes and the decoded signature is
/// accepted for the message under the key.
pub open spec fn signature_verifies(key: Seq<u8>, message: Seq<u8>, signature: Seq<u8>) -> bool {
    match der_decoding(signature) {
        Some(raw) => ecdsa_accepts(key, message, raw),
        None => false,
    }
}

/// Secret half of a key pair. The scalar cannot be read back out.
pub struct SigningKey {
    secret: Vec<u8>,
}

/// Public half of a key pair, held in its SEC1 encoding.
#[derive(Clone, Debug, PartialEq, Eq)]
pub struct VerifyingKey {
    encoded: Vec<u8>,
}

impl View for SigningKey {
    type V = Seq<u8>;

    closed spec fn view(&self) -> Seq<u8> {
        self.secret@
    }
}

impl View for VerifyingKey {
    type V = Seq<u8>;

    closed spec fn view(&self) -> Seq<u8> {
        self.encoded@
    }
}

impl VerifyingKey {
    /// The SEC1 encoding of the key.
    pub fn to_sec1_bytes(&self) -> (bytes: &Vec<u8>)
        ensures
            bytes@ == self@,
    {
        &self.encoded
    }
}

/// Calls `SigningKey::random` of `k256` with the operating system's
/// generator and `VerifyingKey::from` on the key it made; the secret comes
/// back as `SigningKey::to_bytes` gives it, the verifying key as
/// `VerifyingKey::to_sec1_bytes` gives it. Trusted: the second component is
/// the encoding of the verifying key that belongs to the first. Nothing is
/// said of which secret comes out.
#[verifier::external_body]
fn random_key_pair() -> (pair: (Vec<u8>, Vec<u8>))
    ensures
        pair.1@ == verifying_key_bytes(pair.0@),
{
    let key = k256::ecdsa::SigningKey::random(&mut OsRng);
    let public = k256::ecdsa::VerifyingKey::from(&key);
    (key.to_bytes().to_vec(), public.to_sec1_bytes().to_vec())
}

/// Calls `Signer::try_sign` of `k256::ecdsa::SigningKey`, on the key parsed
/// with `SigningKey::from_slice`, and encodes the signature with
/// `Signature::to_der`; there is no signature where the secret does not
/// parse or `try_sign` fails. Trusted: the result is a function of the
/// secret and the message (the nonce is derived from them), and a signature
/// that comes back decodes again and is accepted under the verifying key of
/// the same secret.
#[verifier::external_body]
fn sign_der(secret: &[u8], message: &[u8]) -> (signature: Option<Vec<u8>>)
    ensures
        match signature {
            Some(der) => ecdsa_signature(secret@, message@) == Some(der@),
            None => ecdsa_signature(secret@, message@) is None,
        },
        signature matches Some(der) ==> signature_verifies(
            verifying_key_bytes(secret@),
            message@,
            der@,
        ),
{
    let key = k256::ecdsa::SigningKey::from_slice(secret).ok()?;
    let signature: k256::ecdsa::Signature = key.try_sign(message).ok()?;
    Some(signature.to_der().as_bytes().to_vec())
}

/// Calls `Signature::from_der` of `k256` and serialises what it parsed with
/// `Signature::to_bytes`. Trusted: the result is a function of the bytes.
#[verifier::external_body]
fn decode_der(der: &[u8]) -> (raw: Option<Vec<u8>>)
    ensures
        match raw {
            Some(bytes) => der_decoding(der@) == Some(bytes@),
            None => der_decoding(der@) is None,
        },
{
    let signature = k256::ecdsa::Signature::from_der(der).ok()?;
    Some(signature.to_bytes().to_vec())
}

/// Calls `Verifier::verify` of `k256::ecdsa::VerifyingKey`, on the key parsed
/// with `VerifyingKey::from_sec1_bytes` and the signature parsed with
/// `Signature::from_slice`; a key or signature that does not parse is not
/// accepted. Trusted: the result is a function of the three byte strings.
#[verifier::external_body]
fn verify_raw(key: &[u8], message: &[u8], raw: &[u8]) -> (accepted: bool)
    ensures
        accepted == ecdsa_accepts(key@, message@, raw@),
{
    match (k256::ecdsa::VerifyingKey::from_sec1_bytes(key), k256::ecdsa::Signature::from_slice(raw)) {
        (Ok(key), Ok(signature)) => key.verify(message, &signature).is_ok(),
        _ => false,
    }
}

/// Generates a fresh key pair.
pub fn generate_key_pair() -> (pair: (SigningKey, VerifyingKey))
    ensures
        pair.1@ == verifying_key_bytes(pair.0@),
{
    let (secret, encoded) = random_key_pair();
    (SigningKey { secret }, VerifyingKey { encoded })
}

/// Signs the UTF-8 bytes of `message`; the signature is DER encoded.
pub fn sign_message(private_key: &SigningKey, message: &str) -> (signature: Option<Vec<u8>>)
    ensures
        match signature {
            Some(der) => ecdsa_signature(private_key@, message.spec_bytes()) == Some(der@),
            None => ecdsa_signature(private_key@, message.spec_bytes()) is None,
        },
        signature matches Some(der) ==> signature_verifies(
            verifying_key_bytes(private_key@),
            message.spec_bytes(),
            der@,
        ),
{
    sign_der(private_key.secret.as_slice(), message.as_bytes())
}

/// Checks a DER-encoded signature over the UTF-8 bytes of `message`.
pub fn verify_signature(public_key: &VerifyingKey, message: &str, signature: &[u8]) -> (valid: bool)
    ensures
        valid == signature_verifies(public_key@, message.spec_bytes(), signature@),
        der_decoding(signature@) is None ==> !valid,
{
    match decode_der(signature) {
        Some(raw) => verify_raw(public_key.encoded.as_slice(), message.as_bytes(), raw.as_slice()),
        None => false,
    }
}

/// Bytes that are no DER signature verify under no key and for no message.
pub proof fn lemma_malformed_signature_rejected(
    key: Seq<u8>,
    message: Seq<u8>,
    signature: Seq<u8>,
)
    requires
        der_decoding(signature) is None,
    ensures
        !signature_verifies(key, message, signature),
{
}

/// Of two keys registered under one name the later one stays, and no other
/// name is touched.
pub proof fn lemma_last_write_wins(
    keys: Map<Seq<char>, Seq<u8>>,
    name: Seq<char>,
    first: Seq<u8>,
    second: Seq<u8>,
)
    ensures
        keys.insert(name, first).insert(name, second) == keys.insert(name, second),
        keys.insert(name, first).insert(name, second)[name] == second,
{
    assert(keys.insert(name, first).insert(name, second) =~= keys.insert(name, second));
}

/// Registry of the verifying keys of a run, one per feed name.
pub struct KeyCounter {
    public_keys: StringHashMap<VerifyingKey>,
}

impl View for KeyCounter {
    type V = Map<Seq<char>, Seq<u8>>;

    closed spec fn view(&self) -> Map<Seq<char>, Seq<u8>> {
        self.public_keys@.map_values(|key: VerifyingKey| key@)
    }
}

impl KeyCounter {
    pub fn new() -> (registry: Self)
        ensures
            registry@ == Map::<Seq<char>, Seq<u8>>::empty(),
    {
        let registry = KeyCounter { public_keys: StringHashMap::new() };
        assert(registry@ =~= Map::<Seq<char>, Seq<u8>>::empty());
        registry
    }

    /// Registers `key` under `name`. A key registered earlier under the same
    /// name is replaced.
    pub fn insert(&mut self, name: String, key: VerifyingKey)
        ensures
            final(self)@ == old(self)@.insert(name@, key@),
    {
        self.public_keys.insert(name, key);
        assert(self@ =~= old(self)@.insert(name@, key@));
    }

    /// Whether a key is registered under `name`.
    pub fn contains(&self, name: &str) -> (present: bool)
        ensures
            present == self@.contains_key(name@),
    {
        self.public_keys.contains_key(name)
    }

    /// The key registered under `name`, if there is one.
    pub fn get(&self, name: &str) -> (found: Option<&VerifyingKey>)
        ensures
            match found {
                Some(key) => self@.contains_key(name@) && key@ == self@[name@],
                None => !self@.contains_key(name@),
            },
    {
        self.public_keys.get(name)
    }

    /// The key registered under `name`. Callers ask only for names that they
    /// registered themselves.
    pub fn lookup(&self, name: &str) -> (key: &VerifyingKey)
        requires
            self@.contains_key(name@),
        ensures
            key@ == self@[name@],
    {
        self.public_keys.get(name).unwrap()
    }

    /// Number of names with a key.
    pub fn len(&self) -> (n: usize)
        ensures
            n == self@.len(),
    {
        broadcast use vstd::hash_map::group_hash_map_axioms;

        proof {
            lemma_map_values_len(self.public_keys@);
        }
        self.public_keys.len()
    }
}

/// Mapping the values of a map keeps its domain, and so its size.
proof fn lemma_map_values_len(m: Map<Seq<char>, VerifyingKey>)
    ensures
        m.map_values(|key: VerifyingKey| key@).dom() == m.dom(),
        m.map_values(|key: VerifyingKey| key@).len() == m.len(),
{
    assert(m.map_values(|key: VerifyingKey| key@).dom() =~= m.dom());
}

} // verus!
