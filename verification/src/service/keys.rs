//! The keys of Solana accounts, and the form in which they are stored.
use std::str::FromStr;

use vstd::pervasive::unreached;
use vstd::prelude::*;

use crate::service::base58::{
    base58, base58_injective, base58_writes_the_number, big_endian, is_base58_digit, leading_zeros,
    text_number,
};
use crate::service::failed::{SolFailed, SolResult};

verus! {

/// An error of `ed25519_dalek`, of which nothing is read.
#[verifier::external_type_specification]
#[verifier::external_body]
pub struct ExSignatureError(ed25519_dalek::SignatureError);

/// The reason why `solana_sdk` does not take a text for a public key, of which
/// nothing is read.
#[verifier::external_type_specification]
#[verifier::external_body]
pub struct ExParsePubkeyError(solana_sdk::pubkey::ParsePubkeyError);

/// Whether 32 bytes are the compressed form of a curve point, as
/// `ed25519_dalek` decides it for a public key.
pub uninterp spec fn is_curve_point(public: Seq<u8>) -> bool;

/// The public key that `ed25519_dalek` derives from a secret key.
pub uninterp spec fn derived_public_key(secret: Seq<u8>) -> Seq<u8>;

/// The text of a public key: its bytes in base58.
pub open spec fn pubkey_text(public: Seq<u8>) -> Seq<char> {
    base58(public)
}

/// The public key whose text is `text`, if there is one.
pub open spec fn pubkey_read(text: Seq<char>) -> Option<Seq<u8>> {
    if exists|key: Seq<u8>| key.len() == 32 && #[trigger] pubkey_text(key) == text {
        Some(choose|key: Seq<u8>| key.len() == 32 && #[trigger] pubkey_text(key) == text)
    } else {
        None
    }
}

/// Whether bytes are a key pair: a secret key followed by a public key.
pub open spec fn is_keypair(bytes: Seq<u8>) -> bool {
    &&& bytes.len() == 64
    &&& is_curve_point(bytes.subrange(32, 64))
}

/// The key pair stored as `key`, if there is one.
pub open spec fn keypair_read(key: Seq<u8>) -> Option<Seq<u8>> {
    if is_keypair(key) {
        Some(key)
    } else {
        None
    }
}

/// The secret key stored as `key`, if there is one.
pub open spec fn secret_key_read(key: Seq<u8>) -> Option<Seq<u8>> {
    if key.len() == 32 {
        Some(key)
    } else {
        None
    }
}

/// `solana_sdk`'s `Keypair::from_bytes`, with the pair's `to_bytes`: it takes
/// 64 bytes whose second half decompresses to a curve point, whatever the first
/// half holds, and keeps them as they are. It does not compare the halves.
#[verifier::external_body]
fn keypair_from_bytes(bytes: &[u8]) -> (r: Result<[u8; 64], ed25519_dalek::SignatureError>)
    ensures
        match r {
            Ok(pair) => bytes@.len() == 64 && is_curve_point(bytes@.subrange(32, 64)) && pair@
                == bytes@,
            Err(_) => !(bytes@.len() == 64 && is_curve_point(bytes@.subrange(32, 64))),
        },
{
    solana_sdk::signer::keypair::Keypair::from_bytes(bytes).map(|pair| pair.to_bytes())
}

/// `solana_sdk`'s `Keypair::generate` with the system's randomness, and the
/// pair's `to_bytes`. The secret half is random; the public half is the one
/// derived from it.
#[verifier::external_body]
fn keypair_generate() -> (r: [u8; 64])
    ensures
        is_curve_point(r@.subrange(32, 64)),
        r@.subrange(32, 64) == derived_public_key(r@.subrange(0, 32)),
{
    solana_sdk::signer::keypair::Keypair::generate(&mut rand::rngs::OsRng).to_bytes()
}

/// `ed25519_dalek`'s `SecretKey::from_bytes`, with the key's `to_bytes`: any 32
/// bytes are a secret key, and nothing else is.
#[verifier::external_body]
fn secret_key_from_bytes(bytes: &[u8]) -> (r: Result<[u8; 32], ed25519_dalek::SignatureError>)
    ensures
        match r {
            Ok(secret) => bytes@.len() == 32 && secret@ == bytes@,
            Err(_) => bytes@.len() != 32,
        },
{
    ed25519_dalek::SecretKey::from_bytes(bytes).map(|secret| secret.to_bytes())
}

/// The `Display` of `solana_sdk`'s `Pubkey`: the key's bytes in base58.
#[verifier::external_body]
fn pubkey_to_text(bytes: &[u8; 32]) -> (r: String)
    ensures
        r@ == pubkey_text(bytes@),
{
    solana_sdk::pubkey::Pubkey::new_from_array(*bytes).to_string()
}

/// `solana_sdk`'s `Pubkey::from_str`, which reads base58 and accepts only what
/// decodes to 32 bytes: it gives the key whose text it was handed, and fails
/// only on what is the text of no key.
#[verifier::external_body]
fn pubkey_from_text(text: &str) -> (r: Result<[u8; 32], solana_sdk::pubkey::ParsePubkeyError>)
    ensures
        match r {
            Ok(key) => pubkey_text(key@) == text@,
            Err(_) => forall|key: Seq<u8>| key.len() == 32 ==> #[trigger] pubkey_text(key) != text@,
        },
{
    solana_sdk::pubkey::Pubkey::from_str(text).map(|key| key.to_bytes())
}

/// A public key: the address of an account.
#[derive(Clone, Copy, Debug, PartialEq, Eq)]
pub struct Pubkey {
    pub bytes: [u8; 32],
}

impl View for Pubkey {
    type V = Seq<u8>;

    open spec fn view(&self) -> Seq<u8> {
        self.bytes@
    }
}

impl Pubkey {
    /// The text under which the key is stored and by which accounts are known.
    /// Decoding it gives back the key.
    pub fn encode(&self) -> (r: String)
        ensures
            r@ == pubkey_text(self@),
            pubkey_read(r@) == Some(self@),
    {
        proof {
            pubkey_reads_back(self@);
        }
        pubkey_to_text(&self.bytes)
    }

    /// The key stored as `key`.
    pub fn decode(key: String) -> (r: Pubkey)
        requires
            pubkey_read(key@) is Some,
        ensures
            pubkey_read(key@) == Some(r@),
            pubkey_text(r@) == key@,
    {
        match pubkey_from_text(key.as_str()) {
            Ok(bytes) => {
                proof {
                    pubkey_reads_back(bytes@);
                }
                Pubkey { bytes }
            },
            Err(_) => unreached(),
        }
    }

    /// The key stored as `key`, unless that is no key.
    pub fn try_decode(key: String) -> (r: Option<Pubkey>)
        ensures
            match r {
                Some(decoded) => pubkey_read(key@) == Some(decoded@) && pubkey_text(decoded@)
                    == key@,
                None => pubkey_read(key@) is None,
            },
    {
        match pubkey_from_text(key.as_str()) {
            Ok(bytes) => {
                proof {
                    pubkey_reads_back(bytes@);
                }
                Some(Pubkey::decode(key))
            },
            Err(_) => None,
        }
    }
}

/// A public key reads back from its text, which no other key has.
pub proof fn pubkey_reads_back(key: Seq<u8>)
    requires
        key.len() == 32,
    ensures
        pubkey_read(pubkey_text(key)) == Some(key),
{
    let read = choose|other: Seq<u8>|
        other.len() == 32 && #[trigger] pubkey_text(other) == pubkey_text(key);
    base58_injective(read, key);
}

/// What reads as a public key is 32 bytes, and has no other text.
pub proof fn pubkey_has_one_text(text: Seq<char>)
    requires
        pubkey_read(text) is Some,
    ensures
        pubkey_read(text)->0.len() == 32,
        pubkey_text(pubkey_read(text)->0) == text,
{
}

/// The secret half of a key pair.
#[derive(Debug)]
pub struct SecretKey {
    bytes: [u8; 32],
}

impl View for SecretKey {
    type V = Seq<u8>;

    closed spec fn view(&self) -> Seq<u8> {
        self.bytes@
    }
}

impl SecretKey {
    /// The bytes under which the key is stored. Decoding them gives back the
    /// key.
    pub fn encode(&self) -> (r: Vec<u8>)
        ensures
            r@ == self@,
            secret_key_read(r@) == Some(self@),
    {
        copied(self.bytes.as_slice())
    }

    /// The key stored as `key`, which must be 32 bytes long.
    pub fn decode(key: Vec<u8>) -> (r: SolResult<SecretKey>)
        ensures
            match r {
                Ok(secret) => key@.len() == 32 && secret@ == key@ && secret_key_read(key@) == Some(
                    secret@,
                ),
                Err(err) => secret_key_read(key@) is None && err is DecodeAndEncodeError
                    && err->DecodeAndEncodeError_0@ == "load secret key from slice"@,
            },
    {
        match secret_key_from_bytes(key.as_slice()) {
            Ok(bytes) => Ok(SecretKey { bytes }),
            Err(_) => Err(
                SolFailed::DecodeAndEncodeError("load secret key from slice".to_owned()),
            ),
        }
    }
}

/// A secret key together with a public key.
#[derive(Debug)]
pub struct Keypair {
    bytes: [u8; 64],
}

impl View for Keypair {
    type V = Seq<u8>;

    /// The secret key followed by the public key.
    closed spec fn view(&self) -> Seq<u8> {
        self.bytes@
    }
}

impl Keypair {
    #[verifier::type_invariant]
    spec fn valid(self) -> bool {
        is_keypair(self.bytes@)
    }
}


/// The same bytes in a vector.
fn copied(bytes: &[u8]) -> (r: Vec<u8>)
    ensures
        r@ == bytes@,
{
    let mut copy: Vec<u8> = Vec::new();
    for i in 0..bytes.len()
        invariant
            copy@ == bytes@.subrange(0, i as int),
    {
        copy.push(bytes[i]);
    }
    copy
}

impl Keypair {
    /// A fresh pair from the system's randomness. Its public key is the one of
    /// its secret key.
    pub fn generate() -> (r: Keypair)
        ensures
            is_keypair(r@),
            r.public() == derived_public_key(r.secret_half()),
    {
        Keypair { bytes: keypair_generate() }
    }

    /// The bytes of the public key.
    pub open spec fn public(&self) -> Seq<u8> {
        self@.subrange(32, 64)
    }

    /// The bytes of the secret key.
    pub open spec fn secret_half(&self) -> Seq<u8> {
        self@.subrange(0, 32)
    }

    /// The secret key followed by the public key.
    pub(crate) fn as_bytes(&self) -> (r: &[u8; 64])
        ensures
            r@ == self@,
            is_keypair(r@),
    {
        proof {
            use_type_invariant(self);
        }
        &self.bytes
    }

    /// The public key.
    pub fn pubkey(&self) -> (r: Pubkey)
        ensures
            r@ == self.public(),
    {
        Pubkey { bytes: half_at(&self.bytes, 32) }
    }

    /// The secret key.
    pub fn secret(&self) -> (r: SecretKey)
        ensures
            r@ == self.secret_half(),
    {
        SecretKey { bytes: half_at(&self.bytes, 0) }
    }

    /// The bytes under which the pair is stored. Decoding them gives back the
    /// pair.
    pub fn encode(&self) -> (r: Vec<u8>)
        ensures
            r@ == self@,
            keypair_read(r@) == Some(self@),
    {
        copied(self.as_bytes().as_slice())
    }

    /// The pair stored as `key`.
    pub fn decode(key: Vec<u8>) -> (r: Keypair)
        requires
            keypair_read(key@) is Some,
        ensures
            keypair_read(key@) == Some(r@),
            r@ == key@,
    {
        match keypair_from_bytes(key.as_slice()) {
            Ok(bytes) => Keypair { bytes },
            Err(_) => unreached(),
        }
    }

    /// The pair stored as `key`, unless that is no pair.
    pub fn try_decode(key: Vec<u8>) -> (r: Option<Keypair>)
        ensures
            match r {
                Some(pair) => keypair_read(key@) == Some(pair@) && pair@ == key@,
                None => keypair_read(key@) is None,
            },
    {
        match keypair_from_bytes(key.as_slice()) {
            Ok(_) => Some(Keypair::decode(key)),
            Err(_) => None,
        }
    }
}

/// The 32 bytes of a pair that begin at `from`.
fn half_at(pair: &[u8; 64], from: usize) -> (r: [u8; 32])
    requires
        from <= 32,
    ensures
        r@ == pair@.subrange(from as int, from + 32),
{
    let mut half: [u8; 32] = [0u8;32];
    for i in 0..32usize
        invariant
            from <= 32,
            half@.len() == 32,
            forall|k: int| 0 <= k < i ==> half@[k] == pair@[from + k],
    {
        half[i] = pair[from + i];
    }
    assert(half@ =~= pair@.subrange(from as int, from + 32));
    half
}

/// A stored pair is its secret key followed by its public key, and its secret
/// half can itself be stored and read back as a secret key.
pub proof fn keypair_is_its_halves(bytes: Seq<u8>)
    requires
        is_keypair(bytes),
    ensures
        bytes.subrange(0, 32) + bytes.subrange(32, 64) == bytes,
        secret_key_read(bytes.subrange(0, 32)) == Some(bytes.subrange(0, 32)),
        is_curve_point(bytes.subrange(32, 64)),
{
    assert(bytes.subrange(0, 32) + bytes.subrange(32, 64) =~= bytes);
}

/// The text of a public key is a base58 numeral of the number that the key's
/// bytes write, behind a `1` for each zero that they begin with.
pub proof fn pubkey_text_writes_the_key(key: Seq<u8>)
    ensures
        ({
            let text = pubkey_text(key);
            let zeros = leading_zeros(key);
            &&& text_number(text) == big_endian(key)
            &&& forall|i: int| 0 <= i < text.len() ==> is_base58_digit(#[trigger] text[i])
            &&& zeros <= text.len()
            &&& forall|i: int| 0 <= i < zeros ==> #[trigger] text[i] == '1'
            &&& zeros < text.len() ==> text[zeros as int] != '1'
        }),
{
    base58_writes_the_number(key);
}

/// A stored pair is read as it is or not at all, and only its public half
/// decides: one that is a curve point, behind any 32 bytes.
pub proof fn keypair_reads_as_itself(secret: Seq<u8>, public: Seq<u8>, other: Seq<u8>)
    requires
        secret.len() == 32,
        public.len() == 32,
    ensures
        keypair_read(secret + public) is Some <==> is_curve_point(public),
        is_curve_point(public) ==> keypair_read(secret + public) == Some(secret + public),
        other.len() != 64 ==> keypair_read(other) is None,
        keypair_read(other) is Some ==> keypair_read(other) == Some(other) && is_keypair(other),
        is_keypair(other) ==> keypair_read(other) is Some,
{
    assert((secret + public).subrange(32, 64) =~= public);
}

/// A stored secret key is any 32 bytes, read as they are, and nothing else.
pub proof fn secret_key_reads_as_itself(key: Seq<u8>)
    ensures
        key.len() == 32 ==> secret_key_read(key) == Some(key),
        key.len() != 32 ==> secret_key_read(key) is None,
{
}

/// A pair's secret key and public key are its two halves, of the same length.
pub proof fn pair_joins_its_keys(pair: Keypair)
    requires
        is_keypair(pair@),
    ensures
        pair.secret_half() + pair.public() == pair@,
        pair.secret_half().len() == pair.public().len(),
        is_curve_point(pair.public()),
{
    keypair_is_its_halves(pair@);
}

} // verus!
