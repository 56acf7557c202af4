// Nostr keypair management: generate, import, and export.
// Keys are held in memory; the native shells keep the nsec in secure storage.

use vstd::prelude::*;

use crate::encoding::hex_lower;
use crate::error::SproutError;
use crate::text::has_prefix;
use crate::types::UserIdentity;

verus! {

/// What `nostr::key::Keys::parse` makes of a text: the 32 secret-key bytes, or the
/// text of the error it reports.
pub uninterp spec fn nostr_keys_parse(input: Seq<char>) -> Result<Seq<u8>, Seq<char>>;

/// nostr parses `input` as the secret key `secret`.
pub open spec fn parses_to(input: Seq<char>, secret: Seq<u8>) -> bool {
    nostr_keys_parse(input) == Ok::<Seq<u8>, Seq<char>>(secret)
}

/// nostr rejects `input` as a secret key with the message `msg`.
pub open spec fn rejected_with(input: Seq<char>, msg: Seq<char>) -> bool {
    nostr_keys_parse(input) == Err::<Seq<u8>, Seq<char>>(msg)
}

/// `nostr::SecretKey::from_slice` accepts the bytes as a secret key.
pub uninterp spec fn nostr_secret_key_valid(secret: Seq<u8>) -> bool;

/// The 64-character hex public key that nostr derives from a secret key.
pub uninterp spec fn nostr_public_key_hex(secret: Seq<u8>) -> Seq<char>;

/// The bech32 `npub` that nostr writes for the public key of a secret key.
pub uninterp spec fn nostr_npub(secret: Seq<u8>) -> Seq<char>;

/// The bech32 `nsec` that nostr writes for a secret key.
pub uninterp spec fn nostr_nsec(secret: Seq<u8>) -> Seq<char>;

/// Calls `nostr::key::Keys::parse` (hex first, then bech32 `nsec`) and takes the
/// secret bytes of the keys. Claims: the outcome is `nostr_keys_parse` of the
/// text, and the bytes it gives are a valid secret key.
#[verifier::external_body]
fn parse_secret(input: &str) -> (r: Result<Vec<u8>, String>)
    ensures
        r is Ok <==> nostr_keys_parse(input@) is Ok,
        r matches Ok(b) ==> parses_to(input@, b@)
            && nostr_secret_key_valid(b@),
        r matches Err(e) ==> rejected_with(input@, e@),
{
    match nostr::key::Keys::parse(input) {
        Ok(keys) => Ok(keys.secret_key().to_secret_bytes().to_vec()),
        Err(e) => Err(e.to_string()),
    }
}

/// Calls `nostr::key::Keys::generate` (operating-system randomness) and takes the
/// secret bytes. Claims only that they form a valid secret key.
#[verifier::external_body]
fn generate_secret() -> (r: Vec<u8>)
    ensures
        nostr_secret_key_valid(r@),
{
    nostr::key::Keys::generate().secret_key().to_secret_bytes().to_vec()
}

/// Calls `nostr::key::Keys::new` on the secret key and `to_hex` on its public key.
/// Claims: the result is `nostr_public_key_hex` of the secret, 64 characters
/// long (32 bytes in hex).
#[verifier::external_body]
fn public_key_hex(secret: &[u8]) -> (r: String)
    requires
        nostr_secret_key_valid(secret@),
    ensures
        r@ == nostr_public_key_hex(secret@),
        r@.len() == 64,
{
    nostr::key::Keys::new(nostr::key::SecretKey::from_slice(secret).unwrap()).public_key().to_hex()
}

/// Calls `to_bech32` on the public key of `nostr::key::Keys::new(secret)`. Claims:
/// the result is `nostr_npub` of the secret and starts with `npub1` (the
/// human-readable part and the bech32 separator).
#[verifier::external_body]
fn public_key_npub(secret: &[u8]) -> (r: String)
    requires
        nostr_secret_key_valid(secret@),
    ensures
        r@ == nostr_npub(secret@),
        has_prefix(r@, "npub1"@),
{
    let keys = nostr::key::Keys::new(nostr::key::SecretKey::from_slice(secret).unwrap());
    nostr::nips::nip19::ToBech32::to_bech32(&keys.public_key()).unwrap()
}

/// Calls `to_bech32` on `nostr::key::SecretKey::from_slice(secret)`. Claims: the
/// result is `nostr_nsec` of the secret, starts with `nsec1`, and
/// `nostr::key::Keys::parse` reads it back as the same secret (bech32 decoding
/// inverts encoding).
#[verifier::external_body]
fn secret_nsec(secret: &[u8]) -> (r: String)
    requires
        nostr_secret_key_valid(secret@),
    ensures
        r@ == nostr_nsec(secret@),
        has_prefix(r@, "nsec1"@),
        parses_to(r@, secret@),
{
    let sk = nostr::key::SecretKey::from_slice(secret).unwrap();
    nostr::nips::nip19::ToBech32::to_bech32(&sk).unwrap()
}

/// Calls `to_secret_hex` on `nostr::key::SecretKey::from_slice(secret)`. Claims:
/// the result is the secret's bytes in lowercase hex (`faster_hex::hex_encode`
/// of the secret bytes) and `nostr::key::Keys::parse` reads it back as the same
/// secret (hex decoding inverts encoding).
#[verifier::external_body]
fn secret_hex(secret: &[u8]) -> (r: String)
    requires
        nostr_secret_key_valid(secret@),
    ensures
        r@ == hex_lower(secret@),
        parses_to(r@, secret@),
{
    nostr::key::SecretKey::from_slice(secret).unwrap().to_secret_hex()
}

/// `r` is what importing `input` gives: the parsed key, or an invalid-key
/// error carrying nostr's message.
pub open spec fn imported_from(input: Seq<char>, r: Result<KeyManager, SproutError>) -> bool {
    match nostr_keys_parse(input) {
        Ok(sk) => r matches Ok(km) && km.secret() == sk && nostr_secret_key_valid(sk),
        Err(msg) => r matches Err(SproutError::InvalidKey { message }) && message@ == msg,
    }
}

/// `s` is the nsec export of `secret`: nostr's `nsec` text, which nostr
/// parses back to `secret`.
pub open spec fn exported_as(secret: Seq<u8>, s: Seq<char>) -> bool {
    &&& s == nostr_nsec(secret)
    &&& has_prefix(s, "nsec1"@)
    &&& parses_to(s, secret)
}

/// Manages the Nostr keypair of the mobile client.
///
/// Keys are held in memory only. The native shell persists the nsec in
/// platform secure storage and passes it back on launch.
#[derive(Debug)]
pub struct KeyManager {
    secret: Vec<u8>,
}

impl KeyManager {
    /// The manager holds a valid secret key.
    #[verifier::type_invariant]
    spec fn holds_valid_key(self) -> bool {
        nostr_secret_key_valid(self.secret@)
    }

    /// The secret key bytes.
    pub closed spec fn secret(self) -> Seq<u8> {
        self.secret@
    }

    /// Generate a fresh random keypair.
    pub fn generate() -> (r: Self)
        ensures
            nostr_secret_key_valid(r.secret()),
    {
        KeyManager { secret: generate_secret() }
    }

    /// Import from an nsec (bech32) or 64-char hex secret key string.
    pub fn from_nsec_or_hex(input: &str) -> (r: Result<Self, SproutError>)
        ensures
            imported_from(input@, r),
    {
        match parse_secret(input) {
            Ok(secret) => Ok(KeyManager { secret }),
            Err(message) => Err(SproutError::InvalidKey { message }),
        }
    }

    /// Export the secret key as bech32-encoded nsec; importing the nsec gives
    /// this key back.
    pub fn export_nsec(&self) -> (r: Result<String, SproutError>)
        ensures
            r matches Ok(s) && exported_as(self.secret(), s@),
    {
        proof {
            use_type_invariant(self);
        }
        Ok(secret_nsec(self.secret.as_slice()))
    }

    /// Export the public key as bech32-encoded npub.
    pub fn npub(&self) -> (r: String)
        ensures
            r@ == nostr_npub(self.secret()),
            has_prefix(r@, "npub1"@),
    {
        proof {
            use_type_invariant(self);
        }
        public_key_npub(self.secret.as_slice())
    }

    /// Export the public key as 64-character hex.
    pub fn pubkey_hex(&self) -> (r: String)
        ensures
            r@ == nostr_public_key_hex(self.secret()),
            r@.len() == 64,
    {
        proof {
            use_type_invariant(self);
        }
        public_key_hex(self.secret.as_slice())
    }

    /// Export the secret key as hex; importing the hex gives this key back.
    pub fn secret_hex(&self) -> (r: String)
        ensures
            r@ == hex_lower(self.secret()),
            parses_to(r@, self.secret()),
    {
        proof {
            use_type_invariant(self);
        }
        secret_hex(self.secret.as_slice())
    }

    /// Build a [`UserIdentity`] from the current keypair.
    pub fn identity(&self) -> (r: UserIdentity)
        ensures
            r.pubkey@ == nostr_public_key_hex(self.secret()),
            r.npub@ == nostr_npub(self.secret()),
            r.display_name is None,
    {
        UserIdentity { pubkey: self.pubkey_hex(), npub: self.npub(), display_name: None }
    }

    /// Borrow the secret key bytes for event signing.
    pub fn keys(&self) -> (r: &[u8])
        ensures
            r@ == self.secret(),
            nostr_secret_key_valid(r@),
    {
        proof {
            use_type_invariant(self);
        }
        self.secret.as_slice()
    }
}

/// Exporting a key as nsec and importing that nsec gives a manager holding
/// the same key, hence the same public key.
pub proof fn law_nsec_roundtrip(km: KeyManager, nsec: Seq<char>, back: Result<KeyManager, SproutError>)
    requires
        exported_as(km.secret(), nsec),
        imported_from(nsec, back),
    ensures
        back matches Ok(km2) && km2.secret() == km.secret() && nostr_public_key_hex(km2.secret())
            == nostr_public_key_hex(km.secret()),
{
}

} // verus!
