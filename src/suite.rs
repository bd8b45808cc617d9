use vstd::prelude::*;
use aws_lc_rs::aead::LessSafeKey;
use aws_lc_rs::hkdf::Prk;
use crate::keys::{
    aes_128_gcm_key, aes_128_gcm_key_of, aes_gcm_seal_of, seal_in_place, PacketKey, IV_LEN, TAG_LEN,
};
use crate::schedule::EncryptionLevel;

verus! {

/// The keys of the Initial level.
pub struct InitialKey {
    key: PacketKey,
}

/// The keys of the Handshake level.
pub struct HandshakeKey {
    key: PacketKey,
}

/// The keys of the early-data level.
pub struct ZeroRttKey {
    key: PacketKey,
}

/// The keys of the application-data level.
pub struct OneRttKey {
    key: PacketKey,
}

impl InitialKey {
    /// The packet keys of this level.
    pub closed spec fn spec_packet_key(self) -> PacketKey {
        self.key
    }

    /// Derives the Initial keys of one direction from its secret. The secret is used up.
    pub fn new(secret: Prk) -> (r: InitialKey)
        ensures
            r.spec_packet_key().derived_from(secret),
            r.spec_packet_key().spec_iv().len() == IV_LEN,
    {
        InitialKey { key: PacketKey::new(secret) }
    }

    pub fn packet_key(&self) -> (r: &PacketKey)
        ensures
            *r == self.spec_packet_key(),
    {
        &self.key
    }
}

impl HandshakeKey {
    /// The packet keys of this level.
    pub closed spec fn spec_packet_key(self) -> PacketKey {
        self.key
    }

    /// Derives the Handshake keys of one direction from its secret. The secret is used up.
    pub fn new(secret: Prk) -> (r: HandshakeKey)
        ensures
            r.spec_packet_key().derived_from(secret),
            r.spec_packet_key().spec_iv().len() == IV_LEN,
    {
        HandshakeKey { key: PacketKey::new(secret) }
    }

    pub fn packet_key(&self) -> (r: &PacketKey)
        ensures
            *r == self.spec_packet_key(),
    {
        &self.key
    }
}

impl ZeroRttKey {
    /// The packet keys of this level.
    pub closed spec fn spec_packet_key(self) -> PacketKey {
        self.key
    }

    /// Derives the early-data keys from the client's secret. The secret is used up.
    pub fn new(secret: Prk) -> (r: ZeroRttKey)
        ensures
            r.spec_packet_key().derived_from(secret),
            r.spec_packet_key().spec_iv().len() == IV_LEN,
    {
        ZeroRttKey { key: PacketKey::new(secret) }
    }

    pub fn packet_key(&self) -> (r: &PacketKey)
        ensures
            *r == self.spec_packet_key(),
    {
        &self.key
    }
}

impl OneRttKey {
    /// The packet keys of this level.
    pub closed spec fn spec_packet_key(self) -> PacketKey {
        self.key
    }

    /// Derives the application-data keys of one direction from its secret. The secret is used up.
    pub fn new(secret: Prk) -> (r: OneRttKey)
        ensures
            r.spec_packet_key().derived_from(secret),
            r.spec_packet_key().spec_iv().len() == IV_LEN,
    {
        OneRttKey { key: PacketKey::new(secret) }
    }

    pub fn packet_key(&self) -> (r: &PacketKey)
        ensures
            *r == self.spec_packet_key(),
    {
        &self.key
    }
}

/// The fixed Retry key of QUIC version 1.
pub open spec fn retry_secret() -> Seq<u8> {
    seq![0xbeu8, 0x0c, 0x69, 0x0b, 0x9f, 0x66, 0x57, 0x5a, 0x1d, 0x76, 0x6b, 0x54, 0xe3, 0x68, 0xc8, 0x4e]
}

/// Relies on `s2n_quic_core::crypto::retry::SECRET_KEY_BYTES`, the fixed
/// Retry key of QUIC version 1.
#[verifier::external_body]
fn retry_secret_key_bytes() -> (r: Vec<u8>)
    ensures
        r@ == retry_secret(),
{
    s2n_quic_core::crypto::retry::SECRET_KEY_BYTES.to_vec()
}

/// Relies on `s2n_quic_core::crypto::retry::NONCE_BYTES`, the fixed nonce of
/// the Retry integrity tag of QUIC version 1.
#[verifier::external_body]
fn retry_nonce_bytes() -> (r: Vec<u8>)
    ensures
        r@ == retry_nonce(),
{
    s2n_quic_core::crypto::retry::NONCE_BYTES.to_vec()
}

/// The fixed nonce of the Retry integrity tag.
pub open spec fn retry_nonce() -> Seq<u8> {
    seq![0x46u8, 0x15, 0x99, 0xd3, 0x5d, 0x63, 0x2b, 0xf2, 0x23, 0x98, 0x25, 0xbb]
}

/// The key of Retry packets. It is not derived from any secret: it proves
/// only where a Retry came from, and hides nothing.
pub struct RetryKey {
    key: LessSafeKey,
    nonce: Vec<u8>,
}

impl RetryKey {
    #[verifier::type_invariant]
    spec fn nonce_fits(self) -> bool {
        &&& self.nonce@ == retry_nonce()
        &&& self.key == aes_128_gcm_key_of(retry_secret())
    }

    /// The AES-128-GCM key made from the fixed Retry key bytes.
    pub closed spec fn spec_key(self) -> LessSafeKey {
        self.key
    }

    pub fn new() -> (r: RetryKey)
        ensures
            r.spec_key() == aes_128_gcm_key_of(retry_secret()),
    {
        let bytes = retry_secret_key_bytes();
        let nonce = retry_nonce_bytes();
        let key = aes_128_gcm_key(bytes.as_slice()).unwrap();
        RetryKey { key, nonce }
    }

    /// The integrity tag of a Retry packet: the tag of an empty message with
    /// the Retry pseudo-packet as associated data.
    pub fn integrity_tag(&self, pseudo_packet: &[u8]) -> (r: Vec<u8>)
        ensures
            r@.len() == TAG_LEN,
            r@ == aes_gcm_seal_of(aes_128_gcm_key_of(retry_secret()), retry_nonce(), pseudo_packet@,
                Seq::empty()),
    {
        proof {
            use_type_invariant(self);
        }
        let mut empty: Vec<u8> = Vec::new();
        let tag = seal_in_place(&self.key, self.nonce.as_slice(), pseudo_packet, &mut empty).unwrap();
        assert(empty@ + tag@ == tag@);
        tag
    }
}

/// Binds each encryption level to the type of its keys. A key of one level
/// cannot stand where another level's is asked for.
pub trait CryptoSuite {
    type InitialKey;
    type HandshakeKey;
    type ZeroRttKey;
    type OneRttKey;
    type RetryKey;
}

/// The suite of this library: AES-128-GCM packet keys with AES header
/// protection at every secret-derived level.
#[derive(Clone, Copy, Debug, Default)]
pub struct Suite;

impl CryptoSuite for Suite {
    type InitialKey = InitialKey;
    type HandshakeKey = HandshakeKey;
    type ZeroRttKey = ZeroRttKey;
    type OneRttKey = OneRttKey;
    type RetryKey = RetryKey;
}

impl Suite {
    /// Whether keys of `level` come from a secret of the key schedule; the
    /// Retry key is fixed instead.
    pub fn derives_from_secret(level: EncryptionLevel) -> (r: bool)
        ensures
            r == !(level is Retry),
    {
        !matches!(level, EncryptionLevel::Retry)
    }
}

} // verus!
