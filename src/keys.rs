use vstd::prelude::*;
use aws_lc_rs::aead::quic::HeaderProtectionKey;
use aws_lc_rs::aead::LessSafeKey;
use aws_lc_rs::hkdf::Prk;
use crate::fault::{Error, ReplaySignal};
use crate::schedule::{hkdf_label, hkdf_label_bytes};

verus! {

#[verifier::external_type_specification]
#[verifier::external_body]
pub struct ExLessSafeKey(aws_lc_rs::aead::LessSafeKey);

#[verifier::external_type_specification]
#[verifier::external_body]
pub struct ExHeaderProtectionKey(aws_lc_rs::aead::quic::HeaderProtectionKey);

/// Length of an AES-128-GCM authentication tag.
pub const TAG_LEN: usize = 16;

/// Length of a packet nonce and of the IV it is made from.
pub const IV_LEN: usize = 12;

/// Length of the ciphertext sample that a header mask is made from.
pub const SAMPLE_LEN: usize = 16;

/// The first 32 bytes of HKDF-Expand from `secret` with `info`.
pub uninterp spec fn hkdf_block_of(secret: Prk, info: Seq<u8>) -> Seq<u8>;

/// Relies on `Prk::expand` with `HMAC_SHA256` as the output type and
/// `Okm::fill`: the first 32 bytes of HKDF-Expand for `info`. Neither fails
/// here: 32 bytes is under 255 digests, and the buffer has the length asked for.
#[verifier::external_body]
fn expand_block(secret: &Prk, info: &[u8]) -> (r: Option<Vec<u8>>)
    ensures
        r is Some,
        r matches Some(v) ==> v@ == hkdf_block_of(*secret, info@),
        r matches Some(v) ==> v@.len() == 32,
{
    let info = [info];
    let len = aws_lc_rs::hmac::HMAC_SHA256;
    let okm = secret.expand(&info, len).ok()?;
    let mut out = vec![0u8; aws_lc_rs::hkdf::KeyType::len(&len)];
    okm.fill(&mut out).ok()?;
    Some(out)
}

/// The AES-128-GCM key made from `bytes`.
pub uninterp spec fn aes_128_gcm_key_of(bytes: Seq<u8>) -> LessSafeKey;

/// Relies on `UnboundKey::new` with `AES_128_GCM`, which rejects only a key
/// that is not 16 bytes long, and on `LessSafeKey::new`.
#[verifier::external_body]
pub(crate) fn aes_128_gcm_key(bytes: &[u8]) -> (r: Option<LessSafeKey>)
    ensures
        bytes@.len() == 16 ==> r is Some,
        r matches Some(k) ==> k == aes_128_gcm_key_of(bytes@),
{
    let key = aws_lc_rs::aead::UnboundKey::new(&aws_lc_rs::aead::AES_128_GCM, bytes).ok()?;
    Some(LessSafeKey::new(key))
}

/// The AES-128 header protection key made from `bytes`.
pub uninterp spec fn hp_key_of(bytes: Seq<u8>) -> HeaderProtectionKey;

/// Relies on `HeaderProtectionKey::new` with the QUIC `AES_128` algorithm,
/// which rejects only a key that is not 16 bytes long.
#[verifier::external_body]
fn aes_128_header_key(bytes: &[u8]) -> (r: Option<HeaderProtectionKey>)
    ensures
        bytes@.len() == 16 ==> r is Some,
        r matches Some(k) ==> k == hp_key_of(bytes@),
{
    HeaderProtectionKey::new(&aws_lc_rs::aead::quic::AES_128, bytes).ok()
}

/// The largest input that AES-GCM seals under one nonce: 2^36 - 32 bytes.
pub const MAX_SEAL_LEN: u64 = 68719476704;

/// What AES-GCM sealing gives for a key, nonce, associated data and
/// plaintext: the ciphertext followed by the tag.
pub uninterp spec fn aes_gcm_seal_of(key: LessSafeKey, nonce: Seq<u8>, aad: Seq<u8>, plain: Seq<u8>) -> Seq<u8>;

/// Relies on `LessSafeKey::seal_in_place_separate_tag`, which encrypts
/// `data` in place and returns the 16-byte tag. It fails only on a nonce
/// that is not 12 bytes long (`Nonce::try_assume_unique_for_key`) or on input
/// longer than the GCM limit of 2^36 - 32 bytes, which the underlying C code
/// enforces.
#[verifier::external_body]
pub(crate) fn seal_in_place(key: &LessSafeKey, nonce: &[u8], aad: &[u8], data: &mut Vec<u8>) -> (r: Option<Vec<u8>>)
    ensures
        final(data)@.len() == old(data)@.len(),
        nonce@.len() == IV_LEN && old(data)@.len() <= MAX_SEAL_LEN ==> r is Some,
        r matches Some(t) ==> t@.len() == TAG_LEN,
        r matches Some(t) ==> final(data)@ + t@ == aes_gcm_seal_of(*key, nonce@, aad@, old(data)@),
{
    let nonce = aws_lc_rs::aead::Nonce::try_assume_unique_for_key(nonce).ok()?;
    let aad = aws_lc_rs::aead::Aad::from(aad);
    let tag = key.seal_in_place_separate_tag(nonce, aad, data.as_mut_slice()).ok()?;
    Some(tag.as_ref().to_vec())
}

/// What AES-GCM opening gives for a key, nonce, associated data and sealed
/// input: the plaintext, or nothing when the tag does not verify.
pub uninterp spec fn aes_gcm_open_of(key: LessSafeKey, nonce: Seq<u8>, aad: Seq<u8>, sealed: Seq<u8>) -> Option<Seq<u8>>;

/// Relies on `LessSafeKey::open_in_place`, which verifies the tag at the end
/// of `data` and returns the plaintext, 16 bytes shorter; the result depends
/// on the key and the three byte strings alone.
#[verifier::external_body]
fn open_in_place(key: &LessSafeKey, nonce: &[u8], aad: &[u8], data: Vec<u8>) -> (r: Option<Vec<u8>>)
    ensures
        r matches Some(p) ==> p@.len() + TAG_LEN == data@.len(),
        r matches Some(p) ==> aes_gcm_open_of(*key, nonce@, aad@, data@) == Some(p@),
        r is None ==> aes_gcm_open_of(*key, nonce@, aad@, data@) is None,
{
    let mut data = data;
    let nonce = aws_lc_rs::aead::Nonce::try_assume_unique_for_key(nonce).ok()?;
    let aad = aws_lc_rs::aead::Aad::from(aad);
    let plain = key.open_in_place(nonce, aad, data.as_mut_slice()).ok()?;
    Some(plain.to_vec())
}

/// The 5-byte header protection mask that `key` makes from `sample`.
pub uninterp spec fn hp_mask_of(key: HeaderProtectionKey, sample: Seq<u8>) -> Seq<u8>;

/// Relies on `HeaderProtectionKey::new_mask`: a 5-byte mask from a sample,
/// which fails only on a sample that is not 16 bytes long.
#[verifier::external_body]
fn header_mask(key: &HeaderProtectionKey, sample: &[u8]) -> (r: Option<Vec<u8>>)
    ensures
        r matches Some(m) ==> m@.len() == 5,
        r matches Some(m) ==> m@ == hp_mask_of(*key, sample@),
        sample@.len() == SAMPLE_LEN ==> r is Some,
{
    key.new_mask(sample).ok().map(|m| m.to_vec())
}

/// The byte of a packet number that stands at `i` in a 12-byte big-endian field.
pub open spec fn pn_byte(pn: u64, i: int) -> u8 {
    if i < 4 {
        0u8
    } else {
        ((pn >> ((8 * (11 - i)) as u64)) & 0xff) as u8
    }
}

/// The nonce of packet `pn`: the IV with the packet number, left-padded to
/// 12 bytes, XORed into it.
pub open spec fn nonce_of(iv: Seq<u8>, pn: u64) -> Seq<u8> {
    Seq::new(12, |i: int| iv[i] ^ pn_byte(pn, i))
}

/// The nonce of packet `pn` under `iv`.
pub fn packet_nonce(iv: &[u8], pn: u64) -> (r: Vec<u8>)
    requires
        iv@.len() == IV_LEN,
    ensures
        r@ == nonce_of(iv@, pn),
{
    let mut out: Vec<u8> = Vec::new();
    let mut i: usize = 0;
    while i < IV_LEN
        invariant
            i <= IV_LEN,
            iv@.len() == IV_LEN,
            out@.len() == i,
            forall|j: int| 0 <= j < i ==> out@[j] == iv@[j] ^ pn_byte(pn, j),
        decreases IV_LEN - i,
    {
        let b: u8 = if i < 4 {
            0u8
        } else {
            ((pn >> ((8 * (11 - i)) as u64)) & 0xff) as u8
        };
        out.push(iv[i] ^ b);
        i = i + 1;
    }
    assert(out@ =~= nonce_of(iv@, pn));
    out
}

/// The bits of the first byte that header protection covers: four on a
/// long header, five on a short one.
pub open spec fn first_byte_bits(first: u8) -> u8 {
    if first & 0x80 != 0 { 0x0fu8 } else { 0x1fu8 }
}

/// The packet-number bytes after the mask bytes that follow the first are XORed in.
pub open spec fn masked_pn(pn: Seq<u8>, mask: Seq<u8>) -> Seq<u8> {
    Seq::new(pn.len(), |i: int| pn[i] ^ mask[i + 1])
}

/// XORs `mask[1..]` into the packet-number bytes in place.
fn mask_packet_number(pn: &mut Vec<u8>, mask: &[u8])
    requires
        mask@.len() == 5,
        old(pn)@.len() <= 4,
    ensures
        final(pn)@ == masked_pn(old(pn)@, mask@),
{
    let ghost start = pn@;
    let mut i: usize = 0;
    while i < pn.len()
        invariant
            i <= pn@.len(),
            pn@.len() == start.len(),
            start.len() <= 4,
            mask@.len() == 5,
            forall|j: int| 0 <= j < i ==> pn@[j] == start[j] ^ mask@[j + 1],
            forall|j: int| i <= j < pn@.len() ==> pn@[j] == start[j],
        decreases pn@.len() - i,
    {
        let b = pn[i] ^ mask[i + 1];
        pn.set(i, b);
        i = i + 1;
    }
    assert(pn@ =~= masked_pn(start, mask@));
}

/// The number of packet-number bytes that an unprotected first byte announces.
pub open spec fn pn_len_of(first: u8) -> nat {
    ((first & 0x03) + 1) as nat
}

/// Masking a header twice with the same mask gives it back: the first byte
/// keeps its form bit, so the same bits are masked both times.
pub proof fn lemma_header_mask_involution(first: u8, pn: Seq<u8>, mask: Seq<u8>)
    requires
        mask.len() == 5,
        pn.len() <= 4,
    ensures
        ({
            let b = first ^ (mask[0] & first_byte_bits(first));
            b ^ (mask[0] & first_byte_bits(b)) == first
        }),
        masked_pn(masked_pn(pn, mask), mask) == pn,
{
    let m = mask[0];
    let b = first ^ (m & first_byte_bits(first));
    if first & 0x80 != 0 {
        assert((first ^ (m & 0x0f)) & 0x80 != 0) by (bit_vector)
            requires
                first & 0x80 != 0,
        ;
        assert((first ^ (m & 0x0f)) ^ (m & 0x0f) == first) by (bit_vector);
    } else {
        assert((first ^ (m & 0x1f)) & 0x80 == 0) by (bit_vector)
            requires
                first & 0x80 == 0,
        ;
        assert((first ^ (m & 0x1f)) ^ (m & 0x1f) == first) by (bit_vector);
    }
    assert forall|i: int| 0 <= i < pn.len() implies (pn[i] ^ mask[i + 1]) ^ mask[i + 1] == pn[i] by {
        let x = pn[i];
        let y = mask[i + 1];
        assert((x ^ y) ^ y == x) by (bit_vector);
    }
    assert(masked_pn(masked_pn(pn, mask), mask) =~= pn);
}

/// The label `quic key`.
pub open spec fn quic_key_label() -> Seq<u8> {
    seq![0x71u8, 0x75, 0x69, 0x63, 0x20, 0x6b, 0x65, 0x79]
}

/// The label `quic iv`.
pub open spec fn quic_iv_label() -> Seq<u8> {
    seq![0x71u8, 0x75, 0x69, 0x63, 0x20, 0x69, 0x76]
}

/// The label `quic hp`.
pub open spec fn quic_hp_label() -> Seq<u8> {
    seq![0x71u8, 0x75, 0x69, 0x63, 0x20, 0x68, 0x70]
}

/// HKDF-Expand-Label of `secret` for `label` and `len` bytes. HKDF-Expand
/// of a longer output begins with the shorter one for the same info, so the
/// first `len` bytes of the 32-byte block are the output.
pub open spec fn expand_label_of(secret: Prk, label: Seq<u8>, len: u16) -> Seq<u8> {
    hkdf_block_of(secret, hkdf_label_bytes(label, len)).subrange(0, len as int)
}

/// Overwrites every byte of `v` with zero.
fn wipe(v: &mut Vec<u8>)
    ensures
        final(v)@ == Seq::new(old(v)@.len(), |i: int| 0u8),
{
    let mut i: usize = 0;
    while i < v.len()
        invariant
            i <= v@.len(),
            v@.len() == old(v)@.len(),
            forall|j: int| 0 <= j < i ==> v@[j] == 0u8,
        decreases v@.len() - i,
    {
        v.set(i, 0u8);
        i = i + 1;
    }
    assert(v@ =~= Seq::new(old(v)@.len(), |i: int| 0u8));
}

/// HKDF-Expand-Label of `secret` for `label` and `len` bytes.
fn expand_label(secret: &Prk, label: &[u8], len: u16) -> (r: Vec<u8>)
    requires
        label@.len() <= 249,
        len <= 32,
    ensures
        r@ == expand_label_of(*secret, label@, len),
        r@.len() == len,
{
    let info = hkdf_label(label, len);
    let mut block = expand_block(secret, info.as_slice()).unwrap();
    let ghost full = block@;
    let mut out: Vec<u8> = Vec::new();
    let mut i: usize = 0;
    while i < len as usize
        invariant
            i <= len <= 32,
            block@ == full,
            full.len() == 32,
            out@ == full.subrange(0, i as int),
        decreases len - i,
    {
        out.push(block[i]);
        i = i + 1;
        assert(full.subrange(0, i as int) == full.subrange(0, i - 1 as int).push(full[i - 1]));
    }
    wipe(&mut block);
    out
}

/// The keys of one direction of one encryption level: a body key, the IV its
/// nonces are made from, and a header protection key from the same secret.
pub struct PacketKey {
    body: LessSafeKey,
    iv: Vec<u8>,
    header: HeaderProtectionKey,
}

impl PacketKey {
    #[verifier::type_invariant]
    spec fn iv_fits(self) -> bool {
        self.iv@.len() == IV_LEN
    }

    /// The IV that the nonces are made from.
    pub closed spec fn spec_iv(self) -> Seq<u8> {
        self.iv@
    }

    /// The key that seals and opens packet bodies.
    pub closed spec fn spec_body(self) -> LessSafeKey {
        self.body
    }

    /// The three keys are the ones that HKDF-Expand-Label gives from `secret`
    /// for `quic key`, `quic iv` and `quic hp`.
    pub open spec fn derived_from(self, secret: Prk) -> bool {
        &&& self.spec_body() == aes_128_gcm_key_of(expand_label_of(secret, quic_key_label(), 16))
        &&& self.spec_iv() == expand_label_of(secret, quic_iv_label(), 12)
        &&& self.spec_header() == hp_key_of(expand_label_of(secret, quic_hp_label(), 16))
    }

    /// The key that header masks are made with.
    pub closed spec fn spec_header(self) -> HeaderProtectionKey {
        self.header
    }

    /// Derives the keys of one direction from its secret with the labels
    /// `quic key`, `quic iv` and `quic hp`. The secret is used up.
    pub fn new(secret: Prk) -> (r: PacketKey)
        ensures
            r.derived_from(secret),
            r.spec_iv().len() == IV_LEN,
    {
        let key_label: [u8; 8] = [0x71, 0x75, 0x69, 0x63, 0x20, 0x6b, 0x65, 0x79];
        let iv_label: [u8; 7] = [0x71, 0x75, 0x69, 0x63, 0x20, 0x69, 0x76];
        let hp_label: [u8; 7] = [0x71, 0x75, 0x69, 0x63, 0x20, 0x68, 0x70];
        assert(key_label@ == quic_key_label());
        assert(iv_label@ == quic_iv_label());
        assert(hp_label@ == quic_hp_label());
        let mut key_bytes = expand_label(&secret, key_label.as_slice(), 16);
        let body = aes_128_gcm_key(key_bytes.as_slice()).unwrap();
        wipe(&mut key_bytes);
        let iv = expand_label(&secret, iv_label.as_slice(), 12);
        let mut hp_bytes = expand_label(&secret, hp_label.as_slice(), 16);
        let header = aes_128_header_key(hp_bytes.as_slice()).unwrap();
        wipe(&mut hp_bytes);
        PacketKey { body, iv, header }
    }

    /// The nonce of packet `pn`.
    pub fn nonce(&self, pn: u64) -> (r: Vec<u8>)
        ensures
            r@ == nonce_of(self.spec_iv(), pn),
    {
        proof {
            use_type_invariant(self);
        }
        packet_nonce(self.iv.as_slice(), pn)
    }

    /// Encrypts and authenticates `payload` as packet `pn`, with `header` as
    /// associated data: the ciphertext followed by the tag.
    pub fn seal(&self, pn: u64, header: &[u8], payload: Vec<u8>) -> (r: Vec<u8>)
        requires
            payload@.len() <= MAX_SEAL_LEN,
            payload@.len() + TAG_LEN <= usize::MAX,
        ensures
            r@.len() == payload@.len() + TAG_LEN,
            r@ == aes_gcm_seal_of(self.spec_body(), nonce_of(self.spec_iv(), pn), header@, payload@),
    {
        let nonce = self.nonce(pn);
        let mut data = payload;
        let tag = seal_in_place(&self.body, nonce.as_slice(), header, &mut data).unwrap();
        let mut i: usize = 0;
        let ghost sealed = data@;
        while i < tag.len()
            invariant
                i <= tag@.len(),
                data@ == sealed + tag@.subrange(0, i as int),
            sealed + tag@ == aes_gcm_seal_of(self.body, nonce@, header@, payload@),
            decreases tag@.len() - i,
        {
            data.push(tag[i]);
            i = i + 1;
            assert(tag@.subrange(0, i as int) == tag@.subrange(0, i - 1 as int).push(tag@[i - 1]));
        }
        assert(tag@.subrange(0, tag@.len() as int) == tag@);
        data
    }

    /// Verifies and decrypts packet `pn`; a tag that does not verify is a
    /// decryption fault.
    pub fn open(&self, pn: u64, header: &[u8], sealed: Vec<u8>) -> (r: Result<Vec<u8>, Error>)
        ensures
            r matches Ok(p) ==> p@.len() + TAG_LEN == sealed@.len(),
            r matches Ok(p) ==> aes_gcm_open_of(self.spec_body(), nonce_of(self.spec_iv(), pn),
                header@, sealed@) == Some(p@),
            r matches Err(e) ==> e == Error::Decrypt && aes_gcm_open_of(self.spec_body(),
                nonce_of(self.spec_iv(), pn), header@, sealed@) is None,
    {
        let nonce = self.nonce(pn);
        match open_in_place(&self.body, nonce.as_slice(), header, sealed) {
            Some(p) => Ok(p),
            None => Err(Error::from(ReplaySignal::InvalidTag)),
        }
    }

    /// Masks the first byte and the packet-number bytes of a header with the
    /// mask made from `sample`; returns the protected first byte.
    pub fn protect_header(&self, first: u8, pn: &mut Vec<u8>, sample: &[u8]) -> (r: Option<u8>)
        requires
            old(pn)@.len() <= 4,
        ensures
            sample@.len() == SAMPLE_LEN ==> r is Some,
            r is None ==> final(pn)@ == old(pn)@,
            r matches Some(b) ==> b == first ^ (hp_mask_of(self.spec_header(), sample@)[0]
                & first_byte_bits(first)),
            r is Some ==> final(pn)@ == masked_pn(old(pn)@, hp_mask_of(self.spec_header(), sample@)),
    {
        let mask = match header_mask(&self.header, sample) {
            Some(m) => m,
            None => return None,
        };
        let bits: u8 = if first & 0x80 != 0 { 0x0f } else { 0x1f };
        mask_packet_number(pn, mask.as_slice());
        assert(first ^ (mask[0] & bits) == first ^ (mask@[0] & first_byte_bits(first)));
        Some(first ^ (mask[0] & bits))
    }

    /// Removes header protection: unmasks the first byte, reads from it how
    /// many packet-number bytes there are, and unmasks that many of `pn`.
    pub fn unprotect_header(&self, first: u8, pn: &mut Vec<u8>, sample: &[u8]) -> (r: Option<u8>)
        requires
            old(pn)@.len() == 4,
        ensures
            sample@.len() == SAMPLE_LEN ==> r is Some,
            r is None ==> final(pn)@ == old(pn)@,
            r matches Some(b) ==> b == first ^ (hp_mask_of(self.spec_header(), sample@)[0]
                & first_byte_bits(first)),
            r matches Some(b) ==> final(pn)@ == masked_pn(old(pn)@.subrange(0, pn_len_of(b) as int),
                hp_mask_of(self.spec_header(), sample@)),
    {
        let mask = match header_mask(&self.header, sample) {
            Some(m) => m,
            None => return None,
        };
        let bits: u8 = if first & 0x80 != 0 { 0x0f } else { 0x1f };
        let plain = first ^ (mask[0] & bits);
        let low: u8 = plain & 0x03;
        assert(low <= 3) by (bit_vector)
            requires
                low == plain & 0x03,
        ;
        let len: usize = low as usize + 1;
        let ghost start = pn@;
        pn.truncate(len);
        assert(pn@ == start.subrange(0, pn_len_of(plain) as int));
        mask_packet_number(pn, mask.as_slice());
        assert(plain == first ^ (mask@[0] & first_byte_bits(first)));
        Some(plain)
    }
}

} // verus!
