use vstd::prelude::*;
use aws_lc_rs::hkdf::Prk;

verus! {

#[verifier::external_type_specification]
#[verifier::external_body]
pub struct ExPrk(aws_lc_rs::hkdf::Prk);

/// The phases of a session, each with keys of its own, in the order in which
/// a connection reaches them.
#[derive(Clone, Copy, Debug, PartialEq, Eq, Structural)]
pub enum EncryptionLevel {
    Initial,
    Handshake,
    ZeroRtt,
    OneRtt,
    Retry,
}

/// The position of a level in the order of epochs.
pub open spec fn level_rank(l: EncryptionLevel) -> nat {
    match l {
        EncryptionLevel::Initial => 0,
        EncryptionLevel::Handshake => 1,
        EncryptionLevel::ZeroRtt => 2,
        EncryptionLevel::OneRtt => 3,
        EncryptionLevel::Retry => 4,
    }
}

impl EncryptionLevel {
    /// The position of the level in the order of epochs.
    pub fn rank(&self) -> (r: u8)
        ensures
            r == level_rank(*self),
    {
        match self {
            EncryptionLevel::Initial => 0,
            EncryptionLevel::Handshake => 1,
            EncryptionLevel::ZeroRtt => 2,
            EncryptionLevel::OneRtt => 3,
            EncryptionLevel::Retry => 4,
        }
    }

    /// Whether this level comes strictly before `other`.
    pub fn precedes(&self, other: &EncryptionLevel) -> (r: bool)
        ensures
            r == (level_rank(*self) < level_rank(*other)),
    {
        self.rank() < other.rank()
    }
}

/// Relies on the derived `Clone` of `aws_lc_rs::hkdf::Prk`, which copies its
/// algorithm and key bytes (or shares its reference-counted secret): the
/// clone expands to the same output.
pub assume_specification[ <aws_lc_rs::hkdf::Prk as Clone>::clone ](p: &aws_lc_rs::hkdf::Prk) -> (r: aws_lc_rs::hkdf::Prk)
    ensures
        r == *p,
;

/// The two directional secrets that one point of the key schedule yields.
#[derive(Clone)]
pub struct SecretPair {
    /// The secret of the server-to-client direction.
    pub server: Prk,
    /// The secret of the client-to-server direction.
    pub client: Prk,
}

/// The prefix that TLS 1.3 puts before every expansion label.
pub open spec fn tls13_prefix() -> Seq<u8> {
    seq![0x74u8, 0x6c, 0x73, 0x31, 0x33, 0x20]
}

/// The `HkdfLabel` structure of TLS 1.3 with an empty context: the output
/// length in two bytes, big-endian, then the prefixed label with a one-byte
/// length, then an empty context.
pub open spec fn hkdf_label_bytes(label: Seq<u8>, len: u16) -> Seq<u8> {
    seq![(len / 256) as u8, (len % 256) as u8, (6 + label.len()) as u8] + tls13_prefix() + label
        + seq![0u8]
}

/// Encodes the expansion label for `label` and an output of `len` bytes.
pub fn hkdf_label(label: &[u8], len: u16) -> (r: Vec<u8>)
    requires
        label@.len() <= 249,
    ensures
        r@ == hkdf_label_bytes(label@, len),
{
    let mut out: Vec<u8> = Vec::new();
    out.push((len / 256) as u8);
    out.push((len % 256) as u8);
    out.push((6 + label.len()) as u8);
    out.push(0x74u8);
    out.push(0x6c);
    out.push(0x73);
    out.push(0x31);
    out.push(0x33);
    out.push(0x20);
    let ghost head = out@;
    assert(head == seq![(len / 256) as u8, (len % 256) as u8, (6 + label@.len()) as u8]
        + tls13_prefix());
    let mut i: usize = 0;
    while i < label.len()
        invariant
            i <= label@.len(),
            out@ == head + label@.subrange(0, i as int),
        decreases label@.len() - i,
    {
        out.push(label[i]);
        i = i + 1;
        assert(label@.subrange(0, i as int) == label@.subrange(0, i - 1 as int).push(label@[i - 1]));
    }
    out.push(0u8);
    assert(label@.subrange(0, label@.len() as int) == label@);
    out
}

} // verus!
