//! Streaming SHA-1 digests. The arithmetic of SHA-1 itself is done by
//! the `sha1_smol` crate; this module gives its hasher a verified
//! streaming interface whose contract tracks exactly which bytes have
//! been absorbed.

use vstd::prelude::*;

verus! {

/// Declares `sha1_smol::Sha1` as an opaque outside type, so a hasher
/// can be held in a field and passed through verified code.
#[verifier::external_type_specification]
#[verifier::external_body]
pub struct ExSha1(sha1_smol::Sha1);

/// The bytes a `sha1_smol::Sha1` hasher has absorbed so far.
pub uninterp spec fn hasher_fed(h: sha1_smol::Sha1) -> Seq<u8>;

/// The lowercase hexadecimal SHA-1 digest of a byte sequence: what
/// `sha1_smol::Sha1::hexdigest` returns after absorbing exactly those
/// bytes. It depends on the bytes alone.
pub uninterp spec fn sha1_hex_of(bytes: Seq<u8>) -> Seq<char>;

/// Relies on `sha1_smol::Sha1::new`: a fresh hasher has absorbed
/// nothing.
#[verifier::external_body]
fn sha1_new() -> (h: sha1_smol::Sha1)
    ensures
        hasher_fed(h) == Seq::<u8>::empty(),
{
    sha1_smol::Sha1::new()
}

/// Relies on `sha1_smol::Sha1::update`: absorbs exactly the given
/// bytes, after everything absorbed before.
#[verifier::external_body]
fn sha1_update(h: &mut sha1_smol::Sha1, data: &[u8])
    ensures
        hasher_fed(*final(h)) == hasher_fed(*old(h)) + data@,
{
    h.update(data)
}

/// Relies on `sha1_smol::Sha1::hexdigest`: the hex digest of the
/// absorbed bytes, a function of those bytes alone.
#[verifier::external_body]
fn sha1_hexdigest(h: &sha1_smol::Sha1) -> (r: String)
    ensures
        r@ == sha1_hex_of(hasher_fed(*h)),
{
    h.hexdigest()
}

/// A SHA-1 digest computed over a stream of chunks, so that a file of
/// any size can be digested with bounded memory.
pub struct Sha1Stream {
    inner: sha1_smol::Sha1,
}

impl Sha1Stream {
    /// The bytes this stream has absorbed so far.
    pub closed spec fn fed(self) -> Seq<u8> {
        hasher_fed(self.inner)
    }

    /// A fresh digest stream that has absorbed nothing.
    pub fn new() -> (s: Self)
        ensures
            s.fed() == Seq::<u8>::empty(),
    {
        Sha1Stream { inner: sha1_new() }
    }

    /// Absorbs one chunk of input.
    pub fn update(&mut self, data: &[u8])
        ensures
            final(self).fed() == old(self).fed() + data@,
    {
        sha1_update(&mut self.inner, data);
    }

    /// The lowercase hex digest of everything absorbed so far.
    pub fn hex_digest(&self) -> (r: String)
        ensures
            r@ == sha1_hex_of(self.fed()),
    {
        sha1_hexdigest(&self.inner)
    }
}

/// The hex SHA-1 digest of a byte slice held in memory.
pub fn sha1_hex_of_bytes(data: &[u8]) -> (r: String)
    ensures
        r@ == sha1_hex_of(data@),
{
    let mut s = Sha1Stream::new();
    s.update(data);
    proof {
        assert(s.fed() =~= data@);
    }
    s.hex_digest()
}

} // verus!
