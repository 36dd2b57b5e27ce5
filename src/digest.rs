use vstd::prelude::*;
use md5::Digest;
use crate::hex::{hex_upper, upper_hex};

verus! {

/// An MD5 hasher. md5's hasher type is generic over typenum bounds that
/// Verus cannot declare, so it is held here out of Verus's sight.
#[verifier::external_body]
pub struct Md5Hasher {
    inner: md5::Md5,
}

#[verifier::external_type_specification]
#[verifier::external_body]
pub struct ExBlake3Hasher(blake3::Hasher);

/// The bytes that an MD5 hasher has absorbed since it was created.
pub uninterp spec fn md5_input(h: Md5Hasher) -> Seq<u8>;

/// The MD5 digest of a byte sequence.
pub uninterp spec fn md5_of(data: Seq<u8>) -> Seq<u8>;

/// The bytes that a BLAKE3 hasher has absorbed since it was created.
pub uninterp spec fn blake3_input(h: blake3::Hasher) -> Seq<u8>;

/// The BLAKE3 digest (default 32-byte output) of a byte sequence.
pub uninterp spec fn blake3_of(data: Seq<u8>) -> Seq<u8>;

/// Relies on md5's `Digest::new`: a fresh hasher has absorbed nothing.
#[verifier::external_body]
fn md5_new() -> (r: Md5Hasher)
    ensures
        md5_input(r) == Seq::<u8>::empty(),
{
    Md5Hasher { inner: <md5::Md5 as Digest>::new() }
}

/// Relies on md5's `Digest::update`: the chunk is appended to what was absorbed.
#[verifier::external_body]
fn md5_update(h: &mut Md5Hasher, data: &[u8])
    ensures
        md5_input(*final(h)) == md5_input(*old(h)) + data@,
{
    Digest::update(&mut h.inner, data)
}

/// Relies on md5's `Digest::finalize`: the 16-byte digest of all absorbed bytes.
#[verifier::external_body]
fn md5_finalize(h: Md5Hasher) -> (r: Vec<u8>)
    ensures
        r@ == md5_of(md5_input(h)),
        r@.len() == 16,
{
    h.inner.finalize().to_vec()
}

/// Relies on `blake3::Hasher::new`: a fresh hasher has absorbed nothing.
#[verifier::external_body]
fn blake3_new() -> (r: blake3::Hasher)
    ensures
        blake3_input(r) == Seq::<u8>::empty(),
{
    blake3::Hasher::new()
}

/// Relies on `blake3::Hasher::update`: the chunk is appended to what was absorbed.
#[verifier::external_body]
fn blake3_update(h: &mut blake3::Hasher, data: &[u8])
    ensures
        blake3_input(*final(h)) == blake3_input(*old(h)) + data@,
{
    h.update(data);
}

/// Relies on `blake3::Hasher::finalize` and `Hash::as_bytes`: the 32-byte
/// digest of all absorbed bytes.
#[verifier::external_body]
fn blake3_finalize(h: &blake3::Hasher) -> (r: Vec<u8>)
    ensures
        r@ == blake3_of(blake3_input(*h)),
        r@.len() == 32,
{
    h.finalize().as_bytes().to_vec()
}

/// The digest algorithm of a run.
#[derive(Clone, Copy, Debug, PartialEq, Eq, Structural)]
pub enum Algo {
    /// The 128-bit legacy digest.
    Md5,
    /// The 256-bit tree digest.
    Blake3,
}

impl Default for Algo {
    fn default() -> (r: Algo)
        ensures
            r == Algo::Blake3,
    {
        Algo::Blake3
    }
}

/// The digest of `data` under `algo`.
pub open spec fn digest_of(algo: Algo, data: Seq<u8>) -> Seq<u8> {
    match algo {
        Algo::Md5 => md5_of(data),
        Algo::Blake3 => blake3_of(data),
    }
}

/// The width of a digest of `algo`, in bytes.
pub open spec fn digest_len(algo: Algo) -> nat {
    match algo {
        Algo::Md5 => 16,
        Algo::Blake3 => 32,
    }
}

/// The canonical rendering of the digest of `data`: uppercase hexadecimal.
pub open spec fn digest_hex_of(algo: Algo, data: Seq<u8>) -> Seq<char> {
    upper_hex(digest_of(algo, data))
}

enum Engine {
    Md5(Md5Hasher),
    Blake3(blake3::Hasher),
}

/// An incremental digest computation: bytes are fed in chunks of any size,
/// and the result depends only on their concatenation.
pub struct DigestStream {
    engine: Engine,
}

impl DigestStream {
    /// The algorithm that the stream computes.
    pub closed spec fn algo(&self) -> Algo {
        match self.engine {
            Engine::Md5(_) => Algo::Md5,
            Engine::Blake3(_) => Algo::Blake3,
        }
    }

    /// All bytes fed to the stream so far, in order.
    pub closed spec fn absorbed(&self) -> Seq<u8> {
        match self.engine {
            Engine::Md5(h) => md5_input(h),
            Engine::Blake3(h) => blake3_input(h),
        }
    }

    /// A stream for `algo` that has absorbed nothing.
    pub fn new(algo: Algo) -> (r: DigestStream)
        ensures
            r.algo() == algo,
            r.absorbed() == Seq::<u8>::empty(),
    {
        match algo {
            Algo::Md5 => DigestStream { engine: Engine::Md5(md5_new()) },
            Algo::Blake3 => DigestStream { engine: Engine::Blake3(blake3_new()) },
        }
    }

    /// Feeds one chunk.
    pub fn absorb(&mut self, chunk: &[u8])
        ensures
            final(self).algo() == old(self).algo(),
            final(self).absorbed() == old(self).absorbed() + chunk@,
    {
        match &mut self.engine {
            Engine::Md5(h) => md5_update(h, chunk),
            Engine::Blake3(h) => blake3_update(h, chunk),
        }
    }

    /// The digest of everything absorbed, as uppercase hexadecimal:
    /// 32 characters for MD5, 64 for BLAKE3.
    pub fn finish(self) -> (r: String)
        ensures
            r@ == digest_hex_of(self.algo(), self.absorbed()),
            r@.len() == 2 * digest_len(self.algo()),
    {
        let bytes = match self.engine {
            Engine::Md5(h) => md5_finalize(h),
            Engine::Blake3(h) => blake3_finalize(&h),
        };
        hex_upper(bytes.as_slice())
    }
}

/// The digest of `data` under `algo`, computed in one piece.
pub fn digest_hex(algo: Algo, data: &[u8]) -> (r: String)
    ensures
        r@ == digest_hex_of(algo, data@),
        r@.len() == 2 * digest_len(algo),
{
    let mut stream = DigestStream::new(algo);
    stream.absorb(data);
    proof {
        assert(Seq::<u8>::empty() + data@ =~= data@);
    }
    stream.finish()
}

} // verus!

verus! {

/// Hashing is deterministic: two streams of one algorithm that absorbed the
/// same bytes, however the bytes were cut into chunks, finish with the same
/// digest text.
pub proof fn law_digest_deterministic(a: DigestStream, b: DigestStream)
    requires
        a.algo() == b.algo(),
        a.absorbed() == b.absorbed(),
    ensures
        digest_hex_of(a.algo(), a.absorbed()) == digest_hex_of(b.algo(), b.absorbed()),
{
}

} // verus!
