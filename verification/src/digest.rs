//! The digest operations: MD5 and SHA-1 over a borrowed input view.

use vstd::prelude::*;
use sha1::Digest;
use crate::buffer::{copy_to_buffer, SizedByteArray};

verus! {

/// Length of an MD5 digest in bytes.
pub const MD5_DIGEST_LEN: usize = 16;

/// Length of a SHA-1 digest in bytes.
pub const SHA1_DIGEST_LEN: usize = 20;

/// The MD5 digest of `data` as `md5::compute` gives it.
pub uninterp spec fn md5_digest(data: Seq<u8>) -> Seq<u8>;

/// `md5::compute`: the sixteen bytes of the digest of `data`.
#[verifier::external_body]
fn md5_compute(data: &[u8]) -> (digest: [u8; MD5_DIGEST_LEN])
    ensures
        digest@ == md5_digest(data@),
{
    md5::compute(data).0
}

/// `sha1::Sha1`, the running state of one SHA-1 computation.
#[verifier::external_body]
pub struct Sha1Hasher {
    inner: sha1::Sha1,
}

/// The bytes that a hasher has processed since it was made, in order.
pub uninterp spec fn sha1_hasher_input(hasher: Sha1Hasher) -> Seq<u8>;

/// The SHA-1 digest that finalizing yields after the hasher has processed
/// `input`.
pub uninterp spec fn sha1_digest(input: Seq<u8>) -> Seq<u8>;

/// `Digest::new` for `Sha1`: a hasher that has processed nothing.
#[verifier::external_body]
fn sha1_new() -> (hasher: Sha1Hasher)
    ensures
        sha1_hasher_input(hasher) == Seq::<u8>::empty(),
{
    Sha1Hasher { inner: sha1::Sha1::new() }
}

/// `Digest::update` for `Sha1`: the hasher processes `data` after what it had
/// processed before. The crate counts the processed bits in 64 bits; the
/// bound keeps far below that.
#[verifier::external_body]
fn sha1_update(hasher: &mut Sha1Hasher, data: &[u8])
    requires
        sha1_hasher_input(*old(hasher)).len() + data@.len() <= u32::MAX,
    ensures
        sha1_hasher_input(*final(hasher)) == sha1_hasher_input(*old(hasher)) + data@,
{
    hasher.inner.update(data)
}

/// `Digest::finalize` for `Sha1`: the twenty bytes of the digest of all that
/// the hasher has processed.
#[verifier::external_body]
fn sha1_finalize(hasher: Sha1Hasher) -> (digest: [u8; SHA1_DIGEST_LEN])
    requires
        sha1_hasher_input(hasher).len() <= u32::MAX,
    ensures
        digest@ == sha1_digest(sha1_hasher_input(hasher)),
{
    hasher.inner.finalize().into()
}

/// Computes the MD5 digest of `data` and hands its sixteen bytes to `ret` in
/// a buffer of exactly that length. Always succeeds.
///
/// The boundary describes a view by a 32-bit length, so `data` is no longer
/// than that.
pub fn mirai_hash_md5(data: &[u8], ret: &mut SizedByteArray) -> (ok: bool)
    requires
        data@.len() <= u32::MAX,
    ensures
        ok,
        final(ret)@ == Some(md5_digest(data@)),
        md5_digest(data@).len() == MD5_DIGEST_LEN,
{
    let digest: [u8; MD5_DIGEST_LEN] = md5_compute(data);
    let buffer = copy_to_buffer(digest.as_slice());
    ret.store(buffer)
}

/// Computes the SHA-1 digest of `data`, consuming the whole view once, and
/// hands all twenty bytes of it to `ret` in a buffer of exactly that length.
/// Always succeeds.
///
/// The boundary describes a view by a 32-bit length, so `data` is no longer
/// than that.
pub fn mirai_hash_sh1(data: &[u8], ret: &mut SizedByteArray) -> (ok: bool)
    requires
        data@.len() <= u32::MAX,
    ensures
        ok,
        final(ret)@ == Some(sha1_digest(data@)),
        sha1_digest(data@).len() == SHA1_DIGEST_LEN,
{
    let mut hasher = sha1_new();
    sha1_update(&mut hasher, data);
    let digest: [u8; SHA1_DIGEST_LEN] = sha1_finalize(hasher);
    let buffer = copy_to_buffer(digest.as_slice());
    ret.store(buffer)
}

} // verus!
