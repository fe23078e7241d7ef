//! The zlib-framed deflate operations: a whole view in, a whole zlib stream or
//! its content out.

use vstd::prelude::*;
use std::io::Write;
use crate::buffer::SizedByteArray;
use crate::codec::{delivers, hand_over, produced};

verus! {

/// `flate2::write::ZlibEncoder` over a `Vec<u8>` that collects the stream.
#[verifier::external_body]
pub struct ZlibStreamEncoder {
    inner: flate2::write::ZlibEncoder<Vec<u8>>,
}

/// The bytes that an encoder has taken in since it was made.
pub uninterp spec fn zlib_encoder_input(encoder: ZlibStreamEncoder) -> Seq<u8>;

/// Whether an encoder that has taken in nothing yet takes in all of `data`.
pub uninterp spec fn zlib_encoder_accepts(data: Seq<u8>) -> bool;

/// What finishing an encoder yields once it has taken in `input`: the zlib
/// stream, or `None` where finishing fails.
pub uninterp spec fn zlib_encoder_stream(input: Seq<u8>) -> Option<Seq<u8>>;

/// `ZlibEncoder::new` over an empty `Vec`, at `Compression::default()`: the new
/// encoder has taken in nothing.
#[verifier::external_body]
fn zlib_encoder_new() -> (encoder: ZlibStreamEncoder)
    ensures
        zlib_encoder_input(encoder) == Seq::<u8>::empty(),
{
    ZlibStreamEncoder { inner: flate2::write::ZlibEncoder::new(Vec::new(), flate2::Compression::default()) }
}

/// `Write::write_all` on a `ZlibEncoder` that has taken in nothing yet: whether
/// it succeeds depends on `data` alone, and on success the encoder has taken
/// in exactly `data`. Nothing is said of the encoder after a failure.
#[verifier::external_body]
fn zlib_encoder_write_all(encoder: &mut ZlibStreamEncoder, data: &[u8]) -> (written: Result<(), std::io::Error>)
    requires
        zlib_encoder_input(*old(encoder)) == Seq::<u8>::empty(),
    ensures
        written is Ok <==> zlib_encoder_accepts(data@),
        written is Ok ==> zlib_encoder_input(*final(encoder)) == data@,
{
    encoder.inner.write_all(data)
}

/// `ZlibEncoder::finish`: the collected stream or the error, which depend only
/// on what the encoder has taken in.
#[verifier::external_body]
fn zlib_encoder_finish(encoder: ZlibStreamEncoder) -> (stream: Result<Vec<u8>, std::io::Error>)
    ensures
        produced(stream) == zlib_encoder_stream(zlib_encoder_input(encoder)),
{
    encoder.inner.finish()
}

/// `flate2::write::ZlibDecoder` over a `Vec<u8>` that collects the content.
#[verifier::external_body]
pub struct ZlibStreamDecoder {
    inner: flate2::write::ZlibDecoder<Vec<u8>>,
}

/// The bytes that a decoder has taken in since it was made.
pub uninterp spec fn zlib_decoder_input(decoder: ZlibStreamDecoder) -> Seq<u8>;

/// Whether a decoder that has taken in nothing yet takes in all of `data`.
pub uninterp spec fn zlib_decoder_accepts(data: Seq<u8>) -> bool;

/// What finishing a decoder yields once it has taken in `input`: the content
/// of the zlib stream, or `None` where finishing fails.
pub uninterp spec fn zlib_decoder_content(input: Seq<u8>) -> Option<Seq<u8>>;

/// `ZlibDecoder::new` over an empty `Vec`: the new decoder has taken in
/// nothing.
#[verifier::external_body]
fn zlib_decoder_new() -> (decoder: ZlibStreamDecoder)
    ensures
        zlib_decoder_input(decoder) == Seq::<u8>::empty(),
{
    ZlibStreamDecoder { inner: flate2::write::ZlibDecoder::new(Vec::new()) }
}

/// `Write::write_all` on a `ZlibDecoder` that has taken in nothing yet: whether
/// it succeeds depends on `data` alone, and on success the decoder has taken
/// in exactly `data`. Nothing is said of the decoder after a failure.
#[verifier::external_body]
fn zlib_decoder_write_all(decoder: &mut ZlibStreamDecoder, data: &[u8]) -> (written: Result<(), std::io::Error>)
    requires
        zlib_decoder_input(*old(decoder)) == Seq::<u8>::empty(),
    ensures
        written is Ok <==> zlib_decoder_accepts(data@),
        written is Ok ==> zlib_decoder_input(*final(decoder)) == data@,
{
    decoder.inner.write_all(data)
}

/// `ZlibDecoder::finish`: the collected content or the error, which depend only
/// on what the decoder has taken in.
#[verifier::external_body]
fn zlib_decoder_finish(decoder: ZlibStreamDecoder) -> (content: Result<Vec<u8>, std::io::Error>)
    ensures
        produced(content) == zlib_decoder_content(zlib_decoder_input(decoder)),
{
    decoder.inner.finish()
}

/// The zlib stream for `data`: what the encoder yields when it takes in all
/// of `data` and is then finished; `None` where either step fails.
pub open spec fn deflate_of(data: Seq<u8>) -> Option<Seq<u8>> {
    if zlib_encoder_accepts(data) {
        zlib_encoder_stream(data)
    } else {
        None
    }
}

/// The content of the zlib stream `data`: what the decoder yields when it
/// takes in all of `data` and is then finished; `None` where either step
/// fails.
pub open spec fn inflate_of(data: Seq<u8>) -> Option<Seq<u8>> {
    if zlib_decoder_accepts(data) {
        zlib_decoder_content(data)
    } else {
        None
    }
}

/// Compresses `data` into a zlib stream at the default level: the whole view
/// is written through one encoder, the encoder is finished, and the complete
/// stream is handed to `ret`. On failure `ret` is left as it was.
///
/// The boundary describes a view by a 32-bit length, so `data` is no longer
/// than that.
pub fn mirai_compression_deflate(data: &[u8], ret: &mut SizedByteArray) -> (ok: bool)
    requires
        data@.len() <= u32::MAX,
    ensures
        ok <==> delivers(deflate_of(data@)),
        ok ==> final(ret)@ == deflate_of(data@),
        !ok ==> *final(ret) == *old(ret),
{
    let mut encoder = zlib_encoder_new();
    let result = match zlib_encoder_write_all(&mut encoder, data) {
        Ok(()) => zlib_encoder_finish(encoder),
        Err(e) => Err(e),
    };
    hand_over(result, ret)
}

/// Decompresses the zlib stream `data`: the whole view is written through one
/// decoder, the decoder is finished, and the complete content is handed to
/// `ret`. On failure `ret` is left as it was.
///
/// The boundary describes a view by a 32-bit length, so `data` is no longer
/// than that.
pub fn mirai_compression_infalte(data: &[u8], ret: &mut SizedByteArray) -> (ok: bool)
    requires
        data@.len() <= u32::MAX,
    ensures
        ok <==> delivers(inflate_of(data@)),
        ok ==> final(ret)@ == inflate_of(data@),
        !ok ==> *final(ret) == *old(ret),
{
    let mut decoder = zlib_decoder_new();
    let result = match zlib_decoder_write_all(&mut decoder, data) {
        Ok(()) => zlib_decoder_finish(decoder),
        Err(e) => Err(e),
    };
    hand_over(result, ret)
}

} // verus!
