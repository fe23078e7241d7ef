//! The gzip operations: a whole view in, a whole gzip stream or its content
//! out.

use vstd::prelude::*;
use std::io::Write;
use crate::buffer::SizedByteArray;
use crate::codec::{delivers, hand_over, produced};

verus! {

/// `flate2::write::GzEncoder` over a `Vec<u8>` that collects the stream.
#[verifier::external_body]
pub struct GzipStreamEncoder {
    inner: flate2::write::GzEncoder<Vec<u8>>,
}

/// The bytes that an encoder has taken in since it was made.
pub uninterp spec fn gzip_encoder_input(encoder: GzipStreamEncoder) -> Seq<u8>;

/// Whether an encoder that has taken in nothing yet takes in all of `data`.
pub uninterp spec fn gzip_encoder_accepts(data: Seq<u8>) -> bool;

/// What finishing an encoder yields once it has taken in `input`: the gzip
/// stream, or `None` where finishing fails.
pub uninterp spec fn gzip_encoder_stream(input: Seq<u8>) -> Option<Seq<u8>>;

/// `GzEncoder::new` over an empty `Vec`, at `Compression::default()`: the new
/// encoder has taken in nothing.
#[verifier::external_body]
fn gzip_encoder_new() -> (encoder: GzipStreamEncoder)
    ensures
        gzip_encoder_input(encoder) == Seq::<u8>::empty(),
{
    GzipStreamEncoder { inner: flate2::write::GzEncoder::new(Vec::new(), flate2::Compression::default()) }
}

/// `Write::write_all` on a `GzEncoder` that has taken in nothing yet: whether
/// it succeeds depends on `data` alone, and on success the encoder has taken
/// in exactly `data`. Nothing is said of the encoder after a failure.
#[verifier::external_body]
fn gzip_encoder_write_all(encoder: &mut GzipStreamEncoder, data: &[u8]) -> (written: Result<(), std::io::Error>)
    requires
        gzip_encoder_input(*old(encoder)) == Seq::<u8>::empty(),
    ensures
        written is Ok <==> gzip_encoder_accepts(data@),
        written is Ok ==> gzip_encoder_input(*final(encoder)) == data@,
{
    encoder.inner.write_all(data)
}

/// `GzEncoder::finish`: the collected stream or the error, which depend only
/// on what the encoder has taken in.
#[verifier::external_body]
fn gzip_encoder_finish(encoder: GzipStreamEncoder) -> (stream: Result<Vec<u8>, std::io::Error>)
    ensures
        produced(stream) == gzip_encoder_stream(gzip_encoder_input(encoder)),
{
    encoder.inner.finish()
}

/// `flate2::write::GzDecoder` over a `Vec<u8>` that collects the content.
#[verifier::external_body]
pub struct GzipStreamDecoder {
    inner: flate2::write::GzDecoder<Vec<u8>>,
}

/// The bytes that a decoder has taken in since it was made.
pub uninterp spec fn gzip_decoder_input(decoder: GzipStreamDecoder) -> Seq<u8>;

/// Whether a decoder that has taken in nothing yet takes in all of `data`.
pub uninterp spec fn gzip_decoder_accepts(data: Seq<u8>) -> bool;

/// What finishing a decoder yields once it has taken in `input`: the content
/// of the gzip member, or `None` where the decoder finds the member incomplete
/// or its checksum or length wrong.
pub uninterp spec fn gzip_decoder_content(input: Seq<u8>) -> Option<Seq<u8>>;

/// `GzDecoder::new` over an empty `Vec`: the new decoder has taken in
/// nothing.
#[verifier::external_body]
fn gzip_decoder_new() -> (decoder: GzipStreamDecoder)
    ensures
        gzip_decoder_input(decoder) == Seq::<u8>::empty(),
{
    GzipStreamDecoder { inner: flate2::write::GzDecoder::new(Vec::new()) }
}

/// `Write::write_all` on a `GzDecoder` that has taken in nothing yet: whether
/// it succeeds depends on `data` alone, and on success the decoder has taken
/// in exactly `data`. Nothing is said of the decoder after a failure.
#[verifier::external_body]
fn gzip_decoder_write_all(decoder: &mut GzipStreamDecoder, data: &[u8]) -> (written: Result<(), std::io::Error>)
    requires
        gzip_decoder_input(*old(decoder)) == Seq::<u8>::empty(),
    ensures
        written is Ok <==> gzip_decoder_accepts(data@),
        written is Ok ==> gzip_decoder_input(*final(decoder)) == data@,
{
    decoder.inner.write_all(data)
}

/// `GzDecoder::finish`: the collected content or the error, which depend only
/// on what the decoder has taken in.
#[verifier::external_body]
fn gzip_decoder_finish(decoder: GzipStreamDecoder) -> (content: Result<Vec<u8>, std::io::Error>)
    ensures
        produced(content) == gzip_decoder_content(gzip_decoder_input(decoder)),
{
    decoder.inner.finish()
}

/// The gzip stream for `data`: what the encoder yields when it takes in all
/// of `data` and is then finished; `None` where either step fails.
pub open spec fn gzip_of(data: Seq<u8>) -> Option<Seq<u8>> {
    if gzip_encoder_accepts(data) {
        gzip_encoder_stream(data)
    } else {
        None
    }
}

/// The content of the gzip stream `data`: what the decoder yields when it
/// takes in all of `data` and is then finished; `None` where either step
/// fails.
pub open spec fn gunzip_of(data: Seq<u8>) -> Option<Seq<u8>> {
    if gzip_decoder_accepts(data) {
        gzip_decoder_content(data)
    } else {
        None
    }
}

/// Compresses `data` into a gzip stream at the default level: the whole view
/// is written through one encoder, the encoder is finished, and the complete
/// stream is handed to `ret`. On failure `ret` is left as it was.
///
/// The boundary describes a view by a 32-bit length, so `data` is no longer
/// than that.
pub fn mirai_compression_gzip(data: &[u8], ret: &mut SizedByteArray) -> (ok: bool)
    requires
        data@.len() <= u32::MAX,
    ensures
        ok <==> delivers(gzip_of(data@)),
        ok ==> final(ret)@ == gzip_of(data@),
        !ok ==> *final(ret) == *old(ret),
{
    let mut encoder = gzip_encoder_new();
    let result = match gzip_encoder_write_all(&mut encoder, data) {
        Ok(()) => gzip_encoder_finish(encoder),
        Err(e) => Err(e),
    };
    hand_over(result, ret)
}

/// Decompresses the gzip stream `data`: the whole view is written through one
/// decoder, the decoder is finished, and the complete content is handed to
/// `ret`. On failure `ret` is left as it was.
///
/// The boundary describes a view by a 32-bit length, so `data` is no longer
/// than that.
pub fn mirai_compression_ungzip(data: &[u8], ret: &mut SizedByteArray) -> (ok: bool)
    requires
        data@.len() <= u32::MAX,
    ensures
        ok <==> delivers(gunzip_of(data@)),
        ok ==> final(ret)@ == gunzip_of(data@),
        !ok ==> *final(ret) == *old(ret),
{
    let mut decoder = gzip_decoder_new();
    let result = match gzip_decoder_write_all(&mut decoder, data) {
        Ok(()) => gzip_decoder_finish(decoder),
        Err(e) => Err(e),
    };
    hand_over(result, ret)
}

} // verus!
