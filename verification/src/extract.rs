//! Random-access extraction of one compressed block, and decompression of
//! the compressed index source.
//!
//! The codec is a collaborator (bzip2). A block of the archive is a
//! concatenation of independently compressed frames, so block extraction
//! decodes multistream; the index source is a single stream.

use vstd::prelude::*;

use crate::WikiError;

verus! {

/// What single-stream decompression of `b` yields: `Some(text)` exactly
/// when `b` is a well-formed compressed stream whose decoded bytes are
/// valid text, `None` otherwise. The codec is deterministic, so this is a
/// function of the bytes alone.
pub uninterp spec fn bunzip_of(b: Seq<u8>) -> Option<Seq<char>>;

/// What multistream decompression of `b` yields — every concatenated
/// frame decoded back-to-back into one continuous text: `Some(text)`
/// exactly when every frame is well formed and the decoded bytes are
/// valid text, `None` otherwise. A function of the bytes alone.
pub uninterp spec fn multi_bunzip_of(b: Seq<u8>) -> Option<Seq<char>>;

/// Relies on `bzip2::read::BzDecoder`: decodes one compressed stream,
/// deterministically, succeeding exactly on well-formed input. A corrupt
/// or truncated frame is a codec error; decoded bytes that are not valid
/// text are a decode error.
#[verifier::external_body]
fn bunzip_single(data: &[u8]) -> (r: Result<String, WikiError>)
    ensures
        r is Ok <==> bunzip_of(data@) is Some,
        r is Ok ==> Some(r.unwrap()@) == bunzip_of(data@),
        r is Err ==> (r == Err::<String, WikiError>(WikiError::Codec)
            || r == Err::<String, WikiError>(WikiError::Decode)),
{
    let mut d = bzip2::read::BzDecoder::new(data);
    let mut buf: Vec<u8> = Vec::new();
    if std::io::Read::read_to_end(&mut d, &mut buf).is_err() {
        return Err(WikiError::Codec);
    }
    match String::from_utf8(buf) {
        Ok(s) => Ok(s),
        Err(_) => Err(WikiError::Decode),
    }
}

/// Relies on `bzip2::read::MultiBzDecoder`: decodes a concatenation of
/// compressed streams back-to-back, as the archive's blocks pack them,
/// deterministically, succeeding exactly on well-formed input. Errors as
/// in the single-stream case.
#[verifier::external_body]
fn bunzip_multi(data: &[u8]) -> (r: Result<String, WikiError>)
    ensures
        r is Ok <==> multi_bunzip_of(data@) is Some,
        r is Ok ==> Some(r.unwrap()@) == multi_bunzip_of(data@),
        r is Err ==> (r == Err::<String, WikiError>(WikiError::Codec)
            || r == Err::<String, WikiError>(WikiError::Decode)),
{
    let mut d = bzip2::read::MultiBzDecoder::new(data);
    let mut buf: Vec<u8> = Vec::new();
    if std::io::Read::read_to_end(&mut d, &mut buf).is_err() {
        return Err(WikiError::Codec);
    }
    match String::from_utf8(buf) {
        Ok(s) => Ok(s),
        Err(_) => Err(WikiError::Decode),
    }
}

/// Decodes the bytes of one block — already read from the archive at the
/// block's offset and length — as a concatenation of compressed frames,
/// and returns the decoded text: success exactly when the bytes decode,
/// failure otherwise, with no partial output either way.
pub fn extract_block(data: &[u8]) -> (r: Result<String, WikiError>)
    ensures
        r is Ok <==> multi_bunzip_of(data@) is Some,
        r is Ok ==> Some(r.unwrap()@) == multi_bunzip_of(data@),
        r is Err ==> (r == Err::<String, WikiError>(WikiError::Codec)
            || r == Err::<String, WikiError>(WikiError::Decode)),
{
    bunzip_multi(data)
}

/// Decompresses the single-stream index source and returns its text:
/// success exactly when the bytes decode.
pub fn decompress_index(data: &[u8]) -> (r: Result<String, WikiError>)
    ensures
        r is Ok <==> bunzip_of(data@) is Some,
        r is Ok ==> Some(r.unwrap()@) == bunzip_of(data@),
        r is Err ==> (r == Err::<String, WikiError>(WikiError::Codec)
            || r == Err::<String, WikiError>(WikiError::Decode)),
{
    bunzip_single(data)
}

} // verus!
