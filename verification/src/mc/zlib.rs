//! Zlib compression of packet payloads.

use flate2::read::ZlibDecoder;
use flate2::write::ZlibEncoder;
use flate2::Compression;
use std::io::{Read, Write};
use vstd::prelude::*;

verus! {

/// The zlib stream that `flate2` makes of `data` at its default level.
pub uninterp spec fn spec_zlib_deflate(data: Seq<u8>) -> Seq<u8>;

/// What `flate2` inflates a zlib stream to; `None` for bytes that it
/// rejects.
pub uninterp spec fn spec_zlib_inflate(data: Seq<u8>) -> Option<Seq<u8>>;

/// `flate2::write::ZlibEncoder` at the default level, fed all of `data` and
/// finished. Where a stream comes back, it is the one that `data` always
/// deflates to, and it inflates to `data` again. The encoder reports failure
/// through `io::Result`; then nothing comes back.
#[verifier::external_body]
pub fn compress(data: &[u8]) -> (stream: Option<Vec<u8>>)
    ensures
        stream matches Some(v) ==> v@ == spec_zlib_deflate(data@) && spec_zlib_inflate(v@) == Some(
            data@,
        ),
{
    let mut encoder = ZlibEncoder::new(Vec::new(), Compression::default());
    encoder.write_all(data).ok()?;
    encoder.finish().ok()
}

/// `flate2::read::ZlibDecoder` read to its end: the inflated bytes of a zlib
/// stream, or nothing where the decoder reports an error. The result depends
/// on `data` alone.
#[verifier::external_body]
pub fn decompress(data: &[u8]) -> (inflated: Option<Vec<u8>>)
    ensures
        match inflated {
            Some(v) => spec_zlib_inflate(data@) == Some(v@),
            None => spec_zlib_inflate(data@) is None,
        },
{
    let mut out_vec = Vec::new();
    let mut decoder = ZlibDecoder::new(data);
    decoder.read_to_end(&mut out_vec).ok().map(|_| out_vec)
}

} // verus!
