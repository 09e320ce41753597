//! The compression pass applied to encoded payloads.

use vstd::prelude::*;

verus! {

/// The gzip stream that the compressor produces for `data` at its default
/// level, with the default header (no name, no comment, no time stamp).
pub uninterp spec fn gzip_of(data: Seq<u8>) -> Seq<u8>;

/// Compresses `data` with `flate2::write::GzEncoder` at
/// `Compression::default()`: the bytes are written with
/// `std::io::Write::write_all` and the stream is closed with `finish`.
/// Trusted: the result is the stream named `gzip_of(data)`. The encoder
/// writes a fixed header and reads no clock or environment, so the stream
/// depends on the bytes alone; writing into a `Vec` does not fail.
#[verifier::external_body]
pub(crate) fn gzip(data: &[u8]) -> (compressed: Vec<u8>)
    ensures
        compressed@ == gzip_of(data@),
{
    let mut encoder = flate2::write::GzEncoder::new(Vec::new(), flate2::Compression::default());
    std::io::Write::write_all(&mut encoder, data).unwrap();
    encoder.finish().unwrap()
}

/// The length in bytes of the compressed form of `data`.
pub fn compressed_len(data: &[u8]) -> (len: usize)
    ensures
        len == gzip_of(data@).len(),
{
    let compressed = gzip(data);
    compressed.len()
}

} // verus!
