//! Threshold-gated gzip compression of response bodies.

use flate2::write::GzEncoder;
use flate2::Compression;
use std::io::Write;
use vstd::prelude::*;

verus! {

/// Bodies shorter than this many bytes are sent as they are.
pub const MIN_SIZE_TO_COMPRESS: usize = 1024;

/// The encodings a body can be sent in.
#[derive(Copy, Clone, Debug, PartialEq, Eq, Structural)]
pub enum CompressionType {
    Identity,
    GZip,
}

/// The token naming an encoding in a `Content-Encoding` header.
pub open spec fn encoding_token(t: CompressionType) -> Seq<char> {
    match t {
        CompressionType::Identity => "identity"@,
        CompressionType::GZip => "gzip"@,
    }
}

impl CompressionType {
    pub fn to_string(&self) -> (r: String)
        ensures
            r@ == encoding_token(*self),
    {
        match self {
            CompressionType::Identity => String::from_str("identity"),
            CompressionType::GZip => String::from_str("gzip"),
        }
    }
}

/// The gzip stream that flate2 produces for `data` at its default level.
pub uninterp spec fn gzip_of(data: Seq<u8>) -> Seq<u8>;

/// Relies on flate2's `GzEncoder::new`, `write_all` and `finish` with a
/// `Vec<u8>` as the inner writer: the result is the gzip stream of `data`.
/// They fail only on an error of the inner writer, which a `Vec` never
/// gives, or of the compressor, which this setup cannot reach.
#[verifier::external_body]
fn gzip_encode(data: &Vec<u8>) -> (r: Vec<u8>)
    ensures
        r@ == gzip_of(data@),
{
    let mut encoder = GzEncoder::new(Vec::new(), Compression::default());
    encoder.write_all(data).expect("gzip encoder failed on an in-memory buffer");
    encoder.finish().expect("gzip encoder failed on an in-memory buffer")
}

/// A body together with the encoding its bytes are in.
pub struct CompressedData {
    pub data: Vec<u8>,
    pub compressed_type: CompressionType,
}

/// What compressing `data` yields when the encoder succeeds.
pub open spec fn compressed_spec(data: Seq<u8>) -> (Seq<u8>, CompressionType) {
    if data.len() < MIN_SIZE_TO_COMPRESS {
        (data, CompressionType::Identity)
    } else {
        (gzip_of(data), CompressionType::GZip)
    }
}

impl CompressedData {
    /// Leaves short bodies as they are and gzips the others.
    pub fn new(data: &Vec<u8>) -> (r: CompressedData)
        ensures
            (r.data@, r.compressed_type) == compressed_spec(data@),
    {
        if data.len() < MIN_SIZE_TO_COMPRESS {
            return CompressedData { data: data.clone(), compressed_type: CompressionType::Identity };
        }
        Self::from_gzip(gzip_encode(data))
    }

    /// A body that holds the gzip stream `encoded`.
    pub fn from_gzip(encoded: Vec<u8>) -> (r: CompressedData)
        ensures
            r.data@ == encoded@,
            r.compressed_type == CompressionType::GZip,
    {
        CompressedData { data: encoded, compressed_type: CompressionType::GZip }
    }

    pub fn len(&self) -> (r: usize)
        ensures
            r == self.data@.len(),
    {
        self.data.len()
    }
}

} // verus!
