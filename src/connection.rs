//! The decisions of one connection, from cache lookup to the bytes sent.
//! The caller performs each step's I/O and reports back what it got.

use crate::compression::{
    compressed_spec, gzip_of, CompressedData, CompressionType,
};
use crate::resource::{classify, extension, file_path, mime_of, Resource, ResourceType};
use crate::response::{
    build_response, encoding_line, head_text, ok_status, response_bytes, Headers, HeadersView,
};
use vstd::prelude::*;
use vstd::utf8::encode_utf8;

verus! {

/// What the connection does next.
#[derive(Debug, PartialEq, Eq)]
pub enum Step {
    /// Write these cached bytes, then close.
    Write(Vec<u8>),
    /// Read this file and hand its contents to `after_load`.
    Load(String),
    /// Write these bytes, close, then store them in the cache under the
    /// request path without waiting on it.
    WriteAndCache(Vec<u8>),
    /// Close without writing anything.
    Close,
}

/// The response for a file of the given class whose body, after the
/// compression step, is `body` in encoding `scheme`.
pub open spec fn framed(t: ResourceType, body: Seq<u8>, scheme: CompressionType) -> Seq<u8> {
    response_bytes(
        HeadersView { compression_type: scheme, content_type: mime_of(t), content_length: body.len() },
        body,
    )
}

/// The response served for `path` when its file holds `data`.
pub open spec fn served_response(path: Seq<char>, data: Seq<u8>) -> Seq<u8> {
    framed(
        classify(extension(file_path(path))),
        compressed_spec(data).0,
        compressed_spec(data).1,
    )
}

/// After the cache lookup: a hit is written as it is, a miss loads the file.
pub fn after_cache_check(path: &String, cached: Option<Vec<u8>>) -> (r: Step)
    ensures
        cached matches Some(b) ==> r == Step::Write(b),
        cached is None ==> (r matches Step::Load(f) && f@ == file_path(path@)),
{
    match cached {
        Some(b) => Step::Write(b),
        None => Step::Load(Resource::file_path(path.as_str())),
    }
}

/// Frames a compressed body as the response for a resource of class `t`.
pub fn assemble(t: ResourceType, body: CompressedData) -> (r: Vec<u8>)
    ensures
        r@ == framed(t, body.data@, body.compressed_type),
{
    let headers = Headers::new(body.compressed_type, t.get_mime_type(), body.len());
    build_response(&body.data, &headers)
}

/// After the file read: a missing file closes the connection with nothing
/// written; a found one is compressed, framed, written and cached.
pub fn after_load(path: &String, contents: Option<Vec<u8>>) -> (r: Step)
    ensures
        contents is None ==> r == Step::Close,
        contents matches Some(d) ==> (r matches Step::WriteAndCache(b) && b@ == served_response(
            path@,
            d@,
        )),
{
    match Resource::new(path.as_str(), contents) {
        None => Step::Close,
        Some(resource) => {
            let body = CompressedData::new(&resource.data);
            Step::WriteAndCache(assemble(resource.resource_type, body))
        },
    }
}

/// Every response served from a file is its head followed by the body
/// verbatim; the head declares `Content-Length` as the number of body bytes
/// and carries a `Content-Encoding: gzip` line exactly when the body is the
/// gzip stream of the file, which is otherwise sent unchanged.
pub proof fn lemma_headers_match_body(path: Seq<char>, data: Seq<u8>)
    ensures
        served_response(path, data) == encode_utf8(
            head_text(
                ok_status(),
                compressed_spec(data).1,
                mime_of(classify(extension(file_path(path)))),
                compressed_spec(data).0.len(),
            ),
        ) + compressed_spec(data).0,
        compressed_spec(data).1 == CompressionType::GZip ==> compressed_spec(data).0 == gzip_of(
            data,
        ) && encoding_line(compressed_spec(data).1) == "Content-Encoding: gzip\r\n"@,
        compressed_spec(data).1 == CompressionType::Identity ==> compressed_spec(data).0 == data
            && encoding_line(compressed_spec(data).1).len() == 0,
{
    reveal_strlit("Content-Encoding: ");
    reveal_strlit("gzip");
    reveal_strlit("\r\n");
    reveal_strlit("Content-Encoding: gzip\r\n");
    assert("Content-Encoding: "@ + "gzip"@ + "\r\n"@ =~= "Content-Encoding: gzip\r\n"@);
}

} // verus!
