//! Framing of responses: status line, headers and body.

use crate::compression::{encoding_token, CompressionType};
use crate::text::{decimal, push_decimal};
use vstd::prelude::*;
use vstd::utf8::encode_utf8;

verus! {

/// The protocol version that opens every status line.
pub open spec fn http_version() -> Seq<char> {
    "HTTP/2.0"@
}

/// The status sent for every file that is served.
pub open spec fn ok_status() -> Seq<char> {
    "200 OK"@
}

/// The status line for a status code, with its line break.
pub open spec fn status_text(code: Seq<char>) -> Seq<char> {
    http_version() + " "@ + code + "\r\n"@
}

/// The `Content-Encoding` line: present exactly when the body is encoded.
pub open spec fn encoding_line(scheme: CompressionType) -> Seq<char> {
    if scheme == CompressionType::Identity {
        Seq::empty()
    } else {
        "Content-Encoding: "@ + encoding_token(scheme) + "\r\n"@
    }
}

/// The status line and header block, up to and including the blank line.
pub open spec fn head_text(
    code: Seq<char>,
    scheme: CompressionType,
    content_type: Seq<char>,
    content_length: nat,
) -> Seq<char> {
    status_text(code) + encoding_line(scheme) + "Content-Type: "@ + content_type + "\r\n"@
        + "Content-Length: "@ + decimal(content_length) + "\r\n\r\n"@
}

/// A response status, such as `200 OK`.
pub struct Status {
    status_code: String,
}

impl View for Status {
    type V = Seq<char>;

    closed spec fn view(&self) -> Seq<char> {
        self.status_code@
    }
}

/// Appends the status line for `code` to `s`.
fn push_status_line(s: &mut String, code: &str)
    ensures
        final(s)@ == old(s)@ + status_text(code@),
{
    s.append("HTTP/2.0");
    s.append(" ");
    s.append(code);
    s.append("\r\n");
}

impl Status {
    pub fn new(status_code: String) -> (r: Status)
        ensures
            r@ == status_code@,
    {
        Status { status_code }
    }

    /// The status line, encoded as UTF-8.
    pub fn as_bytes(&self) -> (r: Vec<u8>)
        ensures
            r@ == encode_utf8(status_text(self@)),
    {
        let mut s = String::new();
        push_status_line(&mut s, self.status_code.as_str());
        s.as_str().as_bytes_vec()
    }
}

/// The header values of one response.
pub struct Headers {
    compression_type: CompressionType,
    content_type: String,
    content_length: usize,
}

/// What a header block declares: the encoding, the content type and the
/// content length.
pub struct HeadersView {
    pub compression_type: CompressionType,
    pub content_type: Seq<char>,
    pub content_length: nat,
}

impl View for Headers {
    type V = HeadersView;

    closed spec fn view(&self) -> HeadersView {
        HeadersView {
            compression_type: self.compression_type,
            content_type: self.content_type@,
            content_length: self.content_length as nat,
        }
    }
}

impl Headers {
    pub fn new(compression_type: CompressionType, content_type: String, content_length: usize) -> (r:
        Headers)
        ensures
            r@ == (HeadersView {
                compression_type,
                content_type: content_type@,
                content_length: content_length as nat,
            }),
    {
        Headers { compression_type, content_type, content_length }
    }

    /// The status line and the header block, encoded as UTF-8.
    pub fn as_bytes(&self, status: Status) -> (r: Vec<u8>)
        ensures
            r@ == encode_utf8(
                head_text(
                    status@,
                    self@.compression_type,
                    self@.content_type,
                    self@.content_length,
                ),
            ),
    {
        let mut s = String::new();
        push_status_line(&mut s, status.status_code.as_str());
        match self.compression_type {
            CompressionType::Identity => {},
            CompressionType::GZip => {
                s.append("Content-Encoding: ");
                let token = self.compression_type.to_string();
                s.append(token.as_str());
                s.append("\r\n");
            },
        }
        s.append("Content-Type: ");
        s.append(self.content_type.as_str());
        s.append("\r\n");
        s.append("Content-Length: ");
        push_decimal(&mut s, self.content_length);
        s.append("\r\n\r\n");
        proof {
            let h = head_text(
                status@,
                self@.compression_type,
                self@.content_type,
                self@.content_length,
            );
            assert(s@ =~= h);
        }
        s.as_str().as_bytes_vec()
    }
}

/// The full response: head, then the body bytes verbatim.
pub open spec fn response_bytes(h: HeadersView, body: Seq<u8>) -> Seq<u8> {
    encode_utf8(head_text(ok_status(), h.compression_type, h.content_type, h.content_length))
        + body
}

/// Frames `data` as a `200 OK` response with the given headers.
pub fn build_response(data: &Vec<u8>, headers: &Headers) -> (r: Vec<u8>)
    ensures
        r@ == response_bytes(headers@, data@),
{
    let mut r = headers.as_bytes(Status::new(String::from_str("200 OK")));
    let mut body = data.clone();
    r.append(&mut body);
    r
}

} // verus!
