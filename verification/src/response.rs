//! The reply to a request, and the bytes that carry it.

use vstd::prelude::*;
use vstd::string::StringExecFns;
use vstd::string::StrSliceExecFns;
use vstd::utf8::encode_utf8;
use crate::status_code::StatusCode;
use crate::text::{decimal, push_decimal};

verus! {

/// What the application answers to a request.
///
/// `content` is the body. `data` is the wire image: it is empty until the
/// response is written, and each `write_` method appends to it.
pub struct Response {
    pub status_code: StatusCode,
    pub content: Vec<u8>,
    pub data: Vec<u8>,
}

/// The status line. Its text is fixed: it does not depend on the
/// response's `status_code`.
pub open spec fn status_line() -> Seq<char> {
    "HTTP/1.1 200 OK \r\n"@
}

/// The header that gives the length of the body, in decimal.
pub open spec fn content_length(length: nat) -> Seq<char> {
    "Content-Length: "@ + decimal(length)
}

/// The header block of a response whose body has `length` bytes: the
/// content type, the content length, and an empty line. Each line ends
/// with a line feed alone.
pub open spec fn header_block(length: nat) -> Seq<char> {
    "Content-Type: text/html\n"@ + content_length(length) + "\n"@ + "\n"@
}

/// The wire image of a response with the body `content`: the status line,
/// the header block, then the body as it is.
pub open spec fn wire_image(content: Seq<u8>) -> Seq<u8> {
    encode_utf8(status_line()) + encode_utf8(header_block(content.len())) + content
}

/// A wire image ends with the body, and what stands before the body is the
/// status line and the header block. The header block holds the header
/// that gives the body's length, between the content type and the empty
/// line.
pub proof fn lemma_wire_image_ends_with_content(content: Seq<u8>)
    ensures
        ({
            let image = wire_image(content);
            let head = encode_utf8(status_line()) + encode_utf8(header_block(content.len()));
            let block = header_block(content.len());
            let field = content_length(content.len());
            let at = "Content-Type: text/html\n"@.len() as int;
            &&& image.len() == head.len() + content.len()
            &&& image.skip(head.len() as int) == content
            &&& image.take(head.len() as int) == head
            &&& block.subrange(at, at + field.len()) == field
            &&& block.skip(at + field.len()) == "\n"@ + "\n"@
        }),
{
    let block = header_block(content.len());
    let field = content_length(content.len());
    let at = "Content-Type: text/html\n"@.len() as int;
    assert(block.subrange(at, at + field.len()) =~= field);
    assert(block.skip(at + field.len()) =~= "\n"@ + "\n"@);
    let image = wire_image(content);
    let head = encode_utf8(status_line()) + encode_utf8(header_block(content.len()));
    assert(image.skip(head.len() as int) =~= content);
    assert(image.take(head.len() as int) =~= head);
}

impl Response {
    /// A response with the status `Unknown`, no body and no wire image.
    pub fn new() -> (response: Response)
        ensures
            response.status_code == StatusCode::Unknown,
            response.content@ == Seq::<u8>::empty(),
            response.data@ == Seq::<u8>::empty(),
    {
        Response { status_code: StatusCode::Unknown, content: Vec::new(), data: Vec::new() }
    }

    /// Reserved for bodies that are no text. The response stays as it is:
    /// assign `content`, or call `set_content_text`.
    pub fn set_content(&mut self, _data: Vec<u8>)
        ensures
            final(self).status_code == old(self).status_code,
            final(self).content@ == old(self).content@,
            final(self).data@ == old(self).data@,
    {
    }

    /// Makes the UTF-8 bytes of `text` the body.
    pub fn set_content_text(&mut self, text: String)
        ensures
            final(self).content@ == encode_utf8(text@),
            final(self).status_code == old(self).status_code,
            final(self).data@ == old(self).data@,
    {
        self.content = text.as_str().as_bytes_vec();
    }

    /// Appends the status line to the wire image.
    pub fn write_status_line(&mut self)
        ensures
            final(self).data@ == old(self).data@ + encode_utf8(status_line()),
            final(self).status_code == old(self).status_code,
            final(self).content@ == old(self).content@,
    {
        self.data.extend_from_slice("HTTP/1.1 200 OK \r\n".as_bytes());
    }

    /// Appends the header block to the wire image.
    pub fn write_headers(&mut self)
        ensures
            final(self).data@ == old(self).data@ + encode_utf8(
                header_block(old(self).content@.len()),
            ),
            final(self).status_code == old(self).status_code,
            final(self).content@ == old(self).content@,
    {
        let mut headers = String::from_str("Content-Type: text/html\n");
        headers.append("Content-Length: ");
        push_decimal(&mut headers, self.content.len() as u64);
        headers.append("\n");
        headers.append("\n");
        assert(headers@ =~= header_block(self.content@.len()));
        self.data.extend_from_slice(headers.as_str().as_bytes());
    }

    /// Appends the body to the wire image.
    pub fn write_content(&mut self)
        ensures
            final(self).data@ == old(self).data@ + old(self).content@,
            final(self).status_code == old(self).status_code,
            final(self).content@ == old(self).content@,
    {
        self.data.extend_from_slice(self.content.as_slice());
    }

    /// Appends the whole wire image of the response to `data`.
    pub fn write_response(&mut self)
        ensures
            final(self).data@ == old(self).data@ + wire_image(old(self).content@),
            final(self).status_code == old(self).status_code,
            final(self).content@ == old(self).content@,
    {
        self.write_status_line();
        self.write_headers();
        self.write_content();
        assert(self.data@ =~= old(self).data@ + wire_image(old(self).content@));
    }
}

/// Reserved for reading a response from its wire image. Does nothing.
pub fn read() {
}

} // verus!
