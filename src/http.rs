use vstd::prelude::*;

verus! {

/// The body of an HTTP reply.
pub enum ReplyBody {
    Text(String),
    Bytes(Vec<u8>),
}

/// An HTTP reply, to be sent by the server around the library.
pub struct HttpReply {
    pub status: u16,
    pub content_type: String,
    /// Extra headers, as name and value.
    pub headers: Vec<(String, String)>,
    pub body: ReplyBody,
}

/// The text of a reply body, if it is text.
pub open spec fn body_text(r: HttpReply) -> Option<Seq<char>> {
    match r.body {
        ReplyBody::Text(t) => Some(t@),
        ReplyBody::Bytes(_) => None,
    }
}

/// A plain-text reply.
pub fn text_reply(status: u16, message: &str) -> (r: HttpReply)
    ensures
        r.status == status,
        r.content_type@ == "text/plain; charset=utf-8"@,
        r.headers@.len() == 0,
        body_text(r) == Some(message@),
{
    HttpReply {
        status,
        content_type: String::from_str("text/plain; charset=utf-8"),
        headers: Vec::new(),
        body: ReplyBody::Text(String::from_str(message)),
    }
}

} // verus!

verus! {

/// The bytes of a reply body, if it is bytes.
pub open spec fn body_bytes(r: HttpReply) -> Option<Seq<u8>> {
    match r.body {
        ReplyBody::Text(_) => None,
        ReplyBody::Bytes(b) => Some(b@),
    }
}

/// The reply carries exactly one header, `name: value`.
pub open spec fn has_single_header(r: HttpReply, name: Seq<char>, value: Seq<char>) -> bool {
    &&& r.headers@.len() == 1
    &&& r.headers@[0].0@ == name
    &&& r.headers@[0].1@ == value
}

/// A 200 reply that offers its body as a file download.
pub fn attachment_reply(content_type: &str, file_name_header: &str, body: ReplyBody) -> (r: HttpReply)
    ensures
        r.status == 200,
        r.content_type@ == content_type@,
        has_single_header(r, "Content-Disposition"@, file_name_header@),
        r.body == body,
{
    let mut headers: Vec<(String, String)> = Vec::new();
    headers.push((String::from_str("Content-Disposition"), String::from_str(file_name_header)));
    HttpReply { status: 200, content_type: String::from_str(content_type), headers, body }
}

} // verus!
