//! The request line of a completed header, as the `httparse` crate reads it.

use vstd::prelude::*;

verus! {

/// What the parser made of a header.
#[derive(Clone, Debug, PartialEq, Eq)]
pub enum ParsedHead {
    /// The header is a request line followed by header fields. Method and path are
    /// those of the request line, where the parser reported them.
    Complete { method: Option<String>, path: Option<String> },
    /// The parser found no fault but wants more bytes.
    Partial,
    /// The header is not an HTTP/1.x request.
    Malformed,
}

/// The mathematical content of a [`ParsedHead`].
pub enum HeadModel {
    Complete { method: Option<Seq<char>>, path: Option<Seq<char>> },
    Partial,
    Malformed,
}

/// The characters of an optional string.
pub open spec fn text_of(text: Option<String>) -> Option<Seq<char>> {
    match text {
        Some(text) => Some(text@),
        None => None,
    }
}

impl View for ParsedHead {
    type V = HeadModel;

    open spec fn view(&self) -> HeadModel {
        match *self {
            ParsedHead::Complete { method, path } => HeadModel::Complete {
                method: text_of(method),
                path: text_of(path),
            },
            ParsedHead::Partial => HeadModel::Partial,
            ParsedHead::Malformed => HeadModel::Malformed,
        }
    }
}

/// What `httparse::Request::parse`, given room for 128 header fields, makes of the
/// bytes: whether it completes, wants more or fails, and the method and path that
/// it leaves in the request when it completes.
pub uninterp spec fn parsed_head(header: Seq<u8>) -> HeadModel;

/// Calls `httparse::Request::parse` on the bytes, with room for 128 header fields.
///
/// The parser's result depends on the bytes alone and is known here only under the
/// name [`parsed_head`]. `Ok(Status::Complete(_))` becomes `Complete` with copies of
/// the request's `method` and `path`, `Ok(Status::Partial)` becomes `Partial`, and
/// every error becomes `Malformed`.
#[verifier::external_body]
pub(crate) fn parse_head(header: &[u8]) -> (head: ParsedHead)
    ensures
        head@ == parsed_head(header@),
{
    let mut fields = [httparse::EMPTY_HEADER; 128];
    let mut request = httparse::Request::new(&mut fields);
    match request.parse(header) {
        Ok(httparse::Status::Complete(_)) => ParsedHead::Complete {
            method: request.method.map(String::from),
            path: request.path.map(String::from),
        },
        Ok(httparse::Status::Partial) => ParsedHead::Partial,
        Err(_) => ParsedHead::Malformed,
    }
}

} // verus!
