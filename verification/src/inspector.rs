//! The request inspector: it feeds each chunk read from the client to the header
//! accumulator and, once a header is complete, has it parsed and judged.

use vstd::prelude::*;
use crate::accumulator::{
    feed_buffer, feed_result, header_end, has_terminator, law_split_read, FeedError,
    HeaderAccumulator, MAX_HEADER_BYTES,
};
use crate::evaluate::{evaluate, folded_verdict};
use crate::head::{parse_head, parsed_head, HeadModel, ParsedHead};
use crate::rules::{rule_models, Decision, ProxyConfig, ProxyRule, RuleModel};
use vstd::utf8::valid_utf8;

verus! {

/// What the inspection of one chunk found.
#[derive(Clone, Copy, Debug, PartialEq, Eq, Structural)]
pub enum Inspection {
    /// The chunk is not well-formed UTF-8.
    NotText,
    /// No header has ended yet; the chunk was stored.
    Pending,
    /// No header has ended and too many bytes are waiting.
    Oversize,
    /// A header ended, and it is not an HTTP/1.x request.
    Malformed,
    /// A header ended, and the parser still wants more bytes.
    Incomplete,
    /// A header ended and was parsed, but method or path is missing: no rule was
    /// consulted.
    Unjudged,
    /// A header ended and the rules allow the request.
    Allowed,
    /// A header ended and the rules block the request.
    Blocked,
}

impl Inspection {
    /// Whether the connection has to be closed now, without forwarding the chunk.
    pub open spec fn must_close(self) -> bool {
        match self {
            Inspection::NotText => true,
            Inspection::Pending => false,
            Inspection::Oversize => true,
            Inspection::Malformed => true,
            Inspection::Incomplete => true,
            Inspection::Unjudged => false,
            Inspection::Allowed => false,
            Inspection::Blocked => true,
        }
    }

    /// Whether the connection has to be closed now, without forwarding the chunk.
    pub fn closes(&self) -> (close: bool)
        ensures
            close == self.must_close(),
    {
        match self {
            Inspection::NotText => true,
            Inspection::Pending => false,
            Inspection::Oversize => true,
            Inspection::Malformed => true,
            Inspection::Incomplete => true,
            Inspection::Unjudged => false,
            Inspection::Allowed => false,
            Inspection::Blocked => true,
        }
    }
}

/// What a parsed header amounts to under the rules: a header that did not parse to
/// the end is a fault, a request line with method and path is judged by the rules
/// without regard to case, and one without either is left alone.
pub open spec fn judgement(rules: Seq<RuleModel>, head: HeadModel) -> Inspection {
    match head {
        HeadModel::Malformed => Inspection::Malformed,
        HeadModel::Partial => Inspection::Incomplete,
        HeadModel::Complete { method: Some(method), path: Some(path) } => match folded_verdict(
            rules,
            method,
            path,
        ) {
            Decision::Block => Inspection::Blocked,
            Decision::Allow => Inspection::Allowed,
        },
        HeadModel::Complete { .. } => Inspection::Unjudged,
    }
}

/// What the inspection of `chunk` finds when `buffer` is waiting in the accumulator.
pub open spec fn inspection(rules: Seq<RuleModel>, buffer: Seq<u8>, chunk: Seq<u8>) -> Inspection {
    match feed_result(buffer, chunk) {
        Err(FeedError::NotText) => Inspection::NotText,
        Err(FeedError::Oversize) => Inspection::Oversize,
        Ok(None) => Inspection::Pending,
        Ok(Some(header)) => judgement(rules, parsed_head(header)),
    }
}

/// Judges a header that the parser has dealt with.
pub fn judge_head(rules: &Vec<ProxyRule>, head: &ParsedHead) -> (found: Inspection)
    ensures
        found == judgement(rule_models(rules@), head@),
{
    match head {
        ParsedHead::Malformed => Inspection::Malformed,
        ParsedHead::Partial => Inspection::Incomplete,
        ParsedHead::Complete { method: Some(method), path: Some(path) } => {
            match evaluate(rules, method.as_str(), path.as_str()) {
                Decision::Block => Inspection::Blocked,
                Decision::Allow => Inspection::Allowed,
            }
        },
        ParsedHead::Complete { .. } => Inspection::Unjudged,
    }
}

/// Inspects one chunk read from the client and says what was found.
///
/// The chunk is fed to the accumulator. While no header has ended the result is
/// `Pending`, or `Oversize` when too much is waiting. A completed header is parsed
/// and judged, and the accumulator starts afresh.
pub fn examine(config: &ProxyConfig, accumulator: &mut HeaderAccumulator, chunk: &[u8]) -> (found:
    Inspection)
    ensures
        found == inspection(rule_models(config.rules@), old(accumulator)@, chunk@),
        final(accumulator)@ == feed_buffer(old(accumulator)@, chunk@),
{
    match accumulator.feed(chunk) {
        Err(FeedError::NotText) => Inspection::NotText,
        Err(FeedError::Oversize) => Inspection::Oversize,
        Ok(None) => Inspection::Pending,
        Ok(Some(header)) => {
            let head = parse_head(header.as_slice());
            judge_head(&config.rules, &head)
        },
    }
}

/// Inspects one chunk read from the client and tells whether the connection has to
/// be closed now.
pub fn inspect(config: &ProxyConfig, accumulator: &mut HeaderAccumulator, chunk: &[u8]) -> (close:
    bool)
    ensures
        close == inspection(rule_models(config.rules@), old(accumulator)@, chunk@).must_close(),
        final(accumulator)@ == feed_buffer(old(accumulator)@, chunk@),
{
    examine(config, accumulator, chunk).closes()
}

/// A request that the rules block closes the connection: the inspection of the
/// chunk that completes its header finds `Blocked`.
pub proof fn law_blocked_request_closes(
    rules: Seq<RuleModel>,
    buffer: Seq<u8>,
    chunk: Seq<u8>,
    method: Seq<char>,
    path: Seq<char>,
)
    requires
        valid_utf8(chunk),
        has_terminator(buffer + chunk),
        parsed_head((buffer + chunk).take(header_end(buffer + chunk))) == (HeadModel::Complete {
            method: Some(method),
            path: Some(path),
        }),
        folded_verdict(rules, method, path) == Decision::Block,
    ensures
        inspection(rules, buffer, chunk) == Inspection::Blocked,
        inspection(rules, buffer, chunk).must_close(),
{
}

/// More than the cap waiting without the end of a header closes the connection.
pub proof fn law_oversize_closes(rules: Seq<RuleModel>, buffer: Seq<u8>, chunk: Seq<u8>)
    requires
        valid_utf8(chunk),
        !has_terminator(buffer + chunk),
        (buffer + chunk).len() > MAX_HEADER_BYTES,
    ensures
        inspection(rules, buffer, chunk) == Inspection::Oversize,
        inspection(rules, buffer, chunk).must_close(),
{
}

/// A request that arrives in two reads, split before the end of its header, is
/// treated as the same request in one read: the first read is stored and forwarded,
/// and the second read is inspected as the whole would have been.
///
/// Both parts must be text by themselves, and the first part must fit under the cap.
pub proof fn law_split_read_same_inspection(
    rules: Seq<RuleModel>,
    buffer: Seq<u8>,
    chunk: Seq<u8>,
    k: int,
)
    requires
        0 <= k <= chunk.len(),
        valid_utf8(chunk.take(k)),
        valid_utf8(chunk.skip(k)),
        has_terminator(buffer + chunk),
        buffer.len() + k < header_end(buffer + chunk),
        buffer.len() + k <= MAX_HEADER_BYTES,
    ensures
        inspection(rules, buffer, chunk.take(k)) == Inspection::Pending,
        inspection(rules, feed_buffer(buffer, chunk.take(k)), chunk.skip(k)) == inspection(
            rules,
            buffer,
            chunk,
        ),
        feed_buffer(feed_buffer(buffer, chunk.take(k)), chunk.skip(k)) == feed_buffer(
            buffer,
            chunk,
        ),
{
    law_split_read(buffer, chunk, k);
}

} // verus!
