//! The header accumulator: it rebuilds a request header that may arrive in several
//! reads, and hands it out once the blank line that ends it has been seen.

use vstd::prelude::*;
use vstd::utf8::valid_utf8;
use crate::text::is_text;

verus! {

/// The most bytes that may wait in the accumulator for the end of a header.
pub const MAX_HEADER_BYTES: usize = 65536;

/// Whether the four bytes at `i` are the blank line that ends a header: CR LF CR LF.
pub open spec fn terminator_at(bytes: Seq<u8>, i: int) -> bool {
    &&& 0 <= i
    &&& i + 4 <= bytes.len()
    &&& bytes[i] == 13
    &&& bytes[i + 1] == 10
    &&& bytes[i + 2] == 13
    &&& bytes[i + 3] == 10
}

/// Whether the bytes hold the end of a header anywhere.
pub open spec fn has_terminator(bytes: Seq<u8>) -> bool {
    exists|i: int| terminator_at(bytes, i)
}

/// Whether the first end of a header in the bytes starts at `i`.
pub open spec fn first_terminator_at(bytes: Seq<u8>, i: int) -> bool {
    &&& terminator_at(bytes, i)
    &&& forall|j: int| 0 <= j < i ==> !terminator_at(bytes, j)
}

/// The length of the first header in the bytes, its terminator included. It is
/// meaningful where the bytes hold a terminator.
pub open spec fn header_end(bytes: Seq<u8>) -> int {
    (choose|i: int| first_terminator_at(bytes, i)) + 4
}

/// Why a chunk could not be taken in.
#[derive(Clone, Copy, Debug, PartialEq, Eq, Structural)]
pub enum FeedError {
    /// The chunk is not well-formed UTF-8. Nothing was stored.
    NotText,
    /// The chunk was stored, no header has ended, and more than
    /// [`MAX_HEADER_BYTES`] bytes are waiting.
    Oversize,
}

/// What feeding `chunk` to an accumulator that holds `buffer` returns: the first
/// header of the rebuilt bytes when they hold a terminator, nothing while they do
/// not, and an error for a chunk that is no text or a buffer that grew too large.
pub open spec fn feed_result(buffer: Seq<u8>, chunk: Seq<u8>) -> Result<Option<Seq<u8>>, FeedError> {
    let rebuilt = buffer + chunk;
    if !valid_utf8(chunk) {
        Err(FeedError::NotText)
    } else if has_terminator(rebuilt) {
        Ok(Some(rebuilt.take(header_end(rebuilt))))
    } else if rebuilt.len() > MAX_HEADER_BYTES {
        Err(FeedError::Oversize)
    } else {
        Ok(None)
    }
}

/// What an accumulator that held `buffer` holds after `chunk` was fed to it:
/// nothing once a header has ended, the rebuilt bytes while none has, and the old
/// bytes when the chunk is no text.
pub open spec fn feed_buffer(buffer: Seq<u8>, chunk: Seq<u8>) -> Seq<u8> {
    if !valid_utf8(chunk) {
        buffer
    } else if has_terminator(buffer + chunk) {
        Seq::<u8>::empty()
    } else {
        buffer + chunk
    }
}

/// The result of a feed with the header as a sequence of bytes.
pub open spec fn fed_view(fed: Result<Option<Vec<u8>>, FeedError>) -> Result<Option<Seq<u8>>, FeedError> {
    match fed {
        Ok(Some(header)) => Ok(Some(header@)),
        Ok(None) => Ok(None),
        Err(error) => Err(error),
    }
}

/// Bytes below 128 are well-formed UTF-8: every ASCII chunk is text.
pub proof fn lemma_ascii_is_text(bytes: Seq<u8>)
    requires
        forall|i: int| 0 <= i < bytes.len() ==> #[trigger] bytes[i] < 128,
    ensures
        valid_utf8(bytes),
{
    assert(bytes.subrange(0, 0) =~= Seq::<u8>::empty());
    assert(vstd::utf8::partial_valid_utf8(bytes, 0));
    vstd::utf8::partial_valid_utf8_extend_ascii_block(bytes, 0, bytes.len() as int);
    assert(bytes.subrange(0, bytes.len() as int) =~= bytes);
}

/// Every terminator of a prefix is a terminator of the whole.
pub proof fn lemma_prefix_terminator(bytes: Seq<u8>, n: int)
    requires
        0 <= n <= bytes.len(),
        has_terminator(bytes.take(n)),
    ensures
        has_terminator(bytes),
{
    let i = choose|i: int| terminator_at(bytes.take(n), i);
    assert(terminator_at(bytes, i));
}

/// Among the terminators at or after `from` there is a first one.
proof fn lemma_least_terminator(bytes: Seq<u8>, from: int, at: int) -> (first: int)
    requires
        0 <= from <= at,
        terminator_at(bytes, at),
        forall|j: int| 0 <= j < from ==> !terminator_at(bytes, j),
    ensures
        first_terminator_at(bytes, first),
    decreases at - from,
{
    if terminator_at(bytes, from) {
        from
    } else {
        lemma_least_terminator(bytes, from + 1, at)
    }
}

/// Bytes that hold a terminator hold a first one, and `header_end` is where it ends.
pub proof fn lemma_header_end(bytes: Seq<u8>)
    requires
        has_terminator(bytes),
    ensures
        first_terminator_at(bytes, header_end(bytes) - 4),
        4 <= header_end(bytes) <= bytes.len(),
{
    let at = choose|i: int| terminator_at(bytes, i);
    let first = lemma_least_terminator(bytes, 0, at);
    assert(first_terminator_at(bytes, first));
}

/// There is at most one first terminator.
pub proof fn lemma_first_terminator_unique(bytes: Seq<u8>, i: int)
    requires
        first_terminator_at(bytes, i),
    ensures
        has_terminator(bytes),
        header_end(bytes) == i + 4,
{
    lemma_header_end(bytes);
}

/// Finds the first end of a header in the bytes, given that none starts before
/// `from`.
fn find_terminator_from(bytes: &[u8], from: usize) -> (found: Option<usize>)
    requires
        forall|j: int| 0 <= j < from ==> !terminator_at(bytes@, j),
    ensures
        match found {
            Some(i) => first_terminator_at(bytes@, i as int),
            None => !has_terminator(bytes@),
        },
{
    let n = bytes.len();
    if n < 4 || from > n - 4 {
        return None;
    }
    let mut i: usize = from;
    while i <= n - 4
        invariant
            n == bytes@.len(),
            n >= 4,
            i <= n - 3,
            forall|j: int| 0 <= j < i ==> !terminator_at(bytes@, j),
        decreases n - i,
    {
        if bytes[i] == 13 && bytes[i + 1] == 10 && bytes[i + 2] == 13 && bytes[i + 3] == 10 {
            return Some(i);
        }
        i += 1;
    }
    None
}

/// Finds the first end of a header in the bytes.
pub fn find_terminator(bytes: &[u8]) -> (found: Option<usize>)
    ensures
        match found {
            Some(i) => first_terminator_at(bytes@, i as int),
            None => !has_terminator(bytes@),
        },
{
    find_terminator_from(bytes, 0)
}

/// The bytes of the current request header seen so far on one connection.
///
/// No complete header ever waits in an accumulator: a feed hands the header out as
/// soon as its terminator has arrived.
#[derive(Debug)]
pub struct HeaderAccumulator {
    buffer: Vec<u8>,
}

impl View for HeaderAccumulator {
    type V = Seq<u8>;

    closed spec fn view(&self) -> Seq<u8> {
        self.buffer@
    }
}

impl HeaderAccumulator {
    #[verifier::type_invariant]
    spec fn no_header_waits(self) -> bool {
        !has_terminator(self.buffer@)
    }

    /// Whether the waiting bytes are within the cap. It holds of a new accumulator
    /// and after every feed that did not report `Oversize` on one that was within it.
    pub open spec fn within_cap(&self) -> bool {
        self@.len() <= MAX_HEADER_BYTES
    }

    /// An accumulator that holds nothing.
    pub fn new() -> (accumulator: HeaderAccumulator)
        ensures
            accumulator@ == Seq::<u8>::empty(),
            accumulator.within_cap(),
    {
        HeaderAccumulator { buffer: Vec::new() }
    }

    /// The number of bytes that are waiting.
    pub fn len(&self) -> (n: usize)
        ensures
            n == self@.len(),
    {
        self.buffer.len()
    }

    /// Whether nothing is waiting.
    pub fn is_empty(&self) -> (empty: bool)
        ensures
            empty == (self@.len() == 0),
    {
        self.buffer.len() == 0
    }

    /// The bytes that are waiting.
    pub fn pending(&self) -> (bytes: &[u8])
        ensures
            bytes@ == self@,
            !has_terminator(bytes@),
    {
        proof {
            use_type_invariant(self);
        }
        self.buffer.as_slice()
    }

    /// Takes in one chunk read from the client.
    ///
    /// A chunk that is not well-formed UTF-8 is refused and nothing changes.
    /// Otherwise the chunk is appended and the rebuilt buffer is searched for the
    /// end of a header. If it is there, the bytes up to and including the first
    /// terminator are returned and the accumulator is empty again; what followed the
    /// terminator in the chunk is not kept. If it is not there, the chunk stays in
    /// the buffer, and the feed reports `Oversize` when more than
    /// [`MAX_HEADER_BYTES`] bytes are now waiting.
    pub fn feed(&mut self, chunk: &[u8]) -> (fed: Result<Option<Vec<u8>>, FeedError>)
        ensures
            fed_view(fed) == feed_result(old(self)@, chunk@),
            final(self)@ == feed_buffer(old(self)@, chunk@),
            old(self).within_cap() && fed != Err::<Option<Vec<u8>>, FeedError>(FeedError::Oversize)
                ==> final(self).within_cap(),
            !has_terminator(final(self)@),
    {
        proof {
            use_type_invariant(&*self);
        }
        if !is_text(chunk) {
            return Err(FeedError::NotText);
        }
        let mut rebuilt: Vec<u8> = Vec::new();
        core::mem::swap(&mut rebuilt, &mut self.buffer);
        let ghost before = rebuilt@;
        let waiting = rebuilt.len();
        rebuilt.extend_from_slice(chunk);
        assert(rebuilt@ =~= before + chunk@);
        // A terminator that starts more than three bytes before the chunk would have
        // been complete in what waited already.
        let from: usize = if waiting >= 3 {
            waiting - 3
        } else {
            0
        };
        assert forall|j: int| 0 <= j < from implies !terminator_at(rebuilt@, j) by {
            if terminator_at(rebuilt@, j) {
                assert(terminator_at(before, j));
            }
        }
        let total = rebuilt.len();
        match find_terminator_from(rebuilt.as_slice(), from) {
            Some(start) => {
                proof {
                    lemma_first_terminator_unique(rebuilt@, start as int);
                }
                let ghost whole = rebuilt@;
                rebuilt.truncate(start + 4);
                assert(rebuilt@ =~= whole.take(header_end(whole)));
                Ok(Some(rebuilt))
            },
            None => {
                self.buffer = rebuilt;
                if total > MAX_HEADER_BYTES {
                    Err(FeedError::Oversize)
                } else {
                    Ok(None)
                }
            },
        }
    }
}

impl Default for HeaderAccumulator {
    fn default() -> (accumulator: HeaderAccumulator)
        ensures
            accumulator@ == Seq::<u8>::empty(),
    {
        HeaderAccumulator::new()
    }
}

/// The first `k` of the chunks, joined in order.
pub open spec fn joined(chunks: Seq<Seq<u8>>, k: int) -> Seq<u8>
    decreases k,
{
    if k <= 0 {
        Seq::<u8>::empty()
    } else {
        joined(chunks, k - 1) + chunks[k - 1]
    }
}

/// The first `a` chunks joined are a prefix of the first `b` chunks joined.
proof fn lemma_joined_prefix(chunks: Seq<Seq<u8>>, a: int, b: int)
    requires
        0 <= a <= b,
    ensures
        joined(chunks, a).len() <= joined(chunks, b).len(),
        joined(chunks, b).take(joined(chunks, a).len() as int) == joined(chunks, a),
    decreases b - a,
{
    if a == b {
        assert(joined(chunks, b).take(joined(chunks, a).len() as int) =~= joined(chunks, a));
    } else {
        lemma_joined_prefix(chunks, a, b - 1);
        assert(joined(chunks, b).take(joined(chunks, a).len() as int) =~= joined(
            chunks,
            b - 1,
        ).take(joined(chunks, a).len() as int));
    }
}

/// If no header ends in the buffer followed by the first `b` chunks, none ends in
/// the buffer followed by the first `a` of them.
proof fn lemma_no_terminator_earlier(buffer: Seq<u8>, chunks: Seq<Seq<u8>>, a: int, b: int)
    requires
        0 <= a <= b,
        !has_terminator(buffer + joined(chunks, b)),
    ensures
        !has_terminator(buffer + joined(chunks, a)),
        (buffer + joined(chunks, a)).len() <= (buffer + joined(chunks, b)).len(),
{
    lemma_joined_prefix(chunks, a, b);
    let whole = buffer + joined(chunks, b);
    let n = (buffer + joined(chunks, a)).len() as int;
    assert(whole.take(n) =~= buffer + joined(chunks, a));
    if has_terminator(buffer + joined(chunks, a)) {
        lemma_prefix_terminator(whole, n);
    }
}

/// The search behind [`law_oversize_is_reported`]: from the `j`-th feed on, with
/// the cap still kept, some feed reports `Oversize`.
proof fn lemma_oversize_from(buffer: Seq<u8>, chunks: Seq<Seq<u8>>, j: int) -> (k: int)
    requires
        0 <= j <= chunks.len(),
        forall|i: int| 0 <= i < chunks.len() ==> valid_utf8(#[trigger] chunks[i]),
        !has_terminator(buffer + joined(chunks, chunks.len() as int)),
        (buffer + joined(chunks, chunks.len() as int)).len() > MAX_HEADER_BYTES,
        (buffer + joined(chunks, j)).len() <= MAX_HEADER_BYTES,
    ensures
        j <= k < chunks.len(),
        feed_result(buffer + joined(chunks, k), chunks[k]) == Err::<Option<Seq<u8>>, FeedError>(
            FeedError::Oversize,
        ),
        forall|i: int|
            j <= i < k ==> {
                &&& #[trigger] feed_result(buffer + joined(chunks, i), chunks[i]) == Ok::<
                    Option<Seq<u8>>,
                    FeedError,
                >(None)
                &&& feed_buffer(buffer + joined(chunks, i), chunks[i]) == buffer + joined(
                    chunks,
                    i + 1,
                )
            },
    decreases chunks.len() - j,
{
    let before = buffer + joined(chunks, j);
    let after = buffer + joined(chunks, j + 1);
    assert(j < chunks.len());
    lemma_no_terminator_earlier(buffer, chunks, j + 1, chunks.len() as int);
    assert(before + chunks[j] =~= after);
    if after.len() > MAX_HEADER_BYTES {
        j
    } else {
        lemma_oversize_from(buffer, chunks, j + 1)
    }
}

/// Chunks of text that together bring the waiting bytes over the cap, without the
/// end of a header among them, are not all taken in quietly: every feed before some
/// `k`-th keeps its chunk and reports nothing, and the `k`-th reports `Oversize`.
pub proof fn law_oversize_is_reported(buffer: Seq<u8>, chunks: Seq<Seq<u8>>) -> (k: int)
    requires
        chunks.len() > 0,
        forall|i: int| 0 <= i < chunks.len() ==> valid_utf8(#[trigger] chunks[i]),
        !has_terminator(buffer + joined(chunks, chunks.len() as int)),
        (buffer + joined(chunks, chunks.len() as int)).len() > MAX_HEADER_BYTES,
    ensures
        0 <= k < chunks.len(),
        feed_result(buffer + joined(chunks, k), chunks[k]) == Err::<Option<Seq<u8>>, FeedError>(
            FeedError::Oversize,
        ),
        forall|i: int|
            0 <= i < k ==> {
                &&& #[trigger] feed_result(buffer + joined(chunks, i), chunks[i]) == Ok::<
                    Option<Seq<u8>>,
                    FeedError,
                >(None)
                &&& feed_buffer(buffer + joined(chunks, i), chunks[i]) == buffer + joined(
                    chunks,
                    i + 1,
                )
            },
{
    assert(buffer + joined(chunks, 0) =~= buffer);
    if buffer.len() > MAX_HEADER_BYTES {
        lemma_no_terminator_earlier(buffer, chunks, 1, chunks.len() as int);
        assert(buffer + chunks[0] =~= buffer + joined(chunks, 1));
        0
    } else {
        lemma_oversize_from(buffer, chunks, 0)
    }
}

/// No complete header is left waiting by a feed to an accumulator in which none
/// waited.
pub proof fn law_no_header_waits(buffer: Seq<u8>, chunk: Seq<u8>)
    requires
        !has_terminator(buffer),
    ensures
        !has_terminator(feed_buffer(buffer, chunk)),
{
}

/// A chunk of ASCII bytes is never refused as no text.
pub proof fn law_ascii_chunk_is_taken(buffer: Seq<u8>, chunk: Seq<u8>)
    requires
        forall|i: int| 0 <= i < chunk.len() ==> #[trigger] chunk[i] < 128,
    ensures
        feed_result(buffer, chunk) != Err::<Option<Seq<u8>>, FeedError>(FeedError::NotText),
{
    lemma_ascii_is_text(chunk);
}

/// A feed that reports nothing or a header leaves at most the cap waiting, and a
/// feed reports `Oversize` only when more than the cap is waiting after it.
pub proof fn law_cap_is_kept(buffer: Seq<u8>, chunk: Seq<u8>)
    requires
        buffer.len() <= MAX_HEADER_BYTES,
    ensures
        feed_result(buffer, chunk) != Err::<Option<Seq<u8>>, FeedError>(FeedError::Oversize)
            ==> feed_buffer(buffer, chunk).len() <= MAX_HEADER_BYTES,
        feed_result(buffer, chunk) == Err::<Option<Seq<u8>>, FeedError>(FeedError::Oversize)
            ==> feed_buffer(buffer, chunk).len() > MAX_HEADER_BYTES,
{
}

/// A header that a feed returns is the shortest prefix of the rebuilt bytes that
/// ends with a terminator, and the accumulator is empty after it.
pub proof fn law_header_is_first_prefix(buffer: Seq<u8>, chunk: Seq<u8>)
    requires
        valid_utf8(chunk),
        has_terminator(buffer + chunk),
    ensures
        feed_result(buffer, chunk) is Ok,
        feed_result(buffer, chunk)->Ok_0 is Some,
        feed_buffer(buffer, chunk) == Seq::<u8>::empty(),
        ({
            let header = feed_result(buffer, chunk)->Ok_0->Some_0;
            &&& 4 <= header.len() <= (buffer + chunk).len()
            &&& header == (buffer + chunk).take(header.len() as int)
            &&& first_terminator_at(header, header.len() - 4)
        }),
{
    let rebuilt = buffer + chunk;
    lemma_header_end(rebuilt);
    let header = rebuilt.take(header_end(rebuilt));
    assert forall|j: int| 0 <= j < header.len() - 4 implies !terminator_at(header, j) by {
        if terminator_at(header, j) {
            assert(terminator_at(rebuilt, j));
        }
    }
}

/// A read that is split in two before the end of the header gives what the single
/// read gives: the first part is kept and reports nothing, and the second part
/// returns the same header and leaves the same buffer as the whole read would have.
///
/// Both parts must be text by themselves, and the first part must fit under the cap.
pub proof fn law_split_read(buffer: Seq<u8>, chunk: Seq<u8>, k: int)
    requires
        0 <= k <= chunk.len(),
        valid_utf8(chunk.take(k)),
        valid_utf8(chunk.skip(k)),
        has_terminator(buffer + chunk),
        buffer.len() + k < header_end(buffer + chunk),
        buffer.len() + k <= MAX_HEADER_BYTES,
    ensures
        valid_utf8(chunk),
        feed_result(buffer, chunk.take(k)) == Ok::<Option<Seq<u8>>, FeedError>(None),
        feed_buffer(buffer, chunk.take(k)) == buffer + chunk.take(k),
        feed_result(buffer + chunk.take(k), chunk.skip(k)) == feed_result(buffer, chunk),
        feed_buffer(buffer + chunk.take(k), chunk.skip(k)) == feed_buffer(buffer, chunk),
{
    let rebuilt = buffer + chunk;
    let first = buffer + chunk.take(k);
    assert(chunk.take(k) + chunk.skip(k) =~= chunk);
    vstd::utf8::valid_utf8_concat(chunk.take(k), chunk.skip(k));
    lemma_header_end(rebuilt);
    assert(first + chunk.skip(k) =~= rebuilt);
    if has_terminator(first) {
        let i = choose|i: int| terminator_at(first, i);
        assert(terminator_at(rebuilt, i));
    }
}

} // verus!
