//! The life of one accepted connection, as a state machine.
//!
//! The program that owns the sockets performs what the machine asks for and hands
//! back what happened: the machine decides, the program acts. A session starts out
//! connecting to the upstream server, relays bytes in both directions once it is
//! connected, and is closed for good by the first fault, end of stream or blocked
//! request.

use vstd::prelude::*;
use vstd::utf8::valid_utf8;
use crate::accumulator::{
    feed_buffer, has_terminator, header_end, HeaderAccumulator, MAX_HEADER_BYTES,
};
use crate::evaluate::{fold_rules, hits, law_matching_block_rule_blocks, outcome};
use crate::head::{parsed_head, HeadModel};
use crate::inspector::{examine, inspection, law_split_read_same_inspection, Inspection};
use crate::rules::{rule_models, Decision, ProxyConfig, RuleModel};
use crate::text::{lowercase, uppercase};

verus! {

/// Where a session stands.
#[derive(Clone, Copy, Debug, PartialEq, Eq, Structural)]
pub enum SessionState {
    /// The connection to the upstream server is being opened.
    Connecting,
    /// Both sockets are open and bytes are relayed.
    Relaying,
    /// Both sockets have been released. Nothing follows.
    Closed,
}

/// Why a session was closed.
#[derive(Clone, Copy, Debug, PartialEq, Eq, Structural)]
pub enum CloseReason {
    /// The upstream server could not be reached.
    ConnectFailed,
    /// A read from the client returned no bytes.
    ClientClosed,
    /// A read from the client failed.
    ClientReadFailed,
    /// A read from the upstream server returned no bytes.
    UpstreamClosed,
    /// A read from the upstream server failed.
    UpstreamReadFailed,
    /// A write to the upstream server wrote no bytes.
    UpstreamWroteNothing,
    /// A write to the upstream server failed.
    UpstreamWriteFailed,
    /// A write to the client wrote no bytes.
    ClientWroteNothing,
    /// A write to the client failed.
    ClientWriteFailed,
    /// The inspection of a chunk from the client asked for the close.
    Rejected(Inspection),
    /// An event was reported that cannot happen in the state the session was in.
    OutOfTurn,
}

/// What happened on the sockets of a session.
#[derive(Clone, Debug, PartialEq, Eq)]
pub enum SessionEvent {
    /// The connection to the upstream server is open.
    UpstreamConnected,
    /// The connection to the upstream server could not be opened.
    UpstreamConnectFailed,
    /// A read from the client returned these bytes; none at the end of the stream.
    ClientRead(Vec<u8>),
    /// A read from the client failed.
    ClientReadFailed,
    /// A read from the upstream server returned these bytes; none at the end of the
    /// stream.
    UpstreamRead(Vec<u8>),
    /// A read from the upstream server failed.
    UpstreamReadFailed,
    /// A write to the upstream server wrote this many bytes.
    UpstreamWritten(usize),
    /// A write to the upstream server failed.
    UpstreamWriteFailed,
    /// A write to the client wrote this many bytes.
    ClientWritten(usize),
    /// A write to the client failed.
    ClientWriteFailed,
}

/// What the owner of the sockets has to do next.
#[derive(Clone, Debug, PartialEq, Eq)]
pub enum SessionAction {
    /// Wait for bytes from either side, whichever is ready first, and report them.
    Read,
    /// Write these bytes to the upstream server and report the outcome.
    WriteUpstream(Vec<u8>),
    /// Write these bytes to the client and report the outcome.
    WriteClient(Vec<u8>),
    /// Release both sockets.
    Close(CloseReason),
    /// The session is closed already: there is nothing to do.
    Nothing,
}

/// What follows the inspection of a chunk read from the client: the chunk goes to
/// the upstream server as it is, unless the inspection asks for the close.
pub open spec fn client_chunk_action(found: Inspection, chunk: Vec<u8>) -> SessionAction {
    if found.must_close() {
        SessionAction::Close(CloseReason::Rejected(found))
    } else {
        SessionAction::WriteUpstream(chunk)
    }
}

/// What a relaying session does on an event, given what the inspection of a chunk
/// from the client finds.
pub open spec fn relay_action(event: SessionEvent, found: Inspection) -> SessionAction {
    match event {
        SessionEvent::UpstreamConnected => SessionAction::Close(CloseReason::OutOfTurn),
        SessionEvent::UpstreamConnectFailed => SessionAction::Close(CloseReason::OutOfTurn),
        SessionEvent::ClientRead(chunk) => if chunk@.len() == 0 {
            SessionAction::Close(CloseReason::ClientClosed)
        } else {
            client_chunk_action(found, chunk)
        },
        SessionEvent::ClientReadFailed => SessionAction::Close(CloseReason::ClientReadFailed),
        SessionEvent::UpstreamRead(chunk) => if chunk@.len() == 0 {
            SessionAction::Close(CloseReason::UpstreamClosed)
        } else {
            SessionAction::WriteClient(chunk)
        },
        SessionEvent::UpstreamReadFailed => SessionAction::Close(CloseReason::UpstreamReadFailed),
        SessionEvent::UpstreamWritten(written) => if written == 0 {
            SessionAction::Close(CloseReason::UpstreamWroteNothing)
        } else {
            SessionAction::Read
        },
        SessionEvent::UpstreamWriteFailed => SessionAction::Close(CloseReason::UpstreamWriteFailed),
        SessionEvent::ClientWritten(written) => if written == 0 {
            SessionAction::Close(CloseReason::ClientWroteNothing)
        } else {
            SessionAction::Read
        },
        SessionEvent::ClientWriteFailed => SessionAction::Close(CloseReason::ClientWriteFailed),
    }
}

/// Whether the event hands a chunk to the inspector: a read from the client that
/// returned bytes, on a relaying session.
pub open spec fn inspects(state: SessionState, event: SessionEvent) -> bool {
    state is Relaying && event is ClientRead && event->ClientRead_0@.len() > 0
}

/// What a session in `state`, with `buffer` waiting in its accumulator, does on an
/// event.
pub open spec fn reaction(
    rules: Seq<RuleModel>,
    state: SessionState,
    buffer: Seq<u8>,
    event: SessionEvent,
) -> SessionAction {
    match state {
        SessionState::Closed => SessionAction::Nothing,
        SessionState::Connecting => match event {
            SessionEvent::UpstreamConnected => SessionAction::Read,
            SessionEvent::UpstreamConnectFailed => SessionAction::Close(CloseReason::ConnectFailed),
            _ => SessionAction::Close(CloseReason::OutOfTurn),
        },
        SessionState::Relaying => relay_action(
            event,
            if event is ClientRead {
                inspection(rules, buffer, event->ClientRead_0@)
            } else {
                Inspection::Pending
            },
        ),
    }
}

/// The state after an action: a close closes, a closed session stays closed, and
/// every other action belongs to a relaying session.
pub open spec fn state_after(state: SessionState, action: SessionAction) -> SessionState {
    match state {
        SessionState::Closed => SessionState::Closed,
        _ => match action {
            SessionAction::Close(_) => SessionState::Closed,
            _ => SessionState::Relaying,
        },
    }
}

/// What waits in the accumulator after an event: what the feed of the chunk leaves
/// when the event hands one to the inspector, and what waited before otherwise.
pub open spec fn buffer_after(state: SessionState, buffer: Seq<u8>, event: SessionEvent) -> Seq<u8> {
    if inspects(state, event) {
        feed_buffer(buffer, event->ClientRead_0@)
    } else {
        buffer
    }
}

/// What holds of every session between two events: nothing waits in the accumulator
/// before the upstream connection is open, and no more than the cap waits in it
/// while the session is not closed.
pub open spec fn session_inv(state: SessionState, buffer: Seq<u8>) -> bool {
    &&& state is Connecting ==> buffer.len() == 0
    &&& !(state is Closed) ==> buffer.len() <= MAX_HEADER_BYTES
}

/// Decides what to do with a chunk read from the client once it has been inspected.
pub fn relay_client_chunk(found: Inspection, chunk: Vec<u8>) -> (action: SessionAction)
    ensures
        action == client_chunk_action(found, chunk),
{
    if found.closes() {
        SessionAction::Close(CloseReason::Rejected(found))
    } else {
        SessionAction::WriteUpstream(chunk)
    }
}

/// One accepted connection: its state and the header accumulator of its client.
#[derive(Debug)]
pub struct ConnectionSession {
    state: SessionState,
    accumulator: HeaderAccumulator,
}

impl ConnectionSession {
    /// Where the session stands.
    pub closed spec fn phase(&self) -> SessionState {
        self.state
    }

    /// The bytes that wait in the session's accumulator.
    pub closed spec fn buffered(&self) -> Seq<u8> {
        self.accumulator@
    }

    /// Whether the session keeps its invariant, [`session_inv`]. A new session does,
    /// and every step preserves it.
    pub closed spec fn wf(&self) -> bool {
        session_inv(self.state, self.accumulator@)
    }

    /// A session for a connection that was just accepted. Its owner has to open the
    /// connection to the upstream server and report the outcome.
    pub fn new() -> (session: ConnectionSession)
        ensures
            session.phase() == SessionState::Connecting,
            session.buffered() == Seq::<u8>::empty(),
            session.wf(),
    {
        ConnectionSession { state: SessionState::Connecting, accumulator: HeaderAccumulator::new() }
    }

    /// Where the session stands.
    pub fn state(&self) -> (state: SessionState)
        ensures
            state == self.phase(),
    {
        self.state
    }

    /// Whether the session is closed.
    pub fn is_closed(&self) -> (closed: bool)
        ensures
            closed == (self.phase() is Closed),
    {
        match self.state {
            SessionState::Closed => true,
            _ => false,
        }
    }

    /// The number of bytes that wait in the session's accumulator.
    pub fn buffered_len(&self) -> (n: usize)
        ensures
            n == self.buffered().len(),
    {
        self.accumulator.len()
    }

    /// Takes in what happened on the sockets and says what to do next.
    ///
    /// While connecting, the session waits for the outcome of the connection
    /// attempt. While relaying, bytes read from the upstream server go to the client
    /// as they are; bytes read from the client are inspected first and go to the
    /// upstream server as they are unless the inspection asks for the close. A read
    /// or a write of no bytes, and any failure, closes the session. A closed session
    /// asks for nothing.
    pub fn step(&mut self, config: &ProxyConfig, event: SessionEvent) -> (action: SessionAction)
        ensures
            action == reaction(
                rule_models(config.rules@),
                old(self).phase(),
                old(self).buffered(),
                event,
            ),
            final(self).phase() == state_after(old(self).phase(), action),
            final(self).buffered() == buffer_after(old(self).phase(), old(self).buffered(), event),
            old(self).wf() ==> final(self).wf(),
    {
        let action = match self.state {
            SessionState::Closed => SessionAction::Nothing,
            SessionState::Connecting => match event {
                SessionEvent::UpstreamConnected => SessionAction::Read,
                SessionEvent::UpstreamConnectFailed => SessionAction::Close(
                    CloseReason::ConnectFailed,
                ),
                _ => SessionAction::Close(CloseReason::OutOfTurn),
            },
            SessionState::Relaying => match event {
                SessionEvent::UpstreamConnected => SessionAction::Close(CloseReason::OutOfTurn),
                SessionEvent::UpstreamConnectFailed => SessionAction::Close(CloseReason::OutOfTurn),
                SessionEvent::ClientRead(chunk) => {
                    if chunk.len() == 0 {
                        SessionAction::Close(CloseReason::ClientClosed)
                    } else {
                        let found = examine(config, &mut self.accumulator, chunk.as_slice());
                        relay_client_chunk(found, chunk)
                    }
                },
                SessionEvent::ClientReadFailed => SessionAction::Close(
                    CloseReason::ClientReadFailed,
                ),
                SessionEvent::UpstreamRead(chunk) => {
                    if chunk.len() == 0 {
                        SessionAction::Close(CloseReason::UpstreamClosed)
                    } else {
                        SessionAction::WriteClient(chunk)
                    }
                },
                SessionEvent::UpstreamReadFailed => SessionAction::Close(
                    CloseReason::UpstreamReadFailed,
                ),
                SessionEvent::UpstreamWritten(written) => {
                    if written == 0 {
                        SessionAction::Close(CloseReason::UpstreamWroteNothing)
                    } else {
                        SessionAction::Read
                    }
                },
                SessionEvent::UpstreamWriteFailed => SessionAction::Close(
                    CloseReason::UpstreamWriteFailed,
                ),
                SessionEvent::ClientWritten(written) => {
                    if written == 0 {
                        SessionAction::Close(CloseReason::ClientWroteNothing)
                    } else {
                        SessionAction::Read
                    }
                },
                SessionEvent::ClientWriteFailed => SessionAction::Close(
                    CloseReason::ClientWriteFailed,
                ),
            },
        };
        match self.state {
            SessionState::Closed => {},
            _ => {
                match &action {
                    SessionAction::Close(_) => {
                        self.state = SessionState::Closed;
                    },
                    _ => {
                        self.state = SessionState::Relaying;
                    },
                }
            },
        }
        action
    }
}

impl Default for ConnectionSession {
    fn default() -> (session: ConnectionSession)
        ensures
            session.phase() == SessionState::Connecting,
            session.buffered() == Seq::<u8>::empty(),
            session.wf(),
    {
        ConnectionSession::new()
    }
}

/// Every step keeps the invariant of a session: while a session is not closed, no
/// more than the cap waits in its accumulator.
pub proof fn law_session_keeps_cap(
    rules: Seq<RuleModel>,
    state: SessionState,
    buffer: Seq<u8>,
    event: SessionEvent,
)
    requires
        session_inv(state, buffer),
    ensures
        session_inv(
            state_after(state, reaction(rules, state, buffer, event)),
            buffer_after(state, buffer, event),
        ),
{
}

/// A request that a blocking rule matches, with nothing allowed by the rules before
/// that rule, never reaches the upstream server: the chunk that completes its header
/// closes the session.
pub proof fn law_blocked_request_is_not_forwarded(
    rules: Seq<RuleModel>,
    buffer: Seq<u8>,
    chunk: Vec<u8>,
    method: Seq<char>,
    path: Seq<char>,
    i: int,
)
    requires
        chunk@.len() > 0,
        valid_utf8(chunk@),
        has_terminator(buffer + chunk@),
        parsed_head((buffer + chunk@).take(header_end(buffer + chunk@))) == (HeadModel::Complete {
            method: Some(method),
            path: Some(path),
        }),
        0 <= i < rules.len(),
        rules[i].action is Block,
        hits(fold_rules(rules)[i], uppercase(method), lowercase(path)),
        outcome(fold_rules(rules).take(i), uppercase(method), lowercase(path)) != Some(
            Decision::Allow,
        ),
    ensures
        reaction(rules, SessionState::Relaying, buffer, SessionEvent::ClientRead(chunk))
            == SessionAction::Close(CloseReason::Rejected(Inspection::Blocked)),
        state_after(
            SessionState::Relaying,
            reaction(rules, SessionState::Relaying, buffer, SessionEvent::ClientRead(chunk)),
        ) == SessionState::Closed,
{
    law_matching_block_rule_blocks(fold_rules(rules), uppercase(method), lowercase(path), i);
}

/// A request that reaches a relaying session in two reads, split before the end of
/// its header, fares as it does in one read: the first part is forwarded, and the
/// second part closes the session exactly when the whole would have, for the same
/// reason, and is forwarded otherwise. The accumulator ends up the same.
///
/// Both parts must be text by themselves, and the first part must fit under the cap.
pub proof fn law_split_read_same_outcome(
    rules: Seq<RuleModel>,
    buffer: Seq<u8>,
    whole: Vec<u8>,
    first: Vec<u8>,
    second: Vec<u8>,
)
    requires
        first@.len() > 0,
        second@.len() > 0,
        whole@ == first@ + second@,
        valid_utf8(first@),
        valid_utf8(second@),
        has_terminator(buffer + whole@),
        buffer.len() + first@.len() < header_end(buffer + whole@),
        buffer.len() + first@.len() <= MAX_HEADER_BYTES,
    ensures
        reaction(rules, SessionState::Relaying, buffer, SessionEvent::ClientRead(first))
            == SessionAction::WriteUpstream(first),
        ({
            let waiting = buffer_after(
                SessionState::Relaying,
                buffer,
                SessionEvent::ClientRead(first),
            );
            let one = reaction(
                rules,
                SessionState::Relaying,
                buffer,
                SessionEvent::ClientRead(whole),
            );
            let two = reaction(
                rules,
                SessionState::Relaying,
                waiting,
                SessionEvent::ClientRead(second),
            );
            &&& one is Close ==> two == one
            &&& !(one is Close) ==> one == SessionAction::WriteUpstream(whole) && two
                == SessionAction::WriteUpstream(second)
            &&& buffer_after(SessionState::Relaying, waiting, SessionEvent::ClientRead(second))
                == buffer_after(SessionState::Relaying, buffer, SessionEvent::ClientRead(whole))
        }),
{
    let k = first@.len() as int;
    assert(whole@.take(k) =~= first@);
    assert(whole@.skip(k) =~= second@);
    law_split_read_same_inspection(rules, buffer, whole@, k);
}

/// A closed session stays closed and asks for nothing, whatever is reported to it.
pub proof fn law_closed_is_terminal(rules: Seq<RuleModel>, buffer: Seq<u8>, event: SessionEvent)
    ensures
        reaction(rules, SessionState::Closed, buffer, event) == SessionAction::Nothing,
        state_after(SessionState::Closed, SessionAction::Nothing) == SessionState::Closed,
        buffer_after(SessionState::Closed, buffer, event) == buffer,
{
}

/// The sockets are released once: a session that is not closed asks for the close
/// exactly when the event closes it, and it never asks for nothing.
pub proof fn law_close_is_asked_once(
    rules: Seq<RuleModel>,
    state: SessionState,
    buffer: Seq<u8>,
    event: SessionEvent,
)
    requires
        !(state is Closed),
    ensures
        reaction(rules, state, buffer, event) is Close <==> state_after(
            state,
            reaction(rules, state, buffer, event),
        ) is Closed,
        !(reaction(rules, state, buffer, event) is Nothing),
        state is Connecting ==> !(reaction(rules, state, buffer, event) is WriteUpstream) && !(
        reaction(rules, state, buffer, event) is WriteClient),
{
}

/// Bytes are forwarded as they were read: whatever a session asks to write to the
/// upstream server is the chunk that was just read from the client and passed the
/// inspection, and whatever it asks to write to the client is the chunk that was
/// just read from the upstream server.
pub proof fn law_bytes_are_forwarded_verbatim(
    rules: Seq<RuleModel>,
    state: SessionState,
    buffer: Seq<u8>,
    event: SessionEvent,
)
    ensures
        reaction(rules, state, buffer, event) is WriteUpstream ==> {
            &&& state is Relaying
            &&& event == SessionEvent::ClientRead(
                reaction(rules, state, buffer, event)->WriteUpstream_0,
            )
            &&& !inspection(rules, buffer, event->ClientRead_0@).must_close()
        },
        reaction(rules, state, buffer, event) is WriteClient ==> {
            &&& state is Relaying
            &&& event == SessionEvent::UpstreamRead(
                reaction(rules, state, buffer, event)->WriteClient_0,
            )
        },
{
}

/// A chunk from the client whose inspection asks for the close is not forwarded:
/// the session closes, and gives the inspection as the reason.
pub proof fn law_rejected_chunk_closes(
    rules: Seq<RuleModel>,
    buffer: Seq<u8>,
    chunk: Vec<u8>,
)
    requires
        chunk@.len() > 0,
        inspection(rules, buffer, chunk@).must_close(),
    ensures
        reaction(rules, SessionState::Relaying, buffer, SessionEvent::ClientRead(chunk))
            == SessionAction::Close(CloseReason::Rejected(inspection(rules, buffer, chunk@))),
        state_after(
            SessionState::Relaying,
            reaction(rules, SessionState::Relaying, buffer, SessionEvent::ClientRead(chunk)),
        ) == SessionState::Closed,
{
}

/// Bytes from the upstream server are never inspected: they go to the client
/// whatever the rules are, and leave the accumulator as it was.
pub proof fn law_upstream_bytes_pass(rules: Seq<RuleModel>, buffer: Seq<u8>, chunk: Vec<u8>)
    requires
        chunk@.len() > 0,
    ensures
        reaction(rules, SessionState::Relaying, buffer, SessionEvent::UpstreamRead(chunk))
            == SessionAction::WriteClient(chunk),
        buffer_after(SessionState::Relaying, buffer, SessionEvent::UpstreamRead(chunk)) == buffer,
{
}

} // verus!
