//! Policy core of a transparent TCP forwarding proxy.
//!
//! The proxy relays bytes between a client and one fixed upstream server. Before a
//! chunk read from the client is forwarded, the leading HTTP request header is
//! reassembled from the chunks seen so far, parsed into method and path, and judged
//! against an ordered list of rules. This crate holds that logic and the state
//! machine of a connection; sockets and logging belong to the program around it.
//!
//! - [`rules`]: the configuration and its rules.
//! - [`evaluate`]: the rule evaluator.
//! - [`accumulator`]: the header accumulator.
//! - [`head`]: the request line of a completed header.
//! - [`inspector`]: the request inspector.
//! - [`session`]: the state machine of a connection.
//! - [`listener`]: the decisions of the accept loop.
//! - [`text`]: the text operations that are taken on trust.

pub mod accumulator;
pub mod evaluate;
pub mod head;
pub mod inspector;
pub mod listener;
pub mod rules;
pub mod session;
pub mod text;

pub use accumulator::{FeedError, HeaderAccumulator, MAX_HEADER_BYTES};
pub use evaluate::evaluate;
pub use head::ParsedHead;
pub use inspector::{examine, inspect, Inspection};
pub use listener::{on_listener_event, ListenerAction, ListenerEvent};
pub use rules::{Decision, MethodFilter, ProxyConfig, ProxyRule, RuleAction, RuleModel};
pub use session::{CloseReason, ConnectionSession, SessionAction, SessionEvent, SessionState};
