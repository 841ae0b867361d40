//! A byte-stream protocol driver: the engine between a non-blocking socket
//! and a user protocol state machine. The engine translates socket readiness
//! into expectation completions (read `n` bytes, read until a delimiter,
//! flush output to a watermark, wait for a deadline), parks the connection
//! when no progress is possible, and tears it down when the protocol stops
//! or the socket fails.
//!
//! The host event loop and the socket itself are reached only through the
//! `Scope` and `StreamSocket` traits; everything the engine decides is
//! verified.

mod host;
mod protocol;
mod stream;
mod substr;

pub use host::Deadline;
pub use host::ReadEvent;
pub use host::Scope;
pub use host::StreamSocket;
pub use host::Transport;
pub use host::WriteEvent;
pub use protocol::Expectation;
pub use protocol::Protocol;
pub use protocol::Request;
pub use stream::Inspection;
pub use stream::IoOp;
pub use stream::WriteStep;
pub use stream::apply_read_event;
pub use stream::apply_write_event;
pub use stream::entry_doomed;
pub use stream::eof_completes;
pub use stream::read_step;
pub use stream::relative_ms;
pub use stream::write_step;
pub use stream::ProtocolStop;
pub use stream::Response;
pub use stream::Stream;
pub use stream::StreamError;
pub use stream::StreamImpl;
pub use stream::TimerError;
pub use stream::bytes_delivery_has_enough;
pub use stream::bytes_read_ok;
pub use stream::delimiter_delivery_found;
pub use stream::deliverable;
pub use stream::flush_ok;
pub use stream::inspect;
pub use stream::not_found_ok;
pub use stream::parked_expectation_unsatisfiable;
pub use stream::parked_ok;
pub use substr::find_from;
pub use substr::find_substr;
pub use substr::match_at;
pub use substr::no_match_before;
pub use substr::no_match_from;
