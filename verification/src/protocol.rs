use vstd::prelude::*;

use crate::host::Deadline;
use crate::host::StreamSocket;
use crate::host::Transport;

verus! {

/// The wait condition attached to a connection: what must happen before the
/// user protocol is called back.
#[derive(Debug, PartialEq, Eq)]
pub enum Expectation {
    /// Wait until the input buffer holds at least this many bytes.
    ///
    /// The buffer passed to `bytes_read` may hold more; the reported count
    /// is exactly the number asked for. `Bytes(0)` is satisfied immediately.
    Bytes(usize),
    /// Buffered read until the peer half-closes.
    ///
    /// Delivers the whole buffered data if it fits the given maximum of
    /// bytes, otherwise silently closes the connection.
    BufferEof(usize),
    /// Read until the peer half-closes, or until strictly more than the
    /// given minimum of bytes is buffered, whichever comes first; delivers
    /// whatever is buffered.
    Eof(usize),
    /// Read until a delimiter: parameters are `offset`, `delimiter`,
    /// `max_bytes`.
    ///
    /// The search starts at absolute index `offset` each time; the reported
    /// count is the number of payload bytes between `offset` and the
    /// delimiter, and the delimiter itself is guaranteed to be in the
    /// buffer at callback time. `max_bytes` includes the `offset` bytes:
    /// when the buffer grows past it with no match, `delimiter_not_found`
    /// decides whether the connection proceeds or is torn down.
    Delimiter(usize, Vec<u8>, usize),
    /// Wait until no more than this many bytes remain in the output buffer.
    ///
    /// `Flush(0)` waits for a fully drained buffer; a larger watermark
    /// gives TCP pushback without stalling production completely.
    Flush(usize),
    /// Wait only for the deadline or an external wakeup.
    Sleep,
}

/// What a user callback returns: the next protocol state, the next wait
/// condition, and the next deadline. `None` means "tear the connection
/// down".
pub type Request<M> = Option<(M, Expectation, Deadline)>;

/// The user protocol: a state machine driven by the stream engine. Each
/// callback consumes the current state and returns the next `Request`, or
/// `None` to stop.
///
/// `C` is the host scope handed through to every callback; `S` the socket.
pub trait Protocol<C, S: StreamSocket>: Sized {
    type Seed;

    /// Starting the protocol (a socket was accepted).
    fn create(seed: Self::Seed, sock: &mut S, scope: &mut C) -> Request<Self>;

    /// A `Bytes`, `Delimiter`, `Eof` or `BufferEof` expectation completed;
    /// `end` is the reported byte count. The bytes stay in the transport's
    /// input buffer until the callback consumes them; an unconsumed
    /// `Bytes(n)` will re-satisfy immediately.
    ///
    /// The engine never reports a count beyond the buffered input.
    fn bytes_read(self, transport: &mut Transport<S>, end: usize, scope: &mut C) -> Request<
        Self,
    >
        requires
            end <= old(transport).inbuf@.len(),
    ;

    /// A `Flush` expectation completed: the output buffer drained to the
    /// watermark.
    fn bytes_flushed(self, transport: &mut Transport<S>, scope: &mut C) -> Request<Self>;

    /// The deadline was reached while waiting.
    fn timeout(self, transport: &mut Transport<S>, scope: &mut C) -> Request<Self>;

    /// A `Delimiter` expectation grew past its maximum with no match.
    /// Returning `None` (the default, and the usual choice: likely a
    /// protocol mismatch or a hostile peer) tears the connection down;
    /// returning a request instead lets the protocol flush an error reply
    /// first — it must then wait for that flush itself, or the reply is
    /// discarded with the connection.
    fn delimiter_not_found(self, _transport: &mut Transport<S>, _scope: &mut C) -> Request<
        Self,
    > {
        None
    }

    /// An external wakeup message arrived from the main loop.
    fn wakeup(self, transport: &mut Transport<S>, scope: &mut C) -> Request<Self>;
}

} // verus!
