use vstd::prelude::*;

verus! {

/// An absolute point on the host's steady (monotonic) clock, in
/// milliseconds. Deadlines are never sourced from a wall clock, so they are
/// immune to wall-clock jumps.
#[derive(Clone, Copy, Debug, PartialEq, Eq, Structural)]
pub struct Deadline {
    pub millis: u64,
}

/// What one non-blocking read attempt on the socket produced.
///
/// `Data` carries the bytes pulled off the socket by a single read call; an
/// empty `Data` means the peer has shut down its writing end (a zero-byte
/// read). `WouldBlock` means nothing is readable right now; `Error` is any
/// other I/O failure.
pub enum ReadEvent {
    Data(Vec<u8>),
    WouldBlock,
    Error,
}

/// What one non-blocking write attempt on the socket produced.
///
/// `Wrote(n)` means the socket accepted `n` bytes from the front of the
/// buffer that was offered. `WouldBlock` means the socket cannot accept
/// bytes right now; `Error` is any other I/O failure.
pub enum WriteEvent {
    Wrote(usize),
    WouldBlock,
    Error,
}

/// The connection-level socket, as the engine sees it: a registration point
/// and a source and sink of bytes. Implementations wrap a real non-blocking
/// socket; the engine itself never performs I/O.
pub trait StreamSocket: Sized {
    /// Register the socket with the host event loop, edge-triggered, with
    /// both readable and writable interest. Returns false when the host
    /// rejects the registration. The engine calls this exactly once per
    /// stream, at creation.
    fn register(&mut self) -> bool;

    /// Perform one read attempt and hand back whatever it produced.
    fn read_data(&mut self) -> ReadEvent;

    /// Offer `data` to the socket for writing; the result reports how many
    /// bytes (from the front) the socket accepted.
    fn write_data(&mut self, data: &Vec<u8>) -> WriteEvent;
}

/// The handle into the host event loop: a steady clock and a timer
/// registry. Timer registration returns a cancellable token; `None` means
/// the host rejected the timer (too many timers, or a deadline too far
/// away).
pub trait Scope: Sized {
    /// The current point on the steady clock.
    fn now(&mut self) -> Deadline;

    /// Register a timer `ms` milliseconds from now; `Some(token)` on
    /// success.
    fn timeout_ms(&mut self, ms: u64) -> Option<u64>;

    /// Cancel the timer known under `token`; returns whether the host still
    /// knew the token.
    fn clear_timeout(&mut self, token: u64) -> bool;
}

/// The borrowed view handed to every user callback: the socket plus the two
/// buffers. It is the only path through which a callback consumes input or
/// enqueues output, and it is valid only for the duration of the callback.
pub struct Transport<S> {
    pub sock: S,
    pub inbuf: Vec<u8>,
    pub outbuf: Vec<u8>,
}

impl<S> Transport<S> {
    /// Drop the first `n` bytes of the input buffer: the usual way a
    /// callback consumes the bytes it was told about.
    pub fn consume_input(&mut self, n: usize)
        requires
            n <= old(self).inbuf@.len(),
        ensures
            final(self).inbuf@ == old(self).inbuf@.skip(n as int),
            final(self).outbuf == old(self).outbuf,
            final(self).sock == old(self).sock,
    {
        drain_front(&mut self.inbuf, n);
    }

    /// Append `data` to the output buffer; the engine drains it to the
    /// socket in order.
    pub fn push_output(&mut self, data: &[u8])
        ensures
            final(self).inbuf == old(self).inbuf,
            final(self).outbuf@ == old(self).outbuf@ + data@,
            final(self).sock == old(self).sock,
    {
        self.outbuf.extend_from_slice(data);
    }
}

/// Remove the first `n` elements of `v`, keeping the rest in order.
pub fn drain_front(v: &mut Vec<u8>, n: usize)
    requires
        n <= old(v)@.len(),
    ensures
        final(v)@ == old(v)@.skip(n as int),
{
    let mut rest: Vec<u8> = Vec::new();
    let mut i: usize = n;
    while i < v.len()
        invariant
            n <= i <= v@.len(),
            v@ == old(v)@,
            rest@ == v@.subrange(n as int, i as int),
        decreases v@.len() - i,
    {
        rest.push(v[i]);
        i = i + 1;
    }
    proof {
        assert(rest@ =~= old(v)@.skip(n as int));
    }
    *v = rest;
}

} // verus!
