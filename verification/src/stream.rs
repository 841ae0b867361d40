use core::marker::PhantomData;
use vstd::prelude::*;

use crate::host::Deadline;
use crate::host::ReadEvent;
use crate::host::Scope;
use crate::host::StreamSocket;
use crate::host::Transport;
use crate::host::WriteEvent;
use crate::host::drain_front;
use crate::protocol::Expectation;
use crate::protocol::Protocol;
use crate::protocol::Request;
use crate::substr::find_from;
use crate::substr::match_at;
use crate::substr::no_match_before;
use crate::substr::no_match_from;

verus! {

/// The four disjoint outcomes of one read attempt: bytes arrived, nothing
/// readable right now, peer half-close, or a fatal error.
#[derive(Debug, Clone, Copy, PartialEq, Eq, Structural)]
pub enum IoOp {
    Done,
    NoOp,
    Eof,
    Error,
}

impl IoOp {
    /// Classify a read outcome for callers that only care about progress:
    /// `Ok(true)` means bytes arrived, `Ok(false)` means no bytes can be had
    /// right now (would-block or half-close), `Err` is a fatal read error.
    pub fn is_done(self) -> (r: Result<bool, ()>)
        ensures
            r == match self {
                IoOp::Done => Result::<bool, ()>::Ok(true),
                IoOp::NoOp => Result::<bool, ()>::Ok(false),
                IoOp::Eof => Result::<bool, ()>::Ok(false),
                IoOp::Error => Result::<bool, ()>::Err(()),
            },
    {
        match self {
            IoOp::Done => Ok(true),
            IoOp::NoOp => Ok(false),
            IoOp::Eof => Ok(false),
            IoOp::Error => Err(()),
        }
    }
}

/// What one inspection of the buffers decides for the current expectation,
/// before any further I/O.
#[derive(Debug, Clone, Copy, PartialEq, Eq, Structural)]
pub enum Inspection {
    /// Call `bytes_read` with this count.
    Deliver(usize),
    /// Call `bytes_flushed`.
    Flushed,
    /// A `Delimiter` ran past its maximum with no match: call
    /// `delimiter_not_found`.
    TooLong,
    /// A `BufferEof` ran past its maximum: tear down silently.
    Overflow,
    /// Not satisfiable yet; one read may advance it.
    NeedRead,
    /// Not satisfiable by reading; park until an external event.
    Park,
}

/// The condition under which the engine reports a completed read
/// expectation to `bytes_read` with count `end`: for `Bytes(n)` at least `n`
/// bytes are buffered and `end == n`; for `Delimiter` the needle stands
/// whole in the buffer at index `off + end` and nowhere earlier at or after
/// `off`; for `Eof` and `BufferEof` the count is the whole buffer, bounded
/// for `BufferEof` by its maximum.
pub open spec fn bytes_read_ok(exp: Expectation, inbuf: Seq<u8>, end: int) -> bool {
    match exp {
        Expectation::Bytes(n) => inbuf.len() >= n && end == n,
        Expectation::Delimiter(off, d, max) => inbuf.len() > off && 0 <= end && match_at(
            inbuf,
            d@,
            off + end,
        ) && no_match_before(inbuf, d@, off as int, off + end),
        Expectation::Eof(min) => end == inbuf.len(),
        Expectation::BufferEof(max) => end == inbuf.len() && inbuf.len() <= max,
        Expectation::Flush(n) => false,
        Expectation::Sleep => false,
    }
}

/// The condition under which the engine reports a completed `Flush(n)`:
/// the output buffer has drained to at most `n` bytes.
pub open spec fn flush_ok(exp: Expectation, outbuf_len: int) -> bool {
    match exp {
        Expectation::Flush(n) => outbuf_len <= n,
        _ => false,
    }
}

/// The condition under which the engine invokes `delimiter_not_found`: a
/// `Delimiter` expectation whose buffer has grown past `max` with no match
/// at or after `off`.
pub open spec fn not_found_ok(exp: Expectation, inbuf: Seq<u8>) -> bool {
    match exp {
        Expectation::Delimiter(off, d, max) => inbuf.len() > max && (inbuf.len() <= off
            || no_match_from(inbuf, d@, off as int)),
        _ => false,
    }
}

/// What holds of a stream whenever the engine parks it: the expectation is
/// not satisfiable from the buffers as they stand, so only new bytes, a
/// drainable socket, a deadline or a wakeup can make it progress.
pub open spec fn parked_ok(exp: Expectation, inbuf: Seq<u8>, outbuf_len: int) -> bool {
    match exp {
        Expectation::Bytes(n) => inbuf.len() < n,
        Expectation::Delimiter(off, d, max) => inbuf.len() <= max && (inbuf.len() <= off
            || no_match_from(inbuf, d@, off as int)),
        Expectation::Eof(min) => inbuf.len() <= min,
        Expectation::BufferEof(max) => inbuf.len() <= max,
        Expectation::Flush(n) => outbuf_len > n,
        Expectation::Sleep => true,
    }
}

/// The expectation is satisfiable from the buffers alone, without any
/// further I/O or external event.
pub open spec fn deliverable(exp: Expectation, inbuf: Seq<u8>, outbuf_len: int) -> bool {
    match exp {
        Expectation::Bytes(n) => inbuf.len() >= n,
        Expectation::Delimiter(off, d, max) => inbuf.len() > off && exists|j: int|
            off <= j && match_at(inbuf, d@, j),
        Expectation::Eof(min) => inbuf.len() > min,
        Expectation::BufferEof(max) => false,
        Expectation::Flush(n) => outbuf_len <= n,
        Expectation::Sleep => false,
    }
}

/// The requests the action loop tears down at once, before any user
/// callback and before the expectation can touch the socket's read side:
/// an absent request, and a `BufferEof` whose buffer has already outgrown
/// its maximum.
pub open spec fn entry_doomed<M>(req: Request<M>, inbuf: Seq<u8>) -> bool {
    match req {
        None => true,
        Some(t) => match t.1 {
            Expectation::BufferEof(max) => inbuf.len() > max,
            _ => false,
        },
    }
}

/// Law: when a `Bytes(n)` expectation completes, the input buffer at
/// callback entry holds at least `n` bytes and the reported count is
/// exactly `n`.
pub proof fn bytes_delivery_has_enough(n: usize, inbuf: Seq<u8>, end: int)
    requires
        bytes_read_ok(Expectation::Bytes(n), inbuf, end),
    ensures
        inbuf.len() >= n,
        end == n,
{
}

/// Law: when a `Delimiter(off, d, max)` expectation completes with count
/// `end`, the needle occurs in the buffer at index `off + end` — an index
/// at or after `off`, and the first such — and lies whole inside the
/// buffer.
pub proof fn delimiter_delivery_found(
    off: usize,
    d: Vec<u8>,
    max: usize,
    inbuf: Seq<u8>,
    end: int,
)
    requires
        bytes_read_ok(Expectation::Delimiter(off, d, max), inbuf, end),
    ensures
        0 <= end,
        match_at(inbuf, d@, off + end),
        off + end + d@.len() <= inbuf.len(),
        no_match_before(inbuf, d@, off as int, off + end),
{
}

/// Law: a parked stream's expectation cannot be satisfied from its buffers.
/// A readiness event that changes neither buffer therefore finds the same
/// unsatisfiable expectation: no user callback can fire, and the stream
/// parks again unchanged.
pub proof fn parked_expectation_unsatisfiable(exp: Expectation, inbuf: Seq<u8>, outbuf_len: int)
    requires
        parked_ok(exp, inbuf, outbuf_len),
    ensures
        !deliverable(exp, inbuf, outbuf_len),
{
    match exp {
        Expectation::Delimiter(off, d, max) => {
            if inbuf.len() > off {
                assert(no_match_from(inbuf, d@, off as int));
            }
        },
        _ => {},
    }
}

/// Inspect the current expectation against the buffers and decide what the
/// engine does next, per the expectation semantics: satisfiable
/// expectations name their callback and count, over-long ones their
/// failure, the rest either want one read or park outright.
pub fn inspect(exp: &Expectation, inbuf: &Vec<u8>, outbuf_len: usize) -> (r: Inspection)
    ensures
        inbuf@.len() <= usize::MAX,
        match *exp {
            Expectation::Bytes(n) => r == (if inbuf@.len() >= n {
                Inspection::Deliver(n)
            } else {
                Inspection::NeedRead
            }),
            Expectation::Delimiter(off, d, max) => match r {
                Inspection::Deliver(end) => inbuf@.len() > off && match_at(
                    inbuf@,
                    d@,
                    off + end,
                ) && no_match_before(inbuf@, d@, off as int, off + end),
                Inspection::TooLong => inbuf@.len() > max && (inbuf@.len() <= off
                    || no_match_from(inbuf@, d@, off as int)),
                Inspection::NeedRead => inbuf@.len() <= max && (inbuf@.len() <= off
                    || no_match_from(inbuf@, d@, off as int)),
                _ => false,
            },
            Expectation::Eof(min) => r == (if inbuf@.len() > min {
                Inspection::Deliver(inbuf@.len() as usize)
            } else {
                Inspection::NeedRead
            }),
            Expectation::BufferEof(max) => r == (if inbuf@.len() > max {
                Inspection::Overflow
            } else {
                Inspection::NeedRead
            }),
            Expectation::Flush(n) => r == (if outbuf_len <= n {
                Inspection::Flushed
            } else {
                Inspection::Park
            }),
            Expectation::Sleep => r == Inspection::Park,
        },
{
    let len = inbuf.len();
    match exp {
        Expectation::Bytes(n) => {
            if len >= *n {
                Inspection::Deliver(*n)
            } else {
                Inspection::NeedRead
            }
        },
        Expectation::Delimiter(off, d, max) => {
            if len > *off {
                match find_from(inbuf, *off, d) {
                    Some(i) => {
                        return Inspection::Deliver(i - *off);
                    },
                    None => {},
                }
            }
            if len > *max {
                Inspection::TooLong
            } else {
                Inspection::NeedRead
            }
        },
        Expectation::Eof(min) => {
            if len > *min {
                Inspection::Deliver(len)
            } else {
                Inspection::NeedRead
            }
        },
        Expectation::BufferEof(max) => {
            if len > *max {
                Inspection::Overflow
            } else {
                Inspection::NeedRead
            }
        },
        Expectation::Flush(n) => {
            if outbuf_len <= *n {
                Inspection::Flushed
            } else {
                Inspection::Park
            }
        },
        Expectation::Sleep => Inspection::Park,
    }
}

/// What folding one read outcome into the input buffer does: bytes that
/// arrived are appended whole at the end and classified `Done`, a
/// zero-byte read is the peer's half-close (`Eof`), would-block (`NoOp`)
/// and errors change nothing. No byte the event carried is dropped or
/// reordered.
pub open spec fn read_step(inbuf0: Seq<u8>, ev: ReadEvent, inbuf1: Seq<u8>, r: IoOp) -> bool {
    match ev {
        ReadEvent::Data(d) => if d@.len() == 0 {
            r == IoOp::Eof && inbuf1 == inbuf0
        } else {
            r == IoOp::Done && inbuf1 == inbuf0 + d@
        },
        ReadEvent::WouldBlock => r == IoOp::NoOp && inbuf1 == inbuf0,
        ReadEvent::Error => r == IoOp::Error && inbuf1 == inbuf0,
    }
}

/// Fold one read outcome into the input buffer, exactly as `read_step`
/// says for this event.
pub fn apply_read_event(inbuf: &mut Vec<u8>, ev: ReadEvent) -> (r: IoOp)
    ensures
        read_step(old(inbuf)@, ev, final(inbuf)@, r),
{
    match ev {
        ReadEvent::Data(data) => {
            if data.len() == 0 {
                IoOp::Eof
            } else {
                let mut data = data;
                inbuf.append(&mut data);
                IoOp::Done
            }
        },
        ReadEvent::WouldBlock => IoOp::NoOp,
        ReadEvent::Error => IoOp::Error,
    }
}

/// What one write outcome means for the engine.
#[derive(Debug, Clone, Copy, PartialEq, Eq, Structural)]
pub enum WriteStep {
    /// At least one byte left the buffer; keep draining.
    Progress,
    /// The socket would block; the next write waits for the next writable
    /// edge.
    Blocked,
    /// A fatal write error: a non-would-block failure, or a zero-byte
    /// write with no would-block signal.
    Failed,
}

/// What folding one write outcome into the output buffer does: `Wrote(n)`
/// drains exactly `n` bytes (at most the whole buffer) from the front,
/// except that a zero-byte write is fatal; would-block and errors drain
/// nothing.
pub open spec fn write_step(outbuf0: Seq<u8>, ev: WriteEvent, outbuf1: Seq<u8>, r: WriteStep) -> bool {
    match ev {
        WriteEvent::Wrote(n) => if n == 0 {
            r == WriteStep::Failed && outbuf1 == outbuf0
        } else {
            r == WriteStep::Progress && outbuf1 == outbuf0.skip(
                if n < outbuf0.len() {
                    n as int
                } else {
                    outbuf0.len() as int
                },
            )
        },
        WriteEvent::WouldBlock => r == WriteStep::Blocked && outbuf1 == outbuf0,
        WriteEvent::Error => r == WriteStep::Failed && outbuf1 == outbuf0,
    }
}

/// Fold one write outcome into the output buffer, exactly as `write_step`
/// says for this event.
pub fn apply_write_event(outbuf: &mut Vec<u8>, ev: WriteEvent) -> (r: WriteStep)
    ensures
        write_step(old(outbuf)@, ev, final(outbuf)@, r),
{
    match ev {
        WriteEvent::Wrote(n) => {
            if n == 0 {
                WriteStep::Failed
            } else {
                let len = outbuf.len();
                let k = if n < len {
                    n
                } else {
                    len
                };
                drain_front(outbuf, k);
                WriteStep::Progress
            }
        },
        WriteEvent::WouldBlock => WriteStep::Blocked,
        WriteEvent::Error => WriteStep::Failed,
    }
}

/// Whether a peer half-close completes the expectation: `Eof` and
/// `BufferEof` treat it as their delimiter and deliver; for `Bytes` and
/// `Delimiter` it is a fatal read error; `Flush` and `Sleep` never reach a
/// read at all.
pub fn eof_completes(exp: &Expectation) -> (r: bool)
    ensures
        r == match *exp {
            Expectation::Eof(_) => true,
            Expectation::BufferEof(_) => true,
            _ => false,
        },
{
    match exp {
        Expectation::Eof(_) => true,
        Expectation::BufferEof(_) => true,
        _ => false,
    }
}

/// Invoke `bytes_read` for a completed read expectation. The precondition
/// is the engine's delivery discipline: a callback fires only when the
/// expectation it completes really is satisfied by the buffer, with the
/// exact count the expectation semantics prescribe.
fn run_bytes_read<C, S: StreamSocket, P: Protocol<C, S>>(
    fsm: P,
    transport: &mut Transport<S>,
    end: usize,
    scope: &mut C,
    exp: Ghost<Expectation>,
) -> (r: Request<P>)
    requires
        bytes_read_ok(exp@, old(transport).inbuf@, end as int),
{
    fsm.bytes_read(transport, end, scope)
}

/// Invoke `bytes_flushed` for a completed `Flush` expectation: the output
/// buffer really has drained to the watermark.
fn run_bytes_flushed<C, S: StreamSocket, P: Protocol<C, S>>(
    fsm: P,
    transport: &mut Transport<S>,
    scope: &mut C,
    exp: Ghost<Expectation>,
) -> (r: Request<P>)
    requires
        flush_ok(exp@, old(transport).outbuf@.len() as int),
{
    fsm.bytes_flushed(transport, scope)
}

/// Invoke `delimiter_not_found`: the buffer really has outgrown the
/// delimiter's maximum with no match in sight.
fn run_delimiter_not_found<C, S: StreamSocket, P: Protocol<C, S>>(
    fsm: P,
    transport: &mut Transport<S>,
    scope: &mut C,
    exp: Ghost<Expectation>,
) -> (r: Request<P>)
    requires
        not_found_ok(exp@, old(transport).inbuf@),
{
    fsm.delimiter_not_found(transport, scope)
}

/// The I/O engine: exclusive owner of the socket, the two buffers, the
/// current deadline and the timer token the host returned for it.
pub struct StreamImpl<S> {
    pub transport: Transport<S>,
    pub deadline: Deadline,
    pub timeout: u64,
    pub registered: Ghost<Deadline>,
}

impl<S: StreamSocket> StreamImpl<S> {
    /// The deadline under which the held timer token was registered with
    /// the host equals the deadline the engine holds.
    pub open spec fn wf(&self) -> bool {
        self.registered@ == self.deadline
    }

    /// The borrowed view of socket and buffers handed to user callbacks.
    pub fn transport(&mut self) -> (r: &mut Transport<S>)
        ensures
            *r == old(self).transport,
            final(self).transport == *final(r),
            final(self).deadline == old(self).deadline,
            final(self).timeout == old(self).timeout,
            final(self).registered == old(self).registered,
    {
        &mut self.transport
    }

    /// One read attempt: pull whatever the socket has into the input
    /// buffer, appending in arrival order, and classify the outcome. Not a
    /// loop: the user gets a chance to consume and shrink the expectation
    /// before more bytes are pulled in.
    fn read(&mut self) -> (r: IoOp)
        ensures
            exists|ev: ReadEvent|
                read_step(
                    old(self).transport.inbuf@,
                    ev,
                    final(self).transport.inbuf@,
                    r,
                ),
            old(self).transport.inbuf@.is_prefix_of(final(self).transport.inbuf@),
            r == IoOp::Done ==> final(self).transport.inbuf@.len() > old(
                self,
            ).transport.inbuf@.len(),
            r != IoOp::Done ==> final(self).transport.inbuf@ == old(self).transport.inbuf@,
            final(self).transport.outbuf == old(self).transport.outbuf,
            final(self).deadline == old(self).deadline,
            final(self).timeout == old(self).timeout,
            final(self).registered == old(self).registered,
    {
        let ev = self.transport.sock.read_data();
        let r = apply_read_event(&mut self.transport.inbuf, ev);
        proof {
            assert(old(self).transport.inbuf@.is_prefix_of(self.transport.inbuf@)) by {
                assert(self.transport.inbuf@.take(old(self).transport.inbuf@.len() as int)
                    =~= old(self).transport.inbuf@);
            }
        }
        r
    }

    /// Drain the output buffer to the socket greedily, until it is empty or
    /// the socket would block. `Ok(true)` means the buffer is empty;
    /// `Ok(false)` means the socket would block and the next write must
    /// wait for the next writable edge; `Err` is a fatal write error — a
    /// zero-byte write with no would-block signal counts as one. Bytes
    /// leave the buffer from the front, in order.
    fn write(&mut self) -> (r: Result<bool, ()>)
        ensures
            final(self).transport.inbuf == old(self).transport.inbuf,
            final(self).deadline == old(self).deadline,
            final(self).timeout == old(self).timeout,
            final(self).registered == old(self).registered,
            exists|k: int|
                0 <= k <= old(self).transport.outbuf@.len() && final(self).transport.outbuf@
                    == old(self).transport.outbuf@.skip(k),
            r matches Ok(b) ==> (b <==> final(self).transport.outbuf@.len() == 0),
            old(self).transport.outbuf@.len() == 0 ==> *final(self) == *old(self) && r
                == Result::<bool, ()>::Ok(true),
    {
        let ghost orig = self.transport.outbuf@;
        let ghost mut dropped: int = 0;
        loop
            invariant
                0 <= dropped <= orig.len(),
                self.transport.outbuf@ == orig.skip(dropped),
                self.transport.inbuf == old(self).transport.inbuf,
                self.deadline == old(self).deadline,
                self.timeout == old(self).timeout,
                self.registered == old(self).registered,
                orig == old(self).transport.outbuf@,
                orig.len() == 0 ==> *self == *old(self),
            decreases orig.len() - dropped,
        {
            if self.transport.outbuf.len() == 0 {
                return Ok(true);
            }
            let ghost before = self.transport.outbuf@;
            let ev = self.transport.sock.write_data(&self.transport.outbuf);
            match apply_write_event(&mut self.transport.outbuf, ev) {
                WriteStep::Progress => {
                    proof {
                        let k: int = before.len() - self.transport.outbuf@.len();
                        assert(orig.skip(dropped).skip(k) =~= orig.skip(dropped + k));
                        dropped = dropped + k;
                    }
                },
                WriteStep::Blocked => {
                    return Ok(self.transport.outbuf.len() == 0);
                },
                WriteStep::Failed => {
                    return Err(());
                },
            }
        }
    }

    /// The action loop. Drain output while the socket accepts it; inspect
    /// the expectation; on completion call the user back and start over
    /// with the request the callback returned; otherwise read once and
    /// re-inspect, park when the socket would block, and tear down (`Err`)
    /// on I/O errors, on half-close under `Bytes`/`Delimiter`, on a
    /// `BufferEof` overflow, on a failed timer re-registration, or when a
    /// callback returns `None`. A parked stream always comes back
    /// well-formed, with an expectation its buffers cannot satisfy; a
    /// doomed request (absent, or `BufferEof` already over its maximum) is
    /// torn down whatever the socket does; a `Sleep` request under the
    /// engine's own deadline with nothing left to write parks at once,
    /// untouched — no read, no callback, no timer operation.
    #[verifier::loop_isolation(false)]
    fn _action<C: Scope, P: Protocol<C, S>>(self, req: Request<P>, scope: &mut C) -> (r: Result<
        Stream<C, S, P>,
        (),
    >)
        requires
            self.wf(),
        ensures
            r matches Ok(s) ==> s.wf() && parked_ok(
                s.expectation,
                s.transport.inbuf@,
                s.transport.outbuf@.len() as int,
            ),
            entry_doomed(req, self.transport.inbuf@) ==> r is Err,
            req matches Some(t) ==> ((t.1 == Expectation::Sleep && t.2 == self.deadline
                && self.transport.outbuf@.len() == 0) ==> (r matches Ok(s) && s.fsm == t.0
                && s.expectation == Expectation::Sleep && s.deadline == self.deadline
                && s.timeout == self.timeout && s.transport == self.transport)),
    {
        let ghost doomed: bool = entry_doomed(req, self.transport.inbuf@);
        let mut myself = self;
        let (mut fsm, mut exp, mut dline) = match req {
            Some(t) => t,
            None => {
                return Err(());
            },
        };
        let ghost init_fsm = fsm;
        let ghost init_exp = exp;
        let ghost init_dline = dline;
        proof {
            assert(req == Some((init_fsm, init_exp, init_dline)));
        }
        let ghost sleeps: bool = init_exp == Expectation::Sleep && init_dline == self.deadline
            && self.transport.outbuf@.len() == 0;
        let mut can_write = match myself.write() {
            Ok(b) => b,
            Err(_) => {
                return Err(());
            },
        };
        // Each iteration either parks, tears down, reads once, or runs one
        // user callback. The budget keeps every event-loop turn finite; it
        // is far beyond what any run can reach, so exhausting it means the
        // protocol is spinning without progress, a protocol-policy
        // termination.
        let mut budget: u64 = u64::MAX;
        loop
            invariant
                myself.wf(),
                doomed ==> exp == init_exp && myself.transport.inbuf@ == self.transport.inbuf@
                    && budget > 0,
                sleeps ==> myself == self && fsm == init_fsm && exp == init_exp && dline
                    == init_dline && budget > 0,
            decreases budget,
        {
            if budget == 0 {
                return Err(());
            }
            budget = budget - 1;
            if can_write {
                can_write = match myself.write() {
                    Ok(b) => b,
                    Err(_) => {
                        return Err(());
                    },
                };
            }
            let outbuf_len = myself.transport.outbuf.len();
            match inspect(&exp, &myself.transport.inbuf, outbuf_len) {
                Inspection::Deliver(end) => {
                    let ghost gexp = exp;
                    match run_bytes_read(fsm, &mut myself.transport, end, scope, Ghost(gexp)) {
                        Some(t) => {
                            let (f, e, d) = t;
                            fsm = f;
                            exp = e;
                            dline = d;
                        },
                        None => {
                            return Err(());
                        },
                    }
                },
                Inspection::Flushed => {
                    let ghost gexp = exp;
                    match run_bytes_flushed(fsm, &mut myself.transport, scope, Ghost(gexp)) {
                        Some(t) => {
                            let (f, e, d) = t;
                            fsm = f;
                            exp = e;
                            dline = d;
                        },
                        None => {
                            return Err(());
                        },
                    }
                },
                Inspection::TooLong => {
                    let ghost gexp = exp;
                    match run_delimiter_not_found(fsm, &mut myself.transport, scope, Ghost(gexp)) {
                        Some(t) => {
                            let (f, e, d) = t;
                            fsm = f;
                            exp = e;
                            dline = d;
                        },
                        None => {
                            return Err(());
                        },
                    }
                },
                Inspection::Overflow => {
                    return Err(());
                },
                Inspection::Park => {
                    return Stream::compose(myself, (fsm, exp, dline), scope);
                },
                Inspection::NeedRead => {
                    match myself.read() {
                        IoOp::Done => {},
                        IoOp::NoOp => {
                            return Stream::compose(myself, (fsm, exp, dline), scope);
                        },
                        IoOp::Eof => {
                            if !eof_completes(&exp) {
                                return Err(());
                            }
                            let end = myself.transport.inbuf.len();
                            let ghost gexp = exp;
                            match run_bytes_read(
                                fsm,
                                &mut myself.transport,
                                end,
                                scope,
                                Ghost(gexp),
                            ) {
                                Some(t) => {
                                    let (f, e, d) = t;
                                    fsm = f;
                                    exp = e;
                                    dline = d;
                                },
                                None => {
                                    return Err(());
                                },
                            }
                        },
                        IoOp::Error => {
                            return Err(());
                        },
                    }
                },
            }
        }
    }

    /// Run the action loop; on teardown, cancel the stream's timer with the
    /// host before reporting the stream destroyed. An absent request, or a
    /// `BufferEof` already over its maximum, always comes back destroyed;
    /// a `Sleep` under the engine's own deadline with nothing left to
    /// write always comes back parked, untouched.
    pub fn action<C: Scope, P: Protocol<C, S>>(self, req: Request<P>, scope: &mut C) -> (r:
        Response<Stream<C, S, P>>)
        requires
            self.wf(),
        ensures
            r matches Response::Parked(s) ==> s.wf() && parked_ok(
                s.expectation,
                s.transport.inbuf@,
                s.transport.outbuf@.len() as int,
            ),
            entry_doomed(req, self.transport.inbuf@) ==> r is Done,
            req matches Some(t) ==> ((t.1 == Expectation::Sleep && t.2 == self.deadline
                && self.transport.outbuf@.len() == 0) ==> (r matches Response::Parked(s)
                && s.fsm == t.0 && s.expectation == Expectation::Sleep && s.deadline
                == self.deadline && s.timeout == self.timeout && s.transport
                == self.transport)),
    {
        let old_timeout = self.timeout;
        match self._action(req, scope) {
            Ok(x) => Response::Parked(x),
            Err(_) => {
                scope.clear_timeout(old_timeout);
                Response::Done
            },
        }
    }
}

/// The relative milliseconds a timer for the deadline `dline` needs when
/// the steady clock reads `now`: their difference, or zero when the
/// deadline has already passed, so that a stale deadline fires at once
/// rather than wrapping around.
pub fn relative_ms(dline: Deadline, now: Deadline) -> (ms: u64)
    ensures
        ms == if dline.millis > now.millis {
            (dline.millis - now.millis) as u64
        } else {
            0u64
        },
{
    if dline.millis > now.millis {
        dline.millis - now.millis
    } else {
        0
    }
}

/// Register a timer with the host for an absolute deadline: read the
/// steady clock, hand `timeout_ms` exactly `relative_ms(dline, now)`, and
/// pair the returned token with the deadline it was registered for — that
/// pairing is the fact a stream's well-formedness carries around. `None`
/// means the host rejected the timer.
fn register_deadline<C: Scope>(scope: &mut C, dline: Deadline) -> (r: Option<(u64, Ghost<
    Deadline,
>)>)
    ensures
        r matches Some(t) ==> t.1@ == dline,
{
    let now = scope.now();
    let ms = relative_ms(dline, now);
    match scope.timeout_ms(ms) {
        Some(token) => Some((token, Ghost(dline))),
        None => None,
    }
}

/// What one event-loop invocation leaves behind: the stream parked again,
/// or destroyed (socket dropped, timer cancelled).
pub enum Response<M> {
    Parked(M),
    Done,
}

/// A connection driven by the engine: the user protocol value, the current
/// expectation and deadline, the host's timer token, and the transport.
pub struct Stream<C, S, P> {
    pub fsm: P,
    pub expectation: Expectation,
    pub deadline: Deadline,
    pub timeout: u64,
    pub transport: Transport<S>,
    pub registered: Ghost<Deadline>,
    pub phantom: PhantomData<C>,
}

impl<C: Scope, S: StreamSocket, P: Protocol<C, S>> Stream<C, S, P> {
    /// The timer standing in the host registry for this stream was
    /// registered for exactly the deadline the stream holds.
    pub open spec fn wf(&self) -> bool {
        self.registered@ == self.deadline
    }

    fn decompose(self) -> (r: (P, Expectation, StreamImpl<S>))
        ensures
            r.0 == self.fsm,
            r.1 == self.expectation,
            r.2.transport == self.transport,
            r.2.deadline == self.deadline,
            r.2.timeout == self.timeout,
            r.2.registered == self.registered,
    {
        let Stream { fsm, expectation, deadline, timeout, transport, registered, phantom: _ } =
            self;
        (fsm, expectation, StreamImpl { transport, deadline, timeout, registered })
    }

    /// Re-assemble a stream around a request. Every path that consumes the
    /// old deadline either keeps its timer (deadline unchanged) or cancels
    /// it and registers one for the new deadline; if the host rejects the
    /// new timer the stream cannot keep its deadline guarantee and is torn
    /// down (`Err`).
    pub fn compose(implem: StreamImpl<S>, req: (P, Expectation, Deadline), scope: &mut C) -> (r:
        Result<Stream<C, S, P>, ()>)
        requires
            implem.wf(),
        ensures
            r matches Ok(s) ==> s.wf() && s.fsm == req.0 && s.expectation == req.1 && s.deadline
                == req.2 && s.transport == implem.transport && (req.2 == implem.deadline
                ==> s.timeout == implem.timeout),
            req.2 == implem.deadline ==> r is Ok,
    {
        let (fsm, exp, dline) = req;
        let mut token = implem.timeout;
        let mut registered = implem.registered;
        if dline != implem.deadline {
            scope.clear_timeout(token);
            match register_deadline(scope, dline) {
                Some(t) => {
                    token = t.0;
                    registered = t.1;
                },
                None => {
                    return Err(());
                },
            }
        }
        Ok(
            Stream {
                fsm,
                expectation: exp,
                deadline: dline,
                timeout: token,
                transport: implem.transport,
                registered,
                phantom: PhantomData,
            },
        )
    }

    /// Finish stream creation after the protocol's `create` has answered,
    /// around a socket that is already registered with the host. An absent
    /// request is exactly the protocol-stop error; a present one either
    /// assembles the stream around exactly the returned triple — handler,
    /// expectation, deadline, with the timer registered for that deadline
    /// and both buffers empty — or is exactly the timer error, when the
    /// host rejects the deadline.
    pub fn finish_create(sock: S, created: Request<P>, scope: &mut C) -> (r: Result<
        Stream<C, S, P>,
        StreamError,
    >)
        ensures
            created is None ==> r == Result::<Stream<C, S, P>, StreamError>::Err(
                StreamError::Stop(ProtocolStop),
            ),
            created matches Some(t) ==> match r {
                Ok(s) => s.wf() && s.fsm == t.0 && s.expectation == t.1 && s.deadline == t.2
                    && s.transport.sock == sock && s.transport.inbuf@.len() == 0
                    && s.transport.outbuf@.len() == 0,
                Err(e) => e == StreamError::Timer(TimerError),
            },
    {
        match created {
            None => Err(StreamError::Stop(ProtocolStop)),
            Some(t) => {
                let (m, exp, dline) = t;
                match register_deadline(scope, dline) {
                    None => Err(StreamError::Timer(TimerError)),
                    Some(timer) => Ok(
                        Stream {
                            fsm: m,
                            expectation: exp,
                            deadline: dline,
                            timeout: timer.0,
                            transport: Transport { sock, inbuf: Vec::new(), outbuf: Vec::new() },
                            registered: timer.1,
                            phantom: PhantomData,
                        },
                    ),
                }
            },
        }
    }

    /// Create a stream on an accepted socket: register the socket with the
    /// host — exactly once per stream lifetime, edge-triggered, with both
    /// interests — seed the protocol, and let `finish_create` map what
    /// `create` returned: its contract ties the stream to the returned
    /// triple and pins both construction errors. The two buffers start
    /// empty.
    pub fn new(sock: S, seed: P::Seed, scope: &mut C) -> (r: Result<Stream<C, S, P>, StreamError>)
        ensures
            r matches Ok(s) ==> s.wf() && s.transport.inbuf@.len() == 0
                && s.transport.outbuf@.len() == 0,
    {
        let mut sock = sock;
        if !sock.register() {
            return Err(StreamError::Register);
        }
        let created = P::create(seed, &mut sock, scope);
        Self::finish_create(sock, created, scope)
    }

    /// A readiness event from the host. The event set is advisory under an
    /// edge-triggered registration, so the engine always tries both
    /// directions: it resumes the action loop under the current
    /// expectation. A sleeping stream with nothing left to write parks
    /// again identically — same handler, expectation, deadline, timer
    /// token and buffers — with no callback, read, write or timer
    /// operation: the no-progress half of parked idempotence.
    pub fn ready(self, scope: &mut C) -> (r: Response<Stream<C, S, P>>)
        requires
            self.wf(),
        ensures
            r matches Response::Parked(s) ==> s.wf() && parked_ok(
                s.expectation,
                s.transport.inbuf@,
                s.transport.outbuf@.len() as int,
            ),
            self.expectation == Expectation::Sleep && self.transport.outbuf@.len() == 0 ==> (r
                matches Response::Parked(s) && s.fsm == self.fsm && s.expectation
                == self.expectation && s.deadline == self.deadline && s.timeout == self.timeout
                && s.transport == self.transport),
    {
        let (fsm, exp, imp) = self.decompose();
        let deadline = imp.deadline;
        imp.action(Some((fsm, exp, deadline)), scope)
    }

    /// A timer event from the host, stamped with the current steady-clock
    /// time. A fire before the deadline is spurious: no user callback runs
    /// and the stream is returned unchanged. At or past the deadline the
    /// user's `timeout` callback decides what happens next.
    pub fn timeout_at(self, now: Deadline, scope: &mut C) -> (r: Response<Stream<C, S, P>>)
        requires
            self.wf(),
        ensures
            now.millis < self.deadline.millis ==> r == Response::Parked(self),
            r matches Response::Parked(s) ==> s.wf() && (now.millis >= self.deadline.millis
                ==> parked_ok(
                s.expectation,
                s.transport.inbuf@,
                s.transport.outbuf@.len() as int,
            )),
    {
        if now.millis >= self.deadline.millis {
            let (fsm, _exp, mut imp) = self.decompose();
            let res = fsm.timeout(imp.transport(), scope);
            imp.action(res, scope)
        } else {
            Response::Parked(self)
        }
    }

    /// A timer event from the host: reads the steady clock and lets
    /// `timeout_at` decide. A parked result is either the stream unchanged
    /// (a spurious fire) or a re-parked stream with an unsatisfiable
    /// expectation.
    pub fn timeout(self, scope: &mut C) -> (r: Response<Stream<C, S, P>>)
        requires
            self.wf(),
        ensures
            r matches Response::Parked(s) ==> s.wf() && (s == self || parked_ok(
                s.expectation,
                s.transport.inbuf@,
                s.transport.outbuf@.len() as int,
            )),
    {
        let now = scope.now();
        self.timeout_at(now, scope)
    }

    /// An external wakeup message: unconditionally call the user's `wakeup`
    /// callback and resume the action loop with what it returns.
    pub fn wakeup(self, scope: &mut C) -> (r: Response<Stream<C, S, P>>)
        requires
            self.wf(),
        ensures
            r matches Response::Parked(s) ==> s.wf() && parked_ok(
                s.expectation,
                s.transport.inbuf@,
                s.transport.outbuf@.len() as int,
            ),
    {
        let (fsm, _exp, mut imp) = self.decompose();
        let res = fsm.wakeup(imp.transport(), scope);
        imp.action(res, scope)
    }
}

impl<C: Scope, S: StreamSocket, P: Protocol<C, S, Seed = ()>> Stream<C, S, P> {
    /// The accepted-connection entry point for protocols whose seed is the
    /// unit value.
    pub fn accepted(sock: S, scope: &mut C) -> (r: Result<Stream<C, S, P>, StreamError>)
        ensures
            r matches Ok(s) ==> s.wf() && s.transport.inbuf@.len() == 0
                && s.transport.outbuf@.len() == 0,
    {
        Self::new(sock, (), scope)
    }
}

/// The protocol returned `None` (stop) right at the start of stream
/// processing.
#[derive(Debug, Clone, Copy, PartialEq, Eq, Structural)]
pub struct ProtocolStop;

impl ProtocolStop {
    pub fn description(&self) -> &'static str {
        "Protocol returned None (which means \"stop\") at start"
    }
}

/// The host rejected the timer at stream creation: too many timers in the
/// event loop, or a deadline too far in the future.
#[derive(Debug, Clone, Copy, PartialEq, Eq, Structural)]
pub struct TimerError;

impl TimerError {
    pub fn description(&self) -> &'static str {
        "Can't insert timer, probably too much timers or time is too far away"
    }
}

/// The failures that can escape stream construction; everything after
/// construction collapses to parked or destroyed.
#[derive(Debug, Clone, Copy, PartialEq, Eq, Structural)]
pub enum StreamError {
    /// The protocol stopped immediately.
    Stop(ProtocolStop),
    /// The host rejected the requested deadline.
    Timer(TimerError),
    /// The host rejected the socket registration.
    Register,
}

} // verus!
