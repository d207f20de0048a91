//! The decisions of the relay loop: which events to wait for, when to stop,
//! and what each reported event does to the descriptors and the buffers.
//! The caller waits on the descriptors with `poll(2)` between the steps.
use vstd::prelude::*;
use crate::buffer::{Buffer, Read, Write, Socket, Device, IoResult, filled, drained, fill_outcome, drain_outcome,
    lemma_empty_buffer_has_full_room, lemma_pending_within_capacity};
use crate::poll::{PollEvent, PollFd, NOPOLLFD, POLLIN, POLLOUT, POLLHUP, POLLERR, POLLNVAL, has_all};
use crate::poll::lemma_insert_into_empty;

verus! {

/// The size of each of the two relay buffers.
pub const BUFFER_SIZE: usize = 65536;

/// The state of one relay between standard input/output and a stream.
pub struct Relay {
    /// Standard input, read into `buf_stdin`.
    pub stdin: PollFd,
    /// The stream as the destination of `buf_stdin`.
    pub netout: PollFd,
    /// The stream as the source of `buf_netin`.
    pub netin: PollFd,
    /// Standard output, the destination of `buf_netin`.
    pub stdout: PollFd,
    /// Bytes read from the stream, waiting for standard output.
    pub buf_netin: Buffer,
    /// Bytes read from standard input, waiting for the stream.
    pub buf_stdin: Buffer,
    /// Listen mode: the relay ends when the stream's input ends.
    pub listen: bool,
    /// Shut the stream's write side down once standard input is done.
    pub shutdown: bool,
}

/// The slot has been given up.
pub open spec fn is_closed(p: PollFd) -> bool {
    p.fd == NOPOLLFD
}

/// The slot reports a hang-up with nothing left to read.
pub open spec fn hung_up(p: PollFd) -> bool {
    has_all(p.revents@, POLLHUP) && !has_all(p.revents@, POLLIN)
}

/// The slot reports that it can be read.
pub open spec fn readable(p: PollFd) -> bool {
    has_all(p.revents@, POLLIN)
}

/// The slot reports that it can be written.
pub open spec fn writable(p: PollFd) -> bool {
    has_all(p.revents@, POLLOUT)
}

/// Two slots differ at most in their descriptor.
pub open spec fn same_but_fd(a: PollFd, b: PollFd) -> bool {
    a.events == b.events && a.revents == b.revents
}

/// When the relay is done: both inputs are gone with nothing left to write,
/// or both outputs are gone, or (in listen mode) the stream's input is gone
/// with nothing left to write.
pub open spec fn finished(r: Relay) -> bool {
    ||| is_closed(r.netin) && is_closed(r.stdin) && r.buf_netin@.len() == 0
        && r.buf_stdin@.len() == 0
    ||| is_closed(r.netout) && is_closed(r.stdout)
    ||| r.listen && is_closed(r.netin) && r.buf_netin@.len() == 0 && r.buf_stdin@.len() == 0
}

/// The events to wait for: read a source only into an empty buffer,
/// write a destination only from a non-empty one.
pub open spec fn planned_events(r: Relay) -> bool {
    &&& r.netin.events@ == (if r.buf_netin@.len() == 0 { POLLIN } else { 0 })
    &&& r.stdout.events@ == (if r.buf_netin@.len() == 0 { 0 } else { POLLOUT })
    &&& r.stdin.events@ == (if r.buf_stdin@.len() == 0 { POLLIN } else { 0 })
    &&& r.netout.events@ == (if r.buf_stdin@.len() == 0 { 0 } else { POLLOUT })
}

/// A slot that was closed is still closed.
pub open spec fn stays_closed(a: PollFd, b: PollFd) -> bool {
    is_closed(a) ==> is_closed(b)
}

/// One round of a direction, with `mid` the buffer after the read step:
/// when its source was reported readable, `read` bytes were appended and a
/// read of none gave the source up; otherwise the buffer was untouched and
/// the source was given up if it hung up. When its destination was reported
/// writable, its first `written` bytes left.
pub open spec fn pass_through(
    src: PollFd,
    dst: PollFd,
    old_buf: Buffer,
    mid: Buffer,
    read: nat,
    new_src_fd: i32,
    written: nat,
    new_buf: Buffer,
) -> bool {
    &&& if readable(src) {
        filled(old_buf, mid, read) && new_src_fd == (if read == 0 { NOPOLLFD } else { src.fd })
    } else {
        mid == old_buf && new_src_fd == (if hung_up(src) { NOPOLLFD } else { src.fd })
    }
    &&& if writable(dst) {
        drained(mid, new_buf, written)
    } else {
        new_buf == mid
    }
}

/// A direction's round took the source descriptor to `new_src_fd` and the
/// buffer to `new_buf`, for some counts of bytes read and written.
pub open spec fn moved_through(src: PollFd, dst: PollFd, old_buf: Buffer, new_src_fd: i32, new_buf: Buffer) -> bool {
    exists|mid: Buffer, read: nat, written: nat|
        #[trigger] pass_through(src, dst, old_buf, mid, read, new_src_fd, written, new_buf)
}

/// How many times the stream's write side is shut down at the end of a
/// round: once for a hang-up of the stream, once more for standard input
/// being done, each only with the shutdown flag.
pub open spec fn shutdown_count(shutdown: bool, hung_up_out: bool, stdin_done: bool) -> nat {
    (if shutdown && hung_up_out { 1nat } else { 0nat }) + (if shutdown && stdin_done { 1nat } else { 0nat })
}

/// A full round from `old` to `new` that asks for `shut` shutdowns: both
/// directions moved bytes as reported, then the outputs that can no longer
/// be served were given up, and the stream's write side is shut down once
/// per reason to, with the shutdown flag.
pub open spec fn completed_round(old: Relay, new: Relay, shut: u8) -> bool {
    &&& moved_through(old.stdin, old.netout, old.buf_stdin, new.stdin.fd, new.buf_stdin)
    &&& moved_through(old.netin, old.stdout, old.buf_netin, new.netin.fd, new.buf_netin)
    &&& new.netout.fd == (if has_all(old.netout.revents@, POLLHUP)
        || (is_closed(new.stdin) && new.buf_stdin@.len() == 0) {
        NOPOLLFD
    } else {
        old.netout.fd
    })
    &&& new.stdout.fd == (if is_closed(new.netin) && new.buf_netin@.len() == 0 {
        NOPOLLFD
    } else {
        old.stdout.fd
    })
    &&& shut == shutdown_count(old.shutdown, has_all(old.netout.revents@, POLLHUP),
        is_closed(new.stdin) && new.buf_stdin@.len() == 0)
}

/// Bytes are conserved across a direction's round: its source delivered
/// more bytes (`p0` to `p1`), its destination took more (`a0` to `a1`), and
/// what was taken plus what is pending grew by exactly what was delivered.
pub open spec fn conserves(p0: Seq<u8>, p1: Seq<u8>, a0: Seq<u8>, a1: Seq<u8>, q0: Seq<u8>, q1: Seq<u8>) -> bool {
    &&& p1.len() >= p0.len() && p1.take(p0.len() as int) == p0
    &&& a1.len() >= a0.len() && a1.take(a0.len() as int) == a0
    &&& a1 + q1 == a0 + q0 + p1.skip(p0.len() as int)
}

/// The three devices keep their models.
pub open spec fn models_kept<I: Read, S: Socket, O: Write>(i: I, s: S, o: O) -> bool {
    i.keeps_model() && s.keeps_model() && o.keeps_model()
}

/// A log grew by one call, offered `offered`, when `called`; else it is unchanged.
pub open spec fn logged<T>(l0: Seq<(T, IoResult)>, l1: Seq<(T, IoResult)>, called: bool, offered: T) -> bool {
    if called {
        l1.len() == l0.len() + 1 && l1.take(l0.len() as int) == l0 && l1.last().0 == offered
    } else {
        l1 == l0
    }
}

/// No call was logged, or the one logged succeeded.
pub open spec fn call_ok<T>(l0: Seq<(T, IoResult)>, l1: Seq<(T, IoResult)>) -> bool {
    l1 == l0 || l1.last().1 is Ok
}

/// A call was logged and failed with `e`.
pub open spec fn call_failed<T>(l0: Seq<(T, IoResult)>, l1: Seq<(T, IoResult)>, e: std::io::Error) -> bool {
    l1.len() > l0.len() && l1.last().1 == IoResult::Err(e)
}

/// The device calls of a round, in order: standard input is read (offered
/// all free room of `buf_stdin`) if reported readable; the stream is
/// written (offered all of `buf_stdin`) if reported writable and nothing
/// failed before; the stream is read (offered all free room of `buf_netin`)
/// if reported readable and nothing failed before; standard output is
/// written (offered all of `buf_netin`) if reported writable and nothing
/// failed before. The round fails exactly when a call failed, with that
/// call's error.
pub open spec fn round_calls<I: Read, S: Socket, O: Write>(
    r0: Relay, i0: I, i1: I, s0: S, s1: S, o0: O, o1: O, r: Result<u8, std::io::Error>,
) -> bool {
    let ok1 = call_ok(i0.read_log(), i1.read_log());
    let ok2 = call_ok(s0.write_log(), s1.write_log());
    let ok3 = call_ok(s0.read_log(), s1.read_log());
    let ok4 = call_ok(o0.write_log(), o1.write_log());
    &&& logged(i0.read_log(), i1.read_log(), readable(r0.stdin), r0.buf_stdin.room())
    &&& logged(s0.write_log(), s1.write_log(), ok1 && writable(r0.netout),
        r0.buf_stdin@ + i1.produced().skip(i0.produced().len() as int))
    &&& logged(s0.read_log(), s1.read_log(), ok1 && ok2 && readable(r0.netin), r0.buf_netin.room())
    &&& logged(o0.write_log(), o1.write_log(), ok1 && ok2 && ok3 && writable(r0.stdout),
        r0.buf_netin@ + s1.produced().skip(s0.produced().len() as int))
    &&& i1.write_log() == i0.write_log() && i1.accepted() == i0.accepted()
    &&& o1.read_log() == o0.read_log() && o1.produced() == o0.produced()
    &&& (r is Ok <==> ok1 && ok2 && ok3 && ok4)
    &&& (r matches Err(e) ==> call_failed(i0.read_log(), i1.read_log(), e)
        || call_failed(s0.write_log(), s1.write_log(), e) || call_failed(s0.read_log(), s1.read_log(), e)
        || call_failed(o0.write_log(), o1.write_log(), e))
}

impl Relay {
    /// Both buffers are well formed.
    pub open spec fn wf(&self) -> bool {
        self.buf_netin.wf() && self.buf_stdin.wf()
    }

    /// A relay before its first round: both inputs are waited on for reading,
    /// both buffers are empty.
    pub fn new(stdin_fd: i32, stream_fd: i32, stdout_fd: i32, listen: bool, shutdown: bool) -> (r: Relay)
        ensures
            r.wf(),
            r.stdin.fd == stdin_fd && r.netout.fd == stream_fd && r.netin.fd == stream_fd
                && r.stdout.fd == stdout_fd,
            r.stdin.events@ == POLLIN && r.netout.events@ == 0 && r.netin.events@ == POLLIN
                && r.stdout.events@ == 0,
            r.stdin.revents@ == 0 && r.netout.revents@ == 0 && r.netin.revents@ == 0
                && r.stdout.revents@ == 0,
            r.buf_netin@.len() == 0 && r.buf_netin.capacity() == BUFFER_SIZE
                && r.buf_netin.room() == BUFFER_SIZE,
            r.buf_stdin@.len() == 0 && r.buf_stdin.capacity() == BUFFER_SIZE
                && r.buf_stdin.room() == BUFFER_SIZE,
            r.listen == listen && r.shutdown == shutdown,
    {
        Relay {
            stdin: PollFd { fd: stdin_fd, events: PollEvent::pollin(), revents: PollEvent::empty() },
            netout: PollFd { fd: stream_fd, events: PollEvent::empty(), revents: PollEvent::empty() },
            netin: PollFd { fd: stream_fd, events: PollEvent::pollin(), revents: PollEvent::empty() },
            stdout: PollFd { fd: stdout_fd, events: PollEvent::empty(), revents: PollEvent::empty() },
            buf_netin: Buffer::new(BUFFER_SIZE),
            buf_stdin: Buffer::new(BUFFER_SIZE),
            listen,
            shutdown,
        }
    }

    /// The four slots in the order handed to `poll(2)`:
    /// standard input, stream output, stream input, standard output.
    pub fn poll_fds(&self) -> (v: Vec<PollFd>)
        ensures
            v@ == seq![self.stdin, self.netout, self.netin, self.stdout],
    {
        let mut v: Vec<PollFd> = Vec::new();
        v.push(self.stdin);
        v.push(self.netout);
        v.push(self.netin);
        v.push(self.stdout);
        assert(v@ =~= seq![self.stdin, self.netout, self.netin, self.stdout]);
        v
    }

    /// Records the events that `poll(2)` reported, slot by slot.
    pub fn record_revents(&mut self, stdin: PollEvent, netout: PollEvent, netin: PollEvent, stdout: PollEvent)
        ensures
            final(self).stdin == (PollFd { revents: stdin, ..old(self).stdin }),
            final(self).netout == (PollFd { revents: netout, ..old(self).netout }),
            final(self).netin == (PollFd { revents: netin, ..old(self).netin }),
            final(self).stdout == (PollFd { revents: stdout, ..old(self).stdout }),
            final(self).buf_netin == old(self).buf_netin,
            final(self).buf_stdin == old(self).buf_stdin,
            final(self).listen == old(self).listen,
            final(self).shutdown == old(self).shutdown,
    {
        self.stdin.revents = stdin;
        self.netout.revents = netout;
        self.netin.revents = netin;
        self.stdout.revents = stdout;
    }

    /// Sets the events to wait for, and says whether the relay goes on.
    pub fn plan(&mut self) -> (go_on: bool)
        requires
            old(self).wf(),
        ensures
            final(self).wf(),
            planned_events(*final(self)),
            go_on == !finished(*old(self)),
            old(self).listen && is_closed(old(self).netin) && old(self).buf_netin@.len() == 0
                && old(self).buf_stdin@.len() == 0 ==> !go_on,
            is_closed(old(self).netout) && is_closed(old(self).stdout) ==> !go_on,
            is_closed(old(self).netin) && is_closed(old(self).stdin) && old(self).buf_netin@.len() == 0
                && old(self).buf_stdin@.len() == 0 ==> !go_on,
            !go_on ==> (is_closed(old(self).netout) && is_closed(old(self).stdout))
                || (is_closed(old(self).netin) && old(self).buf_netin@.len() == 0 && old(self).buf_stdin@.len() == 0),
            final(self).netin.events@ == (if old(self).buf_netin@.len() == 0 { POLLIN } else { 0 }),
            final(self).stdout.events@ == (if old(self).buf_netin@.len() == 0 { 0 } else { POLLOUT }),
            final(self).stdin.events@ == (if old(self).buf_stdin@.len() == 0 { POLLIN } else { 0 }),
            final(self).netout.events@ == (if old(self).buf_stdin@.len() == 0 { 0 } else { POLLOUT }),
            final(self).stdin.fd == old(self).stdin.fd,
            final(self).netout.fd == old(self).netout.fd,
            final(self).netin.fd == old(self).netin.fd,
            final(self).stdout.fd == old(self).stdout.fd,
            final(self).stdin.revents == old(self).stdin.revents,
            final(self).netout.revents == old(self).netout.revents,
            final(self).netin.revents == old(self).netin.revents,
            final(self).stdout.revents == old(self).stdout.revents,
            final(self).buf_netin == old(self).buf_netin,
            final(self).buf_stdin == old(self).buf_stdin,
            final(self).listen == old(self).listen,
            final(self).shutdown == old(self).shutdown,
    {
        self.stdin.events.clear();
        self.netout.events.clear();
        self.netin.events.clear();
        self.stdout.events.clear();
        proof {
            lemma_insert_into_empty(POLLIN);
            lemma_insert_into_empty(POLLOUT);
        }
        if self.buf_netin.empty() {
            self.netin.events.insert(PollEvent::pollin());
        } else {
            self.stdout.events.insert(PollEvent::pollout());
        }
        if self.buf_stdin.empty() {
            self.stdin.events.insert(PollEvent::pollin());
        } else {
            self.netout.events.insert(PollEvent::pollout());
        }
        // Both inputs are gone and nothing is left to write.
        if self.netin.fd == NOPOLLFD && self.stdin.fd == NOPOLLFD && self.buf_netin.empty()
            && self.buf_stdin.empty() {
            return false;
        }
        // Both outputs are gone: nothing can be written any more.
        if self.netout.fd == NOPOLLFD && self.stdout.fd == NOPOLLFD {
            return false;
        }
        // In listen mode, the stream's input is gone and nothing is left to write.
        if self.listen && self.netin.fd == NOPOLLFD && self.buf_netin.empty()
            && self.buf_stdin.empty() {
            return false;
        }
        true
    }

    /// Gives up an input that hung up with nothing left to read.
    /// Reading stays possible after a hang-up while data is reported.
    pub fn note_hangups(&mut self)
        ensures
            final(self).stdin.fd == (if hung_up(old(self).stdin) { NOPOLLFD } else { old(self).stdin.fd }),
            final(self).netin.fd == (if hung_up(old(self).netin) { NOPOLLFD } else { old(self).netin.fd }),
            same_but_fd(final(self).stdin, old(self).stdin),
            same_but_fd(final(self).netin, old(self).netin),
            final(self).netout == old(self).netout,
            final(self).stdout == old(self).stdout,
            final(self).buf_netin == old(self).buf_netin,
            final(self).buf_stdin == old(self).buf_stdin,
            final(self).listen == old(self).listen,
            final(self).shutdown == old(self).shutdown,
    {
        if self.stdin.revents.contains(PollEvent::pollhup())
            && !self.stdin.revents.contains(PollEvent::pollin()) {
            self.stdin.fd = NOPOLLFD;
        }
        if self.netin.revents.contains(PollEvent::pollhup())
            && !self.netin.revents.contains(PollEvent::pollin()) {
            self.netin.fd = NOPOLLFD;
        }
    }

    /// Reads standard input into `buf_stdin` when it is reported readable;
    /// a read of no byte is the end of standard input.
    pub fn read_stdin<I: Read>(&mut self, input: &mut I) -> (r: Result<usize, std::io::Error>)
        requires
            old(self).wf(),
        ensures
            final(self).wf(),
            same_but_fd(final(self).stdin, old(self).stdin),
            final(self).netout == old(self).netout,
            final(self).netin == old(self).netin,
            final(self).stdout == old(self).stdout,
            final(self).buf_netin == old(self).buf_netin,
            final(self).listen == old(self).listen,
            final(self).shutdown == old(self).shutdown,
            !readable(old(self).stdin) ==> (r matches Ok(n) && n == 0)
                && final(self).stdin.fd == old(self).stdin.fd
                && final(self).buf_stdin == old(self).buf_stdin
                && *final(input) == *old(input),
            readable(old(self).stdin) ==> fill_outcome(*old(input), *final(input), old(self).buf_stdin,
                final(self).buf_stdin, r)
                && final(self).stdin.fd == (if r matches Ok(n) && n == 0 { NOPOLLFD } else { old(self).stdin.fd }),
    {
        if self.stdin.revents.contains(PollEvent::pollin()) {
            match input.fill(&mut self.buf_stdin) {
                Ok(len) => {
                    if len == 0 {
                        self.stdin.fd = NOPOLLFD;
                    }
                    Ok(len)
                },
                Err(e) => Err(e),
            }
        } else {
            Ok(0)
        }
    }

    /// Writes `buf_stdin` to the stream when the stream is reported writable.
    pub fn write_network<S: Write>(&mut self, stream: &mut S) -> (r: Result<usize, std::io::Error>)
        requires
            old(self).wf(),
        ensures
            final(self).wf(),
            final(self).stdin == old(self).stdin,
            final(self).netout == old(self).netout,
            final(self).netin == old(self).netin,
            final(self).stdout == old(self).stdout,
            final(self).buf_netin == old(self).buf_netin,
            final(self).listen == old(self).listen,
            final(self).shutdown == old(self).shutdown,
            !writable(old(self).netout) ==> (r matches Ok(n) && n == 0)
                && final(self).buf_stdin == old(self).buf_stdin
                && *final(stream) == *old(stream),
            writable(old(self).netout) ==> drain_outcome(*old(stream), *final(stream), old(self).buf_stdin,
                final(self).buf_stdin, r),
    {
        if self.netout.revents.contains(PollEvent::pollout()) {
            stream.drain(&mut self.buf_stdin)
        } else {
            Ok(0)
        }
    }

    /// Reads the stream into `buf_netin` when it is reported readable;
    /// a read of no byte is the end of the stream's input.
    pub fn read_network<S: Read>(&mut self, stream: &mut S) -> (r: Result<usize, std::io::Error>)
        requires
            old(self).wf(),
        ensures
            final(self).wf(),
            same_but_fd(final(self).netin, old(self).netin),
            final(self).stdin == old(self).stdin,
            final(self).netout == old(self).netout,
            final(self).stdout == old(self).stdout,
            final(self).buf_stdin == old(self).buf_stdin,
            final(self).listen == old(self).listen,
            final(self).shutdown == old(self).shutdown,
            !readable(old(self).netin) ==> (r matches Ok(n) && n == 0)
                && final(self).netin.fd == old(self).netin.fd
                && final(self).buf_netin == old(self).buf_netin
                && *final(stream) == *old(stream),
            readable(old(self).netin) ==> fill_outcome(*old(stream), *final(stream), old(self).buf_netin,
                final(self).buf_netin, r)
                && final(self).netin.fd == (if r matches Ok(n) && n == 0 { NOPOLLFD } else { old(self).netin.fd }),
    {
        if self.netin.revents.contains(PollEvent::pollin()) {
            match stream.fill(&mut self.buf_netin) {
                Ok(len) => {
                    if len == 0 {
                        self.netin.fd = NOPOLLFD;
                    }
                    Ok(len)
                },
                Err(e) => Err(e),
            }
        } else {
            Ok(0)
        }
    }

    /// Writes `buf_netin` to standard output when it is reported writable.
    pub fn write_stdout<O: Write>(&mut self, output: &mut O) -> (r: Result<usize, std::io::Error>)
        requires
            old(self).wf(),
        ensures
            final(self).wf(),
            final(self).stdin == old(self).stdin,
            final(self).netout == old(self).netout,
            final(self).netin == old(self).netin,
            final(self).stdout == old(self).stdout,
            final(self).buf_stdin == old(self).buf_stdin,
            final(self).listen == old(self).listen,
            final(self).shutdown == old(self).shutdown,
            !writable(old(self).stdout) ==> (r matches Ok(n) && n == 0)
                && final(self).buf_netin == old(self).buf_netin
                && *final(output) == *old(output),
            writable(old(self).stdout) ==> drain_outcome(*old(output), *final(output), old(self).buf_netin,
                final(self).buf_netin, r),
    {
        if self.stdout.revents.contains(PollEvent::pollout()) {
            output.drain(&mut self.buf_netin)
        } else {
            Ok(0)
        }
    }

    /// Gives up the outputs that can no longer be served, and says how many
    /// times the stream's write side is to be shut down now.
    pub fn finish_round(&mut self) -> (shut: u8)
        requires
            old(self).wf(),
        ensures
            final(self).wf(),
            shut == shutdown_count(old(self).shutdown, has_all(old(self).netout.revents@, POLLHUP),
                is_closed(old(self).stdin) && old(self).buf_stdin@.len() == 0),
            !old(self).shutdown ==> shut == 0,
            old(self).shutdown ==> shut == (if has_all(old(self).netout.revents@, POLLHUP) { 1u8 } else { 0u8 })
                + (if is_closed(old(self).stdin) && old(self).buf_stdin@.len() == 0 { 1u8 } else { 0u8 }),
            final(self).netout.fd == (if has_all(old(self).netout.revents@, POLLHUP)
                || (is_closed(old(self).stdin) && old(self).buf_stdin@.len() == 0) {
                NOPOLLFD
            } else {
                old(self).netout.fd
            }),
            final(self).stdout.fd == (if is_closed(old(self).netin) && old(self).buf_netin@.len() == 0 {
                NOPOLLFD
            } else {
                old(self).stdout.fd
            }),
            same_but_fd(final(self).netout, old(self).netout),
            same_but_fd(final(self).stdout, old(self).stdout),
            final(self).stdin == old(self).stdin,
            final(self).netin == old(self).netin,
            final(self).buf_netin == old(self).buf_netin,
            final(self).buf_stdin == old(self).buf_stdin,
            final(self).listen == old(self).listen,
            final(self).shutdown == old(self).shutdown,
    {
        let mut shut: u8 = 0;
        // The stream hung up: nothing more can be sent.
        if self.netout.revents.contains(PollEvent::pollhup()) {
            if self.shutdown {
                shut = shut + 1;
            }
            self.netout.fd = NOPOLLFD;
        }
        // Standard input is gone and all of it was sent.
        if self.stdin.fd == NOPOLLFD && self.buf_stdin.empty() {
            if self.shutdown {
                shut = shut + 1;
            }
            self.netout.fd = NOPOLLFD;
        }
        // The stream's input is gone and all of it was written out.
        if self.netin.fd == NOPOLLFD && self.buf_netin.empty() {
            self.stdout.fd = NOPOLLFD;
        }
        shut
    }

    /// One round after `poll(2)` reported events: gives up hung-up inputs,
    /// moves bytes standard input -> stream -> ... -> standard output where
    /// reported possible, then gives up outputs that can no longer be served.
    /// Says how many times the stream's write side is to be shut down now. It fails
    /// only when a device that was reported ready failed.
    pub fn handle<I: Read, S: Socket, O: Write>(
        &mut self,
        input: &mut I,
        stream: &mut S,
        output: &mut O,
    ) -> (r: Result<u8, std::io::Error>)
        requires
            old(self).wf(),
        ensures
            final(self).wf(),
            stays_closed(old(self).stdin, final(self).stdin),
            stays_closed(old(self).netout, final(self).netout),
            stays_closed(old(self).netin, final(self).netin),
            stays_closed(old(self).stdout, final(self).stdout),
            same_but_fd(final(self).stdin, old(self).stdin),
            same_but_fd(final(self).netout, old(self).netout),
            same_but_fd(final(self).netin, old(self).netin),
            same_but_fd(final(self).stdout, old(self).stdout),
            final(self).buf_netin.capacity() == old(self).buf_netin.capacity(),
            final(self).buf_stdin.capacity() == old(self).buf_stdin.capacity(),
            final(self).listen == old(self).listen,
            final(self).shutdown == old(self).shutdown,
            r matches Ok(shut) ==> completed_round(*old(self), *final(self), shut),
            r is Err ==> readable(old(self).stdin) || writable(old(self).netout)
                || readable(old(self).netin) || writable(old(self).stdout),
            models_kept(*old(input), *old(stream), *old(output)) ==> {
                &&& models_kept(*final(input), *final(stream), *final(output))
                &&& round_calls(*old(self), *old(input), *final(input), *old(stream), *final(stream),
                    *old(output), *final(output), r)
                &&& conserves(old(input).produced(), final(input).produced(), old(stream).accepted(),
                    final(stream).accepted(), old(self).buf_stdin@, final(self).buf_stdin@)
                &&& conserves(old(stream).produced(), final(stream).produced(), old(output).accepted(),
                    final(output).accepted(), old(self).buf_netin@, final(self).buf_netin@)
            },
    {
        broadcast use lemma_push_keeps_prefix;
        let ghost i0 = *input;
        let ghost s0 = *stream;
        let ghost o0 = *output;
        self.note_hangups();
        let ghost b0 = self.buf_stdin;
        let ghost n0 = self.buf_netin;
        let r1 = self.read_stdin(input);
        proof {
            if models_kept(i0, s0, o0) {
                lemma_read_part(i0.produced(), input.produced(), b0@, self.buf_stdin@, r1);
                lemma_conserves_refl(s0.produced(), o0.accepted(), n0@);
            }
        }
        let read_in = match r1 {
            Ok(n) => n,
            Err(e) => {
                assert(s0.read_log() == stream.read_log());
                return Err(e);
            },
        };
        let ghost i1 = *input;
        let ghost mid_stdin = self.buf_stdin;
        let r2 = self.write_network(stream);
        proof {
            if models_kept(i0, s0, o0) {
                lemma_write_part(s0.accepted(), stream.accepted(), mid_stdin@, self.buf_stdin@, r2);
                lemma_conserves_trans(i0.produced(), i1.produced(), i1.produced(), s0.accepted(),
                    s0.accepted(), stream.accepted(), b0@, mid_stdin@, self.buf_stdin@);
            }
        }
        let sent = match r2 {
            Ok(n) => n,
            Err(e) => return Err(e),
        };
        let ghost s1 = *stream;
        let r3 = self.read_network(stream);
        proof {
            if models_kept(i0, s0, o0) {
                lemma_read_part(s1.produced(), stream.produced(), n0@, self.buf_netin@, r3);
            }
        }
        let read_net = match r3 {
            Ok(n) => n,
            Err(e) => return Err(e),
        };
        let ghost s2 = *stream;
        let ghost mid_netin = self.buf_netin;
        let r4 = self.write_stdout(output);
        proof {
            if models_kept(i0, s0, o0) {
                lemma_write_part(o0.accepted(), output.accepted(), mid_netin@, self.buf_netin@, r4);
                lemma_conserves_trans(s0.produced(), s2.produced(), s2.produced(), o0.accepted(),
                    o0.accepted(), output.accepted(), n0@, mid_netin@, self.buf_netin@);
            }
        }
        let written = match r4 {
            Ok(n) => n,
            Err(e) => return Err(e),
        };
        let shut = self.finish_round();
        assert(pass_through(old(self).stdin, old(self).netout, old(self).buf_stdin, mid_stdin,
            read_in as nat, self.stdin.fd, sent as nat, self.buf_stdin));
        assert(pass_through(old(self).netin, old(self).stdout, old(self).buf_netin, mid_netin,
            read_net as nat, self.netin.fd, written as nat, self.buf_netin));
        Ok(shut)
    }
}

/// A log with one more call still starts with the calls before it.
pub broadcast proof fn lemma_push_keeps_prefix<T>(l: Seq<T>, x: T)
    ensures
        #[trigger] l.push(x).take(l.len() as int) == l,
{
    assert(l.push(x).take(l.len() as int) =~= l);
}

/// Nothing moved: bytes are conserved.
proof fn lemma_conserves_refl(p: Seq<u8>, a: Seq<u8>, q: Seq<u8>)
    ensures
        conserves(p, p, a, a, q, q),
{
    assert(p.take(p.len() as int) =~= p);
    assert(a.take(a.len() as int) =~= a);
    assert(p.skip(p.len() as int) =~= Seq::<u8>::empty());
    assert(a + q + Seq::<u8>::empty() =~= a + q);
}

/// A read step: the buffer grew by exactly what the source delivered.
proof fn lemma_read_part(p0: Seq<u8>, p1: Seq<u8>, q0: Seq<u8>, q1: Seq<u8>, r: IoResult)
    requires
        (q1 == q0 && p1 == p0) || (q1.len() >= q0.len() && q1.take(q0.len() as int) == q0
            && p1 == p0 + q1.skip(q0.len() as int)),
    ensures
        q1 == q0 + p1.skip(p0.len() as int),
        forall|a: Seq<u8>| #[trigger] conserves(p0, p1, a, a, q0, q1),
{
    if q1 == q0 && p1 == p0 {
        assert(p1.skip(p0.len() as int) =~= Seq::<u8>::empty());
        assert(q0 + Seq::<u8>::empty() =~= q0);
    } else {
        assert(p1.skip(p0.len() as int) =~= q1.skip(q0.len() as int));
        assert(q1 =~= q0 + q1.skip(q0.len() as int));
    }
    assert(p1.take(p0.len() as int) =~= p0);
    assert forall|a: Seq<u8>| #[trigger] conserves(p0, p1, a, a, q0, q1) by {
        assert(a.take(a.len() as int) =~= a);
        assert(a + q1 =~= a + q0 + p1.skip(p0.len() as int));
    }
}

/// A write step: what the destination took left the front of the buffer.
proof fn lemma_write_part(a0: Seq<u8>, a1: Seq<u8>, q0: Seq<u8>, q1: Seq<u8>, r: IoResult)
    requires
        (q1 == q0 && a1 == a0) || (exists|n: int| 0 <= n <= q0.len() && #[trigger] q0.skip(n) == q1
            && a1 == a0 + q0.take(n)),
    ensures
        forall|p: Seq<u8>| #[trigger] conserves(p, p, a0, a1, q0, q1),
{
    assert forall|p: Seq<u8>| #[trigger] conserves(p, p, a0, a1, q0, q1) by {
        assert(p.take(p.len() as int) =~= p);
        assert(p.skip(p.len() as int) =~= Seq::<u8>::empty());
        if q1 == q0 && a1 == a0 {
            assert(a0.take(a0.len() as int) =~= a0);
            assert(a0 + q0 + Seq::<u8>::empty() =~= a1 + q1);
        } else {
            let n = choose|n: int| 0 <= n <= q0.len() && #[trigger] q0.skip(n) == q1 && a1 == a0 + q0.take(n);
            assert(a1.take(a0.len() as int) =~= a0);
            assert(a1 + q1 =~= a0 + q0 + Seq::<u8>::empty());
        }
    }
}

/// Conservation across two steps.
proof fn lemma_conserves_trans(
    p0: Seq<u8>, p1: Seq<u8>, p2: Seq<u8>,
    a0: Seq<u8>, a1: Seq<u8>, a2: Seq<u8>,
    q0: Seq<u8>, q1: Seq<u8>, q2: Seq<u8>,
)
    requires
        conserves(p0, p1, a0, a1, q0, q1),
        conserves(p1, p2, a1, a2, q1, q2),
    ensures
        conserves(p0, p2, a0, a2, q0, q2),
{
    assert(p2.take(p0.len() as int) =~= p1.take(p0.len() as int));
    assert(a2.take(a0.len() as int) =~= a1.take(a0.len() as int));
    assert(p2.skip(p0.len() as int) =~= p1.skip(p0.len() as int) + p2.skip(p1.len() as int));
    assert(a2 + q2 =~= a0 + q0 + p2.skip(p0.len() as int));
}

/// What `poll(2)` documents of a slot it reported on: a negative descriptor
/// gets no event, and otherwise only the events asked for are reported,
/// besides error, hang-up and invalid request.
pub open spec fn poll_respects(p: PollFd) -> bool {
    &&& p.fd < 0 ==> p.revents@ == 0
    &&& p.revents@ & !(p.events@ | POLLERR | POLLHUP | POLLNVAL) == 0
}

/// Where `poll(2)` respected all four slots.
pub open spec fn poll_respected(r: Relay) -> bool {
    poll_respects(r.stdin) && poll_respects(r.netout) && poll_respects(r.netin) && poll_respects(r.stdout)
}

/// After `plan`, with what `poll(2)` documents, a source is read only into an
/// empty buffer, which then offers all of its storage, and a destination is
/// written only from a buffer that holds between one byte and its capacity.
pub proof fn lemma_reported_io_fits_buffers(r: Relay)
    requires
        r.wf(),
        planned_events(r),
        poll_respected(r),
    ensures
        readable(r.stdin) ==> r.buf_stdin@.len() == 0 && r.buf_stdin.room() == r.buf_stdin.capacity(),
        readable(r.netin) ==> r.buf_netin@.len() == 0 && r.buf_netin.room() == r.buf_netin.capacity(),
        writable(r.netout) ==> 0 < r.buf_stdin@.len() <= r.buf_stdin.capacity(),
        writable(r.stdout) ==> 0 < r.buf_netin@.len() <= r.buf_netin.capacity(),
{
    assert(forall|v: u16| #![auto] v & !(0u16 | POLLERR | POLLHUP | POLLNVAL) == 0 ==> v & POLLIN != POLLIN
        && v & POLLOUT != POLLOUT) by (bit_vector);
    lemma_pending_within_capacity(r.buf_stdin);
    lemma_pending_within_capacity(r.buf_netin);
    if r.buf_stdin@.len() == 0 {
        lemma_empty_buffer_has_full_room(r.buf_stdin);
    }
    if r.buf_netin@.len() == 0 {
        lemma_empty_buffer_has_full_room(r.buf_netin);
    }
}

/// A given-up slot gets no event from `poll(2)`: it is neither read nor
/// written, and no hang-up is seen on it.
pub proof fn lemma_closed_slot_is_idle(p: PollFd)
    requires
        is_closed(p),
        poll_respects(p),
    ensures
        !readable(p),
        !writable(p),
        !hung_up(p),
{
    assert(0u16 & POLLIN != POLLIN && 0u16 & POLLOUT != POLLOUT && 0u16 & POLLHUP != POLLHUP) by (bit_vector);
}

/// A source that was given up is never read again, and a destination that
/// was given up is never written again, in a round where `poll(2)`
/// respected its slot.
pub proof fn lemma_closed_slots_get_no_calls<I: Read, S: Socket, O: Write>(
    r0: Relay, i0: I, i1: I, s0: S, s1: S, o0: O, o1: O, r: Result<u8, std::io::Error>,
)
    requires
        round_calls(r0, i0, i1, s0, s1, o0, o1, r),
        poll_respected(r0),
    ensures
        is_closed(r0.stdin) ==> i1.read_log() == i0.read_log(),
        is_closed(r0.netout) ==> s1.write_log() == s0.write_log(),
        is_closed(r0.netin) ==> s1.read_log() == s0.read_log(),
        is_closed(r0.stdout) ==> o1.write_log() == o0.write_log(),
{
    if is_closed(r0.stdin) { lemma_closed_slot_is_idle(r0.stdin); }
    if is_closed(r0.netout) { lemma_closed_slot_is_idle(r0.netout); }
    if is_closed(r0.netin) { lemma_closed_slot_is_idle(r0.netin); }
    if is_closed(r0.stdout) { lemma_closed_slot_is_idle(r0.stdout); }
}

/// Since the start (`p0` delivered, `a0` taken), what the destination took,
/// followed by what is pending, is what the source delivered.
pub open spec fn run_law(p0: Seq<u8>, a0: Seq<u8>, p: Seq<u8>, a: Seq<u8>, q: Seq<u8>) -> bool {
    &&& p.len() >= p0.len() && p.take(p0.len() as int) == p0
    &&& a.len() >= a0.len() && a.take(a0.len() as int) == a0
    &&& a.skip(a0.len() as int) + q == p.skip(p0.len() as int)
}

/// One more round keeps the law since the start.
proof fn lemma_run_law_step(p0: Seq<u8>, a0: Seq<u8>, p: Seq<u8>, a: Seq<u8>, q: Seq<u8>, p1: Seq<u8>, a1: Seq<u8>, q1: Seq<u8>)
    requires
        run_law(p0, a0, p, a, q),
        conserves(p, p1, a, a1, q, q1),
    ensures
        run_law(p0, a0, p1, a1, q1),
{
    assert(p1.take(p0.len() as int) =~= p.take(p0.len() as int));
    assert(a1.take(a0.len() as int) =~= a.take(a0.len() as int));
    assert(a1 =~= a + a1.skip(a.len() as int));
    assert(a1.skip(a0.len() as int) =~= a.skip(a0.len() as int) + a1.skip(a.len() as int));
    assert(p1 =~= p + p1.skip(p.len() as int));
    assert(p1.skip(p0.len() as int) =~= p.skip(p0.len() as int) + p1.skip(p.len() as int));
    let d = a1.skip(a.len() as int);
    let e = p1.skip(p.len() as int);
    assert(a1 + q1 == a + q + e);
    assert((a1 + q1).skip(a.len() as int) =~= d + q1);
    assert((a + q + e).skip(a.len() as int) =~= q + e);
    assert(d + q1 == q + e);
    assert(a1.skip(a0.len() as int) + q1 =~= a.skip(a0.len() as int) + (d + q1));
    assert(p1.skip(p0.len() as int) =~= (a.skip(a0.len() as int) + q) + e);
    assert(a1.skip(a0.len() as int) + q1 =~= p1.skip(p0.len() as int));
}

/// The relay law over a whole run, for one direction. `ps[j]`, `as_[j]` and
/// `qs[j]` are what the source delivered, what the destination took and what
/// the buffer held after `j` rounds, starting with an empty buffer, and each
/// round conserves bytes (as `handle` ensures). Then at every point, what
/// left is exactly what came in minus what is pending: a prefix of it, no
/// byte lost, duplicated, reordered or invented, at most the buffer's
/// capacity behind.
pub proof fn lemma_run_conserves(ps: Seq<Seq<u8>>, as_: Seq<Seq<u8>>, qs: Seq<Seq<u8>>, capacity: nat, j: int)
    requires
        ps.len() == as_.len() == qs.len(),
        0 <= j < ps.len(),
        qs[0].len() == 0,
        forall|k: int| 0 < k < ps.len() ==> #[trigger] conserves(ps[k - 1], ps[k], as_[k - 1], as_[k], qs[k - 1], qs[k]),
        forall|k: int| 0 <= k < qs.len() ==> (#[trigger] qs[k]).len() <= capacity,
    ensures
        run_law(ps[0], as_[0], ps[j], as_[j], qs[j]),
        ps[j].skip(ps[0].len() as int).take(as_[j].skip(as_[0].len() as int).len() as int)
            == as_[j].skip(as_[0].len() as int),
        ps[j].skip(ps[0].len() as int).len() - as_[j].skip(as_[0].len() as int).len() <= capacity,
    decreases j,
{
    if j == 0 {
        assert(ps[0].take(ps[0].len() as int) =~= ps[0]);
        assert(as_[0].take(as_[0].len() as int) =~= as_[0]);
        assert(as_[0].skip(as_[0].len() as int) + qs[0] =~= ps[0].skip(ps[0].len() as int));
    } else {
        lemma_run_conserves(ps, as_, qs, capacity, j - 1);
        lemma_run_law_step(ps[0], as_[0], ps[j - 1], as_[j - 1], qs[j - 1], ps[j], as_[j], qs[j]);
    }
    let out = as_[j].skip(as_[0].len() as int);
    let inn = ps[j].skip(ps[0].len() as int);
    assert(inn.take(out.len() as int) =~= out);
    assert(qs[j].len() <= capacity);
}

/// Standard output is given up only once the stream's input is gone and
/// all of it was written out.
pub open spec fn output_given_up_only_when_drained(r: Relay) -> bool {
    is_closed(r.stdout) ==> is_closed(r.netin) && r.buf_netin@.len() == 0
}

/// Every completed round keeps `output_given_up_only_when_drained`, where
/// `poll(2)` respected the slots (it holds from the start for a relay whose
/// standard output descriptor is not `NOPOLLFD`).
pub proof fn lemma_round_keeps_output_rule(old: Relay, new: Relay, shut: u8)
    requires
        output_given_up_only_when_drained(old),
        completed_round(old, new, shut),
        poll_respected(old),
    ensures
        output_given_up_only_when_drained(new),
{
    if is_closed(old.stdout) {
        lemma_closed_slot_is_idle(old.netin);
        lemma_closed_slot_is_idle(old.stdout);
        let (mid, read, written) = choose|mid: Buffer, read: nat, written: nat|
            #[trigger] pass_through(old.netin, old.stdout, old.buf_netin, mid, read, new.netin.fd, written, new.buf_netin);
        assert(new.buf_netin == old.buf_netin);
    }
}

/// When the relay is done (in every case, thanks to the rule above), the
/// stream's input is gone and all of it was written to standard output.
pub proof fn lemma_finished_network_input_done(r: Relay)
    requires
        finished(r),
        output_given_up_only_when_drained(r),
    ensures
        is_closed(r.netin),
        r.buf_netin@.len() == 0,
{
}

/// The stream's output is given up only once standard input is gone and all
/// of it was sent.
pub open spec fn stream_given_up_only_when_drained(r: Relay) -> bool {
    is_closed(r.netout) ==> is_closed(r.stdin) && r.buf_stdin@.len() == 0
}

/// A completed round in which the stream reported no hang-up keeps
/// `stream_given_up_only_when_drained`, where `poll(2)` respected the slots.
pub proof fn lemma_round_keeps_stream_rule(old: Relay, new: Relay, shut: u8)
    requires
        stream_given_up_only_when_drained(old),
        completed_round(old, new, shut),
        poll_respected(old),
        !has_all(old.netout.revents@, POLLHUP),
    ensures
        stream_given_up_only_when_drained(new),
{
    if is_closed(old.netout) {
        lemma_closed_slot_is_idle(old.stdin);
        lemma_closed_slot_is_idle(old.netout);
        let (mid, read, written) = choose|mid: Buffer, read: nat, written: nat|
            #[trigger] pass_through(old.stdin, old.netout, old.buf_stdin, mid, read, new.stdin.fd, written, new.buf_stdin);
        assert(new.buf_stdin == old.buf_stdin);
    }
}

/// When the relay is done and the stream's output was given up only after
/// standard input (no hang-up of the stream), standard input is gone and all
/// of it was sent.
pub proof fn lemma_finished_stdin_done(r: Relay)
    requires
        finished(r),
        stream_given_up_only_when_drained(r),
    ensures
        r.buf_stdin@.len() == 0,
{
}

/// The relay law, for one direction: if what the destination took so far,
/// followed by what the buffer holds, is what the source delivered so far,
/// then so it is after a round. So no byte is lost, duplicated, reordered or
/// invented: what left is a prefix of what came in, at most the buffer's
/// capacity behind it.
pub proof fn lemma_relay_conserves(
    p0: Seq<u8>, p1: Seq<u8>,
    a0: Seq<u8>, a1: Seq<u8>,
    q0: Seq<u8>, q1: Seq<u8>,
    capacity: nat,
)
    requires
        a0 + q0 == p0,
        conserves(p0, p1, a0, a1, q0, q1),
        q1.len() <= capacity,
    ensures
        a1 + q1 == p1,
        p1.take(a1.len() as int) == a1,
        p1.len() - a1.len() <= capacity,
{
    assert(p1 =~= p0 + p1.skip(p0.len() as int));
    assert(a1 + q1 =~= p1);
    assert(p1.take(a1.len() as int) =~= a1);
}

/// A round gives an output up only when it can no longer be served:
/// standard output once the stream's input is gone and all of it was
/// written; the stream's output on a hang-up, or once standard input is
/// gone and all of it was sent. The stream is shut down only with the
/// shutdown flag, and then its output is given up.
pub proof fn lemma_outputs_given_up_only_when_done(old: Relay, new: Relay, shut: u8)
    requires
        completed_round(old, new, shut),
    ensures
        is_closed(new.stdout) && !is_closed(old.stdout) ==> is_closed(new.netin)
            && new.buf_netin@.len() == 0,
        is_closed(new.netout) && !is_closed(old.netout) ==> has_all(old.netout.revents@, POLLHUP)
            || (is_closed(new.stdin) && new.buf_stdin@.len() == 0),
        shut > 0 ==> old.shutdown && is_closed(new.netout),
{
}

/// Data is not lost in a round: the bytes that a direction's buffer held
/// before the round either are still its first bytes or were written out,
/// in order, ahead of anything read in the round.
pub proof fn lemma_round_keeps_order(src: PollFd, dst: PollFd, old_buf: Buffer, new_src_fd: i32, new_buf: Buffer)
    requires
        moved_through(src, dst, old_buf, new_src_fd, new_buf),
    ensures
        exists|written: nat, appended: Seq<u8>|
            #![trigger (old_buf@ + appended).skip(written as int)]
            written <= old_buf@.len() + appended.len()
            && new_buf@ == (old_buf@ + appended).skip(written as int),
{
    let (mid, read, written) = choose|mid: Buffer, read: nat, written: nat|
        #[trigger] pass_through(src, dst, old_buf, mid, read, new_src_fd, written, new_buf);
    let appended = mid@.skip(old_buf@.len() as int);
    assert(mid@ =~= old_buf@ + appended);
    if writable(dst) {
        assert(new_buf@ == (old_buf@ + appended).skip(written as int));
    } else {
        assert(new_buf@ =~= (old_buf@ + appended).skip(0));
    }
}

/// In listen mode the relay is done once the peer's input is gone and
/// nothing is pending, whatever the shutdown flag and whatever else is open.
pub proof fn lemma_listen_mode_stops_when_peer_gone(r: Relay)
    requires
        r.listen,
        is_closed(r.netin),
        r.buf_netin@.len() == 0,
        r.buf_stdin@.len() == 0,
    ensures
        finished(r),
{
}

/// With both outputs given up the relay is done, whatever its buffers hold:
/// nothing could ever be written again.
pub proof fn lemma_stops_when_outputs_gone(r: Relay)
    requires
        is_closed(r.netout),
        is_closed(r.stdout),
    ensures
        finished(r),
{
}

/// The relay goes on while an output is open and the inputs are not done:
/// with standard output open, data pending on the stream side, it is not done.
pub proof fn lemma_goes_on_with_pending_output(r: Relay)
    requires
        !is_closed(r.stdout),
        r.buf_netin@.len() > 0,
    ensures
        !finished(r),
{
}

/// The relay stops only when nothing pending can be lost by stopping: both
/// outputs are gone, or both buffers are empty.
pub proof fn lemma_finished_loses_nothing(r: Relay)
    requires
        finished(r),
    ensures
        (is_closed(r.netout) && is_closed(r.stdout)) || (r.buf_netin@.len() == 0
            && r.buf_stdin@.len() == 0),
{
}

/// With the planned events, each buffer is waited on from exactly one side:
/// its source for reading when it is empty (and then all its storage is
/// free), its destination for writing when it holds bytes.
pub proof fn lemma_planned_events_one_side(r: Relay)
    requires
        r.wf(),
        planned_events(r),
    ensures
        has_all(r.netin.events@, POLLIN) <==> !has_all(r.stdout.events@, POLLOUT),
        has_all(r.stdin.events@, POLLIN) <==> !has_all(r.netout.events@, POLLOUT),
        has_all(r.netin.events@, POLLIN) ==> r.buf_netin.room() == r.buf_netin.capacity(),
        has_all(r.stdin.events@, POLLIN) ==> r.buf_stdin.room() == r.buf_stdin.capacity(),
        has_all(r.stdout.events@, POLLOUT) ==> r.buf_netin@.len() > 0,
        has_all(r.netout.events@, POLLOUT) ==> r.buf_stdin@.len() > 0,
{
    assert(POLLIN & POLLIN == POLLIN) by (bit_vector);
    assert(POLLOUT & POLLOUT == POLLOUT) by (bit_vector);
    assert(0u16 & POLLIN != POLLIN) by (bit_vector);
    assert(0u16 & POLLOUT != POLLOUT) by (bit_vector);
    if r.buf_netin@.len() == 0 {
        lemma_empty_buffer_has_full_room(r.buf_netin);
    }
    if r.buf_stdin@.len() == 0 {
        lemma_empty_buffer_has_full_room(r.buf_stdin);
    }
}

} // verus!
