use netcat::{AsRawFd, Device, PollEvent, Read, Relay, Write, NOPOLLFD};
use std::io;

impl Device for Source {}

struct Source {
    data: Vec<u8>,
}

impl Read for Source {
    fn read(&mut self, buf: &mut [u8]) -> io::Result<usize> {
        let n = buf.len().min(self.data.len());
        buf[..n].copy_from_slice(&self.data[..n]);
        self.data.drain(..n);
        Ok(n)
    }
}

impl Device for Sink {}

struct Sink {
    data: Vec<u8>,
}

impl Write for Sink {
    fn write(&mut self, buf: &[u8]) -> io::Result<usize> {
        self.data.extend_from_slice(buf);
        Ok(buf.len())
    }
}

impl Device for Stream {}

struct Stream {
    incoming: Source,
    outgoing: Sink,
}

impl AsRawFd for Stream {
    fn as_raw_fd(&self) -> i32 {
        5
    }
}

impl Read for Stream {
    fn read(&mut self, buf: &mut [u8]) -> io::Result<usize> {
        self.incoming.read(buf)
    }
}

impl Write for Stream {
    fn write(&mut self, buf: &[u8]) -> io::Result<usize> {
        self.outgoing.write(buf)
    }
}

fn ev(bits: u16) -> PollEvent {
    PollEvent::from_bits_truncate(bits)
}

use netcat::poll::{POLLHUP, POLLIN, POLLOUT};

#[test]
fn new_relay_waits_for_input() {
    let r = Relay::new(0, 5, 1, false, false);
    let fds = r.poll_fds();
    assert_eq!(fds.len(), 4);
    assert_eq!((fds[0].fd, fds[1].fd, fds[2].fd, fds[3].fd), (0, 5, 5, 1));
    assert_eq!(fds[0].events.bits(), POLLIN);
    assert_eq!(fds[1].events.bits(), 0);
    assert_eq!(fds[2].events.bits(), POLLIN);
    assert_eq!(fds[3].events.bits(), 0);
    assert!(r.buf_netin.empty() && r.buf_stdin.empty());
}

#[test]
fn plan_requests_by_buffer_state() {
    let mut r = Relay::new(0, 5, 1, false, false);
    assert!(r.plan());
    assert_eq!(r.stdin.events.bits(), POLLIN);
    assert_eq!(r.netin.events.bits(), POLLIN);
    assert_eq!(r.netout.events.bits(), 0);
    assert_eq!(r.stdout.events.bits(), 0);
    let mut src = Source { data: b"abc".to_vec() };
    src.fill(&mut r.buf_stdin).unwrap();
    assert!(r.plan());
    assert_eq!(r.stdin.events.bits(), 0);
    assert_eq!(r.netout.events.bits(), POLLOUT);
}

#[test]
fn relay_moves_bytes_both_ways() {
    let mut r = Relay::new(0, 5, 1, false, true);
    let mut input = Source { data: b"hello".to_vec() };
    let mut stream = Stream { incoming: Source { data: b"world".to_vec() }, outgoing: Sink { data: vec![] } };
    let mut output = Sink { data: vec![] };

    assert!(r.plan());
    r.record_revents(ev(POLLIN), ev(0), ev(POLLIN), ev(0));
    assert_eq!(r.handle(&mut input, &mut stream, &mut output).unwrap(), 0);
    assert_eq!(r.buf_stdin.pending(), b"hello");
    assert_eq!(r.buf_netin.pending(), b"world");

    assert!(r.plan());
    assert_eq!(r.netout.events.bits(), POLLOUT);
    assert_eq!(r.stdout.events.bits(), POLLOUT);
    r.record_revents(ev(0), ev(POLLOUT), ev(0), ev(POLLOUT));
    assert_eq!(r.handle(&mut input, &mut stream, &mut output).unwrap(), 0);
    assert_eq!(stream.outgoing.data, b"hello".to_vec());
    assert_eq!(output.data, b"world".to_vec());
    assert!(r.buf_stdin.empty() && r.buf_netin.empty());

    // End of standard input: the stream's write side is shut down.
    assert!(r.plan());
    r.record_revents(ev(POLLIN), ev(0), ev(0), ev(0));
    assert_eq!(r.handle(&mut input, &mut stream, &mut output).unwrap(), 1);
    assert_eq!(r.stdin.fd, NOPOLLFD);
    assert_eq!(r.netout.fd, NOPOLLFD);

    // End of the stream's input: standard output is given up, the relay ends.
    assert!(r.plan());
    r.record_revents(ev(0), ev(0), ev(POLLIN), ev(0));
    r.handle(&mut input, &mut stream, &mut output).unwrap();
    assert_eq!(r.netin.fd, NOPOLLFD);
    assert_eq!(r.stdout.fd, NOPOLLFD);
    assert!(!r.plan());
}

#[test]
fn hangup_without_data_closes_input() {
    let mut r = Relay::new(0, 5, 1, false, false);
    r.record_revents(ev(POLLHUP), ev(0), ev(POLLHUP | POLLIN), ev(0));
    r.note_hangups();
    assert_eq!(r.stdin.fd, NOPOLLFD);
    assert_eq!(r.netin.fd, 5);
}

#[test]
fn stream_hangup_closes_output_and_shuts_down() {
    let mut r = Relay::new(0, 5, 1, false, true);
    r.record_revents(ev(0), ev(POLLHUP), ev(0), ev(0));
    assert_eq!(r.finish_round(), 1);
    assert_eq!(r.netout.fd, NOPOLLFD);
    let mut q = Relay::new(0, 5, 1, false, false);
    q.record_revents(ev(0), ev(POLLHUP), ev(0), ev(0));
    assert_eq!(q.finish_round(), 0);
    assert_eq!(q.netout.fd, NOPOLLFD);
    // A hang-up of the stream and the end of standard input in one round:
    // two shutdowns, as two reasons were found.
    let mut t = Relay::new(0, 5, 1, false, true);
    t.stdin.fd = NOPOLLFD;
    t.record_revents(ev(0), ev(POLLHUP), ev(0), ev(0));
    assert_eq!(t.finish_round(), 2);
    assert_eq!(q.netout.fd, NOPOLLFD);
}

#[test]
fn stops_when_both_outputs_are_gone() {
    let mut r = Relay::new(0, 5, 1, false, false);
    r.netout.fd = NOPOLLFD;
    assert!(r.plan());
    r.stdout.fd = NOPOLLFD;
    assert!(!r.plan());
}

#[test]
fn listen_mode_stops_when_stream_input_ends() {
    let mut r = Relay::new(0, 5, 1, true, false);
    r.netin.fd = NOPOLLFD;
    assert!(!r.plan());
    let mut q = Relay::new(0, 5, 1, false, false);
    q.netin.fd = NOPOLLFD;
    assert!(q.plan());
}

#[test]
fn pending_data_keeps_relay_going() {
    let mut r = Relay::new(0, 5, 1, false, false);
    let mut src = Source { data: b"x".to_vec() };
    src.fill(&mut r.buf_netin).unwrap();
    r.stdin.fd = NOPOLLFD;
    r.netin.fd = NOPOLLFD;
    assert!(r.plan());
    let mut out = Sink { data: vec![] };
    r.record_revents(ev(0), ev(0), ev(0), ev(POLLOUT));
    r.write_stdout(&mut out).unwrap();
    assert_eq!(out.data, b"x".to_vec());
    assert!(!r.plan());
}

#[test]
fn step_without_reported_event_does_nothing() {
    let mut r = Relay::new(0, 5, 1, false, false);
    let mut input = Source { data: b"abc".to_vec() };
    assert_eq!(r.read_stdin(&mut input).unwrap(), 0);
    assert!(r.buf_stdin.empty());
    let mut stream = Stream { incoming: Source { data: b"abc".to_vec() }, outgoing: Sink { data: vec![] } };
    assert_eq!(r.read_network(&mut stream).unwrap(), 0);
    assert_eq!(r.write_network(&mut stream).unwrap(), 0);
    assert!(r.buf_netin.empty());
}

impl Device for Failing {}

struct Failing;

impl Read for Failing {
    fn read(&mut self, _buf: &mut [u8]) -> io::Result<usize> {
        Err(io::Error::new(io::ErrorKind::Other, "down"))
    }
}

impl AsRawFd for Failing {
    fn as_raw_fd(&self) -> i32 {
        9
    }
}

impl Write for Failing {
    fn write(&mut self, _buf: &[u8]) -> io::Result<usize> {
        Err(io::Error::new(io::ErrorKind::Other, "down"))
    }
}

#[test]
fn round_without_ready_devices_succeeds() {
    let mut r = Relay::new(0, 5, 1, false, false);
    assert!(r.plan());
    r.record_revents(ev(0), ev(0), ev(0), ev(0));
    let mut input = Failing;
    let mut stream = Failing;
    let mut output = Failing;
    assert_eq!(r.handle(&mut input, &mut stream, &mut output).unwrap(), 0);
    r.record_revents(ev(POLLIN), ev(0), ev(0), ev(0));
    assert!(r.handle(&mut input, &mut stream, &mut output).is_err());
}
