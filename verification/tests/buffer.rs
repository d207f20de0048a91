use netcat::{Buffer, Device, Read, Write};
use std::io;

/// A source that hands out the bytes of `data`, at most `chunk` at a time.
impl Device for Source {}

struct Source {
    data: Vec<u8>,
    chunk: usize,
}

impl Read for Source {
    fn read(&mut self, buf: &mut [u8]) -> io::Result<usize> {
        let n = self.chunk.min(buf.len()).min(self.data.len());
        buf[..n].copy_from_slice(&self.data[..n]);
        self.data.drain(..n);
        Ok(n)
    }
}

/// A destination that keeps at most `chunk` bytes per write.
impl Device for Sink {}

struct Sink {
    data: Vec<u8>,
    chunk: usize,
}

impl Write for Sink {
    fn write(&mut self, buf: &[u8]) -> io::Result<usize> {
        let n = self.chunk.min(buf.len());
        self.data.extend_from_slice(&buf[..n]);
        Ok(n)
    }
}

impl Device for Broken {}

struct Broken;

impl Read for Broken {
    fn read(&mut self, _buf: &mut [u8]) -> io::Result<usize> {
        Err(io::Error::new(io::ErrorKind::Other, "broken"))
    }
}

impl Write for Broken {
    fn write(&mut self, _buf: &[u8]) -> io::Result<usize> {
        Err(io::Error::new(io::ErrorKind::Other, "broken"))
    }
}

#[test]
fn new_buffer_is_empty() {
    let b = Buffer::new(16);
    assert!(b.empty());
    assert_eq!(b.pending(), &[] as &[u8]);
}

#[test]
fn fill_appends_and_drain_removes_in_order() {
    let mut b = Buffer::new(8);
    let mut src = Source { data: vec![1, 2, 3, 4, 5], chunk: 3 };
    assert_eq!(src.fill(&mut b).unwrap(), 3);
    assert_eq!(b.pending(), &[1, 2, 3]);
    assert_eq!(src.fill(&mut b).unwrap(), 2);
    assert_eq!(b.pending(), &[1, 2, 3, 4, 5]);
    let mut sink = Sink { data: vec![], chunk: 2 };
    assert_eq!(sink.drain(&mut b).unwrap(), 2);
    assert_eq!(b.pending(), &[3, 4, 5]);
    assert_eq!(sink.drain(&mut b).unwrap(), 2);
    assert_eq!(sink.drain(&mut b).unwrap(), 1);
    assert!(b.empty());
    assert_eq!(sink.data, vec![1, 2, 3, 4, 5]);
}

#[test]
fn fill_stops_at_capacity() {
    let mut b = Buffer::new(4);
    let mut src = Source { data: vec![9; 10], chunk: 100 };
    assert_eq!(src.fill(&mut b).unwrap(), 4);
    assert_eq!(src.fill(&mut b).unwrap(), 0);
    assert_eq!(b.pending(), &[9, 9, 9, 9]);
}

#[test]
fn drained_buffer_has_all_its_room_again() {
    let mut b = Buffer::new(4);
    let mut src = Source { data: vec![1, 2, 3, 4, 5, 6, 7, 8], chunk: 100 };
    assert_eq!(src.fill(&mut b).unwrap(), 4);
    let mut sink = Sink { data: vec![], chunk: 100 };
    assert_eq!(sink.drain(&mut b).unwrap(), 4);
    assert!(b.empty());
    // The whole storage is free again.
    assert_eq!(src.fill(&mut b).unwrap(), 4);
    assert_eq!(b.pending(), &[5, 6, 7, 8]);
}

#[test]
fn partial_drain_keeps_room_until_empty() {
    let mut b = Buffer::new(4);
    let mut src = Source { data: vec![1, 2, 3, 4, 5], chunk: 100 };
    assert_eq!(src.fill(&mut b).unwrap(), 4);
    let mut sink = Sink { data: vec![], chunk: 1 };
    assert_eq!(sink.drain(&mut b).unwrap(), 1);
    assert_eq!(src.fill(&mut b).unwrap(), 0);
    assert_eq!(b.pending(), &[2, 3, 4]);
}

#[test]
fn failed_read_and_write_leave_buffer_unchanged() {
    let mut b = Buffer::new(4);
    let mut src = Source { data: vec![1, 2], chunk: 100 };
    src.fill(&mut b).unwrap();
    assert!(Broken.fill(&mut b).is_err());
    assert_eq!(b.pending(), &[1, 2]);
    assert!(Broken.drain(&mut b).is_err());
    assert_eq!(b.pending(), &[1, 2]);
}

#[test]
fn consume_drops_prefix() {
    let mut b = Buffer::new(4);
    let mut src = Source { data: vec![1, 2, 3], chunk: 100 };
    src.fill(&mut b).unwrap();
    b.consume(2);
    assert_eq!(b.pending(), &[3]);
    b.consume(1);
    assert!(b.empty());
}

#[test]
fn zero_capacity_buffer() {
    let mut b = Buffer::new(0);
    let mut src = Source { data: vec![1], chunk: 100 };
    assert_eq!(src.fill(&mut b).unwrap(), 0);
    assert!(b.empty());
}
