//! A byte buffer between a reader and a writer, and the two I/O traits
//! that fill and drain it.
use vstd::prelude::*;

verus! {

/// `std::io::Error`: the error of a read or a write. It is carried through
/// unchanged; nothing is read from inside it.
#[verifier::external_type_specification]
#[verifier::external_body]
pub struct ExIoError(std::io::Error);

/// A fixed-size byte buffer. The bytes `buf[head..tail]` are pending;
/// new bytes are written after `tail`, pending bytes leave from `head`.
pub struct Buffer {
    buf: Vec<u8>,
    head: usize,
    tail: usize,
}

impl View for Buffer {
    type V = Seq<u8>;

    /// The pending bytes, oldest first.
    closed spec fn view(&self) -> Seq<u8> {
        self.buf@.subrange(self.head as int, self.tail as int)
    }
}

impl Buffer {
    /// The pending bytes lie inside the storage, and an empty buffer starts
    /// again at the front of its storage.
    pub closed spec fn wf(&self) -> bool {
        &&& self.head <= self.tail <= self.buf@.len()
        &&& self.head == self.tail ==> self.tail == 0
    }

    /// The size of the storage.
    pub closed spec fn capacity(&self) -> nat {
        self.buf@.len()
    }

    /// The whole storage, pending bytes and free room included.
    pub closed spec fn storage(&self) -> Seq<u8> {
        self.buf@
    }

    /// How many bytes a fill can still append.
    pub closed spec fn room(&self) -> nat {
        (self.buf@.len() - self.tail) as nat
    }

    /// A buffer of `len` bytes, holding nothing.
    pub fn new(len: usize) -> (b: Self)
        ensures
            b.wf(),
            b@ == Seq::<u8>::empty(),
            b.capacity() == len,
            b.room() == len,
            b.storage() == Seq::new(len as nat, |i: int| 0u8),
    {
        let b = Buffer { buf: vec![0u8; len], head: 0, tail: 0 };
        assert(b@ =~= Seq::<u8>::empty());
        b
    }

    /// Whether no byte is pending.
    pub fn empty(&self) -> (r: bool)
        requires
            self.wf(),
        ensures
            r == (self@.len() == 0),
    {
        self.head == self.tail
    }

    /// The pending bytes.
    pub fn pending(&self) -> (s: &[u8])
        requires
            self.wf(),
        ensures
            s@ == self@,
    {
        self.buf.as_slice().split_at(self.tail).0.split_at(self.head).1
    }

    /// Drops the first `len` pending bytes; a buffer left empty starts again
    /// at the front of its storage.
    pub fn consume(&mut self, len: usize)
        requires
            old(self).wf(),
            len <= old(self)@.len(),
        ensures
            final(self).wf(),
            final(self)@ == old(self)@.skip(len as int),
            final(self).capacity() == old(self).capacity(),
            final(self)@.len() == 0 ==> final(self).room() == final(self).capacity(),
            final(self)@.len() > 0 ==> final(self).room() == old(self).room(),
            final(self).storage() == old(self).storage(),
    {
        self.head = self.head + len;
        if self.head == self.tail {
            self.head = 0;
            self.tail = 0;
        }
        assert(self@ =~= old(self)@.skip(len as int));
    }
}

/// The storage of a well-formed buffer that holds nothing is all free.
pub proof fn lemma_empty_buffer_has_full_room(b: Buffer)
    requires
        b.wf(),
        b@.len() == 0,
    ensures
        b.room() == b.capacity(),
{
}

/// The pending bytes and the free room fit in the storage.
pub proof fn lemma_pending_within_capacity(b: Buffer)
    requires
        b.wf(),
    ensures
        b@.len() + b.room() <= b.capacity(),
{
}

/// `new` is `old` after a fill that appended `n` bytes.
pub open spec fn filled(old: Buffer, new: Buffer, n: nat) -> bool {
    &&& n <= old.room()
    &&& new@.len() == old@.len() + n
    &&& new@.subrange(0, old@.len() as int) == old@
    &&& new.room() == old.room() - n
    &&& new.capacity() == old.capacity()
}

/// `new` is `old` after a drain that handed out its first `n` bytes.
pub open spec fn drained(old: Buffer, new: Buffer, n: nat) -> bool {
    &&& n <= old@.len()
    &&& new@ == old@.skip(n as int)
    &&& new.capacity() == old.capacity()
    &&& new@.len() == 0 ==> new.room() == new.capacity()
    &&& new@.len() > 0 ==> new.room() == old.room()
}

/// First in, first out: after a fill and a drain, the bytes that were
/// pending before the fill leave before the bytes that it appended.
pub proof fn lemma_fill_then_drain_in_order(b0: Buffer, b1: Buffer, b2: Buffer, n: nat, m: nat)
    requires
        filled(b0, b1, n),
        drained(b1, b2, m),
    ensures
        m <= b0@.len() ==> b2@ == b0@.skip(m as int) + b1@.skip(b0@.len() as int),
        m > b0@.len() ==> b2@ == b1@.skip(m as int),
        b1@.skip(b0@.len() as int).len() == n,
{
    if m <= b0@.len() {
        assert(b1@ =~= b0@ + b1@.skip(b0@.len() as int));
        assert(b2@ =~= b0@.skip(m as int) + b1@.skip(b0@.len() as int));
    }
}

/// The outcome of one read or write call: a byte count or the device's error.
pub type IoResult = Result<usize, std::io::Error>;

/// What a device has done so far: the bytes its reads delivered and its
/// writes took, and the log of its calls.
pub trait Device: Sized {
    /// Whether this device keeps the model below. A device that does not
    /// say so promises nothing of it.
    open spec fn keeps_model(&self) -> bool {
        false
    }

    /// The bytes delivered by the reads so far, in order.
    open spec fn produced(&self) -> Seq<u8> {
        Seq::empty()
    }

    /// The bytes taken by the writes so far, in order.
    open spec fn accepted(&self) -> Seq<u8> {
        Seq::empty()
    }

    /// The reads so far: the length of the slice offered, and the result.
    open spec fn read_log(&self) -> Seq<(nat, IoResult)> {
        Seq::empty()
    }

    /// The slices of the reads so far, as each read left its slice.
    open spec fn read_slices(&self) -> Seq<Seq<u8>> {
        Seq::empty()
    }

    /// The writes so far: the bytes offered, and the result.
    open spec fn write_log(&self) -> Seq<(Seq<u8>, IoResult)> {
        Seq::empty()
    }
}

/// The byte positions of the pending bytes' end: where a fill writes.
pub open spec fn fill_start(b: Buffer) -> int {
    b.capacity() - b.room()
}

/// For a device that keeps its model, it went from `d0` to `d1` by one read
/// that was offered `offered` bytes, left its slice as `got` and returned
/// `r`; a successful read delivered the first bytes of `got`.
pub open spec fn read_once<D: Device>(d0: D, d1: D, offered: nat, r: IoResult, got: Seq<u8>) -> bool {
    d0.keeps_model() ==> read_logged(d0, d1, offered, r, got)
}

/// The model part of `read_once`, for a device that keeps its model.
pub open spec fn read_logged<D: Device>(d0: D, d1: D, offered: nat, r: IoResult, got: Seq<u8>) -> bool {
    &&& d1.keeps_model()
    &&& d1.read_log() == d0.read_log().push((offered, r))
    &&& d1.read_slices() == d0.read_slices().push(got)
    &&& d1.write_log() == d0.write_log()
    &&& d1.accepted() == d0.accepted()
    &&& match r {
        Ok(n) => n <= offered && d1.produced() == d0.produced() + got.take(n as int),
        Err(_) => d1.produced() == d0.produced(),
    }
}

/// For a device that keeps its model, it went from `d0` to `d1` by one write
/// that was offered `bytes` and returned `r`; a successful write took the
/// first bytes of `bytes`.
pub open spec fn wrote_once<D: Device>(d0: D, d1: D, bytes: Seq<u8>, r: IoResult) -> bool {
    d0.keeps_model() ==> wrote_logged(d0, d1, bytes, r)
}

/// The model part of `wrote_once`, for a device that keeps its model.
pub open spec fn wrote_logged<D: Device>(d0: D, d1: D, bytes: Seq<u8>, r: IoResult) -> bool {
    &&& d1.keeps_model()
    &&& d1.write_log() == d0.write_log().push((bytes, r))
    &&& d1.read_log() == d0.read_log()
    &&& d1.read_slices() == d0.read_slices()
    &&& d1.produced() == d0.produced()
    &&& match r {
        Ok(n) => n <= bytes.len() && d1.accepted() == d0.accepted() + bytes.take(n as int),
        Err(_) => d1.accepted() == d0.accepted(),
    }
}

/// What `fill` does: one read is offered the whole free storage after the
/// pending bytes; afterwards that storage is the slice as the read left it;
/// what the read delivered is appended and its result returned; the storage
/// before the free part is untouched.
pub open spec fn fill_outcome<D: Device>(d0: D, d1: D, b0: Buffer, b1: Buffer, r: IoResult) -> bool {
    &&& b1.wf()
    &&& read_once(d0, d1, b0.room(), r, b1.storage().skip(fill_start(b0)))
    &&& b1.storage().take(fill_start(b0)) == b0.storage().take(fill_start(b0))
    &&& match r {
        Ok(n) => filled(b0, b1, n as nat) && (d0.keeps_model() ==> d1.produced() == d0.produced()
            + b1@.skip(b0@.len() as int)),
        Err(_) => same_pending(b0, b1),
    }
}

/// What `drain` does: one write is offered exactly the pending bytes; what
/// it took leaves the buffer and its result is returned; the storage is
/// untouched.
pub open spec fn drain_outcome<D: Device>(d0: D, d1: D, b0: Buffer, b1: Buffer, r: IoResult) -> bool {
    &&& b1.wf()
    &&& wrote_once(d0, d1, b0@, r)
    &&& b1.storage() == b0.storage()
    &&& match r {
        Ok(n) => drained(b0, b1, n as nat),
        Err(_) => b1 == b0,
    }
}

/// Two buffers hold the same pending bytes at the same place in storage of
/// the same size.
pub open spec fn same_pending(a: Buffer, b: Buffer) -> bool {
    a@ == b@ && a.room() == b.room() && a.capacity() == b.capacity()
}

/// A destination of bytes.
pub trait Write: Device {
    /// Writes some prefix of `buf` and says how long it was.
    fn write(&mut self, buf: &[u8]) -> (r: IoResult)
        ensures
            r matches Ok(n) ==> n <= buf@.len(),
            wrote_once(*old(self), *final(self), buf@, r),
    ;

    /// Writes pending bytes of `buf` and drops those that were written.
    fn drain(&mut self, buf: &mut Buffer) -> (r: IoResult)
        requires
            old(buf).wf(),
        ensures
            drain_outcome(*old(self), *final(self), *old(buf), *final(buf), r),
    {
        let r = self.write(buf.pending());
        match r {
            Ok(len) => {
                buf.consume(len);
                Ok(len)
            },
            Err(e) => Err(e),
        }
    }
}

/// A source of bytes.
pub trait Read: Device {
    /// Reads bytes into a prefix of `buf` and says how many.
    fn read(&mut self, buf: &mut [u8]) -> (r: IoResult)
        ensures
            final(buf)@.len() == old(buf)@.len(),
            r matches Ok(n) ==> n <= old(buf)@.len(),
            read_once(*old(self), *final(self), old(buf)@.len(), r, final(buf)@),
    ;

    /// Reads bytes into the free storage of `buf` and appends them.
    fn fill(&mut self, buf: &mut Buffer) -> (r: IoResult)
        requires
            old(buf).wf(),
        ensures
            fill_outcome(*old(self), *final(self), *old(buf), *final(buf), r),
    {
        let tail = buf.tail;
        let cap = buf.buf.len();
        let ghost before = buf.buf@;
        let (_, free) = buf.buf.as_mut_slice().split_at_mut(tail);
        assert(free@.len() == before.len() - tail);
        let r = self.read(free);
        proof {
            assert(buf.buf@.len() == before.len());
            assert(buf.buf@.subrange(0, tail as int) == before.subrange(0, tail as int));
            assert(buf.buf@.skip(tail as int) =~= free@);
            assert(buf.buf@.take(tail as int) =~= before.take(tail as int));
        }
        match r {
            Ok(len) => {
                assert(len <= cap - tail);
                buf.tail = tail + len;
                assert(buf@.subrange(0, old(buf)@.len() as int) =~= old(buf)@);
                assert(buf@.skip(old(buf)@.len() as int) =~= buf.buf@.skip(tail as int).take(len as int));
                Ok(len)
            },
            Err(e) => {
                assert(buf@ =~= old(buf)@);
                Err(e)
            },
        }
    }
}

/// A network stream: both a source and a destination of bytes, with a descriptor.
pub trait Socket: Read + Write + crate::stdio::AsRawFd {}

impl<T: Read + Write + crate::stdio::AsRawFd> Socket for T {}

} // verus!
