//! Poll flags and descriptors, in the layout of `poll(2)`.
use vstd::prelude::*;

verus! {

/// Mask of the flag bits that `PollEvent` knows.
pub const ALL_BITS: u16 = 0x003f;
/// No flag.
pub const NONE: u16 = 0x0000;
/// There is data to read.
pub const POLLIN: u16 = 0x0001;
/// There is urgent data to read.
pub const POLLPRI: u16 = 0x0002;
/// Writing now will not block.
pub const POLLOUT: u16 = 0x0004;
/// Error condition.
pub const POLLERR: u16 = 0x0008;
/// Hung up.
pub const POLLHUP: u16 = 0x0010;
/// Invalid polling request.
pub const POLLNVAL: u16 = 0x0020;

/// A descriptor slot that `poll` skips: a closed stream.
pub const NOPOLLFD: i32 = -1;

/// A set of poll flags, held as the bits of a `u16`.
#[derive(Clone, Copy, PartialEq, Eq, Structural, Debug, Hash)]
pub struct PollEvent {
    bits: u16,
}

impl View for PollEvent {
    type V = u16;

    closed spec fn view(&self) -> u16 {
        self.bits
    }
}

/// `a` holds every flag of `b`.
pub open spec fn has_all(a: u16, b: u16) -> bool {
    a & b == b
}

/// Whether `a` holds every flag of `b`.
pub open spec fn event_contains(a: PollEvent, b: PollEvent) -> bool {
    has_all(a@, b@)
}

impl PollEvent {
    /// The set with no flag.
    pub fn empty() -> (e: PollEvent)
        ensures
            e@ == 0,
    {
        PollEvent { bits: NONE }
    }

    /// The set `{POLLIN}`.
    pub fn pollin() -> (e: PollEvent)
        ensures
            e@ == POLLIN,
    {
        PollEvent { bits: POLLIN }
    }

    /// The set `{POLLPRI}`.
    pub fn pollpri() -> (e: PollEvent)
        ensures
            e@ == POLLPRI,
    {
        PollEvent { bits: POLLPRI }
    }

    /// The set `{POLLOUT}`.
    pub fn pollout() -> (e: PollEvent)
        ensures
            e@ == POLLOUT,
    {
        PollEvent { bits: POLLOUT }
    }

    /// The set `{POLLERR}`.
    pub fn pollerr() -> (e: PollEvent)
        ensures
            e@ == POLLERR,
    {
        PollEvent { bits: POLLERR }
    }

    /// The set `{POLLHUP}`.
    pub fn pollhup() -> (e: PollEvent)
        ensures
            e@ == POLLHUP,
    {
        PollEvent { bits: POLLHUP }
    }

    /// The set `{POLLNVAL}`.
    pub fn pollnval() -> (e: PollEvent)
        ensures
            e@ == POLLNVAL,
    {
        PollEvent { bits: POLLNVAL }
    }

    /// The raw bits.
    pub fn bits(&self) -> (b: u16)
        ensures
            b == self@,
    {
        self.bits
    }

    /// The known flags of `bits`; unknown bits are dropped.
    pub fn from_bits_truncate(bits: u16) -> (e: PollEvent)
        ensures
            e@ == bits & ALL_BITS,
    {
        PollEvent { bits: bits & ALL_BITS }
    }

    /// Whether every flag of `other` is set in `self`.
    pub fn contains(&self, other: PollEvent) -> (r: bool)
        ensures
            r == event_contains(*self, other),
    {
        self.bits & other.bits == other.bits
    }

    /// Sets the flags of `other`.
    pub fn insert(&mut self, other: PollEvent)
        ensures
            final(self)@ == old(self)@ | other@,
    {
        self.bits = self.bits | other.bits;
    }

    /// Unsets every flag.
    pub fn clear(&mut self)
        ensures
            final(self)@ == 0,
    {
        self.bits = NONE;
    }
}

/// After `insert(b)`, the set contains `b`, and still contains what it held.
pub proof fn lemma_insert_contains(a: u16, b: u16, c: u16)
    ensures
        has_all(a | b, b),
        has_all(a, c) ==> has_all(a | b, c),
{
    assert((a | b) & b == b) by (bit_vector);
    assert(a & c == c ==> (a | b) & c == c) by (bit_vector);
}

/// Setting flags on a cleared set gives exactly those flags.
pub proof fn lemma_insert_into_empty(b: u16)
    ensures
        0u16 | b == b,
{
    assert(0u16 | b == b) by (bit_vector);
}

/// A cleared set contains exactly the empty set.
pub proof fn lemma_cleared_contains_only_empty(b: u16)
    ensures
        has_all(0, b) <==> b == 0,
{
    assert((0u16 & b == b) <==> b == 0) by (bit_vector);
}

/// One `poll(2)` descriptor: the descriptor, the flags asked for, the flags reported.
#[derive(Clone, Copy, Debug)]
pub struct PollFd {
    /// The descriptor to poll; negative ones are skipped.
    pub fd: i32,
    /// The events that the poller cares about.
    pub events: PollEvent,
    /// The events that actually occurred.
    pub revents: PollEvent,
}

/// What a successful `poll` reports.
#[derive(Debug, Clone, PartialEq, Eq, Structural)]
pub enum PollResult {
    /// This many descriptors have events.
    Ready(i32),
    /// No descriptor became ready in time.
    Timeout,
}

/// Errors that `poll(2)` reports.
#[derive(Debug, Clone, PartialEq, Eq, Structural)]
pub enum PollError {
    /// The array given as argument was not contained in the calling program's address space.
    EFAULT,
    /// A signal occurred before any requested event; see signal(7).
    EINTR,
    /// The nfds value exceeds the RLIMIT_NOFILE value.
    EINVAL,
    /// There was no space to allocate file descriptor tables.
    ENOMEM,
}

/// The timeout argument of `poll(2)` for `timeout`: `-1` waits without limit.
pub fn poll_timeout(timeout: Option<i32>) -> (t: i32)
    ensures
        t == match timeout {
            Option::Some(v) => v,
            Option::None => -1i32,
        },
{
    match timeout {
        Option::Some(t) => t,
        Option::None => -1,
    }
}

/// What `poll(2)` returning `ret` means: `None` for the failure value `-1`
/// (the cause is then in `errno`), a timeout for `0`, else the ready count.
pub fn poll_outcome(ret: i32) -> (r: Option<PollResult>)
    ensures
        ret == -1 <==> r is None,
        ret == 0 ==> r == Option::Some(PollResult::Timeout),
        ret != 0 && ret != -1 ==> r == Option::Some(PollResult::Ready(ret)),
{
    if ret == -1 {
        Option::None
    } else if ret == 0 {
        Option::Some(PollResult::Timeout)
    } else {
        Option::Some(PollResult::Ready(ret))
    }
}

} // verus!
