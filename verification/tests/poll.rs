use netcat::poll::{poll_outcome, poll_timeout, POLLHUP, POLLIN, POLLOUT};
use netcat::{PollEvent, PollResult, NOPOLLFD};

#[test]
fn flag_bits() {
    assert_eq!(PollEvent::empty().bits(), 0);
    assert_eq!(PollEvent::pollin().bits(), 0x01);
    assert_eq!(PollEvent::pollpri().bits(), 0x02);
    assert_eq!(PollEvent::pollout().bits(), 0x04);
    assert_eq!(PollEvent::pollerr().bits(), 0x08);
    assert_eq!(PollEvent::pollhup().bits(), 0x10);
    assert_eq!(PollEvent::pollnval().bits(), 0x20);
    assert_eq!(NOPOLLFD, -1);
}

#[test]
fn insert_then_contains() {
    let mut e = PollEvent::empty();
    assert!(!e.contains(PollEvent::pollin()));
    e.insert(PollEvent::pollin());
    assert!(e.contains(PollEvent::pollin()));
    e.insert(PollEvent::pollhup());
    assert!(e.contains(PollEvent::pollin()));
    assert!(e.contains(PollEvent::pollhup()));
    assert_eq!(e.bits(), POLLIN | POLLHUP);
    assert!(!e.contains(PollEvent::pollout()));
}

#[test]
fn clear_empties() {
    let mut e = PollEvent::from_bits_truncate(POLLIN | POLLOUT);
    e.clear();
    assert_eq!(e.bits(), 0);
    assert!(e.contains(PollEvent::empty()));
    assert!(!e.contains(PollEvent::pollin()));
}

#[test]
fn truncate_drops_unknown_bits() {
    assert_eq!(PollEvent::from_bits_truncate(0xffff).bits(), 0x3f);
    assert_eq!(PollEvent::from_bits_truncate(0x41).bits(), 0x01);
}

#[test]
fn timeout_argument() {
    assert_eq!(poll_timeout(None), -1);
    assert_eq!(poll_timeout(Some(250)), 250);
}

#[test]
fn outcome_of_poll() {
    assert_eq!(poll_outcome(-1), None);
    assert_eq!(poll_outcome(0), Some(PollResult::Timeout));
    assert_eq!(poll_outcome(3), Some(PollResult::Ready(3)));
}
