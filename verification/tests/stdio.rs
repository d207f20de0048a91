use netcat::stdio::{io_count, io_len, nonblocking_update};
use netcat::{AsRawFd, FileDesc, Stderr, Stdin, Stdout};

#[test]
fn standard_descriptors() {
    assert_eq!(Stdin::new().unwrap().as_raw_fd(), 0);
    assert_eq!(Stdout::new().unwrap().as_raw_fd(), 1);
    assert_eq!(Stderr::new().unwrap().as_raw_fd(), 2);
    assert_eq!(Stdin::new().unwrap().fd().raw(), 0);
}

#[test]
fn file_desc_numbers() {
    let d = FileDesc::new(7);
    assert_eq!(d.raw(), 7);
    assert_eq!(d.as_raw_fd(), 7);
    assert_eq!(d.into_raw(), 7);
}

#[test]
fn io_length_is_capped() {
    assert_eq!(io_len(10), 10);
    assert_eq!(io_len(usize::MAX), isize::MAX as usize);
}

#[test]
fn io_count_of_return_value() {
    assert_eq!(io_count(-1), None);
    assert_eq!(io_count(0), Some(0));
    assert_eq!(io_count(42), Some(42));
}

#[test]
fn nonblocking_flag_set_and_cleared() {
    assert_eq!(nonblocking_update(0b010, true, 0b100), Some(0b110));
    assert_eq!(nonblocking_update(0b110, false, 0b100), Some(0b010));
    assert_eq!(nonblocking_update(0b110, true, 0b100), None);
    assert_eq!(nonblocking_update(0b010, false, 0b100), None);
}
