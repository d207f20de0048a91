//! Unbuffered standard input, output and error, as bare file descriptors.
use vstd::prelude::*;

verus! {

/// `libc::STDIN_FILENO`, which libc defines as 0.
#[verifier::external_body]
fn stdin_fileno() -> (fd: i32)
    ensures
        fd == 0,
{
    libc::STDIN_FILENO
}

/// `libc::STDOUT_FILENO`, which libc defines as 1.
#[verifier::external_body]
fn stdout_fileno() -> (fd: i32)
    ensures
        fd == 1,
{
    libc::STDOUT_FILENO
}

/// `libc::STDERR_FILENO`, which libc defines as 2.
#[verifier::external_body]
fn stderr_fileno() -> (fd: i32)
    ensures
        fd == 2,
{
    libc::STDERR_FILENO
}

/// Something backed by a file descriptor.
pub trait AsRawFd {
    /// The descriptor number.
    fn as_raw_fd(&self) -> i32;
}

/// A file descriptor number.
#[derive(Debug)]
pub struct FileDesc {
    fd: i32,
}

impl View for FileDesc {
    type V = i32;

    closed spec fn view(&self) -> i32 {
        self.fd
    }
}

impl FileDesc {
    /// The descriptor `fd`.
    pub fn new(fd: i32) -> (d: FileDesc)
        ensures
            d@ == fd,
    {
        FileDesc { fd }
    }

    /// The descriptor number.
    pub fn raw(&self) -> (fd: i32)
        ensures
            fd == self@,
    {
        self.fd
    }

    /// The descriptor number, giving up the descriptor.
    pub fn into_raw(self) -> (fd: i32)
        ensures
            fd == self@,
    {
        self.fd
    }
}

impl AsRawFd for FileDesc {
    fn as_raw_fd(&self) -> (fd: i32)
        ensures
            fd == self@,
    {
        self.fd
    }
}

/// Standard input.
#[derive(Debug)]
pub struct Stdin(FileDesc);

/// Standard output.
#[derive(Debug)]
pub struct Stdout(FileDesc);

/// Standard error.
#[derive(Debug)]
pub struct Stderr(FileDesc);

impl View for Stdin {
    type V = i32;

    closed spec fn view(&self) -> i32 {
        self.0@
    }
}

impl View for Stdout {
    type V = i32;

    closed spec fn view(&self) -> i32 {
        self.0@
    }
}

impl View for Stderr {
    type V = i32;

    closed spec fn view(&self) -> i32 {
        self.0@
    }
}

impl Stdin {
    /// Standard input, descriptor 0. It never fails.
    pub fn new() -> (r: Result<Stdin, std::io::Error>)
        ensures
            r matches Ok(s) && s@ == 0,
    {
        Ok(Stdin(FileDesc::new(stdin_fileno())))
    }

    /// The descriptor.
    pub fn fd(&self) -> (d: &FileDesc)
        ensures
            d@ == self@,
    {
        &self.0
    }
}

impl Stdout {
    /// Standard output, descriptor 1. It never fails.
    pub fn new() -> (r: Result<Stdout, std::io::Error>)
        ensures
            r matches Ok(s) && s@ == 1,
    {
        Ok(Stdout(FileDesc::new(stdout_fileno())))
    }

    /// The descriptor.
    pub fn fd(&self) -> (d: &FileDesc)
        ensures
            d@ == self@,
    {
        &self.0
    }
}

impl Stderr {
    /// Standard error, descriptor 2. It never fails.
    pub fn new() -> (r: Result<Stderr, std::io::Error>)
        ensures
            r matches Ok(s) && s@ == 2,
    {
        Ok(Stderr(FileDesc::new(stderr_fileno())))
    }

    /// The descriptor.
    pub fn fd(&self) -> (d: &FileDesc)
        ensures
            d@ == self@,
    {
        &self.0
    }
}

impl AsRawFd for Stdin {
    fn as_raw_fd(&self) -> (fd: i32)
        ensures
            fd == self@,
    {
        self.0.raw()
    }
}

impl AsRawFd for Stdout {
    fn as_raw_fd(&self) -> (fd: i32)
        ensures
            fd == self@,
    {
        self.0.raw()
    }
}

impl AsRawFd for Stderr {
    fn as_raw_fd(&self) -> (fd: i32)
        ensures
            fd == self@,
    {
        self.0.raw()
    }
}

/// The file status flags `previous` with the non-blocking flag `nonblock`
/// set or cleared.
pub open spec fn with_nonblocking(previous: i32, nonblocking: bool, nonblock: i32) -> i32 {
    if nonblocking { previous | nonblock } else { previous & !nonblock }
}

/// The flags to set so that a descriptor with the file status flags
/// `previous` becomes (non-)blocking, or `None` where they already are so
/// and nothing needs setting.
pub fn nonblocking_update(previous: i32, nonblocking: bool, nonblock: i32) -> (r: Option<i32>)
    ensures
        r == if with_nonblocking(previous, nonblocking, nonblock) == previous {
            Option::<i32>::None
        } else {
            Option::Some(with_nonblocking(previous, nonblocking, nonblock))
        },
{
    let new = if nonblocking {
        previous | nonblock
    } else {
        previous & !nonblock
    };
    if new != previous {
        Option::Some(new)
    } else {
        Option::None
    }
}

/// The count to ask `read(2)` or `write(2)` for, for a buffer of `len`
/// bytes: at most `SSIZE_MAX`, beyond which the result is unspecified.
pub fn io_len(len: usize) -> (n: usize)
    ensures
        n == if len <= isize::MAX { len as int } else { isize::MAX as int },
{
    let limit = isize::MAX as usize;
    if len <= limit { len } else { limit }
}

/// What `read(2)` or `write(2)` returning `ret` means: `None` for the
/// failure value `-1` (the cause is then in `errno`), else the byte count.
pub fn io_count(ret: isize) -> (r: Option<usize>)
    ensures
        ret == -1 <==> r is None,
        ret >= 0 ==> r == Option::Some(ret as usize),
{
    if ret == -1 {
        Option::None
    } else {
        Option::Some(#[verifier::truncate] (ret as usize))
    }
}

} // verus!
