//! A netcat relay: the buffers, poll flags and decisions that move bytes
//! between standard input/output and a network socket, and the command
//! line that configures it.

pub mod buffer;
pub mod cli;
pub mod poll;
pub mod relay;
pub mod stdio;

pub use buffer::{Buffer, Device, IoResult, Read, Socket, Write};
pub use cli::{parse_command_line, Command, Connection, Family, Flags, Opts, Transport};
pub use poll::{PollError, PollEvent, PollFd, PollResult, NOPOLLFD};
pub use relay::Relay;
pub use stdio::{AsRawFd, FileDesc, Stderr, Stdin, Stdout};
