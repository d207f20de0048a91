# netcat

A netcat that relays bytes between standard input/output and a TCP or UDP
socket, waiting on the descriptors with `poll(2)`.

- `src/` is the verified library: the relay buffers and the `Read`/`Write`
  traits that fill and drain them, with a byte model (`Device`) that a
  verified device can keep (`buffer`), poll flags (`poll`), the
  decisions of the relay loop (`relay`), the command line and the connection
  it describes (`cli`), and the standard descriptors (`stdio`).
- `app/` is the program: arguments, sockets, raw descriptor I/O and the
  `poll(2)` loop that drives the library's `Relay`.
- `tests/` exercises the library with in-memory sources and sinks.
