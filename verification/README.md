# netpoll

Socket and QUIC-style stream examples, with their decisions and state
machines verified by Verus.

- `src/` is the verified library:
  - `buffer`: the `bytes` crate's buffers as the library uses them, with the
    specifications of the methods it calls.
  - `message`: requests and responses between handles and the connection task.
  - `command`: the state machine that carries one request to its response.
  - `client`: the decisions of the stream and datagram handles.
  - `slots`: a handle's pending commands, one per polling context.
  - `recv_stream`: bytes received for a stream and handed out in order.
  - `link`: the emulated connection task with its congestion window.
  - `readiness`: decisions of the readiness loops around sockets and pipes.
  - `endpoint`: address, interface and notification decisions.
- `app/` runs the example programs: channels, timers, sockets, system calls
  and platform APIs, feeding what they report to the library.
- `tests/` exercises the library on concrete values.
