//! Verified core of a set of socket and QUIC-style stream examples: the
//! request/response protocol between stream handles and an emulated
//! connection task, the command state machine that carries one request, the
//! buffered stream reader, the emulated datagram link with its congestion
//! window, and the decisions of the readiness loops around sockets and pipes.
pub mod buffer;
pub mod message;
pub mod command;
pub mod recv_stream;
pub mod link;
pub mod client;
pub mod readiness;
pub mod endpoint;
pub mod slots;
