//! Synchronization core of a networked two-player chess client.
//!
//! Two peers stay in lock-step by relaying move messages over a TCP
//! connection.  This library holds everything about that link that can be
//! stated and proved: the fixed-size frame codec, the square and move
//! notation, the transport worker's polling decisions, and the application
//! worker's handling of local clicks and remote moves.  The socket, the
//! channels between the two worker threads, and the chess rules engine are
//! collaborators that the surrounding program drives; this library tells it,
//! for every observation they can produce, exactly what to do next.

pub mod codec;
pub mod notation;
pub mod session;
pub mod transport;
