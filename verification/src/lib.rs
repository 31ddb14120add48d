//! A transparent TCP dispatcher core: it inspects the first bytes of an
//! inbound stream, picks a backend endpoint, and accounts for the bytes a
//! relay moves in each direction. All I/O stays outside this crate; the
//! library holds the decision logic and its proofs.

pub mod config;
pub mod negotiator;
pub mod relay;
pub mod response;
pub mod scan;
pub mod selector;
pub mod session;
