//! Verified building blocks of a small async runtime, an actor layer and an
//! NBD server: a chunked byte buffer, a watched value, the runtime's
//! scheduling choices, the actor message loop's decisions, an in-memory disk
//! image, byte-order wrappers and the old-style NBD negotiation header.
pub mod actor;
pub mod buffers;
pub mod endian;
pub mod image;
pub mod io;
pub mod proto;
pub mod runtime;
pub mod sync;
