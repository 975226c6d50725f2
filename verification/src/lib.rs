//! Authenticated symmetric encryption of fully buffered payloads.
//!
//! The crate resolves endpoint tokens (a path, or `-` for the standard
//! stream), rejects requests in which several roles claim the same standard
//! stream, and drives the XSalsa20-Poly1305 secret box over byte buffers.
//! Opening files and moving bytes is left to the caller.

pub mod cipher;
pub mod endpoint;
pub mod error;
pub mod material;
