//! Substream-level logic of the rendezvous protocol: a per-substream driver that
//! turns completed stream operations into typed protocol events, specialised for
//! substreams the local peer opens and for substreams a remote peer opens, and the
//! identity check that runs on a connection before any substream exists.

pub mod codec;
pub mod driver;
pub mod dtls;
pub mod handler;
pub mod substreams;
pub mod trace;
