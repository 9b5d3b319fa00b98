//! Peer-to-peer synchronization core for a shared 3D world: wire messages and
//! their codec, prop-ownership (authority) resolution, replication decisions,
//! chunked asset transfer with backpressure, and the voice-frame pipeline.

pub mod ids;
pub mod messages;
pub mod authority;
pub mod codec;
pub mod router;
pub mod sync;
pub mod tick;
pub mod transfer;
pub mod voice;
pub mod world;
