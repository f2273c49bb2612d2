//! Cross-thread texture provisioning: a registry of live textures, a
//! frame provider that never blocks the engine's render thread, the
//! decisions of the frame-producing pipeline and of the creation handshake.

pub mod error;
pub mod registry;
pub mod channel;
pub mod provider;
pub mod pipeline;
pub mod handshake;
pub mod greeting;
