//! Outbound-message utilities for a peer-to-peer transport: a priority
//! classifier that maps serialized messages to one of four ordered tiers,
//! and a payload codec that compresses large messages reversibly.

pub mod codec;
pub mod priority;

pub use codec::maybe_compress;
pub use codec::maybe_decompress;
pub use codec::DecodeError;
pub use priority::MessagePriority;
