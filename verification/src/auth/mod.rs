//! Authentication: key management, NIP-42 relay auth, NIP-98 HTTP auth and
//! API tokens.

/// Keypair management.
pub mod keys;
/// NIP-42 WebSocket auth events.
pub mod nip42;
/// NIP-98 HTTP auth headers.
pub mod nip98;
/// API token minting and caching decisions.
pub mod token;
