// The relay connection: frames, subscriptions and the connection state
// machine.

/// Client-to-relay frames.
pub mod protocol;
/// Active subscriptions, replayed after every reconnect.
pub mod registry;
/// The decisions of a connection: handshake, message handling, reconnects.
pub mod session;
/// Subscription filters and ids.
pub mod subscription;
