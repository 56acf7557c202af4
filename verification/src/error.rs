// Errors returned by the client, and the text that names each of them.

use vstd::prelude::*;

use crate::text::{decimal, format_u64, push_str};

verus! {

/// Errors returned by client operations.
#[derive(Debug, Clone)]
pub enum SproutError {
    /// Not connected to a relay.
    NotConnected,
    /// Authentication is required for this operation.
    AuthRequired,
    /// Authentication was rejected by the relay.
    AuthFailed {
        /// Human-readable failure reason.
        message: String,
    },
    /// The API token has expired.
    TokenExpired,
    /// Invalid key material (nsec, hex, or generated key).
    InvalidKey {
        /// What was wrong with the key.
        message: String,
    },
    /// The relay returned an error response.
    RelayError {
        /// HTTP status code.
        status: u16,
        /// Error message from the relay.
        message: String,
    },
    /// A network error occurred (DNS, TCP, TLS).
    NetworkError {
        /// Error details.
        message: String,
    },
    /// A WebSocket transport error occurred.
    WebSocketError {
        /// Error details.
        message: String,
    },
    /// The requested resource was not found.
    NotFound {
        /// What was not found.
        entity: String,
    },
    /// The user lacks permission for this operation.
    PermissionDenied {
        /// What permission was missing.
        message: String,
    },
    /// Input validation failed.
    ValidationError {
        /// What was invalid.
        message: String,
    },
    /// Local SQLite storage error.
    StorageError {
        /// Error details.
        message: String,
    },
    /// An unexpected internal error.
    InternalError {
        /// Error details.
        message: String,
    },
}

/// The human-readable text of an error.
pub open spec fn error_text(e: SproutError) -> Seq<char> {
    match e {
        SproutError::NotConnected => "not connected to relay"@,
        SproutError::AuthRequired => "authentication required"@,
        SproutError::AuthFailed { message } => "authentication failed: "@ + message@,
        SproutError::TokenExpired => "token expired"@,
        SproutError::InvalidKey { message } => "invalid key material: "@ + message@,
        SproutError::RelayError { status, message } => "relay error ("@ + decimal(status as nat)
            + "): "@ + message@,
        SproutError::NetworkError { message } => "network error: "@ + message@,
        SproutError::WebSocketError { message } => "websocket error: "@ + message@,
        SproutError::NotFound { entity } => "not found: "@ + entity@,
        SproutError::PermissionDenied { message } => "permission denied: "@ + message@,
        SproutError::ValidationError { message } => "validation error: "@ + message@,
        SproutError::StorageError { message } => "storage error: "@ + message@,
        SproutError::InternalError { message } => "internal error: "@ + message@,
    }
}

/// `prefix` followed by `detail`.
fn prefixed(prefix: &str, detail: &str) -> (r: String)
    ensures
        r@ == prefix@ + detail@,
{
    let mut r = String::new();
    push_str(&mut r, prefix);
    push_str(&mut r, detail);
    r
}

impl SproutError {
    /// The human-readable text of this error.
    pub fn message_text(&self) -> (r: String)
        ensures
            r@ == error_text(*self),
    {
        match self {
            SproutError::NotConnected => "not connected to relay".to_string(),
            SproutError::AuthRequired => "authentication required".to_string(),
            SproutError::AuthFailed { message } => prefixed("authentication failed: ", message.as_str()),
            SproutError::TokenExpired => "token expired".to_string(),
            SproutError::InvalidKey { message } => prefixed("invalid key material: ", message.as_str()),
            SproutError::RelayError { status, message } => {
                let code = format_u64(*status as u64);
                let mut r = prefixed("relay error (", code.as_str());
                push_str(&mut r, "): ");
                push_str(&mut r, message.as_str());
                r
            },
            SproutError::NetworkError { message } => prefixed("network error: ", message.as_str()),
            SproutError::WebSocketError { message } => prefixed("websocket error: ", message.as_str()),
            SproutError::NotFound { entity } => prefixed("not found: ", entity.as_str()),
            SproutError::PermissionDenied { message } => prefixed("permission denied: ", message.as_str()),
            SproutError::ValidationError { message } => prefixed("validation error: ", message.as_str()),
            SproutError::StorageError { message } => prefixed("storage error: ", message.as_str()),
            SproutError::InternalError { message } => prefixed("internal error: ", message.as_str()),
        }
    }
}

} // verus!
