//! Protocol constants: event names, fixed messages and timing values.

use vstd::prelude::*;

verus! {

pub const AUTHENTICATION_TIMEOUT_MESSAGE: &'static str = "Authentication timeout";

pub const CONNECT_EVENT: &'static str = "connect";

pub const DISCONNECT_EVENT: &'static str = "disconnect";

pub const MESSAGE_EVENT: &'static str = "message";

pub const ERROR_EVENT: &'static str = "error";

pub const AUTHENTICATED_EVENT: &'static str = "authenticated";

pub const MISSING_CREDENTIALS_MESSAGE: &'static str =
    "One of the \"apiKey\", \"bearerToken\", or \"sdkToken\" options must be specified";

pub const UNAUTHENTICATED_EVENT: &'static str = "unauthenticated";

pub const UNAUTHENTICATED_MESSAGE: &'static str = "Unauthenticated";

/// WebSocket connection timeout in seconds
pub const WEBSOCKET_TIMEOUT: u64 = 5;

/// Authentication timeout in seconds
pub const AUTH_TIMEOUT: u64 = 5;

/// Ping interval in seconds
pub const PING_INTERVAL: u64 = 30;

/// Maximum missed pongs before disconnect
pub const MAX_MISSED_PONGS: u32 = 2;

} // verus!
