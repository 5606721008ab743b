//! The streaming client: credentials, frames, events, liveness and the
//! session that composes them.

pub mod auth;
pub mod client;
pub mod endpoint;
pub mod event;
pub mod heartbeat;
pub mod json;
pub mod laws;
pub mod message;
pub mod session;

pub use auth::{AuthenticationState, Credential, WebSocketConfig};
pub use client::WebSocketClient;
pub use event::{EventDispatcher, EventHandler, SilentHandler, WebSocketEvent};
pub use heartbeat::{HeartbeatMonitor, HeartbeatStep};
pub use message::{
    InboundFrame,
    OutboundFrame,
    OutboundMessage,
    ServerSignal,
    SubscriptionParams,
    TransportFault,
};
pub use json::{Param, ParamValue};
pub use session::{ReadStep, WritePath};
