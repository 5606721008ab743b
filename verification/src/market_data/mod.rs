//! Market data access: the streaming client and the request/response clients.

use vstd::prelude::*;
use crate::error::Error;
use crate::market_data::websocket::auth::WebSocketConfigView;
use crate::market_data::websocket::event::EventHandler;
use crate::market_data::websocket::session::SessionView;
use crate::text::same_text;

pub mod rest;
pub mod websocket;

pub use rest::RestClient;
pub use websocket::WebSocketClient;

verus! {

/// Throughput mode of the streaming connection.
///
/// `Speed` trades completeness for latency and carries no aggregate or candle
/// channels; `Standard` carries every channel.
#[derive(Debug, Clone, Copy, PartialEq, Eq, Structural)]
pub enum Mode {
    Speed,
    Standard,
}

impl Mode {
    /// The name of the mode as the protocol spells it.
    pub open spec fn name(self) -> Seq<char> {
        match self {
            Mode::Speed => "speed"@,
            Mode::Standard => "standard"@,
        }
    }

    /// Whether the mode carries `channel`: `Speed` carries neither
    /// `aggregates` nor `candles`.
    pub open spec fn carries(self, channel: Seq<char>) -> bool {
        !(self is Speed && (channel == "aggregates"@ || channel == "candles"@))
    }

    /// Whether the mode carries `channel`.
    pub fn permits(&self, channel: &str) -> (permitted: bool)
        ensures
            permitted == self.carries(channel@),
    {
        match self {
            Mode::Speed => !(same_text(channel, "aggregates") || same_text(channel, "candles")),
            Mode::Standard => true,
        }
    }

    /// The name of the mode as the protocol spells it.
    pub fn as_str(&self) -> (s: &'static str)
        ensures
            s@ == self.name(),
    {
        match self {
            Mode::Speed => "speed",
            Mode::Standard => "standard",
        }
    }
}

/// Market data wrapper combining REST and WebSocket clients
pub struct MarketData<H: EventHandler> {
    pub websocket_client: WebSocketClient<H>,
    pub rest_client: RestClient,
}

impl<H: EventHandler> MarketData<H> {
    /// Both clients for `sdk_token`: a streaming client in `mode` that has
    /// not connected yet, and a request/response client.
    pub fn new(sdk_token: String, mode: Mode) -> (made: Result<Self, Error>)
        ensures
            made matches Ok(data) && data.websocket_client@ == SessionView::<H>::fresh(
                mode,
                WebSocketConfigView::initial().with_sdk_token(sdk_token@),
            ) && data.rest_client.sdk_token() == sdk_token@,
    {
        let websocket_client = match WebSocketClient::new(mode, sdk_token.clone()) {
            Ok(client) => client,
            Err(error) => {
                return Err(error);
            },
        };
        let rest_client = match RestClient::new(sdk_token) {
            Ok(client) => client,
            Err(error) => {
                return Err(error);
            },
        };
        Ok(Self { websocket_client, rest_client })
    }
}

} // verus!
