//! The session as a state machine: what every operation of the client does
//! to the state of the session and what it answers.

use vstd::prelude::*;
use crate::error::ErrorView;
use crate::market_data::Mode;
use crate::market_data::websocket::auth::{AuthenticationState, WebSocketConfigView};
use crate::market_data::websocket::event::{DispatcherView, WebSocketEventView};
use crate::market_data::websocket::heartbeat::{HeartbeatStep, HeartbeatView};
use crate::market_data::websocket::json::ParamView;
use crate::market_data::websocket::message::{
    handshake_of,
    text_member,
    InboundFrameView,
    OutboundFrameView,
    OutboundMessageView,
    ServerSignal,
};

verus! {

/// Description of a send attempted without a write path.
pub const NOT_CONNECTED_MESSAGE: &'static str = "WebSocket not connected";

/// Description of a send on a write path that takes no more frames.
pub const SEND_FAILED_MESSAGE: &'static str = "Failed to send message";

/// What the description of a transport that did not open starts with.
pub const CONNECT_FAILED_PREFIX: &'static str = "Failed to connect: ";

/// The path on which the session hands frames to the transport.
#[derive(Debug, Clone, Copy, PartialEq, Eq, Structural)]
pub enum WritePath {
    /// There is none: before a connection and after a disconnection.
    Absent,
    /// Frames handed over are written to the transport.
    Open,
    /// The path exists and takes no more frames: the transport behind it is
    /// gone.
    Closed,
}

/// What the reader of inbound frames does after a frame.
#[derive(Debug, Clone, Copy, PartialEq, Eq, Structural)]
pub enum ReadStep {
    /// It reads the next frame.
    Continue,
    /// It stops: the connection has been closed or has failed.
    Stop,
}

/// Mathematical view of the client: the state of the session.
pub struct SessionView<H> {
    pub mode: Mode,
    pub config: WebSocketConfigView,
    pub auth_state: AuthenticationState,
    pub heartbeat: HeartbeatView,
    pub dispatcher: DispatcherView<H>,
    pub write_path: WritePath,
    /// The frames handed to the write path and not yet taken by the
    /// transport, oldest first.
    pub outbox: Seq<OutboundFrameView>,
}

/// The outcome of opening the transport, with the reason of a failure as a
/// character sequence.
pub open spec fn transport_view(transport: Result<(), String>) -> Result<(), Seq<char>> {
    match transport {
        Ok(()) => Ok(()),
        Err(reason) => Err(reason@),
    }
}

/// The liveness probe that the monitor sends: a probe with an empty tag.
pub open spec fn liveness_probe() -> OutboundMessageView {
    OutboundMessageView::Ping { state: Seq::empty() }
}

/// What the reader does after `frame`: it stops after the closing frame and
/// after a failure.
pub open spec fn read_step(frame: InboundFrameView) -> ReadStep {
    match frame {
        InboundFrameView::Close { .. } => ReadStep::Stop,
        InboundFrameView::Failure(_) => ReadStep::Stop,
        _ => ReadStep::Continue,
    }
}

impl<H> SessionView<H> {
    /// The session of a new client: nothing sent, nothing received, no
    /// handler.
    pub open spec fn fresh(mode: Mode, config: WebSocketConfigView) -> Self {
        SessionView {
            mode,
            config,
            auth_state: AuthenticationState::Pending,
            heartbeat: HeartbeatView::idle(),
            dispatcher: DispatcherView::empty(),
            write_path: WritePath::Absent,
            outbox: Seq::empty(),
        }
    }

    /// The session after `handler` has been registered.
    pub open spec fn registered(self, handler: H) -> Self {
        SessionView { dispatcher: self.dispatcher.registered(handler), ..self }
    }

    /// The session after `event` has been delivered to the handlers.
    pub open spec fn emitted(self, event: WebSocketEventView) -> Self {
        SessionView { dispatcher: self.dispatcher.emitted(event), ..self }
    }

    /// The answer to a send of a message whose encoding gave `encoded`:
    /// without a write path nothing can be sent; an encoding that failed is
    /// reported; a closed write path takes nothing.
    pub open spec fn send_outcome(self, encoded: Result<Seq<char>, Seq<char>>) -> Result<
        (),
        ErrorView,
    > {
        match self.write_path {
            WritePath::Absent => Err(ErrorView::WebSocket(NOT_CONNECTED_MESSAGE@)),
            WritePath::Closed => match encoded {
                Ok(_) => Err(ErrorView::WebSocket(SEND_FAILED_MESSAGE@)),
                Err(reason) => Err(ErrorView::Json(reason)),
            },
            WritePath::Open => match encoded {
                Ok(_) => Ok(()),
                Err(reason) => Err(ErrorView::Json(reason)),
            },
        }
    }

    /// The session after a send of a message whose encoding gave `encoded`:
    /// a send that succeeds queues exactly one text frame, any other leaves
    /// the session as it was.
    pub open spec fn after_send(self, encoded: Result<Seq<char>, Seq<char>>) -> Self {
        match encoded {
            Ok(text) if self.write_path is Open => SessionView {
                outbox: self.outbox.push(OutboundFrameView::Text(text)),
                ..self
            },
            _ => self,
        }
    }

    /// The reason for which the mode of the session refuses a subscription
    /// with `params`, if it does: the channel they name is one that the mode
    /// does not carry.
    pub open spec fn refusal(self, params: Seq<ParamView>) -> Option<ErrorView> {
        match text_member(params, "channel"@) {
            Some(channel) if !self.mode.carries(channel) => Some(
                ErrorView::InvalidModeForChannel { channel, mode: self.mode.name() },
            ),
            _ => None,
        }
    }

    /// The answer to a subscription with `params`.
    pub open spec fn subscribe_outcome(self, params: Seq<ParamView>) -> Result<(), ErrorView> {
        match self.refusal(params) {
            Some(error) => Err(error),
            None => self.send_outcome(OutboundMessageView::Subscribe(params).wire_text()),
        }
    }

    /// The session after a subscription with `params`: a refused
    /// subscription sends nothing.
    pub open spec fn after_subscribe(self, params: Seq<ParamView>) -> Self {
        match self.refusal(params) {
            Some(_) => self,
            None => self.after_send(OutboundMessageView::Subscribe(params).wire_text()),
        }
    }

    /// The session once the transport is open: a new, empty write path, and
    /// the `Connect` event delivered.
    pub open spec fn linked(self) -> Self {
        SessionView { write_path: WritePath::Open, outbox: Seq::empty(), ..self }.emitted(
            WebSocketEventView::Connect,
        )
    }

    /// The answer of the handshake when encoding it gave `encoded`.
    pub open spec fn handshake_outcome_with(self, encoded: Result<Seq<char>, Seq<char>>) -> Result<
        (),
        ErrorView,
    > {
        self.send_outcome(encoded)
    }

    /// The session after the handshake when encoding it gave `encoded`: once
    /// the handshake is handed to the write path the server's answer is
    /// awaited.
    pub open spec fn after_handshake_with(self, encoded: Result<Seq<char>, Seq<char>>) -> Self {
        if self.send_outcome(encoded) is Ok {
            SessionView {
                auth_state: self.auth_state.handshake_sent(),
                ..self.after_send(encoded)
            }
        } else {
            self
        }
    }

    /// The answer of the handshake: without exactly one credential it fails
    /// before anything is sent.
    pub open spec fn handshake_outcome(self) -> Result<(), ErrorView> {
        match handshake_of(self.config) {
            Ok(handshake) => self.handshake_outcome_with(handshake.wire_text()),
            Err(error) => Err(error),
        }
    }

    /// The session after the handshake: without exactly one credential the
    /// session is unauthenticated and nothing has been sent.
    pub open spec fn after_handshake(self) -> Self {
        match handshake_of(self.config) {
            Ok(handshake) => self.after_handshake_with(handshake.wire_text()),
            Err(_) => SessionView { auth_state: AuthenticationState::Unauthenticated, ..self },
        }
    }

    /// The session after the handshake of a connection attempt has answered
    /// `handshake`: success starts the liveness monitor, failure abandons
    /// the attempt and with it the transport behind the write path.
    pub open spec fn settled(self, handshake: Result<(), ErrorView>) -> Self {
        match handshake {
            Ok(()) => SessionView { heartbeat: self.heartbeat.started(), ..self },
            Err(_) => SessionView { write_path: WritePath::Closed, ..self },
        }
    }

    /// The answer to the opening of the transport.
    pub open spec fn opened_outcome(self) -> Result<(), ErrorView> {
        self.linked().handshake_outcome()
    }

    /// The session after the transport has opened: linked, then the
    /// handshake, then what follows from its answer.
    pub open spec fn after_opened(self) -> Self {
        self.linked().after_handshake().settled(self.linked().handshake_outcome())
    }

    /// The session after `frame` has been read.
    ///
    /// Every text frame is delivered as `Message`. An acknowledgement or a
    /// rejection of the credential moves the authentication state and is
    /// delivered as an event of its own; an answer to a probe clears the
    /// count of unanswered probes. The closing frame is delivered as
    /// `Disconnect`, a malformed frame and a failure as `Error`. Other frames
    /// change nothing.
    pub open spec fn after_frame(self, frame: InboundFrameView) -> Self {
        match frame {
            InboundFrameView::Text { text, signal } => {
                let noted = self.emitted(WebSocketEventView::Message(text));
                match signal {
                    ServerSignal::Authenticated => SessionView {
                        auth_state: noted.auth_state.acknowledged(),
                        ..noted
                    }.emitted(WebSocketEventView::Authenticated(text)),
                    ServerSignal::Rejected => SessionView {
                        auth_state: noted.auth_state.rejected(),
                        ..noted
                    }.emitted(WebSocketEventView::Unauthenticated(text)),
                    ServerSignal::Pong => SessionView {
                        heartbeat: noted.heartbeat.answered(),
                        ..noted
                    },
                    ServerSignal::Other => noted,
                }
            },
            InboundFrameView::Close { code, reason } => self.emitted(
                WebSocketEventView::Disconnect { code, reason },
            ),
            InboundFrameView::Malformed(description) => self.emitted(
                WebSocketEventView::Error(description),
            ),
            InboundFrameView::Failure(description) => self.emitted(
                WebSocketEventView::Error(description),
            ),
            _ => self,
        }
    }

    /// What the liveness monitor decides at a tick when encoding the probe
    /// gave `encoded`: a monitor that is not running, or that cannot send,
    /// is halted; otherwise the probe is sent and counted.
    pub open spec fn tick_step(self, encoded: Result<Seq<char>, Seq<char>>) -> HeartbeatStep {
        if !self.heartbeat.running || self.send_outcome(encoded) is Err {
            HeartbeatStep::Halted
        } else {
            self.heartbeat.step()
        }
    }

    /// The session after a tick of the liveness monitor when encoding the
    /// probe gave `encoded`.
    ///
    /// A monitor that cannot send stops without a word and counts nothing.
    /// A monitor that can send queues the probe and counts it; when it then
    /// counts more unanswered probes than the threshold allows, it stops.
    /// The tick closes nothing: the write path, the authentication state and
    /// the count stay for the owner of the session to act on.
    pub open spec fn after_tick(self, encoded: Result<Seq<char>, Seq<char>>) -> Self {
        if !self.heartbeat.running {
            self
        } else if self.send_outcome(encoded) is Err {
            SessionView { heartbeat: self.heartbeat.halted(), ..self }
        } else {
            SessionView { heartbeat: self.heartbeat.probed(), ..self.after_send(encoded) }
        }
    }

    /// The session after the transport has stopped taking frames.
    pub open spec fn after_writer_closed(self) -> Self {
        if self.write_path is Open {
            SessionView { write_path: WritePath::Closed, ..self }
        } else {
            self
        }
    }

    /// The session after the queued frames have been taken.
    pub open spec fn drained(self) -> Self {
        SessionView { outbox: Seq::empty(), ..self }
    }

    /// The session after a disconnection: the closing frame is queued if the
    /// write path was open, the write path is gone, the authentication state
    /// is `Pending` and no probe counts as unanswered.
    pub open spec fn disconnected(self) -> Self {
        SessionView {
            outbox: if self.write_path is Open {
                self.outbox.push(OutboundFrameView::Close)
            } else {
                self.outbox
            },
            write_path: WritePath::Absent,
            auth_state: AuthenticationState::Pending,
            heartbeat: self.heartbeat.answered(),
            ..self
        }
    }

    /// What a caller waiting for the handshake learns at the deadline.
    pub open spec fn deadline_outcome(self) -> Result<(), ErrorView> {
        match self.auth_state.outcome() {
            Some(outcome) => outcome,
            None => Err(ErrorView::AuthenticationTimeout),
        }
    }

    /// The session after the handshake deadline has passed.
    pub open spec fn after_deadline(self) -> Self {
        SessionView { auth_state: self.auth_state.expired(), ..self }
    }

    /// What a caller waiting for the handshake learns when `arrivals` are
    /// the frames that arrive before the deadline, in order.
    pub open spec fn await_outcome(self, arrivals: Seq<InboundFrameView>) -> Result<(), ErrorView>
        decreases arrivals.len(),
    {
        if self.auth_state.is_settled() || arrivals.len() == 0 {
            self.deadline_outcome()
        } else if read_step(arrivals[0]) is Stop {
            self.after_frame(arrivals[0]).deadline_outcome()
        } else {
            self.after_frame(arrivals[0]).await_outcome(arrivals.drop_first())
        }
    }

    /// The session after waiting for the handshake when `arrivals` are the
    /// frames that arrive before the deadline, in order: frames are read
    /// until the authentication state is settled; if it is not settled when
    /// the frames end, or when the reader stops, the deadline passes.
    pub open spec fn after_await(self, arrivals: Seq<InboundFrameView>) -> Self
        decreases arrivals.len(),
    {
        if self.auth_state.is_settled() {
            self
        } else if arrivals.len() == 0 {
            self.after_deadline()
        } else if read_step(arrivals[0]) is Stop {
            self.after_frame(arrivals[0]).after_deadline()
        } else {
            self.after_frame(arrivals[0]).after_await(arrivals.drop_first())
        }
    }

    /// The answer of a connection attempt: `target` is the address to
    /// connect to or the reason for which there is none, `transport` says
    /// whether the transport opened, `arrivals` are the frames that arrive
    /// before the handshake deadline.
    pub open spec fn connect_outcome(
        self,
        target: Result<Seq<char>, ErrorView>,
        transport: Result<(), Seq<char>>,
        arrivals: Seq<InboundFrameView>,
    ) -> Result<(), ErrorView> {
        match target {
            Err(error) => Err(error),
            Ok(_) => match transport {
                Err(reason) => Err(ErrorView::WebSocket(CONNECT_FAILED_PREFIX@ + reason)),
                Ok(()) => match self.opened_outcome() {
                    Err(error) => Err(error),
                    Ok(()) => self.after_opened().await_outcome(arrivals),
                },
            },
        }
    }

    /// The session after a connection attempt.
    pub open spec fn after_connect(
        self,
        target: Result<Seq<char>, ErrorView>,
        transport: Result<(), Seq<char>>,
        arrivals: Seq<InboundFrameView>,
    ) -> Self {
        if target is Err || transport is Err {
            self
        } else if self.opened_outcome() is Err {
            self.after_opened()
        } else {
            self.after_opened().after_await(arrivals)
        }
    }
}

} // verus!
