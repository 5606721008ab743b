//! The client: the session's state and the operations on it.
//!
//! The client decides; it performs no input or output. Whoever drives it
//! opens the transport, hands over the frames that arrive, writes the frames
//! that the client queues, and tells it when the timers fire.

use vstd::prelude::*;
use vstd::string::StringExecFns;
use crate::error::{outcome_view, text_answer, Error, ErrorView};
use crate::market_data::Mode;
use crate::market_data::websocket::auth::{
    AuthenticationState,
    WebSocketConfig,
    WebSocketConfigView,
};
use crate::market_data::websocket::endpoint::{
    connect_target,
    target_of,
    url_parse,
};
use crate::market_data::websocket::event::{EventDispatcher, EventHandler, WebSocketEvent};
use crate::market_data::websocket::heartbeat::{HeartbeatMonitor, HeartbeatStep};
use crate::market_data::websocket::laws::a_wait_fails_by_rejection_or_timeout;
use crate::market_data::websocket::message::{
    decoded_signal,
    InboundFrame,
    InboundFrameView,
    OutboundFrame,
    OutboundFrameView,
    OutboundMessage,
    OutboundMessageView,
    ServerSignal,
    SubscriptionParams,
};
use crate::market_data::websocket::session::{
    liveness_probe,
    read_step,
    ReadStep,
    transport_view,
    SessionView,
    WritePath,
    CONNECT_FAILED_PREFIX,
    NOT_CONNECTED_MESSAGE,
    SEND_FAILED_MESSAGE,
};
use crate::text::text_outcome;

verus! {

/// WebSocket client
pub struct WebSocketClient<H: EventHandler> {
    mode: Mode,
    config: WebSocketConfig,
    auth_state: AuthenticationState,
    heartbeat: HeartbeatMonitor,
    dispatcher: EventDispatcher<H>,
    write_path: WritePath,
    outbox: Vec<OutboundFrame>,
}

impl<H: EventHandler> View for WebSocketClient<H> {
    type V = SessionView<H>;

    closed spec fn view(&self) -> SessionView<H> {
        SessionView {
            mode: self.mode,
            config: self.config@,
            auth_state: self.auth_state,
            heartbeat: self.heartbeat@,
            dispatcher: self.dispatcher@,
            write_path: self.write_path,
            outbox: self.outbox.deep_view(),
        }
    }
}

impl<H: EventHandler> WebSocketClient<H> {
    /// A client in `mode` that presents `sdk_token` to the streaming
    /// service's address.
    pub fn new(mode: Mode, sdk_token: String) -> (made: Result<Self, Error>)
        ensures
            made matches Ok(client) && client@ == SessionView::<H>::fresh(
                mode,
                WebSocketConfigView::initial().with_sdk_token(sdk_token@),
            ),
    {
        Ok(Self::with_config(mode, WebSocketConfig::new().with_sdk_token(sdk_token)))
    }

    /// A client in `mode` under `config`.
    pub fn with_config(mode: Mode, config: WebSocketConfig) -> (client: Self)
        ensures
            client@ == SessionView::<H>::fresh(mode, config@),
    {
        let client = Self {
            mode,
            config,
            auth_state: AuthenticationState::Pending,
            heartbeat: HeartbeatMonitor::new(),
            dispatcher: EventDispatcher::new(),
            write_path: WritePath::Absent,
            outbox: Vec::new(),
        };
        assert(client.outbox.deep_view() =~= Seq::<OutboundFrameView>::empty());
        client
    }

    /// Add event handler
    pub fn add_event_handler(&mut self, handler: H)
        ensures
            final(self)@ == old(self)@.registered(handler),
    {
        self.dispatcher.add_event_handler(handler);
    }

    /// Emit event to all handlers
    pub fn emit_event(&mut self, event: &WebSocketEvent)
        ensures
            final(self)@ == old(self)@.emitted(event@),
    {
        self.dispatcher.emit(event);
    }

    /// Get current authentication state
    pub fn auth_state(&self) -> (state: AuthenticationState)
        ensures
            state == self@.auth_state,
    {
        self.auth_state
    }

    /// The throughput mode of the session.
    pub fn mode(&self) -> (mode: Mode)
        ensures
            mode == self@.mode,
    {
        self.mode
    }

    /// The write path of the session.
    pub fn write_path(&self) -> (path: WritePath)
        ensures
            path == self@.write_path,
    {
        self.write_path
    }

    /// Probes sent since the last answer of the server.
    pub fn missed_pongs(&self) -> (count: u32)
        ensures
            count == self@.heartbeat.missed_pongs,
    {
        self.heartbeat.missed_pongs()
    }

    /// How many handlers are registered.
    pub fn handler_count(&self) -> (count: usize)
        ensures
            count == self@.dispatcher.handlers.len(),
    {
        self.dispatcher.len()
    }

    /// How many frames are queued for the transport.
    pub fn queued(&self) -> (count: usize)
        ensures
            count == self@.outbox.len(),
    {
        self.outbox.len()
    }

    /// Takes the frames queued for the transport, oldest first.
    pub fn take_outbound(&mut self) -> (frames: Vec<OutboundFrame>)
        ensures
            frames.deep_view() == old(self)@.outbox,
            final(self)@ == old(self)@.drained(),
    {
        let mut frames: Vec<OutboundFrame> = Vec::new();
        core::mem::swap(&mut self.outbox, &mut frames);
        assert(self.outbox.deep_view() =~= Seq::<OutboundFrameView>::empty());
        frames
    }

    /// Sends a message of which `encoded` is the encoding: queues its text
    /// on an open write path.
    pub fn send_encoded(&mut self, encoded: Result<String, String>) -> (outcome: Result<(), Error>)
        ensures
            outcome_view(outcome) == old(self)@.send_outcome(text_outcome(encoded)),
            final(self)@ == old(self)@.after_send(text_outcome(encoded)),
    {
        match self.write_path {
            WritePath::Absent => Err(Error::websocket(NOT_CONNECTED_MESSAGE)),
            WritePath::Closed => match encoded {
                Ok(_) => Err(Error::websocket(SEND_FAILED_MESSAGE)),
                Err(reason) => Err(Error::Json(reason)),
            },
            WritePath::Open => match encoded {
                Ok(text) => {
                    self.outbox.push(OutboundFrame::Text(text));
                    assert(self.outbox.deep_view() =~= old(self).outbox.deep_view().push(
                        OutboundFrameView::Text(text@),
                    ));
                    Ok(())
                },
                Err(reason) => Err(Error::Json(reason)),
            },
        }
    }

    /// Send message to WebSocket
    pub fn send_message(&mut self, message: OutboundMessage) -> (outcome: Result<(), Error>)
        ensures
            outcome_view(outcome) == old(self)@.send_outcome(message@.wire_text()),
            final(self)@ == old(self)@.after_send(message@.wire_text()),
            outcome is Ok <==> old(self)@.write_path is Open,
    {
        let encoded = message.encode();
        self.send_encoded(encoded)
    }

    /// Send ping message
    pub fn ping(&mut self, message: &str) -> (outcome: Result<(), Error>)
        ensures
            outcome_view(outcome) == old(self)@.send_outcome(
                (OutboundMessageView::Ping { state: message@ }).wire_text(),
            ),
            final(self)@ == old(self)@.after_send(
                (OutboundMessageView::Ping { state: message@ }).wire_text(),
            ),
            outcome is Ok <==> old(self)@.write_path is Open,
    {
        self.send_message(OutboundMessage::Ping { state: String::from_str(message) })
    }

    /// Subscribe to channel
    pub fn subscribe(&mut self, params: SubscriptionParams) -> (outcome: Result<(), Error>)
        ensures
            outcome_view(outcome) == old(self)@.subscribe_outcome(params@),
            final(self)@ == old(self)@.after_subscribe(params@),
            outcome is Ok <==> old(self)@.refusal(params@) is None && old(self)@.write_path
                is Open,
    {
        let refused = match params.channel() {
            Some(channel) => {
                if self.mode.permits(channel) {
                    None
                } else {
                    Some(
                        Error::InvalidModeForChannel {
                            channel: String::from_str(channel),
                            mode: String::from_str(self.mode.as_str()),
                        },
                    )
                }
            },
            None => None,
        };
        match refused {
            Some(error) => Err(error),
            None => self.send_message(OutboundMessage::Subscribe(params)),
        }
    }

    /// Unsubscribe from channel
    pub fn unsubscribe(&mut self, params: SubscriptionParams) -> (outcome: Result<(), Error>)
        ensures
            outcome_view(outcome) == old(self)@.send_outcome(
                OutboundMessageView::Unsubscribe(params@).wire_text(),
            ),
            final(self)@ == old(self)@.after_send(
                OutboundMessageView::Unsubscribe(params@).wire_text(),
            ),
            outcome is Ok <==> old(self)@.write_path is Open,
    {
        self.send_message(OutboundMessage::Unsubscribe(params))
    }

    /// Get current subscriptions
    pub fn subscriptions(&mut self) -> (outcome: Result<(), Error>)
        ensures
            outcome_view(outcome) == old(self)@.send_outcome(
                OutboundMessageView::Subscriptions.wire_text(),
            ),
            final(self)@ == old(self)@.after_send(OutboundMessageView::Subscriptions.wire_text()),
            outcome is Ok <==> old(self)@.write_path is Open,
    {
        self.send_message(OutboundMessage::Subscriptions)
    }
}

impl<H: EventHandler> WebSocketClient<H> {
    /// Notes that the transport is open: makes a new, empty write path and
    /// delivers `Connect`.
    pub fn link(&mut self)
        ensures
            final(self)@ == old(self)@.linked(),
    {
        self.write_path = WritePath::Open;
        self.outbox = Vec::new();
        assert(self.outbox.deep_view() =~= Seq::<OutboundFrameView>::empty());
        self.dispatcher.emit(&WebSocketEvent::Connect);
    }

    /// Sends the handshake of which `encoded` is the encoding; once it is
    /// handed to the write path the server's answer is awaited.
    pub fn handshake_with(&mut self, encoded: Result<String, String>) -> (outcome: Result<
        (),
        Error,
    >)
        ensures
            outcome_view(outcome) == old(self)@.handshake_outcome_with(text_outcome(encoded)),
            final(self)@ == old(self)@.after_handshake_with(text_outcome(encoded)),
    {
        match self.send_encoded(encoded) {
            Ok(()) => {
                self.auth_state = AuthenticationState::Authenticating;
                Ok(())
            },
            Err(error) => Err(error),
        }
    }

    /// Handle authentication
    ///
    /// Sends the handshake for the one configured credential. Without
    /// exactly one credential nothing is sent and the session is
    /// unauthenticated.
    pub fn handle_authentication(&mut self) -> (outcome: Result<(), Error>)
        ensures
            outcome_view(outcome) == old(self)@.handshake_outcome(),
            final(self)@ == old(self)@.after_handshake(),
            outcome is Ok <==> old(self)@.write_path is Open
                && old(self)@.config.credential_count() == 1,
    {
        match OutboundMessage::handshake(&self.config) {
            Ok(handshake) => {
                let encoded = handshake.encode();
                self.handshake_with(encoded)
            },
            Err(error) => {
                self.auth_state = AuthenticationState::Unauthenticated;
                Err(error)
            },
        }
    }

    /// Applies what follows from the answer `handshake` of the handshake of
    /// a connection attempt, and hands the answer on.
    pub fn settle_opening(&mut self, handshake: Result<(), Error>) -> (outcome: Result<(), Error>)
        ensures
            outcome == handshake,
            final(self)@ == old(self)@.settled(outcome_view(handshake)),
    {
        match &handshake {
            Ok(()) => {
                self.heartbeat.start();
            },
            Err(_) => {
                self.write_path = WritePath::Closed;
            },
        }
        handshake
    }

    /// Notes that the transport is open and begins the session on it: the
    /// write path, the `Connect` event, the handshake, the liveness monitor.
    pub fn transport_opened(&mut self) -> (outcome: Result<(), Error>)
        ensures
            outcome_view(outcome) == old(self)@.opened_outcome(),
            final(self)@ == old(self)@.after_opened(),
            outcome is Ok <==> old(self)@.config.credential_count() == 1,
            outcome matches Err(error) ==> error@ == ErrorView::MissingCredentials,
    {
        self.link();
        let handshake = self.handle_authentication();
        self.settle_opening(handshake)
    }

    /// Takes in a frame that arrived, and says whether the reader goes on.
    pub fn on_frame(&mut self, frame: &InboundFrame) -> (step: ReadStep)
        ensures
            step == read_step(frame@),
            final(self)@ == old(self)@.after_frame(frame@),
    {
        match frame {
            InboundFrame::Text { text, signal } => {
                self.dispatcher.emit(&WebSocketEvent::Message(text.clone()));
                match signal {
                    ServerSignal::Authenticated => {
                        self.auth_state = self.auth_state.on_acknowledged();
                        self.dispatcher.emit(&WebSocketEvent::Authenticated(text.clone()));
                    },
                    ServerSignal::Rejected => {
                        self.auth_state = self.auth_state.on_rejected();
                        self.dispatcher.emit(&WebSocketEvent::Unauthenticated(text.clone()));
                    },
                    ServerSignal::Pong => {
                        self.heartbeat.record_pong();
                    },
                    ServerSignal::Other => {},
                }
                ReadStep::Continue
            },
            InboundFrame::Close { code, reason } => {
                self.dispatcher.emit(
                    &WebSocketEvent::Disconnect { code: *code, reason: reason.clone() },
                );
                ReadStep::Stop
            },
            InboundFrame::Malformed(description) => {
                self.dispatcher.emit(&WebSocketEvent::Error(description.clone()));
                ReadStep::Continue
            },
            InboundFrame::Failure(description) => {
                self.dispatcher.emit(&WebSocketEvent::Error(description.clone()));
                ReadStep::Stop
            },
            InboundFrame::Binary(_) => ReadStep::Continue,
            InboundFrame::Control => ReadStep::Continue,
        }
    }

    /// Takes in a text frame that arrived, given as its text: the text is
    /// decoded, delivered as `Message`, and acted on as what it signals.
    pub fn on_text(&mut self, text: String) -> (step: ReadStep)
        ensures
            step == ReadStep::Continue,
            final(self)@ == old(self)@.after_frame(
                InboundFrameView::Text { text: text@, signal: decoded_signal(text@) },
            ),
    {
        let frame = InboundFrame::text(text);
        self.on_frame(&frame)
    }

    /// What a caller waiting for the handshake learns now: nothing while the
    /// server has not answered, success once it has acknowledged the
    /// credential, the rejection once it has rejected it.
    pub fn poll_authentication(&self) -> (answer: Option<Result<(), Error>>)
        ensures
            answer is Some <==> self@.auth_state.is_settled(),
            answer matches Some(outcome) ==> Some(outcome_view(outcome))
                == self@.auth_state.outcome(),
    {
        match self.auth_state {
            AuthenticationState::Authenticated => Some(Ok(())),
            AuthenticationState::Unauthenticated => Some(Err(Error::Unauthenticated)),
            _ => None,
        }
    }

    /// Notes that the handshake deadline has passed: a session whose
    /// authentication is not settled becomes unauthenticated, and the wait
    /// ends with a timeout.
    pub fn authentication_deadline(&mut self) -> (outcome: Result<(), Error>)
        ensures
            outcome_view(outcome) == old(self)@.deadline_outcome(),
            final(self)@ == old(self)@.after_deadline(),
    {
        match self.auth_state {
            AuthenticationState::Authenticated => Ok(()),
            AuthenticationState::Unauthenticated => Err(Error::Unauthenticated),
            _ => {
                self.auth_state = self.auth_state.on_deadline();
                Err(Error::AuthenticationTimeout)
            },
        }
    }

    /// A tick of the liveness monitor when encoding the probe gave
    /// `encoded`: a running monitor sends the probe and counts it.
    ///
    /// The answer `Expired` says that more probes are unanswered than the
    /// threshold allows and that the monitor has stopped. The session is not
    /// closed by the tick; to close it, call [`Self::disconnect`].
    pub fn heartbeat_probe(&mut self, encoded: Result<String, String>) -> (step: HeartbeatStep)
        ensures
            step == old(self)@.tick_step(text_outcome(encoded)),
            final(self)@ == old(self)@.after_tick(text_outcome(encoded)),
    {
        if !self.heartbeat.is_running() {
            return HeartbeatStep::Halted;
        }
        match self.send_encoded(encoded) {
            Ok(()) => self.heartbeat.record_probe(),
            Err(_) => {
                self.heartbeat.halt();
                HeartbeatStep::Halted
            },
        }
    }

    /// A tick of the liveness monitor: a running monitor sends a probe with
    /// an empty tag and counts it. It stops when it cannot send, and when
    /// more probes are unanswered than the threshold allows.
    pub fn heartbeat_tick(&mut self) -> (step: HeartbeatStep)
        ensures
            step == old(self)@.tick_step(liveness_probe().wire_text()),
            final(self)@ == old(self)@.after_tick(liveness_probe().wire_text()),
            step is Halted <==> !(old(self)@.heartbeat.running && old(self)@.write_path is Open),
            !(step is Halted) ==> step == old(self)@.heartbeat.step(),
    {
        let probe = OutboundMessage::Ping { state: String::new() };
        assert(probe@ == liveness_probe());
        let encoded = probe.encode();
        self.heartbeat_probe(encoded)
    }

    /// Notes that the transport has stopped taking frames.
    pub fn writer_closed(&mut self)
        ensures
            final(self)@ == old(self)@.after_writer_closed(),
    {
        match self.write_path {
            WritePath::Open => {
                self.write_path = WritePath::Closed;
            },
            _ => {},
        }
    }

    /// Disconnect from WebSocket
    ///
    /// Queues the closing frame if the write path is open, drops the write
    /// path, and returns the authentication state and the count of
    /// unanswered probes to their initial values.
    pub fn disconnect(&mut self)
        ensures
            final(self)@ == old(self)@.disconnected(),
    {
        match self.write_path {
            WritePath::Open => {
                self.outbox.push(OutboundFrame::Close);
                assert(self.outbox.deep_view() =~= old(self).outbox.deep_view().push(
                    OutboundFrameView::Close,
                ));
            },
            _ => {},
        }
        self.write_path = WritePath::Absent;
        self.auth_state = AuthenticationState::Pending;
        self.heartbeat.record_pong();
    }
}

impl<H: EventHandler> WebSocketClient<H> {
    /// The address to connect to: the configured address as the URL it
    /// parses to, or the parse error.
    pub fn connect_target(&self) -> (target: Result<String, Error>)
        ensures
            text_answer(target) == target_of(url_parse(self@.config.base_url)),
    {
        connect_target(self.config.base_url.as_str())
    }

    /// The error of a connection attempt whose transport did not open for
    /// `reason`.
    pub fn connection_failed(reason: &str) -> (error: Error)
        ensures
            error@ == ErrorView::WebSocket(CONNECT_FAILED_PREFIX@ + reason@),
    {
        Error::WebSocket(String::from_str(CONNECT_FAILED_PREFIX).concat(reason))
    }

    /// Waits for the answer to the handshake while `arrivals`, the frames
    /// that arrive before the deadline, are read in order.
    ///
    /// Frames are read until the authentication state is settled. If it is
    /// not settled when the frames end, or when the reader stops, the
    /// deadline passes: the session becomes unauthenticated and the wait
    /// ends with a timeout.
    pub fn await_authentication(&mut self, arrivals: &Vec<InboundFrame>) -> (outcome: Result<
        (),
        Error,
    >)
        ensures
            outcome_view(outcome) == old(self)@.await_outcome(arrivals.deep_view()),
            final(self)@ == old(self)@.after_await(arrivals.deep_view()),
    {
        let ghost all = arrivals.deep_view();
        let mut i: usize = 0;
        assert(all.skip(0) =~= all);
        loop
            invariant
                i <= arrivals.len(),
                all == arrivals.deep_view(),
                old(self)@.await_outcome(all) == self@.await_outcome(all.skip(i as int)),
                old(self)@.after_await(all) == self@.after_await(all.skip(i as int)),
            decreases arrivals.len() - i,
        {
            if self.auth_state.settled() || i == arrivals.len() {
                return self.authentication_deadline();
            }
            let ghost rest = all.skip(i as int);
            assert(rest[0] == arrivals[i as int]@);
            assert(rest.drop_first() =~= all.skip(i + 1));
            let step = self.on_frame(&arrivals[i]);
            match step {
                ReadStep::Stop => {
                    return self.authentication_deadline();
                },
                ReadStep::Continue => {},
            }
            i = i + 1;
        }
    }

    /// A connection attempt, given the address to connect to or the reason
    /// for which there is none.
    ///
    /// `transport` says whether the transport opened, and if not, why;
    /// `arrivals` are the frames that arrive before the handshake deadline,
    /// in order. The attempt succeeds only if the server acknowledges the
    /// credential.
    pub fn connect_to(
        &mut self,
        target: Result<String, Error>,
        transport: Result<(), String>,
        arrivals: &Vec<InboundFrame>,
    ) -> (outcome: Result<(), Error>)
        ensures
            outcome_view(outcome) == old(self)@.connect_outcome(
                text_answer(target),
                transport_view(transport),
                arrivals.deep_view(),
            ),
            final(self)@ == old(self)@.after_connect(
                text_answer(target),
                transport_view(transport),
                arrivals.deep_view(),
            ),
            text_answer(target) is Ok && transport is Ok ==> (old(self)@.opened_outcome() is Ok
                <==> old(self)@.config.credential_count() == 1),
    {
        match target {
            Err(error) => Err(error),
            Ok(_) => match transport {
                Err(reason) => Err(Self::connection_failed(reason.as_str())),
                Ok(()) => match self.transport_opened() {
                    Err(error) => Err(error),
                    Ok(()) => self.await_authentication(arrivals),
                },
            },
        }
    }

    /// Connect to WebSocket
    ///
    /// A connection attempt: `transport` says whether the transport opened,
    /// and if not, why; `arrivals` are the frames that arrive before the
    /// handshake deadline, in order.
    pub fn connect(&mut self, transport: Result<(), String>, arrivals: &Vec<InboundFrame>) -> (outcome:
        Result<(), Error>)
        ensures
            outcome_view(outcome) == old(self)@.connect_outcome(
                target_of(url_parse(old(self)@.config.base_url)),
                transport_view(transport),
                arrivals.deep_view(),
            ),
            final(self)@ == old(self)@.after_connect(
                target_of(url_parse(old(self)@.config.base_url)),
                transport_view(transport),
                arrivals.deep_view(),
            ),
            url_parse(old(self)@.config.base_url) is Ok && transport is Ok ==> (old(
                self,
            )@.opened_outcome() is Ok <==> old(self)@.config.credential_count() == 1),
            outcome matches Err(error) ==> !(error@ is Json),
    {
        let target = self.connect_target();
        proof {
            a_wait_fails_by_rejection_or_timeout(self@.after_opened(), arrivals.deep_view());
        }
        self.connect_to(target, transport, arrivals)
    }
}

} // verus!
