//! Events of the connection and their delivery to registered handlers.

use vstd::prelude::*;

verus! {

/// WebSocket event types
#[derive(Debug, PartialEq, Eq)]
pub enum WebSocketEvent {
    /// The transport is open.
    Connect,
    /// The server closed the connection.
    Disconnect { code: Option<u16>, reason: String },
    /// A text frame arrived; this is its text.
    Message(String),
    /// The transport failed; this is the description.
    Error(String),
    /// The server acknowledged the credential; this is the text of its message.
    Authenticated(String),
    /// The server rejected the credential; this is the text of its message.
    Unauthenticated(String),
}

/// Mathematical view of [`WebSocketEvent`].
pub enum WebSocketEventView {
    Connect,
    Disconnect { code: Option<u16>, reason: Seq<char> },
    Message(Seq<char>),
    Error(Seq<char>),
    Authenticated(Seq<char>),
    Unauthenticated(Seq<char>),
}

impl View for WebSocketEvent {
    type V = WebSocketEventView;

    open spec fn view(&self) -> WebSocketEventView {
        match self {
            WebSocketEvent::Connect => WebSocketEventView::Connect,
            WebSocketEvent::Disconnect { code, reason } => WebSocketEventView::Disconnect {
                code: *code,
                reason: reason@,
            },
            WebSocketEvent::Message(text) => WebSocketEventView::Message(text@),
            WebSocketEvent::Error(description) => WebSocketEventView::Error(description@),
            WebSocketEvent::Authenticated(text) => WebSocketEventView::Authenticated(text@),
            WebSocketEvent::Unauthenticated(text) => WebSocketEventView::Unauthenticated(text@),
        }
    }
}

impl Clone for WebSocketEvent {
    fn clone(&self) -> (copy: Self)
        ensures
            copy@ == self@,
    {
        match self {
            WebSocketEvent::Connect => WebSocketEvent::Connect,
            WebSocketEvent::Disconnect { code, reason } => WebSocketEvent::Disconnect {
                code: *code,
                reason: reason.clone(),
            },
            WebSocketEvent::Message(text) => WebSocketEvent::Message(text.clone()),
            WebSocketEvent::Error(description) => WebSocketEvent::Error(description.clone()),
            WebSocketEvent::Authenticated(text) => WebSocketEvent::Authenticated(text.clone()),
            WebSocketEvent::Unauthenticated(text) => WebSocketEvent::Unauthenticated(text.clone()),
        }
    }
}

/// Event handler trait
pub trait EventHandler: Send + Sync {
    fn handle_event(&self, event: WebSocketEvent);
}

/// The handler that lets every event pass: the handler type of a session
/// that nobody observes.
#[derive(Debug, Clone, Copy, PartialEq, Eq)]
pub struct SilentHandler;

impl EventHandler for SilentHandler {
    fn handle_event(&self, _event: WebSocketEvent) {
    }
}

/// One invocation of a handler: which handler, counted from zero in the order
/// of registration, and with which event.
pub struct Delivery {
    pub handler: nat,
    pub event: WebSocketEventView,
}

/// The invocations that deliver `event` to `count` handlers: one for each
/// handler, in the order of registration.
pub open spec fn round(count: nat, event: WebSocketEventView) -> Seq<Delivery> {
    Seq::new(count, |i: int| Delivery { handler: i as nat, event })
}

/// Mathematical view of [`EventDispatcher`].
pub struct DispatcherView<H> {
    /// The registered handlers, in the order of registration.
    pub handlers: Seq<H>,
    /// Every invocation made so far, oldest first.
    pub deliveries: Seq<Delivery>,
}

impl<H> DispatcherView<H> {
    /// A dispatcher without handlers that has delivered nothing.
    pub open spec fn empty() -> Self {
        DispatcherView { handlers: Seq::empty(), deliveries: Seq::empty() }
    }

    /// The dispatcher after `handler` has been registered.
    pub open spec fn registered(self, handler: H) -> Self {
        DispatcherView { handlers: self.handlers.push(handler), ..self }
    }

    /// The dispatcher after `event` has been delivered.
    pub open spec fn emitted(self, event: WebSocketEventView) -> Self {
        DispatcherView {
            deliveries: self.deliveries + round(self.handlers.len(), event),
            ..self
        }
    }
}

/// The registry of handlers: an ordered collection, in which a handler may
/// stand more than once.
pub struct EventDispatcher<H: EventHandler> {
    handlers: Vec<H>,
    journal: Ghost<Seq<Delivery>>,
}

impl<H: EventHandler> View for EventDispatcher<H> {
    type V = DispatcherView<H>;

    closed spec fn view(&self) -> DispatcherView<H> {
        DispatcherView { handlers: self.handlers@, deliveries: self.journal@ }
    }
}

impl<H: EventHandler> EventDispatcher<H> {
    /// A dispatcher without handlers.
    pub fn new() -> (dispatcher: Self)
        ensures
            dispatcher@ == DispatcherView::<H>::empty(),
    {
        Self { handlers: Vec::new(), journal: Ghost(Seq::empty()) }
    }

    /// How many handlers are registered.
    pub fn len(&self) -> (count: usize)
        ensures
            count == self@.handlers.len(),
    {
        self.handlers.len()
    }

    /// Registers `handler` behind the handlers registered before.
    pub fn add_event_handler(&mut self, handler: H)
        ensures
            final(self)@ == old(self)@.registered(handler),
    {
        self.handlers.push(handler);
    }

    /// Delivers `event`: invokes every registered handler once with a copy
    /// of the event, in the order of registration, before it returns.
    pub fn emit(&mut self, event: &WebSocketEvent)
        ensures
            final(self)@ == old(self)@.emitted(event@),
    {
        let count = self.handlers.len();
        let mut i: usize = 0;
        while i < count
            invariant
                i <= count,
                count == self.handlers@.len(),
                self.handlers@ == old(self).handlers@,
                self.journal@ == old(self).journal@ + round(i as nat, event@),
            decreases count - i,
        {
            self.handlers[i].handle_event(event.clone());
            proof {
                self.journal@ = self.journal@.push(Delivery { handler: i as nat, event: event@ });
                assert(round((i + 1) as nat, event@) =~= round(i as nat, event@).push(
                    Delivery { handler: i as nat, event: event@ },
                ));
                assert(self.journal@ =~= old(self).journal@ + round((i + 1) as nat, event@));
            }
            i = i + 1;
        }
    }
}

} // verus!
