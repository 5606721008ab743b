//! What travels on the connection: subscription parameters, outbound
//! messages and frames, inbound frames and what they signal.

use vstd::prelude::*;
use vstd::string::StringExecFns;
use crate::constants::{AUTHENTICATED_EVENT, ERROR_EVENT, UNAUTHENTICATED_MESSAGE};
use crate::error::{Error, ErrorView};
use crate::market_data::websocket::auth::{
    Credential,
    CredentialView,
    WebSocketConfig,
    WebSocketConfigView,
};
use crate::market_data::websocket::json::{
    clone_params,
    encode_object,
    json_object_text,
    json_text_at,
    read_text_at,
    Param,
    ParamGroup,
    ParamGroupView,
    ParamValue,
    ParamValueView,
    ParamView,
};
use crate::text::same_text;

verus! {

/// Name of the liveness answer.
pub const PONG_EVENT: &'static str = "pong";

/// No two members of `entries` share a name.
pub open spec fn distinct_names(entries: Seq<ParamView>) -> bool {
    forall|i: int, j: int|
        0 <= i < j < entries.len() ==> (#[trigger] entries[i]).name != (#[trigger] entries[j]).name
}

/// Where the member called `name` stands in `entries`, if there is one.
pub open spec fn index_of(entries: Seq<ParamView>, name: Seq<char>) -> Option<int> {
    if exists|i: int| 0 <= i < entries.len() && (#[trigger] entries[i]).name == name {
        Some(choose|i: int| 0 <= i < entries.len() && (#[trigger] entries[i]).name == name)
    } else {
        None
    }
}

/// `entries` with the member called `name` set to `value`: replaced where it
/// stands, or added at the end.
pub open spec fn with_member(
    entries: Seq<ParamView>,
    name: Seq<char>,
    value: ParamValueView,
) -> Seq<ParamView> {
    match index_of(entries, name) {
        Some(i) => entries.update(i, ParamView { name, value }),
        None => entries.push(ParamView { name, value }),
    }
}

/// The text held by the member called `name`, if there is such a member and
/// it holds a text.
pub open spec fn text_member(entries: Seq<ParamView>, name: Seq<char>) -> Option<Seq<char>> {
    match member(entries, name) {
        Some(ParamValueView::Text(text)) => Some(text),
        _ => None,
    }
}

/// The value of the member called `name`, if there is such a member.
pub open spec fn member(entries: Seq<ParamView>, name: Seq<char>) -> Option<ParamValueView> {
    match index_of(entries, name) {
        Some(i) => Some(entries[i].value),
        None => None,
    }
}

/// Setting a member makes it the value found under its name, leaves what is
/// found under every other name as it was, and keeps the names distinct.
pub proof fn setting_a_member_is_a_map_update(
    entries: Seq<ParamView>,
    name: Seq<char>,
    value: ParamValueView,
    other: Seq<char>,
)
    requires
        distinct_names(entries),
    ensures
        distinct_names(with_member(entries, name, value)),
        member(with_member(entries, name, value), name) == Some(value),
        other != name ==> member(with_member(entries, name, value), other) == member(
            entries,
            other,
        ),
        with_member(entries, name, value).len() == if index_of(entries, name) is Some {
            entries.len()
        } else {
            entries.len() + 1
        },
{
    let after = with_member(entries, name, value);
    let at: int = match index_of(entries, name) {
        Some(i) => i,
        None => entries.len() as int,
    };
    assert(0 <= at < after.len() && after[at].name == name && after[at].value == value);
    assert forall|a: int, b: int| 0 <= a < b < after.len() implies (#[trigger] after[a]).name != (
    #[trigger] after[b]).name by {
        if b < entries.len() {
            assert(entries[a].name != entries[b].name);
        } else {
            assert(entries[a].name != name);
        }
    }
    let found = index_of(after, name);
    assert(found is Some);
    if found->0 != at {
        if found->0 < at {
            assert(after[found->0].name != after[at].name);
        } else {
            assert(after[at].name != after[found->0].name);
        }
    }
    if other != name {
        match index_of(entries, other) {
            Some(i) => {
                assert(after[i].name == other && after[i].value == entries[i].value);
                let again = index_of(after, other);
                assert(again is Some);
                if again->0 != i {
                    if again->0 < i {
                        assert(after[again->0].name != after[i].name);
                    } else {
                        assert(after[i].name != after[again->0].name);
                    }
                }
            },
            None => {
                if index_of(after, other) is Some {
                    let j = index_of(after, other)->0;
                    if j < entries.len() {
                        assert(entries[j].name == other);
                    }
                }
            },
        }
    }
}

/// The parameters of a subscription: a mapping from names (the channel, the
/// symbol, fields of the channel) to values, in the order of first insertion.
#[derive(Debug, PartialEq, Eq)]
pub struct SubscriptionParams {
    entries: Vec<Param>,
}

impl View for SubscriptionParams {
    type V = Seq<ParamView>;

    closed spec fn view(&self) -> Seq<ParamView> {
        self.entries.deep_view()
    }
}

impl Clone for SubscriptionParams {
    fn clone(&self) -> (copy: Self)
        ensures
            copy@ == self@,
    {
        proof {
            use_type_invariant(self);
        }
        Self { entries: clone_params(&self.entries) }
    }
}

impl SubscriptionParams {
    /// No name occurs twice.
    #[verifier::type_invariant]
    pub closed spec fn well_formed(&self) -> bool {
        distinct_names(self.entries.deep_view())
    }

    /// No parameters.
    pub fn new() -> (params: Self)
        ensures
            params@ == Seq::<ParamView>::empty(),
    {
        let params = Self { entries: Vec::new() };
        assert(params.entries.deep_view() =~= Seq::<ParamView>::empty());
        params
    }

    /// How many parameters there are.
    pub fn len(&self) -> (count: usize)
        ensures
            count == self@.len(),
            distinct_names(self@),
    {
        proof {
            use_type_invariant(self);
        }
        self.entries.len()
    }

    /// Where the parameter called `name` stands, if there is one.
    fn position(&self, name: &str) -> (found: Option<usize>)
        ensures
            found matches Some(i) ==> index_of(self@, name@) == Some(i as int) && i < self@.len()
                && self@[i as int].name == name@,
            found is None ==> index_of(self@, name@) is None,
    {
        proof {
            use_type_invariant(self);
        }
        let mut i: usize = 0;
        while i < self.entries.len()
            invariant
                i <= self.entries.len(),
                forall|j: int| 0 <= j < i ==> (#[trigger] self@[j]).name != name@,
                distinct_names(self@),
                self@ == self.entries.deep_view(),
            decreases self.entries.len() - i,
        {
            if same_text(self.entries[i].name.as_str(), name) {
                assert(self@[i as int].name == name@);
                assert(index_of(self@, name@) == Some(i as int));
                return Some(i);
            }
            i = i + 1;
        }
        None
    }

    /// The same parameters with the one called `name` set to `value`.
    pub fn with(self, name: &str, value: ParamValue) -> (params: Self)
        ensures
            params@ == with_member(self@, name@, value@),
            distinct_names(params@),
            member(params@, name@) == Some(value@),
            forall|other: Seq<char>|
                other != name@ ==> #[trigger] member(params@, other) == member(self@, other),
    {
        proof {
            use_type_invariant(&self);
        }
        let ghost before = self@;
        proof {
            assert forall|other: Seq<char>| other != name@ implies #[trigger] member(
                with_member(before, name@, value@),
                other,
            ) == member(before, other) by {
                setting_a_member_is_a_map_update(before, name@, value@, other);
            }
            setting_a_member_is_a_map_update(before, name@, value@, name@);
        }
        let found = self.position(name);
        let mut entries = self.entries;
        match found {
            Some(i) => {
                entries[i].value = value;
            },
            None => {
                entries.push(Param { name: String::from_str(name), value });
            },
        }
        assert(entries.deep_view() =~= with_member(before, name@, value@));
        Self { entries }
    }

    /// Sets the parameter called `name` to `value`.
    pub fn insert(&mut self, name: &str, value: ParamValue)
        ensures
            final(self)@ == with_member(old(self)@, name@, value@),
            distinct_names(final(self)@),
            member(final(self)@, name@) == Some(value@),
            forall|other: Seq<char>|
                other != name@ ==> #[trigger] member(final(self)@, other) == member(
                    old(self)@,
                    other,
                ),
    {
        let mut current = SubscriptionParams::new();
        core::mem::swap(self, &mut current);
        *self = current.with(name, value);
    }

    /// The text of the parameter called `name`, if there is such a parameter
    /// and it holds a text.
    pub fn text(&self, name: &str) -> (found: Option<&str>)
        ensures
            found.deep_view() == text_member(self@, name@),
    {
        match self.position(name) {
            Some(i) => match &self.entries[i].value {
                ParamValue::Text(text) => Some(text.as_str()),
                _ => None,
            },
            None => None,
        }
    }

    /// The channel asked for, if the parameters name one.
    pub fn channel(&self) -> (found: Option<&str>)
        ensures
            found.deep_view() == text_member(self@, "channel"@),
    {
        self.text("channel")
    }

    /// The parameters themselves, in order.
    pub fn into_entries(self) -> (entries: Vec<Param>)
        ensures
            entries.deep_view() == self@,
            distinct_names(self@),
    {
        proof {
            use_type_invariant(&self);
        }
        self.entries
    }
}

/// A message of the client to the server.
#[derive(Debug, PartialEq, Eq)]
pub enum OutboundMessage {
    /// The handshake: one credential.
    Auth(Credential),
    /// A liveness probe with a tag of the caller's.
    Ping { state: String },
    /// A request to receive a channel.
    Subscribe(SubscriptionParams),
    /// A request to stop receiving a channel.
    Unsubscribe(SubscriptionParams),
    /// A request for the list of channels received.
    Subscriptions,
}

/// Mathematical view of [`OutboundMessage`].
pub enum OutboundMessageView {
    Auth(CredentialView),
    Ping { state: Seq<char> },
    Subscribe(Seq<ParamView>),
    Unsubscribe(Seq<ParamView>),
    Subscriptions,
}

impl OutboundMessageView {
    /// The name of the message.
    pub open spec fn event(self) -> Seq<char> {
        match self {
            OutboundMessageView::Auth(_) => "auth"@,
            OutboundMessageView::Ping { .. } => "ping"@,
            OutboundMessageView::Subscribe(_) => "subscribe"@,
            OutboundMessageView::Unsubscribe(_) => "unsubscribe"@,
            OutboundMessageView::Subscriptions => "subscriptions"@,
        }
    }

    /// The members of the message's data, if it has data: the handshake
    /// carries its one credential under the credential's name, a probe its
    /// tag under `state`, a subscription request its parameters.
    pub open spec fn data(self) -> Option<Seq<ParamView>> {
        match self {
            OutboundMessageView::Auth(credential) => Some(
                seq![
                    ParamView {
                        name: credential.field(),
                        value: ParamValueView::Text(credential.secret()),
                    },
                ],
            ),
            OutboundMessageView::Ping { state } => Some(
                seq![ParamView { name: "state"@, value: ParamValueView::Text(state) }],
            ),
            OutboundMessageView::Subscribe(params) => Some(params),
            OutboundMessageView::Unsubscribe(params) => Some(params),
            OutboundMessageView::Subscriptions => None,
        }
    }

    /// The members of the envelope that hold a plain value: the name.
    pub open spec fn envelope_fields(self) -> Seq<ParamView> {
        seq![ParamView { name: "event"@, value: ParamValueView::Text(self.event()) }]
    }

    /// The members of the envelope that hold an object: the data, if any.
    pub open spec fn envelope_groups(self) -> Seq<ParamGroupView> {
        match self.data() {
            Some(members) => seq![ParamGroupView { name: "data"@, members }],
            None => Seq::empty(),
        }
    }

    /// The text that carries the message, or the description of the failure
    /// to encode it: one JSON object with the name under `event` and the
    /// data, if any, under `data`.
    pub open spec fn wire_text(self) -> Result<Seq<char>, Seq<char>> {
        json_object_text(self.envelope_fields(), self.envelope_groups())
    }
}

impl View for OutboundMessage {
    type V = OutboundMessageView;

    open spec fn view(&self) -> OutboundMessageView {
        match self {
            OutboundMessage::Auth(credential) => OutboundMessageView::Auth(credential@),
            OutboundMessage::Ping { state } => OutboundMessageView::Ping { state: state@ },
            OutboundMessage::Subscribe(params) => OutboundMessageView::Subscribe(params@),
            OutboundMessage::Unsubscribe(params) => OutboundMessageView::Unsubscribe(params@),
            OutboundMessage::Subscriptions => OutboundMessageView::Subscriptions,
        }
    }
}

/// The handshake under `config`: the message that presents the one
/// credential of the configuration. A configuration with no credential, or
/// with more than one, has no handshake.
pub open spec fn handshake_of(config: WebSocketConfigView) -> Result<
    OutboundMessageView,
    ErrorView,
> {
    match config.credential() {
        Ok(credential) => Ok(OutboundMessageView::Auth(credential)),
        Err(error) => Err(error),
    }
}

/// One member that holds the text `value` under `name`.
fn text_param(name: &str, value: &str) -> (param: Param)
    ensures
        param@ == (ParamView { name: name@, value: ParamValueView::Text(value@) }),
{
    Param { name: String::from_str(name), value: ParamValue::Text(String::from_str(value)) }
}

impl OutboundMessage {
    /// The handshake under `config`.
    ///
    /// With exactly one credential field set to a non-empty value the
    /// handshake presents that credential, and its data holds that one
    /// member and no other. With none, or with more than one, there is no
    /// handshake: the configuration is missing its credential.
    pub fn handshake(config: &WebSocketConfig) -> (made: Result<OutboundMessage, Error>)
        ensures
            made is Ok <==> config@.credential_count() == 1,
            made matches Ok(message) ==> Ok::<OutboundMessageView, ErrorView>(message@)
                == handshake_of(config@),
            made matches Err(error) ==> error@ == ErrorView::MissingCredentials && handshake_of(
                config@,
            ) == Err::<OutboundMessageView, ErrorView>(ErrorView::MissingCredentials),
    {
        match config.credential() {
            Ok(credential) => Ok(OutboundMessage::Auth(credential)),
            Err(error) => Err(error),
        }
    }

    /// The name of the message.
    pub fn event(&self) -> (name: &'static str)
        ensures
            name@ == self@.event(),
    {
        match self {
            OutboundMessage::Auth(_) => "auth",
            OutboundMessage::Ping { .. } => "ping",
            OutboundMessage::Subscribe(_) => "subscribe",
            OutboundMessage::Unsubscribe(_) => "unsubscribe",
            OutboundMessage::Subscriptions => "subscriptions",
        }
    }

    /// The members of the message's data, if it has data.
    pub fn data(self) -> (data: Option<Vec<Param>>)
        ensures
            data.deep_view() == self@.data(),
    {
        match self {
            OutboundMessage::Auth(credential) => {
                let mut members: Vec<Param> = Vec::new();
                members.push(text_param(credential.field(), credential.secret()));
                assert(members.deep_view() =~= self@.data()->0);
                Some(members)
            },
            OutboundMessage::Ping { state } => {
                let mut members: Vec<Param> = Vec::new();
                members.push(text_param("state", state.as_str()));
                assert(members.deep_view() =~= self@.data()->0);
                Some(members)
            },
            OutboundMessage::Subscribe(params) => Some(params.into_entries()),
            OutboundMessage::Unsubscribe(params) => Some(params.into_entries()),
            OutboundMessage::Subscriptions => None,
        }
    }

    /// The text that carries the message. Every message has one: encoding
    /// does not fail.
    pub fn encode(self) -> (encoded: Result<String, String>)
        ensures
            crate::text::text_outcome(encoded) == self@.wire_text(),
            encoded is Ok,
    {
        let mut fields: Vec<Param> = Vec::new();
        fields.push(text_param("event", self.event()));
        let mut groups: Vec<ParamGroup> = Vec::new();
        let ghost message = self@;
        match self.data() {
            Some(members) => {
                groups.push(ParamGroup { name: String::from_str("data"), members });
            },
            None => {},
        }
        assert(fields.deep_view() =~= message.envelope_fields());
        assert(groups.deep_view() =~= message.envelope_groups());
        encode_object(&fields, &groups)
    }
}

/// A frame handed to the transport.
#[derive(Debug, PartialEq, Eq)]
pub enum OutboundFrame {
    /// A text frame.
    Text(String),
    /// The closing frame.
    Close,
}

/// Mathematical view of [`OutboundFrame`].
pub enum OutboundFrameView {
    Text(Seq<char>),
    Close,
}

impl View for OutboundFrame {
    type V = OutboundFrameView;

    open spec fn view(&self) -> OutboundFrameView {
        match self {
            OutboundFrame::Text(text) => OutboundFrameView::Text(text@),
            OutboundFrame::Close => OutboundFrameView::Close,
        }
    }
}

impl DeepView for OutboundFrame {
    type V = OutboundFrameView;

    open spec fn deep_view(&self) -> OutboundFrameView {
        self@
    }
}

impl Clone for OutboundFrame {
    fn clone(&self) -> (copy: Self)
        ensures
            copy@ == self@,
    {
        match self {
            OutboundFrame::Text(text) => OutboundFrame::Text(text.clone()),
            OutboundFrame::Close => OutboundFrame::Close,
        }
    }
}

/// The kinds of error that a transport reports where a frame was expected.
#[derive(Debug, Clone, Copy, PartialEq, Eq, Structural)]
pub enum TransportFault {
    /// The connection was closed in good order.
    ConnectionClosed,
    /// The connection had been closed before.
    AlreadyClosed,
    /// Reading or writing failed underneath the transport.
    Io,
    /// The encryption underneath the transport failed.
    Tls,
    /// A frame was larger than the transport takes.
    Capacity,
    /// A frame broke the rules of the transport's protocol.
    Protocol,
    /// The transport's buffer for writing is full.
    WriteBufferFull,
    /// A text frame held bytes that are no text.
    Utf8,
    /// The transport saw what it takes for an attack.
    AttackAttempt,
    /// The address was not one the transport can use.
    Url,
    /// The server answered the opening request with an error.
    Http,
    /// The opening request or its answer was not well formed.
    HttpFormat,
    /// Any other error.
    Other,
}

impl TransportFault {
    /// Whether the error is one malformed frame, after which the connection
    /// goes on: a frame that broke the rules of the protocol, or a text
    /// frame that held no text. Every other error ends the reading.
    pub open spec fn is_malformation(self) -> bool {
        self is Protocol || self is Utf8
    }

    /// Whether the error is one malformed frame, after which the connection
    /// goes on.
    pub fn malformation(&self) -> (malformed: bool)
        ensures
            malformed == self.is_malformation(),
    {
        match self {
            TransportFault::Protocol => true,
            TransportFault::Utf8 => true,
            _ => false,
        }
    }
}

/// A frame received from the transport, or the failure of the transport.
#[derive(Debug, PartialEq, Eq)]
pub enum InboundFrame {
    /// A text frame: its text, and what the text means.
    Text { text: String, signal: ServerSignal },
    /// A binary frame.
    Binary(Vec<u8>),
    /// A frame of the transport's own (its ping, its pong).
    Control,
    /// The closing frame, with the code and reason it gives, if any.
    Close { code: Option<u16>, reason: String },
    /// A frame that breaks the rules of the transport's protocol arrived;
    /// the description says how. The connection goes on.
    Malformed(String),
    /// The transport failed; the description says how.
    Failure(String),
}

/// Mathematical view of [`InboundFrame`].
pub enum InboundFrameView {
    Text { text: Seq<char>, signal: ServerSignal },
    Binary(Seq<u8>),
    Control,
    Close { code: Option<u16>, reason: Seq<char> },
    Malformed(Seq<char>),
    Failure(Seq<char>),
}

impl View for InboundFrame {
    type V = InboundFrameView;

    open spec fn view(&self) -> InboundFrameView {
        match self {
            InboundFrame::Text { text, signal } => InboundFrameView::Text {
                text: text@,
                signal: *signal,
            },
            InboundFrame::Binary(bytes) => InboundFrameView::Binary(bytes@),
            InboundFrame::Control => InboundFrameView::Control,
            InboundFrame::Close { code, reason } => InboundFrameView::Close {
                code: *code,
                reason: reason@,
            },
            InboundFrame::Malformed(description) => InboundFrameView::Malformed(description@),
            InboundFrame::Failure(description) => InboundFrameView::Failure(description@),
        }
    }
}

impl DeepView for InboundFrame {
    type V = InboundFrameView;

    open spec fn deep_view(&self) -> InboundFrameView {
        self@
    }
}

/// What a text frame of the server means to the session.
#[derive(Debug, Clone, Copy, PartialEq, Eq, Structural)]
pub enum ServerSignal {
    /// The server acknowledged the credential.
    Authenticated,
    /// The server rejected the credential.
    Rejected,
    /// The server answered a liveness probe.
    Pong,
    /// Anything else: data of a channel, an answer to a request, an error
    /// that is no rejection, a text that is no message at all.
    Other,
}

/// What a message means whose `event` member holds `event` and whose
/// `data.message` member holds `message`: `authenticated` acknowledges,
/// `error` with the message `Unauthenticated` rejects, `pong` answers a
/// probe.
pub open spec fn signal_of(event: Option<Seq<char>>, message: Option<Seq<char>>) -> ServerSignal {
    if event == Some(AUTHENTICATED_EVENT@) {
        ServerSignal::Authenticated
    } else if event == Some(ERROR_EVENT@) {
        if message == Some(UNAUTHENTICATED_MESSAGE@) {
            ServerSignal::Rejected
        } else {
            ServerSignal::Other
        }
    } else if event == Some(PONG_EVENT@) {
        ServerSignal::Pong
    } else {
        ServerSignal::Other
    }
}

/// Where a message holds its name.
pub open spec fn event_path() -> Seq<Seq<char>> {
    seq!["event"@]
}

/// Where an error message holds its description.
pub open spec fn error_message_path() -> Seq<Seq<char>> {
    seq!["data"@, "message"@]
}

/// What the text of a frame means.
pub open spec fn decoded_signal(text: Seq<char>) -> ServerSignal {
    signal_of(json_text_at(text, event_path()), json_text_at(text, error_message_path()))
}

/// What a message means whose `event` member holds `event` and whose
/// `data.message` member holds `message`.
pub fn classify(event: &Option<String>, message: &Option<String>) -> (signal: ServerSignal)
    ensures
        signal == signal_of(event.deep_view(), message.deep_view()),
{
    match event {
        Some(name) => {
            if same_text(name.as_str(), AUTHENTICATED_EVENT) {
                ServerSignal::Authenticated
            } else if same_text(name.as_str(), ERROR_EVENT) {
                match message {
                    Some(description) => {
                        if same_text(description.as_str(), UNAUTHENTICATED_MESSAGE) {
                            ServerSignal::Rejected
                        } else {
                            ServerSignal::Other
                        }
                    },
                    None => ServerSignal::Other,
                }
            } else if same_text(name.as_str(), PONG_EVENT) {
                ServerSignal::Pong
            } else {
                ServerSignal::Other
            }
        },
        None => ServerSignal::Other,
    }
}

/// What the text of a frame means.
pub fn decode_signal(text: &str) -> (signal: ServerSignal)
    ensures
        signal == decoded_signal(text@),
{
    let mut path: Vec<&str> = Vec::new();
    path.push("event");
    assert(path.deep_view() =~= event_path());
    let event = read_text_at(text, &path);
    let is_error = match &event {
        Some(name) => same_text(name.as_str(), ERROR_EVENT),
        None => false,
    };
    if is_error {
        let mut path: Vec<&str> = Vec::new();
        path.push("data");
        path.push("message");
        assert(path.deep_view() =~= error_message_path());
        let message = read_text_at(text, &path);
        classify(&event, &message)
    } else {
        classify(&event, &None)
    }
}

impl InboundFrame {
    /// What stands for an error of the kind `kind` that the transport
    /// describes as `description`: a malformed frame if the error is one,
    /// the failure of the transport otherwise.
    pub fn fault(kind: TransportFault, description: String) -> (frame: Self)
        ensures
            frame@ == if kind.is_malformation() {
                InboundFrameView::Malformed(description@)
            } else {
                InboundFrameView::Failure(description@)
            },
    {
        if kind.malformation() {
            InboundFrame::Malformed(description)
        } else {
            InboundFrame::Failure(description)
        }
    }

    /// The text frame that holds `text`, with what the text means.
    pub fn text(text: String) -> (frame: Self)
        ensures
            frame@ == (InboundFrameView::Text { text: text@, signal: decoded_signal(text@) }),
    {
        let signal = decode_signal(text.as_str());
        InboundFrame::Text { text, signal }
    }
}

} // verus!
