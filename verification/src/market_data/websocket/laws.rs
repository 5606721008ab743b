//! What holds of the session whatever the inputs: the laws that relate its
//! operations to each other.

use vstd::prelude::*;
use crate::constants::MAX_MISSED_PONGS;
use crate::error::ErrorView;
use crate::market_data::Mode;
use crate::market_data::websocket::auth::WebSocketConfigView;
use crate::market_data::websocket::event::{round, Delivery, DispatcherView, WebSocketEventView};
use crate::market_data::websocket::heartbeat::{HeartbeatStep, HeartbeatView};
use crate::market_data::websocket::json::ParamView;
use crate::market_data::websocket::message::{
    handshake_of,
    text_member,
    InboundFrameView,
    OutboundFrameView,
    OutboundMessageView,
    ServerSignal,
};
use crate::market_data::websocket::session::{read_step, SessionView, NOT_CONNECTED_MESSAGE};

verus! {

/// Whether `frame` carries the server's answer to the handshake.
pub open spec fn answers_handshake(frame: InboundFrameView) -> bool {
    frame matches InboundFrameView::Text { signal, .. } && (signal is Authenticated
        || signal is Rejected)
}

/// A configuration with exactly one credential has a handshake, and its data
/// holds exactly one member, named `apikey`, `token` or `sdkToken`. With no
/// credential, or with more than one, the handshake fails as missing its
/// credential and nothing is sent.
pub proof fn handshake_needs_exactly_one_credential<H>(session: SessionView<H>)
    ensures
        session.config.credential_count() == 1 ==> {
            &&& handshake_of(session.config) matches Ok(handshake)
            &&& handshake.event() == "auth"@
            &&& handshake.data() matches Some(members)
            &&& members.len() == 1
            &&& (members[0].name == "apikey"@ || members[0].name == "token"@ || members[0].name
                == "sdkToken"@)
        },
        session.config.credential_count() != 1 ==> {
            &&& handshake_of(session.config) == Err::<OutboundMessageView, ErrorView>(
                ErrorView::MissingCredentials,
            )
            &&& session.handshake_outcome() == Err::<(), ErrorView>(ErrorView::MissingCredentials)
            &&& session.after_handshake().outbox == session.outbox
            &&& session.opened_outcome() == Err::<(), ErrorView>(ErrorView::MissingCredentials)
            &&& session.after_opened().outbox == Seq::<OutboundFrameView>::empty()
        },
{
}

/// Only a handshake that is under way is settled by what arrives: a frame
/// changes the authentication state only when the state is `Authenticating`,
/// and then to `Authenticated` or `Unauthenticated`.
pub proof fn frames_settle_only_a_handshake_under_way<H>(
    session: SessionView<H>,
    frame: InboundFrameView,
)
    ensures
        session.after_frame(frame).auth_state != session.auth_state ==> {
            &&& session.auth_state is Authenticating
            &&& session.after_frame(frame).auth_state.is_settled()
            &&& answers_handshake(frame)
        },
{
}

/// A wait for the handshake never moves the session back: it ends settled,
/// and a session that was settled before stays as it was.
pub proof fn a_wait_ends_settled<H>(session: SessionView<H>, arrivals: Seq<InboundFrameView>)
    ensures
        session.after_await(arrivals).auth_state.is_settled(),
        session.auth_state.is_settled() ==> session.after_await(arrivals) == session,
        session.await_outcome(arrivals) is Ok <==> session.after_await(arrivals).auth_state
            is Authenticated,
    decreases arrivals.len(),
{
    if !session.auth_state.is_settled() && arrivals.len() > 0 {
        a_wait_ends_settled(session.after_frame(arrivals[0]), arrivals.drop_first());
    }
}

/// A wait for the handshake fails in two ways only: by the server's
/// rejection, or by the timeout.
pub proof fn a_wait_fails_by_rejection_or_timeout<H>(
    session: SessionView<H>,
    arrivals: Seq<InboundFrameView>,
)
    ensures
        session.await_outcome(arrivals) matches Err(error) ==> error == ErrorView::Unauthenticated
            || error == ErrorView::AuthenticationTimeout,
    decreases arrivals.len(),
{
    if !session.auth_state.is_settled() && arrivals.len() > 0 {
        a_wait_fails_by_rejection_or_timeout(
            session.after_frame(arrivals[0]),
            arrivals.drop_first(),
        );
    }
}

/// A connection attempt never skips `Authenticating`.
///
/// With exactly one credential configured, an attempt that starts from
/// `Pending` and ends `Authenticated` or `Unauthenticated` has sent its
/// handshake and stood in `Authenticating` in between; and an attempt that
/// succeeds ends `Authenticated`.
pub proof fn connect_passes_through_authenticating<H>(
    session: SessionView<H>,
    target: Result<Seq<char>, ErrorView>,
    transport: Result<(), Seq<char>>,
    arrivals: Seq<InboundFrameView>,
)
    requires
        session.auth_state is Pending,
        session.config.credential_count() == 1,
    ensures
        session.after_connect(target, transport, arrivals).auth_state.is_settled() ==> {
            &&& session.opened_outcome() is Ok
            &&& session.after_opened().auth_state is Authenticating
            &&& session.after_opened().outbox.len() == 1
        },
        session.connect_outcome(target, transport, arrivals) is Ok ==> session.after_connect(
            target,
            transport,
            arrivals,
        ).auth_state is Authenticated,
{
    a_wait_ends_settled(session.after_opened(), arrivals);
}

/// While no answer to the handshake arrives, a wait that starts in
/// `Authenticating` ends with a timeout and leaves the session
/// `Unauthenticated`.
pub proof fn an_unanswered_wait_times_out<H>(
    session: SessionView<H>,
    arrivals: Seq<InboundFrameView>,
)
    requires
        !session.auth_state.is_settled(),
        forall|i: int| 0 <= i < arrivals.len() ==> !answers_handshake(#[trigger] arrivals[i]),
    ensures
        session.await_outcome(arrivals) == Err::<(), ErrorView>(ErrorView::AuthenticationTimeout),
        session.after_await(arrivals).auth_state is Unauthenticated,
    decreases arrivals.len(),
{
    if arrivals.len() > 0 {
        let next = session.after_frame(arrivals[0]);
        assert(!answers_handshake(arrivals[0]));
        assert(next.auth_state == session.auth_state);
        let rest = arrivals.drop_first();
        assert forall|i: int| 0 <= i < rest.len() implies !answers_handshake(#[trigger] rest[i]) by {
            assert(rest[i] == arrivals[i + 1]);
        }
        an_unanswered_wait_times_out(next, rest);
    }
}

/// Whether reading has stopped before the frame at `at`: a closing frame or
/// a failure stands in front of it.
pub open spec fn reading_stops_before(arrivals: Seq<InboundFrameView>, at: int) -> bool {
    exists|j: int| 0 <= j < at && j < arrivals.len() && read_step(#[trigger] arrivals[j]) is Stop
}

/// The first answer decides a wait. From `Authenticating`, when the frame at
/// `at` is the first that answers the handshake and reading has not stopped
/// before it, the wait ends with that answer whatever arrives behind it: an
/// acknowledgement gives success and `Authenticated`, a rejection gives the
/// rejection and `Unauthenticated`.
pub proof fn the_first_answer_decides<H>(
    session: SessionView<H>,
    arrivals: Seq<InboundFrameView>,
    at: int,
)
    requires
        session.auth_state is Authenticating,
        0 <= at < arrivals.len(),
        answers_handshake(arrivals[at]),
        forall|j: int| 0 <= j < at ==> !answers_handshake(#[trigger] arrivals[j]),
        !reading_stops_before(arrivals, at),
    ensures
        arrivals[at] matches InboundFrameView::Text { signal: ServerSignal::Authenticated, .. }
            ==> {
            &&& session.await_outcome(arrivals) == Ok::<(), ErrorView>(())
            &&& session.after_await(arrivals).auth_state is Authenticated
        },
        arrivals[at] matches InboundFrameView::Text { signal: ServerSignal::Rejected, .. } ==> {
            &&& session.await_outcome(arrivals) == Err::<(), ErrorView>(
                ErrorView::Unauthenticated,
            )
            &&& session.after_await(arrivals).auth_state is Unauthenticated
        },
    decreases at,
{
    let rest = arrivals.drop_first();
    let next = session.after_frame(arrivals[0]);
    if at == 0 {
        assert(read_step(arrivals[0]) is Continue);
        assert(next.auth_state.is_settled());
        a_wait_ends_settled(next, rest);
    } else {
        assert(!answers_handshake(arrivals[0]));
        assert(read_step(arrivals[0]) is Continue) by {
            if read_step(arrivals[0]) is Stop {
                assert(reading_stops_before(arrivals, at));
            }
        }
        assert(next.auth_state == session.auth_state);
        assert(rest[at - 1] == arrivals[at]);
        assert forall|j: int| 0 <= j < at - 1 implies !answers_handshake(#[trigger] rest[j]) by {
            assert(rest[j] == arrivals[j + 1]);
        }
        assert(!reading_stops_before(rest, at - 1)) by {
            if reading_stops_before(rest, at - 1) {
                let j = choose|j: int|
                    0 <= j < at - 1 && j < rest.len() && read_step(#[trigger] rest[j]) is Stop;
                assert(rest[j] == arrivals[j + 1]);
                assert(read_step(arrivals[j + 1]) is Stop);
                assert(reading_stops_before(arrivals, at));
            }
        }
        the_first_answer_decides(next, rest, at - 1);
    }
}

/// Without an answer there is a timeout. When the authentication state is
/// not settled and every frame that answers the handshake arrives only after
/// reading has stopped, the wait ends with a timeout and leaves the session
/// `Unauthenticated`.
pub proof fn a_wait_without_an_answer_in_time_times_out<H>(
    session: SessionView<H>,
    arrivals: Seq<InboundFrameView>,
)
    requires
        !session.auth_state.is_settled(),
        forall|i: int|
            0 <= i < arrivals.len() && answers_handshake(#[trigger] arrivals[i])
                ==> reading_stops_before(arrivals, i),
    ensures
        session.await_outcome(arrivals) == Err::<(), ErrorView>(ErrorView::AuthenticationTimeout),
        session.after_await(arrivals).auth_state is Unauthenticated,
    decreases arrivals.len(),
{
    if arrivals.len() > 0 {
        let rest = arrivals.drop_first();
        let next = session.after_frame(arrivals[0]);
        assert(!answers_handshake(arrivals[0])) by {
            if answers_handshake(arrivals[0]) {
                assert(reading_stops_before(arrivals, 0));
            }
        }
        assert(next.auth_state == session.auth_state);
        if read_step(arrivals[0]) is Continue {
            assert forall|i: int|
                0 <= i < rest.len() && answers_handshake(
                    #[trigger] rest[i],
                ) implies reading_stops_before(rest, i) by {
                assert(rest[i] == arrivals[i + 1]);
                assert(reading_stops_before(arrivals, i + 1));
                let j = choose|j: int|
                    0 <= j < i + 1 && j < arrivals.len() && read_step(#[trigger] arrivals[j])
                        is Stop;
                assert(j != 0);
                assert(rest[j - 1] == arrivals[j]);
                assert(read_step(rest[j - 1]) is Stop);
            }
            a_wait_without_an_answer_in_time_times_out(next, rest);
        }
    }
}

/// Against a server that never answers the handshake, a connection attempt
/// whose transport opens and whose handshake is sent ends with a timeout and
/// leaves the session `Unauthenticated`.
pub proof fn a_silent_server_times_out<H>(
    session: SessionView<H>,
    target: Result<Seq<char>, ErrorView>,
    arrivals: Seq<InboundFrameView>,
)
    requires
        target is Ok,
        session.opened_outcome() is Ok,
        forall|i: int| 0 <= i < arrivals.len() ==> !answers_handshake(#[trigger] arrivals[i]),
    ensures
        session.connect_outcome(target, Ok(()), arrivals) == Err::<(), ErrorView>(
            ErrorView::AuthenticationTimeout,
        ),
        session.after_connect(target, Ok(()), arrivals).auth_state is Unauthenticated,
{
    an_unanswered_wait_times_out(session.after_opened(), arrivals);
}

/// In `speed` mode a subscription to `candles` or to `aggregates` is refused
/// and the session stays exactly as it was: no frame is queued. In
/// `standard` mode no channel is refused, and on an open write path the
/// subscription queues exactly one frame, the text of the `subscribe`
/// message.
pub proof fn speed_mode_refuses_aggregated_channels<H>(
    session: SessionView<H>,
    params: Seq<ParamView>,
)
    ensures
        session.mode is Speed && (text_member(params, "channel"@) == Some("candles"@)
            || text_member(params, "channel"@) == Some("aggregates"@)) ==> {
            &&& session.subscribe_outcome(params) == Err::<(), ErrorView>(
                ErrorView::InvalidModeForChannel {
                    channel: text_member(params, "channel"@)->0,
                    mode: "speed"@,
                },
            )
            &&& session.after_subscribe(params) == session
        },
        session.mode is Standard ==> session.refusal(params) is None,
        session.mode is Standard && session.write_path is Open ==> (
        match OutboundMessageView::Subscribe(params).wire_text() {
            Ok(text) => {
                &&& session.subscribe_outcome(params) is Ok
                &&& session.after_subscribe(params).outbox == session.outbox.push(
                    OutboundFrameView::Text(text),
                )
            },
            Err(reason) => {
                &&& session.subscribe_outcome(params) == Err::<(), ErrorView>(
                    ErrorView::Json(reason),
                )
                &&& session.after_subscribe(params) == session
            },
        }),
{
}

/// A running monitor counts every probe: the count grows by exactly one.
/// Every answer returns the count to exactly zero.
pub proof fn probes_count_by_one_and_answers_clear(monitor: HeartbeatView)
    ensures
        monitor.running ==> monitor.probed().missed_pongs == monitor.missed_pongs + 1,
        !monitor.running ==> monitor.probed() == monitor,
        monitor.answered().missed_pongs == 0,
        monitor.answered().running == monitor.running,
{
}

/// After a connection has started the monitor, `count` probes in a row
/// without an answer leave `count` probes unanswered as long as `count` does
/// not pass the threshold; one probe more stops the monitor, and a stopped
/// monitor counts no further probe.
pub proof fn unanswered_probes_stop_the_monitor(monitor: HeartbeatView, count: nat)
    ensures
        count <= MAX_MISSED_PONGS ==> monitor.started().probed_times(count) == (HeartbeatView {
            missed_pongs: count,
            running: true,
        }),
        count > MAX_MISSED_PONGS ==> monitor.started().probed_times(count) == (HeartbeatView {
            missed_pongs: (MAX_MISSED_PONGS + 1) as nat,
            running: false,
        }),
        count == MAX_MISSED_PONGS ==> monitor.started().probed_times(count).step()
            == HeartbeatStep::Expired,
        count < MAX_MISSED_PONGS ==> monitor.started().probed_times(count).step()
            == HeartbeatStep::Probed,
    decreases count,
{
    if count > 0 {
        unanswered_probes_stop_the_monitor(monitor, (count - 1) as nat);
    }
}

/// With the threshold of two, the third probe in a row without an answer
/// stops the monitor.
pub proof fn the_third_unanswered_probe_stops_the_monitor(monitor: HeartbeatView)
    ensures
        monitor.started().probed_times(2).running,
        monitor.started().probed_times(2).step() == HeartbeatStep::Expired,
        !monitor.started().probed_times(3).running,
        monitor.started().probed_times(3).missed_pongs == 3,
{
    unanswered_probes_stop_the_monitor(monitor, 2);
    unanswered_probes_stop_the_monitor(monitor, 3);
}

/// A tick of a running monitor on an open write path, with a probe that can
/// be encoded, queues exactly that probe and counts exactly one more
/// unanswered probe, whether or not the count then passes the threshold. It
/// queues nothing else and closes nothing: the write path and the
/// authentication state stay as they were. The tick that finds the threshold
/// passed stops the monitor, and no later tick sends or counts anything.
pub proof fn a_tick_sends_one_probe_and_closes_nothing<H>(
    session: SessionView<H>,
    probe: Seq<char>,
)
    requires
        session.heartbeat.running,
        session.write_path is Open,
    ensures
        session.tick_step(Ok(probe)) == session.heartbeat.step(),
        session.after_tick(Ok(probe)).outbox == session.outbox.push(
            OutboundFrameView::Text(probe),
        ),
        session.after_tick(Ok(probe)).heartbeat.missed_pongs == session.heartbeat.missed_pongs
            + 1,
        session.after_tick(Ok(probe)).write_path == session.write_path,
        session.after_tick(Ok(probe)).auth_state == session.auth_state,
        session.after_tick(Ok(probe)).dispatcher == session.dispatcher,
        session.after_tick(Ok(probe)).heartbeat.running <==> session.tick_step(Ok(probe))
            is Probed,
        session.tick_step(Ok(probe)) is Expired ==> {
            &&& session.after_tick(Ok(probe)).tick_step(Ok(probe)) is Halted
            &&& session.after_tick(Ok(probe)).after_tick(Ok(probe)) == session.after_tick(
                Ok(probe),
            )
        },
{
}

/// After a connection has started the monitor, ticks in a row on an open
/// write path, none of them answered, send one probe each until the third;
/// the third stops the monitor with three probes unanswered, and from then
/// on nothing is sent, however many ticks follow.
pub proof fn three_unanswered_ticks_stop_the_monitor<H>(session: SessionView<H>, probe: Seq<char>)
    requires
        session.write_path is Open,
        session.heartbeat == HeartbeatView::idle().started(),
    ensures
        ({
            let first = session.after_tick(Ok(probe));
            let second = first.after_tick(Ok(probe));
            let third = second.after_tick(Ok(probe));
            let fourth = third.after_tick(Ok(probe));
            &&& session.tick_step(Ok(probe)) is Probed
            &&& first.heartbeat.missed_pongs == 1
            &&& first.tick_step(Ok(probe)) is Probed
            &&& second.heartbeat.missed_pongs == 2
            &&& second.tick_step(Ok(probe)) is Expired
            &&& third.heartbeat.missed_pongs == 3
            &&& !third.heartbeat.running
            &&& third.write_path is Open
            &&& third.outbox == session.outbox.push(OutboundFrameView::Text(probe)).push(
                OutboundFrameView::Text(probe),
            ).push(OutboundFrameView::Text(probe))
            &&& third.tick_step(Ok(probe)) is Halted
            &&& fourth == third
        }),
{
}

/// Disconnecting is idempotent: a second disconnection changes nothing, a
/// client that never connected is left as it was, and the authentication
/// state is `Pending` afterwards.
pub proof fn disconnect_is_idempotent<H>(
    session: SessionView<H>,
    mode: Mode,
    config: WebSocketConfigView,
)
    ensures
        session.disconnected().disconnected() == session.disconnected(),
        session.disconnected().auth_state is Pending,
        session.disconnected().write_path is Absent,
        session.disconnected().heartbeat.missed_pongs == 0,
        SessionView::<H>::fresh(mode, config).disconnected() == SessionView::<H>::fresh(
            mode,
            config,
        ),
{
}

/// Delivering one event to a dispatcher with `n` handlers makes exactly `n`
/// invocations after those made before: the first goes to the handler
/// registered first, the second to the one registered second, and so on, so
/// that every handler is invoked exactly once, in the order of registration,
/// with the event.
pub proof fn emit_invokes_every_handler_once_in_order<H>(
    dispatcher: DispatcherView<H>,
    event: WebSocketEventView,
)
    ensures
        dispatcher.emitted(event).handlers == dispatcher.handlers,
        dispatcher.emitted(event).deliveries.len() == dispatcher.deliveries.len()
            + dispatcher.handlers.len(),
        forall|k: int|
            0 <= k < dispatcher.deliveries.len() ==> dispatcher.emitted(event).deliveries[k]
                == dispatcher.deliveries[k],
        forall|k: int|
            0 <= k < dispatcher.handlers.len() ==> #[trigger] dispatcher.emitted(
                event,
            ).deliveries[dispatcher.deliveries.len() + k] == (Delivery {
                handler: k as nat,
                event,
            }),
{
}

/// Registering a handler puts it behind those registered before and makes
/// no invocation: after `n` registrations on a new dispatcher there are `n`
/// handlers, in the order of their registration.
pub proof fn registration_keeps_order<H>(dispatcher: DispatcherView<H>, handler: H)
    ensures
        dispatcher.registered(handler).handlers.len() == dispatcher.handlers.len() + 1,
        dispatcher.registered(handler).handlers.last() == handler,
        forall|k: int|
            0 <= k < dispatcher.handlers.len() ==> dispatcher.registered(handler).handlers[k]
                == dispatcher.handlers[k],
        dispatcher.registered(handler).deliveries == dispatcher.deliveries,
        DispatcherView::<H>::empty().handlers.len() == 0,
{
}

/// Every text frame is delivered as `Message` to every handler before
/// anything else is made of it: the invocations that follow those made
/// before the frame begin with one round of `Message`, and an
/// acknowledgement or a rejection adds exactly one round of its own event
/// behind that.
pub proof fn every_text_frame_is_delivered_as_message<H>(
    session: SessionView<H>,
    text: Seq<char>,
    signal: ServerSignal,
)
    ensures
        ({
            let frame = InboundFrameView::Text { text, signal };
            let before = session.dispatcher.deliveries;
            let count = session.dispatcher.handlers.len();
            let noted = before + round(count, WebSocketEventView::Message(text));
            let after = session.after_frame(frame).dispatcher.deliveries;
            match signal {
                ServerSignal::Authenticated => after == noted + round(
                    count,
                    WebSocketEventView::Authenticated(text),
                ),
                ServerSignal::Rejected => after == noted + round(
                    count,
                    WebSocketEventView::Unauthenticated(text),
                ),
                _ => after == noted,
            }
        }),
        session.after_frame(InboundFrameView::Text { text, signal }).dispatcher.handlers
            == session.dispatcher.handlers,
        session.after_frame(InboundFrameView::Text { text, signal }).outbox == session.outbox,
        session.after_frame(InboundFrameView::Text { text, signal }).write_path
            == session.write_path,
{
}

/// Without a write path every send fails as not connected and changes
/// nothing, whatever is sent.
pub proof fn sends_need_a_write_path<H>(
    session: SessionView<H>,
    encoded: Result<Seq<char>, Seq<char>>,
    params: Seq<ParamView>,
)
    requires
        session.write_path is Absent,
    ensures
        session.send_outcome(encoded) == Err::<(), ErrorView>(
            ErrorView::WebSocket(NOT_CONNECTED_MESSAGE@),
        ),
        session.after_send(encoded) == session,
        session.refusal(params) is None ==> session.subscribe_outcome(params) == Err::<
            (),
            ErrorView,
        >(ErrorView::WebSocket(NOT_CONNECTED_MESSAGE@)),
        session.after_subscribe(params) == session,
        session.handshake_outcome_with(encoded) is Err,
        session.after_handshake_with(encoded) == session,
        session.tick_step(encoded) is Halted,
        !session.after_tick(encoded).heartbeat.running,
        session.after_tick(encoded).outbox == session.outbox,
{
}

/// Frames leave in the order in which they were queued: no operation but
/// the taking of the frames and the opening of a new write path removes or
/// reorders what is queued, and what an operation queues goes behind it.
pub proof fn queued_frames_keep_their_order<H>(
    session: SessionView<H>,
    encoded: Result<Seq<char>, Seq<char>>,
    params: Seq<ParamView>,
    frame: InboundFrameView,
)
    ensures
        session.outbox.is_prefix_of(session.after_send(encoded).outbox),
        session.after_send(encoded).outbox.len() <= session.outbox.len() + 1,
        session.outbox.is_prefix_of(session.after_subscribe(params).outbox),
        session.outbox.is_prefix_of(session.after_handshake_with(encoded).outbox),
        session.outbox.is_prefix_of(session.after_tick(encoded).outbox),
        session.outbox.is_prefix_of(session.disconnected().outbox),
        session.after_frame(frame).outbox == session.outbox,
        session.after_deadline().outbox == session.outbox,
        session.after_writer_closed().outbox == session.outbox,
{
}

} // verus!
