//! What the bridge does for its peers, stated of what goes in and what comes
//! out.

use crate::bridge::channels::{contents, letters_in, Audience, Channel, Mailboxes};
use crate::bridge::protocol::{
    duplicate_target, hello_ack, presence_update, Envelope, Hello, HelloAck, Incoming, Message, PeerRole,
    PresenceUpdate, TargetInfo,
};
use crate::bridge::relay::{Action, AppState, Connection, Event, Sessions};
use crate::bridge::target_client::{hello, Attempt, Error, Received, TargetClient};
use crate::number::decimal;
use vstd::prelude::*;

verus! {

/// A peer that introduces itself is told its session, whose name is the next
/// number; and the number after that is next. What it said of itself is kept
/// along with the session. Nobody else is told anything yet.
pub proof fn an_introduction_is_answered_with_a_session(
    hello: Hello,
    state: &mut AppState,
    sessions: &mut Sessions,
    next: (Connection, Action),
)
    requires
        call_ensures(
            Connection::advance,
            (
                Connection::Arriving,
                state,
                sessions,
                Event::Received(
                    Incoming::Envelope(Envelope { message: Some(Message::Hello(hello)) }),
                ),
            ),
            next,
        ),
    ensures
        next.0 is Acknowledging,
        next.0->Acknowledging_session_id@ == decimal(old(sessions).next_id as nat),
        next.0->role == hello.role,
        next.0->display_name == hello.display_name,
        next.1 is Send,
        next.1->Send_0.message is Some,
        next.1->Send_0.message->0 is HelloAck,
        next.1->Send_0.message->0->HelloAck_0.session_id@ == decimal(old(sessions).next_id as nat),
        final(sessions).next_id as int == (old(sessions).next_id + 1) % 0x1_0000_0000_0000_0000,
        *final(state) == *old(state),
{
}

/// A peer that begins with anything else is dropped, and gets no number.
pub proof fn whoever_does_not_introduce_itself_is_dropped(
    incoming: Incoming,
    state: &mut AppState,
    sessions: &mut Sessions,
    next: (Connection, Action),
)
    requires
        call_ensures(
            Connection::advance,
            (Connection::Arriving, state, sessions, Event::Received(incoming)),
            next,
        ),
        !(incoming is Envelope) || incoming->Envelope_0.message is None
            || !(incoming->Envelope_0.message->0 is Hello),
    ensures
        next == (Connection::Closed, Action::Close),
        *final(sessions) == *old(sessions),
        *final(state) == *old(state),
{
}

/// A web peer that knows its session subscribes to what is for web peers, and
/// is then told which device is connected at that moment. Only then it waits.
pub proof fn a_web_peer_is_let_in(
    session_id: String,
    display_name: String,
    state: &mut AppState,
    sessions: &mut Sessions,
    next: (Connection, Action),
    later: &mut AppState,
    later_sessions: &mut Sessions,
    told: (Connection, Action),
    last: &mut AppState,
    last_sessions: &mut Sessions,
    done: (Connection, Action),
)
    requires
        call_ensures(
            Connection::advance,
            (
                Connection::Acknowledging { session_id, role: PeerRole::Ui, display_name },
                state,
                sessions,
                Event::Sent(true),
            ),
            next,
        ),
        call_ensures(
            Connection::advance,
            (next.0, later, later_sessions, Event::Subscribed),
            told,
        ),
        call_ensures(
            Connection::advance,
            (told.0, last, last_sessions, Event::Sent(true)),
            done,
        ),
    ensures
        next.1 == Action::Subscribe(Audience::Ui),
        told.1 == Action::Send(
            Envelope {
                message: Some(
                    Message::PresenceUpdate(
                        PresenceUpdate { target: old(later).current_target },
                    ),
                ),
            },
        ),
        done == (Connection::Ui, Action::Wait),
        *final(state) == *old(state),
        *final(later) == *old(later),
        *final(last) == *old(last),
{
}

/// A device that knows its session is the connected one from then on, under
/// its session and its name, and every web peer is told so. Then it subscribes
/// to what is for devices, and then it waits.
pub proof fn a_device_is_let_in(
    session_id: String,
    display_name: String,
    state: &mut AppState,
    sessions: &mut Sessions,
    next: (Connection, Action),
    later: &mut AppState,
    later_sessions: &mut Sessions,
    announced: (Connection, Action),
    last: &mut AppState,
    last_sessions: &mut Sessions,
    done: (Connection, Action),
)
    requires
        call_ensures(
            Connection::advance,
            (
                Connection::Acknowledging { session_id, role: PeerRole::Target, display_name },
                state,
                sessions,
                Event::Sent(true),
            ),
            next,
        ),
        call_ensures(
            Connection::advance,
            (next.0, later, later_sessions, Event::Published),
            announced,
        ),
        call_ensures(
            Connection::advance,
            (announced.0, last, last_sessions, Event::Subscribed),
            done,
        ),
    ensures
        ({
            let info = TargetInfo { session_id, display_name };
            &&& final(state).current_target == Some(info)
            &&& next.1 == Action::Publish(
                Channel::Presence,
                Envelope {
                    message: Some(
                        Message::PresenceUpdate(PresenceUpdate { target: Some(info) }),
                    ),
                },
            )
        }),
        announced.1 == Action::Subscribe(Audience::Target),
        done == (Connection::Target { session_id }, Action::Wait),
        *final(later) == *old(later),
        *final(last) == *old(last),
{
}

/// A peer that is neither a web peer nor a device, or that could not be told
/// its session, is dropped without a trace.
pub proof fn other_peers_are_dropped(
    session_id: String,
    role: PeerRole,
    display_name: String,
    sent: bool,
    state: &mut AppState,
    sessions: &mut Sessions,
    next: (Connection, Action),
)
    requires
        call_ensures(
            Connection::advance,
            (
                Connection::Acknowledging { session_id, role, display_name },
                state,
                sessions,
                Event::Sent(sent),
            ),
            next,
        ),
        !sent || role is Unspecified,
    ensures
        next == (Connection::Closed, Action::Close),
        *final(state) == *old(state),
        *final(sessions) == *old(sessions),
{
}

/// Whatever comes from the channels is sent to the peer as it is, and once
/// that is done the connection waits again, for the same peer.
pub proof fn what_is_heard_is_sent(
    connection: Connection,
    envelope: Envelope,
    state: &mut AppState,
    sessions: &mut Sessions,
    next: (Connection, Action),
    later: &mut AppState,
    later_sessions: &mut Sessions,
    done: (Connection, Action),
)
    requires
        connection is Ui || connection is Target,
        call_ensures(
            Connection::advance,
            (connection, state, sessions, Event::Heard(envelope)),
            next,
        ),
        call_ensures(
            Connection::advance,
            (next.0, later, later_sessions, Event::Sent(true)),
            done,
        ),
    ensures
        next.1 == Action::Send(envelope),
        done == (connection, Action::Wait),
        *final(state) == *old(state),
        *final(later) == *old(later),
{
}

/// A shader from a web peer is published for devices as it is, and what a
/// device says of itself for web peers. Everything else a peer says is
/// ignored. Either way the connection waits again, for the same peer.
pub proof fn what_is_for_others_is_published(
    connection: Connection,
    envelope: Envelope,
    state: &mut AppState,
    sessions: &mut Sessions,
    next: (Connection, Action),
    later: &mut AppState,
    later_sessions: &mut Sessions,
    done: (Connection, Action),
)
    requires
        connection is Ui || connection is Target,
        call_ensures(
            Connection::advance,
            (connection, state, sessions, Event::Received(Incoming::Envelope(envelope))),
            next,
        ),
        next.1 is Publish ==> call_ensures(
            Connection::advance,
            (next.0, later, later_sessions, Event::Published),
            done,
        ),
    ensures
        ({
            let message = envelope.message;
            let shader = message is Some && message->0 is ShaderUpdate;
            let report = message is Some && (message->0 is DeviceInfo || message->0 is PerfSample);
            &&& connection is Ui && shader ==> next.1 == Action::Publish(Channel::Shader, envelope)
            &&& connection is Target && report ==> next.1 == Action::Publish(
                Channel::Perf,
                envelope,
            )
            &&& connection is Ui && !shader || connection is Target && !report ==> next == (
                connection,
                Action::Wait,
            )
            &&& next.1 is Publish ==> done == (connection, Action::Wait) && *final(later) == *old(later)
            &&& *final(state) == *old(state)
        }),
{
}

/// What no envelope came of is ignored.
pub proof fn what_cannot_be_read_is_ignored(
    connection: Connection,
    incoming: Incoming,
    state: &mut AppState,
    sessions: &mut Sessions,
    next: (Connection, Action),
)
    requires
        connection is Ui || connection is Target,
        incoming is NotBinary || incoming is Malformed,
        call_ensures(
            Connection::advance,
            (connection, state, sessions, Event::Received(incoming)),
            next,
        ),
    ensures
        next == (connection, Action::Wait),
        *final(state) == *old(state),
{
}

/// Whether an event means that the peer is gone: its end was read, reading
/// from it failed, or sending to it failed.
pub open spec fn is_gone(event: Event) -> bool {
    match event {
        Event::Received(Incoming::Closed) => true,
        Event::Received(Incoming::Failed(_)) => true,
        Event::Sent(sent) => !sent,
        _ => false,
    }
}

/// When the connected device is gone, no device is connected, and every web
/// peer is told so before the connection is closed. This holds however it is
/// gone: its end was read, reading from it failed, or sending to it failed.
pub proof fn web_peers_are_told_when_the_device_is_gone(
    connection: Connection,
    session_id: String,
    info: TargetInfo,
    event: Event,
    state: &mut AppState,
    sessions: &mut Sessions,
    next: (Connection, Action),
    later: &mut AppState,
    later_sessions: &mut Sessions,
    done: (Connection, Action),
)
    requires
        connection == (Connection::Target { session_id }) && event is Received || connection == (
        Connection::TellingTarget { session_id }) && event is Sent,
        is_gone(event),
        old(state).current_target == Some(info),
        info.session_id@ == session_id@,
        call_ensures(Connection::advance, (connection, state, sessions, event), next),
        call_ensures(
            Connection::advance,
            (next.0, later, later_sessions, Event::Published),
            done,
        ),
    ensures
        final(state).current_target is None,
        next.1 == Action::Publish(
            Channel::Presence,
            Envelope { message: Some(Message::PresenceUpdate(PresenceUpdate { target: None })) },
        ),
        done == (Connection::Closed, Action::Close),
        *final(later) == *old(later),
{
}

/// When a device is gone that is not the connected one, because another has
/// taken its place, the connection is closed and nobody is told anything.
pub proof fn nobody_is_told_of_a_replaced_device(
    connection: Connection,
    session_id: String,
    event: Event,
    state: &mut AppState,
    sessions: &mut Sessions,
    next: (Connection, Action),
)
    requires
        connection == (Connection::Target { session_id }) && event is Received || connection == (
        Connection::TellingTarget { session_id }) && event is Sent,
        is_gone(event),
        old(state).current_target is None || old(state).current_target->0.session_id@
            != session_id@,
        call_ensures(Connection::advance, (connection, state, sessions, event), next),
    ensures
        next == (Connection::Closed, Action::Close),
        *final(state) == *old(state),
{
}

/// When a web peer is gone, its connection is closed, and nothing else
/// changes.
pub proof fn a_web_peer_that_is_gone_is_dropped(
    connection: Connection,
    event: Event,
    state: &mut AppState,
    sessions: &mut Sessions,
    next: (Connection, Action),
)
    requires
        connection is Ui && event is Received || connection is TellingUi && event is Sent,
        is_gone(event),
        call_ensures(Connection::advance, (connection, state, sessions, event), next),
    ensures
        next == (Connection::Closed, Action::Close),
        *final(state) == *old(state),
{
}

/// No connection is closed while its device is the connected one, so that web
/// peers never go on seeing a device that is gone.
pub proof fn no_device_goes_unnoticed(
    connection: Connection,
    session_id: String,
    event: Event,
    state: &mut AppState,
    sessions: &mut Sessions,
    next: (Connection, Action),
)
    requires
        connection == (Connection::Announcing { session_id }) || connection == (
        Connection::JoiningTarget { session_id }) || connection == (Connection::Target {
            session_id,
        }) || connection == (Connection::TellingTarget { session_id }) || connection == (
        Connection::RelayingForTarget { session_id }),
        connection.expects(event),
        call_ensures(Connection::advance, (connection, state, sessions, event), next),
    ensures
        next.1 is Close || next.0 is Closed || next.0 is Departing ==> final(state).current_target is None || final(state).current_target->0.session_id@ != session_id@,
        next.0 is Closed <==> next.1 is Close,
        !is_gone(event) ==> *final(state) == *old(state) && !(next.1 is Close),
        *final(sessions) == *old(sessions),
{
}

/// A daemon begins with no device, and sessions are numbered from one.
pub proof fn a_daemon_begins_with_no_device(
    state: AppState,
    sessions: Sessions,
    started: (Connection, Action),
)
    requires
        call_ensures(AppState::new, (), state),
        call_ensures(Sessions::new, (), sessions),
        call_ensures(Connection::accept, (), started),
    ensures
        state.current_target is None,
        sessions.next_id == 1,
        started == (Connection::Arriving, Action::Receive),
{
}

/// What the daemon says is what it means: an acknowledgement names the
/// session, and an announcement the device.
pub proof fn messages_say_what_they_mean(
    session_id: String,
    ack: Envelope,
    target: Option<TargetInfo>,
    presence: Envelope,
    display_name: String,
    introduction: Envelope,
)
    requires
        call_ensures(hello_ack, (session_id,), ack),
        call_ensures(presence_update, (target,), presence),
        call_ensures(hello, (display_name,), introduction),
    ensures
        ack.message == Some(Message::HelloAck(HelloAck { session_id })),
        presence.message == Some(Message::PresenceUpdate(PresenceUpdate { target })),
        introduction.message == Some(
            Message::Hello(Hello { role: PeerRole::Target, display_name }),
        ),
{
}

/// A device is connected exactly if the daemon answered its introduction with
/// an acknowledgement, and its session is the one that names. Otherwise there
/// is an error, with the reason if there is one to give.
pub proof fn a_device_is_connected_by_an_acknowledgement(
    attempt: Attempt,
    client: Result<TargetClient, Error>,
)
    requires
        call_ensures(TargetClient::connect, (attempt,), client),
    ensures
        ({
            let answer = attempt->Answered_0;
            let acknowledged = attempt is Answered && answer is Envelope
                && answer->Envelope_0.message is Some && answer->Envelope_0.message->0 is HelloAck;
            &&& client is Ok <==> acknowledged
            &&& acknowledged ==> client->Ok_0.session_id
                == answer->Envelope_0.message->0->HelloAck_0.session_id
            &&& attempt is Unreachable ==> client == Err::<TargetClient, Error>(
                Error::Connect(attempt->Unreachable_0),
            )
            &&& attempt is Unheard ==> client == Err::<TargetClient, Error>(
                Error::Connect(attempt->Unheard_0),
            )
            &&& attempt is Answered && answer is Failed ==> client == Err::<TargetClient, Error>(
                Error::Connect(answer->Failed_0),
            )
            &&& attempt is Answered && !(answer is Failed) && !acknowledged ==> client == Err::<
                TargetClient,
                Error,
            >(Error::HandshakeFailed)
        }),
{
}

/// A device takes in the shaders it is sent, and ends with the connection.
/// Whatever else it reads, it reads on.
pub proof fn a_device_takes_in_shaders(client: TargetClient, incoming: Incoming, received: Received)
    requires
        call_ensures(TargetClient::recv, (&client, incoming), received),
    ensures
        ({
            let message = incoming->Envelope_0.message;
            let shader = incoming is Envelope && message is Some && message->0 is ShaderUpdate;
            &&& shader ==> received == Received::Update(message->0->ShaderUpdate_0)
            &&& received is Update ==> shader
            &&& received is Closed <==> incoming is Closed || incoming is Failed
        }),
{
}

/// The sentences for why there is no connection.
pub proof fn connection_errors_have_sentences(error: Error, s: String)
    requires
        call_ensures(Error::message, (&error,), s),
    ensures
        error is Connect ==> s@ == "failed to connect: "@ + error->Connect_0@,
        error is HandshakeFailed ==> s@
            == "connection closed or sent an unexpected response before HelloAck"@,
{
}

/// Envelopes that say the same are the same: byte by byte for shaders, in
/// every one of their fields, and in every field for all others.
pub proof fn what_says_the_same_is_the_same(a: Envelope, b: Envelope)
    requires
        a.content() == b.content(),
    ensures
        a.message is Some && a.message->0 is ShaderUpdate <==> b.message is Some
            && b.message->0 is ShaderUpdate,
        !(a.message is Some && a.message->0 is ShaderUpdate) ==> a == b,
        a.message is Some && a.message->0 is ShaderUpdate ==> {
            let x = a.message->0->ShaderUpdate_0;
            let y = b.message->0->ShaderUpdate_0;
            &&& x.vertex_spirv@ == y.vertex_spirv@
            &&& x.fragment_spirv@ == y.fragment_spirv@
            &&& x.compute_spirv@ == y.compute_spirv@
            &&& x.entry_point@ == y.entry_point@
            &&& x.thread_group_size_x == y.thread_group_size_x
            &&& x.thread_group_size_y == y.thread_group_size_y
            &&& x.thread_group_size_z == y.thread_group_size_z
            &&& x.output_texture_binding == y.output_texture_binding
            &&& x.uniform_buffer_size == y.uniform_buffer_size
            &&& x.time_offset == y.time_offset
            &&& x.frame_id_offset == y.frame_id_offset
            &&& x.mouse_position_offset == y.mouse_position_offset
        },
{
}

/// A duplicate says the same as what it was made from.
pub proof fn a_duplicate_says_the_same(envelope: Envelope, copy: Envelope)
    requires
        call_ensures(Envelope::duplicate, (&envelope,), copy),
    ensures
        copy.content() == envelope.content(),
{
}

/// What is published reaches every mailbox that it is for, after what waits
/// there, and no other: presence and reports are for web peers, and shaders
/// for devices. No mailbox comes or goes.
pub proof fn what_is_published_reaches_whom_it_is_for(
    mailboxes: &mut Mailboxes,
    channel: Channel,
    envelope: Envelope,
    i: int,
)
    requires
        call_ensures(Mailboxes::publish, (mailboxes, channel, &envelope), ()),
        0 <= i < old(mailboxes).slots@.len(),
    ensures
        ({
            let before = old(mailboxes).slots@[i];
            let after = final(mailboxes).slots@[i];
            &&& final(mailboxes).slots@.len() == old(mailboxes).slots@.len()
            &&& after is Some <==> before is Some
            &&& before is Some ==> {
                let for_it = match before->0.audience {
                    Audience::Ui => !(channel is Shader),
                    Audience::Target => channel is Shader,
                };
                &&& after->0.audience == before->0.audience
                &&& contents(after->0.waiting@) == (if for_it {
                    contents(before->0.waiting@).push(envelope.content())
                } else {
                    contents(before->0.waiting@)
                })
            }
        }),
{
    assert(final(mailboxes).all().len() == old(mailboxes).all().len());
    assert(old(mailboxes).all()[i] == letters_in(old(mailboxes).slots@[i]));
    assert(final(mailboxes).all()[i] == letters_in(final(mailboxes).slots@[i]));
}

/// A connection takes out of its mailbox what has waited longest, and nothing
/// out of any other. What was not taken stays, in order.
pub proof fn what_waited_longest_is_taken(
    mailboxes: &mut Mailboxes,
    place: usize,
    taken: Option<Envelope>,
    i: int,
)
    requires
        call_ensures(Mailboxes::take, (mailboxes, place), taken),
        0 <= i < old(mailboxes).slots@.len(),
    ensures
        ({
            let before = old(mailboxes).slots@[i];
            let after = final(mailboxes).slots@[i];
            let waiting = contents(before->0.waiting@);
            &&& final(mailboxes).slots@.len() == old(mailboxes).slots@.len()
            &&& after is Some <==> before is Some
            &&& before is Some ==> after->0.audience == before->0.audience
            &&& before is Some && i != place ==> contents(after->0.waiting@) == waiting
            &&& before is Some && i == place ==> {
                &&& taken is Some <==> waiting.len() > 0
                &&& taken is Some ==> waiting == seq![taken->0.content()] + contents(
                    after->0.waiting@,
                )
                &&& taken is None ==> contents(after->0.waiting@) == waiting
            }
            &&& before is None && i == place ==> taken is None
        }),
{
    assert(final(mailboxes).all().len() == old(mailboxes).all().len());
    assert(old(mailboxes).all()[i] == letters_in(old(mailboxes).slots@[i]));
    assert(final(mailboxes).all()[i] == letters_in(final(mailboxes).slots@[i]));
    let before = old(mailboxes).slots@[i];
    if before is Some && i == place && taken is Some {
        let waiting = contents(before->0.waiting@);
        assert(waiting == seq![waiting.first()] + waiting.drop_first());
    }
}

/// A connection that subscribes gets an empty mailbox of its own, for its
/// audience, and one that unsubscribes has none. All the others stay as they
/// are.
pub proof fn a_mailbox_comes_and_goes_alone(
    mailboxes: &mut Mailboxes,
    audience: Audience,
    place: usize,
    others: &mut Mailboxes,
    gone: usize,
    i: int,
)
    requires
        call_ensures(Mailboxes::subscribe, (mailboxes, audience), place),
        call_ensures(Mailboxes::unsubscribe, (others, gone), ()),
    ensures
        place < final(mailboxes).slots@.len(),
        place < old(mailboxes).slots@.len() ==> old(mailboxes).slots@[place as int] is None,
        final(mailboxes).slots@[place as int] is Some,
        final(mailboxes).slots@[place as int]->0.audience == audience,
        final(mailboxes).slots@[place as int]->0.waiting@.len() == 0,
        0 <= i < old(mailboxes).slots@.len() && i != place ==> i < final(mailboxes).slots@.len()
            && letters_in(final(mailboxes).slots@[i]) == letters_in(old(mailboxes).slots@[i]),
        gone < old(others).slots@.len() ==> final(others).slots@[gone as int] is None,
        0 <= i < old(others).slots@.len() && i != gone ==> letters_in(final(others).slots@[i])
            == letters_in(old(others).slots@[i]),
{
    let before = *old(mailboxes);
    let after = *final(mailboxes);
    assert(before.all().len() == before.slots@.len());
    assert(after.all().len() == after.slots@.len());
    assert(after.all()[place as int] == letters_in(after.slots@[place as int]));
    assert(contents(after.slots@[place as int]->0.waiting@).len()
        == after.slots@[place as int]->0.waiting@.len());
    if place < before.all().len() {
        assert(before.all()[place as int] == letters_in(before.slots@[place as int]));
    }
    if 0 <= i < before.slots@.len() && i != place {
        assert(before.all()[i] == letters_in(before.slots@[i]));
        assert(after.all()[i] == letters_in(after.slots@[i]));
    }
    assert(old(others).all().len() == old(others).slots@.len());
    assert(final(others).all().len() == final(others).slots@.len());
    if gone < old(others).slots@.len() {
        assert(final(others).all()[gone as int] == letters_in(final(others).slots@[gone as int]));
    }
    if 0 <= i < old(others).slots@.len() && i != gone {
        assert(old(others).all()[i] == letters_in(old(others).slots@[i]));
        assert(final(others).all()[i] == letters_in(final(others).slots@[i]));
    }
}

/// A device that arrives is the connected one, and is announced; one that
/// departs is no longer, which is announced only if it was.
pub proof fn devices_come_and_go(
    state: &mut AppState,
    session_id: String,
    display_name: String,
    arrived: Envelope,
    other: &mut AppState,
    departed: Option<Envelope>,
)
    requires
        call_ensures(AppState::arrive, (state, &session_id, display_name), arrived),
        call_ensures(AppState::depart, (other, &session_id), departed),
    ensures
        ({
            let info = TargetInfo { session_id, display_name };
            let was = old(other).current_target;
            let current = was is Some && was->0.session_id@ == session_id@;
            &&& final(state).current_target == Some(info)
            &&& arrived.message == Some(
                Message::PresenceUpdate(PresenceUpdate { target: Some(info) }),
            )
            &&& departed is Some <==> current
            &&& current ==> final(other).current_target is None && departed->0.message == Some(
                Message::PresenceUpdate(PresenceUpdate { target: None }),
            )
            &&& !current ==> final(other).current_target == was
        }),
{
}

/// Sessions get one number after the other, in decimal.
pub proof fn sessions_get_one_number_after_the_other(
    sessions: &mut Sessions,
    session_id: String,
)
    requires
        call_ensures(Sessions::next_session, (sessions,), session_id),
    ensures
        session_id@ == decimal(old(sessions).next_id as nat),
        final(sessions).next_id as int == (old(sessions).next_id + 1) % 0x1_0000_0000_0000_0000,
{
}

/// A copy of a description of the connected device is that description.
pub proof fn a_copied_description_is_the_same(
    target: Option<TargetInfo>,
    copy: Option<TargetInfo>,
    info: TargetInfo,
    other: TargetInfo,
    client: TargetClient,
    id: &str,
    none: Mailboxes,
)
    requires
        call_ensures(duplicate_target, (&target,), copy),
        call_ensures(TargetInfo::duplicate, (&info,), other),
        call_ensures(TargetClient::session_id, (&client,), id),
        call_ensures(Mailboxes::new, (), none),
    ensures
        copy == target,
        other == info,
        id@ == client.session_id@,
        none.slots@.len() == 0,
{
    assert(none.all().len() == none.slots@.len());
}

} // verus!
