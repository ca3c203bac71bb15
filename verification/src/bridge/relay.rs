//! The daemon's side of a connection: admitting peers, keeping track of the
//! connected device, and relaying what peers say to each other.
//!
//! Three channels carry messages between connections. One tells every web
//! peer which device is connected, one carries shaders from web peers to the
//! device, and one carries what a device says about itself to every web peer.

use crate::bridge::channels::{
    after_all, contents, nothing_published_is_missed, published_for, taken_out, Audience, Channel,
    Happening, Letters,
};
use crate::bridge::protocol::{
    ack_for, carries_perf, carries_shader, duplicate_target, hello_ack, presence_of,
    presence_update, Envelope, Incoming, Message, PeerRole, ShaderUpdate, TargetInfo,
};
use crate::bridge::target_client::{reception, Received};
use crate::number::{decimal, decimal_is_injective, decimal_string};
use vstd::prelude::*;

verus! {

/// What the connections of a daemon share.
#[derive(Debug)]
pub struct AppState {
    /// The connected device. A device that connects takes the place of the
    /// one before it.
    pub current_target: Option<TargetInfo>,
}

/// The numbers of sessions, which all daemons of a process share.
#[derive(Debug)]
pub struct Sessions {
    /// The number of the next session.
    pub next_id: u64,
}

/// Where a connection stands.
#[derive(Debug)]
pub enum Connection {
    /// Nothing has been read yet.
    Arriving,
    /// The peer's session is being told to it.
    Acknowledging { session_id: String, role: PeerRole, display_name: String },
    /// A web peer is being added to the presence and perf channels.
    JoiningUi,
    /// A web peer is being told something.
    TellingUi,
    /// What a web peer said is being passed on.
    RelayingForUi,
    /// Nothing is going on with a web peer.
    Ui,
    /// Web peers are being told about a device that arrived.
    Announcing { session_id: String },
    /// A device is being added to the shader channel.
    JoiningTarget { session_id: String },
    /// A device is being told something.
    TellingTarget { session_id: String },
    /// What a device said is being passed on.
    RelayingForTarget { session_id: String },
    /// Nothing is going on with a device.
    Target { session_id: String },
    /// Web peers are being told that no device is left.
    Departing,
    /// The connection is over.
    Closed,
}

/// What a connection is to do next.
#[derive(Debug)]
pub enum Action {
    /// Read from the peer.
    Receive,
    /// Send this to the peer.
    Send(Envelope),
    /// Subscribe to the channels for this audience.
    Subscribe(Audience),
    /// Put this on a channel. That nobody listens is no failure.
    Publish(Channel, Envelope),
    /// Read from the peer and from the channels subscribed to, whichever
    /// comes first.
    Wait,
    /// Close the connection.
    Close,
}

/// What came of it.
#[derive(Debug)]
pub enum Event {
    /// This was read from the peer.
    Received(Incoming),
    /// Sending is over, and succeeded or not.
    Sent(bool),
    /// The subscriptions are in place.
    Subscribed,
    /// The message is on the channel.
    Published,
    /// This came from a channel.
    Heard(Envelope),
}

impl Sessions {
    /// No session has been numbered yet.
    pub fn new() -> (sessions: Sessions)
        ensures
            sessions.next_id == 1,
    {
        Sessions { next_id: 1 }
    }

    /// The numbers after one more session was numbered.
    pub open spec fn counted(self) -> Sessions {
        Sessions { next_id: self.next_id.wrapping_add(1) }
    }

    /// Numbers one more session.
    pub fn next_session(&mut self) -> (session_id: String)
        ensures
            session_id@ == decimal(old(self).next_id as nat),
            *final(self) == old(self).counted(),
    {
        let number: u64 = self.next_id;
        self.next_id = number.wrapping_add(1);
        decimal_string(number)
    }
}

impl AppState {
    /// A daemon no device is connected to.
    pub fn new() -> (state: AppState)
        ensures
            state.current_target is None,
    {
        AppState { current_target: None }
    }

    /// The shared state after a device arrived.
    pub open spec fn arrived(self, info: TargetInfo) -> AppState {
        AppState { current_target: Some(info) }
    }

    /// Whether a session is the connected device's.
    pub open spec fn is_current(self, session_id: String) -> bool {
        self.current_target is Some && self.current_target->0.session_id@ == session_id@
    }

    /// The shared state after a device left. One that another has replaced
    /// leaves no trace.
    pub open spec fn departed(self, session_id: String) -> AppState {
        if self.is_current(session_id) {
            AppState { current_target: None }
        } else {
            self
        }
    }

    /// Makes a device the connected one, and says what to tell web peers.
    pub fn arrive(&mut self, session_id: &String, display_name: String) -> (presence: Envelope)
        ensures
            ({
                let info = TargetInfo { session_id: *session_id, display_name };
                &&& *final(self) == old(self).arrived(info)
                &&& presence == presence_of(Some(info))
            }),
    {
        let info = TargetInfo { session_id: session_id.clone(), display_name };
        let told = info.duplicate();
        self.current_target = Some(info);
        presence_update(Some(told))
    }

    /// Takes a device out, and says what to tell web peers, if anything.
    pub fn depart(&mut self, session_id: &String) -> (presence: Option<Envelope>)
        ensures
            *final(self) == old(self).departed(*session_id),
            presence == (if old(self).is_current(*session_id) {
                Some(presence_of(None))
            } else {
                None
            }),
    {
        let current = match &self.current_target {
            Some(info) => info.session_id == *session_id,
            None => false,
        };
        if current {
            self.current_target = None;
            Some(presence_update(None))
        } else {
            None
        }
    }
}

/// What follows on a connection: where it stands, what the connections
/// share, and what it is to do.
pub struct Step {
    pub connection: Connection,
    pub state: AppState,
    pub action: Action,
}

/// A connection that is over.
pub open spec fn closed(state: AppState) -> Step {
    Step { connection: Connection::Closed, state, action: Action::Close }
}

/// A web peer that is told something.
pub open spec fn telling_ui(state: AppState, envelope: Envelope) -> Step {
    Step { connection: Connection::TellingUi, state, action: Action::Send(envelope) }
}

/// A web peer nothing is going on with.
pub open spec fn idle_ui(state: AppState) -> Step {
    Step { connection: Connection::Ui, state, action: Action::Wait }
}

/// A device nothing is going on with.
pub open spec fn idle_target(state: AppState, session_id: String) -> Step {
    Step { connection: Connection::Target { session_id }, state, action: Action::Wait }
}

/// A device that left. Web peers are told so only if no other device has
/// taken its place.
pub open spec fn left(state: AppState, session_id: String) -> Step {
    if state.is_current(session_id) {
        Step {
            connection: Connection::Departing,
            state: state.departed(session_id),
            action: Action::Publish(Channel::Presence, presence_of(None)),
        }
    } else {
        closed(state)
    }
}

impl Connection {
    /// Whether an event can come next.
    pub open spec fn expects(self, event: Event) -> bool {
        match self {
            Connection::Arriving => event is Received,
            Connection::Acknowledging { .. } => event is Sent,
            Connection::JoiningUi => event is Subscribed,
            Connection::TellingUi => event is Sent,
            Connection::RelayingForUi => event is Published,
            Connection::Ui => event is Received || event is Heard,
            Connection::Announcing { .. } => event is Published,
            Connection::JoiningTarget { .. } => event is Subscribed,
            Connection::TellingTarget { .. } => event is Sent,
            Connection::RelayingForTarget { .. } => event is Published,
            Connection::Target { .. } => event is Received || event is Heard,
            Connection::Departing => event is Published,
            Connection::Closed => false,
        }
    }

    /// What follows the first thing read from a peer, which must be its
    /// introduction: it is given a session, or dropped.
    pub open spec fn admits(state: AppState, incoming: Incoming, session_id: String) -> Step {
        match incoming {
            Incoming::Envelope(Envelope { message: Some(Message::Hello(hello)) }) => Step {
                connection: Connection::Acknowledging {
                    session_id,
                    role: hello.role,
                    display_name: hello.display_name,
                },
                state,
                action: Action::Send(ack_for(session_id)),
            },
            _ => closed(state),
        }
    }

    /// What follows once a peer knows its session.
    pub open spec fn welcomes(
        state: AppState,
        session_id: String,
        role: PeerRole,
        display_name: String,
    ) -> Step {
        match role {
            PeerRole::Ui => Step {
                connection: Connection::JoiningUi,
                state,
                action: Action::Subscribe(Audience::Ui),
            },
            PeerRole::Target => {
                let info = TargetInfo { session_id, display_name };
                Step {
                    connection: Connection::Announcing { session_id },
                    state: state.arrived(info),
                    action: Action::Publish(Channel::Presence, presence_of(Some(info))),
                }
            },
            PeerRole::Unspecified => closed(state),
        }
    }

    /// What follows something read from a web peer. Shaders are passed on and
    /// everything else is ignored, so that newer peers may say more.
    pub open spec fn hears_ui(state: AppState, incoming: Incoming) -> Step {
        match incoming {
            Incoming::Closed => closed(state),
            Incoming::Failed(_) => closed(state),
            Incoming::Envelope(envelope) => if carries_shader(envelope) {
                Step {
                    connection: Connection::RelayingForUi,
                    state,
                    action: Action::Publish(Channel::Shader, envelope),
                }
            } else {
                idle_ui(state)
            },
            _ => idle_ui(state),
        }
    }

    /// What follows something read from a device. What it says about itself
    /// is passed on and everything else is ignored.
    pub open spec fn hears_target(state: AppState, session_id: String, incoming: Incoming) -> Step {
        match incoming {
            Incoming::Closed => left(state, session_id),
            Incoming::Failed(_) => left(state, session_id),
            Incoming::Envelope(envelope) => if carries_perf(envelope) {
                Step {
                    connection: Connection::RelayingForTarget { session_id },
                    state,
                    action: Action::Publish(Channel::Perf, envelope),
                }
            } else {
                idle_target(state, session_id)
            },
            _ => idle_target(state, session_id),
        }
    }

    /// What follows an event. `fresh` is the name of a session numbered at
    /// this moment.
    pub open spec fn follows(self, state: AppState, event: Event, fresh: String) -> Step {
        match (self, event) {
            (Connection::Arriving, Event::Received(incoming)) => Self::admits(
                state,
                incoming,
                fresh,
            ),
            (Connection::Acknowledging { session_id, role, display_name }, Event::Sent(ok)) =>
            if ok {
                Self::welcomes(state, session_id, role, display_name)
            } else {
                closed(state)
            },
            (Connection::JoiningUi, _) => telling_ui(state, presence_of(state.current_target)),
            (Connection::TellingUi, Event::Sent(ok)) => if ok {
                idle_ui(state)
            } else {
                closed(state)
            },
            (Connection::RelayingForUi, _) => idle_ui(state),
            (Connection::Ui, Event::Received(incoming)) => Self::hears_ui(state, incoming),
            (Connection::Ui, Event::Heard(envelope)) => telling_ui(state, envelope),
            (Connection::Announcing { session_id }, _) => Step {
                connection: Connection::JoiningTarget { session_id },
                state,
                action: Action::Subscribe(Audience::Target),
            },
            (Connection::JoiningTarget { session_id }, _) => idle_target(state, session_id),
            (Connection::TellingTarget { session_id }, Event::Sent(ok)) => if ok {
                idle_target(state, session_id)
            } else {
                left(state, session_id)
            },
            (Connection::RelayingForTarget { session_id }, _) => idle_target(state, session_id),
            (Connection::Target { session_id }, Event::Received(incoming)) => Self::hears_target(
                state,
                session_id,
                incoming,
            ),
            (Connection::Target { session_id }, Event::Heard(envelope)) => Step {
                connection: Connection::TellingTarget { session_id },
                state,
                action: Action::Send(envelope),
            },
            _ => closed(state),
        }
    }

    /// Whom the connection is with, once it is let in.
    pub open spec fn audience(self) -> Audience {
        if self is Target {
            Audience::Target
        } else {
            Audience::Ui
        }
    }

    /// The session a peer is being told about.
    pub open spec fn session(self) -> String {
        match self {
            Connection::Acknowledging { session_id, .. } => session_id,
            _ => arbitrary(),
        }
    }

    /// A peer that is being told its session got the next number, and nobody
    /// else got one.
    pub open spec fn numbered(before: Sessions, after: Sessions, next: Connection) -> bool {
        if next is Acknowledging {
            next.session()@ == decimal(before.next_id as nat) && after == before.counted()
        } else {
            after == before
        }
    }

    /// A connection that was just accepted, and its first action.
    pub fn accept() -> (started: (Connection, Action))
        ensures
            started == (Connection::Arriving, Action::Receive),
    {
        (Connection::Arriving, Action::Receive)
    }

    /// Takes an event into account. The session a peer is given is the
    /// decimal form of the next number.
    pub fn advance(self, state: &mut AppState, sessions: &mut Sessions, event: Event) -> (next: (
        Connection,
        Action,
    ))
        requires
            self.expects(event),
        ensures
            (Step { connection: next.0, state: *final(state), action: next.1 }) == self.follows(
                *old(state),
                event,
                next.0.session(),
            ),
            Self::numbered(*old(sessions), *final(sessions), next.0),
    {
        match (self, event) {
            (Connection::Arriving, Event::Received(incoming)) => {
                Self::introduce(sessions, incoming)
            },
            (Connection::Acknowledging { session_id, role, display_name }, Event::Sent(true)) => {
                Self::welcome(state, session_id, role, display_name)
            },
            (Connection::JoiningUi, _) => {
                let current = duplicate_target(&state.current_target);
                (Connection::TellingUi, Action::Send(presence_update(current)))
            },
            (Connection::TellingUi, Event::Sent(true)) => (Connection::Ui, Action::Wait),
            (Connection::RelayingForUi, _) => (Connection::Ui, Action::Wait),
            (Connection::Ui, Event::Received(incoming)) => Self::hear_ui(incoming),
            (Connection::Ui, Event::Heard(envelope)) => {
                (Connection::TellingUi, Action::Send(envelope))
            },
            (Connection::Announcing { session_id }, _) => {
                (Connection::JoiningTarget { session_id }, Action::Subscribe(Audience::Target))
            },
            (Connection::JoiningTarget { session_id }, _) => {
                (Connection::Target { session_id }, Action::Wait)
            },
            (Connection::TellingTarget { session_id }, Event::Sent(ok)) => if ok {
                (Connection::Target { session_id }, Action::Wait)
            } else {
                Self::leave(state, session_id)
            },
            (Connection::RelayingForTarget { session_id }, _) => {
                (Connection::Target { session_id }, Action::Wait)
            },
            (Connection::Target { session_id }, Event::Received(incoming)) => {
                Self::hear_target(state, session_id, incoming)
            },
            (Connection::Target { session_id }, Event::Heard(envelope)) => {
                (Connection::TellingTarget { session_id }, Action::Send(envelope))
            },
            _ => (Connection::Closed, Action::Close),
        }
    }

    /// Answers the first thing read from a peer.
    fn introduce(sessions: &mut Sessions, incoming: Incoming) -> (next: (Connection, Action))
        ensures
            forall|state: AppState|
                (Step { connection: next.0, state, action: next.1 }) == #[trigger] Self::admits(
                    state,
                    incoming,
                    next.0.session(),
                ),
            Self::numbered(*old(sessions), *final(sessions), next.0),
    {
        match incoming {
            Incoming::Envelope(Envelope { message: Some(Message::Hello(hello)) }) => {
                let session_id = sessions.next_session();
                let told = session_id.clone();
                (
                    Connection::Acknowledging {
                        session_id,
                        role: hello.role,
                        display_name: hello.display_name,
                    },
                    Action::Send(hello_ack(told)),
                )
            },
            _ => (Connection::Closed, Action::Close),
        }
    }

    /// Lets a peer in that knows its session.
    fn welcome(
        state: &mut AppState,
        session_id: String,
        role: PeerRole,
        display_name: String,
    ) -> (next: (Connection, Action))
        ensures
            (Step { connection: next.0, state: *final(state), action: next.1 }) == Self::welcomes(
                *old(state),
                session_id,
                role,
                display_name,
            ),
    {
        match role {
            PeerRole::Ui => (Connection::JoiningUi, Action::Subscribe(Audience::Ui)),
            PeerRole::Target => {
                let presence = state.arrive(&session_id, display_name);
                (
                    Connection::Announcing { session_id },
                    Action::Publish(Channel::Presence, presence),
                )
            },
            PeerRole::Unspecified => (Connection::Closed, Action::Close),
        }
    }

    /// Takes in what a web peer said.
    fn hear_ui(incoming: Incoming) -> (next: (Connection, Action))
        ensures
            forall|state: AppState|
                (Step { connection: next.0, state, action: next.1 }) == #[trigger] Self::hears_ui(
                    state,
                    incoming,
                ),
    {
        match incoming {
            Incoming::Closed => (Connection::Closed, Action::Close),
            Incoming::Failed(_) => (Connection::Closed, Action::Close),
            Incoming::Envelope(envelope) => {
                let shader = matches!(envelope.message, Some(Message::ShaderUpdate(_)));
                if shader {
                    (Connection::RelayingForUi, Action::Publish(Channel::Shader, envelope))
                } else {
                    (Connection::Ui, Action::Wait)
                }
            },
            _ => (Connection::Ui, Action::Wait),
        }
    }

    /// Takes in what a device said.
    fn hear_target(state: &mut AppState, session_id: String, incoming: Incoming) -> (next: (
        Connection,
        Action,
    ))
        ensures
            (Step { connection: next.0, state: *final(state), action: next.1 })
                == Self::hears_target(*old(state), session_id, incoming),
    {
        match incoming {
            Incoming::Closed => Self::leave(state, session_id),
            Incoming::Failed(_) => Self::leave(state, session_id),
            Incoming::Envelope(envelope) => {
                let perf = matches!(
                    envelope.message,
                    Some(Message::DeviceInfo(_)) | Some(Message::PerfSample(_))
                );
                if perf {
                    (
                        Connection::RelayingForTarget { session_id },
                        Action::Publish(Channel::Perf, envelope),
                    )
                } else {
                    (Connection::Target { session_id }, Action::Wait)
                }
            },
            _ => (Connection::Target { session_id }, Action::Wait),
        }
    }

    /// Sees a device off.
    fn leave(state: &mut AppState, session_id: String) -> (next: (Connection, Action))
        ensures
            (Step { connection: next.0, state: *final(state), action: next.1 }) == left(
                *old(state),
                session_id,
            ),
    {
        match state.depart(&session_id) {
            Some(presence) => {
                (Connection::Departing, Action::Publish(Channel::Presence, presence))
            },
            None => (Connection::Closed, Action::Close),
        }
    }
}

/// The numbers after `n` more sessions were numbered.
pub open spec fn after_sessions(sessions: Sessions, n: nat) -> Sessions
    decreases n,
{
    if n == 0 {
        sessions
    } else {
        after_sessions(sessions, (n - 1) as nat).counted()
    }
}

/// Numbering sessions counts up, starting over at the end of the numbers.
proof fn lemma_sessions_count_up(sessions: Sessions, n: nat)
    ensures
        after_sessions(sessions, n).next_id == (sessions.next_id + n) % 0x1_0000_0000_0000_0000,
    decreases n,
{
    if n > 0 {
        lemma_sessions_count_up(sessions, (n - 1) as nat);
    }
}

/// No two sessions of a process have the same name, unless all the numbers
/// there are were used up in between.
pub proof fn sessions_have_different_names(sessions: Sessions, i: nat, j: nat)
    requires
        i < j < i + 0x1_0000_0000_0000_0000,
    ensures
        decimal(after_sessions(sessions, i).next_id as nat) != decimal(
            after_sessions(sessions, j).next_id as nat,
        ),
{
    lemma_sessions_count_up(sessions, i);
    lemma_sessions_count_up(sessions, j);
    let a = after_sessions(sessions, i).next_id as nat;
    let b = after_sessions(sessions, j).next_id as nat;
    if decimal(a) == decimal(b) {
        decimal_is_injective(a, b);
    }
}

/// What happens to the connected device.
pub enum Change {
    /// A device arrived.
    Arrived(TargetInfo),
    /// The device with this session left.
    Departed(String),
}

/// The shared state after a change.
pub open spec fn changed(state: AppState, change: Change) -> AppState {
    match change {
        Change::Arrived(info) => state.arrived(info),
        Change::Departed(session_id) => state.departed(session_id),
    }
}

/// The shared state after several changes.
pub open spec fn changed_by(state: AppState, changes: Seq<Change>) -> AppState
    decreases changes.len(),
{
    if changes.len() == 0 {
        state
    } else {
        changed(changed_by(state, changes.drop_last()), changes.last())
    }
}

/// What is put on the presence channel along the way.
pub open spec fn announced(state: AppState, changes: Seq<Change>) -> Seq<Envelope>
    decreases changes.len(),
{
    if changes.len() == 0 {
        Seq::empty()
    } else {
        let earlier = changed_by(state, changes.drop_last());
        let so_far = announced(state, changes.drop_last());
        match changes.last() {
            Change::Arrived(info) => so_far.push(presence_of(Some(info))),
            Change::Departed(session_id) => if earlier.is_current(session_id) {
                so_far.push(presence_of(None))
            } else {
                so_far
            },
        }
    }
}

/// The last announcement is the connected device, and without announcements
/// nothing has changed.
proof fn lemma_last_announcement(state: AppState, changes: Seq<Change>)
    ensures
        announced(state, changes).len() > 0 ==> announced(state, changes).last() == presence_of(
            changed_by(state, changes).current_target,
        ),
        announced(state, changes).len() == 0 ==> changed_by(state, changes).current_target
            == state.current_target,
    decreases changes.len(),
{
    if changes.len() > 0 {
        lemma_last_announcement(state, changes.drop_last());
    }
}

/// Changes happen one after the other.
proof fn lemma_changed_by_concat(state: AppState, first: Seq<Change>, second: Seq<Change>)
    ensures
        changed_by(state, first + second) == changed_by(changed_by(state, first), second),
    decreases second.len(),
{
    if second.len() == 0 {
        assert(first + second == first);
    } else {
        lemma_changed_by_concat(state, first, second.drop_last());
        assert((first + second).drop_last() == first + second.drop_last());
        assert((first + second).last() == second.last());
    }
}

/// The last thing a web peer was told about the connected device is true once
/// it has heard every announcement: it subscribes after the changes `before`,
/// is then told the device connected after the changes `between`, and hears
/// what is announced from its subscription on. A device that comes or goes
/// between the two may be told twice, but is never missed.
pub proof fn a_web_peer_learns_of_every_change(
    state: AppState,
    before: Seq<Change>,
    between: Seq<Change>,
    after: Seq<Change>,
)
    ensures
        ({
            let subscribed = changed_by(state, before);
            let told = seq![presence_of(changed_by(subscribed, between).current_target)]
                + announced(subscribed, between + after);
            told.last() == presence_of(
                changed_by(state, before + between + after).current_target,
            )
        }),
{
    let subscribed = changed_by(state, before);
    lemma_last_announcement(subscribed, between + after);
    lemma_last_announcement(subscribed, between);
    lemma_changed_by_concat(state, before, between + after);
    lemma_changed_by_concat(subscribed, between, after);
    assert(before + between + after == before + (between + after));
    lemma_announced_grows(subscribed, between, after);
}

/// Announcements are never taken back.
proof fn lemma_announced_grows(state: AppState, first: Seq<Change>, second: Seq<Change>)
    ensures
        announced(state, first).len() <= announced(state, first + second).len(),
    decreases second.len(),
{
    if second.len() == 0 {
        assert(first + second == first);
    } else {
        lemma_announced_grows(state, first, second.drop_last());
        assert((first + second).drop_last() == first + second.drop_last());
    }
}

/// A connection with a web peer is closed only once the peer is gone: reading
/// from it brought its end or failed, or sending to it failed. That it is slow
/// is no reason.
pub proof fn a_web_peer_stays_until_it_is_gone(
    connection: Connection,
    state: AppState,
    event: Event,
    fresh: String,
)
    requires
        connection.expects(event),
        connection is JoiningUi || connection is TellingUi || connection is RelayingForUi
            || connection is Ui,
    ensures
        ({
            let next = connection.follows(state, event, fresh).connection;
            let gone = event == Event::Sent(false) || event == Event::Received(Incoming::Closed)
                || (event is Received && event->Received_0 is Failed);
            &&& gone ==> next is Closed
            &&& !gone ==> next is TellingUi || next is RelayingForUi || next is Ui
        }),
{
}

/// A device leaves only once it is gone, as a web peer does.
pub proof fn a_device_leaves_once_it_is_gone(
    connection: Connection,
    state: AppState,
    event: Event,
    fresh: String,
)
    requires
        connection.expects(event),
        connection is JoiningTarget || connection is TellingTarget
            || connection is RelayingForTarget || connection is Target,
    ensures
        ({
            let next = connection.follows(state, event, fresh).connection;
            let gone = event == Event::Sent(false) || event == Event::Received(Incoming::Closed)
                || (event is Received && event->Received_0 is Failed);
            &&& gone ==> next is Departing || next is Closed
            &&& !gone ==> next is TellingTarget || next is RelayingForTarget || next is Target
        }),
{
}

/// An event on a connection, and what the connections share at that moment.
pub struct Turn {
    pub state: AppState,
    pub event: Event,
    pub fresh: String,
}

/// Where a connection stands after several events.
pub open spec fn after_turns(connection: Connection, turns: Seq<Turn>) -> Connection
    decreases turns.len(),
{
    if turns.len() == 0 {
        connection
    } else {
        let turn = turns.last();
        after_turns(connection, turns.drop_last()).follows(
            turn.state,
            turn.event,
            turn.fresh,
        ).connection
    }
}

/// Whether these events can come, one after the other.
pub open spec fn can_come(connection: Connection, turns: Seq<Turn>) -> bool {
    forall|i: int|
        0 <= i < turns.len() ==> after_turns(connection, turns.take(i)).expects(
            #[trigger] turns[i].event,
        )
}

/// What the peer is sent along the way.
pub open spec fn sent_along(connection: Connection, turns: Seq<Turn>) -> Seq<Envelope>
    decreases turns.len(),
{
    if turns.len() == 0 {
        Seq::empty()
    } else {
        let turn = turns.last();
        let earlier = after_turns(connection, turns.drop_last());
        let so_far = sent_along(connection, turns.drop_last());
        match earlier.follows(turn.state, turn.event, turn.fresh).action {
            Action::Send(envelope) => so_far.push(envelope),
            _ => so_far,
        }
    }
}

/// What came from the channels along the way.
pub open spec fn heard_along(turns: Seq<Turn>) -> Seq<Envelope>
    decreases turns.len(),
{
    if turns.len() == 0 {
        Seq::empty()
    } else {
        let so_far = heard_along(turns.drop_last());
        match turns.last().event {
            Event::Heard(envelope) => so_far.push(envelope),
            _ => so_far,
        }
    }
}

/// Once a web peer or a device has been let in, it is sent all that comes from
/// its channels, in order, and nothing else.
pub proof fn a_peer_is_sent_all_it_hears(connection: Connection, turns: Seq<Turn>)
    requires
        connection is Ui || connection is Target,
        can_come(connection, turns),
    ensures
        sent_along(connection, turns) == heard_along(turns),
        ({
            let now = after_turns(connection, turns);
            ||| now is Closed
            ||| connection is Ui && (now is TellingUi || now is RelayingForUi || now is Ui)
            ||| connection is Target && (now is TellingTarget || now is RelayingForTarget
                || now is Target || now is Departing)
        }),
    decreases turns.len(),
{
    if turns.len() > 0 {
        let before = turns.drop_last();
        assert forall|i: int| 0 <= i < before.len() implies after_turns(
            connection,
            before.take(i),
        ).expects(#[trigger] before[i].event) by {
            assert(before.take(i) == turns.take(i));
            assert(turns[i] == before[i]);
        }
        a_peer_is_sent_all_it_hears(connection, before);
        assert(turns.take(turns.len() - 1) == before);
        assert(after_turns(connection, before).expects(turns[turns.len() - 1].event));
    }
}

/// A web peer or a device that falls behind misses nothing: whatever happens
/// to its mailbox while its connection goes through `turns`, if what the
/// connection hears is what was taken out, then what the peer was sent,
/// followed by what still waits for it, is all that was published for it
/// since it subscribed, in order.
pub proof fn a_slow_peer_misses_nothing(
    connection: Connection,
    turns: Seq<Turn>,
    happenings: Seq<Happening>,
)
    requires
        connection is Ui || connection is Target,
        can_come(connection, turns),
        contents(heard_along(turns)) == taken_out(
            Letters::none(connection.audience()),
            happenings,
        ),
    ensures
        contents(sent_along(connection, turns)) + after_all(
            Letters::none(connection.audience()),
            happenings,
        ).waiting == published_for(connection.audience(), happenings),
{
    a_peer_is_sent_all_it_hears(connection, turns);
    nothing_published_is_missed(connection.audience(), happenings);
}

/// Whenever a connection changes which device is connected, it announces
/// exactly that, and it announces nothing else.
pub proof fn changes_are_announced(
    connection: Connection,
    state: AppState,
    event: Event,
    fresh: String,
)
    requires
        connection.expects(event),
    ensures
        ({
            let step = connection.follows(state, event, fresh);
            &&& step.state.current_target != state.current_target ==> step.action
                == Action::Publish(
                Channel::Presence,
                presence_of(step.state.current_target),
            )
            &&& step.action is Publish && step.action->Publish_0 is Presence
                ==> step.action->Publish_1 == presence_of(step.state.current_target)
        }),
{
}

/// Only shaders a web peer sent are put on the shader channel, and only what
/// a device says about itself on the perf channel.
pub proof fn channels_carry_their_own_kind(
    connection: Connection,
    state: AppState,
    event: Event,
    fresh: String,
)
    requires
        connection.expects(event),
    ensures
        ({
            let step = connection.follows(state, event, fresh);
            let published = step.action->Publish_1;
            &&& step.action is Publish && step.action->Publish_0 is Shader ==> connection is Ui
                && carries_shader(published) && event == Event::Received(
                Incoming::Envelope(published),
            )
            &&& step.action is Publish && step.action->Publish_0 is Perf ==> connection is Target
                && carries_perf(published) && event == Event::Received(
                Incoming::Envelope(published),
            )
        }),
{
}

/// A device stays the connected one until it leaves itself or another
/// arrives.
pub proof fn a_device_stays_until_it_leaves(
    connection: Connection,
    state: AppState,
    event: Event,
    fresh: String,
    session_id: String,
)
    requires
        connection.expects(event),
        state.is_current(session_id),
        !connection.follows(state, event, fresh).state.is_current(session_id),
    ensures
        (connection is Acknowledging && connection->role is Target) || (connection is Target
            && connection->Target_session_id@ == session_id@) || (connection is TellingTarget
            && connection->TellingTarget_session_id@ == session_id@),
{
}

/// A device that another has replaced leaves no trace when it departs.
pub proof fn a_replaced_device_leaves_no_trace(
    state: AppState,
    replaced: TargetInfo,
    replacing: TargetInfo,
)
    requires
        replaced.session_id@ != replacing.session_id@,
    ensures
        state.arrived(replaced).arrived(replacing).departed(replaced.session_id) == state.arrived(
            replacing,
        ),
        left(state.arrived(replaced).arrived(replacing), replaced.session_id) == closed(
            state.arrived(replacing),
        ),
{
}

/// A shader goes from a web peer to the device as it is: the web peer's
/// connection publishes it, the device's connection sends what it hears, and
/// the device takes it for that shader.
pub proof fn a_shader_reaches_the_device(
    ui_state: AppState,
    target_state: AppState,
    session_id: String,
    update: ShaderUpdate,
    fresh: String,
)
    ensures
        ({
            let envelope = Envelope { message: Some(Message::ShaderUpdate(update)) };
            let incoming = Incoming::Envelope(envelope);
            &&& Connection::Ui.follows(ui_state, Event::Received(incoming), fresh).action
                == Action::Publish(Channel::Shader, envelope)
            &&& (Connection::Target { session_id }).follows(
                target_state,
                Event::Heard(envelope),
                fresh,
            ).action == Action::Send(envelope)
            &&& reception(incoming) == Received::Update(update)
        }),
{
}

/// What a device says about itself goes to every web peer as it is: the
/// device's connection publishes it, and each web peer's sends what it hears.
pub proof fn a_report_reaches_every_web_peer(
    target_state: AppState,
    ui_state: AppState,
    session_id: String,
    envelope: Envelope,
    fresh: String,
)
    requires
        carries_perf(envelope),
    ensures
        (Connection::Target { session_id }).follows(
            target_state,
            Event::Received(Incoming::Envelope(envelope)),
            fresh,
        ).action == Action::Publish(Channel::Perf, envelope),
        Connection::Ui.follows(ui_state, Event::Heard(envelope), fresh).action == Action::Send(
            envelope,
        ),
{
}

} // verus!
