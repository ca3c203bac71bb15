use slang_bridge::bridge::channels::{Audience, Channel, Mailboxes};
use slang_bridge::bridge::protocol::{
    DeviceInfo, Envelope, Hello, HelloAck, Incoming, Message, PeerRole, PerfSample,
    PresenceUpdate, ShaderUpdate, TargetInfo,
};
use slang_bridge::bridge::relay::{Action, AppState, Connection, Event, Sessions};
use slang_bridge::bridge::target_client::{hello, Attempt, Error, Received, TargetClient};

/// One peer of a daemon that exists only in memory.
struct Peer {
    connection: Option<Connection>,
    mailbox: Option<usize>,
    sent: Vec<Envelope>,
    open: bool,
    /// Whether what the daemon sends to it arrives.
    reachable: bool,
    /// Whether it takes its time, and gets to nothing in its mailbox.
    stalled: bool,
}

/// A daemon that exists only in memory.
struct Daemon {
    state: AppState,
    sessions: Sessions,
    mailboxes: Mailboxes,
    peers: Vec<Peer>,
}

impl Daemon {
    fn new() -> Daemon {
        Daemon {
            state: AppState::new(),
            sessions: Sessions::new(),
            mailboxes: Mailboxes::new(),
            peers: Vec::new(),
        }
    }

    fn accept(&mut self) -> usize {
        let (connection, action) = Connection::accept();
        assert!(matches!(action, Action::Receive));
        self.peers.push(Peer {
            connection: Some(connection),
            mailbox: None,
            sent: Vec::new(),
            open: true,
            reachable: true,
            stalled: false,
        });
        self.peers.len() - 1
    }

    /// Hands an event to a peer's connection and carries out what follows,
    /// until the connection waits or is over. Then every peer gets to what
    /// waits for it.
    fn happens(&mut self, peer: usize, event: Event) {
        self.handle(peer, event);
        self.settle();
    }

    fn settle(&mut self) {
        for peer in 0..self.peers.len() {
            while !self.peers[peer].stalled {
                let Some(mailbox) = self.peers[peer].mailbox else {
                    break;
                };
                let Some(envelope) = self.mailboxes.take(mailbox) else {
                    break;
                };
                self.handle(peer, Event::Heard(envelope));
            }
        }
    }

    fn handle(&mut self, peer: usize, event: Event) {
        let mut event = event;
        loop {
            let connection = self.peers[peer].connection.take().expect("a connection");
            let (next, action) = connection.advance(&mut self.state, &mut self.sessions, event);
            self.peers[peer].connection = Some(next);
            event = match action {
                Action::Receive | Action::Wait => break,
                Action::Close => {
                    self.peers[peer].open = false;
                    if let Some(mailbox) = self.peers[peer].mailbox.take() {
                        self.mailboxes.unsubscribe(mailbox);
                    }
                    break;
                }
                Action::Send(envelope) => {
                    let reachable = self.peers[peer].reachable;
                    if reachable {
                        self.peers[peer].sent.push(envelope);
                    }
                    Event::Sent(reachable)
                }
                Action::Subscribe(audience) => {
                    self.peers[peer].mailbox = Some(self.mailboxes.subscribe(audience));
                    Event::Subscribed
                }
                Action::Publish(channel, envelope) => {
                    self.mailboxes.publish(channel, &envelope);
                    Event::Published
                }
            };
        }
    }

    fn says(&mut self, peer: usize, message: Message) {
        let envelope = Envelope { message: Some(message) };
        self.happens(peer, Event::Received(Incoming::Envelope(envelope)));
    }

    fn connect_and_say_hello(&mut self, role: PeerRole, name: &str) -> usize {
        let peer = self.accept();
        self.says(peer, Message::Hello(Hello { role, display_name: name.to_string() }));
        assert!(matches!(
            self.peers[peer].sent.remove(0).message,
            Some(Message::HelloAck(_))
        ));
        peer
    }

    fn received(&mut self, peer: usize) -> Message {
        self.peers[peer].sent.remove(0).message.expect("a message")
    }

    fn presence(&mut self, peer: usize) -> Option<String> {
        match self.received(peer) {
            Message::PresenceUpdate(update) => update.target.map(|target| target.display_name),
            other => panic!("expected PresenceUpdate, got {other:?}"),
        }
    }
}

fn shader() -> ShaderUpdate {
    ShaderUpdate {
        vertex_spirv: Vec::new(),
        fragment_spirv: Vec::new(),
        compute_spirv: Vec::new(),
        entry_point: String::new(),
        thread_group_size_x: 0,
        thread_group_size_y: 0,
        thread_group_size_z: 0,
        output_texture_binding: 0,
        uniform_buffer_size: 0,
        time_offset: None,
        frame_id_offset: None,
        mouse_position_offset: None,
    }
}

fn ack(session_id: &str) -> Incoming {
    Incoming::Envelope(Envelope {
        message: Some(Message::HelloAck(HelloAck { session_id: session_id.to_string() })),
    })
}

/// Connects a client the way a device does: what the daemon sends to the
/// peer is what the client reads.
fn connect_client(daemon: &mut Daemon, name: &str) -> (usize, TargetClient) {
    let peer = daemon.accept();
    daemon.happens(peer, Event::Received(Incoming::Envelope(hello(name.to_string()))));
    let answer = daemon.peers[peer].sent.remove(0);
    let client = TargetClient::connect(Attempt::Answered(Incoming::Envelope(answer)))
        .expect("handshake should succeed");
    (peer, client)
}

#[test]
fn hello_handshake_round_trips_a_session_id() {
    let mut daemon = Daemon::new();
    let peer = daemon.accept();
    daemon.says(
        peer,
        Message::Hello(Hello { role: PeerRole::Ui, display_name: "test-ui".to_string() }),
    );
    match daemon.received(peer) {
        Message::HelloAck(ack) => {
            assert!(!ack.session_id.is_empty(), "session_id should be non-empty");
            assert_eq!(ack.session_id, "1");
        }
        other => panic!("expected HelloAck, got {other:?}"),
    }
}

#[test]
fn device_info_and_perf_sample_from_a_target_are_relayed_to_every_ui_peer() {
    let mut daemon = Daemon::new();
    let target = daemon.connect_and_say_hello(PeerRole::Target, "test-target");
    let ui_a = daemon.connect_and_say_hello(PeerRole::Ui, "ui-a");
    let ui_b = daemon.connect_and_say_hello(PeerRole::Ui, "ui-b");
    daemon.received(ui_a);
    daemon.received(ui_b);

    daemon.says(
        target,
        Message::DeviceInfo(DeviceInfo {
            gpu_name: "Adreno (TM) 740".to_string(),
            driver_version: 0x0080_0400,
            vendor_id: 0x5143,
            device_id: 0x1,
            api_version: 0x0040_1000,
            android_model: "Pixel 8".to_string(),
            android_manufacturer: "Google".to_string(),
            android_release: "15".to_string(),
            android_sdk_int: 35,
            android_fingerprint: "google/shiba/shiba:15/...".to_string(),
        }),
    );
    for ui in [ui_a, ui_b] {
        match daemon.received(ui) {
            Message::DeviceInfo(info) => {
                assert_eq!(info.gpu_name, "Adreno (TM) 740");
                assert_eq!(info.android_model, "Pixel 8");
            }
            other => panic!("expected DeviceInfo, got {other:?}"),
        }
    }

    daemon.says(
        target,
        Message::PerfSample(PerfSample { frame_id: 42, gpu_time_ms: 4.2f32.to_bits() }),
    );
    for ui in [ui_a, ui_b] {
        match daemon.received(ui) {
            Message::PerfSample(sample) => {
                assert_eq!(sample.frame_id, 42);
                assert!((f32::from_bits(sample.gpu_time_ms) - 4.2).abs() < f32::EPSILON);
            }
            other => panic!("expected PerfSample, got {other:?}"),
        }
    }
}

#[test]
fn ui_peer_sees_target_connect_and_disconnect() {
    let mut daemon = Daemon::new();
    let ui = daemon.connect_and_say_hello(PeerRole::Ui, "test-ui");
    assert_eq!(daemon.presence(ui), None);

    let target = daemon.connect_and_say_hello(PeerRole::Target, "pixel-test-device");
    assert_eq!(daemon.presence(ui), Some("pixel-test-device".to_string()));

    daemon.happens(target, Event::Received(Incoming::Closed));
    assert_eq!(daemon.presence(ui), None);
    assert!(!daemon.peers[target].open);
}

#[test]
fn shader_update_from_ui_is_relayed_to_the_connected_target() {
    let mut daemon = Daemon::new();
    let target = daemon.connect_and_say_hello(PeerRole::Target, "test-target");
    let ui = daemon.connect_and_say_hello(PeerRole::Ui, "test-ui");
    daemon.received(ui);

    daemon.says(
        ui,
        Message::ShaderUpdate(ShaderUpdate {
            vertex_spirv: vec![1, 2, 3],
            fragment_spirv: vec![4, 5, 6],
            ..shader()
        }),
    );
    match daemon.received(target) {
        Message::ShaderUpdate(update) => {
            assert_eq!(update.vertex_spirv, vec![1, 2, 3]);
            assert_eq!(update.fragment_spirv, vec![4, 5, 6]);
        }
        other => panic!("expected ShaderUpdate, got {other:?}"),
    }
}

#[test]
fn connects_and_completes_the_handshake() {
    let mut daemon = Daemon::new();
    let (_, client) = connect_client(&mut daemon, "test-target");
    assert!(
        !client.session_id().is_empty(),
        "expected a non-empty session_id from HelloAck"
    );
    let target = daemon.state.current_target.as_ref().expect("a target");
    assert_eq!(target.session_id, client.session_id());
    assert_eq!(target.display_name, "test-target");
}

#[test]
fn detects_disconnection_when_the_peer_closes_the_connection() {
    let client = TargetClient::connect(Attempt::Answered(ack("test-session")))
        .expect("handshake should succeed");
    assert_eq!(client.session_id(), "test-session");
    assert!(matches!(client.recv(Incoming::Closed), Received::Closed));
    assert!(matches!(
        client.recv(Incoming::Failed("reset".to_string())),
        Received::Closed
    ));
}

#[test]
fn receives_a_shader_update_relayed_from_a_ui_peer() {
    let mut daemon = Daemon::new();
    let (target, client) = connect_client(&mut daemon, "test-target");
    let ui = daemon.connect_and_say_hello(PeerRole::Ui, "test-ui");
    daemon.received(ui);

    daemon.says(
        ui,
        Message::ShaderUpdate(ShaderUpdate {
            compute_spirv: vec![9, 9],
            entry_point: "imageMain".to_string(),
            thread_group_size_x: 16,
            thread_group_size_y: 16,
            thread_group_size_z: 1,
            output_texture_binding: 0,
            ..shader()
        }),
    );
    let sent = daemon.peers[target].sent.remove(0);
    match client.recv(Incoming::Envelope(sent)) {
        Received::Update(received) => {
            assert_eq!(received.compute_spirv, vec![9, 9]);
            assert_eq!(received.entry_point, "imageMain");
        }
        other => panic!("expected an update, got {other:?}"),
    }
}

#[test]
fn fails_to_connect_when_nothing_is_listening() {
    let error = TargetClient::connect(Attempt::Unreachable("refused".to_string())).unwrap_err();
    assert_eq!(error.message(), "failed to connect: refused");
    let error = TargetClient::connect(Attempt::Unheard("broken pipe".to_string())).unwrap_err();
    assert_eq!(error.message(), "failed to connect: broken pipe");
}

#[test]
fn a_handshake_needs_an_acknowledgement() {
    for answer in [
        Incoming::Closed,
        Incoming::NotBinary,
        Incoming::Malformed,
        Incoming::Envelope(Envelope { message: None }),
        Incoming::Envelope(hello("other".to_string())),
    ] {
        let error = TargetClient::connect(Attempt::Answered(answer)).unwrap_err();
        assert!(matches!(error, Error::HandshakeFailed));
        assert_eq!(
            error.message(),
            "connection closed or sent an unexpected response before HelloAck"
        );
    }
    let failed = Incoming::Failed("timeout".to_string());
    let error = TargetClient::connect(Attempt::Answered(failed)).unwrap_err();
    assert_eq!(error.message(), "failed to connect: timeout");
}

#[test]
fn a_client_skips_what_it_has_no_use_for() {
    let client = TargetClient::connect(Attempt::Answered(ack("s"))).expect("a client");
    for incoming in [
        Incoming::NotBinary,
        Incoming::Malformed,
        Incoming::Envelope(Envelope { message: None }),
        ack("again"),
        Incoming::Envelope(Envelope {
            message: Some(Message::PresenceUpdate(PresenceUpdate { target: None })),
        }),
    ] {
        assert!(matches!(client.recv(incoming), Received::Skipped));
    }
}

#[test]
fn a_device_introduces_itself_as_one() {
    match hello("pixel".to_string()).message {
        Some(Message::Hello(hello)) => {
            assert_eq!(hello.role, PeerRole::Target);
            assert_eq!(hello.display_name, "pixel");
        }
        other => panic!("got {other:?}"),
    }
}

#[test]
fn a_peer_that_does_not_say_hello_is_dropped() {
    for first in [
        Incoming::Closed,
        Incoming::Failed("x".to_string()),
        Incoming::NotBinary,
        Incoming::Malformed,
        Incoming::Envelope(Envelope { message: None }),
        ack("1"),
    ] {
        let mut daemon = Daemon::new();
        let peer = daemon.accept();
        daemon.happens(peer, Event::Received(first));
        assert!(!daemon.peers[peer].open);
        assert!(daemon.peers[peer].sent.is_empty());
        assert_eq!(daemon.sessions.next_id, 1);
    }
}

#[test]
fn a_peer_without_a_role_is_acknowledged_and_dropped() {
    let mut daemon = Daemon::new();
    let peer = daemon.connect_and_say_hello(PeerRole::Unspecified, "nobody");
    assert!(!daemon.peers[peer].open);
    assert!(daemon.peers[peer].sent.is_empty());
    assert_eq!(daemon.sessions.next_id, 2);
}

#[test]
fn a_peer_that_cannot_be_acknowledged_is_not_let_in() {
    let mut daemon = Daemon::new();
    let peer = daemon.accept();
    daemon.peers[peer].reachable = false;
    daemon.says(
        peer,
        Message::Hello(Hello { role: PeerRole::Target, display_name: "gone".to_string() }),
    );
    assert!(!daemon.peers[peer].open);
    assert!(daemon.state.current_target.is_none());
}

#[test]
fn sessions_are_numbered_one_after_the_other() {
    let mut sessions = Sessions::new();
    assert_eq!(sessions.next_session(), "1");
    assert_eq!(sessions.next_session(), "2");
    for _ in 3..10 {
        sessions.next_session();
    }
    assert_eq!(sessions.next_session(), "10");
    sessions.next_id = u64::MAX;
    assert_eq!(sessions.next_session(), "18446744073709551615");
    assert_eq!(sessions.next_session(), "0");
}

#[test]
fn a_replaced_device_leaves_no_trace() {
    let mut daemon = Daemon::new();
    let ui = daemon.connect_and_say_hello(PeerRole::Ui, "ui");
    assert_eq!(daemon.presence(ui), None);
    let first = daemon.connect_and_say_hello(PeerRole::Target, "first");
    assert_eq!(daemon.presence(ui), Some("first".to_string()));
    let second = daemon.connect_and_say_hello(PeerRole::Target, "second");
    assert_eq!(daemon.presence(ui), Some("second".to_string()));

    daemon.happens(first, Event::Received(Incoming::Failed("reset".to_string())));
    assert!(!daemon.peers[first].open);
    assert!(daemon.peers[ui].sent.is_empty());
    assert_eq!(
        daemon.state.current_target.as_ref().map(|t| t.display_name.as_str()),
        Some("second")
    );

    daemon.happens(second, Event::Received(Incoming::Closed));
    assert!(!daemon.peers[second].open);
    assert_eq!(daemon.presence(ui), None);
}

#[test]
fn a_device_that_cannot_be_told_something_leaves() {
    let mut daemon = Daemon::new();
    let target = daemon.connect_and_say_hello(PeerRole::Target, "target");
    let ui = daemon.connect_and_say_hello(PeerRole::Ui, "ui");
    assert_eq!(daemon.presence(ui), Some("target".to_string()));
    daemon.peers[target].reachable = false;
    daemon.says(ui, Message::ShaderUpdate(shader()));
    assert!(!daemon.peers[target].open);
    assert_eq!(daemon.presence(ui), None);
}

#[test]
fn a_web_peer_that_falls_behind_misses_nothing() {
    let mut daemon = Daemon::new();
    let ui = daemon.connect_and_say_hello(PeerRole::Ui, "ui");
    assert_eq!(daemon.presence(ui), None);
    daemon.peers[ui].stalled = true;
    for i in 0..100 {
        let target = daemon.connect_and_say_hello(PeerRole::Target, &format!("device {i}"));
        daemon.says(target, Message::PerfSample(PerfSample { frame_id: i, gpu_time_ms: 0 }));
        daemon.happens(target, Event::Received(Incoming::Closed));
    }
    assert!(daemon.peers[ui].open);
    assert!(daemon.peers[ui].sent.is_empty());

    daemon.peers[ui].stalled = false;
    daemon.settle();
    for i in 0..100 {
        assert_eq!(daemon.presence(ui), Some(format!("device {i}")));
        let sample = PerfSample { frame_id: i, gpu_time_ms: 0 };
        assert_eq!(daemon.received(ui), Message::PerfSample(sample));
        assert_eq!(daemon.presence(ui), None);
    }
    assert!(daemon.peers[ui].open);
    assert!(daemon.peers[ui].sent.is_empty());

    daemon.happens(ui, Event::Received(Incoming::Closed));
    assert!(!daemon.peers[ui].open);
}

#[test]
fn a_device_that_falls_behind_gets_every_shader() {
    let mut daemon = Daemon::new();
    let target = daemon.connect_and_say_hello(PeerRole::Target, "target");
    let ui = daemon.connect_and_say_hello(PeerRole::Ui, "ui");
    daemon.peers[target].stalled = true;
    for i in 0..40 {
        daemon.says(
            ui,
            Message::ShaderUpdate(ShaderUpdate { compute_spirv: vec![i], ..shader() }),
        );
    }
    assert!(daemon.peers[target].sent.is_empty());
    daemon.peers[target].stalled = false;
    daemon.settle();
    for i in 0..40 {
        let update = ShaderUpdate { compute_spirv: vec![i], ..shader() };
        assert_eq!(daemon.received(target), Message::ShaderUpdate(update));
    }
    assert!(daemon.peers[target].open);
}

#[test]
fn an_unreachable_web_peer_is_dropped() {
    let mut daemon = Daemon::new();
    let ui = daemon.connect_and_say_hello(PeerRole::Ui, "ui");
    daemon.peers[ui].reachable = false;
    daemon.connect_and_say_hello(PeerRole::Target, "target");
    assert!(!daemon.peers[ui].open);
}

#[test]
fn what_is_not_for_others_is_ignored() {
    let mut daemon = Daemon::new();
    let target = daemon.connect_and_say_hello(PeerRole::Target, "target");
    let ui = daemon.connect_and_say_hello(PeerRole::Ui, "ui");
    daemon.received(ui);

    let sample = Message::PerfSample(PerfSample { frame_id: 1, gpu_time_ms: 0 });
    daemon.says(ui, sample.clone());
    daemon.says(ui, Message::PresenceUpdate(PresenceUpdate { target: None }));
    daemon.happens(ui, Event::Received(Incoming::NotBinary));
    daemon.happens(ui, Event::Received(Incoming::Malformed));
    daemon.happens(ui, Event::Received(Incoming::Envelope(Envelope { message: None })));
    daemon.says(target, Message::ShaderUpdate(shader()));
    daemon.happens(target, Event::Received(Incoming::NotBinary));
    daemon.happens(target, Event::Received(Incoming::Malformed));
    assert!(daemon.peers[ui].sent.is_empty());
    assert!(daemon.peers[target].sent.is_empty());
    assert!(daemon.peers[ui].open && daemon.peers[target].open);

    daemon.says(target, sample.clone());
    assert_eq!(daemon.received(ui), sample);
    assert!(daemon.peers[target].sent.is_empty());
}

#[test]
fn a_device_that_arrives_while_a_web_peer_joins_is_not_missed() {
    let mut state = AppState::new();
    let mut sessions = Sessions::new();
    let (ui, _) = Connection::accept();
    let introduction = Envelope {
        message: Some(Message::Hello(Hello {
            role: PeerRole::Ui,
            display_name: "ui".to_string(),
        })),
    };
    let introduced = Event::Received(Incoming::Envelope(introduction));
    let (ui, _) = ui.advance(&mut state, &mut sessions, introduced);
    let (ui, action) = ui.advance(&mut state, &mut sessions, Event::Sent(true));
    assert!(matches!(action, Action::Subscribe(Audience::Ui)));

    // The web peer is subscribed, and a device arrives before it is greeted.
    let announcement = state.arrive(&"7".to_string(), "device".to_string());
    let (ui, action) = ui.advance(&mut state, &mut sessions, Event::Subscribed);
    let told = match action {
        Action::Send(envelope) => envelope,
        other => panic!("got {other:?}"),
    };
    assert_eq!(told, announcement);
    let (ui, _) = ui.advance(&mut state, &mut sessions, Event::Sent(true));
    let heard = Event::Heard(announcement.clone());
    let (_, action) = ui.advance(&mut state, &mut sessions, heard);
    match action {
        Action::Send(envelope) => assert_eq!(envelope, announcement),
        other => panic!("got {other:?}"),
    }
    assert_eq!(
        announcement.message,
        Some(Message::PresenceUpdate(PresenceUpdate {
            target: Some(TargetInfo {
                session_id: "7".to_string(),
                display_name: "device".to_string(),
            }),
        }))
    );
    assert!(state.depart(&"8".to_string()).is_none());
    assert!(state.depart(&"7".to_string()).is_some());
    assert!(state.current_target.is_none());
}

#[test]
fn a_mailbox_keeps_what_is_for_its_audience() {
    let presence = Envelope {
        message: Some(Message::PresenceUpdate(PresenceUpdate {
            target: Some(TargetInfo {
                session_id: "1".to_string(),
                display_name: "device".to_string(),
            }),
        })),
    };
    let sample = Envelope {
        message: Some(Message::PerfSample(PerfSample { frame_id: 1, gpu_time_ms: 2 })),
    };
    let update = Envelope {
        message: Some(Message::ShaderUpdate(ShaderUpdate {
            vertex_spirv: vec![1],
            fragment_spirv: vec![2, 3],
            compute_spirv: vec![4],
            entry_point: "main".to_string(),
            time_offset: Some(8),
            ..shader()
        })),
    };

    let mut mailboxes = Mailboxes::new();
    mailboxes.publish(Channel::Presence, &presence);
    let ui = mailboxes.subscribe(Audience::Ui);
    let target = mailboxes.subscribe(Audience::Target);
    assert_ne!(ui, target);
    assert_eq!(mailboxes.take(ui), None);

    mailboxes.publish(Channel::Presence, &presence);
    mailboxes.publish(Channel::Shader, &update);
    mailboxes.publish(Channel::Perf, &sample);
    assert_eq!(mailboxes.take(ui), Some(presence.clone()));
    assert_eq!(mailboxes.take(ui), Some(sample));
    assert_eq!(mailboxes.take(ui), None);
    assert_eq!(mailboxes.take(target), Some(update));
    assert_eq!(mailboxes.take(target), None);
    assert_eq!(mailboxes.take(7), None);

    mailboxes.publish(Channel::Presence, &presence);
    mailboxes.unsubscribe(ui);
    mailboxes.unsubscribe(7);
    assert_eq!(mailboxes.take(ui), None);
    mailboxes.publish(Channel::Presence, &presence);
    assert_eq!(mailboxes.subscribe(Audience::Ui), ui);
    assert_eq!(mailboxes.take(ui), None);
}

#[test]
fn a_duplicate_says_the_same() {
    let info = DeviceInfo {
        gpu_name: "gpu".to_string(),
        driver_version: 1,
        vendor_id: 2,
        device_id: 3,
        api_version: 4,
        android_model: "model".to_string(),
        android_manufacturer: "maker".to_string(),
        android_release: "15".to_string(),
        android_sdk_int: 35,
        android_fingerprint: "print".to_string(),
    };
    for message in [
        None,
        hello("me".to_string()).message,
        Some(Message::HelloAck(HelloAck { session_id: "3".to_string() })),
        Some(Message::PresenceUpdate(PresenceUpdate { target: None })),
        Some(Message::ShaderUpdate(shader())),
        Some(Message::DeviceInfo(info)),
        Some(Message::PerfSample(PerfSample { frame_id: 1, gpu_time_ms: 2 })),
    ] {
        let envelope = Envelope { message };
        assert_eq!(envelope.duplicate(), envelope);
    }
}
