use slang_bridge::adb::c_list::{device_list_to_c, snapshot_to_c};
use slang_bridge::adb::devices::{parse_device_list, parse_device_text, Device};
use slang_bridge::adb::track_devices::{
    request, track_devices_request, Connecting, ErrorKind, Snapshot, Stream, TrackDevicesClient,
    TrackError,
};

fn device(serial: &str, state: &str) -> Device {
    Device { serial: serial.to_string(), state: state.to_string() }
}

fn frame(payload: &str) -> Vec<u8> {
    format!("{:04x}{payload}", payload.len()).into_bytes()
}

fn connected(bytes: &[u8]) -> TrackDevicesClient {
    let mut stream = Stream::new();
    stream.receive(bytes);
    match TrackDevicesClient::connect(stream) {
        Connecting::Connected(client) => client,
        other => panic!("expected a connection, got {other:?}"),
    }
}

fn refused(bytes: &[u8], ended: bool) -> TrackError {
    let mut stream = Stream::new();
    stream.receive(bytes);
    if ended {
        stream.end();
    }
    match TrackDevicesClient::connect(stream) {
        Connecting::Failed(error) => error,
        other => panic!("expected a failure, got {other:?}"),
    }
}

fn devices(snapshot: Snapshot) -> Vec<Device> {
    match snapshot {
        Snapshot::Devices(devices) => devices,
        other => panic!("expected a list, got {other:?}"),
    }
}

#[test]
fn parses_device_list_snapshots_as_they_stream_in() {
    assert_eq!(track_devices_request(), b"0012host:track-devices");

    let mut client = connected(b"OKAY");
    assert!(matches!(client.next_snapshot(), Snapshot::Pending));

    client.stream.receive(&frame("emulator-5554\tdevice\n"));
    let first = devices(client.next_snapshot());
    assert_eq!(first, vec![device("emulator-5554", "device")]);

    client
        .stream
        .receive(&frame("emulator-5554\tdevice\n192.168.1.50:5555\toffline\n"));
    let second = devices(client.next_snapshot());
    assert_eq!(
        second,
        vec![device("emulator-5554", "device"), device("192.168.1.50:5555", "offline")]
    );

    client.stream.receive(&frame(""));
    let third = devices(client.next_snapshot());
    assert_eq!(third, Vec::<Device>::new());

    client.stream.end();
    assert!(matches!(client.next_snapshot(), Snapshot::Closed));
}

#[test]
fn surfaces_fail_responses_as_errors() {
    let mut bytes = b"FAIL".to_vec();
    bytes.extend_from_slice(&frame("no such server"));
    let error = refused(&bytes, false);
    assert_eq!(error.message(), "adb server returned FAIL: no such server");
    assert_eq!(error.kind(), ErrorKind::Other);
}

#[test]
fn ffi_round_trips_a_device_snapshot() {
    let mut client = connected(b"OKAY");
    client.stream.receive(&frame("emulator-5554\tdevice\n"));
    let snapshot = client.next_snapshot();
    let list = snapshot_to_c(&snapshot).expect("a list");
    assert_eq!(list.devices.len(), 1);
    assert_eq!(list.devices[0].serial, b"emulator-5554\0");
    assert_eq!(list.devices[0].state, b"device\0");
    assert!(snapshot_to_c(&Snapshot::Closed).is_none());
    assert!(snapshot_to_c(&Snapshot::Pending).is_none());
}

#[test]
fn strings_with_a_zero_in_them_are_left_empty() {
    let list = device_list_to_c(&vec![device("a\0b", "device"), device("ü", "")]);
    assert_eq!(list.devices[0].serial, b"\0");
    assert_eq!(list.devices[0].state, b"device\0");
    assert_eq!(list.devices[1].serial, "ü\0".as_bytes());
    assert_eq!(list.devices[1].state, b"\0");
}

#[test]
fn it_does_not_matter_in_what_pieces_bytes_arrive() {
    let mut whole = b"OKAY".to_vec();
    whole.extend_from_slice(&frame("a\tdevice\n"));
    whole.extend_from_slice(&frame("b\toffline\n"));

    let mut at_once = connected(&whole);
    let expected = vec![
        devices(at_once.next_snapshot()),
        devices(at_once.next_snapshot()),
    ];

    let mut stream = Stream::new();
    let mut rest = whole.iter();
    let mut client = loop {
        stream = match TrackDevicesClient::connect(stream) {
            Connecting::Pending(stream) => stream,
            Connecting::Connected(client) => break client,
            Connecting::Failed(error) => panic!("{error:?}"),
        };
        stream.receive(&[*rest.next().expect("more bytes")]);
    };
    let mut seen = Vec::new();
    for byte in rest {
        client.stream.receive(&[*byte]);
        if let Snapshot::Devices(list) = client.next_snapshot() {
            seen.push(list);
        }
    }
    assert_eq!(seen, expected);
    assert_eq!(seen, vec![vec![device("a", "device")], vec![device("b", "offline")]]);
}

#[test]
fn requests_are_framed_in_hexadecimal() {
    assert_eq!(request(""), b"0000");
    assert_eq!(request("host:version"), b"000chost:version");
    let long = "x".repeat(0x1234);
    assert_eq!(&request(&long)[..4], b"1234");
    assert_eq!(request(&long).len(), 4 + 0x1234);
    let longer = "x".repeat(0x1_0000);
    assert_eq!(&request(&longer)[..5], b"10000");
}

#[test]
fn lengths_may_be_in_either_case() {
    let mut client = connected(b"OKAY000Aab\tdevice\n");
    assert_eq!(devices(client.next_snapshot()), vec![device("ab", "device")]);
    let mut client = connected(b"OKAY000aab\tdevice\n");
    assert_eq!(devices(client.next_snapshot()), vec![device("ab", "device")]);
}

#[test]
fn lengths_that_make_no_sense_are_failures() {
    let mut client = connected(b"OKAYzzzz0000");
    match client.next_snapshot() {
        Snapshot::Failed(error) => {
            assert_eq!(error.message(), "length prefix was not hex");
            assert_eq!(error.kind(), ErrorKind::InvalidData);
        }
        other => panic!("got {other:?}"),
    }
    assert!(devices(client.next_snapshot()).is_empty());

    let mut client = connected(b"OKAY\xff\xff\xff\xff");
    match client.next_snapshot() {
        Snapshot::Failed(error) => {
            assert_eq!(error.message(), "length prefix was not ASCII");
            assert_eq!(error.kind(), ErrorKind::InvalidData);
        }
        other => panic!("got {other:?}"),
    }

    let mut client = connected(b"OKAY+00fab\tdevice\nc\td\n");
    match client.next_snapshot() {
        Snapshot::Failed(error) => assert_eq!(error.kind(), ErrorKind::InvalidData),
        other => panic!("got {other:?}"),
    }

    for header in [&b"-001"[..], b"+001", b"++01", b"0 01", "é00".as_bytes()] {
        let mut bytes = b"OKAY".to_vec();
        bytes.extend_from_slice(header);
        let mut client = connected(&bytes);
        assert!(
            matches!(client.next_snapshot(), Snapshot::Failed(TrackError::LengthNotHex)),
            "{header:?}"
        );
    }
}

#[test]
fn lengths_are_four_hexadecimal_digits() {
    for header in ["0000", "0001", "+001", "000+", "abcd", "ABCD", "-001", "00 1", "0x01"] {
        let digits = header.chars().all(|c| c.is_ascii_hexdigit());
        let expected = u32::from_str_radix(header, 16).ok().filter(|_| digits);
        let mut bytes = b"OKAY".to_vec();
        bytes.extend_from_slice(header.as_bytes());
        bytes.resize(4 + 4 + 0xffff, b'\n');
        let mut client = connected(&bytes);
        let before = client.stream.pending.len();
        let snapshot = client.next_snapshot();
        assert_eq!(matches!(snapshot, Snapshot::Devices(_)), expected.is_some(), "{header}");
        let used = before - client.stream.pending.len();
        assert_eq!(used, 4 + expected.unwrap_or(0) as usize, "{header}");
    }
}

#[test]
fn a_connection_that_ends_early_says_so() {
    assert!(matches!(refused(b"", true), TrackError::UnexpectedEnd));
    assert!(matches!(refused(b"OKA", true), TrackError::UnexpectedEnd));
    assert_eq!(refused(b"OKA", true).kind(), ErrorKind::UnexpectedEof);

    let mut client = connected(b"OKAY");
    client.stream.end();
    assert!(matches!(client.next_snapshot(), Snapshot::Closed));
    for bytes in [&b"OKAY0"[..], b"OKAY00", b"OKAY000", b"OKAY0001"] {
        let mut client = connected(bytes);
        client.stream.end();
        assert!(matches!(
            client.next_snapshot(),
            Snapshot::Failed(TrackError::UnexpectedEnd)
        ));
    }

    let mut client = connected(b"OKAY0003ab");
    client.stream.end();
    match client.next_snapshot() {
        Snapshot::Failed(error) => assert_eq!(error.kind(), ErrorKind::UnexpectedEof),
        other => panic!("got {other:?}"),
    }
}

#[test]
fn a_refusal_without_a_reason_is_still_a_refusal() {
    let mut stream = Stream::new();
    stream.receive(b"FAIL");
    assert!(matches!(TrackDevicesClient::connect(stream), Connecting::Pending(_)));
    assert_eq!(refused(b"FAIL", true).message(), "adb server returned FAIL: ");
    for bytes in [&b"FAIL0"[..], b"FAIL00", b"FAIL000", b"FAIL0001"] {
        assert!(matches!(refused(bytes, true), TrackError::UnexpectedEnd));
    }
    assert!(matches!(refused(b"FAIL+001x", false), TrackError::LengthNotHex));
    assert!(matches!(refused(b"FAIL0003ab", true), TrackError::UnexpectedEnd));
    assert!(matches!(refused(b"FAILzzzz", false), TrackError::LengthNotHex));
    assert!(matches!(refused(b"FAIL\xff\xff\xff\xff", false), TrackError::LengthNotAscii));
    assert_eq!(
        refused(b"FAIL0001\xff", false).message(),
        "adb server returned FAIL: \u{fffd}"
    );
}

#[test]
fn other_statuses_are_told_byte_by_byte() {
    let error = refused(b"WHAT", false);
    assert_eq!(error.message(), format!("unexpected adb server status: {:?}", b"WHAT"));
    assert_eq!(error.message(), "unexpected adb server status: [87, 72, 65, 84]");
    assert_eq!(error.kind(), ErrorKind::InvalidData);
}

#[test]
fn taking_too_long_has_its_own_kind() {
    let error = TrackError::TimedOut;
    assert_eq!(error.message(), "timed out connecting to adb server");
    assert_eq!(error.kind(), ErrorKind::TimedOut);
}

/// The list that the standard library's text functions make out of `text`.
fn by_std(text: &str) -> Vec<Device> {
    text.lines()
        .filter_map(|line| {
            let mut parts = line.splitn(2, '\t');
            let serial = parts.next()?.trim();
            let state = parts.next()?.trim();
            if serial.is_empty() {
                return None;
            }
            Some(device(serial, state))
        })
        .collect()
}

#[test]
fn lists_are_read_as_std_would_read_them() {
    for text in [
        "",
        "\n",
        "a\tdevice",
        "a\tdevice\r\nb\toffline\r",
        "a\tdevice\n\n\tdevice\nb",
        " a \t no permissions \n",
        "a\tb\tc\n",
        "\u{3000}x\u{2028}\t\u{85}y\u{a0}\n",
        "a\t\n",
        "\r\n\ta\n",
        "é\tünï\n日本\t語",
        "x\tdevice\r\r\n",
    ] {
        assert_eq!(parse_device_text(text), by_std(text), "{text:?}");
        assert_eq!(parse_device_list(text.as_bytes()), by_std(text), "{text:?}");
    }
}

#[test]
fn bytes_that_are_no_text_are_replaced() {
    let payload = b"a\xff\tdevice\n\xc3\x28\toffline\n";
    assert_eq!(
        parse_device_list(payload),
        by_std(&String::from_utf8_lossy(payload))
    );
    assert_eq!(
        parse_device_list(payload),
        vec![device("a\u{fffd}", "device"), device("\u{fffd}(", "offline")]
    );
}

#[test]
fn two_lists_in_one_list_what_each_lists() {
    let (a, b) = ("a\tdevice\nb\toffline\n", "c\tdevice\n");
    let mut both = parse_device_text(a);
    both.extend(parse_device_text(b));
    assert_eq!(parse_device_text(&format!("{a}{b}")), both);
}
