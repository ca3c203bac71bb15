use slang_bridge::adb::cli::{AdbCli, AdbCommand, AdbFailure, AdbReply, CommandOutput};
use slang_bridge::adb::devices::parse_device_text;
use slang_bridge::daemon::adb_watch::{
    remove_all_reverse_tunnels, watch_and_tunnel, TunneledDevices, WatchAction,
    ADB_SERVER_PORT, RETRY_DELAY_SECONDS,
};
use slang_bridge::daemon::companion_app::{ensure_app_ready, AppAction, AppConfig, AppStep};
use slang_bridge::daemon::config::{app_config_from_env, can_be_read, DEFAULT_PORT};

/// A fake `adb` that logs every invocation and answers with `answer`.
struct FakeAdb {
    log: Vec<String>,
    answer: fn(&str) -> (bool, &'static str),
}

impl FakeAdb {
    fn run(&mut self, command: &AdbCommand) -> Result<AdbReply, AdbFailure> {
        let line = command.args.join(" ");
        let (success, stdout) = (self.answer)(&line);
        self.log.push(line);
        command.judge(CommandOutput {
            success,
            status: format!("exit status: {}", i32::from(!success)),
            stdout: stdout.as_bytes().to_vec(),
            stderr: Vec::new(),
        })
    }

    /// Carries a round for one list through.
    fn round(
        &mut self,
        adb: &AdbCli,
        list: &str,
        config: &Option<AppConfig>,
        tunneled: &mut TunneledDevices,
    ) {
        let devices = parse_device_text(list);
        let (mut round, mut action) = watch_and_tunnel(&devices, adb, 8800, tunneled);
        while let WatchAction::Run(command) = action {
            let result = self.run(&command);
            action = round.advance(adb, 8800, config, tunneled, result);
        }
    }
}

fn logging(answer: fn(&str) -> (bool, &'static str)) -> FakeAdb {
    FakeAdb { log: Vec::new(), answer }
}

fn always(_: &str) -> (bool, &'static str) {
    (true, "")
}

/// The app is not installed (nothing is known of it) and not running.
fn without_app(line: &str) -> (bool, &'static str) {
    (!line.contains("shell pidof"), "")
}

fn companion() -> AppConfig {
    AppConfig {
        package: "com.example.app".to_string(),
        activity: ".MainActivity".to_string(),
        apk_path: "/tmp/app.apk".to_string(),
        version_code: 1,
    }
}

#[test]
fn tunnels_usable_devices_and_retries_on_reappearance() {
    let adb = AdbCli::with_program("fake-adb.sh".to_string());
    let mut fake = logging(always);
    let mut tunneled = TunneledDevices::new();
    for snapshot in [
        "good-serial\tdevice\nbad-serial\tunauthorized\n",
        "",
        "good-serial\tdevice\n",
    ] {
        fake.round(&adb, snapshot, &None, &mut tunneled);
    }

    let reverse_calls: Vec<&str> = fake
        .log
        .iter()
        .map(|line| line.as_str())
        .filter(|line| line.contains("good-serial"))
        .collect();
    assert_eq!(
        reverse_calls,
        vec![
            "-s good-serial reverse tcp:8800 tcp:8800",
            "-s good-serial reverse tcp:8800 tcp:8800",
        ]
    );
    assert!(!fake.log.iter().any(|line| line.contains("bad-serial")));
    assert_eq!(tunneled.serials, vec!["good-serial".to_string()]);
}

#[test]
fn installs_and_launches_the_companion_app_on_a_newly_tunneled_device() {
    let adb = AdbCli::with_program("fake-adb.sh".to_string());
    let mut fake = logging(without_app);
    let mut tunneled = TunneledDevices::new();
    fake.round(&adb, "good-serial\tdevice\n", &Some(companion()), &mut tunneled);
    assert_eq!(
        fake.log,
        vec![
            "-s good-serial reverse tcp:8800 tcp:8800",
            "-s good-serial shell dumpsys package com.example.app",
            "-s good-serial install -r /tmp/app.apk",
            "-s good-serial shell pidof com.example.app",
            "-s good-serial shell am start --activity-single-top -n com.example.app/.MainActivity",
        ]
    );
}

#[test]
fn removes_the_reverse_tunnel_for_every_currently_tunneled_device() {
    let adb = AdbCli::with_program("fake-adb.sh".to_string());
    let mut tunneled = TunneledDevices::new();
    tunneled.insert("serial-a".to_string());
    tunneled.insert("serial-b".to_string());
    let mut fake = logging(always);
    for command in remove_all_reverse_tunnels(&adb, &tunneled, 8800) {
        assert_eq!(fake.run(&command).ok(), Some(AdbReply::Done));
    }
    assert_eq!(
        fake.log,
        vec![
            "-s serial-a reverse --remove tcp:8800",
            "-s serial-b reverse --remove tcp:8800",
        ]
    );
    assert!(remove_all_reverse_tunnels(&adb, &TunneledDevices::new(), 8800).is_empty());
}

#[test]
fn a_tunneled_device_is_left_alone() {
    let adb = AdbCli::new();
    let mut fake = logging(always);
    let mut tunneled = TunneledDevices::new();
    fake.round(&adb, "a\tdevice\n", &None, &mut tunneled);
    fake.round(&adb, "a\tdevice\nb\tdevice\n", &None, &mut tunneled);
    assert_eq!(
        fake.log,
        vec!["-s a reverse tcp:8800 tcp:8800", "-s b reverse tcp:8800 tcp:8800"]
    );
    assert_eq!(tunneled.serials, vec!["a".to_string(), "b".to_string()]);
}

#[test]
fn a_device_listed_twice_is_tunneled_once() {
    let adb = AdbCli::new();
    let mut fake = logging(always);
    let mut tunneled = TunneledDevices::new();
    fake.round(&adb, "a\tdevice\na\toffline\na\tdevice\n", &None, &mut tunneled);
    assert_eq!(fake.log.len(), 1);
    assert_eq!(tunneled.serials.len(), 1);
}

#[test]
fn a_failed_device_is_tried_again_with_the_next_list() {
    fn a_fails(line: &str) -> (bool, &'static str) {
        (!line.contains("-s a "), "")
    }
    let adb = AdbCli::new();
    let mut fake = logging(a_fails);
    let mut tunneled = TunneledDevices::new();
    fake.round(&adb, "a\tdevice\nb\tdevice\n", &None, &mut tunneled);
    assert_eq!(tunneled.serials, vec!["b".to_string()]);
    fake.answer = always;
    fake.round(&adb, "a\tdevice\nb\tdevice\n", &None, &mut tunneled);
    assert_eq!(
        fake.log,
        vec![
            "-s a reverse tcp:8800 tcp:8800",
            "-s b reverse tcp:8800 tcp:8800",
            "-s a reverse tcp:8800 tcp:8800",
        ]
    );
    assert_eq!(tunneled.serials, vec!["b".to_string(), "a".to_string()]);
}

#[test]
fn trouble_with_the_app_does_not_undo_a_tunnel() {
    fn install_fails(line: &str) -> (bool, &'static str) {
        (true, if line.contains("install") { "Failure [NO]" } else { "" })
    }
    let adb = AdbCli::new();
    let mut fake = logging(install_fails);
    let mut tunneled = TunneledDevices::new();
    fake.round(&adb, "a\tdevice\nb\tdevice\n", &Some(companion()), &mut tunneled);
    assert_eq!(tunneled.serials, vec!["a".to_string(), "b".to_string()]);
    assert_eq!(
        fake.log,
        vec![
            "-s a reverse tcp:8800 tcp:8800",
            "-s a shell dumpsys package com.example.app",
            "-s a install -r /tmp/app.apk",
            "-s b reverse tcp:8800 tcp:8800",
            "-s b shell dumpsys package com.example.app",
            "-s b install -r /tmp/app.apk",
        ]
    );
    fake.log.clear();
    fake.round(&adb, "a\tdevice\nb\tdevice\n", &Some(companion()), &mut tunneled);
    assert!(fake.log.is_empty());
}

#[test]
fn an_app_that_is_up_to_date_and_running_is_left_alone() {
    fn running(line: &str) -> (bool, &'static str) {
        if line.contains("dumpsys") {
            (true, "versionCode=1 minSdk=24")
        } else {
            (true, "4711\n")
        }
    }
    let adb = AdbCli::new();
    let mut fake = logging(running);
    let mut tunneled = TunneledDevices::new();
    fake.round(&adb, "a\tdevice\n", &Some(companion()), &mut tunneled);
    assert_eq!(
        fake.log,
        vec![
            "-s a reverse tcp:8800 tcp:8800",
            "-s a shell dumpsys package com.example.app",
            "-s a shell pidof com.example.app",
        ]
    );
}

#[test]
fn another_version_of_the_app_is_replaced() {
    let adb = AdbCli::new();
    let config = companion();
    let first = ensure_app_ready(&adb, "s", &config);
    assert_eq!(first.args.join(" "), "-s s shell dumpsys package com.example.app");
    let action =
        AppStep::Checking.advance(&adb, "s", &config, Ok(AdbReply::Version(Some(2))));
    assert!(matches!(action, AppAction::Run(AppStep::Installing, _)));
    let action =
        AppStep::Checking.advance(&adb, "s", &config, Ok(AdbReply::Version(Some(1))));
    assert!(matches!(action, AppAction::Run(AppStep::Probing, _)));
    let action = AppStep::Probing.advance(&adb, "s", &config, Ok(AdbReply::Running(true)));
    assert!(matches!(action, AppAction::Finish(Ok(()))));
    let failure = AdbFailure { message: "no".to_string() };
    match AppStep::Launching.advance(&adb, "s", &config, Err(failure)) {
        AppAction::Finish(Err(failure)) => assert_eq!(failure.message, "no"),
        other => panic!("got {other:?}"),
    }
}

#[test]
fn a_component_with_a_slash_is_taken_as_it_is() {
    let mut config = companion();
    assert_eq!(config.component(), "com.example.app/.MainActivity");
    config.activity = "com.example.other/.OtherActivity".to_string();
    assert_eq!(config.component(), "com.example.other/.OtherActivity");
    config.activity = "/".to_string();
    assert_eq!(config.component(), "/");
    config.activity = String::new();
    assert_eq!(config.component(), "com.example.app/");
}

#[test]
fn the_environment_says_everything_or_nothing_of_the_app() {
    let given = |s: &str| Some(s.to_string());
    let config = app_config_from_env(given("p"), given("a"), given("/x.apk"), given("-12"))
        .expect("everything is given");
    assert_eq!(config.package, "p");
    assert_eq!(config.activity, "a");
    assert_eq!(config.apk_path, "/x.apk");
    assert_eq!(config.version_code, -12);
    assert!(can_be_read(&None, &given("a"), &given("x"), &given("nonsense")));
    assert!(app_config_from_env(None, given("a"), given("x"), given("nonsense")).is_none());
    assert!(app_config_from_env(given("p"), None, given("x"), given("1")).is_none());
    assert!(app_config_from_env(given("p"), given("a"), None, given("1")).is_none());
    assert!(app_config_from_env(given("p"), given("a"), given("x"), None).is_none());
    assert!(can_be_read(&given("p"), &given("a"), &given("x"), &given("-12")));
    for version in ["", "1.0", "one", " 1", "9223372036854775808"] {
        assert!(
            !can_be_read(&given("p"), &given("a"), &given("x"), &given(version)),
            "{version:?}"
        );
        assert!(version.parse::<i64>().is_err());
    }
}

#[test]
fn ports_and_delays_are_what_they_are() {
    assert_eq!(DEFAULT_PORT, 8800);
    assert_eq!(ADB_SERVER_PORT, 5037);
    assert_eq!(RETRY_DELAY_SECONDS, 5);
}
