use slang_bridge::adb::cli::{
    version_code, AdbCli, AdbCommand, AdbReply, CommandOutput, CommandText, Judgement,
    SpawnAttempts, ETXTBSY, MAX_SPAWN_ATTEMPTS, SPAWN_RETRY_DELAY_MS,
};

/// What a stand-in for `adb` leaves behind for some arguments.
fn fake_adb(command: &AdbCommand) -> CommandOutput {
    let line = command.args.join(" ");
    let (code, stdout, stderr) = match line.as_str() {
        "-s test-serial reverse tcp:8800 tcp:8800" => (0, String::new(), String::new()),
        "-s test-serial reverse --remove tcp:8800" => (0, String::new(), String::new()),
        "connect 192.168.1.50:5555" => (0, String::new(), String::new()),
        "-s missing-serial reverse tcp:8800 tcp:8800" => (
            1,
            String::new(),
            "error: device 'missing-serial' not found\n".to_string(),
        ),
        "-s test-serial install -r /tmp/app.apk" => (0, "Success\n".to_string(), String::new()),
        "-s test-serial install -r /tmp/bad.apk" => (
            0,
            "Failure [INSTALL_FAILED_INVALID_APK]\n".to_string(),
            String::new(),
        ),
        "-s test-serial shell dumpsys package com.example.app" => (
            0,
            "Packages:\n  Package [com.example.app] (deadbeef):\n    versionCode=42 minSdk=24 targetSdk=34\n    versionName=1.2.3\n"
                .to_string(),
            String::new(),
        ),
        "-s test-serial shell dumpsys package com.example.missing" => (
            0,
            "Unable to find package: com.example.missing\n".to_string(),
            String::new(),
        ),
        "-s test-serial shell pidof com.example.app" => (0, "12345\n".to_string(), String::new()),
        "-s test-serial shell pidof com.example.missing" => (1, String::new(), String::new()),
        "-s test-serial shell am start -n com.example.app/.MainActivity" => (
            0,
            "Starting: Intent { cmp=com.example.app/.MainActivity }\n".to_string(),
            String::new(),
        ),
        "-s test-serial shell am start -n com.example.app/.MissingActivity" => (
            0,
            "Error: Activity not started, unable to resolve Intent\n".to_string(),
            String::new(),
        ),
        other => (1, String::new(), format!("fake-adb: unexpected args: {other}\n")),
    };
    CommandOutput {
        success: code == 0,
        status: format!("exit status: {code}"),
        stdout: stdout.into_bytes(),
        stderr: stderr.into_bytes(),
    }
}

fn run(command: AdbCommand) -> Result<AdbReply, String> {
    let output = fake_adb(&command);
    command.judge(output).map_err(|failure| failure.message)
}

fn text(success: bool, stdout: &str, stderr: &str) -> CommandText {
    CommandText {
        success,
        status: "exit status: 1".to_string(),
        stdout: stdout.to_string(),
        stderr: stderr.to_string(),
    }
}

#[test]
fn reverse_and_remove_succeed_with_correct_arguments() {
    let adb = AdbCli::with_program("fake-adb.sh".to_string());
    assert_eq!(run(adb.reverse("test-serial", 8800, 8800)), Ok(AdbReply::Done));
    assert_eq!(run(adb.reverse_remove("test-serial", 8800)), Ok(AdbReply::Done));
}

#[test]
fn connect_succeeds_with_correct_arguments() {
    let adb = AdbCli::with_program("fake-adb.sh".to_string());
    assert_eq!(run(adb.connect("192.168.1.50:5555")), Ok(AdbReply::Done));
}

#[test]
fn surfaces_adb_failure_with_stderr_message() {
    let adb = AdbCli::with_program("fake-adb.sh".to_string());
    let err = run(adb.reverse("missing-serial", 8800, 8800)).unwrap_err();
    assert!(err.contains("not found"), "got: {err}");
    assert_eq!(
        err,
        "adb -s missing-serial reverse tcp:8800 tcp:8800 failed (exit status: 1): error: device 'missing-serial' not found "
    );
}

#[test]
fn install_succeeds_on_success_output() {
    let adb = AdbCli::with_program("fake-adb.sh".to_string());
    assert_eq!(run(adb.install("test-serial", "/tmp/app.apk")), Ok(AdbReply::Done));
}

#[test]
fn install_fails_on_failure_output_even_with_exit_code_zero() {
    let adb = AdbCli::with_program("fake-adb.sh".to_string());
    let err = run(adb.install("test-serial", "/tmp/bad.apk")).unwrap_err();
    assert!(err.contains("INSTALL_FAILED_INVALID_APK"), "got: {err}");
}

#[test]
fn installed_version_code_parses_dumpsys_output() {
    let adb = AdbCli::with_program("fake-adb.sh".to_string());
    assert_eq!(
        run(adb.installed_version_code("test-serial", "com.example.app")),
        Ok(AdbReply::Version(Some(42)))
    );
}

#[test]
fn installed_version_code_is_none_when_package_missing() {
    let adb = AdbCli::with_program("fake-adb.sh".to_string());
    assert_eq!(
        run(adb.installed_version_code("test-serial", "com.example.missing")),
        Ok(AdbReply::Version(None))
    );
}

#[test]
fn is_process_running_reflects_pidof_output() {
    let adb = AdbCli::with_program("fake-adb.sh".to_string());
    assert_eq!(
        run(adb.is_process_running("test-serial", "com.example.app")),
        Ok(AdbReply::Running(true))
    );
    assert_eq!(
        run(adb.is_process_running("test-serial", "com.example.missing")),
        Ok(AdbReply::Running(false))
    );
}

#[test]
fn start_activity_succeeds_with_correct_arguments() {
    let adb = AdbCli::with_program("fake-adb.sh".to_string());
    assert_eq!(
        run(adb.start_activity("test-serial", "com.example.app/.MainActivity")),
        Ok(AdbReply::Done)
    );
}

#[test]
fn start_activity_fails_on_error_output_even_with_exit_code_zero() {
    let adb = AdbCli::with_program("fake-adb.sh".to_string());
    let err = run(adb.start_activity("test-serial", "com.example.app/.MissingActivity"))
        .unwrap_err();
    assert!(err.contains("unable to resolve Intent"), "got: {err}");
}

#[test]
fn the_program_is_adb_unless_another_is_given() {
    assert_eq!(AdbCli::new().program, "adb");
    assert_eq!(AdbCli::default().program, "adb");
    let command = AdbCli::with_program("/opt/adb".to_string()).connect("host:1");
    assert_eq!(command.program, "/opt/adb");
    assert_eq!(command.args, vec!["connect".to_string(), "host:1".to_string()]);
    assert_eq!(command.judgement, Judgement::ExitStatus);
}

#[test]
fn launching_keeps_an_activity_that_is_on_top() {
    let command = AdbCli::new().launch_activity("serial", "pkg/.Main");
    assert_eq!(
        command.args.join(" "),
        "-s serial shell am start --activity-single-top -n pkg/.Main"
    );
    assert_eq!(command.judgement, Judgement::Start);
}

#[test]
fn an_exit_status_alone_decides_about_tunnels() {
    let command = AdbCli::new().reverse("s", 1, 65535);
    assert_eq!(command.args.join(" "), "-s s reverse tcp:1 tcp:65535");
    assert_eq!(
        command.finish(&text(true, "Failure Error:", "noise")).ok(),
        Some(AdbReply::Done)
    );
    let failed = command.finish(&text(false, " out \n", "\t err ")).unwrap_err();
    assert_eq!(
        failed.message,
        "adb -s s reverse tcp:1 tcp:65535 failed (exit status: 1): err out"
    );
}

#[test]
fn a_failed_version_query_is_an_error_and_a_failed_pidof_is_not() {
    let adb = AdbCli::new();
    let query = adb.installed_version_code("s", "p");
    assert!(query.finish(&text(false, "versionCode=1", "")).is_err());
    let probe = adb.is_process_running("s", "p");
    assert_eq!(
        probe.finish(&text(false, "1\n", "")).ok(),
        Some(AdbReply::Running(true))
    );
    assert_eq!(
        probe.finish(&text(true, " \t\n", "")).ok(),
        Some(AdbReply::Running(false))
    );
}

#[test]
fn versions_are_read_as_std_would_read_them() {
    for description in [
        "versionCode=42 minSdk=24",
        "versionCode=42",
        "versionCode=-7 x",
        "versionCode=+7\nversionCode=9",
        "versionCode=9223372036854775807 ",
        "versionCode=9223372036854775808 ",
        "versionCode=-9223372036854775808",
        "versionCode=-9223372036854775809",
        "versionCode= 12",
        "versionCode=12versionCode=13",
        "versionCode=versionCode=13",
        "versionCode=",
        "versionCode=1a",
        "versionCode=\u{3000}5\u{85}6",
        "nothing here",
        "",
        "versionCodeversionCode=3",
        "versionCode=--3",
        "versionCode=+",
        "versionCode=0000000000000000000000012",
    ] {
        let expected = description.split("versionCode=").nth(1).and_then(|rest| {
            rest.split_whitespace()
                .next()
                .and_then(|token| token.parse::<i64>().ok())
        });
        assert_eq!(version_code(description), expected, "{description:?}");
    }
    assert_eq!(version_code("a\n  versionCode=42 minSdk=24"), Some(42));
}

#[test]
fn output_that_is_not_utf8_is_judged_by_what_can_be_read() {
    let command = AdbCli::new().install("s", "p");
    let mut stdout = vec![0xff, 0xfe];
    stdout.extend_from_slice(b"Failure");
    let failed = command
        .judge(CommandOutput {
            success: true,
            status: "exit status: 0".to_string(),
            stdout,
            stderr: vec![0x80],
        })
        .unwrap_err();
    assert_eq!(
        failed.message,
        "adb -s s install -r p failed (exit status: 0): \u{fffd} \u{fffd}\u{fffd}Failure"
    );
}

#[test]
fn a_busy_program_is_tried_five_times() {
    let mut attempts = SpawnAttempts::first();
    let mut again = 0;
    while attempts.failed(Some(ETXTBSY)) {
        again += 1;
    }
    assert_eq!(again + 1, MAX_SPAWN_ATTEMPTS);
    assert_eq!(attempts.made, 5);
    assert_eq!(SPAWN_RETRY_DELAY_MS, 20);
}

#[test]
fn other_errors_are_not_worth_another_attempt() {
    let mut attempts = SpawnAttempts::first();
    assert!(!attempts.failed(Some(2)));
    assert!(!attempts.failed(None));
    assert_eq!(attempts.made, 1);
}
