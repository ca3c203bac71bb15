//! What the adb tool and its server are used for, stated of what goes in and
//! what comes out.

use crate::adb::c_list::{snapshot_to_c, BridgeAdbDeviceList};
use crate::adb::cli::{
    breaks_off, joined, version_in, AdbCli, AdbCommand, AdbFailure, AdbReply, CommandOutput, CommandText,
    SpawnAttempts,
};
use crate::adb::devices::{
    all_plain, entries, entry_of, lists_add_up, list_for, listed, parse_device_list,
    parse_device_text, Device, Entry,
};
use crate::adb::track_devices::{
    request, track_devices_request, Connecting, ErrorKind, Snapshot, Stream, TrackDevicesClient,
    TrackError,
};
use crate::bytes::{encoded_text_decodes_to_itself, utf8_lossy};
use crate::number::{
    all_hex, decimal, decimal_is_injective, decimal_reads_back, hex, hex_digit, hex_number,
    hex_value, is_digit, written_i64,
};
use crate::text::{
    blank, find_text, has_text, is_white_space, lemma_find_text, lemma_position_bound, lines,
    occurs_at, only_blanks_trim_to_nothing, only_the_ends_are_trimmed, position, texts,
    the_first_word_stands_between_blanks,
};
use vstd::prelude::*;
use vstd::utf8::{encode_utf8, valid_utf8};

verus! {

/// Whether a command runs a program with these arguments, one by one.
pub open spec fn has_args(command: AdbCommand, program: Seq<char>, args: Seq<Seq<char>>) -> bool {
    &&& command.program@ == program
    &&& command.args@.len() == args.len()
    &&& forall|i: int| 0 <= i < args.len() ==> #[trigger] command.args@[i]@ == args[i]
}

proof fn lemma_args(command: AdbCommand, program: Seq<char>, args: Seq<Seq<char>>)
    requires
        command.runs(program, args),
    ensures
        has_args(command, program, args),
{
    assert(texts(command.args@).len() == command.args@.len());
    assert forall|i: int| 0 <= i < args.len() implies #[trigger] command.args@[i]@ == args[i] by {
        assert(texts(command.args@)[i] == command.args@[i]@);
    }
}

/// A tunnel leads from the device it is asked for, from the port it is asked
/// for, to the port of this host it is asked for, each as adb writes a port.
pub proof fn a_tunnel_has_the_ends_it_is_asked_for(
    adb: AdbCli,
    serial: &str,
    remote_port: u16,
    local_port: u16,
    command: AdbCommand,
)
    requires
        call_ensures(AdbCli::reverse, (&adb, serial, remote_port, local_port), command),
    ensures
        has_args(
            command,
            adb.program@,
            seq![
                "-s"@,
                serial@,
                "reverse"@,
                "tcp:"@ + decimal(remote_port as nat),
                "tcp:"@ + decimal(local_port as nat),
            ],
        ),
{
    lemma_args(
        command,
        adb.program@,
        seq![
            "-s"@,
            serial@,
            "reverse"@,
            "tcp:"@ + decimal(remote_port as nat),
            "tcp:"@ + decimal(local_port as nat),
        ],
    );
}

/// Tunnels from different ports are asked for in different words, and so are
/// tunnels to different ports, and tunnels of different devices.
pub proof fn different_tunnels_are_asked_for_differently(
    adb: AdbCli,
    serial: &str,
    remote_port: u16,
    local_port: u16,
    command: AdbCommand,
    other_serial: &str,
    other_remote_port: u16,
    other_local_port: u16,
    other: AdbCommand,
)
    requires
        call_ensures(AdbCli::reverse, (&adb, serial, remote_port, local_port), command),
        call_ensures(
            AdbCli::reverse,
            (&adb, other_serial, other_remote_port, other_local_port),
            other,
        ),
    ensures
        command.args@[1]@ == other.args@[1]@ <==> serial@ == other_serial@,
        command.args@[3]@ == other.args@[3]@ <==> remote_port == other_remote_port,
        command.args@[4]@ == other.args@[4]@ <==> local_port == other_local_port,
{
    a_tunnel_has_the_ends_it_is_asked_for(adb, serial, remote_port, local_port, command);
    a_tunnel_has_the_ends_it_is_asked_for(
        adb,
        other_serial,
        other_remote_port,
        other_local_port,
        other,
    );
    assert(command.args@[1]@ == serial@ && other.args@[1]@ == other_serial@);
    lemma_ports_differ(remote_port, other_remote_port);
    lemma_ports_differ(local_port, other_local_port);
}

proof fn lemma_ports_differ(a: u16, b: u16)
    ensures
        "tcp:"@ + decimal(a as nat) == "tcp:"@ + decimal(b as nat) <==> a == b,
{
    let n = "tcp:"@.len() as int;
    let x = "tcp:"@ + decimal(a as nat);
    let y = "tcp:"@ + decimal(b as nat);
    assert(x.skip(n) == decimal(a as nat));
    assert(y.skip(n) == decimal(b as nat));
    if x == y {
        decimal_is_injective(a as nat, b as nat);
    }
}

/// A tunnel is ended by naming its device and the port of the device it leads
/// from: the port that it was asked for with.
pub proof fn a_tunnel_is_ended_where_it_began(
    adb: AdbCli,
    serial: &str,
    remote_port: u16,
    local_port: u16,
    begun: AdbCommand,
    ended: AdbCommand,
)
    requires
        call_ensures(AdbCli::reverse, (&adb, serial, remote_port, local_port), begun),
        call_ensures(AdbCli::reverse_remove, (&adb, serial, remote_port), ended),
    ensures
        has_args(
            ended,
            adb.program@,
            seq![
                "-s"@,
                serial@,
                "reverse"@,
                "--remove"@,
                "tcp:"@ + decimal(remote_port as nat),
            ],
        ),
        ended.args@[1]@ == begun.args@[1]@,
        ended.args@[4]@ == begun.args@[3]@,
{
    a_tunnel_has_the_ends_it_is_asked_for(adb, serial, remote_port, local_port, begun);
    lemma_args(
        ended,
        adb.program@,
        seq!["-s"@, serial@, "reverse"@, "--remove"@, "tcp:"@ + decimal(remote_port as nat)],
    );
}

/// A device is connected to by the address that is given, and by no serial.
pub proof fn connecting_names_the_address(adb: AdbCli, host_port: &str, command: AdbCommand)
    requires
        call_ensures(AdbCli::connect, (&adb, host_port), command),
    ensures
        has_args(command, adb.program@, seq!["connect"@, host_port@]),
{
    lemma_args(command, adb.program@, seq!["connect"@, host_port@]);
}

/// An installation is of the file that is given, on the device that is given,
/// and replaces what is there.
pub proof fn an_installation_replaces_what_is_there(
    adb: AdbCli,
    serial: &str,
    apk_path: &str,
    command: AdbCommand,
)
    requires
        call_ensures(AdbCli::install, (&adb, serial, apk_path), command),
    ensures
        has_args(command, adb.program@, seq!["-s"@, serial@, "install"@, "-r"@, apk_path@]),
{
    lemma_args(command, adb.program@, seq!["-s"@, serial@, "install"@, "-r"@, apk_path@]);
}

/// A version and a process are asked for by the name of the package, and each
/// in its own way.
pub proof fn questions_name_the_package(
    adb: AdbCli,
    serial: &str,
    package: &str,
    version: AdbCommand,
    process: AdbCommand,
)
    requires
        call_ensures(AdbCli::installed_version_code, (&adb, serial, package), version),
        call_ensures(AdbCli::is_process_running, (&adb, serial, package), process),
    ensures
        has_args(
            version,
            adb.program@,
            seq!["-s"@, serial@, "shell"@, "dumpsys"@, "package"@, package@],
        ),
        has_args(process, adb.program@, seq!["-s"@, serial@, "shell"@, "pidof"@, package@]),
{
    lemma_args(
        version,
        adb.program@,
        seq!["-s"@, serial@, "shell"@, "dumpsys"@, "package"@, package@],
    );
    lemma_args(process, adb.program@, seq!["-s"@, serial@, "shell"@, "pidof"@, package@]);
}

/// An activity is started by its component. Launching differs from starting
/// in one argument: it leaves an activity alone that is on top.
pub proof fn launching_leaves_the_activity_on_top(
    adb: AdbCli,
    serial: &str,
    component: &str,
    started: AdbCommand,
    launched: AdbCommand,
)
    requires
        call_ensures(AdbCli::start_activity, (&adb, serial, component), started),
        call_ensures(AdbCli::launch_activity, (&adb, serial, component), launched),
    ensures
        has_args(
            started,
            adb.program@,
            seq!["-s"@, serial@, "shell"@, "am"@, "start"@, "-n"@, component@],
        ),
        has_args(
            launched,
            adb.program@,
            seq![
                "-s"@,
                serial@,
                "shell"@,
                "am"@,
                "start"@,
                "--activity-single-top"@,
                "-n"@,
                component@,
            ],
        ),
{
    lemma_args(
        started,
        adb.program@,
        seq!["-s"@, serial@, "shell"@, "am"@, "start"@, "-n"@, component@],
    );
    lemma_args(
        launched,
        adb.program@,
        seq![
            "-s"@,
            serial@,
            "shell"@,
            "am"@,
            "start"@,
            "--activity-single-top"@,
            "-n"@,
            component@,
        ],
    );
}

/// Whether one text is a stretch of another.
pub open spec fn holds_text(text: Seq<char>, part: Seq<char>) -> bool {
    exists|before: Seq<char>, after: Seq<char>| #[trigger] (before + part + after) == text
}

proof fn lemma_holds_text(text: Seq<char>, part: Seq<char>)
    ensures
        holds_text(text, part) <==> has_text(text, part),
{
    if has_text(text, part) {
        let at = choose|at: int| occurs_at(text, part, at);
        assert(text.take(at) + part + text.skip(at + part.len()) == text);
    }
    if holds_text(text, part) {
        let (before, after) = choose|before: Seq<char>, after: Seq<char>|
            #[trigger] (before + part + after) == text;
        let at = before.len() as int;
        assert(text.subrange(at, at + part.len()) == part);
        assert(occurs_at(text, part, at));
    }
}

/// Whatever a command is for, it counts as failed if adb says so by its exit
/// status. The one exception is the question for a process, which always has
/// an answer.
pub proof fn a_failed_command_is_an_error(
    command: AdbCommand,
    output: CommandText,
    result: Result<AdbReply, AdbFailure>,
)
    requires
        call_ensures(AdbCommand::finish, (&command, &output), result),
        !output.success,
        !(command.judgement is Process),
    ensures
        result is Err,
{
}

/// Tunnels and connections are there exactly if adb says so by its exit
/// status, whatever it wrote.
pub proof fn a_tunnel_is_there_if_adb_says_so(
    adb: AdbCli,
    serial: &str,
    host_port: &str,
    remote_port: u16,
    local_port: u16,
    command: AdbCommand,
    output: CommandText,
    result: Result<AdbReply, AdbFailure>,
)
    requires
        call_ensures(AdbCli::reverse, (&adb, serial, remote_port, local_port), command)
            || call_ensures(AdbCli::reverse_remove, (&adb, serial, remote_port), command)
            || call_ensures(AdbCli::connect, (&adb, host_port), command),
        call_ensures(AdbCommand::finish, (&command, &output), result),
    ensures
        output.success <==> result is Ok,
        result is Ok ==> result->Ok_0 is Done,
{
}

/// An installation is done exactly if adb exits well and reports no failure,
/// as some devices do even then.
pub proof fn an_installation_is_done_if_no_failure_is_reported(
    adb: AdbCli,
    serial: &str,
    apk_path: &str,
    command: AdbCommand,
    output: CommandText,
    result: Result<AdbReply, AdbFailure>,
)
    requires
        call_ensures(AdbCli::install, (&adb, serial, apk_path), command),
        call_ensures(AdbCommand::finish, (&command, &output), result),
    ensures
        result is Ok <==> output.success && !holds_text(output.stdout@, "Failure"@),
        result is Ok ==> result->Ok_0 is Done,
{
    lemma_holds_text(output.stdout@, "Failure"@);
}

/// An activity is started exactly if adb exits well and reports no error.
pub proof fn an_activity_is_started_if_no_error_is_reported(
    adb: AdbCli,
    serial: &str,
    component: &str,
    command: AdbCommand,
    output: CommandText,
    result: Result<AdbReply, AdbFailure>,
)
    requires
        call_ensures(AdbCli::start_activity, (&adb, serial, component), command) || call_ensures(
            AdbCli::launch_activity,
            (&adb, serial, component),
            command,
        ),
        call_ensures(AdbCommand::finish, (&command, &output), result),
    ensures
        result is Ok <==> output.success && !holds_text(output.stdout@, "Error:"@),
        result is Ok ==> result->Ok_0 is Done,
{
    lemma_holds_text(output.stdout@, "Error:"@);
}

/// A process is running exactly if its number is written out, whatever the
/// exit status.
pub proof fn a_process_runs_if_it_has_a_number(
    adb: AdbCli,
    serial: &str,
    package: &str,
    command: AdbCommand,
    output: CommandText,
    result: Result<AdbReply, AdbFailure>,
)
    requires
        call_ensures(AdbCli::is_process_running, (&adb, serial, package), command),
        call_ensures(AdbCommand::finish, (&command, &output), result),
    ensures
        result is Ok,
        result->Ok_0 == AdbReply::Running(!blank(output.stdout@)),
{
    only_blanks_trim_to_nothing(output.stdout@);
}

/// The version of a package is the number that follows the first
/// "versionCode=", with or without white space between them, up to the next
/// white space, or up to where "versionCode=" is repeated. It may have a sign,
/// and counts only if it fits.
pub proof fn the_version_is_the_number_after_its_label(
    adb: AdbCli,
    serial: &str,
    package: &str,
    command: AdbCommand,
    output: CommandText,
    result: Result<AdbReply, AdbFailure>,
    before: Seq<char>,
    gap: Seq<char>,
    sign: Seq<char>,
    number: nat,
    after: Seq<char>,
)
    requires
        call_ensures(AdbCli::installed_version_code, (&adb, serial, package), command),
        call_ensures(AdbCommand::finish, (&command, &output), result),
        output.success,
        output.stdout@ == before + "versionCode="@ + gap + sign + decimal(number) + after,
        blank(gap),
        sign.len() == 0 || sign == seq!['-'] || sign == seq!['+'],
        breaks_off(after) || occurs_at(after, "versionCode="@, 0),
        forall|i: int|
            0 <= i < before.len() ==> !#[trigger] occurs_at(
                output.stdout@,
                "versionCode="@,
                i,
            ),
    ensures
        ({
            let version: int = if sign == seq!['-'] {
                -number
            } else {
                number as int
            };
            &&& result is Ok
            &&& result->Ok_0 == AdbReply::Version(
                if i64::MIN <= version <= i64::MAX {
                    Some(version as i64)
                } else {
                    None
                },
            )
        }),
{
    reveal_strlit("versionCode=");
    let label = "versionCode="@;
    let word = sign + decimal(number);
    let whole = output.stdout@;
    let from = before.len() + label.len();
    decimal_reads_back(number);
    assert forall|i: int| 0 <= i < word.len() implies !is_white_space(#[trigger] word[i]) && word[i]
        != 'v' by {
        if i >= sign.len() {
            assert(is_digit(decimal(number)[i - sign.len()]));
        }
    }
    assert(whole == before + label + gap + word + after);
    lemma_word_after_label(before, gap, word, after);
    assert(is_digit(decimal(number)[0]));
    assert(word.len() > 0);
    if sign.len() == 0 {
        assert(word == decimal(number));
        assert(word[0] == decimal(number)[0]);
    } else {
        assert(word.drop_first() == decimal(number));
        assert(word[0] == sign[0]);
    }
}

proof fn lemma_word_after_label(
    before: Seq<char>,
    gap: Seq<char>,
    word: Seq<char>,
    after: Seq<char>,
)
    requires
        blank(gap),
        word.len() > 0,
        forall|i: int|
            0 <= i < word.len() ==> !is_white_space(#[trigger] word[i]) && word[i] != 'v',
        breaks_off(after) || occurs_at(after, "versionCode="@, 0),
        forall|i: int|
            0 <= i < before.len() ==> !#[trigger] occurs_at(
                before + "versionCode="@ + gap + word + after,
                "versionCode="@,
                i,
            ),
    ensures
        version_in(before + "versionCode="@ + gap + word + after) == written_i64(word),
{
    reveal_strlit("versionCode=");
    let label = "versionCode="@;
    let whole = before + label + gap + word + after;
    let at = before.len() as int;
    let from = at + label.len();
    lemma_find_text(whole, label, 0);
    assert(whole.subrange(at, from) == label);
    assert(occurs_at(whole, label, at));
    assert(find_text(whole, label, 0) == Some(at));
    lemma_find_text(whole, label, from);
    let to = match find_text(whole, label, from) {
        Some(next) => next,
        None => whole.len() as int,
    };
    let end = from + gap.len() + word.len();
    assert(to >= end) by {
        if to < end {
            assert(occurs_at(whole, label, to));
            assert(whole.subrange(to, to + label.len())[0] == label[0]);
            assert(whole[to] == 'v');
            if to < from + gap.len() {
                assert(is_white_space(gap[to - from]));
                assert(whole[to] == gap[to - from]);
            } else {
                assert(whole[to] == word[to - from - gap.len()]);
            }
        }
    }
    if !breaks_off(after) {
        assert(whole.subrange(end, end + label.len()) == after.subrange(0, label.len() as int));
        assert(occurs_at(whole, label, end));
        assert(to == end);
    }
    let told = whole.subrange(from, to);
    let tail = whole.subrange(end, to);
    assert(told == gap + word + tail);
    assert(breaks_off(tail)) by {
        if tail.len() > 0 {
            assert(tail[0] == after[0]);
        }
    }
    the_first_word_stands_between_blanks(gap, word, tail);
}

/// What follows the label and is no number is no version.
pub proof fn what_is_no_number_is_no_version(
    adb: AdbCli,
    serial: &str,
    package: &str,
    command: AdbCommand,
    output: CommandText,
    result: Result<AdbReply, AdbFailure>,
    before: Seq<char>,
    gap: Seq<char>,
    word: Seq<char>,
    after: Seq<char>,
    k: int,
)
    requires
        call_ensures(AdbCli::installed_version_code, (&adb, serial, package), command),
        call_ensures(AdbCommand::finish, (&command, &output), result),
        output.success,
        output.stdout@ == before + "versionCode="@ + gap + word + after,
        blank(gap),
        breaks_off(after),
        forall|i: int|
            0 <= i < word.len() ==> !is_white_space(#[trigger] word[i]) && word[i] != 'v',
        0 <= k < word.len(),
        !(48 <= word[k] as u32 <= 57),
        !(k == 0 && (word[0] == '-' || word[0] == '+')),
        forall|i: int|
            0 <= i < before.len() ==> !#[trigger] occurs_at(
                output.stdout@,
                "versionCode="@,
                i,
            ),
    ensures
        result is Ok,
        result->Ok_0 == AdbReply::Version(None),
{
    lemma_word_after_label(before, gap, word, after);
    assert(!is_digit(word[k]));
    if word.first() == '-' || word.first() == '+' {
        assert(word.drop_first()[k - 1] == word[k]);
    }
}

/// A package whose version is not told is not installed, and a failed command
/// tells nothing.
pub proof fn no_label_no_version(
    adb: AdbCli,
    serial: &str,
    package: &str,
    command: AdbCommand,
    output: CommandText,
    result: Result<AdbReply, AdbFailure>,
)
    requires
        call_ensures(AdbCli::installed_version_code, (&adb, serial, package), command),
        call_ensures(AdbCommand::finish, (&command, &output), result),
    ensures
        output.success <==> result is Ok,
        result is Ok ==> result->Ok_0 is Version,
        result is Ok && !holds_text(output.stdout@, "versionCode="@) ==> result->Ok_0
            == AdbReply::Version(None),
{
    lemma_holds_text(output.stdout@, "versionCode="@);
    lemma_find_text(output.stdout@, "versionCode="@, 0);
    if let Some(at) = find_text(output.stdout@, "versionCode="@, 0) {
        assert(occurs_at(output.stdout@, "versionCode="@, at));
    }
}

/// A failure is told in full: what adb was run with, its exit status, and
/// what it wrote, without the white space around it.
pub proof fn a_failure_is_told_in_full(
    command: AdbCommand,
    output: CommandText,
    result: Result<AdbReply, AdbFailure>,
    complaint: Seq<char>,
    remark: Seq<char>,
    gaps: (Seq<char>, Seq<char>, Seq<char>, Seq<char>),
)
    requires
        call_ensures(AdbCommand::finish, (&command, &output), result),
        result is Err,
        blank(gaps.0) && blank(gaps.1) && blank(gaps.2) && blank(gaps.3),
        output.stderr@ == gaps.0 + complaint + gaps.1,
        output.stdout@ == gaps.2 + remark + gaps.3,
        complaint.len() > 0 ==> !is_white_space(complaint.first()) && !is_white_space(
            complaint.last(),
        ),
        remark.len() > 0 ==> !is_white_space(remark.first()) && !is_white_space(remark.last()),
    ensures
        result->Err_0.message@ == "adb "@ + joined(texts(command.args@)) + " failed ("@
            + output.status@ + "): "@ + complaint + " "@ + remark,
{
    only_the_ends_are_trimmed(gaps.0, complaint, gaps.1);
    only_the_ends_are_trimmed(gaps.2, remark, gaps.3);
}

/// Words are joined by single spaces, in order.
pub proof fn words_are_joined_by_spaces(words: Seq<Seq<char>>, last: Seq<char>)
    ensures
        words.len() == 0 ==> joined(words.push(last)) == last,
        words.len() > 0 ==> joined(words.push(last)) == joined(words) + seq![' '] + last,
{
    reveal_strlit(" ");
    assert(" "@ == seq![' ']);
    assert(words.push(last).drop_last() == words);
}

/// A program that is being written is tried again, up to five times in all,
/// and any other failure is final.
pub proof fn only_a_busy_program_is_tried_again(
    attempts: &mut SpawnAttempts,
    os_error: Option<i32>,
    again: bool,
)
    requires
        old(attempts).well_formed(),
        call_ensures(SpawnAttempts::failed, (attempts, os_error), again),
    ensures
        again <==> os_error == Some(26i32) && old(attempts).made < 5,
        again ==> final(attempts).made == old(attempts).made + 1,
        final(attempts).made <= 5,
{
}

/// Each line of a list is a device: what stands before the first tab is its
/// serial and what stands after it its state, both without white space around
/// them.
pub proof fn a_line_is_a_device(
    text: &str,
    devices: Vec<Device>,
    gaps: (Seq<char>, Seq<char>, Seq<char>, Seq<char>),
    serial: Seq<char>,
    state: Seq<char>,
)
    requires
        call_ensures(parse_device_text, (text,), devices),
        text@ == gaps.0 + serial + gaps.1 + seq!['\t'] + gaps.2 + state + gaps.3,
        !text@.contains('\n'),
        !(gaps.0 + serial + gaps.1).contains('\t'),
        blank(gaps.0) && blank(gaps.1) && blank(gaps.2) && blank(gaps.3),
        serial.len() > 0 && !is_white_space(serial.first()) && !is_white_space(serial.last()),
        state.len() > 0 ==> !is_white_space(state.first()) && !is_white_space(state.last()),
    ensures
        devices@.len() == 1,
        devices@[0].serial@ == serial,
        devices@[0].state@ == state,
{
    let line = text@;
    let left = gaps.0 + serial + gaps.1;
    let right = gaps.2 + state + gaps.3;
    assert(line == left + seq!['\t'] + right);
    only_the_ends_are_trimmed(gaps.0, serial, gaps.1);
    only_the_ends_are_trimmed(gaps.2, state, gaps.3);
    lemma_split(left, right);
    assert(entry_of(line) == Some(Entry { serial, state }));
    lemma_position_bound(line, '\n');
    if position(line, '\n') < line.len() {
        assert(line.contains(line[position(line, '\n') as int]));
    }
    assert(lines(line) == seq![line]);
    assert(seq![line].drop_first() == Seq::<Seq<char>>::empty());
    assert(listed(seq![line]) == seq![Entry { serial, state }] + listed(
        Seq::<Seq<char>>::empty(),
    ));
    assert(listed(lines(line)) == seq![Entry { serial, state }]);
    assert(entries(devices@).len() == devices@.len());
    assert(entries(devices@)[0] == devices@[0].entry());
}

proof fn lemma_split(left: Seq<char>, right: Seq<char>)
    requires
        !left.contains('\t'),
    ensures
        ({
            let line = left + seq!['\t'] + right;
            let tab = position(line, '\t') as int;
            &&& tab == left.len()
            &&& tab < line.len()
            &&& line.take(tab) == left
            &&& line.skip(tab + 1) == right
        }),
{
    let line = left + seq!['\t'] + right;
    lemma_position_bound(line, '\t');
    let tab = position(line, '\t') as int;
    assert(line[left.len() as int] == '\t');
    if tab < left.len() {
        assert(left[tab] == '\t');
    }
    assert(line.take(tab) == left);
    assert(line.skip(tab + 1) == right);
}

/// A line without a tab, or with nothing but white space before the first
/// one, is passed over, and the rest of the list is read as if it were not
/// there.
pub proof fn a_line_without_a_device_is_passed_over(
    line: Seq<char>,
    text: &str,
    devices: Vec<Device>,
    rest: &str,
    rest_devices: Vec<Device>,
)
    requires
        call_ensures(parse_device_text, (text,), devices),
        call_ensures(parse_device_text, (rest,), rest_devices),
        text@ == line + seq!['\n'] + rest@,
        !line.contains('\n'),
        !line.contains('\t') || exists|gap: Seq<char>, state: Seq<char>|
            blank(gap) && !gap.contains('\t') && #[trigger] (gap + seq!['\t'] + state) == line,
    ensures
        devices@.len() == rest_devices@.len(),
        forall|i: int|
            0 <= i < devices@.len() ==> (#[trigger] devices@[i]).serial@
                == rest_devices@[i].serial@ && devices@[i].state@ == rest_devices@[i].state@,
{
    let whole = text@;
    assert(whole == line.push('\n') + rest@);
    lists_add_up(line, rest@);
    let first = line.push('\n');
    lemma_position_bound(first, '\n');
    let end = position(first, '\n') as int;
    assert(first[line.len() as int] == '\n');
    if end < line.len() {
        assert(line[end] == '\n');
    }
    assert(first.take(end) == line);
    assert(first.skip(end + 1) == Seq::<char>::empty());
    let stripped = crate::text::strip_carriage_return(line);
    assert(lines(first.skip(end + 1)) == Seq::<Seq<char>>::empty());
    assert(lines(first) == seq![stripped]);
    lemma_no_device(line);
    if stripped != line {
        lemma_no_device_without_return(line);
    }
    assert(seq![stripped].drop_first() == Seq::<Seq<char>>::empty());
    assert(seq![stripped].first() == stripped);
    assert(listed(Seq::<Seq<char>>::empty()) == Seq::<Entry>::empty());
    assert(listed(seq![stripped]) == listed(seq![stripped].drop_first()));
    assert(Seq::<Entry>::empty() + listed(lines(rest@)) == listed(lines(rest@)));
    assert(entries(devices@) == entries(rest_devices@));
    assert(entries(devices@).len() == devices@.len());
    assert(entries(rest_devices@).len() == rest_devices@.len());
    assert forall|i: int| 0 <= i < devices@.len() implies (#[trigger] devices@[i]).serial@
        == rest_devices@[i].serial@ && devices@[i].state@ == rest_devices@[i].state@ by {
        assert(entries(devices@)[i] == devices@[i].entry());
        assert(entries(rest_devices@)[i] == rest_devices@[i].entry());
    }
}

proof fn lemma_no_device(line: Seq<char>)
    requires
        !line.contains('\t') || exists|gap: Seq<char>, state: Seq<char>|
            blank(gap) && !gap.contains('\t') && #[trigger] (gap + seq!['\t'] + state) == line,
    ensures
        entry_of(line) is None,
{
    lemma_position_bound(line, '\t');
    if !line.contains('\t') {
        if position(line, '\t') < line.len() {
            assert(line[position(line, '\t') as int] == '\t');
        }
    } else {
        let (gap, state) = choose|gap: Seq<char>, state: Seq<char>|
            blank(gap) && !gap.contains('\t') && #[trigger] (gap + seq!['\t'] + state) == line;
        lemma_split(gap, state);
        only_blanks_trim_to_nothing(gap);
    }
}

proof fn lemma_no_device_without_return(line: Seq<char>)
    requires
        line.len() > 0,
        line.last() == '\r',
        !line.contains('\t') || exists|gap: Seq<char>, state: Seq<char>|
            blank(gap) && !gap.contains('\t') && #[trigger] (gap + seq!['\t'] + state) == line,
    ensures
        entry_of(line.drop_last()) is None,
{
    let shorter = line.drop_last();
    if !line.contains('\t') {
        assert(!shorter.contains('\t')) by {
            if shorter.contains('\t') {
                assert(line[shorter.index_of('\t')] == '\t');
            }
        }
    } else {
        let (gap, state) = choose|gap: Seq<char>, state: Seq<char>|
            blank(gap) && !gap.contains('\t') && #[trigger] (gap + seq!['\t'] + state) == line;
        assert(state.len() > 0) by {
            if state.len() == 0 {
                assert(line.last() == '\t');
            }
        }
        assert(gap + seq!['\t'] + state.drop_last() == shorter);
    }
    lemma_no_device(shorter);
}

/// A list of devices is read back from the text it is written as, each device
/// in its place.
pub proof fn a_written_list_is_read(text: &str, devices: Vec<Device>, list: Seq<Entry>, i: int)
    requires
        call_ensures(parse_device_text, (text,), devices),
        all_plain(list),
        text@ == list_for(list),
        0 <= i < list.len(),
    ensures
        devices@.len() == list.len(),
        devices@[i].serial@ == list[i].serial,
        devices@[i].state@ == list[i].state,
{
    crate::adb::devices::a_sent_list_reads_back(list);
    encoded_text_decodes_to_itself(list_for(list));
    assert(entries(devices@) == list);
    assert(entries(devices@).len() == devices@.len());
    assert(entries(devices@)[i] == devices@[i].entry());
}

/// Whether a byte is a hexadecimal digit of this value, in either case.
pub open spec fn stands_for(byte: u8, value: int) -> bool {
    ||| 0 <= value < 10 && byte == 0x30 + value
    ||| 10 <= value < 16 && (byte == 0x41 + value - 10 || byte == 0x61 + value - 10)
}

proof fn lemma_stands_for(byte: u8, value: int)
    ensures
        stands_for(byte, value) ==> hex_value(byte) == Some(value as nat),
        (forall|v: int| !#[trigger] stands_for(byte, v)) <==> hex_value(byte) is None,
{
    if hex_value(byte) is Some {
        assert(stands_for(byte, hex_value(byte)->0 as int));
    } else {
        assert forall|v: int| !#[trigger] stands_for(byte, v) by {}
    }
}

/// The number that four hexadecimal digits make.
pub open spec fn four_digits(a: int, b: int, c: int, d: int) -> int {
    4096 * a + 256 * b + 16 * c + d
}

proof fn lemma_four_digits(header: Seq<u8>, a: int, b: int, c: int, d: int)
    requires
        header.len() == 4,
        stands_for(header[0], a),
        stands_for(header[1], b),
        stands_for(header[2], c),
        stands_for(header[3], d),
    ensures
        all_hex(header),
        hex_number(header) == four_digits(a, b, c, d),
{
    lemma_stands_for(header[0], a);
    lemma_stands_for(header[1], b);
    lemma_stands_for(header[2], c);
    lemma_stands_for(header[3], d);
    let three = header.drop_last();
    let two = three.drop_last();
    let one = two.drop_last();
    assert(one.drop_last() == Seq::<u8>::empty());
    assert(hex_number(Seq::<u8>::empty()) == 0);
    assert(one.last() == header[0]);
    assert(hex_number(one) == a);
    assert(two.last() == header[1]);
    assert(hex_number(two) == 16 * a + b);
    assert(three.last() == header[2]);
    assert(hex_number(three) == 256 * a + 16 * b + c);
    assert(header.last() == header[3]);
}

/// A request is its length in four hexadecimal digits, in lower case, and then
/// itself, byte for byte.
pub proof fn a_request_tells_its_length(
    service: &str,
    bytes: Vec<u8>,
    tracking: Vec<u8>,
    a: int,
    b: int,
    c: int,
    d: int,
)
    requires
        call_ensures(request, (service,), bytes),
        call_ensures(track_devices_request, (), tracking),
        0 <= a < 16 && 0 <= b < 16 && 0 <= c < 16 && 0 <= d < 16,
        encode_utf8(service@).len() == four_digits(a, b, c, d),
    ensures
        bytes@.len() == 4 + encode_utf8(service@).len(),
        bytes@.skip(4) == encode_utf8(service@),
        stands_for(bytes@[0], a) && stands_for(bytes@[1], b) && stands_for(bytes@[2], c)
            && stands_for(bytes@[3], d),
        forall|i: int| 0 <= i < 4 ==> !(0x41 <= #[trigger] bytes@[i] <= 0x46),
        service@ == "host:track-devices"@ ==> tracking@ == bytes@,
{
    let n = encode_utf8(service@).len();
    lemma_hex_of_four(n, a, b, c, d);
    assert(hex(n, 4).len() == 4);
    assert(bytes@.skip(4) == encode_utf8(service@));
    assert(bytes@.take(4) == hex(n, 4));
    assert(bytes@[0] == bytes@.take(4)[0]);
    assert(bytes@[1] == bytes@.take(4)[1]);
    assert(bytes@[2] == bytes@.take(4)[2]);
    assert(bytes@[3] == bytes@.take(4)[3]);
}

proof fn lemma_hex_of_four(n: nat, a: int, b: int, c: int, d: int)
    requires
        0 <= a < 16 && 0 <= b < 16 && 0 <= c < 16 && 0 <= d < 16,
        n == four_digits(a, b, c, d),
    ensures
        hex(n, 4) == seq![
            hex_digit(a as nat),
            hex_digit(b as nat),
            hex_digit(c as nat),
            hex_digit(d as nat),
        ],
{
    let n3 = (256 * a + 16 * b + c) as nat;
    let n2 = (16 * a + b) as nat;
    assert(n / 16 == n3 && n % 16 == d);
    assert(n3 / 16 == n2 && n3 % 16 == c);
    assert(n2 / 16 == a && n2 % 16 == b);
    assert(hex(a as nat, 1) == seq![hex_digit(a as nat)]);
    assert(hex(n2, 2) == hex(a as nat, 1).push(hex_digit(b as nat)));
    assert(hex(n3, 3) == hex(n2, 2).push(hex_digit(c as nat)));
    assert(hex(n, 4) == hex(n3, 3).push(hex_digit(d as nat)));
}

/// "OKAY" from the server is a connection, and all that came after it is kept
/// for the lists.
pub proof fn a_server_that_agrees_is_connected_to(
    stream: Stream,
    connecting: Connecting,
    rest: Seq<u8>,
)
    requires
        call_ensures(TrackDevicesClient::connect, (stream,), connecting),
        stream.pending@ == seq![0x4fu8, 0x4b, 0x41, 0x59] + rest,
    ensures
        connecting is Connected,
        connecting->Connected_0.stream.pending@ == rest,
        connecting->Connected_0.stream.ended == stream.ended,
{
    assert(stream.pending@.take(4) == seq![0x4fu8, 0x4b, 0x41, 0x59]);
    assert(stream.pending@.skip(4) == rest);
}

/// "FAIL" from the server is a refusal, and what it says is as many bytes as
/// the four digits after that tell.
pub proof fn a_server_that_refuses_says_why(
    stream: Stream,
    connecting: Connecting,
    header: Seq<u8>,
    said: Seq<u8>,
    rest: Seq<u8>,
    a: int,
    b: int,
    c: int,
    d: int,
)
    requires
        call_ensures(TrackDevicesClient::connect, (stream,), connecting),
        stream.pending@ == seq![0x46u8, 0x41, 0x49, 0x4c] + header + said + rest,
        header.len() == 4,
        stands_for(header[0], a) && stands_for(header[1], b) && stands_for(header[2], c)
            && stands_for(header[3], d),
        said.len() == four_digits(a, b, c, d),
    ensures
        connecting is Failed,
        connecting->Failed_0 is Refused,
        connecting->Failed_0->Refused_0@ == said,
{
    let bytes = stream.pending@;
    let inner = bytes.skip(4);
    let fail = seq![0x46u8, 0x41, 0x49, 0x4c];
    assert(bytes.take(4) == fail);
    assert(fail[0] == 0x46);
    assert(inner == header + said + rest);
    assert(inner.take(4) == header);
    lemma_four_digits(header, a, b, c, d);
    assert(inner.subrange(4, 4 + said.len() as int) == said);
}

/// A refusal that is not whole yet is waited for, unless the connection has
/// ended: then it is an error, and a refusal without a word only if nothing at
/// all came after "FAIL".
pub proof fn a_refusal_is_waited_for(stream: Stream, connecting: Connecting, part: Seq<u8>)
    requires
        call_ensures(TrackDevicesClient::connect, (stream,), connecting),
        stream.pending@ == seq![0x46u8, 0x41, 0x49, 0x4c] + part,
        part.len() < 4,
    ensures
        !stream.ended ==> connecting is Pending && connecting->Pending_0.pending@
            == stream.pending@ && !connecting->Pending_0.ended,
        stream.ended ==> connecting is Failed,
        stream.ended && part.len() == 0 ==> connecting->Failed_0 is Refused
            && connecting->Failed_0->Refused_0@.len() == 0,
        stream.ended && part.len() > 0 ==> connecting->Failed_0 is UnexpectedEnd,
{
    let bytes = stream.pending@;
    let fail = seq![0x46u8, 0x41, 0x49, 0x4c];
    assert(bytes.take(4) == fail);
    assert(fail[0] == 0x46);
    assert(bytes.skip(4) == part);
}

/// Any other four bytes are an answer there is no such thing as, and are told
/// as they are. Fewer are waited for, unless the connection has ended.
pub proof fn any_other_answer_is_an_error(stream: Stream, connecting: Connecting)
    requires
        call_ensures(TrackDevicesClient::connect, (stream,), connecting),
    ensures
        ({
            let bytes = stream.pending@;
            let okay = bytes[0] == 0x4f && bytes[1] == 0x4b && bytes[2] == 0x41 && bytes[3] == 0x59;
            let fail = bytes[0] == 0x46 && bytes[1] == 0x41 && bytes[2] == 0x49 && bytes[3] == 0x4c;
            &&& bytes.len() >= 4 && !okay && !fail ==> connecting == Connecting::Failed(
                TrackError::UnexpectedStatus(bytes[0], bytes[1], bytes[2], bytes[3]),
            )
            &&& bytes.len() < 4 && !stream.ended ==> connecting is Pending
                && connecting->Pending_0.pending@ == bytes && !connecting->Pending_0.ended
            &&& bytes.len() < 4 && stream.ended ==> connecting == Connecting::Failed(
                TrackError::UnexpectedEnd,
            )
            &&& connecting is Connected ==> bytes.len() >= 4 && okay
        }),
{
    let bytes = stream.pending@;
    if bytes.len() >= 4 {
        let four = bytes.take(4);
        assert(four[0] == bytes[0] && four[1] == bytes[1] && four[2] == bytes[2] && four[3]
            == bytes[3]);
        let okay = seq![0x4fu8, 0x4b, 0x41, 0x59];
        let fail = seq![0x46u8, 0x41, 0x49, 0x4c];
        assert(okay[0] == 0x4f && okay[1] == 0x4b && okay[2] == 0x41 && okay[3] == 0x59);
        assert(fail[0] == 0x46 && fail[1] == 0x41 && fail[2] == 0x49 && fail[3] == 0x4c);
        if bytes[0] == 0x4f && bytes[1] == 0x4b && bytes[2] == 0x41 && bytes[3] == 0x59 {
            assert(four == okay);
        }
        if bytes[0] == 0x46 && bytes[1] == 0x41 && bytes[2] == 0x49 && bytes[3] == 0x4c {
            assert(four == fail);
        }
    }
}

/// A list that was sent is received, whatever comes after it: its length in
/// four hexadecimal digits of either case, and then as many bytes. What comes
/// after it is left for the next list.
pub proof fn a_list_is_received_as_it_was_sent(
    client: &mut TrackDevicesClient,
    snapshot: Snapshot,
    header: Seq<u8>,
    list: Seq<Entry>,
    rest: Seq<u8>,
    a: int,
    b: int,
    c: int,
    d: int,
)
    requires
        call_ensures(TrackDevicesClient::next_snapshot, (client,), snapshot),
        all_plain(list),
        header.len() == 4,
        stands_for(header[0], a) && stands_for(header[1], b) && stands_for(header[2], c)
            && stands_for(header[3], d),
        encode_utf8(list_for(list)).len() == four_digits(a, b, c, d),
        old(client).stream.pending@ == header + encode_utf8(list_for(list)) + rest,
    ensures
        snapshot is Devices,
        snapshot->Devices_0@.len() == list.len(),
        forall|i: int|
            0 <= i < list.len() ==> (#[trigger] snapshot->Devices_0@[i]).serial@ == list[i].serial
                && snapshot->Devices_0@[i].state@ == list[i].state,
        final(client).stream.pending@ == rest,
        final(client).stream.ended == old(client).stream.ended,
{
    let bytes = old(client).stream.pending@;
    let payload = encode_utf8(list_for(list));
    let n = payload.len() as int;
    assert(bytes.take(4) == header);
    lemma_four_digits(header, a, b, c, d);
    assert(bytes.subrange(4, 4 + n) == payload);
    assert(bytes.skip(4 + n) == rest);
    crate::adb::devices::a_sent_list_reads_back(list);
    let devices = snapshot->Devices_0@;
    assert(entries(devices) == list);
    assert(entries(devices).len() == devices.len());
    assert forall|i: int| 0 <= i < list.len() implies (#[trigger] devices[i]).serial@
        == list[i].serial && devices[i].state@ == list[i].state by {
        assert(entries(devices)[i] == devices[i].entry());
    }
}

/// A list that is not whole yet is waited for, and nothing of it is lost. If
/// the connection has ended, that is the end between two lists and an error
/// in the middle of one.
pub proof fn a_list_is_waited_for(
    client: &mut TrackDevicesClient,
    snapshot: Snapshot,
    a: int,
    b: int,
    c: int,
    d: int,
)
    requires
        call_ensures(TrackDevicesClient::next_snapshot, (client,), snapshot),
        ({
            let bytes = old(client).stream.pending@;
            bytes.len() < 4 || (stands_for(bytes[0], a) && stands_for(bytes[1], b) && stands_for(
                bytes[2],
                c,
            ) && stands_for(bytes[3], d) && bytes.len() < 4 + four_digits(a, b, c, d))
        }),
    ensures
        ({
            let before = old(client).stream;
            &&& final(client).stream.pending@ == before.pending@
            &&& !before.ended ==> snapshot is Pending
            &&& before.ended && before.pending@.len() == 0 ==> snapshot is Closed
            &&& before.ended && before.pending@.len() > 0 ==> snapshot == Snapshot::Failed(
                TrackError::UnexpectedEnd,
            )
        }),
{
    let bytes = old(client).stream.pending@;
    if bytes.len() >= 4 {
        lemma_four_digits(bytes.take(4), a, b, c, d);
    }
}

/// A length that holds anything but hexadecimal digits is an error.
pub proof fn a_length_is_four_hexadecimal_digits(
    client: &mut TrackDevicesClient,
    snapshot: Snapshot,
    i: int,
)
    requires
        call_ensures(TrackDevicesClient::next_snapshot, (client,), snapshot),
        old(client).stream.pending@.len() >= 4,
        0 <= i < 4,
        forall|v: int| !#[trigger] stands_for(old(client).stream.pending@[i], v),
    ensures
        snapshot is Failed,
        snapshot->Failed_0 == (if valid_utf8(old(client).stream.pending@.take(4)) {
            TrackError::LengthNotHex
        } else {
            TrackError::LengthNotAscii
        }),
{
    let header = old(client).stream.pending@.take(4);
    assert(header[i] == old(client).stream.pending@[i]);
    lemma_stands_for(header[i], 0);
    assert(hex_value(header[i]) is None);
}

/// Failures are told apart by their kind: what the server sent and should not
/// have is invalid data, an end in the wrong place is that, and a refusal is
/// neither.
pub proof fn failures_have_kinds(error: TrackError, kind: ErrorKind)
    requires
        call_ensures(TrackError::kind, (&error,), kind),
    ensures
        kind is TimedOut <==> error is TimedOut,
        kind is UnexpectedEof <==> error is UnexpectedEnd,
        kind is Other <==> error is Refused,
        kind is InvalidData <==> error is UnexpectedStatus || error is LengthNotAscii
            || error is LengthNotHex,
{
}

/// The sentence for a failure says which it is, and what the server sent.
pub proof fn failures_have_sentences(error: TrackError, said: &str, s: String)
    requires
        call_ensures(TrackError::message_with, (&error, said), s),
    ensures
        error is TimedOut ==> s@ == "timed out connecting to adb server"@,
        error is Refused ==> s@ == "adb server returned FAIL: "@ + said@,
        error is LengthNotAscii ==> s@ == "length prefix was not ASCII"@,
        error is LengthNotHex ==> s@ == "length prefix was not hex"@,
        error is UnexpectedEnd ==> s@ == "early eof"@,
        error matches TrackError::UnexpectedStatus(a, b, c, d) ==> s@
            == "unexpected adb server status: ["@ + decimal(a as nat) + ", "@ + decimal(b as nat)
            + ", "@ + decimal(c as nat) + ", "@ + decimal(d as nat) + "]"@,
{
}

/// A list is handed out device by device: the bytes of each serial and state,
/// and a zero after each; and nothing is handed out that is no list.
pub proof fn a_list_is_handed_out_whole(
    snapshot: Snapshot,
    handed: Option<BridgeAdbDeviceList>,
    i: int,
)
    requires
        call_ensures(snapshot_to_c, (&snapshot,), handed),
    ensures
        handed is Some <==> snapshot is Devices,
        handed is Some ==> handed->0.devices@.len() == snapshot->Devices_0@.len(),
        handed is Some && 0 <= i < snapshot->Devices_0@.len() ==> {
            let serial = encode_utf8(snapshot->Devices_0@[i].serial@);
            let state = encode_utf8(snapshot->Devices_0@[i].state@);
            let device = handed->0.devices@[i];
            &&& !serial.contains(0u8) ==> device.serial@ == serial.push(0u8)
            &&& serial.contains(0u8) ==> device.serial@ == seq![0u8]
            &&& !state.contains(0u8) ==> device.state@ == state.push(0u8)
            &&& state.contains(0u8) ==> device.state@ == seq![0u8]
        },
{
}

/// The tool is the one that is given, or else whichever `adb` is found first,
/// and every command runs it.
pub proof fn commands_run_the_tool(
    found: AdbCli,
    fallback: AdbCli,
    program: String,
    given: AdbCli,
    first: SpawnAttempts,
)
    requires
        call_ensures(AdbCli::new, (), found),
        call_ensures(<AdbCli as Default>::default, (), fallback),
        call_ensures(AdbCli::with_program, (program,), given),
        call_ensures(SpawnAttempts::first, (), first),
    ensures
        found.program@ == seq!['a', 'd', 'b'],
        fallback.program@ == found.program@,
        given.program == program,
        first.made == 1,
{
    reveal_strlit("adb");
    assert("adb"@ == seq!['a', 'd', 'b']);
}

/// What a command left behind in bytes is judged as the text it amounts to.
pub proof fn bytes_are_judged_as_text(
    command: AdbCommand,
    output: CommandOutput,
    result: Result<AdbReply, AdbFailure>,
    text: CommandText,
    other: Result<AdbReply, AdbFailure>,
)
    requires
        call_ensures(AdbCommand::judge, (&command, output), result),
        call_ensures(AdbCommand::finish, (&command, &text), other),
        text.success == output.success,
        text.status@ == output.status@,
        text.stdout@ == utf8_lossy(output.stdout@),
        text.stderr@ == utf8_lossy(output.stderr@),
    ensures
        result is Ok <==> other is Ok,
        result is Ok ==> result->Ok_0 == other->Ok_0,
        result is Err ==> result->Err_0.message@ == other->Err_0.message@,
{
}

/// A list is read from bytes as it is from the text they encode.
pub proof fn a_list_is_read_from_bytes_as_from_text(
    payload: &[u8],
    text: &str,
    from_bytes: Vec<Device>,
    from_text: Vec<Device>,
    i: int,
)
    requires
        call_ensures(parse_device_list, (payload,), from_bytes),
        call_ensures(parse_device_text, (text,), from_text),
        payload@ == encode_utf8(text@) || text@ == utf8_lossy(payload@),
    ensures
        from_bytes@.len() == from_text@.len(),
        0 <= i < from_text@.len() ==> from_bytes@[i].serial@ == from_text@[i].serial@
            && from_bytes@[i].state@ == from_text@[i].state@,
{
    encoded_text_decodes_to_itself(text@);
    assert(entries(from_bytes@) == entries(from_text@));
    assert(entries(from_bytes@).len() == from_bytes@.len());
    assert(entries(from_text@).len() == from_text@.len());
    if 0 <= i < from_text@.len() {
        assert(entries(from_bytes@)[i] == from_bytes@[i].entry());
        assert(entries(from_text@)[i] == from_text@[i].entry());
    }
}

/// What is read is kept in the order in which it arrives, until nothing more
/// comes, and nothing is there to begin with.
pub proof fn what_is_read_is_kept_in_order(
    fresh: Stream,
    stream: &mut Stream,
    bytes: &[u8],
    ended: &mut Stream,
)
    requires
        call_ensures(Stream::new, (), fresh),
        call_ensures(Stream::receive, (stream, bytes), ()),
        call_ensures(Stream::end, (ended,), ()),
    ensures
        fresh.pending@.len() == 0 && !fresh.ended,
        final(stream).pending@.len() == old(stream).pending@.len() + bytes@.len(),
        final(stream).pending@.take(old(stream).pending@.len() as int) == old(stream).pending@,
        final(stream).pending@.skip(old(stream).pending@.len() as int) == bytes@,
        final(stream).ended == old(stream).ended,
        final(ended).pending@ == old(ended).pending@,
        final(ended).ended,
{
    let before = old(stream).pending@;
    let after = final(stream).pending@;
    assert(after.take(before.len() as int) == before);
    assert(after.skip(before.len() as int) == bytes@);
}

/// What a server said when it refused is told as the text it amounts to.
pub proof fn a_refusal_is_told_in_words(error: TrackError, s: String, said: &str, with: String)
    requires
        call_ensures(TrackError::message, (&error,), s),
        call_ensures(TrackError::message_with, (&error, said), with),
    ensures
        error is Refused ==> s@ == "adb server returned FAIL: "@ + utf8_lossy(
            error->Refused_0@,
        ),
        !(error is Refused) ==> s@ == with@,
{
}

} // verus!
