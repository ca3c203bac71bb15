//! The `adb` command-line tool: what to run it with, and what its output
//! means.

use crate::bytes::{decode_lossy, utf8_lossy};
use crate::number::{
    decimal, decimal_reads_back, is_digit, parse_i64, push_decimal, written_i64,
};
use crate::text::{
    chars_of, contains, find, find_text, first_word, first_word_in, has_text, is_empty,
    is_white_space, lemma_find_text, occurs_at, texts, trim, trim_start, trimmed,
    up_to_white_space,
};
use vstd::prelude::*;
use vstd::string::StringExecFns;

verus! {

/// The error of a program that is just being written, and cannot be run yet.
pub const ETXTBSY: i32 = 26;

/// How many times running a program is tried.
pub const MAX_SPAWN_ATTEMPTS: u32 = 5;

/// Milliseconds to wait before trying again.
pub const SPAWN_RETRY_DELAY_MS: u64 = 20;

/// The tool, by the name or path of the program.
#[derive(Debug)]
pub struct AdbCli {
    pub program: String,
}

/// How to tell from its output whether a command succeeded, and with what.
#[derive(Clone, Copy, PartialEq, Eq, Structural, Debug)]
pub enum Judgement {
    /// By the exit status alone.
    ExitStatus,
    /// By the exit status, and by no failure being reported: some devices
    /// report one and exit as if all was well.
    Install,
    /// Like an installation, with an error in place of a failure.
    Start,
    /// By the exit status. The output tells the version of a package.
    VersionCode,
    /// It always succeeds. The output tells whether a process is running.
    Process,
}

/// A command to run.
#[derive(Debug)]
pub struct AdbCommand {
    pub program: String,
    pub args: Vec<String>,
    pub judgement: Judgement,
}

/// What a command left behind. `status` is its exit status in words.
#[derive(Debug)]
pub struct CommandOutput {
    pub success: bool,
    pub status: String,
    pub stdout: Vec<u8>,
    pub stderr: Vec<u8>,
}

/// What a command left behind, as text.
#[derive(Debug)]
pub struct CommandText {
    pub success: bool,
    pub status: String,
    pub stdout: String,
    pub stderr: String,
}

/// What a command that succeeded came to.
#[derive(Clone, Copy, PartialEq, Eq, Structural, Debug)]
pub enum AdbReply {
    /// It is done.
    Done,
    /// The version of a package, if it is installed.
    Version(Option<i64>),
    /// Whether a process is running.
    Running(bool),
}

/// That a command failed, in words.
#[derive(Debug)]
pub struct AdbFailure {
    pub message: String,
}

/// Attempts to run a program: how many there were.
#[derive(Clone, Copy, PartialEq, Eq, Structural, Debug)]
pub struct SpawnAttempts {
    pub made: u32,
}

impl AdbCommand {
    /// Whether this runs `program` with exactly these arguments.
    pub open spec fn runs(self, program: Seq<char>, args: Seq<Seq<char>>) -> bool {
        self.program@ == program && texts(self.args@) == args
    }
}

/// A TCP port as adb writes it.
pub open spec fn tcp(port: u16) -> Seq<char> {
    "tcp:"@ + decimal(port as nat)
}

/// The arguments that tunnel a port of the device to a port of this host.
pub open spec fn reverse_args(serial: Seq<char>, remote_port: u16, local_port: u16) -> Seq<
    Seq<char>,
> {
    seq!["-s"@, serial, "reverse"@, tcp(remote_port), tcp(local_port)]
}

/// The arguments that end such a tunnel.
pub open spec fn reverse_remove_args(serial: Seq<char>, remote_port: u16) -> Seq<Seq<char>> {
    seq!["-s"@, serial, "reverse"@, "--remove"@, tcp(remote_port)]
}

/// The arguments that connect to a device over the network.
pub open spec fn connect_args(host_port: Seq<char>) -> Seq<Seq<char>> {
    seq!["connect"@, host_port]
}

/// The arguments that install a package, or replace it.
pub open spec fn install_args(serial: Seq<char>, apk_path: Seq<char>) -> Seq<Seq<char>> {
    seq!["-s"@, serial, "install"@, "-r"@, apk_path]
}

/// The arguments that ask for what is known of a package.
pub open spec fn version_args(serial: Seq<char>, package: Seq<char>) -> Seq<Seq<char>> {
    seq!["-s"@, serial, "shell"@, "dumpsys"@, "package"@, package]
}

/// The arguments that ask for the processes of a package.
pub open spec fn process_args(serial: Seq<char>, package: Seq<char>) -> Seq<Seq<char>> {
    seq!["-s"@, serial, "shell"@, "pidof"@, package]
}

/// The arguments that start an activity.
pub open spec fn start_args(serial: Seq<char>, component: Seq<char>) -> Seq<Seq<char>> {
    seq!["-s"@, serial, "shell"@, "am"@, "start"@, "-n"@, component]
}

/// The arguments that start an activity, unless it is the one on top.
pub open spec fn launch_args(serial: Seq<char>, component: Seq<char>) -> Seq<Seq<char>> {
    seq!["-s"@, serial, "shell"@, "am"@, "start"@, "--activity-single-top"@, "-n"@, component]
}

fn push_arg(args: &mut Vec<String>, arg: &str)
    ensures
        texts(final(args)@) == texts(old(args)@).push(arg@),
{
    let ghost before = args@;
    args.push(arg.to_string());
    assert(texts(args@) == texts(before).push(arg@));
}

fn push_tcp(args: &mut Vec<String>, port: u16)
    ensures
        texts(final(args)@) == texts(old(args)@).push(tcp(port)),
{
    let ghost before = args@;
    let mut arg = "tcp:".to_string();
    push_decimal(&mut arg, port as u64);
    args.push(arg);
    assert(texts(args@) == texts(before).push(tcp(port)));
}

fn for_device(serial: &str) -> (args: Vec<String>)
    ensures
        texts(args@) == seq!["-s"@, serial@],
{
    let mut args: Vec<String> = Vec::new();
    assert(texts(args@) == Seq::<Seq<char>>::empty());
    push_arg(&mut args, "-s");
    push_arg(&mut args, serial);
    assert(texts(args@) == seq!["-s"@, serial@]);
    args
}

impl AdbCli {
    /// Whichever `adb` is found first.
    pub fn new() -> (adb: AdbCli)
        ensures
            adb.program@ == "adb"@,
    {
        AdbCli { program: "adb".to_string() }
    }

    /// This program.
    pub fn with_program(program: String) -> (adb: AdbCli)
        ensures
            adb.program == program,
    {
        AdbCli { program }
    }

    fn command(&self, args: Vec<String>, judgement: Judgement) -> (command: AdbCommand)
        ensures
            command.program@ == self.program@,
            command.args == args,
            command.judgement == judgement,
    {
        AdbCommand { program: self.program.clone(), args, judgement }
    }

    /// Tunnels a port of the device to a port of this host. A tunnel the port
    /// had before is replaced.
    pub fn reverse(&self, serial: &str, remote_port: u16, local_port: u16) -> (command: AdbCommand)
        ensures
            command.runs(self.program@, reverse_args(serial@, remote_port, local_port)),
            command.judgement is ExitStatus,
    {
        let mut args = for_device(serial);
        push_arg(&mut args, "reverse");
        push_tcp(&mut args, remote_port);
        push_tcp(&mut args, local_port);
        assert(texts(args@) == reverse_args(serial@, remote_port, local_port));
        self.command(args, Judgement::ExitStatus)
    }

    /// Ends the tunnel of a port of the device, if it has one.
    pub fn reverse_remove(&self, serial: &str, remote_port: u16) -> (command: AdbCommand)
        ensures
            command.runs(self.program@, reverse_remove_args(serial@, remote_port)),
            command.judgement is ExitStatus,
    {
        let mut args = for_device(serial);
        push_arg(&mut args, "reverse");
        push_arg(&mut args, "--remove");
        push_tcp(&mut args, remote_port);
        assert(texts(args@) == reverse_remove_args(serial@, remote_port));
        self.command(args, Judgement::ExitStatus)
    }

    /// Connects to a device over the network.
    pub fn connect(&self, host_port: &str) -> (command: AdbCommand)
        ensures
            command.runs(self.program@, connect_args(host_port@)),
            command.judgement is ExitStatus,
    {
        let mut args: Vec<String> = Vec::new();
        assert(texts(args@) == Seq::<Seq<char>>::empty());
        push_arg(&mut args, "connect");
        push_arg(&mut args, host_port);
        assert(texts(args@) == connect_args(host_port@));
        self.command(args, Judgement::ExitStatus)
    }

    /// Installs a package, or replaces it.
    pub fn install(&self, serial: &str, apk_path: &str) -> (command: AdbCommand)
        ensures
            command.runs(self.program@, install_args(serial@, apk_path@)),
            command.judgement is Install,
    {
        let mut args = for_device(serial);
        push_arg(&mut args, "install");
        push_arg(&mut args, "-r");
        push_arg(&mut args, apk_path);
        assert(texts(args@) == install_args(serial@, apk_path@));
        self.command(args, Judgement::Install)
    }

    /// Asks for the version of a package.
    pub fn installed_version_code(&self, serial: &str, package: &str) -> (command: AdbCommand)
        ensures
            command.runs(self.program@, version_args(serial@, package@)),
            command.judgement is VersionCode,
    {
        let mut args = for_device(serial);
        push_arg(&mut args, "shell");
        push_arg(&mut args, "dumpsys");
        push_arg(&mut args, "package");
        push_arg(&mut args, package);
        assert(texts(args@) == version_args(serial@, package@));
        self.command(args, Judgement::VersionCode)
    }

    /// Asks whether a package has a process.
    pub fn is_process_running(&self, serial: &str, package: &str) -> (command: AdbCommand)
        ensures
            command.runs(self.program@, process_args(serial@, package@)),
            command.judgement is Process,
    {
        let mut args = for_device(serial);
        push_arg(&mut args, "shell");
        push_arg(&mut args, "pidof");
        push_arg(&mut args, package);
        assert(texts(args@) == process_args(serial@, package@));
        self.command(args, Judgement::Process)
    }

    /// Starts an activity.
    pub fn start_activity(&self, serial: &str, component: &str) -> (command: AdbCommand)
        ensures
            command.runs(self.program@, start_args(serial@, component@)),
            command.judgement is Start,
    {
        let mut args = for_device(serial);
        push_arg(&mut args, "shell");
        push_arg(&mut args, "am");
        push_arg(&mut args, "start");
        push_arg(&mut args, "-n");
        push_arg(&mut args, component);
        assert(texts(args@) == start_args(serial@, component@));
        self.command(args, Judgement::Start)
    }

    /// Starts an activity, unless it is the one on top.
    pub fn launch_activity(&self, serial: &str, component: &str) -> (command: AdbCommand)
        ensures
            command.runs(self.program@, launch_args(serial@, component@)),
            command.judgement is Start,
    {
        let mut args = for_device(serial);
        push_arg(&mut args, "shell");
        push_arg(&mut args, "am");
        push_arg(&mut args, "start");
        push_arg(&mut args, "--activity-single-top");
        push_arg(&mut args, "-n");
        push_arg(&mut args, component);
        assert(texts(args@) == launch_args(serial@, component@));
        self.command(args, Judgement::Start)
    }
}

impl Default for AdbCli {
    fn default() -> (adb: AdbCli)
        ensures
            adb.program@ == "adb"@,
    {
        AdbCli::new()
    }
}

/// The version a description of a package tells: the number that follows
/// "versionCode=" for the first time, up to where that is repeated.
pub open spec fn version_in(description: Seq<char>) -> Option<i64> {
    let label = "versionCode="@;
    match find_text(description, label, 0) {
        None => None,
        Some(at) => {
            let from = at + label.len();
            let to = match find_text(description, label, from) {
                Some(next) => next,
                None => description.len() as int,
            };
            written_i64(first_word(description.subrange(from, to)))
        },
    }
}

/// The version a description of a package tells.
pub fn version_code(description: &str) -> (version: Option<i64>)
    ensures
        version == version_in(description@),
{
    let chars = chars_of(description);
    let label = chars_of("versionCode=");
    match find(chars.as_slice(), label.as_slice(), 0) {
        None => None,
        Some(at) => {
            let from: usize = at + label.len();
            let to: usize = match find(chars.as_slice(), label.as_slice(), from) {
                Some(next) => next,
                None => chars.len(),
            };
            let (start, end) = first_word_in(chars.as_slice(), from, to);
            parse_i64(chars.as_slice(), start, end)
        },
    }
}

/// Whether a command is judged to have succeeded.
pub open spec fn succeeded(judgement: Judgement, success: bool, stdout: Seq<char>) -> bool {
    match judgement {
        Judgement::ExitStatus => success,
        Judgement::Install => success && !has_text(stdout, "Failure"@),
        Judgement::Start => success && !has_text(stdout, "Error:"@),
        Judgement::VersionCode => success,
        Judgement::Process => true,
    }
}

/// What a command that succeeded came to.
pub open spec fn reply(judgement: Judgement, stdout: Seq<char>) -> AdbReply {
    match judgement {
        Judgement::VersionCode => AdbReply::Version(version_in(stdout)),
        Judgement::Process => AdbReply::Running(trimmed(stdout).len() > 0),
        _ => AdbReply::Done,
    }
}

/// Words with a space between each two.
pub open spec fn joined(words: Seq<Seq<char>>) -> Seq<char>
    decreases words.len(),
{
    if words.len() == 0 {
        Seq::empty()
    } else if words.len() == 1 {
        words[0]
    } else {
        joined(words.drop_last()) + " "@ + words.last()
    }
}

/// That a command failed, in words.
pub open spec fn failure(
    args: Seq<Seq<char>>,
    status: Seq<char>,
    stderr: Seq<char>,
    stdout: Seq<char>,
) -> Seq<char> {
    "adb "@ + joined(args) + " failed ("@ + status + "): "@ + trimmed(stderr) + " "@ + trimmed(
        stdout,
    )
}

/// What a command came to.
pub open spec fn outcome(
    command: AdbCommand,
    success: bool,
    status: Seq<char>,
    stdout: Seq<char>,
    stderr: Seq<char>,
    result: Result<AdbReply, AdbFailure>,
) -> bool {
    if succeeded(command.judgement, success, stdout) {
        result == Ok::<AdbReply, AdbFailure>(reply(command.judgement, stdout))
    } else {
        result is Err && result->Err_0.message@ == failure(
            texts(command.args@),
            status,
            stderr,
            stdout,
        )
    }
}

fn join(args: &Vec<String>) -> (line: String)
    ensures
        line@ == joined(texts(args@)),
{
    let mut line = String::new();
    let mut i: usize = 0;
    assert(texts(args@).take(0).len() == 0);
    assert(line@ == Seq::<char>::empty());
    while i < args.len()
        invariant
            i <= args.len(),
            line@ == joined(texts(args@).take(i as int)),
        decreases args.len() - i,
    {
        let ghost so_far = texts(args@).take(i + 1);
        assert(so_far.drop_last() == texts(args@).take(i as int));
        assert(so_far.last() == args@[i as int]@);
        if i > 0 {
            line.append(" ");
        }
        line.append(args[i].as_str());
        proof {
            if i == 0 {
                assert(line@ == args@[0]@);
            }
        }
        i += 1;
    }
    assert(texts(args@).take(args@.len() as int) == texts(args@));
    line
}

impl AdbCommand {
    /// Judges what the command left behind, as text.
    pub fn finish(&self, output: &CommandText) -> (result: Result<AdbReply, AdbFailure>)
        ensures
            outcome(
                *self,
                output.success,
                output.status@,
                output.stdout@,
                output.stderr@,
                result,
            ),
    {
        let good = match self.judgement {
            Judgement::ExitStatus => output.success,
            Judgement::Install => output.success && !contains(output.stdout.as_str(), "Failure"),
            Judgement::Start => output.success && !contains(output.stdout.as_str(), "Error:"),
            Judgement::VersionCode => output.success,
            Judgement::Process => true,
        };
        if !good {
            return Err(self.command_failed(output));
        }
        match self.judgement {
            Judgement::VersionCode => Ok(AdbReply::Version(version_code(output.stdout.as_str()))),
            Judgement::Process => {
                let processes = trim(output.stdout.as_str());
                Ok(AdbReply::Running(!is_empty(processes.as_str())))
            },
            _ => Ok(AdbReply::Done),
        }
    }

    /// Judges what the command left behind.
    pub fn judge(&self, output: CommandOutput) -> (result: Result<AdbReply, AdbFailure>)
        ensures
            outcome(
                *self,
                output.success,
                output.status@,
                utf8_lossy(output.stdout@),
                utf8_lossy(output.stderr@),
                result,
            ),
    {
        let text = CommandText {
            success: output.success,
            status: output.status,
            stdout: decode_lossy(output.stdout.as_slice()),
            stderr: decode_lossy(output.stderr.as_slice()),
        };
        self.finish(&text)
    }

    fn command_failed(&self, output: &CommandText) -> (failed: AdbFailure)
        ensures
            failed.message@ == failure(
                texts(self.args@),
                output.status@,
                output.stderr@,
                output.stdout@,
            ),
    {
        let mut message = "adb ".to_string();
        let line = join(&self.args);
        message.append(line.as_str());
        message.append(" failed (");
        message.append(output.status.as_str());
        message.append("): ");
        let stderr = trim(output.stderr.as_str());
        message.append(stderr.as_str());
        message.append(" ");
        let stdout = trim(output.stdout.as_str());
        message.append(stdout.as_str());
        AdbFailure { message }
    }
}

impl SpawnAttempts {
    /// There are never too many attempts.
    pub open spec fn well_formed(self) -> bool {
        1 <= self.made <= MAX_SPAWN_ATTEMPTS
    }

    /// The first attempt.
    pub fn first() -> (attempts: SpawnAttempts)
        ensures
            attempts.well_formed(),
            attempts.made == 1,
    {
        SpawnAttempts { made: 1 }
    }

    /// Whether to make another attempt after one failed with this error of
    /// the operating system. Only a program that is just being written is
    /// worth it, and not without end.
    pub fn failed(&mut self, os_error: Option<i32>) -> (again: bool)
        requires
            old(self).well_formed(),
        ensures
            final(self).well_formed(),
            again == (os_error == Some(ETXTBSY) && old(self).made < MAX_SPAWN_ATTEMPTS),
            final(self).made == old(self).made + (if again {
                1int
            } else {
                0
            }),
    {
        let busy = match os_error {
            Some(code) => code == ETXTBSY,
            None => false,
        };
        if busy && self.made < MAX_SPAWN_ATTEMPTS {
            self.made += 1;
            true
        } else {
            false
        }
    }
}

/// Whether a text is empty or begins with white space.
pub open spec fn breaks_off(s: Seq<char>) -> bool {
    s.len() == 0 || is_white_space(s.first())
}

proof fn lemma_word_before_break(word: Seq<char>, rest: Seq<char>)
    requires
        forall|i: int| 0 <= i < word.len() ==> !is_white_space(#[trigger] word[i]),
        breaks_off(rest),
    ensures
        up_to_white_space(word + rest) == word,
    decreases word.len(),
{
    if word.len() == 0 {
        assert(word + rest == rest);
        assert(up_to_white_space(rest) == Seq::<char>::empty());
    } else {
        assert(!is_white_space(word[0]));
        assert forall|i: int| 0 <= i < word.drop_first().len() implies !is_white_space(
            #[trigger] word.drop_first()[i],
        ) by {
            assert(word.drop_first()[i] == word[i + 1]);
        }
        lemma_word_before_break(word.drop_first(), rest);
        assert((word + rest).drop_first() == word.drop_first() + rest);
        assert((word + rest).first() == word[0]);
        assert(seq![word[0]] + word.drop_first() == word);
    }
}

/// A version is read back from the description of a package that tells it:
/// it must follow the first "versionCode=" and be followed by white space,
/// or by nothing.
pub proof fn a_version_is_read_back(before: Seq<char>, version: nat, after: Seq<char>)
    requires
        version <= i64::MAX,
        breaks_off(after),
        forall|i: int|
            0 <= i < before.len() ==> !#[trigger] occurs_at(
                before + "versionCode="@ + decimal(version) + after,
                "versionCode="@,
                i,
            ),
    ensures
        version_in(before + "versionCode="@ + decimal(version) + after) == Some(version as i64),
{
    reveal_strlit("versionCode=");
    let label = "versionCode="@;
    let digits = decimal(version);
    let whole = before + label + digits + after;
    let at = before.len() as int;
    let from = at + label.len();
    decimal_reads_back(version);
    lemma_find_text(whole, label, 0);
    assert(whole.subrange(at, from) == label);
    assert(occurs_at(whole, label, at));
    assert(find_text(whole, label, 0) == Some(at));
    lemma_find_text(whole, label, from);
    let to = match find_text(whole, label, from) {
        Some(next) => next,
        None => whole.len() as int,
    };
    assert(to >= from + digits.len()) by {
        if to < from + digits.len() {
            assert(occurs_at(whole, label, to));
            assert(whole.subrange(to, to + label.len())[0] == label[0]);
            assert(whole[to] == 'v');
            assert(whole[to] == digits[to - from]);
            assert(is_digit(digits[to - from]));
        }
    }
    let told = whole.subrange(from, to);
    let tail = told.skip(digits.len() as int);
    assert(told == digits + tail);
    assert(breaks_off(tail)) by {
        if tail.len() > 0 {
            assert(tail[0] == after[0]);
        }
    }
    assert forall|i: int| 0 <= i < digits.len() implies !is_white_space(#[trigger] digits[i]) by {
        assert(is_digit(digits[i]));
    }
    assert(is_digit(digits[0]));
    assert(told.first() == digits[0]);
    assert(trim_start(told) == told);
    lemma_word_before_break(digits, tail);
}

} // verus!
