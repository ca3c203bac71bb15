//! What the daemon does for devices, stated of what goes in and what comes
//! out.

use crate::adb::cli::{AdbCli, AdbCommand, AdbFailure, AdbReply};
use crate::adb::devices::{entries, Device, Entry};
use crate::adb::laws::has_args;
use crate::daemon::adb_watch::{
    exactly_the_new_usable_devices_are_tunneled, remove_all_reverse_tunnels, usable_at, usable_but,
    usable_in, watch_and_tunnel, TunneledDevices, WatchAction, WatchRound, WatchStep,
};
use crate::daemon::companion_app::{ensure_app_ready, AppAction, AppConfig, AppStep};
use crate::daemon::config::{app_config_from_env, can_be_read, makes_sense};
use crate::number::{decimal, decimal_reads_back, is_digit, written_integer};
use crate::text::texts;
use vstd::prelude::*;

verus! {

proof fn lemma_decimal_is_read(n: nat)
    ensures
        written_integer(decimal(n)) == Some(n as int),
        written_integer(seq!['-'] + decimal(n)) == Some(-n),
{
    decimal_reads_back(n);
    assert(is_digit(decimal(n)[0]));
    assert((seq!['-'] + decimal(n)).drop_first() == decimal(n));
}

/// The companion app is described exactly if the environment says everything
/// of it, and then as the environment says.
pub proof fn the_app_is_what_the_environment_says(
    package: Option<String>,
    activity: Option<String>,
    apk_path: Option<String>,
    version_code: Option<String>,
    n: nat,
    config: Option<AppConfig>,
)
    requires
        call_ensures(app_config_from_env, (package, activity, apk_path, version_code), config),
    ensures
        config is Some <==> package is Some && activity is Some && apk_path is Some
            && version_code is Some,
        config is Some ==> {
            &&& config->0.package == package->0
            &&& config->0.activity == activity->0
            &&& config->0.apk_path == apk_path->0
            &&& n <= i64::MAX && version_code->0@ == decimal(n) ==> config->0.version_code == n
            &&& n <= i64::MAX && version_code->0@ == seq!['-'] + decimal(n)
                ==> config->0.version_code == -n
        },
{
    lemma_decimal_is_read(n);
}

/// The environment makes no sense only if it says everything, and the version
/// is not a number: digits after at most one sign, few enough to fit.
pub proof fn only_a_version_can_make_no_sense(
    package: Option<String>,
    activity: Option<String>,
    apk_path: Option<String>,
    version_code: Option<String>,
    n: nat,
    i: int,
    readable: bool,
)
    requires
        call_ensures(can_be_read, (&package, &activity, &apk_path, &version_code), readable),
    ensures
        readable <==> makes_sense(package, activity, apk_path, version_code),
        package is None || activity is None || apk_path is None || version_code is None
            ==> readable,
        package is Some && activity is Some && apk_path is Some && version_code is Some ==> {
            let version = version_code->0@;
            &&& version == decimal(n) ==> (readable <==> n <= i64::MAX)
            &&& version.len() == 0 ==> !readable
            &&& 0 <= i < version.len() && !(48 <= version[i] as u32 <= 57) && !(i == 0 && (
            version[0] == '+' || version[0] == '-')) ==> !readable
        },
{
    lemma_decimal_is_read(n);
    if version_code is Some {
        let version = version_code->0@;
        if 0 <= i < version.len() && !(48 <= version[i] as u32 <= 57) && !(i == 0 && (version[0]
            == '+' || version[0] == '-')) {
            assert(!is_digit(version[i]));
            if version.first() == '-' || version.first() == '+' {
                assert(version.drop_first()[i - 1] == version[i]);
            }
        }
    }
}

/// An activity with a slash in it is started as it stands, and any other as
/// an activity of the package.
pub proof fn an_activity_belongs_to_the_package(config: AppConfig, component: String)
    requires
        call_ensures(AppConfig::component, (&config,), component),
    ensures
        config.activity@.contains('/') ==> component@ == config.activity@,
        !config.activity@.contains('/') ==> component@ == config.package@ + seq!['/']
            + config.activity@,
{
    reveal_strlit("/");
    assert("/"@ == seq!['/']);
}

/// What is run on a device for the companion app in a step.
pub open spec fn runs_for_app(
    step: AppStep,
    adb: AdbCli,
    serial: Seq<char>,
    config: AppConfig,
    command: AdbCommand,
) -> bool {
    let component = if config.activity@.contains('/') {
        config.activity@
    } else {
        config.package@ + seq!['/'] + config.activity@
    };
    match step {
        AppStep::Checking => {
            &&& has_args(
                command,
                adb.program@,
                seq!["-s"@, serial, "shell"@, "dumpsys"@, "package"@, config.package@],
            )
            &&& command.judgement is VersionCode
        },
        AppStep::Installing => {
            &&& has_args(
                command,
                adb.program@,
                seq!["-s"@, serial, "install"@, "-r"@, config.apk_path@],
            )
            &&& command.judgement is Install
        },
        AppStep::Probing => {
            &&& has_args(
                command,
                adb.program@,
                seq!["-s"@, serial, "shell"@, "pidof"@, config.package@],
            )
            &&& command.judgement is Process
        },
        AppStep::Launching => {
            &&& has_args(
                command,
                adb.program@,
                seq![
                    "-s"@,
                    serial,
                    "shell"@,
                    "am"@,
                    "start"@,
                    "--activity-single-top"@,
                    "-n"@,
                    component,
                ],
            )
            &&& command.judgement is Start
        },
    }
}

proof fn lemma_app_command(
    step: AppStep,
    adb: AdbCli,
    serial: Seq<char>,
    config: AppConfig,
    command: AdbCommand,
)
    requires
        step.asks(adb.program@, serial, config, command),
    ensures
        runs_for_app(step, adb, serial, config, command),
{
    reveal_strlit("/");
    assert("/"@ == seq!['/']);
    assert(texts(command.args@).len() == command.args@.len());
    assert forall|i: int| 0 <= i < command.args@.len() implies #[trigger] command.args@[i]@
        == step.args(serial, config)[i] by {
        assert(texts(command.args@)[i] == command.args@[i]@);
    }
}

/// Getting the app ready begins with asking for its version on the device.
pub proof fn the_version_is_asked_for_first(
    adb: AdbCli,
    serial: &str,
    config: AppConfig,
    command: AdbCommand,
)
    requires
        call_ensures(ensure_app_ready, (&adb, serial, &config), command),
    ensures
        runs_for_app(AppStep::Checking, adb, serial@, config, command),
{
    lemma_app_command(AppStep::Checking, adb, serial@, config, command);
}

/// The app is installed exactly if the device has another version of it or
/// none. It is started exactly if it is not running, whether or not it was
/// installed before. Nothing is done after the first failure.
pub proof fn the_app_is_got_ready(
    step: AppStep,
    adb: AdbCli,
    serial: &str,
    config: AppConfig,
    result: Result<AdbReply, AdbFailure>,
    action: AppAction,
)
    requires
        result is Ok ==> step.expects(result->Ok_0),
        call_ensures(AppStep::advance, (step, &adb, serial, &config, result), action),
    ensures
        action is Run ==> runs_for_app(action->Run_0, adb, serial@, config, action->Run_1),
        result is Err ==> action == AppAction::Finish(Err(result->Err_0)),
        result == Ok::<AdbReply, AdbFailure>(AdbReply::Version(Some(config.version_code)))
            && step is Checking ==> action is Run && action->Run_0 is Probing,
        result is Ok && step is Checking && result->Ok_0 != AdbReply::Version(
            Some(config.version_code),
        ) ==> action is Run && action->Run_0 is Installing,
        result is Ok && step is Installing ==> action is Run && action->Run_0 is Probing,
        result == Ok::<AdbReply, AdbFailure>(AdbReply::Running(false)) && step is Probing
            ==> action is Run && action->Run_0 is Launching,
        result == Ok::<AdbReply, AdbFailure>(AdbReply::Running(true)) && step is Probing
            ==> action == AppAction::Finish(Ok(())),
        result is Ok && step is Launching ==> action == AppAction::Finish(Ok(())),
{
    if action is Run {
        lemma_app_command(action->Run_0, adb, serial@, config, action->Run_1);
    }
}

/// What a round runs now: for the device in turn, and either a tunnel with
/// the daemon's port at both ends, or what the app needs next.
pub open spec fn runs_for_round(
    round: WatchRound,
    adb: AdbCli,
    local_port: u16,
    config: Option<AppConfig>,
    action: WatchAction,
) -> bool {
    let serial = round.queue@[round.turn as int]@;
    let port = "tcp:"@ + decimal(local_port as nat);
    match round.step {
        WatchStep::Tunneling => {
            &&& action is Run
            &&& has_args(
                action->Run_0,
                adb.program@,
                seq!["-s"@, serial, "reverse"@, port, port],
            )
            &&& action->Run_0.judgement is ExitStatus
        },
        WatchStep::Preparing(step) => {
            &&& action is Run
            &&& runs_for_app(step, adb, serial, config->0, action->Run_0)
        },
        WatchStep::Over => action is Finish,
    }
}

proof fn lemma_round_command(
    round: WatchRound,
    adb: AdbCli,
    local_port: u16,
    config: Option<AppConfig>,
    action: WatchAction,
)
    requires
        round.asks(adb, local_port, config, action),
    ensures
        runs_for_round(round, adb, local_port, config, action),
{
    let serial = round.queue@[round.turn as int]@;
    match round.step {
        WatchStep::Tunneling => {
            let command = action->Run_0;
            assert(texts(command.args@).len() == command.args@.len());
            let port = "tcp:"@ + decimal(local_port as nat);
            let args = seq!["-s"@, serial, "reverse"@, port, port];
            assert forall|i: int| 0 <= i < args.len() implies #[trigger] command.args@[i]@
                == args[i] by {
                assert(texts(command.args@)[i] == command.args@[i]@);
            }
        },
        WatchStep::Preparing(step) => {
            lemma_app_command(step, adb, serial, config->0, action->Run_0);
        },
        WatchStep::Over => {},
    }
}

/// Whether a list has a usable device with this serial.
pub open spec fn lists_usable(devices: Seq<Device>, serial: Seq<char>) -> bool {
    exists|i: int|
        0 <= i < devices.len() && (#[trigger] devices[i]).serial@ == serial && devices[i].state@
            == "device"@
}

proof fn lemma_lists_usable(devices: Seq<Device>, serial: Seq<char>)
    ensures
        lists_usable(devices, serial) <==> usable_in(entries(devices)).contains(serial),
{
    let list = entries(devices);
    assert(list.len() == devices.len());
    if lists_usable(devices, serial) {
        let i = choose|i: int|
            0 <= i < devices.len() && (#[trigger] devices[i]).serial@ == serial
                && devices[i].state@ == "device"@;
        assert(list[i] == devices[i].entry());
        assert(usable_at(list, serial, i));
    }
    if usable_in(list).contains(serial) {
        let i = choose|i: int| #[trigger] usable_at(list, serial, i);
        assert(list[i] == devices[i].entry());
    }
}

/// A round for a list of devices tunnels those that adb calls "device" and
/// that are not tunneled yet, each of them once, in the order of the list. It
/// begins with the first of them, and tunnels it to the port of the daemon. If
/// there are none, it is over, and devices that are gone are forgotten.
pub proof fn a_round_is_for_the_new_devices(
    devices: Vec<Device>,
    adb: AdbCli,
    local_port: u16,
    tunneled: &mut TunneledDevices,
    begun: (WatchRound, WatchAction),
    config: Option<AppConfig>,
    serial: Seq<char>,
)
    requires
        old(tunneled).well_formed(),
        call_ensures(watch_and_tunnel, (&devices, &adb, local_port, tunneled), begun),
    ensures
        ({
            let (round, action) = begun;
            let known = old(tunneled).set();
            &&& round.turn == 0
            &&& round.to_tunnel().contains(serial) <==> lists_usable(devices@, serial)
                && !known.contains(serial)
            &&& round.to_tunnel().no_duplicates()
            &&& round.usable_set().contains(serial) <==> lists_usable(devices@, serial)
            &&& round.queue@.len() > 0 ==> round.step is Tunneling && final(tunneled).set()
                == known
            &&& round.queue@.len() == 0 ==> round.step is Over
                && (final(tunneled).set().contains(serial) <==> known.contains(serial)
                && lists_usable(devices@, serial))
            &&& runs_for_round(round, adb, local_port, config, action)
        }),
{
    let (round, action) = begun;
    let list = entries(devices@);
    exactly_the_new_usable_devices_are_tunneled(list, old(tunneled).set());
    lemma_lists_usable(devices@, serial);
    assert(round.to_tunnel().len() == round.queue@.len());
    assert(usable_in(list).contains(serial) <==> usable_in(list).contains(serial));
    assert(!(round.step is Preparing));
    lemma_round_command(round, adb, local_port, None, action);
}

/// Devices are tunneled in the order in which the list has them.
pub proof fn devices_are_tunneled_in_order(
    devices: Vec<Device>,
    adb: AdbCli,
    local_port: u16,
    tunneled: &mut TunneledDevices,
    begun: (WatchRound, WatchAction),
    i: int,
    j: int,
)
    requires
        old(tunneled).well_formed(),
        call_ensures(watch_and_tunnel, (&devices, &adb, local_port, tunneled), begun),
        0 <= i < j < begun.0.queue@.len(),
    ensures
        exists|p: int|
            0 <= p < devices@.len() && (#[trigger] devices@[p]).serial@ == begun.0.queue@[i]@
                && devices@[p].state@ == "device"@ && forall|q: int|
                0 <= q < devices@.len() && (#[trigger] devices@[q]).serial@ == begun.0.queue@[j]@
                    && devices@[q].state@ == "device"@ ==> p < q,
{
    let list = entries(devices@);
    let queue = begun.0.to_tunnel();
    assert(queue.len() == begun.0.queue@.len());
    assert(queue[i] == begun.0.queue@[i]@ && queue[j] == begun.0.queue@[j]@);
    lemma_in_order(list, old(tunneled).set(), i, j);
    let p = choose|p: int|
        #[trigger] usable_at(list, queue[i], p) && forall|q: int|
            #[trigger] usable_at(list, queue[j], q) ==> p < q;
    assert(list[p] == devices@[p].entry());
    assert forall|q: int|
        0 <= q < devices@.len() && (#[trigger] devices@[q]).serial@ == queue[j]
            && devices@[q].state@ == "device"@ implies p < q by {
        assert(list[q] == devices@[q].entry());
        assert(usable_at(list, queue[j], q));
    }
    assert(devices@[p].serial@ == begun.0.queue@[i]@);
}

proof fn lemma_in_order(list: Seq<Entry>, known: Set<Seq<char>>, i: int, j: int)
    requires
        0 <= i < j < usable_but(list, known).len(),
    ensures
        exists|p: int|
            #[trigger] usable_at(list, usable_but(list, known)[i], p) && forall|q: int|
                #[trigger] usable_at(list, usable_but(list, known)[j], q) ==> p < q,
    decreases list.len(),
{
    let shorter = list.drop_last();
    let last = list.len() - 1;
    let queue = usable_but(list, known);
    let earlier = usable_but(shorter, known);
    exactly_the_new_usable_devices_are_tunneled(shorter, known);
    exactly_the_new_usable_devices_are_tunneled(list, known);
    assert(queue[i] == earlier[i]);
    assert(earlier.contains(queue[i]));
    if j < earlier.len() {
        lemma_in_order(shorter, known, i, j);
        assert(queue[j] == earlier[j]);
        let p = choose|p: int|
            #[trigger] usable_at(shorter, queue[i], p) && forall|q: int|
                #[trigger] usable_at(shorter, queue[j], q) ==> p < q;
        assert(usable_at(list, queue[i], p));
        assert forall|q: int| #[trigger] usable_at(list, queue[j], q) implies p < q by {
            if q < last {
                assert(usable_at(shorter, queue[j], q));
            }
        }
    } else {
        assert(usable_in(shorter).contains(queue[i]));
        let p = choose|p: int| #[trigger] usable_at(shorter, queue[i], p);
        assert(usable_at(list, queue[i], p));
        assert forall|q: int| #[trigger] usable_at(list, queue[j], q) implies p < q by {
            if q < last {
                assert(usable_at(shorter, queue[j], q));
                assert(usable_in(shorter).contains(queue[j]));
                assert(earlier.contains(queue[j]));
            }
        }
    }
}

/// A device whose tunnel is there is remembered. If there is a companion app,
/// it is seen to next, on that device; if not, and if the tunnel failed, it is
/// the next device's turn, which is tunneled to the port of the daemon.
pub proof fn a_device_whose_tunnel_is_there_is_remembered(
    round: &mut WatchRound,
    adb: AdbCli,
    local_port: u16,
    config: Option<AppConfig>,
    tunneled: &mut TunneledDevices,
    result: Result<AdbReply, AdbFailure>,
    action: WatchAction,
    serial: Seq<char>,
)
    requires
        old(round).well_formed(),
        old(tunneled).well_formed(),
        old(round).expects(config, result),
        old(round).step is Tunneling,
        call_ensures(
            WatchRound::advance,
            (round, &adb, local_port, &config, tunneled, result),
            action,
        ),
    ensures
        ({
            let device = old(round).queue@[old(round).turn as int]@;
            let known = old(tunneled).set().contains(serial) || (result is Ok && serial == device);
            let ends = final(round).turn == final(round).queue@.len();
            &&& result is Ok && config is Some ==> final(round).turn == old(round).turn
                && final(round).step == WatchStep::Preparing(AppStep::Checking)
            &&& result is Err || config is None ==> final(round).turn == old(round).turn + 1
                && (ends <==> final(round).step is Over)
            &&& result is Err || config is None ==> final(round).step is Over
                || final(round).step is Tunneling
            &&& !(final(round).step is Over) ==> (final(tunneled).set().contains(serial) <==> known)
            &&& final(round).step is Over ==> (final(tunneled).set().contains(serial) <==> known
                && old(round).usable_set().contains(serial))
            &&& final(round).queue == old(round).queue
            &&& final(round).usable == old(round).usable
            &&& runs_for_round(*final(round), adb, local_port, config, action)
        }),
{
    let queue = old(round).to_tunnel();
    assert(queue.len() == old(round).queue@.len());
    assert(queue[old(round).turn as int] == old(round).queue@[old(round).turn as int]@);
    assert(final(round).progress(*final(tunneled)).turn == final(round).turn);
    assert(final(round).progress(*final(tunneled)).step == final(round).step);
    assert(final(round).progress(*final(tunneled)).tunneled == final(tunneled).set());
    lemma_round_command(*final(round), adb, local_port, config, action);
}

/// Whatever comes of the companion app, a device stays tunneled, and no other
/// becomes so. The app is got ready step by step on the device in turn, and
/// when that is over or has failed, it is the next device's turn.
pub proof fn the_app_makes_no_difference_to_tunnels(
    round: &mut WatchRound,
    adb: AdbCli,
    local_port: u16,
    config: Option<AppConfig>,
    tunneled: &mut TunneledDevices,
    result: Result<AdbReply, AdbFailure>,
    action: WatchAction,
    serial: Seq<char>,
)
    requires
        old(round).well_formed(),
        old(tunneled).well_formed(),
        old(round).expects(config, result),
        old(round).step is Preparing,
        call_ensures(
            WatchRound::advance,
            (round, &adb, local_port, &config, tunneled, result),
            action,
        ),
    ensures
        ({
            let step = old(round).step->Preparing_0;
            let known = old(tunneled).set().contains(serial);
            let reply = result->Ok_0;
            let next = if result is Err || step is Launching {
                None
            } else if step is Checking && reply != AdbReply::Version(
                Some(config->0.version_code),
            ) {
                Some(AppStep::Installing)
            } else if step is Checking || step is Installing {
                Some(AppStep::Probing)
            } else if reply == AdbReply::Running(false) {
                Some(AppStep::Launching)
            } else {
                None
            };
            &&& next is Some ==> final(round).turn == old(round).turn && final(round).step
                == WatchStep::Preparing(next->0)
            &&& next is None ==> final(round).turn == old(round).turn + 1
                && (final(round).step is Tunneling || final(round).step is Over)
            &&& !(final(round).step is Over) ==> (final(tunneled).set().contains(serial) <==> known)
            &&& final(round).step is Over ==> (final(tunneled).set().contains(serial) <==> known
                && old(round).usable_set().contains(serial))
            &&& runs_for_round(*final(round), adb, local_port, config, action)
        }),
{
    let queue = old(round).to_tunnel();
    assert(queue.len() == old(round).queue@.len());
    assert(final(round).progress(*final(tunneled)).turn == final(round).turn);
    assert(final(round).progress(*final(tunneled)).step == final(round).step);
    assert(final(round).progress(*final(tunneled)).tunneled == final(tunneled).set());
    lemma_round_command(*final(round), adb, local_port, config, action);
}

/// When the daemon ends, the tunnel of each device is ended, and no other: at
/// the port that it was made with.
pub proof fn every_tunnel_is_ended(
    adb: AdbCli,
    tunneled: TunneledDevices,
    local_port: u16,
    commands: Vec<AdbCommand>,
    i: int,
)
    requires
        call_ensures(remove_all_reverse_tunnels, (&adb, &tunneled, local_port), commands),
        0 <= i < tunneled.serials@.len(),
    ensures
        commands@.len() == tunneled.serials@.len(),
        has_args(
            commands@[i],
            adb.program@,
            seq![
                "-s"@,
                tunneled.serials@[i]@,
                "reverse"@,
                "--remove"@,
                "tcp:"@ + decimal(local_port as nat),
            ],
        ),
        commands@[i].judgement is ExitStatus,
{
    let command = commands@[i];
    let args = seq![
        "-s"@,
        tunneled.serials@[i]@,
        "reverse"@,
        "--remove"@,
        "tcp:"@ + decimal(local_port as nat),
    ];
    assert(command.judgement is ExitStatus);
    assert(texts(command.args@).len() == command.args@.len());
    assert forall|k: int| 0 <= k < args.len() implies #[trigger] command.args@[k]@ == args[k] by {
        assert(texts(command.args@)[k] == command.args@[k]@);
    }
}

/// A device is remembered from when it is added until it is no longer usable,
/// and no other is affected.
pub proof fn devices_are_remembered_while_usable(
    tunneled: &mut TunneledDevices,
    added: String,
    kept: &mut TunneledDevices,
    usable: Vec<String>,
    serial: String,
    yes: bool,
)
    requires
        old(tunneled).well_formed(),
        old(kept).well_formed(),
        call_ensures(TunneledDevices::insert, (tunneled, added), ()),
        call_ensures(TunneledDevices::retain, (kept, &usable), ()),
        call_ensures(TunneledDevices::contains, (final(tunneled), &serial), yes),
    ensures
        yes <==> old(tunneled).set().contains(serial@) || serial@ == added@,
        final(kept).set().contains(serial@) <==> old(kept).set().contains(serial@)
            && exists|i: int| 0 <= i < usable@.len() && #[trigger] usable@[i]@ == serial@,
{
    let allowed = texts(usable@);
    assert(allowed.len() == usable@.len());
    if allowed.contains(serial@) {
        let i = allowed.index_of(serial@);
        assert(usable@[i]@ == serial@);
    }
    if exists|i: int| 0 <= i < usable@.len() && #[trigger] usable@[i]@ == serial@ {
        let i = choose|i: int| 0 <= i < usable@.len() && #[trigger] usable@[i]@ == serial@;
        assert(allowed[i] == serial@);
    }
}

} // verus!
