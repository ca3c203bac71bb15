//! Keeping every usable device tunneled to the daemon.
//!
//! Each list of devices begins a round: devices that became usable are
//! tunneled one after the other, and those that are gone are forgotten, since
//! their tunnels went with them. The next list tries again what failed.

use crate::adb::cli::{
    reverse_args, reverse_remove_args, AdbCli, AdbCommand, AdbFailure, AdbReply,
};
use crate::adb::devices::{entries, Device, Entry};
use crate::daemon::companion_app::{ensure_app_ready, AppAction, AppConfig, AppStep};
use crate::text::texts;
use vstd::prelude::*;

verus! {

/// Where the adb server listens.
pub const ADB_SERVER_PORT: u16 = 5037;

/// Seconds to wait before watching is begun again after it ended.
pub const RETRY_DELAY_SECONDS: u64 = 5;

/// The serials of the devices that are tunneled, each of them once.
#[derive(Debug)]
pub struct TunneledDevices {
    pub serials: Vec<String>,
}

/// What a round is doing for the device in turn.
#[derive(Clone, Copy, PartialEq, Eq, Structural, Debug)]
pub enum WatchStep {
    /// Tunneling it.
    Tunneling,
    /// Getting the companion app ready on it.
    Preparing(AppStep),
    /// There is no device left.
    Over,
}

/// A round: the devices that are usable, those to tunnel, and which of these
/// is in turn.
#[derive(Debug)]
pub struct WatchRound {
    pub usable: Vec<String>,
    pub queue: Vec<String>,
    pub turn: usize,
    pub step: WatchStep,
}

/// What to do next.
#[derive(Debug)]
pub enum WatchAction {
    /// Run this.
    Run(AdbCommand),
    /// Wait for the next list.
    Finish,
}

/// Whether a device in a list can be used.
pub open spec fn is_usable(entry: Entry) -> bool {
    entry.state == "device"@
}

/// The serials of the usable devices in a list.
pub open spec fn usable_in(list: Seq<Entry>) -> Set<Seq<char>> {
    Set::new(|serial: Seq<char>| exists|i: int| #[trigger] usable_at(list, serial, i))
}

/// Whether the device with this serial stands at this place in a list, and
/// can be used.
pub open spec fn usable_at(list: Seq<Entry>, serial: Seq<char>, i: int) -> bool {
    0 <= i < list.len() && list[i].serial == serial && is_usable(list[i])
}

/// The usable devices of a list that are not among some, each of them once,
/// in the order of the list.
pub open spec fn usable_but(list: Seq<Entry>, known: Set<Seq<char>>) -> Seq<Seq<char>>
    decreases list.len(),
{
    if list.len() == 0 {
        Seq::empty()
    } else {
        let earlier = usable_but(list.drop_last(), known);
        let last = list.last();
        if is_usable(last) && !known.contains(last.serial) && !earlier.contains(last.serial) {
            earlier.push(last.serial)
        } else {
            earlier
        }
    }
}

/// Every device to tunnel is usable and new, none is there twice, and none is
/// missing.
pub proof fn exactly_the_new_usable_devices_are_tunneled(
    list: Seq<Entry>,
    known: Set<Seq<char>>,
)
    ensures
        usable_but(list, known).no_duplicates(),
        forall|serial: Seq<char>|
            #![trigger usable_in(list).contains(serial)]
            #![trigger usable_but(list, known).contains(serial)]
            usable_but(list, known).contains(serial) <==> usable_in(list).contains(serial)
                && !known.contains(serial),
    decreases list.len(),
{
    if list.len() > 0 {
        let shorter = list.drop_last();
        let last = list.last();
        let earlier = usable_but(shorter, known);
        exactly_the_new_usable_devices_are_tunneled(shorter, known);
        assert forall|serial: Seq<char>| #[trigger] usable_in(list).contains(serial) <==> (
        usable_in(shorter).contains(serial) || (is_usable(last) && serial == last.serial)) by {
            if usable_in(list).contains(serial) {
                let i = choose|i: int| #[trigger] usable_at(list, serial, i);
                if i < list.len() - 1 {
                    assert(usable_at(shorter, serial, i));
                }
            }
            if usable_in(shorter).contains(serial) {
                let i = choose|i: int| #[trigger] usable_at(shorter, serial, i);
                assert(usable_at(list, serial, i));
            }
            if is_usable(last) && serial == last.serial {
                assert(usable_at(list, serial, list.len() - 1));
            }
        }
        assert forall|serial: Seq<char>|
            usable_but(list, known).contains(serial) <==> #[trigger] usable_in(list).contains(
                serial,
            ) && !known.contains(serial) by {
            lemma_contains_push(earlier, last.serial);
        }
    }
}

/// Whether a text is among some strings.
fn is_among(strings: &Vec<String>, text: &String) -> (yes: bool)
    ensures
        yes == texts(strings@).contains(text@),
{
    let mut i: usize = 0;
    while i < strings.len()
        invariant
            i <= strings.len(),
            forall|j: int| 0 <= j < i ==> (#[trigger] texts(strings@)[j]) != text@,
        decreases strings.len() - i,
    {
        if strings[i] == *text {
            assert(texts(strings@)[i as int] == text@);
            return true;
        }
        i += 1;
    }
    false
}

impl TunneledDevices {
    /// No device is there twice.
    pub open spec fn well_formed(self) -> bool {
        texts(self.serials@).no_duplicates()
    }

    /// The serials, without an order.
    pub open spec fn set(self) -> Set<Seq<char>> {
        texts(self.serials@).to_set()
    }

    /// No devices.
    pub fn new() -> (tunneled: TunneledDevices)
        ensures
            tunneled.well_formed(),
            tunneled.set() == Set::<Seq<char>>::empty(),
    {
        let tunneled = TunneledDevices { serials: Vec::new() };
        assert(texts(tunneled.serials@) == Seq::<Seq<char>>::empty());
        assert(tunneled.set() == Set::<Seq<char>>::empty());
        tunneled
    }

    /// Whether a device is tunneled.
    pub fn contains(&self, serial: &String) -> (yes: bool)
        ensures
            yes == self.set().contains(serial@),
    {
        is_among(&self.serials, serial)
    }

    /// Adds a device.
    pub fn insert(&mut self, serial: String)
        requires
            old(self).well_formed(),
        ensures
            final(self).well_formed(),
            final(self).set() == old(self).set().insert(serial@),
    {
        let ghost before = texts(self.serials@);
        if self.contains(&serial) {
            assert(self.set() == before.to_set().insert(serial@));
            return;
        }
        let ghost name = serial@;
        self.serials.push(serial);
        proof {
            let after = texts(self.serials@);
            assert(after == before.push(name));
            lemma_contains_push(before, name);
            assert(after.to_set() == before.to_set().insert(name));
        }
    }

    /// Removes the devices that are not among some.
    pub fn retain(&mut self, usable: &Vec<String>)
        requires
            old(self).well_formed(),
        ensures
            final(self).well_formed(),
            final(self).set() == old(self).set().intersect(texts(usable@).to_set()),
    {
        let ghost whole = texts(self.serials@);
        let ghost allowed = texts(usable@);
        let mut kept: Vec<String> = Vec::new();
        let mut i: usize = 0;
        assert(texts(kept@) == Seq::<Seq<char>>::empty());
        assert(whole.take(0).len() == 0);
        while i < self.serials.len()
            invariant
                i <= self.serials.len(),
                whole == texts(self.serials@),
                allowed == texts(usable@),
                texts(kept@) == only_among(whole.take(i as int), allowed),
            decreases self.serials.len() - i,
        {
            let ghost before = texts(kept@);
            assert(whole.take(i + 1).drop_last() == whole.take(i as int));
            assert(whole.take(i + 1).last() == self.serials@[i as int]@);
            if is_among(usable, &self.serials[i]) {
                kept.push(self.serials[i].clone());
                assert(texts(kept@) == before.push(self.serials@[i as int]@));
            }
            i += 1;
        }
        assert(whole.take(whole.len() as int) == whole);
        self.serials = kept;
        proof {
            lemma_only_among(whole, allowed);
            assert(self.set() == whole.to_set().intersect(allowed.to_set()));
        }
    }
}

/// Those of some texts that are also among others, in order.
spec fn only_among(all: Seq<Seq<char>>, allowed: Seq<Seq<char>>) -> Seq<Seq<char>>
    decreases all.len(),
{
    if all.len() == 0 {
        Seq::empty()
    } else if allowed.contains(all.last()) {
        only_among(all.drop_last(), allowed).push(all.last())
    } else {
        only_among(all.drop_last(), allowed)
    }
}

proof fn lemma_contains_push(s: Seq<Seq<char>>, x: Seq<char>)
    ensures
        forall|y: Seq<char>| #[trigger] s.push(x).contains(y) <==> s.contains(y) || y == x,
{
    assert forall|y: Seq<char>| #[trigger] s.push(x).contains(y) <==> s.contains(y) || y == x by {
        if s.contains(y) {
            let i = s.index_of(y);
            assert(s.push(x)[i] == y);
        }
        assert(s.push(x)[s.len() as int] == x);
        if s.push(x).contains(y) && y != x {
            let i = s.push(x).index_of(y);
            assert(s[i] == y);
        }
    }
}

proof fn lemma_only_among(all: Seq<Seq<char>>, allowed: Seq<Seq<char>>)
    ensures
        forall|s: Seq<char>| #[trigger]
            only_among(all, allowed).contains(s) <==> all.contains(s) && allowed.contains(s),
        all.no_duplicates() ==> only_among(all, allowed).no_duplicates(),
    decreases all.len(),
{
    if all.len() > 0 {
        let shorter = all.drop_last();
        let last = all.last();
        lemma_only_among(shorter, allowed);
        assert(shorter.push(last) == all);
        lemma_contains_push(shorter, last);
        lemma_contains_push(only_among(shorter, allowed), last);
        if all.no_duplicates() {
            assert(!shorter.contains(last)) by {
                if shorter.contains(last) {
                    let i = shorter.index_of(last);
                    assert(all[i] == all[all.len() - 1]);
                }
            }
            assert(!only_among(shorter, allowed).contains(last));
        }
    }
}

/// The usable devices of a list that are not tunneled, each of them once.
fn usable_serials(devices: &Vec<Device>, known: &TunneledDevices) -> (serials: Vec<String>)
    ensures
        texts(serials@) == usable_but(entries(devices@), known.set()),
{
    let usable_state = "device".to_string();
    let ghost list = entries(devices@);
    let mut serials: Vec<String> = Vec::new();
    let mut i: usize = 0;
    assert(texts(serials@) == Seq::<Seq<char>>::empty());
    assert(list.take(0).len() == 0);
    while i < devices.len()
        invariant
            i <= devices.len(),
            usable_state@ == "device"@,
            list == entries(devices@),
            texts(serials@) == usable_but(list.take(i as int), known.set()),
        decreases devices.len() - i,
    {
        let ghost before = texts(serials@);
        assert(list.take(i + 1).drop_last() == list.take(i as int));
        assert(list.take(i + 1).last() == devices@[i as int].entry());
        if devices[i].state == usable_state && !known.contains(&devices[i].serial) && !is_among(
            &serials,
            &devices[i].serial,
        ) {
            serials.push(devices[i].serial.clone());
            assert(texts(serials@) == before.push(devices@[i as int].serial@));
        }
        i += 1;
    }
    assert(list.take(list.len() as int) == list);
    serials
}

/// How far a round is, and which devices are tunneled.
#[verifier::ext_equal]
pub struct Progress {
    pub turn: int,
    pub step: WatchStep,
    pub tunneled: Set<Seq<char>>,
}

/// The next device in turn. After the last, those that are no longer usable
/// are forgotten.
pub open spec fn next_turn(
    turn: int,
    tunneled: Set<Seq<char>>,
    queue: Seq<Seq<char>>,
    usable: Set<Seq<char>>,
) -> Progress {
    if turn < queue.len() {
        Progress { turn, step: WatchStep::Tunneling, tunneled }
    } else {
        Progress { turn: queue.len() as int, step: WatchStep::Over, tunneled: tunneled.intersect(usable) }
    }
}

/// How far a round is once a command is through, whose reply is `None` if it
/// failed. A device counts as tunneled from when its tunnel is there, whatever
/// comes of the companion app. `version_code` is the app's, if there is one.
pub open spec fn progressed(
    progress: Progress,
    queue: Seq<Seq<char>>,
    usable: Set<Seq<char>>,
    version_code: Option<i64>,
    reply: Option<AdbReply>,
) -> Progress {
    let onward = progress.turn + 1;
    match progress.step {
        WatchStep::Tunneling => if reply is Some {
            let tunneled = progress.tunneled.insert(queue[progress.turn]);
            if version_code is Some {
                Progress {
                    step: WatchStep::Preparing(AppStep::Checking),
                    tunneled,
                    ..progress
                }
            } else {
                next_turn(onward, tunneled, queue, usable)
            }
        } else {
            next_turn(onward, progress.tunneled, queue, usable)
        },
        WatchStep::Preparing(step) => {
            let next = match reply {
                Some(reply) => step.follows(version_code->0, reply),
                None => None,
            };
            match next {
                Some(step) => Progress { step: WatchStep::Preparing(step), ..progress },
                None => next_turn(onward, progress.tunneled, queue, usable),
            }
        },
        WatchStep::Over => progress,
    }
}

/// The version of the companion app, if there is one.
pub open spec fn version_of(config: Option<AppConfig>) -> Option<i64> {
    match config {
        Some(config) => Some(config.version_code),
        None => None,
    }
}

/// The reply of a command, if it succeeded.
pub open spec fn reply_of(result: Result<AdbReply, AdbFailure>) -> Option<AdbReply> {
    match result {
        Ok(reply) => Some(reply),
        Err(_) => None,
    }
}

impl WatchRound {
    /// As long as the round is not over, a device is in turn.
    pub open spec fn well_formed(self) -> bool {
        &&& self.turn <= self.queue@.len()
        &&& self.step is Over <==> self.turn == self.queue@.len()
    }

    /// The devices to tunnel.
    pub open spec fn to_tunnel(self) -> Seq<Seq<char>> {
        texts(self.queue@)
    }

    /// The devices that are usable.
    pub open spec fn usable_set(self) -> Set<Seq<char>> {
        texts(self.usable@).to_set()
    }

    /// How far this round is.
    pub open spec fn progress(self, tunneled: TunneledDevices) -> Progress {
        Progress { turn: self.turn as int, step: self.step, tunneled: tunneled.set() }
    }

    /// Whether a result can come now.
    pub open spec fn expects(
        self,
        config: Option<AppConfig>,
        result: Result<AdbReply, AdbFailure>,
    ) -> bool {
        match self.step {
            WatchStep::Tunneling => result is Ok ==> result->Ok_0 is Done,
            WatchStep::Preparing(step) => config is Some && (result is Ok ==> step.expects(
                result->Ok_0,
            )),
            WatchStep::Over => false,
        }
    }

    /// Whether an action is what to do now: both ends of a tunnel have the
    /// daemon's port.
    pub open spec fn asks(
        self,
        adb: AdbCli,
        local_port: u16,
        config: Option<AppConfig>,
        action: WatchAction,
    ) -> bool {
        match self.step {
            WatchStep::Tunneling => {
                &&& action matches WatchAction::Run(command)
                &&& command.runs(
                    adb.program@,
                    reverse_args(self.queue@[self.turn as int]@, local_port, local_port),
                )
                &&& command.judgement is ExitStatus
            },
            WatchStep::Preparing(step) => {
                &&& action matches WatchAction::Run(command)
                &&& step.asks(adb.program@, self.queue@[self.turn as int]@, config->0, command)
            },
            WatchStep::Over => action is Finish,
        }
    }

    /// Takes in what came of the last command.
    pub fn advance(
        &mut self,
        adb: &AdbCli,
        local_port: u16,
        config: &Option<AppConfig>,
        tunneled: &mut TunneledDevices,
        result: Result<AdbReply, AdbFailure>,
    ) -> (action: WatchAction)
        requires
            old(self).well_formed(),
            old(tunneled).well_formed(),
            old(self).expects(*config, result),
        ensures
            final(self).well_formed(),
            final(tunneled).well_formed(),
            final(self).queue == old(self).queue,
            final(self).usable == old(self).usable,
            final(self).progress(*final(tunneled)) == progressed(
                old(self).progress(*old(tunneled)),
                old(self).to_tunnel(),
                old(self).usable_set(),
                version_of(*config),
                reply_of(result),
            ),
            final(self).asks(*adb, local_port, *config, action),
    {
        match self.step {
            WatchStep::Tunneling => {
                if result.is_ok() {
                    tunneled.insert(self.queue[self.turn].clone());
                    if let Some(config) = config {
                        self.step = WatchStep::Preparing(AppStep::Checking);
                        return WatchAction::Run(
                            ensure_app_ready(adb, self.queue[self.turn].as_str(), config),
                        );
                    }
                }
            },
            WatchStep::Preparing(step) => {
                if let Some(config) = config {
                    let serial = self.queue[self.turn].as_str();
                    if let AppAction::Run(next, command) = step.advance(
                        adb,
                        serial,
                        config,
                        result,
                    ) {
                        self.step = WatchStep::Preparing(next);
                        return WatchAction::Run(command);
                    }
                }
            },
            WatchStep::Over => {},
        }
        assert(self.turn < self.queue.len());
        self.turn += 1;
        self.take_turn(adb, local_port, tunneled)
    }

    /// Begins with the device in turn, or ends the round.
    fn take_turn(&mut self, adb: &AdbCli, local_port: u16, tunneled: &mut TunneledDevices) -> (action:
        WatchAction)
        requires
            old(self).turn <= old(self).queue@.len(),
            old(tunneled).well_formed(),
        ensures
            final(self).well_formed(),
            final(tunneled).well_formed(),
            final(self).queue == old(self).queue,
            final(self).usable == old(self).usable,
            final(self).progress(*final(tunneled)) == next_turn(
                old(self).turn as int,
                old(tunneled).set(),
                old(self).to_tunnel(),
                old(self).usable_set(),
            ),
            forall|config: Option<AppConfig>| #[trigger]
                final(self).asks(*adb, local_port, config, action),
    {
        if self.turn < self.queue.len() {
            self.step = WatchStep::Tunneling;
            let serial = self.queue[self.turn].as_str();
            WatchAction::Run(adb.reverse(serial, local_port, local_port))
        } else {
            self.step = WatchStep::Over;
            tunneled.retain(&self.usable);
            WatchAction::Finish
        }
    }
}

/// Begins a round for a list of all devices.
pub fn watch_and_tunnel(
    devices: &Vec<Device>,
    adb: &AdbCli,
    local_port: u16,
    tunneled: &mut TunneledDevices,
) -> (begun: (WatchRound, WatchAction))
    requires
        old(tunneled).well_formed(),
    ensures
        begun.0.well_formed(),
        final(tunneled).well_formed(),
        begun.0.usable_set() == usable_in(entries(devices@)),
        begun.0.to_tunnel() == usable_but(entries(devices@), old(tunneled).set()),
        begun.0.progress(*final(tunneled)) == next_turn(
            0,
            old(tunneled).set(),
            begun.0.to_tunnel(),
            begun.0.usable_set(),
        ),
        forall|config: Option<AppConfig>| #[trigger]
            begun.0.asks(*adb, local_port, config, begun.1),
        begun.0.asks(*adb, local_port, None, begun.1),
{
    let none = TunneledDevices::new();
    let usable = usable_serials(devices, &none);
    proof {
        let list = entries(devices@);
        exactly_the_new_usable_devices_are_tunneled(list, none.set());
        assert forall|s: Seq<char>| texts(usable@).to_set().contains(s) <==> usable_in(
            list,
        ).contains(s) by {
            assert(usable_but(list, none.set()).contains(s) <==> usable_in(list).contains(s)
                && !none.set().contains(s));
        }
        assert(texts(usable@).to_set() == usable_in(list));
    }
    let queue = usable_serials(devices, tunneled);
    let mut round = WatchRound { usable, queue, turn: 0, step: WatchStep::Over };
    let action = round.take_turn(adb, local_port, tunneled);
    (round, action)
}

/// Ends the tunnels of all devices.
pub fn remove_all_reverse_tunnels(
    adb: &AdbCli,
    tunneled: &TunneledDevices,
    local_port: u16,
) -> (commands: Vec<AdbCommand>)
    ensures
        commands@.len() == tunneled.serials@.len(),
        forall|i: int|
            0 <= i < commands@.len() ==> {
                &&& (#[trigger] commands@[i]).runs(
                    adb.program@,
                    reverse_remove_args(tunneled.serials@[i]@, local_port),
                )
                &&& commands@[i].judgement is ExitStatus
            },
{
    let mut commands: Vec<AdbCommand> = Vec::new();
    let mut i: usize = 0;
    while i < tunneled.serials.len()
        invariant
            i <= tunneled.serials.len(),
            commands@.len() == i,
            forall|j: int|
                0 <= j < i ==> {
                    &&& (#[trigger] commands@[j]).runs(
                        adb.program@,
                        reverse_remove_args(tunneled.serials@[j]@, local_port),
                    )
                    &&& commands@[j].judgement is ExitStatus
                },
        decreases tunneled.serials.len() - i,
    {
        commands.push(adb.reverse_remove(tunneled.serials[i].as_str(), local_port));
        i += 1;
    }
    commands
}

/// How far a round is after several commands.
pub open spec fn after_replies(
    progress: Progress,
    queue: Seq<Seq<char>>,
    usable: Set<Seq<char>>,
    version_code: Option<i64>,
    replies: Seq<Option<AdbReply>>,
) -> Progress
    decreases replies.len(),
{
    if replies.len() == 0 {
        progress
    } else {
        after_replies(
            progressed(progress, queue, usable, version_code, replies.first()),
            queue,
            usable,
            version_code,
            replies.drop_first(),
        )
    }
}

/// Which of the attempts to tunnel a device succeeded, in order.
pub open spec fn attempts(
    progress: Progress,
    queue: Seq<Seq<char>>,
    usable: Set<Seq<char>>,
    version_code: Option<i64>,
    replies: Seq<Option<AdbReply>>,
) -> Seq<bool>
    decreases replies.len(),
{
    if replies.len() == 0 {
        Seq::empty()
    } else {
        let later = attempts(
            progressed(progress, queue, usable, version_code, replies.first()),
            queue,
            usable,
            version_code,
            replies.drop_first(),
        );
        if progress.step is Tunneling {
            seq![replies.first() is Some] + later
        } else {
            later
        }
    }
}

/// The devices for which an attempt succeeded, the first attempt having been
/// for the device at `from`.
pub open spec fn tunneled_by(queue: Seq<Seq<char>>, from: int, attempts: Seq<bool>) -> Set<
    Seq<char>,
> {
    Set::new(|serial: Seq<char>| exists|i: int| #[trigger] made_at(queue, from, attempts, serial, i))
}

/// Whether this attempt was for this device, and succeeded.
pub open spec fn made_at(
    queue: Seq<Seq<char>>,
    from: int,
    attempts: Seq<bool>,
    serial: Seq<char>,
    i: int,
) -> bool {
    0 <= i < attempts.len() && attempts[i] && queue[from + i] == serial
}

proof fn lemma_over_stays(
    progress: Progress,
    queue: Seq<Seq<char>>,
    usable: Set<Seq<char>>,
    version_code: Option<i64>,
    replies: Seq<Option<AdbReply>>,
)
    requires
        progress.step is Over,
    ensures
        after_replies(progress, queue, usable, version_code, replies) == progress,
        attempts(progress, queue, usable, version_code, replies) == Seq::<bool>::empty(),
    decreases replies.len(),
{
    if replies.len() > 0 {
        lemma_over_stays(progress, queue, usable, version_code, replies.drop_first());
    }
}

proof fn lemma_round(
    progress: Progress,
    queue: Seq<Seq<char>>,
    usable: Set<Seq<char>>,
    version_code: Option<i64>,
    replies: Seq<Option<AdbReply>>,
)
    requires
        0 <= progress.turn < queue.len(),
        !(progress.step is Over),
        after_replies(progress, queue, usable, version_code, replies).step is Over,
    ensures
        ({
            let from = if progress.step is Tunneling {
                progress.turn
            } else {
                progress.turn + 1
            };
            let tried = attempts(progress, queue, usable, version_code, replies);
            &&& tried.len() == queue.len() - from
            &&& after_replies(progress, queue, usable, version_code, replies).tunneled
                == progress.tunneled.union(tunneled_by(queue, from, tried)).intersect(usable)
        }),
    decreases replies.len(),
{
    let next = progressed(progress, queue, usable, version_code, replies.first());
    let rest = replies.drop_first();
    let end = after_replies(progress, queue, usable, version_code, replies);
    let tried = attempts(progress, queue, usable, version_code, replies);
    let later = attempts(next, queue, usable, version_code, rest);
    let from = if progress.step is Tunneling {
        progress.turn
    } else {
        progress.turn + 1
    };
    if next.step is Over {
        lemma_over_stays(next, queue, usable, version_code, rest);
    } else {
        lemma_round(next, queue, usable, version_code, rest);
    }
    let expected = progress.tunneled.union(tunneled_by(queue, from, tried)).intersect(usable);
    if progress.step is Tunneling {
        let succeeded = replies.first() is Some;
        assert(tried == seq![succeeded] + later);
        assert forall|s: Seq<char>| tunneled_by(queue, from, tried).contains(s) <==> (
        tunneled_by(queue, from + 1, later).contains(s) || (succeeded && queue[from] == s)) by {
            if tunneled_by(queue, from, tried).contains(s) {
                let i = choose|i: int| #[trigger] made_at(queue, from, tried, s, i);
                if i > 0 {
                    assert(made_at(queue, from + 1, later, s, i - 1));
                }
            }
            if tunneled_by(queue, from + 1, later).contains(s) {
                let i = choose|i: int| #[trigger] made_at(queue, from + 1, later, s, i);
                assert(made_at(queue, from, tried, s, i + 1));
            }
            if succeeded && queue[from] == s {
                assert(made_at(queue, from, tried, s, 0));
            }
        }
    } else {
        assert(tried == later);
    }
    assert(end.tunneled == expected);
}

/// A round attempts to tunnel each device that became usable exactly once,
/// in order. When it is over, the tunneled devices are those that were
/// tunneled before or for which the attempt succeeded, as far as they are
/// usable.
pub proof fn a_round_tunnels_each_new_device_once(
    tunneled: Set<Seq<char>>,
    queue: Seq<Seq<char>>,
    usable: Set<Seq<char>>,
    version_code: Option<i64>,
    replies: Seq<Option<AdbReply>>,
)
    requires
        after_replies(
            next_turn(0, tunneled, queue, usable),
            queue,
            usable,
            version_code,
            replies,
        ).step is Over,
    ensures
        ({
            let start = next_turn(0, tunneled, queue, usable);
            let tried = attempts(start, queue, usable, version_code, replies);
            &&& tried.len() == queue.len()
            &&& after_replies(start, queue, usable, version_code, replies).tunneled
                == tunneled.union(tunneled_by(queue, 0, tried)).intersect(usable)
        }),
{
    let start = next_turn(0, tunneled, queue, usable);
    if queue.len() > 0 {
        lemma_round(start, queue, usable, version_code, replies);
    } else {
        lemma_over_stays(start, queue, usable, version_code, replies);
        let tried = attempts(start, queue, usable, version_code, replies);
        assert(tunneled_by(queue, 0, tried) == Set::<Seq<char>>::empty());
        assert(tunneled.union(Set::empty()).intersect(usable) == tunneled.intersect(usable));
    }
}

/// The tunneled devices after a round for `list`, of which `tried` tells which
/// attempts succeeded.
pub open spec fn tunneled_after(
    tunneled: Set<Seq<char>>,
    list: Seq<Entry>,
    tried: Seq<bool>,
) -> Set<Seq<char>> {
    tunneled.union(tunneled_by(usable_but(list, tunneled), 0, tried)).intersect(usable_in(list))
}

/// No device is ever tunneled that is not usable.
pub proof fn only_usable_devices_are_tunneled(
    tunneled: Set<Seq<char>>,
    list: Seq<Entry>,
    tried: Seq<bool>,
    serial: Seq<char>,
)
    requires
        tunneled_after(tunneled, list, tried).contains(serial) || usable_but(
            list,
            tunneled,
        ).contains(serial),
    ensures
        usable_in(list).contains(serial),
{
    exactly_the_new_usable_devices_are_tunneled(list, tunneled);
}

/// A device that is tunneled and stays usable is left alone by the next list.
pub proof fn a_tunneled_device_is_left_alone(
    tunneled: Set<Seq<char>>,
    list: Seq<Entry>,
    tried: Seq<bool>,
    next_list: Seq<Entry>,
    serial: Seq<char>,
)
    requires
        tunneled.contains(serial),
        usable_in(list).contains(serial),
    ensures
        !usable_but(list, tunneled).contains(serial),
        !usable_but(next_list, tunneled_after(tunneled, list, tried)).contains(serial),
{
    exactly_the_new_usable_devices_are_tunneled(list, tunneled);
    let after = tunneled_after(tunneled, list, tried);
    exactly_the_new_usable_devices_are_tunneled(next_list, after);
    assert(after.contains(serial));
}

/// A device whose tunnel failed is tried again with the next list, if it is
/// still usable.
pub proof fn a_failed_device_is_tried_again(
    tunneled: Set<Seq<char>>,
    list: Seq<Entry>,
    tried: Seq<bool>,
    next_list: Seq<Entry>,
    i: int,
)
    requires
        tried.len() == usable_but(list, tunneled).len(),
        0 <= i < tried.len(),
        !tried[i],
        usable_in(next_list).contains(usable_but(list, tunneled)[i]),
    ensures
        usable_but(next_list, tunneled_after(tunneled, list, tried)).contains(
            usable_but(list, tunneled)[i],
        ),
{
    let queue = usable_but(list, tunneled);
    let serial = queue[i];
    exactly_the_new_usable_devices_are_tunneled(list, tunneled);
    assert(queue.contains(serial));
    let after = tunneled_after(tunneled, list, tried);
    exactly_the_new_usable_devices_are_tunneled(next_list, after);
    assert(!tunneled_by(queue, 0, tried).contains(serial)) by {
        if tunneled_by(queue, 0, tried).contains(serial) {
            let k = choose|k: int| #[trigger] made_at(queue, 0, tried, serial, k);
            assert(queue[k] == queue[i]);
        }
    }
}

/// A device that was gone for one list is tunneled again when it is back.
pub proof fn a_device_that_was_gone_is_tunneled_again(
    tunneled: Set<Seq<char>>,
    list: Seq<Entry>,
    tried: Seq<bool>,
    next_list: Seq<Entry>,
    serial: Seq<char>,
)
    requires
        !usable_in(list).contains(serial),
        usable_in(next_list).contains(serial),
    ensures
        usable_but(next_list, tunneled_after(tunneled, list, tried)).contains(serial),
{
    exactly_the_new_usable_devices_are_tunneled(next_list, tunneled_after(tunneled, list, tried));
}

} // verus!
