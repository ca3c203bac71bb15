//! Keeping the companion app installed and running on a device.

use crate::adb::cli::{
    install_args, launch_args, process_args, version_args, AdbCli, AdbCommand, AdbFailure,
    AdbReply, Judgement,
};
use crate::text::{chars_of, lemma_position_bound, position_in};
use vstd::prelude::*;
use vstd::string::StringExecFns;

verus! {

/// The companion app.
#[derive(Clone, Debug)]
pub struct AppConfig {
    pub package: String,
    /// The activity to start: with a slash in it, a component by its full
    /// name, and otherwise an activity of the package.
    pub activity: String,
    pub apk_path: String,
    /// The version in the package file. Any other version on a device, or
    /// none, is replaced.
    pub version_code: i64,
}

/// How far the app is.
#[derive(Clone, Copy, PartialEq, Eq, Structural, Debug)]
pub enum AppStep {
    /// Its version on the device is being asked for.
    Checking,
    /// It is being installed.
    Installing,
    /// It is being asked whether it is running.
    Probing,
    /// It is being started.
    Launching,
}

/// What to do next.
#[derive(Debug)]
pub enum AppAction {
    /// Run this, as part of that step.
    Run(AppStep, AdbCommand),
    /// There is nothing left to do, or something failed.
    Finish(Result<(), AdbFailure>),
}

impl AppConfig {
    /// The component to start.
    pub open spec fn component_name(self) -> Seq<char> {
        if self.activity@.contains('/') {
            self.activity@
        } else {
            self.package@ + "/"@ + self.activity@
        }
    }

    /// The component to start.
    pub fn component(&self) -> (component: String)
        ensures
            component@ == self.component_name(),
    {
        let chars = chars_of(self.activity.as_str());
        assert(chars@.subrange(0, chars@.len() as int) == chars@);
        let slash: usize = position_in(chars.as_slice(), 0, chars.len(), '/');
        proof {
            lemma_position_bound(self.activity@, '/');
        }
        if slash < chars.len() {
            self.activity.clone()
        } else {
            let mut component = self.package.clone();
            component.append("/");
            component.append(self.activity.as_str());
            component
        }
    }
}

impl AppStep {
    /// The arguments adb is run with in this step.
    pub open spec fn args(self, serial: Seq<char>, config: AppConfig) -> Seq<Seq<char>> {
        match self {
            AppStep::Checking => version_args(serial, config.package@),
            AppStep::Installing => install_args(serial, config.apk_path@),
            AppStep::Probing => process_args(serial, config.package@),
            AppStep::Launching => launch_args(serial, config.component_name()),
        }
    }

    /// How adb's output is judged in this step.
    pub open spec fn judgement(self) -> Judgement {
        match self {
            AppStep::Checking => Judgement::VersionCode,
            AppStep::Installing => Judgement::Install,
            AppStep::Probing => Judgement::Process,
            AppStep::Launching => Judgement::Start,
        }
    }

    /// Whether a reply can come in this step.
    pub open spec fn expects(self, reply: AdbReply) -> bool {
        match self {
            AppStep::Checking => reply is Version,
            AppStep::Installing => reply is Done,
            AppStep::Probing => reply is Running,
            AppStep::Launching => reply is Done,
        }
    }

    /// The step that follows a reply, if any. The app is installed if the
    /// device has another version or none, and started if it is not running.
    pub open spec fn follows(self, version_code: i64, reply: AdbReply) -> Option<AppStep> {
        match (self, reply) {
            (AppStep::Checking, AdbReply::Version(installed)) => if installed == Some(
                version_code,
            ) {
                Some(AppStep::Probing)
            } else {
                Some(AppStep::Installing)
            },
            (AppStep::Installing, _) => Some(AppStep::Probing),
            (AppStep::Probing, AdbReply::Running(running)) => if running {
                None
            } else {
                Some(AppStep::Launching)
            },
            _ => None,
        }
    }

    /// Whether an action runs the command of this step.
    pub open spec fn asks(
        self,
        program: Seq<char>,
        serial: Seq<char>,
        config: AppConfig,
        command: AdbCommand,
    ) -> bool {
        command.runs(program, self.args(serial, config)) && command.judgement == self.judgement()
    }

    fn command(&self, adb: &AdbCli, serial: &str, config: &AppConfig) -> (command: AdbCommand)
        ensures
            self.asks(adb.program@, serial@, *config, command),
    {
        match self {
            AppStep::Checking => adb.installed_version_code(serial, config.package.as_str()),
            AppStep::Installing => adb.install(serial, config.apk_path.as_str()),
            AppStep::Probing => adb.is_process_running(serial, config.package.as_str()),
            AppStep::Launching => {
                let component = config.component();
                adb.launch_activity(serial, component.as_str())
            },
        }
    }

    /// Takes in what came of this step. The first failure ends everything.
    pub fn advance(
        self,
        adb: &AdbCli,
        serial: &str,
        config: &AppConfig,
        result: Result<AdbReply, AdbFailure>,
    ) -> (action: AppAction)
        requires
            result is Ok ==> self.expects(result->Ok_0),
        ensures
            match result {
                Err(failure) => action == AppAction::Finish(Err(failure)),
                Ok(reply) => match self.follows(config.version_code, reply) {
                    None => action == AppAction::Finish(Ok(())),
                    Some(step) => {
                        &&& action is Run
                        &&& action->Run_0 == step
                        &&& step.asks(adb.program@, serial@, *config, action->Run_1)
                    },
                },
            },
    {
        let reply = match result {
            Ok(reply) => reply,
            Err(failure) => {
                return AppAction::Finish(Err(failure));
            },
        };
        let step = match (self, reply) {
            (AppStep::Checking, AdbReply::Version(Some(installed))) => {
                if installed == config.version_code {
                    AppStep::Probing
                } else {
                    AppStep::Installing
                }
            },
            (AppStep::Checking, AdbReply::Version(None)) => AppStep::Installing,
            (AppStep::Installing, _) => AppStep::Probing,
            (AppStep::Probing, AdbReply::Running(false)) => AppStep::Launching,
            _ => {
                return AppAction::Finish(Ok(()));
            },
        };
        AppAction::Run(step, step.command(adb, serial, config))
    }
}

/// Begins to get the app ready on a device.
pub fn ensure_app_ready(adb: &AdbCli, serial: &str, config: &AppConfig) -> (command: AdbCommand)
    ensures
        AppStep::Checking.asks(adb.program@, serial@, *config, command),
{
    AppStep::Checking.command(adb, serial, config)
}

/// The steps from one on, as long as each is answered by the next of the
/// replies.
pub open spec fn steps_taken(step: AppStep, version_code: i64, replies: Seq<AdbReply>) -> Seq<
    AppStep,
>
    decreases replies.len(),
{
    if replies.len() == 0 {
        seq![step]
    } else {
        match step.follows(version_code, replies.first()) {
            Some(next) => seq![step] + steps_taken(next, version_code, replies.drop_first()),
            None => seq![step],
        }
    }
}

/// A device that has the right version of the app and runs it is left alone,
/// and one that lacks both gets both.
pub proof fn the_app_is_installed_and_started_as_needed(
    version_code: i64,
    installed: Option<i64>,
    running: bool,
)
    ensures
        ({
            let told = AdbReply::Version(installed);
            let probed = AdbReply::Running(running);
            let start = if running {
                Seq::<AppStep>::empty()
            } else {
                seq![AppStep::Launching]
            };
            if installed == Some(version_code) {
                steps_taken(AppStep::Checking, version_code, seq![told, probed, AdbReply::Done])
                    == seq![AppStep::Checking, AppStep::Probing] + start
            } else {
                steps_taken(
                    AppStep::Checking,
                    version_code,
                    seq![told, AdbReply::Done, probed, AdbReply::Done],
                ) == seq![AppStep::Checking, AppStep::Installing, AppStep::Probing] + start
            }
        }),
{
    reveal_with_fuel(steps_taken, 5);
    let told = AdbReply::Version(installed);
    let probed = AdbReply::Running(running);
    let right = seq![told, probed, AdbReply::Done];
    let wrong = seq![told, AdbReply::Done, probed, AdbReply::Done];
    assert(right.drop_first() == seq![probed, AdbReply::Done]);
    assert(right.drop_first().drop_first() == seq![AdbReply::Done]);
    assert(right.drop_first().drop_first().drop_first() == Seq::<AdbReply>::empty());
    assert(wrong.drop_first() == seq![AdbReply::Done, probed, AdbReply::Done]);
    assert(wrong.drop_first().drop_first() == seq![probed, AdbReply::Done]);
    assert(wrong.drop_first().drop_first().drop_first() == seq![AdbReply::Done]);
    assert(wrong.drop_first().drop_first().drop_first().drop_first() == Seq::<AdbReply>::empty());
}

/// The app is never asked about more than once, and getting it ready takes
/// at most four commands.
pub proof fn getting_the_app_ready_ends(version_code: i64, replies: Seq<AdbReply>)
    ensures
        steps_taken(AppStep::Checking, version_code, replies).len() <= 4,
        steps_taken(AppStep::Checking, version_code, replies).no_duplicates(),
{
    reveal_with_fuel(steps_taken, 5);
}

} // verus!
